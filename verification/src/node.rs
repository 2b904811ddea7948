//! The overlay's native form of a node identifier.
//!
//! Host-supplied identifiers ([`crate::types::NodeId`]) are free text; before
//! the driver acts on one it is parsed into the overlay's native form.  Peer
//! identifiers are validated base58 text; addresses are re-serialized in the
//! overlay's canonical form.  Parsing failures surface as [`ParseError`]
//! without reaching the driver.

use vstd::prelude::*;
use crate::types;

verus! {

/// Whether `s` is the canonical text of an overlay peer identifier.
pub uninterp spec fn peer_text_valid(s: Seq<char>) -> bool;

/// The canonical text of the multi-layered address written `s`, if `s` parses.
pub uninterp spec fn addr_canon_text(s: Seq<char>) -> Option<Seq<char>>;

/// The canonical peer-identifier text of the last `/p2p/<peer-id>` component
/// of the multi-layered address written `s`, if `s` parses and has one.
pub uninterp spec fn addr_peer_text(s: Seq<char>) -> Option<Seq<char>>;

/// The canonical peer-identifier text derived from a raw Ed25519 public key,
/// if the bytes form a valid key.
pub uninterp spec fn peer_text_of_pk(pk: Seq<u8>) -> Option<Seq<char>>;

/// Relies on `libp2p_identity::PeerId`'s `FromStr`: accepts exactly the
/// canonical base58 texts of peer identifiers.  Base58 text is canonical, so
/// re-serializing an accepted identifier yields the input unchanged.
#[verifier::external_body]
pub(crate) fn parse_peer_text(s: &str) -> (r: bool)
    ensures
        r == peer_text_valid(s@),
{
    s.parse::<libp2p_identity::PeerId>().is_ok()
}

/// Relies on `multiaddr::Multiaddr`'s `FromStr` and `Display`: parses a
/// multi-layered address and re-serializes it canonically.  `Display` output
/// parses back to the same address, so canonicalization is idempotent
/// (second `ensures` clause).
#[verifier::external_body]
pub(crate) fn canon_addr_text(s: &str) -> (r: Option<String>)
    ensures
        (r matches Some(t) ==> addr_canon_text(s@) == Some(t@)),
        (r is None ==> addr_canon_text(s@) is None),
        (r matches Some(t) ==> addr_canon_text(t@) == Some(t@)),
{
    s.parse::<multiaddr::Multiaddr>().ok().map(|a| a.to_string())
}

/// Relies on `multiaddr::Multiaddr::pop` and `libp2p_identity::PeerId`'s
/// `Display`: pops components off the parsed address until a `p2p` component
/// is found and returns that peer identifier's canonical text.  The text is
/// a re-serialized `PeerId`, hence valid peer text (second `ensures` clause).
#[verifier::external_body]
pub(crate) fn peer_of_addr_text(s: &str) -> (r: Option<String>)
    ensures
        (r matches Some(t) ==> addr_peer_text(s@) == Some(t@) && peer_text_valid(t@)),
        (r is None ==> addr_peer_text(s@) is None),
{
    let mut addr: multiaddr::Multiaddr = match s.parse() {
        Ok(a) => a,
        Err(_) => return None,
    };
    while let Some(proto) = addr.pop() {
        if let multiaddr::Protocol::P2p(peer) = proto {
            return Some(peer.to_string());
        }
    }
    None
}

/// Relies on `libp2p_identity::ed25519::PublicKey::try_from_bytes` and
/// `PeerId::from_public_key`: derives the peer identifier of an Ed25519
/// public key.  The text is a re-serialized `PeerId`, hence valid peer text
/// (second `ensures` clause).
#[verifier::external_body]
pub(crate) fn peer_text_of_ed25519(pk: &[u8; 32]) -> (r: Option<String>)
    ensures
        (r matches Some(t) ==> peer_text_of_pk(pk@) == Some(t@) && peer_text_valid(t@)),
        (r is None ==> peer_text_of_pk(pk@) is None),
{
    match libp2p_identity::ed25519::PublicKey::try_from_bytes(pk) {
        Ok(k) => {
            let pk: libp2p_identity::PublicKey = k.into();
            Some(libp2p_identity::PeerId::from_public_key(&pk).to_string())
        },
        Err(_) => None,
    }
}

/// A node identifier in the overlay's native form: validated canonical text.
#[derive(Debug, Clone, Eq, Hash)]
pub enum NodeId {
    /// A validated peer identifier.
    Peer(String),
    /// A canonicalized multi-layered address.
    Addr(String),
}

impl NodeId {
    /// What `==` means on overlay identifiers: same variant, same text.
    pub open spec fn eq_spec_fn(&self, other: &NodeId) -> bool {
        match (self, other) {
            (NodeId::Peer(a), NodeId::Peer(b)) => a@ == b@,
            (NodeId::Addr(a), NodeId::Addr(b)) => a@ == b@,
            _ => false,
        }
    }
}

impl PartialEq for NodeId {
    fn eq(&self, other: &Self) -> (r: bool) {
        match (self, other) {
            (NodeId::Peer(a), NodeId::Peer(b)) => a.eq(b),
            (NodeId::Addr(a), NodeId::Addr(b)) => a.eq(b),
            _ => false,
        }
    }
}

impl vstd::std_specs::cmp::PartialEqSpecImpl for NodeId {
    open spec fn obeys_eq_spec() -> bool {
        true
    }

    open spec fn eq_spec(&self, other: &NodeId) -> bool {
        self.eq_spec_fn(other)
    }
}

/// Why a host-supplied identifier was rejected; carries the offending text.
#[derive(Debug, Clone, PartialEq, Eq)]
pub enum ParseError {
    /// The text is not a well-formed peer identifier.
    Peer(String),
    /// The text is not a well-formed multi-layered address.
    Addr(String),
}

impl NodeId {
    /// The canonical text this identifier carries.
    pub open spec fn text(&self) -> Seq<char> {
        match self {
            NodeId::Peer(s) => s@,
            NodeId::Addr(s) => s@,
        }
    }

    /// Well-formedness: peer text is valid, address text is canonical.
    pub open spec fn wf(&self) -> bool {
        match self {
            NodeId::Peer(s) => peer_text_valid(s@),
            NodeId::Addr(s) => addr_canon_text(s@) == Some(s@),
        }
    }

    /// The relation between a host identifier and its parsed overlay form:
    /// same variant; peer text kept verbatim, address text canonicalized.
    pub open spec fn parses_from(&self, base: types::NodeId) -> bool {
        match base {
            types::NodeId::Peer { peer_id } => self matches NodeId::Peer(t) && t@ == peer_id@
                && peer_text_valid(peer_id@),
            types::NodeId::Address { address } => self matches NodeId::Addr(t) && addr_canon_text(
                address@,
            ) == Some(t@),
        }
    }

    /// The relation between an overlay identifier and its host form:
    /// same variant, text kept verbatim.
    pub open spec fn base_of(&self, base: types::NodeId) -> bool {
        match self {
            NodeId::Peer(s) => base matches types::NodeId::Peer { peer_id } && peer_id@ == s@,
            NodeId::Addr(s) => base matches types::NodeId::Address { address } && address@ == s@,
        }
    }

    /// Parse a host identifier into the overlay form.  Succeeds exactly when
    /// the text is a well-formed peer identifier or address; the error names
    /// the rejected text.
    pub fn try_from_base(base: &types::NodeId) -> (r: Result<NodeId, ParseError>)
        ensures
            (r matches Ok(n) ==> n.parses_from(*base) && n.wf()),
            (base matches types::NodeId::Peer { peer_id } ==> (r is Ok <==> peer_text_valid(
                peer_id@,
            ))),
            (base matches types::NodeId::Address { address } ==> (r is Ok
                <==> addr_canon_text(address@) is Some)),
            (r matches Err(e) ==> match e {
                ParseError::Peer(t) => base matches types::NodeId::Peer { peer_id } && t@
                    == peer_id@,
                ParseError::Addr(t) => base matches types::NodeId::Address { address } && t@
                    == address@,
            }),
    {
        match base {
            types::NodeId::Peer { peer_id } => {
                if parse_peer_text(peer_id.as_str()) {
                    Ok(NodeId::Peer(peer_id.clone()))
                } else {
                    Err(ParseError::Peer(peer_id.clone()))
                }
            },
            types::NodeId::Address { address } => {
                match canon_addr_text(address.as_str()) {
                    Some(canon) => Ok(NodeId::Addr(canon)),
                    None => Err(ParseError::Addr(address.clone())),
                }
            },
        }
    }

    /// Derive an overlay identifier from a raw Ed25519 public key.
    pub fn try_from_base_pk(pk: &crate::config::PublicKey) -> (r: Result<NodeId, ParseError>)
        ensures
            (pk matches crate::config::PublicKey::Ed25519(bytes) ==> ((r is Ok
                <==> peer_text_of_pk(bytes@) is Some) && (r matches Ok(n) ==> n matches
                NodeId::Peer(t) && Some(t@) == peer_text_of_pk(bytes@) && n.wf()))),
    {
        match pk {
            crate::config::PublicKey::Ed25519(bytes) => {
                match peer_text_of_ed25519(bytes) {
                    Some(t) => Ok(NodeId::Peer(t)),
                    None => Err(ParseError::Peer(String::new())),
                }
            },
        }
    }

    /// The identifier's text, as it prints.
    pub fn text_string(&self) -> (r: String)
        ensures
            r@ == self.text(),
    {
        match self {
            NodeId::Peer(s) => s.clone(),
            NodeId::Addr(s) => s.clone(),
        }
    }

    /// Render the identifier back in the host's form, text kept verbatim.
    pub fn to_base(&self) -> (r: types::NodeId)
        ensures
            self.base_of(r),
    {
        match self {
            NodeId::Peer(peer_id) => types::NodeId::Peer { peer_id: peer_id.clone() },
            NodeId::Addr(addr) => types::NodeId::Address { address: addr.clone() },
        }
    }

    /// The peer identifier this node is known by, if any: a `Peer` directly,
    /// an `Addr` through its `/p2p/<peer-id>` tail.
    pub fn peer_text(&self) -> (r: Option<String>)
        ensures
            (self matches NodeId::Peer(s) ==> r matches Some(t) && t@ == s@),
            (self matches NodeId::Addr(s) ==> ((r matches Some(t) ==> addr_peer_text(s@) == Some(
                t@,
            ) && peer_text_valid(t@)) && (r is None ==> addr_peer_text(s@) is None))),
    {
        match self {
            NodeId::Peer(s) => Some(s.clone()),
            NodeId::Addr(s) => peer_of_addr_text(s.as_str()),
        }
    }
}

/// Parsing a host identifier to the overlay form and back yields the original
/// text: verbatim for peer identifiers, and for addresses whenever the input
/// was already canonical.
pub proof fn lemma_node_id_round_trip(b: types::NodeId, n: NodeId, b2: types::NodeId)
    requires
        n.parses_from(b),
        n.base_of(b2),
        b matches types::NodeId::Address { address } ==> addr_canon_text(address@) == Some(
            address@,
        ),
    ensures
        b2.text() == b.text(),
        (b is Peer <==> b2 is Peer),
{
}

} // verus!
