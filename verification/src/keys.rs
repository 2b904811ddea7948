//! Keypair derivation for the node identity.
//!
//! The overlay library owns the keypair type and the Ed25519 arithmetic; this
//! module derives a keypair from the configured identity material.

use vstd::prelude::*;
use crate::config::{Identity, SecretKey};

verus! {

/// The overlay's keypair; opaque to the core, carried through to the host
/// side that builds the transport stack.
#[verifier::external_type_specification]
#[verifier::external_body]
pub struct ExKeypair(libp2p_identity::Keypair);

/// Key material could not be decoded into a keypair.
#[derive(Debug, Clone)]
pub struct KeyError {
    /// What the overlay library reported.
    pub message: String,
}

/// Relies on `libp2p_identity::Keypair::ed25519_from_bytes`: derives an
/// Ed25519 keypair from a 32-byte seed.  For a 32-byte input the call always
/// succeeds (every 32-byte string is a valid Ed25519 secret key).
#[verifier::external_body]
pub fn generate(seed: [u8; 32]) -> (r: Result<libp2p_identity::Keypair, KeyError>)
    ensures
        r is Ok,
{
    libp2p_identity::Keypair::ed25519_from_bytes(seed).map_err(
        |e| KeyError { message: e.to_string() },
    )
}

/// Relies on `libp2p_identity::Keypair::generate_ed25519`: a fresh random
/// Ed25519 keypair.  Nothing can be promised of a random key.
#[verifier::external_body]
fn generate_random() -> (r: libp2p_identity::Keypair) {
    libp2p_identity::Keypair::generate_ed25519()
}

/// Derive the node's keypair from its configured identity.  Derivation never
/// fails: random identities draw a fresh key, and seeds and secret keys are
/// already normalized to 32 bytes.
pub fn keypair_from_identity(identity: &Identity) -> (r: Result<
    libp2p_identity::Keypair,
    KeyError,
>)
    ensures
        r is Ok,
{
    match identity {
        Identity::Random => Ok(generate_random()),
        Identity::Seed(seed) => generate(*seed),
        Identity::Keypair(SecretKey::Ed25519(secret_key)) => generate(*secret_key),
    }
}

} // verus!
