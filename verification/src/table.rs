//! Response-channel correlation table.
//!
//! Every inbound request carries a one-shot reply channel.  The overlay hands
//! the channel to the driver, which stores it here under the key
//! `(sender, protocol, request-id)` until the application answers; answering
//! removes the entry atomically with the send, and shutdown drops the rest.
//! Channels themselves are opaque to the core: the table stores the handles
//! the host side assigned to them.

use vstd::prelude::*;
use crate::node::NodeId;

verus! {

/// Identifies one inbound request awaiting its outbound response.
#[derive(Debug, Clone, PartialEq, Eq)]
pub struct ResponseKey {
    /// The sender of the inbound request.
    pub node: NodeId,
    /// The application protocol the request arrived on.
    pub protocol: String,
    /// The exchange's correlation id.
    pub id: String,
}

/// The mathematical value of a response key.
pub ghost struct ResponseKeyV {
    /// Whether the node is named by peer identifier (else by address).
    pub peer: bool,
    /// The node's canonical text.
    pub node_text: Seq<char>,
    /// The protocol name.
    pub protocol: Seq<char>,
    /// The correlation id.
    pub id: Seq<char>,
}

impl View for ResponseKey {
    type V = ResponseKeyV;

    open spec fn view(&self) -> ResponseKeyV {
        ResponseKeyV {
            peer: self.node is Peer,
            node_text: self.node.text(),
            protocol: self.protocol@,
            id: self.id@,
        }
    }
}

impl ResponseKey {
    /// Whether two keys name the same exchange.
    pub fn key_eq(&self, other: &ResponseKey) -> (r: bool)
        ensures
            r == (self@ == other@),
    {
        let r = self.node.eq(&other.node) && self.protocol.eq(&other.protocol) && self.id.eq(
            &other.id,
        );
        proof {
            if r {
                assert(self@ == other@);
            } else {
                assert(self@.peer != other@.peer || self@.node_text != other@.node_text
                    || self@.protocol != other@.protocol || self@.id != other@.id);
            }
        }
        r
    }
}

/// The table of unanswered inbound requests: each key appears at most once,
/// mapped to the handle of its one-shot reply channel.
#[derive(Debug)]
pub struct ResponseChannelTable {
    /// The entries, in arrival order; keys are unique.
    pub entries: Vec<(ResponseKey, u64)>,
}

impl ResponseChannelTable {
    /// How many requests await their response.
    pub open spec fn len(&self) -> nat {
        self.entries@.len()
    }

    /// The key stored at position `i`.
    pub open spec fn key_at(&self, i: int) -> ResponseKeyV {
        self.entries@[i].0@
    }

    /// The channel handle stored at position `i`.
    pub open spec fn chan_at(&self, i: int) -> u64 {
        self.entries@[i].1
    }

    /// Whether an entry for `k` is present.
    pub open spec fn contains_key(&self, k: ResponseKeyV) -> bool {
        exists|i: int| 0 <= i < self.len() && self.key_at(i) == k
    }

    /// The channel handle stored for `k`, if any.
    pub open spec fn get(&self, k: ResponseKeyV) -> Option<u64> {
        if self.contains_key(k) {
            let i = choose|i: int| 0 <= i < self.len() && self.key_at(i) == k;
            Some(self.chan_at(i))
        } else {
            None
        }
    }

    /// Keys are unique.
    pub open spec fn wf(&self) -> bool {
        forall|i: int, j: int|
            0 <= i < j < self.len() ==> self.key_at(i) != self.key_at(j)
    }

    /// In a well-formed table, an entry at `i` is what `get` finds.
    pub proof fn lemma_get_at(&self, i: int)
        requires
            self.wf(),
            0 <= i < self.len(),
        ensures
            self.get(self.key_at(i)) == Some(self.chan_at(i)),
    {
        let k = self.key_at(i);
        assert(self.contains_key(k));
        let j = choose|j: int| 0 <= j < self.len() && self.key_at(j) == k;
        if i < j {
            assert(self.key_at(i) != self.key_at(j));
        } else if j < i {
            assert(self.key_at(j) != self.key_at(i));
        }
    }

    /// An empty table.
    pub fn new() -> (r: Self)
        ensures
            r.wf(),
            r.len() == 0,
            forall|k: ResponseKeyV| r.get(k) is None,
    {
        ResponseChannelTable { entries: Vec::new() }
    }

    /// How many requests await their response.
    pub fn size(&self) -> (r: usize)
        ensures
            r == self.len(),
    {
        self.entries.len()
    }

    /// The position of the entry for `key`, if present.
    fn find(&self, key: &ResponseKey) -> (r: Option<usize>)
        ensures
            (r matches Some(i) ==> i < self.len() && self.key_at(i as int) == key@),
            (r is None ==> !self.contains_key(key@)),
    {
        let mut i: usize = 0;
        while i < self.entries.len()
            invariant
                i <= self.len(),
                forall|j: int| 0 <= j < i ==> self.key_at(j) != key@,
            decreases self.len() - i,
        {
            if self.entries[i].0.key_eq(key) {
                return Some(i);
            }
            i = i + 1;
        }
        None
    }

    /// Store the reply channel `chan` under `key`.  An existing entry for the
    /// same key is replaced; all other entries are untouched.
    pub fn insert(&mut self, key: ResponseKey, chan: u64)
        requires
            old(self).wf(),
        ensures
            final(self).wf(),
            final(self).get(key@) == Some(chan),
            forall|k2: ResponseKeyV| k2 != key@ ==> final(self).get(k2) == old(self).get(k2),
            final(self).len() == old(self).len() + (if old(self).contains_key(key@) {
                0int
            } else {
                1int
            }),
    {
        let ghost pre = *self;
        match self.find(&key) {
            Some(i) => {
                proof {
                    pre.lemma_get_at(i as int);
                }
                self.entries.remove(i);
                proof {
                    let ghost mid = *self;
                    assert forall|k2: ResponseKeyV| k2 != key@ implies mid.get(k2) == pre.get(k2)
                    by {
                        Self::lemma_remove_preserves(pre, mid, i as int, k2);
                    }
                    assert(mid.wf()) by {
                        Self::lemma_remove_wf(pre, mid, i as int);
                    }
                    assert(!mid.contains_key(key@)) by {
                        Self::lemma_remove_absent(pre, mid, i as int);
                    }
                }
            },
            None => {},
        }
        let ghost mid = *self;
        self.entries.push((key, chan));
        proof {
            assert(self.entries@ == mid.entries@.push((key, chan)));
            assert forall|i: int, j: int| 0 <= i < j < self.len() implies self.key_at(i)
                != self.key_at(j) by {
                if j < self.len() - 1 {
                    assert(mid.key_at(i) != mid.key_at(j));
                } else {
                    assert(self.key_at(j) == key@);
                    assert(self.key_at(i) == mid.key_at(i));
                    assert(!mid.contains_key(key@));
                }
            }
            self.lemma_get_at(self.len() - 1);
            assert forall|k2: ResponseKeyV| k2 != key@ implies self.get(k2) == mid.get(k2) by {
                Self::lemma_push_preserves(mid, *self, key@, k2);
            }
        }
    }

    /// Take the reply channel stored under `key` out of the table, if any.
    pub fn remove(&mut self, key: &ResponseKey) -> (r: Option<u64>)
        requires
            old(self).wf(),
        ensures
            final(self).wf(),
            r == old(self).get(key@),
            final(self).get(key@) is None,
            forall|k2: ResponseKeyV| k2 != key@ ==> final(self).get(k2) == old(self).get(k2),
            final(self).len() == old(self).len() - (if old(self).contains_key(key@) {
                1int
            } else {
                0int
            }),
    {
        let ghost pre = *self;
        match self.find(key) {
            Some(i) => {
                proof {
                    pre.lemma_get_at(i as int);
                }
                let (_, chan) = self.entries.remove(i);
                proof {
                    assert forall|k2: ResponseKeyV| k2 != key@ implies self.get(k2) == pre.get(
                        k2,
                    ) by {
                        Self::lemma_remove_preserves(pre, *self, i as int, k2);
                    }
                    assert(self.wf()) by {
                        Self::lemma_remove_wf(pre, *self, i as int);
                    }
                    assert(!self.contains_key(key@)) by {
                        Self::lemma_remove_absent(pre, *self, i as int);
                    }
                }
                Some(chan)
            },
            None => None,
        }
    }

    /// Drop every entry; used at shutdown.
    pub fn clear(&mut self)
        ensures
            final(self).wf(),
            final(self).len() == 0,
            forall|k: ResponseKeyV| final(self).get(k) is None,
    {
        self.entries.clear();
    }

    /// Removing index `i` keeps every other key's entry.
    proof fn lemma_remove_preserves(pre: Self, post: Self, i: int, k2: ResponseKeyV)
        requires
            pre.wf(),
            0 <= i < pre.len(),
            post.entries@ == pre.entries@.remove(i),
            k2 != pre.key_at(i),
        ensures
            post.get(k2) == pre.get(k2),
    {
        if pre.contains_key(k2) {
            let j = choose|j: int| 0 <= j < pre.len() && pre.key_at(j) == k2;
            pre.lemma_get_at(j);
            let j2: int = if j < i {
                j
            } else {
                j - 1
            };
            assert(post.key_at(j2) == pre.key_at(j));
            assert(post.contains_key(k2));
            let w = choose|w: int| 0 <= w < post.len() && post.key_at(w) == k2;
            let wpre: int = if w < i {
                w
            } else {
                w + 1
            };
            assert(pre.key_at(wpre) == post.key_at(w));
            if wpre != j {
                if wpre < j {
                    assert(pre.key_at(wpre) != pre.key_at(j));
                } else {
                    assert(pre.key_at(j) != pre.key_at(wpre));
                }
            }
            assert(post.chan_at(w) == pre.chan_at(j));
        } else {
            assert(!post.contains_key(k2)) by {
                if post.contains_key(k2) {
                    let w = choose|w: int| 0 <= w < post.len() && post.key_at(w) == k2;
                    let wpre: int = if w < i {
                        w
                    } else {
                        w + 1
                    };
                    assert(pre.key_at(wpre) == post.key_at(w));
                }
            }
        }
    }

    /// Removing an index keeps keys unique.
    proof fn lemma_remove_wf(pre: Self, post: Self, i: int)
        requires
            pre.wf(),
            0 <= i < pre.len(),
            post.entries@ == pre.entries@.remove(i),
        ensures
            post.wf(),
    {
        assert forall|a: int, b: int| 0 <= a < b < post.len() implies post.key_at(a)
            != post.key_at(b) by {
            let apre: int = if a < i {
                a
            } else {
                a + 1
            };
            let bpre: int = if b < i {
                b
            } else {
                b + 1
            };
            assert(post.key_at(a) == pre.key_at(apre));
            assert(post.key_at(b) == pre.key_at(bpre));
            assert(pre.key_at(apre) != pre.key_at(bpre));
        }
    }

    /// Removing the unique entry for a key leaves that key absent.
    proof fn lemma_remove_absent(pre: Self, post: Self, i: int)
        requires
            pre.wf(),
            0 <= i < pre.len(),
            post.entries@ == pre.entries@.remove(i),
        ensures
            !post.contains_key(pre.key_at(i)),
    {
        if post.contains_key(pre.key_at(i)) {
            let w = choose|w: int| 0 <= w < post.len() && post.key_at(w) == pre.key_at(i);
            let wpre: int = if w < i {
                w
            } else {
                w + 1
            };
            assert(pre.key_at(wpre) == post.key_at(w));
            if wpre < i {
                assert(pre.key_at(wpre) != pre.key_at(i));
            } else {
                assert(pre.key_at(i) != pre.key_at(wpre));
            }
        }
    }

    /// Pushing a fresh key keeps every other key's entry.
    proof fn lemma_push_preserves(pre: Self, post: Self, k: ResponseKeyV, k2: ResponseKeyV)
        requires
            pre.wf(),
            post.entries@.len() == pre.entries@.len() + 1,
            forall|j: int| 0 <= j < pre.entries@.len() ==> post.entries@[j] == pre.entries@[j],
            post.key_at(pre.len() as int) == k,
            k2 != k,
        ensures
            post.get(k2) == pre.get(k2),
    {
        if pre.contains_key(k2) {
            let j = choose|j: int| 0 <= j < pre.len() && pre.key_at(j) == k2;
            pre.lemma_get_at(j);
            assert(post.key_at(j) == k2);
            assert(post.contains_key(k2));
            let w = choose|w: int| 0 <= w < post.len() && post.key_at(w) == k2;
            assert(w != pre.len());
            assert(pre.key_at(w) == post.key_at(w));
            if w < j {
                assert(pre.key_at(w) != pre.key_at(j));
            } else if j < w {
                assert(pre.key_at(j) != pre.key_at(w));
            }
            assert(post.chan_at(w) == pre.chan_at(j));
        } else {
            if post.contains_key(k2) {
                let w = choose|w: int| 0 <= w < post.len() && post.key_at(w) == k2;
                assert(w != pre.len());
                assert(pre.key_at(w) == post.key_at(w));
            }
        }
    }
}

} // verus!
