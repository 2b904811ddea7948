//! Per-protocol dispatch for request-response messaging.
//!
//! The node serves several application protocols concurrently; each protocol
//! name maps to its own behaviour value.  Polling across protocols is
//! randomized so no single protocol monopolizes progress.

use vstd::prelude::*;
use rand::seq::SliceRandom;

verus! {

/// Relies on `rand::seq::SliceRandom::shuffle` with the thread-local
/// generator: reorders the vector in place.  The order is random, so only the
/// multiset of elements is promised.
#[verifier::external_body]
fn shuffle_indices(v: Vec<usize>) -> (r: Vec<usize>)
    ensures
        r@.to_multiset() == v@.to_multiset(),
        r@.len() == v@.len(),
{
    let mut v = v;
    v.shuffle(&mut rand::rng());
    v
}

/// The first `n` indices, in order.
pub open spec fn index_seq(n: nat) -> Seq<usize> {
    Seq::new(n, |i: int| i as usize)
}

/// A map from protocol name to an independent behaviour value.
#[derive(Debug)]
pub struct MultiBehaviour<B> {
    /// The behaviours, keyed by protocol name; keys are unique.
    pub entries: Vec<(String, B)>,
}

impl<B> MultiBehaviour<B> {
    /// How many protocols are registered.
    pub open spec fn len(&self) -> nat {
        self.entries@.len()
    }

    /// The protocol name at position `i`.
    pub open spec fn key_at(&self, i: int) -> Seq<char> {
        self.entries@[i].0@
    }

    /// Whether a behaviour is registered for `protocol`.
    pub open spec fn contains(&self, protocol: Seq<char>) -> bool {
        exists|i: int| 0 <= i < self.len() && self.key_at(i) == protocol
    }

    /// Protocol names are unique.
    pub open spec fn wf(&self) -> bool {
        forall|i: int, j: int| 0 <= i < j < self.len() ==> self.key_at(i) != self.key_at(j)
    }

    /// Register one behaviour per protocol, in order.  Protocol names must
    /// not repeat: each name keys its own independent state machine.
    pub fn new(entries: Vec<(String, B)>) -> (r: Result<Self, String>)
        ensures
            (r matches Ok(m) ==> m.entries@ == entries@ && m.wf()),
            (r is Err ==> exists|i: int, j: int|
                0 <= i < j < entries@.len() && entries@[i].0@ == entries@[j].0@),
    {
        let mut i: usize = 0;
        while i < entries.len()
            invariant
                i <= entries@.len(),
                forall|a: int, b: int|
                    0 <= a < b < i ==> entries@[a].0@ != entries@[b].0@,
            decreases entries@.len() - i,
        {
            let mut j: usize = 0;
            while j < i
                invariant
                    j <= i < entries@.len(),
                    forall|b: int| 0 <= b < j ==> entries@[b].0@ != entries@[i as int].0@,
                decreases i - j,
            {
                if entries[j].0.eq(&entries[i].0) {
                    return Err(entries[j].0.clone());
                }
                j = j + 1;
            }
            i = i + 1;
        }
        Ok(MultiBehaviour { entries })
    }

    /// The position of the behaviour registered for `protocol`, if any.
    pub fn index_of(&self, protocol: &String) -> (r: Option<usize>)
        ensures
            (r matches Some(i) ==> i < self.len() && self.key_at(i as int) == protocol@),
            (r is None ==> !self.contains(protocol@)),
    {
        let mut i: usize = 0;
        while i < self.entries.len()
            invariant
                i <= self.len(),
                forall|j: int| 0 <= j < i ==> self.key_at(j) != protocol@,
            decreases self.len() - i,
        {
            if self.entries[i].0.eq(protocol) {
                return Some(i);
            }
            i = i + 1;
        }
        None
    }

    /// The behaviour registered for `protocol`, if any, for mutation.
    pub fn get_mut(&mut self, protocol: &String) -> (r: Option<&mut B>)
        ensures
            (r is Some <==> old(self).contains(protocol@)),
            (r is None ==> *final(self) == *old(self)),
            (r matches Some(b) ==> exists|i: int|
                {
                    &&& 0 <= i < old(self).len()
                    &&& old(self).key_at(i) == protocol@
                    &&& *b == old(self).entries@[i].1
                    &&& final(self).entries@ == old(self).entries@.update(
                        i,
                        (old(self).entries@[i].0, *final(b)),
                    )
                }),
    {
        match self.index_of(protocol) {
            Some(i) => {
                let entry = &mut self.entries[i];
                Some(&mut entry.1)
            },
            None => None,
        }
    }

    /// The order in which to poll the registered behaviours this iteration:
    /// a random permutation of all positions, so no protocol starves another.
    pub fn poll_order(&self) -> (r: Vec<usize>)
        ensures
            r@.to_multiset() == index_seq(self.len()).to_multiset(),
            r@.len() == self.len(),
    {
        let mut v: Vec<usize> = Vec::new();
        let mut i: usize = 0;
        while i < self.entries.len()
            invariant
                i <= self.len(),
                v@ == index_seq(i as nat),
            decreases self.len() - i,
        {
            v.push(i);
            proof {
                assert(v@ =~= index_seq((i + 1) as nat));
            }
            i = i + 1;
        }
        shuffle_indices(v)
    }
}

} // verus!
