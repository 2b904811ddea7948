//! Fitting byte vectors into fixed-size arrays.
//!
//! Key seeds arrive from the host as byte vectors of arbitrary length but are
//! consumed as fixed 32-byte arrays: short inputs are left-padded with zeros,
//! long inputs are truncated.

use vstd::prelude::*;

verus! {

/// The result of fitting `s` into `n` slots: zeros are prepended when `s` is
/// short, and only the first `n` bytes are kept when it is long.
pub open spec fn fitted(s: Seq<u8>, n: nat) -> Seq<u8> {
    if s.len() < n {
        Seq::new((n - s.len()) as nat, |i: int| 0u8) + s
    } else {
        s.take(n as int)
    }
}

/// Conversion of a byte vector into a fixed-size array, left-padding with
/// zeros or truncating as needed.
pub trait FitIntoArr<T> {
    /// Fit `self` into an array of `S` elements.
    fn fit_into_arr<const S: usize>(self) -> (r: [T; S]);
}

impl FitIntoArr<u8> for Vec<u8> {
    /// Left-pad with zeros when shorter than `S`, truncate when longer.
    fn fit_into_arr<const S: usize>(self) -> (r: [u8; S])
        ensures
            r@ == fitted(self@, S as nat),
    {
        let mut arr: [u8; S] = [0u8; S];
        if self.len() < S {
            let offset: usize = S - self.len();
            let mut i: usize = 0;
            while i < self.len()
                invariant
                    i <= self@.len() < S,
                    offset == S - self@.len(),
                    arr@.len() == S,
                    forall|j: int| 0 <= j < offset + i ==> arr@[j] == fitted(self@, S as nat)[j],
                    forall|j: int| offset + i <= j < S ==> arr@[j] == 0u8,
                decreases self@.len() - i,
            {
                arr[offset + i] = self[i];
                i = i + 1;
            }
            assert(arr@ =~= fitted(self@, S as nat));
        } else {
            let mut i: usize = 0;
            while i < S
                invariant
                    i <= S <= self@.len(),
                    arr@.len() == S,
                    forall|j: int| 0 <= j < i ==> arr@[j] == self@[j],
                decreases S - i,
            {
                arr[i] = self[i];
                i = i + 1;
            }
            assert(arr@ =~= fitted(self@, S as nat));
        }
        arr
    }
}

} // verus!
