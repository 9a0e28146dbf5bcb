//! Fixed-size concatenation of byte strings, used to build request paths
//! out of an origin and an endpoint path.

use vstd::prelude::*;

verus! {

/// Concatenates two byte slices into a fixed-size array: the bytes of `a`,
/// then the bytes of `b`, then zeroes up to `LEN`.
pub fn concat_bytes<const LEN: usize>(a: &[u8], b: &[u8]) -> (r: [u8; LEN])
    requires
        a@.len() + b@.len() <= LEN,
    ensures
        r@ == a@ + b@ + Seq::new((LEN - a@.len() - b@.len()) as nat, |t: int| 0u8),
{
    let mut bytes: [u8; LEN] = [0; LEN];
    let alen = a.len();
    let blen = b.len();
    let mut i: usize = 0;
    while i < alen
        invariant
            alen == a@.len(),
            alen + blen <= LEN,
            i <= alen,
            bytes@.len() == LEN,
            forall|t: int| 0 <= t < i ==> bytes@[t] == a@[t],
            forall|t: int| i <= t < LEN ==> bytes@[t] == 0u8,
        decreases alen - i,
    {
        bytes[i] = a[i];
        i += 1;
    }
    let mut j: usize = 0;
    while j < blen
        invariant
            alen == a@.len(),
            blen == b@.len(),
            alen + blen <= LEN,
            j <= blen,
            bytes@.len() == LEN,
            forall|t: int| 0 <= t < alen ==> bytes@[t] == a@[t],
            forall|t: int| 0 <= t < j ==> bytes@[alen + t] == b@[t],
            forall|t: int| alen + j <= t < LEN ==> bytes@[t] == 0u8,
        decreases blen - j,
    {
        bytes[alen + j] = b[j];
        j += 1;
    }
    proof {
        assert(bytes@ =~= a@ + b@ + Seq::new((LEN - a@.len() - b@.len()) as nat, |t: int| 0u8));
    }
    bytes
}

} // verus!
