//! In-place reversal of a stretch of a vector.

use vstd::prelude::*;

verus! {

/// The sequence `s` with the stretch from `lo` up to `hi` in reverse order.
pub open spec fn with_reversed<T>(s: Seq<T>, lo: int, hi: int) -> Seq<T> {
    s.subrange(0, lo) + s.subrange(lo, hi).reverse() + s.subrange(hi, s.len() as int)
}

/// Exchanges the elements at `i` and `j`. The storage is split between the
/// two places, so that both elements can be borrowed at once.
fn swap_at<T>(v: &mut Vec<T>, i: usize, j: usize)
    requires
        i < j < old(v)@.len(),
    ensures
        final(v)@ == old(v)@.update(i as int, old(v)@[j as int]).update(j as int, old(v)@[i as int]),
{
    let (left, right) = v.as_mut_slice().split_at_mut(j);
    let (_, rest) = left.split_at_mut(i);
    match (rest.first_mut(), right.first_mut()) {
        (Some(a), Some(b)) => {
            core::mem::swap(a, b);
        },
        _ => {},
    }
}

/// Reverses the elements of `v` from index `lo` up to, not including, `hi`.
/// No element is copied and no storage is allocated.
pub fn reverse_range<T>(v: &mut Vec<T>, lo: usize, hi: usize)
    requires
        lo <= hi <= old(v)@.len(),
    ensures
        final(v)@ == with_reversed(old(v)@, lo as int, hi as int),
{
    let mut i: usize = lo;
    let mut j: usize = hi;
    while j - i > 1
        invariant
            lo <= i <= j <= hi <= v@.len(),
            i - lo == hi - j,
            v@.len() == old(v)@.len(),
            forall|k: int| 0 <= k < lo || hi <= k < v@.len() ==> v@[k] == old(v)@[k],
            forall|k: int| i <= k < j ==> v@[k] == old(v)@[k],
            forall|k: int| lo <= k < i || j <= k < hi ==> v@[k] == old(v)@[lo + hi - 1 - k],
        decreases j - i,
    {
        j = j - 1;
        swap_at(v, i, j);
        i = i + 1;
    }
}

} // verus!
