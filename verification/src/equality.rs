//! Equality of queues: by content alone.

use crate::queue::CircularQueue;
use crate::serde_support::{is_decoding_of, lemma_round_trip, DecodeError};
use vstd::prelude::*;
use vstd::std_specs::cmp::PartialEqSpec;

verus! {

impl<T: PartialEq> PartialEq for CircularQueue<T> {
    /// Two queues are equal when they hold equally many elements and the
    /// elements are equal one by one, the newest with the newest down to the
    /// oldest with the oldest. The capacities are not compared.
    fn eq(&self, other: &Self) -> (equal: bool) {
        if self.len() != other.len() {
            return false;
        }
        let mut left = self.iter();
        let mut right = other.iter();
        let ghost total = self@.len();
        let ghost mut seen: int = 0;
        loop
            invariant
                0 <= seen <= total,
                total == self@.len() == other@.len(),
                left@ == self@.reverse().skip(seen),
                right@ == other@.reverse().skip(seen),
                T::obeys_eq_spec() ==> forall|k: int|
                    0 <= k < seen ==> (#[trigger] self@.reverse()[k]).eq_spec(&other@.reverse()[k]),
            decreases total - seen,
        {
            match (left.next(), right.next()) {
                (Some(x), Some(y)) => {
                    if !x.eq(y) {
                        return false;
                    }
                    proof {
                        seen = seen + 1;
                    }
                },
                _ => {
                    proof {
                        if T::obeys_eq_spec() {
                            assert forall|i: int| 0 <= i < self@.len() implies (#[trigger] self@[i]).eq_spec(
                                &other@[i],
                            ) by {
                                let k = total - 1 - i;
                                assert(self@[i] == self@.reverse()[k]);
                            }
                        }
                    }
                    return true;
                },
            }
        }
    }
}

impl<T: Eq> Eq for CircularQueue<T> {

}

impl<T: PartialEq> vstd::std_specs::cmp::PartialEqSpecImpl for CircularQueue<T> {
    open spec fn obeys_eq_spec() -> bool {
        T::obeys_eq_spec()
    }

    open spec fn eq_spec(&self, other: &Self) -> bool {
        &&& self@.len() == other@.len()
        &&& forall|i: int| 0 <= i < self@.len() ==> (#[trigger] self@[i]).eq_spec(&other@[i])
    }
}

/// Whether every element of `s` is equal to itself.
pub open spec fn reflexive_on<T: PartialEq>(s: Seq<T>) -> bool {
    forall|i: int| 0 <= i < s.len() ==> (#[trigger] s[i]).eq_spec(&s[i])
}

/// Equality goes by the elements from the newest to the oldest, one by one,
/// and by nothing else.
pub proof fn lemma_eq_is_pairwise<T: PartialEq>(a: CircularQueue<T>, b: CircularQueue<T>)
    ensures
        a.eq_spec(&b) <==> (a@.len() == b@.len() && forall|k: int|
            0 <= k < a@.len() ==> (#[trigger] a@.reverse()[k]).eq_spec(&b@.reverse()[k])),
{
    if a@.len() == b@.len() {
        let n = a@.len();
        if forall|k: int| 0 <= k < n ==> (#[trigger] a@.reverse()[k]).eq_spec(&b@.reverse()[k]) {
            assert forall|i: int| 0 <= i < n implies (#[trigger] a@[i]).eq_spec(&b@[i]) by {
                assert(a@.reverse()[n - 1 - i].eq_spec(&b@.reverse()[n - 1 - i]));
            }
        }
    }
}

/// Two queues that hold the same elements in the same order are equal,
/// whatever their capacities, provided that each element is equal to itself.
pub proof fn lemma_same_content_is_equal<T: PartialEq>(a: CircularQueue<T>, b: CircularQueue<T>)
    requires
        a@.reverse() == b@.reverse(),
        reflexive_on(a@),
    ensures
        a.eq_spec(&b),
{
    assert(b@ =~= b@.reverse().reverse());
}

/// Two queues of different length are unequal.
pub proof fn lemma_different_length_is_unequal<T: PartialEq>(a: CircularQueue<T>, b: CircularQueue<T>)
    requires
        a@.len() != b@.len(),
    ensures
        !a.eq_spec(&b),
{
}

/// Two queues that differ in the element that is `k` places from the newest
/// are unequal.
pub proof fn lemma_different_content_is_unequal<T: PartialEq>(
    a: CircularQueue<T>,
    b: CircularQueue<T>,
    k: int,
)
    requires
        a@.len() == b@.len(),
        0 <= k < a@.len(),
        !a@.reverse()[k].eq_spec(&b@.reverse()[k]),
    ensures
        !a.eq_spec(&b),
{
    lemma_eq_is_pairwise(a, b);
}

/// The queue read back is equal to the one that was written, provided that
/// each of its elements is equal to itself.
pub proof fn lemma_round_trip_is_equal<T: PartialEq>(
    queue: CircularQueue<T>,
    result: Result<CircularQueue<T>, DecodeError>,
)
    requires
        queue.wf(),
        is_decoding_of(result, Some(queue.spec_capacity()), Some(queue@)),
        reflexive_on(queue@),
    ensures
        result is Ok,
        result->Ok_0.eq_spec(&queue),
{
    lemma_round_trip(queue, result);
}

} // verus!
