//! What a run of pushes does to a queue, stated over its content.

use crate::queue::{evicted, pushed, CircularQueue};
use vstd::prelude::*;

verus! {

/// What a queue of capacity `capacity` holds after each of `values` has been
/// pushed, in order, onto the content `s` (oldest first).
pub open spec fn pushed_all<T>(s: Seq<T>, capacity: nat, values: Seq<T>) -> Seq<T>
    decreases values.len(),
{
    if values.len() == 0 {
        s
    } else {
        pushed(pushed_all(s, capacity, values.drop_last()), capacity, values.last())
    }
}

/// The last `n` elements of `values`, or all of them where there are fewer.
pub open spec fn newest<T>(values: Seq<T>, n: nat) -> Seq<T> {
    if values.len() <= n {
        values
    } else {
        values.subrange(values.len() - n, values.len() as int)
    }
}

/// A push never takes a queue beyond its capacity and never makes it shorter:
/// a full queue stays full.
pub proof fn lemma_push_keeps_bound<T>(s: Seq<T>, capacity: nat, x: T)
    requires
        s.len() <= capacity,
    ensures
        s.len() <= pushed(s, capacity, x).len() <= capacity,
        s.len() == capacity ==> pushed(s, capacity, x).len() == capacity,
{
}

/// No run of pushes takes a queue beyond its capacity or makes it shorter:
/// once full, it stays full.
pub proof fn lemma_pushes_keep_bound<T>(s: Seq<T>, capacity: nat, values: Seq<T>)
    requires
        s.len() <= capacity,
    ensures
        s.len() <= pushed_all(s, capacity, values).len() <= capacity,
        s.len() == capacity ==> pushed_all(s, capacity, values).len() == capacity,
    decreases values.len(),
{
    if values.len() > 0 {
        lemma_pushes_keep_bound(s, capacity, values.drop_last());
        lemma_push_keeps_bound(pushed_all(s, capacity, values.drop_last()), capacity, values.last());
    }
}

/// A push into a full queue drives out the oldest element, keeps the others
/// in order, and makes the new value the newest.
pub proof fn lemma_push_into_full<T>(s: Seq<T>, capacity: nat, x: T)
    requires
        capacity > 0,
        s.len() == capacity,
    ensures
        evicted(s, capacity) == Some(s[0]),
        pushed(s, capacity, x) == s.drop_first().push(x),
        pushed(s, capacity, x).last() == x,
        pushed(s, capacity, x).len() == capacity,
{
}

/// A push into a queue with room left drives nothing out and makes the new
/// value the newest.
pub proof fn lemma_push_with_room<T>(s: Seq<T>, capacity: nat, x: T)
    requires
        s.len() < capacity,
    ensures
        evicted(s, capacity) == None::<T>,
        pushed(s, capacity, x) == s.push(x),
        pushed(s, capacity, x).last() == x,
{
}

/// A queue that started empty holds the values pushed last, as many as its
/// capacity allows, in the order in which they were pushed.
pub proof fn lemma_pushes_keep_newest<T>(capacity: nat, values: Seq<T>)
    ensures
        pushed_all(Seq::<T>::empty(), capacity, values) == newest(values, capacity),
    decreases values.len(),
{
    if values.len() > 0 {
        lemma_pushes_keep_newest(capacity, values.drop_last());
    }
}

/// The value that a push drives out of a full queue is the one that was
/// pushed as many pushes ago as the capacity says.
pub proof fn lemma_evicted_was_pushed_capacity_ago<T>(capacity: nat, values: Seq<T>)
    requires
        0 < capacity <= values.len(),
    ensures
        evicted(pushed_all(Seq::<T>::empty(), capacity, values), capacity) == Some(
            values[values.len() - capacity],
        ),
{
    lemma_pushes_keep_newest(capacity, values);
}

/// A queue of capacity zero takes any run of pushes, holds nothing after it,
/// and hands nothing back.
pub proof fn lemma_zero_capacity_stays_empty<T>(values: Seq<T>)
    ensures
        pushed_all(Seq::<T>::empty(), 0, values) == Seq::<T>::empty(),
        evicted(pushed_all(Seq::<T>::empty(), 0, values), 0) == None::<T>,
    decreases values.len(),
{
    if values.len() > 0 {
        lemma_zero_capacity_stays_empty(values.drop_last());
    }
}

/// A queue of capacity zero is empty and full at once, whatever was pushed,
/// and both traversals of it yield nothing.
pub proof fn lemma_zero_capacity_queue<T>(queue: CircularQueue<T>)
    requires
        queue.wf(),
        queue.spec_capacity() == 0,
    ensures
        queue@ == Seq::<T>::empty(),
        queue@.len() == queue.spec_capacity(),
        queue@.reverse() == Seq::<T>::empty(),
{
    queue.lemma_len_within_capacity();
}

} // verus!
