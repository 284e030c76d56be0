//! Read-only traversals of a queue, in both directions.
//!
//! A traversal borrows the queue's storage and keeps two cursors into it, one
//! for each side of the insertion index. Building one takes constant time.

use vstd::prelude::*;

verus! {

/// A traversal from the most recently pushed element to the oldest one.
///
/// The view of a traversal is the sequence of elements it has yet to yield, in
/// the order in which it yields them.
pub struct Iter<'a, T> {
    data: &'a Vec<T>,
    split: usize,
    head: usize,
    tail: usize,
}

impl<'a, T> View for Iter<'a, T> {
    type V = Seq<T>;

    closed spec fn view(&self) -> Seq<T> {
        self.data@.subrange(0, self.head as int).reverse() + self.data@.subrange(
            self.split as int,
            self.tail as int,
        ).reverse()
    }
}

impl<'a, T> Iter<'a, T> {
    #[verifier::type_invariant]
    closed spec fn wf(&self) -> bool {
        self.head <= self.split <= self.tail <= self.data@.len()
    }

    /// Starts a traversal of `data` that yields the part before `split` from
    /// its end to its start, and then the rest in the same way.
    pub(crate) fn new(data: &'a Vec<T>, split: usize) -> (iter: Self)
        requires
            split <= data@.len(),
        ensures
            iter@ == data@.subrange(0, split as int).reverse() + data@.subrange(
                split as int,
                data@.len() as int,
            ).reverse(),
    {
        Iter { data, split, head: split, tail: data.len() }
    }

    /// Yields the next element, or `None` once every element has been
    /// yielded.
    pub fn next(&mut self) -> (item: Option<&'a T>)
        ensures
            old(self)@.len() == 0 ==> item is None && final(self)@ == old(self)@,
            old(self)@.len() > 0 ==> item == Some(&old(self)@[0]) && final(self)@ == old(self)@.drop_first(),
    {
        proof {
            use_type_invariant(&*self);
        }
        if self.head > 0 {
            self.head = self.head - 1;
            Some(&self.data[self.head])
        } else if self.tail > self.split {
            self.tail = self.tail - 1;
            Some(&self.data[self.tail])
        } else {
            None
        }
    }
}

/// A traversal from the oldest element to the most recently pushed one.
///
/// The view of a traversal is the sequence of elements it has yet to yield, in
/// the order in which it yields them.
pub struct AscIter<'a, T> {
    data: &'a Vec<T>,
    split: usize,
    tail: usize,
    head: usize,
}

impl<'a, T> View for AscIter<'a, T> {
    type V = Seq<T>;

    closed spec fn view(&self) -> Seq<T> {
        self.data@.subrange(self.tail as int, self.data@.len() as int) + self.data@.subrange(
            self.head as int,
            self.split as int,
        )
    }
}

impl<'a, T> AscIter<'a, T> {
    #[verifier::type_invariant]
    closed spec fn wf(&self) -> bool {
        self.head <= self.split <= self.tail <= self.data@.len()
    }

    /// Starts a traversal of `data` that yields the part from `split` on, and
    /// then the part before it, both from start to end.
    pub(crate) fn new(data: &'a Vec<T>, split: usize) -> (iter: Self)
        requires
            split <= data@.len(),
        ensures
            iter@ == data@.subrange(split as int, data@.len() as int) + data@.subrange(
                0,
                split as int,
            ),
    {
        AscIter { data, split, tail: split, head: 0 }
    }

    /// Yields the next element, or `None` once every element has been
    /// yielded.
    pub fn next(&mut self) -> (item: Option<&'a T>)
        ensures
            old(self)@.len() == 0 ==> item is None && final(self)@ == old(self)@,
            old(self)@.len() > 0 ==> item == Some(&old(self)@[0]) && final(self)@ == old(self)@.drop_first(),
    {
        proof {
            use_type_invariant(&*self);
        }
        if self.tail < self.data.len() {
            let at = self.tail;
            self.tail = at + 1;
            Some(&self.data[at])
        } else if self.head < self.split {
            let at = self.head;
            self.head = at + 1;
            Some(&self.data[at])
        } else {
            None
        }
    }
}

/// The two directions mirror each other: what a traversal in ascending order
/// yields is the exact reverse of what a traversal in descending order of the
/// same queue yields, and the other way round.
pub proof fn lemma_order_duality<T>(content: Seq<T>, descending: Iter<'_, T>, ascending: AscIter<'_, T>)
    requires
        descending@ == content.reverse(),
        ascending@ == content,
    ensures
        ascending@ == descending@.reverse(),
        descending@ == ascending@.reverse(),
        ascending@.len() == descending@.len() == content.len(),
{
}

} // verus!
