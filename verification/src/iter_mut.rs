//! Traversals of a queue that hand out its elements for change, in both
//! directions.
//!
//! Such a traversal holds the queue exclusively and lends one element at a
//! time: the element handed out last has to be let go before the next one is
//! asked for. Its two fields are open, so that a caller can say of the queue
//! behind it, at any point, what has become of it.

use crate::queue::CircularQueue;
use vstd::prelude::*;

verus! {

/// A traversal from the most recently pushed element to the oldest one, for
/// changing the elements in place.
pub struct IterMut<'a, T> {
    /// The queue that is traversed.
    pub queue: &'a mut CircularQueue<T>,
    /// How many elements have been handed out so far.
    pub taken: usize,
}

impl<'a, T> IterMut<'a, T> {
    /// Lends the next element, or returns `None` once every element has been
    /// handed out. What the caller writes to the element is what the queue
    /// holds at that place from then on; nothing else about the queue changes.
    pub fn next(&mut self) -> (item: Option<&mut T>)
        ensures
            *final(final(self).queue) == *final(old(self).queue),
            final(self).queue.spec_capacity() == old(self).queue.spec_capacity(),
            final(self).queue.spec_cursor() == old(self).queue.spec_cursor(),
            final(self).queue@.len() == old(self).queue@.len(),
            old(self).taken < old(self).queue@.len() ==> ({
                &&& item is Some
                &&& *item->Some_0 == old(self).queue@.reverse()[old(self).taken as int]
                &&& final(self).taken == old(self).taken + 1
                &&& final(self).queue@.reverse() == old(self).queue@.reverse().update(
                    old(self).taken as int,
                    *final(item->Some_0),
                )
            }),
            old(self).taken >= old(self).queue@.len() ==> ({
                &&& item is None
                &&& final(self).taken == old(self).taken
                &&& final(self).queue@ == old(self).queue@
            }),
    {
        let len = self.queue.len();
        if self.taken < len {
            let position = len - 1 - self.taken;
            self.taken = self.taken + 1;
            Some(self.queue.slot_mut(position))
        } else {
            None
        }
    }
}

/// A traversal from the oldest element to the most recently pushed one, for
/// changing the elements in place.
pub struct AscIterMut<'a, T> {
    /// The queue that is traversed.
    pub queue: &'a mut CircularQueue<T>,
    /// How many elements have been handed out so far.
    pub taken: usize,
}

impl<'a, T> AscIterMut<'a, T> {
    /// Lends the next element, or returns `None` once every element has been
    /// handed out. What the caller writes to the element is what the queue
    /// holds at that place from then on; nothing else about the queue changes.
    pub fn next(&mut self) -> (item: Option<&mut T>)
        ensures
            *final(final(self).queue) == *final(old(self).queue),
            final(self).queue.spec_capacity() == old(self).queue.spec_capacity(),
            final(self).queue.spec_cursor() == old(self).queue.spec_cursor(),
            final(self).queue@.len() == old(self).queue@.len(),
            old(self).taken < old(self).queue@.len() ==> ({
                &&& item is Some
                &&& *item->Some_0 == old(self).queue@[old(self).taken as int]
                &&& final(self).taken == old(self).taken + 1
                &&& final(self).queue@ == old(self).queue@.update(
                    old(self).taken as int,
                    *final(item->Some_0),
                )
            }),
            old(self).taken >= old(self).queue@.len() ==> ({
                &&& item is None
                &&& final(self).taken == old(self).taken
                &&& final(self).queue@ == old(self).queue@
            }),
    {
        let len = self.queue.len();
        if self.taken < len {
            let position = self.taken;
            self.taken = position + 1;
            Some(self.queue.slot_mut(position))
        } else {
            None
        }
    }
}

} // verus!
