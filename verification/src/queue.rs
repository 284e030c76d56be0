//! The queue itself: storage, cursor, and the operations that change them.

use crate::iter::{AscIter, Iter};
use crate::iter_mut::{AscIterMut, IterMut};
use crate::rotate::reverse_range;
use vstd::prelude::*;

verus! {

/// What a queue of capacity `capacity` holds after `x` is pushed onto the
/// content `s` (oldest first): nothing new when the capacity is zero, `x`
/// appended while there is room, and otherwise `x` appended with the oldest
/// value dropped.
pub open spec fn pushed<T>(s: Seq<T>, capacity: nat, x: T) -> Seq<T> {
    if capacity == 0 {
        s
    } else if s.len() < capacity {
        s.push(x)
    } else {
        s.drop_first().push(x)
    }
}

/// The value that leaves a queue of capacity `capacity` with content `s`
/// (oldest first) when one more value is pushed: the oldest one if the queue is
/// full and can hold anything at all.
pub open spec fn evicted<T>(s: Seq<T>, capacity: nat) -> Option<T> {
    if capacity > 0 && s.len() >= capacity {
        Some(s[0])
    } else {
        None
    }
}

/// A circular buffer-like queue.
///
/// Once the capacity is reached, pushing new items will overwrite old ones.
///
/// The view of a queue is the sequence of its stored values in logical order,
/// from the oldest to the newest.
#[derive(Debug)]
pub struct CircularQueue<T> {
    data: Vec<T>,
    capacity: usize,
    insertion_index: usize,
}

impl<T> View for CircularQueue<T> {
    type V = Seq<T>;

    closed spec fn view(&self) -> Seq<T> {
        unrolled(self.data@, self.insertion_index as int)
    }
}

impl<T: Clone> Clone for CircularQueue<T> {
    /// The copy has the same capacity and the same cursor, and holds a clone of
    /// each element, in the same order.
    fn clone(&self) -> (copy: Self)
        ensures
            copy.spec_capacity() == self.spec_capacity(),
            copy.spec_cursor() == self.spec_cursor(),
            copy@.len() == self@.len(),
            forall|i: int| 0 <= i < self@.len() ==> cloned::<T>(#[trigger] self@[i], copy@[i]),
    {
        proof {
            use_type_invariant(self);
        }
        let data = self.data.clone();
        CircularQueue { data, capacity: self.capacity, insertion_index: self.insertion_index }
    }
}

impl<T> CircularQueue<T> {
    /// The storage never outgrows the capacity. While there is room the cursor
    /// stands just past the stored values; once full it stands on the oldest.
    #[verifier::type_invariant]
    pub closed spec fn wf(&self) -> bool {
        &&& self.data@.len() <= self.capacity
        &&& if self.data@.len() < self.capacity {
            self.insertion_index == self.data@.len()
        } else {
            self.insertion_index < self.capacity || (self.capacity == 0
                && self.insertion_index == 0)
        }
    }

    /// The capacity the queue was built with.
    pub closed spec fn spec_capacity(&self) -> usize {
        self.capacity
    }

    /// The write cursor: the place in the storage that the next push writes
    /// to.
    pub closed spec fn spec_cursor(&self) -> usize {
        self.insertion_index
    }

    /// A queue never holds more elements than its capacity allows.
    pub proof fn lemma_len_within_capacity(self)
        requires
            self.wf(),
        ensures
            self@.len() <= self.spec_capacity(),
    {
    }

    /// While there is room, the write cursor equals the number of elements.
    /// Once the queue is full, the cursor stays below the capacity; with a
    /// capacity of zero it stays at zero.
    pub proof fn lemma_cursor_follows_len(self)
        requires
            self.wf(),
        ensures
            self@.len() < self.spec_capacity() ==> self.spec_cursor() == self@.len(),
            self@.len() == self.spec_capacity() > 0 ==> self.spec_cursor() < self.spec_capacity(),
            self.spec_capacity() == 0 ==> self.spec_cursor() == 0,
    {
    }

    /// Constructs a new, empty queue that holds up to `capacity` values.
    ///
    /// A capacity of zero is accepted: such a queue stays empty for ever.
    ///
    /// Room for `capacity` values is reserved up front where the allocator
    /// grants it; where it does not, the storage grows as values arrive.
    pub fn with_capacity(capacity: usize) -> (queue: Self)
        ensures
            queue@ == Seq::<T>::empty(),
            queue.spec_capacity() == capacity,
            queue.spec_cursor() == 0,
            queue.wf(),
    {
        let mut data = Vec::new();
        let _ = data.try_reserve(capacity);
        CircularQueue { data, capacity, insertion_index: 0 }
    }

    /// Constructs a new, empty queue that holds up to `capacity` values, for
    /// callers that rule out the inert queue of capacity zero: the capacity
    /// has to be greater than zero.
    pub fn new(capacity: usize) -> (queue: Self)
        requires
            capacity > 0,
        ensures
            queue@ == Seq::<T>::empty(),
            queue.spec_capacity() == capacity,
            queue.spec_cursor() == 0,
            queue.wf(),
    {
        Self::with_capacity(capacity)
    }

    /// Returns the capacity of the queue.
    #[verifier::when_used_as_spec(spec_capacity)]
    pub fn capacity(&self) -> (capacity: usize)
        ensures
            capacity == self.spec_capacity(),
    {
        self.capacity
    }

    /// Returns the current number of elements in the queue.
    pub fn len(&self) -> (len: usize)
        ensures
            len == self@.len(),
            len <= self.spec_capacity(),
    {
        proof {
            use_type_invariant(self);
        }
        self.data.len()
    }

    /// Returns `true` if the queue holds no element.
    pub fn is_empty(&self) -> (empty: bool)
        ensures
            empty == (self@.len() == 0),
    {
        proof {
            use_type_invariant(self);
        }
        self.data.len() == 0
    }

    /// Returns `true` if the queue holds as many elements as its capacity
    /// allows. A queue of capacity zero is both empty and full.
    pub fn is_full(&self) -> (full: bool)
        ensures
            full == (self@.len() == self.spec_capacity()),
    {
        proof {
            use_type_invariant(self);
        }
        self.data.len() == self.capacity
    }

    /// Returns a traversal of the queue's contents.
    ///
    /// The traversal goes from the most recently pushed items to the oldest
    /// ones.
    pub fn iter(&self) -> (iter: Iter<'_, T>)
        ensures
            iter@ == self@.reverse(),
            iter@.len() == self@.len(),
    {
        proof {
            use_type_invariant(self);
        }
        Iter::new(&self.data, self.insertion_index)
    }

    /// Returns a traversal of the queue's contents in ascending order.
    ///
    /// The traversal goes from the least recently pushed items to the newest
    /// ones.
    pub fn asc_iter(&self) -> (iter: AscIter<'_, T>)
        ensures
            iter@ == self@,
            iter@.len() == self@.len(),
    {
        proof {
            use_type_invariant(self);
        }
        AscIter::new(&self.data, self.insertion_index)
    }

    /// Returns a traversal of the queue's contents that lends each element
    /// for change.
    ///
    /// The traversal goes from the most recently pushed items to the oldest
    /// ones.
    pub fn iter_mut(&mut self) -> (iter: IterMut<'_, T>)
        ensures
            *iter.queue == *old(self),
            iter.taken == 0,
            *final(iter.queue) == *final(self),
    {
        IterMut { queue: self, taken: 0 }
    }

    /// Returns a traversal of the queue's contents in ascending order that
    /// lends each element for change.
    ///
    /// The traversal goes from the least recently pushed items to the newest
    /// ones.
    pub fn asc_iter_mut(&mut self) -> (iter: AscIterMut<'_, T>)
        ensures
            *iter.queue == *old(self),
            iter.taken == 0,
            *final(iter.queue) == *final(self),
    {
        AscIterMut { queue: self, taken: 0 }
    }

    /// Lends the element at `position`, counted from the oldest element.
    pub(crate) fn slot_mut(&mut self, position: usize) -> (item: &mut T)
        requires
            position < old(self)@.len(),
        ensures
            *item == old(self)@[position as int],
            final(self)@ == old(self)@.update(position as int, *final(item)),
            final(self).spec_capacity() == old(self).spec_capacity(),
            final(self).spec_cursor() == old(self).spec_cursor(),
    {
        proof {
            use_type_invariant(&*self);
        }
        let behind = self.data.len() - self.insertion_index;
        let at = if position < behind {
            self.insertion_index + position
        } else {
            position - behind
        };
        &mut self.data[at]
    }

    /// Converts the queue into a `Vec<T>` going from the most recently pushed
    /// items to the oldest ones.
    ///
    /// The storage is rearranged in place, by reversing the part on each side
    /// of the insertion index, and handed out as it is.
    pub fn into_vec(self) -> (items: Vec<T>)
        ensures
            items@ == self@.reverse(),
    {
        proof {
            use_type_invariant(&self);
        }
        let CircularQueue { mut data, capacity: _, insertion_index } = self;
        let len = data.len();
        reverse_range(&mut data, insertion_index, len);
        reverse_range(&mut data, 0, insertion_index);
        data
    }

    /// Moves the queue out from behind the reference and leaves an inert queue
    /// of capacity zero in its place. The parts of a queue are changed on the
    /// value taken out and put back as a whole, so that what stands behind the
    /// reference is well-formed at every step.
    fn take(&mut self) -> (taken: Self)
        ensures
            taken == *old(self),
            taken.wf(),
    {
        proof {
            use_type_invariant(&*self);
        }
        let mut taken = CircularQueue { data: Vec::new(), capacity: 0, insertion_index: 0 };
        core::mem::swap(self, &mut taken);
        taken
    }

    /// Clears the queue. The capacity stays as it was, and so does the
    /// storage that was reserved.
    pub fn clear(&mut self)
        ensures
            final(self)@ == Seq::<T>::empty(),
            final(self).spec_capacity() == old(self).spec_capacity(),
            final(self).spec_cursor() == 0,
    {
        let CircularQueue { mut data, capacity, insertion_index: _ } = self.take();
        data.clear();
        *self = CircularQueue { data, capacity, insertion_index: 0 };
    }

    /// Pushes a new element into the queue.
    ///
    /// Once the capacity is reached, pushing new items will overwrite old
    /// ones: the oldest element leaves the queue and is returned. A queue of
    /// capacity zero takes nothing in and hands nothing back.
    pub fn push(&mut self, x: T) -> (popped: Option<T>)
        ensures
            final(self)@ == pushed(old(self)@, old(self).spec_capacity() as nat, x),
            popped == evicted(old(self)@, old(self).spec_capacity() as nat),
            final(self).spec_capacity() == old(self).spec_capacity(),
            final(self).spec_cursor() == advanced(
                old(self).spec_cursor() as int,
                old(self).spec_capacity() as int,
            ),
    {
        proof {
            use_type_invariant(&*self);
        }
        if self.capacity == 0 {
            return None;
        }
        proof {
            lemma_advanced_wraps(self.insertion_index as int, self.capacity as int);
        }
        if self.data.len() < self.capacity {
            let CircularQueue { mut data, capacity, insertion_index } = self.take();
            data.push(x);
            *self = CircularQueue { data, capacity, insertion_index: (insertion_index + 1) % capacity };
            None
        } else {
            let mut slot = x;
            core::mem::swap(&mut self.data[self.insertion_index], &mut slot);
            self.insertion_index = (self.insertion_index + 1) % self.capacity;
            Some(slot)
        }
    }
}

/// Where the write cursor `cursor` of a queue of capacity `capacity` stands
/// after one push: one place on, and back at the start after the last place. It
/// does not move where the capacity is zero.
pub open spec fn advanced(cursor: int, capacity: int) -> int {
    if capacity == 0 {
        cursor
    } else {
        (cursor + 1) % capacity
    }
}

/// A cursor below the capacity moves one place on, and from the last place
/// back to the start.
pub proof fn lemma_advanced_wraps(cursor: int, capacity: int)
    requires
        0 <= cursor < capacity,
    ensures
        advanced(cursor, capacity) == (if cursor + 1 == capacity {
            0
        } else {
            cursor + 1
        }),
{
    assert((cursor + 1) % capacity == if cursor + 1 == capacity {
        0
    } else {
        cursor + 1
    }) by (nonlinear_arith)
        requires
            0 <= cursor < capacity,
    ;
}

/// The logical content, oldest first, of a store `data` whose next write goes
/// to `index`.
spec fn unrolled<T>(data: Seq<T>, index: int) -> Seq<T> {
    data.subrange(index, data.len() as int) + data.subrange(0, index)
}

} // verus!
