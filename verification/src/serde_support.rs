//! The serialized form of a queue, and the rules for reading one back.
//!
//! A queue is written as a record named `CircularQueue` with two fields, in
//! this order: `capacity`, an unsigned integer, and `values`, the elements from
//! the oldest to the newest. Reading accepts the fields by name in any order,
//! or by position, and refuses a record with more values than its capacity.
//!
//! This module holds every decision of that format. The encoder or decoder at
//! hand is driven from outside: it hands over what it has read, and is told
//! what that amounts to.

use crate::pushes::{lemma_pushes_keep_newest, pushed_all};
use crate::queue::{lemma_advanced_wraps, CircularQueue};
use vstd::prelude::*;
use vstd::string::StringSliceAdditionalSpecFns;

verus! {

/// A field of the serialized record.
#[derive(Clone, Copy, Debug, PartialEq, Eq, Structural)]
pub enum Field {
    Capacity,
    Values,
}

/// Why a serialized record was refused.
#[derive(Clone, Copy, Debug, PartialEq, Eq, Structural)]
pub enum DecodeError {
    /// The record ended without this field.
    MissingField(Field),
    /// This field came a second time.
    DuplicateField(Field),
    /// The record holds this many values, more than its capacity allows.
    InvalidLength(usize),
}

/// The names of the fields of the serialized record, in the order in which
/// they are written.
pub fn field_names() -> (names: &'static [&'static str])
    ensures
        names@.len() == 2,
        names@[0] == Field::Capacity.spec_name(),
        names@[1] == Field::Values.spec_name(),
{
    &["capacity", "values"]
}

/// The name of the serialized record.
pub fn record_name() -> (name: &'static str)
    ensures
        name@ == "CircularQueue"@,
{
    "CircularQueue"
}

/// Whether two byte strings are the same.
fn same_bytes(left: &[u8], right: &[u8]) -> (same: bool)
    ensures
        same == (left@ == right@),
{
    if left.len() != right.len() {
        return false;
    }
    let mut i: usize = 0;
    while i < left.len()
        invariant
            left@.len() == right@.len(),
            i <= left@.len(),
            left@.subrange(0, i as int) == right@.subrange(0, i as int),
        decreases left@.len() - i,
    {
        if left[i] != right[i] {
            return false;
        }
        i = i + 1;
    }
    assert(left@ =~= left@.subrange(0, i as int));
    assert(right@ =~= right@.subrange(0, i as int));
    true
}

impl Field {
    /// The name under which the field is written.
    pub open spec fn spec_name(self) -> &'static str {
        match self {
            Field::Capacity => "capacity",
            Field::Values => "values",
        }
    }

    /// The field that the bytes `name` spell out, if any: the name has to
    /// match byte for byte.
    pub open spec fn spec_from_bytes(name: Seq<u8>) -> Option<Field> {
        if name == Field::Capacity.spec_name().spec_bytes() {
            Some(Field::Capacity)
        } else if name == Field::Values.spec_name().spec_bytes() {
            Some(Field::Values)
        } else {
            None
        }
    }

    /// The name under which the field is written.
    pub fn name(self) -> (name: &'static str)
        ensures
            name == self.spec_name(),
    {
        match self {
            Field::Capacity => "capacity",
            Field::Values => "values",
        }
    }

    /// Tells which field a key of the record names. `None` for a key that
    /// names no field.
    pub fn from_bytes(name: &[u8]) -> (field: Option<Field>)
        ensures
            field == Field::spec_from_bytes(name@),
    {
        if same_bytes(name, Field::Capacity.name().as_bytes()) {
            Some(Field::Capacity)
        } else if same_bytes(name, Field::Values.name().as_bytes()) {
            Some(Field::Values)
        } else {
            None
        }
    }
}

/// What a record of `capacity` and `values` (oldest first) is read as: the
/// content of the queue, or the reason for refusing the record.
pub open spec fn decoded<T>(capacity: usize, values: Seq<T>) -> Result<Seq<T>, DecodeError> {
    if values.len() > capacity {
        Err(DecodeError::InvalidLength(values.len() as usize))
    } else {
        Ok(values)
    }
}

/// What a record is read as when either field may be absent. A missing
/// capacity is reported before missing values.
pub open spec fn decoded_fields<T>(capacity: Option<usize>, values: Option<Seq<T>>) -> Result<
    (usize, Seq<T>),
    DecodeError,
> {
    match (capacity, values) {
        (None, _) => Err(DecodeError::MissingField(Field::Capacity)),
        (Some(_), None) => Err(DecodeError::MissingField(Field::Values)),
        (Some(capacity), Some(values)) => match decoded(capacity, values) {
            Ok(content) => Ok((capacity, content)),
            Err(error) => Err(error),
        },
    }
}

/// The values of a field that may be absent, as a sequence.
pub open spec fn content_of<T>(values: Option<Vec<T>>) -> Option<Seq<T>> {
    match values {
        Some(values) => Some(values@),
        None => None,
    }
}

/// Whether `queue` is the queue of capacity `capacity` that holds `content`
/// (oldest first) as pushing it into an empty queue leaves it: with the write
/// cursor just past the elements, or back at the start if they fill the queue.
pub open spec fn is_rebuilt_from<T>(queue: CircularQueue<T>, capacity: usize, content: Seq<T>) -> bool {
    &&& queue@ == content
    &&& queue.spec_capacity() == capacity
    &&& queue.spec_cursor() == if content.len() == capacity {
        0
    } else {
        content.len()
    }
}

/// Whether `result` is the outcome of reading `capacity` and `values`.
pub open spec fn is_decoding_of<T>(
    result: Result<CircularQueue<T>, DecodeError>,
    capacity: Option<usize>,
    values: Option<Seq<T>>,
) -> bool {
    match decoded_fields(capacity, values) {
        Ok((capacity, content)) => result is Ok && is_rebuilt_from(result->Ok_0, capacity, content),
        Err(error) => result == Err::<CircularQueue<T>, DecodeError>(error),
    }
}

/// Builds the queue that a record of `capacity` and `values` (oldest first)
/// stands for, by pushing the values in order into an empty queue of that
/// capacity. A record with more values than its capacity is refused, and no
/// queue is built.
pub fn rebuild<T>(capacity: usize, values: Vec<T>) -> (result: Result<CircularQueue<T>, DecodeError>)
    ensures
        is_decoding_of(result, Some(capacity), Some(values@)),
        result is Ok ==> result->Ok_0@ == pushed_all(Seq::<T>::empty(), capacity as nat, values@),
{
    proof {
        lemma_pushes_keep_newest(capacity as nat, values@);
    }
    if values.len() > capacity {
        return Err(DecodeError::InvalidLength(values.len()));
    }
    let ghost all = values@;
    let mut queue = CircularQueue::with_capacity(capacity);
    for x in it: values
        invariant
            it.seq() == all,
            all.len() <= capacity,
            queue.spec_capacity() == capacity,
            queue@ == all.take(it.index() as int),
            queue.spec_cursor() == if it.index() == capacity {
                0
            } else {
                it.index()
            },
    {
        proof {
            lemma_advanced_wraps(queue.spec_cursor() as int, capacity as int);
        }
        let _ = queue.push(x);
    }
    assert(queue@ =~= all);
    Ok(queue)
}

/// Puts together what has been read of a record, by position or by name.
fn assemble<T>(capacity: Option<usize>, values: Option<Vec<T>>) -> (result: Result<
    CircularQueue<T>,
    DecodeError,
>)
    ensures
        is_decoding_of(result, capacity, content_of(values)),
{
    match capacity {
        None => Err(DecodeError::MissingField(Field::Capacity)),
        Some(capacity) => match values {
            None => Err(DecodeError::MissingField(Field::Values)),
            Some(values) => rebuild(capacity, values),
        },
    }
}

/// Reading back what was written gives the queue that was written: a record
/// made of a queue's capacity and of its elements from the oldest to the
/// newest is never refused, and stands for a queue of that capacity with those
/// elements in that order.
pub proof fn lemma_round_trip<T>(queue: CircularQueue<T>, result: Result<CircularQueue<T>, DecodeError>)
    requires
        queue.wf(),
        is_decoding_of(result, Some(queue.spec_capacity()), Some(queue@)),
    ensures
        result is Ok,
        result->Ok_0@ == queue@,
        result->Ok_0.spec_capacity() == queue.spec_capacity(),
{
    queue.lemma_len_within_capacity();
}

/// Each field is found again under its own name.
pub proof fn lemma_field_found_by_name(field: Field)
    ensures
        Field::spec_from_bytes(field.spec_name().spec_bytes()) == Some(field),
{
    reveal_strlit("capacity");
    reveal_strlit("values");
    vstd::string::is_ascii_spec_bytes("capacity");
    vstd::string::is_ascii_spec_bytes("values");
}

/// The state of reading one serialized record: which fields have come so far,
/// and with what.
pub struct CircularQueueVisitor<T> {
    capacity: Option<usize>,
    values: Option<Vec<T>>,
}

impl<T> CircularQueueVisitor<T> {
    /// The capacity read so far, if any.
    pub closed spec fn seen_capacity(&self) -> Option<usize> {
        self.capacity
    }

    /// The values read so far, if any.
    pub closed spec fn seen_values(&self) -> Option<Seq<T>> {
        content_of(self.values)
    }

    /// Whether the field `key` has come already.
    pub open spec fn has_seen(&self, key: Field) -> bool {
        match key {
            Field::Capacity => self.seen_capacity() is Some,
            Field::Values => self.seen_values() is Some,
        }
    }

    /// A visitor that has read nothing yet.
    pub fn new() -> (visitor: CircularQueueVisitor<T>)
        ensures
            visitor.seen_capacity() is None,
            visitor.seen_values() is None,
    {
        CircularQueueVisitor { capacity: None, values: None }
    }

    /// What the visitor expects to read, for error messages.
    pub fn expecting(&self) -> (what: &'static str)
        ensures
            what@ == "a circular queue"@,
    {
        "a circular queue"
    }

    /// Reads a record given by position: the capacity first, then the values.
    /// Either may be absent where the record ended early.
    pub fn visit_seq(self, capacity: Option<usize>, values: Option<Vec<T>>) -> (result: Result<
        CircularQueue<T>,
        DecodeError,
    >)
        ensures
            is_decoding_of(result, capacity, content_of(values)),
    {
        assemble(capacity, values)
    }

    /// Takes note that the key of the field `key` has come, before its value
    /// is read. A field that comes a second time is refused.
    pub fn visit_key(&self, key: Field) -> (result: Result<(), DecodeError>)
        ensures
            self.has_seen(key) ==> result == Err::<(), DecodeError>(DecodeError::DuplicateField(key)),
            !self.has_seen(key) ==> result == Ok::<(), DecodeError>(()),
    {
        let seen = match key {
            Field::Capacity => self.capacity.is_some(),
            Field::Values => self.values.is_some(),
        };
        if seen {
            Err(DecodeError::DuplicateField(key))
        } else {
            Ok(())
        }
    }

    /// Takes the value of the field `capacity`.
    pub fn visit_capacity(&mut self, capacity: usize)
        ensures
            final(self).seen_capacity() == Some(capacity),
            final(self).seen_values() == old(self).seen_values(),
    {
        self.capacity = Some(capacity);
    }

    /// Takes the value of the field `values`, oldest first.
    pub fn visit_values(&mut self, values: Vec<T>)
        ensures
            final(self).seen_capacity() == old(self).seen_capacity(),
            final(self).seen_values() == Some(values@),
    {
        self.values = Some(values);
    }

    /// Ends a record given by field names, and builds the queue from what has
    /// been read.
    pub fn visit_map(self) -> (result: Result<CircularQueue<T>, DecodeError>)
        ensures
            is_decoding_of(result, self.seen_capacity(), self.seen_values()),
    {
        let CircularQueueVisitor { capacity, values } = self;
        assemble(capacity, values)
    }
}

} // verus!
