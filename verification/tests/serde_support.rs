use circular_queue::serde_support::{
    field_names, rebuild, record_name, CircularQueueVisitor, DecodeError, Field,
};
use circular_queue::CircularQueue;
use serde::de::{self, Deserialize, Deserializer, Expected, MapAccess, SeqAccess, Visitor};
use serde::ser::{Serialize, SerializeSeq, SerializeStruct, Serializer};
use serde_test::{assert_de_tokens, assert_de_tokens_error, assert_tokens, Token};
use std::fmt;
use std::marker::PhantomData;

/// A queue together with the glue that drives `serde` by the library's rules.
#[derive(Debug, PartialEq)]
struct Queue<T>(CircularQueue<T>);

struct Values<'a, T>(&'a CircularQueue<T>);

impl<'a, T: Serialize> Serialize for Values<'a, T> {
    fn serialize<S: Serializer>(&self, serializer: S) -> Result<S::Ok, S::Error> {
        let mut seq = serializer.serialize_seq(Some(self.0.len()))?;
        let mut values = self.0.asc_iter();
        while let Some(e) = values.next() {
            seq.serialize_element(e)?;
        }
        seq.end()
    }
}

impl<T: Serialize> Serialize for Queue<T> {
    fn serialize<S: Serializer>(&self, serializer: S) -> Result<S::Ok, S::Error> {
        let mut record = serializer.serialize_struct(record_name(), field_names().len())?;
        record.serialize_field(Field::Capacity.name(), &self.0.capacity())?;
        record.serialize_field(Field::Values.name(), &Values(&self.0))?;
        record.end()
    }
}

struct Key(Field);

struct KeyVisitor;

impl<'de> Visitor<'de> for KeyVisitor {
    type Value = Key;

    fn expecting(&self, formatter: &mut fmt::Formatter) -> fmt::Result {
        formatter.write_str("field identifier")
    }

    fn visit_str<E: de::Error>(self, value: &str) -> Result<Key, E> {
        match Field::from_bytes(value.as_bytes()) {
            Some(field) => Ok(Key(field)),
            None => Err(de::Error::unknown_field(value, field_names())),
        }
    }

    fn visit_bytes<E: de::Error>(self, value: &[u8]) -> Result<Key, E> {
        match Field::from_bytes(value) {
            Some(field) => Ok(Key(field)),
            None => Err(de::Error::unknown_field(
                &String::from_utf8_lossy(value),
                field_names(),
            )),
        }
    }
}

impl<'de> Deserialize<'de> for Key {
    fn deserialize<D: Deserializer<'de>>(deserializer: D) -> Result<Key, D::Error> {
        deserializer.deserialize_identifier(KeyVisitor)
    }
}

fn refusal<E: de::Error>(error: DecodeError, expected: &dyn Expected) -> E {
    match error {
        DecodeError::MissingField(field) => de::Error::missing_field(field.name()),
        DecodeError::DuplicateField(field) => de::Error::duplicate_field(field.name()),
        DecodeError::InvalidLength(len) => de::Error::invalid_length(len, expected),
    }
}

struct QueueVisitor<T>(PhantomData<fn() -> CircularQueue<T>>);

impl<'de, T: Deserialize<'de>> Visitor<'de> for QueueVisitor<T> {
    type Value = Queue<T>;

    fn expecting(&self, formatter: &mut fmt::Formatter) -> fmt::Result {
        formatter.write_str(CircularQueueVisitor::<T>::new().expecting())
    }

    fn visit_seq<S: SeqAccess<'de>>(self, mut seq: S) -> Result<Self::Value, S::Error> {
        let capacity: Option<usize> = seq.next_element()?;
        let values = match capacity {
            Some(_) => seq.next_element::<Vec<T>>()?,
            None => None,
        };
        match CircularQueueVisitor::new().visit_seq(capacity, values) {
            Ok(queue) => Ok(Queue(queue)),
            Err(error) => Err(refusal(error, &self)),
        }
    }

    fn visit_map<V: MapAccess<'de>>(self, mut map: V) -> Result<Self::Value, V::Error> {
        let mut visitor = CircularQueueVisitor::new();
        while let Some(Key(key)) = map.next_key()? {
            if let Err(error) = visitor.visit_key(key) {
                return Err(refusal(error, &self));
            }
            match key {
                Field::Capacity => visitor.visit_capacity(map.next_value()?),
                Field::Values => visitor.visit_values(map.next_value::<Vec<T>>()?),
            }
        }
        match visitor.visit_map() {
            Ok(queue) => Ok(Queue(queue)),
            Err(error) => Err(refusal(error, &self)),
        }
    }
}

impl<'de, T: Deserialize<'de>> Deserialize<'de> for Queue<T> {
    fn deserialize<D: Deserializer<'de>>(deserializer: D) -> Result<Queue<T>, D::Error> {
        deserializer.deserialize_struct(record_name(), field_names(), QueueVisitor(PhantomData))
    }
}

fn ascending<T: Copy>(q: &CircularQueue<T>) -> Vec<T> {
    let mut res = Vec::new();
    let mut iter = q.asc_iter();
    while let Some(&x) = iter.next() {
        res.push(x);
    }
    res
}

fn filled(capacity: usize, pushes: i32) -> CircularQueue<i32> {
    let mut q = CircularQueue::with_capacity(capacity);
    for i in 0..pushes {
        q.push(i);
    }
    q
}

#[test]
fn serialization_works() {
    let mut q = CircularQueue::with_capacity(8);
    q.push(1);
    q.push(2);

    assert_tokens(
        &Queue(q),
        &[
            Token::Struct {
                name: "CircularQueue",
                len: 2,
            },
            Token::Str("capacity"),
            Token::U64(8),
            Token::Str("values"),
            Token::Seq { len: Some(2) },
            Token::I32(1),
            Token::I32(2),
            Token::SeqEnd,
            Token::StructEnd,
        ],
    );
}

#[test]
fn serialization_with_empty_queue() {
    let q = CircularQueue::<()>::with_capacity(0);

    assert_tokens(
        &Queue(q),
        &[
            Token::Struct {
                name: "CircularQueue",
                len: 2,
            },
            Token::Str("capacity"),
            Token::U64(0),
            Token::Str("values"),
            Token::Seq { len: Some(0) },
            Token::SeqEnd,
            Token::StructEnd,
        ],
    );
}

#[test]
fn serialization_preserves_order() {
    let mut q = CircularQueue::with_capacity(4);
    // Fill the q
    for i in 0..4 {
        q.push(i);
    }
    // Add a couple of new values
    q.push(4);
    q.push(5);
    // At this point, the queue should be [2, 3, 4, 5]

    assert_tokens(
        &Queue(q),
        &[
            Token::Struct {
                name: "CircularQueue",
                len: 2,
            },
            Token::Str("capacity"),
            Token::U64(4),
            Token::Str("values"),
            Token::Seq { len: Some(4) },
            Token::I32(2),
            Token::I32(3),
            Token::I32(4),
            Token::I32(5),
            Token::SeqEnd,
            Token::StructEnd,
        ],
    );
}

#[test]
fn serialization_to_json() {
    let mut q = CircularQueue::with_capacity(4);
    q.push(3);
    q.push(7);
    assert_eq!(
        serde_json::to_string(&Queue(q)).unwrap(),
        r#"{"capacity":4,"values":[3,7]}"#
    );
}

#[test]
fn serialization_from_json() {
    let mut q = CircularQueue::with_capacity(4);
    q.push(3);
    q.push(7);
    let p = serde_json::from_str::<Queue<i32>>(r#"{"capacity":4,"values":[3,7]}"#).unwrap();
    assert_eq!(p.0, q);
}

#[test]
fn serialization_from_json_empty() {
    let q = CircularQueue::with_capacity(4);
    let p = serde_json::from_str::<Queue<i32>>(r#"{"capacity":4,"values":[]}"#).unwrap();
    assert_eq!(p.0, q);
}

#[test]
fn serialization_to_bincode() {
    let mut q = CircularQueue::with_capacity(4);
    q.push(3);
    q.push(9);
    let v = bincode::serialize(&Queue(q.clone())).unwrap();
    let p = bincode::deserialize::<Queue<i32>>(&v).unwrap();
    assert_eq!(p.0, q);
}

#[test]
fn round_trip_in_every_fill_state() {
    for (capacity, pushes) in [(0, 0), (0, 5), (4, 0), (4, 2), (4, 4), (4, 6), (4, 23), (1, 9)] {
        let q = filled(capacity, pushes);

        let json = serde_json::to_string(&Queue(q.clone())).unwrap();
        let p = serde_json::from_str::<Queue<i32>>(&json).unwrap();
        assert_eq!(p.0, q);
        assert_eq!(p.0.capacity(), q.capacity());
        assert_eq!(ascending(&p.0), ascending(&q));

        let bytes = bincode::serialize(&Queue(q.clone())).unwrap();
        let p = bincode::deserialize::<Queue<i32>>(&bytes).unwrap();
        assert_eq!(p.0, q);
        assert_eq!(p.0.capacity(), q.capacity());
    }
}

#[test]
fn fields_are_read_in_any_order() {
    let p = serde_json::from_str::<Queue<i32>>(r#"{"values":[3,7],"capacity":4}"#).unwrap();
    assert_eq!(p.0.capacity(), 4);
    assert_eq!(ascending(&p.0), [3, 7]);
}

#[test]
fn a_full_record_is_read_back_full() {
    let mut p = serde_json::from_str::<Queue<i32>>(r#"{"capacity":3,"values":[1,2,3]}"#)
        .unwrap()
        .0;
    assert!(p.is_full());
    assert_eq!(ascending(&p), [1, 2, 3]);
    assert_eq!(p.push(4), Some(1));
    assert_eq!(ascending(&p), [2, 3, 4]);
}

#[test]
fn a_partial_record_is_read_back_with_room() {
    let mut p = serde_json::from_str::<Queue<i32>>(r#"{"capacity":3,"values":[1,2]}"#)
        .unwrap()
        .0;
    assert!(!p.is_full());
    assert_eq!(p.push(3), None);
    assert_eq!(p.push(4), Some(1));
    assert_eq!(ascending(&p), [2, 3, 4]);
}

#[test]
fn too_many_values_are_refused() {
    let error = serde_json::from_str::<Queue<i32>>(r#"{"capacity":2,"values":[1,2,3]}"#)
        .unwrap_err();
    assert!(error.to_string().starts_with("invalid length 3, expected a circular queue"));

    assert_de_tokens_error::<Queue<i32>>(
        &[
            Token::Struct {
                name: "CircularQueue",
                len: 2,
            },
            Token::Str("capacity"),
            Token::U64(0),
            Token::Str("values"),
            Token::Seq { len: Some(1) },
            Token::I32(1),
            Token::SeqEnd,
            Token::StructEnd,
        ],
        "invalid length 1, expected a circular queue",
    );
}

#[test]
fn a_field_that_comes_twice_is_refused() {
    assert_de_tokens_error::<Queue<i32>>(
        &[
            Token::Struct {
                name: "CircularQueue",
                len: 2,
            },
            Token::Str("capacity"),
            Token::U64(4),
            Token::Str("capacity"),
        ],
        "duplicate field `capacity`",
    );
    assert_de_tokens_error::<Queue<i32>>(
        &[
            Token::Struct {
                name: "CircularQueue",
                len: 2,
            },
            Token::Str("values"),
            Token::Seq { len: Some(0) },
            Token::SeqEnd,
            Token::Str("values"),
        ],
        "duplicate field `values`",
    );
}

#[test]
fn a_missing_field_is_refused() {
    assert_de_tokens_error::<Queue<i32>>(
        &[
            Token::Struct {
                name: "CircularQueue",
                len: 1,
            },
            Token::Str("values"),
            Token::Seq { len: Some(0) },
            Token::SeqEnd,
            Token::StructEnd,
        ],
        "missing field `capacity`",
    );
    assert_de_tokens_error::<Queue<i32>>(
        &[
            Token::Struct {
                name: "CircularQueue",
                len: 1,
            },
            Token::Str("capacity"),
            Token::U64(4),
            Token::StructEnd,
        ],
        "missing field `values`",
    );
    assert_de_tokens_error::<Queue<i32>>(
        &[
            Token::Struct {
                name: "CircularQueue",
                len: 0,
            },
            Token::StructEnd,
        ],
        "missing field `capacity`",
    );
}

#[test]
fn an_unknown_field_is_refused() {
    assert_de_tokens_error::<Queue<i32>>(
        &[
            Token::Struct {
                name: "CircularQueue",
                len: 2,
            },
            Token::Str("Capacity"),
        ],
        "unknown field `Capacity`, expected `capacity` or `values`",
    );
}

#[test]
fn a_record_by_position_is_read() {
    let mut q = CircularQueue::with_capacity(4);
    q.push(3);
    q.push(7);

    assert_de_tokens(
        &Queue(q),
        &[
            Token::Seq { len: Some(2) },
            Token::U64(4),
            Token::Seq { len: Some(2) },
            Token::I32(3),
            Token::I32(7),
            Token::SeqEnd,
            Token::SeqEnd,
        ],
    );
    assert_de_tokens_error::<Queue<i32>>(
        &[Token::Seq { len: Some(0) }, Token::SeqEnd],
        "missing field `capacity`",
    );
    assert_de_tokens_error::<Queue<i32>>(
        &[Token::Seq { len: Some(1) }, Token::U64(4), Token::SeqEnd],
        "missing field `values`",
    );
    assert_de_tokens_error::<Queue<i32>>(
        &[
            Token::Seq { len: Some(2) },
            Token::U64(1),
            Token::Seq { len: Some(2) },
            Token::I32(3),
            Token::I32(7),
            Token::SeqEnd,
            Token::SeqEnd,
        ],
        "invalid length 2, expected a circular queue",
    );
}

#[test]
fn field_names_and_keys() {
    assert_eq!(record_name(), "CircularQueue");
    assert_eq!(field_names(), ["capacity", "values"]);
    assert_eq!(Field::Capacity.name(), "capacity");
    assert_eq!(Field::Values.name(), "values");

    assert_eq!(Field::from_bytes(b"capacity"), Some(Field::Capacity));
    assert_eq!(Field::from_bytes(b"values"), Some(Field::Values));
    assert_eq!(Field::from_bytes(b""), None);
    assert_eq!(Field::from_bytes(b"value"), None);
    assert_eq!(Field::from_bytes(b"valuess"), None);
    assert_eq!(Field::from_bytes(b"capacitx"), None);
    assert_eq!(Field::from_bytes(b"Capacity"), None);
    assert_eq!(Field::from_bytes(b"valuez"), None);
}

#[test]
fn rebuild_replays_the_values() {
    let q = rebuild(3, vec![7, 8]).unwrap();
    assert_eq!(q.capacity(), 3);
    assert_eq!(ascending(&q), [7, 8]);

    let q = rebuild(2, vec![7, 8]).unwrap();
    assert!(q.is_full());
    assert_eq!(ascending(&q), [7, 8]);

    let q = rebuild(0, Vec::<i32>::new()).unwrap();
    assert_eq!(q.capacity(), 0);
    assert!(q.is_empty());

    assert_eq!(rebuild(2, vec![7, 8, 9]), Err(DecodeError::InvalidLength(3)));
    assert_eq!(rebuild(0, vec![7]), Err(DecodeError::InvalidLength(1)));
}

#[test]
fn visitor_takes_fields_step_by_step() {
    let mut visitor = CircularQueueVisitor::<i32>::new();
    assert_eq!(visitor.expecting(), "a circular queue");
    assert_eq!(visitor.visit_key(Field::Capacity), Ok(()));
    assert_eq!(visitor.visit_key(Field::Values), Ok(()));

    visitor.visit_values(vec![1, 2]);
    assert_eq!(visitor.visit_key(Field::Capacity), Ok(()));
    assert_eq!(
        visitor.visit_key(Field::Values),
        Err(DecodeError::DuplicateField(Field::Values))
    );

    visitor.visit_capacity(5);
    assert_eq!(
        visitor.visit_key(Field::Capacity),
        Err(DecodeError::DuplicateField(Field::Capacity))
    );

    let q = visitor.visit_map().unwrap();
    assert_eq!(q.capacity(), 5);
    assert_eq!(ascending(&q), [1, 2]);
}

#[test]
fn visitor_reports_what_is_missing() {
    let visitor = CircularQueueVisitor::<i32>::new();
    assert_eq!(
        visitor.visit_map(),
        Err(DecodeError::MissingField(Field::Capacity))
    );

    let mut visitor = CircularQueueVisitor::<i32>::new();
    visitor.visit_values(vec![1]);
    assert_eq!(
        visitor.visit_map(),
        Err(DecodeError::MissingField(Field::Capacity))
    );

    let mut visitor = CircularQueueVisitor::<i32>::new();
    visitor.visit_capacity(1);
    assert_eq!(
        visitor.visit_map(),
        Err(DecodeError::MissingField(Field::Values))
    );

    let mut visitor = CircularQueueVisitor::<i32>::new();
    visitor.visit_capacity(1);
    visitor.visit_values(vec![1, 2]);
    assert_eq!(visitor.visit_map(), Err(DecodeError::InvalidLength(2)));
}

#[test]
fn visit_seq_reads_by_position() {
    let q = CircularQueueVisitor::new()
        .visit_seq(Some(2), Some(vec![5, 6]))
        .unwrap();
    assert_eq!(q.capacity(), 2);
    assert_eq!(ascending(&q), [5, 6]);

    assert_eq!(
        CircularQueueVisitor::<i32>::new().visit_seq(None, None),
        Err(DecodeError::MissingField(Field::Capacity))
    );
    assert_eq!(
        CircularQueueVisitor::<i32>::new().visit_seq(None, Some(vec![1])),
        Err(DecodeError::MissingField(Field::Capacity))
    );
    assert_eq!(
        CircularQueueVisitor::<i32>::new().visit_seq(Some(3), None),
        Err(DecodeError::MissingField(Field::Values))
    );
    assert_eq!(
        CircularQueueVisitor::new().visit_seq(Some(1), Some(vec![5, 6])),
        Err(DecodeError::InvalidLength(2))
    );
}

#[test]
fn a_capacity_beyond_any_storage_is_read() {
    let text = format!(r#"{{"capacity":{},"values":[1]}}"#, usize::MAX);
    let p = serde_json::from_str::<Queue<i32>>(&text).unwrap().0;
    assert_eq!(p.capacity(), usize::MAX);
    assert_eq!(ascending(&p), [1]);
}
