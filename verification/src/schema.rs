//! Sparse records: which fields an entity reads from a record, which of them
//! may be absent, and what a record that does not fit fails with.

use vstd::prelude::*;
use vstd::string::*;
use crate::failure::{DecodeError, Failure, Shape};
use crate::raw::{Entries, RawRecord, RawValue, Value, boolean_at, integer_at, lookup, record_at, text_at};

verus! {

/// How the value of a field is read.
pub enum Codec {
    /// A string; every string is accepted.
    Text,
    /// A boolean.
    Boolean,
    /// An integer.
    Integer,
    /// A nested record, read by the schema given.
    Record(Seq<FieldSpec>),
}

/// One field of a schema.
pub struct FieldSpec {
    pub name: Seq<char>,
    pub required: bool,
    pub codec: Codec,
}

/// The fields of an entity, in the order in which they are read.
pub type Schema = Seq<FieldSpec>;

/// A field that must be present.
pub open spec fn required(name: Seq<char>, codec: Codec) -> FieldSpec {
    FieldSpec { name, required: true, codec }
}

/// A field that may be absent.
pub open spec fn optional(name: Seq<char>, codec: Codec) -> FieldSpec {
    FieldSpec { name, required: false, codec }
}

impl Codec {
    /// The shape of the values that this codec reads.
    pub open spec fn shape(self) -> Shape {
        match self {
            Codec::Text => Shape::Text,
            Codec::Boolean => Shape::Boolean,
            Codec::Integer => Shape::Integer,
            Codec::Record(_) => Shape::Record,
        }
    }
}

impl Value {
    /// The shape of this value.
    pub open spec fn shape(self) -> Shape {
        match self {
            Value::Text(_) => Shape::Text,
            Value::Boolean(_) => Shape::Boolean,
            Value::Integer(_) => Shape::Integer,
            Value::Record(_) => Shape::Record,
        }
    }
}

/// What reading one field of a record fails with, if it fails.
pub open spec fn field_failure(rec: Entries, field: FieldSpec) -> Option<Failure>
    decreases field, 0nat,
{
    match lookup(rec, field.name) {
        None => if field.required {
            Some(Failure::MissingField(field.name))
        } else {
            None
        },
        Some(value) => if value.shape() != field.codec.shape() {
            Some(Failure::TypeMismatch(field.name, field.codec.shape()))
        } else {
            match (field.codec, value) {
                (Codec::Record(inner), Value::Record(nested)) => match failure_from(nested, inner, 0) {
                    Some(e) => Some(e.within(field.name)),
                    None => None,
                },
                _ => None,
            }
        },
    }
}

/// The failure of the first field, from position `start` on, that a record
/// does not fit.
pub open spec fn failure_from(rec: Entries, schema: Schema, start: nat) -> Option<Failure>
    decreases schema, schema.len() - start,
{
    if start >= schema.len() {
        None
    } else {
        match field_failure(rec, schema[start as int]) {
            Some(e) => Some(e),
            None => failure_from(rec, schema, start + 1),
        }
    }
}

/// The failure of the first field of the schema that a record does not fit.
pub open spec fn first_failure(rec: Entries, schema: Schema) -> Option<Failure> {
    failure_from(rec, schema, 0)
}

/// Whether a record fits one field of a schema: the field is read without
/// failure.
pub open spec fn fits_field(rec: Entries, field: FieldSpec) -> bool {
    field_failure(rec, field) is None
}

/// From position `start` on, the failure of a schema is that of the first
/// field that the record does not fit, and there is none where the record
/// fits every field.
proof fn failure_from_is_first(rec: Entries, schema: Schema, start: nat)
    ensures
        match failure_from(rec, schema, start) {
            Some(e) => exists|i: int|
                {
                    &&& start <= i < schema.len()
                    &&& #[trigger] field_failure(rec, schema[i]) == Some(e)
                    &&& forall|j: int| start <= j < i ==> #[trigger] fits_field(rec, schema[j])
                },
            None => forall|j: int| start <= j < schema.len() ==> #[trigger] fits_field(rec, schema[j]),
        },
    decreases schema.len() - start,
{
    if start < schema.len() {
        failure_from_is_first(rec, schema, start + 1);
        match field_failure(rec, schema[start as int]) {
            Some(e) => {
                assert(field_failure(rec, schema[start as int]) == Some(e));
            },
            None => {
                assert(fits_field(rec, schema[start as int]));
                match failure_from(rec, schema, start + 1) {
                    Some(e) => {
                        let i = choose|i: int|
                            {
                                &&& start + 1 <= i < schema.len()
                                &&& #[trigger] field_failure(rec, schema[i]) == Some(e)
                                &&& forall|j: int|
                                    start + 1 <= j < i ==> #[trigger] fits_field(rec, schema[j])
                            };
                        assert forall|j: int| start <= j < i implies #[trigger] fits_field(
                            rec,
                            schema[j],
                        ) by {
                            if j > start {
                                assert(start + 1 <= j);
                            }
                        }
                        assert(field_failure(rec, schema[i]) == Some(e));
                    },
                    None => {
                        assert forall|j: int| start <= j < schema.len() implies #[trigger] fits_field(
                            rec,
                            schema[j],
                        ) by {
                            if j > start {
                                assert(start + 1 <= j);
                            }
                        }
                    },
                }
            },
        }
    }
}

/// Decoding is fail-fast: the failure of a schema is the failure of the
/// first field, in schema order, that the record does not fit.
pub proof fn failure_is_that_of_the_first_misfit(rec: Entries, schema: Schema)
    ensures
        first_failure(rec, schema) matches Some(e) ==> exists|i: int|
            {
                &&& 0 <= i < schema.len()
                &&& #[trigger] field_failure(rec, schema[i]) == Some(e)
                &&& forall|j: int| 0 <= j < i ==> #[trigger] fits_field(rec, schema[j])
            },
{
    failure_from_is_first(rec, schema, 0);
}

/// A record fits a schema exactly when it fits each of its fields.
pub proof fn fits_exactly_when_every_field_fits(rec: Entries, schema: Schema)
    ensures
        first_failure(rec, schema) is None <==> forall|i: int|
            0 <= i < schema.len() ==> #[trigger] fits_field(rec, schema[i]),
{
    failure_from_is_first(rec, schema, 0);
    if let Some(e) = first_failure(rec, schema) {
        let i = choose|i: int|
            {
                &&& 0 <= i < schema.len()
                &&& #[trigger] field_failure(rec, schema[i]) == Some(e)
                &&& forall|j: int| 0 <= j < i ==> #[trigger] fits_field(rec, schema[j])
            };
        assert(!fits_field(rec, schema[i]));
    }
}

/// A record fits a field exactly when the field is absent and optional, or
/// present with the shape that its codec reads and, for a nested record,
/// with entries that fit the nested schema.
pub proof fn field_fits_exactly_when(rec: Entries, field: FieldSpec)
    ensures
        fits_field(rec, field) <==> match lookup(rec, field.name) {
            None => !field.required,
            Some(value) => match field.codec {
                Codec::Record(inner) => value matches Value::Record(nested) && first_failure(
                    nested,
                    inner,
                ) is None,
                codec => value.shape() == codec.shape(),
            },
        },
{
}

/// Reading a field looks at nothing but the entry under the field's name.
pub proof fn field_reads_only_its_own_key(a: Entries, b: Entries, field: FieldSpec)
    requires
        lookup(a, field.name) == lookup(b, field.name),
    ensures
        field_failure(a, field) == field_failure(b, field),
{
}

/// Keys that a schema does not name are ignored: two records that hold the
/// same under every name of the schema fail alike, or both fit.
pub proof fn other_keys_are_ignored(a: Entries, b: Entries, schema: Schema)
    requires
        forall|i: int|
            0 <= i < schema.len() ==> lookup(a, #[trigger] schema[i].name) == lookup(
                b,
                schema[i].name,
            ),
    ensures
        first_failure(a, schema) == first_failure(b, schema),
{
    same_failure_from(a, b, schema, 0);
}

proof fn same_failure_from(a: Entries, b: Entries, schema: Schema, start: nat)
    requires
        forall|i: int|
            0 <= i < schema.len() ==> lookup(a, #[trigger] schema[i].name) == lookup(
                b,
                schema[i].name,
            ),
    ensures
        failure_from(a, schema, start) == failure_from(b, schema, start),
    decreases schema.len() - start,
{
    if start < schema.len() {
        field_reads_only_its_own_key(a, b, schema[start as int]);
        same_failure_from(a, b, schema, start + 1);
    }
}

/// A failure inside a nested record comes out with the name of the field
/// that holds the record, and a dot, in front of its path.
pub proof fn nested_failure_is_prefixed(
    rec: Entries,
    name: Seq<char>,
    required: bool,
    inner: Schema,
    nested: Entries,
    e: Failure,
)
    requires
        lookup(rec, name) == Some(Value::Record(nested)),
        first_failure(nested, inner) == Some(e),
    ensures
        field_failure(rec, FieldSpec { name, required, codec: Codec::Record(inner) }) == Some(
            e.within(name),
        ),
        e.within(name).path() == name + seq!['.'] + e.path(),
{
}

/// An entity that is read from a sparse record: a schema says which fields
/// it reads, and a record that fits the schema gives its value.
pub trait Entity: Sized + View {
    /// The fields that the entity reads, in the order in which they are read.
    spec fn schema() -> Schema;

    /// The entity that a record gives, where the record fits the schema.
    spec fn value(rec: Entries) -> Self::V;

    /// Reads the entity from a record. A record that fits the schema gives
    /// the entity; any other fails with the failure of the first field, in
    /// schema order, that it does not fit. Keys that the schema does not name
    /// are ignored.
    fn decode(rec: &RawRecord) -> (decoded: Result<Self, DecodeError>)
        ensures
            match decoded {
                Ok(entity) => first_failure(rec@, Self::schema()) is None && entity@
                    == Self::value(rec@),
                Err(e) => first_failure(rec@, Self::schema()) == Some(e@),
            },
    ;
}

/// The failure of a present field whose value has another shape than the
/// one expected.
fn mismatch(name: &str, expected: Shape) -> (e: DecodeError)
    ensures
        e@ == Failure::TypeMismatch(name@, expected),
{
    DecodeError::TypeMismatch(String::from_str(name), expected)
}

/// Turns the absence of a required field into a failure.
pub fn present<T>(read: Option<T>, name: &str) -> (found: Result<T, DecodeError>)
    ensures
        match found {
            Ok(v) => read == Some(v),
            Err(e) => read is None && e@ == Failure::MissingField(name@),
        },
{
    match read {
        Some(v) => Ok(v),
        None => Err(DecodeError::MissingField(String::from_str(name))),
    }
}

/// Reads an optional string field.
pub fn optional_text<'a>(rec: &'a RawRecord, name: &str) -> (read: Result<
    Option<&'a str>,
    DecodeError,
>)
    ensures
        match read {
            Ok(Some(s)) => text_at(rec@, name@) == Some(s@),
            Ok(None) => lookup(rec@, name@) is None,
            Err(e) => field_failure(rec@, optional(name@, Codec::Text)) == Some(e@),
        },
        read is Ok ==> field_failure(rec@, optional(name@, Codec::Text)) is None,
{
    match rec.get(name) {
        None => Ok(None),
        Some(RawValue::Text(s)) => Ok(Some(s.as_str())),
        Some(_) => Err(mismatch(name, Shape::Text)),
    }
}

/// Reads an optional boolean field.
pub fn optional_boolean(rec: &RawRecord, name: &str) -> (read: Result<Option<bool>, DecodeError>)
    ensures
        match read {
            Ok(Some(b)) => boolean_at(rec@, name@) == Some(b),
            Ok(None) => lookup(rec@, name@) is None,
            Err(e) => field_failure(rec@, optional(name@, Codec::Boolean)) == Some(e@),
        },
        read is Ok ==> field_failure(rec@, optional(name@, Codec::Boolean)) is None,
{
    match rec.get(name) {
        None => Ok(None),
        Some(RawValue::Boolean(b)) => Ok(Some(*b)),
        Some(_) => Err(mismatch(name, Shape::Boolean)),
    }
}

/// Reads an optional integer field.
pub fn optional_integer(rec: &RawRecord, name: &str) -> (read: Result<Option<i64>, DecodeError>)
    ensures
        match read {
            Ok(Some(n)) => integer_at(rec@, name@) == Some(n),
            Ok(None) => lookup(rec@, name@) is None,
            Err(e) => field_failure(rec@, optional(name@, Codec::Integer)) == Some(e@),
        },
        read is Ok ==> field_failure(rec@, optional(name@, Codec::Integer)) is None,
{
    match rec.get(name) {
        None => Ok(None),
        Some(RawValue::Integer(n)) => Ok(Some(*n)),
        Some(_) => Err(mismatch(name, Shape::Integer)),
    }
}

/// Reads an optional nested entity. A failure inside the nested record
/// comes out with this field's name in front of its path.
pub fn optional_nested<T: Entity>(rec: &RawRecord, name: &str) -> (read: Result<
    Option<T>,
    DecodeError,
>)
    ensures
        match read {
            Ok(Some(entity)) => record_at(rec@, name@) matches Some(nested) && entity@ == T::value(
                nested,
            ),
            Ok(None) => lookup(rec@, name@) is None,
            Err(e) => field_failure(rec@, optional(name@, Codec::Record(T::schema()))) == Some(e@),
        },
        read is Ok ==> field_failure(rec@, optional(name@, Codec::Record(T::schema()))) is None,
{
    match rec.get(name) {
        None => Ok(None),
        Some(RawValue::Record(nested)) => match T::decode(nested) {
            Ok(entity) => Ok(Some(entity)),
            Err(e) => Err(e.within(name)),
        },
        Some(_) => Err(mismatch(name, Shape::Record)),
    }
}

/// Reads a required string field.
pub fn required_text<'a>(rec: &'a RawRecord, name: &str) -> (read: Result<&'a str, DecodeError>)
    ensures
        match read {
            Ok(s) => text_at(rec@, name@) == Some(s@),
            Err(e) => field_failure(rec@, required(name@, Codec::Text)) == Some(e@),
        },
        read is Ok ==> field_failure(rec@, required(name@, Codec::Text)) is None,
{
    present(optional_text(rec, name)?, name)
}

/// Reads a required boolean field.
pub fn required_boolean(rec: &RawRecord, name: &str) -> (read: Result<bool, DecodeError>)
    ensures
        match read {
            Ok(b) => boolean_at(rec@, name@) == Some(b),
            Err(e) => field_failure(rec@, required(name@, Codec::Boolean)) == Some(e@),
        },
        read is Ok ==> field_failure(rec@, required(name@, Codec::Boolean)) is None,
{
    present(optional_boolean(rec, name)?, name)
}

/// Reads a required integer field.
pub fn required_integer(rec: &RawRecord, name: &str) -> (read: Result<i64, DecodeError>)
    ensures
        match read {
            Ok(n) => integer_at(rec@, name@) == Some(n),
            Err(e) => field_failure(rec@, required(name@, Codec::Integer)) == Some(e@),
        },
        read is Ok ==> field_failure(rec@, required(name@, Codec::Integer)) is None,
{
    present(optional_integer(rec, name)?, name)
}

/// Reads a required nested entity. A failure inside the nested record comes
/// out with this field's name in front of its path.
pub fn required_nested<T: Entity>(rec: &RawRecord, name: &str) -> (read: Result<T, DecodeError>)
    ensures
        match read {
            Ok(entity) => record_at(rec@, name@) matches Some(nested) && entity@ == T::value(
                nested,
            ),
            Err(e) => field_failure(rec@, required(name@, Codec::Record(T::schema()))) == Some(e@),
        },
        read is Ok ==> field_failure(rec@, required(name@, Codec::Record(T::schema()))) is None,
{
    present(optional_nested::<T>(rec, name)?, name)
}

} // verus!
