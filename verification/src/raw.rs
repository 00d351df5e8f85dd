//! The loosely typed records that arrive from the transport, and their
//! mathematical model.

use vstd::prelude::*;
use vstd::string::*;
use crate::text::same_text;

verus! {

/// The model of a raw value: what a wire record can hold under a key.
pub enum Value {
    /// A string.
    Text(Seq<char>),
    /// A boolean.
    Boolean(bool),
    /// An integer.
    Integer(i64),
    /// A nested record: its entries in the order in which they arrived.
    Record(Seq<(Seq<char>, Value)>),
}

/// The model of a record: its entries, key and value, in arrival order.
pub type Entries = Seq<(Seq<char>, Value)>;

/// A raw value as delivered by the transport.
#[derive(Debug, PartialEq, Eq)]
pub enum RawValue {
    Text(String),
    Boolean(bool),
    Integer(i64),
    Record(RawRecord),
}

/// A raw named-field record: a list of entries. Where a key occurs more than
/// once, the first entry is the one that counts.
#[derive(Debug, PartialEq, Eq)]
pub struct RawRecord {
    pub entries: Vec<(String, RawValue)>,
}

impl RawValue {
    /// The model of this value.
    pub open spec fn model(&self) -> Value
        decreases self,
    {
        match self {
            RawValue::Text(s) => Value::Text(s@),
            RawValue::Boolean(b) => Value::Boolean(*b),
            RawValue::Integer(n) => Value::Integer(*n),
            RawValue::Record(r) => Value::Record(r.model()),
        }
    }
}

impl RawRecord {
    /// The model of this record.
    pub open spec fn model(&self) -> Entries
        decreases self,
    {
        Seq::new(
            self.entries.len() as nat,
            |i: int|
                if 0 <= i < self.entries.len() {
                    (self.entries[i].0@, self.entries[i].1.model())
                } else {
                    arbitrary()
                },
        )
    }
}

impl View for RawValue {
    type V = Value;

    open spec fn view(&self) -> Value {
        self.model()
    }
}

impl View for RawRecord {
    type V = Entries;

    open spec fn view(&self) -> Entries {
        self.model()
    }
}

/// The value that a record holds under `name`: that of the first entry with
/// this key, if there is one.
pub open spec fn lookup(rec: Entries, name: Seq<char>) -> Option<Value>
    decreases rec.len(),
{
    if rec.len() == 0 {
        None
    } else if rec[0].0 == name {
        Some(rec[0].1)
    } else {
        lookup(rec.drop_first(), name)
    }
}

/// An entry that is added at the end of a record is found under its key
/// unless an earlier entry has the same key, and changes nothing under any
/// other key.
pub proof fn lookup_after_push(rec: Entries, key: Seq<char>, value: Value, name: Seq<char>)
    ensures
        lookup(rec.push((key, value)), name) == if lookup(rec, name) is Some {
            lookup(rec, name)
        } else if key == name {
            Some(value)
        } else {
            None
        },
    decreases rec.len(),
{
    let longer = rec.push((key, value));
    if rec.len() == 0 {
        assert(longer[0] == (key, value));
        assert(longer.drop_first().len() == 0);
        assert(lookup(longer.drop_first(), name) is None);
    } else {
        assert(longer[0] == rec[0]);
        assert(longer.drop_first() =~= rec.drop_first().push((key, value)));
        lookup_after_push(rec.drop_first(), key, value, name);
    }
}

/// The string under `name`, if the record holds a string there.
pub open spec fn text_at(rec: Entries, name: Seq<char>) -> Option<Seq<char>> {
    match lookup(rec, name) {
        Some(Value::Text(s)) => Some(s),
        _ => None,
    }
}

/// The boolean under `name`, if the record holds a boolean there.
pub open spec fn boolean_at(rec: Entries, name: Seq<char>) -> Option<bool> {
    match lookup(rec, name) {
        Some(Value::Boolean(b)) => Some(b),
        _ => None,
    }
}

/// The integer under `name`, if the record holds an integer there.
pub open spec fn integer_at(rec: Entries, name: Seq<char>) -> Option<i64> {
    match lookup(rec, name) {
        Some(Value::Integer(n)) => Some(n),
        _ => None,
    }
}

/// The nested record under `name`, if the record holds a record there.
pub open spec fn record_at(rec: Entries, name: Seq<char>) -> Option<Entries> {
    match lookup(rec, name) {
        Some(Value::Record(r)) => Some(r),
        _ => None,
    }
}

impl RawRecord {
    /// A record without entries.
    pub fn new() -> (rec: RawRecord)
        ensures
            rec@ == Seq::<(Seq<char>, Value)>::empty(),
    {
        let rec = RawRecord { entries: Vec::new() };
        assert(rec@ =~= Seq::<(Seq<char>, Value)>::empty());
        rec
    }

    /// This record with one more entry at its end.
    pub fn with(self, name: &str, value: RawValue) -> (rec: RawRecord)
        ensures
            rec@ == self@.push((name@, value@)),
    {
        let mut entries = self.entries;
        entries.push((String::from_str(name), value));
        let rec = RawRecord { entries };
        assert(rec@ =~= self@.push((name@, value@)));
        rec
    }

    /// The value under `name`: that of the first entry with this key.
    pub fn get(&self, name: &str) -> (found: Option<&RawValue>)
        ensures
            match found {
                Some(value) => lookup(self@, name@) == Some(value@),
                None => lookup(self@, name@) is None,
            },
    {
        let mut i: usize = 0;
        assert(self@.skip(0) =~= self@);
        while i < self.entries.len()
            invariant
                i <= self.entries.len(),
                lookup(self@, name@) == lookup(self@.skip(i as int), name@),
            decreases self.entries.len() - i,
        {
            let ghost rest = self@.skip(i as int);
            assert(rest.len() > 0);
            assert(rest[0] == self@[i as int]);
            assert(rest.drop_first() =~= self@.skip(i + 1));
            if same_text(self.entries[i].0.as_str(), name) {
                return Some(&self.entries[i].1);
            }
            i += 1;
        }
        assert(self@.skip(i as int).len() == 0);
        None
    }
}

} // verus!
