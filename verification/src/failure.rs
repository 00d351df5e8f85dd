//! Decode failures: which field could not be interpreted, and why.

use vstd::prelude::*;
use vstd::string::*;
use crate::text::{dotted, dotted_path};

verus! {

/// The shape of a raw value.
#[derive(Debug, Clone, Copy, PartialEq, Eq, PartialOrd, Ord, Hash, Structural)]
pub enum Shape {
    Text,
    Boolean,
    Integer,
    Record,
}

/// The model of a decode failure. A path names a field from the record's
/// root, the names of nested fields joined by dots.
pub enum Failure {
    /// A required field is absent.
    MissingField(Seq<char>),
    /// A field is present but does not have the expected shape.
    TypeMismatch(Seq<char>, Shape),
}

impl Failure {
    /// The path of the offending field.
    pub open spec fn path(self) -> Seq<char> {
        match self {
            Failure::MissingField(p) => p,
            Failure::TypeMismatch(p, _) => p,
        }
    }

    /// The same failure as seen from the record that holds the failing one
    /// under `field`.
    pub open spec fn within(self, field: Seq<char>) -> Failure {
        match self {
            Failure::MissingField(p) => Failure::MissingField(dotted(field, p)),
            Failure::TypeMismatch(p, shape) => Failure::TypeMismatch(dotted(field, p), shape),
        }
    }
}

/// A decode failure: the first field, in schema order, that could not be
/// interpreted, with its path from the record's root.
#[derive(Debug, Clone, PartialEq, Eq, PartialOrd, Ord, Hash)]
pub enum DecodeError {
    /// A required field is absent.
    MissingField(String),
    /// A field is present but does not have the expected shape.
    TypeMismatch(String, Shape),
}

impl View for DecodeError {
    type V = Failure;

    open spec fn view(&self) -> Failure {
        match self {
            DecodeError::MissingField(p) => Failure::MissingField(p@),
            DecodeError::TypeMismatch(p, shape) => Failure::TypeMismatch(p@, *shape),
        }
    }
}

impl DecodeError {
    /// The path of the offending field.
    pub fn path(&self) -> (p: &str)
        ensures
            p@ == self@.path(),
    {
        match self {
            DecodeError::MissingField(p) => p.as_str(),
            DecodeError::TypeMismatch(p, _) => p.as_str(),
        }
    }

    /// The same failure as seen from the record that holds the failing one
    /// under `field`: its path gets `field` and a dot in front.
    pub fn within(self, field: &str) -> (outer: DecodeError)
        ensures
            outer@ == self@.within(field@),
    {
        match self {
            DecodeError::MissingField(p) => DecodeError::MissingField(dotted_path(field, p.as_str())),
            DecodeError::TypeMismatch(p, shape) => DecodeError::TypeMismatch(
                dotted_path(field, p.as_str()),
                shape,
            ),
        }
    }
}

} // verus!
