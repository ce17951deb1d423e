//! How a document can fail to match the schema.

use crate::value::Shape;
use vstd::prelude::*;

verus! {

/// What is wrong with a document at some place.
#[derive(Clone, Copy, Debug, PartialEq, Eq, Structural)]
pub enum SchemaErrorKind {
    /// A required member is absent.
    Missing,
    /// A member is given more than once.
    Repeated,
    /// The value has another shape than the schema asks for.
    Mistyped { expected: Shape, found: Shape },
    /// The number is negative or above 65535.
    OutOfRange,
    /// The text is not the token of any control source.
    UnknownToken,
}

/// A document does not match the schema: what is wrong, and where.
#[derive(Debug)]
pub struct SchemaError {
    pub kind: SchemaErrorKind,
    /// The member names that lead from the document's root to the offending
    /// place, joined by dots; empty for the root itself.
    pub path: String,
}

/// A schema error as a mathematical value.
pub ghost struct SchemaErrorView {
    pub kind: SchemaErrorKind,
    pub path: Seq<char>,
}

impl View for SchemaError {
    type V = SchemaErrorView;

    open spec fn view(&self) -> SchemaErrorView {
        SchemaErrorView { kind: self.kind, path: self.path@ }
    }
}

impl SchemaErrorView {
    /// An error at the root of the value that was read.
    pub open spec fn here(kind: SchemaErrorKind) -> SchemaErrorView {
        SchemaErrorView { kind, path: Seq::empty() }
    }

    /// The same error, seen from the object that holds the value read as its
    /// member `key`.
    pub open spec fn under(self, key: Seq<char>) -> SchemaErrorView {
        SchemaErrorView {
            kind: self.kind,
            path: if self.path.len() == 0 {
                key
            } else {
                key + "."@ + self.path
            },
        }
    }
}

impl SchemaError {
    /// An error at the root of the value that was read.
    pub fn here(kind: SchemaErrorKind) -> (error: SchemaError)
        ensures
            error@ == SchemaErrorView::here(kind),
    {
        SchemaError { kind, path: String::new() }
    }

    /// The same error, seen from the object that holds the value read as its
    /// member `key`.
    pub fn under(self, key: &str) -> (error: SchemaError)
        ensures
            error@ == self@.under(key@),
    {
        let mut path = key.to_owned();
        if !self.path.as_str().is_empty() {
            path.append(".");
            path.append(self.path.as_str());
        }
        SchemaError { kind: self.kind, path }
    }
}

impl Clone for SchemaError {
    fn clone(&self) -> (copy: SchemaError)
        ensures
            copy@ == self@,
    {
        SchemaError { kind: self.kind, path: self.path.clone() }
    }
}

impl PartialEq for SchemaError {
    fn eq(&self, other: &SchemaError) -> (same: bool) {
        self.kind == other.kind && self.path == other.path
    }
}

impl vstd::std_specs::cmp::PartialEqSpecImpl for SchemaError {
    open spec fn obeys_eq_spec() -> bool {
        true
    }

    open spec fn eq_spec(&self, other: &SchemaError) -> bool {
        self@ == other@
    }
}

impl Eq for SchemaError {

}

/// What reading a value gave, as a mathematical value.
pub open spec fn outcome<T: View>(r: Result<T, SchemaError>) -> Result<T::V, SchemaErrorView> {
    match r {
        Ok(value) => Ok(value@),
        Err(error) => Err(error@),
    }
}

} // verus!
