//! The closed set of construction failures.

use vstd::prelude::*;

verus! {

/// The kinds of failure that can arise while building a segment.
#[derive(Clone, Copy, Debug, PartialEq, Eq, Structural)]
pub enum SplineErrorType {
    /// A factory that structurally requires a predecessor segment was given
    /// none.
    InvalidPreviousSegment,
}

/// A construction failure: a kind together with a human-readable message
/// naming the offending factory.
#[derive(Debug)]
pub struct SplineError {
    message: String,
    error_type: SplineErrorType,
}

impl SplineError {
    pub closed spec fn spec_message(self) -> Seq<char> {
        self.message@
    }

    pub closed spec fn spec_error_type(self) -> SplineErrorType {
        self.error_type
    }

    pub fn new(message: &str, error_type: &SplineErrorType) -> (r: SplineError)
        ensures
            r.spec_message() == message@,
            r.spec_error_type() == *error_type,
    {
        SplineError { message: message.to_owned(), error_type: *error_type }
    }

    /// The message given at construction.
    pub fn message(&self) -> (r: &str)
        ensures
            r@ == self.spec_message(),
    {
        self.message.as_str()
    }

    /// The kind of failure.
    pub fn error_type(&self) -> (r: SplineErrorType)
        ensures
            r == self.spec_error_type(),
    {
        self.error_type
    }
}

} // verus!
