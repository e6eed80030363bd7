//! The conversion error taxonomy: a shape mismatch, or a required field
//! absent from an object. Conversion is fail-fast; the first error found
//! during the depth-first descent is the one reported.

use vstd::prelude::*;

use crate::value::{SpecValue, Value};

verus! {

/// Specification-level mirror of [`FromJsonError`].
pub enum SpecError {
    /// A shape mismatch: the expected-type description, and the value found.
    ExpectError(Seq<char>, SpecValue),
    /// A required field's key was absent: the key, and the containing object.
    FieldNotFound(Seq<char>, SpecValue),
}

/// Error produced while building an object from a JSON value.
#[derive(Debug, PartialEq, Eq)]
pub enum FromJsonError {
    /// The conversion expected an element of one type and got another.
    ///
    /// The first parameter describes the expected type, the second is the
    /// offending value.
    ExpectError(String, Value),

    /// A field could not be found while reading a record from an object.
    ///
    /// The first parameter is the field's key, the second the object that
    /// lacks it.
    FieldNotFound(String, Value),
}

impl DeepView for FromJsonError {
    type V = SpecError;

    open spec fn deep_view(&self) -> SpecError {
        match *self {
            FromJsonError::ExpectError(desc, v) => SpecError::ExpectError(desc@, v.deep_view()),
            FromJsonError::FieldNotFound(key, v) => SpecError::FieldNotFound(key@, v.deep_view()),
        }
    }
}

/// The specification-level outcome a conversion result stands for.
pub open spec fn res_model<T: DeepView>(r: Result<T, FromJsonError>) -> Result<T::V, SpecError> {
    match r {
        Ok(t) => Ok(t.deep_view()),
        Err(e) => Err(e.deep_view()),
    }
}

} // verus!
