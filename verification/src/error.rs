//! The closed error taxonomy of the conversion layer.

use vstd::prelude::*;

verus! {

/// An error raised while converting an optional text cell, or a whole row,
/// into typed values.
#[derive(Debug, PartialEq, Eq)]
pub enum Error {
    /// A non-optional field's cell was absent.
    UnexpectedNull,
    /// A cell's text failed to parse as the target scalar type; carries the
    /// offending text and the parser's diagnostic message.
    Format { given: String, err: String },
    /// A `Format` or `UnexpectedNull` error raised while converting the named
    /// field, so callers can tell which declared column broke decoding.
    Field { field: String, err: Box<Error> },
}

/// The mathematical value of an [`Error`]: the same shape over sequences of
/// characters.  Contracts speak of this model.
#[verifier::ext_equal]
pub enum ErrorModel {
    UnexpectedNull,
    Format { given: Seq<char>, err: Seq<char> },
    Field { field: Seq<char>, err: Box<ErrorModel> },
}

pub open spec fn error_model(e: Error) -> ErrorModel
    decreases e,
{
    match e {
        Error::UnexpectedNull => ErrorModel::UnexpectedNull,
        Error::Format { given, err } => ErrorModel::Format { given: given@, err: err@ },
        Error::Field { field, err } => ErrorModel::Field {
            field: field@,
            err: Box::new(error_model(*err)),
        },
    }
}

impl View for Error {
    type V = ErrorModel;

    open spec fn view(&self) -> ErrorModel {
        error_model(*self)
    }
}

/// The model of a conversion outcome: the value itself on success, the error's
/// model on failure.
pub open spec fn lift_error<T>(r: Result<T, Error>) -> Result<T, ErrorModel> {
    match r {
        Ok(v) => Ok(v),
        Err(e) => Err(e@),
    }
}

} // verus!
