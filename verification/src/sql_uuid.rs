//! UUID cells, modeled by their 128-bit value.  Parsing the text forms is
//! delegated to the `uuid` crate behind a trusted wrapper.

use crate::DeserializeFromStr;
use crate::error::Error;
use crate::error::ErrorModel;
use vstd::prelude::*;

verus! {

/// A UUID as its 128-bit big-endian value, the form the conversion layer and
/// its callers reason about.
#[derive(Debug, Clone, Copy, PartialEq, Eq, Structural)]
pub struct SqlUuid {
    pub value: u128,
}

/// What the `uuid` crate's parser yields for a piece of text: the 128-bit
/// value of the UUID it denotes, or its diagnostic message.  The outcome
/// depends on the text alone.
pub uninterp spec fn uuid_parsed(s: Seq<char>) -> Result<u128, Seq<char>>;

/// Relies on `uuid::Uuid::parse_str` (the parser behind the crate's `FromStr`
/// impl, accepting the simple, hyphenated, braced and URN text forms),
/// `uuid::Uuid::as_u128` for the value's 128 bits, and the display message of
/// `uuid::Error`.  None of them panics, and the outcome is a function of the
/// text alone.
#[verifier::external_body]
fn parse_uuid_text(s: &str) -> (r: Result<u128, String>)
    ensures
        match (r, uuid_parsed(s@)) {
            (Ok(v), Ok(w)) => v == w,
            (Err(e), Err(m)) => e@ == m,
            _ => false,
        },
{
    match uuid::Uuid::parse_str(s) {
        Ok(u) => Ok(u.as_u128()),
        Err(e) => Err(e.to_string()),
    }
}

impl DeserializeFromStr for SqlUuid {
    open spec fn decoded(cell: Option<Seq<char>>, r: Result<SqlUuid, ErrorModel>) -> bool {
        match cell {
            None => r == Err::<SqlUuid, ErrorModel>(ErrorModel::UnexpectedNull),
            Some(s) => match uuid_parsed(s) {
                Ok(v) => r == Ok::<SqlUuid, ErrorModel>(SqlUuid { value: v }),
                Err(m) => r == Err::<SqlUuid, ErrorModel>(ErrorModel::Format { given: s, err: m }),
            },
        }
    }

    fn deserialize_from_str(s: Option<&str>) -> (r: Result<SqlUuid, Error>) {
        match s {
            None => Err(Error::UnexpectedNull),
            Some(t) => match parse_uuid_text(t) {
                Ok(v) => Ok(SqlUuid { value: v }),
                Err(m) => Err(Error::Format { given: t.to_owned(), err: m }),
            },
        }
    }
}

} // verus!
