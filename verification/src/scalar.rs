//! The scalar conversion contract, implemented for every supported scalar
//! type: booleans, all integer widths, single characters and text.

use crate::DeserializeFromStr;
use crate::error::Error;
use crate::error::ErrorModel;
use crate::text::ParseFail;
use crate::text::bool_parse_spec;
use crate::text::fail_message;
use crate::text::fail_text;
use crate::text::int_parse_spec;
use crate::text::parse_bool_text;
use crate::text::parse_i128_text;
use crate::text::parse_i16_text;
use crate::text::parse_i32_text;
use crate::text::parse_i64_text;
use crate::text::parse_i8_text;
use crate::text::parse_isize_text;
use crate::text::parse_u128_text;
use crate::text::parse_u16_text;
use crate::text::parse_u32_text;
use crate::text::parse_u64_text;
use crate::text::parse_u8_text;
use crate::text::parse_usize_text;
use vstd::prelude::*;

verus! {

/// Builds the format error for text that failed to parse: it carries the
/// offending text and the parser's diagnostic message.
pub(crate) fn format_parse_error(t: &str, f: ParseFail) -> (e: Error)
    ensures
        e@ == (ErrorModel::Format { given: t@, err: fail_text(f) }),
{
    Error::Format { given: t.to_owned(), err: fail_message(f) }
}

pub open spec fn bool_fail_text() -> Seq<char> {
    "provided string was not `true` or `false`"@
}

pub open spec fn char_empty_fail_text() -> Seq<char> {
    "cannot parse char from empty string"@
}

pub open spec fn char_many_fail_text() -> Seq<char> {
    "too many characters in string"@
}

impl DeserializeFromStr for bool {
    open spec fn decoded(cell: Option<Seq<char>>, r: Result<bool, ErrorModel>) -> bool {
        match cell {
            None => r == Err::<bool, ErrorModel>(ErrorModel::UnexpectedNull),
            Some(s) => match bool_parse_spec(s) {
                Some(b) => r == Ok::<bool, ErrorModel>(b),
                None => r == Err::<bool, ErrorModel>(
                    ErrorModel::Format { given: s, err: bool_fail_text() },
                ),
            },
        }
    }

    fn deserialize_from_str(s: Option<&str>) -> (r: Result<bool, Error>) {
        match s {
            None => Err(Error::UnexpectedNull),
            Some(t) => match parse_bool_text(t) {
                Some(b) => Ok(b),
                None => Err(
                    Error::Format {
                        given: t.to_owned(),
                        err: String::from_str("provided string was not `true` or `false`"),
                    },
                ),
            },
        }
    }
}

impl DeserializeFromStr for char {
    open spec fn decoded(cell: Option<Seq<char>>, r: Result<char, ErrorModel>) -> bool {
        match cell {
            None => r == Err::<char, ErrorModel>(ErrorModel::UnexpectedNull),
            Some(s) => if s.len() == 1 {
                r == Ok::<char, ErrorModel>(s[0])
            } else if s.len() == 0 {
                r == Err::<char, ErrorModel>(
                    ErrorModel::Format { given: s, err: char_empty_fail_text() },
                )
            } else {
                r == Err::<char, ErrorModel>(
                    ErrorModel::Format { given: s, err: char_many_fail_text() },
                )
            },
        }
    }

    fn deserialize_from_str(s: Option<&str>) -> (r: Result<char, Error>) {
        match s {
            None => Err(Error::UnexpectedNull),
            Some(t) => {
                let n = t.unicode_len();
                if n == 1 {
                    Ok(t.get_char(0))
                } else if n == 0 {
                    Err(
                        Error::Format {
                            given: t.to_owned(),
                            err: String::from_str("cannot parse char from empty string"),
                        },
                    )
                } else {
                    Err(
                        Error::Format {
                            given: t.to_owned(),
                            err: String::from_str("too many characters in string"),
                        },
                    )
                }
            },
        }
    }
}

impl DeserializeFromStr for String {
    open spec fn decoded(cell: Option<Seq<char>>, r: Result<String, ErrorModel>) -> bool {
        match cell {
            None => r == Err::<String, ErrorModel>(ErrorModel::UnexpectedNull),
            Some(s) => match r {
                Ok(v) => v@ == s,
                Err(_) => false,
            },
        }
    }

    fn deserialize_from_str(s: Option<&str>) -> (r: Result<String, Error>) {
        match s {
            None => Err(Error::UnexpectedNull),
            Some(t) => Ok(t.to_owned()),
        }
    }
}

impl DeserializeFromStr for u8 {
    open spec fn decoded(cell: Option<Seq<char>>, r: Result<u8, ErrorModel>) -> bool {
        match cell {
            None => r == Err::<u8, ErrorModel>(ErrorModel::UnexpectedNull),
            Some(s) => match int_parse_spec(s, 0, u8::MAX as int) {
                Ok(v) => r == Ok::<u8, ErrorModel>(v as u8),
                Err(f) => r == Err::<u8, ErrorModel>(
                    ErrorModel::Format { given: s, err: fail_text(f) },
                ),
            },
        }
    }

    fn deserialize_from_str(s: Option<&str>) -> (r: Result<u8, Error>) {
        match s {
            None => Err(Error::UnexpectedNull),
            Some(t) => match parse_u8_text(t) {
                Ok(v) => Ok(v),
                Err(f) => Err(format_parse_error(t, f)),
            },
        }
    }
}

impl DeserializeFromStr for u16 {
    open spec fn decoded(cell: Option<Seq<char>>, r: Result<u16, ErrorModel>) -> bool {
        match cell {
            None => r == Err::<u16, ErrorModel>(ErrorModel::UnexpectedNull),
            Some(s) => match int_parse_spec(s, 0, u16::MAX as int) {
                Ok(v) => r == Ok::<u16, ErrorModel>(v as u16),
                Err(f) => r == Err::<u16, ErrorModel>(
                    ErrorModel::Format { given: s, err: fail_text(f) },
                ),
            },
        }
    }

    fn deserialize_from_str(s: Option<&str>) -> (r: Result<u16, Error>) {
        match s {
            None => Err(Error::UnexpectedNull),
            Some(t) => match parse_u16_text(t) {
                Ok(v) => Ok(v),
                Err(f) => Err(format_parse_error(t, f)),
            },
        }
    }
}

impl DeserializeFromStr for u32 {
    open spec fn decoded(cell: Option<Seq<char>>, r: Result<u32, ErrorModel>) -> bool {
        match cell {
            None => r == Err::<u32, ErrorModel>(ErrorModel::UnexpectedNull),
            Some(s) => match int_parse_spec(s, 0, u32::MAX as int) {
                Ok(v) => r == Ok::<u32, ErrorModel>(v as u32),
                Err(f) => r == Err::<u32, ErrorModel>(
                    ErrorModel::Format { given: s, err: fail_text(f) },
                ),
            },
        }
    }

    fn deserialize_from_str(s: Option<&str>) -> (r: Result<u32, Error>) {
        match s {
            None => Err(Error::UnexpectedNull),
            Some(t) => match parse_u32_text(t) {
                Ok(v) => Ok(v),
                Err(f) => Err(format_parse_error(t, f)),
            },
        }
    }
}

impl DeserializeFromStr for u64 {
    open spec fn decoded(cell: Option<Seq<char>>, r: Result<u64, ErrorModel>) -> bool {
        match cell {
            None => r == Err::<u64, ErrorModel>(ErrorModel::UnexpectedNull),
            Some(s) => match int_parse_spec(s, 0, u64::MAX as int) {
                Ok(v) => r == Ok::<u64, ErrorModel>(v as u64),
                Err(f) => r == Err::<u64, ErrorModel>(
                    ErrorModel::Format { given: s, err: fail_text(f) },
                ),
            },
        }
    }

    fn deserialize_from_str(s: Option<&str>) -> (r: Result<u64, Error>) {
        match s {
            None => Err(Error::UnexpectedNull),
            Some(t) => match parse_u64_text(t) {
                Ok(v) => Ok(v),
                Err(f) => Err(format_parse_error(t, f)),
            },
        }
    }
}

impl DeserializeFromStr for u128 {
    open spec fn decoded(cell: Option<Seq<char>>, r: Result<u128, ErrorModel>) -> bool {
        match cell {
            None => r == Err::<u128, ErrorModel>(ErrorModel::UnexpectedNull),
            Some(s) => match int_parse_spec(s, 0, u128::MAX as int) {
                Ok(v) => r == Ok::<u128, ErrorModel>(v as u128),
                Err(f) => r == Err::<u128, ErrorModel>(
                    ErrorModel::Format { given: s, err: fail_text(f) },
                ),
            },
        }
    }

    fn deserialize_from_str(s: Option<&str>) -> (r: Result<u128, Error>) {
        match s {
            None => Err(Error::UnexpectedNull),
            Some(t) => match parse_u128_text(t) {
                Ok(v) => Ok(v),
                Err(f) => Err(format_parse_error(t, f)),
            },
        }
    }
}

impl DeserializeFromStr for usize {
    open spec fn decoded(cell: Option<Seq<char>>, r: Result<usize, ErrorModel>) -> bool {
        match cell {
            None => r == Err::<usize, ErrorModel>(ErrorModel::UnexpectedNull),
            Some(s) => match int_parse_spec(s, 0, usize::MAX as int) {
                Ok(v) => r == Ok::<usize, ErrorModel>(v as usize),
                Err(f) => r == Err::<usize, ErrorModel>(
                    ErrorModel::Format { given: s, err: fail_text(f) },
                ),
            },
        }
    }

    fn deserialize_from_str(s: Option<&str>) -> (r: Result<usize, Error>) {
        match s {
            None => Err(Error::UnexpectedNull),
            Some(t) => match parse_usize_text(t) {
                Ok(v) => Ok(v),
                Err(f) => Err(format_parse_error(t, f)),
            },
        }
    }
}

impl DeserializeFromStr for i8 {
    open spec fn decoded(cell: Option<Seq<char>>, r: Result<i8, ErrorModel>) -> bool {
        match cell {
            None => r == Err::<i8, ErrorModel>(ErrorModel::UnexpectedNull),
            Some(s) => match int_parse_spec(s, i8::MIN as int, i8::MAX as int) {
                Ok(v) => r == Ok::<i8, ErrorModel>(v as i8),
                Err(f) => r == Err::<i8, ErrorModel>(
                    ErrorModel::Format { given: s, err: fail_text(f) },
                ),
            },
        }
    }

    fn deserialize_from_str(s: Option<&str>) -> (r: Result<i8, Error>) {
        match s {
            None => Err(Error::UnexpectedNull),
            Some(t) => match parse_i8_text(t) {
                Ok(v) => Ok(v),
                Err(f) => Err(format_parse_error(t, f)),
            },
        }
    }
}

impl DeserializeFromStr for i16 {
    open spec fn decoded(cell: Option<Seq<char>>, r: Result<i16, ErrorModel>) -> bool {
        match cell {
            None => r == Err::<i16, ErrorModel>(ErrorModel::UnexpectedNull),
            Some(s) => match int_parse_spec(s, i16::MIN as int, i16::MAX as int) {
                Ok(v) => r == Ok::<i16, ErrorModel>(v as i16),
                Err(f) => r == Err::<i16, ErrorModel>(
                    ErrorModel::Format { given: s, err: fail_text(f) },
                ),
            },
        }
    }

    fn deserialize_from_str(s: Option<&str>) -> (r: Result<i16, Error>) {
        match s {
            None => Err(Error::UnexpectedNull),
            Some(t) => match parse_i16_text(t) {
                Ok(v) => Ok(v),
                Err(f) => Err(format_parse_error(t, f)),
            },
        }
    }
}

impl DeserializeFromStr for i32 {
    open spec fn decoded(cell: Option<Seq<char>>, r: Result<i32, ErrorModel>) -> bool {
        match cell {
            None => r == Err::<i32, ErrorModel>(ErrorModel::UnexpectedNull),
            Some(s) => match int_parse_spec(s, i32::MIN as int, i32::MAX as int) {
                Ok(v) => r == Ok::<i32, ErrorModel>(v as i32),
                Err(f) => r == Err::<i32, ErrorModel>(
                    ErrorModel::Format { given: s, err: fail_text(f) },
                ),
            },
        }
    }

    fn deserialize_from_str(s: Option<&str>) -> (r: Result<i32, Error>) {
        match s {
            None => Err(Error::UnexpectedNull),
            Some(t) => match parse_i32_text(t) {
                Ok(v) => Ok(v),
                Err(f) => Err(format_parse_error(t, f)),
            },
        }
    }
}

impl DeserializeFromStr for i64 {
    open spec fn decoded(cell: Option<Seq<char>>, r: Result<i64, ErrorModel>) -> bool {
        match cell {
            None => r == Err::<i64, ErrorModel>(ErrorModel::UnexpectedNull),
            Some(s) => match int_parse_spec(s, i64::MIN as int, i64::MAX as int) {
                Ok(v) => r == Ok::<i64, ErrorModel>(v as i64),
                Err(f) => r == Err::<i64, ErrorModel>(
                    ErrorModel::Format { given: s, err: fail_text(f) },
                ),
            },
        }
    }

    fn deserialize_from_str(s: Option<&str>) -> (r: Result<i64, Error>) {
        match s {
            None => Err(Error::UnexpectedNull),
            Some(t) => match parse_i64_text(t) {
                Ok(v) => Ok(v),
                Err(f) => Err(format_parse_error(t, f)),
            },
        }
    }
}

impl DeserializeFromStr for i128 {
    open spec fn decoded(cell: Option<Seq<char>>, r: Result<i128, ErrorModel>) -> bool {
        match cell {
            None => r == Err::<i128, ErrorModel>(ErrorModel::UnexpectedNull),
            Some(s) => match int_parse_spec(s, i128::MIN as int, i128::MAX as int) {
                Ok(v) => r == Ok::<i128, ErrorModel>(v as i128),
                Err(f) => r == Err::<i128, ErrorModel>(
                    ErrorModel::Format { given: s, err: fail_text(f) },
                ),
            },
        }
    }

    fn deserialize_from_str(s: Option<&str>) -> (r: Result<i128, Error>) {
        match s {
            None => Err(Error::UnexpectedNull),
            Some(t) => match parse_i128_text(t) {
                Ok(v) => Ok(v),
                Err(f) => Err(format_parse_error(t, f)),
            },
        }
    }
}

impl DeserializeFromStr for isize {
    open spec fn decoded(cell: Option<Seq<char>>, r: Result<isize, ErrorModel>) -> bool {
        match cell {
            None => r == Err::<isize, ErrorModel>(ErrorModel::UnexpectedNull),
            Some(s) => match int_parse_spec(s, isize::MIN as int, isize::MAX as int) {
                Ok(v) => r == Ok::<isize, ErrorModel>(v as isize),
                Err(f) => r == Err::<isize, ErrorModel>(
                    ErrorModel::Format { given: s, err: fail_text(f) },
                ),
            },
        }
    }

    fn deserialize_from_str(s: Option<&str>) -> (r: Result<isize, Error>) {
        match s {
            None => Err(Error::UnexpectedNull),
            Some(t) => match parse_isize_text(t) {
                Ok(v) => Ok(v),
                Err(f) => Err(format_parse_error(t, f)),
            },
        }
    }
}

} // verus!
