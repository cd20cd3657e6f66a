//! The bound-parameter value model: a closed tagged union of typed scalar
//! values, each with a derived data category and a canonical text rendering,
//! used when binding typed values into outgoing queries.

use crate::text::ParseFail;
use crate::text::bool_parse_spec;
use crate::text::i128_to_text;
use crate::text::int_parse_spec;
use crate::text::int_text;
use crate::text::lemma_int_text_parses;
use crate::text::u128_to_text;
use vstd::prelude::*;

verus! {

/// A typed scalar value bound as a query parameter.
///
/// Reserved kinds without a variant yet: arbitrary-precision decimals, dates,
/// times and date-times; [`BindingKind`] already holds their categories.
#[derive(Clone, Debug)]
pub enum BindingValue {
    Bool(bool),
    Byte(i8),
    SmallInt(i16),
    Int(i32),
    BigInt(i64),
    ISize(isize),
    UByte(u8),
    SmallUInt(u16),
    UInt(u32),
    BigUInt(u64),
    USize(usize),
    Char(char),
    String(String),
}

/// The wire-level data category a bound value is tagged with.
#[derive(Clone, Copy, Debug, PartialEq, Eq, Structural)]
pub enum BindingKind {
    Bool,
    Fixed,
    Real,
    Text,
    DateTime,
    Date,
    Time,
}

/// The data category of each variant: a total function of the tag alone,
/// never of the payload.
pub open spec fn category_of(v: BindingValue) -> BindingKind {
    match v {
        BindingValue::Bool(_) => BindingKind::Bool,
        BindingValue::Byte(_)
        | BindingValue::SmallInt(_)
        | BindingValue::Int(_)
        | BindingValue::BigInt(_)
        | BindingValue::ISize(_)
        | BindingValue::UByte(_)
        | BindingValue::SmallUInt(_)
        | BindingValue::UInt(_)
        | BindingValue::BigUInt(_)
        | BindingValue::USize(_) => BindingKind::Fixed,
        BindingValue::Char(_) | BindingValue::String(_) => BindingKind::Text,
    }
}

/// The canonical text of each variant: plain decimal for the integers, the
/// bare character and the verbatim text for the textual ones — no quoting,
/// escaping or locale formatting.
pub open spec fn binding_text(v: BindingValue) -> Seq<char> {
    match v {
        BindingValue::Bool(b) => if b {
            "true"@
        } else {
            "false"@
        },
        BindingValue::Byte(x) => int_text(x as int),
        BindingValue::SmallInt(x) => int_text(x as int),
        BindingValue::Int(x) => int_text(x as int),
        BindingValue::BigInt(x) => int_text(x as int),
        BindingValue::ISize(x) => int_text(x as int),
        BindingValue::UByte(x) => int_text(x as int),
        BindingValue::SmallUInt(x) => int_text(x as int),
        BindingValue::UInt(x) => int_text(x as int),
        BindingValue::BigUInt(x) => int_text(x as int),
        BindingValue::USize(x) => int_text(x as int),
        BindingValue::Char(c) => seq![c],
        BindingValue::String(s) => s@,
    }
}

/// Relies on `char::to_string`: the text of a single character is that
/// character alone.
#[verifier::external_body]
fn char_to_string(c: char) -> (r: String)
    ensures
        r@ == seq![c],
{
    c.to_string()
}

impl BindingValue {
    /// Derives the data category this value is tagged with.
    pub fn kind(&self) -> (r: BindingKind)
        ensures
            r == category_of(*self),
    {
        match self {
            BindingValue::Bool(_) => BindingKind::Bool,
            BindingValue::Byte(_)
            | BindingValue::SmallInt(_)
            | BindingValue::Int(_)
            | BindingValue::BigInt(_)
            | BindingValue::ISize(_)
            | BindingValue::UByte(_)
            | BindingValue::SmallUInt(_)
            | BindingValue::UInt(_)
            | BindingValue::BigUInt(_)
            | BindingValue::USize(_) => BindingKind::Fixed,
            BindingValue::Char(_) | BindingValue::String(_) => BindingKind::Text,
        }
    }

    /// Renders this value's canonical text.
    pub fn to_string(&self) -> (r: String)
        ensures
            r@ == binding_text(*self),
    {
        match self {
            BindingValue::Bool(b) => if *b {
                String::from_str("true")
            } else {
                String::from_str("false")
            },
            BindingValue::Byte(x) => i128_to_text(*x as i128),
            BindingValue::SmallInt(x) => i128_to_text(*x as i128),
            BindingValue::Int(x) => i128_to_text(*x as i128),
            BindingValue::BigInt(x) => i128_to_text(*x as i128),
            BindingValue::ISize(x) => i128_to_text(*x as i128),
            BindingValue::UByte(x) => u128_to_text(*x as u128),
            BindingValue::SmallUInt(x) => u128_to_text(*x as u128),
            BindingValue::UInt(x) => u128_to_text(*x as u128),
            BindingValue::BigUInt(x) => u128_to_text(*x as u128),
            BindingValue::USize(x) => u128_to_text(*x as u128),
            BindingValue::Char(c) => char_to_string(*c),
            BindingValue::String(s) => s.clone(),
        }
    }
}

/// Round trip: rendering any bound value to canonical text and re-parsing
/// that text under the matching scalar grammar yields the original payload.
pub proof fn lemma_binding_round_trip(v: BindingValue)
    ensures
        match v {
            BindingValue::Bool(b) => bool_parse_spec(binding_text(v)) == Some(b),
            BindingValue::Byte(x) => int_parse_spec(binding_text(v), i8::MIN as int, i8::MAX as int)
                == Ok::<int, ParseFail>(x as int),
            BindingValue::SmallInt(x) => int_parse_spec(
                binding_text(v),
                i16::MIN as int,
                i16::MAX as int,
            ) == Ok::<int, ParseFail>(x as int),
            BindingValue::Int(x) => int_parse_spec(binding_text(v), i32::MIN as int, i32::MAX as int)
                == Ok::<int, ParseFail>(x as int),
            BindingValue::BigInt(x) => int_parse_spec(
                binding_text(v),
                i64::MIN as int,
                i64::MAX as int,
            ) == Ok::<int, ParseFail>(x as int),
            BindingValue::ISize(x) => int_parse_spec(
                binding_text(v),
                isize::MIN as int,
                isize::MAX as int,
            ) == Ok::<int, ParseFail>(x as int),
            BindingValue::UByte(x) => int_parse_spec(binding_text(v), 0, u8::MAX as int) == Ok::<
                int,
                ParseFail,
            >(x as int),
            BindingValue::SmallUInt(x) => int_parse_spec(binding_text(v), 0, u16::MAX as int)
                == Ok::<int, ParseFail>(x as int),
            BindingValue::UInt(x) => int_parse_spec(binding_text(v), 0, u32::MAX as int) == Ok::<
                int,
                ParseFail,
            >(x as int),
            BindingValue::BigUInt(x) => int_parse_spec(binding_text(v), 0, u64::MAX as int) == Ok::<
                int,
                ParseFail,
            >(x as int),
            BindingValue::USize(x) => int_parse_spec(binding_text(v), 0, usize::MAX as int) == Ok::<
                int,
                ParseFail,
            >(x as int),
            BindingValue::Char(c) => binding_text(v) == seq![c],
            BindingValue::String(s) => binding_text(v) == s@,
        },
{
    match v {
        BindingValue::Bool(b) => {
            reveal_strlit("true");
            reveal_strlit("false");
            assert("true"@.len() == 4 && "false"@.len() == 5);
        },
        BindingValue::Byte(x) => lemma_int_text_parses(x as int, i8::MIN as int, i8::MAX as int),
        BindingValue::SmallInt(x) => lemma_int_text_parses(
            x as int,
            i16::MIN as int,
            i16::MAX as int,
        ),
        BindingValue::Int(x) => lemma_int_text_parses(x as int, i32::MIN as int, i32::MAX as int),
        BindingValue::BigInt(x) => lemma_int_text_parses(x as int, i64::MIN as int, i64::MAX as int),
        BindingValue::ISize(x) => lemma_int_text_parses(
            x as int,
            isize::MIN as int,
            isize::MAX as int,
        ),
        BindingValue::UByte(x) => lemma_int_text_parses(x as int, 0, u8::MAX as int),
        BindingValue::SmallUInt(x) => lemma_int_text_parses(x as int, 0, u16::MAX as int),
        BindingValue::UInt(x) => lemma_int_text_parses(x as int, 0, u32::MAX as int),
        BindingValue::BigUInt(x) => lemma_int_text_parses(x as int, 0, u64::MAX as int),
        BindingValue::USize(x) => lemma_int_text_parses(x as int, 0, usize::MAX as int),
        BindingValue::Char(_) => {},
        BindingValue::String(_) => {},
    }
}

impl From<bool> for BindingValue {
    fn from(value: bool) -> (r: Self) {
        BindingValue::Bool(value)
    }
}

impl vstd::std_specs::convert::FromSpecImpl<bool> for BindingValue {
    open spec fn obeys_from_spec() -> bool {
        true
    }

    open spec fn from_spec(value: bool) -> Self {
        BindingValue::Bool(value)
    }
}

impl From<i8> for BindingValue {
    fn from(value: i8) -> (r: Self) {
        BindingValue::Byte(value)
    }
}

impl vstd::std_specs::convert::FromSpecImpl<i8> for BindingValue {
    open spec fn obeys_from_spec() -> bool {
        true
    }

    open spec fn from_spec(value: i8) -> Self {
        BindingValue::Byte(value)
    }
}

impl From<i16> for BindingValue {
    fn from(value: i16) -> (r: Self) {
        BindingValue::SmallInt(value)
    }
}

impl vstd::std_specs::convert::FromSpecImpl<i16> for BindingValue {
    open spec fn obeys_from_spec() -> bool {
        true
    }

    open spec fn from_spec(value: i16) -> Self {
        BindingValue::SmallInt(value)
    }
}

impl From<i32> for BindingValue {
    fn from(value: i32) -> (r: Self) {
        BindingValue::Int(value)
    }
}

impl vstd::std_specs::convert::FromSpecImpl<i32> for BindingValue {
    open spec fn obeys_from_spec() -> bool {
        true
    }

    open spec fn from_spec(value: i32) -> Self {
        BindingValue::Int(value)
    }
}

impl From<i64> for BindingValue {
    fn from(value: i64) -> (r: Self) {
        BindingValue::BigInt(value)
    }
}

impl vstd::std_specs::convert::FromSpecImpl<i64> for BindingValue {
    open spec fn obeys_from_spec() -> bool {
        true
    }

    open spec fn from_spec(value: i64) -> Self {
        BindingValue::BigInt(value)
    }
}

impl From<isize> for BindingValue {
    fn from(value: isize) -> (r: Self) {
        BindingValue::ISize(value)
    }
}

impl vstd::std_specs::convert::FromSpecImpl<isize> for BindingValue {
    open spec fn obeys_from_spec() -> bool {
        true
    }

    open spec fn from_spec(value: isize) -> Self {
        BindingValue::ISize(value)
    }
}

impl From<u8> for BindingValue {
    fn from(value: u8) -> (r: Self) {
        BindingValue::UByte(value)
    }
}

impl vstd::std_specs::convert::FromSpecImpl<u8> for BindingValue {
    open spec fn obeys_from_spec() -> bool {
        true
    }

    open spec fn from_spec(value: u8) -> Self {
        BindingValue::UByte(value)
    }
}

impl From<u16> for BindingValue {
    fn from(value: u16) -> (r: Self) {
        BindingValue::SmallUInt(value)
    }
}

impl vstd::std_specs::convert::FromSpecImpl<u16> for BindingValue {
    open spec fn obeys_from_spec() -> bool {
        true
    }

    open spec fn from_spec(value: u16) -> Self {
        BindingValue::SmallUInt(value)
    }
}

impl From<u32> for BindingValue {
    fn from(value: u32) -> (r: Self) {
        BindingValue::UInt(value)
    }
}

impl vstd::std_specs::convert::FromSpecImpl<u32> for BindingValue {
    open spec fn obeys_from_spec() -> bool {
        true
    }

    open spec fn from_spec(value: u32) -> Self {
        BindingValue::UInt(value)
    }
}

impl From<u64> for BindingValue {
    fn from(value: u64) -> (r: Self) {
        BindingValue::BigUInt(value)
    }
}

impl vstd::std_specs::convert::FromSpecImpl<u64> for BindingValue {
    open spec fn obeys_from_spec() -> bool {
        true
    }

    open spec fn from_spec(value: u64) -> Self {
        BindingValue::BigUInt(value)
    }
}

impl From<usize> for BindingValue {
    fn from(value: usize) -> (r: Self) {
        BindingValue::USize(value)
    }
}

impl vstd::std_specs::convert::FromSpecImpl<usize> for BindingValue {
    open spec fn obeys_from_spec() -> bool {
        true
    }

    open spec fn from_spec(value: usize) -> Self {
        BindingValue::USize(value)
    }
}

impl From<char> for BindingValue {
    fn from(value: char) -> (r: Self) {
        BindingValue::Char(value)
    }
}

impl vstd::std_specs::convert::FromSpecImpl<char> for BindingValue {
    open spec fn obeys_from_spec() -> bool {
        true
    }

    open spec fn from_spec(value: char) -> Self {
        BindingValue::Char(value)
    }
}

impl From<String> for BindingValue {
    fn from(value: String) -> (r: Self) {
        BindingValue::String(value)
    }
}

impl vstd::std_specs::convert::FromSpecImpl<String> for BindingValue {
    open spec fn obeys_from_spec() -> bool {
        true
    }

    open spec fn from_spec(value: String) -> Self {
        BindingValue::String(value)
    }
}

} // verus!
