use snowflake_deserialize::DeserializeFromStr;
use snowflake_deserialize::Error;
use snowflake_deserialize::sql_uuid::SqlUuid;

fn format_err(given: &str, msg: &str) -> Error {
    Error::Format { given: given.to_string(), err: msg.to_string() }
}

#[test]
fn bool_valid_encodings() {
    assert_eq!(bool::deserialize_from_str(Some("true")), Ok(true));
    assert_eq!(bool::deserialize_from_str(Some("false")), Ok(false));
}

#[test]
fn bool_malformed() {
    assert_eq!(
        bool::deserialize_from_str(Some("True")),
        Err(format_err("True", "provided string was not `true` or `false`"))
    );
    assert_eq!(
        bool::deserialize_from_str(Some("1")),
        Err(format_err("1", "provided string was not `true` or `false`"))
    );
}

#[test]
fn bool_null() {
    assert_eq!(bool::deserialize_from_str(None), Err(Error::UnexpectedNull));
}

#[test]
fn int_valid_encodings() {
    assert_eq!(i32::deserialize_from_str(Some("42")), Ok(42));
    assert_eq!(i32::deserialize_from_str(Some("-42")), Ok(-42));
    assert_eq!(i32::deserialize_from_str(Some("+7")), Ok(7));
    assert_eq!(i32::deserialize_from_str(Some("0")), Ok(0));
    assert_eq!(i8::deserialize_from_str(Some("-128")), Ok(i8::MIN));
    assert_eq!(i8::deserialize_from_str(Some("127")), Ok(i8::MAX));
    assert_eq!(u8::deserialize_from_str(Some("255")), Ok(u8::MAX));
    assert_eq!(u16::deserialize_from_str(Some("65535")), Ok(u16::MAX));
    assert_eq!(i16::deserialize_from_str(Some("-32768")), Ok(i16::MIN));
    assert_eq!(u32::deserialize_from_str(Some("4294967295")), Ok(u32::MAX));
    assert_eq!(i64::deserialize_from_str(Some("-9223372036854775808")), Ok(i64::MIN));
    assert_eq!(u64::deserialize_from_str(Some("18446744073709551615")), Ok(u64::MAX));
    assert_eq!(
        u128::deserialize_from_str(Some("340282366920938463463374607431768211455")),
        Ok(u128::MAX)
    );
    assert_eq!(
        i128::deserialize_from_str(Some("-170141183460469231731687303715884105728")),
        Ok(i128::MIN)
    );
    assert_eq!(usize::deserialize_from_str(Some("17")), Ok(17usize));
    assert_eq!(isize::deserialize_from_str(Some("-17")), Ok(-17isize));
}

#[test]
fn int_tolerates_leading_zeros_and_signs() {
    assert_eq!(i32::deserialize_from_str(Some("0042")), Ok(42));
    assert_eq!(u8::deserialize_from_str(Some("+0")), Ok(0));
    assert_eq!(i16::deserialize_from_str(Some("-007")), Ok(-7));
}

#[test]
fn int_malformed() {
    assert_eq!(
        i32::deserialize_from_str(Some("x")),
        Err(format_err("x", "invalid digit found in string"))
    );
    assert_eq!(
        i32::deserialize_from_str(Some("12 3")),
        Err(format_err("12 3", "invalid digit found in string"))
    );
    assert_eq!(
        i32::deserialize_from_str(Some("")),
        Err(format_err("", "cannot parse integer from empty string"))
    );
    assert_eq!(
        i32::deserialize_from_str(Some("-")),
        Err(format_err("-", "invalid digit found in string"))
    );
    assert_eq!(
        i32::deserialize_from_str(Some("+")),
        Err(format_err("+", "invalid digit found in string"))
    );
    assert_eq!(
        u32::deserialize_from_str(Some("-1")),
        Err(format_err("-1", "invalid digit found in string"))
    );
}

#[test]
fn int_overflow() {
    assert_eq!(
        u8::deserialize_from_str(Some("256")),
        Err(format_err("256", "number too large to fit in target type"))
    );
    assert_eq!(
        i8::deserialize_from_str(Some("-129")),
        Err(format_err("-129", "number too small to fit in target type"))
    );
    assert_eq!(
        u8::deserialize_from_str(Some("99999999999999999999999999999999999999999")),
        Err(format_err(
            "99999999999999999999999999999999999999999",
            "number too large to fit in target type"
        ))
    );
    assert_eq!(
        i64::deserialize_from_str(Some("-99999999999999999999999999999999999999999")),
        Err(format_err(
            "-99999999999999999999999999999999999999999",
            "number too small to fit in target type"
        ))
    );
}

#[test]
fn int_null() {
    assert_eq!(i32::deserialize_from_str(None), Err(Error::UnexpectedNull));
    assert_eq!(u64::deserialize_from_str(None), Err(Error::UnexpectedNull));
}

#[test]
fn string_passthrough() {
    assert_eq!(String::deserialize_from_str(Some("Alice")), Ok("Alice".to_string()));
    assert_eq!(String::deserialize_from_str(Some("")), Ok("".to_string()));
    assert_eq!(String::deserialize_from_str(None), Err(Error::UnexpectedNull));
}

#[test]
fn char_single() {
    assert_eq!(char::deserialize_from_str(Some("a")), Ok('a'));
    assert_eq!(
        char::deserialize_from_str(Some("")),
        Err(format_err("", "cannot parse char from empty string"))
    );
    assert_eq!(
        char::deserialize_from_str(Some("ab")),
        Err(format_err("ab", "too many characters in string"))
    );
}

#[test]
fn optional_null_is_a_value() {
    assert_eq!(<Option<i32>>::deserialize_from_str(None), Ok(None));
    assert_eq!(<Option<String>>::deserialize_from_str(None), Ok(None));
    assert_eq!(<Option<bool>>::deserialize_from_str(None), Ok(None));
}

#[test]
fn optional_present_delegates() {
    assert_eq!(<Option<i32>>::deserialize_from_str(Some("5")), Ok(Some(5)));
    assert_eq!(
        <Option<i32>>::deserialize_from_str(Some("x")),
        Err(format_err("x", "invalid digit found in string"))
    );
    assert_eq!(
        <Option<String>>::deserialize_from_str(Some("hi")),
        Ok(Some("hi".to_string()))
    );
}

#[test]
fn uuid_valid() {
    assert_eq!(
        SqlUuid::deserialize_from_str(Some("550e8400-e29b-41d4-a716-446655440000")),
        Ok(SqlUuid { value: 0x550e8400e29b41d4a716446655440000 })
    );
    assert_eq!(
        SqlUuid::deserialize_from_str(Some("a1a2a3a4-b1b2-c1c2-d1d2-d3d4d5d6d7d8")),
        Ok(SqlUuid { value: 0xa1a2a3a4b1b2c1c2d1d2d3d4d5d6d7d8 })
    );
}

#[test]
fn uuid_malformed_carries_text() {
    match SqlUuid::deserialize_from_str(Some("not-a-uuid")) {
        Err(Error::Format { given, err }) => {
            assert_eq!(given, "not-a-uuid");
            assert!(!err.is_empty());
        },
        other => panic!("expected a format error, got {:?}", other),
    }
}

#[test]
fn uuid_null() {
    assert_eq!(SqlUuid::deserialize_from_str(None), Err(Error::UnexpectedNull));
    assert_eq!(<Option<SqlUuid>>::deserialize_from_str(None), Ok(None));
}
