use snowflake_deserialize::DeserializeFromStr;
use snowflake_deserialize::bindings::BindingKind;
use snowflake_deserialize::bindings::BindingValue;

#[test]
fn category_of_every_variant() {
    assert_eq!(BindingValue::Bool(true).kind(), BindingKind::Bool);
    assert_eq!(BindingValue::Byte(-1).kind(), BindingKind::Fixed);
    assert_eq!(BindingValue::SmallInt(-1).kind(), BindingKind::Fixed);
    assert_eq!(BindingValue::Int(-1).kind(), BindingKind::Fixed);
    assert_eq!(BindingValue::BigInt(-1).kind(), BindingKind::Fixed);
    assert_eq!(BindingValue::ISize(-1).kind(), BindingKind::Fixed);
    assert_eq!(BindingValue::UByte(1).kind(), BindingKind::Fixed);
    assert_eq!(BindingValue::SmallUInt(1).kind(), BindingKind::Fixed);
    assert_eq!(BindingValue::UInt(1).kind(), BindingKind::Fixed);
    assert_eq!(BindingValue::BigUInt(1).kind(), BindingKind::Fixed);
    assert_eq!(BindingValue::USize(1).kind(), BindingKind::Fixed);
    assert_eq!(BindingValue::Char('x').kind(), BindingKind::Text);
    assert_eq!(BindingValue::String("x".to_string()).kind(), BindingKind::Text);
}

#[test]
fn category_is_stable_across_calls() {
    let v = BindingValue::Int(9);
    assert_eq!(v.kind(), v.kind());
    let s = BindingValue::String("s".to_string());
    assert_eq!(s.kind(), s.kind());
}

#[test]
fn canonical_text_of_each_variant() {
    assert_eq!(BindingValue::Bool(true).to_string(), "true");
    assert_eq!(BindingValue::Bool(false).to_string(), "false");
    assert_eq!(BindingValue::Byte(-128).to_string(), "-128");
    assert_eq!(BindingValue::SmallInt(300).to_string(), "300");
    assert_eq!(BindingValue::Int(-42).to_string(), "-42");
    assert_eq!(BindingValue::BigInt(i64::MIN).to_string(), "-9223372036854775808");
    assert_eq!(BindingValue::ISize(0).to_string(), "0");
    assert_eq!(BindingValue::UByte(255).to_string(), "255");
    assert_eq!(BindingValue::SmallUInt(7).to_string(), "7");
    assert_eq!(BindingValue::UInt(4294967295).to_string(), "4294967295");
    assert_eq!(BindingValue::BigUInt(u64::MAX).to_string(), "18446744073709551615");
    assert_eq!(BindingValue::USize(10).to_string(), "10");
    assert_eq!(BindingValue::Char('a').to_string(), "a");
    assert_eq!(BindingValue::String("hello world".to_string()).to_string(), "hello world");
}

#[test]
fn rendered_text_parses_back() {
    let b = BindingValue::Bool(false).to_string();
    assert_eq!(bool::deserialize_from_str(Some(&b)), Ok(false));
    let i = BindingValue::Int(-2147483648).to_string();
    assert_eq!(i32::deserialize_from_str(Some(&i)), Ok(i32::MIN));
    let u = BindingValue::BigUInt(u64::MAX).to_string();
    assert_eq!(u64::deserialize_from_str(Some(&u)), Ok(u64::MAX));
    let c = BindingValue::Char('q').to_string();
    assert_eq!(char::deserialize_from_str(Some(&c)), Ok('q'));
    let s = BindingValue::String("verbatim".to_string()).to_string();
    assert_eq!(String::deserialize_from_str(Some(&s)), Ok("verbatim".to_string()));
    let y = BindingValue::Byte(i8::MIN).to_string();
    assert_eq!(i8::deserialize_from_str(Some(&y)), Ok(i8::MIN));
}

#[test]
fn construction_from_native_scalars() {
    assert!(matches!(BindingValue::from(true), BindingValue::Bool(true)));
    assert!(matches!(BindingValue::from(-1i8), BindingValue::Byte(-1)));
    assert!(matches!(BindingValue::from(-2i16), BindingValue::SmallInt(-2)));
    assert!(matches!(BindingValue::from(-3i32), BindingValue::Int(-3)));
    assert!(matches!(BindingValue::from(-4i64), BindingValue::BigInt(-4)));
    assert!(matches!(BindingValue::from(-5isize), BindingValue::ISize(-5)));
    assert!(matches!(BindingValue::from(1u8), BindingValue::UByte(1)));
    assert!(matches!(BindingValue::from(2u16), BindingValue::SmallUInt(2)));
    assert!(matches!(BindingValue::from(3u32), BindingValue::UInt(3)));
    assert!(matches!(BindingValue::from(4u64), BindingValue::BigUInt(4)));
    assert!(matches!(BindingValue::from(5usize), BindingValue::USize(5)));
    assert!(matches!(BindingValue::from('c'), BindingValue::Char('c')));
    match BindingValue::from("text".to_string()) {
        BindingValue::String(s) => assert_eq!(s, "text"),
        other => panic!("expected a string binding, got {:?}", other),
    }
}
