//! The lexical grammar of cell text: decimal integers, booleans and single
//! characters, with both directions verified — parsing text into values and
//! rendering values back into canonical text.

use vstd::prelude::*;

verus! {

/// Why a piece of text failed to parse as an integer.
#[derive(Debug, Clone, Copy, PartialEq, Eq, Structural)]
pub enum ParseFail {
    Empty,
    InvalidDigit,
    PosOverflow,
    NegOverflow,
}

pub open spec fn is_digit_char(c: char) -> bool {
    48 <= c as int && c as int <= 57
}

pub open spec fn digit_value(c: char) -> int {
    c as int - 48
}

pub open spec fn all_digits(s: Seq<char>) -> bool {
    forall|i: int| 0 <= i < s.len() ==> is_digit_char(#[trigger] s[i])
}

/// The number denoted by a sequence of decimal digits, most significant first.
pub open spec fn digits_value(s: Seq<char>) -> int
    decreases s.len(),
{
    if s.len() == 0 {
        0
    } else {
        digits_value(s.drop_last()) * 10 + digit_value(s.last())
    }
}

/// Does the text open with an explicit sign?
pub open spec fn has_sign(s: Seq<char>) -> bool {
    s.len() > 0 && (s[0] == '+' || s[0] == '-')
}

pub open spec fn is_negative_text(s: Seq<char>) -> bool {
    s.len() > 0 && s[0] == '-'
}

/// The digits of the text, the optional sign stripped.
pub open spec fn digits_part(s: Seq<char>) -> Seq<char> {
    if has_sign(s) {
        s.skip(1)
    } else {
        s
    }
}

/// What parsing `s` as an integer of range `[min, max]` yields: an optional
/// sign (`-` only when the range is signed) followed by one or more decimal
/// digits, the denoted value within range.
pub open spec fn int_parse_spec(s: Seq<char>, min: int, max: int) -> Result<int, ParseFail> {
    if s.len() == 0 {
        Err(ParseFail::Empty)
    } else if is_negative_text(s) && min >= 0 {
        Err(ParseFail::InvalidDigit)
    } else if digits_part(s).len() == 0 || !all_digits(digits_part(s)) {
        Err(ParseFail::InvalidDigit)
    } else {
        let v = if is_negative_text(s) {
            -digits_value(digits_part(s))
        } else {
            digits_value(digits_part(s))
        };
        if v > max {
            Err(ParseFail::PosOverflow)
        } else if v < min {
            Err(ParseFail::NegOverflow)
        } else {
            Ok(v)
        }
    }
}

/// What parsing `s` as a boolean yields: exactly the texts `true` and `false`.
pub open spec fn bool_parse_spec(s: Seq<char>) -> Option<bool> {
    if s == "true"@ {
        Some(true)
    } else if s == "false"@ {
        Some(false)
    } else {
        None
    }
}

pub open spec fn fail_text(f: ParseFail) -> Seq<char> {
    match f {
        ParseFail::Empty => "cannot parse integer from empty string"@,
        ParseFail::InvalidDigit => "invalid digit found in string"@,
        ParseFail::PosOverflow => "number too large to fit in target type"@,
        ParseFail::NegOverflow => "number too small to fit in target type"@,
    }
}

/// The diagnostic message reported for each integer parse failure.
pub fn fail_message(f: ParseFail) -> (r: String)
    ensures
        r@ == fail_text(f),
{
    match f {
        ParseFail::Empty => String::from_str("cannot parse integer from empty string"),
        ParseFail::InvalidDigit => String::from_str("invalid digit found in string"),
        ParseFail::PosOverflow => String::from_str("number too large to fit in target type"),
        ParseFail::NegOverflow => String::from_str("number too small to fit in target type"),
    }
}

/// How the outcome of [`parse_sign_digits`] relates to its input: the sign
/// and digit magnitude of the text, or the first reason it is not a number.
pub open spec fn sign_digits_matches(
    s: Seq<char>,
    allow_negative: bool,
    r: Result<(bool, u128), ParseFail>,
) -> bool {
    match r {
        Ok((neg, mag)) => s.len() > 0 && neg == is_negative_text(s) && (!neg || allow_negative)
            && digits_part(s).len() > 0 && all_digits(digits_part(s)) && mag as int
            == digits_value(digits_part(s)),
        Err(ParseFail::Empty) => s.len() == 0,
        Err(ParseFail::InvalidDigit) => s.len() > 0 && ((is_negative_text(s) && !allow_negative)
            || digits_part(s).len() == 0 || !all_digits(digits_part(s))),
        Err(ParseFail::PosOverflow) => !is_negative_text(s) && digits_part(s).len() > 0
            && all_digits(digits_part(s)) && digits_value(digits_part(s)) > u128::MAX as int,
        Err(ParseFail::NegOverflow) => is_negative_text(s) && allow_negative && digits_part(
            s,
        ).len() > 0 && all_digits(digits_part(s)) && digits_value(digits_part(s)) > u128::MAX
            as int,
    }
}

proof fn lemma_digits_value_nonneg(s: Seq<char>)
    requires
        all_digits(s),
    ensures
        digits_value(s) >= 0,
    decreases s.len(),
{
    if s.len() > 0 {
        assert(all_digits(s.drop_last()));
        lemma_digits_value_nonneg(s.drop_last());
    }
}

/// Splits text into sign and digit magnitude, the shared first step of every
/// integer parse.
pub fn parse_sign_digits(s: &str, allow_negative: bool) -> (r: Result<(bool, u128), ParseFail>)
    ensures
        sign_digits_matches(s@, allow_negative, r),
{
    let n = s.unicode_len();
    if n == 0 {
        return Err(ParseFail::Empty);
    }
    let c0 = s.get_char(0);
    let neg = c0 == '-';
    let start: usize = if c0 == '-' || c0 == '+' {
        1
    } else {
        0
    };
    if neg && !allow_negative {
        return Err(ParseFail::InvalidDigit);
    }
    proof {
        assert(s@.skip(0) =~= s@);
    }
    let ghost d: Seq<char> = digits_part(s@);
    if start == n {
        return Err(ParseFail::InvalidDigit);
    }
    let mut acc: u128 = 0;
    let mut overflow = false;
    let mut i: usize = start;
    while i < n
        invariant
            start <= i <= n,
            n == s@.len(),
            start == 1 <==> has_sign(s@),
            start == 0 || start == 1,
            neg == is_negative_text(s@),
            !neg || allow_negative,
            d == digits_part(s@),
            d.len() == n - start,
            all_digits(d.take(i - start)),
            !overflow ==> acc as int == digits_value(d.take(i - start)),
            overflow ==> digits_value(d.take(i - start)) > u128::MAX as int,
        decreases n - i,
    {
        let c = s.get_char(i);
        let cu = c as u32;
        proof {
            assert(d[i - start] == s@[i as int]);
        }
        if cu < 48 || cu > 57 {
            proof {
                assert(!is_digit_char(d[i - start]));
            }
            return Err(ParseFail::InvalidDigit);
        }
        let dv: u128 = (cu - 48) as u128;
        proof {
            assert(d.take(i - start + 1).drop_last() =~= d.take(i - start));
            assert(d.take(i - start + 1).last() == d[i - start]);
            lemma_digits_value_nonneg(d.take(i - start));
        }
        if !overflow {
            match acc.checked_mul(10) {
                Some(m) => {
                    match m.checked_add(dv) {
                        Some(v) => {
                            acc = v;
                        },
                        None => {
                            overflow = true;
                        },
                    }
                },
                None => {
                    overflow = true;
                },
            }
        }
        i = i + 1;
    }
    proof {
        assert(d.take(n - start) =~= d);
    }
    if overflow {
        if neg {
            Err(ParseFail::NegOverflow)
        } else {
            Err(ParseFail::PosOverflow)
        }
    } else {
        Ok((neg, acc))
    }
}

/// How a typed integer parse relates to the grammar: the value on success,
/// the first failure otherwise.
pub open spec fn int_parse_matches<T>(
    s: Seq<char>,
    min: int,
    max: int,
    r: Result<T, ParseFail>,
    v: int,
) -> bool {
    match r {
        Ok(_) => int_parse_spec(s, min, max) == Ok::<int, ParseFail>(v),
        Err(f) => int_parse_spec(s, min, max) == Err::<int, ParseFail>(f),
    }
}

pub fn parse_u8_text(s: &str) -> (r: Result<u8, ParseFail>)
    ensures
        int_parse_matches(s@, 0, u8::MAX as int, r, if r is Ok { r->Ok_0 as int } else { 0 }),
{
    match parse_sign_digits(s, false) {
        Ok((_, mag)) => if mag > u8::MAX as u128 {
            Err(ParseFail::PosOverflow)
        } else {
            Ok(mag as u8)
        },
        Err(f) => Err(f),
    }
}

pub fn parse_u16_text(s: &str) -> (r: Result<u16, ParseFail>)
    ensures
        int_parse_matches(s@, 0, u16::MAX as int, r, if r is Ok { r->Ok_0 as int } else { 0 }),
{
    match parse_sign_digits(s, false) {
        Ok((_, mag)) => if mag > u16::MAX as u128 {
            Err(ParseFail::PosOverflow)
        } else {
            Ok(mag as u16)
        },
        Err(f) => Err(f),
    }
}

pub fn parse_u32_text(s: &str) -> (r: Result<u32, ParseFail>)
    ensures
        int_parse_matches(s@, 0, u32::MAX as int, r, if r is Ok { r->Ok_0 as int } else { 0 }),
{
    match parse_sign_digits(s, false) {
        Ok((_, mag)) => if mag > u32::MAX as u128 {
            Err(ParseFail::PosOverflow)
        } else {
            Ok(mag as u32)
        },
        Err(f) => Err(f),
    }
}

pub fn parse_u64_text(s: &str) -> (r: Result<u64, ParseFail>)
    ensures
        int_parse_matches(s@, 0, u64::MAX as int, r, if r is Ok { r->Ok_0 as int } else { 0 }),
{
    match parse_sign_digits(s, false) {
        Ok((_, mag)) => if mag > u64::MAX as u128 {
            Err(ParseFail::PosOverflow)
        } else {
            Ok(mag as u64)
        },
        Err(f) => Err(f),
    }
}

pub fn parse_u128_text(s: &str) -> (r: Result<u128, ParseFail>)
    ensures
        int_parse_matches(s@, 0, u128::MAX as int, r, if r is Ok { r->Ok_0 as int } else { 0 }),
{
    match parse_sign_digits(s, false) {
        Ok((_, mag)) => Ok(mag),
        Err(f) => Err(f),
    }
}

pub fn parse_usize_text(s: &str) -> (r: Result<usize, ParseFail>)
    ensures
        int_parse_matches(s@, 0, usize::MAX as int, r, if r is Ok { r->Ok_0 as int } else { 0 }),
{
    match parse_sign_digits(s, false) {
        Ok((_, mag)) => if mag > usize::MAX as u128 {
            Err(ParseFail::PosOverflow)
        } else {
            Ok(mag as usize)
        },
        Err(f) => Err(f),
    }
}

pub fn parse_i8_text(s: &str) -> (r: Result<i8, ParseFail>)
    ensures
        int_parse_matches(
            s@,
            i8::MIN as int,
            i8::MAX as int,
            r,
            if r is Ok {
                r->Ok_0 as int
            } else {
                0
            },
        ),
{
    match parse_sign_digits(s, true) {
        Ok((neg, mag)) => if !neg {
            if mag > i8::MAX as u128 {
                Err(ParseFail::PosOverflow)
            } else {
                Ok(mag as i8)
            }
        } else {
            if mag > i8::MAX as u128 + 1 {
                Err(ParseFail::NegOverflow)
            } else if mag == i8::MAX as u128 + 1 {
                Ok(i8::MIN)
            } else {
                Ok(-(mag as i8))
            }
        },
        Err(f) => Err(f),
    }
}

pub fn parse_i16_text(s: &str) -> (r: Result<i16, ParseFail>)
    ensures
        int_parse_matches(
            s@,
            i16::MIN as int,
            i16::MAX as int,
            r,
            if r is Ok {
                r->Ok_0 as int
            } else {
                0
            },
        ),
{
    match parse_sign_digits(s, true) {
        Ok((neg, mag)) => if !neg {
            if mag > i16::MAX as u128 {
                Err(ParseFail::PosOverflow)
            } else {
                Ok(mag as i16)
            }
        } else {
            if mag > i16::MAX as u128 + 1 {
                Err(ParseFail::NegOverflow)
            } else if mag == i16::MAX as u128 + 1 {
                Ok(i16::MIN)
            } else {
                Ok(-(mag as i16))
            }
        },
        Err(f) => Err(f),
    }
}

pub fn parse_i32_text(s: &str) -> (r: Result<i32, ParseFail>)
    ensures
        int_parse_matches(
            s@,
            i32::MIN as int,
            i32::MAX as int,
            r,
            if r is Ok {
                r->Ok_0 as int
            } else {
                0
            },
        ),
{
    match parse_sign_digits(s, true) {
        Ok((neg, mag)) => if !neg {
            if mag > i32::MAX as u128 {
                Err(ParseFail::PosOverflow)
            } else {
                Ok(mag as i32)
            }
        } else {
            if mag > i32::MAX as u128 + 1 {
                Err(ParseFail::NegOverflow)
            } else if mag == i32::MAX as u128 + 1 {
                Ok(i32::MIN)
            } else {
                Ok(-(mag as i32))
            }
        },
        Err(f) => Err(f),
    }
}

pub fn parse_i64_text(s: &str) -> (r: Result<i64, ParseFail>)
    ensures
        int_parse_matches(
            s@,
            i64::MIN as int,
            i64::MAX as int,
            r,
            if r is Ok {
                r->Ok_0 as int
            } else {
                0
            },
        ),
{
    match parse_sign_digits(s, true) {
        Ok((neg, mag)) => if !neg {
            if mag > i64::MAX as u128 {
                Err(ParseFail::PosOverflow)
            } else {
                Ok(mag as i64)
            }
        } else {
            if mag > i64::MAX as u128 + 1 {
                Err(ParseFail::NegOverflow)
            } else if mag == i64::MAX as u128 + 1 {
                Ok(i64::MIN)
            } else {
                Ok(-(mag as i64))
            }
        },
        Err(f) => Err(f),
    }
}

pub fn parse_i128_text(s: &str) -> (r: Result<i128, ParseFail>)
    ensures
        int_parse_matches(
            s@,
            i128::MIN as int,
            i128::MAX as int,
            r,
            if r is Ok {
                r->Ok_0 as int
            } else {
                0
            },
        ),
{
    match parse_sign_digits(s, true) {
        Ok((neg, mag)) => if !neg {
            if mag > i128::MAX as u128 {
                Err(ParseFail::PosOverflow)
            } else {
                Ok(mag as i128)
            }
        } else {
            if mag > i128::MAX as u128 + 1 {
                Err(ParseFail::NegOverflow)
            } else if mag == i128::MAX as u128 + 1 {
                Ok(i128::MIN)
            } else {
                Ok(-(mag as i128))
            }
        },
        Err(f) => Err(f),
    }
}

pub fn parse_isize_text(s: &str) -> (r: Result<isize, ParseFail>)
    ensures
        int_parse_matches(
            s@,
            isize::MIN as int,
            isize::MAX as int,
            r,
            if r is Ok {
                r->Ok_0 as int
            } else {
                0
            },
        ),
{
    match parse_sign_digits(s, true) {
        Ok((neg, mag)) => if !neg {
            if mag > isize::MAX as u128 {
                Err(ParseFail::PosOverflow)
            } else {
                Ok(mag as isize)
            }
        } else {
            if mag > isize::MAX as u128 + 1 {
                Err(ParseFail::NegOverflow)
            } else if mag == isize::MAX as u128 + 1 {
                Ok(isize::MIN)
            } else {
                Ok(-(mag as isize))
            }
        },
        Err(f) => Err(f),
    }
}

/// Parses text as a boolean: exactly the texts `true` and `false`.
pub fn parse_bool_text(s: &str) -> (r: Option<bool>)
    ensures
        r == bool_parse_spec(s@),
{
    proof {
        reveal_strlit("true");
        reveal_strlit("false");
    }
    let n = s.unicode_len();
    if n == 4 && s.get_char(0) == 't' && s.get_char(1) == 'r' && s.get_char(2) == 'u' && s.get_char(
        3,
    ) == 'e' {
        proof {
            assert(s@ =~= "true"@);
        }
        Some(true)
    } else if n == 5 && s.get_char(0) == 'f' && s.get_char(1) == 'a' && s.get_char(2) == 'l'
        && s.get_char(3) == 's' && s.get_char(4) == 'e' {
        proof {
            assert(s@ =~= "false"@);
        }
        Some(false)
    } else {
        proof {
            assert(s@ != "true"@ && s@ != "false"@) by {
                if s@ == "true"@ {
                    assert(s@[0] == 't' && s@[1] == 'r' && s@[2] == 'u' && s@[3] == 'e');
                }
                if s@ == "false"@ {
                    assert(s@[0] == 'f' && s@[1] == 'a' && s@[2] == 'l' && s@[3] == 's' && s@[4]
                        == 'e');
                }
            }
        }
        None
    }
}

pub open spec fn digit_char(d: int) -> char {
    if d == 0 {
        '0'
    } else if d == 1 {
        '1'
    } else if d == 2 {
        '2'
    } else if d == 3 {
        '3'
    } else if d == 4 {
        '4'
    } else if d == 5 {
        '5'
    } else if d == 6 {
        '6'
    } else if d == 7 {
        '7'
    } else if d == 8 {
        '8'
    } else {
        '9'
    }
}

/// The canonical decimal text of a non-negative number.
pub open spec fn uint_text(n: int) -> Seq<char>
    decreases n,
{
    if n < 10 {
        seq![digit_char(n)]
    } else {
        uint_text(n / 10).push(digit_char(n % 10))
    }
}

/// The canonical decimal text of an integer: a `-` sign for negatives.
pub open spec fn int_text(v: int) -> Seq<char> {
    if v < 0 {
        seq!['-'] + uint_text(-v)
    } else {
        uint_text(v)
    }
}

/// The text of a stack of digits, least significant first.
spec fn digits_text(d: Seq<u8>) -> Seq<char>
    decreases d.len(),
{
    if d.len() == 0 {
        Seq::empty()
    } else {
        digits_text(d.drop_first()) + seq![digit_char(d[0] as int)]
    }
}

proof fn lemma_digits_text_push(d: Seq<u8>, x: u8)
    ensures
        digits_text(d.push(x)) == seq![digit_char(x as int)] + digits_text(d),
    decreases d.len(),
{
    let dx = d.push(x);
    assert(dx.len() == d.len() + 1);
    if d.len() == 0 {
        assert(dx.drop_first() =~= Seq::<u8>::empty());
        assert(dx[0] == x);
        assert(digits_text(dx) == digits_text(Seq::<u8>::empty()) + seq![digit_char(x as int)]);
        assert(digits_text(dx) =~= seq![digit_char(x as int)] + digits_text(d));
    } else {
        assert(dx.drop_first() =~= d.drop_first().push(x));
        lemma_digits_text_push(d.drop_first(), x);
        assert(dx[0] == d[0]);
        assert(digits_text(dx) == digits_text(d.drop_first().push(x)) + seq![
            digit_char(d[0] as int),
        ]);
        assert(digits_text(dx) == (seq![digit_char(x as int)] + digits_text(d.drop_first())) + seq![
            digit_char(d[0] as int),
        ]);
        assert(digits_text(d) == digits_text(d.drop_first()) + seq![digit_char(d[0] as int)]);
        assert(digits_text(dx) =~= seq![digit_char(x as int)] + digits_text(d));
    }
}

/// Renders a number as decimal text.
pub fn u128_to_text(n: u128) -> (r: String)
    ensures
        r@ == uint_text(n as int),
{
    let mut digits: Vec<u8> = Vec::new();
    let mut m: u128 = n;
    loop
        invariant_except_break
            digits@.len() == 0 ==> m == n,
            digits@.len() > 0 ==> m > 0 && uint_text(n as int) == uint_text(m as int)
                + digits_text(digits@),
        invariant
            forall|t: int| 0 <= t < digits@.len() ==> digits@[t] < 10,
        ensures
            uint_text(n as int) == digits_text(digits@),
        decreases m,
    {
        let dig: u8 = (m % 10) as u8;
        let ghost old_digits = digits@;
        let ghost old_m = m;
        digits.push(dig);
        m = m / 10;
        proof {
            lemma_digits_text_push(old_digits, dig);
            if old_digits.len() == 0 {
                if old_m >= 10 {
                    assert(uint_text(n as int) == uint_text(m as int) + digits_text(digits@));
                } else {
                    assert(uint_text(n as int) =~= digits_text(digits@));
                }
            } else {
                if old_m >= 10 {
                    assert(uint_text(old_m as int) == uint_text(m as int).push(
                        digit_char(old_m as int % 10),
                    ));
                    assert(uint_text(m as int).push(digit_char(dig as int)) =~= uint_text(m as int)
                        + seq![digit_char(dig as int)]);
                    assert(uint_text(n as int) =~= uint_text(m as int) + digits_text(digits@));
                } else {
                    assert(uint_text(old_m as int) =~= seq![digit_char(dig as int)]);
                    assert(uint_text(n as int) =~= digits_text(digits@));
                }
            }
        }
        if m == 0 {
            break ;
        }
    }
    let mut r = String::new();
    let mut idx: usize = digits.len();
    proof {
        assert(digits@.skip(idx as int) =~= Seq::<u8>::empty());
    }
    while idx > 0
        invariant
            idx <= digits@.len(),
            uint_text(n as int) == digits_text(digits@),
            forall|t: int| 0 <= t < digits@.len() ==> digits@[t] < 10,
            r@ == digits_text(digits@.skip(idx as int)),
        decreases idx,
    {
        idx = idx - 1;
        let dig = digits[idx];
        let lit: &str = match dig {
            0 => "0",
            1 => "1",
            2 => "2",
            3 => "3",
            4 => "4",
            5 => "5",
            6 => "6",
            7 => "7",
            8 => "8",
            _ => "9",
        };
        proof {
            reveal_strlit("0");
            reveal_strlit("1");
            reveal_strlit("2");
            reveal_strlit("3");
            reveal_strlit("4");
            reveal_strlit("5");
            reveal_strlit("6");
            reveal_strlit("7");
            reveal_strlit("8");
            reveal_strlit("9");
            assert(lit@ =~= seq![digit_char(dig as int)]);
        }
        r.append(lit);
        proof {
            assert(digits@.skip(idx as int).drop_first() =~= digits@.skip(idx as int + 1));
            assert(digits@.skip(idx as int)[0] == digits@[idx as int]);
            assert(r@ =~= digits_text(digits@.skip(idx as int)));
        }
    }
    proof {
        assert(digits@.skip(0) =~= digits@);
    }
    r
}

/// Renders a signed number as decimal text.
pub fn i128_to_text(v: i128) -> (r: String)
    ensures
        r@ == int_text(v as int),
{
    if v >= 0 {
        u128_to_text(v as u128)
    } else {
        let mag: u128 = if v == i128::MIN {
            i128::MAX as u128 + 1
        } else {
            (-v) as u128
        };
        let mut r = String::from_str("-");
        let t = u128_to_text(mag);
        r.append(t.as_str());
        proof {
            reveal_strlit("-");
            assert(r@ =~= int_text(v as int));
        }
        r
    }
}

/// Every canonical decimal rendering is made of digits and denotes the number
/// it was made from.
pub proof fn lemma_uint_text_props(n: int)
    requires
        n >= 0,
    ensures
        uint_text(n).len() >= 1,
        all_digits(uint_text(n)),
        digits_value(uint_text(n)) == n,
    decreases n,
{
    if n < 10 {
        let t = uint_text(n);
        assert(t == seq![digit_char(n)]);
        assert(t.len() == 1);
        assert(t.drop_last() =~= Seq::<char>::empty());
        assert(t.last() == digit_char(n));
        assert(is_digit_char(digit_char(n)));
        assert(digit_value(digit_char(n)) == n);
        assert(digits_value(t) == digits_value(t.drop_last()) * 10 + digit_value(t.last()));
        assert(digits_value(Seq::<char>::empty()) == 0);
        assert(digits_value(t) == n);
    } else {
        lemma_uint_text_props(n / 10);
        let t = uint_text(n);
        assert(t =~= uint_text(n / 10).push(digit_char(n % 10)));
        assert(t.drop_last() =~= uint_text(n / 10));
        assert(t.last() == digit_char(n % 10));
        assert(is_digit_char(digit_char(n % 10)));
        assert(all_digits(t)) by {
            assert(forall|i: int|
                0 <= i < t.len() - 1 ==> t[i] == #[trigger] uint_text(n / 10)[i]);
        }
        assert(digits_value(t) == digits_value(uint_text(n / 10)) * 10 + digit_value(
            digit_char(n % 10),
        ));
        assert(digit_value(digit_char(n % 10)) == n % 10);
        assert(digits_value(t) == n) by {
            vstd::arithmetic::div_mod::lemma_fundamental_div_mod(n, 10);
        }
    }
}

/// Round trip: the canonical text of any integer in `[min, max]` parses back
/// to that very value under the same range.
pub proof fn lemma_int_text_parses(v: int, min: int, max: int)
    requires
        min <= v <= max,
    ensures
        int_parse_spec(int_text(v), min, max) == Ok::<int, ParseFail>(v),
{
    if v >= 0 {
        let s = uint_text(v);
        lemma_uint_text_props(v);
        assert(is_digit_char(s[0]));
        assert(s[0] != '+' && s[0] != '-');
        assert(!has_sign(s));
        assert(digits_part(s) == s);
    } else {
        let s = int_text(v);
        lemma_uint_text_props(-v);
        assert(s[0] == '-');
        assert(is_negative_text(s));
        assert(min < 0);
        assert(digits_part(s) =~= uint_text(-v));
        assert(digits_value(digits_part(s)) == -v);
    }
}

} // verus!
