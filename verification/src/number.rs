//! Decimal numbers as the protocol writes them.

use vstd::prelude::*;
use vstd::utf8::{encode_utf8, is_ascii_chars, is_ascii_chars_encode_utf8};

verus! {

/// The byte is one of `0` to `9`.
pub open spec fn is_digit(b: u8) -> bool {
    48 <= b <= 57
}

/// Every byte is a decimal digit.
pub open spec fn all_digits(s: Seq<u8>) -> bool {
    forall|i: int| 0 <= i < s.len() ==> is_digit(#[trigger] s[i])
}

/// The number that a string of decimal digits writes.
pub open spec fn digits_value(s: Seq<u8>) -> int
    decreases s.len(),
{
    if s.len() == 0 {
        0
    } else {
        digits_value(s.drop_last()) * 10 + (s.last() - 48)
    }
}

/// The integer that `s` writes: an optional `+` (or `-`, where `signed`),
/// then one decimal digit or more and nothing else. `None` for every other
/// text.
pub open spec fn parse_decimal(s: Seq<u8>, signed: bool) -> Option<int> {
    if s.len() == 0 {
        None
    } else {
        let negative = signed && s[0] == 45;
        let digits = if s[0] == 43 || negative {
            s.skip(1)
        } else {
            s
        };
        if digits.len() == 0 || !all_digits(digits) {
            None
        } else if negative {
            Some(-digits_value(digits))
        } else {
            Some(digits_value(digits))
        }
    }
}

/// The `u8` that `s` writes, if it writes one.
pub open spec fn parse_u8_spec(s: Seq<u8>) -> Option<u8> {
    match parse_decimal(s, false) {
        Some(v) if v <= u8::MAX => Some(v as u8),
        _ => None,
    }
}

/// The `u32` that `s` writes, if it writes one.
pub open spec fn parse_u32_spec(s: Seq<u8>) -> Option<u32> {
    match parse_decimal(s, false) {
        Some(v) if v <= u32::MAX => Some(v as u32),
        _ => None,
    }
}

/// The `i16` that `s` writes, if it writes one.
pub open spec fn parse_i16_spec(s: Seq<u8>) -> Option<i16> {
    match parse_decimal(s, true) {
        Some(v) if i16::MIN <= v <= i16::MAX => Some(v as i16),
        _ => None,
    }
}

/// A digit string is worth at least as much as each of its prefixes.
pub proof fn lemma_digits_value_prefix(s: Seq<u8>, n: int)
    requires
        all_digits(s),
        0 <= n <= s.len(),
    ensures
        0 <= digits_value(s.take(n)) <= digits_value(s),
    decreases s.len() - n,
{
    lemma_digits_value_nonnegative(s.take(n));
    if n == s.len() {
        assert(s.take(n) =~= s);
    } else {
        lemma_digits_value_prefix(s, n + 1);
        assert(s.take(n + 1).drop_last() =~= s.take(n));
    }
}

/// A digit string is worth no less than zero.
pub proof fn lemma_digits_value_nonnegative(s: Seq<u8>)
    requires
        all_digits(s),
    ensures
        0 <= digits_value(s),
    decreases s.len(),
{
    if s.len() > 0 {
        lemma_digits_value_nonnegative(s.drop_last());
    }
}

/// The magnitude of the decimal number in `s[from..]`, where it is made of
/// digits only, has one at least, and is worth `limit` at most.
fn parse_digits(s: &[u8], from: usize, limit: u64) -> (value: Option<u64>)
    requires
        from <= s.len(),
        limit <= u32::MAX,
    ensures
        match value {
            Some(v) => {
                &&& s@.skip(from as int).len() > 0
                &&& all_digits(s@.skip(from as int))
                &&& v == digits_value(s@.skip(from as int))
                &&& v <= limit
            },
            None => !(s@.skip(from as int).len() > 0 && all_digits(s@.skip(from as int))
                && digits_value(s@.skip(from as int)) <= limit),
        },
{
    let ghost digits = s@.skip(from as int);
    if from == s.len() {
        return None;
    }
    let mut value: u64 = 0;
    let mut i: usize = from;
    while i < s.len()
        invariant
            from <= i <= s.len(),
            digits == s@.skip(from as int),
            limit <= u32::MAX,
            all_digits(digits.take(i - from)),
            value == digits_value(digits.take(i - from)),
            value <= limit,
        decreases s.len() - i,
    {
        let b = s[i];
        if b < 48 || b > 57 {
            assert(!is_digit(digits[i - from]));
            return None;
        }
        let next: u64 = value * 10 + (b - 48) as u64;
        proof {
            let k = i - from;
            assert(digits.take(k + 1).drop_last() =~= digits.take(k));
            assert forall|j: int| 0 <= j < k + 1 implies is_digit(
                #[trigger] digits.take(k + 1)[j],
            ) by {}
        }
        if next > limit {
            proof {
                if all_digits(digits) {
                    lemma_digits_value_prefix(digits, i - from + 1);
                }
            }
            return None;
        }
        value = next;
        i += 1;
    }
    assert(digits.take(i - from) =~= digits);
    Some(value)
}

/// Reads a `u8` in decimal.
pub fn parse_u8(s: &[u8]) -> (value: Option<u8>)
    ensures
        value == parse_u8_spec(s@),
{
    if s.len() == 0 {
        return None;
    }
    let from: usize = if s[0] == 43 { 1 } else { 0 };
    assert(s@.skip(0) =~= s@);
    match parse_digits(s, from, 255) {
        Some(v) => Some(v as u8),
        None => None,
    }
}

/// Reads a `u32` in decimal.
pub fn parse_u32(s: &[u8]) -> (value: Option<u32>)
    ensures
        value == parse_u32_spec(s@),
{
    if s.len() == 0 {
        return None;
    }
    let from: usize = if s[0] == 43 { 1 } else { 0 };
    assert(s@.skip(0) =~= s@);
    match parse_digits(s, from, 0xffff_ffff) {
        Some(v) => Some(v as u32),
        None => None,
    }
}

/// Reads an `i16` in decimal.
pub fn parse_i16(s: &[u8]) -> (value: Option<i16>)
    ensures
        value == parse_i16_spec(s@),
{
    if s.len() == 0 {
        return None;
    }
    if s[0] == 45 {
        match parse_digits(s, 1, 32768) {
            Some(v) => Some((0 - (v as i32)) as i16),
            None => None,
        }
    } else {
        let from: usize = if s[0] == 43 { 1 } else { 0 };
        assert(s@.skip(0) =~= s@);
        match parse_digits(s, from, 32767) {
            Some(v) => Some(v as i16),
            None => None,
        }
    }
}

/// The character that writes the digit `d`.
pub open spec fn digit_char(d: int) -> char {
    if d == 0 {
        '0'
    } else if d == 1 {
        '1'
    } else if d == 2 {
        '2'
    } else if d == 3 {
        '3'
    } else if d == 4 {
        '4'
    } else if d == 5 {
        '5'
    } else if d == 6 {
        '6'
    } else if d == 7 {
        '7'
    } else if d == 8 {
        '8'
    } else {
        '9'
    }
}

/// The decimal digits of `n`, without leading zeros.
pub open spec fn decimal_digits(n: nat) -> Seq<char>
    decreases n,
{
    if n < 10 {
        seq![digit_char(n as int)]
    } else {
        decimal_digits(n / 10).push(digit_char((n % 10) as int))
    }
}

/// `n` in decimal, with `-` before a negative number.
pub open spec fn decimal_spec(n: int) -> Seq<char> {
    if n < 0 {
        seq!['-'] + decimal_digits((-n) as nat)
    } else {
        decimal_digits(n as nat)
    }
}

/// The text of one digit.
fn digit_str(d: u64) -> (text: &'static str)
    requires
        d < 10,
    ensures
        text@ == seq![digit_char(d as int)],
{
    proof {
        reveal_strlit("0");
        reveal_strlit("1");
        reveal_strlit("2");
        reveal_strlit("3");
        reveal_strlit("4");
        reveal_strlit("5");
        reveal_strlit("6");
        reveal_strlit("7");
        reveal_strlit("8");
        reveal_strlit("9");
    }
    let text = match d {
        0 => "0",
        1 => "1",
        2 => "2",
        3 => "3",
        4 => "4",
        5 => "5",
        6 => "6",
        7 => "7",
        8 => "8",
        _ => "9",
    };
    text
}

/// Appends the decimal digits of `n` to `text`.
fn push_digits(text: &mut String, n: u64)
    ensures
        final(text)@ == old(text)@ + decimal_digits(n as nat),
    decreases n,
{
    if n >= 10 {
        push_digits(text, n / 10);
    }
    text.append(digit_str(n % 10));
}

/// Writes `n` in decimal.
pub fn decimal(n: u64) -> (text: String)
    ensures
        text@ == decimal_spec(n as int),
{
    let mut text = String::new();
    push_digits(&mut text, n);
    text
}

/// Writes `n` in decimal, with `-` before a negative number.
pub fn signed_decimal(n: i64) -> (text: String)
    ensures
        text@ == decimal_spec(n as int),
{
    if n < 0 {
        proof {
            reveal_strlit("-");
        }
        let mut text = "-".to_string();
        let magnitude: u64 = ((-(n + 1)) as u64) + 1;
        push_digits(&mut text, magnitude);
        text
    } else {
        decimal(n as u64)
    }
}

/// The bytes of a text in ASCII: one for each character.
pub open spec fn ascii_bytes(text: Seq<char>) -> Seq<u8> {
    Seq::new(text.len(), |i: int| text[i] as u8)
}

/// The digits of a number are ASCII, and read back they are worth the
/// number.
pub proof fn lemma_decimal_digits(n: nat)
    ensures
        decimal_digits(n).len() > 0,
        is_ascii_chars(decimal_digits(n)),
        encode_utf8(decimal_digits(n)) == ascii_bytes(decimal_digits(n)),
        all_digits(ascii_bytes(decimal_digits(n))),
        digits_value(ascii_bytes(decimal_digits(n))) == n,
    decreases n,
{
    let digits = decimal_digits(n);
    let bytes = ascii_bytes(digits);
    if n < 10 {
        assert(digits_value(bytes.drop_last()) == 0);
    } else {
        lemma_decimal_digits(n / 10);
        let head = decimal_digits(n / 10);
        assert(bytes.drop_last() =~= ascii_bytes(head));
        assert forall|i: int| 0 <= i < bytes.len() implies is_digit(#[trigger] bytes[i]) by {
            if i < head.len() {
                assert(bytes[i] == ascii_bytes(head)[i]);
            }
        }
        assert forall|i: int| 0 <= i < digits.len() implies ((#[trigger] digits[i]) as nat)
            < 128 by {}
    }
    is_ascii_chars_encode_utf8(digits);
}

/// A number that is written in decimal reads back as itself: every number
/// where a sign may be read, and every number that is not negative where
/// none may.
pub proof fn lemma_decimal_round_trip(n: int, signed: bool)
    requires
        signed || n >= 0,
    ensures
        parse_decimal(encode_utf8(decimal_spec(n)), signed) == Some(n),
{
    if n >= 0 {
        lemma_decimal_digits(n as nat);
    } else {
        let magnitude = (-n) as nat;
        lemma_decimal_digits(magnitude);
        let digits = decimal_digits(magnitude);
        let text = seq!['-'] + digits;
        let bytes = ascii_bytes(text);
        assert forall|i: int| 0 <= i < text.len() implies ((#[trigger] text[i]) as nat) < 128 by {}
        is_ascii_chars_encode_utf8(text);
        assert(encode_utf8(text) =~= bytes);
        assert(bytes.skip(1) =~= ascii_bytes(digits));
    }
}

} // verus!
