//! Decimal numerals: what a string of digits denotes, and the parsers for
//! the machine-sized unsigned integers.

use vstd::prelude::*;
use vstd::string::*;

verus! {

/// The code of the character `0`.
const ASCII_ZERO: u8 = 48;

/// The code of the character `9`.
const ASCII_NINE: u8 = 57;

/// The code of the character `+`.
const ASCII_PLUS: u8 = 43;

/// Why a string is not the numeral of a representable unsigned integer.
#[derive(Clone, Copy, Debug, PartialEq, Eq, Structural)]
pub enum ParseError {
    /// The string holds no character at all.
    Empty,
    /// A character that is not a decimal digit stands where a digit is due,
    /// or no digit follows the sign.
    InvalidDigit,
    /// The digits denote a value above the largest one of the target type.
    Overflow,
}

/// Whether `c` is one of the ASCII digits `0` to `9`.
pub open spec fn is_digit(c: char) -> bool {
    '0' <= c && c <= '9'
}

/// The value of the decimal digit `c`.
pub open spec fn digit_value(c: char) -> nat {
    (c as int - '0' as int) as nat
}

/// Whether every character of `s` is a decimal digit.
pub open spec fn all_digits(s: Seq<char>) -> bool {
    forall|i: int| 0 <= i < s.len() ==> is_digit(#[trigger] s[i])
}

/// The number that the digit string `s` denotes in base ten, most
/// significant digit first. The empty string denotes zero.
pub open spec fn decimal_value(s: Seq<char>) -> nat
    decreases s.len(),
{
    if s.len() == 0 {
        0
    } else {
        decimal_value(s.drop_last()) * 10 + digit_value(s.last())
    }
}

/// The part of `s` that has to consist of digits: `s` without one leading
/// plus sign.
pub open spec fn unsigned_digits(s: Seq<char>) -> Seq<char> {
    if s.len() > 0 && s[0] == '+' {
        s.subrange(1, s.len() as int)
    } else {
        s
    }
}

/// The result of reading `s` as an unsigned integer no larger than `max`:
/// an optional plus sign followed by at least one digit and nothing else.
pub open spec fn parse_unsigned(s: Seq<char>, max: nat) -> Result<nat, ParseError> {
    let digits = unsigned_digits(s);
    if s.len() == 0 {
        Err(ParseError::Empty)
    } else if digits.len() == 0 || !all_digits(digits) {
        Err(ParseError::InvalidDigit)
    } else if decimal_value(digits) > max {
        Err(ParseError::Overflow)
    } else {
        Ok(decimal_value(digits))
    }
}

/// A prefix of a digit string never denotes more than the whole string.
pub proof fn lemma_decimal_prefix_le(s: Seq<char>, i: int)
    requires
        0 <= i <= s.len(),
    ensures
        decimal_value(s.take(i)) <= decimal_value(s),
    decreases s.len(),
{
    if i == s.len() {
        assert(s.take(i) =~= s);
    } else {
        assert(s.take(i) =~= s.drop_last().take(i));
        lemma_decimal_prefix_le(s.drop_last(), i);
    }
}

/// Appending one digit multiplies the value by ten and adds the digit.
pub proof fn lemma_decimal_step(s: Seq<char>, i: int)
    requires
        0 <= i < s.len(),
    ensures
        decimal_value(s.take(i + 1)) == decimal_value(s.take(i)) * 10 + digit_value(s[i]),
{
    assert(s.take(i + 1).drop_last() =~= s.take(i));
}

/// Tells whether `s` consists of decimal digits only.
pub fn digits_only(s: &str) -> (b: bool)
    ensures
        b == all_digits(s@),
{
    broadcast use is_ascii_spec_bytes;

    if !s.is_ascii() {
        return false;
    }
    let bytes = s.as_bytes();
    let n = bytes.len();
    assert(n == s@.len() && forall|j: int|
        0 <= j < n ==> s@[j] as int == #[trigger] bytes[j] as int);
    let mut i: usize = 0;
    while i < n
        invariant
            i <= n,
            n == s@.len(),
            n == bytes.len(),
            forall|j: int| 0 <= j < n ==> s@[j] as int == #[trigger] bytes[j] as int,
            forall|j: int| 0 <= j < i ==> is_digit(#[trigger] s@[j]),
        decreases n - i,
    {
        let b = bytes[i];
        if b < ASCII_ZERO || b > ASCII_NINE {
            return false;
        }
        i += 1;
    }
    true
}

/// Reads `s` as an unsigned integer that is at most `max`.
fn parse_bounded(s: &str, max: u64) -> (r: Result<u64, ParseError>)
    ensures
        r matches Ok(v) ==> parse_unsigned(s@, max as nat) == Ok::<nat, ParseError>(v as nat),
        r matches Err(e) ==> parse_unsigned(s@, max as nat) == Err::<nat, ParseError>(e),
{
    broadcast use is_ascii_spec_bytes;

    let ghost digits = unsigned_digits(s@);
    if !s.is_ascii() {
        proof {
            let k = choose|k: int| 0 <= k < s@.len() && !('\0' <= #[trigger] s@[k] <= '\u{7f}');
            if s@[0] == '+' {
                assert(digits[k - 1] == s@[k]);
            }
        }
        return Err(ParseError::InvalidDigit);
    }
    let bytes = s.as_bytes();
    let n = bytes.len();
    assert(n == s@.len() && forall|j: int|
        0 <= j < n ==> s@[j] as int == #[trigger] bytes[j] as int);
    if n == 0 {
        return Err(ParseError::Empty);
    }
    let start: usize = if bytes[0] == ASCII_PLUS { 1 } else { 0 };
    if start == n {
        return Err(ParseError::InvalidDigit);
    }
    let mut i: usize = start;
    while i < n
        invariant
            start <= i <= n,
            n == s@.len(),
            n == bytes.len(),
            forall|j: int| 0 <= j < n ==> s@[j] as int == #[trigger] bytes[j] as int,
            digits == unsigned_digits(s@),
            digits == s@.subrange(start as int, n as int),
            forall|j: int| 0 <= j < i - start ==> is_digit(#[trigger] digits[j]),
        decreases n - i,
    {
        let b = bytes[i];
        if b < ASCII_ZERO || b > ASCII_NINE {
            assert(!is_digit(digits[i - start]));
            return Err(ParseError::InvalidDigit);
        }
        i += 1;
    }
    let mut acc: u64 = 0;
    i = start;
    while i < n
        invariant
            start <= i <= n,
            n == s@.len(),
            n == bytes.len(),
            forall|j: int| 0 <= j < n ==> s@[j] as int == #[trigger] bytes[j] as int,
            digits == unsigned_digits(s@),
            digits == s@.subrange(start as int, n as int),
            all_digits(digits),
            acc == decimal_value(digits.take(i - start)),
            acc <= max,
        decreases n - i,
    {
        let b = bytes[i];
        assert(digits[i - start] as int == b as int && is_digit(digits[i - start]));
        let d: u64 = (b - ASCII_ZERO) as u64;
        proof {
            lemma_decimal_step(digits, i - start);
            lemma_decimal_prefix_le(digits, i - start + 1);
        }
        if d > max || acc > (max - d) / 10 {
            return Err(ParseError::Overflow);
        }
        acc = acc * 10 + d;
        i += 1;
    }
    assert(digits.take(n - start) =~= digits);
    Ok(acc)
}

/// Reads a 64-bit unsigned integer from its decimal numeral: an optional
/// plus sign, then digits only.
pub fn str_to_u64(s: &str) -> (r: Result<u64, ParseError>)
    ensures
        r matches Ok(v) ==> parse_unsigned(s@, u64::MAX as nat) == Ok::<nat, ParseError>(v as nat),
        r matches Err(e) ==> parse_unsigned(s@, u64::MAX as nat) == Err::<nat, ParseError>(e),
{
    parse_bounded(s, u64::MAX)
}

/// Reads an 8-bit unsigned integer from its decimal numeral: an optional
/// plus sign, then digits only.
pub fn str_to_u8(s: &str) -> (r: Result<u8, ParseError>)
    ensures
        r matches Ok(v) ==> parse_unsigned(s@, u8::MAX as nat) == Ok::<nat, ParseError>(v as nat),
        r matches Err(e) ==> parse_unsigned(s@, u8::MAX as nat) == Err::<nat, ParseError>(e),
{
    match parse_bounded(s, 255) {
        Ok(v) => Ok(v as u8),
        Err(e) => Err(e),
    }
}

} // verus!
