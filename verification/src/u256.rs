//! Unsigned 256-bit integers, held as 32 little-endian bytes.

use vstd::prelude::*;
use vstd::arithmetic::power2::pow2;
use aptos_sdk::transaction::MoveU256;
use crate::decimal::{all_digits, decimal_value, digits_only, ParseError};

verus! {

/// The number of values of a 256-bit unsigned integer: two to the power 256.
pub open spec fn u256_limit() -> nat {
    pow2(256)
}

/// The number that the bytes `b` denote, least significant byte first.
pub open spec fn le_value(b: Seq<u8>) -> nat
    decreases b.len(),
{
    if b.len() == 0 {
        0
    } else {
        b[0] as nat + 256 * le_value(b.drop_first())
    }
}

/// The `len` low bytes of `n`, least significant byte first.
pub open spec fn le_bytes(n: nat, len: nat) -> Seq<u8>
    decreases len,
{
    if len == 0 {
        Seq::empty()
    } else {
        seq![(n % 256) as u8] + le_bytes(n / 256, (len - 1) as nat)
    }
}

/// An unsigned 256-bit integer.
#[derive(Clone, Copy, Debug, PartialEq, Eq)]
pub struct U256 {
    /// The value, least significant byte first.
    pub bytes: [u8; 32],
}

impl View for U256 {
    type V = nat;

    open spec fn view(&self) -> nat {
        le_value(self.bytes@)
    }
}

/// The result of reading `s` as a 256-bit unsigned integer: at least one
/// digit, digits only, and a value below two to the power 256.
pub open spec fn parse_u256(s: Seq<char>) -> Result<nat, ParseError> {
    if s.len() == 0 {
        Err(ParseError::Empty)
    } else if !all_digits(s) {
        Err(ParseError::InvalidDigit)
    } else if decimal_value(s) >= u256_limit() {
        Err(ParseError::Overflow)
    } else {
        Ok(decimal_value(s))
    }
}

/// Writing out `len` bytes of a number gives `len` bytes.
pub proof fn lemma_le_bytes_len(n: nat, len: nat)
    ensures
        le_bytes(n, len).len() == len,
    decreases len,
{
    if len > 0 {
        lemma_le_bytes_len(n / 256, (len - 1) as nat);
    }
}

/// Writing out the bytes of the number that `b` denotes gives `b` back.
pub proof fn lemma_le_bytes_of_value(b: Seq<u8>)
    ensures
        le_bytes(le_value(b), b.len()) == b,
    decreases b.len(),
{
    if b.len() > 0 {
        lemma_le_bytes_of_value(b.drop_first());
    }
}

/// Calls `MoveU256::parse` of the `aptos_sdk` crate on a string of digits.
/// That function folds the digits into 32 little-endian bytes and fails as
/// soon as a carry leaves the last byte, so it succeeds exactly on the
/// numerals of values below two to the power 256 and returns the bytes of
/// the value. It strips blanks from both ends of its argument before it
/// looks at the characters, which is why this function takes digits only.
#[verifier::external_body]
fn parse_digits(s: &str) -> (r: Option<[u8; 32]>)
    requires
        s@.len() > 0,
        all_digits(s@),
    ensures
        r is Some <==> decimal_value(s@) < u256_limit(),
        r matches Some(b) ==> le_value(b@) == decimal_value(s@),
{
    match MoveU256::parse(s) {
        Ok(v) => Some(v.0),
        Err(_) => None,
    }
}

/// Reads a 256-bit unsigned integer from its decimal numeral. No sign, no
/// blank and no separator is accepted.
pub fn str_to_u256(s: &str) -> (r: Result<U256, ParseError>)
    ensures
        r matches Ok(v) ==> parse_u256(s@) == Ok::<nat, ParseError>(v@),
        r matches Err(e) ==> parse_u256(s@) == Err::<nat, ParseError>(e),
{
    if s.is_empty() {
        return Err(ParseError::Empty);
    }
    if !digits_only(s) {
        return Err(ParseError::InvalidDigit);
    }
    match parse_digits(s) {
        Some(bytes) => Ok(U256 { bytes }),
        None => Err(ParseError::Overflow),
    }
}

/// Whether every string of `strings` is the numeral of a 256-bit unsigned
/// integer.
pub open spec fn are_u256_numerals(strings: Seq<String>) -> bool {
    forall|i: int| 0 <= i < strings.len() ==> parse_u256((#[trigger] strings[i])@) is Ok
}

/// Whether `values` are the numbers that `strings` denote, one for one.
pub open spec fn denoted_by(values: Seq<U256>, strings: Seq<String>) -> bool {
    &&& values.len() == strings.len()
    &&& forall|i: int|
        0 <= i < strings.len() ==> parse_u256(strings[i]@) == Ok::<nat, ParseError>(
            (#[trigger] values[i])@,
        )
}

/// Reads a list of 256-bit unsigned integers from their decimal numerals,
/// or returns `None` where one of the strings is no such numeral.
pub fn str_to_u256_list(strings: &Vec<String>) -> (r: Option<Vec<U256>>)
    ensures
        r is Some <==> are_u256_numerals(strings@),
        r matches Some(values) ==> denoted_by(values@, strings@),
{
    let mut values: Vec<U256> = Vec::new();
    let mut i: usize = 0;
    while i < strings.len()
        invariant
            i <= strings.len(),
            denoted_by(values@, strings@.take(i as int)),
        decreases strings.len() - i,
    {
        match str_to_u256(strings[i].as_str()) {
            Ok(v) => {
                values.push(v);
            },
            Err(_) => {
                return None;
            },
        }
        i += 1;
    }
    assert forall|i: int| 0 <= i < strings@.len() implies parse_u256(
        (#[trigger] strings@[i])@,
    ) is Ok by {
        assert(parse_u256(strings@[i]@) == Ok::<nat, ParseError>(values@[i]@));
    }
    Some(values)
}

} // verus!
