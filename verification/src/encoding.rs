//! Argument values of a contract call and their canonical binary encoding.

use vstd::prelude::*;
use aptos_sdk::aptos_bcs::to_bytes;
use aptos_sdk::transaction::MoveU256;
use crate::decimal::{decimal_value, ParseError};
use crate::u256::{
    denoted_by, le_bytes, lemma_le_bytes_of_value, parse_u256, U256,
};

verus! {

/// The largest number of elements that a variable-length sequence may have
/// in the canonical encoding.
pub const MAX_SEQUENCE_LENGTH: usize = 2147483647;

/// A value handed to a contract function.
#[derive(Clone, Debug, PartialEq, Eq)]
pub enum ArgValue {
    /// An unsigned 8-bit integer.
    U8(u8),
    /// An unsigned 64-bit integer.
    U64(u64),
    /// An unsigned 256-bit integer.
    U256(U256),
    /// A vector of unsigned 8-bit integers.
    U8Vector(Vec<u8>),
    /// A vector of unsigned 64-bit integers.
    U64Vector(Vec<u64>),
    /// A vector of unsigned 256-bit integers.
    U256Vector(Vec<U256>),
}

/// The encoding of a length: its base-128 digits, least significant first,
/// each in one byte whose high bit says that another digit follows.
pub open spec fn uleb128(n: nat) -> Seq<u8>
    decreases n,
{
    if n < 128 {
        seq![n as u8]
    } else {
        seq![(n % 128 + 128) as u8] + uleb128(n / 128)
    }
}

/// The encoding of a variable-length sequence whose elements are encoded as
/// `parts`: the number of elements, then the elements one after the other.
pub open spec fn sequence_encoding(parts: Seq<Seq<u8>>) -> Seq<u8> {
    uleb128(parts.len()) + parts.flatten()
}

/// The encoding of the 256-bit unsigned integer that the numeral `s`
/// denotes.
pub open spec fn numeral_encoding(s: Seq<char>) -> Seq<u8> {
    le_bytes(decimal_value(s), 32)
}

/// The encoding of the vector of the 256-bit unsigned integers that the
/// numerals `strings` denote.
pub open spec fn numerals_encoding(strings: Seq<String>) -> Seq<u8> {
    sequence_encoding(strings.map_values(|s: String| numeral_encoding(s@)))
}

impl ArgValue {
    /// The canonical encoding of the value. Integers are written least
    /// significant byte first, in 1, 8 or 32 bytes.
    pub open spec fn encoding(&self) -> Seq<u8> {
        match self {
            ArgValue::U8(v) => seq![*v],
            ArgValue::U64(v) => le_bytes(*v as nat, 8),
            ArgValue::U256(v) => v.bytes@,
            ArgValue::U8Vector(items) => sequence_encoding(items@.map_values(|v: u8| seq![v])),
            ArgValue::U64Vector(items) => sequence_encoding(
                items@.map_values(|v: u64| le_bytes(v as nat, 8)),
            ),
            ArgValue::U256Vector(items) => sequence_encoding(
                items@.map_values(|v: U256| v.bytes@),
            ),
        }
    }

    /// Whether the value has a canonical encoding: a vector must not be
    /// longer than `MAX_SEQUENCE_LENGTH`.
    pub open spec fn encodable(&self) -> bool {
        match self {
            ArgValue::U8(_) | ArgValue::U64(_) | ArgValue::U256(_) => true,
            ArgValue::U8Vector(items) => items@.len() <= MAX_SEQUENCE_LENGTH,
            ArgValue::U64Vector(items) => items@.len() <= MAX_SEQUENCE_LENGTH,
            ArgValue::U256Vector(items) => items@.len() <= MAX_SEQUENCE_LENGTH,
        }
    }

    /// Encodes the value, or returns `None` for a vector that is too long.
    pub fn encode(&self) -> (r: Option<Vec<u8>>)
        ensures
            r is Some <==> self.encodable(),
            r matches Some(bytes) ==> bytes@ == self.encoding(),
    {
        match self {
            ArgValue::U8(v) => encode_u8(*v),
            ArgValue::U64(v) => encode_u64(*v),
            ArgValue::U256(v) => encode_u256(v),
            ArgValue::U8Vector(items) => encode_u8_vector(items),
            ArgValue::U64Vector(items) => encode_u64_vector(items),
            ArgValue::U256Vector(items) => encode_u256_vector(items),
        }
    }
}

/// Calls `to_bytes` of the `aptos_bcs` crate on a `u8`, which writes the
/// byte itself and cannot fail.
#[verifier::external_body]
fn encode_u8(v: u8) -> (r: Option<Vec<u8>>)
    ensures
        r is Some,
        r matches Some(bytes) ==> bytes@ == seq![v],
{
    to_bytes(&v).ok()
}

/// Calls `to_bytes` of the `aptos_bcs` crate on a `u64`, which writes its
/// eight bytes, least significant first, and cannot fail.
#[verifier::external_body]
fn encode_u64(v: u64) -> (r: Option<Vec<u8>>)
    ensures
        r is Some,
        r matches Some(bytes) ==> bytes@ == le_bytes(v as nat, 8),
{
    to_bytes(&v).ok()
}

/// Calls `to_bytes` of the `aptos_bcs` crate on a `MoveU256` of the
/// `aptos_sdk` crate, which writes its 32 bytes as a tuple, that is without
/// a length, and cannot fail.
#[verifier::external_body]
fn encode_u256(v: &U256) -> (r: Option<Vec<u8>>)
    ensures
        r is Some,
        r matches Some(bytes) ==> bytes@ == v.bytes@,
{
    to_bytes(&MoveU256(v.bytes)).ok()
}

/// Calls `to_bytes` of the `aptos_bcs` crate on a `Vec<u8>`. It fails for
/// more than `MAX_SEQUENCE_LENGTH` elements, and otherwise writes the
/// number of elements and then each byte.
#[verifier::external_body]
fn encode_u8_vector(items: &Vec<u8>) -> (r: Option<Vec<u8>>)
    ensures
        r is Some <==> items@.len() <= MAX_SEQUENCE_LENGTH,
        r matches Some(bytes) ==> bytes@ == sequence_encoding(items@.map_values(|v: u8| seq![v])),
{
    to_bytes(items).ok()
}

/// Calls `to_bytes` of the `aptos_bcs` crate on a `Vec<u64>`. It fails for
/// more than `MAX_SEQUENCE_LENGTH` elements, and otherwise writes the
/// number of elements and then the eight bytes of each.
#[verifier::external_body]
fn encode_u64_vector(items: &Vec<u64>) -> (r: Option<Vec<u8>>)
    ensures
        r is Some <==> items@.len() <= MAX_SEQUENCE_LENGTH,
        r matches Some(bytes) ==> bytes@ == sequence_encoding(
            items@.map_values(|v: u64| le_bytes(v as nat, 8)),
        ),
{
    to_bytes(items).ok()
}

/// Calls `to_bytes` of the `aptos_bcs` crate on a `Vec<MoveU256>`. It fails
/// for more than `MAX_SEQUENCE_LENGTH` elements, and otherwise writes the
/// number of elements and then the 32 bytes of each.
#[verifier::external_body]
fn encode_u256_vector(items: &Vec<U256>) -> (r: Option<Vec<u8>>)
    ensures
        r is Some <==> items@.len() <= MAX_SEQUENCE_LENGTH,
        r matches Some(bytes) ==> bytes@ == sequence_encoding(
            items@.map_values(|v: U256| v.bytes@),
        ),
{
    let values: Vec<MoveU256> = items.iter().map(|v| MoveU256(v.bytes)).collect();
    to_bytes(&values).ok()
}

/// Reading a numeral and encoding the value writes the 32 little-endian
/// bytes of the number that the numeral denotes: whenever `str_to_u256`
/// returns `v` for the string `s`, the encoding of `v` as an argument is
/// `le_bytes(decimal_value(s), 32)`, which is `numeral_encoding(s)`.
pub proof fn lemma_numeral_round_trip(s: Seq<char>, v: U256)
    requires
        parse_u256(s) == Ok::<nat, ParseError>(v@),
    ensures
        ArgValue::U256(v).encodable(),
        ArgValue::U256(v).encoding() == numeral_encoding(s),
{
    lemma_le_bytes_of_value(v.bytes@);
}

/// The encoding of a vector of numbers is the encoding of the numerals
/// that denote them.
pub proof fn lemma_numerals_round_trip(strings: Seq<String>, values: Vec<U256>)
    requires
        denoted_by(values@, strings),
    ensures
        ArgValue::U256Vector(values).encoding() == numerals_encoding(strings),
{
    assert forall|i: int| 0 <= i < strings.len() implies (#[trigger] values@[i]).bytes@
        == numeral_encoding(strings[i]@) by {
        lemma_le_bytes_of_value(values@[i].bytes@);
    }
    assert(values@.map_values(|v: U256| v.bytes@) =~= strings.map_values(
        |s: String| numeral_encoding(s@),
    ));
}

} // verus!
