//! Call payloads: the name of a contract function together with its encoded
//! arguments, and the fixed parameters of the transaction that carries it.

use vstd::prelude::*;
use aptos_sdk::types::Identifier;
use crate::decimal::{decimal_value, is_digit, ParseError};
use crate::encoding::{lemma_numeral_round_trip, ArgValue};
use crate::u256::{le_bytes, parse_u256, U256};

verus! {

/// The most gas units that a transaction of this library may consume.
pub const MAX_GAS_AMOUNT: u64 = 200000;

/// The price offered for one gas unit.
pub const GAS_UNIT_PRICE: u64 = 100;

/// For how many seconds after it was built a transaction stays valid.
pub const EXPIRATION_HORIZON_SECS: u64 = 60;

/// Why a call payload could not be built.
#[derive(Clone, Copy, Debug, PartialEq, Eq, Structural)]
pub enum EncodingError {
    /// The module name or the function name is not an identifier.
    InvalidIdentifier,
    /// A numeral among the inputs does not denote a value of its type.
    InvalidNumeric,
    /// A vector argument has more elements than the encoding can count.
    SequenceTooLong,
    /// The encoded arguments have more bytes than a `u64` can count.
    PayloadTooLarge,
}

/// Whether `c` may start an identifier: an ASCII letter or an underscore.
pub open spec fn is_identifier_start(c: char) -> bool {
    ('a' <= c && c <= 'z') || ('A' <= c && c <= 'Z') || c == '_'
}

/// Whether `s` is an identifier of the contract runtime: between 1 and 128
/// ASCII letters, digits and underscores, the first of them no digit.
pub open spec fn is_identifier(s: Seq<char>) -> bool {
    &&& 0 < s.len() <= 128
    &&& is_identifier_start(s[0])
    &&& forall|i: int| 0 <= i < s.len() ==> is_identifier_start(#[trigger] s[i]) || is_digit(s[i])
}

/// The number of bytes in all of `parts`.
pub open spec fn total_len(parts: Seq<Seq<u8>>) -> nat
    decreases parts.len(),
{
    if parts.len() == 0 {
        0
    } else {
        total_len(parts.drop_last()) + parts.last().len()
    }
}

/// A call of a contract function, ready to be put into a transaction.
#[derive(Clone, Debug, PartialEq, Eq)]
pub struct CallPayload {
    /// The name of the module that holds the function.
    pub module: String,
    /// The name of the function.
    pub function: String,
    /// The arguments in call order, each in its canonical encoding.
    pub args: Vec<Vec<u8>>,
    /// The number of bytes of all encoded arguments together.
    pub size: u64,
}

/// What a call payload holds, as mathematical values.
pub struct CallPayloadView {
    /// The name of the module.
    pub module: Seq<char>,
    /// The name of the function.
    pub function: Seq<char>,
    /// The encoded arguments, in call order.
    pub args: Seq<Seq<u8>>,
    /// The number of bytes of all encoded arguments together.
    pub size: nat,
}

impl View for CallPayload {
    type V = CallPayloadView;

    open spec fn view(&self) -> CallPayloadView {
        CallPayloadView {
            module: self.module@,
            function: self.function@,
            args: self.args@.map_values(|a: Vec<u8>| a@),
            size: self.size as nat,
        }
    }
}

/// The encodings of `params`, in order.
pub open spec fn encodings(params: Seq<ArgValue>) -> Seq<Seq<u8>> {
    params.map_values(|p: ArgValue| p.encoding())
}

/// The payload for calling `function` of `module` with arguments whose
/// encodings are `parts`, or the reason why there is none.
pub open spec fn payload_from_parts(module: Seq<char>, function: Seq<char>, parts: Seq<Seq<u8>>) -> Result<
    CallPayloadView,
    EncodingError,
> {
    if total_len(parts) > u64::MAX {
        Err(EncodingError::PayloadTooLarge)
    } else if !is_identifier(module) || !is_identifier(function) {
        Err(EncodingError::InvalidIdentifier)
    } else {
        Ok(CallPayloadView { module, function, args: parts, size: total_len(parts) })
    }
}

/// The payload for calling `function` of `module` with `params`, or the
/// reason why there is none. The arguments are looked at first, then the
/// module name, then the function name.
pub open spec fn payload_of(module: Seq<char>, function: Seq<char>, params: Seq<ArgValue>) -> Result<
    CallPayloadView,
    EncodingError,
> {
    if exists|i: int| 0 <= i < params.len() && !(#[trigger] params[i]).encodable() {
        Err(EncodingError::SequenceTooLong)
    } else {
        payload_from_parts(module, function, encodings(params))
    }
}

/// Calls `Identifier::new` of the `aptos_sdk` crate and says whether it
/// accepted the string. It refuses a string of more than 128 bytes, an
/// empty one, one whose first character is neither an ASCII letter nor an
/// underscore, and one with a character that is neither an ASCII letter or
/// digit nor an underscore. An accepted string is ASCII, so its bytes are
/// as many as its characters.
#[verifier::external_body]
fn identifier_accepts(s: &str) -> (ok: bool)
    ensures
        ok == is_identifier(s@),
{
    Identifier::new(s).is_ok()
}

/// A prefix of a list of parts has no more bytes than the whole list.
pub proof fn lemma_total_len_prefix(parts: Seq<Seq<u8>>, i: int)
    requires
        0 <= i <= parts.len(),
    ensures
        total_len(parts.take(i)) <= total_len(parts),
    decreases parts.len(),
{
    if i == parts.len() {
        assert(parts.take(i) =~= parts);
    } else {
        assert(parts.take(i) =~= parts.drop_last().take(i));
        lemma_total_len_prefix(parts.drop_last(), i);
    }
}

/// Builds the payload for calling `func` of `module` with `params`.
pub fn build_payload(module: &str, func: &str, params: &Vec<ArgValue>) -> (r: Result<
    CallPayload,
    EncodingError,
>)
    ensures
        r matches Ok(p) ==> payload_of(module@, func@, params@) == Ok::<
            CallPayloadView,
            EncodingError,
        >(p@),
        r matches Err(e) ==> payload_of(module@, func@, params@) == Err::<
            CallPayloadView,
            EncodingError,
        >(e),
{
    let ghost parts = encodings(params@);
    let mut args: Vec<Vec<u8>> = Vec::new();
    let mut i: usize = 0;
    while i < params.len()
        invariant
            i <= params.len(),
            args.len() == i,
            forall|j: int| 0 <= j < i ==> (#[trigger] params[j]).encodable(),
            forall|j: int| 0 <= j < i ==> (#[trigger] args[j])@ == params[j].encoding(),
        decreases params.len() - i,
    {
        match params[i].encode() {
            Some(bytes) => {
                args.push(bytes);
            },
            None => {
                return Err(EncodingError::SequenceTooLong);
            },
        }
        i += 1;
    }
    let mut size: u64 = 0;
    let mut k: usize = 0;
    while k < args.len()
        invariant
            k <= args.len(),
            args@.map_values(|a: Vec<u8>| a@) == parts,
            parts == encodings(params@),
            forall|j: int| 0 <= j < params.len() ==> (#[trigger] params[j]).encodable(),
            size == total_len(parts.take(k as int)),
        decreases args.len() - k,
    {
        proof {
            assert(parts.take(k + 1).drop_last() =~= parts.take(k as int));
            lemma_total_len_prefix(parts, k + 1);
        }
        match size.checked_add(args[k].len() as u64) {
            Some(sum) => {
                size = sum;
            },
            None => {
                return Err(EncodingError::PayloadTooLarge);
            },
        }
        k += 1;
    }
    assert(parts.take(args.len() as int) =~= parts);
    if !identifier_accepts(module) || !identifier_accepts(func) {
        return Err(EncodingError::InvalidIdentifier);
    }
    Ok(CallPayload { module: module.to_owned(), function: func.to_owned(), args, size })
}

/// The round trip of a numeral through the builder. Whenever `str_to_u256`
/// returns `v` for the string `s`, the payload of a call with `v` as its
/// only argument holds the 32 little-endian bytes of the number that `s`
/// denotes, and nothing else.
pub proof fn lemma_numeral_through_builder(
    module: Seq<char>,
    function: Seq<char>,
    s: Seq<char>,
    v: U256,
)
    requires
        is_identifier(module),
        is_identifier(function),
        parse_u256(s) == Ok::<nat, ParseError>(v@),
    ensures
        payload_of(module, function, seq![ArgValue::U256(v)]) == Ok::<
            CallPayloadView,
            EncodingError,
        >(
            CallPayloadView {
                module,
                function,
                args: seq![le_bytes(decimal_value(s), 32)],
                size: 32,
            },
        ),
{
    lemma_numeral_round_trip(s, v);
    let parts = encodings(seq![ArgValue::U256(v)]);
    assert(parts =~= seq![le_bytes(decimal_value(s), 32)]);
    assert(total_len(parts) == 32) by {
        reveal_with_fuel(total_len, 2);
    }
}

/// The parameters of a transaction, apart from its payload, its sender and
/// the network.
#[derive(Clone, Copy, Debug, PartialEq, Eq, Structural)]
pub struct TransactionParams {
    /// The sender's sequence number that the transaction uses up.
    pub sequence_number: u64,
    /// The time, in seconds since the epoch, after which the transaction is
    /// no longer accepted.
    pub expiration_timestamp_secs: u64,
    /// The most gas units that the transaction may consume.
    pub max_gas_amount: u64,
    /// The price offered for one gas unit.
    pub gas_unit_price: u64,
}

/// The parameters of the transaction that is built at `now_secs` seconds
/// since the epoch with the sequence number `sequence_number`.
pub fn transaction_params(sequence_number: u64, now_secs: u64) -> (p: TransactionParams)
    requires
        now_secs + EXPIRATION_HORIZON_SECS <= u64::MAX,
    ensures
        p == (TransactionParams {
            sequence_number,
            expiration_timestamp_secs: (now_secs + EXPIRATION_HORIZON_SECS) as u64,
            max_gas_amount: MAX_GAS_AMOUNT,
            gas_unit_price: GAS_UNIT_PRICE,
        }),
{
    TransactionParams {
        sequence_number,
        expiration_timestamp_secs: now_secs + EXPIRATION_HORIZON_SECS,
        max_gas_amount: MAX_GAS_AMOUNT,
        gas_unit_price: GAS_UNIT_PRICE,
    }
}

} // verus!
