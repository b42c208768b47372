//! The workflow that verifies a Merkle statement: the statement call, the
//! call of the Merkle verifier on what the statement call reported, and
//! the registration of the verified fact.

use vstd::prelude::*;
use crate::config::{StatInfo, WorkflowStat};
use crate::decimal::{parse_unsigned, str_to_u8, ParseError};
use crate::encoding::ArgValue;
use crate::payload::{build_payload, payload_of, CallPayload, CallPayloadView, EncodingError};
use crate::projection::{RegisterFact, VerifyMerkle};
use crate::transaction::{event_type_id, first_event_index, Transaction};
use crate::u256::{are_u256_numerals, denoted_by, parse_u256, str_to_u256, str_to_u256_list, U256};
use crate::workflow::{
    event_error, first_of, lemma_payload_of_encodings, scalar_call, stat_of, step_stat,
    u256_vector_arg, WorkflowError, WorkflowErrorView,
};

verus! {

/// The number of transactions of the workflow.
pub const MERKLE_STEPS: usize = 3;

/// How often each step of the workflow is attempted.
pub const MERKLE_ATTEMPTS: u8 = 1;

/// The input of the workflow as the fixture files hold it: every number is
/// a decimal numeral.
#[derive(Clone, Debug, PartialEq, Eq)]
pub struct MerkleVerifyInput {
    /// The nodes of the Merkle tree that the statement reveals.
    pub merkle_view: Vec<String>,
    /// The queue of queries that the verification starts from.
    pub initial_merkle_queue: Vec<String>,
    /// The height of the tree, a number below 256.
    pub height: String,
    /// The root that the verification has to arrive at.
    pub expected_root: String,
}

/// The input of the workflow.
#[derive(Clone, Debug, PartialEq, Eq)]
pub struct VerifyMerkleTransactionInput {
    /// The nodes of the Merkle tree that the statement reveals.
    pub merkle_view: Vec<U256>,
    /// The queue of queries that the verification starts from.
    pub initial_merkle_queue: Vec<U256>,
    /// The height of the tree.
    pub height: u8,
    /// The root that the verification has to arrive at.
    pub expected_root: U256,
}

impl MerkleVerifyInput {
    /// Whether every string is the numeral of a value of its type.
    pub open spec fn is_valid(&self) -> bool {
        &&& are_u256_numerals(self.merkle_view@)
        &&& are_u256_numerals(self.initial_merkle_queue@)
        &&& parse_unsigned(self.height@, u8::MAX as nat) is Ok
        &&& parse_u256(self.expected_root@) is Ok
    }
}

impl VerifyMerkleTransactionInput {
    /// Whether `self` holds the numbers that the strings of `input` denote.
    pub open spec fn represents(&self, input: MerkleVerifyInput) -> bool {
        &&& denoted_by(self.merkle_view@, input.merkle_view@)
        &&& denoted_by(self.initial_merkle_queue@, input.initial_merkle_queue@)
        &&& parse_unsigned(input.height@, u8::MAX as nat) == Ok::<nat, ParseError>(
            self.height as nat,
        )
        &&& parse_u256(input.expected_root@) == Ok::<nat, ParseError>(self.expected_root@)
    }

    /// Reads the input from its numerals, or fails where one of the
    /// strings is no numeral of a value of its type.
    pub fn parse(input: &MerkleVerifyInput) -> (r: Result<
        VerifyMerkleTransactionInput,
        EncodingError,
    >)
        ensures
            r is Ok <==> input.is_valid(),
            r matches Ok(typed) ==> typed.represents(*input),
            r matches Err(e) ==> e == EncodingError::InvalidNumeric,
    {
        let merkle_view = match str_to_u256_list(&input.merkle_view) {
            Some(v) => v,
            None => {
                return Err(EncodingError::InvalidNumeric);
            },
        };
        let initial_merkle_queue = match str_to_u256_list(&input.initial_merkle_queue) {
            Some(v) => v,
            None => {
                return Err(EncodingError::InvalidNumeric);
            },
        };
        let height = match str_to_u8(input.height.as_str()) {
            Ok(v) => v,
            Err(_) => {
                return Err(EncodingError::InvalidNumeric);
            },
        };
        let expected_root = match str_to_u256(input.expected_root.as_str()) {
            Ok(v) => v,
            Err(_) => {
                return Err(EncodingError::InvalidNumeric);
            },
        };
        Ok(VerifyMerkleTransactionInput { merkle_view, initial_merkle_queue, height, expected_root })
    }

    /// The payload of the statement call on the input, or the reason why
    /// there is none.
    pub open spec fn statement_call(&self) -> Result<CallPayloadView, EncodingError> {
        payload_of(
            "merkle_statement_contract"@,
            "verify_merkle"@,
            seq![
                ArgValue::U256Vector(self.merkle_view),
                ArgValue::U256Vector(self.initial_merkle_queue),
                ArgValue::U8(self.height),
                ArgValue::U256(self.expected_root),
            ],
        )
    }

    /// Builds the payload of the statement call, which opens the workflow.
    pub fn statement_payload(&self) -> (r: Result<CallPayload, EncodingError>)
        ensures
            r matches Ok(p) ==> self.statement_call() == Ok::<CallPayloadView, EncodingError>(p@),
            r matches Err(e) ==> self.statement_call() == Err::<CallPayloadView, EncodingError>(e),
    {
        let mut params: Vec<ArgValue> = Vec::new();
        params.push(u256_vector_arg(&self.merkle_view));
        params.push(u256_vector_arg(&self.initial_merkle_queue));
        params.push(ArgValue::U8(self.height));
        params.push(ArgValue::U256(self.expected_root));
        proof {
            lemma_payload_of_encodings(
                "merkle_statement_contract"@,
                "verify_merkle"@,
                params@,
                seq![
                    ArgValue::U256Vector(self.merkle_view),
                    ArgValue::U256Vector(self.initial_merkle_queue),
                    ArgValue::U8(self.height),
                    ArgValue::U256(self.expected_root),
                ],
            );
        }
        build_payload("merkle_statement_contract", "verify_merkle", &params)
    }
}

/// The payload of the call of the Merkle verifier on `record`.
pub open spec fn merkle_verifier_call(record: VerifyMerkle) -> Result<
    CallPayloadView,
    EncodingError,
> {
    payload_of(
        "merkle_verifier"@,
        "verify_merkle"@,
        seq![
            ArgValue::U64(record.channel_ptr),
            ArgValue::U64(record.merkle_queue_ptr),
            ArgValue::U256(record.expected_root),
            ArgValue::U64(record.n_queries),
        ],
    )
}

/// Builds the payload of the call of the Merkle verifier on `record`.
pub fn merkle_verifier_payload(record: &VerifyMerkle) -> (p: CallPayload)
    ensures
        merkle_verifier_call(*record) == Ok::<CallPayloadView, EncodingError>(p@),
{
    proof {
        reveal_strlit("merkle_verifier");
        reveal_strlit("verify_merkle");
    }
    let mut params: Vec<ArgValue> = Vec::new();
    params.push(ArgValue::U64(record.channel_ptr));
    params.push(ArgValue::U64(record.merkle_queue_ptr));
    params.push(ArgValue::U256(record.expected_root));
    params.push(ArgValue::U64(record.n_queries));
    assert(params@ =~= seq![
        ArgValue::U64(record.channel_ptr),
        ArgValue::U64(record.merkle_queue_ptr),
        ArgValue::U256(record.expected_root),
        ArgValue::U64(record.n_queries),
    ]);
    scalar_call("merkle_verifier", "verify_merkle", params)
}

/// The payload of the call that registers the fact of `record`.
pub open spec fn register_fact_call(record: RegisterFact) -> Result<CallPayloadView, EncodingError> {
    payload_of(
        "merkle_statement_contract"@,
        "register_fact_verify_merkle"@,
        seq![ArgValue::U64(record.data_to_hash_ptr), ArgValue::U64(record.queue_ptr)],
    )
}

/// Builds the payload of the call that registers the fact of `record`.
pub fn register_fact_payload(record: &RegisterFact) -> (p: CallPayload)
    ensures
        register_fact_call(*record) == Ok::<CallPayloadView, EncodingError>(p@),
{
    proof {
        reveal_strlit("merkle_statement_contract");
        reveal_strlit("register_fact_verify_merkle");
    }
    let mut params: Vec<ArgValue> = Vec::new();
    params.push(ArgValue::U64(record.data_to_hash_ptr));
    params.push(ArgValue::U64(record.queue_ptr));
    assert(params@ =~= seq![
        ArgValue::U64(record.data_to_hash_ptr),
        ArgValue::U64(record.queue_ptr),
    ]);
    scalar_call("merkle_statement_contract", "register_fact_verify_merkle", params)
}

/// The type of the event `name` of the statement contract at `address`.
pub open spec fn statement_event(address: Seq<char>, name: Seq<char>) -> Seq<char> {
    address + "::"@ + "merkle_statement_contract"@ + "::"@ + name
}

/// Why the statement call that was confirmed as `tx` does not lead on to
/// the call of the Merkle verifier, if anything stands in the way: `tx`
/// has no summary, or it lacks one of the two events, or one of them does
/// not hold its record. The event for the verifier is looked at first.
pub open spec fn statement_error(tx: Transaction, address: Seq<char>) -> Option<WorkflowErrorView> {
    if tx.info() is None {
        Some(WorkflowErrorView::MissingTransactionInfo)
    } else {
        first_of(
            event_error(
                tx.events(),
                statement_event(address, "VerifyMerkle"@),
                VerifyMerkle::fields(),
            ),
            event_error(
                tx.events(),
                statement_event(address, "RegisterFactVerifyMerkle"@),
                RegisterFact::fields(),
            ),
        )
    }
}

/// How far the workflow has come.
#[derive(Clone, Debug, PartialEq, Eq)]
pub struct MerkleVerification {
    /// One entry for each confirmed step, in the order of the steps.
    pub stats: Vec<StatInfo>,
    /// What the statement call reported for the Merkle verifier.
    pub verify: Option<VerifyMerkle>,
    /// What the statement call reported for the registration of the fact.
    pub register: Option<RegisterFact>,
}

impl MerkleVerification {
    /// Whether every step is confirmed.
    pub open spec fn is_done(&self) -> bool {
        self.stats@.len() >= MERKLE_STEPS
    }

    /// Why the step that is due and was confirmed as `tx` does not lead
    /// on, if anything stands in the way. For the statement call that is
    /// what `statement_error` says. For a later step, `tx` has no summary,
    /// or the record for the next call is not there, as it is after every
    /// statement call that this workflow has taken note of.
    pub open spec fn error_on(&self, tx: Transaction, address: Seq<char>) -> Option<
        WorkflowErrorView,
    > {
        if self.is_done() {
            None
        } else if self.stats@.len() == 0 {
            statement_error(tx, address)
        } else if tx.info() is None {
            Some(WorkflowErrorView::MissingTransactionInfo)
        } else if self.stats@.len() == 1 && self.register is None {
            Some(WorkflowErrorView::WorkflowPrecondition)
        } else {
            None
        }
    }

    /// Whether `self` holds the records that the workflow holds after it
    /// was in the state `before` and has taken note of `tx`: those that
    /// the events of the statement call hold, and from then on the same.
    pub open spec fn keeps_records(
        &self,
        before: MerkleVerification,
        tx: Transaction,
        address: Seq<char>,
    ) -> bool {
        let events = tx.events();
        if before.stats@.len() == 0 {
            &&& self.verify matches Some(record) && record.read_from(
                events[first_event_index(events, statement_event(address, "VerifyMerkle"@))],
            )
            &&& self.register matches Some(record) && record.read_from(
                events[first_event_index(
                    events,
                    statement_event(address, "RegisterFactVerifyMerkle"@),
                )],
            )
        } else {
            self.verify == before.verify && self.register == before.register
        }
    }

    /// Whether `next` is what the workflow submits in this state: after
    /// the statement call the call of the Merkle verifier, then the
    /// registration of the fact, then nothing.
    pub open spec fn submits(&self, next: Option<CallPayload>) -> bool {
        if self.stats@.len() == 1 {
            next matches Some(p) && merkle_verifier_call(self.verify->0) == Ok::<
                CallPayloadView,
                EncodingError,
            >(p@)
        } else if self.stats@.len() == 2 {
            next matches Some(p) && register_fact_call(self.register->0) == Ok::<
                CallPayloadView,
                EncodingError,
            >(p@)
        } else {
            next is None
        }
    }

    /// A workflow of which no step is confirmed.
    pub fn new() -> (s: MerkleVerification)
        ensures
            s.stats@ == Seq::<StatInfo>::empty(),
            s.verify is None,
            s.register is None,
    {
        MerkleVerification { stats: Vec::new(), verify: None, register: None }
    }

    /// Takes note that the step that is due has been confirmed: `payload`
    /// was submitted, the ledger returned `tx`, and the step took `elapsed`
    /// microseconds. Returns the payload of the next step, or `None` after
    /// the last one. The contracts are published at `address`. On an error
    /// nothing is recorded, and nothing either once every step is
    /// confirmed.
    pub fn on_confirmed(
        &mut self,
        payload: &CallPayload,
        tx: &Transaction,
        address: &str,
        elapsed: u64,
    ) -> (r: Result<Option<CallPayload>, WorkflowError>)
        ensures
            r matches Err(e) ==> old(self).error_on(*tx, address@) == Some(e@),
            r is Ok ==> old(self).error_on(*tx, address@) is None,
            r is Err || old(self).is_done() ==> *final(self) == *old(self),
            r is Ok && !old(self).is_done() ==> final(self).stats@ == old(self).stats@.push(
                stat_of(payload@, tx.gas_used(), elapsed),
            ) && final(self).keeps_records(*old(self), *tx, address@),
            r matches Ok(next) ==> final(self).submits(next),
    {
        if self.stats.len() >= MERKLE_STEPS {
            return Ok(None);
        }
        let info = match tx.transaction_info() {
            Ok(info) => info,
            Err(_) => {
                return Err(WorkflowError::MissingTransactionInfo);
            },
        };
        let stat = step_stat(payload, info, elapsed);
        if self.stats.len() == 0 {
            let verify_type = event_type_id(address, "merkle_statement_contract", "VerifyMerkle");
            let verify = VerifyMerkle::reported_by(tx, verify_type.as_str())?;
            let register_type = event_type_id(
                address,
                "merkle_statement_contract",
                "RegisterFactVerifyMerkle",
            );
            let register = RegisterFact::reported_by(tx, register_type.as_str())?;
            self.verify = Some(verify);
            self.register = Some(register);
            self.stats.push(stat);
            Ok(Some(merkle_verifier_payload(&verify)))
        } else if self.stats.len() == 1 {
            let next = match &self.register {
                Some(record) => register_fact_payload(record),
                None => {
                    return Err(WorkflowError::WorkflowPrecondition);
                },
            };
            self.stats.push(stat);
            Ok(Some(next))
        } else {
            self.stats.push(stat);
            Ok(None)
        }
    }

    /// The statistics of the workflow, once exactly its three steps are
    /// confirmed.
    pub fn finish(self) -> (r: Option<WorkflowStat>)
        ensures
            r is Some <==> self.stats@.len() == MERKLE_STEPS,
            r matches Some(stat) ==> stat.steps@ == self.stats@,
    {
        if self.stats.len() == MERKLE_STEPS {
            Some(WorkflowStat { steps: self.stats })
        } else {
            None
        }
    }
}

} // verus!
