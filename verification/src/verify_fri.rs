//! The workflow that verifies a FRI statement: the statement call, the
//! set-up of the FRI group, the computation of the next layer, the call of
//! the Merkle verifier, and the registration of the verified fact.

use vstd::prelude::*;
use crate::config::{StatInfo, WorkflowStat};
use crate::decimal::{parse_unsigned, str_to_u8, ParseError};
use crate::encoding::ArgValue;
use crate::payload::{build_payload, payload_of, CallPayload, CallPayloadView, EncodingError};
use crate::projection::{ComputeNextLayer, InitFriGroup, RegisterFact, VerifyMerkle};
use crate::transaction::{event_type_id, first_event_index, Transaction};
use crate::u256::{are_u256_numerals, denoted_by, parse_u256, str_to_u256, str_to_u256_list, U256};
use crate::verify_merkle::{merkle_verifier_call, merkle_verifier_payload};
use crate::workflow::{
    event_error, first_of, lemma_payload_of_encodings, scalar_call, stat_of, step_stat,
    u256_vector_arg, WorkflowError, WorkflowErrorView,
};

verus! {

/// The number of transactions of the workflow.
pub const FRI_STEPS: usize = 5;

/// How often each step of the workflow is attempted.
pub const FRI_ATTEMPTS: u8 = 5;

/// The input of the workflow as the fixture files hold it: every number is
/// a decimal numeral.
#[derive(Clone, Debug, PartialEq, Eq)]
pub struct FriVerifyInput {
    /// The proof of the layer.
    pub proof: Vec<String>,
    /// The queue of queries that the verification starts from.
    pub fri_queue: Vec<String>,
    /// The point at which the layer is evaluated.
    pub evaluation_point: String,
    /// The step size of the layer, a number below 256.
    pub fri_step_size: String,
    /// The root that the Merkle verifier has to arrive at.
    pub expected_root: String,
}

/// The input of the workflow.
#[derive(Clone, Debug, PartialEq, Eq)]
pub struct VerifyFriTransactionInput {
    /// The proof of the layer.
    pub proof: Vec<U256>,
    /// The queue of queries that the verification starts from.
    pub fri_queue: Vec<U256>,
    /// The point at which the layer is evaluated.
    pub evaluation_point: U256,
    /// The step size of the layer.
    pub fri_step_size: u8,
    /// The root that the Merkle verifier has to arrive at.
    pub expected_root: U256,
}

impl FriVerifyInput {
    /// Whether every string is the numeral of a value of its type.
    pub open spec fn is_valid(&self) -> bool {
        &&& are_u256_numerals(self.proof@)
        &&& are_u256_numerals(self.fri_queue@)
        &&& parse_u256(self.evaluation_point@) is Ok
        &&& parse_unsigned(self.fri_step_size@, u8::MAX as nat) is Ok
        &&& parse_u256(self.expected_root@) is Ok
    }
}

impl VerifyFriTransactionInput {
    /// Whether `self` holds the numbers that the strings of `input` denote.
    pub open spec fn represents(&self, input: FriVerifyInput) -> bool {
        &&& denoted_by(self.proof@, input.proof@)
        &&& denoted_by(self.fri_queue@, input.fri_queue@)
        &&& parse_u256(input.evaluation_point@) == Ok::<nat, ParseError>(self.evaluation_point@)
        &&& parse_unsigned(input.fri_step_size@, u8::MAX as nat) == Ok::<nat, ParseError>(
            self.fri_step_size as nat,
        )
        &&& parse_u256(input.expected_root@) == Ok::<nat, ParseError>(self.expected_root@)
    }

    /// Reads the input from its numerals, or fails where one of the
    /// strings is no numeral of a value of its type.
    pub fn parse(input: &FriVerifyInput) -> (r: Result<VerifyFriTransactionInput, EncodingError>)
        ensures
            r is Ok <==> input.is_valid(),
            r matches Ok(typed) ==> typed.represents(*input),
            r matches Err(e) ==> e == EncodingError::InvalidNumeric,
    {
        let proof = match str_to_u256_list(&input.proof) {
            Some(v) => v,
            None => {
                return Err(EncodingError::InvalidNumeric);
            },
        };
        let fri_queue = match str_to_u256_list(&input.fri_queue) {
            Some(v) => v,
            None => {
                return Err(EncodingError::InvalidNumeric);
            },
        };
        let evaluation_point = match str_to_u256(input.evaluation_point.as_str()) {
            Ok(v) => v,
            Err(_) => {
                return Err(EncodingError::InvalidNumeric);
            },
        };
        let fri_step_size = match str_to_u8(input.fri_step_size.as_str()) {
            Ok(v) => v,
            Err(_) => {
                return Err(EncodingError::InvalidNumeric);
            },
        };
        let expected_root = match str_to_u256(input.expected_root.as_str()) {
            Ok(v) => v,
            Err(_) => {
                return Err(EncodingError::InvalidNumeric);
            },
        };
        Ok(
            VerifyFriTransactionInput {
                proof,
                fri_queue,
                evaluation_point,
                fri_step_size,
                expected_root,
            },
        )
    }

    /// The payload of the statement call on the input, or the reason why
    /// there is none.
    pub open spec fn statement_call(&self) -> Result<CallPayloadView, EncodingError> {
        payload_of(
            "fri_statement_contract"@,
            "verify_fri"@,
            seq![
                ArgValue::U256Vector(self.proof),
                ArgValue::U256Vector(self.fri_queue),
                ArgValue::U256(self.evaluation_point),
                ArgValue::U8(self.fri_step_size),
                ArgValue::U256(self.expected_root),
            ],
        )
    }

    /// Builds the payload of the statement call, which opens the workflow.
    pub fn statement_payload(&self) -> (r: Result<CallPayload, EncodingError>)
        ensures
            r matches Ok(p) ==> self.statement_call() == Ok::<CallPayloadView, EncodingError>(p@),
            r matches Err(e) ==> self.statement_call() == Err::<CallPayloadView, EncodingError>(e),
    {
        let mut params: Vec<ArgValue> = Vec::new();
        params.push(u256_vector_arg(&self.proof));
        params.push(u256_vector_arg(&self.fri_queue));
        params.push(ArgValue::U256(self.evaluation_point));
        params.push(ArgValue::U8(self.fri_step_size));
        params.push(ArgValue::U256(self.expected_root));
        proof {
            lemma_payload_of_encodings(
                "fri_statement_contract"@,
                "verify_fri"@,
                params@,
                seq![
                    ArgValue::U256Vector(self.proof),
                    ArgValue::U256Vector(self.fri_queue),
                    ArgValue::U256(self.evaluation_point),
                    ArgValue::U8(self.fri_step_size),
                    ArgValue::U256(self.expected_root),
                ],
            );
        }
        build_payload("fri_statement_contract", "verify_fri", &params)
    }
}

/// The payload of the call that sets up the FRI group of `record`.
pub open spec fn init_fri_group_call(record: InitFriGroup) -> Result<CallPayloadView, EncodingError> {
    payload_of("fri_layer"@, "init_fri_group"@, seq![ArgValue::U64(record.fri_ctx)])
}

/// Builds the payload of the call that sets up the FRI group of `record`.
pub fn init_fri_group_payload(record: &InitFriGroup) -> (p: CallPayload)
    ensures
        init_fri_group_call(*record) == Ok::<CallPayloadView, EncodingError>(p@),
{
    proof {
        reveal_strlit("fri_layer");
        reveal_strlit("init_fri_group");
    }
    let mut params: Vec<ArgValue> = Vec::new();
    params.push(ArgValue::U64(record.fri_ctx));
    scalar_call("fri_layer", "init_fri_group", params)
}

/// The payload of the call that computes the next layer from `record`.
pub open spec fn compute_next_layer_call(record: ComputeNextLayer) -> Result<
    CallPayloadView,
    EncodingError,
> {
    payload_of(
        "fri_layer"@,
        "compute_next_layer"@,
        seq![
            ArgValue::U64(record.channel_ptr),
            ArgValue::U64(record.fri_queue_ptr),
            ArgValue::U64(record.merkle_queue_ptr),
            ArgValue::U64(record.n_queries),
            ArgValue::U256(record.evaluation_point),
            ArgValue::U64(record.fri_coset_size),
        ],
    )
}

/// Builds the payload of the call that computes the next layer from
/// `record`.
pub fn compute_next_layer_payload(record: &ComputeNextLayer) -> (p: CallPayload)
    ensures
        compute_next_layer_call(*record) == Ok::<CallPayloadView, EncodingError>(p@),
{
    proof {
        reveal_strlit("fri_layer");
        reveal_strlit("compute_next_layer");
    }
    let mut params: Vec<ArgValue> = Vec::new();
    params.push(ArgValue::U64(record.channel_ptr));
    params.push(ArgValue::U64(record.fri_queue_ptr));
    params.push(ArgValue::U64(record.merkle_queue_ptr));
    params.push(ArgValue::U64(record.n_queries));
    params.push(ArgValue::U256(record.evaluation_point));
    params.push(ArgValue::U64(record.fri_coset_size));
    assert(params@ =~= seq![
        ArgValue::U64(record.channel_ptr),
        ArgValue::U64(record.fri_queue_ptr),
        ArgValue::U64(record.merkle_queue_ptr),
        ArgValue::U64(record.n_queries),
        ArgValue::U256(record.evaluation_point),
        ArgValue::U64(record.fri_coset_size),
    ]);
    scalar_call("fri_layer", "compute_next_layer", params)
}

/// What the Merkle verifier works on after the next layer is computed: the
/// channel, the Merkle queue and the number of queries of `record`, and
/// the root `expected_root`.
pub open spec fn layer_verification(record: ComputeNextLayer, expected_root: U256) -> VerifyMerkle {
    VerifyMerkle {
        channel_ptr: record.channel_ptr,
        merkle_queue_ptr: record.merkle_queue_ptr,
        expected_root,
        n_queries: record.n_queries,
    }
}

/// The payload of the call that registers the fact of `record`.
pub open spec fn register_fact_call(record: RegisterFact) -> Result<CallPayloadView, EncodingError> {
    payload_of(
        "fri_statement_contract"@,
        "register_fact_verify_fri"@,
        seq![ArgValue::U64(record.data_to_hash_ptr), ArgValue::U64(record.queue_ptr)],
    )
}

/// Builds the payload of the call that registers the fact of `record`.
pub fn register_fact_payload(record: &RegisterFact) -> (p: CallPayload)
    ensures
        register_fact_call(*record) == Ok::<CallPayloadView, EncodingError>(p@),
{
    proof {
        reveal_strlit("fri_statement_contract");
        reveal_strlit("register_fact_verify_fri");
    }
    let mut params: Vec<ArgValue> = Vec::new();
    params.push(ArgValue::U64(record.data_to_hash_ptr));
    params.push(ArgValue::U64(record.queue_ptr));
    assert(params@ =~= seq![
        ArgValue::U64(record.data_to_hash_ptr),
        ArgValue::U64(record.queue_ptr),
    ]);
    scalar_call("fri_statement_contract", "register_fact_verify_fri", params)
}

/// The type of the event `name` of the statement contract at `address`.
pub open spec fn statement_event(address: Seq<char>, name: Seq<char>) -> Seq<char> {
    address + "::"@ + "fri_statement_contract"@ + "::"@ + name
}

/// Why the statement call that was confirmed as `tx` does not lead on to
/// the later steps, if anything stands in the way: `tx` has no summary, or
/// it lacks one of the three events, or one of them does not hold its
/// record. The events are looked at in the order of the steps that they
/// serve.
pub open spec fn statement_error(tx: Transaction, address: Seq<char>) -> Option<WorkflowErrorView> {
    if tx.info() is None {
        Some(WorkflowErrorView::MissingTransactionInfo)
    } else {
        first_of(
            event_error(
                tx.events(),
                statement_event(address, "InitFriGroup"@),
                InitFriGroup::fields(),
            ),
            first_of(
                event_error(
                    tx.events(),
                    statement_event(address, "ComputeNextLayer"@),
                    ComputeNextLayer::fields(),
                ),
                event_error(
                    tx.events(),
                    statement_event(address, "RegisterFactVerifyFri"@),
                    RegisterFact::fields(),
                ),
            ),
        )
    }
}

/// How far the workflow has come.
#[derive(Clone, Debug, PartialEq, Eq)]
pub struct FriVerification {
    /// The root that the Merkle verifier has to arrive at.
    pub expected_root: U256,
    /// One entry for each confirmed step, in the order of the steps.
    pub stats: Vec<StatInfo>,
    /// What the statement call reported for the set-up of the FRI group.
    pub init: Option<InitFriGroup>,
    /// What the statement call reported for the computation of the layer.
    pub compute: Option<ComputeNextLayer>,
    /// What the statement call reported for the registration of the fact.
    pub register: Option<RegisterFact>,
}

impl FriVerification {
    /// Whether every step is confirmed.
    pub open spec fn is_done(&self) -> bool {
        self.stats@.len() >= FRI_STEPS
    }

    /// Whether the record for the call that follows the step that is due
    /// is missing: the layer for the second and the third step, the fact
    /// for the fourth.
    pub open spec fn lacks_record(&self) -> bool {
        let step = self.stats@.len();
        ((step == 1 || step == 2) && self.compute is None) || (step == 3 && self.register is None)
    }

    /// Why the step that is due and was confirmed as `tx` does not lead
    /// on, if anything stands in the way. For the statement call that is
    /// what `statement_error` says. For a later step, `tx` has no summary,
    /// or the record for the next call is not there, as it is after every
    /// statement call that this workflow has taken note of.
    pub open spec fn error_on(&self, tx: Transaction, address: Seq<char>) -> Option<
        WorkflowErrorView,
    > {
        if self.is_done() {
            None
        } else if self.stats@.len() == 0 {
            statement_error(tx, address)
        } else if tx.info() is None {
            Some(WorkflowErrorView::MissingTransactionInfo)
        } else if self.lacks_record() {
            Some(WorkflowErrorView::WorkflowPrecondition)
        } else {
            None
        }
    }

    /// Whether `self` holds the records that the workflow holds after it
    /// was in the state `before` and has taken note of `tx`: those that
    /// the events of the statement call hold, and from then on the same.
    pub open spec fn keeps_records(
        &self,
        before: FriVerification,
        tx: Transaction,
        address: Seq<char>,
    ) -> bool {
        let events = tx.events();
        if before.stats@.len() == 0 {
            &&& self.init matches Some(record) && record.read_from(
                events[first_event_index(events, statement_event(address, "InitFriGroup"@))],
            )
            &&& self.compute matches Some(record) && record.read_from(
                events[first_event_index(events, statement_event(address, "ComputeNextLayer"@))],
            )
            &&& self.register matches Some(record) && record.read_from(
                events[first_event_index(
                    events,
                    statement_event(address, "RegisterFactVerifyFri"@),
                )],
            )
        } else {
            self.init == before.init && self.compute == before.compute && self.register
                == before.register
        }
    }

    /// Whether `next` is what the workflow submits in this state: after
    /// the statement call the set-up of the FRI group, then the
    /// computation of the layer, then the call of the Merkle verifier,
    /// then the registration of the fact, then nothing.
    pub open spec fn submits(&self, next: Option<CallPayload>) -> bool {
        if self.stats@.len() == 1 {
            next matches Some(p) && init_fri_group_call(self.init->0) == Ok::<
                CallPayloadView,
                EncodingError,
            >(p@)
        } else if self.stats@.len() == 2 {
            next matches Some(p) && compute_next_layer_call(self.compute->0) == Ok::<
                CallPayloadView,
                EncodingError,
            >(p@)
        } else if self.stats@.len() == 3 {
            next matches Some(p) && merkle_verifier_call(
                layer_verification(self.compute->0, self.expected_root),
            ) == Ok::<CallPayloadView, EncodingError>(p@)
        } else if self.stats@.len() == 4 {
            next matches Some(p) && register_fact_call(self.register->0) == Ok::<
                CallPayloadView,
                EncodingError,
            >(p@)
        } else {
            next is None
        }
    }

    /// A workflow on `input` of which no step is confirmed.
    pub fn new(input: &VerifyFriTransactionInput) -> (s: FriVerification)
        ensures
            s.expected_root == input.expected_root,
            s.stats@ == Seq::<StatInfo>::empty(),
            s.init is None,
            s.compute is None,
            s.register is None,
    {
        FriVerification {
            expected_root: input.expected_root,
            stats: Vec::new(),
            init: None,
            compute: None,
            register: None,
        }
    }

    /// Builds the payload of the call that follows the step that is due,
    /// from the records of the statement call, or returns `None` where the
    /// record for it is missing.
    fn following_payload(&self) -> (r: Option<Option<CallPayload>>)
        requires
            0 < self.stats@.len() < FRI_STEPS,
        ensures
            r is None <==> self.lacks_record(),
            r matches Some(next) ==> (if self.stats@.len() == 1 {
                next matches Some(p) && compute_next_layer_call(self.compute->0) == Ok::<
                    CallPayloadView,
                    EncodingError,
                >(p@)
            } else if self.stats@.len() == 2 {
                next matches Some(p) && merkle_verifier_call(
                    layer_verification(self.compute->0, self.expected_root),
                ) == Ok::<CallPayloadView, EncodingError>(p@)
            } else if self.stats@.len() == 3 {
                next matches Some(p) && register_fact_call(self.register->0) == Ok::<
                    CallPayloadView,
                    EncodingError,
                >(p@)
            } else {
                next is None
            }),
    {
        let step = self.stats.len();
        if step == 1 {
            match &self.compute {
                Some(record) => Some(Some(compute_next_layer_payload(record))),
                None => None,
            }
        } else if step == 2 {
            match &self.compute {
                Some(record) => {
                    let verify = VerifyMerkle {
                        channel_ptr: record.channel_ptr,
                        merkle_queue_ptr: record.merkle_queue_ptr,
                        expected_root: self.expected_root,
                        n_queries: record.n_queries,
                    };
                    Some(Some(merkle_verifier_payload(&verify)))
                },
                None => None,
            }
        } else if step == 3 {
            match &self.register {
                Some(record) => Some(Some(register_fact_payload(record))),
                None => None,
            }
        } else {
            Some(None)
        }
    }

    /// Takes note that the step that is due has been confirmed: `payload`
    /// was submitted, the ledger returned `tx`, and the step took `elapsed`
    /// microseconds. Returns the payload of the next step, or `None` after
    /// the last one. The contracts are published at `address`. On an error
    /// nothing is recorded, and nothing either once every step is
    /// confirmed.
    pub fn on_confirmed(
        &mut self,
        payload: &CallPayload,
        tx: &Transaction,
        address: &str,
        elapsed: u64,
    ) -> (r: Result<Option<CallPayload>, WorkflowError>)
        ensures
            final(self).expected_root == old(self).expected_root,
            r matches Err(e) ==> old(self).error_on(*tx, address@) == Some(e@),
            r is Ok ==> old(self).error_on(*tx, address@) is None,
            r is Err || old(self).is_done() ==> *final(self) == *old(self),
            r is Ok && !old(self).is_done() ==> final(self).stats@ == old(self).stats@.push(
                stat_of(payload@, tx.gas_used(), elapsed),
            ) && final(self).keeps_records(*old(self), *tx, address@),
            r matches Ok(next) ==> final(self).submits(next),
    {
        if self.stats.len() >= FRI_STEPS {
            return Ok(None);
        }
        let info = match tx.transaction_info() {
            Ok(info) => info,
            Err(_) => {
                return Err(WorkflowError::MissingTransactionInfo);
            },
        };
        let stat = step_stat(payload, info, elapsed);
        if self.stats.len() == 0 {
            let init_type = event_type_id(address, "fri_statement_contract", "InitFriGroup");
            let init = InitFriGroup::reported_by(tx, init_type.as_str())?;
            let compute_type = event_type_id(address, "fri_statement_contract", "ComputeNextLayer");
            let compute = ComputeNextLayer::reported_by(tx, compute_type.as_str())?;
            let register_type = event_type_id(
                address,
                "fri_statement_contract",
                "RegisterFactVerifyFri",
            );
            let register = RegisterFact::reported_by(tx, register_type.as_str())?;
            self.init = Some(init);
            self.compute = Some(compute);
            self.register = Some(register);
            self.stats.push(stat);
            return Ok(Some(init_fri_group_payload(&init)));
        }
        let next = match self.following_payload() {
            Some(next) => next,
            None => {
                return Err(WorkflowError::WorkflowPrecondition);
            },
        };
        self.stats.push(stat);
        Ok(next)
    }

    /// The statistics of the workflow, once exactly its five steps are
    /// confirmed.
    pub fn finish(self) -> (r: Option<WorkflowStat>)
        ensures
            r is Some <==> self.stats@.len() == FRI_STEPS,
            r matches Some(stat) ==> stat.steps@ == self.stats@,
    {
        if self.stats.len() == FRI_STEPS {
            Some(WorkflowStat { steps: self.stats })
        } else {
            None
        }
    }
}

} // verus!
