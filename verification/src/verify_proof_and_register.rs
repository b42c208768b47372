//! The workflow that verifies a proof and registers its facts: two steps
//! that send data ahead, nine steps that advance the verification, and one
//! that resets the data.
//!
//! [`VparProgress`] decides what is submitted next and what a confirmed
//! transaction means. Submitting and waiting is left to the caller.

use vstd::prelude::*;
use crate::config::{StatInfo, VparStat};
use crate::decimal::ParseError;
use crate::encoding::ArgValue;
use crate::payload::{build_payload, payload_of, CallPayload, CallPayloadView, EncodingError};
use crate::transaction::{
    event_type_id, get_event_from_transaction, has_event, Transaction,
};
use crate::u256::{
    are_u256_numerals, denoted_by, parse_u256, str_to_u256, str_to_u256_list, U256,
};
use crate::workflow::{
    lemma_payload_of_encodings, scalar_call, stat_of, step_stat, u256_vector_arg, WorkflowError,
    WorkflowErrorView,
};

verus! {

/// The number of steps that send data ahead.
pub const PREPUSH_STEPS: usize = 2;

/// The number of steps that advance the verification.
pub const ADVANCE_STEPS: usize = 9;

/// The number of steps of the whole workflow: those that send data ahead,
/// those that advance the verification, and the one that resets the data.
pub const TOTAL_STEPS: usize = 12;

/// The place of the last step that advances the verification, counted
/// from 0.
pub const LAST_ADVANCE_STEP: usize = 10;

/// How often each step of the workflow is attempted.
pub const STEP_ATTEMPTS: u8 = 5;

/// The input of the workflow as the fixture files hold it: every number is
/// a decimal numeral.
#[derive(Clone, Debug, PartialEq, Eq)]
pub struct VerifyProofAndRegisterDataJson {
    /// The parameters of the proof.
    pub proof_params: Vec<String>,
    /// The proof.
    pub proof: Vec<String>,
    /// The metadata of the tasks that the proof covers.
    pub task_metadata: Vec<String>,
    /// The auxiliary input of the Cairo program.
    pub cairo_aux_input: Vec<String>,
    /// The number of the Cairo verifier.
    pub cairo_verifier_id: String,
    /// The facts that are registered already, if the fixture names any.
    /// The workflow does not pass them on.
    pub pre_registered_facts: Option<Vec<String>>,
}

/// The input of the workflow.
#[derive(Clone, Debug, PartialEq, Eq)]
pub struct VerifyProofAndRegisterData {
    /// The parameters of the proof.
    pub proof_params: Vec<U256>,
    /// The proof.
    pub proof: Vec<U256>,
    /// The metadata of the tasks that the proof covers.
    pub task_metadata: Vec<U256>,
    /// The auxiliary input of the Cairo program.
    pub cairo_aux_input: Vec<U256>,
    /// The number of the Cairo verifier.
    pub cairo_verifier_id: U256,
    /// The facts that are registered already, if the fixture names any.
    /// The workflow does not pass them on.
    pub pre_registered_facts: Option<Vec<U256>>,
}

impl VerifyProofAndRegisterDataJson {
    /// Whether every string is the numeral of a 256-bit unsigned integer.
    pub open spec fn is_valid(&self) -> bool {
        &&& are_u256_numerals(self.proof_params@)
        &&& are_u256_numerals(self.proof@)
        &&& are_u256_numerals(self.task_metadata@)
        &&& are_u256_numerals(self.cairo_aux_input@)
        &&& parse_u256(self.cairo_verifier_id@) is Ok
        &&& self.pre_registered_facts matches Some(facts) ==> are_u256_numerals(facts@)
    }
}

impl VerifyProofAndRegisterData {
    /// Whether `self` holds the numbers that the strings of `json` denote.
    pub open spec fn represents(&self, json: VerifyProofAndRegisterDataJson) -> bool {
        &&& denoted_by(self.proof_params@, json.proof_params@)
        &&& denoted_by(self.proof@, json.proof@)
        &&& denoted_by(self.task_metadata@, json.task_metadata@)
        &&& denoted_by(self.cairo_aux_input@, json.cairo_aux_input@)
        &&& parse_u256(json.cairo_verifier_id@) == Ok::<nat, ParseError>(self.cairo_verifier_id@)
        &&& match (self.pre_registered_facts, json.pre_registered_facts) {
            (Some(facts), Some(strings)) => denoted_by(facts@, strings@),
            (None, None) => true,
            _ => false,
        }
    }

    /// Reads the input from its numerals, or fails where one of the
    /// strings is no numeral of a 256-bit unsigned integer.
    pub fn parse(value: &VerifyProofAndRegisterDataJson) -> (r: Result<
        VerifyProofAndRegisterData,
        EncodingError,
    >)
        ensures
            r is Ok <==> value.is_valid(),
            r matches Ok(data) ==> data.represents(*value),
            r matches Err(e) ==> e == EncodingError::InvalidNumeric,
    {
        let proof_params = match str_to_u256_list(&value.proof_params) {
            Some(v) => v,
            None => {
                return Err(EncodingError::InvalidNumeric);
            },
        };
        let proof = match str_to_u256_list(&value.proof) {
            Some(v) => v,
            None => {
                return Err(EncodingError::InvalidNumeric);
            },
        };
        let task_metadata = match str_to_u256_list(&value.task_metadata) {
            Some(v) => v,
            None => {
                return Err(EncodingError::InvalidNumeric);
            },
        };
        let cairo_aux_input = match str_to_u256_list(&value.cairo_aux_input) {
            Some(v) => v,
            None => {
                return Err(EncodingError::InvalidNumeric);
            },
        };
        let cairo_verifier_id = match str_to_u256(value.cairo_verifier_id.as_str()) {
            Ok(v) => v,
            Err(_) => {
                return Err(EncodingError::InvalidNumeric);
            },
        };
        let pre_registered_facts = match &value.pre_registered_facts {
            None => None,
            Some(strings) => match str_to_u256_list(strings) {
                Some(v) => Some(v),
                None => {
                    return Err(EncodingError::InvalidNumeric);
                },
            },
        };
        Ok(
            VerifyProofAndRegisterData {
                proof_params,
                proof,
                task_metadata,
                cairo_aux_input,
                cairo_verifier_id,
                pre_registered_facts,
            },
        )
    }

    /// Reads the input from numerals that are known to be valid.
    pub fn from(value: VerifyProofAndRegisterDataJson) -> (data: VerifyProofAndRegisterData)
        requires
            value.is_valid(),
        ensures
            data.represents(value),
    {
        match VerifyProofAndRegisterData::parse(&value) {
            Ok(data) => data,
            Err(_) => vstd::pervasive::unreached(),
        }
    }
}

/// The payload of step `step` of the workflow on `data`, counted from 0, or
/// the reason why it has none.
pub open spec fn vpar_call(data: VerifyProofAndRegisterData, step: nat) -> Result<
    CallPayloadView,
    EncodingError,
> {
    if step == 0 {
        payload_of(
            "gps_statement_verifier"@,
            "prepush_task_metadata"@,
            seq![ArgValue::U256Vector(data.task_metadata)],
        )
    } else if step == 1 {
        payload_of(
            "gps_statement_verifier"@,
            "prepush_data_to_verify_proof_and_register"@,
            seq![
                ArgValue::U256Vector(data.proof_params),
                ArgValue::U256Vector(data.proof),
                ArgValue::U256Vector(data.cairo_aux_input),
                ArgValue::U256(data.cairo_verifier_id),
            ],
        )
    } else if step <= LAST_ADVANCE_STEP {
        payload_of("gps_statement_verifier"@, "verify_proof_and_register"@, Seq::empty())
    } else {
        payload_of("gps_statement_verifier"@, "reset_data"@, Seq::empty())
    }
}

/// The statistics after one more step: `stats` together with those of the
/// step that submitted `payload`, was confirmed as `tx` and took `elapsed`
/// microseconds. The step fails where `tx` has no summary, and the last
/// step that advances the verification fails where `tx` did not emit the
/// event `finished_event`. Once every step is confirmed nothing more is
/// recorded.
pub open spec fn vpar_step(
    stats: Seq<StatInfo>,
    payload: CallPayloadView,
    tx: Transaction,
    finished_event: Seq<char>,
    elapsed: u64,
) -> Result<Seq<StatInfo>, WorkflowErrorView> {
    if stats.len() >= TOTAL_STEPS {
        Ok(stats)
    } else {
        match tx.info() {
            None => Err(WorkflowErrorView::MissingTransactionInfo),
            Some(info) => if stats.len() == LAST_ADVANCE_STEP && !has_event(
                tx.events(),
                finished_event,
            ) {
                Err(WorkflowErrorView::WorkflowPrecondition)
            } else {
                Ok(stats.push(stat_of(payload, info.gas_used, elapsed)))
            },
        }
    }
}

/// The type of the event that reports the end of the verification by the
/// contracts at `address`.
pub fn vpar_finished_event(address: &str) -> (r: String)
    ensures
        r@ == address@ + "::"@ + "gps_statement_verifier"@ + "::"@ + "VparFinished"@,
{
    event_type_id(address, "gps_statement_verifier", "VparFinished")
}

/// How far the workflow has come: the statistics of the steps that are
/// confirmed, in the order of the steps.
#[derive(Clone, Debug, PartialEq, Eq)]
pub struct VparProgress {
    /// One entry for each confirmed step.
    pub stats: Vec<StatInfo>,
}

impl VparProgress {
    /// A workflow of which no step is confirmed.
    pub fn new() -> (p: VparProgress)
        ensures
            p.stats@ == Seq::<StatInfo>::empty(),
    {
        VparProgress { stats: Vec::new() }
    }

    /// Whether every step is confirmed.
    pub fn is_done(&self) -> (done: bool)
        ensures
            done == (self.stats@.len() >= TOTAL_STEPS),
    {
        self.stats.len() >= TOTAL_STEPS
    }

    /// Builds the payload of the step that is due, or returns `None` where
    /// every step is confirmed.
    pub fn next_payload(&self, data: &VerifyProofAndRegisterData) -> (r: Result<
        Option<CallPayload>,
        EncodingError,
    >)
        ensures
            r matches Ok(None) <==> self.stats@.len() >= TOTAL_STEPS,
            r matches Ok(Some(p)) ==> vpar_call(*data, self.stats@.len()) == Ok::<
                CallPayloadView,
                EncodingError,
            >(p@),
            r matches Err(e) ==> vpar_call(*data, self.stats@.len()) == Err::<
                CallPayloadView,
                EncodingError,
            >(e),
    {
        let step = self.stats.len();
        if step >= TOTAL_STEPS {
            return Ok(None);
        }
        proof {
            reveal_strlit("gps_statement_verifier");
            reveal_strlit("verify_proof_and_register");
            reveal_strlit("reset_data");
        }
        if step == 0 {
            let mut params: Vec<ArgValue> = Vec::new();
            params.push(u256_vector_arg(&data.task_metadata));
            proof {
                lemma_payload_of_encodings(
                    "gps_statement_verifier"@,
                    "prepush_task_metadata"@,
                    params@,
                    seq![ArgValue::U256Vector(data.task_metadata)],
                );
            }
            match build_payload("gps_statement_verifier", "prepush_task_metadata", &params) {
                Ok(p) => Ok(Some(p)),
                Err(e) => Err(e),
            }
        } else if step == 1 {
            let mut params: Vec<ArgValue> = Vec::new();
            params.push(u256_vector_arg(&data.proof_params));
            params.push(u256_vector_arg(&data.proof));
            params.push(u256_vector_arg(&data.cairo_aux_input));
            params.push(ArgValue::U256(data.cairo_verifier_id));
            proof {
                lemma_payload_of_encodings(
                    "gps_statement_verifier"@,
                    "prepush_data_to_verify_proof_and_register"@,
                    params@,
                    seq![
                        ArgValue::U256Vector(data.proof_params),
                        ArgValue::U256Vector(data.proof),
                        ArgValue::U256Vector(data.cairo_aux_input),
                        ArgValue::U256(data.cairo_verifier_id),
                    ],
                );
            }
            match build_payload(
                "gps_statement_verifier",
                "prepush_data_to_verify_proof_and_register",
                &params,
            ) {
                Ok(p) => Ok(Some(p)),
                Err(e) => Err(e),
            }
        } else if step <= LAST_ADVANCE_STEP {
            let params: Vec<ArgValue> = Vec::new();
            Ok(Some(scalar_call("gps_statement_verifier", "verify_proof_and_register", params)))
        } else {
            let params: Vec<ArgValue> = Vec::new();
            Ok(Some(scalar_call("gps_statement_verifier", "reset_data", params)))
        }
    }

    /// Takes note that the step that is due has been confirmed: `payload`
    /// was submitted, the ledger returned `tx`, and `elapsed` microseconds
    /// have passed. On an error nothing is recorded, and nothing either
    /// once every step is confirmed.
    pub fn on_confirmed(
        &mut self,
        payload: &CallPayload,
        tx: &Transaction,
        finished_event: &str,
        elapsed: u64,
    ) -> (r: Result<(), WorkflowError>)
        ensures
            match vpar_step(old(self).stats@, payload@, *tx, finished_event@, elapsed) {
                Ok(stats) => r is Ok && final(self).stats@ == stats,
                Err(e) => r matches Err(x) && x@ == e && final(self).stats@ == old(self).stats@,
            },
    {
        if self.stats.len() >= TOTAL_STEPS {
            return Ok(());
        }
        let info = match tx.transaction_info() {
            Ok(info) => info,
            Err(_) => {
                return Err(WorkflowError::MissingTransactionInfo);
            },
        };
        if self.stats.len() == LAST_ADVANCE_STEP {
            if get_event_from_transaction(tx, finished_event).is_err() {
                return Err(WorkflowError::WorkflowPrecondition);
            }
        }
        let stat = step_stat(payload, info, elapsed);
        self.stats.push(stat);
        Ok(())
    }

    /// The statistics of the workflow, once exactly its twelve steps are
    /// confirmed.
    pub fn finish(&self) -> (r: Option<VparStat>)
        ensures
            r is Some <==> self.stats@.len() == TOTAL_STEPS,
            r matches Some(stat) ==> {
                &&& stat.prepush_task_metadata == self.stats@[0]
                &&& stat.prepush_data == self.stats@[1]
                &&& stat.vpar@ == self.stats@.subrange(
                    PREPUSH_STEPS as int,
                    LAST_ADVANCE_STEP + 1,
                )
                &&& stat.vpar@.len() == ADVANCE_STEPS
                &&& stat.reset_data == self.stats@[TOTAL_STEPS - 1]
            },
    {
        if self.stats.len() != TOTAL_STEPS {
            return None;
        }
        let mut vpar: Vec<StatInfo> = Vec::new();
        let mut i: usize = PREPUSH_STEPS;
        while i <= LAST_ADVANCE_STEP
            invariant
                PREPUSH_STEPS <= i <= LAST_ADVANCE_STEP + 1,
                self.stats@.len() == TOTAL_STEPS,
                vpar@ == self.stats@.subrange(PREPUSH_STEPS as int, i as int),
            decreases LAST_ADVANCE_STEP + 1 - i,
        {
            vpar.push(self.stats[i]);
            i += 1;
        }
        Some(
            VparStat {
                prepush_task_metadata: self.stats[0],
                prepush_data: self.stats[1],
                vpar,
                reset_data: self.stats[TOTAL_STEPS - 1],
            },
        )
    }
}

/// One confirmed step of a run: what was submitted, what the ledger
/// returned, and how long it took.
pub struct ConfirmedStep {
    /// The payload that was submitted.
    pub payload: CallPayloadView,
    /// The transaction that the ledger returned.
    pub tx: Transaction,
    /// The microseconds that the step took.
    pub elapsed: u64,
}

/// The statistics after the confirmed steps `steps`, taken in order from a
/// workflow of which nothing is confirmed, or the error of the first step
/// that fails.
pub open spec fn vpar_run(steps: Seq<ConfirmedStep>, finished_event: Seq<char>) -> Result<
    Seq<StatInfo>,
    WorkflowErrorView,
>
    decreases steps.len(),
{
    if steps.len() == 0 {
        Ok(Seq::empty())
    } else {
        match vpar_run(steps.drop_last(), finished_event) {
            Err(e) => Err(e),
            Ok(stats) => vpar_step(
                stats,
                steps.last().payload,
                steps.last().tx,
                finished_event,
                steps.last().elapsed,
            ),
        }
    }
}

/// A run that goes through has recorded one entry for each of its first
/// twelve steps, whatever the gas and the time of the steps were, and,
/// where it got past the ninth step that advances the verification, that
/// step emitted the event that reports the end. So a full run returns nine
/// entries for the advancing steps, and a run in which the ninth of them
/// lacks the event returns nothing.
pub proof fn lemma_vpar_run(steps: Seq<ConfirmedStep>, finished_event: Seq<char>)
    ensures
        vpar_run(steps, finished_event) matches Ok(stats) ==> {
            &&& stats.len() == if steps.len() <= TOTAL_STEPS {
                steps.len()
            } else {
                TOTAL_STEPS as nat
            }
            &&& steps.len() > LAST_ADVANCE_STEP ==> has_event(
                steps[LAST_ADVANCE_STEP as int].tx.events(),
                finished_event,
            )
            &&& steps.len() >= TOTAL_STEPS ==> stats.subrange(
                PREPUSH_STEPS as int,
                LAST_ADVANCE_STEP + 1,
            ).len() == ADVANCE_STEPS
        },
    decreases steps.len(),
{
    if steps.len() > 0 {
        lemma_vpar_run(steps.drop_last(), finished_event);
    }
}

} // verus!
