//! The workflow that registers a continuous memory page: one call that is
//! submitted again and again until the contract reports the registration.

use vstd::prelude::*;
use crate::config::StatInfo;
use crate::encoding::{
    lemma_numeral_round_trip, lemma_numerals_round_trip, numeral_encoding, numerals_encoding,
    ArgValue, MAX_SEQUENCE_LENGTH,
};
use crate::payload::{
    build_payload, encodings, payload_from_parts, CallPayload, CallPayloadView, EncodingError,
};
use crate::transaction::{
    event_type_id, get_event_from_transaction, has_event, Transaction,
};
use crate::u256::{are_u256_numerals, parse_u256, str_to_u256, str_to_u256_list};
use crate::workflow::{reported_size, WorkflowError, WorkflowErrorView};

verus! {

/// How often one submission of the registration is attempted.
pub const REGISTRATION_ATTEMPTS: u8 = 10;

/// The pause between two attempts of one submission, in milliseconds.
pub const REGISTRATION_DELAY_MILLIS: u64 = 3000;

/// A continuous memory page as the fixture files hold it: every number is
/// a decimal numeral.
#[derive(Clone, Debug, PartialEq, Eq)]
pub struct ContinuousMemoryPage {
    /// The address at which the page starts.
    pub start_addr: String,
    /// The values of the page, in the order of their addresses.
    pub values: Vec<String>,
    /// The first parameter of the hash of the page.
    pub z: String,
    /// The second parameter of the hash of the page.
    pub alpha: String,
    /// The modulus of the field. The registration does not pass it on.
    pub prime: String,
}

/// A batch of continuous memory pages.
#[derive(Clone, Debug, PartialEq, Eq)]
pub struct MemoryPageEntries {
    /// The pages of the batch.
    pub memory_page_entries: Vec<ContinuousMemoryPage>,
}

impl ContinuousMemoryPage {
    /// Whether the numbers that the registration passes on are numerals of
    /// 256-bit unsigned integers.
    pub open spec fn is_valid(&self) -> bool {
        &&& are_u256_numerals(self.values@)
        &&& parse_u256(self.start_addr@) is Ok
        &&& parse_u256(self.z@) is Ok
        &&& parse_u256(self.alpha@) is Ok
    }

    /// The payload of the call that registers the page, or the reason why
    /// there is none. The arguments are the start address, the values, `z`
    /// and `alpha`.
    pub open spec fn registration_call(&self) -> Result<CallPayloadView, EncodingError> {
        if !self.is_valid() {
            Err(EncodingError::InvalidNumeric)
        } else if self.values@.len() > MAX_SEQUENCE_LENGTH {
            Err(EncodingError::SequenceTooLong)
        } else {
            payload_from_parts(
                "memory_page_fact_registry"@,
                "register_continuous_memorypage"@,
                seq![
                    numeral_encoding(self.start_addr@),
                    numerals_encoding(self.values@),
                    numeral_encoding(self.z@),
                    numeral_encoding(self.alpha@),
                ],
            )
        }
    }
}

/// Builds the payload of the call that registers `data`.
pub fn registration_payload(data: &ContinuousMemoryPage) -> (r: Result<CallPayload, EncodingError>)
    ensures
        r matches Ok(p) ==> data.registration_call() == Ok::<CallPayloadView, EncodingError>(p@),
        r matches Err(e) ==> data.registration_call() == Err::<CallPayloadView, EncodingError>(e),
{
    let values = match str_to_u256_list(&data.values) {
        Some(v) => v,
        None => {
            return Err(EncodingError::InvalidNumeric);
        },
    };
    let start_addr = match str_to_u256(data.start_addr.as_str()) {
        Ok(v) => v,
        Err(_) => {
            return Err(EncodingError::InvalidNumeric);
        },
    };
    let z = match str_to_u256(data.z.as_str()) {
        Ok(v) => v,
        Err(_) => {
            return Err(EncodingError::InvalidNumeric);
        },
    };
    let alpha = match str_to_u256(data.alpha.as_str()) {
        Ok(v) => v,
        Err(_) => {
            return Err(EncodingError::InvalidNumeric);
        },
    };
    proof {
        lemma_numeral_round_trip(data.start_addr@, start_addr);
        lemma_numeral_round_trip(data.z@, z);
        lemma_numeral_round_trip(data.alpha@, alpha);
        lemma_numerals_round_trip(data.values@, values);
    }
    let mut params: Vec<ArgValue> = Vec::new();
    params.push(ArgValue::U256(start_addr));
    params.push(ArgValue::U256Vector(values));
    params.push(ArgValue::U256(z));
    params.push(ArgValue::U256(alpha));
    proof {
        assert(encodings(params@) =~= seq![
            numeral_encoding(data.start_addr@),
            numerals_encoding(data.values@),
            numeral_encoding(data.z@),
            numeral_encoding(data.alpha@),
        ]);
    }
    build_payload("memory_page_fact_registry", "register_continuous_memorypage", &params)
}

/// The type of the event by which the contracts at `address` report that a
/// page is registered.
pub fn page_registered_event(address: &str) -> (r: String)
    ensures
        r@ == address@ + "::"@ + "memory_page_fact_registry"@ + "::"@
            + "LogMemoryPageFactContinuous"@,
{
    event_type_id(address, "memory_page_fact_registry", "LogMemoryPageFactContinuous")
}

/// What the caller does after a confirmed submission.
#[derive(Clone, Copy, Debug, PartialEq, Eq, Structural)]
pub enum PollDecision {
    /// The contract has reported the registration: return the statistics.
    Registered,
    /// The report is still missing: submit the same payload once more.
    Resubmit,
    /// The report is still missing and as many submissions are confirmed
    /// as the ceiling allows: give up.
    CeilingReached,
}

/// How far a registration has come: what it has cost so far, and whether
/// the contract has reported it.
#[derive(Clone, Copy, Debug, PartialEq, Eq)]
pub struct PageRegistration {
    /// The cost of all submissions so far.
    pub stat: StatInfo,
    /// Whether the last confirmed transaction emitted the report.
    pub registered: bool,
    /// The number of confirmed submissions. The count stops at the largest
    /// `u64`.
    pub submissions: u64,
    /// The number of confirmed submissions after which the registration
    /// gives up, if there is to be such a number.
    pub ceiling: Option<u64>,
}

/// The registration after one more confirmed transaction `tx`, `elapsed`
/// microseconds after the first submission: the gas of `tx` is added to
/// the gas so far, and the registration is complete if `tx` emitted the
/// event `registered_event`. A transaction without a summary is an error.
/// Once the registration is complete nothing more is recorded.
pub open spec fn page_step(
    state: PageRegistration,
    tx: Transaction,
    registered_event: Seq<char>,
    elapsed: u64,
) -> Result<PageRegistration, WorkflowErrorView> {
    if state.registered {
        Ok(state)
    } else {
        match tx.info() {
            None => Err(WorkflowErrorView::MissingTransactionInfo),
            Some(info) => Ok(
                PageRegistration {
                    stat: StatInfo {
                        time_micros: elapsed,
                        gas_used: (state.stat.gas_used + info.gas_used) as u64,
                        size_bytes: state.stat.size_bytes,
                    },
                    registered: has_event(tx.events(), registered_event),
                    submissions: if state.submissions < u64::MAX {
                        (state.submissions + 1) as u64
                    } else {
                        u64::MAX
                    },
                    ceiling: state.ceiling,
                },
            ),
        }
    }
}

impl PageRegistration {
    /// What is due in this state: nothing more once the contract has
    /// reported, and otherwise one more submission unless the ceiling is
    /// reached. Without a ceiling the registration never gives up.
    pub open spec fn decision(&self) -> PollDecision {
        if self.registered {
            PollDecision::Registered
        } else if self.ceiling matches Some(c) && self.submissions >= c {
            PollDecision::CeilingReached
        } else {
            PollDecision::Resubmit
        }
    }

    /// A registration whose payload `payload` has not been submitted yet,
    /// and which gives up after `ceiling` confirmed submissions if a
    /// ceiling is given.
    pub fn new(payload: &CallPayload, ceiling: Option<u64>) -> (s: PageRegistration)
        ensures
            s == (PageRegistration {
                stat: StatInfo {
                    time_micros: 0,
                    gas_used: 0,
                    size_bytes: reported_size(payload@),
                },
                registered: false,
                submissions: 0,
                ceiling,
            }),
    {
        let size_bytes = if payload.args.len() == 0 {
            None
        } else {
            Some(payload.size)
        };
        PageRegistration {
            stat: StatInfo { time_micros: 0, gas_used: 0, size_bytes },
            registered: false,
            submissions: 0,
            ceiling,
        }
    }

    /// Takes note of a confirmed transaction and tells what is due. On an
    /// error nothing is recorded, and nothing either once the registration
    /// is complete.
    pub fn on_confirmed(&mut self, tx: &Transaction, registered_event: &str, elapsed: u64) -> (r:
        Result<PollDecision, WorkflowError>)
        requires
            !old(self).registered ==> old(self).stat.gas_used + tx.gas_used() <= u64::MAX,
        ensures
            match page_step(*old(self), *tx, registered_event@, elapsed) {
                Ok(state) => *final(self) == state && r == Ok::<PollDecision, WorkflowError>(
                    state.decision(),
                ),
                Err(e) => r matches Err(x) && x@ == e && *final(self) == *old(self),
            },
    {
        if self.registered {
            return Ok(PollDecision::Registered);
        }
        let info = match tx.transaction_info() {
            Ok(info) => info,
            Err(_) => {
                return Err(WorkflowError::MissingTransactionInfo);
            },
        };
        self.stat.gas_used = self.stat.gas_used + info.gas_used;
        self.stat.time_micros = elapsed;
        self.registered = get_event_from_transaction(tx, registered_event).is_ok();
        if self.submissions < u64::MAX {
            self.submissions = self.submissions + 1;
        }
        if self.registered {
            Ok(PollDecision::Registered)
        } else {
            match self.ceiling {
                Some(c) => if self.submissions >= c {
                    Ok(PollDecision::CeilingReached)
                } else {
                    Ok(PollDecision::Resubmit)
                },
                None => Ok(PollDecision::Resubmit),
            }
        }
    }
}

/// One confirmed submission of a run: what the ledger returned, and how
/// long after the first submission.
pub struct ConfirmedSubmission {
    /// The transaction that the ledger returned.
    pub tx: Transaction,
    /// The microseconds since the first submission.
    pub elapsed: u64,
}

/// The gas units that the transactions of `run` consumed, all together.
pub open spec fn run_gas(run: Seq<ConfirmedSubmission>) -> nat
    decreases run.len(),
{
    if run.len() == 0 {
        0
    } else {
        run_gas(run.drop_last()) + run.last().tx.gas_used() as nat
    }
}

/// The registration after the confirmed submissions `run`, taken in order
/// from `start`, or the error of the first one that fails.
pub open spec fn page_run(
    start: PageRegistration,
    run: Seq<ConfirmedSubmission>,
    registered_event: Seq<char>,
) -> Result<PageRegistration, WorkflowErrorView>
    decreases run.len(),
{
    if run.len() == 0 {
        Ok(start)
    } else {
        match page_run(start, run.drop_last(), registered_event) {
            Err(e) => Err(e),
            Ok(state) => page_step(state, run.last().tx, registered_event, run.last().elapsed),
        }
    }
}

/// Gas accumulates over a run. Take a registration that is not complete
/// and a run of submissions that were all confirmed with a summary, of
/// which none but the last emitted the report, and whose gas fits. Then
/// the registration ends with the gas that it started with plus the gas of
/// every submission of the run, not only that of the last. It is complete
/// if and only if the last submission emitted the report, it keeps the
/// time of the last submission, and it has counted every submission.
pub proof fn lemma_page_run_gas(
    start: PageRegistration,
    run: Seq<ConfirmedSubmission>,
    registered_event: Seq<char>,
)
    requires
        !start.registered,
        forall|i: int| 0 <= i < run.len() ==> (#[trigger] run[i]).tx.info() is Some,
        forall|i: int|
            0 <= i < run.len() - 1 ==> !has_event((#[trigger] run[i]).tx.events(), registered_event),
        start.stat.gas_used + run_gas(run) <= u64::MAX,
    ensures
        page_run(start, run, registered_event) matches Ok(state) && {
            &&& state.stat.gas_used == start.stat.gas_used + run_gas(run)
            &&& state.stat.size_bytes == start.stat.size_bytes
            &&& run.len() > 0 ==> state.registered == has_event(
                run.last().tx.events(),
                registered_event,
            )
            &&& run.len() > 0 ==> state.stat.time_micros == run.last().elapsed
            &&& state.ceiling == start.ceiling
            &&& start.submissions + run.len() <= u64::MAX ==> state.submissions
                == start.submissions + run.len()
        },
    decreases run.len(),
{
    if run.len() > 0 {
        let head = run.drop_last();
        lemma_page_run_gas(start, head, registered_event);
    }
}

} // verus!
