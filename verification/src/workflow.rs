//! What the workflows share: the errors that end one, the statistics of a
//! step, and the calls whose arguments are a few numbers.

use vstd::prelude::*;
use vstd::pervasive::unreached;
use crate::config::StatInfo;
use crate::encoding::ArgValue;
use crate::payload::{
    build_payload, encodings, is_identifier, payload_of, total_len, CallPayload, CallPayloadView,
    EncodingError,
};
use crate::projection::{
    record_error, ComputeNextLayer, FieldSpec, InitFriGroup, ProjectionError, ProjectionErrorView,
    RegisterFact, VerifyMerkle,
};
use crate::transaction::{
    first_event_index, get_event_from_transaction, has_event, EventRecord, Transaction,
    TransactionInfo,
};
use crate::u256::{lemma_le_bytes_len, U256};

verus! {

/// Why a workflow ends without statistics.
#[derive(Clone, Debug, PartialEq, Eq)]
pub enum WorkflowError {
    /// The ledger returned a transaction without an execution summary.
    MissingTransactionInfo,
    /// The transaction did not emit the event that the next step needs.
    EventNotFound,
    /// The event does not hold the record that the next step needs.
    Projection(ProjectionError),
    /// A step did not find what the workflow takes for granted at that
    /// point: the last step that advances the proof verification did not
    /// report that the verification is complete, or the record for the
    /// next call of a chained workflow is not there.
    WorkflowPrecondition,
}

/// A workflow error as mathematical values.
pub enum WorkflowErrorView {
    /// A transaction without an execution summary.
    MissingTransactionInfo,
    /// A transaction without the event that the next step needs.
    EventNotFound,
    /// An event without the record that the next step needs.
    Projection(ProjectionErrorView),
    /// A step that did not find what the workflow takes for granted.
    WorkflowPrecondition,
}

impl View for WorkflowError {
    type V = WorkflowErrorView;

    open spec fn view(&self) -> WorkflowErrorView {
        match self {
            WorkflowError::MissingTransactionInfo => WorkflowErrorView::MissingTransactionInfo,
            WorkflowError::EventNotFound => WorkflowErrorView::EventNotFound,
            WorkflowError::Projection(e) => WorkflowErrorView::Projection(e@),
            WorkflowError::WorkflowPrecondition => WorkflowErrorView::WorkflowPrecondition,
        }
    }
}

/// Why `events` do not yield the record with the fields `fields` from their
/// first event of type `type_id`, if anything stands in the way: there is
/// no such event, or a field of the first one is missing or malformed.
pub open spec fn event_error(
    events: Seq<EventRecord>,
    type_id: Seq<char>,
    fields: Seq<FieldSpec>,
) -> Option<WorkflowErrorView> {
    if !has_event(events, type_id) {
        Some(WorkflowErrorView::EventNotFound)
    } else {
        match record_error(events[first_event_index(events, type_id)], fields) {
            Some(e) => Some(WorkflowErrorView::Projection(e)),
            None => None,
        }
    }
}

/// The error `first` if there is one, and otherwise `second`.
pub open spec fn first_of(
    first: Option<WorkflowErrorView>,
    second: Option<WorkflowErrorView>,
) -> Option<WorkflowErrorView> {
    if first is Some {
        first
    } else {
        second
    }
}

impl InitFriGroup {
    /// Reads the record from the first event of type `type_id` that `tx`
    /// emitted.
    pub fn reported_by(tx: &Transaction, type_id: &str) -> (r: Result<InitFriGroup, WorkflowError>)
        ensures
            r matches Err(e) ==> event_error(tx.events(), type_id@, InitFriGroup::fields()) == Some(
                e@,
            ),
            r matches Ok(record) ==> event_error(tx.events(), type_id@, InitFriGroup::fields())
                is None && record.read_from(tx.events()[first_event_index(tx.events(), type_id@)]),
    {
        let event = match get_event_from_transaction(tx, type_id) {
            Ok(event) => event,
            Err(_) => {
                return Err(WorkflowError::EventNotFound);
            },
        };
        match InitFriGroup::project(event) {
            Ok(record) => {
                proof {
                    record.lemma_read_without_error(*event);
                }
                Ok(record)
            },
            Err(e) => Err(WorkflowError::Projection(e)),
        }
    }
}

impl ComputeNextLayer {
    /// Reads the record from the first event of type `type_id` that `tx`
    /// emitted.
    pub fn reported_by(tx: &Transaction, type_id: &str) -> (r: Result<ComputeNextLayer, WorkflowError>)
        ensures
            r matches Err(e) ==> event_error(tx.events(), type_id@, ComputeNextLayer::fields()) == Some(
                e@,
            ),
            r matches Ok(record) ==> event_error(tx.events(), type_id@, ComputeNextLayer::fields())
                is None && record.read_from(tx.events()[first_event_index(tx.events(), type_id@)]),
    {
        let event = match get_event_from_transaction(tx, type_id) {
            Ok(event) => event,
            Err(_) => {
                return Err(WorkflowError::EventNotFound);
            },
        };
        match ComputeNextLayer::project(event) {
            Ok(record) => {
                proof {
                    record.lemma_read_without_error(*event);
                }
                Ok(record)
            },
            Err(e) => Err(WorkflowError::Projection(e)),
        }
    }
}

impl VerifyMerkle {
    /// Reads the record from the first event of type `type_id` that `tx`
    /// emitted.
    pub fn reported_by(tx: &Transaction, type_id: &str) -> (r: Result<VerifyMerkle, WorkflowError>)
        ensures
            r matches Err(e) ==> event_error(tx.events(), type_id@, VerifyMerkle::fields()) == Some(
                e@,
            ),
            r matches Ok(record) ==> event_error(tx.events(), type_id@, VerifyMerkle::fields())
                is None && record.read_from(tx.events()[first_event_index(tx.events(), type_id@)]),
    {
        let event = match get_event_from_transaction(tx, type_id) {
            Ok(event) => event,
            Err(_) => {
                return Err(WorkflowError::EventNotFound);
            },
        };
        match VerifyMerkle::project(event) {
            Ok(record) => {
                proof {
                    record.lemma_read_without_error(*event);
                }
                Ok(record)
            },
            Err(e) => Err(WorkflowError::Projection(e)),
        }
    }
}

impl RegisterFact {
    /// Reads the record from the first event of type `type_id` that `tx`
    /// emitted.
    pub fn reported_by(tx: &Transaction, type_id: &str) -> (r: Result<RegisterFact, WorkflowError>)
        ensures
            r matches Err(e) ==> event_error(tx.events(), type_id@, RegisterFact::fields()) == Some(
                e@,
            ),
            r matches Ok(record) ==> event_error(tx.events(), type_id@, RegisterFact::fields())
                is None && record.read_from(tx.events()[first_event_index(tx.events(), type_id@)]),
    {
        let event = match get_event_from_transaction(tx, type_id) {
            Ok(event) => event,
            Err(_) => {
                return Err(WorkflowError::EventNotFound);
            },
        };
        match RegisterFact::project(event) {
            Ok(record) => {
                proof {
                    record.lemma_read_without_error(*event);
                }
                Ok(record)
            },
            Err(e) => Err(WorkflowError::Projection(e)),
        }
    }
}

/// The size that the statistics report for a payload: the number of bytes
/// of its arguments, and nothing for a call without arguments.
pub open spec fn reported_size(payload: CallPayloadView) -> Option<u64> {
    if payload.args.len() == 0 {
        None
    } else {
        Some(payload.size as u64)
    }
}

/// The statistics of a step that submitted `payload`, used `gas_used` gas
/// units and took `elapsed` microseconds.
pub open spec fn stat_of(payload: CallPayloadView, gas_used: u64, elapsed: u64) -> StatInfo {
    StatInfo { time_micros: elapsed, gas_used, size_bytes: reported_size(payload) }
}

/// The statistics of the step that submitted `payload`, took `elapsed`
/// microseconds and ended with the summary `info`.
pub fn step_stat(payload: &CallPayload, info: &TransactionInfo, elapsed: u64) -> (stat: StatInfo)
    ensures
        stat == stat_of(payload@, info.gas_used, elapsed),
{
    let size_bytes = if payload.args.len() == 0 {
        None
    } else {
        Some(payload.size)
    };
    StatInfo { time_micros: elapsed, gas_used: info.gas_used, size_bytes }
}

/// Whether `arg` is a single integer.
pub open spec fn is_scalar(arg: ArgValue) -> bool {
    arg is U8 || arg is U64 || arg is U256
}

/// Arguments that are single integers take at most 32 bytes each.
pub proof fn lemma_scalar_total_len(params: Seq<ArgValue>)
    requires
        forall|i: int| 0 <= i < params.len() ==> is_scalar(#[trigger] params[i]),
    ensures
        total_len(encodings(params)) <= 32 * params.len(),
    decreases params.len(),
{
    if params.len() > 0 {
        lemma_scalar_total_len(params.drop_last());
        assert(encodings(params).drop_last() =~= encodings(params.drop_last()));
        let last = params.last();
        if let ArgValue::U64(v) = last {
            lemma_le_bytes_len(v as nat, 8);
        }
    }
}

/// Builds the payload of a call whose names are identifiers and whose
/// arguments are single integers. Such a call always has a payload.
pub(crate) fn scalar_call(module: &str, function: &str, params: Vec<ArgValue>) -> (p: CallPayload)
    requires
        is_identifier(module@),
        is_identifier(function@),
        params@.len() <= 16,
        forall|i: int| 0 <= i < params@.len() ==> is_scalar(#[trigger] params@[i]),
    ensures
        payload_of(module@, function@, params@) == Ok::<CallPayloadView, EncodingError>(p@),
{
    proof {
        lemma_scalar_total_len(params@);
    }
    match build_payload(module, function, &params) {
        Ok(p) => p,
        Err(_) => unreached(),
    }
}

/// The argument that holds `values` as a vector.
pub fn u256_vector_arg(values: &Vec<U256>) -> (arg: ArgValue)
    ensures
        arg matches ArgValue::U256Vector(v) && v@ == values@,
{
    ArgValue::U256Vector(values.clone())
}

/// Two lists of arguments with the same encodings give the same payload.
pub proof fn lemma_payload_of_encodings(
    module: Seq<char>,
    function: Seq<char>,
    a: Seq<ArgValue>,
    b: Seq<ArgValue>,
)
    requires
        a.len() == b.len(),
        forall|i: int|
            0 <= i < a.len() ==> (#[trigger] a[i]).encodable() == b[i].encodable() && a[i].encoding()
                == b[i].encoding(),
    ensures
        payload_of(module, function, a) == payload_of(module, function, b),
{
    assert(encodings(a) =~= encodings(b));
    if exists|i: int| 0 <= i < b.len() && !(#[trigger] b[i]).encodable() {
        let i = choose|i: int| 0 <= i < b.len() && !(#[trigger] b[i]).encodable();
        assert(!a[i].encodable());
    }
}

} // verus!
