//! Typed records read from events. Every field of a record is looked up by
//! its name and parsed; none is optional and none has a default.

use vstd::prelude::*;
use crate::decimal::{parse_unsigned, str_to_u64};
use crate::transaction::{field_value, EventRecord};
use crate::u256::{parse_u256, str_to_u256, U256};

verus! {

/// Why an event does not yield a record.
#[derive(Clone, Debug, PartialEq, Eq)]
pub enum ProjectionError {
    /// The event has no field of this name.
    MissingField(String),
    /// The field of this name holds the given text, which is no numeral of
    /// the field's type.
    InvalidNumeric(String, String),
}

/// A projection error as mathematical values.
pub enum ProjectionErrorView {
    /// No field of this name.
    MissingField(Seq<char>),
    /// The field of this name holds this text, which is no numeral.
    InvalidNumeric(Seq<char>, Seq<char>),
}

impl View for ProjectionError {
    type V = ProjectionErrorView;

    open spec fn view(&self) -> ProjectionErrorView {
        match self {
            ProjectionError::MissingField(name) => ProjectionErrorView::MissingField(name@),
            ProjectionError::InvalidNumeric(name, raw) => ProjectionErrorView::InvalidNumeric(
                name@,
                raw@,
            ),
        }
    }
}

impl ProjectionError {
    /// The error in words.
    pub fn message(&self) -> (r: String)
        ensures
            r@ == (match self@ {
                ProjectionErrorView::MissingField(name) => "missing field "@ + name,
                ProjectionErrorView::InvalidNumeric(name, raw) => "invalid number in field "@ + name
                    + ": "@ + raw,
            }),
    {
        match self {
            ProjectionError::MissingField(name) => {
                let mut r = "missing field ".to_owned();
                r.append(name.as_str());
                r
            },
            ProjectionError::InvalidNumeric(name, raw) => {
                let mut r = "invalid number in field ".to_owned();
                r.append(name.as_str());
                r.append(": ");
                r.append(raw.as_str());
                r
            },
        }
    }
}

/// The 64-bit field `name` of `event`, or the reason why there is none.
pub open spec fn u64_field(event: EventRecord, name: Seq<char>) -> Result<u64, ProjectionErrorView> {
    match field_value(event.fields@, name) {
        None => Err(ProjectionErrorView::MissingField(name)),
        Some(raw) => match parse_unsigned(raw, u64::MAX as nat) {
            Ok(v) => Ok(v as u64),
            Err(_) => Err(ProjectionErrorView::InvalidNumeric(name, raw)),
        },
    }
}

/// The value of the 256-bit field `name` of `event`, or the reason why
/// there is none.
pub open spec fn u256_field(event: EventRecord, name: Seq<char>) -> Result<nat, ProjectionErrorView> {
    match field_value(event.fields@, name) {
        None => Err(ProjectionErrorView::MissingField(name)),
        Some(raw) => match parse_u256(raw) {
            Ok(v) => Ok(v),
            Err(_) => Err(ProjectionErrorView::InvalidNumeric(name, raw)),
        },
    }
}

/// The error of a field, if it has one.
pub open spec fn error_of<T>(field: Result<T, ProjectionErrorView>) -> Option<ProjectionErrorView> {
    match field {
        Ok(_) => None,
        Err(e) => Some(e),
    }
}

/// One field of a record: its name, and whether it holds a 256-bit
/// integer rather than a 64-bit one.
pub struct FieldSpec {
    /// The name under which the event holds the field.
    pub name: Seq<char>,
    /// Whether the field holds a 256-bit integer.
    pub wide: bool,
}

/// The 64-bit field called `name`.
pub open spec fn narrow(name: Seq<char>) -> FieldSpec {
    FieldSpec { name, wide: false }
}

/// The 256-bit field called `name`.
pub open spec fn wide(name: Seq<char>) -> FieldSpec {
    FieldSpec { name, wide: true }
}

/// The error of the field `field` in `event`, if it has one.
pub open spec fn field_error(event: EventRecord, field: FieldSpec) -> Option<ProjectionErrorView> {
    if field.wide {
        error_of(u256_field(event, field.name))
    } else {
        error_of(u64_field(event, field.name))
    }
}

/// The error of the first of `fields` that has one in `event`, if any has.
pub open spec fn record_error(event: EventRecord, fields: Seq<FieldSpec>) -> Option<
    ProjectionErrorView,
>
    decreases fields.len(),
{
    if fields.len() == 0 {
        None
    } else {
        match field_error(event, fields[0]) {
            Some(e) => Some(e),
            None => record_error(event, fields.drop_first()),
        }
    }
}

/// Completeness of a record. Where an event lacks the field at place `k`
/// of a record and the fields before it are there and well-formed, the
/// record cannot be read, and the error names the missing field. That
/// holds in particular where every other field is fine.
pub proof fn lemma_missing_field(event: EventRecord, fields: Seq<FieldSpec>, k: int)
    requires
        0 <= k < fields.len(),
        field_value(event.fields@, fields[k].name) is None,
        forall|j: int| 0 <= j < k ==> field_error(event, #[trigger] fields[j]) is None,
    ensures
        record_error(event, fields) == Some(ProjectionErrorView::MissingField(fields[k].name)),
    decreases fields.len(),
{
    if k > 0 {
        let rest = fields.drop_first();
        lemma_missing_field(event, rest, k - 1);
    }
}

/// Reads the 64-bit field `name` of `event`.
pub fn read_u64(event: &EventRecord, name: &str) -> (r: Result<u64, ProjectionError>)
    ensures
        r matches Ok(v) ==> u64_field(*event, name@) == Ok::<u64, ProjectionErrorView>(v),
        r matches Err(e) ==> u64_field(*event, name@) == Err::<u64, ProjectionErrorView>(e@),
{
    match event.field(name) {
        None => Err(ProjectionError::MissingField(name.to_owned())),
        Some(raw) => match str_to_u64(raw.as_str()) {
            Ok(v) => Ok(v),
            Err(_) => Err(ProjectionError::InvalidNumeric(name.to_owned(), raw.clone())),
        },
    }
}

/// Reads the 256-bit field `name` of `event`.
pub fn read_u256(event: &EventRecord, name: &str) -> (r: Result<U256, ProjectionError>)
    ensures
        r matches Ok(v) ==> u256_field(*event, name@) == Ok::<nat, ProjectionErrorView>(v@),
        r matches Err(e) ==> u256_field(*event, name@) == Err::<nat, ProjectionErrorView>(e@),
{
    match event.field(name) {
        None => Err(ProjectionError::MissingField(name.to_owned())),
        Some(raw) => match str_to_u256(raw.as_str()) {
            Ok(v) => Ok(v),
            Err(_) => Err(ProjectionError::InvalidNumeric(name.to_owned(), raw.clone())),
        },
    }
}

/// The handle of a FRI context that the contract has set up.
#[derive(Clone, Copy, Debug, PartialEq, Eq)]
pub struct InitFriGroup {
    /// The address of the context in the contract's memory.
    pub fri_ctx: u64,
}

/// What the computation of the next FRI layer works on.
#[derive(Clone, Copy, Debug, PartialEq, Eq)]
pub struct ComputeNextLayer {
    /// Where the channel lies in the contract's memory.
    pub channel_ptr: u64,
    /// Where the queue of FRI queries lies.
    pub fri_queue_ptr: u64,
    /// Where the queue of Merkle queries lies.
    pub merkle_queue_ptr: u64,
    /// The number of queries.
    pub n_queries: u64,
    /// The point at which the layer is evaluated.
    pub evaluation_point: U256,
    /// The size of the coset of the layer.
    pub fri_coset_size: u64,
}

/// What the Merkle verifier works on.
#[derive(Clone, Copy, Debug, PartialEq, Eq)]
pub struct VerifyMerkle {
    /// Where the channel lies in the contract's memory.
    pub channel_ptr: u64,
    /// Where the queue of Merkle queries lies.
    pub merkle_queue_ptr: u64,
    /// The root that the verification has to arrive at.
    pub expected_root: U256,
    /// The number of queries.
    pub n_queries: u64,
}

/// What the registration of a verified fact works on.
#[derive(Clone, Copy, Debug, PartialEq, Eq)]
pub struct RegisterFact {
    /// Where the data to hash lies in the contract's memory.
    pub data_to_hash_ptr: u64,
    /// Where the queue lies whose entries are hashed along.
    pub queue_ptr: u64,
}

impl InitFriGroup {
    /// The first error among the fields of the record in `event`.
    pub open spec fn error_in(event: EventRecord) -> Option<ProjectionErrorView> {
        record_error(event, InitFriGroup::fields())
    }

    /// The fields of the record.
    pub open spec fn fields() -> Seq<FieldSpec> {
        seq![narrow("fri_ctx"@)]
    }

    /// Whether `self` is the record that `event` holds.
    pub open spec fn read_from(&self, event: EventRecord) -> bool {
        u64_field(event, "fri_ctx"@) == Ok::<u64, ProjectionErrorView>(self.fri_ctx)
    }

    /// An event that holds a record has no error in its fields.
    pub proof fn lemma_read_without_error(&self, event: EventRecord)
        requires
            self.read_from(event),
        ensures
            InitFriGroup::error_in(event) is None,
    {
        reveal_with_fuel(record_error, 2);
    }

    /// Reads the record from `event`.
    pub fn project(event: &EventRecord) -> (r: Result<InitFriGroup, ProjectionError>)
        ensures
            r matches Ok(record) ==> record.read_from(*event),
            r matches Err(e) ==> InitFriGroup::error_in(*event) == Some(e@),
    {
        let fri_ctx = read_u64(event, "fri_ctx")?;
        Ok(InitFriGroup { fri_ctx })
    }
}

impl ComputeNextLayer {
    /// The first error among the fields of the record in `event`, in the
    /// order in which the record lists them.
    pub open spec fn error_in(event: EventRecord) -> Option<ProjectionErrorView> {
        record_error(event, ComputeNextLayer::fields())
    }

    /// The fields of the record, in their order.
    pub open spec fn fields() -> Seq<FieldSpec> {
        seq![
            narrow("channel_ptr"@),
            narrow("fri_queue_ptr"@),
            narrow("merkle_queue_ptr"@),
            narrow("n_queries"@),
            wide("evaluation_point"@),
            narrow("fri_coset_size"@),
        ]
    }

    /// Whether `self` is the record that `event` holds.
    pub open spec fn read_from(&self, event: EventRecord) -> bool {
        &&& u64_field(event, "channel_ptr"@) == Ok::<u64, ProjectionErrorView>(self.channel_ptr)
        &&& u64_field(event, "fri_queue_ptr"@) == Ok::<u64, ProjectionErrorView>(
            self.fri_queue_ptr,
        )
        &&& u64_field(event, "merkle_queue_ptr"@) == Ok::<u64, ProjectionErrorView>(
            self.merkle_queue_ptr,
        )
        &&& u64_field(event, "n_queries"@) == Ok::<u64, ProjectionErrorView>(self.n_queries)
        &&& u256_field(event, "evaluation_point"@) == Ok::<nat, ProjectionErrorView>(
            self.evaluation_point@,
        )
        &&& u64_field(event, "fri_coset_size"@) == Ok::<u64, ProjectionErrorView>(
            self.fri_coset_size,
        )
    }

    /// An event that holds a record has no error in its fields.
    pub proof fn lemma_read_without_error(&self, event: EventRecord)
        requires
            self.read_from(event),
        ensures
            ComputeNextLayer::error_in(event) is None,
    {
        reveal_with_fuel(record_error, 7);
    }

    /// Reads the record from `event`.
    pub fn project(event: &EventRecord) -> (r: Result<ComputeNextLayer, ProjectionError>)
        ensures
            r matches Ok(record) ==> record.read_from(*event),
            r matches Err(e) ==> ComputeNextLayer::error_in(*event) == Some(e@),
    {
        reveal_with_fuel(record_error, 7);
        let channel_ptr = read_u64(event, "channel_ptr")?;
        let fri_queue_ptr = read_u64(event, "fri_queue_ptr")?;
        let merkle_queue_ptr = read_u64(event, "merkle_queue_ptr")?;
        let n_queries = read_u64(event, "n_queries")?;
        let evaluation_point = read_u256(event, "evaluation_point")?;
        let fri_coset_size = read_u64(event, "fri_coset_size")?;
        Ok(
            ComputeNextLayer {
                channel_ptr,
                fri_queue_ptr,
                merkle_queue_ptr,
                n_queries,
                evaluation_point,
                fri_coset_size,
            },
        )
    }
}

impl VerifyMerkle {
    /// The first error among the fields of the record in `event`, in the
    /// order in which the record lists them.
    pub open spec fn error_in(event: EventRecord) -> Option<ProjectionErrorView> {
        record_error(event, VerifyMerkle::fields())
    }

    /// The fields of the record, in their order.
    pub open spec fn fields() -> Seq<FieldSpec> {
        seq![
            narrow("channel_ptr"@),
            narrow("merkle_queue_ptr"@),
            wide("expected_root"@),
            narrow("n_queries"@),
        ]
    }

    /// Whether `self` is the record that `event` holds.
    pub open spec fn read_from(&self, event: EventRecord) -> bool {
        &&& u64_field(event, "channel_ptr"@) == Ok::<u64, ProjectionErrorView>(self.channel_ptr)
        &&& u64_field(event, "merkle_queue_ptr"@) == Ok::<u64, ProjectionErrorView>(
            self.merkle_queue_ptr,
        )
        &&& u256_field(event, "expected_root"@) == Ok::<nat, ProjectionErrorView>(
            self.expected_root@,
        )
        &&& u64_field(event, "n_queries"@) == Ok::<u64, ProjectionErrorView>(self.n_queries)
    }

    /// An event that holds a record has no error in its fields.
    pub proof fn lemma_read_without_error(&self, event: EventRecord)
        requires
            self.read_from(event),
        ensures
            VerifyMerkle::error_in(event) is None,
    {
        reveal_with_fuel(record_error, 5);
    }

    /// An event that has the three other fields in order and lacks the
    /// number of queries holds no record: reading it fails, and the error
    /// names `n_queries` as missing.
    pub proof fn lemma_without_n_queries(event: EventRecord)
        requires
            u64_field(event, "channel_ptr"@) is Ok,
            u64_field(event, "merkle_queue_ptr"@) is Ok,
            u256_field(event, "expected_root"@) is Ok,
            field_value(event.fields@, "n_queries"@) is None,
        ensures
            VerifyMerkle::error_in(event) == Some(
                ProjectionErrorView::MissingField("n_queries"@),
            ),
    {
        lemma_missing_field(event, VerifyMerkle::fields(), 3);
    }

    /// Reads the record from `event`.
    pub fn project(event: &EventRecord) -> (r: Result<VerifyMerkle, ProjectionError>)
        ensures
            r matches Ok(record) ==> record.read_from(*event),
            r matches Err(e) ==> VerifyMerkle::error_in(*event) == Some(e@),
    {
        reveal_with_fuel(record_error, 5);
        let channel_ptr = read_u64(event, "channel_ptr")?;
        let merkle_queue_ptr = read_u64(event, "merkle_queue_ptr")?;
        let expected_root = read_u256(event, "expected_root")?;
        let n_queries = read_u64(event, "n_queries")?;
        Ok(VerifyMerkle { channel_ptr, merkle_queue_ptr, expected_root, n_queries })
    }
}

impl RegisterFact {
    /// The first error among the fields of the record in `event`, in the
    /// order in which the record lists them.
    pub open spec fn error_in(event: EventRecord) -> Option<ProjectionErrorView> {
        record_error(event, RegisterFact::fields())
    }

    /// The fields of the record, in their order.
    pub open spec fn fields() -> Seq<FieldSpec> {
        seq![narrow("data_to_hash_ptr"@), narrow("queue_ptr"@)]
    }

    /// Whether `self` is the record that `event` holds.
    pub open spec fn read_from(&self, event: EventRecord) -> bool {
        &&& u64_field(event, "data_to_hash_ptr"@) == Ok::<u64, ProjectionErrorView>(
            self.data_to_hash_ptr,
        )
        &&& u64_field(event, "queue_ptr"@) == Ok::<u64, ProjectionErrorView>(self.queue_ptr)
    }

    /// An event that holds a record has no error in its fields.
    pub proof fn lemma_read_without_error(&self, event: EventRecord)
        requires
            self.read_from(event),
        ensures
            RegisterFact::error_in(event) is None,
    {
        reveal_with_fuel(record_error, 3);
    }

    /// Reads the record from `event`.
    pub fn project(event: &EventRecord) -> (r: Result<RegisterFact, ProjectionError>)
        ensures
            r matches Ok(record) ==> record.read_from(*event),
            r matches Err(e) ==> RegisterFact::error_in(*event) == Some(e@),
    {
        reveal_with_fuel(record_error, 3);
        let data_to_hash_ptr = read_u64(event, "data_to_hash_ptr")?;
        let queue_ptr = read_u64(event, "queue_ptr")?;
        Ok(RegisterFact { data_to_hash_ptr, queue_ptr })
    }
}

} // verus!
