//! What the ledger reports of a transaction: its kind, its execution
//! summary and the events that it emitted.

use vstd::prelude::*;

verus! {

/// One named value of an event.
#[derive(Clone, Debug, PartialEq, Eq)]
pub struct EventField {
    /// The name of the field.
    pub name: String,
    /// The value, as the ledger writes it: numbers are decimal numerals.
    pub value: String,
}

/// An event that a contract emitted while a transaction ran.
#[derive(Clone, Debug, PartialEq, Eq)]
pub struct EventRecord {
    /// The type of the event: address, module and name, joined by `::`.
    pub type_id: String,
    /// The fields of the event. Where a name occurs twice the first counts.
    pub fields: Vec<EventField>,
}

/// The execution summary of a transaction.
#[derive(Clone, Debug, PartialEq, Eq)]
pub struct TransactionInfo {
    /// The ledger version at which the transaction was committed.
    pub version: u64,
    /// The hash of the transaction.
    pub hash: String,
    /// The gas units that the transaction consumed.
    pub gas_used: u64,
}

/// A transaction as the ledger returns it.
#[derive(Clone, Debug, PartialEq, Eq)]
pub enum Transaction {
    /// A transaction that an account sent, with the events it emitted.
    UserTransaction { info: TransactionInfo, events: Vec<EventRecord> },
    /// A transaction that is not committed yet: it has no summary.
    PendingTransaction,
    /// The transaction that opens a block.
    BlockMetadataTransaction { info: TransactionInfo },
    /// The transaction that created the ledger.
    GenesisTransaction { info: TransactionInfo },
    /// A checkpoint of the ledger state.
    StateCheckpointTransaction { info: TransactionInfo },
    /// The transaction that closes a block.
    BlockEpilogueTransaction { info: TransactionInfo },
    /// A transaction of the validators.
    ValidatorTransaction { info: TransactionInfo },
}

/// The ledger has reported a transaction without an execution summary.
#[derive(Clone, Copy, Debug, PartialEq, Eq, Structural)]
pub struct MissingTransactionInfo;

/// No event of the expected type is among those of a transaction.
#[derive(Clone, Copy, Debug, PartialEq, Eq, Structural)]
pub struct EventNotFound;

/// Whether `i` is the place of the first event of type `type_id` in
/// `events`.
pub open spec fn is_first_event(events: Seq<EventRecord>, type_id: Seq<char>, i: int) -> bool {
    &&& 0 <= i < events.len()
    &&& events[i].type_id@ == type_id
    &&& forall|j: int| 0 <= j < i ==> (#[trigger] events[j]).type_id@ != type_id
}

/// Whether an event of type `type_id` is among `events`.
pub open spec fn has_event(events: Seq<EventRecord>, type_id: Seq<char>) -> bool {
    exists|i: int| 0 <= i < events.len() && (#[trigger] events[i]).type_id@ == type_id
}

/// The place of the first event of type `type_id` in `events`, where there
/// is one.
pub open spec fn first_event_index(events: Seq<EventRecord>, type_id: Seq<char>) -> int {
    choose|i: int| is_first_event(events, type_id, i)
}

/// Whether `i` is the place of the first field called `name` in `fields`.
pub open spec fn is_first_field(fields: Seq<EventField>, name: Seq<char>, i: int) -> bool {
    &&& 0 <= i < fields.len()
    &&& fields[i].name@ == name
    &&& forall|j: int| 0 <= j < i ==> (#[trigger] fields[j]).name@ != name
}

/// Whether a field called `name` is among `fields`.
pub open spec fn has_field(fields: Seq<EventField>, name: Seq<char>) -> bool {
    exists|i: int| 0 <= i < fields.len() && (#[trigger] fields[i]).name@ == name
}

/// The value of the first field called `name` in `fields`, if there is one.
pub open spec fn field_value(fields: Seq<EventField>, name: Seq<char>) -> Option<Seq<char>> {
    if has_field(fields, name) {
        Some(fields[choose|i: int| is_first_field(fields, name, i)].value@)
    } else {
        None
    }
}

/// The search for an event has one answer: at most one place is the first
/// one of an event type, so two searches of the same events for the same
/// type find the same event.
pub proof fn lemma_first_event_unique(events: Seq<EventRecord>, type_id: Seq<char>, i: int, j: int)
    requires
        is_first_event(events, type_id, i),
        is_first_event(events, type_id, j),
    ensures
        i == j,
{
}

impl EventRecord {
    /// Looks up the field called `name`. Names are compared character by
    /// character, and of several fields of one name the first is returned.
    pub fn field(&self, name: &str) -> (r: Option<&String>)
        ensures
            r matches Some(v) ==> field_value(self.fields@, name@) == Some(v@),
            r is None ==> field_value(self.fields@, name@) is None,
    {
        let key = name.to_owned();
        let mut i: usize = 0;
        while i < self.fields.len()
            invariant
                i <= self.fields.len(),
                key@ == name@,
                forall|j: int| 0 <= j < i ==> (#[trigger] self.fields[j]).name@ != name@,
            decreases self.fields.len() - i,
        {
            if self.fields[i].name == key {
                assert(is_first_field(self.fields@, name@, i as int));
                return Some(&self.fields[i].value);
            }
            i += 1;
        }
        None
    }
}

/// Searches `events` for the first one of type `type_id`. Types are
/// compared character by character.
pub fn find_event<'a>(events: &'a Vec<EventRecord>, type_id: &str) -> (r: Option<&'a EventRecord>)
    ensures
        r is Some <==> has_event(events@, type_id@),
        r matches Some(e) ==> e.type_id@ == type_id@,
        r matches Some(e) ==> is_first_event(events@, type_id@, first_event_index(events@, type_id@))
            && *e == events[first_event_index(events@, type_id@)],
{
    let key = type_id.to_owned();
    let mut i: usize = 0;
    while i < events.len()
        invariant
            i <= events.len(),
            key@ == type_id@,
            forall|j: int| 0 <= j < i ==> (#[trigger] events[j]).type_id@ != type_id@,
        decreases events.len() - i,
    {
        if events[i].type_id == key {
            assert(is_first_event(events@, type_id@, i as int));
            return Some(&events[i]);
        }
        i += 1;
    }
    None
}

/// The transaction of the kind that the ledger calls `kind`, with the
/// summary `info` and the events `events`, or nothing where the ledger
/// has no such kind or where a summary is missing that the kind has.
pub open spec fn transaction_of_kind(
    kind: Seq<char>,
    info: Option<TransactionInfo>,
    events: Vec<EventRecord>,
) -> Option<Transaction> {
    if kind == "pending_transaction"@ {
        Some(Transaction::PendingTransaction)
    } else {
        match info {
            None => None,
            Some(info) => if kind == "user_transaction"@ {
                Some(Transaction::UserTransaction { info, events })
            } else if kind == "block_metadata_transaction"@ {
                Some(Transaction::BlockMetadataTransaction { info })
            } else if kind == "genesis_transaction"@ {
                Some(Transaction::GenesisTransaction { info })
            } else if kind == "state_checkpoint_transaction"@ {
                Some(Transaction::StateCheckpointTransaction { info })
            } else if kind == "block_epilogue_transaction"@ {
                Some(Transaction::BlockEpilogueTransaction { info })
            } else if kind == "validator_transaction"@ {
                Some(Transaction::ValidatorTransaction { info })
            } else {
                None
            },
        }
    }
}

/// Tells whether `a` and `b` are the same text.
fn same_text(a: &str, b: &str) -> (same: bool)
    ensures
        same == (a@ == b@),
{
    a.to_owned() == b.to_owned()
}

impl Transaction {
    /// Puts a transaction together from the name `kind` that the ledger
    /// gives to its kind, its summary and its events. The events of a
    /// transaction that no account sent are dropped.
    pub fn from_kind(kind: &str, info: Option<TransactionInfo>, events: Vec<EventRecord>) -> (r:
        Option<Transaction>)
        ensures
            r == transaction_of_kind(kind@, info, events),
    {
        if same_text(kind, "pending_transaction") {
            return Some(Transaction::PendingTransaction);
        }
        let info = match info {
            Some(info) => info,
            None => {
                return None;
            },
        };
        if same_text(kind, "user_transaction") {
            Some(Transaction::UserTransaction { info, events })
        } else if same_text(kind, "block_metadata_transaction") {
            Some(Transaction::BlockMetadataTransaction { info })
        } else if same_text(kind, "genesis_transaction") {
            Some(Transaction::GenesisTransaction { info })
        } else if same_text(kind, "state_checkpoint_transaction") {
            Some(Transaction::StateCheckpointTransaction { info })
        } else if same_text(kind, "block_epilogue_transaction") {
            Some(Transaction::BlockEpilogueTransaction { info })
        } else if same_text(kind, "validator_transaction") {
            Some(Transaction::ValidatorTransaction { info })
        } else {
            None
        }
    }

    /// The execution summary, which every transaction but a pending one
    /// has.
    pub open spec fn info(&self) -> Option<TransactionInfo> {
        match self {
            Transaction::UserTransaction { info, .. } => Some(*info),
            Transaction::PendingTransaction => None,
            Transaction::BlockMetadataTransaction { info } => Some(*info),
            Transaction::GenesisTransaction { info } => Some(*info),
            Transaction::StateCheckpointTransaction { info } => Some(*info),
            Transaction::BlockEpilogueTransaction { info } => Some(*info),
            Transaction::ValidatorTransaction { info } => Some(*info),
        }
    }

    /// The events that the library reads from the transaction: those of a
    /// user transaction, and none of any other kind.
    pub open spec fn events(&self) -> Seq<EventRecord> {
        match self {
            Transaction::UserTransaction { events, .. } => events@,
            _ => Seq::empty(),
        }
    }

    /// The gas units that the transaction consumed, and zero where it has
    /// no summary.
    pub open spec fn gas_used(&self) -> u64 {
        match self.info() {
            Some(info) => info.gas_used,
            None => 0,
        }
    }

    /// Returns the execution summary of the transaction.
    pub fn transaction_info(&self) -> (r: Result<&TransactionInfo, MissingTransactionInfo>)
        ensures
            r matches Ok(info) ==> self.info() == Some(*info),
            r is Err ==> self.info() is None,
    {
        match self {
            Transaction::UserTransaction { info, .. } => Ok(info),
            Transaction::PendingTransaction => Err(MissingTransactionInfo),
            Transaction::BlockMetadataTransaction { info } => Ok(info),
            Transaction::GenesisTransaction { info } => Ok(info),
            Transaction::StateCheckpointTransaction { info } => Ok(info),
            Transaction::BlockEpilogueTransaction { info } => Ok(info),
            Transaction::ValidatorTransaction { info } => Ok(info),
        }
    }
}

/// Returns the first event of type `event_type` that `transaction` emitted.
/// Only a user transaction has events to search.
pub fn get_event_from_transaction<'a>(transaction: &'a Transaction, event_type: &str) -> (r: Result<
    &'a EventRecord,
    EventNotFound,
>)
    ensures
        r is Ok <==> has_event(transaction.events(), event_type@),
        r matches Ok(e) ==> e.type_id@ == event_type@,
        r matches Ok(e) ==> is_first_event(
            transaction.events(),
            event_type@,
            first_event_index(transaction.events(), event_type@),
        ) && *e == transaction.events()[first_event_index(transaction.events(), event_type@)],
{
    match transaction {
        Transaction::UserTransaction { events, .. } => match find_event(events, event_type) {
            Some(e) => Ok(e),
            None => Err(EventNotFound),
        },
        _ => Err(EventNotFound),
    }
}

/// The type of the event `name` that the module `module` at `address`
/// emits: the three parts joined by `::`.
pub fn event_type_id(address: &str, module: &str, name: &str) -> (r: String)
    ensures
        r@ == address@ + "::"@ + module@ + "::"@ + name@,
{
    let mut r = address.to_owned();
    r.append("::");
    r.append(module);
    r.append("::");
    r.append(name);
    r
}

} // verus!
