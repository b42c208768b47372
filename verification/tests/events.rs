use test_sdk::projection::{
    read_u256, read_u64, ComputeNextLayer, InitFriGroup, ProjectionError, RegisterFact,
    VerifyMerkle,
};
use test_sdk::workflow::WorkflowError;
use test_sdk::transaction::{
    event_type_id, find_event, get_event_from_transaction, EventField, EventNotFound, EventRecord,
    MissingTransactionInfo, Transaction, TransactionInfo,
};

fn event(type_id: &str, fields: &[(&str, &str)]) -> EventRecord {
    EventRecord {
        type_id: type_id.to_string(),
        fields: fields
            .iter()
            .map(|(name, value)| EventField { name: name.to_string(), value: value.to_string() })
            .collect(),
    }
}

fn info(gas_used: u64) -> TransactionInfo {
    TransactionInfo { version: 1, hash: "0xabc".to_string(), gas_used }
}

#[test]
fn find_event_of_empty_list() {
    assert_eq!(find_event(&vec![], "0x1::m::E"), None);
}

#[test]
fn find_event_returns_the_first_match() {
    let events = vec![
        event("0x1::m::A", &[("n", "1")]),
        event("0x1::m::B", &[("n", "2")]),
        event("0x1::m::B", &[("n", "3")]),
        event("0x1::m::C", &[("n", "4")]),
    ];
    assert_eq!(find_event(&events, "0x1::m::B"), Some(&events[1]));
    assert_eq!(find_event(&events, "0x1::m::A"), Some(&events[0]));
    assert_eq!(find_event(&events, "0x1::m::C"), Some(&events[3]));
}

#[test]
fn find_event_compares_types_exactly() {
    let events = vec![event("0x1::m::Event", &[])];
    for other in ["0x1::m::event", "0x1::m::Even", "0x1::m::Events", " 0x1::m::Event", ""] {
        assert_eq!(find_event(&events, other), None, "type {:?}", other);
    }
    let found = find_event(&events, "0x1::m::Event").unwrap();
    assert_eq!(found.type_id, "0x1::m::Event");
}

#[test]
fn events_are_read_from_user_transactions_only() {
    let events = vec![event("0x1::m::E", &[("x", "1")])];
    let user = Transaction::UserTransaction { info: info(5), events: events.clone() };
    assert_eq!(get_event_from_transaction(&user, "0x1::m::E"), Ok(&events[0]));
    assert_eq!(get_event_from_transaction(&user, "0x1::m::F"), Err(EventNotFound));
    let others = [
        Transaction::PendingTransaction,
        Transaction::BlockMetadataTransaction { info: info(0) },
        Transaction::GenesisTransaction { info: info(0) },
        Transaction::StateCheckpointTransaction { info: info(0) },
        Transaction::BlockEpilogueTransaction { info: info(0) },
        Transaction::ValidatorTransaction { info: info(0) },
    ];
    for tx in others.iter() {
        assert_eq!(get_event_from_transaction(tx, "0x1::m::E"), Err(EventNotFound));
    }
}

#[test]
fn transaction_info_of_each_kind() {
    let user = Transaction::UserTransaction { info: info(77), events: vec![] };
    assert_eq!(user.transaction_info().unwrap().gas_used, 77);
    assert_eq!(Transaction::PendingTransaction.transaction_info(), Err(MissingTransactionInfo));
    let genesis = Transaction::GenesisTransaction { info: info(3) };
    assert_eq!(genesis.transaction_info(), Ok(&info(3)));
}

#[test]
fn transaction_is_put_together_by_its_kind() {
    let events = vec![event("0x1::m::E", &[])];
    assert_eq!(
        Transaction::from_kind("user_transaction", Some(info(9)), events.clone()),
        Some(Transaction::UserTransaction { info: info(9), events: events.clone() })
    );
    assert_eq!(
        Transaction::from_kind("pending_transaction", None, vec![]),
        Some(Transaction::PendingTransaction)
    );
    assert_eq!(
        Transaction::from_kind("pending_transaction", Some(info(1)), events.clone()),
        Some(Transaction::PendingTransaction)
    );
    let others = [
        ("block_metadata_transaction", Transaction::BlockMetadataTransaction { info: info(2) }),
        ("genesis_transaction", Transaction::GenesisTransaction { info: info(2) }),
        ("state_checkpoint_transaction", Transaction::StateCheckpointTransaction { info: info(2) }),
        ("block_epilogue_transaction", Transaction::BlockEpilogueTransaction { info: info(2) }),
        ("validator_transaction", Transaction::ValidatorTransaction { info: info(2) }),
    ];
    for (kind, expected) in others {
        assert_eq!(Transaction::from_kind(kind, Some(info(2)), events.clone()), Some(expected));
        assert_eq!(Transaction::from_kind(kind, None, vec![]), None);
    }
    assert_eq!(Transaction::from_kind("user_transaction", None, vec![]), None);
    assert_eq!(Transaction::from_kind("User_Transaction", Some(info(1)), vec![]), None);
    assert_eq!(Transaction::from_kind("", Some(info(1)), vec![]), None);
}

#[test]
fn event_type_id_joins_with_colons() {
    assert_eq!(
        event_type_id("0xcafe", "memory_page_fact_registry", "LogMemoryPageFactContinuous"),
        "0xcafe::memory_page_fact_registry::LogMemoryPageFactContinuous"
    );
    assert_eq!(event_type_id("", "", ""), "::::");
}

#[test]
fn field_lookup_takes_the_first_of_a_name() {
    let e = event("t", &[("a", "1"), ("b", "2"), ("a", "3")]);
    assert_eq!(e.field("a").map(|s| s.as_str()), Some("1"));
    assert_eq!(e.field("b").map(|s| s.as_str()), Some("2"));
    assert_eq!(e.field("c"), None);
    assert_eq!(e.field("A"), None);
}

#[test]
fn read_u64_reports_what_is_wrong() {
    let e = event("t", &[("n", "42"), ("bad", "4x2"), ("big", "18446744073709551616")]);
    assert_eq!(read_u64(&e, "n"), Ok(42));
    assert_eq!(read_u64(&e, "none"), Err(ProjectionError::MissingField("none".to_string())));
    assert_eq!(
        read_u64(&e, "bad"),
        Err(ProjectionError::InvalidNumeric("bad".to_string(), "4x2".to_string()))
    );
    assert_eq!(
        read_u64(&e, "big"),
        Err(ProjectionError::InvalidNumeric(
            "big".to_string(),
            "18446744073709551616".to_string()
        ))
    );
}

#[test]
fn read_u256_reports_what_is_wrong() {
    let e = event("t", &[("root", "18446744073709551616"), ("bad", "-1")]);
    let v = read_u256(&e, "root").unwrap();
    assert_eq!(v.bytes[8], 1);
    assert_eq!(read_u256(&e, "gone"), Err(ProjectionError::MissingField("gone".to_string())));
    assert_eq!(
        read_u256(&e, "bad"),
        Err(ProjectionError::InvalidNumeric("bad".to_string(), "-1".to_string()))
    );
}

#[test]
fn verify_merkle_record_is_read_field_by_field() {
    let e = event(
        "t",
        &[
            ("n_queries", "12"),
            ("expected_root", "123456789"),
            ("merkle_queue_ptr", "2048"),
            ("channel_ptr", "1024"),
            ("extra", "ignored"),
        ],
    );
    let record = VerifyMerkle::project(&e).unwrap();
    assert_eq!(record.channel_ptr, 1024);
    assert_eq!(record.merkle_queue_ptr, 2048);
    assert_eq!(record.expected_root.bytes[..4], 123456789u32.to_le_bytes());
    assert_eq!(record.n_queries, 12);
}

#[test]
fn verify_merkle_without_n_queries_is_incomplete() {
    let e = event(
        "t",
        &[("channel_ptr", "1024"), ("merkle_queue_ptr", "2048"), ("expected_root", "5")],
    );
    assert_eq!(
        VerifyMerkle::project(&e),
        Err(ProjectionError::MissingField("n_queries".to_string()))
    );
}

#[test]
fn every_field_of_a_record_is_required() {
    let all = [
        ("channel_ptr", "1"),
        ("fri_queue_ptr", "2"),
        ("merkle_queue_ptr", "3"),
        ("n_queries", "4"),
        ("evaluation_point", "5"),
        ("fri_coset_size", "6"),
    ];
    assert_eq!(
        ComputeNextLayer::project(&event("t", &all)).map(|r| r.fri_coset_size),
        Ok(6)
    );
    for missing in 0..all.len() {
        let fields: Vec<(&str, &str)> =
            all.iter().enumerate().filter(|(i, _)| *i != missing).map(|(_, f)| *f).collect();
        assert_eq!(
            ComputeNextLayer::project(&event("t", &fields)),
            Err(ProjectionError::MissingField(all[missing].0.to_string()))
        );
    }
}

#[test]
fn the_first_faulty_field_is_reported() {
    let e = event("t", &[("channel_ptr", "x"), ("expected_root", "1"), ("n_queries", "1")]);
    assert_eq!(
        VerifyMerkle::project(&e),
        Err(ProjectionError::InvalidNumeric("channel_ptr".to_string(), "x".to_string()))
    );
    let e = event("t", &[("channel_ptr", "1"), ("expected_root", "y"), ("n_queries", "1")]);
    assert_eq!(
        VerifyMerkle::project(&e),
        Err(ProjectionError::MissingField("merkle_queue_ptr".to_string()))
    );
}

#[test]
fn small_records() {
    let e = event("t", &[("fri_ctx", "99")]);
    assert_eq!(InitFriGroup::project(&e), Ok(InitFriGroup { fri_ctx: 99 }));
    assert_eq!(
        InitFriGroup::project(&event("t", &[])),
        Err(ProjectionError::MissingField("fri_ctx".to_string()))
    );
    let e = event("t", &[("data_to_hash_ptr", "7"), ("queue_ptr", "8")]);
    assert_eq!(RegisterFact::project(&e), Ok(RegisterFact { data_to_hash_ptr: 7, queue_ptr: 8 }));
    assert_eq!(
        RegisterFact::project(&event("t", &[("data_to_hash_ptr", "7")])),
        Err(ProjectionError::MissingField("queue_ptr".to_string()))
    );
}

#[test]
fn record_is_read_from_the_first_event_of_its_type() {
    let tx = Transaction::UserTransaction {
        info: info(1),
        events: vec![
            event("0x1::m::Other", &[("fri_ctx", "1")]),
            event("0x1::m::Init", &[("fri_ctx", "2")]),
            event("0x1::m::Init", &[("fri_ctx", "3")]),
            event("0x1::m::Bad", &[("fri_ctx", "x")]),
        ],
    };
    assert_eq!(InitFriGroup::reported_by(&tx, "0x1::m::Init"), Ok(InitFriGroup { fri_ctx: 2 }));
    assert_eq!(InitFriGroup::reported_by(&tx, "0x1::m::None"), Err(WorkflowError::EventNotFound));
    assert_eq!(
        InitFriGroup::reported_by(&tx, "0x1::m::Bad"),
        Err(WorkflowError::Projection(ProjectionError::InvalidNumeric(
            "fri_ctx".to_string(),
            "x".to_string()
        )))
    );
    assert_eq!(
        RegisterFact::reported_by(&tx, "0x1::m::Init"),
        Err(WorkflowError::Projection(ProjectionError::MissingField(
            "data_to_hash_ptr".to_string()
        )))
    );
    assert_eq!(
        VerifyMerkle::reported_by(&Transaction::PendingTransaction, "0x1::m::Init"),
        Err(WorkflowError::EventNotFound)
    );
    assert_eq!(
        ComputeNextLayer::reported_by(&tx, "0x1::m::Init"),
        Err(WorkflowError::Projection(ProjectionError::MissingField("channel_ptr".to_string())))
    );
}

#[test]
fn projection_error_in_words() {
    assert_eq!(
        ProjectionError::MissingField("n_queries".to_string()).message(),
        "missing field n_queries"
    );
    assert_eq!(
        ProjectionError::InvalidNumeric("n".to_string(), "x1".to_string()).message(),
        "invalid number in field n: x1"
    );
}
