use test_sdk::config::{
    total_gas, total_gas_of_runs, Config, GlobalStat, StatInfo, VparStat, WorkflowStat,
};
use test_sdk::decimal::ParseError;
use test_sdk::encoding::ArgValue;
use test_sdk::payload::{build_payload, CallPayload, EncodingError};
use test_sdk::projection::ProjectionError;
use test_sdk::register_continuous_memory_page::{
    page_registered_event, registration_payload, ContinuousMemoryPage, MemoryPageEntries,
    PageRegistration, PollDecision, REGISTRATION_ATTEMPTS, REGISTRATION_DELAY_MILLIS,
};
use test_sdk::transaction::{EventField, EventRecord, Transaction, TransactionInfo};
use test_sdk::u256::{str_to_u256, U256};
use test_sdk::verify_fri::{FriVerification, FriVerifyInput, VerifyFriTransactionInput, FRI_STEPS};
use test_sdk::verify_merkle::{
    MerkleVerification, MerkleVerifyInput, VerifyMerkleTransactionInput, MERKLE_STEPS,
};
use test_sdk::verify_proof_and_register::{
    vpar_finished_event, VerifyProofAndRegisterData, VerifyProofAndRegisterDataJson, VparProgress,
    ADVANCE_STEPS, TOTAL_STEPS,
};
use test_sdk::workflow::{step_stat, WorkflowError};

const ADDRESS: &str = "0xcafe";

fn strings(items: &[&str]) -> Vec<String> {
    items.iter().map(|s| s.to_string()).collect()
}

fn word(n: u64) -> U256 {
    let mut bytes = [0u8; 32];
    bytes[..8].copy_from_slice(&n.to_le_bytes());
    U256 { bytes }
}

fn event(type_id: &str, fields: &[(&str, &str)]) -> EventRecord {
    EventRecord {
        type_id: type_id.to_string(),
        fields: fields
            .iter()
            .map(|(name, value)| EventField { name: name.to_string(), value: value.to_string() })
            .collect(),
    }
}

fn confirmed(gas_used: u64, events: Vec<EventRecord>) -> Transaction {
    Transaction::UserTransaction {
        info: TransactionInfo { version: 10, hash: "0x01".to_string(), gas_used },
        events,
    }
}

fn merkle_input() -> MerkleVerifyInput {
    MerkleVerifyInput {
        merkle_view: strings(&["1", "2", "3"]),
        initial_merkle_queue: strings(&["4", "5"]),
        height: "3".to_string(),
        expected_root: "123456789".to_string(),
    }
}

fn merkle_statement_events() -> Vec<EventRecord> {
    vec![
        event(
            "0xcafe::merkle_statement_contract::VerifyMerkle",
            &[
                ("channel_ptr", "4096"),
                ("merkle_queue_ptr", "8192"),
                ("expected_root", "123456789"),
                ("n_queries", "2"),
            ],
        ),
        event(
            "0xcafe::merkle_statement_contract::RegisterFactVerifyMerkle",
            &[("data_to_hash_ptr", "12288"), ("queue_ptr", "8192")],
        ),
    ]
}

fn fri_statement_events() -> Vec<EventRecord> {
    vec![
        event("0xcafe::fri_statement_contract::InitFriGroup", &[("fri_ctx", "100")]),
        event(
            "0xcafe::fri_statement_contract::ComputeNextLayer",
            &[
                ("channel_ptr", "1"),
                ("fri_queue_ptr", "2"),
                ("merkle_queue_ptr", "3"),
                ("n_queries", "4"),
                ("evaluation_point", "5"),
                ("fri_coset_size", "6"),
            ],
        ),
        event(
            "0xcafe::fri_statement_contract::RegisterFactVerifyFri",
            &[("data_to_hash_ptr", "7"), ("queue_ptr", "8")],
        ),
    ]
}

#[test]
fn merkle_input_is_read_from_numerals() {
    let typed = VerifyMerkleTransactionInput::parse(&merkle_input()).unwrap();
    assert_eq!(typed.merkle_view, vec![word(1), word(2), word(3)]);
    assert_eq!(typed.initial_merkle_queue, vec![word(4), word(5)]);
    assert_eq!(typed.height, 3);
    assert_eq!(typed.expected_root, word(123456789));
}

#[test]
fn merkle_input_with_a_malformed_numeral() {
    let mut input = merkle_input();
    input.height = "256".to_string();
    assert_eq!(VerifyMerkleTransactionInput::parse(&input), Err(EncodingError::InvalidNumeric));
    let mut input = merkle_input();
    input.merkle_view[1] = "0x2".to_string();
    assert_eq!(VerifyMerkleTransactionInput::parse(&input), Err(EncodingError::InvalidNumeric));
    let mut input = merkle_input();
    input.expected_root = String::new();
    assert_eq!(VerifyMerkleTransactionInput::parse(&input), Err(EncodingError::InvalidNumeric));
}

#[test]
fn verify_merkle_against_a_ledger_that_always_succeeds() {
    let typed = VerifyMerkleTransactionInput::parse(&merkle_input()).unwrap();
    let mut workflow = MerkleVerification::new();
    let first = typed.statement_payload().unwrap();
    assert_eq!(first.module, "merkle_statement_contract");
    assert_eq!(first.function, "verify_merkle");
    assert_eq!(first.size, 97 + 65 + 1 + 32);

    let second = workflow
        .on_confirmed(&first, &confirmed(700, merkle_statement_events()), ADDRESS, 1500)
        .unwrap()
        .unwrap();
    let expected = build_payload(
        "merkle_verifier",
        "verify_merkle",
        &vec![
            ArgValue::U64(4096),
            ArgValue::U64(8192),
            ArgValue::U256(word(123456789)),
            ArgValue::U64(2),
        ],
    )
    .unwrap();
    assert_eq!(second, expected);

    let third =
        workflow.on_confirmed(&second, &confirmed(300, vec![]), ADDRESS, 900).unwrap().unwrap();
    let expected = build_payload(
        "merkle_statement_contract",
        "register_fact_verify_merkle",
        &vec![ArgValue::U64(12288), ArgValue::U64(8192)],
    )
    .unwrap();
    assert_eq!(third, expected);

    let next = workflow.on_confirmed(&third, &confirmed(0, vec![]), ADDRESS, 0).unwrap();
    assert_eq!(next, None);

    let stat = workflow.finish().unwrap();
    assert_eq!(stat.steps.len(), 3);
    assert_eq!(MERKLE_STEPS, 3);
    assert_eq!(
        stat.steps,
        vec![
            StatInfo { time_micros: 1500, gas_used: 700, size_bytes: Some(195) },
            StatInfo { time_micros: 900, gas_used: 300, size_bytes: Some(56) },
            StatInfo { time_micros: 0, gas_used: 0, size_bytes: Some(16) },
        ]
    );
}

#[test]
fn verify_merkle_fails_without_its_events() {
    let typed = VerifyMerkleTransactionInput::parse(&merkle_input()).unwrap();
    let first = typed.statement_payload().unwrap();

    let mut workflow = MerkleVerification::new();
    let r = workflow.on_confirmed(&first, &confirmed(1, vec![]), ADDRESS, 1);
    assert_eq!(r, Err(WorkflowError::EventNotFound));
    assert_eq!(workflow, MerkleVerification::new());
    assert_eq!(workflow.finish(), None);

    let mut workflow = MerkleVerification::new();
    let mut events = merkle_statement_events();
    events.pop();
    let r = workflow.on_confirmed(&first, &confirmed(1, events), ADDRESS, 1);
    assert_eq!(r, Err(WorkflowError::EventNotFound));

    let mut workflow = MerkleVerification::new();
    let mut events = merkle_statement_events();
    events[0].fields.pop();
    let r = workflow.on_confirmed(&first, &confirmed(1, events), ADDRESS, 1);
    assert_eq!(
        r,
        Err(WorkflowError::Projection(ProjectionError::MissingField("n_queries".to_string())))
    );
    assert_eq!(workflow.stats.len(), 0);

    let mut workflow = MerkleVerification::new();
    let r = workflow.on_confirmed(&first, &Transaction::PendingTransaction, ADDRESS, 1);
    assert_eq!(r, Err(WorkflowError::MissingTransactionInfo));
}

#[test]
fn verify_merkle_without_its_record_does_not_go_on() {
    let payload = build_payload("merkle_verifier", "verify_merkle", &vec![]).unwrap();
    let recorded = StatInfo { time_micros: 1, gas_used: 1, size_bytes: None };
    let mut workflow =
        MerkleVerification { stats: vec![recorded], verify: None, register: None };
    let before = workflow.clone();
    let r = workflow.on_confirmed(&payload, &confirmed(1, vec![]), ADDRESS, 1);
    assert_eq!(r, Err(WorkflowError::WorkflowPrecondition));
    assert_eq!(workflow, before);
    let r = workflow.on_confirmed(&payload, &Transaction::PendingTransaction, ADDRESS, 1);
    assert_eq!(r, Err(WorkflowError::MissingTransactionInfo));
}

#[test]
fn verify_merkle_ignores_what_comes_after_the_end() {
    let typed = VerifyMerkleTransactionInput::parse(&merkle_input()).unwrap();
    let mut workflow = MerkleVerification::new();
    let mut payload = typed.statement_payload().unwrap();
    let tx = confirmed(1, merkle_statement_events());
    while let Some(next) = workflow.on_confirmed(&payload, &tx, ADDRESS, 1).unwrap() {
        payload = next;
    }
    assert_eq!(workflow.stats.len(), 3);
    assert_eq!(workflow.on_confirmed(&payload, &tx, ADDRESS, 1), Ok(None));
    assert_eq!(workflow.stats.len(), 3);
}

#[test]
fn verify_fri_runs_five_steps() {
    let input = FriVerifyInput {
        proof: strings(&["11", "12"]),
        fri_queue: strings(&["13"]),
        evaluation_point: "14".to_string(),
        fri_step_size: "2".to_string(),
        expected_root: "15".to_string(),
    };
    let typed = VerifyFriTransactionInput::parse(&input).unwrap();
    assert_eq!(typed.fri_step_size, 2);
    let mut workflow = FriVerification::new(&typed);
    let mut payload = typed.statement_payload().unwrap();
    assert_eq!((payload.module.as_str(), payload.function.as_str()), (
        "fri_statement_contract",
        "verify_fri"
    ));
    assert_eq!(payload.size, 65 + 33 + 32 + 1 + 32);
    let mut calls = vec![];
    let tx = confirmed(10, fri_statement_events());
    let mut gas = 0;
    while let Some(next) = workflow.on_confirmed(&payload, &tx, ADDRESS, 5).unwrap() {
        calls.push((next.module.clone(), next.function.clone(), next.args.clone()));
        payload = next;
        gas += 10;
    }
    assert_eq!(gas, 40);
    let le = |n: u64| n.to_le_bytes().to_vec();
    assert_eq!(
        calls,
        vec![
            ("fri_layer".to_string(), "init_fri_group".to_string(), vec![le(100)]),
            (
                "fri_layer".to_string(),
                "compute_next_layer".to_string(),
                vec![le(1), le(2), le(3), le(4), word(5).bytes.to_vec(), le(6)]
            ),
            (
                "merkle_verifier".to_string(),
                "verify_merkle".to_string(),
                vec![le(1), le(3), word(15).bytes.to_vec(), le(4)]
            ),
            (
                "fri_statement_contract".to_string(),
                "register_fact_verify_fri".to_string(),
                vec![le(7), le(8)]
            ),
        ]
    );
    let stat = workflow.finish().unwrap();
    assert_eq!(stat.steps.len(), FRI_STEPS);
    assert_eq!(total_gas(&stat.steps), Some(50));
}

#[test]
fn verify_fri_needs_all_three_events() {
    let typed = VerifyFriTransactionInput {
        proof: vec![],
        fri_queue: vec![],
        evaluation_point: word(0),
        fri_step_size: 0,
        expected_root: word(0),
    };
    let payload = typed.statement_payload().unwrap();
    for missing in 0..3 {
        let mut events = fri_statement_events();
        events.remove(missing);
        let mut workflow = FriVerification::new(&typed);
        let r = workflow.on_confirmed(&payload, &confirmed(1, events), ADDRESS, 1);
        assert_eq!(r, Err(WorkflowError::EventNotFound));
        assert_eq!(workflow.stats.len(), 0);
    }
    let mut events = fri_statement_events();
    events[1].fields[4].value = "five".to_string();
    let mut workflow = FriVerification::new(&typed);
    let r = workflow.on_confirmed(&payload, &confirmed(1, events), ADDRESS, 1);
    assert_eq!(
        r,
        Err(WorkflowError::Projection(ProjectionError::InvalidNumeric(
            "evaluation_point".to_string(),
            "five".to_string()
        )))
    );
}

#[test]
fn verify_fri_without_its_record_does_not_go_on() {
    let payload = build_payload("fri_layer", "init_fri_group", &vec![]).unwrap();
    let recorded = StatInfo { time_micros: 1, gas_used: 1, size_bytes: None };
    for steps in 1..4 {
        let mut workflow = FriVerification {
            expected_root: word(1),
            stats: vec![recorded; steps],
            init: None,
            compute: None,
            register: None,
        };
        let r = workflow.on_confirmed(&payload, &confirmed(1, vec![]), ADDRESS, 1);
        assert_eq!(r, Err(WorkflowError::WorkflowPrecondition));
        assert_eq!(workflow.stats.len(), steps);
    }
    let mut workflow = FriVerification {
        expected_root: word(1),
        stats: vec![recorded; 4],
        init: None,
        compute: None,
        register: None,
    };
    assert_eq!(workflow.on_confirmed(&payload, &confirmed(1, vec![]), ADDRESS, 1), Ok(None));
    assert_eq!(workflow.finish().map(|s| s.steps.len()), Some(5));
}

#[test]
fn fri_input_with_a_malformed_numeral() {
    let input = FriVerifyInput {
        proof: strings(&["11", "12"]),
        fri_queue: strings(&["13"]),
        evaluation_point: "14".to_string(),
        fri_step_size: "-2".to_string(),
        expected_root: "15".to_string(),
    };
    assert_eq!(VerifyFriTransactionInput::parse(&input), Err(EncodingError::InvalidNumeric));
}

fn page() -> ContinuousMemoryPage {
    ContinuousMemoryPage {
        start_addr: "100".to_string(),
        values: strings(&["7", "8", "9"]),
        z: "11".to_string(),
        alpha: "12".to_string(),
        prime: "not read".to_string(),
    }
}

#[test]
fn registration_payload_of_a_page() {
    let payload = registration_payload(&page()).unwrap();
    let expected = build_payload(
        "memory_page_fact_registry",
        "register_continuous_memorypage",
        &vec![
            ArgValue::U256(word(100)),
            ArgValue::U256Vector(vec![word(7), word(8), word(9)]),
            ArgValue::U256(word(11)),
            ArgValue::U256(word(12)),
        ],
    )
    .unwrap();
    assert_eq!(payload, expected);
    assert_eq!(payload.size, 32 + 97 + 32 + 32);
    let entries = MemoryPageEntries { memory_page_entries: vec![page(), page()] };
    assert_eq!(entries.memory_page_entries.len(), 2);
}

#[test]
fn registration_payload_refuses_malformed_numerals() {
    let mut data = page();
    data.values[2] = "9 ".to_string();
    assert_eq!(registration_payload(&data), Err(EncodingError::InvalidNumeric));
    let mut data = page();
    data.z = "".to_string();
    assert_eq!(registration_payload(&data), Err(EncodingError::InvalidNumeric));
    let mut data = page();
    data.alpha = "1e3".to_string();
    assert_eq!(registration_payload(&data), Err(EncodingError::InvalidNumeric));
    let mut data = page();
    data.start_addr = "+1".to_string();
    assert_eq!(registration_payload(&data), Err(EncodingError::InvalidNumeric));
}

#[test]
fn registration_adds_up_the_gas_of_every_submission() {
    let payload = registration_payload(&page()).unwrap();
    let event_type = page_registered_event(ADDRESS);
    assert_eq!(event_type, "0xcafe::memory_page_fact_registry::LogMemoryPageFactContinuous");
    let gas = [120u64, 80, 95, 300];
    let mut state = PageRegistration::new(&payload, None);
    assert_eq!(state.stat, StatInfo { time_micros: 0, gas_used: 0, size_bytes: Some(193) });
    for (i, g) in gas.iter().enumerate() {
        let events = if i + 1 == gas.len() {
            vec![event(&event_type, &[])]
        } else {
            vec![event("0xcafe::memory_page_fact_registry::Other", &[])]
        };
        let due = state.on_confirmed(&confirmed(*g, events), &event_type, 1000 * (i as u64 + 1));
        let expected =
            if i + 1 == gas.len() { PollDecision::Registered } else { PollDecision::Resubmit };
        assert_eq!(due, Ok(expected));
    }
    assert_eq!(state.submissions, 4);
    assert!(state.registered);
    assert_eq!(state.stat, StatInfo { time_micros: 4000, gas_used: 595, size_bytes: Some(193) });
    assert_eq!((REGISTRATION_ATTEMPTS, REGISTRATION_DELAY_MILLIS), (10, 3000));
}

#[test]
fn registration_without_ceiling_goes_on() {
    let payload = registration_payload(&page()).unwrap();
    let mut state = PageRegistration::new(&payload, None);
    for i in 0..1000u64 {
        let due = state.on_confirmed(&confirmed(3, vec![]), "0xcafe::m::E", i);
        assert_eq!(due, Ok(PollDecision::Resubmit));
    }
    assert_eq!(state.stat.gas_used, 3000);
    assert_eq!(state.submissions, 1000);
}

#[test]
fn registration_gives_up_at_its_ceiling() {
    let payload = registration_payload(&page()).unwrap();
    let mut state = PageRegistration::new(&payload, Some(3));
    let tx = confirmed(5, vec![]);
    assert_eq!(state.on_confirmed(&tx, "0xcafe::m::E", 1), Ok(PollDecision::Resubmit));
    assert_eq!(state.on_confirmed(&tx, "0xcafe::m::E", 2), Ok(PollDecision::Resubmit));
    assert_eq!(state.on_confirmed(&tx, "0xcafe::m::E", 3), Ok(PollDecision::CeilingReached));
    assert_eq!(state.stat.gas_used, 15);
    // the report counts even where it comes with the last submission allowed
    let mut state = PageRegistration::new(&payload, Some(1));
    let tx = confirmed(5, vec![event("0xcafe::m::E", &[])]);
    assert_eq!(state.on_confirmed(&tx, "0xcafe::m::E", 1), Ok(PollDecision::Registered));
}

#[test]
fn registration_records_nothing_once_complete() {
    let payload = registration_payload(&page()).unwrap();
    let mut state = PageRegistration::new(&payload, None);
    let report = confirmed(7, vec![event("0xcafe::m::E", &[])]);
    assert_eq!(state.on_confirmed(&report, "0xcafe::m::E", 10), Ok(PollDecision::Registered));
    let complete = state;
    assert_eq!(
        state.on_confirmed(&confirmed(u64::MAX, vec![]), "0xcafe::m::E", 20),
        Ok(PollDecision::Registered)
    );
    assert_eq!(state, complete);
    assert_eq!(state.stat.gas_used, 7);
}

#[test]
fn registration_needs_a_summary() {
    let payload = registration_payload(&page()).unwrap();
    let mut state = PageRegistration::new(&payload, None);
    let before = state;
    let r = state.on_confirmed(&Transaction::PendingTransaction, "t", 5);
    assert_eq!(r, Err(WorkflowError::MissingTransactionInfo));
    assert_eq!(state, before);
}

fn vpar_json() -> VerifyProofAndRegisterDataJson {
    VerifyProofAndRegisterDataJson {
        proof_params: strings(&["1", "2"]),
        proof: strings(&["3", "4", "5"]),
        task_metadata: strings(&["6"]),
        cairo_aux_input: strings(&["7", "8"]),
        cairo_verifier_id: "9".to_string(),
        pre_registered_facts: Some(strings(&["10"])),
    }
}

/// Runs the workflow against a ledger that confirms every step with the
/// gas `gas[step]` and emits the completion event as `emit` says.
fn run_vpar(gas: &[u64; 12], emit: &dyn Fn(usize) -> bool) -> Result<VparStat, WorkflowError> {
    let data = VerifyProofAndRegisterData::from(vpar_json());
    let finished = vpar_finished_event(ADDRESS);
    let mut progress = VparProgress::new();
    let mut step = 0;
    while let Some(payload) = progress.next_payload(&data).unwrap() {
        let events = if emit(step) { vec![event(&finished, &[])] } else { vec![] };
        progress.on_confirmed(&payload, &confirmed(gas[step], events), &finished, step as u64)?;
        step += 1;
    }
    assert!(progress.is_done());
    Ok(progress.finish().unwrap())
}

#[test]
fn vpar_data_is_read_from_numerals() {
    let data = VerifyProofAndRegisterData::from(vpar_json());
    assert_eq!(data.proof_params, vec![word(1), word(2)]);
    assert_eq!(data.proof, vec![word(3), word(4), word(5)]);
    assert_eq!(data.task_metadata, vec![word(6)]);
    assert_eq!(data.cairo_aux_input, vec![word(7), word(8)]);
    assert_eq!(data.cairo_verifier_id, word(9));
    assert_eq!(data.pre_registered_facts, Some(vec![word(10)]));
    assert_eq!(VerifyProofAndRegisterData::parse(&vpar_json()), Ok(data));
    let mut json = vpar_json();
    json.pre_registered_facts = None;
    assert_eq!(VerifyProofAndRegisterData::parse(&json).unwrap().pre_registered_facts, None);
}

#[test]
fn vpar_data_with_a_malformed_numeral() {
    let mut json = vpar_json();
    json.pre_registered_facts = Some(strings(&["ten"]));
    assert_eq!(VerifyProofAndRegisterData::parse(&json), Err(EncodingError::InvalidNumeric));
    let mut json = vpar_json();
    json.cairo_verifier_id = "9.0".to_string();
    assert_eq!(VerifyProofAndRegisterData::parse(&json), Err(EncodingError::InvalidNumeric));
}

#[test]
fn vpar_payloads_follow_the_steps() {
    let data = VerifyProofAndRegisterData::from(vpar_json());
    let mut progress = VparProgress::new();
    let mut names = vec![];
    while let Some(payload) = progress.next_payload(&data).unwrap() {
        assert_eq!(payload.module, "gps_statement_verifier");
        names.push((payload.function.clone(), payload.args.len(), payload.size));
        progress.stats.push(StatInfo { time_micros: 0, gas_used: 0, size_bytes: None });
    }
    assert_eq!(names.len(), TOTAL_STEPS);
    assert_eq!(names[0], ("prepush_task_metadata".to_string(), 1, 33));
    assert_eq!(
        names[1],
        ("prepush_data_to_verify_proof_and_register".to_string(), 4, 65 + 97 + 65 + 32)
    );
    for name in &names[2..11] {
        assert_eq!(name, &("verify_proof_and_register".to_string(), 0, 0));
    }
    assert_eq!(names[11], ("reset_data".to_string(), 0, 0));
}

#[test]
fn vpar_keeps_one_entry_for_each_advancing_step() {
    let gas = [1, 2, 3, 4, 5, 6, 7, 8, 9, 10, 11, 12];
    let stat = run_vpar(&gas, &|step| step == 10).unwrap();
    assert_eq!(stat.vpar.len(), 9);
    assert_eq!(ADVANCE_STEPS, 9);
    assert_eq!(stat.prepush_task_metadata, StatInfo {
        time_micros: 0,
        gas_used: 1,
        size_bytes: Some(33)
    });
    assert_eq!(stat.prepush_data.size_bytes, Some(259));
    assert_eq!(stat.prepush_data.gas_used, 2);
    let advancing: Vec<u64> = stat.vpar.iter().map(|s| s.gas_used).collect();
    assert_eq!(advancing, vec![3, 4, 5, 6, 7, 8, 9, 10, 11]);
    assert!(stat.vpar.iter().all(|s| s.size_bytes.is_none()));
    assert_eq!(stat.reset_data, StatInfo { time_micros: 11, gas_used: 12, size_bytes: None });

    let other = run_vpar(&[0, 0, 9, 9, 0, 0, 1000, 5, 5, 5, 0, 0], &|_| true).unwrap();
    assert_eq!(other.vpar.len(), 9);
}

#[test]
fn vpar_fails_without_the_completion_event() {
    let gas = [1; 12];
    assert_eq!(run_vpar(&gas, &|_| false), Err(WorkflowError::WorkflowPrecondition));
    // the event of an earlier step does not stand in for that of the ninth
    assert_eq!(run_vpar(&gas, &|step| step < 10), Err(WorkflowError::WorkflowPrecondition));
    assert_eq!(run_vpar(&gas, &|step| step == 11), Err(WorkflowError::WorkflowPrecondition));
}

#[test]
fn vpar_records_nothing_once_complete() {
    let data = VerifyProofAndRegisterData::from(vpar_json());
    let finished = vpar_finished_event(ADDRESS);
    let mut progress = VparProgress::new();
    let tx = confirmed(1, vec![event(&finished, &[])]);
    let mut last = None;
    while let Some(payload) = progress.next_payload(&data).unwrap() {
        progress.on_confirmed(&payload, &tx, &finished, 1).unwrap();
        last = Some(payload);
    }
    let stat = progress.finish().unwrap();
    assert_eq!(progress.on_confirmed(&last.unwrap(), &tx, &finished, 1), Ok(()));
    assert_eq!(progress.stats.len(), TOTAL_STEPS);
    assert_eq!(progress.finish(), Some(stat));
    assert_eq!(progress.next_payload(&data), Ok(None));
}

#[test]
fn vpar_is_not_finished_before_its_last_step() {
    let data = VerifyProofAndRegisterData::from(vpar_json());
    let finished = vpar_finished_event(ADDRESS);
    assert_eq!(finished, "0xcafe::gps_statement_verifier::VparFinished");
    let mut progress = VparProgress::new();
    assert_eq!(progress.finish(), None);
    let payload = progress.next_payload(&data).unwrap().unwrap();
    let r = progress.on_confirmed(&payload, &Transaction::PendingTransaction, &finished, 1);
    assert_eq!(r, Err(WorkflowError::MissingTransactionInfo));
    assert_eq!(progress.stats.len(), 0);
    progress.on_confirmed(&payload, &confirmed(4, vec![]), &finished, 1).unwrap();
    assert_eq!(progress.stats.len(), 1);
    assert!(!progress.is_done());
    assert_eq!(progress.finish(), None);
}

#[test]
fn step_stat_reports_size_of_calls_with_arguments() {
    let info = TransactionInfo { version: 3, hash: String::new(), gas_used: 42 };
    let with_args = build_payload("m", "f", &vec![ArgValue::U64(1)]).unwrap();
    assert_eq!(step_stat(&with_args, &info, 7), StatInfo {
        time_micros: 7,
        gas_used: 42,
        size_bytes: Some(8)
    });
    let without = CallPayload {
        module: "m".to_string(),
        function: "f".to_string(),
        args: vec![],
        size: 0,
    };
    assert_eq!(step_stat(&without, &info, 7).size_bytes, None);
}

#[test]
fn total_gas_adds_up_or_overflows() {
    let stat = |gas_used| StatInfo { time_micros: 0, gas_used, size_bytes: None };
    assert_eq!(total_gas(&vec![]), Some(0));
    assert_eq!(total_gas(&vec![stat(1), stat(2), stat(3)]), Some(6));
    assert_eq!(total_gas(&vec![stat(u64::MAX), stat(0)]), Some(u64::MAX));
    assert_eq!(total_gas(&vec![stat(u64::MAX), stat(1)]), None);
    let w = WorkflowStat { steps: vec![stat(5)] };
    assert_eq!(total_gas(&w.steps), Some(5));
}

#[test]
fn gas_of_a_whole_run() {
    let stat = |gas_used| StatInfo { time_micros: 0, gas_used, size_bytes: None };
    let mut global = GlobalStat::default();
    assert_eq!(global.total_gas(), Some(0));
    assert_eq!(StatInfo::default(), stat(0));
    assert_eq!(WorkflowStat::default(), WorkflowStat { steps: vec![] });
    global.verify_merkle.push(WorkflowStat { steps: vec![stat(1), stat(2), stat(3)] });
    global.verify_merkle.push(WorkflowStat { steps: vec![stat(10)] });
    global.verify_fri.push(WorkflowStat { steps: vec![stat(100), stat(200)] });
    global.rcmp.push(stat(1000));
    global.vpar = VparStat {
        prepush_task_metadata: stat(10_000),
        prepush_data: stat(20_000),
        vpar: vec![stat(100_000), stat(200_000)],
        reset_data: stat(1_000_000),
    };
    assert_eq!(total_gas_of_runs(&global.verify_merkle), Some(16));
    assert_eq!(global.vpar.total_gas(), Some(1_330_000));
    assert_eq!(global.total_gas(), Some(16 + 300 + 1000 + 1_330_000));
    global.rcmp.push(stat(u64::MAX));
    assert_eq!(global.total_gas(), None);
    assert_eq!(VparStat::default().total_gas(), Some(0));
}

#[test]
fn chain_id_of_a_config() {
    let mut config = Config {
        private_key: "0x00".to_string(),
        node_url: "http://localhost:8080".to_string(),
        verifier_address: ADDRESS.to_string(),
        chain_id: "4".to_string(),
    };
    assert_eq!(config.chain_id_number(), Ok(4));
    config.chain_id = "testnet".to_string();
    assert_eq!(config.chain_id_number(), Err(ParseError::InvalidDigit));
    config.chain_id = "300".to_string();
    assert_eq!(config.chain_id_number(), Err(ParseError::Overflow));
}

#[test]
fn u256_words_are_what_numerals_denote() {
    assert_eq!(str_to_u256("123456789"), Ok(word(123456789)));
}
