use test_sdk::encoding::{ArgValue, MAX_SEQUENCE_LENGTH};
use test_sdk::payload::{
    build_payload, transaction_params, CallPayload, EncodingError, TransactionParams,
    EXPIRATION_HORIZON_SECS, GAS_UNIT_PRICE, MAX_GAS_AMOUNT,
};
use test_sdk::u256::{str_to_u256, U256};

fn word(n: u64) -> U256 {
    let mut bytes = [0u8; 32];
    bytes[..8].copy_from_slice(&n.to_le_bytes());
    U256 { bytes }
}

#[test]
fn encode_u8_writes_one_byte() {
    assert_eq!(ArgValue::U8(7).encode(), Some(vec![7]));
    assert_eq!(ArgValue::U8(0).encode(), Some(vec![0]));
}

#[test]
fn encode_u64_writes_eight_bytes_little_endian() {
    assert_eq!(
        ArgValue::U64(0x0102030405060708).encode(),
        Some(vec![8, 7, 6, 5, 4, 3, 2, 1])
    );
    assert_eq!(ArgValue::U64(1).encode(), Some(vec![1, 0, 0, 0, 0, 0, 0, 0]));
}

#[test]
fn encode_u256_writes_its_bytes_without_length() {
    let mut bytes = [0u8; 32];
    for (i, b) in bytes.iter_mut().enumerate() {
        *b = i as u8 + 1;
    }
    assert_eq!(ArgValue::U256(U256 { bytes }).encode(), Some(bytes.to_vec()));
}

#[test]
fn encode_u8_vector_writes_length_then_bytes() {
    assert_eq!(ArgValue::U8Vector(vec![9, 8, 7]).encode(), Some(vec![3, 9, 8, 7]));
    assert_eq!(ArgValue::U8Vector(vec![]).encode(), Some(vec![0]));
}

#[test]
fn encode_u64_vector_writes_length_then_elements() {
    assert_eq!(
        ArgValue::U64Vector(vec![1, 258]).encode(),
        Some(vec![2, 1, 0, 0, 0, 0, 0, 0, 0, 2, 1, 0, 0, 0, 0, 0, 0])
    );
}

#[test]
fn encode_u256_vector_writes_length_then_elements() {
    let encoded = ArgValue::U256Vector(vec![word(1), word(2), word(3)]).encode().unwrap();
    assert_eq!(encoded.len(), 1 + 3 * 32);
    assert_eq!(encoded[0], 3);
    assert_eq!(encoded[1], 1);
    assert_eq!(encoded[33], 2);
    assert_eq!(encoded[65], 3);
}

#[test]
fn long_vector_has_a_length_of_several_bytes() {
    // 130 is 0x82: the low seven bits with the high bit set, then 1
    let encoded = ArgValue::U8Vector(vec![5; 130]).encode().unwrap();
    assert_eq!(encoded.len(), 2 + 130);
    assert_eq!(&encoded[..2], &[0x82, 0x01]);
    let encoded = ArgValue::U64Vector(vec![0; 16384]).encode().unwrap();
    assert_eq!(&encoded[..3], &[0x80, 0x80, 0x01]);
    assert_eq!(encoded.len(), 3 + 8 * 16384);
}

#[test]
fn vector_encodings_match_the_reference_encoder() {
    let bytes: Vec<u8> = (0..200).map(|i| i as u8).collect();
    assert_eq!(
        ArgValue::U8Vector(bytes.clone()).encode().unwrap(),
        aptos_sdk::aptos_bcs::to_bytes(&bytes).unwrap()
    );
    let words: Vec<u64> = (0..300).map(|i| i * 1_000_003).collect();
    assert_eq!(
        ArgValue::U64Vector(words.clone()).encode().unwrap(),
        aptos_sdk::aptos_bcs::to_bytes(&words).unwrap()
    );
}

#[test]
fn vector_beyond_the_sequence_limit_is_refused() {
    let longest = ArgValue::U8Vector(vec![0u8; MAX_SEQUENCE_LENGTH + 1]);
    assert_eq!(longest.encode(), None);
    assert_eq!(
        build_payload("m", "f", &vec![ArgValue::U8(1), longest]),
        Err(EncodingError::SequenceTooLong)
    );
}

#[test]
fn arguments_are_looked_at_before_the_names() {
    let longest = ArgValue::U8Vector(vec![0u8; MAX_SEQUENCE_LENGTH + 1]);
    assert_eq!(
        build_payload("not an identifier", "f", &vec![longest]),
        Err(EncodingError::SequenceTooLong)
    );
}

#[test]
fn sequence_limit_is_that_of_the_encoding() {
    assert_eq!(MAX_SEQUENCE_LENGTH, aptos_sdk::aptos_bcs::MAX_SEQUENCE_LENGTH);
}

#[test]
fn build_payload_encodes_arguments_in_order() {
    let params = vec![
        ArgValue::U256Vector(vec![word(1), word(2), word(3)]),
        ArgValue::U256Vector(vec![word(4), word(5)]),
        ArgValue::U8(3),
        ArgValue::U256(str_to_u256("123456789").unwrap()),
    ];
    let payload = build_payload("merkle_statement_contract", "verify_merkle", &params).unwrap();
    assert_eq!(payload.module, "merkle_statement_contract");
    assert_eq!(payload.function, "verify_merkle");
    assert_eq!(payload.args.len(), 4);
    assert_eq!(payload.args[0].len(), 97);
    assert_eq!(payload.args[1].len(), 65);
    assert_eq!(payload.args[2], vec![3]);
    assert_eq!(payload.args[3].len(), 32);
    assert_eq!(payload.size, 97 + 65 + 1 + 32);
}

#[test]
fn build_payload_without_arguments() {
    let payload = build_payload("gps_statement_verifier", "reset_data", &vec![]).unwrap();
    assert_eq!(
        payload,
        CallPayload {
            module: "gps_statement_verifier".to_string(),
            function: "reset_data".to_string(),
            args: vec![],
            size: 0,
        }
    );
}

#[test]
fn build_payload_refuses_malformed_identifiers() {
    let long = "a".repeat(129);
    for bad in ["", "1abc", "has-dash", "sp ace", "é", "a::b", long.as_str()] {
        assert_eq!(
            build_payload(bad, "f", &vec![]),
            Err(EncodingError::InvalidIdentifier),
            "module {:?}",
            bad
        );
        assert_eq!(
            build_payload("m", bad, &vec![]),
            Err(EncodingError::InvalidIdentifier),
            "function {:?}",
            bad
        );
    }
    let longest = "a".repeat(128);
    assert!(build_payload(&longest, "_f1", &vec![]).is_ok());
    assert!(build_payload("_", "CamelCase123", &vec![]).is_ok());
}

#[test]
fn transaction_params_are_fixed() {
    assert_eq!(
        transaction_params(17, 1_700_000_000),
        TransactionParams {
            sequence_number: 17,
            expiration_timestamp_secs: 1_700_000_060,
            max_gas_amount: 200000,
            gas_unit_price: 100,
        }
    );
    assert_eq!(MAX_GAS_AMOUNT, 200000);
    assert_eq!(GAS_UNIT_PRICE, 100);
    assert_eq!(EXPIRATION_HORIZON_SECS, 60);
    assert_eq!(transaction_params(0, u64::MAX - 60).expiration_timestamp_secs, u64::MAX);
}
