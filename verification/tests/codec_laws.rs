//! The codec and the shared handlers exercised on concrete values: the
//! round-trip behaviour, every decode-error variant, the handler scenarios,
//! and the exact wire bytes of the metadata layout.

use crosstalk::codec::{decode, encode, push_word, DecodeError, Tok, Ty};
use crosstalk::errors::{AuthError, Error, ValidationError};
use crosstalk::handlers::{
    create_outbound_request, encode_ping_payload, handle_ack, handle_inbound, to_ascii_lower,
};
use crosstalk::store::{AckStore, AddrMap, ChainTypeMap, RecordStore};

fn ping_schema() -> Vec<Ty> {
    vec![Ty::U64, Ty::Str]
}

#[test]
fn round_trip_ping_pair() {
    // encode (request_id = 1, message = "hello"), decode it back exactly
    let payload = encode_ping_payload(1, &b"hello".to_vec());
    let toks = decode(&ping_schema(), &payload).unwrap();
    assert_eq!(toks.len(), 2);
    assert_eq!(toks[0], Tok::Uint(1));
    assert_eq!(toks[1], Tok::Str(b"hello".to_vec()));
}

#[test]
fn round_trip_empty_string() {
    let payload = encode_ping_payload(7, &Vec::new());
    // an empty string still has its length word, so the payload is 96 bytes
    assert_eq!(payload.len(), 96);
    let toks = decode(&ping_schema(), &payload).unwrap();
    assert_eq!(toks[0], Tok::Uint(7));
    assert_eq!(toks[1], Tok::Str(Vec::new()));
}

#[test]
fn round_trip_maximum_width_integers() {
    let toks = vec![
        Tok::Uint(u128::MAX),
        Tok::Bytes(vec![0xff; 33]),
        Tok::UintArr(vec![0, 1, u128::MAX]),
    ];
    let schema = vec![Ty::U256, Ty::Bytes, Ty::U256Arr];
    let encoded = encode(&toks);
    let decoded = decode(&schema, &encoded).unwrap();
    assert_eq!(decoded, toks);
}

#[test]
fn decode_truncated() {
    let result = decode(&ping_schema(), &vec![1, 1]);
    assert_eq!(result.unwrap_err(), DecodeError::Truncated);
}

#[test]
fn decode_offset_out_of_range() {
    // one dynamic field whose offset word points past the buffer
    let mut data: Vec<u8> = Vec::new();
    push_word(&mut data, 4096);
    let result = decode(&vec![Ty::Str], &data);
    assert_eq!(result.unwrap_err(), DecodeError::OffsetOutOfRange);
}

#[test]
fn decode_length_out_of_range() {
    // offset in range but the declared string length exceeds the buffer
    let mut data: Vec<u8> = Vec::new();
    push_word(&mut data, 32);
    push_word(&mut data, 4096);
    let result = decode(&vec![Ty::Str], &data);
    assert_eq!(result.unwrap_err(), DecodeError::LengthOutOfRange);
}

#[test]
fn decode_narrowing_overflow() {
    // a value of 2^64 does not narrow to u64
    let mut data: Vec<u8> = Vec::new();
    push_word(&mut data, 1u128 << 64);
    push_word(&mut data, 0);
    let result = decode(&ping_schema(), &data);
    assert_eq!(result.unwrap_err(), DecodeError::NarrowingOverflow);
    // but it decodes fine at u128 width
    let wide = decode(&vec![Ty::U128, Ty::U64], &data).unwrap();
    assert_eq!(wide[0], Tok::Uint(1u128 << 64));
}

#[test]
fn trailing_bytes_are_ignored() {
    let mut payload = encode_ping_payload(3, &b"tail".to_vec());
    payload.extend_from_slice(&[0xab; 17]);
    let toks = decode(&ping_schema(), &payload).unwrap();
    assert_eq!(toks[0], Tok::Uint(3));
    assert_eq!(toks[1], Tok::Str(b"tail".to_vec()));
}

#[test]
fn ascii_folding() {
    let folded = to_ascii_lower(&b"0xEeDb3AB68d!? z".to_vec());
    assert_eq!(folded, b"0xeedb3ab68d!? z".to_vec());
}

// --- the outbound builder ---------------------------------------------------

#[test]
fn outbound_empty_message_rejected_without_counting() {
    // the inner payload decodes to an empty message: the builder rejects it,
    // emits nothing, and the counter does not advance
    let payload = encode_ping_payload(1, &Vec::new());
    let result = create_outbound_request(
        41,
        &payload,
        &b"dest-contract".to_vec(),
        &b"80001".to_vec(),
        &Vec::new(),
        0,
        None,
        &Vec::new(),
    );
    assert_eq!(
        result.unwrap_err(),
        Error::Validation(ValidationError::EmptyPayloadField)
    );
}

#[test]
fn outbound_counter_counts_only_successes() {
    let good = encode_ping_payload(1, &b"hi".to_vec());
    let bad = encode_ping_payload(2, &Vec::new());
    let mut counter: u64 = 0;
    for attempt in [&good, &bad, &good, &bad, &good] {
        if let Ok((next, _req)) = create_outbound_request(
            counter,
            attempt,
            &b"dest".to_vec(),
            &b"80001".to_vec(),
            &Vec::new(),
            0,
            None,
            &Vec::new(),
        ) {
            counter = next;
        }
    }
    assert_eq!(counter, 3);
}

// --- the inbound receive handler ---------------------------------------------

fn allowlist_80001() -> (AddrMap, ChainTypeMap) {
    let mut allowlist = AddrMap::new();
    allowlist.put(
        &b"80001".to_vec(),
        &b"0xeedb3ab68d567a6cd6d19fa819fe77b9f8ed1538".to_vec(),
    );
    let mut chain_types = ChainTypeMap::new();
    chain_types.put(&b"80001".to_vec(), 1);
    (allowlist, chain_types)
}

#[test]
fn inbound_unauthorized_sender_writes_nothing() {
    let (allowlist, chain_types) = allowlist_80001();
    let mut records = RecordStore::new();
    let payload = encode_ping_payload(9, &b"hi".to_vec());
    let result = handle_inbound(
        &mut records,
        &allowlist,
        &chain_types,
        &b"0x1111111111111111111111111111111111111111".to_vec(),
        &b"80001".to_vec(),
        &payload,
    );
    assert_eq!(result.unwrap_err(), Error::Auth(AuthError::UnauthorizedSender));
    assert!(records.get(&b"80001".to_vec(), 9).is_none());
}

#[test]
fn inbound_sentinel_writes_nothing() {
    let (allowlist, chain_types) = allowlist_80001();
    let mut records = RecordStore::new();
    let payload = encode_ping_payload(9, &b"Fail Dest Req".to_vec());
    let result = handle_inbound(
        &mut records,
        &allowlist,
        &chain_types,
        // mixed case: chain type 1 folds before comparing
        &b"0xEeDb3AB68d567A6CD6D19Fa819fe77b9f8Ed1538".to_vec(),
        &b"80001".to_vec(),
        &payload,
    );
    assert_eq!(
        result.unwrap_err(),
        Error::Validation(ValidationError::SimulatedFailure)
    );
    assert!(records.get(&b"80001".to_vec(), 9).is_none());
}

#[test]
fn inbound_twice_same_as_once() {
    let (allowlist, chain_types) = allowlist_80001();
    let mut records = RecordStore::new();
    let payload = encode_ping_payload(9, &b"hi".to_vec());
    let sender = b"0xeedb3ab68d567a6cd6d19fa819fe77b9f8ed1538".to_vec();
    let ack1 = handle_inbound(
        &mut records,
        &allowlist,
        &chain_types,
        &sender,
        &b"80001".to_vec(),
        &payload,
    )
    .unwrap();
    let first = records.get(&b"80001".to_vec(), 9).unwrap();
    let ack2 = handle_inbound(
        &mut records,
        &allowlist,
        &chain_types,
        &sender,
        &b"80001".to_vec(),
        &payload,
    )
    .unwrap();
    let second = records.get(&b"80001".to_vec(), 9).unwrap();
    assert_eq!(ack1, ack2);
    assert_eq!(first, second);
    assert_eq!(second, b"hi".to_vec());
}


#[test]
fn inbound_redelivery_overwrites() {
    // the same key delivered again with another message: last write wins,
    // the store is never corrupted
    let (allowlist, chain_types) = allowlist_80001();
    let mut records = RecordStore::new();
    let sender = b"0xeedb3ab68d567a6cd6d19fa819fe77b9f8ed1538".to_vec();
    let first = encode_ping_payload(9, &b"first".to_vec());
    let second = encode_ping_payload(9, &b"second".to_vec());
    handle_inbound(&mut records, &allowlist, &chain_types, &sender, &b"80001".to_vec(), &first)
        .unwrap();
    handle_inbound(&mut records, &allowlist, &chain_types, &sender, &b"80001".to_vec(), &second)
        .unwrap();
    assert_eq!(records.get(&b"80001".to_vec(), 9).unwrap(), b"second".to_vec());
}

// --- the acknowledgement handler ----------------------------------------------

#[test]
fn ack_false_flag_skips_decoding() {
    let mut acks = AckStore::new();
    // deliberately garbage execution data: a false flag never decodes it
    let garbage = vec![0xde, 0xad, 0xbe];
    handle_ack(&mut acks, 77, false, &garbage).unwrap();
    let rec = acks.get(77).unwrap();
    assert!(!rec.success);
    assert_eq!(rec.message, Vec::<u8>::new());
}

#[test]
fn ack_true_flag_records_answer() {
    let mut acks = AckStore::new();
    let data = encode_ping_payload(5, &b"pong".to_vec());
    handle_ack(&mut acks, 77, true, &data).unwrap();
    let rec = acks.get(5).unwrap();
    assert!(rec.success);
    assert_eq!(rec.message, b"pong".to_vec());
}

#[test]
fn ack_sentinel_rejected() {
    let mut acks = AckStore::new();
    let data = encode_ping_payload(5, &b"Fail Ack Req".to_vec());
    let result = handle_ack(&mut acks, 77, true, &data);
    assert_eq!(
        result.unwrap_err(),
        Error::Validation(ValidationError::SimulatedFailure)
    );
    assert!(acks.get(5).is_none());
}

// --- the metadata wire layout --------------------------------------------------

#[test]
fn request_metadata_exact_bytes() {
    let bytes = crosstalk::metadata::encode_request_metadata(
        1,
        2,
        3,
        4,
        5,
        6,
        true,
        &b"asm".to_vec(),
    );
    let mut expected: Vec<u8> = Vec::new();
    expected.extend_from_slice(&1u64.to_be_bytes());
    expected.extend_from_slice(&2u64.to_be_bytes());
    expected.extend_from_slice(&3u64.to_be_bytes());
    expected.extend_from_slice(&4u64.to_be_bytes());
    expected.extend_from_slice(&5u128.to_be_bytes());
    expected.push(6);
    expected.push(1);
    expected.extend_from_slice(b"asm");
    assert_eq!(bytes, expected);
}
