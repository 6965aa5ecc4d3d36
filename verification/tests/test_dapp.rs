//! The test dApp contract driven end to end, including the validated
//! outbound builder and its error paths.

use crosstalk::codec::DecodeError;
use crosstalk::errors::{Error, ValidationError};
use crosstalk::handlers::encode_ping_payload;
use crosstalk::test_dapp::{
    execute, fetch_ping, fetch_pong, instantiate, send_i_request, sudo, ExecuteMsg, InstantiateMsg,
    SudoMsg,
};

const BRIDGE_ADDRESS: &str = "0xeedb3ab68d567a6cd6d19fa819fe77b9f8ed1538";

fn inbound_payload() -> Vec<u8> {
    // decodes as (request_id = 32, message = "hello ping")
    hex::decode("0000000000000000000000000000000000000000000000000000000000000020000000000000000000000000000000000000000000000000000000000000008000000000000000000000000000000000000000000000000000000000000000010000000000000000000000000000000000000000000000000000000000000040000000000000000000000000000000000000000000000000000000000000000a68656c6c6f2070696e6700000000000000000000000000000000000000000000").unwrap()
}

#[test]
fn tests_test_basic() {
    let state = instantiate(InstantiateMsg {});
    assert_eq!(state.request_id, 0);
}

#[test]
fn tests_test_sudo_inbound_function() {
    let mut state = instantiate(InstantiateMsg {});
    let msg = SudoMsg::HandleIReceive {
        request_sender: BRIDGE_ADDRESS.as_bytes().to_vec(),
        src_chain_id: b"80001".to_vec(),
        request_identifier: 2,
        payload: inbound_payload(),
    };
    let result = sudo(&mut state, &msg);
    assert!(result.is_ok());
    let stored = fetch_ping(&state, &b"80001".to_vec(), 32).unwrap();
    assert_eq!(stored, b"hello ping".to_vec());
}

#[test]
fn tests_test_sudo_outbound_ack_function() {
    let mut state = instantiate(InstantiateMsg {});
    let msg = SudoMsg::HandleIAck {
        request_identifier: 1,
        exec_flag: true,
        exec_data: inbound_payload(),
        refund_amount: 123,
    };
    let result = sudo(&mut state, &msg);
    assert!(result.is_ok());
    let rec = fetch_pong(&state, 32).unwrap();
    assert!(rec.success);
    assert_eq!(rec.message, b"hello ping".to_vec());
}

#[test]
fn tests_test_execute_create_outbound_request() {
    // an empty inner payload cannot decode as (request_id, message): the
    // builder rejects it before anything is emitted, and the counter stays
    let mut state = instantiate(InstantiateMsg {});
    let msg = ExecuteMsg::SendIRequest {
        payload: Vec::new(),
        dest_contract_address: BRIDGE_ADDRESS.as_bytes().to_vec(),
        dest_chain_id: b"80001".to_vec(),
        request_metadata: Vec::new(),
        amount: 0,
        route_recipient: Vec::new(),
    };
    let result = execute(&mut state, &msg, None);
    assert_eq!(result.unwrap_err(), Error::Decode(DecodeError::Truncated));
    assert_eq!(state.request_id, 0);
}

#[test]
fn send_request_success_advances_counter() {
    let mut state = instantiate(InstantiateMsg {});
    let payload = encode_ping_payload(1, &b"hello".to_vec());
    let result = send_i_request(
        &mut state,
        &payload,
        &BRIDGE_ADDRESS.as_bytes().to_vec(),
        &b"80001".to_vec(),
        &Vec::new(),
        0,
        None,
        &Vec::new(),
    );
    let req = result.unwrap();
    assert_eq!(state.request_id, 1);
    assert_eq!(req.version, 1);
    assert_eq!(req.dest_chain_id, b"80001".to_vec());
}

#[test]
fn send_request_funds_mismatch() {
    let mut state = instantiate(InstantiateMsg {});
    let payload = encode_ping_payload(1, &b"hello".to_vec());
    let result = send_i_request(
        &mut state,
        &payload,
        &BRIDGE_ADDRESS.as_bytes().to_vec(),
        &b"80001".to_vec(),
        &Vec::new(),
        5,
        None,
        &Vec::new(),
    );
    assert_eq!(
        result.unwrap_err(),
        Error::Validation(ValidationError::FundsMismatch)
    );
    assert_eq!(state.request_id, 0);
}

#[test]
fn tests_test_encode() {
    // decodes as (request_id = 1, message = "Hello Lord")
    let data = hex::decode("00000000000000000000000000000000000000000000000000000000000000010000000000000000000000000000000000000000000000000000000000000040000000000000000000000000000000000000000000000000000000000000000a48656c6c6f204c6f726400000000000000000000000000000000000000000000").unwrap();
    let (id, msg) = crosstalk::handlers::decode_ping_payload(&data).unwrap();
    assert_eq!(id, 1);
    assert_eq!(msg, b"Hello Lord".to_vec());
    // a freshly encoded pair reproduces those bytes exactly
    let reencoded = encode_ping_payload(1, &b"Hello Lord".to_vec());
    assert_eq!(reencoded, data);
}
