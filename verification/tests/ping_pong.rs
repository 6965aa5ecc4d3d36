//! The ping-pong contract driven end to end: instantiation, the gateway's
//! inbound and ack callbacks, and the outbound request with its exact
//! EVM-compatible wire bytes.

use crosstalk::ping_pong::{
    execute, fetch_ping, fetch_pong, fetch_request_id, instantiate, sudo, ExecuteMsg,
    InstantiateMsg, SudoAnswer, SudoMsg,
};

const BRIDGE_ADDRESS: &str = "0xeedb3ab68d567a6cd6d19fa819fe77b9f8ed1538";

fn inbound_payload() -> Vec<u8> {
    // decodes as (request_id = 32, message = "hello ping")
    hex::decode("0000000000000000000000000000000000000000000000000000000000000020000000000000000000000000000000000000000000000000000000000000008000000000000000000000000000000000000000000000000000000000000000010000000000000000000000000000000000000000000000000000000000000040000000000000000000000000000000000000000000000000000000000000000a68656c6c6f2070696e6700000000000000000000000000000000000000000000").unwrap()
}

#[test]
fn test_basic() {
    let state = instantiate(InstantiateMsg {});
    assert_eq!(fetch_request_id(&state), 0);
}

#[test]
fn test_sudo_inbound_function() {
    let mut state = instantiate(InstantiateMsg {});
    let msg = SudoMsg::HandleIReceive {
        request_sender: BRIDGE_ADDRESS.as_bytes().to_vec(),
        src_chain_id: b"80001".to_vec(),
        request_identifier: 2,
        payload: inbound_payload(),
    };
    let result = sudo(&mut state, &msg);
    match result {
        Ok(SudoAnswer::Receive { ack_payload }) => {
            assert_eq!(ack_payload, inbound_payload());
        },
        other => panic!("unexpected sudo answer: {:?}", other.is_ok()),
    }
    let stored = fetch_ping(&state, &b"80001".to_vec(), 32).unwrap();
    assert_eq!(stored, b"hello ping".to_vec());
}

#[test]
fn test_sudo_outbound_ack_function() {
    let mut state = instantiate(InstantiateMsg {});
    let msg = SudoMsg::HandleIAck {
        request_identifier: 1,
        exec_flag: true,
        exec_data: inbound_payload(),
        refund_amount: 123,
    };
    let result = sudo(&mut state, &msg);
    assert!(result.is_ok());
    // recorded under the embedded request id
    let rec = fetch_pong(&state, 32).unwrap();
    assert!(rec.success);
    assert_eq!(rec.message, b"hello ping".to_vec());
}

#[test]
fn test_execute_create_outbound_request() {
    let mut state = instantiate(InstantiateMsg {});
    let greeting = "Hello Lord Venky";
    let msg = ExecuteMsg::IPing {
        ping: greeting.as_bytes().to_vec(),
        dest_contract_address: BRIDGE_ADDRESS.as_bytes().to_vec(),
        dest_chain_id: b"80001".to_vec(),
        request_metadata: Vec::new(),
    };
    let response = execute(&mut state, &msg);
    assert_eq!(fetch_request_id(&state), 1);
    assert_eq!(response.route_amount, 0);
    assert_eq!(response.route_recipient, Vec::<u8>::new());
    assert_eq!(response.dest_chain_id, b"80001".to_vec());
    assert_eq!(response.version, 1);
    assert_eq!(hex::encode(&response.request_metadata), "");
    assert_eq!(
        hex::encode(&response.request_packet),
        "000000000000000000000000000000000000000000000000000000000000004000000000000000000000000000000000000000000000000000000000000000a0000000000000000000000000000000000000000000000000000000000000002a30786565646233616236386435363761366364366431396661383139666537376239663865643135333800000000000000000000000000000000000000000000000000000000000000000000000000000000000000000000000000000000008000000000000000000000000000000000000000000000000000000000000000010000000000000000000000000000000000000000000000000000000000000040000000000000000000000000000000000000000000000000000000000000001048656c6c6f204c6f72642056656e6b7900000000000000000000000000000000"
    );
}

#[test]
fn test_encode() {
    // decodes as (request_id = 1, message = "Hello Lord")
    let data = hex::decode("00000000000000000000000000000000000000000000000000000000000000010000000000000000000000000000000000000000000000000000000000000040000000000000000000000000000000000000000000000000000000000000000a48656c6c6f204c6f726400000000000000000000000000000000000000000000").unwrap();
    let (id, msg) = crosstalk::handlers::decode_ping_payload(&data).unwrap();
    assert_eq!(id, 1);
    assert_eq!(msg, b"Hello Lord".to_vec());

    let rm = crosstalk::metadata::RequestMetaData {
        dest_gas_limit: 200_000,
        dest_gas_price: 50_000_000_000,
        ack_gas_limit: 200_000,
        ack_gas_price: 50_000_000_000,
        relayer_fee: 0,
        ack_type: 3,
        is_read_call: false,
        asm_address: Vec::new(),
    };
    let bytes = rm.get_abi_encoded_bytes();
    let mut expected: Vec<u8> = Vec::new();
    expected.extend_from_slice(&200_000u64.to_be_bytes());
    expected.extend_from_slice(&50_000_000_000u64.to_be_bytes());
    expected.extend_from_slice(&200_000u64.to_be_bytes());
    expected.extend_from_slice(&50_000_000_000u64.to_be_bytes());
    expected.extend_from_slice(&0u128.to_be_bytes());
    expected.push(3);
    expected.push(0);
    assert_eq!(bytes, expected);
}
