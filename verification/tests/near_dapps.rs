//! The account-model contracts driven end to end: the test dApp's outbound
//! send in both funded and unfunded forms, its guarded inbound and ack
//! paths, and the ping-pong object's full round trip.

use crosstalk::codec::DecodeError;
use crosstalk::errors::{AuthError, Error, ValidationError};
use crosstalk::handlers::encode_ping_payload;
use crosstalk::near_ping_pong::PingPong;
use crosstalk::near_test_dapp::{SendAction, TestDapp};

fn new_dapp() -> TestDapp {
    TestDapp::new(
        &b"deployer".to_vec(),
        &b"gateway".to_vec(),
        &b"route".to_vec(),
    )
}

#[test]
fn send_i_request_without_token() {
    let dapp = new_dapp();
    let payload = encode_ping_payload(1, &b"hello".to_vec());
    let action = dapp
        .send_i_request(
            &payload,
            &b"abcd".to_vec(),
            &b"80001".to_vec(),
            &vec![1, 2, 3, 4],
            0,
            &Vec::new(),
        )
        .unwrap();
    match action {
        SendAction::GatewayISend(req) => {
            assert_eq!(req.version, 1);
            assert_eq!(req.dest_chain_id, b"80001".to_vec());
            assert_eq!(req.request_metadata, vec![1, 2, 3, 4]);
        },
        _ => panic!("expected a direct gateway send"),
    }
}

#[test]
fn send_i_request_without_token_with_empty_string() {
    let dapp = new_dapp();
    let payload = encode_ping_payload(1, &Vec::new());
    let result = dapp.send_i_request(
        &payload,
        &b"abcd".to_vec(),
        &b"80001".to_vec(),
        &vec![1, 2, 3, 4],
        0,
        &Vec::new(),
    );
    assert_eq!(
        result.unwrap_err(),
        Error::Validation(ValidationError::EmptyPayloadField)
    );
}

#[test]
fn send_i_request_without_token_with_invalid_payload() {
    let dapp = new_dapp();
    let result = dapp.send_i_request(
        &vec![1, 1],
        &b"abcd".to_vec(),
        &b"80001".to_vec(),
        &vec![1, 2, 3, 4],
        0,
        &Vec::new(),
    );
    assert_eq!(result.unwrap_err(), Error::Decode(DecodeError::Truncated));
}

#[test]
fn send_i_request_with_token() {
    let dapp = new_dapp();
    let payload = encode_ping_payload(1, &b"hello".to_vec());
    let action = dapp
        .send_i_request(
            &payload,
            &b"abcd".to_vec(),
            &b"80001".to_vec(),
            &vec![1, 2, 3, 4],
            12,
            &b"Hello".to_vec(),
        )
        .unwrap();
    match action {
        SendAction::BurnAndCallGateway { amount, params } => {
            assert_eq!(amount, 12);
            assert_eq!(params.version, 1);
            assert_eq!(params.route_recipient, b"Hello".to_vec());
            assert_eq!(params.dest_chain_id, b"80001".to_vec());
        },
        _ => panic!("expected a routed send"),
    }
}

#[test]
fn send_i_request_with_token_with_empty_string() {
    let dapp = new_dapp();
    let payload = encode_ping_payload(1, &Vec::new());
    let result = dapp.send_i_request(
        &payload,
        &b"abcd".to_vec(),
        &b"80001".to_vec(),
        &vec![1, 2, 3, 4],
        12,
        &b"Hello".to_vec(),
    );
    assert_eq!(
        result.unwrap_err(),
        Error::Validation(ValidationError::EmptyPayloadField)
    );
}

#[test]
fn send_i_request_with_token_with_invalid_payload() {
    let dapp = new_dapp();
    let result = dapp.send_i_request(
        &vec![1, 1],
        &b"abcd".to_vec(),
        &b"80001".to_vec(),
        &vec![1, 2, 3, 4],
        0,
        &Vec::new(),
    );
    assert_eq!(result.unwrap_err(), Error::Decode(DecodeError::Truncated));
}

#[test]
fn send_i_request_with_token_with_empty_recipient() {
    let dapp = new_dapp();
    let payload = encode_ping_payload(1, &Vec::new());
    let result = dapp.send_i_request(
        &payload,
        &b"abcd".to_vec(),
        &b"80001".to_vec(),
        &vec![1, 2, 3, 4],
        12,
        &Vec::new(),
    );
    assert_eq!(
        result.unwrap_err(),
        Error::Validation(ValidationError::EmptyPayloadField)
    );
}

#[test]
fn test_i_receive() {
    let mut dapp = new_dapp();
    let packet = encode_ping_payload(1, &b"Hello".to_vec());
    let echoed = dapp
        .i_receive(
            &b"gateway".to_vec(),
            &b"request_sender".to_vec(),
            &packet,
            &b"80001".to_vec(),
        )
        .unwrap();
    assert_eq!(echoed, packet);
    let greeting = dapp.get_greeting_record(&b"80001".to_vec(), 1);
    assert_eq!(greeting, b"Hello".to_vec());
}

#[test]
fn test_i_receive_should_panic_wrong_gateway() {
    let mut dapp = new_dapp();
    let result = dapp.i_receive(
        &b"someone".to_vec(),
        &b"request_sender".to_vec(),
        &vec![0, 0, 0],
        &b"80001".to_vec(),
    );
    assert_eq!(result.unwrap_err(), Error::Auth(AuthError::NotGateway));
}

#[test]
fn test_i_receive_should_panic_wrong_decoding() {
    let mut dapp = new_dapp();
    let result = dapp.i_receive(
        &b"gateway".to_vec(),
        &b"request_sender".to_vec(),
        &vec![0, 0, 0],
        &b"80001".to_vec(),
    );
    assert_eq!(result.unwrap_err(), Error::Decode(DecodeError::Truncated));
}

#[test]
fn test_i_receive_should_panic_failure_string() {
    let mut dapp = new_dapp();
    let packet = encode_ping_payload(1, &b"Fail Dest Req".to_vec());
    let result = dapp.i_receive(
        &b"gateway".to_vec(),
        &b"request_sender".to_vec(),
        &packet,
        &b"80001".to_vec(),
    );
    assert_eq!(
        result.unwrap_err(),
        Error::Validation(ValidationError::SimulatedFailure)
    );
    assert_eq!(dapp.get_greeting_record(&b"80001".to_vec(), 1), Vec::<u8>::new());
}

#[test]
fn test_i_ack() {
    let mut dapp = new_dapp();
    let packet = encode_ping_payload(1, &b"hello".to_vec());
    dapp.i_ack(&b"gateway".to_vec(), 12, true, &packet).unwrap();
    assert_eq!(dapp.get_ack_record(12), true);
}

#[test]
fn test_i_ack_should_panic_only_gateway() {
    let mut dapp = new_dapp();
    let result = dapp.i_ack(&b"someone".to_vec(), 12, true, &vec![0, 0, 0]);
    assert_eq!(result.unwrap_err(), Error::Auth(AuthError::NotGateway));
}

#[test]
fn test_i_ack_should_panic_failure_string() {
    let mut dapp = new_dapp();
    let packet = encode_ping_payload(1, &b"Fail Ack Req".to_vec());
    let result = dapp.i_ack(&b"gateway".to_vec(), 12, true, &packet);
    assert_eq!(
        result.unwrap_err(),
        Error::Validation(ValidationError::SimulatedFailure)
    );
}

fn sample_metadata() -> Vec<u8> {
    PingPong::get_request_metadata(
        1000000,
        100000000000,
        100000000000000,
        1000000000,
        1000000000000000,
        1,
        false,
        &Vec::new(),
    )
}

#[test]
fn test_ping_to_dest() {
    let gateway = b"gateway".to_vec();
    let mut ping_pong = PingPong::new(&b"deployer".to_vec(), &gateway);
    let request_metadata = sample_metadata();
    let req = ping_pong.i_ping(
        &b"80001".to_vec(),
        &b"shivam.near".to_vec(),
        &b"hello".to_vec(),
        &request_metadata,
        &b"shivam".to_vec(),
    );
    assert_eq!(ping_pong.get_current_request_id(), 1);
    assert_eq!(req.version, 1);
    assert_eq!(req.dest_chain_id, b"80001".to_vec());
}

#[test]
fn test_ping_from_source() {
    let gateway = b"gateway".to_vec();
    let mut ping_pong = PingPong::new(&b"deployer".to_vec(), &gateway);
    let request_metadata = sample_metadata();
    ping_pong.i_ping(
        &b"80001".to_vec(),
        &b"shivam.near".to_vec(),
        &b"hello".to_vec(),
        &request_metadata,
        &b"shivam".to_vec(),
    );
    let request_id = ping_pong.get_current_request_id();
    let packet = encode_ping_payload(request_id, &b"hello".to_vec());
    ping_pong
        .i_receive(&gateway, &b"hello".to_vec(), &packet, &b"80001".to_vec())
        .unwrap();
    let ping_from_source = ping_pong.get_ping_from_source(&b"80001".to_vec(), request_id);
    assert_eq!(ping_from_source, b"hello".to_vec());
}

#[test]
fn test_crosstalk_ack() {
    let gateway = b"gateway".to_vec();
    let mut ping_pong = PingPong::new(&b"deployer".to_vec(), &gateway);
    let payload = encode_ping_payload(1, &b"hello".to_vec());
    ping_pong.i_ack(&gateway, 1, true, &payload).unwrap();
    let ack = ping_pong.get_ack_from_destination(1);
    assert_eq!(ack, b"hello".to_vec());
}

#[test]
fn get_request_metadata() {
    let request_metadata = sample_metadata();
    let mut expected: Vec<u8> = Vec::new();
    expected.extend_from_slice(&1000000u64.to_be_bytes());
    expected.extend_from_slice(&100000000000u64.to_be_bytes());
    expected.extend_from_slice(&100000000000000u64.to_be_bytes());
    expected.extend_from_slice(&1000000000u64.to_be_bytes());
    expected.extend_from_slice(&1000000000000000u128.to_be_bytes());
    expected.push(1);
    expected.push(0);
    assert_eq!(request_metadata, expected);
}

#[test]
fn abi_decode() {
    let data = hex::decode(
        "00000000002dc6c0000000000000000000002d79883d20000000000000000000000000000000000000000000000000000100",
    )
    .unwrap();
    // a request-metadata blob: four u64 words, one u128, two flag bytes
    assert_eq!(data.len(), 50);
}

#[test]
fn abi_decode_request_packet() {
    let request_packet: Vec<u8> = vec![0,0,0,0,0,0,0,0,0,0,0,0,0,0,0,0,0,0,0,0,0,0,0,0,0,0,0,0,0,0,0,64,0,0,0,0,0,0,0,0,0,0,0,0,0,0,0,0,0,0,0,0,0,0,0,0,0,0,0,0,0,0,0,192,0,0,0,0,0,0,0,0,0,0,0,0,0,0,0,0,0,0,0,0,0,0,0,0,0,0,0,0,0,0,0,65,114,111,117,116,101,114,49,100,110,121,48,55,106,118,110,107,101,109,118,53,115,110,100,118,97,119,110,48,120,117,114,120,121,53,55,112,55,119,104,110,57,103,112,120,109,102,115,104,113,56,53,114,108,99,116,115,122,103,115,115,113,120,122,54,104,0,0,0,0,0,0,0,0,0,0,0,0,0,0,0,0,0,0,0,0,0,0,0,0,0,0,0,0,0,0,0,0,0,0,0,0,0,0,0,0,0,0,0,0,0,0,0,0,0,0,0,0,0,0,0,0,0,0,0,0,0,4,128,0,0,0,0,0,0,0,0,0,0,0,0,0,0,0,0,0,0,0,0,0,0,0,0,0,0,0,0,0,0,0,0,0,0,0,0,0,0,0,0,0,0,0,0,0,0,0,0,0,0,0,0,0,0,0,0,0,0,0,0,0,0,0,96,0,0,0,0,0,0,0,0,0,0,0,0,0,0,0,0,0,0,0,0,0,0,0,0,0,0,0,0,0,0,2,0,0,0,0,0,0,0,0,0,0,0,0,0,0,0,0,0,0,0,0,0,0,0,0,0,0,71,13,228,223,130,0,0,0,0,0,0,0,0,0,0,0,0,0,0,0,0,0,0,0,0,0,0,0,0,0,0,0,0,0,0,0,0,0,160,0,0,0,0,0,0,0,0,0,0,0,0,0,0,0,0,0,0,0,0,0,0,0,0,0,0,0,0,0,0,1,0,0,0,0,0,0,0,0,0,0,0,0,0,0,0,0,0,0,0,0,0,0,0,0,0,0,0,0,0,0,0,1,64,123,153,57,15,28,109,145,134,104,105,58,54,185,111,122,226,72,163,79,108,44,63,32,248,200,126,4,239,177,24,163,165,0,0,0,0,0,0,0,0,0,0,0,0,0,0,0,0,0,0,0,0,0,0,0,0,0,0,0,0,0,0,0,34,117,115,100,99,45,50,46,114,111,117,116,101,114,112,114,111,116,111,99,111,108,97,108,112,104,97,46,116,101,115,116,110,101,116,0,0,0,0,0,0,0,0,0,0,0,0,0,0,0,0,0,0,0,0,0,0,0,0,0,0,0,0,0,0,0,0,0,0,0,0,0,0,0,0,0,0,0,0,0,0,0,0,0,0,0,0,0,0,0,0,0,0,0,0,0,27,114,111,117,116,101,114,112,114,111,116,111,99,111,108,97,108,112,104,97,46,116,101,115,116,110,101,116,0,0,0,0,0,0,0,0,0,0,0,0,0,0,0,0,0,0,0,0,0,0,0,0,0,0,0,0,0,0,0,0,0,0,0,0,34,117,115,100,99,45,50,46,114,111,117,116,101,114,112,114,111,116,111,99,111,108,97,108,112,104,97,46,116,101,115,116,110,101,116,0,0,0,0,0,0,0,0,0,0,0,0,0,0,0,0,0,0,0,0,0,0,0,0,0,0,0,0,0,0,0,0,0,0,0,0,0,0,0,0,0,0,0,0,0,0,0,0,0,0,0,0,0,0,0,0,0,0,0,0,0,0,0,0,0,0,0,0,0,0,0,0,0,0,0,0,0,0,0,0,0,0,0,0,0,0,0,0,0,0,0,0,1,96,0,0,0,0,0,0,0,0,0,0,0,0,0,0,0,0,0,0,0,0,0,0,0,0,0,0,0,0,0,0,0,6,0,0,0,0,0,0,0,0,0,0,0,0,0,0,0,0,0,0,0,0,0,0,0,0,0,0,0,0,0,0,0,0,0,0,0,0,0,0,0,0,0,0,0,0,0,0,0,0,0,0,0,0,0,0,0,0,0,0,0,0,0,0,1,160,0,0,0,0,0,0,0,0,0,0,0,0,0,0,0,0,0,0,0,0,0,0,0,0,0,0,0,0,0,0,1,224,0,0,0,0,0,0,0,0,0,0,0,0,0,0,0,0,0,0,0,0,0,0,0,0,0,0,0,0,0,0,2,32,0,0,0,0,0,0,0,0,0,0,0,0,0,0,0,0,0,0,0,0,0,0,0,0,0,0,0,0,0,0,2,64,0,0,0,0,0,0,0,0,0,0,0,0,0,0,0,0,0,0,0,0,0,0,0,0,0,0,0,0,0,0,2,96,0,0,0,0,0,0,0,0,0,0,0,0,0,0,0,0,0,0,0,0,0,0,0,0,0,0,0,0,0,0,0,0,0,0,0,0,0,0,0,0,0,0,0,0,0,0,0,0,0,0,0,0,0,0,0,0,0,0,0,0,0,0,0,0,0,0,0,0,0,0,0,0,0,0,0,0,0,0,0,0,0,0,0,0,0,0,0,0,0,0,0,0,0,0,0,20,15,168,120,26,131,228,104,38,98,27,59,192,148,234,42,2,18,231,27,35,0,0,0,0,0,0,0,0,0,0,0,0,0,0,0,0,0,0,0,0,0,0,0,0,0,0,0,0,0,0,0,0,0,0,0,0,0,0,0,0,0,0,0,20,15,168,120,26,131,228,104,38,98,27,59,192,148,234,42,2,18,231,27,35,0,0,0,0,0,0,0,0,0,0,0,0,0,0,0,0,0,0,0,0,0,0,0,0,0,0,0,0,0,0,0,0,0,0,0,0,0,0,0,0,0,0,0,20,237,254,224,46,252,203,197,161,149,181,13,233,50,219,118,3,132,203,128,69,0,0,0,0,0,0,0,0,0,0,0,0,0,0,0,0,0,0,0,0,0,0,0,0,0,0,0,0,0,0,0,0,0,0,0,0,0,0,0,0,0,0,0,0,0,0,0,0,0,0,0,0,0,0,0,0,0,0,0,0,0,0,0,0,0,0,0,0,0,0,0,0,0,0,0,0,0,0,0,0,0,0,0,0,0,0,0,0,0,0,0,0,0,0,0,0,0,0,0,0,0,0,0,0,0,0,0,0];

    let mut schema: Vec<crosstalk::codec::Ty> = Vec::new();
    schema.push(crosstalk::codec::Ty::Str);
    schema.push(crosstalk::codec::Ty::Bytes);
    let tokens = crosstalk::codec::decode(&schema, &request_packet).unwrap();
    let dst = match &tokens[0] {
        crosstalk::codec::Tok::Str(s) => s.clone(),
        _ => panic!("expected a string"),
    };
    assert_eq!(
        dst,
        b"router1dny07jvnkemv5sndvawn0xurxy57p7whn9gpxmfshq85rlctszgssqxz6h".to_vec()
    );
    let packet = match &tokens[1] {
        crosstalk::codec::Tok::Bytes(b) => b.clone(),
        _ => panic!("expected bytes"),
    };
    let mut inner_schema: Vec<crosstalk::codec::Ty> = Vec::new();
    inner_schema.push(crosstalk::codec::Ty::U64);
    let decoded = crosstalk::codec::decode(&inner_schema, &packet).unwrap();
    match &decoded[0] {
        crosstalk::codec::Tok::Uint(v) => assert_eq!(*v, 0),
        _ => panic!("expected an integer"),
    }
}

#[test]
fn hex_decode() {
    let data = hex::decode(
        "00000000000F4240000000003B9ACA0000000000000000000000000000000000000000000000000000000000000000000000",
    )
    .unwrap();
    assert_eq!(data.len(), 50);
}

#[test]
fn abi_decode_with_array() {
    let sample_vec: Vec<u8> = vec![
        0, 0, 0, 0, 0, 0, 0, 0, 0, 0, 0, 0, 0, 0, 0, 0, 0, 0, 0, 0, 0, 0, 0, 0, 0, 0, 0, 0, 0, 0,
        0, 64, 0, 0, 0, 0, 0, 0, 0, 0, 0, 0, 0, 0, 0, 0, 0, 0, 0, 0, 0, 0, 0, 0, 0, 0, 0, 0, 0, 0,
        0, 0, 0, 160, 0, 0, 0, 0, 0, 0, 0, 0, 0, 0, 0, 0, 0, 0, 0, 0, 0, 0, 0, 0, 0, 0, 0, 0, 0, 0,
        0, 0, 0, 0, 0, 2, 0, 0, 0, 0, 0, 0, 0, 0, 0, 0, 0, 0, 0, 0, 0, 0, 0, 0, 0, 0, 0, 0, 0, 0,
        0, 0, 0, 0, 0, 0, 0, 1, 0, 0, 0, 0, 0, 0, 0, 0, 0, 0, 0, 0, 0, 0, 0, 0, 0, 0, 0, 0, 0, 0,
        0, 0, 0, 0, 0, 0, 0, 0, 0, 0, 0, 0, 0, 0, 0, 0, 0, 0, 0, 0, 0, 0, 0, 0, 0, 0, 0, 0, 0, 0,
        0, 0, 0, 0, 0, 0, 0, 0, 0, 0, 0, 2, 0, 0, 0, 0, 0, 0, 0, 0, 0, 0, 0, 0, 0, 0, 0, 0, 0, 0,
        0, 0, 0, 0, 0, 0, 0, 0, 0, 0, 0, 0, 0, 64, 0, 0, 0, 0, 0, 0, 0, 0, 0, 0, 0, 0, 0, 0, 0, 0,
        0, 0, 0, 0, 0, 0, 0, 0, 0, 0, 0, 0, 0, 0, 0, 96, 0, 0, 0, 0, 0, 0, 0, 0, 0, 0, 0, 0, 0, 0,
        0, 0, 0, 0, 0, 0, 0, 0, 0, 0, 0, 0, 0, 0, 0, 0, 0, 0, 0, 0, 0, 0, 0, 0, 0, 0, 0, 0, 0, 0,
        0, 0, 0, 0, 0, 0, 0, 0, 0, 0, 0, 0, 0, 0, 0, 0, 0, 0, 0, 0,
    ];
    // the two dynamic arrays read as integer arrays: the first holds the
    // flag words one and zero, the second the two inner offsets
    let mut schema: Vec<crosstalk::codec::Ty> = Vec::new();
    schema.push(crosstalk::codec::Ty::U256Arr);
    schema.push(crosstalk::codec::Ty::U256Arr);
    let tokens = crosstalk::codec::decode(&schema, &sample_vec).unwrap();
    assert_eq!(tokens[0], crosstalk::codec::Tok::UintArr(vec![1, 0]));
    assert_eq!(tokens[1], crosstalk::codec::Tok::UintArr(vec![64, 96]));
}

#[test]
fn ping_pong_ack_false_flag_records_failure() {
    // a false execution flag never decodes the bytes — garbage is fine —
    // and a failure record lands under the supplied identifier
    let gateway = b"gateway".to_vec();
    let mut ping_pong = PingPong::new(&b"deployer".to_vec(), &gateway);
    ping_pong.i_ack(&gateway, 7, false, &vec![0xde, 0xad]).unwrap();
    assert_eq!(ping_pong.get_ack_from_destination(7), Vec::<u8>::new());
}
