//! The rate limiter, the instruction-account ping-pong flavour, the
//! contract-pallet test dApp, and the migration gate on concrete values.

use crosstalk::errors::{AuthError, Error, TestError};
use crosstalk::handlers::encode_ping_payload;
use crosstalk::ink_test_dapp::TestDapp as InkTestDapp;
use crosstalk::rate_limit::RateLimit;
use crosstalk::solana_ping_pong as solana;
use crosstalk::version::{check_migrate, ContractVersion, MigrateError};

#[test]
fn rate_limit_admits_up_to_limit() {
    let caller = b"gateway".to_vec();
    let mut rl = RateLimit::new(&b"owner".to_vec(), &caller, 100, 2, 1000);
    // the construction-time period has already ended, so the first call
    // opens a fresh window
    assert!(rl.execute_rate_limiting(1000));
    assert!(rl.execute_rate_limiting(1050));
    assert!(!rl.execute_rate_limiting(1099));
    // a later timestamp opens the next window and admits again
    assert!(rl.execute_rate_limiting(1100));
    assert_eq!(rl.get_update_limit(), 2);
    assert_eq!(rl.get_time_period(), 100);
}

#[test]
fn rate_limit_updates_are_owner_only() {
    let mut rl = RateLimit::new(&b"owner".to_vec(), &b"gateway".to_vec(), 100, 2, 0);
    // a stranger's update fails closed and changes nothing
    assert_eq!(
        rl.update_limit(&b"someone".to_vec(), 9).unwrap_err(),
        AuthError::NotOwner
    );
    assert_eq!(
        rl.update_time_period(&b"someone".to_vec(), 60).unwrap_err(),
        AuthError::NotOwner
    );
    assert_eq!(rl.get_update_limit(), 2);
    assert_eq!(rl.get_time_period(), 100);
    // the owner's update goes through
    rl.update_limit(&b"owner".to_vec(), 9).unwrap();
    rl.update_time_period(&b"owner".to_vec(), 60).unwrap();
    assert_eq!(rl.get_update_limit(), 9);
    assert_eq!(rl.get_time_period(), 60);
}

#[test]
fn rate_limit_verify_request() {
    let mut rl = RateLimit::new(&b"owner".to_vec(), &b"gateway".to_vec(), 100, 1, 0);
    let admitted = rl.verify_cross_chain_request(
        &b"gateway".to_vec(),
        1,
        0,
        &b"sender".to_vec(),
        &b"80001".to_vec(),
        &Vec::new(),
        &b"handler".to_vec(),
        50,
    )
    .unwrap();
    assert!(admitted);
    let admitted_again = rl.verify_cross_chain_request(
        &b"gateway".to_vec(),
        2,
        0,
        &b"sender".to_vec(),
        &b"80001".to_vec(),
        &Vec::new(),
        &b"handler".to_vec(),
        60,
    )
    .unwrap();
    assert!(!admitted_again);
    // a caller that is not the gateway is turned away, and not counted
    let refused = rl.verify_cross_chain_request(
        &b"someone".to_vec(),
        3,
        0,
        &b"sender".to_vec(),
        &b"80001".to_vec(),
        &Vec::new(),
        &b"handler".to_vec(),
        70,
    );
    assert_eq!(refused.unwrap_err(), AuthError::NotGateway);
}

#[test]
fn solana_codec_matches_general_codec() {
    let hello = b"Hello From Solana".to_vec();
    let hand_rolled = solana::abi_encode_u128_string(42, &hello);
    let general = crosstalk::codec::encode(&vec![
        crosstalk::codec::Tok::Uint(42),
        crosstalk::codec::Tok::Str(hello.clone()),
    ]);
    assert_eq!(hand_rolled, general);
    let (value, text) = solana::abi_decode_u128_string(&hand_rolled).unwrap();
    assert_eq!(value, 42);
    assert_eq!(text, hello);
}

#[test]
fn solana_decode_checks_narrowing() {
    // a value word whose high sixteen bytes carry anything must fail loudly,
    // never truncate
    let mut data = vec![0u8; 64];
    data[0] = 1;
    assert_eq!(
        solana::decode_u256(&data).unwrap_err(),
        crosstalk::codec::DecodeError::NarrowingOverflow
    );
    assert_eq!(
        solana::abi_decode_u128_string(&data).unwrap_err(),
        crosstalk::codec::DecodeError::NarrowingOverflow
    );
    // an offset word pointing past the buffer is refused too
    let mut data2 = vec![0u8; 64];
    data2[63] = 200;
    assert_eq!(
        solana::abi_decode_u128_string(&data2).unwrap_err(),
        crosstalk::codec::DecodeError::OffsetOutOfRange
    );
}

#[test]
fn solana_initialize_checks_deployer() {
    let wrong = solana::initialize(
        &b"someone".to_vec(),
        &b"solana-devnet".to_vec(),
        &b"authority".to_vec(),
        5,
        &b"owner".to_vec(),
    );
    assert_eq!(wrong.unwrap_err(), solana::DappError::UnAuthorized);
    let acc = solana::initialize(
        &solana::authorized_deployer(),
        &b"solana-devnet".to_vec(),
        &b"authority".to_vec(),
        5,
        &b"owner".to_vec(),
    )
    .unwrap();
    assert_eq!(acc.isend_cnt, 0);
    assert!(!acc.pause);
}

#[test]
fn solana_ping_frames_packet() {
    let mut acc = solana::initialize(
        &solana::authorized_deployer(),
        &b"solana-devnet".to_vec(),
        &b"authority".to_vec(),
        5,
        &b"owner".to_vec(),
    )
    .unwrap();
    let dst = b"0xeedb3ab68d567a6cd6d19fa819fe77b9f8ed1538".to_vec();
    let framed = solana::i_ping(&mut acc, &dst).unwrap();
    assert_eq!(acc.isend_cnt, 1);
    // little-endian length prefix, destination, length prefix, payload
    assert_eq!(&framed[0..4], &(dst.len() as u32).to_le_bytes());
    assert_eq!(&framed[4..4 + dst.len()], &dst[..]);
    let payload_start = 4 + dst.len() + 4;
    let payload = framed[payload_start..].to_vec();
    let (id, text) = solana::abi_decode_u128_string(&payload).unwrap();
    assert_eq!(id, 1);
    assert_eq!(text, b"Hello From Solana".to_vec());
    // paused: the send is refused and nothing moves
    solana::pause(&mut acc).unwrap();
    assert_eq!(
        solana::i_ping(&mut acc, &dst).unwrap_err(),
        solana::PausableError::Paused
    );
    assert_eq!(acc.isend_cnt, 1);
}

#[test]
fn solana_receive_and_ack_count() {
    let mut acc = solana::initialize(
        &solana::authorized_deployer(),
        &b"solana-devnet".to_vec(),
        &b"authority".to_vec(),
        5,
        &b"owner".to_vec(),
    )
    .unwrap();
    let packet = solana::abi_encode_u128_string(9, &b"ping".to_vec());
    let answer = solana::i_receive(&mut acc, &b"sender".to_vec(), &b"80001".to_vec(), &packet)
        .unwrap();
    assert_eq!(acc.ireceive_cnt, 1);
    let (id, text) = solana::abi_decode_u128_string(&answer).unwrap();
    assert_eq!(id, 1);
    assert_eq!(text, b"Hello From Solana".to_vec());
    // a failed ack touches nothing and decodes nothing
    let out = solana::i_ack(&mut acc, 3, false, &Vec::new()).unwrap();
    assert!(out.is_empty());
    assert_eq!(acc.iack_cnt, 0);
    let out2 = solana::i_ack(&mut acc, 3, true, &packet).unwrap();
    assert!(out2.is_empty());
    assert_eq!(acc.iack_cnt, 1);
}

#[test]
fn ink_send_and_records() {
    let (mut dapp, _fee_payer) = InkTestDapp::new(
        &b"gateway-contract".to_vec(),
        &b"fee-payer".to_vec(),
        &b"route-token".to_vec(),
    );
    // decode failure
    let result = dapp.i_send(
        &b"caller".to_vec(),
        0,
        &Vec::new(),
        &b"80001".to_vec(),
        &Vec::new(),
        &vec![1, 2],
        &b"dst".to_vec(),
    );
    assert_eq!(result.unwrap_err(), TestError::DecodeError);
    // empty greeting
    let empty = encode_ping_payload(1, &Vec::new());
    let result = dapp.i_send(
        &b"caller".to_vec(),
        0,
        &Vec::new(),
        &b"80001".to_vec(),
        &Vec::new(),
        &empty,
        &b"dst".to_vec(),
    );
    assert_eq!(result.unwrap_err(), TestError::EmptyGreeting);
    // a funded send pulls tokens and approves the gateway first
    let payload = encode_ping_payload(1, &b"hello".to_vec());
    let (moves, req) = dapp
        .i_send(
            &b"caller".to_vec(),
            12,
            &b"recipient".to_vec(),
            &b"80001".to_vec(),
            &Vec::new(),
            &payload,
            &b"dst".to_vec(),
        )
        .unwrap();
    assert_eq!(moves.transfer_from, Some((b"caller".to_vec(), 12)));
    assert_eq!(moves.approve, Some((b"gateway-contract".to_vec(), 12)));
    assert_eq!(req.route_amount, 12);
    // records are empty until a receive arrives
    assert_eq!(
        dapp.get_greeting_record(&b"80001".to_vec(), 1).unwrap_err(),
        TestError::NotFound
    );
    let packet = encode_ping_payload(1, &b"hi".to_vec());
    dapp.i_receive(
        &b"gateway-contract".to_vec(),
        &b"sender".to_vec(),
        &packet,
        &b"80001".to_vec(),
    )
    .unwrap();
    assert_eq!(
        dapp.get_greeting_record(&b"80001".to_vec(), 1).unwrap(),
        b"hi".to_vec()
    );
    // only the gateway may ack
    assert_eq!(
        dapp.i_ack(&b"someone".to_vec(), 5, false, &Vec::new()).unwrap_err(),
        Error::Auth(AuthError::NotGateway)
    );
    dapp.i_ack(&b"gateway-contract".to_vec(), 5, false, &Vec::new()).unwrap();
    assert_eq!(dapp.get_ack_record(5).unwrap(), false);
}

#[test]
fn migrate_gate() {
    let mut stored = ContractVersion { name: b"PingPong".to_vec(), version: b"0.0.9".to_vec() };
    check_migrate(&mut stored, &b"PingPong".to_vec(), &b"0.1.0".to_vec()).unwrap();
    assert_eq!(stored.version, b"0.1.0".to_vec());
    // not newer
    let result = check_migrate(&mut stored, &b"PingPong".to_vec(), &b"0.1.0".to_vec());
    assert_eq!(result.unwrap_err(), MigrateError::NotNewer);
    // wrong contract name
    let result = check_migrate(&mut stored, &b"Other".to_vec(), &b"9.9.9".to_vec());
    assert_eq!(result.unwrap_err(), MigrateError::WrongContract);
}
