//! The token- and NFT-transfer handlers driven end to end.

use crosstalk::errors::{AuthError, TransferError, ValidationError};
use crosstalk::metadata::RequestMetaData;
use crosstalk::xerc20;
use crosstalk::xerc1155;
use crosstalk::xerc721;

const INIT_ADDRESS: &str = "router1apapk9zfz3rp4x87fsm6h0s3zd0wlmkz0fx8tx";
const BRIDGE_ADDRESS: &str = "0xeedb3ab68d567a6cd6d19fa819fe77b9f8ed1538";
const SENDER: &str = "router1apapk9zfz3rp4x87fsm6h0s3zd0wlmkz0fx8tx";

fn xerc20_instance() -> xerc20::Xerc20State {
    let owner = INIT_ADDRESS.as_bytes().to_vec();
    let msg = xerc20::InstantiateMsg {
        cw20_code_id: 1,
        token_name: b"sdsdsds".to_vec(),
        token_symbol: b"dsdwdw".to_vec(),
    };
    let mut state = xerc20::instantiate(&msg, &owner);
    let chain_types = vec![
        xerc20::ChainTypeInfo { chain_id: b"80001".to_vec(), chain_type: 1 },
        xerc20::ChainTypeInfo { chain_id: b"5".to_vec(), chain_type: 1 },
        xerc20::ChainTypeInfo { chain_id: b"43113".to_vec(), chain_type: 1 },
        xerc20::ChainTypeInfo { chain_id: b"router_9000-1".to_vec(), chain_type: 2 },
    ];
    xerc20::set_chain_types_info(&mut state, &owner, &chain_types).unwrap();
    xerc20::set_xerc20_addr(&mut state, &owner, &owner.clone()).unwrap();
    state
}

/// The `(recipient_bytes, amount)` payload of one relayed token transfer:
/// amount 10^18, recipient a 65-byte bech32 address.
fn xerc20_inbound_payload() -> Vec<u8> {
    hex::decode("00000000000000000000000000000000000000000000000000000000000000400000000000000000000000000000000000000000000000000de0b6b3a76400000000000000000000000000000000000000000000000000000000000000000041726f757465723172646c3766646a746b34637372667a7073736a6d7a73303338727a37756d64636e6d376e65647433686a63646637347a723937716a326d37666300000000000000000000000000000000000000000000000000000000000000").unwrap()
}

#[test]
fn xerc20_test_basic() {
    let state = xerc20_instance();
    assert_eq!(
        xerc20::fetch_chain_type(&state, &b"80001".to_vec()),
        Some(1)
    );
    assert_eq!(
        xerc20::fetch_chain_type(&state, &b"router_9000-1".to_vec()),
        Some(2)
    );
    assert_eq!(
        xerc20::fetch_xerc20_addr(&state),
        INIT_ADDRESS.as_bytes().to_vec()
    );
}

#[test]
fn xerc20_test_sudo_inbound_function() {
    let owner = INIT_ADDRESS.as_bytes().to_vec();
    let mut state = xerc20_instance();
    // without an allowlist entry the receive fails closed
    let result = xerc20::handle_sudo_request(
        &mut state,
        &BRIDGE_ADDRESS.as_bytes().to_vec(),
        &b"80001".to_vec(),
        2,
        &xerc20_inbound_payload(),
    );
    assert_eq!(
        result.unwrap_err(),
        TransferError::Auth(AuthError::UnauthorizedSender)
    );
    // with the lower-cased sender allowlisted it mints to the decoded fields
    let contracts = vec![xerc20::ContractInfo {
        chain_id: b"80001".to_vec(),
        contract_addr: BRIDGE_ADDRESS.as_bytes().to_vec(),
    }];
    xerc20::set_white_listed_contracts(&mut state, &owner, &contracts).unwrap();
    let mint = xerc20::handle_sudo_request(
        &mut state,
        &BRIDGE_ADDRESS.as_bytes().to_vec(),
        &b"80001".to_vec(),
        2,
        &xerc20_inbound_payload(),
    )
    .unwrap();
    match mint {
        xerc20::TokenAction::Mint { token, recipient, amount } => {
            assert_eq!(token, INIT_ADDRESS.as_bytes().to_vec());
            assert_eq!(
                recipient,
                b"router1rdl7fdjtk4csrfzpssjmzs038rz7umdcnm7nedt3hjcdf74zr97qj2m7fc".to_vec()
            );
            assert_eq!(amount, 1_000_000_000_000_000_000u128);
        },
        _ => panic!("expected a mint"),
    }
}

#[test]
fn xerc20_case_insensitive_sender() {
    // an EVM-typed chain compares senders after ASCII lower-casing
    let owner = INIT_ADDRESS.as_bytes().to_vec();
    let mut state = xerc20_instance();
    let contracts = vec![xerc20::ContractInfo {
        chain_id: b"80001".to_vec(),
        contract_addr: BRIDGE_ADDRESS.as_bytes().to_vec(),
    }];
    xerc20::set_white_listed_contracts(&mut state, &owner, &contracts).unwrap();
    let mixed_case = b"0xEeDb3AB68d567A6CD6D19Fa819fe77b9f8Ed1538".to_vec();
    let result = xerc20::handle_sudo_request(
        &mut state,
        &mixed_case,
        &b"80001".to_vec(),
        2,
        &xerc20_inbound_payload(),
    );
    assert!(result.is_ok());
}

#[test]
fn xerc20_test_sudo_outbound_ack_function() {
    let state = xerc20_instance();
    let status = xerc20::handle_sudo_ack(&state, 1, true);
    assert_eq!(status, (1, true));
}

#[test]
fn xerc20_test_encode() {
    let data = xerc20_inbound_payload();
    let schema = xerc20::transfer_schema_vec();
    let tokens = crosstalk::codec::decode(&schema, &data).unwrap();
    match &tokens[0] {
        crosstalk::codec::Tok::Bytes(recipient) => assert_eq!(
            recipient,
            &b"router1rdl7fdjtk4csrfzpssjmzs038rz7umdcnm7nedt3hjcdf74zr97qj2m7fc".to_vec()
        ),
        _ => panic!("expected bytes"),
    }
    match &tokens[1] {
        crosstalk::codec::Tok::Uint(amount) => assert_eq!(*amount, 1_000_000_000_000_000_000u128),
        _ => panic!("expected an integer"),
    }
}

#[test]
fn xerc20_transfer_cross_chain() {
    let owner = INIT_ADDRESS.as_bytes().to_vec();
    let mut state = xerc20_instance();
    let contracts = vec![xerc20::ContractInfo {
        chain_id: b"80001".to_vec(),
        contract_addr: BRIDGE_ADDRESS.as_bytes().to_vec(),
    }];
    xerc20::set_white_listed_contracts(&mut state, &owner, &contracts).unwrap();
    let (burn, req) = xerc20::transfer_cross_chain(
        &state,
        &owner,
        1000,
        &b"recipient-bytes".to_vec(),
        &b"80001".to_vec(),
        50_000_000_000,
        50_000_000_000,
        3,
    )
    .unwrap();
    match burn {
        xerc20::TokenAction::BurnFrom { owner: from, amount, .. } => {
            assert_eq!(from, owner);
            assert_eq!(amount, 1000);
        },
        _ => panic!("expected a burn"),
    }
    assert_eq!(req.version, 1);
    assert_eq!(req.dest_chain_id, b"80001".to_vec());
    // the envelope round-trips back to the transfer pair
    let mut env_schema: Vec<crosstalk::codec::Ty> = Vec::new();
    env_schema.push(crosstalk::codec::Ty::Str);
    env_schema.push(crosstalk::codec::Ty::Bytes);
    let outer = crosstalk::codec::decode(&env_schema, &req.request_packet).unwrap();
    match &outer[0] {
        crosstalk::codec::Tok::Str(dst) => {
            assert_eq!(dst, &BRIDGE_ADDRESS.as_bytes().to_vec())
        },
        _ => panic!("expected a string"),
    }
}

#[test]
fn xerc721_test_basic() {
    let msg = xerc721::InstantiateMsg {
        name: b"XERC721".to_vec(),
        symbol: b"XERC721".to_vec(),
        minter: SENDER.as_bytes().to_vec(),
    };
    let state = xerc721::instantiate(&msg);
    assert_eq!(state.name, b"XERC721".to_vec());
    assert_eq!(state.symbol, b"XERC721".to_vec());
}

#[test]
fn test_enroll_and_get_remote_contract() {
    let sender = SENDER.as_bytes().to_vec();
    let msg = xerc721::InstantiateMsg {
        name: b"XERC721".to_vec(),
        symbol: b"XERC721".to_vec(),
        minter: sender.clone(),
    };
    let mut state = xerc721::instantiate(&msg);
    let remote = b"wasm1kjd9yyyqx0jwfzzy9ls32vuuyfem38x2lg2y0g".to_vec();
    xerc721::enroll_remote_contract(&mut state, &sender, &b"cosmos".to_vec(), &remote).unwrap();
    assert_eq!(
        xerc721::get_remote_contract(&state, &b"cosmos".to_vec()),
        Some(remote)
    );
}

#[test]
fn test_mint_nft() {
    let sender = SENDER.as_bytes().to_vec();
    let msg = xerc721::InstantiateMsg {
        name: b"XERC721".to_vec(),
        symbol: b"XERC721".to_vec(),
        minter: sender.clone(),
    };
    let mut state = xerc721::instantiate(&msg);
    xerc721::mint(&mut state, &sender, 2, &sender, &b"someuri".to_vec()).unwrap();
    let info = xerc721::get_nft_info(&state, 2).unwrap();
    assert_eq!(info.owner, sender);
    assert_eq!(info.token_uri, b"someuri".to_vec());
}

#[test]
fn test_transfer_crosschain() {
    let sender = SENDER.as_bytes().to_vec();
    let msg = xerc721::InstantiateMsg {
        name: b"XERC721".to_vec(),
        symbol: b"XERC721".to_vec(),
        minter: sender.clone(),
    };
    let mut state = xerc721::instantiate(&msg);
    let remote = b"wasm1kjd9yyyqx0jwfzzy9ls32vuuyfem38x2lg2y0g".to_vec();
    xerc721::enroll_remote_contract(&mut state, &sender, &b"1".to_vec(), &remote).unwrap();
    xerc721::mint(&mut state, &sender, 2, &sender, &b"URI".to_vec()).unwrap();
    assert!(xerc721::get_nft_owner_of(&state, 2).is_some());

    let request_metadata = RequestMetaData {
        dest_gas_limit: 0,
        ack_gas_limit: 0,
        dest_gas_price: 0,
        ack_gas_price: 0,
        relayer_fee: 0,
        ack_type: 3,
        is_read_call: false,
        asm_address: Vec::new(),
    };
    let req = xerc721::transfer_crosschain(
        &mut state,
        &sender,
        &b"1".to_vec(),
        2,
        &sender,
        &request_metadata,
    )
    .unwrap();

    // the request packet opens to (destination contract, wrapped payload)
    let mut env_schema: Vec<crosstalk::codec::Ty> = Vec::new();
    env_schema.push(crosstalk::codec::Ty::Str);
    env_schema.push(crosstalk::codec::Ty::Bytes);
    let outer = crosstalk::codec::decode(&env_schema, &req.request_packet).unwrap();
    let dst = match &outer[0] {
        crosstalk::codec::Tok::Str(s) => s.clone(),
        _ => panic!("expected a string"),
    };
    assert_eq!(dst, remote);
    let payload = match &outer[1] {
        crosstalk::codec::Tok::Bytes(b) => b.clone(),
        _ => panic!("expected bytes"),
    };
    // ... and the payload decodes back to the transfer fields
    let schema = xerc721::TransferParams::get_params_types();
    let toks = crosstalk::codec::decode_wrapped(&schema, &payload).unwrap();
    let params = xerc721::TransferParams::from_token_tuple(&toks).unwrap();
    assert_eq!(params.nft_id, 2);
    assert_eq!(params.recipient, sender);
    assert_eq!(params.token_uri, b"URI".to_vec());

    // the token burned at home
    assert!(xerc721::get_nft_info(&state, 2).is_none());
}

#[test]
fn xerc721_receive_mints_token() {
    let sender = SENDER.as_bytes().to_vec();
    let msg = xerc721::InstantiateMsg {
        name: b"XERC721".to_vec(),
        symbol: b"XERC721".to_vec(),
        minter: sender.clone(),
    };
    let mut state = xerc721::instantiate(&msg);
    let remote = b"wasm1kjd9yyyqx0jwfzzy9ls32vuuyfem38x2lg2y0g".to_vec();
    xerc721::enroll_remote_contract(&mut state, &sender, &b"1".to_vec(), &remote).unwrap();
    let params = xerc721::TransferParams {
        nft_id: 7,
        recipient: sender.clone(),
        token_uri: b"URI".to_vec(),
    };
    let payload = params.get_evm_encoding();
    let ack = xerc721::handle_sudo_request(&mut state, &remote, &b"1".to_vec(), 9, &payload)
        .unwrap();
    assert!(!ack.is_empty());
    let info = xerc721::get_nft_info(&state, 7).unwrap();
    assert_eq!(info.owner, sender);
}

#[test]
fn xerc1155_arity_mismatch_rejected_before_encoding() {
    let sender = SENDER.as_bytes().to_vec();
    let msg = xerc1155::InstantiateMsg { minter: sender.clone(), xerc1155_codeid: 1 };
    let mut state = xerc1155::instantiate(&msg);
    xerc1155::enroll_remote_contract(
        &mut state,
        &sender,
        &b"1".to_vec(),
        &BRIDGE_ADDRESS.as_bytes().to_vec(),
    )
    .unwrap();
    let request_metadata = RequestMetaData {
        dest_gas_limit: 0,
        ack_gas_limit: 0,
        dest_gas_price: 0,
        ack_gas_price: 0,
        relayer_fee: 0,
        ack_type: 3,
        is_read_call: false,
        asm_address: Vec::new(),
    };
    let result = xerc1155::transfer_crosschain(
        &state,
        &sender,
        &b"1".to_vec(),
        &vec![1, 2],
        &vec![10],
        &Vec::new(),
        &sender,
        &request_metadata,
    );
    assert_eq!(
        result.unwrap_err(),
        TransferError::Validation(ValidationError::ArityMismatch)
    );
}

#[test]
fn xerc1155_batch_round_trip() {
    let sender = SENDER.as_bytes().to_vec();
    let msg = xerc1155::InstantiateMsg { minter: sender.clone(), xerc1155_codeid: 1 };
    let mut state = xerc1155::instantiate(&msg);
    let remote = BRIDGE_ADDRESS.as_bytes().to_vec();
    xerc1155::enroll_remote_contract(&mut state, &sender, &b"1".to_vec(), &remote).unwrap();
    let request_metadata = RequestMetaData {
        dest_gas_limit: 100_000,
        ack_gas_limit: 100_000,
        dest_gas_price: 10,
        ack_gas_price: 10,
        relayer_fee: 0,
        ack_type: 3,
        is_read_call: false,
        asm_address: Vec::new(),
    };
    let (burn, req) = xerc1155::transfer_crosschain(
        &state,
        &sender,
        &b"1".to_vec(),
        &vec![1, 2],
        &vec![10, 20],
        &b"data".to_vec(),
        &sender,
        &request_metadata,
    )
    .unwrap();
    match burn {
        xerc1155::Cw1155Action::BatchBurn { from, batch } => {
            assert_eq!(from, sender);
            assert_eq!(batch, vec![(1, 10), (2, 20)]);
        },
        _ => panic!("expected a batch burn"),
    }
    // open the envelope and hand the payload to the inbound handler
    let mut env_schema: Vec<crosstalk::codec::Ty> = Vec::new();
    env_schema.push(crosstalk::codec::Ty::Str);
    env_schema.push(crosstalk::codec::Ty::Bytes);
    let outer = crosstalk::codec::decode(&env_schema, &req.request_packet).unwrap();
    let payload = match &outer[1] {
        crosstalk::codec::Tok::Bytes(b) => b.clone(),
        _ => panic!("expected bytes"),
    };
    let (mint_action, ack) = xerc1155::handle_sudo_request(
        &mut state,
        &remote,
        &b"1".to_vec(),
        4,
        &payload,
    )
    .unwrap();
    match mint_action {
        xerc1155::Cw1155Action::BatchMint { to, batch, data } => {
            // the recipient bytes are minted under their 0x-hex spelling
            let expected_to = format!("0x{}", hex::encode(&sender)).into_bytes();
            assert_eq!(to, expected_to);
            assert_eq!(batch, vec![(1, 10), (2, 20)]);
            assert_eq!(data, b"data".to_vec());
        },
        _ => panic!("expected a batch mint"),
    }
    assert!(!ack.is_empty());
}
