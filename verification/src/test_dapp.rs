//! The test dApp: the outbound request builder with full validation.
//!
//! Unlike the plain ping contract, `send_i_request` takes an
//! already-encoded inner payload and validates it before emitting anything:
//! the attached funds must match the declared route amount, the payload must
//! decode, and the greeting must not be empty.  A rejected send leaves the
//! state — including the monotonic counter — untouched.

use vstd::prelude::*;
use crate::errors::{Error, ValidationError};
use crate::handlers::{
    create_outbound_request, decode_ping_payload, fail_dest_req, handle_ack, ping_decodes,
    ping_decode_err, ping_id, ping_msg, spec_envelope, spec_fail_dest_req, spec_send_err,
    spec_send_ok, OutboundRequest, OutboundRequestV,
};
use crate::store::{bytes_eq, clone_bytes, AckRecord, AckRecordV, AckStore, RecordStore};
use crate::version::{check_migrate, ContractVersion, MigrateError};
use crate::ping_pong::{contract_name, contract_version, spec_contract_name, spec_contract_version};

verus! {

/// The reply id of the gateway sub-message.
pub const CREATE_I_SEND_REQUEST: u64 = 1;

pub struct InstantiateMsg {}

pub struct MigrateMsg {}

/// The execute entry point's message family.
pub enum ExecuteMsg {
    SendIRequest {
        payload: Vec<u8>,
        dest_contract_address: Vec<u8>,
        dest_chain_id: Vec<u8>,
        request_metadata: Vec<u8>,
        amount: u128,
        route_recipient: Vec<u8>,
    },
}

/// The query entry point's message family.
pub enum QueryMsg {
    GetContractVersion,
    FetchGreetingRecord { chain_id: Vec<u8>, request_id: u64 },
    FetchAckRecord { request_id: u64 },
}

/// What a query answers with.
pub enum QueryAnswer {
    Version { name: Vec<u8>, version: Vec<u8> },
    Greeting(Option<Vec<u8>>),
    Ack(Option<AckRecord>),
}

/// The gateway's callbacks.
pub enum SudoMsg {
    HandleIReceive {
        request_sender: Vec<u8>,
        src_chain_id: Vec<u8>,
        request_identifier: u64,
        payload: Vec<u8>,
    },
    HandleIAck { request_identifier: u64, exec_flag: bool, exec_data: Vec<u8>, refund_amount: u128 },
}

/// What a sudo callback answers with.
pub enum SudoAnswer {
    Receive { ack_payload: Vec<u8> },
    Ack { request_identifier: u64, exec_flag: bool },
}

/// The contract's whole persistent state.
pub struct TestDappState {
    pub version: ContractVersion,
    pub request_id: u64,
    pub ping_from_source: RecordStore,
    pub pong_from_destination: AckStore,
}

/// Sets up fresh state: version record written, counter at zero, no records.
pub fn instantiate(_msg: InstantiateMsg) -> (s: TestDappState)
    ensures
        s.version.name@ == spec_contract_name(),
        s.version.version@ == spec_contract_version(),
        s.request_id == 0,
        s.ping_from_source@ == Map::<(Seq<u8>, u64), Seq<u8>>::empty(),
        s.pong_from_destination@ == Map::<u128, AckRecordV>::empty(),
{
    TestDappState {
        version: ContractVersion { name: contract_name(), version: contract_version() },
        request_id: 0,
        ping_from_source: RecordStore::new(),
        pong_from_destination: AckStore::new(),
    }
}

/// Builds an outbound request from an already-encoded payload, through the
/// shared outbound builder: the attached funds must match the declared route
/// amount, the payload must decode as `(request_id, message)`, and the
/// message must be non-empty.  On success the monotonic counter advances by
/// one; on any rejection nothing changes and no request is emitted.
pub fn send_i_request(
    state: &mut TestDappState,
    payload: &Vec<u8>,
    dest_contract_address: &Vec<u8>,
    dest_chain_id: &Vec<u8>,
    request_metadata: &Vec<u8>,
    amount: u128,
    funds: Option<u128>,
    route_recipient: &Vec<u8>,
) -> (r: Result<OutboundRequest, Error>)
    requires
        old(state).request_id < u64::MAX,
        dest_contract_address@.len() + payload@.len() + 192 <= usize::MAX,
    ensures
        final(state).ping_from_source@ == old(state).ping_from_source@,
        final(state).pong_from_destination@ == old(state).pong_from_destination@,
        final(state).version.name@ == old(state).version.name@,
        final(state).version.version@ == old(state).version.version@,
        match r {
            Ok(req) => {
                &&& spec_send_ok(payload@, amount, funds)
                &&& final(state).request_id == old(state).request_id + 1
                &&& req@ == (OutboundRequestV {
                    version: 1,
                    route_amount: amount,
                    route_recipient: route_recipient@,
                    dest_chain_id: dest_chain_id@,
                    request_metadata: request_metadata@,
                    request_packet: spec_envelope(dest_contract_address@, payload@),
                })
            },
            Err(e) => {
                &&& !spec_send_ok(payload@, amount, funds)
                &&& e == spec_send_err(payload@, amount, funds)
                &&& final(state).request_id == old(state).request_id
            },
        },
{
    match create_outbound_request(
        state.request_id,
        payload,
        dest_contract_address,
        dest_chain_id,
        request_metadata,
        amount,
        funds,
        route_recipient,
    ) {
        Ok((counter, req)) => {
            state.request_id = counter;
            Ok(req)
        },
        Err(e) => Err(e),
    }
}

/// Dispatches an execute message.
pub fn execute(state: &mut TestDappState, msg: &ExecuteMsg, funds: Option<u128>) -> (r: Result<
    OutboundRequest,
    Error,
>)
    requires
        old(state).request_id < u64::MAX,
        msg matches ExecuteMsg::SendIRequest { payload, dest_contract_address, .. }
            ==> dest_contract_address@.len() + payload@.len() + 192 <= usize::MAX,
    ensures
        msg matches ExecuteMsg::SendIRequest {
            payload,
            dest_contract_address,
            dest_chain_id,
            request_metadata,
            amount,
            route_recipient,
        } ==> match r {
            Ok(req) => {
                &&& spec_send_ok(payload@, *amount, funds)
                &&& final(state).request_id == old(state).request_id + 1
                &&& req@ == (OutboundRequestV {
                    version: 1,
                    route_amount: *amount,
                    route_recipient: route_recipient@,
                    dest_chain_id: dest_chain_id@,
                    request_metadata: request_metadata@,
                    request_packet: spec_envelope(dest_contract_address@, payload@),
                })
            },
            Err(e) => {
                &&& !spec_send_ok(payload@, *amount, funds)
                &&& e == spec_send_err(payload@, *amount, funds)
                &&& final(state).request_id == old(state).request_id
            },
        },
{
    match msg {
        ExecuteMsg::SendIRequest {
            payload,
            dest_contract_address,
            dest_chain_id,
            request_metadata,
            amount,
            route_recipient,
        } => send_i_request(
            state,
            payload,
            dest_contract_address,
            dest_chain_id,
            request_metadata,
            *amount,
            funds,
            route_recipient,
        ),
    }
}

/// Whether an inbound relayed payload is accepted: it must decode, and not
/// carry the sentinel failure string.
pub open spec fn spec_receive_ok(payload: Seq<u8>) -> bool {
    &&& ping_decodes(payload)
    &&& ping_msg(payload) != spec_fail_dest_req()
}

/// The error an inbound receive fails with.
pub open spec fn spec_receive_err(payload: Seq<u8>) -> Error
    recommends
        !spec_receive_ok(payload),
{
    if !ping_decodes(payload) {
        Error::Decode(ping_decode_err(payload))
    } else {
        Error::Validation(ValidationError::SimulatedFailure)
    }
}

/// Processes a relayed message: decodes it, rejects the sentinel, records
/// the greeting under `(source chain id, embedded request id)`, and echoes
/// the payload back as the ack data.  On an error nothing is written.
pub fn handle_sudo_request(
    state: &mut TestDappState,
    request_sender: &Vec<u8>,
    src_chain_id: &Vec<u8>,
    request_identifier: u64,
    payload: &Vec<u8>,
) -> (r: Result<Vec<u8>, Error>)
    ensures
        final(state).request_id == old(state).request_id,
        final(state).pong_from_destination@ == old(state).pong_from_destination@,
        match r {
            Ok(ack) => {
                &&& spec_receive_ok(payload@)
                &&& final(state).ping_from_source@ == old(state).ping_from_source@.insert(
                    (src_chain_id@, ping_id(payload@)),
                    ping_msg(payload@),
                )
                &&& ack@ == payload@
            },
            Err(e) => {
                &&& !spec_receive_ok(payload@)
                &&& e == spec_receive_err(payload@)
                &&& final(state).ping_from_source@ == old(state).ping_from_source@
            },
        },
{
    let (id, msg) = match decode_ping_payload(payload) {
        Ok(p) => p,
        Err(e) => {
            return Err(Error::Decode(e));
        },
    };
    let sentinel = fail_dest_req();
    if bytes_eq(&msg, &sentinel) {
        return Err(Error::Validation(ValidationError::SimulatedFailure));
    }
    state.ping_from_source.put(src_chain_id, id, &msg);
    Ok(clone_bytes(payload))
}

/// Processes the gateway's ack callback through the shared acknowledgement
/// handler.
pub fn handle_sudo_ack(
    state: &mut TestDappState,
    request_identifier: u64,
    exec_flag: bool,
    exec_data: &Vec<u8>,
    _refund_amount: u128,
) -> (r: Result<(), Error>)
    ensures
        final(state).request_id == old(state).request_id,
        final(state).ping_from_source@ == old(state).ping_from_source@,
        !exec_flag ==> r is Ok && final(state).pong_from_destination@ == old(state).pong_from_destination@.insert(
            request_identifier as u128,
            AckRecordV { success: false, message: Seq::empty() },
        ),
        exec_flag ==> match r {
            Ok(_) => crate::handlers::spec_ack_ok(exec_data@) && final(state).pong_from_destination@
                == old(state).pong_from_destination@.insert(
                ping_id(exec_data@) as u128,
                AckRecordV { success: true, message: ping_msg(exec_data@) },
            ),
            Err(e) => !crate::handlers::spec_ack_ok(exec_data@) && e
                == crate::handlers::spec_ack_err(exec_data@) && final(state).pong_from_destination@
                == old(state).pong_from_destination@,
        },
{
    handle_ack(&mut state.pong_from_destination, request_identifier as u128, exec_flag, exec_data)
}

/// Dispatches a gateway callback.
pub fn sudo(state: &mut TestDappState, msg: &SudoMsg) -> (r: Result<SudoAnswer, Error>)
    ensures
        final(state).request_id == old(state).request_id,
        msg matches SudoMsg::HandleIReceive { src_chain_id, payload, .. } ==> {
            &&& final(state).pong_from_destination@ == old(state).pong_from_destination@
            &&& match r {
                Ok(a) => {
                    &&& spec_receive_ok(payload@)
                    &&& (a matches SudoAnswer::Receive { ack_payload } && ack_payload@ == payload@)
                    &&& final(state).ping_from_source@ == old(state).ping_from_source@.insert(
                        (src_chain_id@, ping_id(payload@)),
                        ping_msg(payload@),
                    )
                },
                Err(e) => {
                    &&& !spec_receive_ok(payload@)
                    &&& e == spec_receive_err(payload@)
                    &&& final(state).ping_from_source@ == old(state).ping_from_source@
                },
            }
        },
        msg matches SudoMsg::HandleIAck { request_identifier, exec_flag, exec_data, .. } ==> {
            &&& final(state).ping_from_source@ == old(state).ping_from_source@
            &&& (!*exec_flag ==> (r is Ok && final(state).pong_from_destination@ == old(state).pong_from_destination@.insert(
                *request_identifier as u128,
                AckRecordV { success: false, message: Seq::empty() },
            )))
            &&& (*exec_flag ==> match r {
                Ok(_) => crate::handlers::spec_ack_ok(exec_data@) && final(state).pong_from_destination@
                    == old(state).pong_from_destination@.insert(
                    ping_id(exec_data@) as u128,
                    AckRecordV { success: true, message: ping_msg(exec_data@) },
                ),
                Err(e) => !crate::handlers::spec_ack_ok(exec_data@) && e
                    == crate::handlers::spec_ack_err(exec_data@) && final(state).pong_from_destination@
                    == old(state).pong_from_destination@,
            })
        },
{
    match msg {
        SudoMsg::HandleIReceive { request_sender, src_chain_id, request_identifier, payload } => {
            match handle_sudo_request(
                state,
                request_sender,
                src_chain_id,
                *request_identifier,
                payload,
            ) {
                Ok(ack_payload) => Ok(SudoAnswer::Receive { ack_payload }),
                Err(e) => Err(e),
            }
        },
        SudoMsg::HandleIAck { request_identifier, exec_flag, exec_data, refund_amount } => {
            match handle_sudo_ack(state, *request_identifier, *exec_flag, exec_data, *refund_amount) {
                Ok(_) => Ok(
                    SudoAnswer::Ack {
                        request_identifier: *request_identifier,
                        exec_flag: *exec_flag,
                    },
                ),
                Err(e) => Err(e),
            }
        },
    }
}

/// Whether a sub-message reply id is the one this contract registers.
pub fn reply(id: u64) -> (r: bool)
    ensures
        r == (id == CREATE_I_SEND_REQUEST),
{
    id == CREATE_I_SEND_REQUEST
}

/// Migrates the version record: same contract name, strictly older stored
/// version.
pub fn migrate(state: &mut TestDappState, _msg: MigrateMsg) -> (r: Result<(), MigrateError>)
    ensures
        final(state).request_id == old(state).request_id,
        final(state).ping_from_source@ == old(state).ping_from_source@,
        final(state).pong_from_destination@ == old(state).pong_from_destination@,
        r is Ok ==> final(state).version.name@ == spec_contract_name()
            && final(state).version.version@ == spec_contract_version(),
        r is Err ==> final(state).version.name@ == old(state).version.name@
            && final(state).version.version@ == old(state).version.version@,
{
    let name = contract_name();
    let version = contract_version();
    check_migrate(&mut state.version, &name, &version)
}

/// The stored greeting for `(chain_id, request_id)`, if any.
pub fn fetch_ping(state: &TestDappState, chain_id: &Vec<u8>, request_id: u64) -> (r: Option<
    Vec<u8>,
>)
    ensures
        match r {
            Some(m) => state.ping_from_source@.contains_key((chain_id@, request_id)) && m@
                == state.ping_from_source@[(chain_id@, request_id)],
            None => !state.ping_from_source@.contains_key((chain_id@, request_id)),
        },
{
    state.ping_from_source.get(chain_id, request_id)
}

/// The stored ack for `request_id`, if any.
pub fn fetch_pong(state: &TestDappState, request_id: u64) -> (r: Option<AckRecord>)
    ensures
        match r {
            Some(rec) => state.pong_from_destination@.contains_key(request_id as u128) && rec@
                == state.pong_from_destination@[request_id as u128],
            None => !state.pong_from_destination@.contains_key(request_id as u128),
        },
{
    state.pong_from_destination.get(request_id as u128)
}

/// What each query must answer with: the version record, or the stored
/// greeting or ack exactly as the store holds it.
pub open spec fn query_answer_ok(state: TestDappState, msg: QueryMsg, r: QueryAnswer) -> bool {
    match msg {
        QueryMsg::GetContractVersion => r matches QueryAnswer::Version { name, version } && name@
            == state.version.name@ && version@ == state.version.version@,
        QueryMsg::FetchGreetingRecord { chain_id, request_id } => r matches QueryAnswer::Greeting(o)
            && (match o {
            Some(m) => state.ping_from_source@.contains_key((chain_id@, request_id)) && m@
                == state.ping_from_source@[(chain_id@, request_id)],
            None => !state.ping_from_source@.contains_key((chain_id@, request_id)),
        }),
        QueryMsg::FetchAckRecord { request_id } => r matches QueryAnswer::Ack(o) && (match o {
            Some(rec) => state.pong_from_destination@.contains_key(request_id as u128) && rec@
                == state.pong_from_destination@[request_id as u128],
            None => !state.pong_from_destination@.contains_key(request_id as u128),
        }),
    }
}

/// The query entry point.
pub fn query(state: &TestDappState, msg: &QueryMsg) -> (r: QueryAnswer)
    ensures
        query_answer_ok(*state, *msg, r),
{
    handle_query(state, msg)
}

/// Dispatches a query.
pub fn handle_query(state: &TestDappState, msg: &QueryMsg) -> (r: QueryAnswer)
    ensures
        query_answer_ok(*state, *msg, r),
{
    match msg {
        QueryMsg::GetContractVersion => QueryAnswer::Version {
            name: clone_bytes(&state.version.name),
            version: clone_bytes(&state.version.version),
        },
        QueryMsg::FetchGreetingRecord { chain_id, request_id } => QueryAnswer::Greeting(
            fetch_ping(state, chain_id, *request_id),
        ),
        QueryMsg::FetchAckRecord { request_id } => QueryAnswer::Ack(
            fetch_pong(state, *request_id),
        ),
    }
}

} // verus!
