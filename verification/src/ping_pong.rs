//! The ping-pong contract: the simplest dApp over the shared core.
//!
//! An outbound `i_ping` wraps a message with a fresh request id and hands
//! the envelope to the gateway; the inbound path records the relayed ping;
//! the ack path records the destination's answer.

use vstd::prelude::*;
use crate::errors::{Error, ValidationError};
use crate::handlers::{
    encode_envelope, encode_ping_payload, fail_dest_req, decode_ping_payload, handle_ack,
    lemma_ping_payload_len, ping_decodes, ping_decode_err, ping_id, ping_msg, spec_envelope,
    spec_fail_dest_req, spec_ping_payload, OutboundRequest, OutboundRequestV,
};
use crate::store::{bytes_eq, clone_bytes, AckRecord, AckRecordV, AckStore, RecordStore};
use crate::version::{check_migrate, ContractVersion, MigrateError};

verus! {

/// The reply id of the gateway sub-message.
pub const CREATE_I_SEND_REQUEST: u64 = 1;

/// The contract name under which the version record is stored.
pub open spec fn spec_contract_name() -> Seq<u8> {
    seq![80u8, 105u8, 110u8, 103u8, 80u8, 111u8, 110u8, 103u8]
}

/// "PingPong" as bytes.
pub fn contract_name() -> (r: Vec<u8>)
    ensures
        r@ == spec_contract_name(),
{
    let r = vec![80u8, 105u8, 110u8, 103u8, 80u8, 111u8, 110u8, 103u8];
    proof {
        assert(r@ =~= spec_contract_name());
    }
    r
}

/// The stored contract version string.
pub open spec fn spec_contract_version() -> Seq<u8> {
    seq![48u8, 46u8, 49u8, 46u8, 48u8]
}

/// "0.1.0" as bytes.
pub fn contract_version() -> (r: Vec<u8>)
    ensures
        r@ == spec_contract_version(),
{
    let r = vec![48u8, 46u8, 49u8, 46u8, 48u8];
    proof {
        assert(r@ =~= spec_contract_version());
    }
    r
}

pub struct InstantiateMsg {}

pub struct MigrateMsg {}

/// The execute entry point's message family.
pub enum ExecuteMsg {
    IPing {
        ping: Vec<u8>,
        dest_contract_address: Vec<u8>,
        dest_chain_id: Vec<u8>,
        request_metadata: Vec<u8>,
    },
}

/// The query entry point's message family.
pub enum QueryMsg {
    GetContractVersion,
    FetchPing { chain_id: Vec<u8>, request_id: u64 },
    FetchPong { request_id: u64 },
    FetchRequestId,
}

/// What a query answers with.
pub enum QueryAnswer {
    Version { name: Vec<u8>, version: Vec<u8> },
    Ping(Option<Vec<u8>>),
    Pong(Option<AckRecord>),
    RequestId(u64),
}

/// The gateway's callbacks.
pub enum SudoMsg {
    HandleIReceive {
        request_sender: Vec<u8>,
        src_chain_id: Vec<u8>,
        request_identifier: u64,
        payload: Vec<u8>,
    },
    HandleIAck { request_identifier: u64, exec_flag: bool, exec_data: Vec<u8>, refund_amount: u128 },
}

/// What a sudo callback answers with: the ack payload the gateway relays
/// back, or the execution status it logs.
pub enum SudoAnswer {
    Receive { ack_payload: Vec<u8> },
    Ack { request_identifier: u64, exec_flag: bool },
}

/// The contract's whole persistent state.
pub struct PingPongState {
    pub version: ContractVersion,
    pub request_id: u64,
    pub ping_from_source: RecordStore,
    pub pong_from_destination: AckStore,
}

/// Sets up fresh state: version record written, counter at zero, no records.
pub fn instantiate(_msg: InstantiateMsg) -> (s: PingPongState)
    ensures
        s.version.name@ == spec_contract_name(),
        s.version.version@ == spec_contract_version(),
        s.request_id == 0,
        s.ping_from_source@ == Map::<(Seq<u8>, u64), Seq<u8>>::empty(),
        s.pong_from_destination@ == Map::<u128, AckRecordV>::empty(),
{
    PingPongState {
        version: ContractVersion { name: contract_name(), version: contract_version() },
        request_id: 0,
        ping_from_source: RecordStore::new(),
        pong_from_destination: AckStore::new(),
    }
}

/// Builds the outbound ping: derives the next request id from the monotonic
/// counter, encodes `(request_id, ping)`, wraps it in the envelope, and
/// hands the whole to the gateway with protocol version 1 and no routed
/// funds.  The counter advances by exactly one.
pub fn i_ping(
    state: &mut PingPongState,
    ping: &Vec<u8>,
    dest_contract_address: &Vec<u8>,
    dest_chain_id: &Vec<u8>,
    request_metadata: &Vec<u8>,
) -> (r: OutboundRequest)
    requires
        old(state).request_id < u64::MAX,
        ping@.len() + dest_contract_address@.len() + 512 <= usize::MAX,
    ensures
        final(state).request_id == old(state).request_id + 1,
        final(state).ping_from_source@ == old(state).ping_from_source@,
        final(state).pong_from_destination@ == old(state).pong_from_destination@,
        final(state).version.name@ == old(state).version.name@,
        final(state).version.version@ == old(state).version.version@,
        r@ == (OutboundRequestV {
            version: 1,
            route_amount: 0,
            route_recipient: Seq::empty(),
            dest_chain_id: dest_chain_id@,
            request_metadata: request_metadata@,
            request_packet: spec_envelope(
                dest_contract_address@,
                spec_ping_payload((old(state).request_id + 1) as u64, ping@),
            ),
        }),
{
    let request_id = state.request_id + 1;
    state.request_id = request_id;
    proof {
        lemma_ping_payload_len(request_id, ping@);
    }
    let payload = encode_ping_payload(request_id, ping);
    let request_packet = encode_envelope(dest_contract_address, &payload);
    OutboundRequest {
        version: 1,
        route_amount: 0,
        route_recipient: Vec::new(),
        dest_chain_id: clone_bytes(dest_chain_id),
        request_metadata: clone_bytes(request_metadata),
        request_packet,
    }
}

/// Dispatches an execute message.
pub fn execute(state: &mut PingPongState, msg: &ExecuteMsg) -> (r: OutboundRequest)
    requires
        old(state).request_id < u64::MAX,
        msg matches ExecuteMsg::IPing { ping, dest_contract_address, .. } ==> ping@.len()
            + dest_contract_address@.len() + 512 <= usize::MAX,
    ensures
        msg matches ExecuteMsg::IPing { ping, dest_contract_address, dest_chain_id, request_metadata } ==> {
            &&& final(state).request_id == old(state).request_id + 1
            &&& final(state).ping_from_source@ == old(state).ping_from_source@
            &&& final(state).pong_from_destination@ == old(state).pong_from_destination@
            &&& r@ == (OutboundRequestV {
                version: 1,
                route_amount: 0,
                route_recipient: Seq::empty(),
                dest_chain_id: dest_chain_id@,
                request_metadata: request_metadata@,
                request_packet: spec_envelope(
                    dest_contract_address@,
                    spec_ping_payload((old(state).request_id + 1) as u64, ping@),
                ),
            })
        },
{
    match msg {
        ExecuteMsg::IPing { ping, dest_contract_address, dest_chain_id, request_metadata } => {
            i_ping(state, ping, dest_contract_address, dest_chain_id, request_metadata)
        },
    }
}

/// Whether an inbound relayed payload is accepted by this contract: it must
/// decode as a ping, and not carry the sentinel failure string.
pub open spec fn spec_receive_ok(payload: Seq<u8>) -> bool {
    &&& ping_decodes(payload)
    &&& ping_msg(payload) != spec_fail_dest_req()
}

/// The error an inbound receive fails with.
pub open spec fn spec_receive_err(payload: Seq<u8>) -> Error
    recommends
        !spec_receive_ok(payload),
{
    if !ping_decodes(payload) {
        Error::Decode(ping_decode_err(payload))
    } else {
        Error::Validation(ValidationError::SimulatedFailure)
    }
}

/// Processes a relayed ping: decodes it, rejects the sentinel, and records
/// the message under `(source chain id, embedded request id)`.  The ack
/// payload echoed to the gateway is the payload itself.  On an error
/// nothing is written.
pub fn handle_sudo_request(
    state: &mut PingPongState,
    request_sender: &Vec<u8>,
    src_chain_id: &Vec<u8>,
    request_identifier: u64,
    payload: &Vec<u8>,
) -> (r: Result<Vec<u8>, Error>)
    ensures
        final(state).request_id == old(state).request_id,
        final(state).pong_from_destination@ == old(state).pong_from_destination@,
        match r {
            Ok(ack) => {
                &&& spec_receive_ok(payload@)
                &&& final(state).ping_from_source@ == old(state).ping_from_source@.insert(
                    (src_chain_id@, ping_id(payload@)),
                    ping_msg(payload@),
                )
                &&& ack@ == payload@
            },
            Err(e) => {
                &&& !spec_receive_ok(payload@)
                &&& e == spec_receive_err(payload@)
                &&& final(state).ping_from_source@ == old(state).ping_from_source@
            },
        },
{
    let (id, msg) = match decode_ping_payload(payload) {
        Ok(p) => p,
        Err(e) => {
            return Err(Error::Decode(e));
        },
    };
    let sentinel = fail_dest_req();
    if bytes_eq(&msg, &sentinel) {
        return Err(Error::Validation(ValidationError::SimulatedFailure));
    }
    state.ping_from_source.put(src_chain_id, id, &msg);
    Ok(clone_bytes(payload))
}

/// Processes the gateway's ack callback through the shared acknowledgement
/// handler: a false flag records the failure without touching the bytes, a
/// true flag decodes them and records the answer under the embedded id.
pub fn handle_sudo_ack(
    state: &mut PingPongState,
    request_identifier: u64,
    exec_flag: bool,
    exec_data: &Vec<u8>,
    _refund_amount: u128,
) -> (r: Result<(), Error>)
    ensures
        final(state).request_id == old(state).request_id,
        final(state).ping_from_source@ == old(state).ping_from_source@,
        !exec_flag ==> r is Ok && final(state).pong_from_destination@ == old(state).pong_from_destination@.insert(
            request_identifier as u128,
            AckRecordV { success: false, message: Seq::empty() },
        ),
        exec_flag ==> match r {
            Ok(_) => crate::handlers::spec_ack_ok(exec_data@) && final(state).pong_from_destination@
                == old(state).pong_from_destination@.insert(
                ping_id(exec_data@) as u128,
                AckRecordV { success: true, message: ping_msg(exec_data@) },
            ),
            Err(e) => !crate::handlers::spec_ack_ok(exec_data@) && e
                == crate::handlers::spec_ack_err(exec_data@) && final(state).pong_from_destination@
                == old(state).pong_from_destination@,
        },
{
    handle_ack(&mut state.pong_from_destination, request_identifier as u128, exec_flag, exec_data)
}

/// Dispatches a gateway callback.
pub fn sudo(state: &mut PingPongState, msg: &SudoMsg) -> (r: Result<SudoAnswer, Error>)
    ensures
        final(state).request_id == old(state).request_id,
        msg matches SudoMsg::HandleIReceive { src_chain_id, payload, .. } ==> {
            &&& final(state).pong_from_destination@ == old(state).pong_from_destination@
            &&& match r {
                Ok(a) => {
                    &&& spec_receive_ok(payload@)
                    &&& (a matches SudoAnswer::Receive { ack_payload } && ack_payload@ == payload@)
                    &&& final(state).ping_from_source@ == old(state).ping_from_source@.insert(
                        (src_chain_id@, ping_id(payload@)),
                        ping_msg(payload@),
                    )
                },
                Err(e) => {
                    &&& !spec_receive_ok(payload@)
                    &&& e == spec_receive_err(payload@)
                    &&& final(state).ping_from_source@ == old(state).ping_from_source@
                },
            }
        },
        msg matches SudoMsg::HandleIAck { request_identifier, exec_flag, exec_data, .. } ==> {
            &&& final(state).ping_from_source@ == old(state).ping_from_source@
            &&& (!*exec_flag ==> (r is Ok && final(state).pong_from_destination@ == old(state).pong_from_destination@.insert(
                *request_identifier as u128,
                AckRecordV { success: false, message: Seq::empty() },
            )))
            &&& (*exec_flag ==> match r {
                Ok(_) => crate::handlers::spec_ack_ok(exec_data@) && final(state).pong_from_destination@
                    == old(state).pong_from_destination@.insert(
                    ping_id(exec_data@) as u128,
                    AckRecordV { success: true, message: ping_msg(exec_data@) },
                ),
                Err(e) => !crate::handlers::spec_ack_ok(exec_data@) && e
                    == crate::handlers::spec_ack_err(exec_data@) && final(state).pong_from_destination@
                    == old(state).pong_from_destination@,
            })
        },
{
    match msg {
        SudoMsg::HandleIReceive { request_sender, src_chain_id, request_identifier, payload } => {
            match handle_sudo_request(
                state,
                request_sender,
                src_chain_id,
                *request_identifier,
                payload,
            ) {
                Ok(ack_payload) => Ok(SudoAnswer::Receive { ack_payload }),
                Err(e) => Err(e),
            }
        },
        SudoMsg::HandleIAck { request_identifier, exec_flag, exec_data, refund_amount } => {
            match handle_sudo_ack(state, *request_identifier, *exec_flag, exec_data, *refund_amount) {
                Ok(_) => Ok(
                    SudoAnswer::Ack {
                        request_identifier: *request_identifier,
                        exec_flag: *exec_flag,
                    },
                ),
                Err(e) => Err(e),
            }
        },
    }
}

/// Whether a sub-message reply id is the one this contract registers.
pub fn reply(id: u64) -> (r: bool)
    ensures
        r == (id == CREATE_I_SEND_REQUEST),
{
    id == CREATE_I_SEND_REQUEST
}

/// Migrates the version record: same contract name, strictly older stored
/// version.
pub fn migrate(state: &mut PingPongState, _msg: MigrateMsg) -> (r: Result<(), MigrateError>)
    ensures
        final(state).request_id == old(state).request_id,
        final(state).ping_from_source@ == old(state).ping_from_source@,
        final(state).pong_from_destination@ == old(state).pong_from_destination@,
        r is Ok ==> final(state).version.name@ == spec_contract_name()
            && final(state).version.version@ == spec_contract_version(),
        r is Err ==> final(state).version.name@ == old(state).version.name@
            && final(state).version.version@ == old(state).version.version@,
{
    let name = contract_name();
    let version = contract_version();
    check_migrate(&mut state.version, &name, &version)
}

/// The stored ping for `(chain_id, request_id)`, if any.
pub fn fetch_ping(state: &PingPongState, chain_id: &Vec<u8>, request_id: u64) -> (r: Option<
    Vec<u8>,
>)
    ensures
        match r {
            Some(m) => state.ping_from_source@.contains_key((chain_id@, request_id)) && m@
                == state.ping_from_source@[(chain_id@, request_id)],
            None => !state.ping_from_source@.contains_key((chain_id@, request_id)),
        },
{
    state.ping_from_source.get(chain_id, request_id)
}

/// The stored ack for `request_id`, if any.
pub fn fetch_pong(state: &PingPongState, request_id: u64) -> (r: Option<AckRecord>)
    ensures
        match r {
            Some(rec) => state.pong_from_destination@.contains_key(request_id as u128) && rec@
                == state.pong_from_destination@[request_id as u128],
            None => !state.pong_from_destination@.contains_key(request_id as u128),
        },
{
    state.pong_from_destination.get(request_id as u128)
}

/// The current value of the monotonic request counter.
pub fn fetch_request_id(state: &PingPongState) -> (r: u64)
    ensures
        r == state.request_id,
{
    state.request_id
}

/// What each query must answer with: the version record, the stored ping
/// or pong exactly as the store holds it, or the counter.
pub open spec fn query_answer_ok(state: PingPongState, msg: QueryMsg, r: QueryAnswer) -> bool {
    match msg {
        QueryMsg::GetContractVersion => r matches QueryAnswer::Version { name, version } && name@
            == state.version.name@ && version@ == state.version.version@,
        QueryMsg::FetchPing { chain_id, request_id } => r matches QueryAnswer::Ping(o) && (match o {
            Some(m) => state.ping_from_source@.contains_key((chain_id@, request_id)) && m@
                == state.ping_from_source@[(chain_id@, request_id)],
            None => !state.ping_from_source@.contains_key((chain_id@, request_id)),
        }),
        QueryMsg::FetchPong { request_id } => r matches QueryAnswer::Pong(o) && (match o {
            Some(rec) => state.pong_from_destination@.contains_key(request_id as u128) && rec@
                == state.pong_from_destination@[request_id as u128],
            None => !state.pong_from_destination@.contains_key(request_id as u128),
        }),
        QueryMsg::FetchRequestId => r matches QueryAnswer::RequestId(id) && id == state.request_id,
    }
}

/// The query entry point.
pub fn query(state: &PingPongState, msg: &QueryMsg) -> (r: QueryAnswer)
    ensures
        query_answer_ok(*state, *msg, r),
{
    handle_query(state, msg)
}

/// Dispatches a query.
pub fn handle_query(state: &PingPongState, msg: &QueryMsg) -> (r: QueryAnswer)
    ensures
        query_answer_ok(*state, *msg, r),
{
    match msg {
        QueryMsg::GetContractVersion => QueryAnswer::Version {
            name: clone_bytes(&state.version.name),
            version: clone_bytes(&state.version.version),
        },
        QueryMsg::FetchPing { chain_id, request_id } => QueryAnswer::Ping(
            fetch_ping(state, chain_id, *request_id),
        ),
        QueryMsg::FetchPong { request_id } => QueryAnswer::Pong(fetch_pong(state, *request_id)),
        QueryMsg::FetchRequestId => QueryAnswer::RequestId(fetch_request_id(state)),
    }
}

} // verus!
