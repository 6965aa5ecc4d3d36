//! The end-to-end test dApp in the account-model flavour: an outbound send
//! that can optionally route tokens through the route-token contract, and
//! the usual inbound and ack paths guarded by the gateway identity.

use vstd::prelude::*;
use crate::errors::{AuthError, Error, ValidationError};
use crate::handlers::{
    decode_ping_payload, encode_envelope, ping_decodes, ping_decode_err, ping_id, ping_msg,
    fail_dest_req, fail_ack_req, spec_envelope, spec_fail_dest_req, spec_fail_ack_req,
    OutboundRequest, OutboundRequestV,
};
use crate::near_ping_pong::HostAction;
use crate::store::{bytes_eq, clone_bytes, AckRecordV, AckStore, RecordStore};

verus! {

/// The arguments of a gateway send routed through the route-token contract.
#[derive(Debug)]
pub struct ISendParams {
    pub version: u128,
    pub route_recipient: Vec<u8>,
    pub dest_chain_id: Vec<u8>,
    pub request_metadata: Vec<u8>,
    pub request_packet: Vec<u8>,
}

/// The mathematical image of an [`ISendParams`].
pub ghost struct ISendParamsV {
    pub version: u128,
    pub route_recipient: Seq<u8>,
    pub dest_chain_id: Seq<u8>,
    pub request_metadata: Seq<u8>,
    pub request_packet: Seq<u8>,
}

impl View for ISendParams {
    type V = ISendParamsV;

    open spec fn view(&self) -> ISendParamsV {
        ISendParamsV {
            version: self.version,
            route_recipient: self.route_recipient@,
            dest_chain_id: self.dest_chain_id@,
            request_metadata: self.request_metadata@,
            request_packet: self.request_packet@,
        }
    }
}

/// How an outbound send leaves the contract: straight to the gateway, or
/// through the route token's burn-and-call entry when funds travel with it.
#[derive(Debug)]
pub enum SendAction {
    GatewayISend(OutboundRequest),
    BurnAndCallGateway { amount: u128, params: ISendParams },
}

/// The test dApp contract object.
pub struct TestDapp {
    pub gateway: Vec<u8>,
    pub route_token: Vec<u8>,
    pub owner: Vec<u8>,
    pub greeting_record: RecordStore,
    pub ack_record: AckStore,
}

/// The placeholder gateway account of an unconfigured contract, "gateway".
pub open spec fn spec_default_gateway() -> Seq<u8> {
    seq![103u8, 97u8, 116u8, 101u8, 119u8, 97u8, 121u8]
}

/// The placeholder route-token account of an unconfigured contract, "route".
pub open spec fn spec_default_route_token() -> Seq<u8> {
    seq![114u8, 111u8, 117u8, 116u8, 101u8]
}

impl Default for TestDapp {
    /// A contract with the placeholder gateway and route-token accounts, no
    /// owner, and empty records.
    fn default() -> (s: Self)
        ensures
            s.gateway@ == spec_default_gateway(),
            s.route_token@ == spec_default_route_token(),
            s.owner@ == Seq::<u8>::empty(),
            s.greeting_record@ == Map::<(Seq<u8>, u64), Seq<u8>>::empty(),
            s.ack_record@ == Map::<u128, AckRecordV>::empty(),
    {
        let gateway = vec![103u8, 97u8, 116u8, 101u8, 119u8, 97u8, 121u8];
        let route_token = vec![114u8, 111u8, 117u8, 116u8, 101u8];
        proof {
            assert(gateway@ =~= spec_default_gateway());
            assert(route_token@ =~= spec_default_route_token());
        }
        TestDapp {
            gateway,
            route_token,
            owner: Vec::new(),
            greeting_record: RecordStore::new(),
            ack_record: AckStore::new(),
        }
    }
}

/// Whether a send with this payload, routed amount and recipient goes
/// through.
pub open spec fn spec_near_send_ok(payload: Seq<u8>, amount: u128, route_recipient: Seq<u8>) -> bool {
    &&& ping_decodes(payload)
    &&& (amount > 0 ==> route_recipient.len() > 0)
    &&& ping_msg(payload).len() > 0
}

/// The error a send is rejected with: a decode failure first, then — when
/// funds travel — an empty route recipient, then the empty greeting.
pub open spec fn spec_near_send_err(payload: Seq<u8>, amount: u128, route_recipient: Seq<u8>) -> Error
    recommends
        !spec_near_send_ok(payload, amount, route_recipient),
{
    if !ping_decodes(payload) {
        Error::Decode(ping_decode_err(payload))
    } else {
        Error::Validation(ValidationError::EmptyPayloadField)
    }
}

impl TestDapp {
    /// Initializes the contract: the deployer becomes the owner.
    pub fn new(caller: &Vec<u8>, gateway: &Vec<u8>, route_token: &Vec<u8>) -> (s: Self)
        ensures
            s.gateway@ == gateway@,
            s.route_token@ == route_token@,
            s.owner@ == caller@,
            s.greeting_record@ == Map::<(Seq<u8>, u64), Seq<u8>>::empty(),
            s.ack_record@ == Map::<u128, AckRecordV>::empty(),
    {
        TestDapp {
            gateway: clone_bytes(gateway),
            route_token: clone_bytes(route_token),
            owner: clone_bytes(caller),
            greeting_record: RecordStore::new(),
            ack_record: AckStore::new(),
        }
    }

    pub fn get_gateway(&self) -> (r: Vec<u8>)
        ensures
            r@ == self.gateway@,
    {
        clone_bytes(&self.gateway)
    }

    pub fn get_owner(&self) -> (r: Vec<u8>)
        ensures
            r@ == self.owner@,
    {
        clone_bytes(&self.owner)
    }

    pub fn get_route_token(&self) -> (r: Vec<u8>)
        ensures
            r@ == self.route_token@,
    {
        clone_bytes(&self.route_token)
    }

    /// The recorded greeting for `(chain, id)`, or empty bytes.
    pub fn get_greeting_record(&self, src_chain_id: &Vec<u8>, request_id: u64) -> (r: Vec<u8>)
        ensures
            self.greeting_record@.contains_key((src_chain_id@, request_id)) ==> r@
                == self.greeting_record@[(src_chain_id@, request_id)],
            !self.greeting_record@.contains_key((src_chain_id@, request_id)) ==> r@ == Seq::<
                u8,
            >::empty(),
    {
        match self.greeting_record.get(src_chain_id, request_id) {
            Some(m) => m,
            None => Vec::new(),
        }
    }

    /// Whether the ack recorded for `id` reported success; false when no ack
    /// has arrived.
    pub fn get_ack_record(&self, request_id: u128) -> (r: bool)
        ensures
            self.ack_record@.contains_key(request_id) ==> r == self.ack_record@[request_id].success,
            !self.ack_record@.contains_key(request_id) ==> r == false,
    {
        match self.ack_record.get(request_id) {
            Some(rec) => rec.success,
            None => false,
        }
    }

    /// Registers a fee payer with the gateway; only the owner may.
    pub fn set_dapp_metadata(&self, caller: &Vec<u8>, fee_payer_address: &Vec<u8>) -> (r: Result<
        HostAction,
        Error,
    >)
        ensures
            match r {
                Ok(a) => caller@ == self.owner@ && (a matches HostAction::SetDappMetadata {
                    gateway,
                    fee_payer_address: f,
                } && gateway@ == self.gateway@ && f@ == fee_payer_address@),
                Err(e) => caller@ != self.owner@ && e == Error::Auth(AuthError::NotOwner),
            },
    {
        if !bytes_eq(caller, &self.owner) {
            return Err(Error::Auth(AuthError::NotOwner));
        }
        Ok(
            HostAction::SetDappMetadata {
                gateway: clone_bytes(&self.gateway),
                fee_payer_address: clone_bytes(fee_payer_address),
            },
        )
    }

    /// Builds an outbound send from an already-encoded payload.  The payload
    /// must decode as `(request_id, greeting)` and the greeting must be
    /// non-empty; when funds travel with the request the route recipient
    /// must be named, and the send leaves through the route token's
    /// burn-and-call entry instead of the gateway directly.
    pub fn send_i_request(
        &self,
        payload: &Vec<u8>,
        dest_contract_address: &Vec<u8>,
        dest_chain_id: &Vec<u8>,
        request_metadata: &Vec<u8>,
        amount: u128,
        route_recipient: &Vec<u8>,
    ) -> (r: Result<SendAction, Error>)
        requires
            dest_contract_address@.len() + payload@.len() + 192 <= usize::MAX,
        ensures
            match r {
                Ok(a) => {
                    &&& spec_near_send_ok(payload@, amount, route_recipient@)
                    &&& (amount == 0 ==> (a matches SendAction::GatewayISend(req) && req@
                        == (OutboundRequestV {
                        version: 1,
                        route_amount: 0,
                        route_recipient: Seq::empty(),
                        dest_chain_id: dest_chain_id@,
                        request_metadata: request_metadata@,
                        request_packet: spec_envelope(dest_contract_address@, payload@),
                    })))
                    &&& (amount > 0 ==> (a matches SendAction::BurnAndCallGateway {
                        amount: amt,
                        params,
                    } && amt == amount && params@ == (ISendParamsV {
                        version: 1,
                        route_recipient: route_recipient@,
                        dest_chain_id: dest_chain_id@,
                        request_metadata: request_metadata@,
                        request_packet: spec_envelope(dest_contract_address@, payload@),
                    })))
                },
                Err(e) => {
                    &&& !spec_near_send_ok(payload@, amount, route_recipient@)
                    &&& e == spec_near_send_err(payload@, amount, route_recipient@)
                },
            },
    {
        let (_id, greeting) = match decode_ping_payload(payload) {
            Ok(p) => p,
            Err(e) => {
                return Err(Error::Decode(e));
            },
        };
        let request_packet = encode_envelope(dest_contract_address, payload);
        if amount > 0 {
            if route_recipient.len() == 0 {
                return Err(Error::Validation(ValidationError::EmptyPayloadField));
            }
            if greeting.len() == 0 {
                return Err(Error::Validation(ValidationError::EmptyPayloadField));
            }
            return Ok(
                SendAction::BurnAndCallGateway {
                    amount,
                    params: ISendParams {
                        version: 1,
                        route_recipient: clone_bytes(route_recipient),
                        dest_chain_id: clone_bytes(dest_chain_id),
                        request_metadata: clone_bytes(request_metadata),
                        request_packet,
                    },
                },
            );
        }
        if greeting.len() == 0 {
            return Err(Error::Validation(ValidationError::EmptyPayloadField));
        }
        Ok(
            SendAction::GatewayISend(
                OutboundRequest {
                    version: 1,
                    route_amount: 0,
                    route_recipient: Vec::new(),
                    dest_chain_id: clone_bytes(dest_chain_id),
                    request_metadata: clone_bytes(request_metadata),
                    request_packet,
                },
            ),
        )
    }

    /// Processes a relayed message.  Only the gateway may call; the packet
    /// must decode; the sentinel failure string is refused; the greeting is
    /// recorded under `(source chain, embedded id)` and the packet echoed
    /// back as the ack payload.
    pub fn i_receive(
        &mut self,
        caller: &Vec<u8>,
        request_sender: &Vec<u8>,
        packet: &Vec<u8>,
        src_chain_id: &Vec<u8>,
    ) -> (r: Result<Vec<u8>, Error>)
        ensures
            final(self).gateway@ == old(self).gateway@,
            final(self).route_token@ == old(self).route_token@,
            final(self).owner@ == old(self).owner@,
            final(self).ack_record@ == old(self).ack_record@,
            match r {
                Ok(ack) => {
                    &&& caller@ == old(self).gateway@
                    &&& ping_decodes(packet@)
                    &&& ping_msg(packet@) != spec_fail_dest_req()
                    &&& final(self).greeting_record@ == old(self).greeting_record@.insert(
                        (src_chain_id@, ping_id(packet@)),
                        ping_msg(packet@),
                    )
                    &&& ack@ == packet@
                },
                Err(e) => {
                    &&& final(self).greeting_record@ == old(self).greeting_record@
                    &&& e == if caller@ != old(self).gateway@ {
                        Error::Auth(AuthError::NotGateway)
                    } else if !ping_decodes(packet@) {
                        Error::Decode(ping_decode_err(packet@))
                    } else {
                        Error::Validation(ValidationError::SimulatedFailure)
                    }
                    &&& !(caller@ == old(self).gateway@ && ping_decodes(packet@) && ping_msg(
                        packet@,
                    ) != spec_fail_dest_req())
                },
            },
    {
        if !bytes_eq(caller, &self.gateway) {
            return Err(Error::Auth(AuthError::NotGateway));
        }
        let (id, greeting) = match decode_ping_payload(packet) {
            Ok(p) => p,
            Err(e) => {
                return Err(Error::Decode(e));
            },
        };
        let sentinel = fail_dest_req();
        if bytes_eq(&greeting, &sentinel) {
            return Err(Error::Validation(ValidationError::SimulatedFailure));
        }
        self.greeting_record.put(src_chain_id, id, &greeting);
        Ok(clone_bytes(packet))
    }

    /// Processes the gateway's ack callback.  Only the gateway may call.  A
    /// false flag records the failure without decoding; a true flag decodes
    /// the result, refuses the sentinel, and records the success.  Either
    /// way the record is keyed by the supplied request identifier.
    pub fn i_ack(
        &mut self,
        caller: &Vec<u8>,
        request_identifier: u128,
        exec_flag: bool,
        exec_data: &Vec<u8>,
    ) -> (r: Result<(), Error>)
        ensures
            final(self).gateway@ == old(self).gateway@,
            final(self).route_token@ == old(self).route_token@,
            final(self).owner@ == old(self).owner@,
            final(self).greeting_record@ == old(self).greeting_record@,
            match r {
                Ok(_) => {
                    &&& caller@ == old(self).gateway@
                    &&& (exec_flag ==> ping_decodes(exec_data@) && ping_msg(exec_data@)
                        != spec_fail_ack_req() && final(self).ack_record@ == old(
                        self,
                    ).ack_record@.insert(
                        request_identifier,
                        AckRecordV { success: true, message: ping_msg(exec_data@) },
                    ))
                    &&& (!exec_flag ==> final(self).ack_record@ == old(self).ack_record@.insert(
                        request_identifier,
                        AckRecordV { success: false, message: Seq::empty() },
                    ))
                },
                Err(e) => {
                    &&& final(self).ack_record@ == old(self).ack_record@
                    &&& e == if caller@ != old(self).gateway@ {
                        Error::Auth(AuthError::NotGateway)
                    } else if !ping_decodes(exec_data@) {
                        Error::Decode(ping_decode_err(exec_data@))
                    } else {
                        Error::Validation(ValidationError::SimulatedFailure)
                    }
                    &&& !(caller@ == old(self).gateway@ && (exec_flag ==> ping_decodes(exec_data@)
                        && ping_msg(exec_data@) != spec_fail_ack_req()))
                },
            },
    {
        if !bytes_eq(caller, &self.gateway) {
            return Err(Error::Auth(AuthError::NotGateway));
        }
        if exec_flag {
            let (_id, msg) = match decode_ping_payload(exec_data) {
                Ok(p) => p,
                Err(e) => {
                    return Err(Error::Decode(e));
                },
            };
            let sentinel = fail_ack_req();
            if bytes_eq(&msg, &sentinel) {
                return Err(Error::Validation(ValidationError::SimulatedFailure));
            }
            self.ack_record.put(request_identifier, true, &msg);
            return Ok(());
        }
        let empty: Vec<u8> = Vec::new();
        self.ack_record.put(request_identifier, false, &empty);
        Ok(())
    }
}

} // verus!
