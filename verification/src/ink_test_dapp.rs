//! The test dApp in its contract-pallet flavour: byte-string account ids, a
//! lightweight error enum, and an outbound send that can first pull route
//! tokens from the caller and approve the gateway to spend them.

use vstd::prelude::*;
use crate::errors::{AuthError, Error, TestError, ValidationError};
use crate::handlers::{
    decode_ping_payload, encode_envelope, fail_ack_req, fail_dest_req, ping_decodes,
    ping_decode_err, ping_id, ping_msg, spec_envelope, spec_fail_ack_req, spec_fail_dest_req,
    OutboundRequest, OutboundRequestV,
};
use crate::store::{bytes_eq, clone_bytes, AckRecordV, AckStore, RecordStore};

verus! {

/// The token moves an outbound send asks the host to make before calling
/// the gateway: pull the routed amount from the caller, then let the
/// gateway spend it.
#[derive(Debug)]
pub struct TokenMoves {
    pub transfer_from: Option<(Vec<u8>, u128)>,
    pub approve: Option<(Vec<u8>, u128)>,
}

/// The test dApp contract object.
pub struct TestDapp {
    pub route_token: Vec<u8>,
    pub gateway_contract: Vec<u8>,
    pub greeting_record: RecordStore,
    pub ack_record_record: AckStore,
}

impl TestDapp {
    /// Initializes the contract and registers the fee payer with the
    /// gateway; the registration call is returned for the host to make.
    pub fn new(gateway_contract: &Vec<u8>, fee_payer_address: &Vec<u8>, route_token: &Vec<u8>) -> (r:
        (Self, Vec<u8>))
        ensures
            r.0.route_token@ == route_token@,
            r.0.gateway_contract@ == gateway_contract@,
            r.0.greeting_record@ == Map::<(Seq<u8>, u64), Seq<u8>>::empty(),
            r.0.ack_record_record@ == Map::<u128, AckRecordV>::empty(),
            r.1@ == fee_payer_address@,
    {
        let this = TestDapp {
            route_token: clone_bytes(route_token),
            gateway_contract: clone_bytes(gateway_contract),
            greeting_record: RecordStore::new(),
            ack_record_record: AckStore::new(),
        };
        (this, clone_bytes(fee_payer_address))
    }

    /// The fee-payer registration call; the host forwards it to the gateway.
    pub fn set_dapp_metadata(&self, fee_payer_address: &Vec<u8>) -> (r: (Vec<u8>, Vec<u8>))
        ensures
            r.0@ == self.gateway_contract@,
            r.1@ == fee_payer_address@,
    {
        (clone_bytes(&self.gateway_contract), clone_bytes(fee_payer_address))
    }

    /// Builds an outbound send.  The payload must decode as
    /// `(request_id, greeting)` — else `TestError::DecodeError` — and the
    /// greeting must be non-empty — else `TestError::EmptyGreeting`.  When a
    /// route amount travels, the returned token moves pull it from the
    /// caller and approve the gateway before the gateway call.
    pub fn i_send(
        &self,
        caller: &Vec<u8>,
        route_amount: u128,
        route_recipient: &Vec<u8>,
        dest_chain_id: &Vec<u8>,
        request_metadata: &Vec<u8>,
        payload: &Vec<u8>,
        dst_contract: &Vec<u8>,
    ) -> (r: Result<(TokenMoves, OutboundRequest), TestError>)
        requires
            dst_contract@.len() + payload@.len() + 192 <= usize::MAX,
        ensures
            match r {
                Ok((moves, req)) => {
                    &&& ping_decodes(payload@)
                    &&& ping_msg(payload@).len() > 0
                    &&& req@ == (OutboundRequestV {
                        version: 1,
                        route_amount,
                        route_recipient: route_recipient@,
                        dest_chain_id: dest_chain_id@,
                        request_metadata: request_metadata@,
                        request_packet: spec_envelope(dst_contract@, payload@),
                    })
                    &&& (route_amount > 0 ==> (moves.transfer_from matches Some((from, amt))
                        && from@ == caller@ && amt == route_amount) && (
                    moves.approve matches Some((to, amt2)) && to@ == self.gateway_contract@ && amt2
                        == route_amount))
                    &&& (route_amount == 0 ==> moves.transfer_from is None && moves.approve is None)
                },
                Err(e) => {
                    &&& !(ping_decodes(payload@) && ping_msg(payload@).len() > 0)
                    &&& e == if !ping_decodes(payload@) {
                        TestError::DecodeError
                    } else {
                        TestError::EmptyGreeting
                    }
                },
            },
    {
        let (_id, greeting) = match decode_ping_payload(payload) {
            Ok(p) => p,
            Err(_) => {
                return Err(TestError::DecodeError);
            },
        };
        if greeting.len() == 0 {
            return Err(TestError::EmptyGreeting);
        }
        let request_packet = encode_envelope(dst_contract, payload);
        let moves = if route_amount > 0 {
            TokenMoves {
                transfer_from: Some((clone_bytes(caller), route_amount)),
                approve: Some((clone_bytes(&self.gateway_contract), route_amount)),
            }
        } else {
            TokenMoves { transfer_from: None, approve: None }
        };
        Ok(
            (
                moves,
                OutboundRequest {
                    version: 1,
                    route_amount,
                    route_recipient: clone_bytes(route_recipient),
                    dest_chain_id: clone_bytes(dest_chain_id),
                    request_metadata: clone_bytes(request_metadata),
                    request_packet,
                },
            ),
        )
    }

    /// Processes a relayed message.  Only the gateway may call; the packet
    /// must decode; the sentinel is refused; the greeting is recorded under
    /// `(source chain, embedded id)` and the packet echoed back.
    pub fn i_receive(
        &mut self,
        caller: &Vec<u8>,
        request_sender: &Vec<u8>,
        packet: &Vec<u8>,
        src_chain_id: &Vec<u8>,
    ) -> (r: Result<Vec<u8>, Error>)
        ensures
            final(self).route_token@ == old(self).route_token@,
            final(self).gateway_contract@ == old(self).gateway_contract@,
            final(self).ack_record_record@ == old(self).ack_record_record@,
            match r {
                Ok(ack) => {
                    &&& caller@ == old(self).gateway_contract@
                    &&& ping_decodes(packet@)
                    &&& ping_msg(packet@) != spec_fail_dest_req()
                    &&& final(self).greeting_record@ == old(self).greeting_record@.insert(
                        (src_chain_id@, ping_id(packet@)),
                        ping_msg(packet@),
                    )
                    &&& ack@ == packet@
                },
                Err(e) => {
                    &&& final(self).greeting_record@ == old(self).greeting_record@
                    &&& e == if caller@ != old(self).gateway_contract@ {
                        Error::Auth(AuthError::NotGateway)
                    } else if !ping_decodes(packet@) {
                        Error::Decode(ping_decode_err(packet@))
                    } else {
                        Error::Validation(ValidationError::SimulatedFailure)
                    }
                    &&& !(caller@ == old(self).gateway_contract@ && ping_decodes(packet@)
                        && ping_msg(packet@) != spec_fail_dest_req())
                },
            },
    {
        if !bytes_eq(caller, &self.gateway_contract) {
            return Err(Error::Auth(AuthError::NotGateway));
        }
        let (id, greeting) = match decode_ping_payload(packet) {
            Ok(p) => p,
            Err(e) => {
                return Err(Error::Decode(e));
            },
        };
        let sentinel = fail_dest_req();
        if bytes_eq(&greeting, &sentinel) {
            return Err(Error::Validation(ValidationError::SimulatedFailure));
        }
        self.greeting_record.put(src_chain_id, id, &greeting);
        Ok(clone_bytes(packet))
    }

    /// Processes the gateway's ack callback.  Only the gateway may call; a
    /// true flag decodes the result and refuses the sentinel; the outcome is
    /// recorded under the supplied identifier.
    pub fn i_ack(
        &mut self,
        caller: &Vec<u8>,
        request_identifier: u128,
        exec_flag: bool,
        exec_data: &Vec<u8>,
    ) -> (r: Result<Vec<u8>, Error>)
        ensures
            final(self).route_token@ == old(self).route_token@,
            final(self).gateway_contract@ == old(self).gateway_contract@,
            final(self).greeting_record@ == old(self).greeting_record@,
            match r {
                Ok(out) => {
                    &&& caller@ == old(self).gateway_contract@
                    &&& out@ == Seq::<u8>::empty()
                    &&& (exec_flag ==> ping_decodes(exec_data@) && ping_msg(exec_data@)
                        != spec_fail_ack_req() && final(self).ack_record_record@ == old(
                        self,
                    ).ack_record_record@.insert(
                        request_identifier,
                        AckRecordV { success: true, message: ping_msg(exec_data@) },
                    ))
                    &&& (!exec_flag ==> final(self).ack_record_record@ == old(
                        self,
                    ).ack_record_record@.insert(
                        request_identifier,
                        AckRecordV { success: false, message: Seq::empty() },
                    ))
                },
                Err(e) => {
                    &&& final(self).ack_record_record@ == old(self).ack_record_record@
                    &&& e == if caller@ != old(self).gateway_contract@ {
                        Error::Auth(AuthError::NotGateway)
                    } else if !ping_decodes(exec_data@) {
                        Error::Decode(ping_decode_err(exec_data@))
                    } else {
                        Error::Validation(ValidationError::SimulatedFailure)
                    }
                    &&& !(caller@ == old(self).gateway_contract@ && (exec_flag ==> ping_decodes(
                        exec_data@,
                    ) && ping_msg(exec_data@) != spec_fail_ack_req()))
                },
            },
    {
        if !bytes_eq(caller, &self.gateway_contract) {
            return Err(Error::Auth(AuthError::NotGateway));
        }
        if exec_flag {
            let (_id, msg) = match decode_ping_payload(exec_data) {
                Ok(p) => p,
                Err(e) => {
                    return Err(Error::Decode(e));
                },
            };
            let sentinel = fail_ack_req();
            if bytes_eq(&msg, &sentinel) {
                return Err(Error::Validation(ValidationError::SimulatedFailure));
            }
            self.ack_record_record.put(request_identifier, true, &msg);
            return Ok(Vec::new());
        }
        let empty: Vec<u8> = Vec::new();
        self.ack_record_record.put(request_identifier, false, &empty);
        Ok(Vec::new())
    }

    /// The recorded greeting for `(chain, id)`, or `TestError::NotFound`.
    pub fn get_greeting_record(&self, src_chain_id: &Vec<u8>, nonce: u64) -> (r: Result<
        Vec<u8>,
        TestError,
    >)
        ensures
            match r {
                Ok(m) => self.greeting_record@.contains_key((src_chain_id@, nonce)) && m@
                    == self.greeting_record@[(src_chain_id@, nonce)],
                Err(e) => !self.greeting_record@.contains_key((src_chain_id@, nonce)) && e
                    == TestError::NotFound,
            },
    {
        match self.greeting_record.get(src_chain_id, nonce) {
            Some(m) => Ok(m),
            None => Err(TestError::NotFound),
        }
    }

    /// Whether the ack recorded for `id` reported success, or
    /// `TestError::NotFound`.
    pub fn get_ack_record(&self, request_identifier: u128) -> (r: Result<bool, TestError>)
        ensures
            match r {
                Ok(b) => self.ack_record_record@.contains_key(request_identifier) && b
                    == self.ack_record_record@[request_identifier].success,
                Err(e) => !self.ack_record_record@.contains_key(request_identifier) && e
                    == TestError::NotFound,
            },
    {
        match self.ack_record_record.get(request_identifier) {
            Some(rec) => Ok(rec.success),
            None => Err(TestError::NotFound),
        }
    }

    pub fn get_route_token(&self) -> (r: Vec<u8>)
        ensures
            r@ == self.route_token@,
    {
        clone_bytes(&self.route_token)
    }

    pub fn get_contract_address(&self) -> (r: Vec<u8>)
        ensures
            r@ == self.gateway_contract@,
    {
        clone_bytes(&self.gateway_contract)
    }
}

} // verus!
