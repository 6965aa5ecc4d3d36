//! The ping-pong contract in its account-model flavour: the contract is one
//! long-lived object whose methods are the entry points, with an owner and
//! a configured gateway account.  Caller identities arrive as plain bytes;
//! a caller that is not the gateway (or, for admin methods, the owner) is
//! rejected before anything else happens.

use vstd::prelude::*;
use crate::codec::{spec_encode, toks_view, Tok, TokV};
use crate::errors::{AuthError, Error, ValidationError};
use crate::handlers::{
    decode_ping_payload, encode_envelope, ping_decodes, ping_decode_err, ping_id, ping_msg,
    spec_envelope, OutboundRequest, OutboundRequestV,
};
use crate::metadata::{encode_request_metadata, spec_request_metadata};
use crate::store::{bytes_eq, clone_bytes, AckRecord, AckRecordV, AckStore, RecordStore};

verus! {

/// The event-log standard name, "PingPong".
pub open spec fn spec_event_standard() -> Seq<u8> {
    seq![80u8, 105u8, 110u8, 103u8, 80u8, 111u8, 110u8, 103u8]
}

pub fn event_standard() -> (r: Vec<u8>)
    ensures
        r@ == spec_event_standard(),
{
    let r = vec![80u8, 105u8, 110u8, 103u8, 80u8, 111u8, 110u8, 103u8];
    proof {
        assert(r@ =~= spec_event_standard());
    }
    r
}

/// The event-log version string, "1.0.0".
pub open spec fn spec_event_version() -> Seq<u8> {
    seq![49u8, 46u8, 48u8, 46u8, 48u8]
}

pub fn event_version() -> (r: Vec<u8>)
    ensures
        r@ == spec_event_version(),
{
    let r = vec![49u8, 46u8, 48u8, 46u8, 48u8];
    proof {
        assert(r@ =~= spec_event_version());
    }
    r
}

/// A relayed ping was recorded.
pub struct PingFromSourceEvent {
    pub src_chain_id: Vec<u8>,
    pub request_id: u64,
    pub message: Vec<u8>,
}

/// A fresh outbound ping was sent.
pub struct NewPingEvent {
    pub request_id: u64,
}

/// The gateway reported the fate of an outbound request.
pub struct ExecutionStatusEvent {
    pub request_identifier: u128,
    pub is_success: bool,
}

/// The destination's answer was recorded.
pub struct AckFromDestinationEvent {
    pub request_id: u64,
    pub ack_message: Vec<u8>,
}

/// The kinds of events this contract logs.
pub enum EventLogVariant {
    PingFromSource(Vec<PingFromSourceEvent>),
    NewPing(Vec<NewPingEvent>),
    ExecutionStatus(Vec<ExecutionStatusEvent>),
    AckFromDestination(Vec<AckFromDestinationEvent>),
}

/// One event-log entry: the standard and version tags, and the event itself.
pub struct EventLog {
    pub standard: Vec<u8>,
    pub version: Vec<u8>,
    pub event: EventLogVariant,
}

impl EventLog {
    /// Stamps an event with the contract's standard name and version.
    pub fn new(event: EventLogVariant) -> (r: EventLog)
        ensures
            r.standard@ == spec_event_standard(),
            r.version@ == spec_event_version(),
            r.event == event,
    {
        EventLog { standard: event_standard(), version: event_version(), event }
    }
}

/// The three-field ping payload this flavour sends: request id, message,
/// and recipient.
pub open spec fn spec_ping3_payload(id: u64, msg: Seq<u8>, recipient: Seq<u8>) -> Seq<u8> {
    spec_encode(seq![TokV::Uint(id as u128), TokV::Str(msg), TokV::Str(recipient)])
}

/// The length of a three-field encoding.
proof fn lemma_encode_len_3(tv: Seq<TokV>)
    requires
        tv.len() == 3,
    ensures
        spec_encode(tv).len() == 96 + crate::codec::tail_of(tv[0]).len() + crate::codec::tail_of(
            tv[1],
        ).len() + crate::codec::tail_of(tv[2]).len(),
{
    crate::codec::lemma_heads_upto_len(tv, 3);
    assert(crate::codec::tails_upto(tv, 3) == crate::codec::tails_upto(tv, 2)
        + crate::codec::tail_of(tv[2]));
    assert(crate::codec::tails_upto(tv, 2) == crate::codec::tails_upto(tv, 1)
        + crate::codec::tail_of(tv[1]));
    assert(crate::codec::tails_upto(tv, 1) == crate::codec::tails_upto(tv, 0)
        + crate::codec::tail_of(tv[0]));
    assert(crate::codec::tails_upto(tv, 0) == Seq::<u8>::empty());
}

/// Encodes `(request_id, message, recipient)`.
pub fn encode_ping3_payload(id: u64, msg: &Vec<u8>, recipient: &Vec<u8>) -> (r: Vec<u8>)
    requires
        msg@.len() + recipient@.len() + 256 <= usize::MAX,
    ensures
        r@ == spec_ping3_payload(id, msg@, recipient@),
{
    let ghost tv = seq![TokV::Uint(id as u128), TokV::Str(msg@), TokV::Str(recipient@)];
    let mut toks: Vec<Tok> = Vec::new();
    toks.push(Tok::Uint(id as u128));
    toks.push(Tok::Str(clone_bytes(msg)));
    toks.push(Tok::Str(clone_bytes(recipient)));
    proof {
        assert(toks_view(toks@) =~= tv);
        lemma_encode_len_3(tv);
        assert(crate::codec::tail_of(tv[0]).len() == 0);
        assert(crate::codec::tail_of(tv[1]).len() == 32 + msg@.len() + crate::codec::pad_len(
            msg@.len(),
        ));
        assert(crate::codec::tail_of(tv[2]).len() == 32 + recipient@.len() + crate::codec::pad_len(
            recipient@.len(),
        ));
        assert(crate::codec::pad_len(msg@.len()) < 32);
        assert(crate::codec::pad_len(recipient@.len()) < 32);
    }
    crate::codec::encode(&toks)
}

/// A call the contract asks its host to make: registering the fee payer
/// with the gateway, or transferring withdrawn fees.
#[derive(Debug)]
pub enum HostAction {
    SetDappMetadata { gateway: Vec<u8>, fee_payer_address: Vec<u8> },
    Transfer { recipient: Vec<u8>, amount: u128 },
}

/// The ping-pong contract object.
pub struct PingPong {
    pub owner: Vec<u8>,
    pub gateway: Vec<u8>,
    pub current_request_id: u64,
    pub ping_from_source: RecordStore,
    pub ack_from_destination: AckStore,
}

impl Default for PingPong {
    /// A blank contract: no owner or gateway configured yet, counter at
    /// zero, no records.
    fn default() -> (s: Self)
        ensures
            s.owner@ == Seq::<u8>::empty(),
            s.gateway@ == Seq::<u8>::empty(),
            s.current_request_id == 0,
            s.ping_from_source@ == Map::<(Seq<u8>, u64), Seq<u8>>::empty(),
            s.ack_from_destination@ == Map::<u128, AckRecordV>::empty(),
    {
        PingPong {
            owner: Vec::new(),
            gateway: Vec::new(),
            current_request_id: 0,
            ping_from_source: RecordStore::new(),
            ack_from_destination: AckStore::new(),
        }
    }
}

impl PingPong {
    /// Initializes the contract: the deployer becomes the owner.
    pub fn new(caller: &Vec<u8>, gateway: &Vec<u8>) -> (s: Self)
        ensures
            s.owner@ == caller@,
            s.gateway@ == gateway@,
            s.current_request_id == 0,
            s.ping_from_source@ == Map::<(Seq<u8>, u64), Seq<u8>>::empty(),
            s.ack_from_destination@ == Map::<u128, AckRecordV>::empty(),
    {
        PingPong {
            owner: clone_bytes(caller),
            gateway: clone_bytes(gateway),
            current_request_id: 0,
            ping_from_source: RecordStore::new(),
            ack_from_destination: AckStore::new(),
        }
    }

    /// Points the contract at another gateway account; only the owner may.
    pub fn set_gateway(&mut self, caller: &Vec<u8>, gateway: &Vec<u8>) -> (r: Result<(), Error>)
        ensures
            final(self).owner@ == old(self).owner@,
            match r {
                Ok(_) => caller@ == old(self).owner@ && final(self).gateway@ == gateway@,
                Err(e) => caller@ != old(self).owner@ && e == Error::Auth(AuthError::NotOwner)
                    && final(self).gateway@ == old(self).gateway@,
            },
            final(self).current_request_id == old(self).current_request_id,
            final(self).ping_from_source@ == old(self).ping_from_source@,
            final(self).ack_from_destination@ == old(self).ack_from_destination@,
    {
        if !bytes_eq(caller, &self.owner) {
            return Err(Error::Auth(AuthError::NotOwner));
        }
        self.gateway = clone_bytes(gateway);
        Ok(())
    }

    pub fn get_current_request_id(&self) -> (r: u64)
        ensures
            r == self.current_request_id,
    {
        self.current_request_id
    }

    /// The recorded ping for `(chain, id)`, or empty bytes when none exists.
    pub fn get_ping_from_source(&self, src_chain_id: &Vec<u8>, request_id: u64) -> (r: Vec<u8>)
        ensures
            self.ping_from_source@.contains_key((src_chain_id@, request_id)) ==> r@
                == self.ping_from_source@[(src_chain_id@, request_id)],
            !self.ping_from_source@.contains_key((src_chain_id@, request_id)) ==> r@ == Seq::<
                u8,
            >::empty(),
    {
        match self.ping_from_source.get(src_chain_id, request_id) {
            Some(m) => m,
            None => Vec::new(),
        }
    }

    /// The recorded ack message for `id`, or empty bytes when none exists.
    pub fn get_ack_from_destination(&self, request_id: u64) -> (r: Vec<u8>)
        ensures
            self.ack_from_destination@.contains_key(request_id as u128) ==> r@
                == self.ack_from_destination@[request_id as u128].message,
            !self.ack_from_destination@.contains_key(request_id as u128) ==> r@ == Seq::<
                u8,
            >::empty(),
    {
        match self.ack_from_destination.get(request_id as u128) {
            Some(rec) => rec.message,
            None => Vec::new(),
        }
    }

    pub fn get_gateway(&self) -> (r: Vec<u8>)
        ensures
            r@ == self.gateway@,
    {
        clone_bytes(&self.gateway)
    }

    pub fn get_owner(&self) -> (r: Vec<u8>)
        ensures
            r@ == self.owner@,
    {
        clone_bytes(&self.owner)
    }

    /// Registers a fee payer with the gateway; only the owner may.
    pub fn set_dapp_metadata(&mut self, caller: &Vec<u8>, fee_payer_address: &Vec<u8>) -> (r:
        Result<HostAction, Error>)
        ensures
            final(self).owner@ == old(self).owner@,
            final(self).gateway@ == old(self).gateway@,
            final(self).current_request_id == old(self).current_request_id,
            final(self).ping_from_source@ == old(self).ping_from_source@,
            final(self).ack_from_destination@ == old(self).ack_from_destination@,
            match r {
                Ok(a) => caller@ == old(self).owner@ && (a matches HostAction::SetDappMetadata {
                    gateway,
                    fee_payer_address: f,
                } && gateway@ == old(self).gateway@ && f@ == fee_payer_address@),
                Err(e) => caller@ != old(self).owner@ && e == Error::Auth(AuthError::NotOwner),
            },
    {
        if !bytes_eq(caller, &self.owner) {
            return Err(Error::Auth(AuthError::NotOwner));
        }
        Ok(
            HostAction::SetDappMetadata {
                gateway: clone_bytes(&self.gateway),
                fee_payer_address: clone_bytes(fee_payer_address),
            },
        )
    }

    /// Packs request metadata into the gateway's fixed byte layout.
    pub fn get_request_metadata(
        dest_gas_limit: u64,
        dest_gas_price: u64,
        ack_gas_limit: u64,
        ack_gas_price: u64,
        relayer_fees: u128,
        ack_type: u8,
        is_read_call: bool,
        asm_address: &Vec<u8>,
    ) -> (r: Vec<u8>)
        requires
            asm_address@.len() + 50 <= usize::MAX,
        ensures
            r@ == spec_request_metadata(
                dest_gas_limit,
                dest_gas_price,
                ack_gas_limit,
                ack_gas_price,
                relayer_fees,
                ack_type,
                is_read_call,
                asm_address@,
            ),
    {
        encode_request_metadata(
            dest_gas_limit,
            dest_gas_price,
            ack_gas_limit,
            ack_gas_price,
            relayer_fees,
            ack_type,
            is_read_call,
            asm_address,
        )
    }

    /// Sends a ping: bumps the counter, encodes `(id, message, recipient)`,
    /// wraps it in the envelope, and asks the gateway to relay it.
    pub fn i_ping(
        &mut self,
        dest_chain_id: &Vec<u8>,
        destination_contract_address: &Vec<u8>,
        message: &Vec<u8>,
        request_metadata: &Vec<u8>,
        recipient: &Vec<u8>,
    ) -> (r: OutboundRequest)
        requires
            old(self).current_request_id < u64::MAX,
            message@.len() + recipient@.len() + destination_contract_address@.len() + 1024
                <= usize::MAX,
        ensures
            final(self).current_request_id == old(self).current_request_id + 1,
            final(self).owner@ == old(self).owner@,
            final(self).gateway@ == old(self).gateway@,
            final(self).ping_from_source@ == old(self).ping_from_source@,
            final(self).ack_from_destination@ == old(self).ack_from_destination@,
            r@ == (OutboundRequestV {
                version: 1,
                route_amount: 0,
                route_recipient: Seq::empty(),
                dest_chain_id: dest_chain_id@,
                request_metadata: request_metadata@,
                request_packet: spec_envelope(
                    destination_contract_address@,
                    spec_ping3_payload(
                        (old(self).current_request_id + 1) as u64,
                        message@,
                        recipient@,
                    ),
                ),
            }),
    {
        let request_id = self.current_request_id + 1;
        self.current_request_id = request_id;
        proof {
            let tv = seq![
                TokV::Uint(request_id as u128),
                TokV::Str(message@),
                TokV::Str(recipient@),
            ];
            lemma_encode_len_3(tv);
            assert(crate::codec::tail_of(tv[0]).len() == 0);
            assert(crate::codec::tail_of(tv[1]).len() == 32 + message@.len()
                + crate::codec::pad_len(message@.len()));
            assert(crate::codec::tail_of(tv[2]).len() == 32 + recipient@.len()
                + crate::codec::pad_len(recipient@.len()));
            assert(crate::codec::pad_len(message@.len()) < 32);
            assert(crate::codec::pad_len(recipient@.len()) < 32);
        }
        let packet = encode_ping3_payload(request_id, message, recipient);
        let request_packet = encode_envelope(destination_contract_address, &packet);
        OutboundRequest {
            version: 1,
            route_amount: 0,
            route_recipient: Vec::new(),
            dest_chain_id: clone_bytes(dest_chain_id),
            request_metadata: clone_bytes(request_metadata),
            request_packet,
        }
    }

    /// Processes a relayed ping.  Only the gateway may call; the packet must
    /// decode as `(request_id, message)`; an empty message is refused; the
    /// record is stored under `(source chain, embedded id)` and the packet
    /// echoed back as the ack payload.
    pub fn i_receive(
        &mut self,
        caller: &Vec<u8>,
        request_sender: &Vec<u8>,
        packet: &Vec<u8>,
        src_chain_id: &Vec<u8>,
    ) -> (r: Result<Vec<u8>, Error>)
        ensures
            final(self).owner@ == old(self).owner@,
            final(self).gateway@ == old(self).gateway@,
            final(self).current_request_id == old(self).current_request_id,
            final(self).ack_from_destination@ == old(self).ack_from_destination@,
            match r {
                Ok(ack) => {
                    &&& caller@ == old(self).gateway@
                    &&& ping_decodes(packet@)
                    &&& ping_msg(packet@).len() > 0
                    &&& final(self).ping_from_source@ == old(self).ping_from_source@.insert(
                        (src_chain_id@, ping_id(packet@)),
                        ping_msg(packet@),
                    )
                    &&& ack@ == packet@
                },
                Err(e) => {
                    &&& final(self).ping_from_source@ == old(self).ping_from_source@
                    &&& e == if caller@ != old(self).gateway@ {
                        Error::Auth(AuthError::NotGateway)
                    } else if !ping_decodes(packet@) {
                        Error::Decode(ping_decode_err(packet@))
                    } else {
                        Error::Validation(ValidationError::EmptyPayloadField)
                    }
                    &&& !(caller@ == old(self).gateway@ && ping_decodes(packet@) && ping_msg(
                        packet@,
                    ).len() > 0)
                },
            },
    {
        if !bytes_eq(caller, &self.gateway) {
            return Err(Error::Auth(AuthError::NotGateway));
        }
        let (id, msg) = match decode_ping_payload(packet) {
            Ok(p) => p,
            Err(e) => {
                return Err(Error::Decode(e));
            },
        };
        if msg.len() == 0 {
            return Err(Error::Validation(ValidationError::EmptyPayloadField));
        }
        self.ping_from_source.put(src_chain_id, id, &msg);
        Ok(clone_bytes(packet))
    }

    /// Processes the gateway's ack callback.  Only the gateway may call.  A
    /// false flag skips decoding — the bytes may be garbage — and records
    /// the failure under the supplied identifier; a true flag decodes the
    /// execution data and records the answer under the embedded id.
    pub fn i_ack(
        &mut self,
        caller: &Vec<u8>,
        request_identifier: u128,
        exec_flag: bool,
        exec_data: &Vec<u8>,
    ) -> (r: Result<(), Error>)
        ensures
            final(self).owner@ == old(self).owner@,
            final(self).gateway@ == old(self).gateway@,
            final(self).current_request_id == old(self).current_request_id,
            final(self).ping_from_source@ == old(self).ping_from_source@,
            match r {
                Ok(_) => {
                    &&& caller@ == old(self).gateway@
                    &&& (!exec_flag ==> final(self).ack_from_destination@ == old(self).ack_from_destination@.insert(
                        request_identifier,
                        AckRecordV { success: false, message: Seq::empty() },
                    ))
                    &&& (exec_flag ==> ping_decodes(exec_data@) && final(self).ack_from_destination@ == old(self).ack_from_destination@.insert(
                        ping_id(exec_data@) as u128,
                        AckRecordV { success: true, message: ping_msg(exec_data@) },
                    ))
                },
                Err(e) => {
                    &&& final(self).ack_from_destination@ == old(self).ack_from_destination@
                    &&& e == if caller@ != old(self).gateway@ {
                        Error::Auth(AuthError::NotGateway)
                    } else {
                        Error::Decode(ping_decode_err(exec_data@))
                    }
                    &&& !(caller@ == old(self).gateway@ && (exec_flag ==> ping_decodes(
                        exec_data@,
                    )))
                },
            },
    {
        if !bytes_eq(caller, &self.gateway) {
            return Err(Error::Auth(AuthError::NotGateway));
        }
        if !exec_flag {
            let empty: Vec<u8> = Vec::new();
            self.ack_from_destination.put(request_identifier, false, &empty);
            return Ok(());
        }
        let (id, msg) = match decode_ping_payload(exec_data) {
            Ok(p) => p,
            Err(e) => {
                return Err(Error::Decode(e));
            },
        };
        self.ack_from_destination.put(id as u128, true, &msg);
        Ok(())
    }

    /// Withdraws the fee balance above the storage cost; only the owner may.
    pub fn withdraw_fees(&self, caller: &Vec<u8>, recipient: &Vec<u8>, balance: u128, storage_cost: u128)
        -> (r: Result<HostAction, Error>)
        requires
            storage_cost <= balance,
        ensures
            match r {
                Ok(a) => caller@ == self.owner@ && (a matches HostAction::Transfer {
                    recipient: rec,
                    amount,
                } && rec@ == recipient@ && amount == balance - storage_cost),
                Err(e) => caller@ != self.owner@ && e == Error::Auth(AuthError::NotOwner),
            },
    {
        if !bytes_eq(caller, &self.owner) {
            return Err(Error::Auth(AuthError::NotOwner));
        }
        Ok(HostAction::Transfer { recipient: clone_bytes(recipient), amount: balance - storage_cost })
    }

    /// The cost of the storage the contract occupies.
    pub fn total_storage_cost(storage_usage: u64, storage_byte_cost: u128) -> (r: u128)
        requires
            storage_usage as u128 * storage_byte_cost <= u128::MAX,
        ensures
            r == storage_usage as u128 * storage_byte_cost,
    {
        (storage_usage as u128) * storage_byte_cost
    }
}

} // verus!
