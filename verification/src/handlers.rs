//! The shared handler state machine: outbound request builder, inbound
//! receive handler, acknowledgement handler.
//!
//! Every chain flavour of the sample dApps is a thin shell over these three
//! transitions.  Each takes plain values (the host runtime's types are
//! converted at the edge), touches the explicit stores, and returns either
//! the action to hand to the gateway or the error that aborts the
//! transaction.  On an error nothing is written: the contracts' all-or-
//! nothing transaction semantics are literal here.

use vstd::prelude::*;
use crate::codec::{
    decode, encode, spec_decode, spec_encode, toks_view, Tok, TokV, Ty, DecodeError,
};
use crate::errors::{AuthError, Error, ValidationError};
use crate::store::{clone_bytes, bytes_eq, AddrMap, AckStore, ChainTypeMap, RecordStore};
use crate::store::AckRecordV;

verus! {

// ---------------------------------------------------------------------------
// The ping message family: (request_id: u64, message: string)
// ---------------------------------------------------------------------------

/// The wire schema of the ping family.
pub open spec fn ping_schema() -> Seq<Ty> {
    seq![Ty::U64, Ty::Str]
}

/// The schema as an executable value.
pub fn ping_schema_vec() -> (r: Vec<Ty>)
    ensures
        r@ == ping_schema(),
{
    let mut r: Vec<Ty> = Vec::new();
    r.push(Ty::U64);
    r.push(Ty::Str);
    proof {
        assert(r@ =~= ping_schema());
    }
    r
}

/// The encoding of one ping message.
pub open spec fn spec_ping_payload(id: u64, msg: Seq<u8>) -> Seq<u8> {
    spec_encode(seq![TokV::Uint(id as u128), TokV::Str(msg)])
}

/// Whether a payload decodes as a ping message.
pub open spec fn ping_decodes(payload: Seq<u8>) -> bool {
    spec_decode(ping_schema(), payload) is Ok
}

/// The request id embedded in a ping payload.
pub open spec fn ping_id(payload: Seq<u8>) -> u64
    recommends
        ping_decodes(payload),
{
    ((spec_decode(ping_schema(), payload)->Ok_0)[0]->Uint_0) as u64
}

/// The message string embedded in a ping payload.
pub open spec fn ping_msg(payload: Seq<u8>) -> Seq<u8>
    recommends
        ping_decodes(payload),
{
    (spec_decode(ping_schema(), payload)->Ok_0)[1]->Str_0
}

/// The error a ping payload fails to decode with.
pub open spec fn ping_decode_err(payload: Seq<u8>) -> DecodeError
    recommends
        !ping_decodes(payload),
{
    spec_decode(ping_schema(), payload)->Err_0
}

/// The length of a two-field encoding: two head words plus the two tails.
proof fn lemma_encode_len_2(tv: Seq<TokV>)
    requires
        tv.len() == 2,
    ensures
        spec_encode(tv).len() == 64 + crate::codec::tail_of(tv[0]).len() + crate::codec::tail_of(
            tv[1],
        ).len(),
{
    crate::codec::lemma_heads_upto_len(tv, 2);
    assert(crate::codec::tails_upto(tv, 2) == crate::codec::tails_upto(tv, 1)
        + crate::codec::tail_of(tv[1]));
    assert(crate::codec::tails_upto(tv, 1) == crate::codec::tails_upto(tv, 0)
        + crate::codec::tail_of(tv[0]));
    assert(crate::codec::tails_upto(tv, 0) == Seq::<u8>::empty());
}

/// Encodes `(request_id, message)` as the ping family does.
pub fn encode_ping_payload(id: u64, msg: &Vec<u8>) -> (r: Vec<u8>)
    requires
        msg@.len() + 160 <= usize::MAX,
    ensures
        r@ == spec_ping_payload(id, msg@),
{
    let ghost tv = seq![TokV::Uint(id as u128), TokV::Str(msg@)];
    let mut toks: Vec<Tok> = Vec::new();
    toks.push(Tok::Uint(id as u128));
    toks.push(Tok::Str(clone_bytes(msg)));
    proof {
        assert(toks_view(toks@) =~= tv);
        lemma_encode_len_2(tv);
        assert(crate::codec::tail_of(tv[0]).len() == 0);
        assert(crate::codec::tail_of(tv[1]).len() == 32 + msg@.len() + crate::codec::pad_len(
            msg@.len(),
        ));
        assert(crate::codec::pad_len(msg@.len()) < 32);
    }
    encode(&toks)
}

/// Decodes a ping payload into its request id and message.
pub fn decode_ping_payload(payload: &Vec<u8>) -> (r: Result<(u64, Vec<u8>), DecodeError>)
    ensures
        match r {
            Ok((id, msg)) => ping_decodes(payload@) && id == ping_id(payload@) && msg@ == ping_msg(
                payload@,
            ),
            Err(e) => !ping_decodes(payload@) && e == ping_decode_err(payload@),
        },
{
    let schema = ping_schema_vec();
    let toks = match decode(&schema, payload) {
        Ok(t) => t,
        Err(e) => {
            return Err(e);
        },
    };
    proof {
        crate::codec::lemma_decode_ok_fields(ping_schema(), payload@);
        assert(toks_view(toks@)[0] == toks@[0]@);
        assert(toks_view(toks@)[1] == toks@[1]@);
    }
    let id: u64 = match &toks[0] {
        Tok::Uint(v) => (*v) as u64,
        _ => {
            proof {
                assert(false);
            }
            0
        },
    };
    let msg: Vec<u8> = match &toks[1] {
        Tok::Str(s) => clone_bytes(s),
        _ => {
            proof {
                assert(false);
            }
            Vec::new()
        },
    };
    Ok((id, msg))
}

// ---------------------------------------------------------------------------
// The envelope: (destination contract address, inner payload)
// ---------------------------------------------------------------------------

/// The request packet handed to the gateway: the inner payload wrapped with
/// the destination contract address, so the gateway can route it without
/// understanding the inner format.
pub open spec fn spec_envelope(dest: Seq<u8>, payload: Seq<u8>) -> Seq<u8> {
    spec_encode(seq![TokV::Str(dest), TokV::Bytes(payload)])
}

/// Encodes the envelope.
pub fn encode_envelope(dest: &Vec<u8>, payload: &Vec<u8>) -> (r: Vec<u8>)
    requires
        dest@.len() + payload@.len() + 192 <= usize::MAX,
    ensures
        r@ == spec_envelope(dest@, payload@),
{
    let ghost tv = seq![TokV::Str(dest@), TokV::Bytes(payload@)];
    let mut toks: Vec<Tok> = Vec::new();
    toks.push(Tok::Str(clone_bytes(dest)));
    toks.push(Tok::Bytes(clone_bytes(payload)));
    proof {
        assert(toks_view(toks@) =~= tv);
        lemma_encode_len_2(tv);
        assert(crate::codec::tail_of(tv[0]).len() == 32 + dest@.len() + crate::codec::pad_len(
            dest@.len(),
        ));
        assert(crate::codec::tail_of(tv[1]).len() == 32 + payload@.len() + crate::codec::pad_len(
            payload@.len(),
        ));
        assert(crate::codec::pad_len(dest@.len()) < 32);
        assert(crate::codec::pad_len(payload@.len()) < 32);
    }
    encode(&toks)
}

// ---------------------------------------------------------------------------
// Sentinel failure strings
// ---------------------------------------------------------------------------

/// The sentinel message that simulates a destination-side failure.
pub open spec fn spec_fail_dest_req() -> Seq<u8> {
    seq![70u8, 97u8, 105u8, 108u8, 32u8, 68u8, 101u8, 115u8, 116u8, 32u8, 82u8, 101u8, 113u8]
}

/// The sentinel message that simulates an ack-side failure.
pub open spec fn spec_fail_ack_req() -> Seq<u8> {
    seq![70u8, 97u8, 105u8, 108u8, 32u8, 65u8, 99u8, 107u8, 32u8, 82u8, 101u8, 113u8]
}

/// "Fail Dest Req" as bytes.
pub fn fail_dest_req() -> (r: Vec<u8>)
    ensures
        r@ == spec_fail_dest_req(),
{
    let r = vec![70u8, 97u8, 105u8, 108u8, 32u8, 68u8, 101u8, 115u8, 116u8, 32u8, 82u8, 101u8,
        113u8];
    proof {
        assert(r@ =~= spec_fail_dest_req());
    }
    r
}

/// "Fail Ack Req" as bytes.
pub fn fail_ack_req() -> (r: Vec<u8>)
    ensures
        r@ == spec_fail_ack_req(),
{
    let r = vec![70u8, 97u8, 105u8, 108u8, 32u8, 65u8, 99u8, 107u8, 32u8, 82u8, 101u8, 113u8];
    proof {
        assert(r@ =~= spec_fail_ack_req());
    }
    r
}

// ---------------------------------------------------------------------------
// ASCII case folding (per-chain address-casing policy)
// ---------------------------------------------------------------------------

/// ASCII lower-casing of a byte string; the normalization applied to claimed
/// senders on chains whose address format is case-insensitive.
pub open spec fn ascii_lower(s: Seq<u8>) -> Seq<u8> {
    Seq::new(s.len(), |i: int| if 65 <= s[i] <= 90 { (s[i] + 32) as u8 } else { s[i] })
}

/// Lower-cases the ASCII letters of a byte string.
pub fn to_ascii_lower(s: &Vec<u8>) -> (r: Vec<u8>)
    ensures
        r@ == ascii_lower(s@),
{
    let n = s.len();
    let mut r: Vec<u8> = Vec::new();
    let mut i: usize = 0;
    while i < n
        invariant
            i <= n,
            n == s@.len(),
            r@.len() == i,
            forall|j: int| 0 <= j < i ==> r@[j] == ascii_lower(s@)[j],
        decreases n - i,
    {
        let b = s[i];
        if 65 <= b && b <= 90 {
            r.push(b + 32);
        } else {
            r.push(b);
        }
        i += 1;
    }
    proof {
        assert(r@ =~= ascii_lower(s@));
    }
    r
}

// ---------------------------------------------------------------------------
// Outbound request builder
// ---------------------------------------------------------------------------

/// The cross-chain call handed to the gateway for relay: protocol version,
/// route amount and recipient, destination chain, request metadata, and the
/// encoded envelope.
#[derive(Debug)]
pub struct OutboundRequest {
    pub version: u128,
    pub route_amount: u128,
    pub route_recipient: Vec<u8>,
    pub dest_chain_id: Vec<u8>,
    pub request_metadata: Vec<u8>,
    pub request_packet: Vec<u8>,
}

/// The mathematical image of an [`OutboundRequest`].
pub ghost struct OutboundRequestV {
    pub version: u128,
    pub route_amount: u128,
    pub route_recipient: Seq<u8>,
    pub dest_chain_id: Seq<u8>,
    pub request_metadata: Seq<u8>,
    pub request_packet: Seq<u8>,
}

impl View for OutboundRequest {
    type V = OutboundRequestV;

    open spec fn view(&self) -> OutboundRequestV {
        OutboundRequestV {
            version: self.version,
            route_amount: self.route_amount,
            route_recipient: self.route_recipient@,
            dest_chain_id: self.dest_chain_id@,
            request_metadata: self.request_metadata@,
            request_packet: self.request_packet@,
        }
    }
}

/// Whether an outbound send with this payload and funding goes through.
pub open spec fn spec_send_ok(payload: Seq<u8>, amount: u128, funds: Option<u128>) -> bool {
    &&& (amount != 0 ==> funds == Some(amount))
    &&& ping_decodes(payload)
    &&& ping_msg(payload).len() > 0
}

/// The error an outbound send is rejected with: a funds mismatch first,
/// then a decode failure, then the empty required field.
pub open spec fn spec_send_err(payload: Seq<u8>, amount: u128, funds: Option<u128>) -> Error
    recommends
        !spec_send_ok(payload, amount, funds),
{
    if amount != 0 && funds != Some(amount) {
        Error::Validation(ValidationError::FundsMismatch)
    } else if !ping_decodes(payload) {
        Error::Decode(ping_decode_err(payload))
    } else {
        Error::Validation(ValidationError::EmptyPayloadField)
    }
}

/// Builds the outbound request for an already-encoded inner payload.
///
/// The steps of the builder: check the attached funds against the declared
/// route amount, decode the inner payload to validate that the required
/// message field is non-empty, wrap the payload in the envelope, and bump
/// the monotonic request counter.  The counter advances exactly when the
/// request is emitted; a rejected send leaves it untouched, which the caller
/// sees because the new counter value only exists in the `Ok` result.
pub fn create_outbound_request(
    counter: u64,
    payload: &Vec<u8>,
    dest_contract_address: &Vec<u8>,
    dest_chain_id: &Vec<u8>,
    request_metadata: &Vec<u8>,
    amount: u128,
    funds: Option<u128>,
    route_recipient: &Vec<u8>,
) -> (r: Result<(u64, OutboundRequest), Error>)
    requires
        counter < u64::MAX,
        dest_contract_address@.len() + payload@.len() + 192 <= usize::MAX,
    ensures
        match r {
            Ok((c, req)) => spec_send_ok(payload@, amount, funds) && c == counter + 1 && req@
                == (OutboundRequestV {
                version: 1,
                route_amount: amount,
                route_recipient: route_recipient@,
                dest_chain_id: dest_chain_id@,
                request_metadata: request_metadata@,
                request_packet: spec_envelope(dest_contract_address@, payload@),
            }),
            Err(e) => !spec_send_ok(payload@, amount, funds) && e == spec_send_err(
                payload@,
                amount,
                funds,
            ),
        },
{
    if amount != 0 {
        let funds_ok = match funds {
            Some(f) => f == amount,
            None => false,
        };
        if !funds_ok {
            return Err(Error::Validation(ValidationError::FundsMismatch));
        }
    }
    let (_id, msg) = match decode_ping_payload(payload) {
        Ok(p) => p,
        Err(e) => {
            return Err(Error::Decode(e));
        },
    };
    if msg.len() == 0 {
        return Err(Error::Validation(ValidationError::EmptyPayloadField));
    }
    let request_packet = encode_envelope(dest_contract_address, payload);
    let req = OutboundRequest {
        version: 1,
        route_amount: amount,
        route_recipient: clone_bytes(route_recipient),
        dest_chain_id: clone_bytes(dest_chain_id),
        request_metadata: clone_bytes(request_metadata),
        request_packet,
    };
    Ok((counter + 1, req))
}

/// One attempted outbound send, at the level the counter law speaks of.
pub ghost struct SendAttempt {
    pub payload: Seq<u8>,
    pub amount: u128,
    pub funds: Option<u128>,
}

/// The counter after a run of send attempts, successful or not.
pub open spec fn counter_after(c0: nat, attempts: Seq<SendAttempt>) -> nat
    decreases attempts.len(),
{
    if attempts.len() == 0 {
        c0
    } else {
        let prev = counter_after(c0, attempts.drop_last());
        let a = attempts.last();
        if spec_send_ok(a.payload, a.amount, a.funds) {
            prev + 1
        } else {
            prev
        }
    }
}

/// How many attempts of a run succeed.
pub open spec fn count_successes(attempts: Seq<SendAttempt>) -> nat
    decreases attempts.len(),
{
    if attempts.len() == 0 {
        0
    } else {
        count_successes(attempts.drop_last()) + (if spec_send_ok(
            attempts.last().payload,
            attempts.last().amount,
            attempts.last().funds,
        ) {
            1nat
        } else {
            0nat
        })
    }
}

/// The monotonic counter law: after any run of outbound sends, the counter
/// equals its initial value plus the number of successful sends, however the
/// failures are interleaved.  Failed sends never advance it, and it never
/// decreases.
pub proof fn lemma_monotonic_counter(c0: nat, attempts: Seq<SendAttempt>)
    ensures
        counter_after(c0, attempts) == c0 + count_successes(attempts),
        counter_after(c0, attempts) >= c0,
    decreases attempts.len(),
{
    if attempts.len() > 0 {
        lemma_monotonic_counter(c0, attempts.drop_last());
    }
}

// ---------------------------------------------------------------------------
// Inbound receive handler
// ---------------------------------------------------------------------------

/// Whether the claimed sender matches the allowlisted remote contract for
/// the source chain.  On chains whose type tag says the address format is
/// case-insensitive, the claimed sender is lower-cased before comparison;
/// a chain with no allowlist entry fails closed.
pub open spec fn sender_authorized(
    allowlist: Map<Seq<u8>, Seq<u8>>,
    chain_types: Map<Seq<u8>, u64>,
    sender: Seq<u8>,
    chain: Seq<u8>,
) -> bool {
    &&& allowlist.contains_key(chain)
    &&& allowlist[chain] == if chain_types.contains_key(chain) && chain_types[chain] == 1 {
        ascii_lower(sender)
    } else {
        sender
    }
}

/// Whether an inbound receive goes through: authorized sender, decodable
/// payload, and no sentinel failure string.
pub open spec fn spec_inbound_ok(
    allowlist: Map<Seq<u8>, Seq<u8>>,
    chain_types: Map<Seq<u8>, u64>,
    sender: Seq<u8>,
    chain: Seq<u8>,
    payload: Seq<u8>,
) -> bool {
    &&& sender_authorized(allowlist, chain_types, sender, chain)
    &&& ping_decodes(payload)
    &&& ping_msg(payload) != spec_fail_dest_req()
}

/// The error an inbound receive is rejected with: provenance first, then
/// decoding, then the sentinel.
pub open spec fn spec_inbound_err(
    allowlist: Map<Seq<u8>, Seq<u8>>,
    chain_types: Map<Seq<u8>, u64>,
    sender: Seq<u8>,
    chain: Seq<u8>,
    payload: Seq<u8>,
) -> Error
    recommends
        !spec_inbound_ok(allowlist, chain_types, sender, chain, payload),
{
    if !sender_authorized(allowlist, chain_types, sender, chain) {
        Error::Auth(AuthError::UnauthorizedSender)
    } else if !ping_decodes(payload) {
        Error::Decode(ping_decode_err(payload))
    } else {
        Error::Validation(ValidationError::SimulatedFailure)
    }
}

/// Processes a message relayed by the gateway.
///
/// Checks the claimed sender against the allowlist (case-insensitively when
/// the source chain's type tag asks for it), decodes the payload with the
/// ping schema, rejects the sentinel failure string, and upserts the Request
/// Record keyed by `(source_chain_id, decoded request id)`.  The returned
/// ack payload — echoed back to the origin chain by the gateway — is the
/// payload itself.  On any error no record is written.
pub fn handle_inbound(
    records: &mut RecordStore,
    allowlist: &AddrMap,
    chain_types: &ChainTypeMap,
    request_sender: &Vec<u8>,
    src_chain_id: &Vec<u8>,
    payload: &Vec<u8>,
) -> (r: Result<Vec<u8>, Error>)
    ensures
        match r {
            Ok(ack) => {
                &&& spec_inbound_ok(allowlist@, chain_types@, request_sender@, src_chain_id@, payload@)
                &&& final(records)@ == old(records)@.insert(
                    (src_chain_id@, ping_id(payload@)),
                    ping_msg(payload@),
                )
                &&& ack@ == payload@
            },
            Err(e) => {
                &&& !spec_inbound_ok(allowlist@, chain_types@, request_sender@, src_chain_id@, payload@)
                &&& e == spec_inbound_err(allowlist@, chain_types@, request_sender@, src_chain_id@, payload@)
                &&& final(records)@ == old(records)@
            },
        },
{
    // provenance: fail closed on any mismatch
    let authorized = match allowlist.get(src_chain_id) {
        Some(expected) => {
            let case_insensitive = match chain_types.get(src_chain_id) {
                Some(t) => t == 1,
                None => false,
            };
            if case_insensitive {
                let folded = to_ascii_lower(request_sender);
                bytes_eq(&expected, &folded)
            } else {
                bytes_eq(&expected, request_sender)
            }
        },
        None => false,
    };
    if !authorized {
        return Err(Error::Auth(AuthError::UnauthorizedSender));
    }
    // decode with the ping schema
    let (id, msg) = match decode_ping_payload(payload) {
        Ok(p) => p,
        Err(e) => {
            return Err(Error::Decode(e));
        },
    };
    // the sentinel simulates a destination-side rejection
    let sentinel = fail_dest_req();
    if bytes_eq(&msg, &sentinel) {
        return Err(Error::Validation(ValidationError::SimulatedFailure));
    }
    // persist: last write wins on re-delivery
    records.put(src_chain_id, id, &msg);
    Ok(clone_bytes(payload))
}

/// The Request Record store after one successful inbound receive.
pub open spec fn spec_inbound_records(
    records: Map<(Seq<u8>, u64), Seq<u8>>,
    chain: Seq<u8>,
    payload: Seq<u8>,
) -> Map<(Seq<u8>, u64), Seq<u8>> {
    records.insert((chain, ping_id(payload)), ping_msg(payload))
}

/// The idempotence law: delivering the same `(source chain, payload)` twice
/// leaves the Request Record store exactly as one delivery does — the
/// record is present, with the same value.
pub proof fn lemma_inbound_idempotent(
    records: Map<(Seq<u8>, u64), Seq<u8>>,
    chain: Seq<u8>,
    payload: Seq<u8>,
)
    ensures
        spec_inbound_records(spec_inbound_records(records, chain, payload), chain, payload)
            == spec_inbound_records(records, chain, payload),
{
    let once = spec_inbound_records(records, chain, payload);
    let twice = spec_inbound_records(once, chain, payload);
    assert(twice =~= once);
}

// ---------------------------------------------------------------------------
// Acknowledgement handler
// ---------------------------------------------------------------------------

/// Whether a successful-execution ack goes through: the execution result
/// decodes, and carries no sentinel failure string.
pub open spec fn spec_ack_ok(exec_data: Seq<u8>) -> bool {
    &&& ping_decodes(exec_data)
    &&& ping_msg(exec_data) != spec_fail_ack_req()
}

/// The error a successful-execution ack is rejected with.
pub open spec fn spec_ack_err(exec_data: Seq<u8>) -> Error
    recommends
        !spec_ack_ok(exec_data),
{
    if !ping_decodes(exec_data) {
        Error::Decode(ping_decode_err(exec_data))
    } else {
        Error::Validation(ValidationError::SimulatedFailure)
    }
}

/// Processes the gateway's callback about the fate of an outbound request.
///
/// When the execution flag is false no decoding is attempted — the bytes
/// may be garbage — and a failure record is stored under the supplied
/// request identifier.  When the flag is true the execution result is
/// decoded with the ping schema, the sentinel failure string aborts, and
/// the Ack Record is stored under the embedded request id.  On an error no
/// record is written.
pub fn handle_ack(
    acks: &mut AckStore,
    request_identifier: u128,
    exec_flag: bool,
    exec_data: &Vec<u8>,
) -> (r: Result<(), Error>)
    ensures
        !exec_flag ==> r is Ok && final(acks)@ == old(acks)@.insert(
            request_identifier,
            AckRecordV { success: false, message: Seq::empty() },
        ),
        exec_flag ==> match r {
            Ok(_) => spec_ack_ok(exec_data@) && final(acks)@ == old(acks)@.insert(
                ping_id(exec_data@) as u128,
                AckRecordV { success: true, message: ping_msg(exec_data@) },
            ),
            Err(e) => !spec_ack_ok(exec_data@) && e == spec_ack_err(exec_data@) && final(acks)@
                == old(acks)@,
        },
{
    if !exec_flag {
        let empty: Vec<u8> = Vec::new();
        acks.put(request_identifier, false, &empty);
        return Ok(());
    }
    let (id, msg) = match decode_ping_payload(exec_data) {
        Ok(p) => p,
        Err(e) => {
            return Err(Error::Decode(e));
        },
    };
    let sentinel = fail_ack_req();
    if bytes_eq(&msg, &sentinel) {
        return Err(Error::Validation(ValidationError::SimulatedFailure));
    }
    acks.put(id as u128, true, &msg);
    Ok(())
}

/// The byte length of a ping payload: two head words, then the string tail.
pub proof fn lemma_ping_payload_len(id: u64, msg: Seq<u8>)
    ensures
        spec_ping_payload(id, msg).len() == 96 + msg.len() + crate::codec::pad_len(msg.len()),
        crate::codec::pad_len(msg.len()) < 32,
{
    let tv = seq![TokV::Uint(id as u128), TokV::Str(msg)];
    lemma_encode_len_2(tv);
    assert(crate::codec::tail_of(tv[0]).len() == 0);
    assert(crate::codec::tail_of(tv[1]).len() == 32 + msg.len() + crate::codec::pad_len(msg.len()));
}

/// The byte length of an envelope: two head words, then the two tails.
pub proof fn lemma_envelope_len(dest: Seq<u8>, payload: Seq<u8>)
    ensures
        spec_envelope(dest, payload).len() == 128 + dest.len() + crate::codec::pad_len(dest.len())
            + payload.len() + crate::codec::pad_len(payload.len()),
        crate::codec::pad_len(dest.len()) < 32,
        crate::codec::pad_len(payload.len()) < 32,
{
    let tv = seq![TokV::Str(dest), TokV::Bytes(payload)];
    lemma_encode_len_2(tv);
    assert(crate::codec::tail_of(tv[0]).len() == 32 + dest.len() + crate::codec::pad_len(
        dest.len(),
    ));
    assert(crate::codec::tail_of(tv[1]).len() == 32 + payload.len() + crate::codec::pad_len(
        payload.len(),
    ));
}

/// The byte length of a `(u256, string)` pair encoding at full value width.
pub proof fn lemma_pair_payload_len(v: u128, msg: Seq<u8>)
    ensures
        spec_encode(seq![TokV::Uint(v), TokV::Str(msg)]).len() == 96 + msg.len()
            + crate::codec::pad_len(msg.len()),
        crate::codec::pad_len(msg.len()) < 32,
{
    let tv = seq![TokV::Uint(v), TokV::Str(msg)];
    lemma_encode_len_2(tv);
    assert(crate::codec::tail_of(tv[0]).len() == 0);
    assert(crate::codec::tail_of(tv[1]).len() == 32 + msg.len() + crate::codec::pad_len(msg.len()));
}

/// The length of any encoding: one 32-byte head word per field, plus the
/// accumulated tails.
pub proof fn lemma_spec_encode_len(tv: Seq<TokV>)
    ensures
        spec_encode(tv).len() == 32 * tv.len() + crate::codec::tails_upto(tv, tv.len() as int).len(),
{
    crate::codec::lemma_heads_upto_len(tv, tv.len() as int);
}

} // verus!
