//! The ping-pong program in its instruction-account flavour: counters in a
//! single program account, a hand-rolled encoder for the `(u256, string)`
//! pair, and a length-prefixed little-endian framing for the packet account
//! handed to the gateway program.
//!
//! The hand-rolled encoder is proved equal to the general tuple codec, so
//! the round-trip law covers this flavour too.

use vstd::prelude::*;
use crate::codec::{
    pad_len, pow256, push_bytes, push_word, push_zeros, spec_encode, word_of, word_val, zeros,
    DecodeError, TokV,
};
use crate::store::clone_bytes;

verus! {

/// The only account allowed to initialize the program.
pub open spec fn spec_authorized_deployer() -> Seq<u8> {
    seq![65u8, 99u8, 83u8, 90u8, 55u8, 69u8, 67u8, 75u8, 55u8, 121u8, 81u8, 107u8, 57u8, 84u8, 101u8, 100u8, 122u8, 115u8, 106u8, 107u8, 84u8, 56u8, 100u8, 122u8, 104u8, 121u8, 117u8, 120u8, 105u8, 55u8, 84u8, 122u8, 88u8, 78u8, 104u8, 119u8, 117u8, 71u8, 65u8, 68u8, 68u8, 57u8, 78u8]
}

/// "AcSZ7ECK7yQk9TedzsjkT8dzhyuxi7TzXNhwuGADD9N" as bytes.
pub fn authorized_deployer() -> (r: Vec<u8>)
    ensures
        r@ == spec_authorized_deployer(),
{
    let r = vec![65u8, 99u8, 83u8, 90u8, 55u8, 69u8, 67u8, 75u8, 55u8, 121u8, 81u8, 107u8, 57u8, 84u8, 101u8, 100u8, 122u8, 115u8, 106u8, 107u8, 84u8, 56u8, 100u8, 122u8, 104u8, 121u8, 117u8, 120u8, 105u8, 55u8, 84u8, 122u8, 88u8, 78u8, 104u8, 119u8, 117u8, 71u8, 65u8, 68u8, 68u8, 57u8, 78u8];
    proof {
        assert(r@ =~= spec_authorized_deployer());
    }
    r
}

/// The fixed message this program sends and answers with.
pub open spec fn spec_hello_message() -> Seq<u8> {
    seq![72u8, 101u8, 108u8, 108u8, 111u8, 32u8, 70u8, 114u8, 111u8, 109u8, 32u8, 83u8, 111u8, 108u8, 97u8, 110u8, 97u8]
}

/// "Hello From Solana" as bytes.
pub fn hello_message() -> (r: Vec<u8>)
    ensures
        r@ == spec_hello_message(),
{
    let r = vec![72u8, 101u8, 108u8, 108u8, 111u8, 32u8, 70u8, 114u8, 111u8, 109u8, 32u8, 83u8, 111u8, 108u8, 97u8, 110u8, 97u8];
    proof {
        assert(r@ =~= spec_hello_message());
    }
    r
}

/// A fresh outbound ping was sent.
pub struct NewPing {
    pub request_id: u128,
}

/// A relayed ping arrived.
pub struct PingFromSource {
    pub src_chain_id: Vec<u8>,
    pub request_id: u128,
    pub sample_str: Vec<u8>,
}

/// The gateway reported the fate of an outbound request.
pub struct AckFromDestination {
    pub request_id: Option<u128>,
    pub ack_message: Option<Vec<u8>>,
    pub request_identifier: u128,
    pub exec_flag: bool,
}

/// Pause-gate failures.
#[derive(Clone, Copy, PartialEq, Eq, Structural, Debug)]
pub enum PausableError {
    Paused,
    UnPaused,
}

/// Program-level failures.
#[derive(Clone, Copy, PartialEq, Eq, Structural, Debug)]
pub enum DappError {
    UnAuthorized,
    InSufficientBalance,
    SolTransferFailed,
    InvalidGatewayAccount,
}

/// The program's single state account.
#[derive(Debug)]
pub struct PingPongAccount {
    pub isend_cnt: u128,
    pub ireceive_cnt: u128,
    pub iack_cnt: u128,
    pub chain_id: Vec<u8>,
    pub gateway_authority: Vec<u8>,
    pub pause: bool,
    pub i_send_default_fee: u64,
    pub owner: Vec<u8>,
}

/// Refuses a call while the program is paused.
pub fn _when_not_pause(dapp_acc: &PingPongAccount) -> (r: Result<(), PausableError>)
    ensures
        r is Ok <==> !dapp_acc.pause,
        r is Err ==> r->Err_0 == PausableError::Paused,
{
    if dapp_acc.pause {
        return Err(PausableError::Paused);
    }
    Ok(())
}

/// Refuses a call while the program is running.
pub fn _when_pause(dapp_acc: &PingPongAccount) -> (r: Result<(), PausableError>)
    ensures
        r is Ok <==> dapp_acc.pause,
        r is Err ==> r->Err_0 == PausableError::Paused,
{
    if !dapp_acc.pause {
        return Err(PausableError::Paused);
    }
    Ok(())
}

/// Initializes the program account; only the authorized deployer may.
pub fn initialize(
    signer: &Vec<u8>,
    chain_id: &Vec<u8>,
    gateway_authority: &Vec<u8>,
    i_send_default_fee: u64,
    owner: &Vec<u8>,
) -> (r: Result<PingPongAccount, DappError>)
    ensures
        match r {
            Ok(acc) => {
                &&& signer@ == spec_authorized_deployer()
                &&& acc.isend_cnt == 0
                &&& acc.ireceive_cnt == 0
                &&& acc.iack_cnt == 0
                &&& acc.chain_id@ == chain_id@
                &&& acc.gateway_authority@ == gateway_authority@
                &&& acc.pause == false
                &&& acc.i_send_default_fee == i_send_default_fee
                &&& acc.owner@ == owner@
            },
            Err(e) => signer@ != spec_authorized_deployer() && e == DappError::UnAuthorized,
        },
{
    let deployer = authorized_deployer();
    if !crate::store::bytes_eq(signer, &deployer) {
        return Err(DappError::UnAuthorized);
    }
    Ok(
        PingPongAccount {
            isend_cnt: 0,
            ireceive_cnt: 0,
            iack_cnt: 0,
            chain_id: clone_bytes(chain_id),
            gateway_authority: clone_bytes(gateway_authority),
            pause: false,
            i_send_default_fee,
            owner: clone_bytes(owner),
        },
    )
}

/// Pauses the program; refused when already paused.
pub fn pause(dapp_acc: &mut PingPongAccount) -> (r: Result<(), PausableError>)
    ensures
        match r {
            Ok(_) => !old(dapp_acc).pause && final(dapp_acc).pause
                && account_counters_unchanged(*old(dapp_acc), *final(dapp_acc)),
            Err(e) => old(dapp_acc).pause && e == PausableError::Paused && *final(dapp_acc) == *old(dapp_acc),
        },
{
    match _when_not_pause(dapp_acc) {
        Ok(_) => {},
        Err(e) => {
            return Err(e);
        },
    }
    dapp_acc.pause = true;
    Ok(())
}

/// Unpauses the program; refused when already running.
pub fn unpause(dapp_acc: &mut PingPongAccount) -> (r: Result<(), PausableError>)
    ensures
        match r {
            Ok(_) => old(dapp_acc).pause && !final(dapp_acc).pause
                && account_counters_unchanged(*old(dapp_acc), *final(dapp_acc)),
            Err(e) => !old(dapp_acc).pause && e == PausableError::Paused && *final(dapp_acc)
                == *old(dapp_acc),
        },
{
    match _when_pause(dapp_acc) {
        Ok(_) => {},
        Err(e) => {
            return Err(e);
        },
    }
    dapp_acc.pause = false;
    Ok(())
}

/// All fields but the pause flag and owner kept.
pub open spec fn account_counters_unchanged(pre: PingPongAccount, post: PingPongAccount) -> bool {
    &&& post.isend_cnt == pre.isend_cnt
    &&& post.ireceive_cnt == pre.ireceive_cnt
    &&& post.iack_cnt == pre.iack_cnt
    &&& post.chain_id@ == pre.chain_id@
    &&& post.gateway_authority@ == pre.gateway_authority@
    &&& post.i_send_default_fee == pre.i_send_default_fee
}

/// Hands the account to a new owner; refused while paused.
pub fn update_owner(dapp_acc: &mut PingPongAccount, new_owner: &Vec<u8>) -> (r: Result<
    (),
    PausableError,
>)
    ensures
        match r {
            Ok(_) => !old(dapp_acc).pause && final(dapp_acc).owner@ == new_owner@
                && account_counters_unchanged(*old(dapp_acc), *final(dapp_acc)) && final(dapp_acc).pause == old(dapp_acc).pause,
            Err(e) => old(dapp_acc).pause && e == PausableError::Paused && *final(dapp_acc) == *old(dapp_acc),
        },
{
    match _when_not_pause(dapp_acc) {
        Ok(_) => {},
        Err(e) => {
            return Err(e);
        },
    }
    dapp_acc.owner = clone_bytes(new_owner);
    Ok(())
}

// ---------------------------------------------------------------------------
// The hand-rolled (u256, string) codec
// ---------------------------------------------------------------------------

/// One 32-byte big-endian word holding a 128-bit value.
pub fn encode_u256(value: u128) -> (r: Vec<u8>)
    ensures
        r@ == word_of(value as nat),
{
    let mut r: Vec<u8> = Vec::new();
    push_word(&mut r, value);
    proof {
        assert(r@ =~= word_of(value as nat));
    }
    r
}

/// A length word followed by the string bytes, zero-padded to a word
/// boundary.
pub fn encode_string(s: &Vec<u8>) -> (r: Vec<u8>)
    requires
        s@.len() + 64 <= usize::MAX,
    ensures
        r@ == word_of(s@.len()) + s@ + zeros(pad_len(s@.len())),
{
    let mut r: Vec<u8> = Vec::new();
    let len = s.len();
    push_word(&mut r, len as u128);
    push_bytes(&mut r, s);
    let pad: usize = (32 - (len % 32)) % 32;
    push_zeros(&mut r, pad);
    proof {
        assert(r@ =~= word_of(s@.len()) + s@ + zeros(pad_len(s@.len())));
    }
    r
}

/// The hand-rolled encoding of `(value, text)`: the value word, the offset
/// word (always 64, the size of the head), and the string tail.  It is
/// exactly the general tuple codec's encoding of the same pair.
pub fn abi_encode_u128_string(value: u128, text: &Vec<u8>) -> (r: Vec<u8>)
    requires
        text@.len() + 160 <= usize::MAX,
    ensures
        r@ == spec_encode(seq![TokV::Uint(value), TokV::Str(text@)]),
{
    let ghost tv = seq![TokV::Uint(value), TokV::Str(text@)];
    let mut encoded = encode_u256(value);
    push_word(&mut encoded, 64);
    let mut tail = encode_string(text);
    push_bytes(&mut encoded, &tail);
    proof {
        crate::codec::lemma_heads_upto_len(tv, 2);
        assert(crate::codec::tails_upto(tv, 1) == crate::codec::tails_upto(tv, 0)
            + crate::codec::tail_of(tv[0]));
        assert(crate::codec::tails_upto(tv, 0) == Seq::<u8>::empty());
        assert(crate::codec::tails_upto(tv, 1).len() == 0);
        assert(crate::codec::head_word(tv, 1) == word_of(64));
        assert(crate::codec::tails_upto(tv, 2) == crate::codec::tails_upto(tv, 1)
            + crate::codec::tail_of(tv[1]));
        assert(crate::codec::heads_upto(tv, 2) == crate::codec::heads_upto(tv, 1)
            + crate::codec::head_word(tv, 1));
        assert(crate::codec::heads_upto(tv, 1) == crate::codec::heads_upto(tv, 0)
            + crate::codec::head_word(tv, 0));
        assert(crate::codec::heads_upto(tv, 0) == Seq::<u8>::empty());
        assert(encoded@ =~= spec_encode(tv));
    }
    encoded
}

/// Reads a word as a `u128`, failing loudly — never truncating — when the
/// high sixteen bytes carry anything.
pub fn decode_u256(data: &Vec<u8>) -> (r: Result<u128, DecodeError>)
    requires
        data@.len() >= 32,
    ensures
        match r {
            Ok(v) => v as nat == word_val(data@.subrange(0, 32)),
            Err(e) => word_val(data@.subrange(0, 32)) >= pow256(16) && e
                == DecodeError::NarrowingOverflow,
        },
{
    match crate::codec::word_at(data, 0) {
        Some(v) => Ok(v),
        None => Err(DecodeError::NarrowingOverflow),
    }
}

/// Reads a length-prefixed string at `offset`, checking the offset against
/// the buffer and the declared length against what remains.
pub fn decode_string(data: &Vec<u8>, offset: usize) -> (r: Result<Vec<u8>, DecodeError>)
    ensures
        match r {
            Ok(s) => crate::codec::spec_dec_bytes(data@, offset as nat) == Ok::<
                Seq<u8>,
                DecodeError,
            >(s@),
            Err(e) => crate::codec::spec_dec_bytes(data@, offset as nat) == Err::<
                Seq<u8>,
                DecodeError,
            >(e),
        },
{
    let dlen = data.len();
    if offset > dlen || dlen - offset < 32 {
        return Err(DecodeError::OffsetOutOfRange);
    }
    let avail = dlen - (offset + 32);
    let l: usize = match crate::codec::word_at(data, offset) {
        Some(l128) => {
            if l128 > (avail as u128) {
                return Err(DecodeError::LengthOutOfRange);
            }
            l128 as usize
        },
        None => {
            proof {
                crate::codec::lemma_pow256_16();
            }
            return Err(DecodeError::LengthOutOfRange);
        },
    };
    Ok(crate::codec::bytes_range(data, offset + 32, offset + 32 + l))
}

/// The decoding of a hand-rolled `(u256, string)` pair: the value word must
/// fit `u128` (spec narrowing — no silent truncation), and the offset and
/// length words are checked in full against the buffer.
pub open spec fn spec_sol_pair(data: Seq<u8>) -> Result<(u128, Seq<u8>), DecodeError> {
    if data.len() < 64 {
        Err(DecodeError::Truncated)
    } else if word_val(data.subrange(0, 32)) >= pow256(16) {
        Err(DecodeError::NarrowingOverflow)
    } else {
        match crate::codec::spec_dec_bytes(data, word_val(data.subrange(32, 64))) {
            Err(e) => Err(e),
            Ok(s) => Ok(((word_val(data.subrange(0, 32)) as u128), s)),
        }
    }
}

/// Splits a hand-rolled `(u256, string)` pair into its fields, with every
/// decode failure reported loudly.
pub fn abi_decode_u128_string(encoded: &Vec<u8>) -> (r: Result<(u128, Vec<u8>), DecodeError>)
    ensures
        match r {
            Ok((v, s)) => spec_sol_pair(encoded@) == Ok::<(u128, Seq<u8>), DecodeError>((v, s@)),
            Err(e) => spec_sol_pair(encoded@) == Err::<(u128, Seq<u8>), DecodeError>(e),
        },
{
    proof {
        crate::codec::lemma_pow256_16();
    }
    let dlen = encoded.len();
    if dlen < 64 {
        return Err(DecodeError::Truncated);
    }
    let value = match decode_u256(encoded) {
        Ok(v) => v,
        Err(e) => {
            return Err(e);
        },
    };
    let off: usize = match crate::codec::word_at(encoded, 32) {
        Some(o128) => {
            if o128 > dlen as u128 {
                return Err(DecodeError::OffsetOutOfRange);
            }
            o128 as usize
        },
        None => {
            proof {
                crate::codec::lemma_pow256_16();
            }
            return Err(DecodeError::OffsetOutOfRange);
        },
    };
    match decode_string(encoded, off) {
        Ok(text) => Ok((value, text)),
        Err(e) => Err(e),
    }
}

// ---------------------------------------------------------------------------
// The packet-account framing and the entry points
// ---------------------------------------------------------------------------

/// Four little-endian bytes of a 32-bit length.
pub open spec fn le32(v: nat) -> Seq<u8> {
    Seq::new(4, |i: int| ((v / pow256(i as nat)) % 256) as u8)
}

/// Appends the four little-endian bytes of `v`.
fn push_le32(out: &mut Vec<u8>, v: u32)
    requires
        old(out)@.len() + 4 <= usize::MAX,
    ensures
        final(out)@ == old(out)@ + le32(v as nat),
{
    let ghost prefix = out@;
    let mut x = v;
    let mut i: usize = 0;
    proof {
        assert(pow256(0) == 1);
        vstd::arithmetic::div_mod::lemma_div_basics(v as int);
    }
    while i < 4
        invariant
            i <= 4,
            prefix.len() + 4 <= usize::MAX,
            out@.len() == prefix.len() + i,
            x as nat == (v as nat) / pow256(i as nat),
            forall|j: int| 0 <= j < prefix.len() ==> out@[j] == prefix[j],
            forall|j: int| prefix.len() <= j < out@.len() ==> out@[j] == le32(v as nat)[j
                - prefix.len()],
        decreases 4 - i,
    {
        proof {
            crate::codec::lemma_pow256_pos(i as nat);
            crate::codec::lemma_pow256_adds(i as nat, 1);
            vstd::arithmetic::div_mod::lemma_div_denominator(
                v as int,
                pow256(i as nat) as int,
                256,
            );
        }
        out.push((x % 256) as u8);
        x = x / 256;
        i += 1;
    }
    assert(out@ =~= prefix + le32(v as nat));
}

/// The packet-account framing: each of the destination contract and the
/// payload prefixed by its four-byte little-endian length.
pub open spec fn spec_framed_packet(dst: Seq<u8>, payload: Seq<u8>) -> Seq<u8> {
    le32(dst.len()) + dst + le32(payload.len()) + payload
}

/// Frames the destination contract and payload for the packet account.
pub fn frame_packet(dst_contract: &Vec<u8>, payload: &Vec<u8>) -> (r: Vec<u8>)
    requires
        dst_contract@.len() <= u32::MAX,
        payload@.len() <= u32::MAX,
        dst_contract@.len() + payload@.len() + 8 <= usize::MAX,
    ensures
        r@ == spec_framed_packet(dst_contract@, payload@),
{
    let mut r: Vec<u8> = Vec::new();
    push_le32(&mut r, dst_contract.len() as u32);
    push_bytes(&mut r, dst_contract);
    push_le32(&mut r, payload.len() as u32);
    push_bytes(&mut r, payload);
    proof {
        assert(r@ =~= spec_framed_packet(dst_contract@, payload@));
    }
    r
}

/// Sends a ping: refused while paused; otherwise the send counter advances,
/// the fixed hello message is encoded under the new counter value, and the
/// framed packet-account bytes are returned for the gateway call.
pub fn i_ping(acc: &mut PingPongAccount, dst_contract: &Vec<u8>) -> (r: Result<
    Vec<u8>,
    PausableError,
>)
    requires
        old(acc).isend_cnt < u128::MAX,
        dst_contract@.len() + 1024 <= usize::MAX,
        dst_contract@.len() <= u32::MAX,
    ensures
        match r {
            Ok(out) => {
                &&& !old(acc).pause
                &&& final(acc).isend_cnt == old(acc).isend_cnt + 1
                &&& final(acc).ireceive_cnt == old(acc).ireceive_cnt
                &&& final(acc).iack_cnt == old(acc).iack_cnt
                &&& final(acc).pause == old(acc).pause
                &&& out@ == spec_framed_packet(
                    dst_contract@,
                    spec_encode(
                        seq![
                            TokV::Uint((old(acc).isend_cnt + 1) as u128),
                            TokV::Str(spec_hello_message()),
                        ],
                    ),
                )
            },
            Err(e) => old(acc).pause && e == PausableError::Paused && *final(acc) == *old(acc),
        },
{
    match _when_not_pause(acc) {
        Ok(_) => {},
        Err(e) => {
            return Err(e);
        },
    }
    acc.isend_cnt = acc.isend_cnt + 1;
    let hello = hello_message();
    let payload = abi_encode_u128_string(acc.isend_cnt, &hello);
    proof {
        let tv = seq![TokV::Uint(acc.isend_cnt), TokV::Str(spec_hello_message())];
        crate::handlers::lemma_pair_payload_len(acc.isend_cnt, spec_hello_message());
    }
    Ok(frame_packet(dst_contract, &payload))
}

/// Receives a relayed pair: the receive counter advances and the program
/// answers with the fixed hello message under the new counter value.
pub fn i_receive(
    acc: &mut PingPongAccount,
    _request_sender: &Vec<u8>,
    src_chain_id: &Vec<u8>,
    packet: &Vec<u8>,
) -> (r: Result<Vec<u8>, DecodeError>)
    requires
        old(acc).ireceive_cnt < u128::MAX,
    ensures
        match r {
            Ok(out) => {
                &&& spec_sol_pair(packet@) is Ok
                &&& final(acc).ireceive_cnt == old(acc).ireceive_cnt + 1
                &&& final(acc).isend_cnt == old(acc).isend_cnt
                &&& final(acc).iack_cnt == old(acc).iack_cnt
                &&& final(acc).pause == old(acc).pause
                &&& out@ == spec_encode(
                    seq![
                        TokV::Uint((old(acc).ireceive_cnt + 1) as u128),
                        TokV::Str(spec_hello_message()),
                    ],
                )
            },
            Err(e) => spec_sol_pair(packet@) == Err::<(u128, Seq<u8>), DecodeError>(e) && *final(acc) == *old(acc),
        },
{
    let (_request_id, _sample_str) = match abi_decode_u128_string(packet) {
        Ok(p) => p,
        Err(e) => {
            return Err(e);
        },
    };
    acc.ireceive_cnt = acc.ireceive_cnt + 1;
    let hello = hello_message();
    proof {
        crate::handlers::lemma_pair_payload_len(acc.ireceive_cnt, spec_hello_message());
    }
    Ok(abi_encode_u128_string(acc.ireceive_cnt, &hello))
}

/// Handles the gateway's ack: a false flag touches nothing; a true flag
/// decodes the packet and advances the ack counter.  Either way the
/// returned packet-account answer is empty.
pub fn i_ack(
    acc: &mut PingPongAccount,
    request_identifier: u128,
    exec_flag: bool,
    packet: &Vec<u8>,
) -> (r: Result<Vec<u8>, DecodeError>)
    requires
        exec_flag ==> old(acc).iack_cnt < u128::MAX,
    ensures
        !exec_flag ==> (r matches Ok(out) && out@ == Seq::<u8>::empty()) && *final(acc) == *old(
            acc,
        ),
        exec_flag ==> match r {
            Ok(out) => {
                &&& spec_sol_pair(packet@) is Ok
                &&& out@ == Seq::<u8>::empty()
                &&& final(acc).iack_cnt == old(acc).iack_cnt + 1
                &&& final(acc).isend_cnt == old(acc).isend_cnt
                &&& final(acc).ireceive_cnt == old(acc).ireceive_cnt
                &&& final(acc).pause == old(acc).pause
            },
            Err(e) => spec_sol_pair(packet@) == Err::<(u128, Seq<u8>), DecodeError>(e) && *final(acc) == *old(acc),
        },
{
    if !exec_flag {
        return Ok(Vec::new());
    }
    let (_request_id, _ack_message) = match abi_decode_u128_string(packet) {
        Ok(p) => p,
        Err(e) => {
            return Err(e);
        },
    };
    acc.iack_cnt = acc.iack_cnt + 1;
    Ok(Vec::new())
}

} // verus!
