//! The cross-chain NFT contract: a token burns on the source chain and is
//! minted again on the destination, the transfer travelling as an ABI tuple
//! `(token_id, recipient, token_uri)` wrapped in the usual envelope.

use vstd::prelude::*;
use crate::codec::{
    decode_wrapped, encode, encode_wrapped, spec_decode_wrapped, spec_encode, spec_encode_wrapped,
    toks_view, Tok, TokV, Ty, DecodeError,
};
use crate::errors::{AuthError, TransferError};
use crate::handlers::{encode_envelope, lemma_spec_encode_len, spec_envelope};
use crate::metadata::RequestMetaData;
use crate::store::{bytes_eq, clone_bytes, AddrMap, TokenInfo, TokenInfoV, TokenMap};

verus! {

/// The wire schema of one NFT transfer: token id, recipient, token uri.
pub open spec fn transfer_schema() -> Seq<Ty> {
    seq![Ty::U256, Ty::Str, Ty::Str]
}

/// The fields of one cross-chain NFT transfer.
#[derive(Debug)]
pub struct TransferParams {
    pub nft_id: u64,
    pub recipient: Vec<u8>,
    pub token_uri: Vec<u8>,
}

/// The token tuple of a transfer.
pub open spec fn spec_transfer_toks(nft_id: u64, recipient: Seq<u8>, token_uri: Seq<u8>) -> Seq<
    TokV,
> {
    seq![TokV::Uint(nft_id as u128), TokV::Str(recipient), TokV::Str(token_uri)]
}

impl TransferParams {
    /// The wrapped-tuple encoding of the transfer.
    pub fn get_evm_encoding(&self) -> (r: Vec<u8>)
        requires
            self.recipient@.len() + self.token_uri@.len() + 512 <= usize::MAX,
        ensures
            r@ == spec_encode_wrapped(
                spec_transfer_toks(self.nft_id, self.recipient@, self.token_uri@),
            ),
    {
        let ghost tv = spec_transfer_toks(self.nft_id, self.recipient@, self.token_uri@);
        let mut toks: Vec<Tok> = Vec::new();
        toks.push(Tok::Uint(self.nft_id as u128));
        toks.push(Tok::Str(clone_bytes(&self.recipient)));
        toks.push(Tok::Str(clone_bytes(&self.token_uri)));
        proof {
            assert(toks_view(toks@) =~= tv);
            lemma_transfer_toks_len(self.nft_id, self.recipient@, self.token_uri@);
        }
        encode_wrapped(&toks)
    }

    /// The schema the transfer decodes against.
    pub fn get_params_types() -> (r: Vec<Ty>)
        ensures
            r@ == transfer_schema(),
    {
        let mut r: Vec<Ty> = Vec::new();
        r.push(Ty::U256);
        r.push(Ty::Str);
        r.push(Ty::Str);
        proof {
            assert(r@ =~= transfer_schema());
        }
        r
    }

    /// Narrows a decoded token tuple into transfer fields; the wire token id
    /// must fit `u64`.
    pub fn from_token_tuple(tuple: &Vec<Tok>) -> (r: Result<Self, DecodeError>)
        requires
            tuple@.len() == 3,
            toks_view(tuple@)[0] is Uint,
            toks_view(tuple@)[1] is Str,
            toks_view(tuple@)[2] is Str,
        ensures
            match r {
                Ok(p) => {
                    &&& (toks_view(tuple@)[0]->Uint_0 as nat) < 0x1_0000_0000_0000_0000
                    &&& p.nft_id as u128 == toks_view(tuple@)[0]->Uint_0
                    &&& p.recipient@ == toks_view(tuple@)[1]->Str_0
                    &&& p.token_uri@ == toks_view(tuple@)[2]->Str_0
                },
                Err(e) => (toks_view(tuple@)[0]->Uint_0 as nat) >= 0x1_0000_0000_0000_0000 && e
                    == DecodeError::NarrowingOverflow,
            },
    {
        proof {
            assert(toks_view(tuple@)[0] == tuple@[0]@);
            assert(toks_view(tuple@)[1] == tuple@[1]@);
            assert(toks_view(tuple@)[2] == tuple@[2]@);
        }
        let nft_id: u64 = match &tuple[0] {
            Tok::Uint(v) => {
                if *v >= 0x1_0000_0000_0000_0000u128 {
                    return Err(DecodeError::NarrowingOverflow);
                }
                (*v) as u64
            },
            _ => {
                proof {
                    assert(false);
                }
                0
            },
        };
        let recipient: Vec<u8> = match &tuple[1] {
            Tok::Str(s) => clone_bytes(s),
            _ => {
                proof {
                    assert(false);
                }
                Vec::new()
            },
        };
        let token_uri: Vec<u8> = match &tuple[2] {
            Tok::Str(s) => clone_bytes(s),
            _ => {
                proof {
                    assert(false);
                }
                Vec::new()
            },
        };
        Ok(TransferParams { nft_id, recipient, token_uri })
    }
}

/// The length of the wrapped transfer encoding.
proof fn lemma_transfer_toks_len(nft_id: u64, recipient: Seq<u8>, token_uri: Seq<u8>)
    ensures
        spec_encode(spec_transfer_toks(nft_id, recipient, token_uri)).len() == 160 + recipient.len()
            + crate::codec::pad_len(recipient.len()) + token_uri.len() + crate::codec::pad_len(
            token_uri.len(),
        ),
        crate::codec::pad_len(recipient.len()) < 32,
        crate::codec::pad_len(token_uri.len()) < 32,
{
    let tv = spec_transfer_toks(nft_id, recipient, token_uri);
    lemma_spec_encode_len(tv);
    assert(crate::codec::tails_upto(tv, 3) == crate::codec::tails_upto(tv, 2)
        + crate::codec::tail_of(tv[2]));
    assert(crate::codec::tails_upto(tv, 2) == crate::codec::tails_upto(tv, 1)
        + crate::codec::tail_of(tv[1]));
    assert(crate::codec::tails_upto(tv, 1) == crate::codec::tails_upto(tv, 0)
        + crate::codec::tail_of(tv[0]));
    assert(crate::codec::tails_upto(tv, 0) == Seq::<u8>::empty());
    assert(crate::codec::tail_of(tv[0]).len() == 0);
    assert(crate::codec::tail_of(tv[1]).len() == 32 + recipient.len() + crate::codec::pad_len(
        recipient.len(),
    ));
    assert(crate::codec::tail_of(tv[2]).len() == 32 + token_uri.len() + crate::codec::pad_len(
        token_uri.len(),
    ));
}

pub struct InstantiateMsg {
    pub name: Vec<u8>,
    pub symbol: Vec<u8>,
    pub minter: Vec<u8>,
}

pub struct MigrateMsg {}

/// The execute entry point's message family.
pub enum ExecuteMsg {
    EnrollRemoteContract { chain_id: Vec<u8>, remote_address: Vec<u8> },
    TransferCrossChain {
        dst_chain_id: Vec<u8>,
        token_id: u64,
        recipient: Vec<u8>,
        request_metadata: RequestMetaData,
    },
}

/// The query entry point's message family.
pub enum QueryMsg {
    GetContractVersion,
    GetOwner,
    GetRemoteContract { chain_id: Vec<u8> },
}

/// The contract's whole persistent state.
pub struct Xerc721State {
    pub name: Vec<u8>,
    pub symbol: Vec<u8>,
    pub owner: Vec<u8>,
    pub remote_contract_mapping: AddrMap,
    pub tokens: TokenMap,
}

/// Sets up fresh state: the minter owns the collection.
pub fn instantiate(msg: &InstantiateMsg) -> (s: Xerc721State)
    ensures
        s.name@ == msg.name@,
        s.symbol@ == msg.symbol@,
        s.owner@ == msg.minter@,
        s.remote_contract_mapping@ == Map::<Seq<u8>, Seq<u8>>::empty(),
        s.tokens@ == Map::<u64, TokenInfoV>::empty(),
{
    Xerc721State {
        name: clone_bytes(&msg.name),
        symbol: clone_bytes(&msg.symbol),
        owner: clone_bytes(&msg.minter),
        remote_contract_mapping: AddrMap::new(),
        tokens: TokenMap::new(),
    }
}

/// The owner modifier.
pub fn only_owner(state: &Xerc721State, sender: &Vec<u8>) -> (r: Result<(), TransferError>)
    ensures
        r is Ok <==> sender@ == state.owner@,
        r is Err ==> r->Err_0 == TransferError::Auth(AuthError::NotOwner),
{
    if !bytes_eq(sender, &state.owner) {
        return Err(TransferError::Auth(AuthError::NotOwner));
    }
    Ok(())
}

/// Enrolls the remote contract trusted on a chain; only the owner may.
pub fn enroll_remote_contract(
    state: &mut Xerc721State,
    sender: &Vec<u8>,
    chain_id: &Vec<u8>,
    remote_address: &Vec<u8>,
) -> (r: Result<(), TransferError>)
    ensures
        final(state).owner@ == old(state).owner@,
        final(state).tokens@ == old(state).tokens@,
        match r {
            Ok(_) => sender@ == old(state).owner@ && final(state).remote_contract_mapping@ == old(state).remote_contract_mapping@.insert(chain_id@, remote_address@),
            Err(e) => sender@ != old(state).owner@ && e == TransferError::Auth(AuthError::NotOwner)
                && final(state).remote_contract_mapping@ == old(state).remote_contract_mapping@,
        },
{
    match only_owner(state, sender) {
        Ok(_) => {},
        Err(e) => {
            return Err(e);
        },
    }
    state.remote_contract_mapping.put(chain_id, remote_address);
    Ok(())
}

/// Mints a token to an owner; only the collection owner may.
pub fn mint(
    state: &mut Xerc721State,
    sender: &Vec<u8>,
    token_id: u64,
    to: &Vec<u8>,
    token_uri: &Vec<u8>,
) -> (r: Result<(), TransferError>)
    ensures
        final(state).owner@ == old(state).owner@,
        final(state).remote_contract_mapping@ == old(state).remote_contract_mapping@,
        match r {
            Ok(_) => sender@ == old(state).owner@ && final(state).tokens@ == old(state).tokens@.insert(token_id, TokenInfoV { owner: to@, token_uri: token_uri@ }),
            Err(e) => sender@ != old(state).owner@ && e == TransferError::Auth(AuthError::NotOwner)
                && final(state).tokens@ == old(state).tokens@,
        },
{
    match only_owner(state, sender) {
        Ok(_) => {},
        Err(e) => {
            return Err(e);
        },
    }
    state.tokens.put(token_id, to, token_uri);
    Ok(())
}

/// Burns a token and builds the outbound transfer: the token must exist and
/// belong to the sender, and a remote contract must be enrolled for the
/// destination chain.  On success the token is gone and the envelope
/// carries the wrapped transfer tuple.
pub fn transfer_crosschain(
    state: &mut Xerc721State,
    sender: &Vec<u8>,
    dst_chain_id: &Vec<u8>,
    token_id: u64,
    recipient: &Vec<u8>,
    request_metadata: &RequestMetaData,
) -> (r: Result<crate::handlers::OutboundRequest, TransferError>)
    requires
        request_metadata.asm_address@.len() + 50 <= usize::MAX,
        old(state).tokens@.contains_key(token_id) ==> old(state).tokens@[token_id].token_uri.len() + recipient@.len() + 1024 <= usize::MAX,
        old(state).remote_contract_mapping@.contains_key(dst_chain_id@) ==> old(state).remote_contract_mapping@[dst_chain_id@].len() + recipient@.len() + (if old(state).tokens@.contains_key(token_id) {
            old(state).tokens@[token_id].token_uri.len()
        } else {
            0
        }) + 1024 <= usize::MAX,
    ensures
        final(state).owner@ == old(state).owner@,
        final(state).remote_contract_mapping@ == old(state).remote_contract_mapping@,
        match r {
            Ok(req) => {
                &&& old(state).tokens@.contains_key(token_id)
                &&& old(state).tokens@[token_id].owner == sender@
                &&& old(state).remote_contract_mapping@.contains_key(dst_chain_id@)
                &&& final(state).tokens@ == old(state).tokens@.remove(token_id)
                &&& req@ == (crate::handlers::OutboundRequestV {
                    version: 1,
                    route_amount: 0,
                    route_recipient: Seq::empty(),
                    dest_chain_id: dst_chain_id@,
                    request_metadata: crate::metadata::spec_request_metadata(
                        request_metadata.dest_gas_limit,
                        request_metadata.dest_gas_price,
                        request_metadata.ack_gas_limit,
                        request_metadata.ack_gas_price,
                        request_metadata.relayer_fee,
                        request_metadata.ack_type,
                        request_metadata.is_read_call,
                        request_metadata.asm_address@,
                    ),
                    request_packet: spec_envelope(
                        old(state).remote_contract_mapping@[dst_chain_id@],
                        spec_encode_wrapped(
                            spec_transfer_toks(
                                token_id,
                                recipient@,
                                old(state).tokens@[token_id].token_uri,
                            ),
                        ),
                    ),
                })
            },
            Err(e) => {
                &&& final(state).tokens@ == old(state).tokens@
                &&& e == if !old(state).tokens@.contains_key(token_id) {
                    TransferError::TokenNotFound
                } else if old(state).tokens@[token_id].owner != sender@ {
                    TransferError::Auth(AuthError::NotOwner)
                } else {
                    TransferError::RemoteNotEnrolled
                }
                &&& !(old(state).tokens@.contains_key(token_id) && old(state).tokens@[token_id].owner == sender@ && old(state).remote_contract_mapping@.contains_key(dst_chain_id@))
            },
        },
{
    let info = match state.tokens.get(token_id) {
        Some(info) => info,
        None => {
            return Err(TransferError::TokenNotFound);
        },
    };
    if !bytes_eq(&info.owner, sender) {
        return Err(TransferError::Auth(AuthError::NotOwner));
    }
    let remote = match state.remote_contract_mapping.get(dst_chain_id) {
        Some(remote) => remote,
        None => {
            return Err(TransferError::RemoteNotEnrolled);
        },
    };
    state.tokens.remove(token_id);
    let params = TransferParams {
        nft_id: token_id,
        recipient: clone_bytes(recipient),
        token_uri: info.token_uri,
    };
    proof {
        lemma_transfer_toks_len(token_id, params.recipient@, params.token_uri@);
    }
    let encoded_payload = params.get_evm_encoding();
    let request_packet = encode_envelope(&remote, &encoded_payload);
    let metadata_bytes = request_metadata.get_abi_encoded_bytes();
    Ok(
        crate::handlers::OutboundRequest {
            version: 1,
            route_amount: 0,
            route_recipient: Vec::new(),
            dest_chain_id: clone_bytes(dst_chain_id),
            request_metadata: metadata_bytes,
            request_packet,
        },
    )
}

/// Whether an inbound transfer payload is accepted: the claimed sender must
/// be the enrolled remote contract (failing closed when none is enrolled),
/// the payload must decode as a wrapped transfer tuple, and the wire token
/// id must fit `u64`.
pub open spec fn spec_receive_ok(
    remote_map: Map<Seq<u8>, Seq<u8>>,
    sender: Seq<u8>,
    chain: Seq<u8>,
    payload: Seq<u8>,
) -> bool {
    &&& remote_map.contains_key(chain)
    &&& remote_map[chain] == sender
    &&& spec_decode_wrapped(transfer_schema(), payload) is Ok
    &&& ((spec_decode_wrapped(transfer_schema(), payload)->Ok_0)[0]->Uint_0 as nat)
        < 0x1_0000_0000_0000_0000
}

/// The error an inbound transfer is rejected with: provenance first, then
/// decoding, then the token-id narrowing.
pub open spec fn spec_receive_err(
    remote_map: Map<Seq<u8>, Seq<u8>>,
    sender: Seq<u8>,
    chain: Seq<u8>,
    payload: Seq<u8>,
) -> TransferError
    recommends
        !spec_receive_ok(remote_map, sender, chain, payload),
{
    if !(remote_map.contains_key(chain) && remote_map[chain] == sender) {
        TransferError::Auth(AuthError::UnauthorizedSender)
    } else if spec_decode_wrapped(transfer_schema(), payload) is Err {
        TransferError::Decode(spec_decode_wrapped(transfer_schema(), payload)->Err_0)
    } else {
        TransferError::Decode(DecodeError::NarrowingOverflow)
    }
}

/// Processes a relayed transfer: checks provenance against the enrolled
/// remote contract, decodes the wrapped tuple, mints the token to the
/// decoded recipient, and answers with the encoded source chain id as the
/// ack payload.  On an error nothing is written.
pub fn handle_sudo_request(
    state: &mut Xerc721State,
    request_sender: &Vec<u8>,
    src_chain_id: &Vec<u8>,
    request_identifier: u64,
    payload: &Vec<u8>,
) -> (r: Result<Vec<u8>, TransferError>)
    requires
        src_chain_id@.len() + 128 <= usize::MAX,
    ensures
        final(state).owner@ == old(state).owner@,
        final(state).remote_contract_mapping@ == old(state).remote_contract_mapping@,
        match r {
            Ok(ack) => {
                &&& spec_receive_ok(
                    old(state).remote_contract_mapping@,
                    request_sender@,
                    src_chain_id@,
                    payload@,
                )
                &&& {
                    let tv = spec_decode_wrapped(transfer_schema(), payload@)->Ok_0;
                    final(state).tokens@ == old(state).tokens@.insert(
                        (tv[0]->Uint_0) as u64,
                        TokenInfoV { owner: tv[1]->Str_0, token_uri: tv[2]->Str_0 },
                    )
                }
                &&& ack@ == spec_encode(seq![TokV::Str(src_chain_id@)])
            },
            Err(e) => {
                &&& !spec_receive_ok(
                    old(state).remote_contract_mapping@,
                    request_sender@,
                    src_chain_id@,
                    payload@,
                )
                &&& e == spec_receive_err(
                    old(state).remote_contract_mapping@,
                    request_sender@,
                    src_chain_id@,
                    payload@,
                )
                &&& final(state).tokens@ == old(state).tokens@
            },
        },
{
    let authorized = match state.remote_contract_mapping.get(src_chain_id) {
        Some(remote) => bytes_eq(&remote, request_sender),
        None => false,
    };
    if !authorized {
        return Err(TransferError::Auth(AuthError::UnauthorizedSender));
    }
    let schema = TransferParams::get_params_types();
    let toks = match decode_wrapped(&schema, payload) {
        Ok(t) => t,
        Err(e) => {
            return Err(TransferError::Decode(e));
        },
    };
    proof {
        let tv = toks_view(toks@);
        crate::codec::lemma_decode_ok_fields(
            transfer_schema(),
            payload@.skip(
                crate::codec::word_val(payload@.subrange(0, 32)) as int,
            ),
        );
        assert(tv[0] == toks@[0]@);
        assert(tv[1] == toks@[1]@);
        assert(tv[2] == toks@[2]@);
    }
    let params = match TransferParams::from_token_tuple(&toks) {
        Ok(p) => p,
        Err(e) => {
            return Err(TransferError::Decode(e));
        },
    };
    state.tokens.put(params.nft_id, &params.recipient, &params.token_uri);
    let mut ack_toks: Vec<Tok> = Vec::new();
    ack_toks.push(Tok::Str(clone_bytes(src_chain_id)));
    proof {
        let tv1 = seq![TokV::Str(src_chain_id@)];
        assert(toks_view(ack_toks@) =~= tv1);
        lemma_spec_encode_len(tv1);
        assert(crate::codec::tails_upto(tv1, 1) == crate::codec::tails_upto(tv1, 0)
            + crate::codec::tail_of(tv1[0]));
        assert(crate::codec::tails_upto(tv1, 0) == Seq::<u8>::empty());
        assert(crate::codec::tail_of(tv1[0]).len() == 32 + src_chain_id@.len()
            + crate::codec::pad_len(src_chain_id@.len()));
        assert(crate::codec::pad_len(src_chain_id@.len()) < 32);
    }
    Ok(encode(&ack_toks))
}

/// The enrolled remote contract for a chain, if any.
pub fn get_remote_contract(state: &Xerc721State, chain_id: &Vec<u8>) -> (r: Option<Vec<u8>>)
    ensures
        match r {
            Some(v) => state.remote_contract_mapping@.contains_key(chain_id@) && v@
                == state.remote_contract_mapping@[chain_id@],
            None => !state.remote_contract_mapping@.contains_key(chain_id@),
        },
{
    state.remote_contract_mapping.get(chain_id)
}

/// The owner and metadata of a token, if it exists.
pub fn get_nft_info(state: &Xerc721State, token_id: u64) -> (r: Option<TokenInfo>)
    ensures
        match r {
            Some(info) => state.tokens@.contains_key(token_id) && info@ == state.tokens@[token_id],
            None => !state.tokens@.contains_key(token_id),
        },
{
    state.tokens.get(token_id)
}

/// The owner of a token, if it exists.
pub fn get_nft_owner_of(state: &Xerc721State, token_id: u64) -> (r: Option<Vec<u8>>)
    ensures
        match r {
            Some(owner) => state.tokens@.contains_key(token_id) && owner@
                == state.tokens@[token_id].owner,
            None => !state.tokens@.contains_key(token_id),
        },
{
    match state.tokens.get(token_id) {
        Some(info) => Some(info.owner),
        None => None,
    }
}

pub fn get_owner(state: &Xerc721State) -> (r: Vec<u8>)
    ensures
        r@ == state.owner@,
{
    clone_bytes(&state.owner)
}

/// The gateway's callbacks.
pub enum SudoMsg {
    HandleIReceive {
        request_sender: Vec<u8>,
        src_chain_id: Vec<u8>,
        request_identifier: u64,
        payload: Vec<u8>,
    },
    HandleIAck { request_identifier: u64, exec_flag: bool, exec_data: Vec<u8>, refund_amount: u128 },
}

/// Dispatches a gateway callback: a receive mints and answers with the ack
/// payload; an ack carries nothing this contract stores.
pub fn handle_sudo(state: &mut Xerc721State, msg: &SudoMsg) -> (r: Result<
    Option<Vec<u8>>,
    TransferError,
>)
    requires
        msg matches SudoMsg::HandleIReceive { src_chain_id, .. } ==> src_chain_id@.len() + 128
            <= usize::MAX,
    ensures
        final(state).owner@ == old(state).owner@,
        final(state).remote_contract_mapping@ == old(state).remote_contract_mapping@,
        msg is HandleIAck ==> (r matches Ok(a) && a is None && final(state).tokens@ == old(state).tokens@),
        msg matches SudoMsg::HandleIReceive { request_sender, src_chain_id, .. } ==> match r {
            Ok(a) => {
                &&& spec_receive_ok(
                    old(state).remote_contract_mapping@,
                    request_sender@,
                    src_chain_id@,
                    msg->HandleIReceive_payload@,
                )
                &&& {
                    let tv = spec_decode_wrapped(
                        transfer_schema(),
                        msg->HandleIReceive_payload@,
                    )->Ok_0;
                    final(state).tokens@ == old(state).tokens@.insert(
                        (tv[0]->Uint_0) as u64,
                        TokenInfoV { owner: tv[1]->Str_0, token_uri: tv[2]->Str_0 },
                    )
                }
                &&& (a matches Some(ack) && ack@ == spec_encode(seq![TokV::Str(src_chain_id@)]))
            },
            Err(e) => !spec_receive_ok(
                old(state).remote_contract_mapping@,
                request_sender@,
                src_chain_id@,
                msg->HandleIReceive_payload@,
            ) && e == spec_receive_err(
                old(state).remote_contract_mapping@,
                request_sender@,
                src_chain_id@,
                msg->HandleIReceive_payload@,
            ) && final(state).tokens@ == old(state).tokens@,
        },
{
    match msg {
        SudoMsg::HandleIReceive { request_sender, src_chain_id, request_identifier, payload } => {
            match handle_sudo_request(
                state,
                request_sender,
                src_chain_id,
                *request_identifier,
                payload,
            ) {
                Ok(ack) => Ok(Some(ack)),
                Err(e) => Err(e),
            }
        },
        SudoMsg::HandleIAck { .. } => Ok(None),
    }
}

/// What an execute message leaves behind.
pub enum ExecuteResponse {
    Configured,
    Transfer(crate::handlers::OutboundRequest),
}

/// Dispatches an execute message.
pub fn handle_execute(state: &mut Xerc721State, sender: &Vec<u8>, msg: &ExecuteMsg) -> (r: Result<
    ExecuteResponse,
    TransferError,
>)
    requires
        msg matches ExecuteMsg::TransferCrossChain { dst_chain_id, token_id, recipient, request_metadata } ==> {
            &&& request_metadata.asm_address@.len() + 50 <= usize::MAX
            &&& (old(state).tokens@.contains_key(*token_id) ==> old(state).tokens@[*token_id].token_uri.len() + recipient@.len() + 1024 <= usize::MAX)
            &&& (old(state).remote_contract_mapping@.contains_key(dst_chain_id@) ==> old(state).remote_contract_mapping@[dst_chain_id@].len() + recipient@.len() + (if old(state).tokens@.contains_key(*token_id) {
                old(state).tokens@[*token_id].token_uri.len()
            } else {
                0
            }) + 1024 <= usize::MAX)
        },
    ensures
        final(state).owner@ == old(state).owner@,
        msg matches ExecuteMsg::EnrollRemoteContract { chain_id, remote_address } ==> final(state).tokens@ == old(state).tokens@ && match r {
            Ok(a) => a is Configured && sender@ == old(state).owner@ && final(state).remote_contract_mapping@ == old(state).remote_contract_mapping@.insert(
                chain_id@,
                remote_address@,
            ),
            Err(e) => sender@ != old(state).owner@ && e == TransferError::Auth(AuthError::NotOwner)
                && final(state).remote_contract_mapping@ == old(state).remote_contract_mapping@,
        },
        msg matches ExecuteMsg::TransferCrossChain { dst_chain_id, token_id, recipient, request_metadata } ==> final(state).remote_contract_mapping@ == old(state).remote_contract_mapping@ && match r {
            Ok(a) => {
                &&& old(state).tokens@.contains_key(*token_id)
                &&& old(state).tokens@[*token_id].owner == sender@
                &&& old(state).remote_contract_mapping@.contains_key(dst_chain_id@)
                &&& final(state).tokens@ == old(state).tokens@.remove(*token_id)
                &&& (a matches ExecuteResponse::Transfer(req) && req@
                    == (crate::handlers::OutboundRequestV {
                    version: 1,
                    route_amount: 0,
                    route_recipient: Seq::empty(),
                    dest_chain_id: dst_chain_id@,
                    request_metadata: crate::metadata::spec_request_metadata(
                        request_metadata.dest_gas_limit,
                        request_metadata.dest_gas_price,
                        request_metadata.ack_gas_limit,
                        request_metadata.ack_gas_price,
                        request_metadata.relayer_fee,
                        request_metadata.ack_type,
                        request_metadata.is_read_call,
                        request_metadata.asm_address@,
                    ),
                    request_packet: spec_envelope(
                        old(state).remote_contract_mapping@[dst_chain_id@],
                        spec_encode_wrapped(
                            spec_transfer_toks(
                                *token_id,
                                recipient@,
                                old(state).tokens@[*token_id].token_uri,
                            ),
                        ),
                    ),
                }))
            },
            Err(e) => {
                &&& final(state).tokens@ == old(state).tokens@
                &&& e == if !old(state).tokens@.contains_key(*token_id) {
                    TransferError::TokenNotFound
                } else if old(state).tokens@[*token_id].owner != sender@ {
                    TransferError::Auth(AuthError::NotOwner)
                } else {
                    TransferError::RemoteNotEnrolled
                }
                &&& !(old(state).tokens@.contains_key(*token_id) && old(state).tokens@[*token_id].owner == sender@ && old(state).remote_contract_mapping@.contains_key(dst_chain_id@))
            },
        },
{
    match msg {
        ExecuteMsg::EnrollRemoteContract { chain_id, remote_address } => {
            match enroll_remote_contract(state, sender, chain_id, remote_address) {
                Ok(_) => Ok(ExecuteResponse::Configured),
                Err(e) => Err(e),
            }
        },
        ExecuteMsg::TransferCrossChain { dst_chain_id, token_id, recipient, request_metadata } => {
            match transfer_crosschain(
                state,
                sender,
                dst_chain_id,
                *token_id,
                recipient,
                request_metadata,
            ) {
                Ok(req) => Ok(ExecuteResponse::Transfer(req)),
                Err(e) => Err(e),
            }
        },
    }
}

/// The contract name the version record is stored under.
pub open spec fn spec_contract_name() -> Seq<u8> {
    seq![120u8, 101u8, 114u8, 99u8, 55u8, 50u8, 49u8]
}

/// "xerc721" as bytes.
pub fn contract_name() -> (r: Vec<u8>)
    ensures
        r@ == spec_contract_name(),
{
    let r = vec![120u8, 101u8, 114u8, 99u8, 55u8, 50u8, 49u8];
    proof {
        assert(r@ =~= spec_contract_name());
    }
    r
}

/// The stored contract version string.
pub open spec fn spec_contract_version() -> Seq<u8> {
    seq![49u8, 46u8, 48u8, 46u8, 48u8]
}

/// "1.0.0" as bytes.
pub fn contract_version() -> (r: Vec<u8>)
    ensures
        r@ == spec_contract_version(),
{
    let r = vec![49u8, 46u8, 48u8, 46u8, 48u8];
    proof {
        assert(r@ =~= spec_contract_version());
    }
    r
}

/// What a query answers with.
pub enum QueryAnswer {
    Version { name: Vec<u8>, version: Vec<u8> },
    Owner(Vec<u8>),
    RemoteContract(Option<Vec<u8>>),
}

/// Dispatches a query.
pub fn handle_query(state: &Xerc721State, msg: &QueryMsg) -> (r: QueryAnswer)
    ensures
        msg is GetContractVersion ==> (r matches QueryAnswer::Version { name, version } && name@
            == spec_contract_name() && version@ == spec_contract_version()),
        msg is GetOwner ==> (r matches QueryAnswer::Owner(o) && o@ == state.owner@),
        msg matches QueryMsg::GetRemoteContract { chain_id } ==> (
        r matches QueryAnswer::RemoteContract(o) && (match o {
            Some(v) => state.remote_contract_mapping@.contains_key(chain_id@) && v@
                == state.remote_contract_mapping@[chain_id@],
            None => !state.remote_contract_mapping@.contains_key(chain_id@),
        })),
{
    match msg {
        QueryMsg::GetContractVersion => QueryAnswer::Version {
            name: contract_name(),
            version: contract_version(),
        },
        QueryMsg::GetOwner => QueryAnswer::Owner(get_owner(state)),
        QueryMsg::GetRemoteContract { chain_id } => QueryAnswer::RemoteContract(
            get_remote_contract(state, chain_id),
        ),
    }
}

} // verus!
