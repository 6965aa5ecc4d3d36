//! The cross-chain multi-token contract: batches of token ids and amounts
//! burn on the source chain and mint again on the destination, travelling
//! as an ABI tuple `(token_ids[], token_amounts[], data, recipient)`
//! wrapped in the usual envelope.  The token balances themselves live in a
//! separate base token contract, which this handler drives through mint and
//! burn messages.

use vstd::prelude::*;
use crate::codec::{
    decode_wrapped, encode, encode_wrapped, spec_decode_wrapped, spec_encode, spec_encode_wrapped,
    toks_view, Tok, TokV, Ty, DecodeError,
};
use crate::errors::{AuthError, TransferError, ValidationError};
use crate::handlers::{encode_envelope, lemma_spec_encode_len, spec_envelope};
use crate::metadata::RequestMetaData;
use crate::store::{bytes_eq, clone_bytes, AddrMap};

verus! {

/// The wire schema of one batch transfer: token ids, amounts, data,
/// recipient.
pub open spec fn batch_schema() -> Seq<Ty> {
    seq![Ty::U256Arr, Ty::U256Arr, Ty::Bytes, Ty::Bytes]
}

/// The fields of one cross-chain batch transfer.
#[derive(Debug)]
pub struct TransferParams {
    pub nft_ids: Vec<u128>,
    pub nft_amounts: Vec<u128>,
    pub nft_data: Vec<u8>,
    pub recipient: Vec<u8>,
}

/// The token tuple of a batch transfer.
pub open spec fn spec_batch_toks(
    ids: Seq<u128>,
    amounts: Seq<u128>,
    data: Seq<u8>,
    recipient: Seq<u8>,
) -> Seq<TokV> {
    seq![TokV::UintArr(ids), TokV::UintArr(amounts), TokV::Bytes(data), TokV::Bytes(recipient)]
}

/// The length of the batch tuple encoding.
proof fn lemma_batch_toks_len(ids: Seq<u128>, amounts: Seq<u128>, data: Seq<u8>, recipient: Seq<u8>)
    ensures
        spec_encode(spec_batch_toks(ids, amounts, data, recipient)).len() == 256 + 32 * ids.len()
            + 32 * amounts.len() + data.len() + crate::codec::pad_len(data.len())
            + recipient.len() + crate::codec::pad_len(recipient.len()),
        crate::codec::pad_len(data.len()) < 32,
        crate::codec::pad_len(recipient.len()) < 32,
{
    let tv = spec_batch_toks(ids, amounts, data, recipient);
    lemma_spec_encode_len(tv);
    assert(crate::codec::tails_upto(tv, 4) == crate::codec::tails_upto(tv, 3)
        + crate::codec::tail_of(tv[3]));
    assert(crate::codec::tails_upto(tv, 3) == crate::codec::tails_upto(tv, 2)
        + crate::codec::tail_of(tv[2]));
    assert(crate::codec::tails_upto(tv, 2) == crate::codec::tails_upto(tv, 1)
        + crate::codec::tail_of(tv[1]));
    assert(crate::codec::tails_upto(tv, 1) == crate::codec::tails_upto(tv, 0)
        + crate::codec::tail_of(tv[0]));
    assert(crate::codec::tails_upto(tv, 0) == Seq::<u8>::empty());
    crate::codec::lemma_words_of_len(ids);
    crate::codec::lemma_words_of_len(amounts);
    assert(crate::codec::tail_of(tv[0]).len() == 32 + 32 * ids.len());
    assert(crate::codec::tail_of(tv[1]).len() == 32 + 32 * amounts.len());
    assert(crate::codec::tail_of(tv[2]).len() == 32 + data.len() + crate::codec::pad_len(
        data.len(),
    ));
    assert(crate::codec::tail_of(tv[3]).len() == 32 + recipient.len() + crate::codec::pad_len(
        recipient.len(),
    ));
}

/// Copies an integer vector.
fn clone_u128s(s: &Vec<u128>) -> (r: Vec<u128>)
    ensures
        r@ == s@,
{
    let n = s.len();
    let mut r: Vec<u128> = Vec::new();
    let mut i: usize = 0;
    while i < n
        invariant
            i <= n,
            n == s@.len(),
            r@ == s@.take(i as int),
        decreases n - i,
    {
        r.push(s[i]);
        assert(r@ =~= s@.take(i + 1));
        i += 1;
    }
    assert(r@ =~= s@);
    r
}

/// One lowercase hex digit.
pub open spec fn hex_digit(n: int) -> u8
    recommends
        0 <= n < 16,
{
    if n < 10 {
        (48 + n) as u8
    } else {
        (87 + n) as u8
    }
}

/// The "0x"-prefixed lowercase hex spelling of a byte string: the textual
/// address form the recipient is minted under.
pub open spec fn hex_address(s: Seq<u8>) -> Seq<u8> {
    seq![48u8, 120u8] + Seq::new(
        2 * s.len(),
        |i: int|
            if i % 2 == 0 {
                hex_digit(s[i / 2] as int / 16)
            } else {
                hex_digit(s[i / 2] as int % 16)
            },
    )
}

/// Spells a byte string as its "0x"-prefixed lowercase hex address.
pub fn to_hex_address(s: &Vec<u8>) -> (r: Vec<u8>)
    requires
        2 * s@.len() + 2 <= usize::MAX,
    ensures
        r@ == hex_address(s@),
{
    let n = s.len();
    let mut r: Vec<u8> = Vec::new();
    r.push(48u8);
    r.push(120u8);
    let mut i: usize = 0;
    while i < n
        invariant
            i <= n,
            n == s@.len(),
            2 * n + 2 <= usize::MAX,
            r@.len() == 2 + 2 * i,
            forall|j: int| 0 <= j < r@.len() ==> r@[j] == hex_address(s@)[j],
        decreases n - i,
    {
        let b = s[i];
        let hi = b / 16;
        let lo = b % 16;
        if hi < 10 {
            r.push(48 + hi);
        } else {
            r.push(87 + hi);
        }
        if lo < 10 {
            r.push(48 + lo);
        } else {
            r.push(87 + lo);
        }
        i += 1;
    }
    proof {
        assert(r@ =~= hex_address(s@));
    }
    r
}

impl TransferParams {
    /// The wrapped-tuple encoding of the batch transfer; the paired arrays
    /// must already be of equal length (the outbound builder checks that
    /// before encoding).
    pub fn get_evm_encoding(&self) -> (r: Vec<u8>)
        requires
            self.nft_ids@.len() == self.nft_amounts@.len(),
            64 * self.nft_ids@.len() + self.nft_data@.len() + self.recipient@.len() + 1024
                <= usize::MAX,
        ensures
            r@ == spec_encode_wrapped(
                spec_batch_toks(
                    self.nft_ids@,
                    self.nft_amounts@,
                    self.nft_data@,
                    self.recipient@,
                ),
            ),
    {
        let ghost tv = spec_batch_toks(
            self.nft_ids@,
            self.nft_amounts@,
            self.nft_data@,
            self.recipient@,
        );
        let mut toks: Vec<Tok> = Vec::new();
        toks.push(Tok::UintArr(clone_u128s(&self.nft_ids)));
        toks.push(Tok::UintArr(clone_u128s(&self.nft_amounts)));
        toks.push(Tok::Bytes(clone_bytes(&self.nft_data)));
        toks.push(Tok::Bytes(clone_bytes(&self.recipient)));
        proof {
            assert(toks_view(toks@) =~= tv);
            lemma_batch_toks_len(
                self.nft_ids@,
                self.nft_amounts@,
                self.nft_data@,
                self.recipient@,
            );
        }
        encode_wrapped(&toks)
    }

    /// The schema the batch transfer decodes against.
    pub fn get_params_types() -> (r: Vec<Ty>)
        ensures
            r@ == batch_schema(),
    {
        let mut r: Vec<Ty> = Vec::new();
        r.push(Ty::U256Arr);
        r.push(Ty::U256Arr);
        r.push(Ty::Bytes);
        r.push(Ty::Bytes);
        proof {
            assert(r@ =~= batch_schema());
        }
        r
    }

    /// Unpacks a decoded token tuple into transfer fields; the recipient
    /// bytes are spelled out as their "0x"-prefixed lowercase hex address.
    pub fn from_token_tuple(tuple: &Vec<Tok>) -> (r: Self)
        requires
            tuple@.len() == 4,
            toks_view(tuple@)[0] is UintArr,
            toks_view(tuple@)[1] is UintArr,
            toks_view(tuple@)[2] is Bytes,
            toks_view(tuple@)[3] is Bytes,
            2 * toks_view(tuple@)[3]->Bytes_0.len() + 2 <= usize::MAX,
        ensures
            r.nft_ids@ == toks_view(tuple@)[0]->UintArr_0,
            r.nft_amounts@ == toks_view(tuple@)[1]->UintArr_0,
            r.nft_data@ == toks_view(tuple@)[2]->Bytes_0,
            r.recipient@ == hex_address(toks_view(tuple@)[3]->Bytes_0),
    {
        proof {
            assert(toks_view(tuple@)[0] == tuple@[0]@);
            assert(toks_view(tuple@)[1] == tuple@[1]@);
            assert(toks_view(tuple@)[2] == tuple@[2]@);
            assert(toks_view(tuple@)[3] == tuple@[3]@);
        }
        let nft_ids: Vec<u128> = match &tuple[0] {
            Tok::UintArr(vs) => clone_u128s(vs),
            _ => {
                proof {
                    assert(false);
                }
                Vec::new()
            },
        };
        let nft_amounts: Vec<u128> = match &tuple[1] {
            Tok::UintArr(vs) => clone_u128s(vs),
            _ => {
                proof {
                    assert(false);
                }
                Vec::new()
            },
        };
        let nft_data: Vec<u8> = match &tuple[2] {
            Tok::Bytes(s) => clone_bytes(s),
            _ => {
                proof {
                    assert(false);
                }
                Vec::new()
            },
        };
        let recipient: Vec<u8> = match &tuple[3] {
            Tok::Bytes(s) => to_hex_address(s),
            _ => {
                proof {
                    assert(false);
                }
                Vec::new()
            },
        };
        TransferParams { nft_ids, nft_amounts, nft_data, recipient }
    }
}

/// A message this handler sends to the base token contract.
#[derive(Debug)]
pub enum Cw1155Action {
    Mint { to: Vec<u8>, token_id: u128, value: u128, data: Vec<u8> },
    BatchMint { to: Vec<u8>, batch: Vec<(u128, u128)>, data: Vec<u8> },
    BatchBurn { from: Vec<u8>, batch: Vec<(u128, u128)> },
}

/// Pairs token ids with amounts.
fn zip_batch(ids: &Vec<u128>, amounts: &Vec<u128>) -> (r: Vec<(u128, u128)>)
    requires
        ids@.len() == amounts@.len(),
    ensures
        r@.len() == ids@.len(),
        forall|j: int| 0 <= j < r@.len() ==> r@[j] == (ids@[j], amounts@[j]),
{
    let n = ids.len();
    let mut r: Vec<(u128, u128)> = Vec::new();
    let mut i: usize = 0;
    while i < n
        invariant
            i <= n,
            n == ids@.len() == amounts@.len(),
            r@.len() == i,
            forall|j: int| 0 <= j < i ==> r@[j] == (ids@[j], amounts@[j]),
        decreases n - i,
    {
        r.push((ids[i], amounts[i]));
        i += 1;
    }
    r
}

pub struct InstantiateMsg {
    pub minter: Vec<u8>,
    pub xerc1155_codeid: u64,
}

pub struct MigrateMsg {}

/// The execute entry point's message family.
pub enum ExecuteMsg {
    EnrollRemoteContract { chain_id: Vec<u8>, remote_address: Vec<u8> },
    SetCw1155ContractAddress { address: Vec<u8> },
    TransferCrossChain {
        dst_chain_id: Vec<u8>,
        token_ids: Vec<u128>,
        token_amounts: Vec<u128>,
        token_data: Vec<u8>,
        recipient: Vec<u8>,
        request_metadata: RequestMetaData,
    },
    BatchMint { to: Vec<u8>, batch: Vec<(u128, u128)>, msg: Vec<u8> },
    Mint { to: Vec<u8>, token_id: u128, amount: u128, msg: Vec<u8> },
}

/// The query entry point's message family.
pub enum QueryMsg {
    GetContractVersion,
    GetOwner,
    GetRemoteContract { chain_id: Vec<u8> },
    GetCw1155Address,
}

/// The contract's whole persistent state; the token balances live in the
/// base token contract at `cw1155_contract_address`.
pub struct Xerc1155State {
    pub owner: Vec<u8>,
    pub cw1155_contract_address: Vec<u8>,
    pub remote_contract_mapping: AddrMap,
}

/// Sets up fresh state: the minter owns the handler.
pub fn instantiate(msg: &InstantiateMsg) -> (s: Xerc1155State)
    ensures
        s.owner@ == msg.minter@,
        s.cw1155_contract_address@ == Seq::<u8>::empty(),
        s.remote_contract_mapping@ == Map::<Seq<u8>, Seq<u8>>::empty(),
{
    Xerc1155State {
        owner: clone_bytes(&msg.minter),
        cw1155_contract_address: Vec::new(),
        remote_contract_mapping: AddrMap::new(),
    }
}

/// The owner modifier.
pub fn only_owner(state: &Xerc1155State, sender: &Vec<u8>) -> (r: Result<(), TransferError>)
    ensures
        r is Ok <==> sender@ == state.owner@,
        r is Err ==> r->Err_0 == TransferError::Auth(AuthError::NotOwner),
{
    if !bytes_eq(sender, &state.owner) {
        return Err(TransferError::Auth(AuthError::NotOwner));
    }
    Ok(())
}

/// Enrolls the remote contract trusted on a chain; only the owner may.
pub fn enroll_remote_contract(
    state: &mut Xerc1155State,
    sender: &Vec<u8>,
    chain_id: &Vec<u8>,
    remote_address: &Vec<u8>,
) -> (r: Result<(), TransferError>)
    ensures
        final(state).owner@ == old(state).owner@,
        final(state).cw1155_contract_address@ == old(state).cw1155_contract_address@,
        match r {
            Ok(_) => sender@ == old(state).owner@ && final(state).remote_contract_mapping@ == old(state).remote_contract_mapping@.insert(chain_id@, remote_address@),
            Err(e) => sender@ != old(state).owner@ && e == TransferError::Auth(AuthError::NotOwner)
                && final(state).remote_contract_mapping@ == old(state).remote_contract_mapping@,
        },
{
    match only_owner(state, sender) {
        Ok(_) => {},
        Err(e) => {
            return Err(e);
        },
    }
    state.remote_contract_mapping.put(chain_id, remote_address);
    Ok(())
}

/// Points the handler at the base token contract; only the owner may.
pub fn set_cw1155_contract(state: &mut Xerc1155State, sender: &Vec<u8>, address: &Vec<u8>) -> (r:
    Result<(), TransferError>)
    ensures
        final(state).owner@ == old(state).owner@,
        final(state).remote_contract_mapping@ == old(state).remote_contract_mapping@,
        match r {
            Ok(_) => sender@ == old(state).owner@ && final(state).cw1155_contract_address@
                == address@,
            Err(e) => sender@ != old(state).owner@ && e == TransferError::Auth(AuthError::NotOwner)
                && final(state).cw1155_contract_address@ == old(state).cw1155_contract_address@,
        },
{
    match only_owner(state, sender) {
        Ok(_) => {},
        Err(e) => {
            return Err(e);
        },
    }
    state.cw1155_contract_address = clone_bytes(address);
    Ok(())
}

/// Mints one token through the base token contract; only the owner may.
pub fn mint(
    state: &Xerc1155State,
    sender: &Vec<u8>,
    to: &Vec<u8>,
    token_id: u128,
    amount: u128,
    msg: &Vec<u8>,
) -> (r: Result<Cw1155Action, TransferError>)
    ensures
        match r {
            Ok(a) => sender@ == state.owner@ && (a matches Cw1155Action::Mint {
                to: t,
                token_id: id,
                value,
                data,
            } && t@ == to@ && id == token_id && value == amount && data@ == msg@),
            Err(e) => sender@ != state.owner@ && e == TransferError::Auth(AuthError::NotOwner),
        },
{
    match only_owner(state, sender) {
        Ok(_) => {},
        Err(e) => {
            return Err(e);
        },
    }
    Ok(
        Cw1155Action::Mint {
            to: clone_bytes(to),
            token_id,
            value: amount,
            data: clone_bytes(msg),
        },
    )
}

/// Mints a batch through the base token contract; only the owner may.
pub fn batch_mint(
    state: &Xerc1155State,
    sender: &Vec<u8>,
    to: &Vec<u8>,
    batch: &Vec<(u128, u128)>,
    msg: &Vec<u8>,
) -> (r: Result<Cw1155Action, TransferError>)
    ensures
        match r {
            Ok(a) => sender@ == state.owner@ && (a matches Cw1155Action::BatchMint {
                to: t,
                batch: b,
                data,
            } && t@ == to@ && b@ == batch@ && data@ == msg@),
            Err(e) => sender@ != state.owner@ && e == TransferError::Auth(AuthError::NotOwner),
        },
{
    match only_owner(state, sender) {
        Ok(_) => {},
        Err(e) => {
            return Err(e);
        },
    }
    let n = batch.len();
    let mut copy: Vec<(u128, u128)> = Vec::new();
    let mut i: usize = 0;
    while i < n
        invariant
            i <= n,
            n == batch@.len(),
            copy@ == batch@.take(i as int),
        decreases n - i,
    {
        copy.push((batch[i].0, batch[i].1));
        proof {
            assert(batch@[i as int] == (batch@[i as int].0, batch@[i as int].1));
            assert(copy@ =~= batch@.take(i + 1));
        }
        i += 1;
    }
    assert(copy@ =~= batch@);
    Ok(Cw1155Action::BatchMint { to: clone_bytes(to), batch: copy, data: clone_bytes(msg) })
}

/// Burns the batch at home and builds the outbound transfer.  The paired
/// arrays must be of equal length — else
/// `ValidationError::ArityMismatch`, before any encoding is attempted — and
/// a remote contract must be enrolled for the destination chain.
pub fn transfer_crosschain(
    state: &Xerc1155State,
    sender: &Vec<u8>,
    dst_chain_id: &Vec<u8>,
    token_ids: &Vec<u128>,
    token_amounts: &Vec<u128>,
    token_data: &Vec<u8>,
    recipient: &Vec<u8>,
    request_metadata: &RequestMetaData,
) -> (r: Result<(Cw1155Action, crate::handlers::OutboundRequest), TransferError>)
    requires
        request_metadata.asm_address@.len() + 50 <= usize::MAX,
        64 * token_ids@.len() + token_data@.len() + recipient@.len() + 1024 <= usize::MAX,
        state.remote_contract_mapping@.contains_key(dst_chain_id@) ==> 64 * token_ids@.len()
            + token_data@.len() + recipient@.len()
            + state.remote_contract_mapping@[dst_chain_id@].len() + 2048 <= usize::MAX,
    ensures
        match r {
            Ok((burn, req)) => {
                &&& token_ids@.len() == token_amounts@.len()
                &&& state.remote_contract_mapping@.contains_key(dst_chain_id@)
                &&& (burn matches Cw1155Action::BatchBurn { from, batch } && from@ == sender@
                    && batch@.len() == token_ids@.len() && (forall|j: int|
                    0 <= j < batch@.len() ==> batch@[j] == (token_ids@[j], token_amounts@[j])))
                &&& req@ == (crate::handlers::OutboundRequestV {
                    version: 1,
                    route_amount: 0,
                    route_recipient: Seq::empty(),
                    dest_chain_id: dst_chain_id@,
                    request_metadata: crate::metadata::spec_request_metadata(
                        request_metadata.dest_gas_limit,
                        request_metadata.dest_gas_price,
                        request_metadata.ack_gas_limit,
                        request_metadata.ack_gas_price,
                        request_metadata.relayer_fee,
                        request_metadata.ack_type,
                        request_metadata.is_read_call,
                        request_metadata.asm_address@,
                    ),
                    request_packet: spec_envelope(
                        state.remote_contract_mapping@[dst_chain_id@],
                        spec_encode_wrapped(
                            spec_batch_toks(token_ids@, token_amounts@, token_data@, recipient@),
                        ),
                    ),
                })
            },
            Err(e) => {
                &&& e == if token_ids@.len() != token_amounts@.len() {
                    TransferError::Validation(ValidationError::ArityMismatch)
                } else {
                    TransferError::RemoteNotEnrolled
                }
                &&& !(token_ids@.len() == token_amounts@.len()
                    && state.remote_contract_mapping@.contains_key(dst_chain_id@))
            },
        },
{
    if token_ids.len() != token_amounts.len() {
        return Err(TransferError::Validation(ValidationError::ArityMismatch));
    }
    let remote = match state.remote_contract_mapping.get(dst_chain_id) {
        Some(remote) => remote,
        None => {
            return Err(TransferError::RemoteNotEnrolled);
        },
    };
    let batch = zip_batch(token_ids, token_amounts);
    let burn = Cw1155Action::BatchBurn { from: clone_bytes(sender), batch };
    let params = TransferParams {
        nft_ids: clone_u128s(token_ids),
        nft_amounts: clone_u128s(token_amounts),
        nft_data: clone_bytes(token_data),
        recipient: clone_bytes(recipient),
    };
    proof {
        lemma_batch_toks_len(token_ids@, token_amounts@, token_data@, recipient@);
    }
    let encoded_payload = params.get_evm_encoding();
    let request_packet = encode_envelope(&remote, &encoded_payload);
    let metadata_bytes = request_metadata.get_abi_encoded_bytes();
    Ok(
        (
            burn,
            crate::handlers::OutboundRequest {
                version: 1,
                route_amount: 0,
                route_recipient: Vec::new(),
                dest_chain_id: clone_bytes(dst_chain_id),
                request_metadata: metadata_bytes,
                request_packet,
            },
        ),
    )
}

/// Whether an inbound batch payload is accepted: the claimed sender must be
/// the enrolled remote contract (failing closed when none is enrolled), and
/// the payload must decode as a wrapped batch tuple whose paired arrays
/// have equal lengths.
pub open spec fn spec_receive_ok(
    remote_map: Map<Seq<u8>, Seq<u8>>,
    sender: Seq<u8>,
    chain: Seq<u8>,
    payload: Seq<u8>,
) -> bool {
    &&& remote_map.contains_key(chain)
    &&& remote_map[chain] == sender
    &&& spec_decode_wrapped(batch_schema(), payload) is Ok
    &&& {
        let tv = spec_decode_wrapped(batch_schema(), payload)->Ok_0;
        tv[0]->UintArr_0.len() == tv[1]->UintArr_0.len()
    }
}

/// The error an inbound batch is rejected with: provenance first, then
/// decoding, then the arity of the paired arrays.
pub open spec fn spec_receive_err(
    remote_map: Map<Seq<u8>, Seq<u8>>,
    sender: Seq<u8>,
    chain: Seq<u8>,
    payload: Seq<u8>,
) -> TransferError
    recommends
        !spec_receive_ok(remote_map, sender, chain, payload),
{
    if !(remote_map.contains_key(chain) && remote_map[chain] == sender) {
        TransferError::Auth(AuthError::UnauthorizedSender)
    } else if spec_decode_wrapped(batch_schema(), payload) is Err {
        TransferError::Decode(spec_decode_wrapped(batch_schema(), payload)->Err_0)
    } else {
        TransferError::Validation(ValidationError::ArityMismatch)
    }
}

/// Processes a relayed batch transfer: checks provenance, decodes the
/// wrapped tuple, asks the base token contract to mint the batch to the
/// decoded recipient, and answers with the encoded source chain id as the
/// ack payload.
pub fn handle_sudo_request(
    state: &mut Xerc1155State,
    request_sender: &Vec<u8>,
    src_chain_id: &Vec<u8>,
    request_identifier: u64,
    payload: &Vec<u8>,
) -> (r: Result<(Cw1155Action, Vec<u8>), TransferError>)
    requires
        src_chain_id@.len() + 128 <= usize::MAX,
        2 * payload@.len() + 2 <= usize::MAX,
    ensures
        *final(state) == *old(state),
        match r {
            Ok((mint_action, ack)) => {
                &&& spec_receive_ok(
                    old(state).remote_contract_mapping@,
                    request_sender@,
                    src_chain_id@,
                    payload@,
                )
                &&& {
                    let tv = spec_decode_wrapped(batch_schema(), payload@)->Ok_0;
                    mint_action matches Cw1155Action::BatchMint { to, batch, data } && to@
                        == hex_address(tv[3]->Bytes_0) && data@ == tv[2]->Bytes_0 && batch@.len()
                        == tv[0]->UintArr_0.len() && tv[0]->UintArr_0.len()
                        == tv[1]->UintArr_0.len() && (forall|j: int|
                        0 <= j < batch@.len() ==> batch@[j] == (
                        tv[0]->UintArr_0[j],
                        tv[1]->UintArr_0[j],
                    ))
                }
                &&& ack@ == spec_encode(seq![TokV::Str(src_chain_id@)])
            },
            Err(e) => !spec_receive_ok(
                old(state).remote_contract_mapping@,
                request_sender@,
                src_chain_id@,
                payload@,
            ) && e == spec_receive_err(
                old(state).remote_contract_mapping@,
                request_sender@,
                src_chain_id@,
                payload@,
            ),
        },
{
    let authorized = match state.remote_contract_mapping.get(src_chain_id) {
        Some(remote) => bytes_eq(&remote, request_sender),
        None => false,
    };
    if !authorized {
        return Err(TransferError::Auth(AuthError::UnauthorizedSender));
    }
    let schema = TransferParams::get_params_types();
    let toks = match decode_wrapped(&schema, payload) {
        Ok(t) => t,
        Err(e) => {
            return Err(TransferError::Decode(e));
        },
    };
    proof {
        let region = payload@.skip(crate::codec::word_val(payload@.subrange(0, 32)) as int);
        crate::codec::lemma_decode_ok_fields(batch_schema(), region);
        assert(toks_view(toks@)[0] == toks@[0]@);
        assert(toks_view(toks@)[1] == toks@[1]@);
        assert(toks_view(toks@)[2] == toks@[2]@);
        assert(toks_view(toks@)[3] == toks@[3]@);
        // the decoded recipient is a slice of the tuple region, so its hex
        // spelling fits the address space
        let tv = toks_view(toks@);
        assert(crate::codec::spec_dec_field(crate::codec::Ty::Bytes, region, 3) == Ok::<
            TokV,
            crate::codec::DecodeError,
        >(tv[3]));
        assert(tv[3]->Bytes_0.len() <= region.len());
        assert(region.len() <= payload@.len());
    }
    let params = TransferParams::from_token_tuple(&toks);
    // the two arrays decoded against the same schema entry kind; their
    // lengths must agree for the batch to make sense
    if params.nft_ids.len() != params.nft_amounts.len() {
        return Err(TransferError::Validation(ValidationError::ArityMismatch));
    }
    let batch = zip_batch(&params.nft_ids, &params.nft_amounts);
    let mint_action = Cw1155Action::BatchMint {
        to: clone_bytes(&params.recipient),
        batch,
        data: clone_bytes(&params.nft_data),
    };
    let mut ack_toks: Vec<Tok> = Vec::new();
    ack_toks.push(Tok::Str(clone_bytes(src_chain_id)));
    proof {
        let tv1 = seq![TokV::Str(src_chain_id@)];
        assert(toks_view(ack_toks@) =~= tv1);
        lemma_spec_encode_len(tv1);
        assert(crate::codec::tails_upto(tv1, 1) == crate::codec::tails_upto(tv1, 0)
            + crate::codec::tail_of(tv1[0]));
        assert(crate::codec::tails_upto(tv1, 0) == Seq::<u8>::empty());
        assert(crate::codec::tail_of(tv1[0]).len() == 32 + src_chain_id@.len()
            + crate::codec::pad_len(src_chain_id@.len()));
        assert(crate::codec::pad_len(src_chain_id@.len()) < 32);
    }
    Ok((mint_action, encode(&ack_toks)))
}

/// The enrolled remote contract for a chain, if any.
pub fn get_remote_contract(state: &Xerc1155State, chain_id: &Vec<u8>) -> (r: Option<Vec<u8>>)
    ensures
        match r {
            Some(v) => state.remote_contract_mapping@.contains_key(chain_id@) && v@
                == state.remote_contract_mapping@[chain_id@],
            None => !state.remote_contract_mapping@.contains_key(chain_id@),
        },
{
    state.remote_contract_mapping.get(chain_id)
}

pub fn get_owner(state: &Xerc1155State) -> (r: Vec<u8>)
    ensures
        r@ == state.owner@,
{
    clone_bytes(&state.owner)
}

pub fn get_cw1155_contract(state: &Xerc1155State) -> (r: Vec<u8>)
    ensures
        r@ == state.cw1155_contract_address@,
{
    clone_bytes(&state.cw1155_contract_address)
}

/// The gateway's callbacks.
pub enum SudoMsg {
    HandleIReceive {
        request_sender: Vec<u8>,
        src_chain_id: Vec<u8>,
        request_identifier: u64,
        payload: Vec<u8>,
    },
    HandleIAck { request_identifier: u64, exec_flag: bool, exec_data: Vec<u8>, refund_amount: u128 },
}

/// Dispatches a gateway callback: a receive answers with the mint message
/// and the ack payload; an ack carries nothing this contract stores.
pub fn handle_sudo(state: &mut Xerc1155State, msg: &SudoMsg) -> (r: Result<
    Option<(Cw1155Action, Vec<u8>)>,
    TransferError,
>)
    requires
        msg matches SudoMsg::HandleIReceive { src_chain_id, payload, .. } ==> src_chain_id@.len()
            + 128 <= usize::MAX && 2 * payload@.len() + 2 <= usize::MAX,
    ensures
        *final(state) == *old(state),
        msg is HandleIAck ==> (r matches Ok(a) && a is None),
        msg matches SudoMsg::HandleIReceive { request_sender, src_chain_id, .. } ==> match r {
            Ok(a) => {
                &&& spec_receive_ok(
                    old(state).remote_contract_mapping@,
                    request_sender@,
                    src_chain_id@,
                    msg->HandleIReceive_payload@,
                )
                &&& (a matches Some((mint_action, ack)) && {
                    let tv = spec_decode_wrapped(
                        batch_schema(),
                        msg->HandleIReceive_payload@,
                    )->Ok_0;
                    (mint_action matches Cw1155Action::BatchMint { to, batch, data } && to@
                        == hex_address(tv[3]->Bytes_0) && data@ == tv[2]->Bytes_0 && batch@.len()
                        == tv[0]->UintArr_0.len() && (forall|j: int|
                        0 <= j < batch@.len() ==> batch@[j] == (
                        tv[0]->UintArr_0[j],
                        tv[1]->UintArr_0[j],
                    ))) && ack@ == spec_encode(seq![TokV::Str(src_chain_id@)])
                })
            },
            Err(e) => !spec_receive_ok(
                old(state).remote_contract_mapping@,
                request_sender@,
                src_chain_id@,
                msg->HandleIReceive_payload@,
            ) && e == spec_receive_err(
                old(state).remote_contract_mapping@,
                request_sender@,
                src_chain_id@,
                msg->HandleIReceive_payload@,
            ),
        },
{
    match msg {
        SudoMsg::HandleIReceive { request_sender, src_chain_id, request_identifier, payload } => {
            match handle_sudo_request(
                state,
                request_sender,
                src_chain_id,
                *request_identifier,
                payload,
            ) {
                Ok(answer) => Ok(Some(answer)),
                Err(e) => Err(e),
            }
        },
        SudoMsg::HandleIAck { .. } => Ok(None),
    }
}

/// What an execute message leaves behind.
pub enum ExecuteResponse {
    Configured,
    TokenMessage(Cw1155Action),
    Transfer { burn: Cw1155Action, request: crate::handlers::OutboundRequest },
}

/// Dispatches an execute message.
pub fn handle_execute(state: &mut Xerc1155State, sender: &Vec<u8>, msg: &ExecuteMsg) -> (r: Result<
    ExecuteResponse,
    TransferError,
>)
    requires
        msg matches ExecuteMsg::TransferCrossChain {
            dst_chain_id,
            token_ids,
            token_data,
            recipient,
            request_metadata,
            ..
        } ==> {
            &&& request_metadata.asm_address@.len() + 50 <= usize::MAX
            &&& 64 * token_ids@.len() + token_data@.len() + recipient@.len() + 1024 <= usize::MAX
            &&& (old(state).remote_contract_mapping@.contains_key(dst_chain_id@) ==> 64
                * token_ids@.len() + token_data@.len() + recipient@.len() + old(state).remote_contract_mapping@[dst_chain_id@].len() + 2048 <= usize::MAX)
        },
    ensures
        final(state).owner@ == old(state).owner@,
        msg matches ExecuteMsg::EnrollRemoteContract { chain_id, remote_address } ==> final(state).cw1155_contract_address@ == old(state).cw1155_contract_address@ && match r {
            Ok(a) => a is Configured && sender@ == old(state).owner@ && final(state).remote_contract_mapping@ == old(state).remote_contract_mapping@.insert(
                chain_id@,
                remote_address@,
            ),
            Err(e) => sender@ != old(state).owner@ && e == TransferError::Auth(AuthError::NotOwner)
                && final(state).remote_contract_mapping@ == old(state).remote_contract_mapping@,
        },
        msg matches ExecuteMsg::SetCw1155ContractAddress { address } ==> final(state).remote_contract_mapping@ == old(state).remote_contract_mapping@ && match r {
            Ok(a) => a is Configured && sender@ == old(state).owner@ && final(state).cw1155_contract_address@ == address@,
            Err(e) => sender@ != old(state).owner@ && e == TransferError::Auth(AuthError::NotOwner)
                && final(state).cw1155_contract_address@ == old(state).cw1155_contract_address@,
        },
        msg matches ExecuteMsg::TransferCrossChain {
            dst_chain_id,
            token_ids,
            token_amounts,
            token_data,
            recipient,
            request_metadata,
        } ==> *final(state) == *old(state) && match r {
            Ok(a) => {
                &&& token_ids@.len() == token_amounts@.len()
                &&& old(state).remote_contract_mapping@.contains_key(dst_chain_id@)
                &&& (a matches ExecuteResponse::Transfer { burn, request } && (
                burn matches Cw1155Action::BatchBurn { from, batch } && from@ == sender@
                    && batch@.len() == token_ids@.len() && (forall|j: int|
                    0 <= j < batch@.len() ==> batch@[j] == (token_ids@[j], token_amounts@[j])))
                    && request@ == (crate::handlers::OutboundRequestV {
                    version: 1,
                    route_amount: 0,
                    route_recipient: Seq::empty(),
                    dest_chain_id: dst_chain_id@,
                    request_metadata: crate::metadata::spec_request_metadata(
                        request_metadata.dest_gas_limit,
                        request_metadata.dest_gas_price,
                        request_metadata.ack_gas_limit,
                        request_metadata.ack_gas_price,
                        request_metadata.relayer_fee,
                        request_metadata.ack_type,
                        request_metadata.is_read_call,
                        request_metadata.asm_address@,
                    ),
                    request_packet: spec_envelope(
                        old(state).remote_contract_mapping@[dst_chain_id@],
                        spec_encode_wrapped(
                            spec_batch_toks(token_ids@, token_amounts@, token_data@, recipient@),
                        ),
                    ),
                }))
            },
            Err(e) => {
                &&& e == if token_ids@.len() != token_amounts@.len() {
                    TransferError::Validation(ValidationError::ArityMismatch)
                } else {
                    TransferError::RemoteNotEnrolled
                }
                &&& !(token_ids@.len() == token_amounts@.len() && old(state).remote_contract_mapping@.contains_key(dst_chain_id@))
            },
        },
        msg matches ExecuteMsg::BatchMint { to, batch, msg: data } ==> *final(state) == *old(state)
            && match r {
            Ok(a) => sender@ == old(state).owner@ && (a matches ExecuteResponse::TokenMessage(m)
                && (m matches Cw1155Action::BatchMint { to: t, batch: b, data: d } && t@ == to@
                && b@ == batch@ && d@ == data@)),
            Err(e) => sender@ != old(state).owner@ && e == TransferError::Auth(AuthError::NotOwner),
        },
        msg matches ExecuteMsg::Mint { to, token_id, amount, msg: data } ==> *final(state) == *old(state) && match r {
            Ok(a) => sender@ == old(state).owner@ && (a matches ExecuteResponse::TokenMessage(m)
                && (m matches Cw1155Action::Mint { to: t, token_id: id, value, data: d } && t@
                == to@ && id == *token_id && value == *amount && d@ == data@)),
            Err(e) => sender@ != old(state).owner@ && e == TransferError::Auth(AuthError::NotOwner),
        },
{
    match msg {
        ExecuteMsg::EnrollRemoteContract { chain_id, remote_address } => {
            match enroll_remote_contract(state, sender, chain_id, remote_address) {
                Ok(_) => Ok(ExecuteResponse::Configured),
                Err(e) => Err(e),
            }
        },
        ExecuteMsg::SetCw1155ContractAddress { address } => {
            match set_cw1155_contract(state, sender, address) {
                Ok(_) => Ok(ExecuteResponse::Configured),
                Err(e) => Err(e),
            }
        },
        ExecuteMsg::TransferCrossChain {
            dst_chain_id,
            token_ids,
            token_amounts,
            token_data,
            recipient,
            request_metadata,
        } => {
            match transfer_crosschain(
                state,
                sender,
                dst_chain_id,
                token_ids,
                token_amounts,
                token_data,
                recipient,
                request_metadata,
            ) {
                Ok((burn, request)) => Ok(ExecuteResponse::Transfer { burn, request }),
                Err(e) => Err(e),
            }
        },
        ExecuteMsg::BatchMint { to, batch, msg: data } => {
            match batch_mint(state, sender, to, batch, data) {
                Ok(a) => Ok(ExecuteResponse::TokenMessage(a)),
                Err(e) => Err(e),
            }
        },
        ExecuteMsg::Mint { to, token_id, amount, msg: data } => {
            match mint(state, sender, to, *token_id, *amount, data) {
                Ok(a) => Ok(ExecuteResponse::TokenMessage(a)),
                Err(e) => Err(e),
            }
        },
    }
}

/// The contract name the version record is stored under.
pub open spec fn spec_contract_name() -> Seq<u8> {
    seq![120u8, 101u8, 114u8, 99u8, 49u8, 49u8, 53u8, 53u8]
}

/// "xerc1155" as bytes.
pub fn contract_name() -> (r: Vec<u8>)
    ensures
        r@ == spec_contract_name(),
{
    let r = vec![120u8, 101u8, 114u8, 99u8, 49u8, 49u8, 53u8, 53u8];
    proof {
        assert(r@ =~= spec_contract_name());
    }
    r
}

/// The stored contract version string.
pub open spec fn spec_contract_version() -> Seq<u8> {
    seq![49u8, 46u8, 48u8, 46u8, 48u8]
}

/// "1.0.0" as bytes.
pub fn contract_version() -> (r: Vec<u8>)
    ensures
        r@ == spec_contract_version(),
{
    let r = vec![49u8, 46u8, 48u8, 46u8, 48u8];
    proof {
        assert(r@ =~= spec_contract_version());
    }
    r
}

/// What a query answers with.
pub enum QueryAnswer {
    Version { name: Vec<u8>, version: Vec<u8> },
    Owner(Vec<u8>),
    RemoteContract(Option<Vec<u8>>),
    Cw1155Address(Vec<u8>),
}

/// Dispatches a query.
pub fn handle_query(state: &Xerc1155State, msg: &QueryMsg) -> (r: QueryAnswer)
    ensures
        msg is GetContractVersion ==> (r matches QueryAnswer::Version { name, version } && name@
            == spec_contract_name() && version@ == spec_contract_version()),
        msg is GetOwner ==> (r matches QueryAnswer::Owner(o) && o@ == state.owner@),
        msg matches QueryMsg::GetRemoteContract { chain_id } ==> (
        r matches QueryAnswer::RemoteContract(o) && (match o {
            Some(v) => state.remote_contract_mapping@.contains_key(chain_id@) && v@
                == state.remote_contract_mapping@[chain_id@],
            None => !state.remote_contract_mapping@.contains_key(chain_id@),
        })),
        msg is GetCw1155Address ==> (r matches QueryAnswer::Cw1155Address(a) && a@
            == state.cw1155_contract_address@),
{
    match msg {
        QueryMsg::GetContractVersion => QueryAnswer::Version {
            name: contract_name(),
            version: contract_version(),
        },
        QueryMsg::GetOwner => QueryAnswer::Owner(get_owner(state)),
        QueryMsg::GetRemoteContract { chain_id } => QueryAnswer::RemoteContract(
            get_remote_contract(state, chain_id),
        ),
        QueryMsg::GetCw1155Address => QueryAnswer::Cw1155Address(get_cw1155_contract(state)),
    }
}

} // verus!
