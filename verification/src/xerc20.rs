//! The cross-chain fungible token handler: an amount burns at home and is
//! minted on the destination, travelling as an ABI pair
//! `(recipient_bytes, amount)`.  The token balances live in a separate base
//! token contract; this handler drives it through burn and mint messages.
//! Provenance of inbound transfers is checked against a per-chain
//! allowlist, case-insensitively on chains whose type tag asks for it.

use vstd::prelude::*;
use crate::codec::{decode, encode, spec_decode, spec_encode, toks_view, Tok, TokV, Ty};
use crate::errors::{AuthError, TransferError};
use crate::handlers::{
    encode_envelope, lemma_spec_encode_len, sender_authorized, spec_envelope, to_ascii_lower,
    OutboundRequest, OutboundRequestV,
};
use crate::metadata::{encode_request_metadata, spec_request_metadata};
use crate::store::{bytes_eq, clone_bytes, AddrMap, ChainTypeMap};

verus! {

/// One allowlist entry handed to the setter.
pub struct ContractInfo {
    pub chain_id: Vec<u8>,
    pub contract_addr: Vec<u8>,
}

/// One chain-type entry handed to the setter.
pub struct ChainTypeInfo {
    pub chain_id: Vec<u8>,
    pub chain_type: u64,
}

pub struct InstantiateMsg {
    pub cw20_code_id: u64,
    pub token_name: Vec<u8>,
    pub token_symbol: Vec<u8>,
}

pub struct MigrateMsg {}

/// The execute entry point's message family.
pub enum ExecuteMsg {
    SetWhiteListedContracts { contracts: Vec<ContractInfo> },
    SetChainId { id: Vec<u8> },
    SetXerc20Addr { addr: Vec<u8> },
    SetChainTypes { chain_type_info: Vec<ChainTypeInfo> },
    TrasferCrossChain { amount: u128, recipient: Vec<u8>, dest_chain_id: Vec<u8> },
}

/// The query entry point's message family.
pub enum QueryMsg {
    GetContractVersion,
    FetchOwner,
    FetchXerc20,
    FetchChainId,
    FetchChainType { chain_id: Vec<u8> },
    FetchWhiteListedContract { chain_id: Vec<u8> },
    AllWhiteListedContract,
}

/// A message this handler sends to the base token contract.
#[derive(Debug)]
pub enum TokenAction {
    BurnFrom { token: Vec<u8>, owner: Vec<u8>, amount: u128 },
    Mint { token: Vec<u8>, recipient: Vec<u8>, amount: u128 },
}

/// The contract's whole persistent state.
pub struct Xerc20State {
    pub owner: Vec<u8>,
    pub whitelist: AddrMap,
    pub chain_types: ChainTypeMap,
    pub chain_id: Vec<u8>,
    pub cross_chain_token: Vec<u8>,
}

/// Sets up fresh state: the instantiating sender becomes the owner.
pub fn instantiate(_msg: &InstantiateMsg, sender: &Vec<u8>) -> (s: Xerc20State)
    ensures
        s.owner@ == sender@,
        s.whitelist@ == Map::<Seq<u8>, Seq<u8>>::empty(),
        s.chain_types@ == Map::<Seq<u8>, u64>::empty(),
        s.chain_id@ == Seq::<u8>::empty(),
        s.cross_chain_token@ == Seq::<u8>::empty(),
{
    Xerc20State {
        owner: clone_bytes(sender),
        whitelist: AddrMap::new(),
        chain_types: ChainTypeMap::new(),
        chain_id: Vec::new(),
        cross_chain_token: Vec::new(),
    }
}

/// The owner modifier.
pub fn is_owner_modifier(state: &Xerc20State, sender: &Vec<u8>) -> (r: Result<(), TransferError>)
    ensures
        r is Ok <==> sender@ == state.owner@,
        r is Err ==> r->Err_0 == TransferError::Auth(AuthError::NotOwner),
{
    if !bytes_eq(sender, &state.owner) {
        return Err(TransferError::Auth(AuthError::NotOwner));
    }
    Ok(())
}

/// Whether a contract is the allowlisted one for a chain.
pub fn is_white_listed_contract(state: &Xerc20State, chain_id: &Vec<u8>, contract_addr: &Vec<u8>)
    -> (r: bool)
    ensures
        r == (state.whitelist@.contains_key(chain_id@) && state.whitelist@[chain_id@]
            == contract_addr@),
{
    match state.whitelist.get(chain_id) {
        Some(expected) => bytes_eq(&expected, contract_addr),
        None => false,
    }
}

/// The allowlist modifier: fails closed on any mismatch.
pub fn is_white_listed_modifier(state: &Xerc20State, chain_id: &Vec<u8>, contract: &Vec<u8>) -> (r:
    Result<(), TransferError>)
    ensures
        r is Ok <==> (state.whitelist@.contains_key(chain_id@) && state.whitelist@[chain_id@]
            == contract@),
        r is Err ==> r->Err_0 == TransferError::Auth(AuthError::UnauthorizedSender),
{
    if !is_white_listed_contract(state, chain_id, contract) {
        return Err(TransferError::Auth(AuthError::UnauthorizedSender));
    }
    Ok(())
}

/// The allowlist after a batch of entries is stored, in order.
pub open spec fn insert_contracts(
    m: Map<Seq<u8>, Seq<u8>>,
    infos: Seq<ContractInfo>,
    i: int,
) -> Map<Seq<u8>, Seq<u8>>
    decreases i,
{
    if i <= 0 {
        m
    } else {
        insert_contracts(m, infos, i - 1).insert(infos[i - 1].chain_id@, infos[i - 1].contract_addr@)
    }
}

/// Stores a batch of allowlist entries; only the owner may.
pub fn set_white_listed_contracts(
    state: &mut Xerc20State,
    sender: &Vec<u8>,
    contracts: &Vec<ContractInfo>,
) -> (r: Result<(), TransferError>)
    ensures
        final(state).owner@ == old(state).owner@,
        final(state).chain_types@ == old(state).chain_types@,
        final(state).chain_id@ == old(state).chain_id@,
        final(state).cross_chain_token@ == old(state).cross_chain_token@,
        match r {
            Ok(_) => sender@ == old(state).owner@ && final(state).whitelist@ == insert_contracts(
                old(state).whitelist@,
                contracts@,
                contracts@.len() as int,
            ),
            Err(e) => sender@ != old(state).owner@ && e == TransferError::Auth(AuthError::NotOwner)
                && final(state).whitelist@ == old(state).whitelist@,
        },
{
    match is_owner_modifier(state, sender) {
        Ok(_) => {},
        Err(e) => {
            return Err(e);
        },
    }
    let n = contracts.len();
    let mut i: usize = 0;
    while i < n
        invariant
            i <= n,
            n == contracts@.len(),
            state.owner@ == old(state).owner@,
            state.chain_types@ == old(state).chain_types@,
            state.chain_id@ == old(state).chain_id@,
            state.cross_chain_token@ == old(state).cross_chain_token@,
            state.whitelist@ == insert_contracts(old(state).whitelist@, contracts@, i as int),
        decreases n - i,
    {
        let e = &contracts[i];
        state.whitelist.put(&e.chain_id, &e.contract_addr);
        i += 1;
    }
    Ok(())
}

/// The chain-type map after a batch of entries is stored, in order.
pub open spec fn insert_chain_types(
    m: Map<Seq<u8>, u64>,
    infos: Seq<ChainTypeInfo>,
    i: int,
) -> Map<Seq<u8>, u64>
    decreases i,
{
    if i <= 0 {
        m
    } else {
        insert_chain_types(m, infos, i - 1).insert(infos[i - 1].chain_id@, infos[i - 1].chain_type)
    }
}

/// Stores a batch of chain-type tags; only the owner may.
pub fn set_chain_types_info(
    state: &mut Xerc20State,
    sender: &Vec<u8>,
    chain_type_info: &Vec<ChainTypeInfo>,
) -> (r: Result<(), TransferError>)
    ensures
        final(state).owner@ == old(state).owner@,
        final(state).whitelist@ == old(state).whitelist@,
        final(state).chain_id@ == old(state).chain_id@,
        final(state).cross_chain_token@ == old(state).cross_chain_token@,
        match r {
            Ok(_) => sender@ == old(state).owner@ && final(state).chain_types@
                == insert_chain_types(
                old(state).chain_types@,
                chain_type_info@,
                chain_type_info@.len() as int,
            ),
            Err(e) => sender@ != old(state).owner@ && e == TransferError::Auth(AuthError::NotOwner)
                && final(state).chain_types@ == old(state).chain_types@,
        },
{
    match is_owner_modifier(state, sender) {
        Ok(_) => {},
        Err(e) => {
            return Err(e);
        },
    }
    let n = chain_type_info.len();
    let mut i: usize = 0;
    while i < n
        invariant
            i <= n,
            n == chain_type_info@.len(),
            state.owner@ == old(state).owner@,
            state.whitelist@ == old(state).whitelist@,
            state.chain_id@ == old(state).chain_id@,
            state.cross_chain_token@ == old(state).cross_chain_token@,
            state.chain_types@ == insert_chain_types(
                old(state).chain_types@,
                chain_type_info@,
                i as int,
            ),
        decreases n - i,
    {
        let e = &chain_type_info[i];
        state.chain_types.put(&e.chain_id, e.chain_type);
        i += 1;
    }
    Ok(())
}

/// Stores this contract's own chain id; only the owner may.
pub fn set_chain_id(state: &mut Xerc20State, sender: &Vec<u8>, id: &Vec<u8>) -> (r: Result<
    (),
    TransferError,
>)
    ensures
        final(state).owner@ == old(state).owner@,
        final(state).whitelist@ == old(state).whitelist@,
        final(state).chain_types@ == old(state).chain_types@,
        final(state).cross_chain_token@ == old(state).cross_chain_token@,
        match r {
            Ok(_) => sender@ == old(state).owner@ && final(state).chain_id@ == id@,
            Err(e) => sender@ != old(state).owner@ && e == TransferError::Auth(AuthError::NotOwner)
                && final(state).chain_id@ == old(state).chain_id@,
        },
{
    match is_owner_modifier(state, sender) {
        Ok(_) => {},
        Err(e) => {
            return Err(e);
        },
    }
    state.chain_id = clone_bytes(id);
    Ok(())
}

/// Stores the base token contract's address; only the owner may.
pub fn set_xerc20_addr(state: &mut Xerc20State, sender: &Vec<u8>, addr: &Vec<u8>) -> (r: Result<
    (),
    TransferError,
>)
    ensures
        final(state).owner@ == old(state).owner@,
        final(state).whitelist@ == old(state).whitelist@,
        final(state).chain_types@ == old(state).chain_types@,
        final(state).chain_id@ == old(state).chain_id@,
        match r {
            Ok(_) => sender@ == old(state).owner@ && final(state).cross_chain_token@ == addr@,
            Err(e) => sender@ != old(state).owner@ && e == TransferError::Auth(AuthError::NotOwner)
                && final(state).cross_chain_token@ == old(state).cross_chain_token@,
        },
{
    match is_owner_modifier(state, sender) {
        Ok(_) => {},
        Err(e) => {
            return Err(e);
        },
    }
    state.cross_chain_token = clone_bytes(addr);
    Ok(())
}

/// The wire schema of one token transfer: recipient bytes, then the amount.
pub open spec fn transfer_schema() -> Seq<Ty> {
    seq![Ty::Bytes, Ty::U128]
}

/// The token pair of a transfer.
pub open spec fn spec_transfer_toks(recipient: Seq<u8>, amount: u128) -> Seq<TokV> {
    seq![TokV::Bytes(recipient), TokV::Uint(amount)]
}

/// The length of the transfer pair encoding.
proof fn lemma_transfer_toks_len(recipient: Seq<u8>, amount: u128)
    ensures
        spec_encode(spec_transfer_toks(recipient, amount)).len() == 96 + recipient.len()
            + crate::codec::pad_len(recipient.len()),
        crate::codec::pad_len(recipient.len()) < 32,
{
    let tv = spec_transfer_toks(recipient, amount);
    lemma_spec_encode_len(tv);
    assert(crate::codec::tails_upto(tv, 2) == crate::codec::tails_upto(tv, 1)
        + crate::codec::tail_of(tv[1]));
    assert(crate::codec::tails_upto(tv, 1) == crate::codec::tails_upto(tv, 0)
        + crate::codec::tail_of(tv[0]));
    assert(crate::codec::tails_upto(tv, 0) == Seq::<u8>::empty());
    assert(crate::codec::tail_of(tv[0]).len() == 32 + recipient.len() + crate::codec::pad_len(
        recipient.len(),
    ));
    assert(crate::codec::tail_of(tv[1]).len() == 0);
}

/// Adjusts an oracle gas price upward by a fifth, as the send leg budgets.
pub fn fetch_oracle_gas_price(gas_price: u64) -> (r: u64)
    requires
        gas_price * 120 <= u64::MAX,
    ensures
        r == (gas_price * 120) / 100,
{
    (gas_price * 120) / 100
}

/// Passes an oracle token price through unchanged.
pub fn fetch_oracle_token_price(token_price: u128) -> (r: u128)
    ensures
        r == token_price,
{
    token_price
}

/// Burns the amount at home and builds the outbound transfer: the
/// destination chain must have an allowlisted contract; the payload is the
/// encoded `(recipient, amount)` pair; the request metadata budgets the two
/// legs with the given oracle gas prices.
pub fn transfer_cross_chain(
    state: &Xerc20State,
    sender: &Vec<u8>,
    amount: u128,
    recipient: &Vec<u8>,
    dest_chain_id: &Vec<u8>,
    dest_gas_price: u64,
    ack_gas_price: u64,
    ack_type: u8,
) -> (r: Result<(TokenAction, OutboundRequest), TransferError>)
    requires
        recipient@.len() + 1024 <= usize::MAX,
        state.whitelist@.contains_key(dest_chain_id@) ==> state.whitelist@[dest_chain_id@].len()
            + recipient@.len() + 2048 <= usize::MAX,
    ensures
        match r {
            Ok((burn, req)) => {
                &&& state.whitelist@.contains_key(dest_chain_id@)
                &&& (burn matches TokenAction::BurnFrom { token, owner, amount: amt } && token@
                    == state.cross_chain_token@ && owner@ == sender@ && amt == amount)
                &&& req@ == (OutboundRequestV {
                    version: 1,
                    route_amount: 0,
                    route_recipient: Seq::empty(),
                    dest_chain_id: dest_chain_id@,
                    request_metadata: spec_request_metadata(
                        200000,
                        dest_gas_price,
                        200000,
                        ack_gas_price,
                        0,
                        ack_type,
                        false,
                        Seq::empty(),
                    ),
                    request_packet: spec_envelope(
                        state.whitelist@[dest_chain_id@],
                        spec_encode(spec_transfer_toks(recipient@, amount)),
                    ),
                })
            },
            Err(e) => !state.whitelist@.contains_key(dest_chain_id@) && e
                == TransferError::RemoteNotEnrolled,
        },
{
    let dest_contract = match state.whitelist.get(dest_chain_id) {
        Some(c) => c,
        None => {
            return Err(TransferError::RemoteNotEnrolled);
        },
    };
    let ghost tv = spec_transfer_toks(recipient@, amount);
    let mut toks: Vec<Tok> = Vec::new();
    toks.push(Tok::Bytes(clone_bytes(recipient)));
    toks.push(Tok::Uint(amount));
    proof {
        assert(toks_view(toks@) =~= tv);
        lemma_transfer_toks_len(recipient@, amount);
    }
    let payload = encode(&toks);
    let request_packet = encode_envelope(&dest_contract, &payload);
    let empty_asm: Vec<u8> = Vec::new();
    let request_metadata = encode_request_metadata(
        200000,
        dest_gas_price,
        200000,
        ack_gas_price,
        0,
        ack_type,
        false,
        &empty_asm,
    );
    let burn = TokenAction::BurnFrom {
        token: clone_bytes(&state.cross_chain_token),
        owner: clone_bytes(sender),
        amount,
    };
    Ok(
        (
            burn,
            OutboundRequest {
                version: 1,
                route_amount: 0,
                route_recipient: Vec::new(),
                dest_chain_id: clone_bytes(dest_chain_id),
                request_metadata,
                request_packet,
            },
        ),
    )
}

/// Whether an inbound transfer is accepted: the claimed sender — lower-cased
/// when the source chain's type tag says its address format is
/// case-insensitive — must match the allowlist, and the payload must decode
/// as the `(recipient, amount)` pair.
pub open spec fn spec_receive_ok(
    whitelist: Map<Seq<u8>, Seq<u8>>,
    chain_types: Map<Seq<u8>, u64>,
    sender: Seq<u8>,
    chain: Seq<u8>,
    payload: Seq<u8>,
) -> bool {
    &&& sender_authorized(whitelist, chain_types, sender, chain)
    &&& spec_decode(transfer_schema(), payload) is Ok
}

/// The error an inbound transfer is rejected with: provenance first, then
/// decoding.
pub open spec fn spec_receive_err(
    whitelist: Map<Seq<u8>, Seq<u8>>,
    chain_types: Map<Seq<u8>, u64>,
    sender: Seq<u8>,
    chain: Seq<u8>,
    payload: Seq<u8>,
) -> TransferError
    recommends
        !spec_receive_ok(whitelist, chain_types, sender, chain, payload),
{
    if !sender_authorized(whitelist, chain_types, sender, chain) {
        TransferError::Auth(AuthError::UnauthorizedSender)
    } else {
        TransferError::Decode(spec_decode(transfer_schema(), payload)->Err_0)
    }
}

/// Processes a relayed transfer: checks provenance, decodes the pair, and
/// asks the base token contract to mint the amount to the decoded
/// recipient.  On an error nothing is minted.
pub fn handle_sudo_request(
    state: &mut Xerc20State,
    request_sender: &Vec<u8>,
    src_chain_id: &Vec<u8>,
    request_identifier: u64,
    payload: &Vec<u8>,
) -> (r: Result<TokenAction, TransferError>)
    ensures
        *final(state) == *old(state),
        match r {
            Ok(mint) => {
                &&& spec_receive_ok(
                    old(state).whitelist@,
                    old(state).chain_types@,
                    request_sender@,
                    src_chain_id@,
                    payload@,
                )
                &&& {
                    let tv = spec_decode(transfer_schema(), payload@)->Ok_0;
                    mint matches TokenAction::Mint { token, recipient, amount } && token@
                        == old(state).cross_chain_token@ && recipient@ == tv[0]->Bytes_0 && amount
                        == tv[1]->Uint_0
                }
            },
            Err(e) => !spec_receive_ok(
                old(state).whitelist@,
                old(state).chain_types@,
                request_sender@,
                src_chain_id@,
                payload@,
            ) && e == spec_receive_err(
                old(state).whitelist@,
                old(state).chain_types@,
                request_sender@,
                src_chain_id@,
                payload@,
            ),
        },
{
    let authorized = match state.whitelist.get(src_chain_id) {
        Some(expected) => {
            let case_insensitive = match state.chain_types.get(src_chain_id) {
                Some(t) => t == 1,
                None => false,
            };
            if case_insensitive {
                let folded = to_ascii_lower(request_sender);
                bytes_eq(&expected, &folded)
            } else {
                bytes_eq(&expected, request_sender)
            }
        },
        None => false,
    };
    if !authorized {
        return Err(TransferError::Auth(AuthError::UnauthorizedSender));
    }
    let schema = transfer_schema_vec();
    let toks = match decode(&schema, payload) {
        Ok(t) => t,
        Err(e) => {
            return Err(TransferError::Decode(e));
        },
    };
    proof {
        crate::codec::lemma_decode_ok_fields(transfer_schema(), payload@);
        assert(toks_view(toks@)[0] == toks@[0]@);
        assert(toks_view(toks@)[1] == toks@[1]@);
    }
    let recipient: Vec<u8> = match &toks[0] {
        Tok::Bytes(s) => clone_bytes(s),
        _ => {
            proof {
                assert(false);
            }
            Vec::new()
        },
    };
    let amount: u128 = match &toks[1] {
        Tok::Uint(v) => *v,
        _ => {
            proof {
                assert(false);
            }
            0
        },
    };
    Ok(TokenAction::Mint { token: clone_bytes(&state.cross_chain_token), recipient, amount })
}

/// The transfer schema as an executable value.
pub fn transfer_schema_vec() -> (r: Vec<Ty>)
    ensures
        r@ == transfer_schema(),
{
    let mut r: Vec<Ty> = Vec::new();
    r.push(Ty::Bytes);
    r.push(Ty::U128);
    proof {
        assert(r@ =~= transfer_schema());
    }
    r
}

/// Acknowledgements carry nothing this handler stores; the status event is
/// the caller's to emit.
pub fn handle_sudo_ack(state: &Xerc20State, request_identifier: u64, exec_flag: bool) -> (r: (
    u64,
    bool,
))
    ensures
        r == (request_identifier, exec_flag),
{
    (request_identifier, exec_flag)
}

pub fn fetch_white_listed_contract(state: &Xerc20State, chain_id: &Vec<u8>) -> (r: Option<Vec<u8>>)
    ensures
        match r {
            Some(v) => state.whitelist@.contains_key(chain_id@) && v@
                == state.whitelist@[chain_id@],
            None => !state.whitelist@.contains_key(chain_id@),
        },
{
    state.whitelist.get(chain_id)
}

pub fn fetch_owner(state: &Xerc20State) -> (r: Vec<u8>)
    ensures
        r@ == state.owner@,
{
    clone_bytes(&state.owner)
}

/// Whether a pair list is exactly the graph of the allowlist: every pair is
/// in the map, and every key of the map appears.
pub open spec fn pairs_cover_whitelist(
    whitelist: Map<Seq<u8>, Seq<u8>>,
    pairs: Seq<(Vec<u8>, Vec<u8>)>,
) -> bool {
    &&& forall|i: int|
        0 <= i < pairs.len() ==> whitelist.contains_key((#[trigger] pairs[i]).0@)
            && whitelist[pairs[i].0@] == pairs[i].1@
    &&& forall|k: Seq<u8>|
        #[trigger] whitelist.contains_key(k) ==> exists|i: int|
            0 <= i < pairs.len() && (#[trigger] pairs[i]).0@ == k
}

/// Every allowlist pair, each chain once.
pub fn fetch_all_white_listed_contract(state: &Xerc20State) -> (r: Vec<(Vec<u8>, Vec<u8>)>)
    ensures
        pairs_cover_whitelist(state.whitelist@, r@),
{
    state.whitelist.pairs()
}

pub fn fetch_chain_type(state: &Xerc20State, chain_id: &Vec<u8>) -> (r: Option<u64>)
    ensures
        match r {
            Some(t) => state.chain_types@.contains_key(chain_id@) && t
                == state.chain_types@[chain_id@],
            None => !state.chain_types@.contains_key(chain_id@),
        },
{
    state.chain_types.get(chain_id)
}

pub fn fetch_xerc20_addr(state: &Xerc20State) -> (r: Vec<u8>)
    ensures
        r@ == state.cross_chain_token@,
{
    clone_bytes(&state.cross_chain_token)
}

pub fn fetch_chain_id(state: &Xerc20State) -> (r: Vec<u8>)
    ensures
        r@ == state.chain_id@,
{
    clone_bytes(&state.chain_id)
}

/// What an execute message leaves behind: a configuration change, or a burn
/// paired with the outbound request.
pub enum ExecuteResponse {
    Configured,
    Transfer { burn: TokenAction, request: OutboundRequest },
}

/// Dispatches an execute message.  The transfer arm takes the two oracle
/// gas prices and the ack policy tag from the caller, which queries them
/// from the host's oracle.
pub fn handle_execute(
    state: &mut Xerc20State,
    sender: &Vec<u8>,
    msg: &ExecuteMsg,
    dest_gas_price: u64,
    ack_gas_price: u64,
    ack_type: u8,
) -> (r: Result<ExecuteResponse, TransferError>)
    requires
        msg matches ExecuteMsg::TrasferCrossChain { recipient, dest_chain_id, .. } ==> {
            &&& recipient@.len() + 1024 <= usize::MAX
            &&& (old(state).whitelist@.contains_key(dest_chain_id@) ==> old(state).whitelist@[dest_chain_id@].len() + recipient@.len() + 2048 <= usize::MAX)
        },
    ensures
        final(state).owner@ == old(state).owner@,
        r is Err ==> final(state).whitelist@ == old(state).whitelist@ && final(state).chain_types@
            == old(state).chain_types@ && final(state).chain_id@ == old(state).chain_id@ && final(state).cross_chain_token@ == old(state).cross_chain_token@,
        msg matches ExecuteMsg::SetWhiteListedContracts { contracts } ==> match r {
            Ok(a) => a is Configured && sender@ == old(state).owner@ && final(state).whitelist@
                == insert_contracts(old(state).whitelist@, contracts@, contracts@.len() as int)
                && final(state).chain_types@ == old(state).chain_types@ && final(state).chain_id@
                == old(state).chain_id@ && final(state).cross_chain_token@ == old(state).cross_chain_token@,
            Err(e) => sender@ != old(state).owner@ && e == TransferError::Auth(AuthError::NotOwner),
        },
        msg matches ExecuteMsg::SetChainId { id } ==> match r {
            Ok(a) => a is Configured && sender@ == old(state).owner@ && final(state).chain_id@
                == id@ && final(state).whitelist@ == old(state).whitelist@ && final(state).chain_types@ == old(state).chain_types@ && final(state).cross_chain_token@ == old(state).cross_chain_token@,
            Err(e) => sender@ != old(state).owner@ && e == TransferError::Auth(AuthError::NotOwner),
        },
        msg matches ExecuteMsg::SetXerc20Addr { addr } ==> match r {
            Ok(a) => a is Configured && sender@ == old(state).owner@ && final(state).cross_chain_token@ == addr@ && final(state).whitelist@ == old(state).whitelist@
                && final(state).chain_types@ == old(state).chain_types@ && final(state).chain_id@
                == old(state).chain_id@,
            Err(e) => sender@ != old(state).owner@ && e == TransferError::Auth(AuthError::NotOwner),
        },
        msg matches ExecuteMsg::SetChainTypes { chain_type_info } ==> match r {
            Ok(a) => a is Configured && sender@ == old(state).owner@ && final(state).chain_types@
                == insert_chain_types(
                old(state).chain_types@,
                chain_type_info@,
                chain_type_info@.len() as int,
            ) && final(state).whitelist@ == old(state).whitelist@ && final(state).chain_id@ == old(state).chain_id@ && final(state).cross_chain_token@ == old(state).cross_chain_token@,
            Err(e) => sender@ != old(state).owner@ && e == TransferError::Auth(AuthError::NotOwner),
        },
        msg matches ExecuteMsg::TrasferCrossChain { amount, recipient, dest_chain_id } ==> *final(state) == *old(state) && match r {
            Ok(a) => {
                &&& old(state).whitelist@.contains_key(dest_chain_id@)
                &&& (a matches ExecuteResponse::Transfer { burn, request } && (
                burn matches TokenAction::BurnFrom { token, owner, amount: amt } && token@ == old(state).cross_chain_token@ && owner@ == sender@ && amt == *amount) && request@
                    == (OutboundRequestV {
                    version: 1,
                    route_amount: 0,
                    route_recipient: Seq::empty(),
                    dest_chain_id: dest_chain_id@,
                    request_metadata: spec_request_metadata(
                        200000,
                        dest_gas_price,
                        200000,
                        ack_gas_price,
                        0,
                        ack_type,
                        false,
                        Seq::empty(),
                    ),
                    request_packet: spec_envelope(
                        old(state).whitelist@[dest_chain_id@],
                        spec_encode(spec_transfer_toks(recipient@, *amount)),
                    ),
                }))
            },
            Err(e) => !old(state).whitelist@.contains_key(dest_chain_id@) && e
                == TransferError::RemoteNotEnrolled,
        },
{
    match msg {
        ExecuteMsg::SetWhiteListedContracts { contracts } => {
            match set_white_listed_contracts(state, sender, contracts) {
                Ok(_) => Ok(ExecuteResponse::Configured),
                Err(e) => Err(e),
            }
        },
        ExecuteMsg::SetChainId { id } => {
            match set_chain_id(state, sender, id) {
                Ok(_) => Ok(ExecuteResponse::Configured),
                Err(e) => Err(e),
            }
        },
        ExecuteMsg::SetXerc20Addr { addr } => {
            match set_xerc20_addr(state, sender, addr) {
                Ok(_) => Ok(ExecuteResponse::Configured),
                Err(e) => Err(e),
            }
        },
        ExecuteMsg::SetChainTypes { chain_type_info } => {
            match set_chain_types_info(state, sender, chain_type_info) {
                Ok(_) => Ok(ExecuteResponse::Configured),
                Err(e) => Err(e),
            }
        },
        ExecuteMsg::TrasferCrossChain { amount, recipient, dest_chain_id } => {
            match transfer_cross_chain(
                state,
                sender,
                *amount,
                recipient,
                dest_chain_id,
                dest_gas_price,
                ack_gas_price,
                ack_type,
            ) {
                Ok((burn, request)) => Ok(ExecuteResponse::Transfer { burn, request }),
                Err(e) => Err(e),
            }
        },
    }
}

/// The gateway's callbacks.
pub enum SudoMsg {
    HandleIReceive {
        request_sender: Vec<u8>,
        src_chain_id: Vec<u8>,
        request_identifier: u64,
        payload: Vec<u8>,
    },
    HandleIAck { request_identifier: u64, exec_flag: bool, exec_data: Vec<u8>, refund_amount: u128 },
}

/// Dispatches a gateway callback: a receive answers with the mint message,
/// an ack with the status pair the host logs.
pub enum SudoAnswer {
    Receive(TokenAction),
    Ack { request_identifier: u64, exec_flag: bool },
}

pub fn sudo(state: &mut Xerc20State, msg: &SudoMsg) -> (r: Result<SudoAnswer, TransferError>)
    ensures
        *final(state) == *old(state),
        msg matches SudoMsg::HandleIAck { request_identifier, exec_flag, .. } ==> (
        r matches Ok(a) && a == SudoAnswer::Ack {
            request_identifier: *request_identifier,
            exec_flag: *exec_flag,
        }),
        msg matches SudoMsg::HandleIReceive { request_sender, src_chain_id, .. } ==> match r {
            Ok(a) => a is Receive && spec_receive_ok(
                old(state).whitelist@,
                old(state).chain_types@,
                request_sender@,
                src_chain_id@,
                msg->HandleIReceive_payload@,
            ),
            Err(e) => !spec_receive_ok(
                old(state).whitelist@,
                old(state).chain_types@,
                request_sender@,
                src_chain_id@,
                msg->HandleIReceive_payload@,
            ) && e == spec_receive_err(
                old(state).whitelist@,
                old(state).chain_types@,
                request_sender@,
                src_chain_id@,
                msg->HandleIReceive_payload@,
            ),
        },
{
    match msg {
        SudoMsg::HandleIReceive { request_sender, src_chain_id, request_identifier, payload } => {
            match handle_sudo_request(
                state,
                request_sender,
                src_chain_id,
                *request_identifier,
                payload,
            ) {
                Ok(mint) => Ok(SudoAnswer::Receive(mint)),
                Err(e) => Err(e),
            }
        },
        SudoMsg::HandleIAck { request_identifier, exec_flag, .. } => {
            let status = handle_sudo_ack(state, *request_identifier, *exec_flag);
            Ok(SudoAnswer::Ack { request_identifier: status.0, exec_flag: status.1 })
        },
    }
}

/// The contract name the version record is stored under.
pub open spec fn spec_contract_name() -> Seq<u8> {
    seq![88u8, 69u8, 82u8, 67u8, 50u8, 48u8]
}

/// "XERC20" as bytes.
pub fn contract_name() -> (r: Vec<u8>)
    ensures
        r@ == spec_contract_name(),
{
    let r = vec![88u8, 69u8, 82u8, 67u8, 50u8, 48u8];
    proof {
        assert(r@ =~= spec_contract_name());
    }
    r
}

/// The stored contract version string.
pub open spec fn spec_contract_version() -> Seq<u8> {
    seq![48u8, 46u8, 49u8, 46u8, 49u8]
}

/// "0.1.1" as bytes.
pub fn contract_version() -> (r: Vec<u8>)
    ensures
        r@ == spec_contract_version(),
{
    let r = vec![48u8, 46u8, 49u8, 46u8, 49u8];
    proof {
        assert(r@ =~= spec_contract_version());
    }
    r
}

/// What a query answers with.
pub enum QueryAnswer {
    Version { name: Vec<u8>, version: Vec<u8> },
    Owner(Vec<u8>),
    Xerc20Addr(Vec<u8>),
    ChainId(Vec<u8>),
    ChainType(Option<u64>),
    WhiteListedContract(Option<Vec<u8>>),
    AllWhiteListedContracts(Vec<(Vec<u8>, Vec<u8>)>),
}

/// Dispatches a query.
pub fn handle_query(state: &Xerc20State, msg: &QueryMsg) -> (r: QueryAnswer)
    ensures
        msg is GetContractVersion ==> (r matches QueryAnswer::Version { name, version } && name@
            == spec_contract_name() && version@ == spec_contract_version()),
        msg is FetchOwner ==> (r matches QueryAnswer::Owner(o) && o@ == state.owner@),
        msg is FetchXerc20 ==> (r matches QueryAnswer::Xerc20Addr(a) && a@
            == state.cross_chain_token@),
        msg is FetchChainId ==> (r matches QueryAnswer::ChainId(c) && c@ == state.chain_id@),
        msg matches QueryMsg::FetchChainType { chain_id } ==> (
        r matches QueryAnswer::ChainType(o) && (match o {
            Some(t) => state.chain_types@.contains_key(chain_id@) && t
                == state.chain_types@[chain_id@],
            None => !state.chain_types@.contains_key(chain_id@),
        })),
        msg matches QueryMsg::FetchWhiteListedContract { chain_id } ==> (
        r matches QueryAnswer::WhiteListedContract(o) && (match o {
            Some(v) => state.whitelist@.contains_key(chain_id@) && v@
                == state.whitelist@[chain_id@],
            None => !state.whitelist@.contains_key(chain_id@),
        })),
        msg is AllWhiteListedContract ==> (r matches QueryAnswer::AllWhiteListedContracts(pairs)
            && pairs_cover_whitelist(state.whitelist@, pairs@)),
{
    match msg {
        QueryMsg::GetContractVersion => QueryAnswer::Version {
            name: contract_name(),
            version: contract_version(),
        },
        QueryMsg::FetchOwner => QueryAnswer::Owner(fetch_owner(state)),
        QueryMsg::FetchXerc20 => QueryAnswer::Xerc20Addr(fetch_xerc20_addr(state)),
        QueryMsg::FetchChainId => QueryAnswer::ChainId(fetch_chain_id(state)),
        QueryMsg::FetchChainType { chain_id } => QueryAnswer::ChainType(
            fetch_chain_type(state, chain_id),
        ),
        QueryMsg::FetchWhiteListedContract { chain_id } => QueryAnswer::WhiteListedContract(
            fetch_white_listed_contract(state, chain_id),
        ),
        QueryMsg::AllWhiteListedContract => QueryAnswer::AllWhiteListedContracts(
            fetch_all_white_listed_contract(state),
        ),
    }
}

} // verus!
