//! The request-metadata wire format.
//!
//! The gateway receives, alongside every outbound request, a metadata blob
//! with a fixed byte layout: big-endian fields concatenated with no padding,
//!
//! `dest_gas_limit:u64 || dest_gas_price:u64 || ack_gas_limit:u64 ||
//!  ack_gas_price:u64 || relayer_fee:u128 || ack_type:u8 ||
//!  is_read_call:u8(0/1) || asm_address: remaining raw bytes`.

use vstd::prelude::*;
use crate::codec::{pow256, pow256_u128};

verus! {

/// The big-endian base-256 digits of `v`, `n` bytes wide.
pub open spec fn be_bytes(v: nat, n: nat) -> Seq<u8> {
    Seq::new(n, |i: int| ((v / pow256((n - 1 - i) as nat)) % 256) as u8)
}

/// Appends the `n`-byte big-endian image of `v` to `out`.
pub fn push_be(out: &mut Vec<u8>, v: u128, n: usize)
    requires
        n <= 16,
        old(out)@.len() + n <= usize::MAX,
    ensures
        final(out)@ == old(out)@ + be_bytes(v as nat, n as nat),
{
    let ghost prefix = out@;
    let mut i: usize = 0;
    while i < n
        invariant
            i <= n <= 16,
            prefix.len() + n <= usize::MAX,
            out@.len() == prefix.len() + i,
            forall|j: int| 0 <= j < prefix.len() ==> out@[j] == prefix[j],
            forall|j: int|
                prefix.len() <= j < out@.len() ==> out@[j] == be_bytes(v as nat, n as nat)[j
                    - prefix.len()],
        decreases n - i,
    {
        let d = pow256_u128(n - 1 - i);
        proof {
            crate::codec::lemma_pow256_pos((n - 1 - i) as nat);
        }
        out.push(((v / d) % 256) as u8);
        i += 1;
    }
    assert(out@ =~= prefix + be_bytes(v as nat, n as nat));
}

/// The metadata accompanying every outbound request: gas limits and prices
/// for the destination and ack legs, the relayer fee, the ack policy tag,
/// the read-call flag, and the address of an additional security module.
pub struct RequestMetaData {
    pub dest_gas_limit: u64,
    pub dest_gas_price: u64,
    pub ack_gas_limit: u64,
    pub ack_gas_price: u64,
    pub relayer_fee: u128,
    pub ack_type: u8,
    pub is_read_call: bool,
    pub asm_address: Vec<u8>,
}

/// The wire image of the metadata.
pub open spec fn spec_request_metadata(
    dest_gas_limit: u64,
    dest_gas_price: u64,
    ack_gas_limit: u64,
    ack_gas_price: u64,
    relayer_fee: u128,
    ack_type: u8,
    is_read_call: bool,
    asm_address: Seq<u8>,
) -> Seq<u8> {
    be_bytes(dest_gas_limit as nat, 8) + be_bytes(dest_gas_price as nat, 8) + be_bytes(
        ack_gas_limit as nat,
        8,
    ) + be_bytes(ack_gas_price as nat, 8) + be_bytes(relayer_fee as nat, 16) + seq![ack_type]
        + seq![if is_read_call { 1u8 } else { 0u8 }] + asm_address
}

/// Packs request metadata into its fixed byte layout.
pub fn encode_request_metadata(
    dest_gas_limit: u64,
    dest_gas_price: u64,
    ack_gas_limit: u64,
    ack_gas_price: u64,
    relayer_fee: u128,
    ack_type: u8,
    is_read_call: bool,
    asm_address: &Vec<u8>,
) -> (r: Vec<u8>)
    requires
        asm_address@.len() + 50 <= usize::MAX,
    ensures
        r@ == spec_request_metadata(
            dest_gas_limit,
            dest_gas_price,
            ack_gas_limit,
            ack_gas_price,
            relayer_fee,
            ack_type,
            is_read_call,
            asm_address@,
        ),
{
    let mut r: Vec<u8> = Vec::new();
    push_be(&mut r, dest_gas_limit as u128, 8);
    push_be(&mut r, dest_gas_price as u128, 8);
    push_be(&mut r, ack_gas_limit as u128, 8);
    push_be(&mut r, ack_gas_price as u128, 8);
    push_be(&mut r, relayer_fee, 16);
    r.push(ack_type);
    if is_read_call {
        r.push(1u8);
    } else {
        r.push(0u8);
    }
    crate::codec::push_bytes(&mut r, asm_address);
    proof {
        assert(r@ =~= spec_request_metadata(
            dest_gas_limit,
            dest_gas_price,
            ack_gas_limit,
            ack_gas_price,
            relayer_fee,
            ack_type,
            is_read_call,
            asm_address@,
        ));
    }
    r
}

impl RequestMetaData {
    /// The fixed-layout bytes handed to the gateway.
    pub fn get_abi_encoded_bytes(&self) -> (r: Vec<u8>)
        requires
            self.asm_address@.len() + 50 <= usize::MAX,
        ensures
            r@ == spec_request_metadata(
                self.dest_gas_limit,
                self.dest_gas_price,
                self.ack_gas_limit,
                self.ack_gas_price,
                self.relayer_fee,
                self.ack_type,
                self.is_read_call,
                self.asm_address@,
            ),
    {
        encode_request_metadata(
            self.dest_gas_limit,
            self.dest_gas_price,
            self.ack_gas_limit,
            self.ack_gas_price,
            self.relayer_fee,
            self.ack_type,
            self.is_read_call,
            &self.asm_address,
        )
    }
}

} // verus!
