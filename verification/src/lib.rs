//! Cross-chain message passing for a family of sample dApp contracts.
//!
//! The heart of the crate is an Ethereum-ABI-style tuple codec: payloads
//! exchanged between contracts on heterogeneous chains are packed into a
//! fixed binary layout (32-byte words, head/tail regions, big-endian
//! integers) so that both sides agree byte for byte.  Around the codec sit
//! the handler state machines shared by every chain flavour: an outbound
//! request builder, an inbound receive handler, and an acknowledgement
//! handler, each persisting its results in explicit record stores.

pub mod codec;
pub mod errors;
pub mod handlers;
pub mod ink_test_dapp;
pub mod metadata;
pub mod near_ping_pong;
pub mod near_test_dapp;
pub mod ping_pong;
pub mod rate_limit;
pub mod solana_ping_pong;
pub mod test_dapp;
pub mod store;
pub mod version;
pub mod xerc1155;
pub mod xerc20;
pub mod xerc721;
