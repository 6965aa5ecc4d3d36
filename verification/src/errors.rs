//! The error taxonomy shared by every handler.
//!
//! All of these are unrecoverable at the point of detection: the host chain
//! aborts the whole transaction, so a handler that returns an error leaves
//! no partial state behind.  The handlers' contracts make that explicit.

use vstd::prelude::*;

verus! {

/// A business-rule violation caught before or after decoding.
#[derive(Clone, Copy, PartialEq, Eq, Structural, Debug)]
pub enum ValidationError {
    /// A required string field (the greeting) is empty.
    EmptyPayloadField,
    /// Paired batch arrays have different lengths.
    ArityMismatch,
    /// The payload carries a sentinel failure string.
    SimulatedFailure,
    /// The attached funds do not match the declared route amount.
    FundsMismatch,
}

/// A provenance failure: the caller is not who it must be.
#[derive(Clone, Copy, PartialEq, Eq, Structural, Debug)]
pub enum AuthError {
    /// The claimed sender does not match the allowlisted remote contract.
    UnauthorizedSender,
    /// The caller is not the contract owner.
    NotOwner,
    /// The caller is not the gateway.
    NotGateway,
}

/// Everything a handler can fail with.
#[derive(Clone, Copy, PartialEq, Eq, Structural, Debug)]
pub enum Error {
    Decode(crate::codec::DecodeError),
    Validation(ValidationError),
    Auth(AuthError),
}

/// The error type of the lightweight test-dapp flavour.
#[derive(Debug, PartialEq, Eq, Structural)]
pub enum TestError {
    DecodeError,
    EmptyGreeting,
    NotFound,
}

/// Everything the token- and NFT-transfer contracts can fail with.
#[derive(Clone, Copy, PartialEq, Eq, Structural, Debug)]
pub enum TransferError {
    Auth(AuthError),
    Decode(crate::codec::DecodeError),
    Validation(ValidationError),
    /// The token id is not in the ownership table.
    TokenNotFound,
    /// No remote contract is enrolled for the chain.
    RemoteNotEnrolled,
}

} // verus!
