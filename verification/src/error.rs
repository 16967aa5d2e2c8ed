//! The error taxonomy: every rejection an operation can return.

use vstd::prelude::*;

verus! {

/// The program's own rejection codes, one per rule of the adapter.
#[derive(Clone, Copy, PartialEq, Eq, Structural, Debug)]
pub enum ErrorCode {
    /// The reserve's owner-authority is not the derived authority.
    OutputStorageAuthorityDoesNotMatch,
    /// The reserve has a close-authority configured.
    OutputStorageMustNotBeCloseable,
    /// The reserve has a spending delegate configured.
    OutputStorageMustNotBeDelegated,
    /// The caller's input account holds a different token type.
    InvalidInputMint,
    /// The signer is neither the input account's owner nor its delegate.
    InvalidInputAuthority,
    /// Decommission's sweep destination is the reserve itself.
    InvalidCloseTokenTarget,
}

/// Everything an operation can fail with: the program's own codes plus the
/// rejections of the surrounding access-check layer and of the ledger.
#[derive(Clone, Copy, PartialEq, Eq, Structural, Debug)]
pub enum TokadaptError {
    /// One of the program's own rules was broken.
    Program(ErrorCode),
    /// The signer is not the recorded admin authority.
    Unauthorized,
    /// A supplied account is not the one the record or the derivation names.
    AccountMismatch,
    /// No valid authority address could be derived (statistically impossible).
    DerivationFailed,
    /// The requested amount exceeds the reserve's balance.
    InsufficientFunds,
    /// Provisioning was handed a slot that already holds a record.
    StateNotFresh,
    /// An operation was handed a slot that holds no live record.
    StateNotLive,
    /// Provisioning was handed a slot that is not rent-covered.
    NotRentCovered,
}

impl TokadaptError {
    /// A short description of the failure, for callers that surface it.
    pub fn message(&self) -> (r: &'static str)
    {
        match self {
            TokadaptError::Program(ErrorCode::OutputStorageAuthorityDoesNotMatch) => {
                "treasury token authority does not match"
            },
            TokadaptError::Program(ErrorCode::OutputStorageMustNotBeCloseable) => {
                "treasury token account must not be closeable"
            },
            TokadaptError::Program(ErrorCode::OutputStorageMustNotBeDelegated) => {
                "treasury token account must not be delegated"
            },
            TokadaptError::Program(ErrorCode::InvalidInputMint) => "invalid input mint",
            TokadaptError::Program(ErrorCode::InvalidInputAuthority) => "invalid input authority",
            TokadaptError::Program(ErrorCode::InvalidCloseTokenTarget) => {
                "close token target must differ from storage"
            },
            TokadaptError::Unauthorized => "signer is not the admin authority",
            TokadaptError::AccountMismatch => "account does not match the record",
            TokadaptError::DerivationFailed => "no authority address could be derived",
            TokadaptError::InsufficientFunds => "insufficient funds",
            TokadaptError::StateNotFresh => "state slot already holds a record",
            TokadaptError::StateNotLive => "state slot holds no record",
            TokadaptError::NotRentCovered => "state slot is not rent-covered",
        }
    }
}

} // verus!
