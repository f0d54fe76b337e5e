//! Error taxonomy shared by every operation of the SDK.

use vstd::prelude::*;

verus! {

/// Why a payment was refused before anything was sent. Each variant carries
/// the position of the offending payment in its batch.
#[derive(Debug, Clone, Copy, PartialEq, Eq, Structural)]
pub enum ValidationError {
    /// The amount is not positive, or exceeds the total supply.
    InvalidAmount { index: usize },
    /// The memo is longer than the protocol allows; `length` is its size in bytes.
    MemoTooLarge { index: usize, length: usize },
    /// A memo was attached to a payment whose recipient cannot receive in any
    /// shielded pool.
    MemoOnTransparentAddress { index: usize },
    /// The recipient string is not a Zcash address.
    InvalidAddress { index: usize },
}

impl ValidationError {
    /// Position of the refused payment in the batch.
    pub open spec fn spec_index(self) -> usize {
        match self {
            ValidationError::InvalidAmount { index } => index,
            ValidationError::MemoTooLarge { index, .. } => index,
            ValidationError::MemoOnTransparentAddress { index } => index,
            ValidationError::InvalidAddress { index } => index,
        }
    }

    /// Position of the refused payment in the batch.
    #[verifier::when_used_as_spec(spec_index)]
    pub fn index(self) -> (i: usize)
        ensures
            i == self.spec_index(),
    {
        match self {
            ValidationError::InvalidAmount { index } => index,
            ValidationError::MemoTooLarge { index, .. } => index,
            ValidationError::MemoOnTransparentAddress { index } => index,
            ValidationError::InvalidAddress { index } => index,
        }
    }
}

/// Errors reported by the SDK.
#[derive(Debug, Clone, PartialEq, Eq)]
pub enum Error {
    /// A consensus or protocol rule was violated.
    Protocol(String),
    /// The wallet's own state is inconsistent (for example a balance that
    /// does not fit the integer range).
    Wallet(String),
    /// The remote service answered with an error, or could not be reached.
    Rpc(String),
    /// Transport failure.
    Network(String),
    /// A value could not be encoded or decoded.
    Serialization(String),
    /// An address string could not be parsed.
    Address(String),
    /// Key derivation failed.
    KeyDerivation(String),
    /// A transaction could not be built, or the remote processor reported
    /// that it failed.
    Transaction(String),
    /// Local input or output failed.
    Io(String),
    /// Wallet storage failed.
    Database(String),
    /// A caller-supplied parameter is unusable.
    InvalidParameter(String),
    /// A payment was refused by local validation.
    Validation(ValidationError),
    /// The wait budget ran out while the operation was still pending. The
    /// operation was not reported as failed and may still complete.
    Timeout { operation_id: String, waited_seconds: u64 },
}

/// Result type of SDK operations.
pub type Result<T> = std::result::Result<T, Error>;

impl Error {
    /// A copy of the error.
    pub fn duplicate(&self) -> (copy: Error)
        ensures
            copy == *self,
    {
        match self {
            Error::Protocol(text) => Error::Protocol(text.clone()),
            Error::Wallet(text) => Error::Wallet(text.clone()),
            Error::Rpc(text) => Error::Rpc(text.clone()),
            Error::Network(text) => Error::Network(text.clone()),
            Error::Serialization(text) => Error::Serialization(text.clone()),
            Error::Address(text) => Error::Address(text.clone()),
            Error::KeyDerivation(text) => Error::KeyDerivation(text.clone()),
            Error::Transaction(text) => Error::Transaction(text.clone()),
            Error::Io(text) => Error::Io(text.clone()),
            Error::Database(text) => Error::Database(text.clone()),
            Error::InvalidParameter(text) => Error::InvalidParameter(text.clone()),
            Error::Validation(violation) => Error::Validation(*violation),
            Error::Timeout { operation_id, waited_seconds } => Error::Timeout {
                operation_id: operation_id.clone(),
                waited_seconds: *waited_seconds,
            },
        }
    }
}

} // verus!
