//! Why credit could not be spent.

use vstd::prelude::*;

verus! {

/// Why a receiving link refuses a transfer.
#[derive(Debug, Clone, Copy, PartialEq, Eq, Structural)]
pub enum ReceiverTransferError {
    /// The peer sent more than the link credit allows
    TransferLimitExceeded,
}

/// Why a sending link could not spend credit at once.
#[derive(Debug, Clone, Copy, PartialEq, Eq, Structural)]
pub enum SenderTryConsumeError {
    /// Somebody else holds the lock on the flow state
    TryLockError,

    /// The link credit does not cover the request
    InsufficientCredit,
}

/// The link credit does not cover the request.
#[derive(Debug, Clone, Copy, PartialEq, Eq, Structural)]
pub struct InsufficientCredit {}

} // verus!
