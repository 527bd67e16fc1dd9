//! The shared error vocabulary of every vault operation.

use vstd::prelude::*;

verus! {

/// Why a vault operation was rejected. Every failure is synchronous and
/// leaves all state untouched.
#[derive(Clone, Copy, Debug, PartialEq, Eq, Structural)]
pub enum ErrorCode {
    /// The requested amount is zero, or a withdrawal exceeds the custody
    /// balance: the caller should correct the amount and resubmit.
    InvalidAmount,
    /// A vault for this owner and asset type already exists.
    AlreadyInitialized,
    /// The vault record has not been initialized.
    NotInitialized,
    /// The caller is not the principal the operation demands.
    Unauthorized,
    /// The external asset ledger refused the transfer: the authorizer does
    /// not control the source account, the source balance is too small, or
    /// the destination cannot absorb the amount.
    TransferRejected,
    /// The claim account being redeemed holds fewer claims than requested.
    InsufficientClaim,
    /// The addition would exceed the representable range; the ledger fails
    /// closed rather than wrapping.
    ArithmeticOverflow,
    /// The subtraction would go below zero; the ledger fails closed rather
    /// than wrapping.
    ArithmeticUnderflow,
}

} // verus!
