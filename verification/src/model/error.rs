//! The ways in which a transaction can be refused.

use vstd::prelude::*;

verus! {

/// Why a transaction was not applied.
#[derive(Debug, PartialEq, Eq, Structural, Clone, Copy)]
pub enum LedgerError {
    /// The transaction belongs to another client than the account.
    Unauthorized,
    /// The account is locked for good.
    AccountLocked,
    /// More was asked for than is available.
    InsufficientFunds,
    /// More was asked for than is on hold.
    InsufficientHeldFunds,
    /// The account holds no deposit under the transaction id.
    DepositNotFound,
    /// The deposit is already under dispute.
    AlreadyDisputed,
    /// The deposit is not under dispute.
    NotDisputed,
}

} // verus!
