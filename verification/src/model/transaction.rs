//! The transactions a ledger takes, and the deposit records it keeps.

use super::common::{Amount, Client, Tx};
use super::error::LedgerError;
use vstd::prelude::*;

verus! {

/// A transaction.
#[derive(Debug, PartialEq, Clone, Copy)]
pub struct Transaction {
    /// The type of the transaction.
    pub t_type: Type,
    /// The client for this transaction.
    pub client: Client,
    /// The transaction id.
    pub tx: Tx,
}

/// The type of a `Transaction`.
#[derive(Debug, PartialEq, Clone, Copy)]
pub enum Type {
    /// A deposit.
    Deposit(Deposit),
    /// A withdrawal.
    Withdrawal(Withdrawal),
    /// A dispute.
    Dispute,
    /// A resolve.
    Resolve,
    /// A chargeback.
    Chargeback,
}

/// Parameters for a deposit, and the record an account keeps of it.
#[derive(Debug, PartialEq, Clone, Copy)]
pub struct Deposit {
    /// The amount to deposit.
    pub amount: Amount,
    /// A dispute status.
    pub dispute_status: DisputeStatus,
}

/// Parameters for a withdrawal.
#[derive(Debug, PartialEq, Clone, Copy)]
pub struct Withdrawal {
    /// The amount to withdraw.
    pub amount: Amount,
}

/// The dispute status of a deposit.
///
/// `Closed`, the status a deposit starts with: no dispute is pending.
/// `Opened`: a dispute is pending resolution.
#[derive(Debug, PartialEq, Eq, Structural, Clone, Copy)]
pub enum DisputeStatus {
    Closed,
    Opened,
}

impl Default for DisputeStatus {
    fn default() -> (r: Self)
        ensures
            r == DisputeStatus::Closed,
    {
        DisputeStatus::Closed
    }
}

impl Type {
    /// The amount a deposit or a withdrawal carries is valid.
    pub open spec fn wf(self) -> bool {
        match self {
            Type::Deposit(deposit) => deposit.amount.wf(),
            Type::Withdrawal(withdrawal) => withdrawal.amount.wf(),
            _ => true,
        }
    }
}

impl Transaction {
    /// The amount the transaction carries, if any, is valid.
    pub open spec fn wf(self) -> bool {
        self.t_type.wf()
    }
}

impl Deposit {
    /// This record with its dispute opened.
    pub open spec fn opened(self) -> Deposit {
        Deposit { amount: self.amount, dispute_status: DisputeStatus::Opened }
    }

    /// This record with its dispute closed.
    pub open spec fn closed(self) -> Deposit {
        Deposit { amount: self.amount, dispute_status: DisputeStatus::Closed }
    }

    /// Opens a dispute on this deposit, unless one is open already.
    pub fn open_dispute(&mut self) -> (r: Result<(), LedgerError>)
        ensures
            old(self).dispute_status == DisputeStatus::Closed ==> r == Ok::<(), LedgerError>(()) && *final(self) == old(
                self,
            ).opened(),
            old(self).dispute_status == DisputeStatus::Opened ==> r == Err::<(), LedgerError>(
                LedgerError::AlreadyDisputed,
            ) && *final(self) == *old(self),
    {
        if let DisputeStatus::Opened = self.dispute_status {
            return Err(LedgerError::AlreadyDisputed);
        }
        self.dispute_status = DisputeStatus::Opened;
        Ok(())
    }

    /// Closes the dispute on this deposit, if there is one.
    pub fn close_dispute(&mut self) -> (r: Result<(), LedgerError>)
        ensures
            old(self).dispute_status == DisputeStatus::Opened ==> r == Ok::<(), LedgerError>(()) && *final(self) == old(
                self,
            ).closed(),
            old(self).dispute_status == DisputeStatus::Closed ==> r == Err::<(), LedgerError>(
                LedgerError::NotDisputed,
            ) && *final(self) == *old(self),
    {
        if let DisputeStatus::Closed = self.dispute_status {
            return Err(LedgerError::NotDisputed);
        }
        self.dispute_status = DisputeStatus::Closed;
        Ok(())
    }
}

} // verus!
