//! The funds of one account.

use super::common::Amount;
use super::error::LedgerError;
use vstd::prelude::*;

verus! {

/// What a balance holds.
pub struct BalanceView {
    /// The available funds.
    pub available: Amount,
    /// The funds on hold.
    pub held: Amount,
}

impl BalanceView {
    /// Both amounts are valid.
    pub open spec fn wf(self) -> bool {
        self.available.wf() && self.held.wf()
    }

    /// The balance with no funds at all.
    pub open spec fn zero() -> BalanceView {
        BalanceView { available: Amount::zero(), held: Amount::zero() }
    }

    /// The value of all funds, available and held, in units of `10^-28`.
    pub open spec fn total_units(self) -> int {
        self.available.units() + self.held.units()
    }

    /// Whether the available funds are at least `amount`.
    pub open spec fn covers(self, amount: Amount) -> bool {
        self.available.units() >= amount.units()
    }

    /// Whether the funds on hold are at least `amount`.
    pub open spec fn holds(self, amount: Amount) -> bool {
        self.held.units() >= amount.units()
    }

    /// Whether the total can be held exactly.
    pub open spec fn can_total(self) -> bool {
        self.available.can_add(&self.held)
    }

    /// Whether a credit of `amount` can be held exactly.
    pub open spec fn can_credit(self, amount: Amount) -> bool {
        self.available.can_add(&amount)
    }

    /// The balance after a credit.
    pub open spec fn credited(self, amount: Amount) -> BalanceView {
        BalanceView { available: self.available.plus(amount), held: self.held }
    }

    /// Whether a debit of `amount`, where it is covered, can be held exactly.
    pub open spec fn can_debit(self, amount: Amount) -> bool {
        self.covers(amount) ==> self.available.can_sub(&amount)
    }

    /// The balance after a debit that is covered.
    pub open spec fn debited(self, amount: Amount) -> BalanceView {
        BalanceView { available: self.available.minus(amount), held: self.held }
    }

    /// Whether putting `amount` on hold, where it is covered, can be held
    /// exactly.
    pub open spec fn can_hold(self, amount: Amount) -> bool {
        self.covers(amount) ==> self.available.can_sub(&amount) && self.held.can_add(&amount)
    }

    /// The balance after `amount` went from available to on hold.
    pub open spec fn with_hold(self, amount: Amount) -> BalanceView {
        BalanceView { available: self.available.minus(amount), held: self.held.plus(amount) }
    }

    /// Whether releasing `amount`, where that much is on hold, can be held
    /// exactly.
    pub open spec fn can_release(self, amount: Amount) -> bool {
        self.holds(amount) ==> self.held.can_sub(&amount) && self.available.can_add(&amount)
    }

    /// The balance after `amount` went from on hold back to available.
    pub open spec fn released(self, amount: Amount) -> BalanceView {
        BalanceView { available: self.available.plus(amount), held: self.held.minus(amount) }
    }

    /// Whether reimbursing `amount`, where that much is on hold, can be held
    /// exactly.
    pub open spec fn can_reimburse(self, amount: Amount) -> bool {
        self.holds(amount) ==> self.held.can_sub(&amount)
    }

    /// The balance after `amount` left the funds on hold.
    pub open spec fn reimbursed(self, amount: Amount) -> BalanceView {
        BalanceView { available: self.available, held: self.held.minus(amount) }
    }
}

/// The balance of an account.
///
/// A balance starts at zero, and its funds change only through the
/// operations below, each of which checks that the funds suffice.
#[derive(Debug)]
pub struct Balance {
    /// The available funds.
    available: Amount,
    /// The funds on hold.
    held: Amount,
}

impl View for Balance {
    type V = BalanceView;

    closed spec fn view(&self) -> BalanceView {
        BalanceView { available: self.available, held: self.held }
    }
}

impl Default for Balance {
    /// The balance with no funds at all.
    fn default() -> (r: Self)
        ensures
            r@ == BalanceView::zero(),
    {
        Self { available: Amount::zero(), held: Amount::zero() }
    }
}

impl Balance {
    /// The currently available funds.
    #[must_use]
    pub fn available(&self) -> (r: Amount)
        ensures
            r == self@.available,
    {
        self.available
    }

    /// The funds currently on hold.
    #[must_use]
    pub fn held(&self) -> (r: Amount)
        ensures
            r == self@.held,
    {
        self.held
    }

    /// Whether the total can be held exactly.
    pub fn can_total(&self) -> (r: bool)
        ensures
            r == self@.can_total(),
    {
        self.available.can_add(&self.held)
    }

    /// Whether a credit of `amount` can be held exactly.
    pub fn can_credit(&self, amount: Amount) -> (r: bool)
        ensures
            r == self@.can_credit(amount),
    {
        self.available.can_add(&amount)
    }

    /// Whether a debit of `amount`, where it is covered, can be held exactly.
    pub fn can_debit(&self, amount: Amount) -> (r: bool)
        ensures
            r == self@.can_debit(amount),
    {
        !(self.available >= amount) || self.available.can_sub(&amount)
    }

    /// Whether putting `amount` on hold, where it is covered, can be held
    /// exactly.
    pub fn can_hold(&self, amount: Amount) -> (r: bool)
        ensures
            r == self@.can_hold(amount),
    {
        !(self.available >= amount) || (self.available.can_sub(&amount) && self.held.can_add(
            &amount,
        ))
    }

    /// Whether releasing `amount`, where that much is on hold, can be held
    /// exactly.
    pub fn can_release(&self, amount: Amount) -> (r: bool)
        ensures
            r == self@.can_release(amount),
    {
        !(self.held >= amount) || (self.held.can_sub(&amount) && self.available.can_add(&amount))
    }

    /// Whether reimbursing `amount`, where that much is on hold, can be held
    /// exactly.
    pub fn can_reimburse(&self, amount: Amount) -> (r: bool)
        ensures
            r == self@.can_reimburse(amount),
    {
        !(self.held >= amount) || self.held.can_sub(&amount)
    }

    /// The total funds, available and on hold together.
    #[must_use]
    pub fn total(&self) -> (r: Amount)
        requires
            self@.can_total(),
        ensures
            r == self@.available.plus(self@.held),
            r.units() == self@.total_units(),
    {
        proof {
            use_type_invariant(&self.available);
            use_type_invariant(&self.held);
            self.available.lemma_plus(self.held);
        }
        self.available + self.held
    }

    /// Perform a credit: adds `amount` to the available funds.
    pub fn credit(&mut self, amount: Amount)
        requires
            old(self)@.can_credit(amount),
        ensures
            final(self)@ == old(self)@.credited(amount),
    {
        self.available = self.available + amount;
    }

    /// Perform a debit: takes `amount` from the available funds, if they
    /// suffice.
    pub fn debit(&mut self, amount: Amount) -> (r: Result<(), LedgerError>)
        requires
            old(self)@.can_debit(amount),
        ensures
            old(self)@.covers(amount) ==> r == Ok::<(), LedgerError>(()) && final(self)@ == old(self)@.debited(amount),
            !old(self)@.covers(amount) ==> r == Err::<(), LedgerError>(
                LedgerError::InsufficientFunds,
            ) && final(self)@ == old(self)@,
    {
        if self.available >= amount {
            self.available = self.available - amount;
            Ok(())
        } else {
            Err(LedgerError::InsufficientFunds)
        }
    }

    /// Put funds on hold: moves `amount` from available to on hold, if the
    /// available funds suffice.
    pub fn hold(&mut self, amount: Amount) -> (r: Result<(), LedgerError>)
        requires
            old(self)@.can_hold(amount),
        ensures
            old(self)@.covers(amount) ==> r == Ok::<(), LedgerError>(()) && final(self)@ == old(self)@.with_hold(amount),
            !old(self)@.covers(amount) ==> r == Err::<(), LedgerError>(
                LedgerError::InsufficientFunds,
            ) && final(self)@ == old(self)@,
    {
        if self.available >= amount {
            self.available = self.available - amount;
            self.held = self.held + amount;
            Ok(())
        } else {
            Err(LedgerError::InsufficientFunds)
        }
    }

    /// Release funds from hold: moves `amount` from on hold back to
    /// available, if that much is on hold.
    pub fn release(&mut self, amount: Amount) -> (r: Result<(), LedgerError>)
        requires
            old(self)@.can_release(amount),
        ensures
            old(self)@.holds(amount) ==> r == Ok::<(), LedgerError>(()) && final(self)@ == old(self)@.released(amount),
            !old(self)@.holds(amount) ==> r == Err::<(), LedgerError>(
                LedgerError::InsufficientHeldFunds,
            ) && final(self)@ == old(self)@,
    {
        if self.held >= amount {
            self.held = self.held - amount;
            self.available = self.available + amount;
            Ok(())
        } else {
            Err(LedgerError::InsufficientHeldFunds)
        }
    }

    /// Reimburse held funds: takes `amount` from the funds on hold, if that
    /// much is on hold. The available funds stay as they are.
    pub fn reimburse(&mut self, amount: Amount) -> (r: Result<(), LedgerError>)
        requires
            old(self)@.can_reimburse(amount),
        ensures
            old(self)@.holds(amount) ==> r == Ok::<(), LedgerError>(()) && final(self)@ == old(self)@.reimbursed(amount),
            !old(self)@.holds(amount) ==> r == Err::<(), LedgerError>(
                LedgerError::InsufficientHeldFunds,
            ) && final(self)@ == old(self)@,
    {
        if self.held >= amount {
            self.held = self.held - amount;
            Ok(())
        } else {
            Err(LedgerError::InsufficientHeldFunds)
        }
    }
}

} // verus!
