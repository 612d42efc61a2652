//! One client's account, and the rules by which it takes transactions.

use super::balance::{Balance, BalanceView};
use super::common::{Amount, Client, Tx};
use super::error::LedgerError;
use super::transaction::{Deposit, DisputeStatus, Transaction, Type};
use std::collections::HashMap;
use vstd::prelude::*;

verus! {

/// What an account holds.
pub struct AccountView {
    /// The client who owns the account.
    pub client: Client,
    /// The balance.
    pub balance: BalanceView,
    /// Whether the account is locked.
    pub locked: bool,
    /// The deposits made so far, by transaction id.
    pub deposits: Map<u32, Deposit>,
}

impl AccountView {
    /// The balance and the amount of every recorded deposit are valid.
    pub open spec fn wf(self) -> bool {
        &&& self.balance.wf()
        &&& forall|tx: u32| self.deposits.contains_key(tx) ==> (#[trigger] self.deposits[tx]).amount.wf()
    }

    /// The account a client starts with: no funds, no deposits, unlocked.
    pub open spec fn new(client: Client) -> AccountView {
        AccountView { client, balance: BalanceView::zero(), locked: false, deposits: Map::empty() }
    }

    /// The account, locked.
    pub open spec fn lock(self) -> AccountView {
        AccountView { locked: true, ..self }
    }

    /// The account with another balance.
    pub open spec fn with_balance(self, balance: BalanceView) -> AccountView {
        AccountView { balance, ..self }
    }

    /// The account with `deposit` recorded under `tx`, in place of what was
    /// recorded there before.
    pub open spec fn with_deposit(self, tx: Tx, deposit: Deposit) -> AccountView {
        AccountView { deposits: self.deposits.insert(tx.0, deposit), ..self }
    }

    /// Whether a deposit is recorded under `tx`.
    pub open spec fn has_deposit(self, tx: Tx) -> bool {
        self.deposits.contains_key(tx.0)
    }

    /// The deposit recorded under `tx`.
    pub open spec fn deposit(self, tx: Tx) -> Deposit {
        self.deposits[tx.0]
    }

    /// What a transaction does to an account that belongs to its client and
    /// is not locked: the account afterwards, and the result.
    pub open spec fn dispatch(self, txn: Transaction) -> (AccountView, Result<(), LedgerError>) {
        match txn.t_type {
            Type::Deposit(deposit) => (
                self.with_balance(self.balance.credited(deposit.amount)).with_deposit(
                    txn.tx,
                    deposit.closed(),
                ),
                Ok(()),
            ),
            Type::Withdrawal(withdrawal) => if self.balance.covers(withdrawal.amount) {
                (self.with_balance(self.balance.debited(withdrawal.amount)), Ok(()))
            } else {
                (self, Err(LedgerError::InsufficientFunds))
            },
            Type::Dispute => if !self.has_deposit(txn.tx) {
                (self, Err(LedgerError::DepositNotFound))
            } else if self.deposit(txn.tx).dispute_status == DisputeStatus::Opened {
                (self, Err(LedgerError::AlreadyDisputed))
            } else {
                let deposit = self.deposit(txn.tx);
                let opened = self.with_deposit(txn.tx, deposit.opened());
                if self.balance.covers(deposit.amount) {
                    (opened.with_balance(self.balance.with_hold(deposit.amount)), Ok(()))
                } else {
                    (opened, Err(LedgerError::InsufficientFunds))
                }
            },
            Type::Resolve => if !self.has_deposit(txn.tx) {
                (self, Err(LedgerError::DepositNotFound))
            } else if self.deposit(txn.tx).dispute_status == DisputeStatus::Closed {
                (self, Err(LedgerError::NotDisputed))
            } else {
                let deposit = self.deposit(txn.tx);
                let closed = self.with_deposit(txn.tx, deposit.closed());
                if self.balance.holds(deposit.amount) {
                    (closed.with_balance(self.balance.released(deposit.amount)), Ok(()))
                } else {
                    (closed, Err(LedgerError::InsufficientHeldFunds))
                }
            },
            Type::Chargeback => if !self.has_deposit(txn.tx) {
                (self, Err(LedgerError::DepositNotFound))
            } else if self.deposit(txn.tx).dispute_status == DisputeStatus::Closed {
                (self, Err(LedgerError::NotDisputed))
            } else {
                let deposit = self.deposit(txn.tx);
                let closed = self.with_deposit(txn.tx, deposit.closed()).lock();
                if self.balance.holds(deposit.amount) {
                    (closed.with_balance(self.balance.reimbursed(deposit.amount)), Ok(()))
                } else {
                    (closed, Err(LedgerError::InsufficientHeldFunds))
                }
            },
        }
    }

    /// What a transaction does to an account: the account afterwards, and
    /// the result. A transaction of another client is refused, then one on
    /// a locked account, and neither changes anything.
    pub open spec fn step(self, txn: Transaction) -> (AccountView, Result<(), LedgerError>) {
        if txn.client != self.client {
            (self, Err(LedgerError::Unauthorized))
        } else if self.locked {
            (self, Err(LedgerError::AccountLocked))
        } else {
            self.dispatch(txn)
        }
    }

    /// The account after a transaction.
    pub open spec fn after(self, txn: Transaction) -> AccountView {
        self.step(txn).0
    }

    /// The result of a transaction.
    pub open spec fn outcome(self, txn: Transaction) -> Result<(), LedgerError> {
        self.step(txn).1
    }

    /// Whether every amount that a transaction makes the account compute
    /// can be held exactly.
    pub open spec fn accepts(self, txn: Transaction) -> bool {
        txn.client != self.client || self.locked || match txn.t_type {
            Type::Deposit(deposit) => self.balance.can_credit(deposit.amount),
            Type::Withdrawal(withdrawal) => self.balance.can_debit(withdrawal.amount),
            Type::Dispute => self.has_deposit(txn.tx) && self.deposit(txn.tx).dispute_status
                == DisputeStatus::Closed ==> self.balance.can_hold(self.deposit(txn.tx).amount),
            Type::Resolve => self.has_deposit(txn.tx) && self.deposit(txn.tx).dispute_status
                == DisputeStatus::Opened ==> self.balance.can_release(self.deposit(txn.tx).amount),
            Type::Chargeback => self.has_deposit(txn.tx) && self.deposit(txn.tx).dispute_status
                == DisputeStatus::Opened ==> self.balance.can_reimburse(
                self.deposit(txn.tx).amount,
            ),
        }
    }
}

/// A new account is valid.
pub proof fn lemma_new_account_valid(client: Client)
    ensures
        AccountView::new(client).wf(),
        AccountView::new(client).balance.total_units() == 0,
{
    Amount::lemma_zero();
}

/// The funds of a valid account are never negative, neither the available
/// funds nor those on hold.
pub proof fn lemma_funds_never_negative(account: AccountView)
    requires
        account.wf(),
    ensures
        account.balance.available.units() >= 0,
        account.balance.held.units() >= 0,
{
    account.balance.available.lemma_never_negative();
    account.balance.held.lemma_never_negative();
}

/// A valid account stays valid whatever transaction it takes, and its funds
/// are not negative afterwards.
pub proof fn lemma_step_keeps_valid(account: AccountView, txn: Transaction)
    requires
        account.wf(),
        txn.wf(),
        account.accepts(txn),
    ensures
        account.after(txn).wf(),
        account.after(txn).balance.available.units() >= 0,
        account.after(txn).balance.held.units() >= 0,
{
    let balance = account.balance;
    if txn.client == account.client && !account.locked {
        match txn.t_type {
            Type::Deposit(deposit) => {
                balance.available.lemma_plus(deposit.amount);
            },
            Type::Withdrawal(withdrawal) => {
                if balance.covers(withdrawal.amount) {
                    balance.available.lemma_minus(withdrawal.amount);
                }
            },
            Type::Dispute => {
                if account.has_deposit(txn.tx) {
                    let amount = account.deposit(txn.tx).amount;
                    if account.deposit(txn.tx).dispute_status == DisputeStatus::Closed
                        && balance.covers(amount) {
                        balance.available.lemma_minus(amount);
                        balance.held.lemma_plus(amount);
                    }
                }
            },
            Type::Resolve => {
                if account.has_deposit(txn.tx) {
                    let amount = account.deposit(txn.tx).amount;
                    if account.deposit(txn.tx).dispute_status == DisputeStatus::Opened
                        && balance.holds(amount) {
                        balance.held.lemma_minus(amount);
                        balance.available.lemma_plus(amount);
                    }
                }
            },
            Type::Chargeback => {
                if account.has_deposit(txn.tx) {
                    let amount = account.deposit(txn.tx).amount;
                    if account.deposit(txn.tx).dispute_status == DisputeStatus::Opened
                        && balance.holds(amount) {
                        balance.held.lemma_minus(amount);
                    }
                }
            },
        }
    }
    lemma_funds_never_negative(account.after(txn));
}

/// A deposit that succeeds adds exactly its amount to the total funds.
pub proof fn lemma_deposit_adds_to_total(account: AccountView, txn: Transaction)
    requires
        account.wf(),
        txn.wf(),
        account.accepts(txn),
        txn.t_type is Deposit,
        account.outcome(txn) is Ok,
    ensures
        account.after(txn).balance.total_units() == account.balance.total_units()
            + txn.t_type->Deposit_0.amount.units(),
{
    account.balance.available.lemma_plus(txn.t_type->Deposit_0.amount);
}

/// A withdrawal that succeeds takes exactly its amount from the total
/// funds.
pub proof fn lemma_withdrawal_takes_from_total(account: AccountView, txn: Transaction)
    requires
        account.wf(),
        txn.wf(),
        account.accepts(txn),
        txn.t_type is Withdrawal,
        account.outcome(txn) is Ok,
    ensures
        account.after(txn).balance.total_units() == account.balance.total_units()
            - txn.t_type->Withdrawal_0.amount.units(),
{
    account.balance.available.lemma_minus(txn.t_type->Withdrawal_0.amount);
}

/// A dispute or a resolve never changes the total funds, whether it
/// succeeds or not: it only moves funds between available and on hold.
pub proof fn lemma_dispute_and_resolve_keep_total(account: AccountView, txn: Transaction)
    requires
        account.wf(),
        account.accepts(txn),
        txn.t_type is Dispute || txn.t_type is Resolve,
    ensures
        account.after(txn).balance.total_units() == account.balance.total_units(),
{
    let balance = account.balance;
    if txn.client == account.client && !account.locked && account.has_deposit(txn.tx) {
        let amount = account.deposit(txn.tx).amount;
        if txn.t_type is Dispute && account.deposit(txn.tx).dispute_status
            == DisputeStatus::Closed && balance.covers(amount) {
            balance.available.lemma_minus(amount);
            balance.held.lemma_plus(amount);
        }
        if txn.t_type is Resolve && account.deposit(txn.tx).dispute_status
            == DisputeStatus::Opened && balance.holds(amount) {
            balance.held.lemma_minus(amount);
            balance.available.lemma_plus(amount);
        }
    }
}

/// A chargeback that succeeds takes the disputed amount from the funds on
/// hold, and so from the total, and locks the account; one that fails
/// leaves the total as it is.
pub proof fn lemma_chargeback_takes_held_funds(account: AccountView, txn: Transaction)
    requires
        account.wf(),
        account.accepts(txn),
        txn.t_type is Chargeback,
    ensures
        account.outcome(txn) is Ok ==> {
            &&& account.after(txn).locked
            &&& account.after(txn).balance.available == account.balance.available
            &&& account.after(txn).balance.total_units() == account.balance.total_units()
                - account.deposit(txn.tx).amount.units()
        },
        account.outcome(txn) is Err ==> account.after(txn).balance == account.balance,
{
    if account.outcome(txn) is Ok {
        account.balance.held.lemma_minus(account.deposit(txn.tx).amount);
    }
}

/// No transaction that is refused changes the balance.
pub proof fn lemma_refusal_keeps_balance(account: AccountView, txn: Transaction)
    ensures
        account.outcome(txn) is Err ==> account.after(txn).balance == account.balance,
{
}

/// Once an account is locked, every further transaction of its client
/// fails with `AccountLocked` and changes nothing; whatever the
/// transaction, the account stays locked.
pub proof fn lemma_locked_account_refuses(account: AccountView, txn: Transaction)
    requires
        account.locked,
    ensures
        txn.client == account.client ==> account.outcome(txn) == Err::<(), LedgerError>(
            LedgerError::AccountLocked,
        ),
        account.outcome(txn) is Err,
        account.after(txn) == account,
        account.accepts(txn),
{
}

/// No transaction unlocks an account.
pub proof fn lemma_lock_is_for_good(account: AccountView, txn: Transaction)
    ensures
        account.locked ==> account.after(txn).locked,
{
}

/// A deposit can be disputed again once its dispute is resolved: on an
/// unlocked account, a deposit, a dispute of it, a resolve and a second
/// dispute all succeed, and the second dispute finds the deposit closed and
/// opens it again.
pub proof fn lemma_dispute_again_after_resolve(
    account: AccountView,
    deposit: Transaction,
    dispute: Transaction,
    resolve: Transaction,
)
    requires
        account.wf(),
        deposit.wf(),
        !account.locked,
        deposit.t_type is Deposit,
        dispute.t_type is Dispute,
        resolve.t_type is Resolve,
        deposit.client == account.client,
        dispute.client == account.client,
        resolve.client == account.client,
        dispute.tx == deposit.tx,
        resolve.tx == deposit.tx,
        account.accepts(deposit),
        account.after(deposit).accepts(dispute),
        account.after(deposit).after(dispute).accepts(resolve),
        account.after(deposit).after(dispute).after(resolve).accepts(dispute),
    ensures
        account.outcome(deposit) is Ok,
        account.after(deposit).outcome(dispute) is Ok,
        account.after(deposit).after(dispute).outcome(resolve) is Ok,
        account.after(deposit).after(dispute).after(resolve).deposit(deposit.tx).dispute_status
            == DisputeStatus::Closed,
        account.after(deposit).after(dispute).after(resolve).outcome(dispute) is Ok,
        account.after(deposit).after(dispute).after(resolve).after(dispute).deposit(
            deposit.tx,
        ).dispute_status == DisputeStatus::Opened,
{
    let amount = deposit.t_type->Deposit_0.amount;
    let s1 = account.after(deposit);
    lemma_funds_never_negative(account);
    account.balance.available.lemma_plus(amount);
    assert(s1.balance.covers(amount));
    let s2 = s1.after(dispute);
    s1.balance.available.lemma_minus(amount);
    s1.balance.held.lemma_plus(amount);
    assert(s2.balance.holds(amount));
    let s3 = s2.after(resolve);
    s2.balance.held.lemma_minus(amount);
    s2.balance.available.lemma_plus(amount);
    assert(s3.balance.covers(amount));
}

/// A deposit cannot be disputed after its chargeback: a deposit, a dispute
/// of it and a chargeback succeed and leave the account locked, so that
/// every later transaction of the client, a dispute too, fails with
/// `AccountLocked`.
pub proof fn lemma_no_dispute_after_chargeback(
    account: AccountView,
    deposit: Transaction,
    dispute: Transaction,
    chargeback: Transaction,
    later: Transaction,
)
    requires
        account.wf(),
        deposit.wf(),
        !account.locked,
        deposit.t_type is Deposit,
        dispute.t_type is Dispute,
        chargeback.t_type is Chargeback,
        deposit.client == account.client,
        dispute.client == account.client,
        chargeback.client == account.client,
        later.client == account.client,
        dispute.tx == deposit.tx,
        chargeback.tx == deposit.tx,
        account.accepts(deposit),
        account.after(deposit).accepts(dispute),
        account.after(deposit).after(dispute).accepts(chargeback),
    ensures
        account.outcome(deposit) is Ok,
        account.after(deposit).outcome(dispute) is Ok,
        account.after(deposit).after(dispute).outcome(chargeback) is Ok,
        account.after(deposit).after(dispute).after(chargeback).locked,
        account.after(deposit).after(dispute).after(chargeback).outcome(later) == Err::<
            (),
            LedgerError,
        >(LedgerError::AccountLocked),
        account.after(deposit).after(dispute).after(chargeback).after(later) == account.after(
            deposit,
        ).after(dispute).after(chargeback),
{
    let amount = deposit.t_type->Deposit_0.amount;
    let s1 = account.after(deposit);
    lemma_funds_never_negative(account);
    account.balance.available.lemma_plus(amount);
    assert(s1.balance.covers(amount));
    let s2 = s1.after(dispute);
    s1.balance.available.lemma_minus(amount);
    s1.balance.held.lemma_plus(amount);
    assert(s2.balance.holds(amount));
}

/// A client's account.
#[derive(Debug)]
pub struct Account {
    /// The client who owns the account.
    pub client: Client,
    /// The balance on this account.
    pub balance: Balance,
    /// This account's locked status.
    pub locked: bool,
    /// The deposits made so far, by the number of their transaction id.
    pub deposits: HashMap<u32, Deposit>,
}

impl View for Account {
    type V = AccountView;

    open spec fn view(&self) -> AccountView {
        AccountView {
            client: self.client,
            balance: self.balance@,
            locked: self.locked,
            deposits: self.deposits@,
        }
    }
}

impl Account {
    /// Initialize an account: a new account for the client with no funds,
    /// no deposits, and unlocked.
    #[must_use]
    pub fn new(client: Client) -> (r: Self)
        ensures
            r@ == AccountView::new(client),
    {
        Self { client, balance: Balance::default(), locked: false, deposits: HashMap::new() }
    }

    /// Lock the account.
    pub fn lock(&mut self)
        ensures
            final(self)@ == old(self)@.lock(),
    {
        self.locked = true;
    }

    /// Whether every amount that `transaction` makes the account compute
    /// can be held exactly.
    pub fn accepts(&self, transaction: &Transaction) -> (r: bool)
        ensures
            r == self@.accepts(*transaction),
    {
        if self.bail_if_unauthorized(transaction.client).is_err() || self.bail_if_locked().is_err() {
            return true;
        }
        match transaction.t_type {
            Type::Deposit(deposit) => self.balance.can_credit(deposit.amount),
            Type::Withdrawal(withdrawal) => self.balance.can_debit(withdrawal.amount),
            Type::Dispute => match self.get_deposit(transaction.tx) {
                Ok(deposit) => deposit.dispute_status == DisputeStatus::Opened
                    || self.balance.can_hold(deposit.amount),
                Err(_) => true,
            },
            Type::Resolve => match self.get_deposit(transaction.tx) {
                Ok(deposit) => deposit.dispute_status == DisputeStatus::Closed
                    || self.balance.can_release(deposit.amount),
                Err(_) => true,
            },
            Type::Chargeback => match self.get_deposit(transaction.tx) {
                Ok(deposit) => deposit.dispute_status == DisputeStatus::Closed
                    || self.balance.can_reimburse(deposit.amount),
                Err(_) => true,
            },
        }
    }

    /// Apply a transaction.
    ///
    /// A transaction of another client is refused, then any transaction on
    /// a locked account. Otherwise the transaction is carried out as far as
    /// the account's state allows; the result says how far.
    pub fn apply(&mut self, transaction: Transaction) -> (r: Result<(), LedgerError>)
        requires
            old(self)@.accepts(transaction),
        ensures
            r == old(self)@.outcome(transaction),
            final(self)@ == old(self)@.after(transaction),
    {
        match self.bail_if_unauthorized(transaction.client) {
            Err(e) => return Err(e),
            Ok(()) => {},
        }
        match self.bail_if_locked() {
            Err(e) => return Err(e),
            Ok(()) => {},
        }
        match transaction.t_type {
            Type::Deposit(deposit) => {
                self.balance.credit(deposit.amount);
                self.deposits.insert(
                    transaction.tx.0,
                    Deposit { amount: deposit.amount, dispute_status: DisputeStatus::Closed },
                );
                Ok(())
            },
            Type::Withdrawal(withdrawal) => self.balance.debit(withdrawal.amount),
            Type::Dispute => {
                let mut deposit = match self.get_deposit(transaction.tx) {
                    Ok(deposit) => deposit,
                    Err(e) => return Err(e),
                };
                match deposit.open_dispute() {
                    Err(e) => return Err(e),
                    Ok(()) => {},
                }
                self.deposits.insert(transaction.tx.0, deposit);
                self.balance.hold(deposit.amount)
            },
            Type::Resolve => {
                let mut deposit = match self.get_deposit(transaction.tx) {
                    Ok(deposit) => deposit,
                    Err(e) => return Err(e),
                };
                match deposit.close_dispute() {
                    Err(e) => return Err(e),
                    Ok(()) => {},
                }
                self.deposits.insert(transaction.tx.0, deposit);
                self.balance.release(deposit.amount)
            },
            Type::Chargeback => {
                let mut deposit = match self.get_deposit(transaction.tx) {
                    Ok(deposit) => deposit,
                    Err(e) => return Err(e),
                };
                match deposit.close_dispute() {
                    Err(e) => return Err(e),
                    Ok(()) => {},
                }
                self.deposits.insert(transaction.tx.0, deposit);
                self.lock();
                self.balance.reimburse(deposit.amount)
            },
        }
    }

    /// The deposit recorded under `tx`.
    fn get_deposit(&self, tx: Tx) -> (r: Result<Deposit, LedgerError>)
        ensures
            self@.has_deposit(tx) ==> r == Ok::<Deposit, LedgerError>(self@.deposit(tx)),
            !self@.has_deposit(tx) ==> r == Err::<Deposit, LedgerError>(
                LedgerError::DepositNotFound,
            ),
    {
        match self.deposits.get(&tx.0) {
            Some(deposit) => Ok(*deposit),
            None => Err(LedgerError::DepositNotFound),
        }
    }

    /// Refuses every transaction once the account is locked.
    fn bail_if_locked(&self) -> (r: Result<(), LedgerError>)
        ensures
            r == if self.locked {
                Err::<(), LedgerError>(LedgerError::AccountLocked)
            } else {
                Ok::<(), LedgerError>(())
            },
    {
        if self.locked {
            return Err(LedgerError::AccountLocked);
        }
        Ok(())
    }

    /// Refuses the transactions of any other client.
    fn bail_if_unauthorized(&self, client: Client) -> (r: Result<(), LedgerError>)
        ensures
            r == if self.client != client {
                Err::<(), LedgerError>(LedgerError::Unauthorized)
            } else {
                Ok::<(), LedgerError>(())
            },
    {
        if self.client != client {
            return Err(LedgerError::Unauthorized);
        }
        Ok(())
    }
}

} // verus!
