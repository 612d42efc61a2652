//! The ledger: every client's account, and the routing of transactions.

use super::account::{
    lemma_funds_never_negative, lemma_new_account_valid, lemma_step_keeps_valid, Account,
    AccountView,
};
use super::common::Client;
use super::error::LedgerError;
use super::transaction::Transaction;
use std::collections::HashMap;
use vstd::prelude::*;

verus! {

/// What a ledger holds.
pub struct LedgerView {
    /// The accounts, by the number of their client.
    pub accounts: Map<u16, AccountView>,
}

impl LedgerView {
    /// The ledger without accounts.
    pub open spec fn empty() -> LedgerView {
        LedgerView { accounts: Map::empty() }
    }

    /// The account that transactions of `client` go to: the one the ledger
    /// holds for the client, or else a new one.
    pub open spec fn account_for(self, client: Client) -> AccountView {
        if self.accounts.contains_key(client.0) {
            self.accounts[client.0]
        } else {
            AccountView::new(client)
        }
    }

    /// The ledger with `account` held for `client`.
    pub open spec fn with_account(self, client: Client, account: AccountView) -> LedgerView {
        LedgerView { accounts: self.accounts.insert(client.0, account) }
    }

    /// Whether every amount that a transaction makes the ledger compute can
    /// be held exactly.
    pub open spec fn accepts(self, txn: Transaction) -> bool {
        self.account_for(txn.client).accepts(txn)
    }

    /// The ledger after a transaction: the client's account has taken it,
    /// and no other account has changed.
    pub open spec fn after(self, txn: Transaction) -> LedgerView {
        self.with_account(txn.client, self.account_for(txn.client).after(txn))
    }

    /// The result of a transaction: that of the client's account.
    pub open spec fn outcome(self, txn: Transaction) -> Result<(), LedgerError> {
        self.account_for(txn.client).outcome(txn)
    }

    /// The ledger after a transaction was tried: where the ledger does not
    /// accept it, nothing has changed.
    pub open spec fn after_try(self, txn: Transaction) -> LedgerView {
        if self.accepts(txn) {
            self.after(txn)
        } else {
            self
        }
    }

    /// The result of trying a transaction: `None` where the ledger does not
    /// accept it.
    pub open spec fn outcome_of_try(self, txn: Transaction) -> Option<Result<(), LedgerError>> {
        if self.accepts(txn) {
            Some(self.outcome(txn))
        } else {
            None
        }
    }

    /// The ledger after a run of transactions, each tried in turn.
    pub open spec fn after_all(self, txns: Seq<Transaction>) -> LedgerView
        decreases txns.len(),
    {
        if txns.len() == 0 {
            self
        } else {
            self.after_all(txns.drop_last()).after_try(txns.last())
        }
    }

    /// The results of a run of transactions, each tried in turn.
    pub open spec fn outcomes_of_all(self, txns: Seq<Transaction>) -> Seq<
        Option<Result<(), LedgerError>>,
    >
        decreases txns.len(),
    {
        if txns.len() == 0 {
            Seq::empty()
        } else {
            self.outcomes_of_all(txns.drop_last()).push(
                self.after_all(txns.drop_last()).outcome_of_try(txns.last()),
            )
        }
    }
}

impl LedgerView {
    /// Every account is valid and is held under the number of its client.
    pub open spec fn wf(self) -> bool {
        forall|c: u16|
            self.accounts.contains_key(c) ==> (#[trigger] self.accounts[c]).wf()
                && self.accounts[c].client == Client(c)
    }
}

/// A transaction reaches the account of its client only: every other
/// account stays as it is, and no account leaves the ledger.
pub proof fn lemma_other_accounts_untouched(ledger: LedgerView, txn: Transaction, other: Client)
    requires
        other != txn.client,
    ensures
        ledger.after_try(txn).accounts.contains_key(other.0) == ledger.accounts.contains_key(
            other.0,
        ),
        ledger.after_try(txn).account_for(other) == ledger.account_for(other),
        ledger.accounts.contains_key(txn.client.0) ==> ledger.after_try(txn).accounts.contains_key(
            txn.client.0,
        ),
{
}

/// A valid ledger stays valid whatever transaction is tried on it, and it
/// never answers `Unauthorized`: the account that a transaction reaches is
/// that of its client.
pub proof fn lemma_try_keeps_valid(ledger: LedgerView, txn: Transaction)
    requires
        ledger.wf(),
        txn.wf(),
    ensures
        ledger.after_try(txn).wf(),
        ledger.outcome_of_try(txn) != Some(Err::<(), LedgerError>(LedgerError::Unauthorized)),
{
    let account = ledger.account_for(txn.client);
    lemma_new_account_valid(txn.client);
    if ledger.accepts(txn) {
        lemma_step_keeps_valid(account, txn);
    }
}

/// Every ledger that a run of valid transactions leaves is valid: in each
/// of its accounts, the available funds and the funds on hold are not
/// negative.
pub proof fn lemma_run_keeps_valid(txns: Seq<Transaction>)
    requires
        forall|i: int| 0 <= i < txns.len() ==> (#[trigger] txns[i]).wf(),
    ensures
        LedgerView::empty().after_all(txns).wf(),
        forall|c: u16| #[trigger]
            LedgerView::empty().after_all(txns).accounts.contains_key(c) ==> {
                &&& LedgerView::empty().after_all(txns).accounts[c].balance.available.units() >= 0
                &&& LedgerView::empty().after_all(txns).accounts[c].balance.held.units() >= 0
            },
    decreases txns.len(),
{
    if txns.len() > 0 {
        lemma_run_keeps_valid(txns.drop_last());
        lemma_try_keeps_valid(LedgerView::empty().after_all(txns.drop_last()), txns.last());
    }
    let ledger = LedgerView::empty().after_all(txns);
    assert forall|c: u16| #[trigger] ledger.accounts.contains_key(c) implies ledger.accounts[c].balance.available.units()
        >= 0 && ledger.accounts[c].balance.held.units() >= 0 by {
        lemma_funds_never_negative(ledger.accounts[c]);
    }
}

/// What each account of a map holds.
pub open spec fn account_views(accounts: Map<u16, Account>) -> Map<u16, AccountView> {
    accounts.map_values(|account: Account| account@)
}

/// Putting an account into a map puts what it holds among what the map's
/// accounts hold.
pub proof fn lemma_account_views_insert(accounts: Map<u16, Account>, key: u16, account: Account)
    ensures
        account_views(accounts.insert(key, account)) == account_views(accounts).insert(
            key,
            account@,
        ),
{
    assert(account_views(accounts.insert(key, account)) =~= account_views(accounts).insert(
        key,
        account@,
    ));
}

/// A ledger: the state of a set of accounts after a run of transactions.
#[derive(Debug)]
pub struct Ledger {
    /// The accounts, by the number of their client.
    pub accounts: HashMap<u16, Account>,
}

impl View for Ledger {
    type V = LedgerView;

    open spec fn view(&self) -> LedgerView {
        LedgerView { accounts: account_views(self.accounts@) }
    }
}

impl Default for Ledger {
    /// The ledger without accounts.
    fn default() -> (r: Self)
        ensures
            r@ == LedgerView::empty(),
    {
        let r = Self { accounts: HashMap::new() };
        assert(r@.accounts =~= Map::empty());
        r
    }
}

impl Ledger {
    /// Whether every amount that `txn` makes the ledger compute can be held
    /// exactly.
    pub fn accepts(&self, txn: &Transaction) -> (r: bool)
        ensures
            r == self@.accepts(*txn),
    {
        match self.accounts.get(&txn.client.0) {
            Some(account) => account.accepts(txn),
            None => Account::new(txn.client).accepts(txn),
        }
    }

    /// Apply a transaction: it goes to the account of its client, which is
    /// created if the ledger holds none yet, and the account's result is
    /// returned as it is.
    pub fn apply(&mut self, txn: Transaction) -> (r: Result<(), LedgerError>)
        requires
            old(self)@.accepts(txn),
        ensures
            r == old(self)@.outcome(txn),
            final(self)@ == old(self)@.after(txn),
    {
        self.get_account_for(txn.client).apply(txn)
    }

    /// Try a transaction: apply it where the ledger accepts it, and leave
    /// the ledger as it is, returning `None`, where it does not.
    pub fn try_apply(&mut self, txn: Transaction) -> (r: Option<Result<(), LedgerError>>)
        ensures
            r == old(self)@.outcome_of_try(txn),
            final(self)@ == old(self)@.after_try(txn),
    {
        if self.accepts(&txn) {
            Some(self.apply(txn))
        } else {
            None
        }
    }

    /// Get the account for a client: the existing one, or a new one if the
    /// ledger holds none yet.
    pub fn get_account_for(&mut self, client: Client) -> (account: &mut Account)
        ensures
            account@ == old(self)@.account_for(client),
            final(self)@ == old(self)@.with_account(client, final(account)@),
    {
        proof {
            assert forall|account: Account| #[trigger]
                account_views(self.accounts@.insert(client.0, account)) == account_views(
                    self.accounts@,
                ).insert(client.0, account@) by {
                lemma_account_views_insert(self.accounts@, client.0, account);
            }
        }
        self.accounts.entry(client.0).or_insert(Account::new(client))
    }
}

} // verus!
