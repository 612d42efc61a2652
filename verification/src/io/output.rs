//! Outgoing records: the state of each account, flat.

use crate::model::account::{Account, AccountView};
use crate::model::common::{Amount, Client};
use vstd::prelude::*;

verus! {

/// The state of one account as it leaves the ledger.
#[derive(Debug, Clone, Copy)]
pub struct OutputAccountRecord {
    /// The client who owns the account.
    pub client: Client,
    /// The available funds.
    pub available: Amount,
    /// The funds on hold.
    pub held: Amount,
    /// All funds, available and on hold together.
    pub total: Amount,
    /// Whether the account is locked.
    pub locked: bool,
}

impl OutputAccountRecord {
    /// The record of an account.
    pub open spec fn of(account: AccountView) -> OutputAccountRecord {
        OutputAccountRecord {
            client: account.client,
            available: account.balance.available,
            held: account.balance.held,
            total: account.balance.available.plus(account.balance.held),
            locked: account.locked,
        }
    }

    /// The record of an account whose total can be held exactly.
    pub fn from(acc: Account) -> (r: Self)
        requires
            acc@.balance.can_total(),
        ensures
            r == OutputAccountRecord::of(acc@),
    {
        OutputAccountRecord {
            client: acc.client,
            available: acc.balance.available(),
            held: acc.balance.held(),
            total: acc.balance.total(),
            locked: acc.locked,
        }
    }
}

} // verus!
