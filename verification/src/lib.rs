//! A small payments ledger: typed transactions are tallied into per-client
//! account states, with every balance rule stated as a contract.

pub mod io;
pub mod model;

use crate::model::error::LedgerError;
use crate::model::ledger::{Ledger, LedgerView};
use crate::model::transaction::Transaction;
use vstd::prelude::*;

verus! {

/// Process transactions: tries each of `txns` in turn on a new ledger, and
/// returns the ledger with the result of each transaction. A transaction
/// that is refused changes nothing and does not stop the run.
pub fn process_transactions(txns: Vec<Transaction>) -> (r: (
    Ledger,
    Vec<Option<Result<(), LedgerError>>>,
))
    ensures
        r.0@ == LedgerView::empty().after_all(txns@),
        r.1@ == LedgerView::empty().outcomes_of_all(txns@),
{
    let mut ledger = Ledger::default();
    let mut outcomes: Vec<Option<Result<(), LedgerError>>> = Vec::new();
    let mut i: usize = 0;
    while i < txns.len()
        invariant
            i <= txns.len(),
            ledger@ == LedgerView::empty().after_all(txns@.take(i as int)),
            outcomes@ == LedgerView::empty().outcomes_of_all(txns@.take(i as int)),
        decreases txns.len() - i,
    {
        proof {
            assert(txns@.take(i + 1).drop_last() == txns@.take(i as int));
        }
        let outcome = ledger.try_apply(txns[i]);
        outcomes.push(outcome);
        i = i + 1;
    }
    proof {
        assert(txns@.take(i as int) == txns@);
    }
    (ledger, outcomes)
}

} // verus!
