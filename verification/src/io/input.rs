//! Incoming records, and their mapping to transactions.

use crate::model::common::{Amount, Client, DecimalParts, Tx};
use crate::model::transaction::{Deposit, DisputeStatus, Transaction, Type, Withdrawal};
use vstd::prelude::*;

verus! {

/// The kind of transaction an incoming record asks for.
#[derive(Debug, PartialEq, Eq, Structural, Clone, Copy)]
pub enum TransactionType {
    Deposit,
    Withdrawal,
    Dispute,
    Resolve,
    Chargeback,
}

/// An incoming record: one row of input, read but not yet checked.
#[derive(Debug, Clone, Copy)]
pub struct InputTransactionRecord {
    /// The kind of transaction.
    pub transaction_type: TransactionType,
    /// The client.
    pub client: Client,
    /// The transaction id.
    pub tx: Tx,
    /// The amount, where the row gives one.
    pub amount: Option<DecimalParts>,
}

/// Why an incoming record is no transaction.
#[derive(Debug, PartialEq, Eq, Structural, Clone, Copy)]
pub enum InputMappingError {
    /// A deposit or a withdrawal came without an amount.
    MissingAmount { transaction_type: TransactionType, tx: Tx },
    /// A deposit or a withdrawal came with a negative amount.
    InvalidAmount { dec_amount: DecimalParts, tx: Tx },
}

/// The amount a record carries, as a deposit or withdrawal needs it.
pub open spec fn mandatory_amount(record: InputTransactionRecord) -> Result<
    Amount,
    InputMappingError,
> {
    match record.amount {
        None => Err(
            InputMappingError::MissingAmount {
                transaction_type: record.transaction_type,
                tx: record.tx,
            },
        ),
        Some(dec_amount) => if dec_amount.mantissa() < 0 {
            Err(InputMappingError::InvalidAmount { dec_amount, tx: record.tx })
        } else {
            Ok(Amount::of(dec_amount))
        },
    }
}

/// The amount a record carries, as a deposit or withdrawal needs it.
fn read_amount(record: &InputTransactionRecord) -> (r: Result<Amount, InputMappingError>)
    ensures
        r == mandatory_amount(*record),
{
    let dec_amount = match record.amount {
        Some(dec_amount) => dec_amount,
        None => {
            return Err(
                InputMappingError::MissingAmount {
                    transaction_type: record.transaction_type,
                    tx: record.tx,
                },
            );
        },
    };
    match Amount::try_from(dec_amount) {
        Ok(amount) => Ok(amount),
        Err(_) => Err(InputMappingError::InvalidAmount { dec_amount, tx: record.tx }),
    }
}

/// The transaction a record asks for, or what is wrong with the record. A
/// deposit or a withdrawal needs an amount that is not negative; the other
/// kinds carry none.
pub open spec fn transaction_of(record: InputTransactionRecord) -> Result<
    Transaction,
    InputMappingError,
> {
    let client = record.client;
    let tx = record.tx;
    match record.transaction_type {
        TransactionType::Deposit => match mandatory_amount(record) {
            Ok(amount) => Ok(
                Transaction {
                    t_type: Type::Deposit(
                        Deposit { amount, dispute_status: DisputeStatus::Closed },
                    ),
                    client,
                    tx,
                },
            ),
            Err(e) => Err(e),
        },
        TransactionType::Withdrawal => match mandatory_amount(record) {
            Ok(amount) => Ok(
                Transaction { t_type: Type::Withdrawal(Withdrawal { amount }), client, tx },
            ),
            Err(e) => Err(e),
        },
        TransactionType::Dispute => Ok(Transaction { t_type: Type::Dispute, client, tx }),
        TransactionType::Resolve => Ok(Transaction { t_type: Type::Resolve, client, tx }),
        TransactionType::Chargeback => Ok(Transaction { t_type: Type::Chargeback, client, tx }),
    }
}

impl TryFrom<InputTransactionRecord> for Transaction {
    type Error = InputMappingError;

    /// Maps a record to the transaction it asks for. A deposit or a
    /// withdrawal needs an amount that is not negative; the other kinds
    /// carry none, and an amount given with them is left aside.
    fn try_from(raw_record: InputTransactionRecord) -> (r: Result<Self, Self::Error>) {
        let tx = raw_record.tx;
        let client = raw_record.client;
        match raw_record.transaction_type {
            TransactionType::Deposit => {
                let amount = match read_amount(&raw_record) {
                    Ok(amount) => amount,
                    Err(e) => return Err(e),
                };
                Ok(
                    Transaction {
                        client,
                        tx,
                        t_type: Type::Deposit(
                            Deposit { dispute_status: DisputeStatus::default(), amount },
                        ),
                    },
                )
            },
            TransactionType::Withdrawal => {
                let amount = match read_amount(&raw_record) {
                    Ok(amount) => amount,
                    Err(e) => return Err(e),
                };
                Ok(Transaction { client, tx, t_type: Type::Withdrawal(Withdrawal { amount }) })
            },
            TransactionType::Dispute => Ok(Transaction { t_type: Type::Dispute, client, tx }),
            TransactionType::Resolve => Ok(Transaction { t_type: Type::Resolve, client, tx }),
            TransactionType::Chargeback => Ok(Transaction { t_type: Type::Chargeback, client, tx }),
        }
    }
}

impl vstd::std_specs::convert::TryFromSpecImpl<InputTransactionRecord> for Transaction {
    open spec fn obeys_try_from_spec() -> bool {
        true
    }

    open spec fn try_from_spec(record: InputTransactionRecord) -> Result<Self, Self::Error> {
        transaction_of(record)
    }
}

/// The transactions among a run of records, in the order of the records.
pub open spec fn mapped_transactions(records: Seq<InputTransactionRecord>) -> Seq<Transaction>
    decreases records.len(),
{
    if records.len() == 0 {
        Seq::empty()
    } else {
        let before = mapped_transactions(records.drop_last());
        match transaction_of(records.last()) {
            Ok(transaction) => before.push(transaction),
            Err(_) => before,
        }
    }
}

/// What is wrong with the records of a run that are no transactions, in
/// the order of the records.
pub open spec fn mapping_errors(records: Seq<InputTransactionRecord>) -> Seq<InputMappingError>
    decreases records.len(),
{
    if records.len() == 0 {
        Seq::empty()
    } else {
        let before = mapping_errors(records.drop_last());
        match transaction_of(records.last()) {
            Ok(_) => before,
            Err(e) => before.push(e),
        }
    }
}

/// Maps records to transactions. A record that is no transaction is left
/// out of the transactions, and what is wrong with it is returned beside
/// them; the order of the records is kept in both.
pub fn map_transactions(records: Vec<InputTransactionRecord>) -> (r: (
    Vec<Transaction>,
    Vec<InputMappingError>,
))
    ensures
        r.0@ == mapped_transactions(records@),
        r.1@ == mapping_errors(records@),
{
    let mut transactions: Vec<Transaction> = Vec::new();
    let mut errors: Vec<InputMappingError> = Vec::new();
    let mut i: usize = 0;
    while i < records.len()
        invariant
            i <= records.len(),
            transactions@ == mapped_transactions(records@.take(i as int)),
            errors@ == mapping_errors(records@.take(i as int)),
        decreases records.len() - i,
    {
        proof {
            assert(records@.take(i + 1).drop_last() == records@.take(i as int));
        }
        match Transaction::try_from(records[i]) {
            Ok(transaction) => transactions.push(transaction),
            Err(e) => errors.push(e),
        }
        i = i + 1;
    }
    proof {
        assert(records@.take(i as int) == records@);
    }
    (transactions, errors)
}

} // verus!
