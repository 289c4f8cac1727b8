//! The records of all transactions, each under the identifier it was given
//! when it was opened. Identifiers count up from zero and no record ever
//! leaves, so no identifier is used twice.

use vstd::prelude::*;
use crate::error::EscrowError;
use crate::transaction::{
    listable,
    opened,
    AccountId,
    Price,
    TokenId,
    Transaction,
    TransactionId,
    TransactionView,
};

verus! {

/// The canonical record of every transaction: the record with identifier `i`
/// stands at position `i`.
#[derive(Clone, Debug, PartialEq, Eq)]
pub struct TransactionRegistry {
    pub records: Vec<Transaction>,
}

/// The mathematical value of a `TransactionRegistry`: the records by identifier.
pub type RegistryView = Seq<TransactionView>;

/// Every record is well-formed and carries the identifier of its position.
pub open spec fn records_wf(records: RegistryView) -> bool {
    forall|i: int|
        0 <= i < records.len() ==> (#[trigger] records[i]).transaction_id == i && records[i].wf()
}

/// What a look-up of `transaction_id` in `records` gives.
pub open spec fn lookup(
    records: RegistryView,
    transaction_id: TransactionId,
) -> Result<TransactionView, EscrowError> {
    if transaction_id < records.len() {
        Ok(records[transaction_id as int])
    } else {
        Err(EscrowError::NotFound)
    }
}

/// The values of `records`, one by one.
pub open spec fn values_of(records: Seq<Transaction>) -> RegistryView {
    records.map_values(|record: Transaction| record@)
}

/// Whether `outcome` is what `expected` says: the same refusal, or a record
/// with the expected value.
pub open spec fn record_outcome(
    outcome: Result<Transaction, EscrowError>,
    expected: Result<TransactionView, EscrowError>,
) -> bool {
    match outcome {
        Ok(record) => expected == Ok::<TransactionView, EscrowError>(record@),
        Err(refusal) => expected == Err::<TransactionView, EscrowError>(refusal),
    }
}

impl View for TransactionRegistry {
    type V = RegistryView;

    open spec fn view(&self) -> RegistryView {
        values_of(self.records@)
    }
}

impl TransactionRegistry {
    pub open spec fn wf(&self) -> bool {
        records_wf(self@)
    }

    /// A registry without records.
    pub fn new() -> (registry: TransactionRegistry)
        ensures
            registry.wf(),
            registry@ == Seq::<TransactionView>::empty(),
    {
        let registry = TransactionRegistry { records: Vec::new() };
        assert(registry@ =~= Seq::<TransactionView>::empty());
        registry
    }

    /// The number of records, which is the identifier that the next record gets.
    pub fn len(&self) -> (count: u128)
        ensures
            count == self@.len(),
    {
        self.records.len() as u128
    }

    /// Opens a record under the next identifier, stores it and returns it.
    pub fn create(
        &mut self,
        creator_id: AccountId,
        seller_id: AccountId,
        buyer_id: AccountId,
        price: Price,
        nft_id: TokenId,
        nft_contract_id: AccountId,
    ) -> (record: Transaction)
        requires
            old(self).wf(),
            listable(price),
        ensures
            final(self).wf(),
            record@ == opened(
                old(self)@.len() as TransactionId,
                creator_id@,
                seller_id@,
                buyer_id@,
                price,
                nft_id@,
                nft_contract_id@,
            ),
            final(self)@ == old(self)@.push(record@),
    {
        let transaction_id: u128 = self.records.len() as u128;
        let record = Transaction::new(
            transaction_id,
            creator_id,
            seller_id,
            buyer_id,
            price,
            nft_id,
            nft_contract_id,
        );
        self.append(record.clone());
        record
    }

    /// Stores `record`, which carries the next identifier, behind the
    /// records that are there.
    pub fn append(&mut self, record: Transaction)
        requires
            old(self).wf(),
            record.transaction_id == old(self)@.len(),
            record@.wf(),
        ensures
            final(self).wf(),
            final(self)@ == old(self)@.push(record@),
    {
        let ghost value = record@;
        self.records.push(record);
        assert(self@ =~= old(self)@.push(value));
    }

    /// Returns a copy of the record of `transaction_id`.
    pub fn get(&self, transaction_id: TransactionId) -> (outcome: Result<Transaction, EscrowError>)
        ensures
            record_outcome(outcome, lookup(self@, transaction_id)),
    {
        if transaction_id < self.records.len() as u128 {
            Ok(self.records[transaction_id as usize].clone())
        } else {
            Err(EscrowError::NotFound)
        }
    }

    /// Replaces the stored record of `record.transaction_id` by `record`.
    pub fn put(&mut self, record: Transaction)
        requires
            old(self).wf(),
            record.transaction_id < old(self)@.len(),
            record@.wf(),
        ensures
            final(self).wf(),
            final(self)@ == old(self)@.update(record.transaction_id as int, record@),
    {
        let ghost value = record@;
        let count: usize = self.records.len();
        assert(record.transaction_id < count);
        let position: usize = record.transaction_id as usize;
        self.records.set(position, record);
        assert(self@ =~= old(self)@.update(position as int, value));
    }
}

} // verus!
