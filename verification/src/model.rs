//! The engine as a mathematical value, and what each call makes of it. The
//! executable calls state their effect with the functions of this file, and
//! the laws on histories of calls are proved of them.

use vstd::prelude::*;
use crate::account_index::{count_of, ids_of, recorded, IndexView};
use crate::asset_check::OwnershipAnswer;
use crate::error::EscrowError;
use crate::fee::{fee_for, total_due, DEFAULT_TRANSACTION_FEE};
use crate::registry::{lookup, records_wf, RegistryView};
use crate::transaction::{opened, Price, TransactionId, TransactionView};

verus! {

/// The mathematical value of a `Contract`.
pub struct ContractView {
    pub total_transactions: nat,
    pub owner_id: Seq<char>,
    pub transaction_fee: nat,
    pub transactions_per_account: IndexView,
    pub transaction_by_id: RegistryView,
    pub transaction_metadata_by_id: Map<TransactionId, Seq<char>>,
}

impl ContractView {
    /// The index holds for each account exactly the transactions whose
    /// creator it is.
    pub open spec fn indexed_by_creator(self) -> bool {
        forall|account: Seq<char>, id: TransactionId| #[trigger]
            ids_of(self.transactions_per_account, account).contains(id) <==> (id
                < self.transaction_by_id.len() && self.transaction_by_id[id as int].creator_id
                == account)
    }

    /// The index holds finitely many transactions for each account.
    pub open spec fn finitely_indexed(self) -> bool {
        forall|account: Seq<char>| #[trigger]
            ids_of(self.transactions_per_account, account).finite()
    }

    /// The counter is the number of records, every record is well-formed
    /// under its own identifier, and the index agrees with the records.
    pub open spec fn wf(self) -> bool {
        &&& self.total_transactions == self.transaction_by_id.len()
        &&& self.total_transactions <= u128::MAX
        &&& records_wf(self.transaction_by_id)
        &&& self.indexed_by_creator()
        &&& self.finitely_indexed()
    }

    /// The engine as `owner_id` initialises it.
    pub open spec fn init(owner_id: Seq<char>) -> ContractView {
        ContractView {
            total_transactions: 0,
            owner_id,
            transaction_fee: DEFAULT_TRANSACTION_FEE as nat,
            transactions_per_account: Map::empty(),
            transaction_by_id: Seq::empty(),
            transaction_metadata_by_id: Map::empty(),
        }
    }

    /// The record that the next call of `create_transaction` opens.
    pub open spec fn next_record(
        self,
        creator_id: Seq<char>,
        seller_id: Seq<char>,
        buyer_id: Seq<char>,
        price: Price,
        nft_id: Seq<char>,
        nft_contract_id: Seq<char>,
    ) -> TransactionView {
        opened(
            self.total_transactions as TransactionId,
            creator_id,
            seller_id,
            buyer_id,
            price,
            nft_id,
            nft_contract_id,
        )
    }

    /// The engine after `record` was opened: it is stored under the next
    /// identifier and indexed under its creator.
    pub open spec fn with_new(self, record: TransactionView) -> ContractView {
        ContractView {
            total_transactions: self.total_transactions + 1,
            transactions_per_account: recorded(
                self.transactions_per_account,
                record.creator_id,
                record.transaction_id,
            ),
            transaction_by_id: self.transaction_by_id.push(record),
            ..self
        }
    }

    /// The engine after the stored record of `record.transaction_id` was
    /// replaced by `record`.
    pub open spec fn with_stored(self, record: TransactionView) -> ContractView {
        ContractView {
            transaction_by_id: self.transaction_by_id.update(
                record.transaction_id as int,
                record,
            ),
            ..self
        }
    }

    /// The engine after a step on one record ended in `outcome`: the new
    /// record is stored, and a refusal changes nothing.
    pub open spec fn after(self, outcome: Result<TransactionView, EscrowError>) -> ContractView {
        match outcome {
            Ok(record) => self.with_stored(record),
            Err(_) => self,
        }
    }

    /// How many transactions `account` has opened.
    pub open spec fn count(self, account: Seq<char>) -> nat {
        count_of(self.transactions_per_account, account)
    }

    /// The fee on the transaction `transaction_id` at the current percentage.
    pub open spec fn fee(self, transaction_id: TransactionId) -> Result<nat, EscrowError> {
        match lookup(self.transaction_by_id, transaction_id) {
            Ok(record) => Ok(fee_for(record.price as nat, self.transaction_fee)),
            Err(refusal) => Err(refusal),
        }
    }

    /// Price plus fee of the transaction `transaction_id` at the current
    /// percentage.
    pub open spec fn price_plus_fee(
        self,
        transaction_id: TransactionId,
    ) -> Result<nat, EscrowError> {
        match lookup(self.transaction_by_id, transaction_id) {
            Ok(record) => Ok(total_due(record.price as nat, self.transaction_fee)),
            Err(refusal) => Err(refusal),
        }
    }

    /// The engine after `caller` asked for a fee of `new_transaction_fee`
    /// percent: the owner gets it, anyone else changes nothing.
    pub open spec fn with_fee(self, caller: Seq<char>, new_transaction_fee: u128) -> ContractView {
        if caller == self.owner_id {
            ContractView { transaction_fee: new_transaction_fee as nat, ..self }
        } else {
            self
        }
    }

    /// Whether a deposit of `attached_deposit` by `caller` on
    /// `transaction_id` is in order: the transaction exists and is
    /// `Pending`, the caller is its seller, and the deposit is exactly the
    /// price plus the fee at the current percentage.
    pub open spec fn accepts_deposit(
        self,
        transaction_id: TransactionId,
        caller: Seq<char>,
        attached_deposit: nat,
    ) -> bool {
        &&& transaction_id < self.transaction_by_id.len()
        &&& self.transaction_by_id[transaction_id as int].transaction_status is Pending
        &&& self.transaction_by_id[transaction_id as int].seller_id == caller
        &&& attached_deposit == total_due(
            self.transaction_by_id[transaction_id as int].price as nat,
            self.transaction_fee,
        )
    }

    /// What a deposit on `transaction_id` by `caller` leads to.
    pub open spec fn lock_funds(
        self,
        transaction_id: TransactionId,
        caller: Seq<char>,
        attached_deposit: nat,
    ) -> Result<TransactionView, EscrowError> {
        match lookup(self.transaction_by_id, transaction_id) {
            Ok(record) => record.lock_funds(caller, attached_deposit, self.transaction_fee),
            Err(refusal) => Err(refusal),
        }
    }

    /// What the hand-over of the token of `transaction_id` by `caller` leads
    /// to, given the answer of the token's contract.
    pub open spec fn lock_asset(
        self,
        transaction_id: TransactionId,
        caller: Seq<char>,
        answer: OwnershipAnswer,
    ) -> Result<TransactionView, EscrowError> {
        match lookup(self.transaction_by_id, transaction_id) {
            Ok(record) => record.lock_asset(caller, answer),
            Err(refusal) => Err(refusal),
        }
    }

    /// What a request by `caller` to complete `transaction_id` leads to. The
    /// owner acts as operator, and the fee must not exceed the price, or
    /// nothing would be left for the seller.
    pub open spec fn complete(
        self,
        transaction_id: TransactionId,
        caller: Seq<char>,
    ) -> Result<TransactionView, EscrowError> {
        match lookup(self.transaction_by_id, transaction_id) {
            Ok(record) => match record.complete(caller, self.owner_id) {
                Ok(done) => if fee_for(record.price as nat, self.transaction_fee) > record.price {
                    Err(EscrowError::AmountOutOfRange)
                } else {
                    Ok(done)
                },
                Err(refusal) => Err(refusal),
            },
            Err(refusal) => Err(refusal),
        }
    }

    /// What a request by `caller` to cancel `transaction_id` leads to.
    pub open spec fn cancel(
        self,
        transaction_id: TransactionId,
        caller: Seq<char>,
    ) -> Result<TransactionView, EscrowError> {
        match lookup(self.transaction_by_id, transaction_id) {
            Ok(record) => record.cancel(caller),
            Err(refusal) => Err(refusal),
        }
    }
}

/// Whether `outcome` is the amount that `expected` gives, or `AmountOutOfRange` where
/// that amount does not fit in 128 bits, or the refusal that `expected` gives.
pub open spec fn amount_outcome(
    outcome: Result<u128, EscrowError>,
    expected: Result<nat, EscrowError>,
) -> bool {
    match expected {
        Ok(amount) => if amount <= u128::MAX {
            outcome == Ok::<u128, EscrowError>(amount as u128)
        } else {
            outcome == Err::<u128, EscrowError>(EscrowError::AmountOutOfRange)
        },
        Err(refusal) => outcome == Err::<u128, EscrowError>(refusal),
    }
}

/// Opening `record` under the next identifier keeps a well-formed engine
/// well-formed and adds one to the count of its creator alone.
pub proof fn lemma_with_new(state: ContractView, record: TransactionView)
    requires
        state.wf(),
        state.total_transactions < u128::MAX,
        record.wf(),
        record.transaction_id == state.total_transactions,
    ensures
        state.with_new(record).wf(),
        forall|account: Seq<char>|
            #![trigger state.with_new(record).count(account)]
            state.with_new(record).count(account) == state.count(account) + if record.creator_id
                == account {
                1nat
            } else {
                0nat
            },
{
    let later = state.with_new(record);
    assert forall|account: Seq<char>| #[trigger]
        ids_of(later.transactions_per_account, account).finite() by {
        assert(ids_of(state.transactions_per_account, account).finite());
    }
    assert forall|account: Seq<char>, id: TransactionId| #[trigger]
        ids_of(later.transactions_per_account, account).contains(id) <==> (id
            < later.transaction_by_id.len() && later.transaction_by_id[id as int].creator_id
            == account) by {
        assert(ids_of(state.transactions_per_account, account).contains(id) <==> (id
            < state.transaction_by_id.len() && state.transaction_by_id[id as int].creator_id
            == account));
    }
    assert forall|account: Seq<char>|
        #![trigger later.count(account)]
        later.count(account) == state.count(account) + if record.creator_id == account {
            1nat
        } else {
            0nat
        } by {
        assert(ids_of(state.transactions_per_account, account).finite());
        assert(ids_of(state.transactions_per_account, account).contains(record.transaction_id)
            <==> (record.transaction_id < state.transaction_by_id.len()
            && state.transaction_by_id[record.transaction_id as int].creator_id == account));
    }
}

/// Replacing a record by a well-formed one with the same identifier and
/// creator keeps a well-formed engine well-formed.
pub proof fn lemma_with_stored(state: ContractView, record: TransactionView)
    requires
        state.wf(),
        record.transaction_id < state.transaction_by_id.len(),
        record.wf(),
        record.creator_id == state.transaction_by_id[record.transaction_id as int].creator_id,
    ensures
        state.with_stored(record).wf(),
{
    let later = state.with_stored(record);
    assert forall|account: Seq<char>, id: TransactionId| #[trigger]
        ids_of(later.transactions_per_account, account).contains(id) <==> (id
            < later.transaction_by_id.len() && later.transaction_by_id[id as int].creator_id
            == account) by {
        assert(ids_of(state.transactions_per_account, account).contains(id) <==> (id
            < state.transaction_by_id.len() && state.transaction_by_id[id as int].creator_id
            == account));
    }
}

} // verus!
