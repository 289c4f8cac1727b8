//! The engine as a whole: the fee policy, the registry of transactions and
//! the index of accounts under one root, and the calls that a host offers to
//! its users.

use vstd::prelude::*;
use crate::account_index::{recorded, AccountIndex};
use crate::asset_check::{
    OwnershipAnswer,
    OwnershipQuery,
    PromiseOutcome,
    BASE_GAS,
    CALLBACK_GAS,
    NO_DEPOSIT,
};
use crate::error::EscrowError;
use crate::fee::{checked_fee, checked_total_due, fee_for, DEFAULT_TRANSACTION_FEE, YOCTO_NEAR};
use crate::near::valid_account_id;
use crate::model::{amount_outcome, lemma_with_new, lemma_with_stored, ContractView};
use crate::registry::{lookup, record_outcome, records_wf, values_of, TransactionRegistry};
use crate::transaction::{
    listable,
    AccountId,
    Price,
    TokenId,
    Transaction,
    TransactionId,
    TransactionMetadata,
    TransactionView,
};

verus! {

/// The state of the engine.
#[derive(Clone, Debug, PartialEq, Eq)]
pub struct Contract {
    /// How many transactions have been opened: the next identifier.
    pub total_transactions: u128,
    /// The account that may change the fee.
    pub owner_id: AccountId,
    /// The fee in percent of the price.
    pub transaction_fee: u128,
    /// For each account the transactions that it opened.
    pub transactions_per_account: AccountIndex,
    /// The record of each transaction.
    pub transaction_by_id: TransactionRegistry,
    /// Descriptive data by transaction, for those that have any.
    pub transaction_metadata_by_id: Vec<(TransactionId, TransactionMetadata)>,
}

/// What the host has to move when an exchange is completed: the token goes
/// to the buyer, and the price is split between the seller and the account
/// that collects the fee.
#[derive(Debug, PartialEq, Eq)]
pub struct Settlement {
    /// The record as it stands after completion.
    pub transaction: Transaction,
    /// What the seller receives: the price less the fee.
    pub seller_amount: u128,
    /// The account that collects the fee: the owner.
    pub fee_account: AccountId,
    /// The fee at the percentage in force on completion.
    pub fee_amount: u128,
}

/// What the host has to do when a sale is called off.
#[derive(Debug, PartialEq, Eq)]
pub struct Cancellation {
    /// The record as it stands after cancellation.
    pub transaction: Transaction,
    /// Whether a deposit was in escrow, which then goes back to the seller
    /// who made it.
    pub refund_due: bool,
}

/// A transfer of currency that the host is to make.
#[derive(Debug, PartialEq, Eq)]
pub struct Payment {
    pub receiver_id: AccountId,
    pub amount: u128,
}

/// What the engine's account keeps back when it pays out its balance.
pub const RESERVE: u128 = 20 * YOCTO_NEAR;

/// The descriptive data that `entries` hold, by transaction.
pub open spec fn metadata_of(entries: Seq<(TransactionId, TransactionMetadata)>) -> Map<
    TransactionId,
    Seq<char>,
> {
    Map::new(
        |id: TransactionId| exists|i: int| 0 <= i < entries.len() && (#[trigger] entries[i]).0 == id,
        |id: TransactionId|
            entries[choose|i: int| 0 <= i < entries.len() && (#[trigger] entries[i]).0
                == id].1.categories@,
    )
}

impl View for Contract {
    type V = ContractView;

    open spec fn view(&self) -> ContractView {
        ContractView {
            total_transactions: self.total_transactions as nat,
            owner_id: self.owner_id@,
            transaction_fee: self.transaction_fee as nat,
            transactions_per_account: self.transactions_per_account@,
            transaction_by_id: self.transaction_by_id@,
            transaction_metadata_by_id: metadata_of(self.transaction_metadata_by_id@),
        }
    }
}

impl Contract {
    /// The state is consistent: the index is well-formed and the value of
    /// the whole is.
    pub open spec fn wf(&self) -> bool {
        &&& self.transactions_per_account.wf()
        &&& self@.wf()
    }

    /// Initialises the engine for `owner_id`: no transaction, a fee of two
    /// percent.
    pub fn new(owner_id: AccountId) -> (contract: Contract)
        ensures
            contract.wf(),
            contract@ == ContractView::init(owner_id@),
    {
        let contract = Contract {
            total_transactions: 0,
            owner_id,
            transaction_fee: DEFAULT_TRANSACTION_FEE,
            transactions_per_account: AccountIndex::new(),
            transaction_by_id: TransactionRegistry::new(),
            transaction_metadata_by_id: Vec::new(),
        };
        assert(contract@.transaction_metadata_by_id =~= Map::<TransactionId, Seq<char>>::empty());
        contract
    }

    /// Records `transaction_id` among the transactions of `account_id`.
    /// Nothing but the index changes.
    pub fn add_transaction_to_user(
        &mut self,
        account_id: &AccountId,
        transaction_id: &TransactionId,
    )
        requires
            old(self).transactions_per_account.wf(),
        ensures
            final(self).transactions_per_account.wf(),
            final(self)@ == (ContractView {
                transactions_per_account: recorded(
                    old(self)@.transactions_per_account,
                    account_id@,
                    *transaction_id,
                ),
                ..old(self)@
            }),
    {
        self.transactions_per_account.record(account_id, *transaction_id);
    }

    /// The number of transactions that `account_id` has opened.
    pub fn transactions_per_account(&self, account_id: AccountId) -> (count: u128)
        requires
            self.transactions_per_account.wf(),
        ensures
            count == self@.count(account_id@),
    {
        self.transactions_per_account.count(&account_id)
    }

    /// Opens a transaction on behalf of `creator_id`: it gets the next
    /// identifier, its price is stored in base units, it is `Pending` with
    /// nothing in escrow, and it is indexed under its creator.
    pub fn create_transaction(
        &mut self,
        creator_id: AccountId,
        seller_id: AccountId,
        buyer_id: AccountId,
        price: Price,
        nft_id: TokenId,
        nft_contract_id: AccountId,
    ) -> (record: Transaction)
        requires
            old(self).wf(),
            listable(price),
        ensures
            final(self).wf(),
            record@ == old(self)@.next_record(
                creator_id@,
                seller_id@,
                buyer_id@,
                price,
                nft_id@,
                nft_contract_id@,
            ),
            final(self)@ == old(self)@.with_new(record@),
    {
        let record = Transaction::new(
            self.total_transactions,
            creator_id,
            seller_id,
            buyer_id,
            price,
            nft_id,
            nft_contract_id,
        );
        self.adopt(record.clone());
        record
    }

    /// Takes in `record`, which carries the next identifier: it is stored
    /// and indexed under its creator.
    fn adopt(&mut self, record: Transaction)
        requires
            old(self).wf(),
            record.transaction_id == old(self)@.total_transactions,
            record@.wf(),
        ensures
            final(self).wf(),
            final(self)@ == old(self)@.with_new(record@),
    {
        let creator_id = record.creator_id.clone();
        let transaction_id: TransactionId = record.transaction_id;
        let ghost value = record@;
        self.transaction_by_id.append(record);
        self.total_transactions = self.transaction_by_id.len();
        self.add_transaction_to_user(&creator_id, &transaction_id);
        proof {
            assert(self@ == old(self)@.with_new(value));
            lemma_with_new(old(self)@, value);
        }
    }

    /// Rebuilds an engine from the records of its transactions, for an owner
    /// and a fee percentage: the records are taken in as they stand and
    /// indexed anew. Returns `None` unless each record is well-formed and
    /// carries the identifier of its position.
    pub fn from_records(
        owner_id: AccountId,
        transaction_fee: u128,
        records: &Vec<Transaction>,
    ) -> (engine: Option<Contract>)
        ensures
            match engine {
                Some(engine) => {
                    &&& engine.wf()
                    &&& engine@.owner_id == owner_id@
                    &&& engine@.transaction_fee == transaction_fee
                    &&& engine@.transaction_by_id == values_of(records@)
                    &&& engine@.transaction_metadata_by_id == Map::<
                        TransactionId,
                        Seq<char>,
                    >::empty()
                },
                None => !records_wf(values_of(records@)),
            },
    {
        let mut engine = Contract::new(owner_id);
        engine.transaction_fee = transaction_fee;
        assert(engine@ == (ContractView {
            transaction_fee: transaction_fee as nat,
            ..ContractView::init(owner_id@)
        }));
        let ghost stored = values_of(records@);
        let mut i: usize = 0;
        while i < records.len()
            invariant
                i <= records@.len(),
                engine.wf(),
                engine@.owner_id == owner_id@,
                engine@.transaction_fee == transaction_fee,
                engine@.transaction_by_id == stored.take(i as int),
                engine@.transaction_metadata_by_id == Map::<TransactionId, Seq<char>>::empty(),
                stored == values_of(records@),
            decreases records@.len() - i,
        {
            let record = records[i].clone();
            if record.transaction_id != i as u128 || !record.is_well_formed() {
                assert(stored[i as int] == record@);
                return None;
            }
            engine.adopt(record);
            assert(stored.take(i as int).push(stored[i as int]) =~= stored.take(i + 1));
            i += 1;
        }
        assert(stored.take(i as int) =~= stored);
        Some(engine)
    }

    /// Returns the record of `transaction_id`, or `NotFound`.
    pub fn get_transaction_by_id(
        &self,
        transaction_id: TransactionId,
    ) -> (outcome: Result<Transaction, EscrowError>)
        ensures
            record_outcome(outcome, lookup(self@.transaction_by_id, transaction_id)),
    {
        self.transaction_by_id.get(transaction_id)
    }

    /// The fee on the transaction `transaction_id` at the current percentage.
    pub fn get_transaction_fee(
        &self,
        transaction_id: TransactionId,
    ) -> (outcome: Result<u128, EscrowError>)
        ensures
            amount_outcome(outcome, self@.fee(transaction_id)),
    {
        match self.get_transaction_by_id(transaction_id) {
            Ok(record) => match checked_fee(record.price, self.transaction_fee) {
                Some(fee) => Ok(fee),
                None => Err(EscrowError::AmountOutOfRange),
            },
            Err(refusal) => Err(refusal),
        }
    }

    /// What has to be deposited for the transaction `transaction_id`: its
    /// price and the fee at the current percentage.
    pub fn get_price_plus_fee(
        &self,
        transaction_id: TransactionId,
    ) -> (outcome: Result<u128, EscrowError>)
        ensures
            amount_outcome(outcome, self@.price_plus_fee(transaction_id)),
    {
        match self.get_transaction_by_id(transaction_id) {
            Ok(record) => match checked_total_due(record.price, self.transaction_fee) {
                Some(due) => Ok(due),
                None => Err(EscrowError::AmountOutOfRange),
            },
            Err(refusal) => Err(refusal),
        }
    }

    /// Sets the fee percentage at the request of `caller`. Only the owner may
    /// do so; for anyone else nothing changes.
    pub fn set_transaction_fee(
        &mut self,
        caller: &AccountId,
        new_transaction_fee: u128,
    ) -> (outcome: Result<u128, EscrowError>)
        ensures
            old(self).wf() ==> final(self).wf(),
            final(self)@ == old(self)@.with_fee(caller@, new_transaction_fee),
            caller@ == old(self)@.owner_id ==> outcome == Ok::<u128, EscrowError>(
                new_transaction_fee,
            ),
            caller@ != old(self)@.owner_id ==> outcome == Err::<u128, EscrowError>(
                EscrowError::Unauthorized,
            ) && *final(self) == *old(self),
    {
        if *caller == self.owner_id {
            self.transaction_fee = new_transaction_fee;
            assert(self@ == (ContractView {
                transaction_fee: new_transaction_fee as nat,
                ..old(self)@
            }));
            Ok(self.transaction_fee)
        } else {
            Err(EscrowError::Unauthorized)
        }
    }

    /// The current fee percentage.
    pub fn get_transaction_fee_parameter(&self) -> (fee_percent: u128)
        ensures
            fee_percent == self@.transaction_fee,
    {
        self.transaction_fee
    }

    /// Takes the deposit of `attached_deposit` that `caller` makes on the
    /// transaction `transaction_id`. It is accepted from the seller alone,
    /// on a `Pending` transaction, where it is exactly price plus fee; the
    /// transaction is then `TokensLocked` with its deposit in escrow. Any
    /// refusal leaves the engine as it was.
    pub fn transfer_to_lock(
        &mut self,
        transaction_id: TransactionId,
        caller: &AccountId,
        attached_deposit: u128,
    ) -> (outcome: Result<Transaction, EscrowError>)
        requires
            old(self).wf(),
        ensures
            final(self).wf(),
            outcome is Ok <==> old(self)@.accepts_deposit(
                transaction_id,
                caller@,
                attached_deposit as nat,
            ),
            record_outcome(
                outcome,
                old(self)@.lock_funds(transaction_id, caller@, attached_deposit as nat),
            ),
            final(self)@ == old(self)@.after(
                old(self)@.lock_funds(transaction_id, caller@, attached_deposit as nat),
            ),
            outcome is Err ==> *final(self) == *old(self),
    {
        let record = match self.transaction_by_id.get(transaction_id) {
            Ok(record) => record,
            Err(refusal) => { return Err(refusal); },
        };
        match record.lock_funds(caller, attached_deposit, self.transaction_fee) {
            Ok(locked) => Ok(self.store(locked)),
            Err(refusal) => Err(refusal),
        }
    }

    /// Takes the token of the transaction `transaction_id` into escrow at
    /// the request of `caller`, given what the token's contract answered
    /// about the seller. It is accepted from the seller alone, on a
    /// `TokensLocked` transaction, where the answer is `Yes`; the
    /// transaction is then `TokensAndNFTLocked`. Any refusal leaves the
    /// engine as it was.
    pub fn lock_asset(
        &mut self,
        transaction_id: TransactionId,
        caller: &AccountId,
        answer: OwnershipAnswer,
    ) -> (outcome: Result<Transaction, EscrowError>)
        requires
            old(self).wf(),
        ensures
            final(self).wf(),
            record_outcome(outcome, old(self)@.lock_asset(transaction_id, caller@, answer)),
            final(self)@ == old(self)@.after(
                old(self)@.lock_asset(transaction_id, caller@, answer),
            ),
            outcome is Err ==> *final(self) == *old(self),
    {
        let record = match self.transaction_by_id.get(transaction_id) {
            Ok(record) => record,
            Err(refusal) => { return Err(refusal); },
        };
        match record.lock_asset(caller, answer) {
            Ok(locked) => Ok(self.store(locked)),
            Err(refusal) => Err(refusal),
        }
    }

    /// Completes the transaction `transaction_id` at the request of
    /// `caller`. It is accepted from the seller, the buyer and the owner, on
    /// a `TokensAndNFTLocked` transaction whose fee does not exceed its
    /// price; the transaction is then `Completed`, and the result says what
    /// the seller and the owner are to receive. Any refusal leaves the engine
    /// as it was.
    pub fn complete(
        &mut self,
        transaction_id: TransactionId,
        caller: &AccountId,
    ) -> (outcome: Result<Settlement, EscrowError>)
        requires
            old(self).wf(),
        ensures
            final(self).wf(),
            final(self)@ == old(self)@.after(old(self)@.complete(transaction_id, caller@)),
            match outcome {
                Ok(settlement) => {
                    &&& old(self)@.complete(transaction_id, caller@) == Ok::<
                        TransactionView,
                        EscrowError,
                    >(settlement.transaction@)
                    &&& settlement.fee_account@ == old(self)@.owner_id
                    &&& settlement.fee_amount == fee_for(
                        settlement.transaction.price as nat,
                        old(self)@.transaction_fee,
                    )
                    &&& settlement.seller_amount == settlement.transaction.price
                        - settlement.fee_amount
                },
                Err(refusal) => old(self)@.complete(transaction_id, caller@) == Err::<
                    TransactionView,
                    EscrowError,
                >(refusal) && *final(self) == *old(self),
            },
    {
        let record = match self.transaction_by_id.get(transaction_id) {
            Ok(record) => record,
            Err(refusal) => { return Err(refusal); },
        };
        let done = match record.complete(caller, &self.owner_id) {
            Ok(done) => done,
            Err(refusal) => { return Err(refusal); },
        };
        let fee_amount: u128 = match checked_fee(record.price, self.transaction_fee) {
            Some(fee) => fee,
            None => { return Err(EscrowError::AmountOutOfRange); },
        };
        if fee_amount > record.price {
            return Err(EscrowError::AmountOutOfRange);
        }
        let seller_amount: u128 = record.price - fee_amount;
        let fee_account = self.owner_id.clone();
        let transaction = self.store(done);
        Ok(Settlement { transaction, seller_amount, fee_account, fee_amount })
    }

    /// Cancels the transaction `transaction_id` at the request of `caller`.
    /// It is accepted from the creator and the seller, on a `Pending` or
    /// `TokensLocked` transaction; the transaction is then `Cancelled` with
    /// nothing in escrow, and the result says whether a deposit has to go
    /// back. Any refusal leaves the engine as it was.
    pub fn cancel(
        &mut self,
        transaction_id: TransactionId,
        caller: &AccountId,
    ) -> (outcome: Result<Cancellation, EscrowError>)
        requires
            old(self).wf(),
        ensures
            final(self).wf(),
            final(self)@ == old(self)@.after(old(self)@.cancel(transaction_id, caller@)),
            match outcome {
                Ok(cancellation) => {
                    &&& old(self)@.cancel(transaction_id, caller@) == Ok::<
                        TransactionView,
                        EscrowError,
                    >(cancellation.transaction@)
                    &&& cancellation.refund_due == old(
                        self,
                    )@.transaction_by_id[transaction_id as int].amount_in_escrow
                },
                Err(refusal) => old(self)@.cancel(transaction_id, caller@) == Err::<
                    TransactionView,
                    EscrowError,
                >(refusal) && *final(self) == *old(self),
            },
    {
        let record = match self.transaction_by_id.get(transaction_id) {
            Ok(record) => record,
            Err(refusal) => { return Err(refusal); },
        };
        let refund_due = record.amount_in_escrow;
        match record.cancel(caller) {
            Ok(cancelled) => {
                let transaction = self.store(cancelled);
                Ok(Cancellation { transaction, refund_due })
            },
            Err(refusal) => Err(refusal),
        }
    }

    /// Tells whether `account_id` is a well-formed account identifier.
    pub fn verify_account_id(&self, account_id: AccountId) -> (valid: bool)
        ensures
            valid == valid_account_id(vstd::utf8::encode_utf8(account_id@)),
    {
        near_sdk::env::is_valid_account_id(account_id.as_str().as_bytes())
    }

    /// Describes the payment of the engine's balance to `receiver_id`, less
    /// the reserve that stays behind.
    pub fn pay(receiver_id: AccountId, account_balance: u128) -> (payment: Payment)
        requires
            account_balance >= RESERVE,
        ensures
            payment.receiver_id@ == receiver_id@,
            payment.amount == account_balance - RESERVE,
    {
        Payment { receiver_id, amount: account_balance - RESERVE }
    }

    /// Describes the query whether `account_id` holds a token of
    /// `nft_contract_id`. The host sends it and hands what comes back to
    /// `my_callback`.
    pub fn check_nft(account_id: AccountId, nft_contract_id: AccountId) -> (query: OwnershipQuery)
        ensures
            query.account_id@ == account_id@,
            query.nft_contract_id@ == nft_contract_id@,
            query.deposit == NO_DEPOSIT,
            query.gas == BASE_GAS,
            query.callback_deposit == NO_DEPOSIT,
            query.callback_gas == CALLBACK_GAS,
    {
        OwnershipQuery {
            account_id,
            nft_contract_id,
            deposit: NO_DEPOSIT,
            gas: BASE_GAS,
            callback_deposit: NO_DEPOSIT,
            callback_gas: CALLBACK_GAS,
        }
    }

    /// Reports what the one query that this callback belongs to established:
    /// `oops!` where it failed, else `yes` where the count it returned is
    /// positive and `no` where it is zero.
    pub fn my_callback(&self, results: &Vec<PromiseOutcome>) -> (text: String)
        requires
            results@.len() == 1,
            results@[0].readable(),
        ensures
            text@ == results@[0].answer().word(),
    {
        match results[0].read() {
            Some(answer) => answer.text(),
            None => vstd::pervasive::unreached(),
        }
    }

    /// Reports as `my_callback` does where it can, and returns `None` where
    /// `results` does not hold exactly one outcome or that outcome cannot be
    /// read.
    pub fn callback_answer(&self, results: &Vec<PromiseOutcome>) -> (text: Option<String>)
        ensures
            match text {
                Some(text) => results@.len() == 1 && results@[0].readable() && text@
                    == results@[0].answer().word(),
                None => !(results@.len() == 1 && results@[0].readable()),
            },
    {
        if results.len() != 1 {
            return None;
        }
        match results[0].read() {
            Some(_) => Some(MyContract::my_callback(self, results)),
            None => None,
        }
    }

    /// Stores `record` in place of the record with its identifier and
    /// returns what is then stored.
    fn store(&mut self, record: Transaction) -> (stored: Transaction)
        requires
            old(self).wf(),
            record.transaction_id < old(self)@.transaction_by_id.len(),
            record@.wf(),
            record@.creator_id == old(self)@.transaction_by_id[record.transaction_id as int].creator_id,
        ensures
            final(self).wf(),
            final(self)@ == old(self)@.with_stored(record@),
            stored@ == record@,
    {
        let copy = record.clone();
        self.transaction_by_id.put(record);
        proof {
            lemma_with_stored(old(self)@, copy@);
        }
        copy
    }
}

/// The callback by which the host hands the outcome of a query back.
pub trait MyContract {
    fn my_callback(&self, results: &Vec<PromiseOutcome>) -> (text: String)
        requires
            results@.len() == 1,
            results@[0].readable(),
        ensures
            text@ == results@[0].answer().word(),
    ;
}

impl MyContract for Contract {
    fn my_callback(&self, results: &Vec<PromiseOutcome>) -> (text: String) {
        Contract::my_callback(self, results)
    }
}

} // verus!
