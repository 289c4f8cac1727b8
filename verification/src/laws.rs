//! What holds of the engine over whole histories of calls. A history is a
//! sequence of calls; `run` replays it on the value of the engine, call by
//! call, with the same functions by which the executable calls state their
//! effect.

use vstd::prelude::*;
use crate::account_index::ids_of;
use crate::asset_check::OwnershipAnswer;
use crate::error::EscrowError;
use crate::model::{lemma_with_new, lemma_with_stored, ContractView};
use crate::transaction::{listable, Price, TransactionId, TransactionStatus, TransactionView};

verus! {

/// One call that changes the engine, with its arguments.
pub enum Call {
    CreateTransaction {
        creator_id: Seq<char>,
        seller_id: Seq<char>,
        buyer_id: Seq<char>,
        price: Price,
        nft_id: Seq<char>,
        nft_contract_id: Seq<char>,
    },
    SetTransactionFee { caller: Seq<char>, new_transaction_fee: u128 },
    TransferToLock { transaction_id: TransactionId, caller: Seq<char>, attached_deposit: u128 },
    LockAsset { transaction_id: TransactionId, caller: Seq<char>, answer: OwnershipAnswer },
    Complete { transaction_id: TransactionId, caller: Seq<char> },
    Cancel { transaction_id: TransactionId, caller: Seq<char> },
}

impl Call {
    /// Whether the call opens a transaction.
    pub open spec fn creates(self) -> bool {
        self is CreateTransaction
    }

    /// Whether the call asks for another fee in the name of `account`.
    pub open spec fn sets_fee_as(self, account: Seq<char>) -> bool {
        self matches Call::SetTransactionFee { caller, .. } && caller == account
    }

    /// Whether the call opens a transaction on behalf of `account`.
    pub open spec fn creates_for(self, account: Seq<char>) -> bool {
        self matches Call::CreateTransaction { creator_id, .. } && creator_id == account
    }
}

/// How many calls of `calls` open a transaction.
pub open spec fn creations(calls: Seq<Call>) -> nat
    decreases calls.len(),
{
    if calls.len() == 0 {
        0
    } else {
        creations(calls.drop_last()) + if calls.last().creates() {
            1nat
        } else {
            0nat
        }
    }
}

/// How many calls of `calls` open a transaction on behalf of `account`.
pub open spec fn creations_by(calls: Seq<Call>, account: Seq<char>) -> nat
    decreases calls.len(),
{
    if calls.len() == 0 {
        0
    } else {
        creations_by(calls.drop_last(), account) + if calls.last().creates_for(account) {
            1nat
        } else {
            0nat
        }
    }
}

impl ContractView {
    /// Whether `call` may be made on this engine: a transaction is opened at
    /// a listable price, and while identifiers are left.
    pub open spec fn admits(self, call: Call) -> bool {
        call matches Call::CreateTransaction { price, .. } ==> (listable(price)
            && self.total_transactions < u128::MAX)
    }

    /// The engine after `call`.
    pub open spec fn step(self, call: Call) -> ContractView {
        match call {
            Call::CreateTransaction {
                creator_id,
                seller_id,
                buyer_id,
                price,
                nft_id,
                nft_contract_id,
            } => self.with_new(
                self.next_record(creator_id, seller_id, buyer_id, price, nft_id, nft_contract_id),
            ),
            Call::SetTransactionFee { caller, new_transaction_fee } => self.with_fee(
                caller,
                new_transaction_fee,
            ),
            Call::TransferToLock { transaction_id, caller, attached_deposit } => self.after(
                self.lock_funds(transaction_id, caller, attached_deposit as nat),
            ),
            Call::LockAsset { transaction_id, caller, answer } => self.after(
                self.lock_asset(transaction_id, caller, answer),
            ),
            Call::Complete { transaction_id, caller } => self.after(
                self.complete(transaction_id, caller),
            ),
            Call::Cancel { transaction_id, caller } => self.after(
                self.cancel(transaction_id, caller),
            ),
        }
    }

    /// The engine after the calls of `calls`, one after the other.
    pub open spec fn run(self, calls: Seq<Call>) -> ContractView
        decreases calls.len(),
    {
        if calls.len() == 0 {
            self
        } else {
            self.run(calls.drop_last()).step(calls.last())
        }
    }

    /// Whether each call of `calls` may be made when its turn comes.
    pub open spec fn admits_all(self, calls: Seq<Call>) -> bool
        decreases calls.len(),
    {
        calls.len() > 0 ==> self.admits_all(calls.drop_last()) && self.run(
            calls.drop_last(),
        ).admits(calls.last())
    }

    /// Whether the record of `transaction_id` is, in `later`, what it is
    /// here or what a legal change of status has made of it.
    pub open spec fn advanced_in(self, later: ContractView, transaction_id: int) -> bool {
        let old_record = self.transaction_by_id[transaction_id];
        let new_record = later.transaction_by_id[transaction_id];
        new_record == old_record || (old_record.transaction_status.may_become(
            new_record.transaction_status,
        ) && new_record == old_record.moved_to(new_record.transaction_status))
    }

    /// Whether the record of `transaction_id` is, in `later`, what legal
    /// changes of status, if any, have made of it.
    pub open spec fn progressed_in(self, later: ContractView, transaction_id: int) -> bool {
        let old_record = self.transaction_by_id[transaction_id];
        let new_record = later.transaction_by_id[transaction_id];
        old_record.transaction_status.may_reach(new_record.transaction_status) && new_record
            == old_record.moved_to(new_record.transaction_status)
    }
}

/// A refused step on a record leaves the engine as it was, and an accepted
/// one replaces that record alone, by a well-formed record of the same
/// creator that has moved along a legal change of status.
proof fn lemma_after(
    state: ContractView,
    transaction_id: TransactionId,
    outcome: Result<TransactionView, EscrowError>,
)
    requires
        state.wf(),
        outcome matches Ok(record) ==> transaction_id < state.transaction_by_id.len() && {
            let stored = state.transaction_by_id[transaction_id as int];
            stored.transaction_status.may_become(record.transaction_status) && record
                == stored.moved_to(record.transaction_status)
        },
    ensures
        state.after(outcome).wf(),
        state.after(outcome).total_transactions == state.total_transactions,
        state.after(outcome).transactions_per_account == state.transactions_per_account,
        state.after(outcome).owner_id == state.owner_id,
        state.after(outcome).transaction_fee == state.transaction_fee,
        forall|i: int|
            0 <= i < state.transaction_by_id.len() ==> #[trigger] state.advanced_in(
                state.after(outcome),
                i,
            ),
{
    if let Ok(record) = outcome {
        lemma_with_stored(state, record);
    }
}

/// Every call leaves a well-formed engine well-formed, keeps every record
/// that exists in its place, and changes a record only along a legal change
/// of status.
pub proof fn law_call(state: ContractView, call: Call)
    requires
        state.wf(),
        state.admits(call),
    ensures
        state.step(call).wf(),
        state.step(call).owner_id == state.owner_id,
        state.step(call).transaction_fee != state.transaction_fee ==> call.sets_fee_as(
            state.owner_id,
        ),
        state.step(call).total_transactions == state.total_transactions + if call.creates() {
            1nat
        } else {
            0nat
        },
        forall|account: Seq<char>|
            #![trigger state.step(call).count(account)]
            state.step(call).count(account) == state.count(account) + if call.creates_for(
                account,
            ) {
                1nat
            } else {
                0nat
            },
        forall|i: int|
            0 <= i < state.transaction_by_id.len() ==> #[trigger] state.advanced_in(
                state.step(call),
                i,
            ),
{
    match call {
        Call::CreateTransaction {
            creator_id,
            seller_id,
            buyer_id,
            price,
            nft_id,
            nft_contract_id,
        } => {
            lemma_with_new(
                state,
                state.next_record(creator_id, seller_id, buyer_id, price, nft_id, nft_contract_id),
            );
        },
        Call::SetTransactionFee { caller, new_transaction_fee } => {},
        Call::TransferToLock { transaction_id, caller, attached_deposit } => {
            lemma_after(
                state,
                transaction_id,
                state.lock_funds(transaction_id, caller, attached_deposit as nat),
            );
        },
        Call::LockAsset { transaction_id, caller, answer } => {
            lemma_after(state, transaction_id, state.lock_asset(transaction_id, caller, answer));
        },
        Call::Complete { transaction_id, caller } => {
            lemma_after(state, transaction_id, state.complete(transaction_id, caller));
        },
        Call::Cancel { transaction_id, caller } => {
            lemma_after(state, transaction_id, state.cancel(transaction_id, caller));
        },
    }
}

/// `may_reach` is what `may_become` gives when it is taken any number of
/// times: it holds of a status and itself, of every single step, and of what
/// a further step leads to.
pub proof fn law_may_reach(
    first: TransactionStatus,
    second: TransactionStatus,
    third: TransactionStatus,
)
    ensures
        first.may_reach(first),
        first.may_become(second) ==> first.may_reach(second),
        first.may_reach(second) && second.may_become(third) ==> first.may_reach(third),
        first.may_reach(second) && second.may_reach(third) ==> first.may_reach(third),
{
}

/// Over any history the engine stays well-formed, the owner stays, the
/// number of transactions grows by the number of calls that open one, each
/// account's count grows by the number of calls that open one on its behalf,
/// and every record that exists keeps its place and changes along legal
/// changes of status alone.
pub proof fn law_history(state: ContractView, calls: Seq<Call>)
    requires
        state.wf(),
        state.admits_all(calls),
    ensures
        state.run(calls).wf(),
        state.run(calls).owner_id == state.owner_id,
        state.run(calls).total_transactions == state.total_transactions + creations(calls),
        forall|account: Seq<char>|
            #![trigger state.run(calls).count(account)]
            state.run(calls).count(account) == state.count(account) + creations_by(
                calls,
                account,
            ),
        forall|i: int|
            0 <= i < state.transaction_by_id.len() ==> #[trigger] state.progressed_in(
                state.run(calls),
                i,
            ),
    decreases calls.len(),
{
    if calls.len() > 0 {
        let middle = state.run(calls.drop_last());
        law_history(state, calls.drop_last());
        law_call(middle, calls.last());
        let end = state.run(calls);
        assert forall|account: Seq<char>|
            #![trigger end.count(account)]
            end.count(account) == state.count(account) + creations_by(calls, account) by {
            assert(middle.count(account) == state.count(account) + creations_by(
                calls.drop_last(),
                account,
            ));
            assert(middle.step(calls.last()).count(account) == middle.count(account)
                + if calls.last().creates_for(account) {
                1nat
            } else {
                0nat
            });
        }
        assert forall|i: int| 0 <= i < state.transaction_by_id.len() implies #[trigger]
            state.progressed_in(end, i) by {
            assert(state.progressed_in(middle, i));
            assert(middle.advanced_in(end, i));
            law_may_reach(
                state.transaction_by_id[i].transaction_status,
                middle.transaction_by_id[i].transaction_status,
                end.transaction_by_id[i].transaction_status,
            );
        }
    }
}

/// Identifiers are given out in sequence from zero: after any history since
/// initialisation, the identifier that the next transaction gets is the
/// number of transactions opened so far, and the records stand under the
/// identifiers zero up to that number, each under its own.
pub proof fn law_identifiers_sequential(
    owner_id: Seq<char>,
    calls: Seq<Call>,
    creator_id: Seq<char>,
    seller_id: Seq<char>,
    buyer_id: Seq<char>,
    price: Price,
    nft_id: Seq<char>,
    nft_contract_id: Seq<char>,
)
    requires
        ContractView::init(owner_id).admits_all(calls),
    ensures
        ContractView::init(owner_id).run(calls).next_record(
            creator_id,
            seller_id,
            buyer_id,
            price,
            nft_id,
            nft_contract_id,
        ).transaction_id == creations(calls),
        ContractView::init(owner_id).run(calls).total_transactions == creations(calls),
        ContractView::init(owner_id).run(calls).transaction_by_id.len() == creations(calls),
        forall|i: int|
            0 <= i < creations(calls) ==> (#[trigger] ContractView::init(owner_id).run(
                calls,
            ).transaction_by_id[i]).transaction_id == i,
{
    law_init(owner_id);
    law_history(ContractView::init(owner_id), calls);
}

/// No identifier is used again: whatever is called later, the transaction
/// that holds an identifier goes on holding it, with the same creator,
/// seller, buyer, price and token.
pub proof fn law_identifiers_never_reused(
    state: ContractView,
    calls: Seq<Call>,
    transaction_id: TransactionId,
)
    requires
        state.wf(),
        state.admits_all(calls),
        transaction_id < state.transaction_by_id.len(),
    ensures
        transaction_id < state.run(calls).transaction_by_id.len(),
        state.run(calls).transaction_by_id[transaction_id as int]
            == state.transaction_by_id[transaction_id as int].moved_to(
            state.run(calls).transaction_by_id[transaction_id as int].transaction_status,
        ),
{
    law_history(state, calls);
    assert(state.progressed_in(state.run(calls), transaction_id as int));
}

/// In a well-formed engine the number of transactions counted for an account
/// is the number of records that name it as creator.
pub proof fn law_count_is_records_of_creator(state: ContractView, account: Seq<char>)
    requires
        state.wf(),
    ensures
        state.count(account) == Set::new(
            |id: TransactionId|
                id < state.transaction_by_id.len() && state.transaction_by_id[id as int].creator_id
                    == account,
        ).len(),
{
    let created = Set::new(
        |id: TransactionId|
            id < state.transaction_by_id.len() && state.transaction_by_id[id as int].creator_id
                == account,
    );
    assert forall|id: TransactionId|
        ids_of(state.transactions_per_account, account).contains(id)
            == created.contains(id) by {}
    assert(ids_of(state.transactions_per_account, account) =~= created);
}

/// The engine is well-formed when it has been initialised, and no account
/// has a transaction then.
pub proof fn law_init(owner_id: Seq<char>)
    ensures
        ContractView::init(owner_id).wf(),
        forall|account: Seq<char>| #[trigger] ContractView::init(owner_id).count(account) == 0,
{
}

/// After any history since initialisation, the number of transactions counted
/// for an account is the number of calls that opened one on its behalf.
pub proof fn law_count_is_creations(owner_id: Seq<char>, calls: Seq<Call>, account: Seq<char>)
    requires
        ContractView::init(owner_id).admits_all(calls),
    ensures
        ContractView::init(owner_id).run(calls).count(account) == creations_by(calls, account),
{
    law_init(owner_id);
    law_history(ContractView::init(owner_id), calls);
    assert(ContractView::init(owner_id).count(account) == 0);
}

/// Once a deposit has been accepted on a transaction, every later deposit on
/// it is refused with `InvalidState`, whoever makes it, whatever is attached
/// and whatever has been called in between.
pub proof fn law_second_deposit_refused(
    state: ContractView,
    transaction_id: TransactionId,
    caller: Seq<char>,
    attached_deposit: u128,
    calls: Seq<Call>,
    later_caller: Seq<char>,
    later_deposit: u128,
)
    requires
        state.wf(),
        state.lock_funds(transaction_id, caller, attached_deposit as nat) is Ok,
        state.step(
            Call::TransferToLock { transaction_id, caller, attached_deposit },
        ).admits_all(calls),
    ensures
        state.step(Call::TransferToLock { transaction_id, caller, attached_deposit }).run(
            calls,
        ).lock_funds(transaction_id, later_caller, later_deposit as nat) == Err::<
            TransactionView,
            EscrowError,
        >(EscrowError::InvalidState),
{
    let first = Call::TransferToLock { transaction_id, caller, attached_deposit };
    let locked = state.step(first);
    law_call(state, first);
    law_history(locked, calls);
    assert(locked.progressed_in(locked.run(calls), transaction_id as int));
}

} // verus!
