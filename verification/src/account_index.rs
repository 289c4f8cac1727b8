//! Which transactions each account has opened. The index only ever grows: it
//! records participation, not what is still open.

use vstd::prelude::*;
use crate::transaction::{AccountId, TransactionId};

verus! {

/// The transactions recorded for one account.
#[derive(Clone, Debug, PartialEq, Eq)]
pub struct AccountTransactions {
    pub account_id: AccountId,
    /// The identifiers in the order in which they were recorded, each once.
    pub transaction_ids: Vec<TransactionId>,
}

/// For each account that has been seen, the set of transactions recorded for it.
#[derive(Clone, Debug, PartialEq, Eq)]
pub struct AccountIndex {
    pub accounts: Vec<AccountTransactions>,
}

/// The mathematical value of an `AccountIndex`.
pub type IndexView = Map<Seq<char>, Set<TransactionId>>;

/// The transactions that `index` holds for `account`: none for an account
/// that it has never seen.
pub open spec fn ids_of(index: IndexView, account: Seq<char>) -> Set<TransactionId> {
    if index.dom().contains(account) {
        index[account]
    } else {
        Set::empty()
    }
}

/// `index` after `transaction_id` has been recorded for `account`.
pub open spec fn recorded(
    index: IndexView,
    account: Seq<char>,
    transaction_id: TransactionId,
) -> IndexView {
    index.insert(account, ids_of(index, account).insert(transaction_id))
}

/// Where a page that leaves out the first `from_index` of `length` items
/// starts.
pub open spec fn page_start(length: nat, from_index: nat) -> nat {
    if from_index < length {
        from_index
    } else {
        length
    }
}

/// Where a page of at most `limit` items that leaves out the first
/// `from_index` of `length` items ends.
pub open spec fn page_end(length: nat, from_index: nat, limit: nat) -> nat {
    if page_start(length, from_index) + limit < length {
        page_start(length, from_index) + limit
    } else {
        length
    }
}

/// How many transactions `index` holds for `account`.
pub open spec fn count_of(index: IndexView, account: Seq<char>) -> nat {
    ids_of(index, account).len()
}

impl AccountIndex {
    /// Whether an entry exists for `account`.
    pub open spec fn has(&self, account: Seq<char>) -> bool {
        exists|i: int|
            0 <= i < self.accounts@.len() && (#[trigger] self.accounts@[i]).account_id@ == account
    }

    /// The position of the entry for `account`, where one exists.
    pub open spec fn slot(&self, account: Seq<char>) -> int {
        choose|i: int|
            0 <= i < self.accounts@.len() && (#[trigger] self.accounts@[i]).account_id@ == account
    }

    /// No account has two entries and no entry names a transaction twice.
    pub open spec fn wf(&self) -> bool {
        &&& forall|i: int, j: int|
            0 <= i < j < self.accounts@.len() ==> (#[trigger] self.accounts@[i]).account_id@ != (
            #[trigger] self.accounts@[j]).account_id@
        &&& forall|i: int|
            0 <= i < self.accounts@.len() ==> (
            #[trigger] self.accounts@[i]).transaction_ids@.no_duplicates()
    }

    /// The transactions recorded for `account`, in the order in which they
    /// were recorded: none for an account that has never been seen.
    pub open spec fn listed(&self, account: Seq<char>) -> Seq<TransactionId> {
        if self.has(account) {
            self.accounts@[self.slot(account)].transaction_ids@
        } else {
            Seq::empty()
        }
    }

    /// In a well-formed index the entry at `k` is the entry of its account.
    pub proof fn lemma_slot(&self, k: int)
        requires
            self.wf(),
            0 <= k < self.accounts@.len(),
        ensures
            self.has(self.accounts@[k].account_id@),
            self.slot(self.accounts@[k].account_id@) == k,
            self@.dom().contains(self.accounts@[k].account_id@),
            self@[self.accounts@[k].account_id@] == self.accounts@[k].transaction_ids@.to_set(),
    {
        let account = self.accounts@[k].account_id@;
        let found = self.slot(account);
        assert(0 <= found < self.accounts@.len() && self.accounts@[found].account_id@ == account);
        if found < k {
            assert(self.accounts@[found].account_id@ != self.accounts@[k].account_id@);
        } else if k < found {
            assert(self.accounts@[k].account_id@ != self.accounts@[found].account_id@);
        }
    }
}

impl View for AccountIndex {
    type V = IndexView;

    open spec fn view(&self) -> IndexView {
        Map::new(
            |account: Seq<char>| self.has(account),
            |account: Seq<char>| self.accounts@[self.slot(account)].transaction_ids@.to_set(),
        )
    }
}

/// Tells whether `ids` names `transaction_id`.
fn names(ids: &Vec<TransactionId>, transaction_id: TransactionId) -> (found: bool)
    ensures
        found == ids@.contains(transaction_id),
{
    let mut i: usize = 0;
    while i < ids.len()
        invariant
            i <= ids@.len(),
            forall|j: int| 0 <= j < i ==> ids@[j] != transaction_id,
        decreases ids@.len() - i,
    {
        if ids[i] == transaction_id {
            return true;
        }
        i += 1;
    }
    false
}

impl AccountIndex {
    /// An index that has seen no account.
    pub fn new() -> (index: AccountIndex)
        ensures
            index.wf(),
            index@ == Map::<Seq<char>, Set<TransactionId>>::empty(),
    {
        let index = AccountIndex { accounts: Vec::new() };
        assert(index@ =~= Map::<Seq<char>, Set<TransactionId>>::empty());
        index
    }

    /// Finds the entry of `account_id`.
    fn find(&self, account_id: &AccountId) -> (slot: Option<usize>)
        requires
            self.wf(),
        ensures
            match slot {
                Some(k) => k < self.accounts@.len() && self.accounts@[k as int].account_id@
                    == account_id@ && self.has(account_id@) && self.slot(account_id@) == k,
                None => !self.has(account_id@),
            },
    {
        let mut i: usize = 0;
        while i < self.accounts.len()
            invariant
                self.wf(),
                i <= self.accounts@.len(),
                forall|j: int| 0 <= j < i ==> (#[trigger] self.accounts@[j]).account_id@ != account_id@,
            decreases self.accounts@.len() - i,
        {
            if self.accounts[i].account_id == *account_id {
                proof {
                    self.lemma_slot(i as int);
                }
                return Some(i);
            }
            i += 1;
        }
        None
    }

    /// Records `transaction_id` for `account_id`. The first record for an
    /// account opens its entry; a transaction already recorded stays recorded
    /// once.
    pub fn record(&mut self, account_id: &AccountId, transaction_id: TransactionId)
        requires
            old(self).wf(),
        ensures
            final(self).wf(),
            final(self)@ == recorded(old(self)@, account_id@, transaction_id),
    {
        let ghost before = *self;
        match self.find(account_id) {
            Some(k) => {
                if !names(&self.accounts[k].transaction_ids, transaction_id) {
                    self.accounts[k].transaction_ids.push(transaction_id);
                    proof {
                        before.accounts@[k as int].transaction_ids@.lemma_push_to_set_commute(
                            transaction_id,
                        );
                    }
                } else {
                    proof {
                        let old_ids = before.accounts@[k as int].transaction_ids@;
                        assert(old_ids.to_set().insert(transaction_id) =~= old_ids.to_set());
                    }
                }
                proof {
                    // The same accounts have an entry as before, and the set
                    // of each is what `recorded` makes of it.
                    assert forall|a: Seq<char>| self.has(a) == before.has(a) by {
                        if self.has(a) {
                            let i = self.slot(a);
                            assert(before.accounts@[i].account_id@ == a);
                        }
                        if before.has(a) {
                            let i = before.slot(a);
                            assert(self.accounts@[i].account_id@ == a);
                        }
                    }
                    assert forall|a: Seq<char>| self.has(a) implies #[trigger] self@[a] == recorded(
                        before@,
                        account_id@,
                        transaction_id,
                    )[a] by {
                        let i = self.slot(a);
                        self.lemma_slot(i);
                        before.lemma_slot(i);
                    }
                    assert(self@ =~= recorded(before@, account_id@, transaction_id));
                }
            },
            None => {
                let mut transaction_ids: Vec<TransactionId> = Vec::new();
                transaction_ids.push(transaction_id);
                self.accounts.push(
                    AccountTransactions { account_id: account_id.clone(), transaction_ids },
                );
                proof {
                    // One account has an entry more than before, and the set
                    // of each is what `recorded` makes of it.
                    let last = before.accounts@.len() as int;
                    assert(self.accounts@[last].account_id@ == account_id@);
                    assert forall|a: Seq<char>| self.has(a) == (before.has(a) || a
                        == account_id@) by {
                        if self.has(a) {
                            let i = self.slot(a);
                            if i < last {
                                assert(before.accounts@[i].account_id@ == a);
                            }
                        }
                        if before.has(a) {
                            let i = before.slot(a);
                            assert(self.accounts@[i].account_id@ == a);
                        }
                    }
                    assert forall|a: Seq<char>| self.has(a) implies #[trigger] self@[a] == recorded(
                        before@,
                        account_id@,
                        transaction_id,
                    )[a] by {
                        let i = self.slot(a);
                        self.lemma_slot(i);
                        if i < last {
                            before.lemma_slot(i);
                        } else {
                            Seq::<TransactionId>::empty().lemma_push_to_set_commute(transaction_id);
                            assert(Seq::<TransactionId>::empty().to_set() =~= Set::<
                                TransactionId,
                            >::empty());
                        }
                    }
                    assert(self@ =~= recorded(before@, account_id@, transaction_id));
                }
            },
        }
    }

    /// Returns at most `limit` of the transactions recorded for `account_id`,
    /// in the order in which they were recorded, leaving out the first
    /// `from_index`. Pages that follow one another hold each transaction of
    /// the account once.
    pub fn page(&self, account_id: &AccountId, from_index: usize, limit: usize) -> (ids: Vec<
        TransactionId,
    >)
        requires
            self.wf(),
        ensures
            self.listed(account_id@).no_duplicates(),
            self.listed(account_id@).to_set() == ids_of(self@, account_id@),
            ids@ == self.listed(account_id@).subrange(
                page_start(self.listed(account_id@).len(), from_index as nat) as int,
                page_end(self.listed(account_id@).len(), from_index as nat, limit as nat) as int,
            ),
    {
        let mut ids: Vec<TransactionId> = Vec::new();
        match self.find(account_id) {
            Some(k) => {
                proof {
                    self.lemma_slot(k as int);
                }
                let recorded_ids = &self.accounts[k].transaction_ids;
                let length: usize = recorded_ids.len();
                let start: usize = if from_index < length {
                    from_index
                } else {
                    length
                };
                let end: usize = if limit < length - start {
                    start + limit
                } else {
                    length
                };
                let mut i: usize = start;
                while i < end
                    invariant
                        start <= i <= end <= recorded_ids@.len(),
                        ids@ == recorded_ids@.subrange(start as int, i as int),
                    decreases end - i,
                {
                    ids.push(recorded_ids[i]);
                    assert(recorded_ids@.subrange(start as int, i as int).push(
                        recorded_ids@[i as int],
                    ) =~= recorded_ids@.subrange(start as int, i + 1));
                    i += 1;
                }
            },
            None => {
                assert(ids@ =~= self.listed(account_id@).subrange(0, 0));
                assert(self.listed(account_id@).to_set() =~= ids_of(self@, account_id@));
            },
        }
        ids
    }

    /// The number of transactions recorded for `account_id`: zero for an
    /// account that has never been seen.
    pub fn count(&self, account_id: &AccountId) -> (count: u128)
        requires
            self.wf(),
        ensures
            count == count_of(self@, account_id@),
    {
        match self.find(account_id) {
            Some(k) => {
                proof {
                    self.lemma_slot(k as int);
                    self.accounts@[k as int].transaction_ids@.unique_seq_to_set();
                }
                self.accounts[k].transaction_ids.len() as u128
            },
            None => 0,
        }
    }
}

} // verus!
