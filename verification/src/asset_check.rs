//! The question put to a token's contract, whether an account holds any of its
//! tokens, and the reading of what comes back.

use vstd::prelude::*;
use crate::near::{json_count, parse_count};
use crate::transaction::AccountId;

verus! {

/// The currency attached to the query and to its callback: none.
pub const NO_DEPOSIT: u128 = 0;

/// The gas handed to the query.
pub const BASE_GAS: u64 = 3_000_000_000_000;

/// The gas handed to the callback that receives the answer.
pub const CALLBACK_GAS: u64 = 5_000_000_000_000;

/// A query that the host is to send to `nft_contract_id`: how many of its
/// tokens does `account_id` hold? The answer comes back in a later call.
#[derive(Clone, Debug, PartialEq, Eq)]
pub struct OwnershipQuery {
    pub account_id: AccountId,
    pub nft_contract_id: AccountId,
    pub deposit: u128,
    pub gas: u64,
    pub callback_deposit: u128,
    pub callback_gas: u64,
}

/// How a query ended, as the host reports it to the callback.
#[derive(Clone, Debug, PartialEq, Eq)]
pub enum PromiseOutcome {
    /// The query has not ended yet. A host never reports this to a callback.
    NotReady,
    /// The queried contract returned these bytes.
    Successful(Vec<u8>),
    /// The queried contract failed.
    Failed,
}

/// What the query established.
#[derive(Clone, Copy, PartialEq, Eq, Debug, Structural)]
pub enum OwnershipAnswer {
    /// The account holds at least one token.
    Yes,
    /// The account holds no token.
    No,
    /// The query failed, so nothing is known.
    Failed,
}

impl OwnershipAnswer {
    /// The answer that a count of tokens stands for.
    pub open spec fn of_count(count: u128) -> OwnershipAnswer {
        if count > 0 {
            OwnershipAnswer::Yes
        } else {
            OwnershipAnswer::No
        }
    }

    /// The word by which the answer is reported.
    pub open spec fn word(self) -> Seq<char> {
        match self {
            OwnershipAnswer::Yes => "yes"@,
            OwnershipAnswer::No => "no"@,
            OwnershipAnswer::Failed => "oops!"@,
        }
    }

    /// Reads a count of tokens: any token at all means ownership.
    pub fn from_count(count: u128) -> (answer: OwnershipAnswer)
        ensures
            answer == OwnershipAnswer::of_count(count),
    {
        if count > 0 {
            OwnershipAnswer::Yes
        } else {
            OwnershipAnswer::No
        }
    }

    /// Spells the answer out: `yes`, `no` or `oops!`.
    pub fn text(self) -> (text: String)
        ensures
            text@ == self.word(),
    {
        match self {
            OwnershipAnswer::Yes => "yes".to_owned(),
            OwnershipAnswer::No => "no".to_owned(),
            OwnershipAnswer::Failed => "oops!".to_owned(),
        }
    }
}

impl PromiseOutcome {
    /// Whether an answer can be read off this outcome: the query has ended
    /// and, where it succeeded, its payload holds a count.
    pub open spec fn readable(self) -> bool {
        match self {
            PromiseOutcome::NotReady => false,
            PromiseOutcome::Successful(payload) => json_count(payload@) is Some,
            PromiseOutcome::Failed => true,
        }
    }

    /// The answer that a readable outcome gives.
    pub open spec fn answer(self) -> OwnershipAnswer {
        match self {
            PromiseOutcome::Successful(payload) => OwnershipAnswer::of_count(
                json_count(payload@).unwrap(),
            ),
            _ => OwnershipAnswer::Failed,
        }
    }

    /// Reads the answer off the outcome, or returns `None` where the outcome
    /// is not `readable`.
    pub fn read(&self) -> (answer: Option<OwnershipAnswer>)
        ensures
            answer == if self.readable() {
                Some(self.answer())
            } else {
                None
            },
    {
        match self {
            PromiseOutcome::NotReady => None,
            PromiseOutcome::Failed => Some(OwnershipAnswer::Failed),
            PromiseOutcome::Successful(payload) => match parse_count(payload.as_slice()) {
                Some(count) => Some(OwnershipAnswer::from_count(count)),
                None => None,
            },
        }
    }
}

} // verus!
