//! The steps that a transaction's record can take, each as a rule on the
//! record alone: who may take the step, from which status, and what the
//! record looks like afterwards.

use vstd::prelude::*;
use crate::asset_check::OwnershipAnswer;
use crate::error::EscrowError;
use crate::fee::{checked_total_due, total_due};
use crate::registry::record_outcome;
use crate::transaction::{AccountId, Transaction, TransactionStatus, TransactionView};

verus! {

impl TransactionView {
    /// The seller deposits price plus fee: allowed from `Pending`, to the
    /// seller, with exactly the amount due attached.
    pub open spec fn lock_funds(
        self,
        caller: Seq<char>,
        attached_deposit: nat,
        fee_percent: nat,
    ) -> Result<TransactionView, EscrowError> {
        if !(self.transaction_status is Pending) {
            Err(EscrowError::InvalidState)
        } else if caller != self.seller_id {
            Err(EscrowError::Unauthorized)
        } else if attached_deposit != total_due(self.price as nat, fee_percent) {
            Err(EscrowError::DepositMismatch)
        } else {
            Ok(self.moved_to(TransactionStatus::TokensLocked))
        }
    }

    /// The seller hands the token over: allowed from `TokensLocked`, to the
    /// seller, once the token's contract has confirmed that the seller holds
    /// a token.
    pub open spec fn lock_asset(
        self,
        caller: Seq<char>,
        answer: OwnershipAnswer,
    ) -> Result<TransactionView, EscrowError> {
        if !(self.transaction_status is TokensLocked) {
            Err(EscrowError::InvalidState)
        } else if caller != self.seller_id {
            Err(EscrowError::Unauthorized)
        } else {
            match answer {
                OwnershipAnswer::Failed => Err(EscrowError::QueryFailed),
                OwnershipAnswer::No => Err(EscrowError::AssetNotOwned),
                OwnershipAnswer::Yes => Ok(self.moved_to(TransactionStatus::TokensAndNFTLocked)),
            }
        }
    }

    /// The exchange is carried out: allowed from `TokensAndNFTLocked`, to the
    /// seller, the buyer and `operator`.
    pub open spec fn complete(
        self,
        caller: Seq<char>,
        operator: Seq<char>,
    ) -> Result<TransactionView, EscrowError> {
        if !(self.transaction_status is TokensAndNFTLocked) {
            Err(EscrowError::InvalidState)
        } else if caller != self.seller_id && caller != self.buyer_id && caller != operator {
            Err(EscrowError::Unauthorized)
        } else {
            Ok(self.moved_to(TransactionStatus::Completed))
        }
    }

    /// The sale is called off: allowed from `Pending` and `TokensLocked`, to
    /// the creator and the seller.
    pub open spec fn cancel(self, caller: Seq<char>) -> Result<TransactionView, EscrowError> {
        if !(self.transaction_status is Pending || self.transaction_status is TokensLocked) {
            Err(EscrowError::InvalidState)
        } else if caller != self.creator_id && caller != self.seller_id {
            Err(EscrowError::Unauthorized)
        } else {
            Ok(self.moved_to(TransactionStatus::Cancelled))
        }
    }
}

impl Transaction {
    fn moved_to(&self, status: TransactionStatus) -> (record: Transaction)
        ensures
            record@ == self@.moved_to(status),
    {
        let mut record = self.clone();
        record.amount_in_escrow = match status {
            TransactionStatus::TokensLocked => true,
            TransactionStatus::TokensAndNFTLocked => true,
            TransactionStatus::Completed => true,
            _ => false,
        };
        record.token_in_escrow = match status {
            TransactionStatus::TokensAndNFTLocked => true,
            TransactionStatus::Completed => true,
            _ => false,
        };
        record.transaction_status = status;
        record
    }

    /// Decides a deposit by `caller` of `attached_deposit` while the fee
    /// stands at `fee_percent`, and returns the record as it is to be stored.
    pub fn lock_funds(
        &self,
        caller: &AccountId,
        attached_deposit: u128,
        fee_percent: u128,
    ) -> (outcome: Result<Transaction, EscrowError>)
        ensures
            record_outcome(
                outcome,
                self@.lock_funds(caller@, attached_deposit as nat, fee_percent as nat),
            ),
    {
        match self.transaction_status {
            TransactionStatus::Pending => {},
            _ => { return Err(EscrowError::InvalidState); },
        }
        if *caller != self.seller_id {
            return Err(EscrowError::Unauthorized);
        }
        match checked_total_due(self.price, fee_percent) {
            Some(due) => {
                if attached_deposit != due {
                    return Err(EscrowError::DepositMismatch);
                }
            },
            None => { return Err(EscrowError::DepositMismatch); },
        }
        Ok(self.moved_to(TransactionStatus::TokensLocked))
    }

    /// Decides the hand-over of the token by `caller`, given what the token's
    /// contract answered about the seller.
    pub fn lock_asset(
        &self,
        caller: &AccountId,
        answer: OwnershipAnswer,
    ) -> (outcome: Result<Transaction, EscrowError>)
        ensures
            record_outcome(outcome, self@.lock_asset(caller@, answer)),
    {
        match self.transaction_status {
            TransactionStatus::TokensLocked => {},
            _ => { return Err(EscrowError::InvalidState); },
        }
        if *caller != self.seller_id {
            return Err(EscrowError::Unauthorized);
        }
        match answer {
            OwnershipAnswer::Failed => Err(EscrowError::QueryFailed),
            OwnershipAnswer::No => Err(EscrowError::AssetNotOwned),
            OwnershipAnswer::Yes => Ok(self.moved_to(TransactionStatus::TokensAndNFTLocked)),
        }
    }

    /// Decides the completion of the exchange at the request of `caller`.
    pub fn complete(
        &self,
        caller: &AccountId,
        operator: &AccountId,
    ) -> (outcome: Result<Transaction, EscrowError>)
        ensures
            record_outcome(outcome, self@.complete(caller@, operator@)),
    {
        match self.transaction_status {
            TransactionStatus::TokensAndNFTLocked => {},
            _ => { return Err(EscrowError::InvalidState); },
        }
        if *caller != self.seller_id && *caller != self.buyer_id && *caller != *operator {
            return Err(EscrowError::Unauthorized);
        }
        Ok(self.moved_to(TransactionStatus::Completed))
    }

    /// Decides the cancellation of the sale at the request of `caller`.
    pub fn cancel(&self, caller: &AccountId) -> (outcome: Result<Transaction, EscrowError>)
        ensures
            record_outcome(outcome, self@.cancel(caller@)),
    {
        match self.transaction_status {
            TransactionStatus::Pending => {},
            TransactionStatus::TokensLocked => {},
            _ => { return Err(EscrowError::InvalidState); },
        }
        if *caller != self.creator_id && *caller != self.seller_id {
            return Err(EscrowError::Unauthorized);
        }
        Ok(self.moved_to(TransactionStatus::Cancelled))
    }
}

} // verus!
