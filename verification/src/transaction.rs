//! The record of a sale and the statuses it passes through.

use vstd::prelude::*;
use crate::fee::YOCTO_NEAR;

verus! {

/// Identifies a transaction: the number of transactions opened before it.
pub type TransactionId = u128;

/// An amount of currency.
pub type Price = u128;

/// Identifies a token within the contract that issued it.
pub type TokenId = String;

/// Identifies an account of the ledger.
pub type AccountId = String;

/// Where a transaction stands. `TokensLocked` means that the deposit is in
/// escrow, `TokensAndNFTLocked` that the deposit and the token both are.
#[derive(Clone, Copy, PartialEq, Eq, Debug, Structural)]
pub enum TransactionStatus {
    Pending,
    TokensLocked,
    TokensAndNFTLocked,
    Completed,
    Cancelled,
}

impl TransactionStatus {
    /// Whether the deposit has been locked in this status.
    pub open spec fn holds_funds(self) -> bool {
        self is TokensLocked || self is TokensAndNFTLocked || self is Completed
    }

    /// Whether the token has been locked in this status.
    pub open spec fn holds_token(self) -> bool {
        self is TokensAndNFTLocked || self is Completed
    }

    /// Whether a transaction in this status may be in status `later` after
    /// any number of steps, none included.
    pub open spec fn may_reach(self, later: TransactionStatus) -> bool {
        match self {
            TransactionStatus::Pending => true,
            TransactionStatus::TokensLocked => !(later is Pending),
            TransactionStatus::TokensAndNFTLocked => later is TokensAndNFTLocked
                || later is Completed,
            TransactionStatus::Completed => later is Completed,
            TransactionStatus::Cancelled => later is Cancelled,
        }
    }

    /// Whether a transaction in this status may move to `next` in one step.
    pub open spec fn may_become(self, next: TransactionStatus) -> bool {
        match self {
            TransactionStatus::Pending => next is TokensLocked || next is Cancelled,
            TransactionStatus::TokensLocked => next is TokensAndNFTLocked || next is Cancelled,
            TransactionStatus::TokensAndNFTLocked => next is Completed,
            TransactionStatus::Completed => false,
            TransactionStatus::Cancelled => false,
        }
    }
}

/// One sale: who opened it, who sells to whom, what is sold at which price,
/// and how far the exchange has come.
#[derive(Debug, PartialEq, Eq)]
pub struct Transaction {
    pub transaction_id: TransactionId,
    pub creator_id: AccountId,
    pub seller_id: AccountId,
    pub buyer_id: AccountId,
    /// The price in base units.
    pub price: Price,
    pub nft_id: TokenId,
    pub nft_contract_id: AccountId,
    /// Whether the deposit is in the engine's custody.
    pub amount_in_escrow: bool,
    /// Whether the token is in the engine's custody.
    pub token_in_escrow: bool,
    pub transaction_status: TransactionStatus,
}

/// The mathematical value of a `Transaction`.
pub struct TransactionView {
    pub transaction_id: TransactionId,
    pub creator_id: Seq<char>,
    pub seller_id: Seq<char>,
    pub buyer_id: Seq<char>,
    pub price: Price,
    pub nft_id: Seq<char>,
    pub nft_contract_id: Seq<char>,
    pub amount_in_escrow: bool,
    pub token_in_escrow: bool,
    pub transaction_status: TransactionStatus,
}

impl View for Transaction {
    type V = TransactionView;

    open spec fn view(&self) -> TransactionView {
        TransactionView {
            transaction_id: self.transaction_id,
            creator_id: self.creator_id@,
            seller_id: self.seller_id@,
            buyer_id: self.buyer_id@,
            price: self.price,
            nft_id: self.nft_id@,
            nft_contract_id: self.nft_contract_id@,
            amount_in_escrow: self.amount_in_escrow,
            token_in_escrow: self.token_in_escrow,
            transaction_status: self.transaction_status,
        }
    }
}

impl TransactionView {
    /// The price is positive and each custody flag says what the status says.
    pub open spec fn wf(self) -> bool {
        &&& self.price > 0
        &&& self.amount_in_escrow == self.transaction_status.holds_funds()
        &&& self.token_in_escrow == self.transaction_status.holds_token()
    }

    /// This record moved to `status`, with the custody flags that go with it.
    pub open spec fn moved_to(self, status: TransactionStatus) -> TransactionView {
        TransactionView {
            amount_in_escrow: status.holds_funds(),
            token_in_escrow: status.holds_token(),
            transaction_status: status,
            ..self
        }
    }
}

/// Whether a sale can be listed at `price` whole units: the price is positive
/// and its amount in base units fits in 128 bits.
pub open spec fn listable(price: Price) -> bool {
    0 < price && price * YOCTO_NEAR <= u128::MAX
}

/// The record of a sale that has just been opened at `price` whole units.
pub open spec fn opened(
    transaction_id: TransactionId,
    creator_id: Seq<char>,
    seller_id: Seq<char>,
    buyer_id: Seq<char>,
    price: Price,
    nft_id: Seq<char>,
    nft_contract_id: Seq<char>,
) -> TransactionView {
    TransactionView {
        transaction_id,
        creator_id,
        seller_id,
        buyer_id,
        price: (price * YOCTO_NEAR) as u128,
        nft_id,
        nft_contract_id,
        amount_in_escrow: false,
        token_in_escrow: false,
        transaction_status: TransactionStatus::Pending,
    }
}

/// Tells whether `price` is `listable`.
pub fn is_listable(price: Price) -> (ok: bool)
    ensures
        ok == listable(price),
{
    price > 0 && price <= u128::MAX / YOCTO_NEAR
}

impl Clone for Transaction {
    fn clone(&self) -> (copy: Self)
        ensures
            copy == *self,
    {
        Transaction {
            transaction_id: self.transaction_id,
            creator_id: self.creator_id.clone(),
            seller_id: self.seller_id.clone(),
            buyer_id: self.buyer_id.clone(),
            price: self.price,
            nft_id: self.nft_id.clone(),
            nft_contract_id: self.nft_contract_id.clone(),
            amount_in_escrow: self.amount_in_escrow,
            token_in_escrow: self.token_in_escrow,
            transaction_status: self.transaction_status,
        }
    }
}

impl Transaction {
    /// Opens the record of a sale: the price is stored in base units, nothing
    /// is in escrow and the status is `Pending`.
    pub fn new(
        transaction_id: TransactionId,
        creator_id: AccountId,
        seller_id: AccountId,
        buyer_id: AccountId,
        price: Price,
        nft_id: TokenId,
        nft_contract_id: AccountId,
    ) -> (record: Transaction)
        requires
            listable(price),
        ensures
            record@ == opened(
                transaction_id,
                creator_id@,
                seller_id@,
                buyer_id@,
                price,
                nft_id@,
                nft_contract_id@,
            ),
            record@.wf(),
    {
        Transaction {
            transaction_id,
            creator_id,
            seller_id,
            buyer_id,
            price: price * YOCTO_NEAR,
            nft_id,
            nft_contract_id,
            amount_in_escrow: false,
            token_in_escrow: false,
            transaction_status: TransactionStatus::Pending,
        }
    }
}

impl Transaction {
    /// Tells whether the record is well-formed: its price is positive and
    /// its custody flags say what its status says.
    pub fn is_well_formed(&self) -> (ok: bool)
        ensures
            ok == self@.wf(),
    {
        let (funds, token): (bool, bool) = match self.transaction_status {
            TransactionStatus::Pending => (false, false),
            TransactionStatus::TokensLocked => (true, false),
            TransactionStatus::TokensAndNFTLocked => (true, true),
            TransactionStatus::Completed => (true, true),
            TransactionStatus::Cancelled => (false, false),
        };
        self.price > 0 && self.amount_in_escrow == funds && self.token_in_escrow == token
    }
}

/// Descriptive data kept beside a transaction. The escrow flow never reads or
/// changes it.
#[derive(Clone, Debug, PartialEq, Eq)]
pub struct TransactionMetadata {
    pub categories: String,
}

} // verus!
