//! An escrow engine for peer-to-peer sales of a unique token against a price in
//! a fungible currency.
//!
//! The engine keeps one record per sale, indexes the records by the account
//! that opened them, computes the fee owed on a price and guards every change
//! of a sale's status. Whoever hosts the engine supplies the caller's identity
//! and the value attached to a call as plain arguments, and carries out the
//! transfers and queries that the engine describes.

pub mod account_index;
pub mod asset_check;
pub mod contract;
pub mod error;
pub mod escrow;
pub mod fee;
pub mod laws;
pub mod model;
pub mod near;
pub mod registry;
pub mod storage_key;
pub mod transaction;

pub use account_index::{AccountIndex, AccountTransactions};
pub use asset_check::{OwnershipAnswer, OwnershipQuery, PromiseOutcome};
pub use contract::{Cancellation, Contract, MyContract, Payment, Settlement};
pub use error::EscrowError;
pub use fee::YOCTO_NEAR;
pub use registry::TransactionRegistry;
pub use storage_key::StorageKeys;
pub use transaction::{
    AccountId, Price, TokenId, Transaction, TransactionId, TransactionMetadata, TransactionStatus,
};
