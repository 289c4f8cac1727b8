//! The reasons for which the engine turns a call down.

use vstd::prelude::*;

verus! {

/// Why a call on the engine was turned down. A call that fails changes nothing.
#[derive(Clone, Copy, PartialEq, Eq, Debug, Structural)]
pub enum EscrowError {
    /// No transaction carries the given identifier.
    NotFound,
    /// The caller is not allowed to perform the operation.
    Unauthorized,
    /// The transaction is not in the status that the operation starts from.
    InvalidState,
    /// The value attached to the call differs from price plus fee.
    DepositMismatch,
    /// The query to the token's contract did not come back with an answer.
    QueryFailed,
    /// The token's contract answered that the account holds no token.
    AssetNotOwned,
    /// An amount falls outside what an unsigned number of 128 bits can hold.
    AmountOutOfRange,
}

} // verus!
