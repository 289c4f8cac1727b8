//! What this library takes on trust from `near_sdk`.

use vstd::prelude::*;

verus! {

/// Whether `byte` is a lower-case letter or a digit.
pub open spec fn is_account_char(byte: u8) -> bool {
    (0x61 <= byte <= 0x7a) || (0x30 <= byte <= 0x39)
}

/// Whether `byte` is one of `-`, `_` and `.`.
pub open spec fn is_account_separator(byte: u8) -> bool {
    byte == 0x2d || byte == 0x5f || byte == 0x2e
}

/// Whether `id` is a well-formed account identifier: two to sixty-four bytes,
/// each a lower-case letter, a digit or a separator, with no separator at
/// either end and no two separators side by side.
pub open spec fn valid_account_id(id: Seq<u8>) -> bool {
    &&& 2 <= id.len() <= 64
    &&& forall|i: int|
        0 <= i < id.len() ==> is_account_char(#[trigger] id[i]) || is_account_separator(id[i])
    &&& !is_account_separator(id[0])
    &&& !is_account_separator(id[id.len() - 1])
    &&& forall|i: int|
        0 <= i < id.len() - 1 ==> !(is_account_separator(#[trigger] id[i])
            && is_account_separator(id[i + 1]))
}

/// `near_sdk::env::is_valid_account_id` walks over the bytes once and needs
/// no host. Assumed: it returns `true` exactly for the identifiers that
/// `valid_account_id` describes.
pub assume_specification[ near_sdk::env::is_valid_account_id ](account_id: &[u8]) -> (valid: bool)
    ensures
        valid == valid_account_id(account_id@),
;

/// The count that a JSON payload holds, as `near_sdk::serde_json::from_slice`
/// reads it into a `near_sdk::json_types::U128`; `None` where the payload is
/// refused.
pub uninterp spec fn json_count(payload: Seq<u8>) -> Option<u128>;

/// Calls `near_sdk::serde_json::from_slice::<near_sdk::json_types::U128>` and
/// takes the number out of the result. Assumed: the outcome depends on the
/// bytes alone, which is what `json_count` names.
#[verifier::external_body]
pub(crate) fn parse_count(payload: &[u8]) -> (count: Option<u128>)
    ensures
        count == json_count(payload@),
{
    match near_sdk::serde_json::from_slice::<near_sdk::json_types::U128>(payload) {
        Ok(value) => Some(value.0),
        Err(_) => None,
    }
}

} // verus!
