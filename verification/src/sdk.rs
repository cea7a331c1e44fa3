//! What the library takes from `near_sdk`. Verus reads none of that crate:
//! the contracts in this file are believed, not proved.

use crate::account::valid_account_id;
use vstd::prelude::*;

verus! {

/// `near_sdk::PromiseError`, the host's marker for a scheduled call that did
/// not succeed. Nothing is said of what it holds.
#[verifier::external_type_specification]
#[verifier::external_body]
pub struct ExPromiseError(near_sdk::PromiseError);

/// Asks `near_sdk::AccountId`'s `FromStr` whether it accepts `s`. It accepts
/// exactly the strings that follow the host's rule for account identifiers:
/// it hands the bytes of `s` to `near_sdk::env::is_valid_account_id`, which
/// checks the length, then walks the bytes and refuses one that is neither a
/// lower-case letter, a digit nor a separator, and a separator that stands
/// first, last or behind another separator.
#[verifier::external_body]
pub(crate) fn sdk_accepts_account_id(s: &str) -> (accepted: bool)
    ensures
        accepted == valid_account_id(s@),
{
    s.parse::<near_sdk::AccountId>().is_ok()
}

} // verus!
