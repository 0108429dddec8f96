//! Balance reservation policy.
//!
//! The mapping from an account's storage size to the minimum balance it must
//! retain is an external oracle of the host; its answer enters the system as
//! a plain configuration value. This module holds the one computation the
//! policy performs itself: the saturating subtraction that turns a balance
//! and a reserve into a withdrawable amount.

use vstd::prelude::*;

verus! {

/// The amount that may leave an account holding `balance` while keeping the
/// reserve intact: `max(0, balance - reserve)`.
pub open spec fn spec_withdrawable(balance: u64, reserve: u64) -> u64 {
    if balance >= reserve {
        (balance - reserve) as u64
    } else {
        0
    }
}

/// Computes the withdrawable amount as a saturating subtraction.
pub fn withdrawable_amount(balance: u64, reserve: u64) -> (r: u64)
    ensures
        r == spec_withdrawable(balance, reserve),
{
    if balance >= reserve {
        balance - reserve
    } else {
        0
    }
}

} // verus!
