//! A time-locked wallet: a single-owner account that accepts deposits and
//! releases them only after a caller-chosen timestamp.
//!
//! The library is split along the system's components:
//! - [`wallet`]: the persisted record and the stored account;
//! - [`record`]: the fixed 49-byte on-disk layout of a record;
//! - [`gate`]: the authorization and time-gate predicates;
//! - [`reserve`]: the balance-reservation policy;
//! - [`store`]: the keyed store of accounts, addressed by owner identity;
//! - [`lifecycle`]: the four operations (create, deposit, withdraw, close);
//! - [`laws`]: proved statements relating the operations.
//!
//! The environment's oracles (the clock, the minimum-balance-for-size value)
//! and the transfer primitive are external collaborators: their answers enter
//! every operation as plain arguments, and the contracts state what each
//! operation does for every possible answer.

use vstd::prelude::*;

pub mod gate;
pub mod laws;
pub mod lifecycle;
pub mod record;
pub mod reserve;
pub mod store;
pub mod wallet;

verus! {

/// Every way an operation can be rejected. Each operation's contract says
/// exactly which inputs produce which variant; an error never leaves a
/// partial mutation behind.
#[derive(Clone, Copy, Debug, PartialEq, Eq, Structural)]
pub enum ErrorCode {
    /// A withdrawal was attempted before the wallet's release time.
    TooEarly,
    /// The caller's identity does not match the wallet's owner.
    Unauthorized,
    /// A wallet for this owner already exists.
    AlreadyExists,
    /// No wallet exists for this owner.
    NotFound,
    /// The paying side of a transfer cannot cover it (or the receiving side
    /// cannot hold it).
    InsufficientFunds,
}

} // verus!
