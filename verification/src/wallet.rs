//! The wallet record and the stored account.

use vstd::prelude::*;

verus! {

/// The persisted wallet record: the fields written at creation and kept
/// unchanged for the record's whole life.
#[derive(Clone, Copy, Debug, PartialEq, Eq)]
pub struct Wallet {
    /// Identity of the controlling principal, set at creation.
    pub owner: [u8; 32],
    /// Epoch-seconds timestamp after which withdrawal is permitted.
    /// Immutable after creation; not required to lie in the future.
    pub release_time: i64,
    /// Discriminant recorded at creation, used to re-verify the account's
    /// deterministic address on every subsequent access.
    pub derivation_tag: u8,
}

/// A stored account: the record together with the balance held at its
/// address.
#[derive(Clone, Copy, Debug, PartialEq, Eq)]
pub struct WalletAccount {
    pub wallet: Wallet,
    pub balance: u64,
}

/// Compares two owner identities byte for byte.
pub fn owner_eq(a: &[u8; 32], b: &[u8; 32]) -> (r: bool)
    ensures
        r == (a@ == b@),
{
    let mut i: usize = 0;
    while i < 32
        invariant
            i <= 32,
            forall|j: int| 0 <= j < i ==> a@[j] == b@[j],
        decreases 32 - i,
    {
        if a[i] != b[i] {
            return false;
        }
        i += 1;
    }
    proof {
        assert(a@ =~= b@);
    }
    true
}

} // verus!
