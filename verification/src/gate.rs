//! Authorization and time gate: pure predicates over a wallet record,
//! a caller identity and a clock reading.

use vstd::prelude::*;

use crate::wallet::Wallet;
use crate::ErrorCode;

verus! {

/// Succeeds iff the caller's identity equals the stored owner. Verifying
/// that the caller actually possesses this identity (a signature check) is
/// the environment's job; this gate only compares the stored identity.
pub fn authorize(wallet: &Wallet, caller: &[u8; 32]) -> (r: Result<(), ErrorCode>)
    ensures
        r == (if caller@ == wallet.owner@ {
            Ok::<(), ErrorCode>(())
        } else {
            Err::<(), ErrorCode>(ErrorCode::Unauthorized)
        }),
{
    if crate::wallet::owner_eq(caller, &wallet.owner) {
        Ok(())
    } else {
        Err(ErrorCode::Unauthorized)
    }
}

/// Succeeds iff the clock has reached the wallet's release time.
pub fn check_release(wallet: &Wallet, now: i64) -> (r: Result<(), ErrorCode>)
    ensures
        r == (if now >= wallet.release_time {
            Ok::<(), ErrorCode>(())
        } else {
            Err::<(), ErrorCode>(ErrorCode::TooEarly)
        }),
{
    if now >= wallet.release_time {
        Ok(())
    } else {
        Err(ErrorCode::TooEarly)
    }
}

} // verus!
