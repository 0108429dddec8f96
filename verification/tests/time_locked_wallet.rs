use time_locked_wallet::lifecycle::TimeLockedWallets;
use time_locked_wallet::ErrorCode;

const RESERVE: u64 = 1_000_000;
const TAG: u8 = 254;

fn owner_id(fill: u8) -> [u8; 32] {
    [fill; 32]
}

#[test]
fn test_create_wallet() {
    let mut sys = TimeLockedWallets::new(RESERVE, TAG);
    let owner = owner_id(1);
    let release_time: i64 = 1_700_000_000;
    let remaining = sys
        .create_wallet(&owner, &owner, release_time, 10 * RESERVE)
        .unwrap();
    let wallet = sys.wallet_of(&owner).unwrap();
    assert_eq!(wallet.owner, owner);
    assert_eq!(wallet.release_time, release_time);
    assert_eq!(wallet.derivation_tag, TAG);
    assert_eq!(remaining, 9 * RESERVE);
    assert_eq!(sys.balance_of(&owner), Some(RESERVE));
    assert_eq!(sys.wallet_count(), 1);
}

#[test]
fn test_deposit() {
    let mut sys = TimeLockedWallets::new(RESERVE, TAG);
    let owner = owner_id(2);
    let after_create = sys.create_wallet(&owner, &owner, 0, 10 * RESERVE).unwrap();
    let remaining = sys.deposit(&owner, &owner, 2_500, after_create).unwrap();
    assert_eq!(remaining, after_create - 2_500);
    assert_eq!(sys.balance_of(&owner), Some(RESERVE + 2_500));
}

#[test]
fn test_withdraw() {
    let mut sys = TimeLockedWallets::new(RESERVE, TAG);
    let owner = owner_id(3);
    let release_time: i64 = 500;
    let after_create = sys
        .create_wallet(&owner, &owner, release_time, 10 * RESERVE)
        .unwrap();
    let after_deposit = sys.deposit(&owner, &owner, 40_000, after_create).unwrap();
    let owner_balance = sys
        .withdraw(&owner, &owner, release_time, after_deposit)
        .unwrap();
    // Everything above the reserve comes back; the wallet keeps the reserve.
    assert_eq!(owner_balance, after_deposit + 40_000);
    assert_eq!(sys.balance_of(&owner), Some(RESERVE));
    // The record persists after a withdrawal.
    assert!(sys.contains(&owner));
}

#[test]
fn test_close_wallet() {
    let mut sys = TimeLockedWallets::new(RESERVE, TAG);
    let owner = owner_id(4);
    let after_create = sys.create_wallet(&owner, &owner, 9_999, 10 * RESERVE).unwrap();
    let after_deposit = sys.deposit(&owner, &owner, 123, after_create).unwrap();
    let owner_balance = sys.close_wallet(&owner, &owner, after_deposit).unwrap();
    // The full balance comes back, reserve included, and the record is gone.
    assert_eq!(owner_balance, after_deposit + RESERVE + 123);
    assert_eq!(sys.balance_of(&owner), None);
    assert!(!sys.contains(&owner));
    assert_eq!(sys.wallet_count(), 0);
}

#[test]
fn test_withdraw_too_early() {
    let mut sys = TimeLockedWallets::new(RESERVE, TAG);
    let owner = owner_id(5);
    let release_time: i64 = 1_000;
    let after_create = sys
        .create_wallet(&owner, &owner, release_time, 10 * RESERVE)
        .unwrap();
    let r = sys.withdraw(&owner, &owner, release_time - 1, after_create);
    assert_eq!(r, Err(ErrorCode::TooEarly));
    // Nothing changed.
    assert_eq!(sys.balance_of(&owner), Some(RESERVE));
}

#[test]
fn test_withdraw_after_release() {
    let mut sys = TimeLockedWallets::new(RESERVE, TAG);
    let owner = owner_id(6);
    let release_time: i64 = 1_000;
    let after_create = sys
        .create_wallet(&owner, &owner, release_time, 10 * RESERVE)
        .unwrap();
    let after_deposit = sys.deposit(&owner, &owner, 777, after_create).unwrap();
    let pre_balance = sys.balance_of(&owner).unwrap();
    let owner_balance = sys
        .withdraw(&owner, &owner, release_time + 3, after_deposit)
        .unwrap();
    assert_eq!(sys.balance_of(&owner), Some(RESERVE));
    assert_eq!(owner_balance, after_deposit + (pre_balance - RESERVE));
}

#[test]
fn test_deposit_twice() {
    let mut sys = TimeLockedWallets::new(RESERVE, TAG);
    let owner = owner_id(7);
    let after_create = sys.create_wallet(&owner, &owner, 0, 10 * RESERVE).unwrap();
    let initial = sys.balance_of(&owner).unwrap();
    let after_first = sys.deposit(&owner, &owner, 1_111, after_create).unwrap();
    sys.deposit(&owner, &owner, 2_222, after_first).unwrap();
    assert_eq!(sys.balance_of(&owner), Some(initial + 1_111 + 2_222));
}

#[test]
fn test_close_before_release() {
    let mut sys = TimeLockedWallets::new(RESERVE, TAG);
    let owner = owner_id(8);
    let release_time: i64 = i64::MAX;
    let after_create = sys
        .create_wallet(&owner, &owner, release_time, 10 * RESERVE)
        .unwrap();
    let after_deposit = sys.deposit(&owner, &owner, 555, after_create).unwrap();
    // A withdrawal is still gated ...
    assert_eq!(
        sys.withdraw(&owner, &owner, 0, after_deposit),
        Err(ErrorCode::TooEarly)
    );
    // ... but closing is not: the full balance, reserve included, comes back.
    let owner_balance = sys.close_wallet(&owner, &owner, after_deposit).unwrap();
    assert_eq!(owner_balance, after_deposit + RESERVE + 555);
    assert!(!sys.contains(&owner));
}

#[test]
fn test_second_create_already_exists() {
    let mut sys = TimeLockedWallets::new(RESERVE, TAG);
    let owner = owner_id(9);
    let after_create = sys.create_wallet(&owner, &owner, 42, 10 * RESERVE).unwrap();
    let original = sys.wallet_of(&owner).unwrap();
    let r = sys.create_wallet(&owner, &owner, 43, after_create);
    assert_eq!(r, Err(ErrorCode::AlreadyExists));
    // The original record is unchanged.
    assert_eq!(sys.wallet_of(&owner), Some(original));
    assert_eq!(sys.balance_of(&owner), Some(RESERVE));
    assert_eq!(sys.wallet_count(), 1);
}

#[test]
fn test_lock_scenario() {
    // An owner locks a thousand million units for five seconds.
    let mut sys = TimeLockedWallets::new(RESERVE, TAG);
    let owner = owner_id(10);
    let now: i64 = 1_650_000_000;
    let release_time = now + 5;
    let funds: u64 = 2_000_000_000;
    let after_create = sys.create_wallet(&owner, &owner, release_time, funds).unwrap();
    let after_deposit = sys
        .deposit(&owner, &owner, 1_000_000_000, after_create)
        .unwrap();
    // An immediate withdrawal is too early.
    assert_eq!(
        sys.withdraw(&owner, &owner, now, after_deposit),
        Err(ErrorCode::TooEarly)
    );
    // Five seconds later it succeeds: the owner gains exactly the deposit,
    // and the wallet keeps exactly the reserve.
    let owner_balance = sys
        .withdraw(&owner, &owner, now + 5, after_deposit)
        .unwrap();
    assert_eq!(owner_balance, after_deposit + 1_000_000_000);
    assert_eq!(sys.balance_of(&owner), Some(sys.minimum_reserve()));
}

#[test]
fn test_release_time_not_validated() {
    // A release time in the past is recorded as given: the wallet is
    // immediately withdrawable.
    let mut sys = TimeLockedWallets::new(RESERVE, TAG);
    let owner = owner_id(11);
    let now: i64 = 1_650_000_000;
    let after_create = sys.create_wallet(&owner, &owner, now - 100, 10 * RESERVE).unwrap();
    let r = sys.withdraw(&owner, &owner, now, after_create);
    assert!(r.is_ok());
}

#[test]
fn test_unauthorized() {
    let mut sys = TimeLockedWallets::new(RESERVE, TAG);
    let owner = owner_id(12);
    let intruder = owner_id(13);
    // Creation on someone else's behalf is refused.
    assert_eq!(
        sys.create_wallet(&owner, &intruder, 0, 10 * RESERVE),
        Err(ErrorCode::Unauthorized)
    );
    let after_create = sys.create_wallet(&owner, &owner, 0, 10 * RESERVE).unwrap();
    assert_eq!(
        sys.deposit(&owner, &intruder, 1, after_create),
        Err(ErrorCode::Unauthorized)
    );
    assert_eq!(
        sys.withdraw(&owner, &intruder, i64::MAX, 0),
        Err(ErrorCode::Unauthorized)
    );
    assert_eq!(
        sys.close_wallet(&owner, &intruder, 0),
        Err(ErrorCode::Unauthorized)
    );
    // Nothing changed.
    assert_eq!(sys.balance_of(&owner), Some(RESERVE));
}

#[test]
fn test_not_found() {
    let mut sys = TimeLockedWallets::new(RESERVE, TAG);
    let owner = owner_id(14);
    assert_eq!(sys.deposit(&owner, &owner, 1, 10), Err(ErrorCode::NotFound));
    assert_eq!(sys.withdraw(&owner, &owner, 0, 0), Err(ErrorCode::NotFound));
    assert_eq!(sys.close_wallet(&owner, &owner, 0), Err(ErrorCode::NotFound));
}

#[test]
fn test_insufficient_funds() {
    let mut sys = TimeLockedWallets::new(RESERVE, TAG);
    let owner = owner_id(15);
    // The creation transfer must fund the reserve.
    assert_eq!(
        sys.create_wallet(&owner, &owner, 0, RESERVE - 1),
        Err(ErrorCode::InsufficientFunds)
    );
    assert!(!sys.contains(&owner));
    let after_create = sys.create_wallet(&owner, &owner, 0, RESERVE).unwrap();
    assert_eq!(after_create, 0);
    // A deposit larger than the caller's balance is refused.
    assert_eq!(
        sys.deposit(&owner, &owner, 1, after_create),
        Err(ErrorCode::InsufficientFunds)
    );
    assert_eq!(sys.balance_of(&owner), Some(RESERVE));
}

#[test]
fn test_transfer_capacity() {
    // A move that the receiving side cannot hold is refused and changes
    // nothing: the wallet cannot swallow more than a balance can represent,
    // and neither can the owner's account on the way back out.
    let mut sys = TimeLockedWallets::new(RESERVE, TAG);
    let owner = owner_id(16);
    let after_create = sys.create_wallet(&owner, &owner, 0, u64::MAX).unwrap();
    assert_eq!(
        sys.deposit(&owner, &owner, u64::MAX, after_create),
        Err(ErrorCode::InsufficientFunds)
    );
    assert_eq!(sys.balance_of(&owner), Some(RESERVE));
    let after_deposit = sys.deposit(&owner, &owner, 5, after_create).unwrap();
    assert_eq!(
        sys.withdraw(&owner, &owner, 0, u64::MAX),
        Err(ErrorCode::InsufficientFunds)
    );
    assert_eq!(
        sys.close_wallet(&owner, &owner, u64::MAX),
        Err(ErrorCode::InsufficientFunds)
    );
    assert_eq!(sys.balance_of(&owner), Some(RESERVE + 5));
    // With room on the receiving side both succeed.
    let owner_balance = sys.withdraw(&owner, &owner, 0, after_deposit).unwrap();
    assert_eq!(owner_balance, after_deposit + 5);
}
