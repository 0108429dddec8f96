//! Proved statements relating the lifecycle operations.
//!
//! Each law quantifies over every state and input its hypotheses allow; the
//! operations' own contracts tie each executable operation to its
//! `*_outcome` spec function, so the laws carry over to the executable code.

use vstd::prelude::*;

use crate::lifecycle::{close_outcome, create_outcome, deposit_outcome, withdraw_outcome};
use crate::reserve::spec_withdrawable;
use crate::store::{account_of, has_owner, lemma_owner_index_is, owner_index, unique_owners};
use crate::wallet::{Wallet, WalletAccount};
use crate::ErrorCode;

verus! {

/// After a successful creation the new account is stored under its owner,
/// carries the requested release time and the system's tag, and holds
/// exactly the reserve; every other account is untouched.
pub proof fn law_create_stores_record(
    s: Seq<WalletAccount>,
    reserve: u64,
    namespace_tag: u8,
    owner: [u8; 32],
    release_time: i64,
    caller_balance: u64,
)
    requires
        unique_owners(s),
        !has_owner(s, owner@),
        caller_balance >= reserve,
    ensures
        ({
            let (s1, r1) = create_outcome(
                s,
                reserve,
                namespace_tag,
                owner,
                owner,
                release_time,
                caller_balance,
            );
            &&& r1 == Ok::<u64, ErrorCode>((caller_balance - reserve) as u64)
            &&& has_owner(s1, owner@)
            &&& account_of(s1, owner@) == (WalletAccount {
                wallet: Wallet { owner, release_time, derivation_tag: namespace_tag },
                balance: reserve,
            })
            &&& unique_owners(s1)
            &&& s1.len() == s.len() + 1
            &&& forall|i: int| 0 <= i < s.len() ==> s1[i] == s[i]
        }),
{
    let (s1, r1) = create_outcome(
        s,
        reserve,
        namespace_tag,
        owner,
        owner,
        release_time,
        caller_balance,
    );
    assert forall|i: int, j: int| 0 <= i < j < s1.len() implies s1[i].wallet.owner@
        != s1[j].wallet.owner@ by {
        if j < s.len() {
            assert(s[i].wallet.owner@ != s[j].wallet.owner@);
        } else {
            assert(s1[j].wallet.owner@ == owner@);
            assert(s1[i] == s[i]);
        }
    }
    lemma_owner_index_is(s1, owner@, s.len() as int);
}

/// A wallet created with a release time still in the future cannot be drawn
/// down early: a withdrawal before the release time fails with `TooEarly`
/// and leaves every account unchanged.
pub proof fn law_early_withdraw_rejected(
    s: Seq<WalletAccount>,
    reserve: u64,
    namespace_tag: u8,
    owner: [u8; 32],
    release_time: i64,
    caller_balance: u64,
    now: i64,
    owner_balance: u64,
)
    requires
        unique_owners(s),
        !has_owner(s, owner@),
        caller_balance >= reserve,
        now < release_time,
    ensures
        ({
            let (s1, r1) = create_outcome(
                s,
                reserve,
                namespace_tag,
                owner,
                owner,
                release_time,
                caller_balance,
            );
            &&& r1 is Ok
            &&& withdraw_outcome(s1, reserve, owner, owner, now, owner_balance) == (
                s1,
                Err::<u64, ErrorCode>(ErrorCode::TooEarly),
            )
        }),
{
    law_create_stores_record(s, reserve, namespace_tag, owner, release_time, caller_balance);
}

/// Once the clock has reached the release time, a withdrawal succeeds: the
/// wallet is left holding exactly the reserve, its record persists, and the
/// owner's external balance grows by everything the wallet held above the
/// reserve.
pub proof fn law_withdraw_after_release(
    s: Seq<WalletAccount>,
    reserve: u64,
    owner: [u8; 32],
    now: i64,
    owner_balance: u64,
)
    requires
        unique_owners(s),
        has_owner(s, owner@),
        account_of(s, owner@).balance >= reserve,
        now >= account_of(s, owner@).wallet.release_time,
        owner_balance + account_of(s, owner@).balance - reserve <= u64::MAX,
    ensures
        ({
            let pre = account_of(s, owner@).balance;
            let (s1, r1) = withdraw_outcome(s, reserve, owner, owner, now, owner_balance);
            &&& r1 == Ok::<u64, ErrorCode>((owner_balance + (pre - reserve)) as u64)
            &&& has_owner(s1, owner@)
            &&& account_of(s1, owner@).balance == reserve
            &&& account_of(s1, owner@).wallet == account_of(s, owner@).wallet
            &&& s1.len() == s.len()
            &&& forall|i: int|
                0 <= i < s.len() && i != owner_index(s, owner@) ==> s1[i] == s[i]
        }),
{
    let i = owner_index(s, owner@);
    let a = account_of(s, owner@);
    assert(spec_withdrawable(a.balance, reserve) == a.balance - reserve);
    let (s1, r1) = withdraw_outcome(s, reserve, owner, owner, now, owner_balance);
    assert forall|p: int, q: int| 0 <= p < q < s1.len() implies s1[p].wallet.owner@
        != s1[q].wallet.owner@ by {
        assert(s[p].wallet.owner@ != s[q].wallet.owner@);
        assert(s1[p].wallet == s[p].wallet && s1[q].wallet == s[q].wallet);
    }
    lemma_owner_index_is(s1, owner@, i);
}

/// Two deposits in sequence both land: the wallet's balance afterwards is
/// its initial balance plus both amounts.
pub proof fn law_deposit_twice(
    s: Seq<WalletAccount>,
    owner: [u8; 32],
    amount1: u64,
    amount2: u64,
    caller_balance1: u64,
    caller_balance2: u64,
)
    requires
        unique_owners(s),
        has_owner(s, owner@),
        caller_balance1 >= amount1,
        caller_balance2 >= amount2,
        account_of(s, owner@).balance + amount1 + amount2 <= u64::MAX,
    ensures
        ({
            let (s1, r1) = deposit_outcome(s, owner, owner, amount1, caller_balance1);
            let (s2, r2) = deposit_outcome(s1, owner, owner, amount2, caller_balance2);
            &&& r1 is Ok
            &&& r2 is Ok
            &&& account_of(s2, owner@).balance == account_of(s, owner@).balance + amount1
                + amount2
            &&& account_of(s2, owner@).wallet == account_of(s, owner@).wallet
        }),
{
    let i = owner_index(s, owner@);
    let (s1, r1) = deposit_outcome(s, owner, owner, amount1, caller_balance1);
    assert forall|p: int, q: int| 0 <= p < q < s1.len() implies s1[p].wallet.owner@
        != s1[q].wallet.owner@ by {
        assert(s[p].wallet.owner@ != s[q].wallet.owner@);
        assert(s1[p].wallet == s[p].wallet && s1[q].wallet == s[q].wallet);
    }
    lemma_owner_index_is(s1, owner@, i);
    let (s2, r2) = deposit_outcome(s1, owner, owner, amount2, caller_balance2);
    assert forall|p: int, q: int| 0 <= p < q < s2.len() implies s2[p].wallet.owner@
        != s2[q].wallet.owner@ by {
        assert(s1[p].wallet.owner@ != s1[q].wallet.owner@);
        assert(s2[p].wallet == s1[p].wallet && s2[q].wallet == s1[q].wallet);
    }
    lemma_owner_index_is(s2, owner@, i);
}

/// Closing succeeds for the rightful owner at any time — the clock is never
/// consulted, so in particular before the release time — removes the record,
/// and pays the owner the full balance, reserve included. Withdrawal is
/// time-gated; closing is not.
pub proof fn law_close_any_time(
    s: Seq<WalletAccount>,
    owner: [u8; 32],
    owner_balance: u64,
    now: i64,
)
    requires
        unique_owners(s),
        has_owner(s, owner@),
        owner_balance + account_of(s, owner@).balance <= u64::MAX,
    ensures
        ({
            let (s1, r1) = close_outcome(s, owner, owner, owner_balance);
            &&& r1 == Ok::<u64, ErrorCode>(
                (owner_balance + account_of(s, owner@).balance) as u64,
            )
            &&& !has_owner(s1, owner@)
            &&& s1.len() == s.len() - 1
        }),
        // The asymmetry made explicit: on the same state, at a clock reading
        // still before the release time, a withdrawal is refused while the
        // close above succeeds.
        now < account_of(s, owner@).wallet.release_time ==> withdraw_outcome(
            s,
            0u64,
            owner,
            owner,
            now,
            owner_balance,
        ) == (s, Err::<u64, ErrorCode>(ErrorCode::TooEarly)),
{
    let i = owner_index(s, owner@);
    let (s1, r1) = close_outcome(s, owner, owner, owner_balance);
    assert forall|p: int| 0 <= p < s1.len() implies s1[p].wallet.owner@ != owner@ by {
        let p0: int = if p < i { p } else { p + 1 };
        assert(s1[p] == s[p0]);
        if p0 != i {
            if s[p0].wallet.owner@ == owner@ {
                lemma_owner_index_is(s, owner@, p0);
            }
        }
    }
}

/// A second creation for the same owner fails with `AlreadyExists` and
/// leaves every account — the original record included — unchanged.
pub proof fn law_second_create_rejected(
    s: Seq<WalletAccount>,
    reserve: u64,
    namespace_tag: u8,
    owner: [u8; 32],
    release_time1: i64,
    release_time2: i64,
    caller_balance1: u64,
    caller_balance2: u64,
)
    requires
        unique_owners(s),
        !has_owner(s, owner@),
        caller_balance1 >= reserve,
    ensures
        ({
            let (s1, r1) = create_outcome(
                s,
                reserve,
                namespace_tag,
                owner,
                owner,
                release_time1,
                caller_balance1,
            );
            let (s2, r2) = create_outcome(
                s1,
                reserve,
                namespace_tag,
                owner,
                owner,
                release_time2,
                caller_balance2,
            );
            &&& r1 is Ok
            &&& r2 == Err::<u64, ErrorCode>(ErrorCode::AlreadyExists)
            &&& s2 == s1
            &&& account_of(s2, owner@).wallet.release_time == release_time1
        }),
{
    law_create_stores_record(s, reserve, namespace_tag, owner, release_time1, caller_balance1);
}

} // verus!
