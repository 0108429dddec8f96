//! The lifecycle controller: create, deposit, withdraw and close.
//!
//! A wallet moves through the states absent, active, destroyed. Each
//! operation takes the caller's identity, the owner whose wallet is
//! addressed, and — where the environment must answer first — the clock
//! reading and the external balance involved, all as plain values. Each
//! operation's effect is pinned down by an `*_outcome` spec function: the
//! pair of the resulting account sequence and the operation's result.
//!
//! External balances are plain `u64` values; moving funds between one of
//! them and a wallet is the model of the host's atomic transfer primitive,
//! so a move fails with `InsufficientFunds` when the paying side cannot
//! cover it or the receiving side cannot hold it.

use vstd::prelude::*;

use crate::gate::{authorize, check_release};
use crate::reserve::{spec_withdrawable, withdrawable_amount};
use crate::store::{account_of, has_owner, owner_index, unique_owners, WalletStore};
use crate::wallet::{Wallet, WalletAccount};
use crate::ErrorCode;

verus! {

/// What `create_wallet` does: on success, a fresh account whose record
/// carries the caller's identity, the chosen release time and the system's
/// derivation tag, funded with exactly the reserve out of the caller's
/// balance; otherwise the state is unchanged and the error says why.
pub open spec fn create_outcome(
    s: Seq<WalletAccount>,
    reserve: u64,
    namespace_tag: u8,
    owner: [u8; 32],
    caller: [u8; 32],
    release_time: i64,
    caller_balance: u64,
) -> (Seq<WalletAccount>, Result<u64, ErrorCode>) {
    if caller@ != owner@ {
        (s, Err(ErrorCode::Unauthorized))
    } else if has_owner(s, owner@) {
        (s, Err(ErrorCode::AlreadyExists))
    } else if caller_balance < reserve {
        (s, Err(ErrorCode::InsufficientFunds))
    } else {
        (
            s.push(
                WalletAccount {
                    wallet: Wallet { owner, release_time, derivation_tag: namespace_tag },
                    balance: reserve,
                },
            ),
            Ok((caller_balance - reserve) as u64),
        )
    }
}

/// What `deposit` does: on success the wallet's balance grows by `amount`,
/// paid out of the caller's balance; every other account is untouched.
pub open spec fn deposit_outcome(
    s: Seq<WalletAccount>,
    owner: [u8; 32],
    caller: [u8; 32],
    amount: u64,
    caller_balance: u64,
) -> (Seq<WalletAccount>, Result<u64, ErrorCode>) {
    if !has_owner(s, owner@) {
        (s, Err(ErrorCode::NotFound))
    } else {
        let a = account_of(s, owner@);
        if caller@ != a.wallet.owner@ {
            (s, Err(ErrorCode::Unauthorized))
        } else if caller_balance < amount || a.balance + amount > u64::MAX {
            (s, Err(ErrorCode::InsufficientFunds))
        } else {
            (
                s.update(
                    owner_index(s, owner@),
                    WalletAccount { wallet: a.wallet, balance: (a.balance + amount) as u64 },
                ),
                Ok((caller_balance - amount) as u64),
            )
        }
    }
}

/// What `withdraw` does: once the clock has reached the release time, the
/// wallet is drawn down to exactly the reserve and the difference is paid to
/// the owner; the record persists. Before the release time it fails with
/// `TooEarly`.
pub open spec fn withdraw_outcome(
    s: Seq<WalletAccount>,
    reserve: u64,
    owner: [u8; 32],
    caller: [u8; 32],
    now: i64,
    owner_balance: u64,
) -> (Seq<WalletAccount>, Result<u64, ErrorCode>) {
    if !has_owner(s, owner@) {
        (s, Err(ErrorCode::NotFound))
    } else {
        let a = account_of(s, owner@);
        if caller@ != a.wallet.owner@ {
            (s, Err(ErrorCode::Unauthorized))
        } else if now < a.wallet.release_time {
            (s, Err(ErrorCode::TooEarly))
        } else if owner_balance + spec_withdrawable(a.balance, reserve) > u64::MAX {
            (s, Err(ErrorCode::InsufficientFunds))
        } else {
            (
                s.update(
                    owner_index(s, owner@),
                    WalletAccount { wallet: a.wallet, balance: reserve },
                ),
                Ok((owner_balance + spec_withdrawable(a.balance, reserve)) as u64),
            )
        }
    }
}

/// What `close_wallet` does: the record is removed at any time — no time
/// gate — and the whole remaining balance, reserve included, is paid to the
/// owner.
pub open spec fn close_outcome(
    s: Seq<WalletAccount>,
    owner: [u8; 32],
    caller: [u8; 32],
    owner_balance: u64,
) -> (Seq<WalletAccount>, Result<u64, ErrorCode>) {
    if !has_owner(s, owner@) {
        (s, Err(ErrorCode::NotFound))
    } else {
        let a = account_of(s, owner@);
        if caller@ != a.wallet.owner@ {
            (s, Err(ErrorCode::Unauthorized))
        } else if owner_balance + a.balance > u64::MAX {
            (s, Err(ErrorCode::InsufficientFunds))
        } else {
            (s.remove(owner_index(s, owner@)), Ok((owner_balance + a.balance) as u64))
        }
    }
}

/// The time-locked wallet system: the account store plus the two values the
/// environment fixes at initialization — the reserve (the minimum-balance
/// oracle's answer for this record size) and the namespace tag used for
/// address derivation.
pub struct TimeLockedWallets {
    pub store: WalletStore,
    pub reserve: u64,
    pub namespace_tag: u8,
}

impl TimeLockedWallets {
    /// The system's invariant: one account per owner, every balance at or
    /// above the reserve, and every record's derivation tag matching the
    /// system's namespace tag.
    pub open spec fn wf(&self) -> bool {
        &&& self.store.wf()
        &&& forall|i: int|
            0 <= i < self.store@.len() ==> #[trigger] self.store@[i].balance >= self.reserve
        &&& forall|i: int|
            0 <= i < self.store@.len() ==> #[trigger] self.store@[i].wallet.derivation_tag
                == self.namespace_tag
    }

    /// The stored accounts.
    pub open spec fn accounts(&self) -> Seq<WalletAccount> {
        self.store@
    }

    /// An empty system, configured with the oracle's minimum balance for
    /// this record size and the namespace tag.
    pub fn new(reserve: u64, namespace_tag: u8) -> (s: Self)
        ensures
            s.wf(),
            s.accounts() == Seq::<WalletAccount>::empty(),
            s.reserve == reserve,
            s.namespace_tag == namespace_tag,
    {
        TimeLockedWallets { store: WalletStore::new(), reserve, namespace_tag }
    }

    /// Creates `owner`'s wallet with the given release time, funding its
    /// reserve out of the caller's balance; returns the caller's remaining
    /// balance. The release time is recorded as given: it is not required
    /// to lie in the future.
    pub fn create_wallet(
        &mut self,
        owner: &[u8; 32],
        caller: &[u8; 32],
        release_time: i64,
        caller_balance: u64,
    ) -> (r: Result<u64, ErrorCode>)
        requires
            old(self).wf(),
        ensures
            final(self).wf(),
            final(self).reserve == old(self).reserve,
            final(self).namespace_tag == old(self).namespace_tag,
            (final(self).accounts(), r) == create_outcome(
                old(self).accounts(),
                old(self).reserve,
                old(self).namespace_tag,
                *owner,
                *caller,
                release_time,
                caller_balance,
            ),
    {
        if !crate::wallet::owner_eq(caller, owner) {
            return Err(ErrorCode::Unauthorized);
        }
        if caller_balance < self.reserve {
            // Checked ahead of allocation so that a rejected creation
            // leaves no record behind; the store still decides existence.
            match self.store.find(owner) {
                Some(_) => {
                    return Err(ErrorCode::AlreadyExists);
                },
                None => {
                    return Err(ErrorCode::InsufficientFunds);
                },
            }
        }
        let account = WalletAccount {
            wallet: Wallet {
                owner: *owner,
                release_time,
                derivation_tag: self.namespace_tag,
            },
            balance: self.reserve,
        };
        match self.store.create_account(account) {
            Err(e) => Err(e),
            Ok(()) => Ok(caller_balance - self.reserve),
        }
    }

    /// Deposits `amount` into `owner`'s wallet out of the caller's balance;
    /// returns the caller's remaining balance.
    pub fn deposit(
        &mut self,
        owner: &[u8; 32],
        caller: &[u8; 32],
        amount: u64,
        caller_balance: u64,
    ) -> (r: Result<u64, ErrorCode>)
        requires
            old(self).wf(),
        ensures
            final(self).wf(),
            final(self).reserve == old(self).reserve,
            final(self).namespace_tag == old(self).namespace_tag,
            (final(self).accounts(), r) == deposit_outcome(
                old(self).accounts(),
                *owner,
                *caller,
                amount,
                caller_balance,
            ),
    {
        let i = match self.store.find(owner) {
            None => {
                return Err(ErrorCode::NotFound);
            },
            Some(i) => i,
        };
        let account = self.store.accounts[i];
        if let Err(e) = authorize(&account.wallet, caller) {
            return Err(e);
        }
        if caller_balance < amount || account.balance > u64::MAX - amount {
            return Err(ErrorCode::InsufficientFunds);
        }
        self.store.update_balance(i, account.balance + amount);
        Ok(caller_balance - amount)
    }

    /// Withdraws everything above the reserve from `owner`'s wallet into the
    /// owner's balance, once the clock has reached the release time; returns
    /// the owner's new balance. The wallet keeps exactly the reserve and its
    /// record persists.
    pub fn withdraw(
        &mut self,
        owner: &[u8; 32],
        caller: &[u8; 32],
        now: i64,
        owner_balance: u64,
    ) -> (r: Result<u64, ErrorCode>)
        requires
            old(self).wf(),
        ensures
            final(self).wf(),
            final(self).reserve == old(self).reserve,
            final(self).namespace_tag == old(self).namespace_tag,
            (final(self).accounts(), r) == withdraw_outcome(
                old(self).accounts(),
                old(self).reserve,
                *owner,
                *caller,
                now,
                owner_balance,
            ),
    {
        let i = match self.store.find(owner) {
            None => {
                return Err(ErrorCode::NotFound);
            },
            Some(i) => i,
        };
        let account = self.store.accounts[i];
        if let Err(e) = authorize(&account.wallet, caller) {
            return Err(e);
        }
        if let Err(e) = check_release(&account.wallet, now) {
            return Err(e);
        }
        let withdrawable = withdrawable_amount(account.balance, self.reserve);
        if owner_balance > u64::MAX - withdrawable {
            return Err(ErrorCode::InsufficientFunds);
        }
        self.store.update_balance(i, self.reserve);
        Ok(owner_balance + withdrawable)
    }

    /// Closes `owner`'s wallet at any time — the release time is not
    /// consulted — removing its record and paying the whole remaining
    /// balance, reserve included, into the owner's balance; returns the
    /// owner's new balance.
    pub fn close_wallet(
        &mut self,
        owner: &[u8; 32],
        caller: &[u8; 32],
        owner_balance: u64,
    ) -> (r: Result<u64, ErrorCode>)
        requires
            old(self).wf(),
        ensures
            final(self).wf(),
            final(self).reserve == old(self).reserve,
            final(self).namespace_tag == old(self).namespace_tag,
            (final(self).accounts(), r) == close_outcome(
                old(self).accounts(),
                *owner,
                *caller,
                owner_balance,
            ),
    {
        let i = match self.store.find(owner) {
            None => {
                return Err(ErrorCode::NotFound);
            },
            Some(i) => i,
        };
        let account = self.store.accounts[i];
        if let Err(e) = authorize(&account.wallet, caller) {
            return Err(e);
        }
        if owner_balance > u64::MAX - account.balance {
            return Err(ErrorCode::InsufficientFunds);
        }
        match self.store.destroy(owner) {
            Some(balance) => Ok(owner_balance + balance),
            None => Err(ErrorCode::NotFound),
        }
    }

    /// The balance of `owner`'s wallet, if one exists.
    pub fn balance_of(&self, owner: &[u8; 32]) -> (r: Option<u64>)
        requires
            self.wf(),
        ensures
            r is Some <==> has_owner(self.accounts(), owner@),
            r matches Some(b) ==> b == account_of(self.accounts(), owner@).balance,
    {
        match self.store.load(owner) {
            Some(a) => Some(a.balance),
            None => None,
        }
    }

    /// The record of `owner`'s wallet, if one exists.
    pub fn wallet_of(&self, owner: &[u8; 32]) -> (r: Option<Wallet>)
        requires
            self.wf(),
        ensures
            r is Some <==> has_owner(self.accounts(), owner@),
            r matches Some(w) ==> w == account_of(self.accounts(), owner@).wallet,
    {
        match self.store.load(owner) {
            Some(a) => Some(a.wallet),
            None => None,
        }
    }

    /// Whether `owner` currently holds a wallet.
    pub fn contains(&self, owner: &[u8; 32]) -> (r: bool)
        requires
            self.wf(),
        ensures
            r == has_owner(self.accounts(), owner@),
    {
        match self.store.find(owner) {
            Some(_) => true,
            None => false,
        }
    }

    /// The number of stored wallets.
    pub fn wallet_count(&self) -> (r: usize)
        ensures
            r == self.accounts().len(),
    {
        self.store.accounts.len()
    }

    /// The configured reserve: the minimum-balance oracle's answer for this
    /// record size, fixed at initialization.
    pub fn minimum_reserve(&self) -> (r: u64)
        ensures
            r == self.reserve,
    {
        self.reserve
    }
}

} // verus!
