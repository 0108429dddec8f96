//! The wallet account store: a keyed map from owner identity to account.
//!
//! The host ledger addresses a wallet by a deterministic function of its
//! owner's identity and a fixed namespace tag, so no client ever chooses a
//! storage location. That derivation is collision-free for distinct owners,
//! which makes the owner identity itself the key: the store below keeps the
//! accounts in a sequence whose owners are pairwise distinct.

use vstd::prelude::*;

use crate::wallet::{owner_eq, WalletAccount};
use crate::ErrorCode;

verus! {

/// Some stored account belongs to owner `o`.
pub open spec fn has_owner(s: Seq<WalletAccount>, o: Seq<u8>) -> bool {
    exists|i: int| 0 <= i < s.len() && s[i].wallet.owner@ == o
}

/// The index of owner `o`'s account; meaningful only when `has_owner` holds
/// and the owners are pairwise distinct.
pub open spec fn owner_index(s: Seq<WalletAccount>, o: Seq<u8>) -> int {
    choose|i: int| 0 <= i < s.len() && s[i].wallet.owner@ == o
}

/// Owner `o`'s stored account.
pub open spec fn account_of(s: Seq<WalletAccount>, o: Seq<u8>) -> WalletAccount
    recommends
        has_owner(s, o),
{
    s[owner_index(s, o)]
}

/// No two stored accounts share an owner: exactly one wallet per identity.
pub open spec fn unique_owners(s: Seq<WalletAccount>) -> bool {
    forall|i: int, j: int|
        0 <= i < j < s.len() ==> s[i].wallet.owner@ != s[j].wallet.owner@
}

/// Under pairwise-distinct owners, any index holding owner `o` is the index
/// that `owner_index` picks.
pub proof fn lemma_owner_index_is(s: Seq<WalletAccount>, o: Seq<u8>, i: int)
    requires
        unique_owners(s),
        0 <= i < s.len(),
        s[i].wallet.owner@ == o,
    ensures
        has_owner(s, o),
        owner_index(s, o) == i,
        account_of(s, o) == s[i],
{
    assert(has_owner(s, o));
    let j = owner_index(s, o);
    if j != i {
        if j < i {
            assert(s[j].wallet.owner@ != s[i].wallet.owner@);
        } else {
            assert(s[i].wallet.owner@ != s[j].wallet.owner@);
        }
    }
}

/// Derives the storage address of `owner`'s wallet under `namespace_tag`.
/// The owner identity itself serves as the address, which makes the mapping
/// deterministic and collision-free for distinct owners; the returned
/// discriminant is recorded in the wallet and re-checked on later accesses.
pub fn derive_address(namespace_tag: u8, owner: &[u8; 32]) -> (r: ([u8; 32], u8))
    ensures
        r.0@ == owner@,
        r.1 == namespace_tag,
{
    (*owner, namespace_tag)
}

/// The store of wallet accounts, keyed by owner identity.
pub struct WalletStore {
    pub accounts: Vec<WalletAccount>,
}

impl View for WalletStore {
    type V = Seq<WalletAccount>;

    open spec fn view(&self) -> Seq<WalletAccount> {
        self.accounts@
    }
}

impl WalletStore {
    /// The store's own invariant: one account per owner.
    pub open spec fn wf(&self) -> bool {
        unique_owners(self@)
    }

    /// An empty store.
    pub fn new() -> (s: Self)
        ensures
            s@ == Seq::<WalletAccount>::empty(),
            s.wf(),
    {
        WalletStore { accounts: Vec::new() }
    }

    /// The index of `owner`'s account, if one is stored.
    pub fn find(&self, owner: &[u8; 32]) -> (r: Option<usize>)
        requires
            self.wf(),
        ensures
            r is Some <==> has_owner(self@, owner@),
            r matches Some(i) ==> i < self@.len() && i == owner_index(self@, owner@)
                && self@[i as int].wallet.owner@ == owner@,
    {
        let mut i: usize = 0;
        while i < self.accounts.len()
            invariant
                self.wf(),
                i <= self@.len(),
                forall|j: int| 0 <= j < i ==> self@[j].wallet.owner@ != owner@,
            decreases self@.len() - i,
        {
            if owner_eq(&self.accounts[i].wallet.owner, owner) {
                proof {
                    lemma_owner_index_is(self@, owner@, i as int);
                }
                return Some(i);
            }
            i += 1;
        }
        None
    }

    /// Loads owner `owner`'s account, or reports that none is stored.
    pub fn load(&self, owner: &[u8; 32]) -> (r: Option<&WalletAccount>)
        requires
            self.wf(),
        ensures
            r is Some <==> has_owner(self@, owner@),
            r matches Some(a) ==> *a == account_of(self@, owner@),
    {
        match self.find(owner) {
            Some(i) => Some(&self.accounts[i]),
            None => None,
        }
    }

    /// Stores a new account, or fails if its owner already holds one.
    pub fn create_account(&mut self, account: WalletAccount) -> (r: Result<(), ErrorCode>)
        requires
            old(self).wf(),
        ensures
            final(self).wf(),
            has_owner(old(self)@, account.wallet.owner@) ==> r == Err::<(), ErrorCode>(
                ErrorCode::AlreadyExists,
            ) && final(self)@ == old(self)@,
            !has_owner(old(self)@, account.wallet.owner@) ==> r == Ok::<(), ErrorCode>(())
                && final(self)@ == old(self)@.push(account),
    {
        match self.find(&account.wallet.owner) {
            Some(_) => Err(ErrorCode::AlreadyExists),
            None => {
                self.accounts.push(account);
                proof {
                    assert forall|i: int, j: int| 0 <= i < j < self@.len() implies self@[i]
                        .wallet.owner@ != self@[j].wallet.owner@ by {
                        if j < self@.len() - 1 {
                            assert(old(self)@[i].wallet.owner@ != old(self)@[j].wallet.owner@);
                        } else {
                            assert(self@[j] == account);
                            assert(!has_owner(old(self)@, account.wallet.owner@));
                            assert(old(self)@[i].wallet.owner@ != account.wallet.owner@);
                        }
                    }
                }
                Ok(())
            },
        }
    }

    /// Replaces the balance of the account at index `i`, leaving its record
    /// untouched.
    pub fn update_balance(&mut self, i: usize, balance: u64)
        requires
            old(self).wf(),
            i < old(self)@.len(),
        ensures
            final(self).wf(),
            final(self)@ == old(self)@.update(
                i as int,
                WalletAccount { wallet: old(self)@[i as int].wallet, balance },
            ),
    {
        let updated = WalletAccount { wallet: self.accounts[i].wallet, balance };
        self.accounts[i] = updated;
    }

    /// Destroys owner `owner`'s account, returning its final balance, or
    /// reports that none is stored. The record is removed entirely.
    pub fn destroy(&mut self, owner: &[u8; 32]) -> (r: Option<u64>)
        requires
            old(self).wf(),
        ensures
            final(self).wf(),
            !has_owner(old(self)@, owner@) ==> r is None && final(self)@ == old(self)@,
            has_owner(old(self)@, owner@) ==> r == Some(account_of(old(self)@, owner@).balance)
                && final(self)@ == old(self)@.remove(owner_index(old(self)@, owner@))
                && !has_owner(final(self)@, owner@),
    {
        match self.find(owner) {
            None => None,
            Some(i) => {
                let removed = self.accounts.remove(i);
                proof {
                    let s0 = old(self)@;
                    let s1 = self@;
                    assert forall|p: int, q: int| 0 <= p < q < s1.len() implies s1[p].wallet.owner@
                        != s1[q].wallet.owner@ by {
                        let p0: int = if p < i { p } else { p + 1 };
                        let q0: int = if q < i { q } else { q + 1 };
                        assert(s1[p] == s0[p0] && s1[q] == s0[q0]);
                        assert(s0[p0].wallet.owner@ != s0[q0].wallet.owner@);
                    }
                    assert forall|p: int| 0 <= p < s1.len() implies s1[p].wallet.owner@
                        != owner@ by {
                        let p0: int = if p < i { p } else { p + 1 };
                        assert(s1[p] == s0[p0]);
                        if p0 != i {
                            lemma_owner_index_is(s0, owner@, i as int);
                            if s0[p0].wallet.owner@ == owner@ {
                                lemma_owner_index_is(s0, owner@, p0);
                            }
                        }
                    }
                }
                Some(removed.balance)
            },
        }
    }
}

} // verus!
