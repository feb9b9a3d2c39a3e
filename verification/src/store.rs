//! The wallet store: records keyed by their derived address.
//!
//! The store models the portion of the host ledger that this program owns:
//! a finite map from derived addresses to wallet records. It is viewed as
//! a `Map<Seq<u8>, WalletSnapshot>`.

use vstd::prelude::*;

use crate::account::AccountId;
use crate::errors::WalletError;

verus! {

/// The persistent per-owner wallet record.
#[derive(Clone, Copy)]
pub struct Wallet {
    /// The public key of the wallet owner; immutable after creation.
    pub owner: AccountId,
    /// The derivation nonce that fixes this record's address; immutable.
    pub bump: u8,
    /// How many transfers have settled through this wallet.
    pub transaction_count: u64,
}

/// The mathematical value of a wallet record.
pub struct WalletSnapshot {
    pub owner: Seq<u8>,
    pub bump: u8,
    pub transaction_count: u64,
}

impl View for Wallet {
    type V = WalletSnapshot;

    open spec fn view(&self) -> WalletSnapshot {
        WalletSnapshot {
            owner: self.owner@,
            bump: self.bump,
            transaction_count: self.transaction_count,
        }
    }
}

/// One occupied address of the store.
#[derive(Clone, Copy)]
pub struct WalletEntry {
    pub address: AccountId,
    pub wallet: Wallet,
}

/// The records of this program, keyed by derived address.
pub struct WalletStore {
    entries: Vec<WalletEntry>,
}

/// The map that a sequence of entries denotes; a later entry for the same
/// address would shadow an earlier one, but well-formed stores have
/// pairwise-distinct addresses.
pub open spec fn entries_map(s: Seq<WalletEntry>) -> Map<Seq<u8>, WalletSnapshot>
    decreases s.len(),
{
    if s.len() == 0 {
        Map::empty()
    } else {
        entries_map(s.drop_last()).insert(s.last().address@, s.last().wallet@)
    }
}

/// Pairwise-distinct addresses.
pub open spec fn distinct_addresses(s: Seq<WalletEntry>) -> bool {
    forall|i: int, j: int| 0 <= i < j < s.len() ==> s[i].address@ != s[j].address@
}

impl View for WalletStore {
    type V = Map<Seq<u8>, WalletSnapshot>;

    closed spec fn view(&self) -> Map<Seq<u8>, WalletSnapshot> {
        entries_map(self.entries@)
    }
}

proof fn lemma_entries_map_contains(s: Seq<WalletEntry>, k: Seq<u8>)
    ensures
        entries_map(s).contains_key(k) <==> exists|i: int| 0 <= i < s.len() && s[i].address@ == k,
    decreases s.len(),
{
    if s.len() > 0 {
        lemma_entries_map_contains(s.drop_last(), k);
        if s.last().address@ == k {
            assert(s[s.len() - 1].address@ == k);
        } else if entries_map(s).contains_key(k) {
            let i = choose|i: int| 0 <= i < s.drop_last().len() && s.drop_last()[i].address@ == k;
            assert(s[i].address@ == k);
        } else if exists|i: int| 0 <= i < s.len() && s[i].address@ == k {
            let i = choose|i: int| 0 <= i < s.len() && s[i].address@ == k;
            assert(s.drop_last()[i].address@ == k);
        }
    }
}

proof fn lemma_entries_map_index(s: Seq<WalletEntry>, i: int)
    requires
        distinct_addresses(s),
        0 <= i < s.len(),
    ensures
        entries_map(s).contains_key(s[i].address@),
        entries_map(s)[s[i].address@] == s[i].wallet@,
    decreases s.len(),
{
    if i < s.len() - 1 {
        assert(distinct_addresses(s.drop_last()));
        lemma_entries_map_index(s.drop_last(), i);
        assert(s.drop_last()[i] == s[i]);
        assert(s[i].address@ != s.last().address@);
    }
}

proof fn lemma_entries_map_push(s: Seq<WalletEntry>, e: WalletEntry)
    ensures
        entries_map(s.push(e)) == entries_map(s).insert(e.address@, e.wallet@),
{
    assert(s.push(e).drop_last() =~= s);
    assert(s.push(e).last() == e);
}

proof fn lemma_entries_map_update(s: Seq<WalletEntry>, i: int, e: WalletEntry)
    requires
        distinct_addresses(s),
        0 <= i < s.len(),
        e.address@ == s[i].address@,
    ensures
        entries_map(s.update(i, e)) =~= entries_map(s).insert(e.address@, e.wallet@),
    decreases s.len(),
{
    let t = s.update(i, e);
    if i == s.len() - 1 {
        assert(t.drop_last() =~= s.drop_last());
        assert(t.last() == e);
    } else {
        assert(t.last() == s.last());
        assert(t.drop_last() =~= s.drop_last().update(i, e));
        assert(distinct_addresses(s.drop_last()));
        lemma_entries_map_update(s.drop_last(), i, e);
        // The updated key differs from the last entry's key, so the two
        // inserts commute.
        assert(e.address@ != s.last().address@);
    }
}

impl WalletStore {
    /// Addresses are pairwise distinct: each record occupies one address.
    pub closed spec fn wf(&self) -> bool {
        distinct_addresses(self.entries@)
    }

    /// An empty store.
    pub fn new() -> (r: WalletStore)
        ensures
            r.wf(),
            r@ == Map::<Seq<u8>, WalletSnapshot>::empty(),
    {
        WalletStore { entries: Vec::new() }
    }

    /// Locate the entry at `address`, if any.
    fn find_index(&self, address: &AccountId) -> (r: Option<usize>)
        requires
            self.wf(),
        ensures
            match r {
                Some(i) => i < self.entries@.len() && self.entries@[i as int].address@ == address@
                    && self@.contains_key(address@)
                    && self@[address@] == self.entries@[i as int].wallet@,
                None => !self@.contains_key(address@),
            },
    {
        let mut i: usize = 0;
        while i < self.entries.len()
            invariant
                self.wf(),
                i <= self.entries@.len(),
                forall|j: int| 0 <= j < i ==> self.entries@[j].address@ != address@,
            decreases self.entries@.len() - i,
        {
            if self.entries[i].address.eq_bytes(address) {
                proof {
                    lemma_entries_map_index(self.entries@, i as int);
                }
                return Some(i);
            }
            i += 1;
        }
        proof {
            lemma_entries_map_contains(self.entries@, address@);
        }
        None
    }

    /// Create a fresh record at `address`, owned by `owner`, carrying the
    /// derivation nonce and a zero transaction counter. Fails with
    /// `AlreadyExists` exactly when the address is occupied.
    pub fn create(&mut self, address: &AccountId, owner: &AccountId, nonce: u8) -> (r: Result<
        (),
        WalletError,
    >)
        requires
            old(self).wf(),
        ensures
            final(self).wf(),
            match r {
                Ok(()) => !old(self)@.contains_key(address@) && final(self)@ == old(self)@.insert(
                    address@,
                    (WalletSnapshot { owner: owner@, bump: nonce, transaction_count: 0 }),
                ),
                Err(e) => e == WalletError::AlreadyExists && old(self)@.contains_key(address@)
                    && final(self)@ == old(self)@,
            },
    {
        match self.find_index(address) {
            Some(_) => Err(WalletError::AlreadyExists),
            None => {
                let entry = WalletEntry {
                    address: *address,
                    wallet: Wallet { owner: *owner, bump: nonce, transaction_count: 0 },
                };
                proof {
                    lemma_entries_map_contains(self.entries@, address@);
                    lemma_entries_map_push(self.entries@, entry);
                }
                self.entries.push(entry);
                Ok(())
            },
        }
    }

    /// Read the record at `address`. Fails with `NotFound` exactly when
    /// the address is vacant.
    pub fn read(&self, address: &AccountId) -> (r: Result<Wallet, WalletError>)
        requires
            self.wf(),
        ensures
            match r {
                Ok(w) => self@.contains_key(address@) && w@ == self@[address@],
                Err(e) => e == WalletError::NotFound && !self@.contains_key(address@),
            },
    {
        match self.find_index(address) {
            Some(i) => Ok(self.entries[i].wallet),
            None => Err(WalletError::NotFound),
        }
    }

    /// Add one to the transaction counter of the record at `address` and
    /// return the new count. Fails with `NotFound` exactly when the
    /// address is vacant; no other field changes.
    pub fn increment_counter(&mut self, address: &AccountId) -> (r: Result<u64, WalletError>)
        requires
            old(self).wf(),
            old(self)@.contains_key(address@) ==> old(self)@[address@].transaction_count
                < u64::MAX,
        ensures
            final(self).wf(),
            match r {
                Ok(c) => old(self)@.contains_key(address@) && c == old(self)@[
                    address@
                ].transaction_count + 1 && final(self)@ == old(self)@.insert(
                    address@,
                    (WalletSnapshot {
                        owner: old(self)@[address@].owner,
                        bump: old(self)@[address@].bump,
                        transaction_count: c,
                    }),
                ),
                Err(e) => e == WalletError::NotFound && !old(self)@.contains_key(address@)
                    && final(self)@ == old(self)@,
            },
    {
        match self.find_index(address) {
            Some(i) => {
                let entry = self.entries[i];
                let new_count = entry.wallet.transaction_count + 1;
                let updated = WalletEntry {
                    address: entry.address,
                    wallet: Wallet {
                        owner: entry.wallet.owner,
                        bump: entry.wallet.bump,
                        transaction_count: new_count,
                    },
                };
                proof {
                    lemma_entries_map_update(self.entries@, i as int, updated);
                }
                self.entries[i] = updated;
                Ok(new_count)
            },
            None => Err(WalletError::NotFound),
        }
    }
}

} // verus!
