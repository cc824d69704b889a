//! In-memory storage of encrypted wallets, keyed by wallet identifier.
//!
//! Wallets are stored in encrypted form only.  Encrypting a wallet under its
//! password, and decrypting it again, is done by the wallet encryption layer;
//! the storage decides what is kept, what is found and what each outcome
//! means.

use vstd::prelude::*;
use crate::text::{owned, str_eq};

verus! {

/// Storage error type.
#[derive(Debug, Clone, PartialEq, Eq)]
pub enum StorageError {
    /// The encryption layer failed, with its message.
    EncryptionError(String),
    /// No wallet is stored under the identifier.
    NotFound(String),
    /// Serialization error.
    SerializationError(String),
}

/// An encrypted wallet, as the encryption layer produced it.
#[derive(Debug, Clone, PartialEq, Eq)]
pub struct EncryptedWallet {
    pub data: Vec<u8>,
}

struct StoredWallet {
    id: String,
    wallet: EncryptedWallet,
}

/// The latest entry stored under `id`, if any.
pub open spec fn lookup(entries: Seq<(Seq<char>, Seq<u8>)>, id: Seq<char>) -> Option<Seq<u8>>
    decreases entries.len(),
{
    if entries.len() == 0 {
        None
    } else if entries.last().0 == id {
        Some(entries.last().1)
    } else {
        lookup(entries.drop_last(), id)
    }
}

/// The entries whose identifier differs from `id`.
pub open spec fn without(entries: Seq<(Seq<char>, Seq<u8>)>, id: Seq<char>) -> Seq<(Seq<char>, Seq<u8>)> {
    entries.filter(|e: (Seq<char>, Seq<u8>)| e.0 != id)
}

/// The identifiers of the entries.
pub open spec fn entry_ids(entries: Seq<(Seq<char>, Seq<u8>)>) -> Seq<Seq<char>> {
    entries.map_values(|e: (Seq<char>, Seq<u8>)| e.0)
}

proof fn lemma_without_last(entries: Seq<(Seq<char>, Seq<u8>)>, id: Seq<char>)
    requires
        entries.len() > 0,
    ensures
        without(entries, id) == if entries.last().0 != id {
            without(entries.drop_last(), id).push(entries.last())
        } else {
            without(entries.drop_last(), id)
        },
{
    reveal_with_fuel(Seq::filter, 1);
}

proof fn lemma_lookup_without(entries: Seq<(Seq<char>, Seq<u8>)>, id: Seq<char>, other: Seq<char>)
    ensures
        lookup(without(entries, id), other) == if other == id { None } else { lookup(entries, other) },
    decreases entries.len(),
{
    if entries.len() == 0 {
        reveal_with_fuel(Seq::filter, 1);
        assert(without(entries, id).len() == 0);
    } else {
        lemma_lookup_without(entries.drop_last(), id, other);
        lemma_without_last(entries, id);
        if entries.last().0 != id {
            let w = without(entries.drop_last(), id).push(entries.last());
            assert(w.drop_last() == without(entries.drop_last(), id));
        }
    }
}

proof fn lemma_entry_ids_last(entries: Seq<(Seq<char>, Seq<u8>)>)
    requires
        entries.len() > 0,
    ensures
        entry_ids(entries) == entry_ids(entries.drop_last()).push(entries.last().0),
{
    assert(entry_ids(entries) =~= entry_ids(entries.drop_last()).push(entries.last().0));
}

proof fn lemma_lookup_in_ids(entries: Seq<(Seq<char>, Seq<u8>)>, id: Seq<char>)
    ensures
        lookup(entries, id) is Some <==> entry_ids(entries).contains(id),
    decreases entries.len(),
{
    if entries.len() > 0 {
        lemma_lookup_in_ids(entries.drop_last(), id);
        lemma_entry_ids_last(entries);
        let ids = entry_ids(entries);
        let prev = entry_ids(entries.drop_last());
        if prev.contains(id) {
            let j = choose|j: int| 0 <= j < prev.len() && prev[j] == id;
            assert(ids[j] == id);
        }
        if entries.last().0 == id {
            assert(ids[ids.len() - 1] == id);
        }
        if ids.contains(id) {
            let j = choose|j: int| 0 <= j < ids.len() && ids[j] == id;
            if j < prev.len() {
                assert(prev[j] == id);
            }
        }
    } else {
        assert(entry_ids(entries).len() == 0);
    }
}

proof fn lemma_without_no_dup(entries: Seq<(Seq<char>, Seq<u8>)>, id: Seq<char>)
    requires
        entry_ids(entries).no_duplicates(),
    ensures
        entry_ids(without(entries, id)).no_duplicates(),
        !entry_ids(without(entries, id)).contains(id),
    decreases entries.len(),
{
    reveal_with_fuel(Seq::filter, 1);
    if entries.len() > 0 {
        let prefix = entries.drop_last();
        assert(entry_ids(prefix) == entry_ids(entries).drop_last());
        lemma_without_no_dup(prefix, id);
        let last = entries.last();
        if last.0 != id {
            assert(without(entries, id) == without(prefix, id).push(last));
            assert(entry_ids(without(entries, id)) == entry_ids(without(prefix, id)).push(last.0));
            lemma_lookup_in_ids(without(prefix, id), last.0);
            lemma_lookup_without(prefix, id, last.0);
            lemma_lookup_in_ids(prefix, last.0);
            lemma_entry_ids_last(entries);
            assert(!entry_ids(prefix).contains(last.0)) by {
                if entry_ids(prefix).contains(last.0) {
                    let j = choose|j: int| 0 <= j < entry_ids(prefix).len() && entry_ids(prefix)[j] == last.0;
                    assert(entry_ids(entries)[j] == entry_ids(entries)[entries.len() - 1]);
                }
            }
        } else {
            assert(without(entries, id) == without(prefix, id));
        }
    }
}

/// Wallet storage manager (in memory).
pub struct WalletStorage {
    entries: Vec<StoredWallet>,
}

impl WalletStorage {
    /// The stored entries, oldest first.
    pub closed spec fn entries(&self) -> Seq<(Seq<char>, Seq<u8>)> {
        self.entries@.map_values(|e: StoredWallet| (e.id@, e.wallet.data@))
    }

    /// The stored wallets by identifier.
    pub open spec fn wallets(&self) -> Map<Seq<char>, Seq<u8>> {
        Map::new(|id: Seq<char>| lookup(self.entries(), id) is Some, |id: Seq<char>| lookup(self.entries(), id)->0)
    }

    /// No identifier is stored twice.
    pub closed spec fn wf(&self) -> bool {
        entry_ids(self.entries()).no_duplicates()
    }

    /// Creates an empty storage.
    pub fn new() -> (s: Self)
        ensures
            s.wf(),
            s.wallets() == Map::<Seq<char>, Seq<u8>>::empty(),
    {
        let s = WalletStorage { entries: Vec::new() };
        proof {
            assert(s.entries() =~= Seq::<(Seq<char>, Seq<u8>)>::empty());
            assert(s.wallets() =~= Map::<Seq<char>, Seq<u8>>::empty());
        }
        s
    }

    /// Saves a wallet.  `encrypted` is the outcome of encrypting the wallet
    /// data under its password: the encrypted wallet, or the encryption
    /// error's message.
    pub fn save_wallet(&mut self, wallet_id: &str, encrypted: Result<EncryptedWallet, String>) -> (r: Result<(), StorageError>)
        requires
            old(self).wf(),
        ensures
            final(self).wf(),
            match encrypted {
                Ok(w) => r is Ok && final(self).wallets() == old(self).wallets().insert(wallet_id@, w.data@),
                Err(e) => r matches Err(StorageError::EncryptionError(m)) && m@ == e@
                    && final(self).wallets() == old(self).wallets(),
            },
    {
        match encrypted {
            Err(e) => Err(StorageError::EncryptionError(e)),
            Ok(w) => {
                let ghost before = self.entries();
                self.remove_entry(wallet_id);
                let ghost mid = self.entries();
                self.entries.push(StoredWallet { id: owned(wallet_id), wallet: w });
                proof {
                    assert(self.entries() == mid.push((wallet_id@, w.data@)));
                    assert(entry_ids(self.entries()) == entry_ids(mid).push(wallet_id@));
                    lemma_lookup_in_ids(mid, wallet_id@);
                    lemma_lookup_without(before, wallet_id@, wallet_id@);
                    assert forall|id: Seq<char>| #![auto] lookup(self.entries(), id) == if id == wallet_id@ {
                        Some(w.data@)
                    } else {
                        lookup(before, id)
                    } by {
                        lemma_lookup_without(before, wallet_id@, id);
                        assert(self.entries().drop_last() == mid);
                    }
                    assert(self.wallets() =~= old(self).wallets().insert(wallet_id@, w.data@));
                }
                Ok(())
            },
        }
    }

    /// Looks up the encrypted wallet stored under an identifier.
    pub fn load_wallet(&self, wallet_id: &str) -> (r: Result<EncryptedWallet, StorageError>)
        ensures
            self.wallets().contains_key(wallet_id@) ==> (r matches Ok(w) && w.data@ == self.wallets()[wallet_id@]),
            !self.wallets().contains_key(wallet_id@) ==> (r matches Err(StorageError::NotFound(m)) && m@ == wallet_id@),
    {
        let mut i = self.entries.len();
        proof {
            assert(self.entries().subrange(0, i as int) == self.entries());
        }
        while i > 0
            invariant
                i <= self.entries@.len(),
                lookup(self.entries(), wallet_id@) == lookup(self.entries().subrange(0, i as int), wallet_id@),
            decreases i,
        {
            let e = &self.entries[i - 1];
            proof {
                assert(self.entries().subrange(0, i as int).drop_last() == self.entries().subrange(0, i - 1));
            }
            if str_eq(e.id.as_str(), wallet_id) {
                return Ok(EncryptedWallet { data: copy_data(&e.wallet.data) });
            }
            i = i - 1;
        }
        Err(StorageError::NotFound(owned(wallet_id)))
    }

    /// Deletes a wallet; deleting an absent wallet succeeds too.
    pub fn delete_wallet(&mut self, wallet_id: &str) -> (r: Result<(), StorageError>)
        requires
            old(self).wf(),
        ensures
            final(self).wf(),
            r is Ok,
            final(self).wallets() == old(self).wallets().remove(wallet_id@),
    {
        let ghost before = self.entries();
        self.remove_entry(wallet_id);
        proof {
            assert forall|id: Seq<char>| #![auto] lookup(self.entries(), id) == if id == wallet_id@ {
                None
            } else {
                lookup(before, id)
            } by {
                lemma_lookup_without(before, wallet_id@, id);
            }
            assert(self.wallets() =~= old(self).wallets().remove(wallet_id@));
        }
        Ok(())
    }

    /// Lists the identifiers of all stored wallets, each once.
    pub fn list_wallets(&self) -> (r: Result<Vec<String>, StorageError>)
        requires
            self.wf(),
        ensures
            r matches Ok(ids) && ids@.map_values(|s: String| s@).no_duplicates()
                && ids@.map_values(|s: String| s@).to_set() == self.wallets().dom(),
    {
        let mut ids: Vec<String> = Vec::new();
        let mut i: usize = 0;
        while i < self.entries.len()
            invariant
                i <= self.entries@.len(),
                ids@.map_values(|s: String| s@) == entry_ids(self.entries()).subrange(0, i as int),
            decreases self.entries.len() - i,
        {
            let ghost before = ids@;
            ids.push(self.entries[i].id.clone());
            proof {
                assert(ids@ == before.push(ids@.last()));
                assert(ids@.map_values(|s: String| s@) =~= before.map_values(|s: String| s@).push(ids@.last()@));
                assert(entry_ids(self.entries()).subrange(0, i + 1) =~= entry_ids(self.entries()).subrange(0, i as int).push(self.entries()[i as int].0));
            }
            i = i + 1;
        }
        proof {
            assert(entry_ids(self.entries()).subrange(0, self.entries@.len() as int) == entry_ids(self.entries()));
            assert forall|id: Seq<char>| ids@.map_values(|s: String| s@).to_set().contains(id)
                <==> self.wallets().dom().contains(id) by {
                lemma_lookup_in_ids(self.entries(), id);
            }
            assert(ids@.map_values(|s: String| s@).to_set() =~= self.wallets().dom());
        }
        Ok(ids)
    }

    fn remove_entry(&mut self, wallet_id: &str)
        requires
            old(self).wf(),
        ensures
            final(self).wf(),
            final(self).entries() == without(old(self).entries(), wallet_id@),
    {
        let mut kept: Vec<StoredWallet> = Vec::new();
        let ghost all = self.entries();
        let mut i: usize = 0;
        while i < self.entries.len()
            invariant
                i <= self.entries@.len(),
                all == self.entries(),
                entry_ids(all).no_duplicates(),
                kept@.map_values(|e: StoredWallet| (e.id@, e.wallet.data@)) == without(all.subrange(0, i as int), wallet_id@),
            decreases self.entries.len() - i,
        {
            let e = &self.entries[i];
            proof {
                reveal_with_fuel(Seq::filter, 1);
                assert(all.subrange(0, i + 1).drop_last() == all.subrange(0, i as int));
            }
            if !str_eq(e.id.as_str(), wallet_id) {
                let ghost before = kept@;
                kept.push(StoredWallet { id: e.id.clone(), wallet: EncryptedWallet { data: copy_data(&e.wallet.data) } });
                proof {
                    assert(kept@.map_values(|e: StoredWallet| (e.id@, e.wallet.data@))
                        =~= before.map_values(|e: StoredWallet| (e.id@, e.wallet.data@)).push(all[i as int]));
                }
            }
            i = i + 1;
        }
        proof {
            assert(all.subrange(0, all.len() as int) == all);
            lemma_without_no_dup(all, wallet_id@);
        }
        self.entries = kept;
    }
}

fn copy_data(v: &Vec<u8>) -> (r: Vec<u8>)
    ensures
        r@ == v@,
{
    let mut r: Vec<u8> = Vec::new();
    let mut i: usize = 0;
    while i < v.len()
        invariant
            i <= v.len(),
            r@ == v@.subrange(0, i as int),
        decreases v.len() - i,
    {
        r.push(v[i]);
        i = i + 1;
    }
    r
}

/// The default wallet storage instance: empty.
pub fn default_storage() -> (s: WalletStorage)
    ensures
        s.wf(),
        s.wallets() == Map::<Seq<char>, Seq<u8>>::empty(),
{
    WalletStorage::new()
}

/// Loading a wallet right after saving it gives back exactly the saved
/// data, and saving leaves every other stored wallet as it was.
pub proof fn law_load_returns_saved(before: WalletStorage, after: WalletStorage, id: Seq<char>, data: Seq<u8>)
    requires
        after.wallets() == before.wallets().insert(id, data),
    ensures
        after.wallets().contains_key(id),
        after.wallets()[id] == data,
        forall|other: Seq<char>| other != id ==> (after.wallets().contains_key(other) == before.wallets().contains_key(other)
            && after.wallets()[other] == before.wallets()[other]),
{
}

/// After a wallet is deleted, loading it finds nothing; other wallets stay.
pub proof fn law_deleted_wallet_is_gone(before: WalletStorage, after: WalletStorage, id: Seq<char>)
    requires
        after.wallets() == before.wallets().remove(id),
    ensures
        !after.wallets().contains_key(id),
        forall|other: Seq<char>| other != id ==> (after.wallets().contains_key(other) == before.wallets().contains_key(other)
            && after.wallets()[other] == before.wallets()[other]),
{
}

} // verus!
