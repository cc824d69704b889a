//! Application state: the wallet's accounts, tracked assets and records, the
//! selected chain and network, and the ephemeral signing session.
//!
//! Every operation here is a pure state transition; persisting the state and
//! driving the user interface is the application's concern.

use vstd::prelude::*;
use crate::chain::ChainId;
use crate::records::{
    ChainAccount, ContractRecord, Network, Notification, NotificationKind, ProofRecord, SealRecord, TrackedSanad,
    NftCollection, NftRecord, TrackedTransfer, TransactionRecord,
};
use crate::text::{owned, str_eq};

verus! {

/// `p` is the first index of `s` whose element satisfies `pred`.
pub open spec fn first_match<T>(s: Seq<T>, p: int, pred: spec_fn(T) -> bool) -> bool {
    &&& 0 <= p < s.len()
    &&& pred(s[p])
    &&& forall|j: int| 0 <= j < p ==> !pred(#[trigger] s[j])
}

/// No element of `s` satisfies `pred`.
pub open spec fn no_match<T>(s: Seq<T>, pred: spec_fn(T) -> bool) -> bool {
    forall|j: int| 0 <= j < s.len() ==> !pred(#[trigger] s[j])
}

/// The element a search over `s` returns: the first that satisfies `pred`.
pub open spec fn found<T>(s: Seq<T>, pred: spec_fn(T) -> bool, r: Option<T>) -> bool {
    &&& r is None <==> no_match(s, pred)
    &&& r matches Some(x) ==> exists|p: int| first_match(s, p, pred) && x == s[p]
}

/// Accounts on `chain` with `address`.
pub open spec fn has_chain_address(chain: Seq<char>, address: Seq<char>) -> spec_fn(ChainAccount) -> bool {
    |x: ChainAccount| x.chain@ == chain && x.address@ == address
}

/// Seals with the given reference.
pub open spec fn seal_with_ref(seal_ref: Seq<char>) -> spec_fn(SealRecord) -> bool {
    |x: SealRecord| x.seal_ref@ == seal_ref
}

/// Filtering out an element shortens a sequence.
pub proof fn lemma_filter_drops<T>(s: Seq<T>, pred: spec_fn(T) -> bool, i: int)
    requires
        0 <= i < s.len(),
        !pred(s[i]),
    ensures
        s.filter(pred).len() < s.len(),
    decreases s.len(),
{
    reveal_with_fuel(Seq::filter, 1);
    s.drop_last().lemma_filter_len(pred);
    if i < s.len() - 1 {
        lemma_filter_drops(s.drop_last(), pred, i);
    }
}

/// `after` is `before` with `x` written over the first element satisfying
/// `pred`, or appended where none does.
pub open spec fn upserted<T>(before: Seq<T>, after: Seq<T>, pred: spec_fn(T) -> bool, x: T) -> bool {
    &&& forall|p: int| #[trigger] first_match(before, p, pred) ==> after == before.update(p, x)
    &&& no_match(before, pred) ==> after == before.push(x)
}

/// The wallet's accounts.
#[derive(Clone, Debug, PartialEq, Eq)]
pub struct WalletData {
    pub accounts: Vec<ChainAccount>,
    pub selected_account_id: Option<String>,
}

impl WalletData {
    /// An empty wallet.
    pub fn new() -> (w: Self)
        ensures
            w.accounts@.len() == 0,
            w.selected_account_id is None,
    {
        WalletData { accounts: Vec::new(), selected_account_id: None }
    }

    /// Adds an account.
    pub fn add_account(&mut self, account: ChainAccount)
        ensures
            final(self).accounts@ == old(self).accounts@.push(account),
            final(self).selected_account_id == old(self).selected_account_id,
    {
        self.accounts.push(account);
    }

    /// The number of accounts.
    pub fn total_accounts(&self) -> (n: usize)
        ensures
            n == self.accounts@.len(),
    {
        self.accounts.len()
    }

    /// Whether the wallet has no account.
    pub fn is_empty(&self) -> (b: bool)
        ensures
            b == (self.accounts@.len() == 0),
    {
        self.accounts.len() == 0
    }

    /// All accounts, in order.
    pub fn all_accounts(&self) -> (r: Vec<ChainAccount>)
        ensures
            r@ == self.accounts@,
    {
        let mut r: Vec<ChainAccount> = Vec::new();
        let mut i: usize = 0;
        while i < self.accounts.len()
            invariant
                i <= self.accounts@.len(),
                r@ == self.accounts@.subrange(0, i as int),
            decreases self.accounts.len() - i,
        {
            r.push(self.accounts[i].copy());
            i = i + 1;
        }
        r
    }

    /// The accounts on a chain, in order.
    pub fn accounts_for_chain(&self, chain: &ChainId) -> (r: Vec<ChainAccount>)
        ensures
            r@ == self.accounts@.filter(|x: ChainAccount| x.chain@ == chain@),
    {
        let mut r: Vec<ChainAccount> = Vec::new();
        let mut i: usize = 0;
        while i < self.accounts.len()
            invariant
                i <= self.accounts@.len(),
                r@ == self.accounts@.subrange(0, i as int).filter(|x: ChainAccount| x.chain@ == chain@),
            decreases self.accounts.len() - i,
        {
            proof {
                reveal_with_fuel(Seq::filter, 1);
                assert(self.accounts@.subrange(0, i + 1).drop_last() == self.accounts@.subrange(0, i as int));
            }
            let x = &self.accounts[i];
            if x.chain.same(chain) {
                r.push(x.copy());
            }
            i = i + 1;
        }
        proof {
            assert(self.accounts@.subrange(0, self.accounts@.len() as int) == self.accounts@);
        }
        r
    }

    /// The first account on a chain.
    pub fn account_on_chain(&self, chain: &ChainId) -> (r: Option<ChainAccount>)
        ensures
            found(self.accounts@, |x: ChainAccount| x.chain@ == chain@, r),
    {
        let ghost pred = |x: ChainAccount| x.chain@ == chain@;
        let mut i: usize = 0;
        while i < self.accounts.len()
            invariant
                i <= self.accounts@.len(),
                pred == |x: ChainAccount| x.chain@ == chain@,
                forall|j: int| 0 <= j < i ==> !pred(#[trigger] self.accounts@[j]),
            decreases self.accounts.len() - i,
        {
            let x = &self.accounts[i];
            if x.chain.same(chain) {
                proof {
                    assert(first_match(self.accounts@, i as int, pred));
                }
                return Some(x.copy());
            }
            i = i + 1;
        }
        None
    }

    /// The first account with the given chain and address.
    pub fn account_at(&self, chain: &ChainId, address: &str) -> (r: Option<ChainAccount>)
        ensures
            found(self.accounts@, has_chain_address(chain@, address@), r),
    {
        let ghost pred = has_chain_address(chain@, address@);
        let mut i: usize = 0;
        while i < self.accounts.len()
            invariant
                i <= self.accounts@.len(),
                pred == has_chain_address(chain@, address@),
                forall|j: int| 0 <= j < i ==> !pred(#[trigger] self.accounts@[j]),
            decreases self.accounts.len() - i,
        {
            let x = &self.accounts[i];
            if x.chain.same(chain) && str_eq(x.address.as_str(), address) {
                proof {
                    assert(first_match(self.accounts@, i as int, pred));
                }
                return Some(x.copy());
            }
            i = i + 1;
        }
        None
    }

    /// The address of the first account on a chain.
    pub fn address_for_chain(&self, chain: &ChainId) -> (r: Option<String>)
        ensures
            match r {
                None => no_match(self.accounts@, |x: ChainAccount| x.chain@ == chain@),
                Some(a) => exists|p: int| first_match(self.accounts@, p, |x: ChainAccount| x.chain@ == chain@)
                    && a == self.accounts@[p].address,
            },
    {
        match self.account_on_chain(chain) {
            Some(account) => Some(account.address),
            None => None,
        }
    }

    /// Removes the accounts with the given identifier; tells whether any was
    /// removed.
    pub fn remove_account(&mut self, id: &str) -> (removed: bool)
        ensures
            final(self).accounts@ == old(self).accounts@.filter(|x: ChainAccount| x.id@ != id@),
            final(self).selected_account_id == old(self).selected_account_id,
            removed == (final(self).accounts@.len() < old(self).accounts@.len()),
    {
        let mut kept: Vec<ChainAccount> = Vec::new();
        let mut i: usize = 0;
        while i < self.accounts.len()
            invariant
                i <= self.accounts@.len(),
                kept@ == self.accounts@.subrange(0, i as int).filter(|x: ChainAccount| x.id@ != id@),
            decreases self.accounts.len() - i,
        {
            proof {
                reveal_with_fuel(Seq::filter, 1);
                assert(self.accounts@.subrange(0, i + 1).drop_last() == self.accounts@.subrange(0, i as int));
            }
            let x = &self.accounts[i];
            if !str_eq(x.id.as_str(), id) {
                kept.push(x.copy());
            }
            i = i + 1;
        }
        proof {
            assert(self.accounts@.subrange(0, self.accounts@.len() as int) == self.accounts@);
            self.accounts@.lemma_filter_len(|x: ChainAccount| x.id@ != id@);
        }
        let before = self.accounts.len();
        self.accounts = kept;
        self.accounts.len() < before
    }
}

/// Application state.
#[derive(Clone, Debug, PartialEq, Eq)]
pub struct AppState {
    pub wallet: WalletData,
    pub selected_chain: ChainId,
    pub selected_network: Network,
    pub sanads: Vec<TrackedSanad>,
    pub transfers: Vec<TrackedTransfer>,
    pub contracts: Vec<ContractRecord>,
    pub seals: Vec<SealRecord>,
    pub proofs: Vec<ProofRecord>,
    pub transactions: Vec<TransactionRecord>,
    pub nfts: Vec<NftRecord>,
    pub nft_collections: Vec<NftCollection>,
    pub notification: Option<Notification>,
    /// Session state is ephemeral and never persisted with wallet metadata.
    pub locked: bool,
    pub session_expires_at: Option<u64>,
}

/// The state a fresh application starts in: an empty, locked wallet on the
/// Bitcoin test network.
pub open spec fn is_default_state(s: AppState) -> bool {
    &&& s.wallet.accounts@.len() == 0
    &&& s.wallet.selected_account_id is None
    &&& s.selected_chain@ == "bitcoin"@
    &&& s.selected_network == Network::Test
    &&& s.sanads@.len() == 0
    &&& s.transfers@.len() == 0
    &&& s.contracts@.len() == 0
    &&& s.seals@.len() == 0
    &&& s.proofs@.len() == 0
    &&& s.transactions@.len() == 0
    &&& s.nfts@.len() == 0
    &&& s.nft_collections@.len() == 0
    &&& s.notification is None
    &&& s.locked
    &&& s.session_expires_at is None
}

impl Default for AppState {
    fn default() -> (s: Self)
        ensures
            is_default_state(s),
    {
        AppState {
            wallet: WalletData::new(),
            selected_chain: ChainId::new("bitcoin"),
            selected_network: Network::Test,
            sanads: Vec::new(),
            transfers: Vec::new(),
            contracts: Vec::new(),
            seals: Vec::new(),
            proofs: Vec::new(),
            transactions: Vec::new(),
            nfts: Vec::new(),
            nft_collections: Vec::new(),
            notification: None,
            locked: true,
            session_expires_at: None,
        }
    }
}

/// Whether the signing session of `s` is over at time `now` (Unix seconds):
/// the wallet is locked, or its session has expired.
pub open spec fn locked_at(s: AppState, now: u64) -> bool {
    s.locked || (s.session_expires_at matches Some(expiry) && now >= expiry)
}

/// The typed confirmation that permanently erasing wallet data requires.
pub open spec fn erase_confirmed(typed: Seq<char>) -> bool {
    typed == "ERASE"@
}

/// What removing the account on `chain` at `address` does to the accounts
/// `before`, giving `after` and telling `removed`.
pub open spec fn removal_at(
    before: Seq<ChainAccount>,
    after: Seq<ChainAccount>,
    chain: Seq<char>,
    address: Seq<char>,
    removed: bool,
) -> bool {
    &&& no_match(before, has_chain_address(chain, address)) ==> (!removed && after == before)
    &&& forall|p: int| #[trigger] first_match(before, p, has_chain_address(chain, address))
        ==> (removed && after == before.filter(|x: ChainAccount| x.id@ != before[p].id@))
}

impl AppState {
    /// Ends the signing session; wallet and asset metadata are kept.
    pub fn end_wallet_session(&mut self)
        ensures
            *final(self) == (AppState { locked: true, session_expires_at: None, notification: None, ..*old(self) }),
    {
        self.locked = true;
        self.session_expires_at = None;
        self.notification = None;
    }

    /// Starts a signing session that expires at `expires_at` (Unix seconds).
    pub fn start_wallet_session(&mut self, expires_at: u64)
        ensures
            *final(self) == (AppState { locked: false, session_expires_at: Some(expires_at), ..*old(self) }),
    {
        self.locked = false;
        self.session_expires_at = Some(expires_at);
    }

    /// Whether the signing session is over at time `now` (Unix seconds).
    pub fn is_locked(&self, now: u64) -> (b: bool)
        ensures
            b == locked_at(*self, now),
    {
        match self.session_expires_at {
            Some(expiry) => self.locked || now >= expiry,
            None => self.locked,
        }
    }

    /// Whether the wallet holds any account.
    pub fn is_initialized(&self) -> (b: bool)
        ensures
            b == (self.wallet.accounts@.len() > 0),
    {
        !self.wallet.is_empty()
    }

    /// Selects a chain.
    pub fn set_selected_chain(&mut self, chain: ChainId)
        ensures
            *final(self) == (AppState { selected_chain: chain, ..*old(self) }),
    {
        self.selected_chain = chain;
    }

    /// Selects a network.
    pub fn set_selected_network(&mut self, network: Network)
        ensures
            *final(self) == (AppState { selected_network: network, ..*old(self) }),
    {
        self.selected_network = network;
    }

    /// Shows a notification.
    pub fn set_notification(&mut self, kind: NotificationKind, message: String)
        ensures
            *final(self) == (AppState { notification: Some(Notification { kind, message }), ..*old(self) }),
    {
        self.notification = Some(Notification { kind, message });
    }

    /// Dismisses the notification.
    pub fn clear_notification(&mut self)
        ensures
            *final(self) == (AppState { notification: None, ..*old(self) }),
    {
        self.notification = None;
    }

    /// Adds a wallet account.
    pub fn add_account(&mut self, account: ChainAccount)
        ensures
            final(self).wallet.accounts@ == old(self).wallet.accounts@.push(account),
            *final(self) == (AppState { wallet: final(self).wallet, ..*old(self) }),
            final(self).wallet.selected_account_id == old(self).wallet.selected_account_id,
    {
        self.wallet.add_account(account);
    }

    /// Removes the account on `chain` with `address`: every account sharing
    /// the identifier of the first such account is removed.  Tells whether an
    /// account was removed.
    pub fn remove_account(&mut self, chain: &ChainId, address: &str) -> (removed: bool)
        ensures
            removal_at(old(self).wallet.accounts@, final(self).wallet.accounts@, chain@, address@, removed),
            *final(self) == (AppState { wallet: final(self).wallet, ..*old(self) }),
            final(self).wallet.selected_account_id == old(self).wallet.selected_account_id,
            no_match(old(self).wallet.accounts@, has_chain_address(chain@, address@))
                ==> (!removed && final(self).wallet.accounts@ == old(self).wallet.accounts@),
            forall|p: int| #[trigger] first_match(old(self).wallet.accounts@, p, has_chain_address(chain@, address@))
                ==> (removed && final(self).wallet.accounts@ == old(self).wallet.accounts@.filter(
                    |x: ChainAccount| x.id@ != old(self).wallet.accounts@[p].id@)),
    {
        match self.wallet.account_at(chain, address) {
            None => false,
            Some(account) => {
                let ghost before = self.wallet.accounts@;
                let removed = self.wallet.remove_account(account.id.as_str());
                proof {
                    let p = choose|p: int| first_match(before, p, has_chain_address(chain@, address@))
                        && account == before[p];
                    assert forall|q: int| #[trigger] first_match(before, q, has_chain_address(chain@, address@))
                        implies q == p by {
                        if q < p {
                        } else if p < q {
                        }
                    }
                    lemma_filter_drops(before, |x: ChainAccount| x.id@ != account.id@, p);
                }
                removed
            },
        }
    }

    /// The Sanads tracked on a chain, in order.
    pub fn sanads_for_chain(&self, chain: &ChainId) -> (r: Vec<TrackedSanad>)
        ensures
            r@ == self.sanads@.filter(|x: TrackedSanad| x.chain@ == chain@),
    {
        let mut r: Vec<TrackedSanad> = Vec::new();
        let mut i: usize = 0;
        while i < self.sanads.len()
            invariant
                i <= self.sanads@.len(),
                r@ == self.sanads@.subrange(0, i as int).filter(|x: TrackedSanad| x.chain@ == chain@),
            decreases self.sanads.len() - i,
        {
            proof {
                reveal_with_fuel(Seq::filter, 1);
                assert(self.sanads@.subrange(0, i + 1).drop_last() == self.sanads@.subrange(0, i as int));
            }
            let x = &self.sanads[i];
            if x.chain.same(chain) {
                r.push(x.copy());
            }
            i = i + 1;
        }
        proof {
            assert(self.sanads@.subrange(0, self.sanads@.len() as int) == self.sanads@);
        }
        r
    }

    /// The contracts known on a chain, in order.
    pub fn contracts_for_chain(&self, chain: &ChainId) -> (r: Vec<ContractRecord>)
        ensures
            r@ == self.contracts@.filter(|x: ContractRecord| x.chain@ == chain@),
    {
        let mut r: Vec<ContractRecord> = Vec::new();
        let mut i: usize = 0;
        while i < self.contracts.len()
            invariant
                i <= self.contracts@.len(),
                r@ == self.contracts@.subrange(0, i as int).filter(|x: ContractRecord| x.chain@ == chain@),
            decreases self.contracts.len() - i,
        {
            proof {
                reveal_with_fuel(Seq::filter, 1);
                assert(self.contracts@.subrange(0, i + 1).drop_last() == self.contracts@.subrange(0, i as int));
            }
            let x = &self.contracts[i];
            if x.chain.same(chain) {
                r.push(x.copy());
            }
            i = i + 1;
        }
        proof {
            assert(self.contracts@.subrange(0, self.contracts@.len() as int) == self.contracts@);
        }
        r
    }

    /// The proofs recorded for a Sanad, in order.
    pub fn proofs_for_sanad(&self, sanad_id: &str) -> (r: Vec<ProofRecord>)
        ensures
            r@ == self.proofs@.filter(|x: ProofRecord| x.sanad_id@ == sanad_id@),
    {
        let mut r: Vec<ProofRecord> = Vec::new();
        let mut i: usize = 0;
        while i < self.proofs.len()
            invariant
                i <= self.proofs@.len(),
                r@ == self.proofs@.subrange(0, i as int).filter(|x: ProofRecord| x.sanad_id@ == sanad_id@),
            decreases self.proofs.len() - i,
        {
            proof {
                reveal_with_fuel(Seq::filter, 1);
                assert(self.proofs@.subrange(0, i + 1).drop_last() == self.proofs@.subrange(0, i as int));
            }
            let x = &self.proofs[i];
            if str_eq(x.sanad_id.as_str(), sanad_id) {
                r.push(x.copy());
            }
            i = i + 1;
        }
        proof {
            assert(self.proofs@.subrange(0, self.proofs@.len() as int) == self.proofs@);
        }
        r
    }

    /// The first tracked Sanad with the given identifier.
    pub fn get_sanad(&self, id: &str) -> (r: Option<TrackedSanad>)
        ensures
            found(self.sanads@, |x: TrackedSanad| x.id@ == id@, r),
    {
        let ghost pred = |x: TrackedSanad| x.id@ == id@;
        let mut i: usize = 0;
        while i < self.sanads.len()
            invariant
                i <= self.sanads@.len(),
                pred == |x: TrackedSanad| x.id@ == id@,
                forall|j: int| 0 <= j < i ==> !pred(#[trigger] self.sanads@[j]),
            decreases self.sanads.len() - i,
        {
            let x = &self.sanads[i];
            if str_eq(x.id.as_str(), id) {
                proof {
                    assert(first_match(self.sanads@, i as int, pred));
                }
                return Some(x.copy());
            }
            i = i + 1;
        }
        None
    }

    /// The first tracked transfer with the given identifier.
    pub fn get_transfer(&self, id: &str) -> (r: Option<TrackedTransfer>)
        ensures
            found(self.transfers@, |x: TrackedTransfer| x.id@ == id@, r),
    {
        let ghost pred = |x: TrackedTransfer| x.id@ == id@;
        let mut i: usize = 0;
        while i < self.transfers.len()
            invariant
                i <= self.transfers@.len(),
                pred == |x: TrackedTransfer| x.id@ == id@,
                forall|j: int| 0 <= j < i ==> !pred(#[trigger] self.transfers@[j]),
            decreases self.transfers.len() - i,
        {
            let x = &self.transfers[i];
            if str_eq(x.id.as_str(), id) {
                proof {
                    assert(first_match(self.transfers@, i as int, pred));
                }
                return Some(x.copy());
            }
            i = i + 1;
        }
        None
    }

    /// The first recorded transaction with the given identifier.
    pub fn transaction_by_id(&self, id: &str) -> (r: Option<TransactionRecord>)
        ensures
            found(self.transactions@, |x: TransactionRecord| x.id@ == id@, r),
    {
        let ghost pred = |x: TransactionRecord| x.id@ == id@;
        let mut i: usize = 0;
        while i < self.transactions.len()
            invariant
                i <= self.transactions@.len(),
                pred == |x: TransactionRecord| x.id@ == id@,
                forall|j: int| 0 <= j < i ==> !pred(#[trigger] self.transactions@[j]),
            decreases self.transactions.len() - i,
        {
            let x = &self.transactions[i];
            if str_eq(x.id.as_str(), id) {
                proof {
                    assert(first_match(self.transactions@, i as int, pred));
                }
                return Some(x.copy());
            }
            i = i + 1;
        }
        None
    }

    /// The first seal bound to the given Sanad.
    pub fn seal_for_sanad(&self, sanad_id: &str) -> (r: Option<SealRecord>)
        ensures
            found(self.seals@, |x: SealRecord| x.sanad_id matches Some(s) && s@ == sanad_id@, r),
    {
        let ghost pred = |x: SealRecord| x.sanad_id matches Some(s) && s@ == sanad_id@;
        let mut i: usize = 0;
        while i < self.seals.len()
            invariant
                i <= self.seals@.len(),
                pred == |x: SealRecord| x.sanad_id matches Some(s) && s@ == sanad_id@,
                forall|j: int| 0 <= j < i ==> !pred(#[trigger] self.seals@[j]),
            decreases self.seals.len() - i,
        {
            let x = &self.seals[i];
            if opt_is(&x.sanad_id, sanad_id) {
                proof {
                    assert(first_match(self.seals@, i as int, pred));
                }
                return Some(x.copy());
            }
            i = i + 1;
        }
        None
    }

    /// The first proof recorded for the given seal.
    pub fn proof_for_seal(&self, seal_ref: &str) -> (r: Option<ProofRecord>)
        ensures
            found(self.proofs@, |x: ProofRecord| x.seal_ref matches Some(s) && s@ == seal_ref@, r),
    {
        let ghost pred = |x: ProofRecord| x.seal_ref matches Some(s) && s@ == seal_ref@;
        let mut i: usize = 0;
        while i < self.proofs.len()
            invariant
                i <= self.proofs@.len(),
                pred == |x: ProofRecord| x.seal_ref matches Some(s) && s@ == seal_ref@,
                forall|j: int| 0 <= j < i ==> !pred(#[trigger] self.proofs@[j]),
            decreases self.proofs.len() - i,
        {
            let x = &self.proofs[i];
            if opt_is(&x.seal_ref, seal_ref) {
                proof {
                    assert(first_match(self.proofs@, i as int, pred));
                }
                return Some(x.copy());
            }
            i = i + 1;
        }
        None
    }

    /// The first proof recorded for the given seal.
    pub fn get_proof(&self, seal_ref: &str) -> (r: Option<ProofRecord>)
        ensures
            found(self.proofs@, |x: ProofRecord| x.seal_ref matches Some(s) && s@ == seal_ref@, r),
    {
        self.proof_for_seal(seal_ref)
    }

    fn sanad_position(&self, id: &str) -> (r: Option<usize>)
        ensures
            r matches Some(p) ==> first_match(self.sanads@, p as int, |x: TrackedSanad| x.id@ == id@),
            r is None ==> no_match(self.sanads@, |x: TrackedSanad| x.id@ == id@),
    {
        let ghost pred = |x: TrackedSanad| x.id@ == id@;
        let mut i: usize = 0;
        while i < self.sanads.len()
            invariant
                i <= self.sanads@.len(),
                pred == |x: TrackedSanad| x.id@ == id@,
                forall|j: int| 0 <= j < i ==> !pred(#[trigger] self.sanads@[j]),
            decreases self.sanads.len() - i,
        {
            let x = &self.sanads[i];
            if str_eq(x.id.as_str(), id) {
                return Some(i);
            }
            i = i + 1;
        }
        None
    }

    fn contract_position(&self, address: &str) -> (r: Option<usize>)
        ensures
            r matches Some(p) ==> first_match(self.contracts@, p as int, |x: ContractRecord| x.address@ == address@),
            r is None ==> no_match(self.contracts@, |x: ContractRecord| x.address@ == address@),
    {
        let ghost pred = |x: ContractRecord| x.address@ == address@;
        let mut i: usize = 0;
        while i < self.contracts.len()
            invariant
                i <= self.contracts@.len(),
                pred == |x: ContractRecord| x.address@ == address@,
                forall|j: int| 0 <= j < i ==> !pred(#[trigger] self.contracts@[j]),
            decreases self.contracts.len() - i,
        {
            let x = &self.contracts[i];
            if str_eq(x.address.as_str(), address) {
                return Some(i);
            }
            i = i + 1;
        }
        None
    }

    fn seal_position(&self, seal_ref: &str) -> (r: Option<usize>)
        ensures
            r matches Some(p) ==> first_match(self.seals@, p as int, seal_with_ref(seal_ref@)),
            r is None ==> no_match(self.seals@, seal_with_ref(seal_ref@)),
    {
        let ghost pred = seal_with_ref(seal_ref@);
        let mut i: usize = 0;
        while i < self.seals.len()
            invariant
                i <= self.seals@.len(),
                pred == seal_with_ref(seal_ref@),
                forall|j: int| 0 <= j < i ==> !pred(#[trigger] self.seals@[j]),
            decreases self.seals.len() - i,
        {
            let x = &self.seals[i];
            if str_eq(x.seal_ref.as_str(), seal_ref) {
                return Some(i);
            }
            i = i + 1;
        }
        None
    }

    /// Tracks a Sanad, replacing the first tracked Sanad with the same
    /// identifier.
    pub fn add_sanad(&mut self, sanad: TrackedSanad)
        ensures
            upserted(old(self).sanads@, final(self).sanads@, |x: TrackedSanad| x.id@ == sanad.id@, sanad),
            *final(self) == (AppState { sanads: final(self).sanads, ..*old(self) }),
    {
        match self.sanad_position(sanad.id.as_str()) {
            Some(p) => {
                proof {
                    let ghost pred = |x: TrackedSanad| x.id@ == sanad.id@;
                    assert forall|q: int| #[trigger] first_match(old(self).sanads@, q, pred) implies q == p by {
                        if q < p {} else if p < q {}
                    }
                }
                self.sanads.set(p, sanad);
            },
            None => {
                proof {
                    let ghost pred = |x: TrackedSanad| x.id@ == sanad.id@;
                    assert forall|q: int| !#[trigger] first_match(old(self).sanads@, q, pred) by {}
                }
                self.sanads.push(sanad);
            },
        }
    }

    /// Records a contract, replacing the first known contract at the same
    /// address.
    pub fn add_contract(&mut self, contract: ContractRecord)
        ensures
            upserted(old(self).contracts@, final(self).contracts@, |x: ContractRecord| x.address@ == contract.address@, contract),
            *final(self) == (AppState { contracts: final(self).contracts, ..*old(self) }),
    {
        match self.contract_position(contract.address.as_str()) {
            Some(p) => {
                proof {
                    let ghost pred = |x: ContractRecord| x.address@ == contract.address@;
                    assert forall|q: int| #[trigger] first_match(old(self).contracts@, q, pred) implies q == p by {
                        if q < p {} else if p < q {}
                    }
                }
                self.contracts.set(p, contract);
            },
            None => {
                proof {
                    let ghost pred = |x: ContractRecord| x.address@ == contract.address@;
                    assert forall|q: int| !#[trigger] first_match(old(self).contracts@, q, pred) by {}
                }
                self.contracts.push(contract);
            },
        }
    }

    /// Links a proof to the first seal with the given reference; tells whether
    /// such a seal exists.
    pub fn link_proof_to_seal(&mut self, seal_ref: &str, proof_ref: &str) -> (linked: bool)
        ensures
            *final(self) == (AppState { seals: final(self).seals, ..*old(self) }),
            no_match(old(self).seals@, seal_with_ref(seal_ref@)) ==> (!linked && final(self).seals == old(self).seals),
            forall|p: int| #[trigger] first_match(old(self).seals@, p, seal_with_ref(seal_ref@)) ==> (linked
                && final(self).seals@.len() == old(self).seals@.len()
                && (forall|j: int| 0 <= j < old(self).seals@.len() && j != p ==> final(self).seals@[j] == old(self).seals@[j])
                && (final(self).seals@[p].proof_ref matches Some(r) && r@ == proof_ref@)
                && final(self).seals@[p] == (SealRecord { proof_ref: final(self).seals@[p].proof_ref, ..old(self).seals@[p] })),
    {
        match self.seal_position(seal_ref) {
            Some(p) => {
                proof {
                    assert forall|q: int| #[trigger] first_match(old(self).seals@, q, seal_with_ref(seal_ref@)) implies q == p by {
                        if q < p {} else if p < q {}
                    }
                }
                let mut seal = self.seals[p].copy();
                seal.proof_ref = Some(owned(proof_ref));
                self.seals.set(p, seal);
                true
            },
            None => false,
        }
    }

    /// Records a proof.
    pub fn add_proof(&mut self, proof: ProofRecord)
        ensures
            *final(self) == (AppState { proofs: final(self).proofs, ..*old(self) }),
            final(self).proofs@ == old(self).proofs@.push(proof),
    {
        self.proofs.push(proof);
    }

    /// Records a transaction.
    pub fn add_transaction(&mut self, tx: TransactionRecord)
        ensures
            *final(self) == (AppState { transactions: final(self).transactions, ..*old(self) }),
            final(self).transactions@ == old(self).transactions@.push(tx),
    {
        self.transactions.push(tx);
    }

    /// Stops tracking every Sanad with the given identifier; tells whether one was removed.
    pub fn remove_sanad(&mut self, id: &str) -> (removed: bool)
        ensures
            final(self).sanads@ == old(self).sanads@.filter(|x: TrackedSanad| x.id@ != id@),
            *final(self) == (AppState { sanads: final(self).sanads, ..*old(self) }),
            removed == (final(self).sanads@.len() < old(self).sanads@.len()),
    {
        let mut kept: Vec<TrackedSanad> = Vec::new();
        let mut i: usize = 0;
        while i < self.sanads.len()
            invariant
                i <= self.sanads@.len(),
                kept@ == self.sanads@.subrange(0, i as int).filter(|x: TrackedSanad| x.id@ != id@),
            decreases self.sanads.len() - i,
        {
            proof {
                reveal_with_fuel(Seq::filter, 1);
                assert(self.sanads@.subrange(0, i + 1).drop_last() == self.sanads@.subrange(0, i as int));
            }
            let x = &self.sanads[i];
            if !str_eq(x.id.as_str(), id) {
                kept.push(x.copy());
            }
            i = i + 1;
        }
        proof {
            assert(self.sanads@.subrange(0, self.sanads@.len() as int) == self.sanads@);
            self.sanads@.lemma_filter_len(|x: TrackedSanad| x.id@ != id@);
        }
        let before = self.sanads.len();
        self.sanads = kept;
        self.sanads.len() < before
    }

    /// Removes every proof of the given type recorded for a Sanad; tells whether one was removed.
    pub fn remove_proof(&mut self, sanad_id: &str, proof_type: &str) -> (removed: bool)
        ensures
            final(self).proofs@ == old(self).proofs@.filter(|x: ProofRecord| !(x.sanad_id@ == sanad_id@ && x.proof_type@ == proof_type@)),
            *final(self) == (AppState { proofs: final(self).proofs, ..*old(self) }),
            removed == (final(self).proofs@.len() < old(self).proofs@.len()),
    {
        let mut kept: Vec<ProofRecord> = Vec::new();
        let mut i: usize = 0;
        while i < self.proofs.len()
            invariant
                i <= self.proofs@.len(),
                kept@ == self.proofs@.subrange(0, i as int).filter(|x: ProofRecord| !(x.sanad_id@ == sanad_id@ && x.proof_type@ == proof_type@)),
            decreases self.proofs.len() - i,
        {
            proof {
                reveal_with_fuel(Seq::filter, 1);
                assert(self.proofs@.subrange(0, i + 1).drop_last() == self.proofs@.subrange(0, i as int));
            }
            let x = &self.proofs[i];
            if !(str_eq(x.sanad_id.as_str(), sanad_id) && str_eq(x.proof_type.as_str(), proof_type)) {
                kept.push(x.copy());
            }
            i = i + 1;
        }
        proof {
            assert(self.proofs@.subrange(0, self.proofs@.len() as int) == self.proofs@);
            self.proofs@.lemma_filter_len(|x: ProofRecord| !(x.sanad_id@ == sanad_id@ && x.proof_type@ == proof_type@));
        }
        let before = self.proofs.len();
        self.proofs = kept;
        self.proofs.len() < before
    }

}

fn opt_is(o: &Option<String>, s: &str) -> (b: bool)
    ensures
        b == (o matches Some(x) && x@ == s@),
{
    match o {
        Some(x) => str_eq(x.as_str(), s),
        None => false,
    }
}

impl AppState {
    /// Permanently erases the wallet state once `ERASE` is typed: the state
    /// becomes the one a fresh application starts in (locked, no accounts,
    /// no records).  Anything else is refused and changes nothing.  Deleting
    /// the stored copies is the caller's, between the check and this step.
    pub fn erase(&mut self, typed_confirmation: &str) -> (r: Result<(), String>)
        ensures
            r is Ok <==> erase_confirmed(typed_confirmation@),
            r is Ok ==> is_default_state(*final(self)),
            r matches Err(m) ==> m@ == "Type ERASE to permanently delete local wallet data"@
                && *final(self) == *old(self),
    {
        match check_erase_confirmation(typed_confirmation) {
            Err(m) => Err(m),
            Ok(()) => {
                *self = AppState::default();
                Ok(())
            },
        }
    }
}

/// Checks the typed confirmation that permanently erasing local wallet data
/// requires; erasing is never confused with locking.
pub fn check_erase_confirmation(typed_confirmation: &str) -> (r: Result<(), String>)
    ensures
        erase_confirmed(typed_confirmation@) ==> r is Ok,
        !erase_confirmed(typed_confirmation@) ==> (r matches Err(m)
            && m@ == "Type ERASE to permanently delete local wallet data"@),
{
    if str_eq(typed_confirmation, "ERASE") {
        Ok(())
    } else {
        Err(owned("Type ERASE to permanently delete local wallet data"))
    }
}

/// Where some element satisfies `pred`, a first such element exists.
pub proof fn lemma_first_match_exists<T>(s: Seq<T>, pred: spec_fn(T) -> bool, j: int)
    requires
        0 <= j < s.len(),
        pred(s[j]),
    ensures
        exists|p: int| first_match(s, p, pred),
    decreases j,
{
    if exists|k: int| 0 <= k < j && pred(#[trigger] s[k]) {
        let k = choose|k: int| 0 <= k < j && pred(#[trigger] s[k]);
        lemma_first_match_exists(s, pred, k);
    } else {
        assert(first_match(s, j, pred));
    }
}

/// Tracking a record (a Sanad by its identifier, a contract by its address)
/// makes it exactly what a lookup by that key finds next.
pub proof fn law_lookup_finds_upserted<T>(before: Seq<T>, after: Seq<T>, pred: spec_fn(T) -> bool, x: T)
    requires
        upserted(before, after, pred, x),
        pred(x),
    ensures
        found(after, pred, Some(x)),
{
    if no_match(before, pred) {
        assert(after == before.push(x));
        assert(first_match(after, before.len() as int, pred));
    } else {
        let j = choose|j: int| 0 <= j < before.len() && pred(#[trigger] before[j]);
        lemma_first_match_exists(before, pred, j);
        let p = choose|p: int| first_match(before, p, pred);
        assert(after == before.update(p, x));
        assert(first_match(after, p, pred));
    }
}

/// Ending a signing session keeps the wallet's accounts and every tracked
/// record, and leaves the wallet locked whatever the time.
pub proof fn law_ending_session_keeps_metadata(s: AppState, expires_at: u64, now: u64)
    ensures
        ({
            let started = AppState { locked: false, session_expires_at: Some(expires_at), ..s };
            let ended = AppState { locked: true, session_expires_at: None, notification: None, ..started };
            &&& ended.wallet == s.wallet
            &&& ended.sanads == s.sanads
            &&& ended.transfers == s.transfers
            &&& ended.contracts == s.contracts
            &&& ended.seals == s.seals
            &&& ended.proofs == s.proofs
            &&& ended.transactions == s.transactions
            &&& ended.selected_chain == s.selected_chain
            &&& ended.selected_network == s.selected_network
            &&& locked_at(ended, now)
        }),
{
}

/// A started session is open until its expiry time and over from then on.
pub proof fn law_session_open_until_expiry(s: AppState, expires_at: u64, now: u64)
    ensures
        locked_at(AppState { locked: false, session_expires_at: Some(expires_at), ..s }, now) <==> now >= expires_at,
{
}

/// A lookup by chain and address only ever answers an account on that chain
/// at that address, and answers one whenever the wallet holds one.
pub proof fn law_account_at_matches_chain_and_address(
    accounts: Seq<ChainAccount>,
    chain: Seq<char>,
    address: Seq<char>,
    r: Option<ChainAccount>,
)
    requires
        found(accounts, has_chain_address(chain, address), r),
    ensures
        r matches Some(a) ==> a.chain@ == chain && a.address@ == address,
        (exists|j: int| 0 <= j < accounts.len() && (#[trigger] accounts[j]).chain@ == chain
            && accounts[j].address@ == address) ==> r is Some,
{
    if exists|j: int| 0 <= j < accounts.len() && (#[trigger] accounts[j]).chain@ == chain && accounts[j].address@ == address {
        let j = choose|j: int| 0 <= j < accounts.len() && (#[trigger] accounts[j]).chain@ == chain
            && accounts[j].address@ == address;
        assert(has_chain_address(chain, address)(accounts[j]));
    }
}

/// Removing the account on a chain at an address removes only accounts that
/// share their identifier with an account on that chain at that address:
/// every other account stays, in order.  It reports a removal exactly when
/// the wallet held an account there, and that account is then gone.
pub proof fn law_removal_keeps_other_accounts(
    before: Seq<ChainAccount>,
    after: Seq<ChainAccount>,
    chain: Seq<char>,
    address: Seq<char>,
    removed: bool,
)
    requires
        removal_at(before, after, chain, address, removed),
    ensures
        forall|i: int| 0 <= i < after.len() ==> before.contains(#[trigger] after[i]),
        forall|x: ChainAccount| before.contains(x) && !after.contains(x) ==> exists|j: int| 0 <= j < before.len()
            && (#[trigger] before[j]).chain@ == chain && before[j].address@ == address && before[j].id@ == x.id@,
        removed <==> exists|j: int| 0 <= j < before.len() && (#[trigger] before[j]).chain@ == chain
            && before[j].address@ == address,
        removed ==> exists|j: int| 0 <= j < before.len() && (#[trigger] before[j]).chain@ == chain
            && before[j].address@ == address && !after.contains(before[j]),
{
    let pred = has_chain_address(chain, address);
    if exists|j: int| 0 <= j < before.len() && (#[trigger] before[j]).chain@ == chain && before[j].address@ == address {
        let j0 = choose|j: int| 0 <= j < before.len() && (#[trigger] before[j]).chain@ == chain
            && before[j].address@ == address;
        assert(pred(before[j0]));
        lemma_first_match_exists(before, pred, j0);
        let p = choose|p: int| first_match(before, p, pred);
        assert(first_match(before, p, pred));
        let keep = |x: ChainAccount| x.id@ != before[p].id@;
        assert(after == before.filter(keep));
        assert forall|i: int| 0 <= i < after.len() implies before.contains(#[trigger] after[i]) by {
            assert(after.contains(after[i]));
            before.lemma_filter_contains_rev(keep, after[i]);
        }
        assert forall|x: ChainAccount| before.contains(x) && !after.contains(x) implies exists|j: int| 0 <= j < before.len()
            && (#[trigger] before[j]).chain@ == chain && before[j].address@ == address && before[j].id@ == x.id@ by {
            let j = choose|j: int| 0 <= j < before.len() && before[j] == x;
            if keep(x) {
                before.lemma_filter_contains(keep, j);
            }
            assert(before[p].chain@ == chain && before[p].address@ == address);
        }
        assert(!after.contains(before[p])) by {
            if after.contains(before[p]) {
                let k = choose|k: int| 0 <= k < after.len() && after[k] == before[p];
                before.lemma_filter_pred(keep, k);
            }
        }
    } else {
        assert forall|j: int| 0 <= j < before.len() implies !pred(#[trigger] before[j]) by {}
    }
}

} // verus!
