//! What the wallet persists between runs: the selected chain and network
//! and the tracked records.  The signing session is ephemeral and never
//! persisted; the wallet's accounts are kept apart from this record.
//!
//! Reading and writing the record is the application's concern; these
//! functions decide what goes into it and what a restored record changes.

use vstd::prelude::*;
use crate::chain::ChainId;
use crate::records::{
    ContractRecord, Network, ProofRecord, SealRecord, SealStatus, TrackedSanad, TrackedTransfer, TransactionRecord,
};
use crate::state::AppState;
use crate::text::owned;

verus! {

/// The network as the persisted record names it.
#[derive(Clone, Copy, Debug, PartialEq, Eq, Structural)]
pub enum PersistedNetwork {
    Dev,
    Test,
    Main,
}

/// The persisted application record.
#[derive(Clone, Debug, PartialEq, Eq)]
pub struct PersistedState {
    pub version: u32,
    pub initialized: bool,
    pub selected_chain: Option<ChainId>,
    pub selected_network: Option<PersistedNetwork>,
    pub sanads: Vec<TrackedSanad>,
    pub transfers: Vec<TrackedTransfer>,
    pub seals: Vec<SealRecord>,
    pub proofs: Vec<ProofRecord>,
    pub contracts: Vec<ContractRecord>,
    pub transactions: Vec<TransactionRecord>,
    pub data_dir: String,
}

/// The persisted name of a network.
pub open spec fn persisted_network(n: Network) -> PersistedNetwork {
    match n {
        Network::Dev => PersistedNetwork::Dev,
        Network::Test => PersistedNetwork::Test,
        Network::Main => PersistedNetwork::Main,
    }
}

/// The network a persisted name restores: the test network when none is
/// recorded.
pub open spec fn restored_network(n: Option<PersistedNetwork>) -> Network {
    match n {
        Some(PersistedNetwork::Dev) => Network::Dev,
        Some(PersistedNetwork::Main) => Network::Main,
        _ => Network::Test,
    }
}

/// A seal as it is restored: its status read from its consumption flag,
/// which is then cleared, and no links to a Sanad, content or proof.
pub open spec fn restored_seal(s: SealRecord) -> SealRecord {
    SealRecord {
        consumed: false,
        sanad_id: None,
        status: if s.consumed { SealStatus::Consumed } else { SealStatus::Active },
        content: None,
        proof_ref: None,
        ..s
    }
}

fn copy_sanads(v: &Vec<TrackedSanad>) -> (r: Vec<TrackedSanad>)
    ensures
        r@ == v@,
{
    let mut r: Vec<TrackedSanad> = Vec::new();
    let mut i: usize = 0;
    while i < v.len()
        invariant
            i <= v@.len(),
            r@ == v@.subrange(0, i as int),
        decreases v.len() - i,
    {
        r.push(v[i].copy());
        i = i + 1;
    }
    assert(v@.subrange(0, i as int) =~= v@);
    r
}

fn copy_transfers(v: &Vec<TrackedTransfer>) -> (r: Vec<TrackedTransfer>)
    ensures
        r@ == v@,
{
    let mut r: Vec<TrackedTransfer> = Vec::new();
    let mut i: usize = 0;
    while i < v.len()
        invariant
            i <= v@.len(),
            r@ == v@.subrange(0, i as int),
        decreases v.len() - i,
    {
        r.push(v[i].copy());
        i = i + 1;
    }
    assert(v@.subrange(0, i as int) =~= v@);
    r
}

fn copy_seals(v: &Vec<SealRecord>) -> (r: Vec<SealRecord>)
    ensures
        r@ == v@,
{
    let mut r: Vec<SealRecord> = Vec::new();
    let mut i: usize = 0;
    while i < v.len()
        invariant
            i <= v@.len(),
            r@ == v@.subrange(0, i as int),
        decreases v.len() - i,
    {
        r.push(v[i].copy());
        i = i + 1;
    }
    assert(v@.subrange(0, i as int) =~= v@);
    r
}

fn copy_proofs(v: &Vec<ProofRecord>) -> (r: Vec<ProofRecord>)
    ensures
        r@ == v@,
{
    let mut r: Vec<ProofRecord> = Vec::new();
    let mut i: usize = 0;
    while i < v.len()
        invariant
            i <= v@.len(),
            r@ == v@.subrange(0, i as int),
        decreases v.len() - i,
    {
        r.push(v[i].copy());
        i = i + 1;
    }
    assert(v@.subrange(0, i as int) =~= v@);
    r
}

fn copy_contracts(v: &Vec<ContractRecord>) -> (r: Vec<ContractRecord>)
    ensures
        r@ == v@,
{
    let mut r: Vec<ContractRecord> = Vec::new();
    let mut i: usize = 0;
    while i < v.len()
        invariant
            i <= v@.len(),
            r@ == v@.subrange(0, i as int),
        decreases v.len() - i,
    {
        r.push(v[i].copy());
        i = i + 1;
    }
    assert(v@.subrange(0, i as int) =~= v@);
    r
}

fn restore_seals(v: &Vec<SealRecord>) -> (r: Vec<SealRecord>)
    ensures
        r@.len() == v@.len(),
        forall|i: int| 0 <= i < v@.len() ==> (#[trigger] r@[i]) == restored_seal(v@[i]),
{
    let mut r: Vec<SealRecord> = Vec::new();
    let mut i: usize = 0;
    while i < v.len()
        invariant
            i <= v@.len(),
            r@.len() == i,
            forall|k: int| 0 <= k < i ==> (#[trigger] r@[k]) == restored_seal(v@[k]),
        decreases v.len() - i,
    {
        let s = &v[i];
        r.push(SealRecord {
            seal_ref: s.seal_ref.clone(),
            chain: s.chain.copy(),
            value: s.value,
            consumed: false,
            sanad_id: None,
            status: if s.consumed { SealStatus::Consumed } else { SealStatus::Active },
            created_at: s.created_at,
            content: None,
            proof_ref: None,
        });
        i = i + 1;
    }
    r
}

impl AppState {
    /// The record persisted for this state: format version 1, whether the
    /// wallet holds accounts, the selection and the tracked records.
    /// Transactions are not persisted.
    pub fn persisted(&self) -> (p: PersistedState)
        ensures
            p.version == 1,
            p.initialized == (self.wallet.accounts@.len() > 0),
            p.selected_chain == Some(self.selected_chain),
            p.selected_network == Some(persisted_network(self.selected_network)),
            p.sanads@ == self.sanads@,
            p.transfers@ == self.transfers@,
            p.seals@ == self.seals@,
            p.proofs@ == self.proofs@,
            p.contracts@ == self.contracts@,
            p.transactions@.len() == 0,
            p.data_dir@ == "~/.csv/data"@,
    {
        PersistedState {
            version: 1,
            initialized: !self.wallet.is_empty(),
            selected_chain: Some(self.selected_chain.copy()),
            selected_network: Some(match self.selected_network {
                Network::Dev => PersistedNetwork::Dev,
                Network::Test => PersistedNetwork::Test,
                Network::Main => PersistedNetwork::Main,
            }),
            sanads: copy_sanads(&self.sanads),
            transfers: copy_transfers(&self.transfers),
            seals: copy_seals(&self.seals),
            proofs: copy_proofs(&self.proofs),
            contracts: copy_contracts(&self.contracts),
            transactions: Vec::new(),
            data_dir: owned("~/.csv/data"),
        }
    }

    /// Restores a persisted record: the recorded chain (the current one
    /// stays when none is recorded), the network, and the tracked records;
    /// the wallet, transactions, NFTs, notification and session stay as they
    /// are.
    pub fn restore(&mut self, persisted: PersistedState)
        ensures
            final(self).selected_chain == (match persisted.selected_chain {
                Some(c) => c,
                None => old(self).selected_chain,
            }),
            final(self).selected_network == restored_network(persisted.selected_network),
            final(self).sanads == persisted.sanads,
            final(self).transfers == persisted.transfers,
            final(self).proofs == persisted.proofs,
            final(self).contracts == persisted.contracts,
            final(self).seals@.len() == persisted.seals@.len(),
            forall|i: int| 0 <= i < persisted.seals@.len()
                ==> (#[trigger] final(self).seals@[i]) == restored_seal(persisted.seals@[i]),
            final(self).wallet == old(self).wallet,
            final(self).transactions == old(self).transactions,
            final(self).nfts == old(self).nfts,
            final(self).nft_collections == old(self).nft_collections,
            final(self).notification == old(self).notification,
            final(self).locked == old(self).locked,
            final(self).session_expires_at == old(self).session_expires_at,
    {
        let seals = restore_seals(&persisted.seals);
        match persisted.selected_chain {
            Some(c) => {
                self.selected_chain = c;
            },
            None => {},
        }
        self.selected_network = match persisted.selected_network {
            Some(PersistedNetwork::Dev) => Network::Dev,
            Some(PersistedNetwork::Main) => Network::Main,
            _ => Network::Test,
        };
        self.sanads = persisted.sanads;
        self.transfers = persisted.transfers;
        self.seals = seals;
        self.proofs = persisted.proofs;
        self.contracts = persisted.contracts;
    }
}

/// Persisting a state and restoring the record gives back its selection and
/// every tracked Sanad, transfer, proof and contract, and every seal that
/// is active and unlinked; the wallet and session are untouched.
pub proof fn law_restore_returns_persisted(s: AppState, p: PersistedState, after: AppState)
    requires
        p.selected_chain == Some(s.selected_chain),
        p.selected_network == Some(persisted_network(s.selected_network)),
        p.sanads@ == s.sanads@,
        p.transfers@ == s.transfers@,
        p.seals@ == s.seals@,
        p.proofs@ == s.proofs@,
        p.contracts@ == s.contracts@,
        after.selected_chain == p.selected_chain->0,
        after.selected_network == restored_network(p.selected_network),
        after.sanads == p.sanads,
        after.transfers == p.transfers,
        after.proofs == p.proofs,
        after.contracts == p.contracts,
        after.seals@.len() == p.seals@.len(),
        forall|i: int| 0 <= i < p.seals@.len() ==> (#[trigger] after.seals@[i]) == restored_seal(p.seals@[i]),
    ensures
        after.selected_chain == s.selected_chain,
        after.selected_network == s.selected_network,
        after.sanads@ == s.sanads@,
        after.transfers@ == s.transfers@,
        after.proofs@ == s.proofs@,
        after.contracts@ == s.contracts@,
        after.seals@.len() == s.seals@.len(),
        forall|i: int| 0 <= i < s.seals@.len() && !s.seals@[i].consumed && s.seals@[i].status == SealStatus::Active
            && s.seals@[i].sanad_id is None && s.seals@[i].content is None && s.seals@[i].proof_ref is None
            ==> #[trigger] after.seals@[i] == s.seals@[i],
{
    assert forall|i: int| 0 <= i < s.seals@.len() && !s.seals@[i].consumed && s.seals@[i].status == SealStatus::Active
        && s.seals@[i].sanad_id is None && s.seals@[i].content is None && s.seals@[i].proof_ref is None
        implies #[trigger] after.seals@[i] == s.seals@[i] by {
        assert(p.seals@[i] == s.seals@[i]);
    }
}

} // verus!
