//! Wallet records: accounts, tracked Sanads, transfers, contracts, seals,
//! proofs, transactions and notifications.  Each record holds the values the
//! wallet's logic reads.

use vstd::prelude::*;
use crate::chain::ChainId;
use crate::text::{concat3, owned};

verus! {

/// The network a wallet operates on.
#[derive(Clone, Copy, Debug, PartialEq, Eq, Structural)]
pub enum Network {
    Dev,
    Test,
    Main,
}

/// The lifecycle status of a tracked Sanad.
#[derive(Clone, Copy, Debug, PartialEq, Eq, Structural)]
pub enum SanadStatus {
    Active,
    Transferred,
    Consumed,
}

/// The status of a seal.
#[derive(Clone, Copy, Debug, PartialEq, Eq, Structural)]
pub enum SealStatus {
    Active,
    Consumed,
}

/// The recorded status of a proof.
#[derive(Clone, Copy, Debug, PartialEq, Eq, Structural)]
pub enum ProofStatus {
    Pending,
    Verified,
    Failed,
}

/// The kind of a user notification.
#[derive(Clone, Copy, Debug, PartialEq, Eq, Structural)]
pub enum NotificationKind {
    Success,
    Error,
    Warning,
    Info,
}

/// A user notification.
#[derive(Clone, Debug, PartialEq, Eq)]
pub struct Notification {
    pub kind: NotificationKind,
    pub message: String,
}

/// One chain account of the wallet.
#[derive(Clone, Debug, PartialEq, Eq)]
pub struct ChainAccount {
    pub id: String,
    pub chain: ChainId,
    pub name: String,
    pub address: String,
    /// The platform-keystore entry holding the account's signing key; `None`
    /// for a watch-only account.
    pub keystore_ref: Option<String>,
    pub derivation_path: Option<String>,
}

/// A Sanad the wallet tracks.
#[derive(Clone, Debug, PartialEq, Eq)]
pub struct TrackedSanad {
    pub id: String,
    pub chain: ChainId,
    pub value: u64,
    pub status: SanadStatus,
}

/// A cross-chain transfer the wallet tracks.
#[derive(Clone, Debug, PartialEq, Eq)]
pub struct TrackedTransfer {
    pub id: String,
}

/// A deployed contract the wallet knows.
#[derive(Clone, Debug, PartialEq, Eq)]
pub struct ContractRecord {
    pub chain: ChainId,
    pub address: String,
}

/// A seal the wallet holds.
#[derive(Clone, Debug, PartialEq, Eq)]
pub struct SealRecord {
    pub seal_ref: String,
    pub chain: ChainId,
    pub value: u64,
    pub consumed: bool,
    pub sanad_id: Option<String>,
    pub status: SealStatus,
    pub created_at: u64,
    pub content: Option<String>,
    pub proof_ref: Option<String>,
}

/// A proof receipt recorded for a Sanad.
#[derive(Clone, Debug, PartialEq, Eq)]
pub struct ProofRecord {
    pub seal_ref: Option<String>,
    pub sanad_id: String,
    pub chain: ChainId,
    pub proof_type: String,
    pub status: ProofStatus,
    pub verification_tx_hash: Option<String>,
    pub proof_data: Option<String>,
}

/// A chain transaction the wallet recorded.
#[derive(Clone, Debug, PartialEq, Eq)]
pub struct TransactionRecord {
    pub id: String,
}

/// An NFT the wallet tracks.
#[derive(Clone, Debug, PartialEq, Eq)]
pub struct NftRecord {
    pub id: String,
}

/// An NFT collection the wallet tracks.
#[derive(Clone, Debug, PartialEq, Eq)]
pub struct NftCollection {
    pub id: String,
}

/// A copy of an optional string.
pub fn copy_opt(o: &Option<String>) -> (r: Option<String>)
    ensures
        r == *o,
{
    match o {
        Some(s) => Some(s.clone()),
        None => None,
    }
}

impl Notification {
    /// A copy of this notification.
    pub fn copy(&self) -> (r: Self)
        ensures
            r == *self,
    {
        Notification { kind: self.kind, message: self.message.clone() }
    }
}

impl ChainAccount {
    /// A watch-only account: a public address without signing material.  Its
    /// identifier is `<chain>:<address>`.
    pub fn watch_only(chain: ChainId, name: &str, address: &str) -> (a: Self)
        ensures
            a.id@ == chain@ + ":"@ + address@,
            a.chain == chain,
            a.name@ == name@,
            a.address@ == address@,
            a.keystore_ref is None,
            a.derivation_path is None,
    {
        let id = concat3(chain.as_str(), ":", address);
        ChainAccount {
            id,
            chain,
            name: owned(name),
            address: owned(address),
            keystore_ref: None,
            derivation_path: None,
        }
    }

    /// An account whose signing key is held by the platform keystore under
    /// `keystore_id`.  Its identifier is `<chain>:<address>`.
    pub fn from_keystore(chain: ChainId, name: &str, address: &str, keystore_id: &str, derivation_path: Option<String>) -> (a: Self)
        ensures
            a.id@ == chain@ + ":"@ + address@,
            a.chain == chain,
            a.name@ == name@,
            a.address@ == address@,
            a.keystore_ref matches Some(k) && k@ == keystore_id@,
            a.derivation_path == derivation_path,
    {
        let id = concat3(chain.as_str(), ":", address);
        ChainAccount {
            id,
            chain,
            name: owned(name),
            address: owned(address),
            keystore_ref: Some(owned(keystore_id)),
            derivation_path,
        }
    }

    /// Whether the account has no signing key.
    pub fn is_watch_only(&self) -> (b: bool)
        ensures
            b == (self.keystore_ref is None),
    {
        self.keystore_ref.is_none()
    }

    /// A copy of this account.
    pub fn copy(&self) -> (r: Self)
        ensures
            r == *self,
    {
        ChainAccount {
            id: self.id.clone(),
            chain: self.chain.copy(),
            name: self.name.clone(),
            address: self.address.clone(),
            keystore_ref: copy_opt(&self.keystore_ref),
            derivation_path: copy_opt(&self.derivation_path),
        }
    }
}

impl TrackedSanad {
    /// A copy of this record.
    pub fn copy(&self) -> (r: Self)
        ensures
            r == *self,
    {
        TrackedSanad { id: self.id.clone(), chain: self.chain.copy(), value: self.value, status: self.status }
    }
}

impl TrackedTransfer {
    /// A copy of this record.
    pub fn copy(&self) -> (r: Self)
        ensures
            r == *self,
    {
        TrackedTransfer { id: self.id.clone() }
    }
}

impl ContractRecord {
    /// A copy of this record.
    pub fn copy(&self) -> (r: Self)
        ensures
            r == *self,
    {
        ContractRecord { chain: self.chain.copy(), address: self.address.clone() }
    }
}

impl SealRecord {
    /// A copy of this record.
    pub fn copy(&self) -> (r: Self)
        ensures
            r == *self,
    {
        SealRecord {
            seal_ref: self.seal_ref.clone(),
            chain: self.chain.copy(),
            value: self.value,
            consumed: self.consumed,
            sanad_id: copy_opt(&self.sanad_id),
            status: self.status,
            created_at: self.created_at,
            content: copy_opt(&self.content),
            proof_ref: copy_opt(&self.proof_ref),
        }
    }
}

impl ProofRecord {
    /// A copy of this record.
    pub fn copy(&self) -> (r: Self)
        ensures
            r == *self,
    {
        ProofRecord {
            seal_ref: copy_opt(&self.seal_ref),
            sanad_id: self.sanad_id.clone(),
            chain: self.chain.copy(),
            proof_type: self.proof_type.clone(),
            status: self.status,
            verification_tx_hash: copy_opt(&self.verification_tx_hash),
            proof_data: copy_opt(&self.proof_data),
        }
    }
}

impl TransactionRecord {
    /// A copy of this record.
    pub fn copy(&self) -> (r: Self)
        ensures
            r == *self,
    {
        TransactionRecord { id: self.id.clone() }
    }
}

} // verus!
