//! The signing session: unlocking against the platform vault, importing a
//! signing account, and naming the vault entries that hold keys.
//!
//! The vault itself is reached by the caller; these functions decide what to
//! ask of it and what its answer means for the wallet.

use vstd::prelude::*;
use crate::chains::BitcoinNetwork;
use crate::portable::session_deadline;
use crate::records::{ChainAccount, Network};
use crate::state::{locked_at, AppState, WalletData};
use crate::text::{concat2, owned};

verus! {

/// Text in the hyphenated form of a UUID: 36 characters, lowercase
/// hexadecimal digits with hyphens at positions 8, 13, 18 and 23.
pub open spec fn uuid_shaped(s: Seq<char>) -> bool {
    &&& s.len() == 36
    &&& forall|i: int| 0 <= i < 36 ==> if i == 8 || i == 13 || i == 18 || i == 23 {
        #[trigger] s[i] == '-'
    } else {
        ('0' <= s[i] <= '9') || ('a' <= s[i] <= 'f')
    }
}

/// Wraps `uuid::Uuid::new_v4().to_string()`: a random version-4 UUID in
/// hyphenated lowercase form.  Which UUID comes back is not stated.
#[verifier::external_body]
fn random_uuid() -> (s: String)
    ensures
        uuid_shaped(s@),
{
    uuid::Uuid::new_v4().to_string()
}

/// A fresh identifier for a platform-vault entry.
pub fn new_keystore_id() -> (id: String)
    ensures
        uuid_shaped(id@),
{
    random_uuid()
}

/// Why the platform vault refused to hand out a key.
#[derive(Clone, Debug, PartialEq, Eq)]
pub enum VaultFailure {
    /// The passphrase does not decrypt the stored key.
    PassphraseMismatch,
    /// Any other failure, with its description.
    Other(String),
}

/// What the user is told when an unlock probe fails.
pub open spec fn unlock_failure_text(f: VaultFailure) -> Seq<char> {
    match f {
        VaultFailure::PassphraseMismatch => "Passphrase does not match this wallet"@,
        VaultFailure::Other(detail) => "Could not unlock the wallet: "@ + detail@,
    }
}

impl WalletData {
    /// The vault entry an unlock probes: that of the first account holding a
    /// signing key.  A wallet of watch-only accounts has none.
    pub fn unlock_probe(&self) -> (r: Option<String>)
        ensures
            match r {
                None => forall|j: int| 0 <= j < self.accounts@.len() ==> (#[trigger] self.accounts@[j]).keystore_ref is None,
                Some(id) => exists|p: int| 0 <= p < self.accounts@.len()
                    && self.accounts@[p].keystore_ref == Some(id)
                    && forall|j: int| 0 <= j < p ==> (#[trigger] self.accounts@[j]).keystore_ref is None,
            },
    {
        let mut i: usize = 0;
        while i < self.accounts.len()
            invariant
                i <= self.accounts@.len(),
                forall|j: int| 0 <= j < i ==> (#[trigger] self.accounts@[j]).keystore_ref is None,
            decreases self.accounts.len() - i,
        {
            match &self.accounts[i].keystore_ref {
                Some(id) => {
                    return Some(id.clone());
                },
                None => {},
            }
            i = i + 1;
        }
        None
    }
}

impl AppState {
    /// Concludes an unlock at time `now`.  `probe` is the vault's answer for
    /// the entry `unlock_probe` named, or `None` when there was none to ask
    /// about.  A refused probe leaves the wallet locked; otherwise a
    /// fifteen-minute signing session starts.
    pub fn finish_unlock(&mut self, probe: Option<Result<(), VaultFailure>>, now: u64) -> (r: Result<(), String>)
        ensures
            match probe {
                Some(Err(f)) => r matches Err(m) && m@ == unlock_failure_text(f) && *final(self) == *old(self),
                _ => r is Ok && *final(self) == (AppState {
                    locked: false,
                    session_expires_at: Some(session_deadline(now)),
                    ..*old(self)
                }),
            },
    {
        match probe {
            Some(Err(VaultFailure::PassphraseMismatch)) => Err(owned("Passphrase does not match this wallet")),
            Some(Err(VaultFailure::Other(detail))) => Err(concat2("Could not unlock the wallet: ", detail.as_str())),
            _ => {
                self.start_wallet_session(now.saturating_add(15 * 60));
                Ok(())
            },
        }
    }

    /// Adds an account whose key was just stored in the vault, and starts a
    /// fifteen-minute signing session at `now`.
    pub fn add_signing_account(&mut self, account: ChainAccount, now: u64)
        ensures
            final(self).wallet.accounts@ == old(self).wallet.accounts@.push(account),
            final(self).wallet.selected_account_id == old(self).wallet.selected_account_id,
            *final(self) == (AppState {
                wallet: final(self).wallet,
                locked: false,
                session_expires_at: Some(session_deadline(now)),
                ..*old(self)
            }),
    {
        self.add_account(account);
        self.start_wallet_session(now.saturating_add(15 * 60));
    }

    /// Refuses to hand out signing keys while the session is over.
    pub fn require_unlocked(&self, now: u64, refusal: &str) -> (r: Result<(), String>)
        ensures
            match r {
                Ok(()) => !locked_at(*self, now),
                Err(m) => locked_at(*self, now) && m@ == refusal@,
            },
    {
        if self.is_locked(now) {
            Err(owned(refusal))
        } else {
            Ok(())
        }
    }
}

/// The Bitcoin network addresses are derived for on a wallet network: main
/// net on `Main`, test net otherwise.
pub fn bitcoin_network_for(network: Network) -> (b: BitcoinNetwork)
    ensures
        b == (if network == Network::Main { BitcoinNetwork::Bitcoin } else { BitcoinNetwork::Testnet }),
{
    match network {
        Network::Main => BitcoinNetwork::Bitcoin,
        Network::Test | Network::Dev => BitcoinNetwork::Testnet,
    }
}

} // verus!
