use hemion::chain::ChainId;
use hemion::chains::BitcoinNetwork;
use hemion::records::{ChainAccount, Network};
use hemion::session::{bitcoin_network_for, new_keystore_id, VaultFailure};
use hemion::state::AppState;

#[test]
fn keystore_ids_are_fresh_uuids() {
    let a = new_keystore_id();
    let b = new_keystore_id();
    assert_ne!(a, b);
    assert_eq!(a.len(), 36);
    assert_eq!(&a[14..15], "4");
    assert!(a.chars().enumerate().all(|(i, c)| if [8, 13, 18, 23].contains(&i) { c == '-' } else { c.is_ascii_hexdigit() && !c.is_ascii_uppercase() }));
}

#[test]
fn unlocking_probes_the_first_signing_account() {
    let mut state = AppState::default();
    state.add_account(ChainAccount::watch_only(ChainId::new("sui"), "W", "0x1"));
    assert_eq!(state.wallet.unlock_probe(), None);
    state.add_account(ChainAccount::from_keystore(ChainId::new("sui"), "S", "0x2", "key-2", None));
    state.add_account(ChainAccount::from_keystore(ChainId::new("sui"), "T", "0x3", "key-3", None));
    assert_eq!(state.wallet.unlock_probe(), Some("key-2".to_string()));
}

#[test]
fn a_refused_probe_keeps_the_wallet_locked() {
    let mut state = AppState::default();
    assert_eq!(
        state.finish_unlock(Some(Err(VaultFailure::PassphraseMismatch)), 10),
        Err("Passphrase does not match this wallet".to_string())
    );
    assert!(state.locked);
    assert_eq!(
        state.finish_unlock(Some(Err(VaultFailure::Other("io".to_string()))), 10),
        Err("Could not unlock the wallet: io".to_string())
    );
    assert_eq!(state.finish_unlock(None, 10), Ok(()));
    assert!(!state.locked);
    assert_eq!(state.session_expires_at, Some(910));
    assert!(state.is_locked(910));
}

#[test]
fn adding_a_signing_account_opens_a_session() {
    let mut state = AppState::default();
    state.add_signing_account(ChainAccount::from_keystore(ChainId::new("aptos"), "A", "0xa", "k", None), 5);
    assert_eq!(state.wallet.accounts.len(), 1);
    assert_eq!(state.session_expires_at, Some(905));
    assert_eq!(state.require_unlocked(6, "refused"), Ok(()));
    assert_eq!(state.require_unlocked(905, "refused"), Err("refused".to_string()));
}

#[test]
fn main_net_derives_main_net_addresses() {
    assert_eq!(bitcoin_network_for(Network::Main), BitcoinNetwork::Bitcoin);
    assert_eq!(bitcoin_network_for(Network::Test), BitcoinNetwork::Testnet);
    assert_eq!(bitcoin_network_for(Network::Dev), BitcoinNetwork::Testnet);
}
