use hemion::chain::ChainId;
use hemion::portable::{
    add_exported_key, derived_key_sources, export_identity, export_payload, signing_accounts, imported_private_key, plan_portable_import,
    private_source_positions, profile_accounts, wipe_secret, DerivedKey, KeySource, KeySourceKind, KnownAccount,
    PortableImportMode, PortableImportSummary, PortablePlan, WalletPayload,
};
use hemion::records::ChainAccount;
use hemion::state::AppState;

fn known(chain: &str, address: &str, label: &str) -> KnownAccount {
    KnownAccount { chain: chain.to_string(), address: address.to_string(), label: label.to_string() }
}

fn source(id: &str, kind: KeySourceKind, secret: Vec<u8>) -> KeySource {
    KeySource { id: id.to_string(), kind, secret }
}

fn payload(accounts: Vec<KnownAccount>, key_sources: Vec<KeySource>) -> WalletPayload {
    WalletPayload { accounts, key_sources, derivation_profiles: vec![] }
}

#[test]
fn a_profile_import_adds_watch_only_accounts() {
    let current = vec![ChainAccount::watch_only(ChainId::new("sui"), "Mine", "0x1")];
    let file = payload(vec![known("bitcoin", "bc1qa", "Savings")], vec![source("k", KeySourceKind::PrivateKey, vec![1; 32])]);
    let Ok(PortablePlan::Profiles(accounts)) = plan_portable_import(&current, &file, PortableImportMode::Profile, false)
    else {
        panic!("profile import must be planned");
    };
    assert_eq!(accounts.len(), 1);
    assert_eq!(accounts[0].id, "bitcoin:bc1qa");
    assert_eq!(accounts[0].name, "Savings");
    assert!(accounts[0].keystore_ref.is_none());
    let mut state = AppState::default();
    state.add_account(current[0].clone());
    let summary = state.add_profiles(accounts);
    assert_eq!(summary, PortableImportSummary { signing_keys_installed: 0, profiles_added: 1 });
    assert_eq!(state.wallet.accounts.len(), 2);
}

#[test]
fn imports_never_silently_merge_identities() {
    let current = vec![ChainAccount::watch_only(ChainId::new("sui"), "Mine", "0x1")];
    let file = payload(vec![known("sui", "0x1", "Again")], vec![]);
    assert_eq!(
        plan_portable_import(&current, &file, PortableImportMode::Profile, false).unwrap_err(),
        "Wallet file conflicts with an existing account; imports never silently merge identities"
    );
    let invalid = payload(vec![known("", "0x1", "Nameless")], vec![]);
    assert_eq!(
        profile_accounts(&current, &invalid, PortableImportMode::Replace).unwrap_err(),
        "Wallet file contains an invalid account profile"
    );
}

#[test]
fn replacing_an_identity_needs_confirmation() {
    let current = vec![ChainAccount::watch_only(ChainId::new("sui"), "Mine", "0x1")];
    let file = payload(vec![known("sui", "0x1", "Same")], vec![]);
    assert_eq!(
        plan_portable_import(&current, &file, PortableImportMode::Replace, false).unwrap_err(),
        "Replace requires explicit confirmation before it can remove the active identity"
    );
    match plan_portable_import(&current, &file, PortableImportMode::Replace, true) {
        Ok(PortablePlan::Replace { accounts, mnemonic }) => {
            assert_eq!(accounts.len(), 1);
            assert_eq!(mnemonic, None);
        },
        other => panic!("unexpected plan {other:?}"),
    }
}

#[test]
fn more_than_one_mnemonic_is_refused() {
    let file = payload(
        vec![known("sui", "0x1", "A")],
        vec![source("m1", KeySourceKind::Mnemonic, vec![1]), source("m2", KeySourceKind::Mnemonic, vec![2])],
    );
    assert_eq!(
        plan_portable_import(&vec![], &file, PortableImportMode::Replace, false).unwrap_err(),
        "Wallet file has multiple mnemonic sources; refusing to choose an identity"
    );
    let one = payload(
        vec![known("sui", "0x1", "A")],
        vec![source("p", KeySourceKind::PrivateKey, vec![1; 32]), source("m", KeySourceKind::Mnemonic, vec![1])],
    );
    match plan_portable_import(&vec![], &one, PortableImportMode::Replace, false) {
        Ok(PortablePlan::Replace { mnemonic, .. }) => assert_eq!(mnemonic, Some(1)),
        other => panic!("unexpected plan {other:?}"),
    }
}

#[test]
fn mnemonic_keys_are_named_after_their_chain() {
    let accounts = vec![known("sui", "0x1", "A"), known("aptos", "0x2", "B")];
    let derived = vec![
        DerivedKey { chain: ChainId::new("aptos"), secret: vec![2; 32] },
        DerivedKey { chain: ChainId::new("sui"), secret: vec![1; 32] },
    ];
    let sources = derived_key_sources(&accounts, &derived).unwrap();
    assert_eq!(sources[0].id, "derived:sui");
    assert_eq!(sources[0].secret, vec![1; 32]);
    assert_eq!(sources[1].id, "derived:aptos");
    assert_eq!(sources[1].kind, KeySourceKind::PrivateKey);
    assert_eq!(
        derived_key_sources(&vec![known("dogecoin", "D1", "C")], &derived).unwrap_err(),
        "Wallet file contains an unsupported chain for mnemonic import"
    );
}

#[test]
fn private_sources_must_match_the_accounts_one_for_one() {
    let sources = vec![
        source("m", KeySourceKind::Mnemonic, vec![]),
        source("a", KeySourceKind::PrivateKey, vec![1; 32]),
        source("b", KeySourceKind::PrivateKey, vec![2; 32]),
    ];
    assert_eq!(private_source_positions(&sources, 2), Ok(vec![1, 2]));
    assert_eq!(
        private_source_positions(&sources, 3).unwrap_err(),
        "Wallet file key sources do not unambiguously match its accounts"
    );
    assert_eq!(
        private_source_positions(&vec![source("m", KeySourceKind::Mnemonic, vec![])], 1).unwrap_err(),
        "Wallet file has no private-key source; import it as a profile"
    );
    assert_eq!(imported_private_key(&sources[1]), Ok([1; 32]));
    assert_eq!(
        imported_private_key(&source("short", KeySourceKind::PrivateKey, vec![1; 31])).unwrap_err(),
        "Wallet file has an invalid private-key source"
    );
}

#[test]
fn installing_an_identity_starts_a_fifteen_minute_session() {
    let mut state = AppState::default();
    state.add_account(ChainAccount::watch_only(ChainId::new("sui"), "Old", "0x0"));
    let accounts = vec![ChainAccount::from_keystore(ChainId::new("sui"), "New", "0x9", "k1", None)];
    let summary = state.install_identity(accounts, 1_000);
    assert_eq!(summary, PortableImportSummary { signing_keys_installed: 1, profiles_added: 0 });
    assert_eq!(state.wallet.accounts.len(), 1);
    assert_eq!(state.wallet.accounts[0].name, "New");
    assert!(!state.locked);
    assert_eq!(state.session_expires_at, Some(1_900));
    let mut late = AppState::default();
    late.install_identity(vec![], u64::MAX - 10);
    assert_eq!(late.session_expires_at, Some(u64::MAX));
}

#[test]
fn exports_list_accounts_profiles_and_keys() {
    let accounts = vec![
        ChainAccount::from_keystore(ChainId::new("sui"), "Main", "0x1", "k1", Some("m/44'/784'/0'".to_string())),
        ChainAccount::watch_only(ChainId::new("bitcoin"), "Watch", "bc1q"),
    ];
    let mut file = export_payload(&accounts);
    assert_eq!(file.accounts, vec![known("sui", "0x1", "Main"), known("bitcoin", "bc1q", "Watch")]);
    assert_eq!(file.derivation_profiles.len(), 1);
    assert_eq!(file.derivation_profiles[0].source_id, "k1");
    assert_eq!(file.derivation_profiles[0].path, "m/44'/784'/0'");
    add_exported_key(&mut file, "k1", &[5; 32]);
    assert_eq!(file.key_sources, vec![source("k1", KeySourceKind::PrivateKey, vec![5; 32])]);
    let mut secret = file.key_sources[0].clone();
    wipe_secret(&mut secret);
    assert!(secret.secret.is_empty());
    assert_eq!(secret.id, "k1");
}

fn signing_wallet() -> AppState {
    let mut state = AppState::default();
    state.add_account(ChainAccount::from_keystore(ChainId::new("sui"), "Main", "0x1", "k1", None));
    state.add_account(ChainAccount::watch_only(ChainId::new("aptos"), "Watch", "0x2"));
    state.add_account(ChainAccount::from_keystore(ChainId::new("bitcoin"), "Cold", "bc1q", "k2", None));
    state
}

#[test]
fn exporting_needs_an_open_session_and_every_vault_key() {
    let mut state = signing_wallet();
    assert_eq!(
        export_identity(&state, 10, &vec![Ok([1; 32]), Ok([2; 32])]).unwrap_err(),
        "Unlock the wallet before exporting signing keys"
    );
    state.start_wallet_session(100);
    assert_eq!(export_identity(&state, 10, &vec![Ok([1; 32])]).unwrap_err(), "Could not unlock a platform-vault key");
    assert_eq!(
        export_identity(&state, 10, &vec![Ok([1; 32]), Err(())]).unwrap_err(),
        "Could not unlock a platform-vault key"
    );
    let p = export_identity(&state, 10, &vec![Ok([1; 32]), Ok([2; 32])]).unwrap();
    assert_eq!(p.accounts.len(), 3);
    assert_eq!(p.accounts[1], known("aptos", "0x2", "Watch"));
    assert_eq!(p.key_sources.len(), 2);
    assert_eq!(p.key_sources[0], source("k1", KeySourceKind::PrivateKey, vec![1; 32]));
    assert_eq!(p.key_sources[1], source("k2", KeySourceKind::PrivateKey, vec![2; 32]));
}

#[test]
fn imported_signing_accounts_point_at_their_new_vault_entries() {
    let listed = vec![
        ChainAccount::watch_only(ChainId::new("sui"), "Main", "0x1"),
        ChainAccount::watch_only(ChainId::new("bitcoin"), "Cold", "bc1q"),
    ];
    let ids = vec!["v1".to_string(), "v2".to_string()];
    let installed = signing_accounts(&listed, &ids);
    assert_eq!(installed.len(), 2);
    assert_eq!(installed[0].keystore_ref.as_deref(), Some("v1"));
    assert_eq!(installed[1].keystore_ref.as_deref(), Some("v2"));
    assert_eq!(installed[1].address, "bc1q");
    assert_eq!(installed[1].name, "Cold");
    assert_eq!(installed[0].id, "sui:0x1");
}

#[test]
fn an_exported_identity_imports_back() {
    let mut state = AppState::default();
    state.add_account(ChainAccount::from_keystore(ChainId::new("sui"), "Main", "0x1", "k1", None));
    state.add_account(ChainAccount::from_keystore(ChainId::new("bitcoin"), "Cold", "bc1q", "k2", None));
    state.start_wallet_session(100);
    let p = export_identity(&state, 10, &vec![Ok([7; 32]), Ok([8; 32])]).unwrap();
    let fresh = AppState::default();
    let (listed, mnemonic) = match plan_portable_import(&fresh.wallet.accounts, &p, PortableImportMode::Replace, false).unwrap() {
        PortablePlan::Replace { accounts, mnemonic } => (accounts, mnemonic),
        PortablePlan::Profiles(_) => panic!("a replacing import plans a replacement"),
    };
    assert!(mnemonic.is_none());
    let idx = private_source_positions(&p.key_sources, listed.len()).unwrap();
    assert_eq!(idx, vec![0, 1]);
    assert_eq!(imported_private_key(&p.key_sources[idx[0]]).unwrap(), [7; 32]);
    assert_eq!(imported_private_key(&p.key_sources[idx[1]]).unwrap(), [8; 32]);
    let installed = signing_accounts(&listed, &vec!["n1".to_string(), "n2".to_string()]);
    for (back, original) in installed.iter().zip(state.wallet.accounts.iter()) {
        assert_eq!(back.chain, original.chain);
        assert_eq!(back.address, original.address);
        assert_eq!(back.name, original.name);
    }
}
