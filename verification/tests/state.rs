use hemion::chain::ChainId;
use hemion::records::{
    ChainAccount, ContractRecord, NftRecord, NotificationKind, ProofRecord, ProofStatus, SanadStatus, SealRecord, SealStatus,
    TrackedSanad, TrackedTransfer, TransactionRecord,
};
use hemion::state::{check_erase_confirmation, AppState};

#[test]
fn ending_a_session_preserves_wallet_and_asset_metadata() {
    let mut state = AppState::default();
    state.wallet.add_account(ChainAccount::watch_only(ChainId::new("bitcoin"), "Savings", "bc1qexample"));
    state.start_wallet_session(100);

    state.end_wallet_session();

    assert!(state.locked);
    assert_eq!(state.wallet.total_accounts(), 1);
    assert_eq!(state.wallet.accounts[0].name, "Savings");
}

#[test]
fn a_fresh_state_is_an_empty_locked_bitcoin_test_wallet() {
    let state = AppState::default();
    assert!(state.locked);
    assert!(!state.is_initialized());
    assert_eq!(state.selected_chain.as_str(), "bitcoin");
    assert!(state.is_locked(0));
}

#[test]
fn a_session_is_open_until_its_expiry() {
    let mut state = AppState::default();
    state.start_wallet_session(100);
    assert!(!state.is_locked(99));
    assert!(state.is_locked(100));
    assert!(state.is_locked(101));
}

fn sanad(id: &str, value: u64) -> TrackedSanad {
    TrackedSanad { id: id.to_string(), chain: ChainId::new("bitcoin"), value, status: SanadStatus::Active }
}

#[test]
fn tracking_a_sanad_twice_replaces_it() {
    let mut state = AppState::default();
    state.add_sanad(sanad("s1", 5));
    state.add_sanad(sanad("s2", 6));
    state.add_sanad(sanad("s1", 7));
    assert_eq!(state.sanads.len(), 2);
    assert_eq!(state.get_sanad("s1").unwrap().value, 7);
    assert!(state.get_sanad("missing").is_none());
    assert!(state.remove_sanad("s1"));
    assert!(!state.remove_sanad("s1"));
    assert_eq!(state.sanads.len(), 1);
}

#[test]
fn contracts_are_kept_per_address_and_chain() {
    let mut state = AppState::default();
    state.add_contract(ContractRecord { chain: ChainId::new("sui"), address: "0xabc".to_string() });
    state.add_contract(ContractRecord { chain: ChainId::new("ethereum"), address: "0xdef".to_string() });
    assert_eq!(state.contracts_for_chain(&ChainId::new("sui")).len(), 1);
    assert_eq!(state.contracts_for_chain(&ChainId::new("aptos")).len(), 0);
}

#[test]
fn removing_an_account_by_chain_and_address() {
    let mut state = AppState::default();
    state.add_account(ChainAccount::watch_only(ChainId::new("sui"), "A", "0x1"));
    state.add_account(ChainAccount::watch_only(ChainId::new("sui"), "B", "0x2"));
    assert!(!state.remove_account(&ChainId::new("aptos"), "0x1"));
    assert!(state.remove_account(&ChainId::new("sui"), "0x1"));
    assert_eq!(state.wallet.accounts.len(), 1);
    assert_eq!(state.wallet.accounts[0].name, "B");
    assert_eq!(state.wallet.address_for_chain(&ChainId::new("sui")).as_deref(), Some("0x2"));
}

#[test]
fn erasing_requires_the_exact_word() {
    assert!(check_erase_confirmation("ERASE").is_ok());
    assert_eq!(
        check_erase_confirmation("erase").unwrap_err(),
        "Type ERASE to permanently delete local wallet data"
    );
}

fn proof_record(seal_ref: Option<&str>, sanad_id: &str, proof_type: &str) -> ProofRecord {
    ProofRecord {
        seal_ref: seal_ref.map(|s| s.to_string()),
        sanad_id: sanad_id.to_string(),
        chain: ChainId::new("sui"),
        proof_type: proof_type.to_string(),
        status: ProofStatus::Pending,
        verification_tx_hash: None,
        proof_data: None,
    }
}

fn seal(seal_ref: &str, sanad_id: Option<&str>) -> SealRecord {
    SealRecord {
        seal_ref: seal_ref.to_string(),
        chain: ChainId::new("sui"),
        value: 1,
        consumed: false,
        sanad_id: sanad_id.map(|s| s.to_string()),
        status: SealStatus::Active,
        created_at: 7,
        content: None,
        proof_ref: None,
    }
}

#[test]
fn proofs_are_found_per_sanad_and_per_seal_and_removed_by_type() {
    let mut state = AppState::default();
    state.add_proof(proof_record(Some("seal-a"), "s1", "inclusion"));
    state.add_proof(proof_record(None, "s1", "finality"));
    state.add_proof(proof_record(Some("seal-b"), "s2", "inclusion"));
    assert_eq!(state.proofs_for_sanad("s1").len(), 2);
    assert_eq!(state.proofs_for_sanad("s3").len(), 0);
    assert_eq!(state.get_proof("seal-b").unwrap().sanad_id, "s2");
    assert!(state.get_proof("seal-c").is_none());
    assert!(state.remove_proof("s1", "inclusion"));
    assert!(!state.remove_proof("s1", "inclusion"));
    assert_eq!(state.proofs.len(), 2);
    assert_eq!(state.proofs[0].proof_type, "finality");
    assert!(state.get_proof("seal-a").is_none());
}

#[test]
fn linking_a_proof_touches_only_the_named_seal() {
    let mut state = AppState::default();
    state.seals.push(seal("seal-a", Some("s1")));
    state.seals.push(seal("seal-b", None));
    assert!(!state.link_proof_to_seal("seal-z", "p1"));
    assert!(state.link_proof_to_seal("seal-a", "p1"));
    assert_eq!(state.seals[0].proof_ref.as_deref(), Some("p1"));
    assert_eq!(state.seals[0].created_at, 7);
    assert!(state.seals[1].proof_ref.is_none());
    assert_eq!(state.seal_for_sanad("s1").unwrap().seal_ref, "seal-a");
    assert!(state.seal_for_sanad("s2").is_none());
}

#[test]
fn transfers_and_transactions_are_found_by_identifier() {
    let mut state = AppState::default();
    state.transfers.push(TrackedTransfer { id: "t1".to_string() });
    state.add_transaction(TransactionRecord { id: "tx1".to_string() });
    state.add_transaction(TransactionRecord { id: "tx2".to_string() });
    assert_eq!(state.get_transfer("t1").unwrap().id, "t1");
    assert!(state.get_transfer("t2").is_none());
    assert_eq!(state.transaction_by_id("tx2").unwrap().id, "tx2");
    assert!(state.transaction_by_id("tx3").is_none());
}

#[test]
fn a_notification_is_shown_until_dismissed() {
    let mut state = AppState::default();
    state.set_notification(NotificationKind::Warning, "Low balance".to_string());
    let shown = state.notification.clone().unwrap();
    assert_eq!(shown.kind, NotificationKind::Warning);
    assert_eq!(shown.message, "Low balance");
    state.clear_notification();
    assert!(state.notification.is_none());
}

#[test]
fn all_accounts_lists_every_account_in_order() {
    let mut state = AppState::default();
    state.add_account(ChainAccount::watch_only(ChainId::new("sui"), "A", "0x1"));
    state.add_account(ChainAccount::watch_only(ChainId::new("aptos"), "B", "0x2"));
    let all = state.wallet.all_accounts();
    assert_eq!(all.len(), 2);
    assert_eq!(all[0].name, "A");
    assert_eq!(all[1].address, "0x2");
}

#[test]
fn erasing_resets_the_wallet_only_after_the_exact_word() {
    let mut state = AppState::default();
    state.add_account(ChainAccount::watch_only(ChainId::new("sui"), "A", "0x1"));
    state.add_sanad(sanad("s1", 5));
    state.nfts.push(NftRecord { id: "n1".to_string() });
    state.start_wallet_session(100);
    assert_eq!(state.erase("erase").unwrap_err(), "Type ERASE to permanently delete local wallet data");
    assert_eq!(state.wallet.accounts.len(), 1);
    assert!(!state.locked);
    assert_eq!(state.erase("ERASE"), Ok(()));
    assert!(state.locked);
    assert_eq!(state.wallet.accounts.len(), 0);
    assert!(state.sanads.is_empty());
    assert!(state.nfts.is_empty());
    assert!(state.nft_collections.is_empty());
    assert!(state.session_expires_at.is_none());
}
