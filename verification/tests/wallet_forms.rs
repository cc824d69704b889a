use hemion::chain::ChainId;
use hemion::records::{ChainAccount, NotificationKind};
use hemion::state::AppState;
use hemion::wallet_forms::{
    account_added_message, account_status_text, chain_name, chain_section_title, check_export_passwords,
    create_sanad_outcome, create_seal_label, create_seal_outcome, erase_enabled, export_enabled, header_offers_lock,
    new_account_name, notification_style, removal_warning, require_passphrase, session_indicator, sidebar_toggle,
    storage_toggle_label, verify_seal_outcome, CustodyAction, CustodyStatus, WalletTab,
};

#[test]
fn wallet_page_texts() {
    assert_eq!(account_status_text(0), "No accounts");
    assert_eq!(account_status_text(1), "1 local account");
    assert_eq!(account_status_text(12), "12 local accounts");
    assert_eq!(WalletTab::all().map(|t| t.label()), ["Accounts", "Add Account", "Export", "Import"]);
    assert_eq!(chain_name(&ChainId::new("aptos")), "Aptos");
    assert_eq!(chain_name(&ChainId::new("dogecoin")), "Unknown");
    assert_eq!(chain_section_title(&ChainId::new("sui"), 2), "Sui (2)");
    assert!(removal_warning(&ChainId::new("bitcoin")).starts_with("This removes the local Bitcoin account record"));
    assert_eq!(new_account_name("", &ChainId::new("sui")), "sui");
    assert_eq!(new_account_name("Savings", &ChainId::new("sui")), "Savings");
    assert_eq!(require_passphrase("").unwrap_err(), "Passphrase is required");
    assert_eq!(account_added_message(&ChainId::new("sui")), "Account added for sui!");
    assert_eq!(notification_style(NotificationKind::Warning).1, "⚠");
}

#[test]
fn export_passwords_need_twelve_bytes_typed_twice() {
    assert_eq!(
        check_export_passwords("short", "short").unwrap_err(),
        "Use an export-file password with at least 12 characters."
    );
    assert_eq!(
        check_export_passwords("long enough pass", "long enough pasS").unwrap_err(),
        "The export-file passwords do not match."
    );
    assert_eq!(check_export_passwords("long enough pass", "long enough pass"), Ok(()));
    assert_eq!(check_export_passwords("ééééééé", "ééééééé"), Ok(()));
}

#[test]
fn custody_follows_the_session() {
    let mut state = AppState::default();
    assert_eq!(CustodyStatus::of(&state, 0), CustodyStatus::NoWallet);
    assert_eq!(CustodyStatus::NoWallet.action(), None);
    state.add_account(ChainAccount::watch_only(ChainId::new("sui"), "W", "0x1"));
    assert_eq!(CustodyStatus::of(&state, 0), CustodyStatus::Locked);
    assert_eq!(CustodyStatus::Locked.action(), Some(CustodyAction::Unlock));
    assert!(!header_offers_lock(&state, 0));
    state.start_wallet_session(100);
    assert_eq!(CustodyStatus::of(&state, 50), CustodyStatus::Unlocked);
    assert_eq!(CustodyStatus::Unlocked.text(), "Unlocked signing session");
    assert!(header_offers_lock(&state, 50));
    assert_eq!(CustodyStatus::of(&state, 100), CustodyStatus::Locked);
    assert!(erase_enabled("ERASE"));
    assert!(!erase_enabled("ERASE "));
}

#[test]
fn only_an_open_session_names_a_signer() {
    let mut state = AppState::default();
    state.add_account(ChainAccount::from_keystore(ChainId::new("sui"), "S", "0xs", "k", None));
    assert_eq!(state.signer_address(&ChainId::new("sui"), 0), None);
    state.start_wallet_session(10);
    assert_eq!(state.signer_address(&ChainId::new("sui"), 0).as_deref(), Some("0xs"));
    assert_eq!(state.signer_address(&ChainId::new("aptos"), 0), None);
    assert_eq!(state.wallet.refresh_account_address("sui:0xs"), Ok(true));
    assert_eq!(state.wallet.refresh_account_address("other"), Ok(false));
}

#[test]
fn runtime_owned_records_are_never_fabricated_locally() {
    assert_eq!(create_seal_outcome(false), "No sanads available to seal");
    assert!(create_seal_outcome(true).starts_with("Seal creation requires a configured CSV runtime host."));
    assert_eq!(create_seal_label(true), "Create Seal");
    assert_eq!(create_seal_label(false), "No Sanads Available");
    assert!(create_sanad_outcome().contains("does not fabricate Sanad, seal, or commitment records locally"));
    assert!(verify_seal_outcome().contains("Cached wallet records are not authority"));
}

#[test]
fn indicators_and_toggles() {
    assert_eq!(session_indicator(true), ("w-2 h-2 rounded-full bg-amber-500", "Locked"));
    assert_eq!(session_indicator(false).1, "Unlocked");
    assert_eq!(sidebar_toggle(true), ("Collapse navigation", "◀"));
    assert_eq!(sidebar_toggle(false), ("Expand navigation", "▶"));
    assert_eq!(storage_toggle_label(true), "Hide storage details");
    assert_eq!(storage_toggle_label(false), "Key storage details");
    assert_eq!(CustodyStatus::Locked.indicator_class(), "bg-amber-500");
    assert_eq!(CustodyStatus::Unlocked.indicator_class(), "bg-green-500 status-online");
    assert!(export_enabled(1));
    assert!(!export_enabled(0));
}
