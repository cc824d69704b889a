use hemion::lifecycle::{FinalityEvidence, InvoiceBody, MaterializeBody, ReceiptBody, TransferReceipt, VerificationRecord};
use hemion::transfer_form::resume_settled_message;
use hemion::chain::ChainId;
use hemion::ids::{format_id, parse_sanad_id};
use hemion::lifecycle::{NextAction, TransferEvent, TransferMode, TransferPhase};
use hemion::records::{ChainAccount, ContractRecord, SanadStatus, TrackedSanad};
use hemion::state::AppState;
use hemion::transfer_form::{
    actions_text, gas_minimum_label, min_destination_balance, prepare_transfer, resume_action_label,
    resume_event_message, submission_message, SubmissionKind, TransferChecks,
};

#[test]
fn accepts_an_exact_32_byte_sanad_id() {
    let value = format!("0x{}", "ab".repeat(32));
    assert!(parse_sanad_id(&value).is_ok());
}

#[test]
fn rejects_short_sanad_ids_instead_of_padding_them() {
    assert!(parse_sanad_id("ab").is_err());
}

#[test]
fn rejects_non_hex_sanad_ids() {
    assert!(parse_sanad_id("not-a-sanad-id").is_err());
}

#[test]
fn sanad_id_errors_say_why() {
    assert_eq!(parse_sanad_id("ab").unwrap_err(), "invalid Sanad ID: expected exactly 32 bytes");
    assert!(parse_sanad_id("zz").unwrap_err().starts_with("invalid Sanad ID hex: "));
    let id = parse_sanad_id(&"cd".repeat(32)).unwrap();
    assert_eq!(id.bytes, [0xcd; 32]);
    assert_eq!(format_id(&id.bytes), format!("0x{}", "cd".repeat(32)));
}

fn signing(chain: &str, name: &str, address: &str) -> ChainAccount {
    ChainAccount::from_keystore(ChainId::new(chain), name, address, "key-1", None)
}

fn ready_state() -> AppState {
    let mut state = AppState::default();
    state.add_account(signing("bitcoin", "Main", "bc1qsource"));
    state.add_account(signing("sui", "Gas", "0xdest"));
    state.add_sanad(TrackedSanad {
        id: "ab".repeat(32),
        chain: ChainId::new("bitcoin"),
        value: 42,
        status: SanadStatus::Active,
    });
    state.add_sanad(TrackedSanad {
        id: "cd".repeat(32),
        chain: ChainId::new("bitcoin"),
        value: 7,
        status: SanadStatus::Consumed,
    });
    state.add_contract(ContractRecord { chain: ChainId::new("sui"), address: "0xcontract".to_string() });
    state
}

#[test]
fn a_funded_form_passes_preflight() {
    let state = ready_state();
    let checks = TransferChecks::from_state(&state, ChainId::new("bitcoin"), ChainId::new("sui"), 0, 10_000_000);
    assert_eq!(checks.sanads.len(), 1);
    assert!(checks.preflight_ok());
    assert_eq!(checks.submit_refusal(true), None);
    assert_eq!(
        checks.submit_refusal(false).as_deref(),
        Some("A value-bearing transfer must be confirmed on the review screen.")
    );
    assert_eq!(checks.action_label(false), "Review Cross-ChainId Transfer");
    assert!(checks.notes().is_empty());
    let intent = checks.review_intent(0, "");
    assert_eq!(intent.signer, "bc1qsource");
    assert_eq!(intent.recipient, "bc1qsource");
    assert_eq!(intent.amount, "42");
    assert!(intent.preflight_ok);
    assert!(intent.corrective_action.is_none());
}

#[test]
fn an_unfunded_destination_blocks_the_transfer() {
    let state = ready_state();
    let checks = TransferChecks::from_state(&state, ChainId::new("bitcoin"), ChainId::new("sui"), 0, 9_999_999);
    assert!(!checks.preflight_ok());
    assert_eq!(
        checks.submit_refusal(true).as_deref(),
        Some("Destination account on sui needs at least 0.01 SUI for gas fees. Please fund your account first.")
    );
    assert_eq!(checks.action_label(false), "Fund Destination Account");
    assert_eq!(checks.notes(), vec!["Note: Destination account on sui needs gas funds (min: 0.01 SUI)".to_string()]);
    let intent = checks.review_intent(5, "bc1qother");
    assert_eq!(intent.recipient, "bc1qother");
    assert_eq!(intent.amount, "No sanad selected");
    assert_eq!(
        intent.corrective_action.as_deref(),
        Some("Add the required accounts/contracts and fund the destination gas account, then review again.")
    );
}

#[test]
fn an_empty_form_names_everything_missing() {
    let state = AppState::default();
    let checks = TransferChecks::from_state(&state, ChainId::new("ethereum"), ChainId::new("aptos"), 0, 0);
    assert_eq!(
        checks.submit_refusal(true).as_deref(),
        Some("No contract deployed on ethereum. Deploy contracts manually using Foundry/forge and set the address with `csv contracts set ethereum <address>`.")
    );
    assert_eq!(checks.action_label(true), "Executing...");
    assert_eq!(checks.action_label(false), "Add Source Account First");
    assert_eq!(checks.notes().len(), 4);
    assert_eq!(checks.review_intent(0, "").signer, "No source account selected");
}

#[test]
fn gas_minimums_per_chain() {
    assert_eq!(min_destination_balance(&ChainId::new("ethereum")), 1_000_000_000_000_000);
    assert_eq!(min_destination_balance(&ChainId::new("bitcoin")), 0);
    assert_eq!(gas_minimum_label(&ChainId::new("solana"), "funds"), "0.001 SOL");
    assert_eq!(gas_minimum_label(&ChainId::new("bitcoin"), "funds"), "funds");
}

#[test]
fn watch_only_accounts_never_sign() {
    let accounts = vec![ChainAccount::watch_only(ChainId::new("bitcoin"), "Cold", "bc1qcold")];
    let sanads = vec![TrackedSanad {
        id: "ab".repeat(32),
        chain: ChainId::new("bitcoin"),
        value: 1,
        status: SanadStatus::Active,
    }];
    let refused = prepare_transfer(&ChainId::new("bitcoin"), &ChainId::new("sui"), &accounts, 0, &sanads, 0, "");
    assert_eq!(
        refused.unwrap_err(),
        "Account 'Cold' is watch-only (no private key). \nPlease import the private key or use a browser wallet like MetaMask."
    );
    let missing = prepare_transfer(&ChainId::new("bitcoin"), &ChainId::new("sui"), &accounts, 3, &sanads, 0, "");
    assert_eq!(missing.unwrap_err(), "Selected account not found");
}

#[test]
fn a_confirmed_transfer_defaults_the_recipient_to_the_signer() {
    let accounts = vec![signing("bitcoin", "Main", "bc1qsource")];
    let sanads = vec![TrackedSanad {
        id: format!("0x{}", "ab".repeat(32)),
        chain: ChainId::new("bitcoin"),
        value: 1,
        status: SanadStatus::Active,
    }];
    let request = prepare_transfer(&ChainId::new("bitcoin"), &ChainId::new("sui"), &accounts, 0, &sanads, 0, "").unwrap();
    assert_eq!(request.destination_address, "bc1qsource");
    assert_eq!(request.sanad_id.bytes, [0xab; 32]);
    assert_eq!(request.destination_chain.as_str(), "sui");
    let no_sanad = prepare_transfer(&ChainId::new("bitcoin"), &ChainId::new("sui"), &accounts, 0, &vec![], 0, "x");
    assert_eq!(no_sanad.unwrap_err(), "invalid Sanad ID: expected exactly 32 bytes");
    let bad = vec![TrackedSanad { id: "zz".to_string(), chain: ChainId::new("bitcoin"), value: 1, status: SanadStatus::Active }];
    let refused = prepare_transfer(&ChainId::new("bitcoin"), &ChainId::new("sui"), &accounts, 0, &bad, 0, "");
    assert!(refused.unwrap_err().starts_with("invalid Sanad ID hex: "));
}

#[test]
fn runtime_answers_are_reported() {
    assert_eq!(
        submission_message(&Ok(SubmissionKind::Settled)),
        "Runtime returned a settled materialization receipt."
    );
    assert_eq!(submission_message(&Err("timeout".to_string())), "Transfer failed: timeout");
    assert_eq!(actions_text(&vec![NextAction::Status, NextAction::Resume]), "[Status, Resume]");
    assert_eq!(actions_text(&vec![]), "[]");
    let event = TransferEvent::new(
        TransferMode::Send,
        "t".to_string(),
        None,
        "s".to_string(),
        "sui".to_string(),
        TransferPhase::SubmittedToDestination,
        vec![NextAction::Retry],
        1,
    );
    assert_eq!(
        resume_event_message(&event),
        "Runtime journal reports SubmittedToDestination. Permitted next actions: [Retry]"
    );
    assert_eq!(resume_action_label(true), "Contacting Runtime...");
}

#[test]
fn a_globally_selected_contract_is_preselected() {
    let state = ready_state();
    let checks = TransferChecks::from_state(&state, ChainId::new("bitcoin"), ChainId::new("sui"), 0, 0);
    let selected = Some(ContractRecord { chain: ChainId::new("sui"), address: "0xcontract".to_string() });
    assert_eq!(checks.preselected_target(&selected), Some(0));
    assert_eq!(checks.preselected_target(&None), None);
}

#[test]
fn a_resumed_transfer_settles_only_with_a_materialize_receipt() {
    let settled = TransferReceipt {
        mode: TransferMode::Materialize,
        transfer_id: Some("t1".to_string()),
        emitted_at: 9,
        next_actions: vec![NextAction::Status],
        body: ReceiptBody::Materialize(MaterializeBody {
            transfer_id: "t1".to_string(),
            sanad_id: "s1".to_string(),
            verification: VerificationRecord::JournalRecorded,
            finality: FinalityEvidence::JournalRecovered,
            replay_id: "r1".to_string(),
            lock_tx_hash: "lock".to_string(),
            mint_tx_hash: "mint9".to_string(),
        }),
    };
    assert_eq!(
        resume_settled_message(&settled).unwrap(),
        "Transfer settled by runtime. Mint transaction: mint9. Permitted next actions: [Status]"
    );
    let invoice = TransferReceipt {
        mode: TransferMode::Invoice,
        transfer_id: None,
        emitted_at: 9,
        next_actions: vec![],
        body: ReceiptBody::Invoice(InvoiceBody { invoice_id: vec![1] }),
    };
    assert_eq!(resume_settled_message(&invoice).unwrap_err(), "runtime returned an unexpected receipt mode");
}
