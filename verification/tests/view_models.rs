use hemion::lifecycle::{
    FinalityEvidence, NextAction, TransferEvent, TransferLifecycleView, TransferMode, TransferPhase, TransferViewModel,
};
use sha2::Digest;

fn event(phase: TransferPhase, observed_at: u64) -> TransferEvent {
    TransferEvent::new(
        TransferMode::Materialize,
        "transfer-1".to_string(),
        None,
        hex::encode([1u8; 32]),
        "bitcoin".to_string(),
        phase,
        vec![NextAction::Status],
        observed_at,
    )
}

#[test]
fn ignores_out_of_order_duplicate_and_stale_events() {
    let mut view = TransferLifecycleView::from_event(&event(TransferPhase::ProofBuilt { proof_hash: vec![3; 32] }, 30), &None, false);
    view.apply_event(&event(TransferPhase::Locked { lock_tx_hash: "old".to_string() }, 31), &None, false);
    view.apply_event(&event(TransferPhase::ProofBuilt { proof_hash: vec![3; 32] }, 30), &None, false);
    view.apply_event(
        &event(
            TransferPhase::FinalityReached {
                evidence: FinalityEvidence::ObservedTip {
                    confirming_block_height: 10,
                    observed_tip_height: 12,
                    confirmations: 2,
                    required_confirmations: 2,
                },
            },
            29,
        ),
        &None,
        true,
    );
    assert_eq!(view.stage.name, "Proof built");
    assert_eq!(view.observed_at, 30);
}

#[test]
fn exposes_only_runtime_permitted_recovery_actions() {
    let view = TransferLifecycleView::from_event(
        &event(TransferPhase::RecoveryRequired { reason: "journal interrupted".to_string() }, 1),
        &None,
        false,
    );
    assert!(!view.allows_resume());
    assert!(!view.allows_retry());
}

#[test]
fn inspector_export_preserves_the_exact_versioned_wire_artifact() {
    let source = event(TransferPhase::Admitted, 7);
    let expected: Vec<u8> = vec![0xa1, 0x65, b'p', b'h', b'a', b's', b'e', 0x08];
    let view = TransferLifecycleView::from_event(&source, &Some(expected.clone()), false);

    assert_eq!(hex::decode(view.artifact_cbor_hex.expect("artifact bytes")).unwrap(), expected);
    assert_eq!(view.artifact_sha256.expect("artifact digest"), hex::encode(sha2::Sha256::digest(&expected)));
}

#[test]
fn a_newer_event_moves_the_projection_forward() {
    let mut view = TransferLifecycleView::from_event(&event(TransferPhase::Locked { lock_tx_hash: "tx-1".to_string() }, 10), &None, false);
    assert_eq!(view.lock_tx_hash.as_deref(), Some("tx-1"));
    view.apply_event(&event(TransferPhase::Settled { mint_tx_hash: "mint-1".to_string() }, 11), &None, false);
    assert_eq!(view.observed_at, 11);
    assert_eq!(view.mint_tx_hash.as_deref(), Some("mint-1"));
    assert_eq!(view.journal_phase, "Settled");
}

#[test]
fn event_view_model_reports_journal_phase_and_actions() {
    let model = TransferViewModel::from_event(&event(TransferPhase::Admitted, 3));
    assert_eq!(model.phase, "Admitted");
    assert_eq!(model.permitted_actions, vec![NextAction::Status]);
}
