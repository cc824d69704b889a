use hemion::transfer_form::{inbound_review_intent, TransferReviewIntent};

#[test]
fn preflight_failure_is_a_non_confirmable_review_state() {
    let intent = TransferReviewIntent {
        origin: Some("browser link".into()),
        signer: "a".into(),
        source_chain: "bitcoin".into(),
        destination_chain: "sui".into(),
        recipient: "b".into(),
        asset: "Sanad".into(),
        amount: "1".into(),
        fee: "0".into(),
        fee_provenance: "estimated",
        preflight_ok: false,
        corrective_action: Some("Fund destination account".into()),
        unknown_recipient: true,
        unknown_contract: false,
    };
    assert!(!intent.preflight_ok);
    assert!(intent.corrective_action.is_some());
    assert!(!intent.can_confirm(true));
}

#[test]
fn an_inbound_intent_still_needs_the_final_confirmation() {
    let intent = inbound_review_intent(
        "qr code".to_string(),
        "bitcoin".to_string(),
        "testnet".to_string(),
        "bc1q".to_string(),
        "BTC".to_string(),
        "0.1".to_string(),
    );
    assert_eq!(intent.origin.as_deref(), Some("qr code"));
    assert_eq!(intent.signer, "Local wallet signer");
    assert!(intent.unknown_recipient && intent.unknown_contract);
    assert!(!intent.can_confirm(false));
    assert!(intent.can_confirm(true));
}
