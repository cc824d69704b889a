#[test]
fn generation_reports_that_synthetic_proofs_are_not_available() {
    let message = hemion::zk_proofs::generate::ZK_UNAVAILABLE_MESSAGE;
    assert!(message.contains("unavailable"));
    assert!(message.contains("will not create synthetic"));
}

#[test]
fn verification_fails_closed_when_no_pairing_backend_exists() {
    let message = hemion::zk_proofs::verify::ZK_UNAVAILABLE_MESSAGE;
    assert!(message.contains("unavailable"));
    assert!(message.contains("accepts no ZK proofs"));
}
