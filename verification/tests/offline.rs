use hemion::offline::{
    accept_upload_text, check_upload, decoding_refused, finish_offline_verification, perform_offline_verification,
    unsupported_type_message, CanonicalVerdict, OfflineInspection, UploadRefusal,
};

#[test]
fn rejects_malformed_canonical_proof_input() {
    let OfflineInspection::Refused(result) = perform_offline_verification("not hex") else {
        panic!("malformed input must be refused");
    };

    assert!(!result.success);
    assert!(!result.steps[0].passed);
}

#[test]
fn rejects_oversized_canonical_proof_input_before_decoding() {
    let OfflineInspection::Refused(result) = perform_offline_verification(&"00".repeat(5 * 1024 * 1024 + 1)) else {
        panic!("oversized input must be refused");
    };

    assert!(!result.success);
    assert!(result.steps[0].details.contains("resource limit"));
}

#[test]
fn well_formed_hex_goes_to_the_canonical_decoder() {
    match perform_offline_verification("  0xdeadBEEF\n") {
        OfflineInspection::Decode(bytes) => assert_eq!(bytes, vec![0xde, 0xad, 0xbe, 0xef]),
        OfflineInspection::Refused(_) => panic!("hex input must be decoded"),
    }
}

#[test]
fn inspection_never_accepts_a_bundle() {
    let valid = finish_offline_verification(&CanonicalVerdict { is_valid: true, errors: vec![] });
    assert!(!valid.success);
    assert_eq!(valid.steps.len(), 3);
    assert!(valid.steps[1].passed);
    assert!(!valid.steps[2].passed);
    let rejected = finish_offline_verification(&CanonicalVerdict {
        is_valid: false,
        errors: vec!["bad signature".to_string(), "unknown seal".to_string()],
    });
    assert_eq!(
        rejected.steps[1].details,
        "Rejected by the canonical verifier: bad signature; unknown seal"
    );
    let silent = finish_offline_verification(&CanonicalVerdict { is_valid: false, errors: vec![] });
    assert_eq!(silent.steps[1].details, "Rejected by the canonical verifier: no verifier error was supplied");
    let undecodable = decoding_refused("truncated");
    assert_eq!(undecodable.steps[0].details, "Invalid canonical proof: truncated");
    assert_eq!(undecodable.summary, "Verification failed: Invalid proof bundle format");
}

#[test]
fn uploads_are_checked_before_reading() {
    assert_eq!(check_upload("bundle.PROOF", 10), Ok(()));
    assert_eq!(check_upload("bundle.hex", 10 * 1024 * 1024), Ok(()));
    assert_eq!(
        check_upload("bundle.hex", 10 * 1024 * 1024 + 1),
        Err(UploadRefusal::TooLarge { size: 10 * 1024 * 1024 + 1 })
    );
    assert_eq!(
        check_upload("archive.tar.GZ", 10),
        Err(UploadRefusal::UnsupportedType { extension: "gz".to_string() })
    );
    assert_eq!(
        unsupported_type_message("gz"),
        "Unsupported file type: .gz (supported: .proof, .hex, .txt)"
    );
    assert_eq!(accept_upload_text(Ok("00ff".to_string())), Ok("00ff".to_string()));
    assert_eq!(accept_upload_text(Ok(String::new())), Err("File content is empty".to_string()));
    assert_eq!(
        accept_upload_text(Ok(" \n\t".to_string())),
        Err("File does not contain a canonical proof bundle".to_string())
    );
    assert_eq!(
        accept_upload_text(Err("denied".to_string())),
        Err("Failed to read file content: denied".to_string())
    );
}

#[test]
fn the_inspect_button_and_step_headings() {
    assert_eq!(hemion::offline::verify_button("", false), (true, "🔍 Verify Offline"));
    assert_eq!(hemion::offline::verify_button("00", true), (true, "⏳ Verifying..."));
    assert_eq!(hemion::offline::verify_button("00", false), (false, "🔍 Verify Offline"));
    let result = decoding_refused("x");
    assert_eq!(hemion::offline::step_heading(0, &result.steps[0]), "1. Decode Canonical Proof Bundle");
}

#[test]
fn a_malformed_input_names_its_first_bad_character() {
    let OfflineInspection::Refused(result) = perform_offline_verification("  0xab12zz  ") else {
        panic!("malformed input must be refused");
    };
    assert_eq!(
        result.steps[0].details,
        "Invalid canonical proof: Invalid hex-encoded canonical proof: Invalid character 'z' at position 4"
    );
    let OfflineInspection::Refused(odd) = perform_offline_verification("abc") else {
        panic!("odd input must be refused");
    };
    assert_eq!(odd.steps[0].details, "Invalid canonical proof: Invalid hex-encoded canonical proof: Odd number of digits");
}
