use hemion::inspector::{lifecycle_unavailable_note, no_export_note};
use base64::Engine;
use hemion::chain::ChainId;
use hemion::inspector::{artifact_download_href, artifact_rows, evidence_fact, proof_evidence, InspectorTab};
use hemion::lifecycle::{EvidenceView, NextAction, TransferEvent, TransferLifecycleView, TransferMode, TransferPhase};
use hemion::records::{ProofRecord, ProofStatus};

fn recorded_proof(status: ProofStatus, seal_ref: Option<&str>) -> ProofRecord {
    ProofRecord {
        seal_ref: seal_ref.map(str::to_string),
        sanad_id: "s1".to_string(),
        chain: ChainId::new("bitcoin"),
        proof_type: "inclusion".to_string(),
        status,
        verification_tx_hash: Some("tx9".to_string()),
        proof_data: None,
    }
}

#[test]
fn inspector_keeps_proof_receipts_in_entity_evidence() {
    let section = proof_evidence(&vec![recorded_proof(ProofStatus::Pending, None)]);
    assert!(section.heading.contains("Attached proof receipts"));
    assert!(section.entries[0].warning.unwrap().contains("not cryptographic acceptance"));
}

#[test]
fn proof_entries_show_what_was_recorded() {
    let section = proof_evidence(&vec![recorded_proof(ProofStatus::Verified, Some("seal-1")), recorded_proof(ProofStatus::Failed, None)]);
    assert!(section.empty_note.is_none());
    assert_eq!(section.entries[0].reference, "seal-1");
    assert_eq!(section.entries[0].status, "Verified");
    assert!(section.entries[0].warning.is_none());
    assert_eq!(section.entries[1].reference, "unreferenced");
    assert_eq!(section.entries[1].anchor_transaction.as_deref(), Some("tx9"));
    let empty = proof_evidence(&vec![]);
    assert_eq!(empty.empty_note, Some("No proof receipt is attached to this item."));
}

#[test]
fn the_artifact_downloads_as_a_cbor_data_url() {
    let bytes = vec![0xa1u8, 0x01, 0x02, 0xff, 0x10];
    let href = artifact_download_href(&Some(hex::encode(&bytes))).unwrap();
    assert_eq!(
        href,
        format!("data:application/cbor;base64,{}", base64::engine::general_purpose::STANDARD.encode(&bytes))
    );
    assert_eq!(href, "data:application/cbor;base64,oQEC/xA=");
    assert_eq!(artifact_download_href(&Some("xyz".to_string())), None);
    assert_eq!(artifact_download_href(&None), None);
}

#[test]
fn missing_evidence_is_reported_as_missing() {
    let absent = evidence_fact("Source finality", &None);
    assert!(!absent.reported);
    assert_eq!(absent.summary, "Not reported by the runtime artifact.");
    assert_eq!(absent.provenance, "not reported");
    let present = evidence_fact(
        "Destination finality",
        &Some(EvidenceView { summary: "2/2".to_string(), provenance: "observed chain tip", is_final: true }),
    );
    assert_eq!(present.summary, "2/2");
    assert_eq!(present.provenance, "observed chain tip");
}

#[test]
fn artifact_rows_list_reported_identifiers_in_order() {
    let event = TransferEvent::new(
        TransferMode::Materialize,
        "t1".to_string(),
        None,
        "sanad-1".to_string(),
        "bitcoin".to_string(),
        TransferPhase::Locked { lock_tx_hash: "lock-1".to_string() },
        vec![NextAction::Status],
        5,
    );
    let view = TransferLifecycleView::from_event(&event, &None, false);
    let rows = artifact_rows(&view);
    let labels: Vec<&str> = rows.iter().map(|r| r.label).collect();
    assert_eq!(labels, vec!["Sanad ID", "Transfer ID", "Lock transaction"]);
    assert_eq!(rows[2].value, "lock-1");
    assert_eq!(InspectorTab::all()[2].id_and_label(), ("artifacts", "Artifacts"));
}

#[test]
fn the_lifecycle_panel_never_treats_a_mint_hash_as_finality() {
    let event = TransferEvent::new(
        TransferMode::Materialize,
        "t1".to_string(),
        None,
        "sanad-1".to_string(),
        "sui".to_string(),
        TransferPhase::Settled { mint_tx_hash: "mint-9".to_string() },
        vec![NextAction::Status, NextAction::Retry],
        77,
    );
    let view = TransferLifecycleView::from_event(&event, &None, false);
    let panel = hemion::inspector::lifecycle_panel(&view);
    assert_eq!(panel.observed, "Observed by runtime at unix time 77.");
    assert_eq!(
        panel.destination,
        vec!["Not reported by the runtime artifact; a mint hash is not finality evidence.".to_string()]
    );
    assert_eq!(panel.source, vec!["No source-finality evidence reported in this runtime artifact.".to_string()]);
    assert_eq!(panel.assurance_note, Some("No cryptographic assurance was reported in this artifact."));
    assert!(!panel.resume);
    assert!(panel.retry);
}

#[test]
fn explorer_data_is_never_substituted_for_runtime_evidence() {
    assert!(lifecycle_unavailable_note().contains("Explorer data is not substituted for verification evidence."));
    assert_eq!(no_export_note(), "No canonical artifact bytes are available for export.");
}
