use hemion::accountability::{
    assurance_failure, entity_profile_status, graph_inspection_failure, object_inspection_failure, view_toggle_label,
};
use hemion::accountability::{
    assessment_failure, availability_message, bundle_verification_status, default_network_id, disclosed_or_not,
    environment_receipt_status, filtered_nodes, finality_summary, find_network, fixture_run_status,
    mandate_load_status, matches_filter, network_option_label, read_rpc_text, replay_status, status_class,
    AnchorAvailability, AnchoringNetwork, AssessmentFailure, EvidenceGraphNode, FinalityProfile, FixtureComparison,
    NodeFilter,
};
use hemion::explorer::LocalVerdict;

fn node(kind: &str, gap: bool, withheld: bool) -> EvidenceGraphNode {
    EvidenceGraphNode {
        id: kind.to_string(),
        short_id: kind.to_string(),
        kind_label: kind.to_string(),
        kind_id: kind.to_string(),
        producer: "p".to_string(),
        source: "s".to_string(),
        classification: "c".to_string(),
        collected_at: 1,
        is_gap: gap,
        is_withheld: withheld,
    }
}

#[test]
fn graph_filters_select_node_types() {
    let nodes = vec![node("Claim", false, false), node("Observation", true, false), node("Attestation", false, true)];
    assert_eq!(filtered_nodes(&nodes, NodeFilter::All).len(), 3);
    assert_eq!(filtered_nodes(&nodes, NodeFilter::Claims)[0].kind_label, "Claim");
    assert_eq!(filtered_nodes(&nodes, NodeFilter::Gaps)[0].kind_label, "Observation");
    assert!(matches_filter(&nodes[2], NodeFilter::Withheld));
    assert!(!matches_filter(&nodes[0], NodeFilter::Observations));
    assert_eq!(status_class(&nodes[1]), "evidence-node evidence-node-gap");
    assert_eq!(status_class(&nodes[2]), "evidence-node evidence-node-withheld");
    assert_eq!(NodeFilter::choices()[4].label(), "Gaps");
}

#[test]
fn finality_profiles_are_summarized() {
    let full = FinalityProfile {
        deterministic_finality: Some(false),
        max_reorg_depth: Some(6),
        proof_system: Some("pow".to_string()),
    };
    assert_eq!(finality_summary(&full), "probabilistic finality · max reorg depth 6 · proof system pow");
    let depth_only = FinalityProfile { deterministic_finality: None, max_reorg_depth: Some(0), proof_system: None };
    assert_eq!(finality_summary(&depth_only), "max reorg depth 0");
    let empty = FinalityProfile { deterministic_finality: None, max_reorg_depth: None, proof_system: None };
    assert_eq!(finality_summary(&empty), "Finality profile not stated in the chain spec.");
}

#[test]
fn anchoring_networks_and_availability() {
    let net = AnchoringNetwork {
        id: "btc-test".to_string(),
        name: "Bitcoin".to_string(),
        network: "testnet".to_string(),
        rpc_urls: vec![],
        finality: FinalityProfile { deterministic_finality: Some(true), max_reorg_depth: None, proof_system: None },
    };
    let nets = vec![net.clone()];
    assert_eq!(default_network_id(&nets), "btc-test");
    assert_eq!(default_network_id(&vec![]), "");
    assert_eq!(find_network(&nets, "btc-test"), Some(0));
    assert_eq!(find_network(&nets, "eth"), None);
    assert_eq!(network_option_label(&net), "Bitcoin (testnet)");
    assert_eq!(read_rpc_text(&net), "No read endpoint in spec");
    assert_eq!(
        availability_message(&AnchorAvailability::Unavailable {
            reason: "no chain writer".to_string(),
            depends_on: "ANCHOR-01".to_string(),
        }),
        "Unavailable · no chain writer (unblocked by ANCHOR-01)"
    );
}

#[test]
fn instrument_notices() {
    let verdict = LocalVerdict { disposition: "Valid".to_string(), context_name: "prod".to_string(), context_id: vec![1] };
    assert_eq!(bundle_verification_status(&Ok(verdict.clone())), "Valid · context prod · 01");
    assert_eq!(
        bundle_verification_status(&Err("Malformed".to_string())),
        "Verification did not run · Malformed. Check the bundle and context formats."
    );
    assert_eq!(environment_receipt_status(&Ok(verdict)), "Locally verified · Valid · context 01");
    assert_eq!(
        assessment_failure(&AssessmentFailure::Context("Unsupported".to_string())),
        "Context rejected · Unsupported. Supply a supported, hash-bound verification context."
    );
    let first = FixtureComparison { expected: "Valid".to_string(), actual: "Valid".to_string(), matches: true };
    let second = FixtureComparison { expected: "Replayed".to_string(), actual: "Invalid".to_string(), matches: false };
    assert_eq!(fixture_run_status(&Ok(first.clone())), "Expected: Valid · Actual: Valid · Matches corpus");
    assert_eq!(
        replay_status(&Ok((first.clone(), second))),
        "Replay demonstration did not match · first actual: Valid · second actual: Invalid"
    );
    assert_eq!(
        replay_status(&Ok((first.clone(), first))),
        "First acceptance: Valid · Second rejection: Valid · no provider dispatch was performed"
    );
    assert_eq!(mandate_load_status("m1", &None), "Loading mandate m1…");
    assert_eq!(mandate_load_status("m1", &Some(Err("403".to_string()))), "Load failed · 403");
    assert_eq!(disclosed_or_not(&None), "not disclosed");
}

#[test]
fn inspection_notices_name_the_error() {
    assert_eq!(assurance_failure("bad input"), "Assurance computation did not run · bad input. Check both local inputs.");
    assert_eq!(
        graph_inspection_failure("cycle"),
        "Inspection did not run · cycle. Unsupported, malformed, or inconsistent graphs are rejected."
    );
    assert_eq!(
        object_inspection_failure("truncated"),
        "Inspection did not run · truncated. Unsupported, malformed, or inconsistent objects are rejected."
    );
    assert_eq!(entity_profile_status(&Ok(())), "Tenant-authorized projection loaded.");
    assert_eq!(entity_profile_status(&Err("denied".to_string())), "Profile unavailable · denied");
    assert_eq!(view_toggle_label(true), "Show graph view");
    assert_eq!(view_toggle_label(false), "Show accessible table view");
}
