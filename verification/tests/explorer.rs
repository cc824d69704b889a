use hemion::explorer::{
    chain_loading_status, chain_status, feed_page, feed_status, github_links, health_cursor, mandate_for, primary_ref,
    receipt_verification_status, retraction_badge, short_label, short_time, show_time, truncate_mid, DiscoveryView,
    LocalVerdict, ObservationProjection, SourceHealth,
};

fn observation(profile: &str, event_type: &str, refs: &[&str]) -> ObservationProjection {
    ObservationProjection {
        observation_id: "obs-1".to_string(),
        source_id: "src".to_string(),
        source_event_type: event_type.to_string(),
        normalized_profile_id: profile.to_string(),
        normalized_profile_version: 1,
        normalized_payload_digest: "d".to_string(),
        subject_refs: refs.iter().map(|s| s.to_string()).collect(),
        retraction_status: "active".to_string(),
        observed_at: 0,
    }
}

#[test]
fn long_identifiers_are_collapsed_in_the_middle() {
    assert_eq!(truncate_mid("abcdefghijklmnopqrstuvwxyz", 8, 6), "abcdefgh…uvwxyz");
    assert_eq!(truncate_mid("abcdefghijklmno", 8, 6), "abcdefghijklmno");
    assert_eq!(truncate_mid("abcdefghijklmnop", 8, 6), "abcdefgh…klmnop");
}

#[test]
fn labels_prefer_known_profiles() {
    assert_eq!(short_label(&observation("github.deployment-attestation.v1", "push", &[])), "Deployment attestation");
    assert_eq!(short_label(&observation("github.deployment.v1", "push", &[])), "Deployment observation");
    assert_eq!(short_label(&observation("custom.v1", "push", &[])), "push");
    assert_eq!(short_label(&observation("custom.v1", "", &[])), "custom.v1");
    assert_eq!(short_label(&observation("", "", &[])), "Observation");
}

#[test]
fn rows_show_the_receipt_first() {
    let item = observation("p", "e", &["mandate:m-0123456789abcdef", "receipt:r-0123456789abcdef"]);
    assert_eq!(primary_ref(&item), "receipt:r-012345…abcdef");
    let bare = observation("p", "e", &["0123456789abcdefghijkl"]);
    assert_eq!(primary_ref(&bare), "0123456789…ghijkl");
    assert_eq!(primary_ref(&observation("p", "e", &[])), "");
    assert_eq!(retraction_badge("retracted"), "retracted");
}

#[test]
fn subjects_open_their_mandate() {
    let item = observation("p", "e", &["receipt:r1", "mandate:m1"]);
    assert_eq!(mandate_for("mandate:m7", &item).as_deref(), Some("m7"));
    assert_eq!(mandate_for("receipt:r1", &item).as_deref(), Some("m1"));
    assert_eq!(mandate_for("entity:e1", &item), None);
    assert_eq!(mandate_for("receipt:r1", &observation("p", "e", &["receipt:r1"])), None);
}

#[test]
fn the_feed_is_paged_eight_at_a_time() {
    let page = feed_page(20, 5);
    assert_eq!((page.page_count, page.current, page.start, page.end), (3, 2, 16, 20));
    assert!(page.has_newer());
    assert!(!page.has_older());
    assert_eq!(page.caption(), "20 event(s) · page 3 of 3");
    let empty = feed_page(0, 0);
    assert_eq!((empty.page_count, empty.current, empty.start, empty.end), (1, 0, 0, 0));
    assert_eq!(feed_page(16, 0).page_count, 2);
}

#[test]
fn notices_say_what_happened() {
    assert_eq!(feed_status(Ok(3)), "Live · 3 observation(s) · recorded elsewhere, not locally verified.");
    assert_eq!(feed_status(Err("timeout".to_string())), "Feed unavailable · timeout");
    assert_eq!(chain_loading_status("m1"), "Loading chain for mandate m1…");
    assert_eq!(chain_status(Ok(())), "Chain assembled from Piteka discovery detail · not a verdict.");
    assert_eq!(
        receipt_verification_status(&Ok(LocalVerdict {
            disposition: "Valid".to_string(),
            context_name: "ctx".to_string(),
            context_id: vec![0xab, 0x01],
        })),
        "Local disposition: Valid · context ab01"
    );
    assert_eq!(github_links("o/r")[2], "https://github.com/o/r/actions");
}

#[test]
fn times_render_in_utc() {
    assert_eq!(short_time(0), "—");
    assert_eq!(short_time(-5), "—");
    assert_eq!(short_time(1_700_000_000), "2023-11-14 22:13:20 UTC");
    assert_eq!(show_time(5, None), "5");
    assert_eq!(health_cursor(Some(-42)), "-42");
    assert_eq!(health_cursor(Some(i64::MIN)), i64::MIN.to_string());
    assert_eq!(health_cursor(None), "unknown");
}

#[test]
fn discovery_clears_on_failure() {
    let mut view = DiscoveryView::new();
    assert!(DiscoveryView::auto_loads("http://x", "obs"));
    assert!(!DiscoveryView::auto_loads("", "obs"));
    view.begin(true);
    assert_eq!(view.status.as_deref(), Some("Auto-loading tenant-visible lineage and source health…"));
    view.finish(Ok((
        vec![observation("p", "e", &[])],
        vec![SourceHealth { display_name: "GH".to_string(), connector_kind: "github".to_string(), cursor_observed_at: None }],
    )));
    assert_eq!(view.lineage.len(), 1);
    view.select(observation("p", "e", &[]));
    view.finish(Err("down".to_string()));
    assert!(view.lineage.is_empty() && view.source_health.is_empty() && view.selected.is_none());
    assert_eq!(view.status.as_deref(), Some("Discovery unavailable · down"));
    view.finish_verification(&Err("no bundle".to_string()));
    assert_eq!(view.status.as_deref(), Some("No local verification result · no bundle"));
}
