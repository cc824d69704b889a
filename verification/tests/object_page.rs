use hemion::ids::looks_like_digest;
use hemion::navigation::{digest_note, inspector_route, unknown_kind_message, AccountabilityObjectKind, Route};

#[test]
fn digest_shaped_ids_are_recognized() {
    let digest = "a".repeat(64);
    assert!(looks_like_digest(&digest));
    assert!(!looks_like_digest("short"));
    assert!(!looks_like_digest(&"g".repeat(64)));
    assert!(!looks_like_digest(&"A".repeat(64)));
    assert!(looks_like_digest(&"0123456789abcdef".repeat(4)));
}

#[test]
fn every_kind_maps_to_a_real_inspector_route() {
    for kind in AccountabilityObjectKind::all() {
        let _route = inspector_route(kind);
    }
}

#[test]
fn kinds_round_trip_through_their_slugs() {
    for kind in AccountabilityObjectKind::all() {
        assert_eq!(AccountabilityObjectKind::from_slug(kind.slug()), Some(kind));
    }
    assert_eq!(AccountabilityObjectKind::from_slug("Mandate"), None);
    assert_eq!(inspector_route(AccountabilityObjectKind::Receipt), Route::ObjectInspector);
    assert_eq!(inspector_route(AccountabilityObjectKind::Anchor), Route::Anchoring);
}

#[test]
fn object_page_notes() {
    assert_eq!(digest_note(&"0".repeat(64)), "This identifier is a 32-byte content digest.");
    assert_eq!(
        digest_note("abc"),
        "This identifier is not a 32-byte content digest; treat it as an opaque reference."
    );
    assert_eq!(
        unknown_kind_message("widget"),
        "`widget` is not a known accountability object type. Known types: mandate, action, receipt, dispute, assurance, anchor."
    );
}
