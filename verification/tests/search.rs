use hemion::navigation::{
    ambiguous_destinations, resolution_heading, target_route, toggle_filter, AccountabilityObjectKind, LineageNodeType,
    Route, SearchResolution, SearchTarget,
};

#[test]
fn single_object_targets_route_but_entity_does_not() {
    let object = SearchTarget::Object { kind: AccountabilityObjectKind::Receipt, id: "r1".to_string() };
    assert!(target_route(&object).is_some());

    let env = SearchTarget::EnvironmentReceipt { environment_id: "prod".to_string(), receipt_id: "r1".to_string() };
    assert!(target_route(&env).is_some());

    let entity = SearchTarget::Entity { entity: "svc:agent".to_string() };
    assert!(target_route(&entity).is_none());
}

#[test]
fn chain_transactions_open_anchor_pages() {
    let tx = SearchTarget::ChainTx { chain: "bitcoin".to_string(), tx: "ab12".to_string() };
    assert_eq!(
        target_route(&tx),
        Some(Route::ObjectPage { kind: "anchor".to_string(), id: "ab12".to_string() })
    );
    let object = SearchTarget::Object { kind: AccountabilityObjectKind::Mandate, id: "m1".to_string() };
    assert_eq!(
        target_route(&object),
        Some(Route::ObjectPage { kind: "mandate".to_string(), id: "m1".to_string() })
    );
}

#[test]
fn ambiguous_digests_offer_each_candidate() {
    let routes = ambiguous_destinations(
        &vec![AccountabilityObjectKind::Mandate, AccountabilityObjectKind::Receipt],
        "d1",
    );
    assert_eq!(routes[1], Route::ObjectPage { kind: "receipt".to_string(), id: "d1".to_string() });
    assert_eq!(
        resolution_heading(&SearchResolution::Ambiguous { candidates: vec![], query: "d1".to_string() }),
        "Ambiguous identifier"
    );
    assert_eq!(
        resolution_heading(&SearchResolution::Resolved(SearchTarget::Entity { entity: "e".to_string() })),
        "Accountable entity"
    );
    assert_eq!(resolution_heading(&SearchResolution::NoMatch { reason: "x".to_string() }), "No match");
}

#[test]
fn filters_toggle_on_and_off() {
    let mut filters = vec![LineageNodeType::Claim];
    toggle_filter(&mut filters, LineageNodeType::Gap);
    assert_eq!(filters, vec![LineageNodeType::Claim, LineageNodeType::Gap]);
    toggle_filter(&mut filters, LineageNodeType::Claim);
    assert_eq!(filters, vec![LineageNodeType::Gap]);
}
