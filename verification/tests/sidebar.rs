use hemion::navigation::{console_destinations, navigation_link_class, wallet_destinations, Route};

#[test]
fn navigation_exposes_only_working_console_screen_and_legacy_wallet() {
    assert_eq!(console_destinations()[0].label, "Console home");
    assert_eq!(console_destinations()[1].label, "Bundle verifier");
    assert_eq!(console_destinations()[2].label, "Assurance inspector");
    assert_eq!(console_destinations()[3].label, "Object inspector");
    assert_eq!(console_destinations()[4].label, "Dispute inspector");
    assert_eq!(console_destinations()[5].label, "Fixture lab");
    assert_eq!(console_destinations()[6].label, "Tuppira explorer");
    assert_eq!(wallet_destinations()[0].label, "Legacy wallet");
    assert_eq!(wallet_destinations().len(), 5);
}

#[test]
fn destinations_lead_to_their_screens() {
    assert_eq!(console_destinations()[1].route, Route::BundleVerify);
    assert_eq!(wallet_destinations()[4].route, Route::Settings);
    assert_eq!(navigation_link_class(true), "instrument-nav-tab");
    assert_eq!(navigation_link_class(false), "instrument-nav-link");
}
