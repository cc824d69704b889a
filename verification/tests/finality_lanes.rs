use hemion::finality::{anchored_detail, buffered_detail, buffered_label, AnchoredFinality, BufferedFinality, FinalityLanes};

#[test]
fn buffered_only_object_shows_present_and_none() {
    let lanes = FinalityLanes::buffered_only(true);
    assert_eq!(lanes.buffered, BufferedFinality::Present);
    assert_eq!(lanes.anchored, AnchoredFinality::NotAnchored);
    assert!(!lanes.anchored.is_final());
}

#[test]
fn absent_buffered_is_present_false() {
    let lanes = FinalityLanes::new(false, AnchoredFinality::unavailable());
    assert_eq!(lanes.buffered, BufferedFinality::Absent);
    assert_eq!(lanes.anchored.label(), "unavailable");
}

#[test]
fn chain_read_below_required_depth_stays_pending() {
    let anchored = AnchoredFinality::from_chain_read(3, 12);
    assert_eq!(
        anchored,
        AnchoredFinality::Pending {
            observed_depth: 3,
            required_depth: 12
        }
    );
    assert!(!anchored.is_final());
    assert_eq!(anchored.label(), "pending");
}

#[test]
fn chain_read_meeting_required_depth_is_final() {
    let anchored = AnchoredFinality::from_chain_read(12, 12);
    assert_eq!(anchored, AnchoredFinality::Final { confirmed_depth: 12 });
    assert!(anchored.is_final());
}

#[test]
fn zero_required_depth_never_finalizes() {
    let anchored = AnchoredFinality::from_chain_read(100, 0);
    assert!(!anchored.is_final());
    assert_eq!(anchored.label(), "pending");
}

#[test]
fn unavailable_names_anchor_backing_ticket() {
    let AnchoredFinality::Unavailable { depends_on, .. } = AnchoredFinality::unavailable() else {
        panic!("expected unavailable");
    };
    assert_eq!(depends_on, "ANCHOR-01");
}

#[test]
fn deeper_reads_stay_final_and_details_read_as_sentences() {
    assert!(AnchoredFinality::from_chain_read(13, 12).is_final());
    assert_eq!(
        anchored_detail(&AnchoredFinality::from_chain_read(3, 12)),
        "Pending — 3 of 12 reorg-safe confirmations. Not final."
    );
    assert_eq!(
        anchored_detail(&AnchoredFinality::Final { confirmed_depth: 12 }),
        "Final at 12 confirmations from chain reads."
    );
    assert_eq!(
        anchored_detail(&AnchoredFinality::NotAnchored),
        "Not anchored — optional corroborating evidence, not a failure."
    );
    assert_eq!(buffered_label(BufferedFinality::Present), "present");
    assert_eq!(buffered_label(BufferedFinality::Absent), "absent");
    assert_eq!(
        buffered_detail(BufferedFinality::Absent),
        "No buffered observation. Absence is not non-occurrence."
    );
}
