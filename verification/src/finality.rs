//! Dual-lane finality for traced accountability objects.
//!
//! The buffered lane records whether the observation plane holds a record for
//! an object; the anchored lane records the chain state of its anchor.  The
//! anchored lane may only be `Final` when an observed confirmation depth meets a
//! positive required depth: a pending or unknown read is never rendered final.

use vstd::prelude::*;
use crate::text::{decimal, owned, u64_to_string};

verus! {

/// The ticket whose completion wires a real chain finality source.
pub const ANCHOR_BACKING_TICKET: &'static str = "ANCHOR-01";

/// The buffered (observation-plane) lane state for one object.
#[derive(Debug, Clone, Copy, PartialEq, Eq, Structural)]
pub enum BufferedFinality {
    /// The observation plane holds a record for this object.
    Present,
    /// No buffered observation is loaded. Absence is not non-occurrence.
    Absent,
}

/// The anchored (chain) lane state for one object.
#[derive(Debug, Clone, PartialEq, Eq)]
pub enum AnchoredFinality {
    /// The object has no chain anchor; a limitation, never a failure.
    NotAnchored,
    /// An anchor exists but has not reached reorg-safe finality.
    Pending { observed_depth: u64, required_depth: u64 },
    /// The anchor has reached reorg-safe finality from chain reads.
    Final { confirmed_depth: u64 },
    /// The anchored lane cannot be read yet.
    Unavailable { reason: String, depends_on: &'static str },
}

/// Whether a chain read at `observed` confirmations meets the reorg-safe
/// requirement `required`.
pub open spec fn reaches_finality(observed: u64, required: u64) -> bool {
    required > 0 && observed >= required
}

/// The lane label of an anchored state.
pub open spec fn anchored_label(a: AnchoredFinality) -> Seq<char> {
    match a {
        AnchoredFinality::NotAnchored => "none"@,
        AnchoredFinality::Pending { .. } => "pending"@,
        AnchoredFinality::Final { .. } => "final"@,
        AnchoredFinality::Unavailable { .. } => "unavailable"@,
    }
}

impl AnchoredFinality {
    /// Classifies a chain read into `Pending` or `Final`.  `Final` requires a
    /// positive required depth and an observed depth that meets it.
    pub fn from_chain_read(observed_depth: u64, required_depth: u64) -> (r: Self)
        ensures
            reaches_finality(observed_depth, required_depth) ==> r == (AnchoredFinality::Final {
                confirmed_depth: observed_depth,
            }),
            !reaches_finality(observed_depth, required_depth) ==> r == (AnchoredFinality::Pending {
                observed_depth,
                required_depth,
            }),
    {
        if required_depth > 0 && observed_depth >= required_depth {
            AnchoredFinality::Final { confirmed_depth: observed_depth }
        } else {
            AnchoredFinality::Pending { observed_depth, required_depth }
        }
    }

    /// The explicit unavailable state used until a chain finality source is
    /// wired.
    pub fn unavailable() -> (r: Self)
        ensures
            r matches AnchoredFinality::Unavailable { reason, depends_on }
                && reason@ == "No on-chain finality source is wired yet."@
                && depends_on@ == "ANCHOR-01"@,
    {
        proof {
            reveal_strlit("ANCHOR-01");
        }
        AnchoredFinality::Unavailable {
            reason: owned("No on-chain finality source is wired yet."),
            depends_on: ANCHOR_BACKING_TICKET,
        }
    }

    /// Whether this lane is settled; only `Final` is.
    pub fn is_final(&self) -> (b: bool)
        ensures
            b == (*self is Final),
    {
        match self {
            AnchoredFinality::Final { .. } => true,
            _ => false,
        }
    }

    /// A short lane label for display.
    pub fn label(&self) -> (s: &'static str)
        ensures
            s@ == anchored_label(*self),
    {
        match self {
            AnchoredFinality::NotAnchored => "none",
            AnchoredFinality::Pending { .. } => "pending",
            AnchoredFinality::Final { .. } => "final",
            AnchoredFinality::Unavailable { .. } => "unavailable",
        }
    }
}

/// The two finality lanes for one traced object.
#[derive(Debug, Clone, PartialEq, Eq)]
pub struct FinalityLanes {
    /// The immediate buffered/observation-plane lane.
    pub buffered: BufferedFinality,
    /// The slow-but-final chain lane.
    pub anchored: AnchoredFinality,
}

impl FinalityLanes {
    /// Builds the lanes from whether a buffered observation is present and the
    /// anchored-lane state.
    pub fn new(observation_present: bool, anchored: AnchoredFinality) -> (r: Self)
        ensures
            r.buffered == (if observation_present { BufferedFinality::Present } else { BufferedFinality::Absent }),
            r.anchored == anchored,
    {
        FinalityLanes {
            buffered: if observation_present { BufferedFinality::Present } else { BufferedFinality::Absent },
            anchored,
        }
    }

    /// A buffered-only object: possibly present in the observation plane, with
    /// no chain anchor.
    pub fn buffered_only(observation_present: bool) -> (r: Self)
        ensures
            r.buffered == (if observation_present { BufferedFinality::Present } else { BufferedFinality::Absent }),
            r.anchored == AnchoredFinality::NotAnchored,
    {
        Self::new(observation_present, AnchoredFinality::NotAnchored)
    }
}

/// The detail sentence shown under the anchored lane.
pub open spec fn anchored_detail_text(a: AnchoredFinality) -> Seq<char> {
    match a {
        AnchoredFinality::NotAnchored =>
            "Not anchored — optional corroborating evidence, not a failure."@,
        AnchoredFinality::Pending { observed_depth, required_depth } =>
            "Pending — "@ + decimal(observed_depth as nat) + " of "@ + decimal(required_depth as nat)
                + " reorg-safe confirmations. Not final."@,
        AnchoredFinality::Final { confirmed_depth } =>
            "Final at "@ + decimal(confirmed_depth as nat) + " confirmations from chain reads."@,
        AnchoredFinality::Unavailable { reason, depends_on } =>
            "Unavailable — "@ + reason@ + " (unblocked by "@ + depends_on@ + ")"@,
    }
}

/// Renders the detail sentence of the anchored lane.
pub fn anchored_detail(anchored: &AnchoredFinality) -> (s: String)
    ensures
        s@ == anchored_detail_text(*anchored),
{
    match anchored {
        AnchoredFinality::NotAnchored => owned(
            "Not anchored — optional corroborating evidence, not a failure.",
        ),
        AnchoredFinality::Pending { observed_depth, required_depth } => {
            let mut s = owned("Pending — ");
            s.append(u64_to_string(*observed_depth).as_str());
            s.append(" of ");
            s.append(u64_to_string(*required_depth).as_str());
            s.append(" reorg-safe confirmations. Not final.");
            s
        },
        AnchoredFinality::Final { confirmed_depth } => {
            let mut s = owned("Final at ");
            s.append(u64_to_string(*confirmed_depth).as_str());
            s.append(" confirmations from chain reads.");
            s
        },
        AnchoredFinality::Unavailable { reason, depends_on } => {
            let mut s = owned("Unavailable — ");
            s.append(reason.as_str());
            s.append(" (unblocked by ");
            s.append(depends_on);
            s.append(")");
            s
        },
    }
}

/// The label of the buffered lane.
pub open spec fn buffered_label_text(b: BufferedFinality) -> Seq<char> {
    match b {
        BufferedFinality::Present => "present"@,
        BufferedFinality::Absent => "absent"@,
    }
}

/// The label of the buffered lane, as the lane view shows it.
pub fn buffered_label(b: BufferedFinality) -> (s: &'static str)
    ensures
        s@ == buffered_label_text(b),
{
    match b {
        BufferedFinality::Present => "present",
        BufferedFinality::Absent => "absent",
    }
}

/// The detail sentence of the buffered lane.
pub fn buffered_detail(b: BufferedFinality) -> (s: &'static str)
    ensures
        b == BufferedFinality::Present ==> s@ == "Recorded in the observation plane (immediate). Not a verdict."@,
        b == BufferedFinality::Absent ==> s@ == "No buffered observation. Absence is not non-occurrence."@,
{
    match b {
        BufferedFinality::Present => "Recorded in the observation plane (immediate). Not a verdict.",
        BufferedFinality::Absent => "No buffered observation. Absence is not non-occurrence.",
    }
}

/// Only the `Final` state carries the label "final": the label never shows a
/// pending, absent or unavailable anchor as settled.
pub proof fn lemma_final_label(a: AnchoredFinality)
    ensures
        (a is Final) <==> anchored_label(a) == "final"@,
{
    reveal_strlit("none");
    reveal_strlit("pending");
    reveal_strlit("final");
    reveal_strlit("unavailable");
    if !(a is Final) {
        assert(anchored_label(a)[0] != "final"@[0]);
    }
}

/// Finality is monotone in the observed depth: once a read at some depth is
/// final, every deeper read against the same requirement is final too.
pub proof fn lemma_finality_monotone(observed: u64, deeper: u64, required: u64)
    requires
        reaches_finality(observed, required),
        observed <= deeper,
    ensures
        reaches_finality(deeper, required),
{
}

} // verus!
