//! The local accountability instruments: labels for the assurance
//! dimensions, the evidence-graph filters, the anchoring network summary and
//! the notices each instrument shows after the local verifier ran.
//!
//! Every notice here reports a local computation or its absence; none turns
//! a recorded result into a verdict.

use vstd::prelude::*;
use crate::codec::{hex_encode, hex_lower};
use crate::explorer::LocalVerdict;
use crate::text::{concat2, concat3, decimal, owned, str_eq, u64_to_string};

verus! {

/// The eleven assurance dimensions a local verification evaluates.
#[derive(Clone, Copy, Debug, PartialEq, Eq, Structural)]
pub enum AssuranceDimension {
    /// Format and integrity; its protocol name is "Structural".
    StructuralIntegrity,
    Cryptographic,
    Identity,
    Authority,
    Temporal,
    SingleUse,
    Execution,
    ExternalCorroboration,
    Completeness,
    Custody,
    Preservation,
}

/// The verifier's finding on one dimension.
#[derive(Clone, Copy, Debug, PartialEq, Eq, Structural)]
pub enum DimensionStatus {
    Satisfied,
    NotSatisfied,
    Indeterminate,
    NotApplicable,
}

/// The plain-language and protocol names of a dimension.
pub open spec fn dimension_names(d: AssuranceDimension) -> (Seq<char>, Seq<char>) {
    match d {
        AssuranceDimension::StructuralIntegrity => ("Format & integrity"@, "Structural"@),
        AssuranceDimension::Cryptographic => ("Signatures & hashes"@, "Cryptographic"@),
        AssuranceDimension::Identity => ("Who signed"@, "Identity"@),
        AssuranceDimension::Authority => ("Approval match"@, "Authority"@),
        AssuranceDimension::Temporal => ("Timing & validity"@, "Temporal"@),
        AssuranceDimension::SingleUse => ("Used only once"@, "Single-use"@),
        AssuranceDimension::Execution => ("Did it happen"@, "Execution"@),
        AssuranceDimension::ExternalCorroboration => ("External source support"@, "External corroboration"@),
        AssuranceDimension::Completeness => ("Required evidence present"@, "Completeness"@),
        AssuranceDimension::Custody => ("Handling history"@, "Custody"@),
        AssuranceDimension::Preservation => ("Still verifiable"@, "Preservation"@),
    }
}

/// The plain-language and protocol names of a dimension.
pub fn dimension_labels(dimension: AssuranceDimension) -> (r: (&'static str, &'static str))
    ensures
        (r.0@, r.1@) == dimension_names(dimension),
{
    match dimension {
        AssuranceDimension::StructuralIntegrity => ("Format & integrity", "Structural"),
        AssuranceDimension::Cryptographic => ("Signatures & hashes", "Cryptographic"),
        AssuranceDimension::Identity => ("Who signed", "Identity"),
        AssuranceDimension::Authority => ("Approval match", "Authority"),
        AssuranceDimension::Temporal => ("Timing & validity", "Temporal"),
        AssuranceDimension::SingleUse => ("Used only once", "Single-use"),
        AssuranceDimension::Execution => ("Did it happen", "Execution"),
        AssuranceDimension::ExternalCorroboration => ("External source support", "External corroboration"),
        AssuranceDimension::Completeness => ("Required evidence present", "Completeness"),
        AssuranceDimension::Custody => ("Handling history", "Custody"),
        AssuranceDimension::Preservation => ("Still verifiable", "Preservation"),
    }
}

/// The identifier of a dimension, as its debug rendering spells it: the
/// protocol name, written without separators.
pub open spec fn dimension_identifier(d: AssuranceDimension) -> Seq<char> {
    match d {
        AssuranceDimension::SingleUse => "SingleUse"@,
        AssuranceDimension::ExternalCorroboration => "ExternalCorroboration"@,
        _ => dimension_names(d).1,
    }
}

/// The identifier of a dimension, as the dispute inspector lists it.
pub fn dimension_name(dimension: AssuranceDimension) -> (s: &'static str)
    ensures
        s@ == dimension_identifier(dimension),
{
    match dimension {
        AssuranceDimension::SingleUse => "SingleUse",
        AssuranceDimension::ExternalCorroboration => "ExternalCorroboration",
        _ => dimension_labels(dimension).1,
    }
}

/// The icon and wording of a finding; uncertainty stays visible as its own
/// wording.
pub open spec fn status_names(s: DimensionStatus) -> (Seq<char>, Seq<char>) {
    match s {
        DimensionStatus::Satisfied => ("✓"@, "Requirement met"@),
        DimensionStatus::NotSatisfied => ("×"@, "Not met"@),
        DimensionStatus::Indeterminate => ("?"@, "Cannot be determined"@),
        DimensionStatus::NotApplicable => ("—"@, "Not applicable"@),
    }
}

/// The icon and wording of a finding.
pub fn status_label(status: DimensionStatus) -> (r: (&'static str, &'static str))
    ensures
        (r.0@, r.1@) == status_names(status),
{
    match status {
        DimensionStatus::Satisfied => ("✓", "Requirement met"),
        DimensionStatus::NotSatisfied => ("×", "Not met"),
        DimensionStatus::Indeterminate => ("?", "Cannot be determined"),
        DimensionStatus::NotApplicable => ("—", "Not applicable"),
    }
}

/// The sentence explaining a finding.
pub open spec fn status_reason(s: DimensionStatus) -> Seq<char> {
    match s {
        DimensionStatus::Satisfied => "The verifier found the evaluated requirement met under this context."@,
        DimensionStatus::NotSatisfied => "The verifier found that an evaluated requirement was not met."@,
        DimensionStatus::Indeterminate => "The available evidence or context cannot decide this requirement."@,
        DimensionStatus::NotApplicable => "The selected accountability profile does not evaluate this requirement."@,
    }
}

/// The sentence explaining a finding.
pub fn reason_sentence(status: DimensionStatus) -> (s: &'static str)
    ensures
        s@ == status_reason(status),
{
    match status {
        DimensionStatus::Satisfied => "The verifier found the evaluated requirement met under this context.",
        DimensionStatus::NotSatisfied => "The verifier found that an evaluated requirement was not met.",
        DimensionStatus::Indeterminate => "The available evidence or context cannot decide this requirement.",
        DimensionStatus::NotApplicable => "The selected accountability profile does not evaluate this requirement.",
    }
}

/// The style of a finding in the dispute inspector's verdict list.
pub open spec fn status_style(s: DimensionStatus) -> Seq<char> {
    match s {
        DimensionStatus::NotSatisfied => "assurance-dimension assurance-dimension-failed"@,
        DimensionStatus::Indeterminate => "assurance-dimension assurance-dimension-indeterminate"@,
        DimensionStatus::Satisfied => "assurance-dimension assurance-dimension-satisfied"@,
        DimensionStatus::NotApplicable => "assurance-dimension assurance-dimension-na"@,
    }
}

/// The style of a finding in the dispute inspector's verdict list.
pub fn dimension_class(status: DimensionStatus) -> (s: &'static str)
    ensures
        s@ == status_style(status),
{
    match status {
        DimensionStatus::NotSatisfied => "assurance-dimension assurance-dimension-failed",
        DimensionStatus::Indeterminate => "assurance-dimension assurance-dimension-indeterminate",
        DimensionStatus::Satisfied => "assurance-dimension assurance-dimension-satisfied",
        DimensionStatus::NotApplicable => "assurance-dimension assurance-dimension-na",
    }
}

/// The node types the evidence graph can be narrowed to.
#[derive(Clone, Copy, Debug, PartialEq, Eq, Structural)]
pub enum NodeFilter {
    All,
    Claims,
    Observations,
    Attestations,
    Gaps,
    Withheld,
}

impl NodeFilter {
    /// The filters, in the order they are offered.
    pub fn choices() -> (r: [NodeFilter; 6])
        ensures
            r@ == seq![NodeFilter::All, NodeFilter::Claims, NodeFilter::Observations, NodeFilter::Attestations,
                NodeFilter::Gaps, NodeFilter::Withheld],
    {
        let r = [NodeFilter::All, NodeFilter::Claims, NodeFilter::Observations, NodeFilter::Attestations,
            NodeFilter::Gaps, NodeFilter::Withheld];
        assert(r@ =~= seq![NodeFilter::All, NodeFilter::Claims, NodeFilter::Observations, NodeFilter::Attestations,
            NodeFilter::Gaps, NodeFilter::Withheld]);
        r
    }

    /// The label of the filter.
    pub fn label(self) -> (s: &'static str)
        ensures
            s@ == (match self {
                NodeFilter::All => "All"@,
                NodeFilter::Claims => "Claims"@,
                NodeFilter::Observations => "Observations"@,
                NodeFilter::Attestations => "Attestations"@,
                NodeFilter::Gaps => "Gaps"@,
                NodeFilter::Withheld => "Withheld"@,
            }),
    {
        match self {
            NodeFilter::All => "All",
            NodeFilter::Claims => "Claims",
            NodeFilter::Observations => "Observations",
            NodeFilter::Attestations => "Attestations",
            NodeFilter::Gaps => "Gaps",
            NodeFilter::Withheld => "Withheld",
        }
    }
}

/// A node of an inspected evidence graph, as the filters read it.
#[derive(Clone, Debug, PartialEq, Eq)]
pub struct EvidenceGraphNode {
    pub id: String,
    pub short_id: String,
    pub kind_label: String,
    pub kind_id: String,
    pub producer: String,
    pub source: String,
    pub classification: String,
    pub collected_at: i64,
    pub is_gap: bool,
    pub is_withheld: bool,
}

impl EvidenceGraphNode {
    /// A copy of this node.
    pub fn copy(&self) -> (r: Self)
        ensures
            r == *self,
    {
        EvidenceGraphNode {
            id: self.id.clone(),
            short_id: self.short_id.clone(),
            kind_label: self.kind_label.clone(),
            kind_id: self.kind_id.clone(),
            producer: self.producer.clone(),
            source: self.source.clone(),
            classification: self.classification.clone(),
            collected_at: self.collected_at,
            is_gap: self.is_gap,
            is_withheld: self.is_withheld,
        }
    }
}

/// Whether a node passes a filter.
pub open spec fn passes(node: EvidenceGraphNode, filter: NodeFilter) -> bool {
    match filter {
        NodeFilter::All => true,
        NodeFilter::Claims => node.kind_label@ == "Claim"@,
        NodeFilter::Observations => node.kind_label@ == "Observation"@,
        NodeFilter::Attestations => node.kind_label@ == "Attestation"@,
        NodeFilter::Gaps => node.is_gap,
        NodeFilter::Withheld => node.is_withheld,
    }
}

/// Whether a node passes a filter.
pub fn matches_filter(node: &EvidenceGraphNode, filter: NodeFilter) -> (b: bool)
    ensures
        b == passes(*node, filter),
{
    match filter {
        NodeFilter::All => true,
        NodeFilter::Claims => str_eq(node.kind_label.as_str(), "Claim"),
        NodeFilter::Observations => str_eq(node.kind_label.as_str(), "Observation"),
        NodeFilter::Attestations => str_eq(node.kind_label.as_str(), "Attestation"),
        NodeFilter::Gaps => node.is_gap,
        NodeFilter::Withheld => node.is_withheld,
    }
}

/// The style of a node: a gap first, then a withheld branch.
pub fn status_class(node: &EvidenceGraphNode) -> (s: &'static str)
    ensures
        s@ == (if node.is_gap {
            "evidence-node evidence-node-gap"@
        } else if node.is_withheld {
            "evidence-node evidence-node-withheld"@
        } else {
            "evidence-node"@
        }),
{
    if node.is_gap {
        "evidence-node evidence-node-gap"
    } else if node.is_withheld {
        "evidence-node evidence-node-withheld"
    } else {
        "evidence-node"
    }
}

/// The nodes of a graph that pass a filter, in graph order.
pub fn filtered_nodes(nodes: &Vec<EvidenceGraphNode>, filter: NodeFilter) -> (r: Vec<EvidenceGraphNode>)
    ensures
        r@ == nodes@.filter(|n: EvidenceGraphNode| passes(n, filter)),
{
    let mut r: Vec<EvidenceGraphNode> = Vec::new();
    let mut i: usize = 0;
    while i < nodes.len()
        invariant
            i <= nodes@.len(),
            r@ == nodes@.subrange(0, i as int).filter(|n: EvidenceGraphNode| passes(n, filter)),
        decreases nodes.len() - i,
    {
        proof {
            reveal_with_fuel(Seq::filter, 1);
            assert(nodes@.subrange(0, i + 1).drop_last() =~= nodes@.subrange(0, i as int));
        }
        if matches_filter(&nodes[i], filter) {
            r.push(nodes[i].copy());
        }
        i = i + 1;
    }
    proof {
        assert(nodes@.subrange(0, i as int) =~= nodes@);
    }
    r
}

/// The bundle verifier's notice: the local disposition under the named
/// context, or why verification did not run.
pub fn bundle_verification_status(outcome: &Result<LocalVerdict, String>) -> (s: String)
    ensures
        match *outcome {
            Ok(v) => s@ == v.disposition@ + " · context "@ + v.context_name@ + " · "@ + hex_lower(v.context_id@),
            Err(e) => s@ == "Verification did not run · "@ + e@ + ". Check the bundle and context formats."@,
        },
{
    match outcome {
        Ok(v) => {
            let mut s = concat3(v.disposition.as_str(), " · context ", v.context_name.as_str());
            s.append(" · ");
            s.append(hex_encode(v.context_id.as_slice()).as_str());
            s
        },
        Err(e) => concat3("Verification did not run · ", e.as_str(), ". Check the bundle and context formats."),
    }
}

/// The assurance inspector's notice when the computation did not run.
pub fn assurance_failure(error: &str) -> (s: String)
    ensures
        s@ == "Assurance computation did not run · "@ + error@ + ". Check both local inputs."@,
{
    concat3("Assurance computation did not run · ", error, ". Check both local inputs.")
}

/// The dispute inspector's notice when graph inspection did not run.
pub fn graph_inspection_failure(error: &str) -> (s: String)
    ensures
        s@ == "Inspection did not run · "@ + error@
            + ". Unsupported, malformed, or inconsistent graphs are rejected."@,
{
    concat3("Inspection did not run · ", error, ". Unsupported, malformed, or inconsistent graphs are rejected.")
}

/// The object inspector's notice when inspection did not run.
pub fn object_inspection_failure(error: &str) -> (s: String)
    ensures
        s@ == "Inspection did not run · "@ + error@
            + ". Unsupported, malformed, or inconsistent objects are rejected."@,
{
    concat3("Inspection did not run · ", error, ". Unsupported, malformed, or inconsistent objects are rejected.")
}

/// Why an independent authority assessment produced no verdict.
#[derive(Clone, Debug, PartialEq, Eq)]
pub enum AssessmentFailure {
    /// The verification context was rejected.
    Context(String),
    /// The verifier did not run on the bundle under the context.
    Verification(String),
}

/// The dispute inspector's notice when an authority assessment failed.
pub fn assessment_failure(failure: &AssessmentFailure) -> (s: String)
    ensures
        match *failure {
            AssessmentFailure::Context(e) => s@ == "Context rejected · "@ + e@
                + ". Supply a supported, hash-bound verification context."@,
            AssessmentFailure::Verification(e) => s@ == "Verification did not run · "@ + e@
                + ". The bundle is unsupported, malformed, or inconsistent with the context."@,
        },
{
    match failure {
        AssessmentFailure::Context(e) => concat3(
            "Context rejected · ",
            e.as_str(),
            ". Supply a supported, hash-bound verification context.",
        ),
        AssessmentFailure::Verification(e) => concat3(
            "Verification did not run · ",
            e.as_str(),
            ". The bundle is unsupported, malformed, or inconsistent with the context.",
        ),
    }
}

/// The label of the control switching between the graph and the table.
pub fn view_toggle_label(table_view: bool) -> (s: &'static str)
    ensures
        s@ == (if table_view { "Show graph view"@ } else { "Show accessible table view"@ }),
{
    if table_view { "Show graph view" } else { "Show accessible table view" }
}

/// A conformance vector's expected result beside the one computed locally.
#[derive(Clone, Debug, PartialEq, Eq)]
pub struct FixtureComparison {
    pub expected: String,
    pub actual: String,
    pub matches: bool,
}

/// The fixture lab's notice after running a vector locally.
pub fn fixture_run_status(outcome: &Result<FixtureComparison, String>) -> (s: String)
    ensures
        match *outcome {
            Ok(c) => s@ == "Expected: "@ + c.expected@ + " · Actual: "@ + c.actual@ + " · "@
                + (if c.matches { "Matches corpus"@ } else { "Does not match corpus"@ }),
            Err(e) => s@ == "Actual result unavailable · "@ + e@ + ". The imported inputs were rejected."@,
        },
{
    match outcome {
        Ok(c) => {
            let mut s = concat3("Expected: ", c.expected.as_str(), " · Actual: ");
            s.append(c.actual.as_str());
            s.append(" · ");
            s.append(if c.matches { "Matches corpus" } else { "Does not match corpus" });
            s
        },
        Err(e) => concat3("Actual result unavailable · ", e.as_str(), ". The imported inputs were rejected."),
    }
}

/// The fixture lab's notice after the replay demonstration: the first run
/// must match the fresh vector and the second the replayed one.
pub fn replay_status(outcome: &Result<(FixtureComparison, FixtureComparison), String>) -> (s: String)
    ensures
        match *outcome {
            Ok((first, second)) => if first.matches && second.matches {
                s@ == "First acceptance: "@ + first.actual@ + " · Second rejection: "@ + second.actual@
                    + " · no provider dispatch was performed"@
            } else {
                s@ == "Replay demonstration did not match · first actual: "@ + first.actual@
                    + " · second actual: "@ + second.actual@
            },
            Err(e) => s@ == "Replay demonstration rejected · "@ + e@,
        },
{
    match outcome {
        Ok((first, second)) => {
            if !first.matches || !second.matches {
                let mut s = concat2("Replay demonstration did not match · first actual: ", first.actual.as_str());
                s.append(" · second actual: ");
                s.append(second.actual.as_str());
                s
            } else {
                let mut s = concat2("First acceptance: ", first.actual.as_str());
                s.append(" · Second rejection: ");
                s.append(second.actual.as_str());
                s.append(" · no provider dispatch was performed");
                s
            }
        },
        Err(e) => concat2("Replay demonstration rejected · ", e.as_str()),
    }
}

/// The receipt page's notice after downloading and verifying a receipt.
pub fn environment_receipt_status(outcome: &Result<LocalVerdict, String>) -> (s: String)
    ensures
        match *outcome {
            Ok(v) => s@ == "Locally verified · "@ + v.disposition@ + " · context "@ + hex_lower(v.context_id@),
            Err(e) => s@ == "No verification result · "@ + e@,
        },
{
    match outcome {
        Ok(v) => {
            let mut s = concat2("Locally verified · ", v.disposition.as_str());
            s.append(" · context ");
            s.append(hex_encode(v.context_id.as_slice()).as_str());
            s
        },
        Err(e) => concat2("No verification result · ", e.as_str()),
    }
}

/// The entity profile's notice after loading a projection.
pub fn entity_profile_status(outcome: &Result<(), String>) -> (s: String)
    ensures
        match *outcome {
            Ok(()) => s@ == "Tenant-authorized projection loaded."@,
            Err(e) => s@ == "Profile unavailable · "@ + e@,
        },
{
    match outcome {
        Ok(()) => owned("Tenant-authorized projection loaded."),
        Err(e) => concat2("Profile unavailable · ", e.as_str()),
    }
}

/// A reference that may be withheld, as shown.
pub fn disclosed_or_not(value: &Option<String>) -> (s: String)
    ensures
        match *value {
            Some(v) => s@ == v@,
            None => s@ == "not disclosed"@,
        },
{
    match value {
        Some(v) => v.clone(),
        None => owned("not disclosed"),
    }
}

/// The portfolio's notices while and after loading a mandate.
pub fn mandate_load_status(mandate_id: &str, outcome: &Option<Result<(), String>>) -> (s: String)
    ensures
        match *outcome {
            None => s@ == "Loading mandate "@ + mandate_id@ + "…"@,
            Some(Ok(())) => s@ == "Loaded mandate "@ + mandate_id@ + " · recorded elsewhere, not locally verified."@,
            Some(Err(e)) => s@ == "Load failed · "@ + e@,
        },
{
    match outcome {
        None => concat3("Loading mandate ", mandate_id, "…"),
        Some(Ok(())) => concat3("Loaded mandate ", mandate_id, " · recorded elsewhere, not locally verified."),
        Some(Err(e)) => concat2("Load failed · ", e.as_str()),
    }
}

/// Why an anchoring action cannot run.
#[derive(Clone, Debug, PartialEq, Eq)]
pub enum AnchorAvailability {
    Unavailable { reason: String, depends_on: String },
}

/// The notice for an anchoring action's outcome.
pub fn availability_message(outcome: &AnchorAvailability) -> (s: String)
    ensures
        match *outcome {
            AnchorAvailability::Unavailable { reason, depends_on } =>
                s@ == "Unavailable · "@ + reason@ + " (unblocked by "@ + depends_on@ + ")"@,
        },
{
    match outcome {
        AnchorAvailability::Unavailable { reason, depends_on } => {
            let mut s = concat3("Unavailable · ", reason.as_str(), " (unblocked by ");
            s.append(depends_on.as_str());
            s.append(")");
            s
        },
    }
}

/// What a chain specification states of a network's finality.
#[derive(Clone, Debug, PartialEq, Eq)]
pub struct FinalityProfile {
    pub deterministic_finality: Option<bool>,
    pub max_reorg_depth: Option<u64>,
    pub proof_system: Option<String>,
}

/// The stated facts of a finality profile, in order.
pub open spec fn finality_parts(f: FinalityProfile) -> Seq<Seq<char>> {
    let a: Seq<Seq<char>> = match f.deterministic_finality {
        Some(true) => seq!["deterministic finality"@],
        Some(false) => seq!["probabilistic finality"@],
        None => Seq::empty(),
    };
    let b: Seq<Seq<char>> = match f.max_reorg_depth {
        Some(d) => a.push("max reorg depth "@ + decimal(d as nat)),
        None => a,
    };
    match f.proof_system {
        Some(p) => b.push("proof system "@ + p@),
        None => b,
    }
}

/// Parts joined with ` · `.
pub open spec fn joined(parts: Seq<Seq<char>>) -> Seq<char>
    decreases parts.len(),
{
    if parts.len() == 0 {
        Seq::empty()
    } else if parts.len() == 1 {
        parts[0]
    } else {
        joined(parts.drop_last()) + " · "@ + parts.last()
    }
}

/// A one-line summary of a finality profile.
pub open spec fn finality_text(f: FinalityProfile) -> Seq<char> {
    if finality_parts(f).len() == 0 {
        "Finality profile not stated in the chain spec."@
    } else {
        joined(finality_parts(f))
    }
}

fn join_parts(parts: &Vec<String>) -> (s: String)
    ensures
        s@ == joined(parts@.map_values(|p: String| p@)),
{
    let ghost views = parts@.map_values(|p: String| p@);
    let mut s = String::new();
    let mut i: usize = 0;
    while i < parts.len()
        invariant
            i <= parts@.len(),
            views == parts@.map_values(|p: String| p@),
            s@ == joined(views.subrange(0, i as int)),
        decreases parts.len() - i,
    {
        proof {
            assert(views.subrange(0, i + 1).drop_last() =~= views.subrange(0, i as int));
        }
        if i > 0 {
            s.append(" · ");
        }
        s.append(parts[i].as_str());
        proof {
            if i == 0 {
                assert(s@ =~= views.subrange(0, 1)[0]);
            }
        }
        i = i + 1;
    }
    proof {
        assert(views.subrange(0, i as int) =~= views);
    }
    s
}

/// A one-line summary of a network's finality profile.
pub fn finality_summary(finality: &FinalityProfile) -> (s: String)
    ensures
        s@ == finality_text(*finality),
{
    let mut parts: Vec<String> = Vec::new();
    match finality.deterministic_finality {
        Some(true) => parts.push(owned("deterministic finality")),
        Some(false) => parts.push(owned("probabilistic finality")),
        None => {},
    }
    match finality.max_reorg_depth {
        Some(depth) => parts.push(concat2("max reorg depth ", u64_to_string(depth).as_str())),
        None => {},
    }
    match &finality.proof_system {
        Some(system) => parts.push(concat2("proof system ", system.as_str())),
        None => {},
    }
    assert(parts@.map_values(|p: String| p@) =~= finality_parts(*finality));
    if parts.len() == 0 {
        owned("Finality profile not stated in the chain spec.")
    } else {
        join_parts(&parts)
    }
}

/// A chain network an object can be anchored on.
#[derive(Clone, Debug, PartialEq, Eq)]
pub struct AnchoringNetwork {
    pub id: String,
    pub name: String,
    pub network: String,
    pub rpc_urls: Vec<String>,
    pub finality: FinalityProfile,
}

/// The network selected when the anchoring page opens: the first one, or
/// none.
pub fn default_network_id(networks: &Vec<AnchoringNetwork>) -> (s: String)
    ensures
        networks@.len() > 0 ==> s@ == networks@[0].id@,
        networks@.len() == 0 ==> s@.len() == 0,
{
    if networks.len() > 0 {
        networks[0].id.clone()
    } else {
        String::new()
    }
}

/// The position of the first network with the given identifier.
pub fn find_network(networks: &Vec<AnchoringNetwork>, id: &str) -> (r: Option<usize>)
    ensures
        match r {
            Some(k) => k < networks@.len() && networks@[k as int].id@ == id@
                && forall|j: int| 0 <= j < k ==> (#[trigger] networks@[j]).id@ != id@,
            None => forall|j: int| 0 <= j < networks@.len() ==> (#[trigger] networks@[j]).id@ != id@,
        },
{
    let mut k: usize = 0;
    while k < networks.len()
        invariant
            k <= networks@.len(),
            forall|j: int| 0 <= j < k ==> (#[trigger] networks@[j]).id@ != id@,
        decreases networks.len() - k,
    {
        if str_eq(networks[k].id.as_str(), id) {
            return Some(k);
        }
        k = k + 1;
    }
    None
}

/// A network's entry in the selector: `<name> (<network>)`.
pub fn network_option_label(net: &AnchoringNetwork) -> (s: String)
    ensures
        s@ == net.name@ + " ("@ + net.network@ + ")"@,
{
    let mut s = concat3(net.name.as_str(), " (", net.network.as_str());
    s.append(")");
    s
}

/// The read endpoint shown for a network: its first one, if the
/// specification lists any.
pub fn read_rpc_text(net: &AnchoringNetwork) -> (s: String)
    ensures
        net.rpc_urls@.len() > 0 ==> s@ == net.rpc_urls@[0]@,
        net.rpc_urls@.len() == 0 ==> s@ == "No read endpoint in spec"@,
{
    if net.rpc_urls.len() == 0 {
        owned("No read endpoint in spec")
    } else {
        net.rpc_urls[0].clone()
    }
}

} // verus!
