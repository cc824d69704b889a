//! The runtime evidence inspector: what it shows of a lifecycle projection
//! and of the proof receipts attached to an item.
//!
//! The inspector is local: it never fetches remote evidence, and an attached
//! proof receipt never upgrades an item to verified.

use vstd::prelude::*;
use crate::codec::{base64_encode, base64_standard, hex_decode, hex_decoded};
use crate::lifecycle::{EvidenceView, TransferLifecycleView};
use crate::records::{ProofRecord, ProofStatus};
use crate::text::{concat2, concat3, decimal, owned, u64_to_string};

verus! {

/// The inspector's sections.
#[derive(Clone, Copy, Debug, PartialEq, Eq, Structural)]
pub enum InspectorTab {
    Overview,
    Evidence,
    Artifacts,
}

impl InspectorTab {
    /// The sections, in order.
    pub fn all() -> (r: [InspectorTab; 3])
        ensures
            r@ == seq![InspectorTab::Overview, InspectorTab::Evidence, InspectorTab::Artifacts],
    {
        let r = [InspectorTab::Overview, InspectorTab::Evidence, InspectorTab::Artifacts];
        assert(r@ =~= seq![InspectorTab::Overview, InspectorTab::Evidence, InspectorTab::Artifacts]);
        r
    }

    /// The identifier and label of the section.
    pub fn id_and_label(self) -> (r: (&'static str, &'static str))
        ensures
            (r.0@, r.1@) == (match self {
                InspectorTab::Overview => ("overview"@, "Overview"@),
                InspectorTab::Evidence => ("evidence"@, "Evidence"@),
                InspectorTab::Artifacts => ("artifacts"@, "Artifacts"@),
            }),
    {
        match self {
            InspectorTab::Overview => ("overview", "Overview"),
            InspectorTab::Evidence => ("evidence", "Evidence"),
            InspectorTab::Artifacts => ("artifacts", "Artifacts"),
        }
    }
}

/// One finality fact as the evidence section shows it.
#[derive(Clone, Debug, PartialEq, Eq)]
pub struct EvidenceFact {
    pub label: &'static str,
    pub summary: String,
    pub provenance: String,
    pub reported: bool,
}

/// A finality fact: the evidence's summary and provenance, or an explicit
/// statement that the runtime artifact reported none.
pub fn evidence_fact(label: &'static str, evidence: &Option<EvidenceView>) -> (f: EvidenceFact)
    ensures
        f.label == label,
        match *evidence {
            Some(v) => f.reported && f.summary@ == v.summary@ && f.provenance@ == v.provenance@,
            None => !f.reported && f.summary@ == "Not reported by the runtime artifact."@
                && f.provenance@ == "not reported"@,
        },
{
    match evidence {
        Some(v) => EvidenceFact {
            label,
            summary: v.summary.clone(),
            provenance: owned(v.provenance),
            reported: true,
        },
        None => EvidenceFact {
            label,
            summary: owned("Not reported by the runtime artifact."),
            provenance: owned("not reported"),
            reported: false,
        },
    }
}

/// The download link of an artifact's canonical bytes: a CBOR data URL.
pub open spec fn cbor_data_url(bytes: Seq<u8>) -> Seq<char> {
    "data:application/cbor;base64,"@ + base64_standard(bytes)
}

/// The download link of an artifact, when its hexadecimal encoding decodes.
pub fn artifact_download_href(cbor_hex: &Option<String>) -> (r: Option<String>)
    ensures
        match *cbor_hex {
            None => r is None,
            Some(h) => match hex_decoded(h@) {
                None => r is None,
                Some(bytes) => r matches Some(u) && u@ == cbor_data_url(bytes),
            },
        },
{
    match cbor_hex {
        None => None,
        Some(h) => match hex_decode(h.as_str()) {
            Err(_) => None,
            Ok(bytes) => Some(concat2("data:application/cbor;base64,", base64_encode(bytes.as_slice()).as_str())),
        },
    }
}

/// One labelled identifier of the artifacts section.
#[derive(Clone, Debug, PartialEq, Eq)]
pub struct ArtifactRow {
    pub label: &'static str,
    pub value: String,
}

/// The rows of the artifacts section: the Sanad identifier, then each
/// reported identifier in a fixed order; absent ones are left out.
pub open spec fn artifact_rows_of(v: TransferLifecycleView) -> Seq<(Seq<char>, Seq<char>)> {
    seq![("Sanad ID"@, v.sanad_id@)]
        + optional_row("Transfer ID"@, v.transfer_id)
        + optional_row("Lock transaction"@, v.lock_tx_hash)
        + optional_row("Mint transaction"@, v.mint_tx_hash)
        + optional_row("Proof hash"@, v.proof_hash)
        + optional_row("Invoice ID"@, v.invoice_id)
        + optional_row("Consignment digest"@, v.consignment_digest)
        + optional_row("Artifact SHA-256 (select to copy)"@, v.artifact_sha256)
}

/// A row for a value that may be absent.
pub open spec fn optional_row(label: Seq<char>, value: Option<String>) -> Seq<(Seq<char>, Seq<char>)> {
    match value {
        Some(s) => seq![(label, s@)],
        None => Seq::empty(),
    }
}

/// The label and value of a row.
pub open spec fn row_view(r: ArtifactRow) -> (Seq<char>, Seq<char>) {
    (r.label@, r.value@)
}

fn push_optional(rows: &mut Vec<ArtifactRow>, label: &'static str, value: &Option<String>)
    ensures
        final(rows)@.map_values(|r: ArtifactRow| row_view(r))
            == old(rows)@.map_values(|r: ArtifactRow| row_view(r)) + optional_row(label@, *value),
{
    match value {
        Some(v) => {
            rows.push(ArtifactRow { label, value: v.clone() });
        },
        None => {},
    }
    assert(final(rows)@.map_values(|r: ArtifactRow| row_view(r))
        =~= old(rows)@.map_values(|r: ArtifactRow| row_view(r)) + optional_row(label@, *value));
}

/// The rows of the artifacts section.
pub fn artifact_rows(view: &TransferLifecycleView) -> (rows: Vec<ArtifactRow>)
    ensures
        rows@.map_values(|r: ArtifactRow| row_view(r)) == artifact_rows_of(*view),
{
    let mut rows: Vec<ArtifactRow> = Vec::new();
    rows.push(ArtifactRow { label: "Sanad ID", value: view.sanad_id.clone() });
    assert(rows@.map_values(|r: ArtifactRow| row_view(r)) =~= seq![("Sanad ID"@, view.sanad_id@)]);
    push_optional(&mut rows, "Transfer ID", &view.transfer_id);
    push_optional(&mut rows, "Lock transaction", &view.lock_tx_hash);
    push_optional(&mut rows, "Mint transaction", &view.mint_tx_hash);
    push_optional(&mut rows, "Proof hash", &view.proof_hash);
    push_optional(&mut rows, "Invoice ID", &view.invoice_id);
    push_optional(&mut rows, "Consignment digest", &view.consignment_digest);
    push_optional(&mut rows, "Artifact SHA-256 (select to copy)", &view.artifact_sha256);
    rows
}

/// The provenance of the verification assurance, or `not reported`.
pub fn verification_provenance(view: &TransferLifecycleView) -> (s: &'static str)
    ensures
        s@ == (match view.verification_provenance {
            Some(p) => p@,
            None => "not reported"@,
        }),
{
    match view.verification_provenance {
        Some(p) => p,
        None => "not reported",
    }
}

/// The wording of a recorded proof status.
pub open spec fn proof_status_text(s: ProofStatus) -> Seq<char> {
    match s {
        ProofStatus::Pending => "Pending"@,
        ProofStatus::Verified => "Verified"@,
        ProofStatus::Failed => "Failed"@,
    }
}

/// One attached proof receipt as the evidence section shows it.
#[derive(Clone, Debug, PartialEq, Eq)]
pub struct ProofEntry {
    pub reference: String,
    pub chain: String,
    pub proof_type: String,
    pub status: String,
    pub anchor_transaction: Option<String>,
    pub material: Option<String>,
    /// Shown for every receipt whose recorded status is not `Verified`.
    pub warning: Option<&'static str>,
}

/// The heading of the attached proof receipts.
pub open spec fn proofs_heading() -> Seq<char> {
    "Attached proof receipts"@
}

/// The warning on a receipt that is not a verified one.
pub open spec fn not_acceptance_warning() -> Seq<char> {
    "This recorded receipt is not cryptographic acceptance."@
}

/// The note shown when no receipt is attached.
pub open spec fn no_proof_note() -> Seq<char> {
    "No proof receipt is attached to this item."@
}

/// `e` shows the proof receipt `p`.
pub open spec fn shows_proof(e: ProofEntry, p: ProofRecord) -> bool {
    &&& e.reference@ == (match p.seal_ref {
        Some(r) => r@,
        None => "unreferenced"@,
    })
    &&& e.chain@ == p.chain@
    &&& e.proof_type@ == p.proof_type@
    &&& e.status@ == proof_status_text(p.status)
    &&& e.anchor_transaction == p.verification_tx_hash
    &&& e.material == p.proof_data
    &&& (p.status == ProofStatus::Verified <==> e.warning is None)
    &&& e.warning matches Some(w) ==> w@ == not_acceptance_warning()
}

/// The attached proof receipts section: entity-local evidence that never
/// upgrades the item to verified.
#[derive(Clone, Debug, PartialEq, Eq)]
pub struct ProofSection {
    pub heading: &'static str,
    pub empty_note: Option<&'static str>,
    pub entries: Vec<ProofEntry>,
}

/// The attached proof receipts section for `proofs`.
pub fn proof_evidence(proofs: &Vec<ProofRecord>) -> (s: ProofSection)
    ensures
        s.heading@ == proofs_heading(),
        s.empty_note is Some <==> proofs@.len() == 0,
        s.empty_note matches Some(n) ==> n@ == no_proof_note(),
        s.entries@.len() == proofs@.len(),
        forall|i: int| 0 <= i < proofs@.len() ==> shows_proof(#[trigger] s.entries@[i], proofs@[i]),
{
    let mut entries: Vec<ProofEntry> = Vec::new();
    let mut i: usize = 0;
    while i < proofs.len()
        invariant
            i <= proofs@.len(),
            entries@.len() == i,
            forall|k: int| 0 <= k < i ==> shows_proof(#[trigger] entries@[k], proofs@[k]),
        decreases proofs.len() - i,
    {
        let p = &proofs[i];
        let reference = match &p.seal_ref {
            Some(r) => r.clone(),
            None => owned("unreferenced"),
        };
        let status = owned(match p.status {
            ProofStatus::Pending => "Pending",
            ProofStatus::Verified => "Verified",
            ProofStatus::Failed => "Failed",
        });
        let anchor_transaction = match &p.verification_tx_hash {
            Some(h) => Some(h.clone()),
            None => None,
        };
        let material = match &p.proof_data {
            Some(d) => Some(d.clone()),
            None => None,
        };
        let warning = match p.status {
            ProofStatus::Verified => None,
            _ => Some("This recorded receipt is not cryptographic acceptance."),
        };
        entries.push(ProofEntry {
            reference,
            chain: owned(p.chain.as_str()),
            proof_type: p.proof_type.clone(),
            status,
            anchor_transaction,
            material,
            warning,
        });
        i = i + 1;
    }
    ProofSection {
        heading: "Attached proof receipts",
        empty_note: if proofs.len() == 0 { Some("No proof receipt is attached to this item.") } else { None },
        entries,
    }
}

/// The note shown when there is no lifecycle artifact: explorer data is
/// never substituted for verification evidence.
pub open spec fn no_lifecycle_note() -> Seq<char> {
    "No local runtime lifecycle artifact is available for this item. Explorer data is not substituted for verification evidence."@
}

/// The note of an absent lifecycle artifact.
pub fn lifecycle_unavailable_note() -> (s: &'static str)
    ensures
        s@ == no_lifecycle_note(),
{
    "No local runtime lifecycle artifact is available for this item. Explorer data is not substituted for verification evidence."
}

/// The note beside an artifact whose canonical bytes cannot be exported.
pub fn no_export_note() -> (s: &'static str)
    ensures
        s@ == "No canonical artifact bytes are available for export."@,
{
    "No canonical artifact bytes are available for export."
}

/// The transfer form's runtime lifecycle panel: the same projection the
/// inspector reads, summarized.  A transaction hash is never presented as
/// finality evidence.
#[derive(Clone, Debug, PartialEq, Eq)]
pub struct LifecyclePanel {
    pub observed: String,
    pub reason: Option<String>,
    /// The source-finality summary, its provenance line and its verdict
    /// line, or the note that none was reported.
    pub source: Vec<String>,
    /// The destination-finality summary and provenance line, or the note
    /// that none was reported.
    pub destination: Vec<String>,
    /// Whether a cryptographic assurance was reported; the note shown when
    /// none was.
    pub assurance_reported: bool,
    pub assurance_note: Option<&'static str>,
    pub provenance: Option<String>,
    pub resume: bool,
    pub retry: bool,
}

/// The lines the lifecycle panel shows for source finality.
pub open spec fn source_lines(e: Option<EvidenceView>) -> Seq<Seq<char>> {
    match e {
        Some(v) => seq![v.summary@, "Evidence: "@ + v.provenance@,
            if v.is_final { "Finality established"@ } else { "Finality not established"@ }],
        None => seq!["No source-finality evidence reported in this runtime artifact."@],
    }
}

/// The lines the lifecycle panel shows for destination finality.
pub open spec fn destination_lines(e: Option<EvidenceView>) -> Seq<Seq<char>> {
    match e {
        Some(v) => seq![v.summary@, "Evidence: "@ + v.provenance@],
        None => seq!["Not reported by the runtime artifact; a mint hash is not finality evidence."@],
    }
}

/// The views of a list of lines.
pub open spec fn line_views(v: Seq<String>) -> Seq<Seq<char>> {
    v.map_values(|s: String| s@)
}

/// The lifecycle panel of a projection.
pub fn lifecycle_panel(view: &TransferLifecycleView) -> (p: LifecyclePanel)
    ensures
        p.observed@ == "Observed by runtime at unix time "@ + decimal(view.observed_at as nat) + "."@,
        p.reason == view.failure_reason,
        line_views(p.source@) == source_lines(view.source_finality),
        line_views(p.destination@) == destination_lines(view.destination_finality),
        p.assurance_reported == (view.verification_assurance is Some),
        p.assurance_note is None <==> view.verification_assurance is Some,
        p.assurance_note matches Some(n) ==> n@ == "No cryptographic assurance was reported in this artifact."@,
        match view.verification_provenance {
            Some(v) => p.provenance matches Some(t) && t@ == "Provenance: "@ + v@,
            None => p.provenance is None,
        },
        p.resume == view.permitted_actions@.contains(crate::lifecycle::NextAction::Resume),
        p.retry == view.permitted_actions@.contains(crate::lifecycle::NextAction::Retry),
{
    let observed = concat3("Observed by runtime at unix time ", u64_to_string(view.observed_at).as_str(), ".");
    let reason = match &view.failure_reason {
        Some(r) => Some(r.clone()),
        None => None,
    };
    let mut source: Vec<String> = Vec::new();
    match &view.source_finality {
        Some(v) => {
            source.push(v.summary.clone());
            source.push(concat2("Evidence: ", v.provenance));
            source.push(owned(if v.is_final { "Finality established" } else { "Finality not established" }));
        },
        None => {
            source.push(owned("No source-finality evidence reported in this runtime artifact."));
        },
    }
    let mut destination: Vec<String> = Vec::new();
    match &view.destination_finality {
        Some(v) => {
            destination.push(v.summary.clone());
            destination.push(concat2("Evidence: ", v.provenance));
        },
        None => {
            destination.push(owned("Not reported by the runtime artifact; a mint hash is not finality evidence."));
        },
    }
    assert(line_views(source@) =~= source_lines(view.source_finality));
    assert(line_views(destination@) =~= destination_lines(view.destination_finality));
    let assurance_reported = view.verification_assurance.is_some();
    let provenance = match view.verification_provenance {
        Some(v) => Some(concat2("Provenance: ", v)),
        None => None,
    };
    LifecyclePanel {
        observed,
        reason,
        source,
        destination,
        assurance_reported,
        assurance_note: if assurance_reported { None } else { Some("No cryptographic assurance was reported in this artifact.") },
        provenance,
        resume: view.allows_resume(),
        retry: view.allows_retry(),
    }
}

} // verus!
