//! Disposable, monotonic presentation projections of runtime transfer
//! contracts.
//!
//! A projection is built only from a runtime `TransferEvent` or
//! `TransferReceipt`, and an event may advance it only forward: duplicate,
//! stale and regressive events leave it unchanged.  The runtime's canonical
//! encoding of an artifact, and its own finality verdict on a piece of
//! evidence, are computed by the runtime and handed in as plain values.

use vstd::prelude::*;
use crate::codec::{hex_encode, hex_lower, sha256, sha256_digest};
use crate::text::{decimal, owned, u64_to_string};

verus! {

/// The transfer mode a runtime artifact belongs to.
#[derive(Clone, Copy, Debug, PartialEq, Eq, Structural)]
pub enum TransferMode {
    Materialize,
    Send,
    Invoice,
    Accept,
}

/// A recovery or follow-up action the runtime permits.
#[derive(Clone, Copy, Debug, PartialEq, Eq, Structural)]
pub enum NextAction {
    Status,
    Resume,
    Retry,
}

/// The assurance level the canonical verifier reported, as its wire code.
#[derive(Clone, Copy, Debug, PartialEq, Eq, Structural)]
pub struct VerificationAssuranceWire {
    pub level: u8,
}

/// Finality evidence carried by a runtime artifact.
#[derive(Clone, Copy, Debug, PartialEq, Eq, Structural)]
pub enum FinalityEvidence {
    ObservedTip {
        confirming_block_height: u64,
        observed_tip_height: u64,
        confirmations: u64,
        required_confirmations: u64,
    },
    ChainReported { confirming_block_height: u64, confirmations: u64, required_confirmations: u64 },
    JournalRecovered,
}

/// The runtime journal phase of a transfer.
#[derive(Clone, Debug, PartialEq, Eq)]
pub enum TransferPhase {
    Admitted,
    SealOwnershipVerified,
    Locked { lock_tx_hash: String },
    AwaitingFinality { evidence: FinalityEvidence },
    FinalityReached { evidence: FinalityEvidence },
    ProofBuilt { proof_hash: Vec<u8> },
    ProofVerified { assurance: VerificationAssuranceWire },
    SubmittedToDestination,
    Settled { mint_tx_hash: String },
    RecoveryRequired { reason: String },
    Failed { code: String, message: String },
}

/// A validated runtime transfer event.
#[derive(Clone, Debug, PartialEq, Eq)]
pub struct TransferEvent {
    pub mode: TransferMode,
    pub transfer_id: String,
    pub replay_id: Option<String>,
    pub sanad_id: String,
    pub chain: String,
    pub phase: TransferPhase,
    pub next_actions: Vec<NextAction>,
    pub observed_at: u64,
}

impl TransferEvent {
    /// Assembles an event from its parts.
    pub fn new(
        mode: TransferMode,
        transfer_id: String,
        replay_id: Option<String>,
        sanad_id: String,
        chain: String,
        phase: TransferPhase,
        next_actions: Vec<NextAction>,
        observed_at: u64,
    ) -> (r: Self)
        ensures
            r == (TransferEvent {
                mode,
                transfer_id,
                replay_id,
                sanad_id,
                chain,
                phase,
                next_actions,
                observed_at,
            }),
    {
        TransferEvent { mode, transfer_id, replay_id, sanad_id, chain, phase, next_actions, observed_at }
    }
}

/// How a materialized transfer's proof was verified.
#[derive(Clone, Copy, Debug, PartialEq, Eq, Structural)]
pub enum VerificationRecord {
    Verified { assurance: VerificationAssuranceWire },
    JournalRecorded,
    NotYetVerified,
}

/// Receipt body of a materialized (settled) transfer.
#[derive(Clone, Debug, PartialEq, Eq)]
pub struct MaterializeBody {
    pub transfer_id: String,
    pub sanad_id: String,
    pub verification: VerificationRecord,
    pub finality: FinalityEvidence,
    pub replay_id: String,
    pub lock_tx_hash: String,
    pub mint_tx_hash: String,
}

/// Receipt body of an interactive send.
#[derive(Clone, Debug, PartialEq, Eq)]
pub struct SendBody {
    pub transfer_id: String,
    pub sanad_id: String,
    pub invoice_id: Vec<u8>,
    pub consignment_digest: Vec<u8>,
}

/// Receipt body of an issued invoice.
#[derive(Clone, Debug, PartialEq, Eq)]
pub struct InvoiceBody {
    pub invoice_id: Vec<u8>,
}

/// Receipt body of an accepted consignment.
#[derive(Clone, Debug, PartialEq, Eq)]
pub struct AcceptBody {
    pub sanad_id: String,
    pub finality: FinalityEvidence,
    pub assurance: VerificationAssuranceWire,
}

/// The mode-specific body of a runtime receipt.
#[derive(Clone, Debug, PartialEq, Eq)]
pub enum ReceiptBody {
    Materialize(MaterializeBody),
    Send(SendBody),
    Invoice(InvoiceBody),
    Accept(AcceptBody),
}

/// A runtime transfer receipt.
#[derive(Clone, Debug, PartialEq, Eq)]
pub struct TransferReceipt {
    pub mode: TransferMode,
    pub transfer_id: Option<String>,
    pub emitted_at: u64,
    pub next_actions: Vec<NextAction>,
    pub body: ReceiptBody,
}

// ------------------------------------------------------------------------
// Evidence
// ------------------------------------------------------------------------

/// A displayable summary of one piece of finality evidence.
#[derive(Clone, Debug, PartialEq, Eq)]
pub struct EvidenceView {
    pub summary: String,
    pub provenance: &'static str,
    pub is_final: bool,
}

/// `v` summarizes `evidence`, on which the runtime's finality verdict is
/// `runtime_final`.
pub open spec fn is_evidence_view(v: EvidenceView, evidence: FinalityEvidence, runtime_final: bool) -> bool {
    match evidence {
        FinalityEvidence::ObservedTip {
            confirming_block_height,
            observed_tip_height,
            confirmations,
            required_confirmations,
        } => {
            &&& v.summary@ == decimal(confirmations as nat) + "/"@ + decimal(required_confirmations as nat)
                + " confirmations; block "@ + decimal(confirming_block_height as nat) + ", observed tip "@
                + decimal(observed_tip_height as nat)
            &&& v.provenance@ == "observed chain tip"@
            &&& v.is_final == runtime_final
        },
        FinalityEvidence::ChainReported { confirming_block_height, confirmations, required_confirmations } => {
            &&& v.summary@ == decimal(confirmations as nat) + "/"@ + decimal(required_confirmations as nat)
                + " confirmations; confirming height "@ + decimal(confirming_block_height as nat)
            &&& v.provenance@ == "chain-reported finality"@
            &&& v.is_final == runtime_final
        },
        FinalityEvidence::JournalRecovered => {
            &&& v.summary@ == "Recovered from the runtime journal; no fresh chain observation"@
            &&& v.provenance@ == "runtime journal"@
            &&& !v.is_final
        },
    }
}

impl EvidenceView {
    /// Summarizes finality evidence; `runtime_final` is the runtime's own
    /// verdict on the evidence.  Journal-recovered evidence is never final.
    pub fn from_evidence(evidence: &FinalityEvidence, runtime_final: bool) -> (v: Self)
        ensures
            is_evidence_view(v, *evidence, runtime_final),
    {
        match evidence {
            FinalityEvidence::ObservedTip {
                confirming_block_height,
                observed_tip_height,
                confirmations,
                required_confirmations,
            } => {
                let mut s = u64_to_string(*confirmations);
                s.append("/");
                s.append(u64_to_string(*required_confirmations).as_str());
                s.append(" confirmations; block ");
                s.append(u64_to_string(*confirming_block_height).as_str());
                s.append(", observed tip ");
                s.append(u64_to_string(*observed_tip_height).as_str());
                EvidenceView { summary: s, provenance: "observed chain tip", is_final: runtime_final }
            },
            FinalityEvidence::ChainReported { confirming_block_height, confirmations, required_confirmations } => {
                let mut s = u64_to_string(*confirmations);
                s.append("/");
                s.append(u64_to_string(*required_confirmations).as_str());
                s.append(" confirmations; confirming height ");
                s.append(u64_to_string(*confirming_block_height).as_str());
                EvidenceView { summary: s, provenance: "chain-reported finality", is_final: runtime_final }
            },
            FinalityEvidence::JournalRecovered => EvidenceView {
                summary: owned("Recovered from the runtime journal; no fresh chain observation"),
                provenance: "runtime journal",
                is_final: false,
            },
        }
    }
}

// ------------------------------------------------------------------------
// Lifecycle stages
// ------------------------------------------------------------------------

/// A user-visible lifecycle stage, ordered by its rank.
#[derive(Clone, Debug, PartialEq, Eq)]
pub struct LifecycleStage {
    pub name: &'static str,
    pub explanation: &'static str,
    pub rank: u8,
}

/// The stage name of a journal phase.
pub open spec fn phase_stage_name(p: TransferPhase) -> Seq<char> {
    match p {
        TransferPhase::Admitted => "Admitted"@,
        TransferPhase::SealOwnershipVerified => "Destination seal ownership verified"@,
        TransferPhase::Locked { .. } => "Source locked"@,
        TransferPhase::AwaitingFinality { .. } => "Awaiting source finality"@,
        TransferPhase::FinalityReached { .. } => "Source finality reached"@,
        TransferPhase::ProofBuilt { .. } => "Proof built"@,
        TransferPhase::ProofVerified { .. } => "Proof verified"@,
        TransferPhase::SubmittedToDestination => "Submitted to destination"@,
        TransferPhase::Settled { .. } => "Settled"@,
        TransferPhase::RecoveryRequired { .. } => "Recovery required"@,
        TransferPhase::Failed { .. } => "Failed"@,
    }
}

/// The stage explanation of a journal phase.
pub open spec fn phase_stage_explanation(p: TransferPhase) -> Seq<char> {
    match p {
        TransferPhase::Admitted => "The runtime admitted this transfer."@,
        TransferPhase::SealOwnershipVerified => "The runtime verified the recipient-controlled seal."@,
        TransferPhase::Locked { .. } => "The source seal was locked on-chain."@,
        TransferPhase::AwaitingFinality { .. } =>
            "The lock exists, but finality has not yet been established."@,
        TransferPhase::FinalityReached { .. } => "The runtime observed source finality."@,
        TransferPhase::ProofBuilt { .. } =>
            "The runtime built an inclusion and finality proof bundle."@,
        TransferPhase::ProofVerified { .. } =>
            "The canonical verifier reported the assurance shown below."@,
        TransferPhase::SubmittedToDestination =>
            "The runtime submitted the verified proof to the destination chain."@,
        TransferPhase::Settled { .. } =>
            "The destination materialization was confirmed by the runtime."@,
        TransferPhase::RecoveryRequired { .. } =>
            "The runtime journal requires an allowed recovery action."@,
        TransferPhase::Failed { .. } => "The runtime reported a terminal failure."@,
    }
}

/// The rank of a journal phase: stages only ever move to equal or higher
/// ranks.
pub open spec fn phase_rank(p: TransferPhase) -> u8 {
    match p {
        TransferPhase::Admitted => 10,
        TransferPhase::SealOwnershipVerified => 20,
        TransferPhase::Locked { .. } => 30,
        TransferPhase::AwaitingFinality { .. } => 40,
        TransferPhase::FinalityReached { .. } => 50,
        TransferPhase::ProofBuilt { .. } => 60,
        TransferPhase::ProofVerified { .. } => 70,
        TransferPhase::SubmittedToDestination => 80,
        TransferPhase::Settled { .. } => 90,
        TransferPhase::RecoveryRequired { .. } => 100,
        TransferPhase::Failed { .. } => 100,
    }
}

/// The journal name of a phase (its variant name).
pub open spec fn phase_journal_name(p: TransferPhase) -> Seq<char> {
    match p {
        TransferPhase::Admitted => "Admitted"@,
        TransferPhase::SealOwnershipVerified => "SealOwnershipVerified"@,
        TransferPhase::Locked { .. } => "Locked"@,
        TransferPhase::AwaitingFinality { .. } => "AwaitingFinality"@,
        TransferPhase::FinalityReached { .. } => "FinalityReached"@,
        TransferPhase::ProofBuilt { .. } => "ProofBuilt"@,
        TransferPhase::ProofVerified { .. } => "ProofVerified"@,
        TransferPhase::SubmittedToDestination => "SubmittedToDestination"@,
        TransferPhase::Settled { .. } => "Settled"@,
        TransferPhase::RecoveryRequired { .. } => "RecoveryRequired"@,
        TransferPhase::Failed { .. } => "Failed"@,
    }
}

impl LifecycleStage {
    /// The stage a journal phase is presented as.
    pub fn from_phase(phase: &TransferPhase) -> (s: Self)
        ensures
            s.name@ == phase_stage_name(*phase),
            s.explanation@ == phase_stage_explanation(*phase),
            s.rank == phase_rank(*phase),
    {
        match phase {
            TransferPhase::Admitted => LifecycleStage {
                name: "Admitted",
                explanation: "The runtime admitted this transfer.",
                rank: 10,
            },
            TransferPhase::SealOwnershipVerified => LifecycleStage {
                name: "Destination seal ownership verified",
                explanation: "The runtime verified the recipient-controlled seal.",
                rank: 20,
            },
            TransferPhase::Locked { .. } => LifecycleStage {
                name: "Source locked",
                explanation: "The source seal was locked on-chain.",
                rank: 30,
            },
            TransferPhase::AwaitingFinality { .. } => LifecycleStage {
                name: "Awaiting source finality",
                explanation: "The lock exists, but finality has not yet been established.",
                rank: 40,
            },
            TransferPhase::FinalityReached { .. } => LifecycleStage {
                name: "Source finality reached",
                explanation: "The runtime observed source finality.",
                rank: 50,
            },
            TransferPhase::ProofBuilt { .. } => LifecycleStage {
                name: "Proof built",
                explanation: "The runtime built an inclusion and finality proof bundle.",
                rank: 60,
            },
            TransferPhase::ProofVerified { .. } => LifecycleStage {
                name: "Proof verified",
                explanation: "The canonical verifier reported the assurance shown below.",
                rank: 70,
            },
            TransferPhase::SubmittedToDestination => LifecycleStage {
                name: "Submitted to destination",
                explanation: "The runtime submitted the verified proof to the destination chain.",
                rank: 80,
            },
            TransferPhase::Settled { .. } => LifecycleStage {
                name: "Settled",
                explanation: "The destination materialization was confirmed by the runtime.",
                rank: 90,
            },
            TransferPhase::RecoveryRequired { .. } => LifecycleStage {
                name: "Recovery required",
                explanation: "The runtime journal requires an allowed recovery action.",
                rank: 100,
            },
            TransferPhase::Failed { .. } => LifecycleStage {
                name: "Failed",
                explanation: "The runtime reported a terminal failure.",
                rank: 100,
            },
        }
    }
}

/// The journal name of a phase.
pub fn phase_journal(phase: &TransferPhase) -> (s: &'static str)
    ensures
        s@ == phase_journal_name(*phase),
{
    match phase {
        TransferPhase::Admitted => "Admitted",
        TransferPhase::SealOwnershipVerified => "SealOwnershipVerified",
        TransferPhase::Locked { .. } => "Locked",
        TransferPhase::AwaitingFinality { .. } => "AwaitingFinality",
        TransferPhase::FinalityReached { .. } => "FinalityReached",
        TransferPhase::ProofBuilt { .. } => "ProofBuilt",
        TransferPhase::ProofVerified { .. } => "ProofVerified",
        TransferPhase::SubmittedToDestination => "SubmittedToDestination",
        TransferPhase::Settled { .. } => "Settled",
        TransferPhase::RecoveryRequired { .. } => "RecoveryRequired",
        TransferPhase::Failed { .. } => "Failed",
    }
}


// ------------------------------------------------------------------------
// Small value helpers
// ------------------------------------------------------------------------

/// The text of an optional string.
pub open spec fn opt_text(o: Option<String>) -> Option<Seq<char>> {
    match o {
        Some(s) => Some(s@),
        None => None,
    }
}

/// The text of an optional static string.
pub open spec fn opt_static_text(o: Option<&'static str>) -> Option<Seq<char>> {
    match o {
        Some(s) => Some(s@),
        None => None,
    }
}

fn clone_opt_string(o: &Option<String>) -> (r: Option<String>)
    ensures
        opt_text(r) == opt_text(*o),
{
    match o {
        Some(s) => Some(s.clone()),
        None => None,
    }
}

fn opt_string_eq(a: &Option<String>, b: &Option<String>) -> (r: bool)
    ensures
        r == (opt_text(*a) == opt_text(*b)),
{
    match (a, b) {
        (Some(x), Some(y)) => x.eq(y),
        (None, None) => true,
        _ => false,
    }
}

fn copy_actions(v: &Vec<NextAction>) -> (r: Vec<NextAction>)
    ensures
        r@ == v@,
{
    let mut r: Vec<NextAction> = Vec::new();
    let mut i: usize = 0;
    while i < v.len()
        invariant
            i <= v.len(),
            r@ == v@.subrange(0, i as int),
        decreases v.len() - i,
    {
        r.push(v[i]);
        i = i + 1;
    }
    r
}

fn copy_bytes(v: &Vec<u8>) -> (r: Vec<u8>)
    ensures
        r@ == v@,
{
    let mut r: Vec<u8> = Vec::new();
    let mut i: usize = 0;
    while i < v.len()
        invariant
            i <= v.len(),
            r@ == v@.subrange(0, i as int),
        decreases v.len() - i,
    {
        r.push(v[i]);
        i = i + 1;
    }
    r
}

fn bytes_eq(a: &Vec<u8>, b: &Vec<u8>) -> (r: bool)
    ensures
        r == (a@ == b@),
{
    if a.len() != b.len() {
        return false;
    }
    let mut i: usize = 0;
    while i < a.len()
        invariant
            i <= a.len(),
            a.len() == b.len(),
            a@.subrange(0, i as int) == b@.subrange(0, i as int),
        decreases a.len() - i,
    {
        if a[i] != b[i] {
            assert(a@[i as int] != b@[i as int]);
            return false;
        }
        assert(a@.subrange(0, i + 1) == a@.subrange(0, i as int).push(a@[i as int]));
        assert(b@.subrange(0, i + 1) == b@.subrange(0, i as int).push(b@[i as int]));
        i = i + 1;
    }
    assert(a@ == a@.subrange(0, a.len() as int));
    assert(b@ == b@.subrange(0, b.len() as int));
    true
}

/// Two journal phases are the same phase with the same contents.
pub open spec fn same_phase(a: TransferPhase, b: TransferPhase) -> bool {
    match (a, b) {
        (TransferPhase::Admitted, TransferPhase::Admitted) => true,
        (TransferPhase::SealOwnershipVerified, TransferPhase::SealOwnershipVerified) => true,
        (TransferPhase::Locked { lock_tx_hash: x }, TransferPhase::Locked { lock_tx_hash: y }) => x@ == y@,
        (TransferPhase::AwaitingFinality { evidence: x }, TransferPhase::AwaitingFinality { evidence: y }) => x == y,
        (TransferPhase::FinalityReached { evidence: x }, TransferPhase::FinalityReached { evidence: y }) => x == y,
        (TransferPhase::ProofBuilt { proof_hash: x }, TransferPhase::ProofBuilt { proof_hash: y }) => x@ == y@,
        (TransferPhase::ProofVerified { assurance: x }, TransferPhase::ProofVerified { assurance: y }) => x == y,
        (TransferPhase::SubmittedToDestination, TransferPhase::SubmittedToDestination) => true,
        (TransferPhase::Settled { mint_tx_hash: x }, TransferPhase::Settled { mint_tx_hash: y }) => x@ == y@,
        (TransferPhase::RecoveryRequired { reason: x }, TransferPhase::RecoveryRequired { reason: y }) => x@ == y@,
        (TransferPhase::Failed { code: c1, message: m1 }, TransferPhase::Failed { code: c2, message: m2 }) =>
            c1@ == c2@ && m1@ == m2@,
        _ => false,
    }
}

/// Compares two journal phases by contents.
pub fn phase_eq(a: &TransferPhase, b: &TransferPhase) -> (r: bool)
    ensures
        r == same_phase(*a, *b),
{
    match (a, b) {
        (TransferPhase::Admitted, TransferPhase::Admitted) => true,
        (TransferPhase::SealOwnershipVerified, TransferPhase::SealOwnershipVerified) => true,
        (TransferPhase::Locked { lock_tx_hash: x }, TransferPhase::Locked { lock_tx_hash: y }) => x.eq(y),
        (TransferPhase::AwaitingFinality { evidence: x }, TransferPhase::AwaitingFinality { evidence: y }) => x == y,
        (TransferPhase::FinalityReached { evidence: x }, TransferPhase::FinalityReached { evidence: y }) => x == y,
        (TransferPhase::ProofBuilt { proof_hash: x }, TransferPhase::ProofBuilt { proof_hash: y }) => bytes_eq(x, y),
        (TransferPhase::ProofVerified { assurance: x }, TransferPhase::ProofVerified { assurance: y }) => x == y,
        (TransferPhase::SubmittedToDestination, TransferPhase::SubmittedToDestination) => true,
        (TransferPhase::Settled { mint_tx_hash: x }, TransferPhase::Settled { mint_tx_hash: y }) => x.eq(y),
        (TransferPhase::RecoveryRequired { reason: x }, TransferPhase::RecoveryRequired { reason: y }) => x.eq(y),
        (TransferPhase::Failed { code: c1, message: m1 }, TransferPhase::Failed { code: c2, message: m2 }) =>
            c1.eq(c2) && m1.eq(m2),
        _ => false,
    }
}

fn clone_phase(p: &TransferPhase) -> (r: TransferPhase)
    ensures
        same_phase(r, *p),
{
    match p {
        TransferPhase::Admitted => TransferPhase::Admitted,
        TransferPhase::SealOwnershipVerified => TransferPhase::SealOwnershipVerified,
        TransferPhase::Locked { lock_tx_hash } => TransferPhase::Locked { lock_tx_hash: lock_tx_hash.clone() },
        TransferPhase::AwaitingFinality { evidence } => TransferPhase::AwaitingFinality { evidence: *evidence },
        TransferPhase::FinalityReached { evidence } => TransferPhase::FinalityReached { evidence: *evidence },
        TransferPhase::ProofBuilt { proof_hash } => TransferPhase::ProofBuilt { proof_hash: copy_bytes(proof_hash) },
        TransferPhase::ProofVerified { assurance } => TransferPhase::ProofVerified { assurance: *assurance },
        TransferPhase::SubmittedToDestination => TransferPhase::SubmittedToDestination,
        TransferPhase::Settled { mint_tx_hash } => TransferPhase::Settled { mint_tx_hash: mint_tx_hash.clone() },
        TransferPhase::RecoveryRequired { reason } => TransferPhase::RecoveryRequired { reason: reason.clone() },
        TransferPhase::Failed { code, message } => TransferPhase::Failed { code: code.clone(), message: message.clone() },
    }
}

// ------------------------------------------------------------------------
// Artifacts
// ------------------------------------------------------------------------

/// Hex text of a canonical encoding, when there is one.
pub open spec fn artifact_hex(encoding: Option<Seq<u8>>) -> Option<Seq<char>> {
    match encoding {
        Some(b) => Some(hex_lower(b)),
        None => None,
    }
}

/// Hex text of the SHA-256 digest of a canonical encoding, when there is one.
pub open spec fn artifact_digest_hex(encoding: Option<Seq<u8>>) -> Option<Seq<char>> {
    match encoding {
        Some(b) => Some(hex_lower(sha256(b))),
        None => None,
    }
}

/// The bytes of an optional encoding.
pub open spec fn opt_bytes(o: Option<Vec<u8>>) -> Option<Seq<u8>> {
    match o {
        Some(b) => Some(b@),
        None => None,
    }
}

/// The exported form of a runtime artifact: the hex text of its exact
/// canonical encoding and the hex text of that encoding's SHA-256 digest.
/// `encoding` is the runtime's canonical encoding, or `None` where the
/// runtime could not encode the artifact.
pub fn encoded_artifact(encoding: &Option<Vec<u8>>) -> (r: (Option<String>, Option<String>))
    ensures
        opt_text(r.0) == artifact_hex(opt_bytes(*encoding)),
        opt_text(r.1) == artifact_digest_hex(opt_bytes(*encoding)),
{
    match encoding {
        Some(bytes) => {
            let digest = sha256_digest(bytes.as_slice());
            (Some(hex_encode(bytes.as_slice())), Some(hex_encode(&digest)))
        },
        None => (None, None),
    }
}

// ------------------------------------------------------------------------
// The lifecycle projection
// ------------------------------------------------------------------------

/// A presentation projection of one runtime transfer artifact.
#[derive(Clone, Debug, PartialEq, Eq)]
pub struct TransferLifecycleView {
    pub transfer_id: Option<String>,
    pub sanad_id: String,
    pub mode: TransferMode,
    pub stage: LifecycleStage,
    pub journal_phase: String,
    /// The journal phase an event projection was built from; `None` for a
    /// receipt projection.
    pub phase: Option<TransferPhase>,
    pub observed_at: u64,
    pub source_finality: Option<EvidenceView>,
    /// `None` means the runtime did not report a destination finality
    /// observation; it is never inferred from a mint hash.
    pub destination_finality: Option<EvidenceView>,
    pub verification_assurance: Option<VerificationAssuranceWire>,
    pub verification_provenance: Option<&'static str>,
    pub failure_reason: Option<String>,
    pub replay_id: Option<String>,
    pub lock_tx_hash: Option<String>,
    pub mint_tx_hash: Option<String>,
    pub proof_hash: Option<String>,
    pub invoice_id: Option<String>,
    pub consignment_digest: Option<String>,
    /// Exact versioned wire artifact from which this projection was built.
    pub artifact_kind: &'static str,
    pub artifact_cbor_hex: Option<String>,
    pub artifact_sha256: Option<String>,
    pub permitted_actions: Vec<NextAction>,
}

/// The source-finality summary an event projection carries.
pub open spec fn event_source_finality(v: Option<EvidenceView>, p: TransferPhase, runtime_final: bool) -> bool {
    match p {
        TransferPhase::AwaitingFinality { evidence } => v matches Some(ev) && is_evidence_view(ev, evidence, runtime_final),
        TransferPhase::FinalityReached { evidence } => v matches Some(ev) && is_evidence_view(ev, evidence, runtime_final),
        _ => v is None,
    }
}

/// The failure reason an event projection carries.
pub open spec fn event_failure_reason(p: TransferPhase) -> Option<Seq<char>> {
    match p {
        TransferPhase::RecoveryRequired { reason } => Some(reason@),
        TransferPhase::Failed { code, message } => Some(code@ + ": "@ + message@),
        _ => None,
    }
}

/// `v` is the projection of event `e`, whose canonical encoding is `encoding`
/// and whose evidence the runtime judges final exactly when `runtime_final`.
pub open spec fn is_event_view(
    v: TransferLifecycleView,
    e: TransferEvent,
    encoding: Option<Seq<u8>>,
    runtime_final: bool,
) -> bool {
    &&& opt_text(v.transfer_id) == Some(e.transfer_id@)
    &&& v.sanad_id@ == e.sanad_id@
    &&& v.mode == e.mode
    &&& v.stage.name@ == phase_stage_name(e.phase)
    &&& v.stage.explanation@ == phase_stage_explanation(e.phase)
    &&& v.stage.rank == phase_rank(e.phase)
    &&& v.journal_phase@ == phase_journal_name(e.phase)
    &&& v.phase matches Some(p) && same_phase(p, e.phase)
    &&& v.observed_at == e.observed_at
    &&& event_source_finality(v.source_finality, e.phase, runtime_final)
    &&& v.destination_finality is None
    &&& v.verification_assurance == (match e.phase {
        TransferPhase::ProofVerified { assurance } => Some(assurance),
        _ => None,
    })
    &&& opt_static_text(v.verification_provenance) == (match e.phase {
        TransferPhase::ProofVerified { .. } => Some("canonical verifier"@),
        _ => None,
    })
    &&& opt_text(v.failure_reason) == event_failure_reason(e.phase)
    &&& opt_text(v.replay_id) == opt_text(e.replay_id)
    &&& opt_text(v.lock_tx_hash) == (match e.phase {
        TransferPhase::Locked { lock_tx_hash } => Some(lock_tx_hash@),
        _ => None,
    })
    &&& opt_text(v.mint_tx_hash) == (match e.phase {
        TransferPhase::Settled { mint_tx_hash } => Some(mint_tx_hash@),
        _ => None,
    })
    &&& opt_text(v.proof_hash) == (match e.phase {
        TransferPhase::ProofBuilt { proof_hash } => Some(hex_lower(proof_hash@)),
        _ => None,
    })
    &&& v.invoice_id is None
    &&& v.consignment_digest is None
    &&& v.artifact_kind@ == "runtime event"@
    &&& opt_text(v.artifact_cbor_hex) == artifact_hex(encoding)
    &&& opt_text(v.artifact_sha256) == artifact_digest_hex(encoding)
    &&& v.permitted_actions@ == e.next_actions@
}

/// Whether a projection admits event `e`: same transfer, not stale, not
/// regressive, and not a duplicate of the journal entry it already shows.
pub open spec fn admits(v: TransferLifecycleView, e: TransferEvent) -> bool {
    &&& opt_text(v.transfer_id) == Some(e.transfer_id@)
    &&& e.observed_at >= v.observed_at
    &&& phase_rank(e.phase) >= v.stage.rank
    &&& !(e.observed_at == v.observed_at && phase_rank(e.phase) == v.stage.rank
        && v.journal_phase@ == phase_journal_name(e.phase)
        && (v.phase matches Some(p) && same_phase(p, e.phase)))
}

impl TransferLifecycleView {
    /// Projects a runtime event.  `encoding` is the runtime's canonical
    /// encoding of the event (or `None` where it could not be encoded), and
    /// `runtime_final` the runtime's finality verdict on the evidence the
    /// event carries.
    pub fn from_event(event: &TransferEvent, encoding: &Option<Vec<u8>>, runtime_final: bool) -> (v: Self)
        ensures
            is_event_view(v, *event, opt_bytes(*encoding), runtime_final),
    {
        let (artifact_cbor_hex, artifact_sha256) = encoded_artifact(encoding);
        let mut view = TransferLifecycleView {
            transfer_id: Some(event.transfer_id.clone()),
            sanad_id: event.sanad_id.clone(),
            mode: event.mode,
            stage: LifecycleStage::from_phase(&event.phase),
            journal_phase: owned(phase_journal(&event.phase)),
            phase: Some(clone_phase(&event.phase)),
            observed_at: event.observed_at,
            source_finality: None,
            destination_finality: None,
            verification_assurance: None,
            verification_provenance: None,
            failure_reason: None,
            replay_id: clone_opt_string(&event.replay_id),
            lock_tx_hash: None,
            mint_tx_hash: None,
            proof_hash: None,
            invoice_id: None,
            consignment_digest: None,
            artifact_kind: "runtime event",
            artifact_cbor_hex,
            artifact_sha256,
            permitted_actions: copy_actions(&event.next_actions),
        };
        match &event.phase {
            TransferPhase::Locked { lock_tx_hash } => {
                view.lock_tx_hash = Some(lock_tx_hash.clone());
            },
            TransferPhase::AwaitingFinality { evidence } => {
                view.source_finality = Some(EvidenceView::from_evidence(evidence, runtime_final));
            },
            TransferPhase::FinalityReached { evidence } => {
                view.source_finality = Some(EvidenceView::from_evidence(evidence, runtime_final));
            },
            TransferPhase::ProofBuilt { proof_hash } => {
                view.proof_hash = Some(hex_encode(proof_hash.as_slice()));
            },
            TransferPhase::ProofVerified { assurance } => {
                view.verification_assurance = Some(*assurance);
                view.verification_provenance = Some("canonical verifier");
            },
            TransferPhase::Settled { mint_tx_hash } => {
                view.mint_tx_hash = Some(mint_tx_hash.clone());
            },
            TransferPhase::RecoveryRequired { reason } => {
                view.failure_reason = Some(reason.clone());
            },
            TransferPhase::Failed { code, message } => {
                let mut s = code.clone();
                s.append(": ");
                s.append(message.as_str());
                view.failure_reason = Some(s);
            },
            _ => {},
        }
        view
    }

    /// Applies a runtime event without letting duplicate, stale, or
    /// regressive events move the user-visible lifecycle backwards.
    pub fn apply_event(&mut self, event: &TransferEvent, encoding: &Option<Vec<u8>>, runtime_final: bool)
        ensures
            admits(*old(self), *event) ==> is_event_view(*final(self), *event, opt_bytes(*encoding), runtime_final),
            !admits(*old(self), *event) ==> *final(self) == *old(self),
            final(self).observed_at >= old(self).observed_at,
            final(self).stage.rank >= old(self).stage.rank,
            opt_text(final(self).transfer_id) == opt_text(old(self).transfer_id),
    {
        let incoming = Self::from_event(event, encoding, runtime_final);
        if !opt_string_eq(&self.transfer_id, &incoming.transfer_id) || incoming.observed_at < self.observed_at
            || incoming.stage.rank < self.stage.rank {
            return;
        }
        let same_journal = match (&self.phase, &incoming.phase) {
            (Some(p), Some(q)) => phase_eq(p, q),
            _ => false,
        };
        if incoming.observed_at == self.observed_at && incoming.stage.rank == self.stage.rank
            && self.journal_phase == incoming.journal_phase && same_journal {
            return;
        }
        *self = incoming;
    }

    /// Whether the runtime permits resuming this transfer.
    pub fn allows_resume(&self) -> (b: bool)
        ensures
            b == self.permitted_actions@.contains(NextAction::Resume),
    {
        contains_action(&self.permitted_actions, NextAction::Resume)
    }

    /// Whether the runtime permits retrying this transfer.
    pub fn allows_retry(&self) -> (b: bool)
        ensures
            b == self.permitted_actions@.contains(NextAction::Retry),
    {
        contains_action(&self.permitted_actions, NextAction::Retry)
    }
}

/// The name of a transfer mode.
pub open spec fn mode_name(m: TransferMode) -> Seq<char> {
    match m {
        TransferMode::Materialize => "Materialize"@,
        TransferMode::Send => "Send"@,
        TransferMode::Invoice => "Invoice"@,
        TransferMode::Accept => "Accept"@,
    }
}

fn mode_text(m: TransferMode) -> (s: &'static str)
    ensures
        s@ == mode_name(m),
{
    match m {
        TransferMode::Materialize => "Materialize",
        TransferMode::Send => "Send",
        TransferMode::Invoice => "Invoice",
        TransferMode::Accept => "Accept",
    }
}

/// The fields every receipt projection shares.
pub open spec fn receipt_view_common(
    v: TransferLifecycleView,
    r: TransferReceipt,
    encoding: Option<Seq<u8>>,
) -> bool {
    &&& v.mode == r.mode
    &&& v.stage.rank == 90
    &&& v.phase is None
    &&& v.observed_at == r.emitted_at
    &&& v.destination_finality is None
    &&& v.failure_reason is None
    &&& v.proof_hash is None
    &&& v.artifact_kind@ == "runtime receipt"@
    &&& opt_text(v.artifact_cbor_hex) == artifact_hex(encoding)
    &&& opt_text(v.artifact_sha256) == artifact_digest_hex(encoding)
    &&& v.permitted_actions@ == r.next_actions@
}

/// `v` is the projection of receipt `r`, whose canonical encoding is
/// `encoding` and whose evidence the runtime judges final exactly when
/// `runtime_final`.
pub open spec fn is_receipt_view(
    v: TransferLifecycleView,
    r: TransferReceipt,
    encoding: Option<Seq<u8>>,
    runtime_final: bool,
) -> bool {
    &&& receipt_view_common(v, r, encoding)
    &&& match r.body {
        ReceiptBody::Materialize(body) => {
            &&& opt_text(v.transfer_id) == Some(body.transfer_id@)
            &&& v.sanad_id@ == body.sanad_id@
            &&& v.stage.name@ == "Settled"@
            &&& v.stage.explanation@ == "The destination materialization was confirmed by the runtime."@
            &&& v.journal_phase@ == "Settled (receipt)"@
            &&& v.source_finality matches Some(ev) && is_evidence_view(ev, body.finality, runtime_final)
            &&& v.verification_assurance == (match body.verification {
                VerificationRecord::Verified { assurance } => Some(assurance),
                _ => None,
            })
            &&& opt_static_text(v.verification_provenance) == Some(match body.verification {
                VerificationRecord::Verified { .. } => "canonical verifier"@,
                VerificationRecord::JournalRecorded => "runtime journal; not re-verified on this execution"@,
                VerificationRecord::NotYetVerified => "not yet verified"@,
            })
            &&& opt_text(v.replay_id) == Some(body.replay_id@)
            &&& opt_text(v.lock_tx_hash) == Some(body.lock_tx_hash@)
            &&& opt_text(v.mint_tx_hash) == (if body.mint_tx_hash@.len() == 0 { None } else { Some(body.mint_tx_hash@) })
            &&& v.invoice_id is None
            &&& v.consignment_digest is None
        },
        ReceiptBody::Send(body) => {
            &&& opt_text(v.transfer_id) == Some(body.transfer_id@)
            &&& v.sanad_id@ == body.sanad_id@
            &&& v.stage.name@ == "Consignment emitted"@
            &&& v.stage.explanation@ == "The interactive send completed off-chain; no destination-chain submission occurred."@
            &&& v.journal_phase@ == "Send receipt"@
            &&& v.source_finality is None
            &&& v.verification_assurance is None
            &&& v.verification_provenance is None
            &&& v.replay_id is None
            &&& v.lock_tx_hash is None
            &&& v.mint_tx_hash is None
            &&& opt_text(v.invoice_id) == Some(hex_lower(body.invoice_id@))
            &&& opt_text(v.consignment_digest) == Some(hex_lower(body.consignment_digest@))
        },
        ReceiptBody::Invoice(body) => {
            &&& opt_text(v.transfer_id) == opt_text(r.transfer_id)
            &&& v.sanad_id@ == Seq::<char>::empty()
            &&& v.stage.name@ == "Receipt issued"@
            &&& v.stage.explanation@ == "The runtime returned the mode-specific receipt."@
            &&& v.journal_phase@ == mode_name(r.mode) + " receipt"@
            &&& v.source_finality is None
            &&& v.verification_assurance is None
            &&& v.verification_provenance is None
            &&& v.replay_id is None
            &&& v.lock_tx_hash is None
            &&& v.mint_tx_hash is None
            &&& opt_text(v.invoice_id) == Some(hex_lower(body.invoice_id@))
            &&& v.consignment_digest is None
        },
        ReceiptBody::Accept(body) => {
            &&& v.transfer_id is None
            &&& v.sanad_id@ == body.sanad_id@
            &&& v.stage.name@ == "Consignment accepted"@
            &&& v.stage.explanation@ == "The recipient-side runtime validation recorded ownership without a destination-chain submission."@
            &&& v.journal_phase@ == "Accept receipt"@
            &&& v.source_finality matches Some(ev) && is_evidence_view(ev, body.finality, runtime_final)
            &&& v.verification_assurance == Some(body.assurance)
            &&& opt_static_text(v.verification_provenance) == Some("canonical verifier"@)
            &&& v.replay_id is None
            &&& v.lock_tx_hash is None
            &&& v.mint_tx_hash is None
            &&& v.invoice_id is None
            &&& v.consignment_digest is None
        },
    }
}

impl TransferLifecycleView {
    /// Projects a runtime receipt.  `encoding` is the runtime's canonical
    /// encoding of the receipt (or `None`), and `runtime_final` the runtime's
    /// finality verdict on the evidence the receipt carries.
    pub fn from_receipt(receipt: &TransferReceipt, encoding: &Option<Vec<u8>>, runtime_final: bool) -> (v: Self)
        ensures
            is_receipt_view(v, *receipt, opt_bytes(*encoding), runtime_final),
    {
        let (artifact_cbor_hex, artifact_sha256) = encoded_artifact(encoding);
        match &receipt.body {
            ReceiptBody::Materialize(body) => {
                let (assurance, provenance): (Option<VerificationAssuranceWire>, &'static str) = match body.verification {
                    VerificationRecord::Verified { assurance } => (Some(assurance), "canonical verifier"),
                    VerificationRecord::JournalRecorded => (None, "runtime journal; not re-verified on this execution"),
                    VerificationRecord::NotYetVerified => (None, "not yet verified"),
                };
                let mint_tx_hash = if body.mint_tx_hash.as_str().is_empty() {
                    None
                } else {
                    Some(body.mint_tx_hash.clone())
                };
                TransferLifecycleView {
                    transfer_id: Some(body.transfer_id.clone()),
                    sanad_id: body.sanad_id.clone(),
                    mode: receipt.mode,
                    stage: LifecycleStage {
                        name: "Settled",
                        explanation: "The destination materialization was confirmed by the runtime.",
                        rank: 90,
                    },
                    journal_phase: owned("Settled (receipt)"),
                    phase: None,
                    observed_at: receipt.emitted_at,
                    source_finality: Some(EvidenceView::from_evidence(&body.finality, runtime_final)),
                    destination_finality: None,
                    verification_assurance: assurance,
                    verification_provenance: Some(provenance),
                    failure_reason: None,
                    replay_id: Some(body.replay_id.clone()),
                    lock_tx_hash: Some(body.lock_tx_hash.clone()),
                    mint_tx_hash,
                    proof_hash: None,
                    invoice_id: None,
                    consignment_digest: None,
                    artifact_kind: "runtime receipt",
                    artifact_cbor_hex,
                    artifact_sha256,
                    permitted_actions: copy_actions(&receipt.next_actions),
                }
            },
            ReceiptBody::Send(body) => TransferLifecycleView {
                transfer_id: Some(body.transfer_id.clone()),
                sanad_id: body.sanad_id.clone(),
                mode: receipt.mode,
                stage: LifecycleStage {
                    name: "Consignment emitted",
                    explanation: "The interactive send completed off-chain; no destination-chain submission occurred.",
                    rank: 90,
                },
                journal_phase: owned("Send receipt"),
                phase: None,
                observed_at: receipt.emitted_at,
                source_finality: None,
                destination_finality: None,
                verification_assurance: None,
                verification_provenance: None,
                failure_reason: None,
                replay_id: None,
                lock_tx_hash: None,
                mint_tx_hash: None,
                proof_hash: None,
                invoice_id: Some(hex_encode(body.invoice_id.as_slice())),
                consignment_digest: Some(hex_encode(body.consignment_digest.as_slice())),
                artifact_kind: "runtime receipt",
                artifact_cbor_hex,
                artifact_sha256,
                permitted_actions: copy_actions(&receipt.next_actions),
            },
            ReceiptBody::Invoice(body) => {
                let mut journal = owned(mode_text(receipt.mode));
                journal.append(" receipt");
                TransferLifecycleView {
                    transfer_id: clone_opt_string(&receipt.transfer_id),
                    sanad_id: String::new(),
                    mode: receipt.mode,
                    stage: LifecycleStage {
                        name: "Receipt issued",
                        explanation: "The runtime returned the mode-specific receipt.",
                        rank: 90,
                    },
                    journal_phase: journal,
                    phase: None,
                    observed_at: receipt.emitted_at,
                    source_finality: None,
                    destination_finality: None,
                    verification_assurance: None,
                    verification_provenance: None,
                    failure_reason: None,
                    replay_id: None,
                    lock_tx_hash: None,
                    mint_tx_hash: None,
                    proof_hash: None,
                    invoice_id: Some(hex_encode(body.invoice_id.as_slice())),
                    consignment_digest: None,
                    artifact_kind: "runtime receipt",
                    artifact_cbor_hex,
                    artifact_sha256,
                    permitted_actions: copy_actions(&receipt.next_actions),
                }
            },
            ReceiptBody::Accept(body) => TransferLifecycleView {
                transfer_id: None,
                sanad_id: body.sanad_id.clone(),
                mode: receipt.mode,
                stage: LifecycleStage {
                    name: "Consignment accepted",
                    explanation: "The recipient-side runtime validation recorded ownership without a destination-chain submission.",
                    rank: 90,
                },
                journal_phase: owned("Accept receipt"),
                phase: None,
                observed_at: receipt.emitted_at,
                source_finality: Some(EvidenceView::from_evidence(&body.finality, runtime_final)),
                destination_finality: None,
                verification_assurance: Some(body.assurance),
                verification_provenance: Some("canonical verifier"),
                failure_reason: None,
                replay_id: None,
                lock_tx_hash: None,
                mint_tx_hash: None,
                proof_hash: None,
                invoice_id: None,
                consignment_digest: None,
                artifact_kind: "runtime receipt",
                artifact_cbor_hex,
                artifact_sha256,
                permitted_actions: copy_actions(&receipt.next_actions),
            },
        }
    }
}

/// A compact projection used by pages that only show the phase and the
/// permitted actions.
#[derive(Clone, Debug, PartialEq, Eq)]
pub struct TransferViewModel {
    pub phase: String,
    pub permitted_actions: Vec<NextAction>,
}

impl TransferViewModel {
    /// The compact projection of a receipt: always settled.
    pub fn from_receipt(receipt: &TransferReceipt) -> (m: Self)
        ensures
            m.phase@ == "settled"@,
            m.permitted_actions@ == receipt.next_actions@,
    {
        TransferViewModel { phase: owned("settled"), permitted_actions: copy_actions(&receipt.next_actions) }
    }

    /// The compact projection of an event: its journal phase.
    pub fn from_event(event: &TransferEvent) -> (m: Self)
        ensures
            m.phase@ == phase_journal_name(event.phase),
            m.permitted_actions@ == event.next_actions@,
    {
        TransferViewModel {
            phase: owned(phase_journal(&event.phase)),
            permitted_actions: copy_actions(&event.next_actions),
        }
    }
}

fn contains_action(actions: &Vec<NextAction>, wanted: NextAction) -> (b: bool)
    ensures
        b == actions@.contains(wanted),
{
    let mut i: usize = 0;
    while i < actions.len()
        invariant
            i <= actions.len(),
            forall|j: int| 0 <= j < i ==> actions@[j] != wanted,
        decreases actions.len() - i,
    {
        if actions[i] == wanted {
            assert(actions@[i as int] == wanted);
            return true;
        }
        i = i + 1;
    }
    false
}

/// A projection built from an event never admits that same event again:
/// re-delivering an event is idempotent.
pub proof fn lemma_event_view_ignores_its_event(
    v: TransferLifecycleView,
    e: TransferEvent,
    encoding: Option<Seq<u8>>,
    runtime_final: bool,
)
    requires
        is_event_view(v, e, encoding, runtime_final),
    ensures
        !admits(v, e),
{
}

/// Lifecycle projections only move forward: whatever event is applied, the
/// observation time and the stage rank never decrease and the transfer never
/// changes.
pub proof fn lemma_apply_is_monotone(
    before: TransferLifecycleView,
    after: TransferLifecycleView,
    e: TransferEvent,
    encoding: Option<Seq<u8>>,
    runtime_final: bool,
)
    requires
        admits(before, e) ==> is_event_view(after, e, encoding, runtime_final),
        !admits(before, e) ==> after == before,
    ensures
        after.observed_at >= before.observed_at,
        after.stage.rank >= before.stage.rank,
        opt_text(after.transfer_id) == opt_text(before.transfer_id),
{
}

/// The position of a phase along the journal's forward path, from admission
/// to settlement; recovery and failure leave the path.
pub open spec fn journal_step(p: TransferPhase) -> Option<nat> {
    match p {
        TransferPhase::Admitted => Some(0),
        TransferPhase::SealOwnershipVerified => Some(1),
        TransferPhase::Locked { .. } => Some(2),
        TransferPhase::AwaitingFinality { .. } => Some(3),
        TransferPhase::FinalityReached { .. } => Some(4),
        TransferPhase::ProofBuilt { .. } => Some(5),
        TransferPhase::ProofVerified { .. } => Some(6),
        TransferPhase::SubmittedToDestination => Some(7),
        TransferPhase::Settled { .. } => Some(8),
        TransferPhase::RecoveryRequired { .. } => None,
        TransferPhase::Failed { .. } => None,
    }
}

/// Stage ranks strictly increase along the journal's forward path
/// (admitted, seal ownership verified, locked, awaiting finality, finality
/// reached, proof built, proof verified, submitted, settled), and recovery
/// and failure rank above every step of it.
pub proof fn law_stage_ranks_follow_the_journal(p: TransferPhase, q: TransferPhase)
    ensures
        journal_step(p) matches Some(i) && journal_step(q) matches Some(j) && i < j
            ==> phase_rank(p) < phase_rank(q),
        journal_step(p) is Some && journal_step(q) is None ==> phase_rank(p) < phase_rank(q),
{
}

/// A settled projection ignores every later event of a phase earlier on the
/// journal's forward path: applying it leaves the view as it is.
pub proof fn law_settled_view_ignores_earlier_phases(
    v: TransferLifecycleView,
    settled: TransferEvent,
    encoding: Option<Seq<u8>>,
    runtime_final: bool,
    e: TransferEvent,
)
    requires
        settled.phase is Settled,
        is_event_view(v, settled, encoding, runtime_final),
        journal_step(e.phase) is Some,
        !(e.phase is Settled),
    ensures
        !admits(v, e),
{
    law_stage_ranks_follow_the_journal(e.phase, settled.phase);
}

} // verus!
