//! Offline inspection of a canonical proof bundle.
//!
//! The page is deliberately not an acceptance authority: it decodes the
//! bundle and runs the canonical verifier without trusted signers, live seal
//! state or observed finality, so its result is never a success.  Decoding
//! the canonical bundle and running the verifier happen between the two
//! steps below.

use vstd::prelude::*;
use crate::codec::{hex_decode, hex_decoded, hex_error_message};
use crate::ids::{hex_refusal, strip_0x, without_0x};
use crate::text::{char_range, concat2, concat3, owned, str_eq, trim, trimmed};

verus! {

/// The largest proof input inspected, in bytes: 10 MiB.
pub const MAX_CANONICAL_PROOF_INPUT_BYTES: usize = 10485760;

/// One step of an inspection.
#[derive(Clone, Debug, PartialEq, Eq)]
pub struct VerificationStep {
    pub name: String,
    pub passed: bool,
    pub details: String,
}

/// The result of an inspection.
#[derive(Clone, Debug, PartialEq, Eq)]
pub struct VerificationResult {
    pub success: bool,
    pub steps: Vec<VerificationStep>,
    pub summary: String,
}

/// The first step's name.
pub open spec fn decode_step_name() -> Seq<char> {
    "Decode Canonical Proof Bundle"@
}

/// Where an inspection stands after reading its input.
#[derive(Clone, Debug, PartialEq, Eq)]
pub enum OfflineInspection {
    /// The input was refused; this is the final result.
    Refused(VerificationResult),
    /// The canonical bytes to hand to the canonical decoder.
    Decode(Vec<u8>),
}

/// The text a proof input is decoded from: trimmed, without a leading `0x`.
pub open spec fn proof_hex_text(input: Seq<char>) -> Seq<char> {
    without_0x(trimmed(input))
}

/// `r` refuses the input at the decoding step with `details` and `summary`.
pub open spec fn refused_at_decoding(r: VerificationResult, summary: Seq<char>) -> bool {
    &&& !r.success
    &&& r.steps@.len() == 1
    &&& r.steps@[0].name@ == decode_step_name()
    &&& !r.steps@[0].passed
    &&& r.summary@ == summary
}

/// Reads a proof input: refused when it exceeds the resource limit, before
/// any decoding, or when it is not hexadecimal; otherwise the bytes go on to
/// the canonical decoder.
pub fn perform_offline_verification(input: &str) -> (r: OfflineInspection)
    ensures
        input.len() > MAX_CANONICAL_PROOF_INPUT_BYTES ==> (r matches OfflineInspection::Refused(v)
            && refused_at_decoding(v, "Verification failed: proof input exceeds the resource limit."@)
            && v.steps@[0].details@ == "Proof input exceeds the resource limit of 10 MiB before decoding."@),
        input.len() <= MAX_CANONICAL_PROOF_INPUT_BYTES ==> match hex_decoded(proof_hex_text(input@)) {
            None => r matches OfflineInspection::Refused(v)
                && refused_at_decoding(v, "Verification failed: Invalid proof bundle format"@)
                && hex_refusal("Invalid canonical proof: "@ + "Invalid hex-encoded canonical proof: "@,
                    proof_hex_text(input@), v.steps@[0].details@),
            Some(bytes) => r matches OfflineInspection::Decode(b) && b@ == bytes,
        },
{
    if input.len() > MAX_CANONICAL_PROOF_INPUT_BYTES {
        let mut steps: Vec<VerificationStep> = Vec::new();
        steps.push(VerificationStep {
            name: owned("Decode Canonical Proof Bundle"),
            passed: false,
            details: owned("Proof input exceeds the resource limit of 10 MiB before decoding."),
        });
        return OfflineInspection::Refused(VerificationResult {
            success: false,
            steps,
            summary: owned("Verification failed: proof input exceeds the resource limit."),
        });
    }
    let trimmed_input = trim(input);
    let encoded = strip_0x(trimmed_input.as_str());
    match hex_decode(encoded) {
        Ok(bytes) => OfflineInspection::Decode(bytes),
        Err(e) => {
            let v = decoding_refused(concat2("Invalid hex-encoded canonical proof: ", e.as_str()).as_str());
            assert(v.steps@[0].details@
                =~= "Invalid canonical proof: "@ + "Invalid hex-encoded canonical proof: "@ + e@);
            assert(hex_error_message(vstd::utf8::encode_utf8(encoded@), e@));
            OfflineInspection::Refused(v)
        },
    }
}

/// The result of a bundle the canonical decoder refused with `error`.
pub fn decoding_refused(error: &str) -> (r: VerificationResult)
    ensures
        refused_at_decoding(r, "Verification failed: Invalid proof bundle format"@),
        r.steps@[0].details@ == "Invalid canonical proof: "@ + error@,
{
    let mut steps: Vec<VerificationStep> = Vec::new();
    steps.push(VerificationStep {
        name: owned("Decode Canonical Proof Bundle"),
        passed: false,
        details: concat2("Invalid canonical proof: ", error),
    });
    VerificationResult {
        success: false,
        steps,
        summary: owned("Verification failed: Invalid proof bundle format"),
    }
}

/// What the canonical verifier reported on a decoded bundle.
#[derive(Clone, Debug, PartialEq, Eq)]
pub struct CanonicalVerdict {
    pub is_valid: bool,
    pub errors: Vec<String>,
}

/// Errors separated by `; `.
pub open spec fn joined_errors(errors: Seq<String>) -> Seq<char>
    decreases errors.len(),
{
    if errors.len() == 0 {
        Seq::empty()
    } else if errors.len() == 1 {
        errors[0]@
    } else {
        joined_errors(errors.drop_last()) + "; "@ + errors.last()@
    }
}

fn join_errors(errors: &Vec<String>) -> (s: String)
    ensures
        s@ == joined_errors(errors@),
{
    let mut s = String::new();
    let mut i: usize = 0;
    while i < errors.len()
        invariant
            i <= errors@.len(),
            s@ == joined_errors(errors@.subrange(0, i as int)),
        decreases errors.len() - i,
    {
        proof {
            assert(errors@.subrange(0, i + 1).drop_last() =~= errors@.subrange(0, i as int));
        }
        if i > 0 {
            s.append("; ");
        }
        s.append(errors[i].as_str());
        proof {
            if i == 0 {
                assert(s@ =~= joined_errors(errors@.subrange(0, 1)));
            }
        }
        i = i + 1;
    }
    proof {
        assert(errors@.subrange(0, i as int) =~= errors@);
    }
    s
}

/// The details of the canonical verifier's step.
pub open spec fn verifier_details(v: CanonicalVerdict) -> Seq<char> {
    if v.is_valid {
        "The canonical verifier completed. This inspector does not grant transfer acceptance."@
    } else {
        "Rejected by the canonical verifier: "@ + (if v.errors@.len() == 0 {
            "no verifier error was supplied"@
        } else {
            joined_errors(v.errors@)
        })
    }
}

/// The summary of every inspection that reached the verifier.
pub open spec fn not_accepted_summary() -> Seq<char> {
    "Offline inspection does not accept proof bundles. Submit the bundle to the SDK/runtime verification flow before continuing."@
}

/// The result once the canonical verifier ran on a decoded bundle: decoded,
/// the verifier's own finding, and an acceptance step that never passes
/// offline.
pub fn finish_offline_verification(verdict: &CanonicalVerdict) -> (r: VerificationResult)
    ensures
        !r.success,
        r.steps@.len() == 3,
        r.steps@[0].name@ == decode_step_name() && r.steps@[0].passed
            && r.steps@[0].details@ == "Canonical ProofBundle decoded successfully."@,
        r.steps@[1].name@ == "Canonical Verifier"@ && r.steps@[1].passed == verdict.is_valid
            && r.steps@[1].details@ == verifier_details(*verdict),
        r.steps@[2].name@ == "SDK/Runtime Acceptance Required"@ && !r.steps@[2].passed
            && r.steps@[2].details@ == "Not accepted offline: the runtime must establish approved signer binding, chain-native inclusion, observed-tip finality, and seal replay protection."@,
        r.summary@ == not_accepted_summary(),
{
    let mut steps: Vec<VerificationStep> = Vec::new();
    steps.push(VerificationStep {
        name: owned("Decode Canonical Proof Bundle"),
        passed: true,
        details: owned("Canonical ProofBundle decoded successfully."),
    });
    let details = if verdict.is_valid {
        owned("The canonical verifier completed. This inspector does not grant transfer acceptance.")
    } else if verdict.errors.len() == 0 {
        concat2("Rejected by the canonical verifier: ", "no verifier error was supplied")
    } else {
        concat2("Rejected by the canonical verifier: ", join_errors(&verdict.errors).as_str())
    };
    steps.push(VerificationStep { name: owned("Canonical Verifier"), passed: verdict.is_valid, details });
    steps.push(VerificationStep {
        name: owned("SDK/Runtime Acceptance Required"),
        passed: false,
        details: owned("Not accepted offline: the runtime must establish approved signer binding, chain-native inclusion, observed-tip finality, and seal replay protection."),
    });
    VerificationResult {
        success: false,
        steps,
        summary: owned("Offline inspection does not accept proof bundles. Submit the bundle to the SDK/runtime verification flow before continuing."),
    }
}

/// The summary banner's mark and style of a result.
pub fn result_style(result: &VerificationResult) -> (r: (&'static str, &'static str, &'static str))
    ensures
        result.success ==> r.0@ == "✓"@ && r.1@ == "var(--proof-valid)"@
            && r.2@ == "bg-green-900/20 border-green-500/30"@,
        !result.success ==> r.0@ == "✗"@ && r.1@ == "var(--proof-invalid)"@
            && r.2@ == "bg-red-900/20 border-red-500/30"@,
{
    if result.success {
        ("✓", "var(--proof-valid)", "bg-green-900/20 border-green-500/30")
    } else {
        ("✗", "var(--proof-invalid)", "bg-red-900/20 border-red-500/30")
    }
}

/// The largest proof file accepted for upload, in bytes: 10 MiB.
pub const MAX_FILE_SIZE: u64 = 10485760;

/// Why an uploaded proof file is refused before it is read.
#[derive(Clone, Debug, PartialEq, Eq)]
pub enum UploadRefusal {
    /// The file exceeds the size limit.
    TooLarge { size: u64 },
    /// The file's extension, lowercased, is not a proof extension.
    UnsupportedType { extension: String },
}

/// The last `.`-separated segment of a file name; the whole name when it
/// has no `.`.
pub open spec fn last_segment(name: Seq<char>) -> Seq<char>
    decreases name.len(),
{
    if name.len() == 0 {
        name
    } else if name.last() == '.' {
        Seq::empty()
    } else {
        last_segment(name.drop_last()).push(name.last())
    }
}

fn file_extension(name: &str) -> (r: String)
    ensures
        r@ == last_segment(name@),
{
    let n = name.unicode_len();
    let mut start: usize = n;
    assert(name@.subrange(0, n as int) =~= name@);
    assert(last_segment(name@) =~= last_segment(name@.subrange(0, n as int)) + name@.subrange(n as int, n as int));
    while start > 0 && name.get_char(start - 1) != '.'
        invariant
            n == name@.len(),
            start <= n,
            last_segment(name@) == last_segment(name@.subrange(0, start as int)) + name@.subrange(start as int, n as int),
        decreases start,
    {
        proof {
            let pre = name@.subrange(0, start as int);
            assert(pre.drop_last() =~= name@.subrange(0, start - 1));
            assert(name@.subrange(start - 1, n as int) =~= seq![pre.last()] + name@.subrange(start as int, n as int));
            assert(last_segment(pre) == last_segment(pre.drop_last()).push(pre.last()));
        }
        start = start - 1;
    }
    proof {
        let pre = name@.subrange(0, start as int);
        if start > 0 {
            assert(pre.last() == '.');
        } else {
            assert(pre.len() == 0);
        }
    }
    char_range(name, start, n)
}

/// The lowercase form of text under Unicode case mapping.
pub uninterp spec fn lowercase(s: Seq<char>) -> Seq<char>;

/// Wraps `str::to_lowercase`.
#[verifier::external_body]
fn to_lowercase(s: &str) -> (r: String)
    ensures
        r@ == lowercase(s@),
{
    s.to_lowercase()
}

/// Whether a lowercased extension names a proof file.
pub open spec fn proof_extension(ext: Seq<char>) -> bool {
    ext == "proof"@ || ext == "hex"@ || ext == "txt"@
}

/// What checking an upload named `name` of `size` bytes answers.
pub open spec fn upload_outcome(name: Seq<char>, size: u64, r: Result<(), UploadRefusal>) -> bool {
    &&& size > MAX_FILE_SIZE ==> r == Err::<(), UploadRefusal>(UploadRefusal::TooLarge { size })
    &&& size <= MAX_FILE_SIZE ==> match r {
        Ok(()) => proof_extension(lowercase(last_segment(name))),
        Err(UploadRefusal::UnsupportedType { extension }) => extension@ == lowercase(last_segment(name))
            && !proof_extension(extension@),
        Err(UploadRefusal::TooLarge { .. }) => false,
    }
}

/// Checks an uploaded file before reading it: at most 10 MiB, and a
/// `.proof`, `.hex` or `.txt` extension in any case.
pub fn check_upload(file_name: &str, size: u64) -> (r: Result<(), UploadRefusal>)
    ensures
        upload_outcome(file_name@, size, r),
        size > MAX_FILE_SIZE ==> r == Err::<(), UploadRefusal>(UploadRefusal::TooLarge { size }),
        size <= MAX_FILE_SIZE ==> match r {
            Ok(()) => proof_extension(lowercase(last_segment(file_name@))),
            Err(UploadRefusal::UnsupportedType { extension }) => extension@ == lowercase(last_segment(file_name@))
                && !proof_extension(extension@),
            Err(UploadRefusal::TooLarge { .. }) => false,
        },
{
    if size > MAX_FILE_SIZE {
        return Err(UploadRefusal::TooLarge { size });
    }
    let extension = to_lowercase(file_extension(file_name).as_str());
    if str_eq(extension.as_str(), "proof") || str_eq(extension.as_str(), "hex") || str_eq(extension.as_str(), "txt") {
        Ok(())
    } else {
        Err(UploadRefusal::UnsupportedType { extension })
    }
}

/// The message of an unsupported file type.
pub fn unsupported_type_message(extension: &str) -> (s: String)
    ensures
        s@ == "Unsupported file type: ."@ + extension@ + " (supported: .proof, .hex, .txt)"@,
{
    concat3("Unsupported file type: .", extension, " (supported: .proof, .hex, .txt)")
}

/// The proof input an uploaded file yields once read: its text, unless it
/// is empty, holds only white space, or could not be read.
pub fn accept_upload_text(content: Result<String, String>) -> (r: Result<String, String>)
    ensures
        match content {
            Ok(text) => if text@.len() == 0 {
                r matches Err(m) && m@ == "File content is empty"@
            } else if trimmed(text@).len() == 0 {
                r matches Err(m) && m@ == "File does not contain a canonical proof bundle"@
            } else {
                r == Ok::<String, String>(text)
            },
            Err(e) => r matches Err(m) && m@ == "Failed to read file content: "@ + e@,
        },
{
    match content {
        Ok(text) => {
            if text.unicode_len() == 0 {
                Err(owned("File content is empty"))
            } else if trim(text.as_str()).unicode_len() == 0 {
                Err(owned("File does not contain a canonical proof bundle"))
            } else {
                Ok(text)
            }
        },
        Err(e) => Err(concat2("Failed to read file content: ", e.as_str())),
    }
}

/// The inspection button: disabled without input or while inspecting, and
/// its label.
pub fn verify_button(input: &str, verifying: bool) -> (r: (bool, &'static str))
    ensures
        r.0 == (input@.len() == 0 || verifying),
        r.1@ == (if verifying { "⏳ Verifying..."@ } else { "🔍 Verify Offline"@ }),
{
    (input.unicode_len() == 0 || verifying, if verifying { "⏳ Verifying..." } else { "🔍 Verify Offline" })
}

/// A step as the result lists it: its position, counted from one, and name.
pub fn step_heading(index: usize, step: &VerificationStep) -> (s: String)
    requires
        index < usize::MAX,
    ensures
        s@ == crate::text::decimal(index as nat + 1) + ". "@ + step.name@,
{
    concat3(crate::text::u64_to_string((index + 1) as u64).as_str(), ". ", step.name.as_str())
}

proof fn lemma_last_segment_of_extension(prefix: Seq<char>, ext: Seq<char>)
    requires
        forall|i: int| 0 <= i < ext.len() ==> ext[i] != '.',
    ensures
        last_segment(prefix + seq!['.'] + ext) == ext,
    decreases ext.len(),
{
    let name = prefix + seq!['.'] + ext;
    if ext.len() == 0 {
        assert(name.last() == '.');
    } else {
        lemma_last_segment_of_extension(prefix, ext.drop_last());
        assert(name.drop_last() =~= prefix + seq!['.'] + ext.drop_last());
        assert(ext.drop_last().push(ext.last()) =~= ext);
    }
}

/// Every file of at most 10 MiB (10_485_760 bytes) named `<anything>.<ext>`,
/// whose extension lowercases to `proof`, `hex` or `txt` — the types the
/// refusal message lists as supported — is accepted; a larger file is
/// refused as too large whatever its name, and any other extension is
/// refused naming its lowercased form.
pub proof fn law_supported_uploads_are_accepted(
    prefix: Seq<char>,
    ext: Seq<char>,
    size: u64,
    r: Result<(), UploadRefusal>,
)
    requires
        forall|i: int| 0 <= i < ext.len() ==> ext[i] != '.',
        upload_outcome(prefix + seq!['.'] + ext, size, r),
    ensures
        size <= 10_485_760 && (lowercase(ext) == "proof"@ || lowercase(ext) == "hex"@ || lowercase(ext) == "txt"@)
            ==> r is Ok,
        size > 10_485_760 ==> r == Err::<(), UploadRefusal>(UploadRefusal::TooLarge { size }),
        size <= 10_485_760 && !(lowercase(ext) == "proof"@ || lowercase(ext) == "hex"@ || lowercase(ext) == "txt"@)
            ==> (r matches Err(UploadRefusal::UnsupportedType { extension }) && extension@ == lowercase(ext)),
{
    lemma_last_segment_of_extension(prefix, ext);
}

} // verus!
