//! The accountability explorer: a paged feed of observations recorded by the
//! discovery service, compact labels for them, the mandate a subject opens,
//! and the notices shown while the feed and chains load.
//!
//! Discovery is never verification: nothing here turns a recorded
//! observation into a verdict.

use vstd::prelude::*;
use crate::codec::{hex_encode, hex_lower};
use crate::text::{
    char_range, concat2, concat3, contains, contains_text, decimal, has_prefix, i64_to_string, owned,
    signed_decimal, starts_with, u64_to_string,
};

verus! {

/// One observation as the discovery read-model projects it.
#[derive(Clone, Debug, PartialEq, Eq)]
pub struct ObservationProjection {
    pub observation_id: String,
    pub source_id: String,
    pub source_event_type: String,
    pub normalized_profile_id: String,
    pub normalized_profile_version: u32,
    pub normalized_payload_digest: String,
    pub subject_refs: Vec<String>,
    pub retraction_status: String,
    pub observed_at: i64,
}

/// `value` collapsed to `head…tail` when it is longer than `head + tail + 1`
/// characters.
pub open spec fn truncated_mid(value: Seq<char>, head: nat, tail: nat) -> Seq<char> {
    if value.len() <= head + tail + 1 {
        value
    } else {
        value.subrange(0, head as int) + seq!['…'] + value.subrange(value.len() - tail, value.len() as int)
    }
}

/// Collapses a long identifier to `head…tail`, leaving short ones untouched.
pub fn truncate_mid(value: &str, head: usize, tail: usize) -> (r: String)
    ensures
        r@ == truncated_mid(value@, head as nat, tail as nat),
{
    proof {
        reveal_strlit("…");
    }
    let n = value.unicode_len();
    if n <= head || n - head <= tail || n - head - tail <= 1 {
        owned(value)
    } else {
        let start = char_range(value, 0, head);
        let end = char_range(value, n - tail, n);
        concat3(start.as_str(), "…", end.as_str())
    }
}

/// A short human label for an observation: a friendly name for deployment
/// profiles, else the source event type, else the profile, else a generic
/// word.
pub open spec fn observation_label(profile: Seq<char>, event_type: Seq<char>) -> Seq<char> {
    if contains_text(profile, "deployment-attestation"@) {
        "Deployment attestation"@
    } else if contains_text(profile, "deployment"@) {
        "Deployment observation"@
    } else if event_type.len() > 0 {
        event_type
    } else if profile.len() > 0 {
        profile
    } else {
        "Observation"@
    }
}

/// A short human label for an observation.
pub fn short_label(item: &ObservationProjection) -> (r: String)
    ensures
        r@ == observation_label(item.normalized_profile_id@, item.source_event_type@),
{
    let profile = item.normalized_profile_id.as_str();
    if contains(profile, "deployment-attestation") {
        owned("Deployment attestation")
    } else if contains(profile, "deployment") {
        owned("Deployment observation")
    } else if item.source_event_type.unicode_len() > 0 {
        item.source_event_type.clone()
    } else if profile.unicode_len() > 0 {
        owned(profile)
    } else {
        owned("Observation")
    }
}

/// The first reference, from position `from` on, that begins with `p`.
pub open spec fn first_prefixed_from(refs: Seq<String>, p: Seq<char>, from: int) -> Option<Seq<char>>
    decreases refs.len() - from,
{
    if from < 0 || from >= refs.len() {
        None
    } else if has_prefix(refs[from]@, p) {
        Some(refs[from]@)
    } else {
        first_prefixed_from(refs, p, from + 1)
    }
}

/// The first reference that begins with `p`.
pub open spec fn first_prefixed(refs: Seq<String>, p: Seq<char>) -> Option<Seq<char>> {
    first_prefixed_from(refs, p, 0)
}

fn find_prefixed(refs: &Vec<String>, p: &str) -> (r: Option<String>)
    ensures
        match r {
            Some(s) => first_prefixed(refs@, p@) == Some(s@),
            None => first_prefixed(refs@, p@) is None,
        },
{
    let mut i: usize = 0;
    while i < refs.len()
        invariant
            i <= refs@.len(),
            first_prefixed(refs@, p@) == first_prefixed_from(refs@, p@, i as int),
        decreases refs.len() - i,
    {
        if starts_with(refs[i].as_str(), p) {
            return Some(refs[i].clone());
        }
        i = i + 1;
    }
    None
}

/// The first position, from `from` on, holding `c`.
pub open spec fn index_of_from(s: Seq<char>, c: char, from: int) -> Option<int>
    decreases s.len() - from,
{
    if from < 0 || from >= s.len() {
        None
    } else if s[from] == c {
        Some(from)
    } else {
        index_of_from(s, c, from + 1)
    }
}

/// A position found by `index_of_from` lies within the text and holds `c`.
pub proof fn lemma_index_of_from(s: Seq<char>, c: char, from: int)
    ensures
        index_of_from(s, c, from) matches Some(i) ==> from <= i < s.len() && s[i] == c,
    decreases s.len() - from,
{
    if 0 <= from < s.len() && s[from] != c {
        lemma_index_of_from(s, c, from + 1);
    }
}

/// A reference found by `first_prefixed_from` begins with the prefix.
pub proof fn lemma_first_prefixed_from(refs: Seq<String>, p: Seq<char>, from: int)
    ensures
        first_prefixed_from(refs, p, from) matches Some(r) ==> has_prefix(r, p),
    decreases refs.len() - from,
{
    if 0 <= from < refs.len() && !has_prefix(refs[from]@, p) {
        lemma_first_prefixed_from(refs, p, from + 1);
    }
}

fn find_char(s: &str, c: char) -> (r: Option<usize>)
    ensures
        match r {
            Some(i) => index_of_from(s@, c, 0) == Some(i as int),
            None => index_of_from(s@, c, 0) is None,
        },
{
    let n = s.unicode_len();
    let mut i: usize = 0;
    while i < n
        invariant
            n == s@.len(),
            i <= n,
            index_of_from(s@, c, 0) == index_of_from(s@, c, i as int),
        decreases n - i,
    {
        if s.get_char(i) == c {
            return Some(i);
        }
        i = i + 1;
    }
    None
}

/// The reference a feed row shows: the receipt subject, else the mandate
/// subject, else the first subject, else nothing.
pub open spec fn picked_ref(refs: Seq<String>) -> Seq<char> {
    match first_prefixed(refs, "receipt:"@) {
        Some(r) => r,
        None => match first_prefixed(refs, "mandate:"@) {
            Some(m) => m,
            None => if refs.len() > 0 { refs[0]@ } else { Seq::empty() },
        },
    }
}

/// A reference shortened for a one-line row: `kind:` then the shortened
/// identifier when it has a kind, else the whole reference shortened.
pub open spec fn shortened_ref(pick: Seq<char>) -> Seq<char> {
    match index_of_from(pick, ':', 0) {
        Some(i) => pick.subrange(0, i) + ":"@ + truncated_mid(pick.subrange(i + 1, pick.len() as int), 8, 6),
        None => truncated_mid(pick, 10, 6),
    }
}

/// The primary subject of an observation, shortened for a feed row.
pub fn primary_ref(item: &ObservationProjection) -> (r: String)
    ensures
        r@ == shortened_ref(picked_ref(item.subject_refs@)),
{
    let pick = match find_prefixed(&item.subject_refs, "receipt:") {
        Some(r) => r,
        None => match find_prefixed(&item.subject_refs, "mandate:") {
            Some(m) => m,
            None => if item.subject_refs.len() > 0 {
                item.subject_refs[0].clone()
            } else {
                String::new()
            },
        },
    };
    let n = pick.unicode_len();
    proof {
        lemma_index_of_from(pick@, ':', 0);
    }
    match find_char(pick.as_str(), ':') {
        Some(i) => {
            let kind = char_range(pick.as_str(), 0, i);
            let id = char_range(pick.as_str(), i + 1, n);
            let short = truncate_mid(id.as_str(), 8, 6);
            concat3(kind.as_str(), ":", short.as_str())
        },
        None => truncate_mid(pick.as_str(), 10, 6),
    }
}

/// The badge shown for an observation's retraction status: the status
/// itself.
pub fn retraction_badge(status: &str) -> (r: String)
    ensures
        r@ == status@,
{
    owned(status)
}

/// The mandate whose chain a subject opens: a `mandate:` subject names it;
/// a `receipt:` subject opens the mandate named by the first `mandate:`
/// subject of the same observation.
pub open spec fn mandate_of(subject: Seq<char>, refs: Seq<String>) -> Option<Seq<char>> {
    if has_prefix(subject, "mandate:"@) {
        Some(subject.subrange(8, subject.len() as int))
    } else if has_prefix(subject, "receipt:"@) {
        match first_prefixed(refs, "mandate:"@) {
            Some(m) => Some(m.subrange(8, m.len() as int)),
            None => None,
        }
    } else {
        None
    }
}

/// The mandate whose chain a subject of `observation` opens, if any.
pub fn mandate_for(subject: &str, observation: &ObservationProjection) -> (r: Option<String>)
    ensures
        match r {
            Some(m) => mandate_of(subject@, observation.subject_refs@) == Some(m@),
            None => mandate_of(subject@, observation.subject_refs@) is None,
        },
{
    proof {
        reveal_strlit("mandate:");
        reveal_strlit("receipt:");
    }
    if starts_with(subject, "mandate:") {
        return Some(char_range(subject, 8, subject.unicode_len()));
    }
    if starts_with(subject, "receipt:") {
        proof {
            lemma_first_prefixed_from(observation.subject_refs@, "mandate:"@, 0);
        }
        match find_prefixed(&observation.subject_refs, "mandate:") {
            Some(m) => {
                return Some(char_range(m.as_str(), 8, m.unicode_len()));
            },
            None => {
                return None;
            },
        }
    }
    None
}

/// Rows per feed page.
pub const FEED_PAGE_SIZE: usize = 8;

/// Observations requested per feed poll.
pub const FEED_LIMIT: u32 = 50;

/// Seconds between feed polls.
pub const POLL_SECONDS: u64 = 3;

/// The number of feed pages for `total` observations: at least one.
pub open spec fn page_count_for(total: nat) -> nat {
    if total == 0 { 1 } else { ((total + 7) / 8) as nat }
}

/// One page of the newest-first feed.
#[derive(Clone, Copy, Debug, PartialEq, Eq, Structural)]
pub struct FeedPage {
    pub total: usize,
    pub page_count: usize,
    /// The page shown: the requested one, clamped to the last page.
    pub current: usize,
    /// The feed positions `start..end` shown on this page.
    pub start: usize,
    pub end: usize,
}

/// The page of a feed of `total` observations shown when page `requested`
/// is asked for; the request is clamped in case the feed shrank.
pub fn feed_page(total: usize, requested: usize) -> (p: FeedPage)
    ensures
        p.total == total,
        p.page_count == page_count_for(total as nat),
        p.current == (if requested < p.page_count { requested } else { (p.page_count - 1) as usize }),
        p.start == p.current * 8,
        p.end == (if p.start + 8 <= total { p.start + 8 } else { total as int }),
{
    let page_count: usize = if total == 0 {
        1
    } else if total % 8 == 0 {
        total / 8
    } else {
        total / 8 + 1
    };
    let current: usize = if requested < page_count { requested } else { page_count - 1 };
    assert(current * 8 <= total) by (nonlinear_arith)
        requires
            current < page_count,
            total == 0 ==> page_count == 1,
            total > 0 && total % 8 == 0 ==> page_count == total / 8,
            total > 0 && total % 8 != 0 ==> page_count == total / 8 + 1,
    ;
    let start = current * 8;
    let end = if total - start >= 8 { start + 8 } else { total };
    FeedPage { total, page_count, current, start, end }
}

impl FeedPage {
    /// Whether a newer page exists.
    pub fn has_newer(&self) -> (b: bool)
        ensures
            b == (self.current != 0),
    {
        self.current != 0
    }

    /// Whether an older page exists.
    pub fn has_older(&self) -> (b: bool)
        ensures
            b == (self.current + 1 < self.page_count),
    {
        self.current < self.page_count && self.page_count - self.current > 1
    }

    /// The pager caption: `<total> event(s) · page <n> of <count>`.
    pub fn caption(&self) -> (s: String)
        requires
            self.current < self.page_count,
        ensures
            s@ == decimal(self.total as nat) + " event(s) · page "@ + decimal(self.current as nat + 1)
                + " of "@ + decimal(self.page_count as nat),
    {
        let mut s = u64_to_string(self.total as u64);
        s.append(" event(s) · page ");
        s.append(u64_to_string((self.current + 1) as u64).as_str());
        s.append(" of ");
        s.append(u64_to_string(self.page_count as u64).as_str());
        s
    }
}

/// The feed notice after a poll: the number of observations received, or
/// why the feed is unavailable.
pub fn feed_status(outcome: Result<usize, String>) -> (s: String)
    ensures
        match outcome {
            Ok(count) => s@ == "Live · "@ + decimal(count as nat)
                + " observation(s) · recorded elsewhere, not locally verified."@,
            Err(e) => s@ == "Feed unavailable · "@ + e@,
        },
{
    match outcome {
        Ok(count) => concat3(
            "Live · ",
            u64_to_string(count as u64).as_str(),
            " observation(s) · recorded elsewhere, not locally verified.",
        ),
        Err(e) => concat2("Feed unavailable · ", e.as_str()),
    }
}

/// The notice while a mandate's chain loads.
pub fn chain_loading_status(mandate_id: &str) -> (s: String)
    ensures
        s@ == "Loading chain for mandate "@ + mandate_id@ + "…"@,
{
    concat3("Loading chain for mandate ", mandate_id, "…")
}

/// The notice once a chain read finished.
pub fn chain_status(outcome: Result<(), String>) -> (s: String)
    ensures
        match outcome {
            Ok(()) => s@ == "Chain assembled from Piteka discovery detail · not a verdict."@,
            Err(e) => s@ == "Chain unavailable · "@ + e@,
        },
{
    match outcome {
        Ok(()) => owned("Chain assembled from Piteka discovery detail · not a verdict."),
        Err(e) => concat2("Chain unavailable · ", e.as_str()),
    }
}

/// The outbound links for a GitHub repository `owner/name`: the
/// repository, its deployments and its action runs.
pub fn github_links(repo: &str) -> (links: [String; 3])
    ensures
        links@[0]@ == "https://github.com/"@ + repo@,
        links@[1]@ == "https://github.com/"@ + repo@ + "/deployments"@,
        links@[2]@ == "https://github.com/"@ + repo@ + "/actions"@,
{
    [
        concat2("https://github.com/", repo),
        concat3("https://github.com/", repo, "/deployments"),
        concat3("https://github.com/", repo, "/actions"),
    ]
}

/// What the local verifier concluded for an object: its disposition label,
/// the name of the verification context and the context's identifier bytes.
#[derive(Clone, Debug, PartialEq, Eq)]
pub struct LocalVerdict {
    pub disposition: String,
    pub context_name: String,
    pub context_id: Vec<u8>,
}

/// The explorer's notice after verifying a receipt locally.
pub fn receipt_verification_status(outcome: &Result<LocalVerdict, String>) -> (s: String)
    ensures
        match *outcome {
            Ok(v) => s@ == "Local disposition: "@ + v.disposition@ + " · context "@ + hex_lower(v.context_id@),
            Err(e) => s@ == "No local verification result · "@ + e@,
        },
{
    match outcome {
        Ok(v) => {
            let mut s = concat2("Local disposition: ", v.disposition.as_str());
            s.append(" · context ");
            s.append(hex_encode(v.context_id.as_slice()).as_str());
            s
        },
        Err(e) => concat2("No local verification result · ", e.as_str()),
    }
}

/// The named result of rendering Unix seconds as a UTC date and time in the
/// form `YYYY-MM-DD HH:MM:SS UTC`; `None` outside the representable range.
pub uninterp spec fn utc_datetime_text(unix_seconds: i64) -> Option<Seq<char>>;

/// Wraps `chrono::DateTime::from_timestamp(unix_seconds, 0)` and its
/// `format("%Y-%m-%d %H:%M:%S UTC")`.
#[verifier::external_body]
fn format_utc(unix_seconds: i64) -> (r: Option<String>)
    ensures
        match r {
            Some(t) => utc_datetime_text(unix_seconds) == Some(t@),
            None => utc_datetime_text(unix_seconds) is None,
        },
{
    chrono::DateTime::from_timestamp(unix_seconds, 0).map(|dt| dt.format("%Y-%m-%d %H:%M:%S UTC").to_string())
}

/// A timestamp as shown: `—` when absent or not positive, else its UTC
/// rendering `formatted`, or the raw number where it has none.
pub open spec fn short_time_text(unix_seconds: i64, formatted: Option<Seq<char>>) -> Seq<char> {
    if unix_seconds <= 0 {
        "—"@
    } else {
        match formatted {
            Some(t) => t,
            None => signed_decimal(unix_seconds as int),
        }
    }
}

/// A timestamp as shown, given the UTC rendering of a positive timestamp.
pub fn show_time(unix_seconds: i64, formatted: Option<String>) -> (s: String)
    ensures
        s@ == short_time_text(unix_seconds, match formatted { Some(t) => Some(t@), None => None }),
{
    if unix_seconds <= 0 {
        return owned("—");
    }
    match formatted {
        Some(t) => t,
        None => i64_to_string(unix_seconds),
    }
}

/// Renders Unix seconds as a readable UTC date and time; absent or zero
/// renders as `—`.
pub fn short_time(unix_seconds: i64) -> (s: String)
    ensures
        s@ == short_time_text(unix_seconds, utc_datetime_text(unix_seconds)),
{
    if unix_seconds <= 0 {
        return owned("—");
    }
    let formatted = format_utc(unix_seconds);
    show_time(unix_seconds, formatted)
}

/// A source's cursor as shown: its time, or `unknown`.
pub fn health_cursor(cursor: Option<i64>) -> (s: String)
    ensures
        match cursor {
            Some(v) => s@ == signed_decimal(v as int),
            None => s@ == "unknown"@,
        },
{
    match cursor {
        Some(v) => i64_to_string(v),
        None => owned("unknown"),
    }
}

/// A source's health as the discovery service reports it.
#[derive(Clone, Debug, PartialEq, Eq)]
pub struct SourceHealth {
    pub display_name: String,
    pub connector_kind: String,
    pub cursor_observed_at: Option<i64>,
}

/// The discovery screen: the lineage and source health last loaded, the
/// observation selected for local verification, and the current notice.
#[derive(Clone, Debug, PartialEq, Eq)]
pub struct DiscoveryView {
    pub lineage: Vec<ObservationProjection>,
    pub source_health: Vec<SourceHealth>,
    pub selected: Option<ObservationProjection>,
    pub status: Option<String>,
}

/// The notice shown once discovery succeeded.
pub open spec fn discovery_loaded_text() -> Seq<char> {
    "Discovery projection loaded · recorded elsewhere, not locally verified."@
}

impl DiscoveryView {
    /// Nothing loaded, nothing selected.
    pub fn new() -> (v: Self)
        ensures
            v.lineage@.len() == 0,
            v.source_health@.len() == 0,
            v.selected is None,
            v.status is None,
    {
        DiscoveryView { lineage: Vec::new(), source_health: Vec::new(), selected: None, status: None }
    }

    /// Whether discovery runs by itself when the screen opens: only with a
    /// service address and an observation to trace.
    pub fn auto_loads(api_base_url: &str, observation_id: &str) -> (b: bool)
        ensures
            b == (api_base_url@.len() > 0 && observation_id@.len() > 0),
    {
        api_base_url.unicode_len() > 0 && observation_id.unicode_len() > 0
    }

    /// Starts a discovery query; `automatic` tells whether the screen started
    /// it on opening.
    pub fn begin(&mut self, automatic: bool)
        ensures
            final(self).lineage == old(self).lineage,
            final(self).source_health == old(self).source_health,
            final(self).selected == old(self).selected,
            final(self).status matches Some(m) && m@ == (if automatic {
                "Auto-loading tenant-visible lineage and source health…"@
            } else {
                "Querying tenant-visible lineage and source health…"@
            }),
    {
        self.status = Some(owned(if automatic {
            "Auto-loading tenant-visible lineage and source health…"
        } else {
            "Querying tenant-visible lineage and source health…"
        }));
    }

    /// Records the outcome of a discovery query.  A failure clears what was
    /// loaded; either way the selection is cleared.
    pub fn finish(&mut self, outcome: Result<(Vec<ObservationProjection>, Vec<SourceHealth>), String>)
        ensures
            final(self).selected is None,
            match outcome {
                Ok((found, health)) => final(self).lineage == found && final(self).source_health == health
                    && (final(self).status matches Some(m) && m@ == discovery_loaded_text()),
                Err(e) => final(self).lineage@.len() == 0 && final(self).source_health@.len() == 0
                    && (final(self).status matches Some(m) && m@ == "Discovery unavailable · "@ + e@),
            },
    {
        match outcome {
            Ok((found, health)) => {
                self.lineage = found;
                self.source_health = health;
                self.selected = None;
                self.status = Some(owned("Discovery projection loaded · recorded elsewhere, not locally verified."));
            },
            Err(e) => {
                self.lineage = Vec::new();
                self.source_health = Vec::new();
                self.selected = None;
                self.status = Some(concat2("Discovery unavailable · ", e.as_str()));
            },
        }
    }

    /// Selects an observation for local verification.
    pub fn select(&mut self, item: ObservationProjection)
        ensures
            *final(self) == (DiscoveryView { selected: Some(item), ..*old(self) }),
    {
        self.selected = Some(item);
    }

    /// Records the local verification of the selected evidence.
    pub fn finish_verification(&mut self, outcome: &Result<LocalVerdict, String>)
        ensures
            final(self).lineage == old(self).lineage,
            final(self).source_health == old(self).source_health,
            final(self).selected == old(self).selected,
            final(self).status matches Some(m) && match *outcome {
                Ok(v) => m@ == "Locally verified selected evidence · "@ + v.disposition@ + " · context "@
                    + hex_lower(v.context_id@),
                Err(e) => m@ == "No local verification result · "@ + e@,
            },
    {
        let message = match outcome {
            Ok(v) => {
                let mut s = concat2("Locally verified selected evidence · ", v.disposition.as_str());
                s.append(" · context ");
                s.append(hex_encode(v.context_id.as_slice()).as_str());
                s
            },
            Err(e) => concat2("No local verification result · ", e.as_str()),
        };
        self.status = Some(message);
    }
}

} // verus!
