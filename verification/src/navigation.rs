//! Navigation: the application's destinations, the accountability object
//! kinds and the routes that inspect them, and where a resolved search target
//! leads.

use vstd::prelude::*;
use crate::ids::{digest_shaped, looks_like_digest};
use crate::text::{concat2, owned, str_eq};

verus! {

/// A destination of the application.
#[derive(Clone, Debug, PartialEq, Eq)]
pub enum Route {
    ConsoleHome,
    BundleVerify,
    AssuranceInspector,
    ObjectInspector,
    DisputeInspector,
    FixtureLab,
    TuppiraExplorer,
    Anchoring,
    Explorer,
    Search,
    ObjectPage { kind: String, id: String },
    PitekaEnvironmentReceipt { environment_id: String, receipt_id: String },
    Dashboard,
    Assets,
    AssetWallet,
    AssetSeals,
    Activity,
    ActivityRetry,
    Contacts,
    Settings,
    SettingsAdvanced,
    Proofs,
    Validate,
    OfflineVerify,
}

/// A navigation entry.
#[derive(Clone, Debug, PartialEq, Eq)]
pub struct Destination {
    pub label: &'static str,
    pub icon: &'static str,
    pub route: Route,
}

/// The working developer-console screens, in navigation order.
pub fn console_destinations() -> (d: [Destination; 7])
    ensures
        d@[0].label@ == "Console home"@ && d@[0].icon@ == "⌁"@ && d@[0].route == Route::ConsoleHome,
        d@[1].label@ == "Bundle verifier"@ && d@[1].icon@ == "✓"@ && d@[1].route == Route::BundleVerify,
        d@[2].label@ == "Assurance inspector"@ && d@[2].icon@ == "▦"@ && d@[2].route == Route::AssuranceInspector,
        d@[3].label@ == "Object inspector"@ && d@[3].icon@ == "⌗"@ && d@[3].route == Route::ObjectInspector,
        d@[4].label@ == "Dispute inspector"@ && d@[4].icon@ == "⋈"@ && d@[4].route == Route::DisputeInspector,
        d@[5].label@ == "Fixture lab"@ && d@[5].icon@ == "≋"@ && d@[5].route == Route::FixtureLab,
        d@[6].label@ == "Tuppira explorer"@ && d@[6].icon@ == "⌘"@ && d@[6].route == Route::TuppiraExplorer,
{
    [
        Destination { label: "Console home", icon: "⌁", route: Route::ConsoleHome },
        Destination { label: "Bundle verifier", icon: "✓", route: Route::BundleVerify },
        Destination { label: "Assurance inspector", icon: "▦", route: Route::AssuranceInspector },
        Destination { label: "Object inspector", icon: "⌗", route: Route::ObjectInspector },
        Destination { label: "Dispute inspector", icon: "⋈", route: Route::DisputeInspector },
        Destination { label: "Fixture lab", icon: "≋", route: Route::FixtureLab },
        Destination { label: "Tuppira explorer", icon: "⌘", route: Route::TuppiraExplorer },
    ]
}

/// The preserved legacy wallet tools, in navigation order.
pub fn wallet_destinations() -> (d: [Destination; 5])
    ensures
        d@[0].label@ == "Legacy wallet"@ && d@[0].icon@ == "⌂"@ && d@[0].route == Route::Dashboard,
        d@[1].label@ == "Assets"@ && d@[1].icon@ == "◇"@ && d@[1].route == Route::Assets,
        d@[2].label@ == "Activity"@ && d@[2].icon@ == "↔"@ && d@[2].route == Route::Activity,
        d@[3].label@ == "Contacts"@ && d@[3].icon@ == "♙"@ && d@[3].route == Route::Contacts,
        d@[4].label@ == "Settings"@ && d@[4].icon@ == "⚙"@ && d@[4].route == Route::Settings,
{
    [
        Destination { label: "Legacy wallet", icon: "⌂", route: Route::Dashboard },
        Destination { label: "Assets", icon: "◇", route: Route::Assets },
        Destination { label: "Activity", icon: "↔", route: Route::Activity },
        Destination { label: "Contacts", icon: "♙", route: Route::Contacts },
        Destination { label: "Settings", icon: "⚙", route: Route::Settings },
    ]
}

/// The style of a navigation link: a tab in the compact layout, a link in
/// the full sidebar.
pub fn navigation_link_class(compact: bool) -> (c: &'static str)
    ensures
        c@ == (if compact { "instrument-nav-tab"@ } else { "instrument-nav-link"@ }),
{
    if compact { "instrument-nav-tab" } else { "instrument-nav-link" }
}

/// The kinds of accountability object.
#[derive(Clone, Copy, Debug, PartialEq, Eq, Structural)]
pub enum AccountabilityObjectKind {
    Mandate,
    Action,
    Receipt,
    Dispute,
    Assurance,
    Anchor,
}

/// The path segment naming a kind.
pub open spec fn kind_slug(k: AccountabilityObjectKind) -> Seq<char> {
    match k {
        AccountabilityObjectKind::Mandate => "mandate"@,
        AccountabilityObjectKind::Action => "action"@,
        AccountabilityObjectKind::Receipt => "receipt"@,
        AccountabilityObjectKind::Dispute => "dispute"@,
        AccountabilityObjectKind::Assurance => "assurance"@,
        AccountabilityObjectKind::Anchor => "anchor"@,
    }
}

impl AccountabilityObjectKind {
    /// Every kind, in declaration order.
    pub fn all() -> (r: [AccountabilityObjectKind; 6])
        ensures
            r@ == seq![
                AccountabilityObjectKind::Mandate,
                AccountabilityObjectKind::Action,
                AccountabilityObjectKind::Receipt,
                AccountabilityObjectKind::Dispute,
                AccountabilityObjectKind::Assurance,
                AccountabilityObjectKind::Anchor,
            ],
    {
        let r = [
            AccountabilityObjectKind::Mandate,
            AccountabilityObjectKind::Action,
            AccountabilityObjectKind::Receipt,
            AccountabilityObjectKind::Dispute,
            AccountabilityObjectKind::Assurance,
            AccountabilityObjectKind::Anchor,
        ];
        assert(r@ =~= seq![
            AccountabilityObjectKind::Mandate,
            AccountabilityObjectKind::Action,
            AccountabilityObjectKind::Receipt,
            AccountabilityObjectKind::Dispute,
            AccountabilityObjectKind::Assurance,
            AccountabilityObjectKind::Anchor,
        ]);
        r
    }

    /// The path segment naming this kind.
    pub fn slug(&self) -> (s: &'static str)
        ensures
            s@ == kind_slug(*self),
    {
        match self {
            AccountabilityObjectKind::Mandate => "mandate",
            AccountabilityObjectKind::Action => "action",
            AccountabilityObjectKind::Receipt => "receipt",
            AccountabilityObjectKind::Dispute => "dispute",
            AccountabilityObjectKind::Assurance => "assurance",
            AccountabilityObjectKind::Anchor => "anchor",
        }
    }

    /// The kind a path segment names, if any.
    pub fn from_slug(slug: &str) -> (r: Option<AccountabilityObjectKind>)
        ensures
            match r {
                Some(k) => kind_slug(k) == slug@,
                None => forall|k: AccountabilityObjectKind| kind_slug(k) != slug@,
            },
    {
        proof {
            reveal_strlit("mandate");
            reveal_strlit("action");
            reveal_strlit("receipt");
            reveal_strlit("dispute");
            reveal_strlit("assurance");
            reveal_strlit("anchor");
        }
        if str_eq(slug, "mandate") {
            Some(AccountabilityObjectKind::Mandate)
        } else if str_eq(slug, "action") {
            Some(AccountabilityObjectKind::Action)
        } else if str_eq(slug, "receipt") {
            Some(AccountabilityObjectKind::Receipt)
        } else if str_eq(slug, "dispute") {
            Some(AccountabilityObjectKind::Dispute)
        } else if str_eq(slug, "assurance") {
            Some(AccountabilityObjectKind::Assurance)
        } else if str_eq(slug, "anchor") {
            Some(AccountabilityObjectKind::Anchor)
        } else {
            None
        }
    }
}

/// The inspector that decodes canonical bytes of a kind.
pub open spec fn inspector_of(kind: AccountabilityObjectKind) -> Route {
    match kind {
        AccountabilityObjectKind::Mandate | AccountabilityObjectKind::Action | AccountabilityObjectKind::Receipt => Route::ObjectInspector,
        AccountabilityObjectKind::Dispute => Route::DisputeInspector,
        AccountabilityObjectKind::Assurance => Route::AssuranceInspector,
        AccountabilityObjectKind::Anchor => Route::Anchoring,
    }
}

/// The inspector route that decodes canonical bytes for an object kind;
/// object pages link there rather than decoding themselves.
pub fn inspector_route(kind: AccountabilityObjectKind) -> (r: Route)
    ensures
        r == inspector_of(kind),
{
    match kind {
        AccountabilityObjectKind::Mandate | AccountabilityObjectKind::Action | AccountabilityObjectKind::Receipt => Route::ObjectInspector,
        AccountabilityObjectKind::Dispute => Route::DisputeInspector,
        AccountabilityObjectKind::Assurance => Route::AssuranceInspector,
        AccountabilityObjectKind::Anchor => Route::Anchoring,
    }
}

/// What a search query resolved to.
#[derive(Clone, Debug, PartialEq, Eq)]
pub enum SearchTarget {
    Object { kind: AccountabilityObjectKind, id: String },
    EnvironmentReceipt { environment_id: String, receipt_id: String },
    ChainTx { chain: String, tx: String },
    Entity { entity: String },
}

/// Where a resolved search target leads: the object page of a single
/// object, the receipt page of an environment receipt, the anchor object
/// page of a chain transaction.  An accountable entity has no object page.
pub fn target_route(target: &SearchTarget) -> (r: Option<Route>)
    ensures
        match *target {
            SearchTarget::Object { kind, id } => r matches Some(Route::ObjectPage { kind: k, id: i })
                && k@ == kind_slug(kind) && i@ == id@,
            SearchTarget::EnvironmentReceipt { environment_id, receipt_id } =>
                r matches Some(Route::PitekaEnvironmentReceipt { environment_id: e, receipt_id: c })
                && e@ == environment_id@ && c@ == receipt_id@,
            SearchTarget::ChainTx { chain, tx } => r matches Some(Route::ObjectPage { kind: k, id: i })
                && k@ == kind_slug(AccountabilityObjectKind::Anchor) && i@ == tx@,
            SearchTarget::Entity { .. } => r is None,
        },
{
    match target {
        SearchTarget::Object { kind, id } => Some(Route::ObjectPage { kind: owned(kind.slug()), id: id.clone() }),
        SearchTarget::EnvironmentReceipt { environment_id, receipt_id } => Some(Route::PitekaEnvironmentReceipt {
            environment_id: environment_id.clone(),
            receipt_id: receipt_id.clone(),
        }),
        SearchTarget::ChainTx { tx, .. } => Some(Route::ObjectPage {
            kind: owned(AccountabilityObjectKind::Anchor.slug()),
            id: tx.clone(),
        }),
        SearchTarget::Entity { .. } => None,
    }
}

/// What a search query resolved to.
#[derive(Clone, Debug, PartialEq, Eq)]
pub enum SearchResolution {
    /// A single target.
    Resolved(SearchTarget),
    /// A bare digest that several kinds could carry.
    Ambiguous { candidates: Vec<AccountabilityObjectKind>, query: String },
    /// Nothing matches, for the given reason.
    NoMatch { reason: String },
}

/// The heading a search result shows.
pub fn resolution_heading(result: &SearchResolution) -> (s: &'static str)
    ensures
        s@ == (match *result {
            SearchResolution::Resolved(SearchTarget::Entity { .. }) => "Accountable entity"@,
            SearchResolution::Resolved(_) => "Resolved"@,
            SearchResolution::Ambiguous { .. } => "Ambiguous identifier"@,
            SearchResolution::NoMatch { .. } => "No match"@,
        }),
{
    match result {
        SearchResolution::Resolved(SearchTarget::Entity { .. }) => "Accountable entity",
        SearchResolution::Resolved(_) => "Resolved",
        SearchResolution::Ambiguous { .. } => "Ambiguous identifier",
        SearchResolution::NoMatch { .. } => "No match",
    }
}

/// The object pages an ambiguous digest may be opened as: one per candidate
/// kind, each carrying the query as the identifier.
pub fn ambiguous_destinations(candidates: &Vec<AccountabilityObjectKind>, query: &str) -> (r: Vec<Route>)
    ensures
        r@.len() == candidates@.len(),
        forall|i: int| 0 <= i < r@.len() ==> ((#[trigger] r@[i]) matches Route::ObjectPage { kind, id }
            && kind@ == kind_slug(candidates@[i]) && id@ == query@),
{
    let mut r: Vec<Route> = Vec::new();
    let mut i: usize = 0;
    while i < candidates.len()
        invariant
            i <= candidates@.len(),
            r@.len() == i,
            forall|k: int| 0 <= k < i ==> ((#[trigger] r@[k]) matches Route::ObjectPage { kind, id }
                && kind@ == kind_slug(candidates@[k]) && id@ == query@),
        decreases candidates.len() - i,
    {
        r.push(Route::ObjectPage { kind: owned(candidates[i].slug()), id: owned(query) });
        i = i + 1;
    }
    r
}

/// The node types of a lineage graph that can be filtered on.
#[derive(Clone, Copy, Debug, PartialEq, Eq, Structural)]
pub enum LineageNodeType {
    Observation,
    Claim,
    Attestation,
    Gap,
    Dispute,
    Anchor,
}

/// Toggles a node-type filter: removes it where active, else adds it last.
pub fn toggle_filter(filters: &mut Vec<LineageNodeType>, node_type: LineageNodeType)
    ensures
        old(filters)@.contains(node_type) ==> exists|k: int| 0 <= k < old(filters)@.len()
            && old(filters)@[k] == node_type
            && (forall|j: int| 0 <= j < k ==> old(filters)@[j] != node_type)
            && final(filters)@ == old(filters)@.remove(k),
        !old(filters)@.contains(node_type) ==> final(filters)@ == old(filters)@.push(node_type),
{
    let mut k: usize = 0;
    while k < filters.len()
        invariant
            k <= filters@.len(),
            filters@ == old(filters)@,
            forall|j: int| 0 <= j < k ==> filters@[j] != node_type,
        decreases filters.len() - k,
    {
        if filters[k] == node_type {
            let ghost before = filters@;
            filters.remove(k);
            assert(before[k as int] == node_type);
            return;
        }
        k = k + 1;
    }
    filters.push(node_type);
}

/// The note on an object identifier: a 32-byte digest or an opaque
/// reference.
pub fn digest_note(id: &str) -> (s: &'static str)
    ensures
        s@ == (if digest_shaped(id@) {
            "This identifier is a 32-byte content digest."@
        } else {
            "This identifier is not a 32-byte content digest; treat it as an opaque reference."@
        }),
{
    if looks_like_digest(id) {
        "This identifier is a 32-byte content digest."
    } else {
        "This identifier is not a 32-byte content digest; treat it as an opaque reference."
    }
}

/// The notice for an object page whose kind is unknown.
pub fn unknown_kind_message(kind: &str) -> (s: String)
    ensures
        s@ == "`"@ + kind@
            + "` is not a known accountability object type. Known types: mandate, action, receipt, dispute, assurance, anchor."@,
{
    let mut s = concat2("`", kind);
    s.append("` is not a known accountability object type. Known types: mandate, action, receipt, dispute, assurance, anchor.");
    s
}

} // verus!
