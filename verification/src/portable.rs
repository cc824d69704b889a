//! Portable wallet files: what an export carries, and the decisions made when
//! a decrypted file is applied to the wallet.
//!
//! A file is applied in one of two deliberately distinct ways.  `Replace`
//! changes the signing identity; `Profile` only adds public watch-only
//! accounts and never installs secret material.  Decrypting the file,
//! deriving keys from a mnemonic and writing keys into the platform vault are
//! done by the caller between the steps below.

use vstd::prelude::*;
use crate::chain::ChainId;
use crate::records::ChainAccount;
use crate::state::{locked_at, AppState, WalletData};
use crate::text::{concat2, owned, str_eq};

verus! {

/// How a portable wallet file is applied.
#[derive(Clone, Copy, Debug, PartialEq, Eq, Structural)]
pub enum PortableImportMode {
    Replace,
    Profile,
}

/// The observable result of a portable import.
#[derive(Clone, Copy, Debug, PartialEq, Eq, Structural)]
pub struct PortableImportSummary {
    pub signing_keys_installed: usize,
    pub profiles_added: usize,
}

/// A public account listed in a wallet file.
#[derive(Clone, Debug, PartialEq, Eq)]
pub struct KnownAccount {
    pub chain: String,
    pub address: String,
    pub label: String,
}

/// What a key source holds.
#[derive(Clone, Copy, Debug, PartialEq, Eq, Structural)]
pub enum KeySourceKind {
    Mnemonic,
    PrivateKey,
}

/// Secret material carried by a wallet file.
#[derive(Clone, Debug, PartialEq, Eq)]
pub struct KeySource {
    pub id: String,
    pub kind: KeySourceKind,
    pub secret: Vec<u8>,
}

/// A derivation path recorded for an account's key source.
#[derive(Clone, Debug, PartialEq, Eq)]
pub struct DerivationProfile {
    pub source_id: String,
    pub path: String,
    pub name: String,
}

/// The decrypted content of a portable wallet file.
#[derive(Clone, Debug, PartialEq, Eq)]
pub struct WalletPayload {
    pub accounts: Vec<KnownAccount>,
    pub key_sources: Vec<KeySource>,
    pub derivation_profiles: Vec<DerivationProfile>,
}

impl WalletPayload {
    /// An empty payload.
    pub fn new() -> (p: Self)
        ensures
            p.accounts@.len() == 0,
            p.key_sources@.len() == 0,
            p.derivation_profiles@.len() == 0,
    {
        WalletPayload { accounts: Vec::new(), key_sources: Vec::new(), derivation_profiles: Vec::new() }
    }
}

/// The refusal of a replacing import that was not confirmed.
pub open spec fn replace_unconfirmed_message() -> Seq<char> {
    "Replace requires explicit confirmation before it can remove the active identity"@
}

/// The refusal of an account without chain or address.
pub open spec fn invalid_profile_message() -> Seq<char> {
    "Wallet file contains an invalid account profile"@
}

/// The refusal of a profile import that repeats an existing account.
pub open spec fn conflict_message() -> Seq<char> {
    "Wallet file conflicts with an existing account; imports never silently merge identities"@
}

/// The refusal of a file with more than one mnemonic.
pub open spec fn multiple_mnemonics_message() -> Seq<char> {
    "Wallet file has multiple mnemonic sources; refusing to choose an identity"@
}

/// Whether `current` already holds an account on `chain` at `address`.
pub open spec fn has_account(current: Seq<ChainAccount>, chain: Seq<char>, address: Seq<char>) -> bool {
    exists|j: int| 0 <= j < current.len() && (#[trigger] current[j]).chain@ == chain && current[j].address@ == address
}

/// Why a listed account cannot be imported, if it cannot.
pub open spec fn account_problem(current: Seq<ChainAccount>, k: KnownAccount, mode: PortableImportMode) -> Option<Seq<char>> {
    if k.chain@.len() == 0 || k.address@.len() == 0 {
        Some(invalid_profile_message())
    } else if mode == PortableImportMode::Profile && has_account(current, k.chain@, k.address@) {
        Some(conflict_message())
    } else {
        None
    }
}

/// `accounts[i]` is the first listed account that cannot be imported.
pub open spec fn first_problem_at(current: Seq<ChainAccount>, accounts: Seq<KnownAccount>, mode: PortableImportMode, i: int) -> bool {
    &&& 0 <= i < accounts.len()
    &&& account_problem(current, accounts[i], mode) is Some
    &&& forall|j: int| 0 <= j < i ==> (#[trigger] account_problem(current, accounts[j], mode)) is None
}

/// Every listed account can be imported.
pub open spec fn all_importable(current: Seq<ChainAccount>, accounts: Seq<KnownAccount>, mode: PortableImportMode) -> bool {
    forall|j: int| 0 <= j < accounts.len() ==> (#[trigger] account_problem(current, accounts[j], mode)) is None
}

/// `a` is the watch-only account made from the listed account `k`.
pub open spec fn watch_only_of(a: ChainAccount, k: KnownAccount) -> bool {
    &&& a.id@ == k.chain@ + ":"@ + k.address@
    &&& a.chain@ == k.chain@
    &&& a.name@ == k.label@
    &&& a.address@ == k.address@
    &&& a.keystore_ref is None
    &&& a.derivation_path is None
}

/// `v` holds, in order, the watch-only accounts made from `accounts`.
pub open spec fn watch_only_list(v: Seq<ChainAccount>, accounts: Seq<KnownAccount>) -> bool {
    &&& v.len() == accounts.len()
    &&& forall|i: int| 0 <= i < v.len() ==> watch_only_of(#[trigger] v[i], accounts[i])
}

/// Mnemonic key sources.
pub open spec fn is_mnemonic_source() -> spec_fn(KeySource) -> bool {
    |s: KeySource| s.kind == KeySourceKind::Mnemonic
}

/// The number of mnemonic sources.
pub open spec fn mnemonic_count(sources: Seq<KeySource>) -> nat {
    sources.filter(is_mnemonic_source()).len()
}

fn has_account_exec(current: &Vec<ChainAccount>, chain: &str, address: &str) -> (b: bool)
    ensures
        b == has_account(current@, chain@, address@),
{
    let mut i: usize = 0;
    while i < current.len()
        invariant
            i <= current@.len(),
            forall|j: int| 0 <= j < i ==> !((#[trigger] current@[j]).chain@ == chain@ && current@[j].address@ == address@),
        decreases current.len() - i,
    {
        if str_eq(current[i].chain.as_str(), chain) && str_eq(current[i].address.as_str(), address) {
            return true;
        }
        i = i + 1;
    }
    false
}

/// The watch-only accounts a file lists, or why one of them cannot be
/// imported: an account without chain or address is refused, and in
/// `Profile` mode so is one that repeats an existing account.  The first
/// such account, in file order, decides the error.
pub fn profile_accounts(current: &Vec<ChainAccount>, payload: &WalletPayload, mode: PortableImportMode) -> (r: Result<Vec<ChainAccount>, String>)
    ensures
        match r {
            Ok(v) => all_importable(current@, payload.accounts@, mode) && watch_only_list(v@, payload.accounts@),
            Err(m) => exists|i: int| first_problem_at(current@, payload.accounts@, mode, i)
                && account_problem(current@, payload.accounts@[i], mode) == Some(m@),
        },
{
    let mut out: Vec<ChainAccount> = Vec::new();
    let mut i: usize = 0;
    while i < payload.accounts.len()
        invariant
            i <= payload.accounts@.len(),
            forall|j: int| 0 <= j < i ==> (#[trigger] account_problem(current@, payload.accounts@[j], mode)) is None,
            watch_only_list(out@, payload.accounts@.subrange(0, i as int)),
        decreases payload.accounts.len() - i,
    {
        let known = &payload.accounts[i];
        if known.chain.unicode_len() == 0 || known.address.unicode_len() == 0 {
            let m = owned("Wallet file contains an invalid account profile");
            assert(first_problem_at(current@, payload.accounts@, mode, i as int));
            return Err(m);
        }
        if mode == PortableImportMode::Profile && has_account_exec(current, known.chain.as_str(), known.address.as_str()) {
            let m = owned("Wallet file conflicts with an existing account; imports never silently merge identities");
            assert(first_problem_at(current@, payload.accounts@, mode, i as int));
            return Err(m);
        }
        let account = ChainAccount::watch_only(ChainId::new(known.chain.as_str()), known.label.as_str(), known.address.as_str());
        out.push(account);
        i = i + 1;
    }
    proof {
        assert(payload.accounts@.subrange(0, i as int) =~= payload.accounts@);
    }
    Ok(out)
}

/// What applying a file amounts to once its accounts are accepted.
#[derive(Debug)]
pub enum PortablePlan {
    /// Add these watch-only accounts to the wallet.
    Profiles(Vec<ChainAccount>),
    /// Replace the wallet by these accounts once their keys are installed;
    /// `mnemonic` is the position of the file's one mnemonic source, if any.
    Replace { accounts: Vec<ChainAccount>, mnemonic: Option<usize> },
}

/// A replacing import of a non-empty wallet that was not confirmed.
pub open spec fn unconfirmed_replace(current: Seq<ChainAccount>, mode: PortableImportMode, confirmed: bool) -> bool {
    mode == PortableImportMode::Replace && current.len() > 0 && !confirmed
}

/// The count of mnemonic sources and the position of the first one.
fn mnemonic_sources(sources: &Vec<KeySource>) -> (r: (usize, Option<usize>))
    ensures
        r.0 == mnemonic_count(sources@),
        r.1 is None <==> r.0 == 0,
        r.1 matches Some(k) ==> k < sources@.len() && sources@[k as int].kind == KeySourceKind::Mnemonic,
{
    let mut count: usize = 0;
    let mut first: Option<usize> = None;
    let mut i: usize = 0;
    while i < sources.len()
        invariant
            i <= sources@.len(),
            count <= i,
            count == sources@.subrange(0, i as int).filter(is_mnemonic_source()).len(),
            first is None <==> count == 0,
            first matches Some(k) ==> k < sources@.len() && sources@[k as int].kind == KeySourceKind::Mnemonic,
        decreases sources.len() - i,
    {
        proof {
            reveal_with_fuel(Seq::filter, 1);
            assert(sources@.subrange(0, i + 1).drop_last() =~= sources@.subrange(0, i as int));
        }
        if sources[i].kind == KeySourceKind::Mnemonic {
            if first.is_none() {
                first = Some(i);
            }
            count = count + 1;
        }
        i = i + 1;
    }
    proof {
        assert(sources@.subrange(0, i as int) =~= sources@);
    }
    (count, first)
}

/// Decides how a decrypted file is applied to a wallet holding `current`.
///
/// A replacing import of a non-empty wallet needs `replace_confirmed`; then
/// every listed account must be importable (see `profile_accounts`).  A
/// profile import ends there.  A replacing import refuses a file with more
/// than one mnemonic source, since it would have to choose an identity.
pub fn plan_portable_import(
    current: &Vec<ChainAccount>,
    payload: &WalletPayload,
    mode: PortableImportMode,
    replace_confirmed: bool,
) -> (r: Result<PortablePlan, String>)
    ensures
        unconfirmed_replace(current@, mode, replace_confirmed)
            ==> (r matches Err(m) && m@ == replace_unconfirmed_message()),
        !unconfirmed_replace(current@, mode, replace_confirmed) && !all_importable(current@, payload.accounts@, mode)
            ==> (r matches Err(m) && exists|i: int| first_problem_at(current@, payload.accounts@, mode, i)
                && account_problem(current@, payload.accounts@[i], mode) == Some(m@)),
        !unconfirmed_replace(current@, mode, replace_confirmed) && all_importable(current@, payload.accounts@, mode)
            && mode == PortableImportMode::Profile
            ==> (r matches Ok(PortablePlan::Profiles(v)) && watch_only_list(v@, payload.accounts@)),
        !unconfirmed_replace(current@, mode, replace_confirmed) && all_importable(current@, payload.accounts@, mode)
            && mode == PortableImportMode::Replace && mnemonic_count(payload.key_sources@) > 1
            ==> (r matches Err(m) && m@ == multiple_mnemonics_message()),
        !unconfirmed_replace(current@, mode, replace_confirmed) && all_importable(current@, payload.accounts@, mode)
            && mode == PortableImportMode::Replace && mnemonic_count(payload.key_sources@) <= 1
            ==> (r matches Ok(PortablePlan::Replace { accounts: v, mnemonic }) && watch_only_list(v@, payload.accounts@)
                && (mnemonic is None <==> mnemonic_count(payload.key_sources@) == 0)
                && (mnemonic matches Some(k) ==> k < payload.key_sources@.len()
                    && payload.key_sources@[k as int].kind == KeySourceKind::Mnemonic)),
{
    if mode == PortableImportMode::Replace && current.len() > 0 && !replace_confirmed {
        return Err(owned("Replace requires explicit confirmation before it can remove the active identity"));
    }
    let accounts = match profile_accounts(current, payload, mode) {
        Err(m) => {
            return Err(m);
        },
        Ok(v) => v,
    };
    if mode == PortableImportMode::Profile {
        return Ok(PortablePlan::Profiles(accounts));
    }
    let (count, first) = mnemonic_sources(&payload.key_sources);
    if count > 1 {
        return Err(owned("Wallet file has multiple mnemonic sources; refusing to choose an identity"));
    }
    Ok(PortablePlan::Replace { accounts, mnemonic: first })
}

/// A private key derived from a mnemonic for one chain.
#[derive(Clone, Debug, PartialEq, Eq)]
pub struct DerivedKey {
    pub chain: ChainId,
    pub secret: Vec<u8>,
}

/// The key derived for `chain`: the first derived key on that chain.
pub open spec fn derived_for(derived: Seq<DerivedKey>, chain: Seq<char>) -> Option<Seq<u8>>
    decreases derived.len(),
{
    if derived.len() == 0 {
        None
    } else if derived[0].chain@ == chain {
        Some(derived[0].secret@)
    } else {
        derived_for(derived.drop_first(), chain)
    }
}

/// The refusal of a mnemonic import listing a chain without a derived key.
pub open spec fn unsupported_chain_message() -> Seq<char> {
    "Wallet file contains an unsupported chain for mnemonic import"@
}

/// `s` is the private-key source made from the key derived for account `k`.
pub open spec fn derived_source_of(s: KeySource, k: KnownAccount, derived: Seq<DerivedKey>) -> bool {
    &&& s.id@ == "derived:"@ + k.chain@
    &&& s.kind == KeySourceKind::PrivateKey
    &&& derived_for(derived, k.chain@) == Some(s.secret@)
}

fn derived_lookup(derived: &Vec<DerivedKey>, chain: &str) -> (r: Option<Vec<u8>>)
    ensures
        match r {
            Some(v) => derived_for(derived@, chain@) == Some(v@),
            None => derived_for(derived@, chain@) is None,
        },
{
    let mut j: usize = 0;
    assert(derived@.subrange(0, derived@.len() as int) =~= derived@);
    while j < derived.len()
        invariant
            j <= derived@.len(),
            derived_for(derived@, chain@) == derived_for(derived@.subrange(j as int, derived@.len() as int), chain@),
        decreases derived.len() - j,
    {
        proof {
            assert(derived@.subrange(j as int, derived@.len() as int).drop_first()
                =~= derived@.subrange(j + 1, derived@.len() as int));
        }
        if str_eq(derived[j].chain.as_str(), chain) {
            return Some(derived[j].secret.clone());
        }
        j = j + 1;
    }
    None
}

/// The private-key sources a mnemonic yields for the listed accounts, in
/// account order, each named `derived:<chain>`; refused when an account's
/// chain has no derived key.
pub fn derived_key_sources(accounts: &Vec<KnownAccount>, derived: &Vec<DerivedKey>) -> (r: Result<Vec<KeySource>, String>)
    ensures
        match r {
            Ok(v) => v@.len() == accounts@.len()
                && forall|i: int| 0 <= i < v@.len() ==> derived_source_of(#[trigger] v@[i], accounts@[i], derived@),
            Err(m) => m@ == unsupported_chain_message()
                && exists|i: int| 0 <= i < accounts@.len() && (#[trigger] derived_for(derived@, accounts@[i].chain@)) is None,
        },
        r is Ok <==> forall|i: int| 0 <= i < accounts@.len() ==> (#[trigger] derived_for(derived@, accounts@[i].chain@)) is Some,
{
    let mut out: Vec<KeySource> = Vec::new();
    let mut i: usize = 0;
    while i < accounts.len()
        invariant
            i <= accounts@.len(),
            out@.len() == i,
            forall|k: int| 0 <= k < i ==> derived_source_of(#[trigger] out@[k], accounts@[k], derived@),
            forall|k: int| 0 <= k < i ==> (#[trigger] derived_for(derived@, accounts@[k].chain@)) is Some,
        decreases accounts.len() - i,
    {
        match derived_lookup(derived, accounts[i].chain.as_str()) {
            None => {
                let m = owned("Wallet file contains an unsupported chain for mnemonic import");
                assert(derived_for(derived@, accounts@[i as int].chain@) is None);
                return Err(m);
            },
            Some(secret) => {
                let id = concat2("derived:", accounts[i].chain.as_str());
                out.push(KeySource { id, kind: KeySourceKind::PrivateKey, secret });
            },
        }
        i = i + 1;
    }
    Ok(out)
}

/// The refusal of a replacing import without private-key sources.
pub open spec fn no_private_source_message() -> Seq<char> {
    "Wallet file has no private-key source; import it as a profile"@
}

/// The refusal of a file whose private-key sources and accounts differ in
/// number.
pub open spec fn ambiguous_sources_message() -> Seq<char> {
    "Wallet file key sources do not unambiguously match its accounts"@
}

/// `idx` lists, in increasing order, exactly the positions of the
/// private-key sources.
pub open spec fn private_positions(sources: Seq<KeySource>, idx: Seq<usize>) -> bool {
    &&& forall|k: int| 0 <= k < idx.len() ==> (#[trigger] idx[k]) < sources.len()
        && sources[idx[k] as int].kind == KeySourceKind::PrivateKey
    &&& forall|a: int, b: int| 0 <= a < b < idx.len() ==> #[trigger] idx[a] < #[trigger] idx[b]
    &&& forall|p: int| 0 <= p < sources.len() && (#[trigger] sources[p]).kind == KeySourceKind::PrivateKey
        ==> exists|k: int| 0 <= k < idx.len() && idx[k] == p
}

/// The positions of the private-key sources, paired in order with the
/// `account_count` accounts being imported.  Refused when there is no such
/// source, or when their number differs from the number of accounts.
pub fn private_source_positions(sources: &Vec<KeySource>, account_count: usize) -> (r: Result<Vec<usize>, String>)
    ensures
        match r {
            Ok(idx) => private_positions(sources@, idx@) && idx@.len() == account_count && account_count > 0,
            Err(m) => (m@ == no_private_source_message()
                && forall|p: int| 0 <= p < sources@.len() ==> (#[trigger] sources@[p]).kind != KeySourceKind::PrivateKey)
                || (m@ == ambiguous_sources_message() && exists|idx: Seq<usize>| private_positions(sources@, idx)
                    && idx.len() != account_count && idx.len() > 0),
        },
{
    let mut idx: Vec<usize> = Vec::new();
    let mut i: usize = 0;
    while i < sources.len()
        invariant
            i <= sources@.len(),
            idx@.len() <= i,
            forall|k: int| 0 <= k < idx@.len() ==> (#[trigger] idx@[k]) < i
                && sources@[idx@[k] as int].kind == KeySourceKind::PrivateKey,
            forall|a: int, b: int| 0 <= a < b < idx@.len() ==> #[trigger] idx@[a] < #[trigger] idx@[b],
            forall|p: int| 0 <= p < i && (#[trigger] sources@[p]).kind == KeySourceKind::PrivateKey
                ==> exists|k: int| 0 <= k < idx@.len() && idx@[k] == p,
        decreases sources.len() - i,
    {
        if sources[i].kind == KeySourceKind::PrivateKey {
            let ghost before = idx@;
            idx.push(i);
            proof {
                assert forall|p: int| 0 <= p <= i && (#[trigger] sources@[p]).kind == KeySourceKind::PrivateKey
                    implies exists|k: int| 0 <= k < idx@.len() && idx@[k] == p by {
                    if p < i {
                        let k = choose|k: int| 0 <= k < before.len() && before[k] == p;
                        assert(idx@[k] == p);
                    } else {
                        assert(idx@[before.len() as int] == p);
                    }
                }
            }
        }
        i = i + 1;
    }
    if idx.len() == 0 {
        proof {
            assert forall|p: int| 0 <= p < sources@.len() implies (#[trigger] sources@[p]).kind != KeySourceKind::PrivateKey by {
                if sources@[p].kind == KeySourceKind::PrivateKey {
                    let k = choose|k: int| 0 <= k < idx@.len() && idx@[k] == p;
                }
            }
        }
        return Err(owned("Wallet file has no private-key source; import it as a profile"));
    }
    if idx.len() != account_count {
        assert(private_positions(sources@, idx@));
        return Err(owned("Wallet file key sources do not unambiguously match its accounts"));
    }
    Ok(idx)
}

/// The refusal of a private-key source that is not 32 bytes long.
pub open spec fn invalid_private_source_message() -> Seq<char> {
    "Wallet file has an invalid private-key source"@
}

/// The 32-byte key a private-key source carries.
pub fn imported_private_key(source: &KeySource) -> (r: Result<[u8; 32], String>)
    ensures
        match r {
            Ok(key) => source.secret@.len() == 32 && key@ == source.secret@,
            Err(m) => source.secret@.len() != 32 && m@ == invalid_private_source_message(),
        },
{
    if source.secret.len() != 32 {
        return Err(owned("Wallet file has an invalid private-key source"));
    }
    let mut key = [0u8; 32];
    let mut i: usize = 0;
    while i < 32
        invariant
            i <= 32,
            source.secret@.len() == 32,
            forall|j: int| 0 <= j < i ==> key@[j] == source.secret@[j],
        decreases 32 - i,
    {
        key.set(i, source.secret[i]);
        i = i + 1;
    }
    assert(key@ =~= source.secret@);
    Ok(key)
}

/// Wraps `zeroize::Zeroize::zeroize` on a byte vector: the bytes, and the
/// spare capacity, are overwritten with zeros and the vector is emptied.
#[verifier::external_body]
fn zeroize_bytes(bytes: &mut Vec<u8>)
    ensures
        final(bytes)@.len() == 0,
{
    zeroize::Zeroize::zeroize(bytes);
}

/// Wipes the secret a key source carries.
pub fn wipe_secret(source: &mut KeySource)
    ensures
        final(source).secret@.len() == 0,
        final(source).id == old(source).id,
        final(source).kind == old(source).kind,
{
    zeroize_bytes(&mut source.secret);
}

/// `k` lists the public account `a` in an export.
pub open spec fn listed_as(k: KnownAccount, a: ChainAccount) -> bool {
    &&& k.chain@ == a.chain@
    &&& k.address@ == a.address@
    &&& k.label@ == a.name@
}

/// The derivation profile an export records for an account: its vault entry
/// (empty when it has none), its path and its name.
pub open spec fn profile_of(a: ChainAccount, path: Seq<char>) -> (Seq<char>, Seq<char>, Seq<char>) {
    (
        match a.keystore_ref {
            Some(r) => r@,
            None => Seq::empty(),
        },
        path,
        a.name@,
    )
}

/// The derivation profiles an export records, in account order: one for
/// each account with a derivation path.
pub open spec fn exported_profiles(accounts: Seq<ChainAccount>) -> Seq<(Seq<char>, Seq<char>, Seq<char>)>
    decreases accounts.len(),
{
    if accounts.len() == 0 {
        Seq::empty()
    } else {
        let rest = exported_profiles(accounts.drop_last());
        match accounts.last().derivation_path {
            Some(p) => rest.push(profile_of(accounts.last(), p@)),
            None => rest,
        }
    }
}

/// The fields of a derivation profile.
pub open spec fn profile_fields(d: DerivationProfile) -> (Seq<char>, Seq<char>, Seq<char>) {
    (d.source_id@, d.path@, d.name@)
}

/// The public part of an export: every account, listed in order, and the
/// derivation profile of each account that has a derivation path.  Key
/// sources are added afterwards, one per account holding a vault key.
pub fn export_payload(accounts: &Vec<ChainAccount>) -> (p: WalletPayload)
    ensures
        p.accounts@.len() == accounts@.len(),
        forall|i: int| 0 <= i < accounts@.len() ==> listed_as(#[trigger] p.accounts@[i], accounts@[i]),
        p.derivation_profiles@.map_values(|d: DerivationProfile| profile_fields(d)) == exported_profiles(accounts@),
        p.key_sources@.len() == 0,
{
    let mut payload = WalletPayload::new();
    let mut i: usize = 0;
    while i < accounts.len()
        invariant
            i <= accounts@.len(),
            payload.accounts@.len() == i,
            forall|k: int| 0 <= k < i ==> listed_as(#[trigger] payload.accounts@[k], accounts@[k]),
            payload.derivation_profiles@.map_values(|d: DerivationProfile| profile_fields(d))
                == exported_profiles(accounts@.subrange(0, i as int)),
            payload.key_sources@.len() == 0,
        decreases accounts.len() - i,
    {
        let account = &accounts[i];
        proof {
            assert(accounts@.subrange(0, i + 1).drop_last() =~= accounts@.subrange(0, i as int));
        }
        payload.accounts.push(KnownAccount {
            chain: owned(account.chain.as_str()),
            address: account.address.clone(),
            label: account.name.clone(),
        });
        match &account.derivation_path {
            Some(path) => {
                let source_id = match &account.keystore_ref {
                    Some(r) => r.clone(),
                    None => String::new(),
                };
                payload.derivation_profiles.push(DerivationProfile {
                    source_id,
                    path: path.clone(),
                    name: account.name.clone(),
                });
                assert(payload.derivation_profiles@.map_values(|d: DerivationProfile| profile_fields(d))
                    =~= exported_profiles(accounts@.subrange(0, i as int)).push(profile_of(*account, path@)));
            },
            None => {},
        }
        i = i + 1;
    }
    proof {
        assert(accounts@.subrange(0, i as int) =~= accounts@);
    }
    payload
}

/// Adds the key an account's vault entry holds to an export.
pub fn add_exported_key(payload: &mut WalletPayload, id: &str, key: &[u8; 32])
    ensures
        final(payload).accounts == old(payload).accounts,
        final(payload).derivation_profiles == old(payload).derivation_profiles,
        final(payload).key_sources@.len() == old(payload).key_sources@.len() + 1,
        forall|i: int| 0 <= i < old(payload).key_sources@.len()
            ==> (#[trigger] final(payload).key_sources@[i]) == old(payload).key_sources@[i],
        final(payload).key_sources@.last().id@ == id@,
        final(payload).key_sources@.last().kind == KeySourceKind::PrivateKey,
        final(payload).key_sources@.last().secret@ == key@,
{
    let mut secret: Vec<u8> = Vec::new();
    let mut i: usize = 0;
    while i < 32
        invariant
            i <= 32,
            secret@ == key@.subrange(0, i as int),
        decreases 32 - i,
    {
        secret.push(key[i]);
        i = i + 1;
    }
    assert(key@.subrange(0, 32) =~= key@);
    payload.key_sources.push(KeySource { id: owned(id), kind: KeySourceKind::PrivateKey, secret });
}

/// The vault entries of the accounts that hold a signing key, in account
/// order.
pub open spec fn vault_refs(accounts: Seq<ChainAccount>) -> Seq<Seq<char>>
    decreases accounts.len(),
{
    if accounts.len() == 0 {
        Seq::empty()
    } else {
        let rest = vault_refs(accounts.drop_last());
        match accounts.last().keystore_ref {
            Some(r) => rest.push(r@),
            None => rest,
        }
    }
}

/// The refusal to export signing keys while the session is over.
pub open spec fn export_locked_message() -> Seq<char> {
    "Unlock the wallet before exporting signing keys"@
}

/// The refusal of an export whose vault would not release a key.
pub open spec fn vault_key_refused_message() -> Seq<char> {
    "Could not unlock a platform-vault key"@
}

/// Whether the vault released the key of the `i`-th vault entry: `keys`
/// holds its answers in the order of `vault_refs`.
pub open spec fn key_released(keys: Seq<Result<[u8; 32], ()>>, i: int) -> bool {
    i < keys.len() && keys[i] is Ok
}

/// `p` is the export of `accounts` whose vault keys are `keys`: every
/// account listed, the derivation profiles recorded, and one private-key
/// source per vault entry, named by the entry and holding its key.
pub open spec fn is_export_of(p: WalletPayload, accounts: Seq<ChainAccount>, keys: Seq<Result<[u8; 32], ()>>) -> bool {
    &&& p.accounts@.len() == accounts.len()
    &&& forall|i: int| 0 <= i < accounts.len() ==> listed_as(#[trigger] p.accounts@[i], accounts[i])
    &&& p.derivation_profiles@.map_values(|d: DerivationProfile| profile_fields(d)) == exported_profiles(accounts)
    &&& p.key_sources@.len() == vault_refs(accounts).len()
    &&& forall|i: int| 0 <= i < vault_refs(accounts).len() ==> {
        &&& (#[trigger] p.key_sources@[i]).id@ == vault_refs(accounts)[i]
        &&& p.key_sources@[i].kind == KeySourceKind::PrivateKey
        &&& keys[i] matches Ok(k) && p.key_sources@[i].secret@ == k@
    }
}

fn vault_ref_list(accounts: &Vec<ChainAccount>) -> (r: Vec<String>)
    ensures
        r@.map_values(|s: String| s@) == vault_refs(accounts@),
{
    let mut r: Vec<String> = Vec::new();
    let mut i: usize = 0;
    while i < accounts.len()
        invariant
            i <= accounts@.len(),
            r@.map_values(|s: String| s@) == vault_refs(accounts@.subrange(0, i as int)),
        decreases accounts.len() - i,
    {
        proof {
            assert(accounts@.subrange(0, i + 1).drop_last() =~= accounts@.subrange(0, i as int));
        }
        match &accounts[i].keystore_ref {
            Some(id) => {
                let ghost before = r@;
                r.push(id.clone());
                proof {
                    assert(r@.map_values(|s: String| s@) =~= before.map_values(|s: String| s@).push(id@));
                }
            },
            None => {},
        }
        i = i + 1;
    }
    proof {
        assert(accounts@.subrange(0, i as int) =~= accounts@);
    }
    r
}

/// Assembles the export of the active identity at time `now`.  `keys`
/// holds the vault's answers for the accounts' vault entries, in the order
/// of `vault_refs`; a missing answer counts as a refusal.  The export is
/// refused while the session is over, and when the vault did not release
/// every key.  Encrypting the payload into a file is left to the wallet
/// file format.
pub fn export_identity(state: &AppState, now: u64, keys: &Vec<Result<[u8; 32], ()>>) -> (r: Result<WalletPayload, String>)
    ensures
        locked_at(*state, now) ==> (r matches Err(m) && m@ == export_locked_message()),
        !locked_at(*state, now) && (exists|i: int| 0 <= i < vault_refs(state.wallet.accounts@).len()
            && !#[trigger] key_released(keys@, i))
            ==> (r matches Err(m) && m@ == vault_key_refused_message()),
        !locked_at(*state, now) && (forall|i: int| 0 <= i < vault_refs(state.wallet.accounts@).len()
            ==> #[trigger] key_released(keys@, i))
            ==> (r matches Ok(p) && is_export_of(p, state.wallet.accounts@, keys@)),
{
    if state.is_locked(now) {
        return Err(owned("Unlock the wallet before exporting signing keys"));
    }
    let accounts = &state.wallet.accounts;
    let mut payload = export_payload(accounts);
    let refs = vault_ref_list(accounts);
    let ghost all_refs = vault_refs(accounts@);
    proof {
        assert(refs@.len() == all_refs.len());
    }
    let mut i: usize = 0;
    while i < refs.len()
        invariant
            i <= refs@.len(),
            !locked_at(*state, now),
            accounts == &state.wallet.accounts,
            refs@.map_values(|s: String| s@) == all_refs,
            all_refs == vault_refs(accounts@),
            payload.accounts@.len() == accounts@.len(),
            forall|k: int| 0 <= k < accounts@.len() ==> listed_as(#[trigger] payload.accounts@[k], accounts@[k]),
            payload.derivation_profiles@.map_values(|d: DerivationProfile| profile_fields(d)) == exported_profiles(accounts@),
            payload.key_sources@.len() == i,
            forall|k: int| 0 <= k < i ==> #[trigger] key_released(keys@, k),
            forall|k: int| 0 <= k < i ==> {
                &&& (#[trigger] payload.key_sources@[k]).id@ == all_refs[k]
                &&& payload.key_sources@[k].kind == KeySourceKind::PrivateKey
                &&& keys@[k] matches Ok(key) && payload.key_sources@[k].secret@ == key@
            },
        decreases refs.len() - i,
    {
        if i >= keys.len() {
            assert(!key_released(keys@, i as int));
            return Err(owned("Could not unlock a platform-vault key"));
        }
        match &keys[i] {
            Err(_) => {
                assert(!key_released(keys@, i as int));
                return Err(owned("Could not unlock a platform-vault key"));
            },
            Ok(key) => {
                let ghost before = payload.key_sources@;
                assert(refs@.map_values(|s: String| s@)[i as int] == refs@[i as int]@);
                add_exported_key(&mut payload, refs[i].as_str(), key);
                assert(key_released(keys@, i as int));
            },
        }
        i = i + 1;
    }
    Ok(payload)
}

/// The signing accounts a replacing import installs: each listed account,
/// unchanged but for its vault entry, which is the entry its key was stored
/// under.
pub fn signing_accounts(listed: &Vec<ChainAccount>, ids: &Vec<String>) -> (r: Vec<ChainAccount>)
    requires
        listed@.len() == ids@.len(),
    ensures
        r@.len() == listed@.len(),
        forall|i: int| 0 <= i < listed@.len()
            ==> #[trigger] r@[i] == (ChainAccount { keystore_ref: Some(ids@[i]), ..listed@[i] }),
{
    let mut r: Vec<ChainAccount> = Vec::new();
    let mut i: usize = 0;
    while i < listed.len()
        invariant
            i <= listed@.len(),
            listed@.len() == ids@.len(),
            r@.len() == i,
            forall|k: int| 0 <= k < i
                ==> #[trigger] r@[k] == (ChainAccount { keystore_ref: Some(ids@[k]), ..listed@[k] }),
        decreases listed.len() - i,
    {
        let mut account = listed[i].copy();
        account.keystore_ref = Some(ids[i].clone());
        r.push(account);
        i = i + 1;
    }
    r
}

/// A signing session started at `now` lasts fifteen minutes.
pub open spec fn session_deadline(now: u64) -> u64 {
    if now + 900 > u64::MAX { u64::MAX } else { (now + 900) as u64 }
}

impl AppState {
    /// Adds watch-only accounts from a profile import.
    pub fn add_profiles(&mut self, accounts: Vec<ChainAccount>) -> (s: PortableImportSummary)
        ensures
            final(self).wallet.accounts@ == old(self).wallet.accounts@ + accounts@,
            final(self).wallet.selected_account_id == old(self).wallet.selected_account_id,
            *final(self) == (AppState { wallet: final(self).wallet, ..*old(self) }),
            s == (PortableImportSummary { signing_keys_installed: 0, profiles_added: accounts@.len() as usize }),
    {
        let count = accounts.len();
        let mut accounts = accounts;
        self.wallet.accounts.append(&mut accounts);
        PortableImportSummary { signing_keys_installed: 0, profiles_added: count }
    }

    /// Replaces the wallet by imported signing accounts and starts a
    /// fifteen-minute signing session at `now` (Unix seconds).
    pub fn install_identity(&mut self, accounts: Vec<ChainAccount>, now: u64) -> (s: PortableImportSummary)
        ensures
            final(self).wallet.accounts@ == accounts@,
            final(self).wallet.selected_account_id is None,
            *final(self) == (AppState {
                wallet: final(self).wallet,
                locked: false,
                session_expires_at: Some(session_deadline(now)),
                ..*old(self)
            }),
            s == (PortableImportSummary { signing_keys_installed: accounts@.len() as usize, profiles_added: 0 }),
    {
        let count = accounts.len();
        self.wallet = WalletData { accounts, selected_account_id: None };
        self.start_wallet_session(now.saturating_add(15 * 60));
        PortableImportSummary { signing_keys_installed: count, profiles_added: 0 }
    }
}

/// A profile import only adds watch-only accounts: none of the accounts it
/// adds carries signing material, and the wallet's existing accounts stay.
pub proof fn law_profile_import_installs_no_secret(
    before: Seq<ChainAccount>,
    after: Seq<ChainAccount>,
    added: Seq<ChainAccount>,
    listed: Seq<KnownAccount>,
)
    requires
        watch_only_list(added, listed),
        after == before + added,
    ensures
        forall|i: int| before.len() <= i < after.len() ==> (#[trigger] after[i]).keystore_ref is None,
        after.subrange(0, before.len() as int) == before,
{
    assert forall|i: int| before.len() <= i < after.len() implies (#[trigger] after[i]).keystore_ref is None by {
        assert(after[i] == added[i - before.len()]);
        assert(watch_only_of(added[i - before.len()], listed[i - before.len()]));
    }
    assert(after.subrange(0, before.len() as int) =~= before);
}

/// Imports never silently merge identities: a profile import listing an
/// account the wallet already holds is refused.
pub proof fn law_profile_import_never_merges(current: Seq<ChainAccount>, listed: Seq<KnownAccount>, i: int)
    requires
        0 <= i < listed.len(),
        has_account(current, listed[i].chain@, listed[i].address@),
    ensures
        !all_importable(current, listed, PortableImportMode::Profile),
{
    assert(account_problem(current, listed[i], PortableImportMode::Profile) is Some);
}

proof fn lemma_vault_refs_all(accounts: Seq<ChainAccount>)
    requires
        forall|i: int| 0 <= i < accounts.len() ==> (#[trigger] accounts[i]).keystore_ref is Some,
    ensures
        vault_refs(accounts).len() == accounts.len(),
        forall|i: int| 0 <= i < accounts.len()
            ==> ((#[trigger] accounts[i]).keystore_ref matches Some(r) && vault_refs(accounts)[i] == r@),
    decreases accounts.len(),
{
    if accounts.len() > 0 {
        let prefix = accounts.drop_last();
        assert forall|i: int| 0 <= i < prefix.len() implies (#[trigger] prefix[i]).keystore_ref is Some by {
            assert(prefix[i] == accounts[i]);
        }
        lemma_vault_refs_all(prefix);
        assert forall|i: int| 0 <= i < accounts.len() implies ((#[trigger] accounts[i]).keystore_ref matches Some(r)
            && vault_refs(accounts)[i] == r@) by {
            if i < accounts.len() - 1 {
                assert(prefix[i] == accounts[i]);
            }
        }
    }
}

proof fn lemma_increasing_positions_are_identity(idx: Seq<usize>, n: int)
    requires
        idx.len() == n,
        forall|k: int| 0 <= k < idx.len() ==> (#[trigger] idx[k]) < n,
        forall|a: int, b: int| 0 <= a < b < idx.len() ==> #[trigger] idx[a] < #[trigger] idx[b],
    ensures
        forall|k: int| 0 <= k < n ==> #[trigger] idx[k] == k,
{
    assert forall|k: int| 0 <= k < n implies #[trigger] idx[k] >= k by {
        lemma_increasing_lower(idx, k);
    }
    assert forall|k: int| 0 <= k < n implies #[trigger] idx[k] <= k by {
        lemma_increasing_upper(idx, n, k);
    }
}

proof fn lemma_increasing_lower(idx: Seq<usize>, k: int)
    requires
        0 <= k < idx.len(),
        forall|a: int, b: int| 0 <= a < b < idx.len() ==> #[trigger] idx[a] < #[trigger] idx[b],
    ensures
        idx[k] >= k,
    decreases k,
{
    if k > 0 {
        lemma_increasing_lower(idx, k - 1);
        assert(idx[k - 1] < idx[k]);
    }
}

proof fn lemma_increasing_upper(idx: Seq<usize>, n: int, k: int)
    requires
        idx.len() == n,
        0 <= k < n,
        forall|j: int| 0 <= j < idx.len() ==> (#[trigger] idx[j]) < n,
        forall|a: int, b: int| 0 <= a < b < idx.len() ==> #[trigger] idx[a] < #[trigger] idx[b],
    ensures
        idx[k] <= k,
    decreases n - k,
{
    if k < n - 1 {
        lemma_increasing_upper(idx, n, k + 1);
        assert(idx[k] < idx[k + 1]);
    } else {
        assert(idx[k] < n);
    }
}

proof fn lemma_no_mnemonic(sources: Seq<KeySource>)
    requires
        forall|i: int| 0 <= i < sources.len() ==> (#[trigger] sources[i]).kind == KeySourceKind::PrivateKey,
    ensures
        mnemonic_count(sources) == 0,
    decreases sources.len(),
{
    reveal_with_fuel(Seq::filter, 1);
    if sources.len() > 0 {
        let prefix = sources.drop_last();
        assert forall|i: int| 0 <= i < prefix.len() implies (#[trigger] prefix[i]).kind == KeySourceKind::PrivateKey by {
            assert(prefix[i] == sources[i]);
        }
        lemma_no_mnemonic(prefix);
        assert(sources.last().kind == KeySourceKind::PrivateKey);
    }
}

/// Exporting an identity and importing the file in `Replace` mode gives the
/// identity back.  `p` is the export of `accounts` (every one holding a vault
/// key) with vault keys `keys`; `listed` are the accounts the import reads
/// from `p`, `idx` the private-key positions it pairs with them, and
/// `installed` the signing accounts it installs under the new vault entries
/// `ids`.  Then the file carries no mnemonic, the `i`-th account comes back
/// with the same chain, address and name, and the key stored for it is the
/// key that was exported for it.
pub proof fn law_export_import_round_trip(
    accounts: Seq<ChainAccount>,
    keys: Seq<Result<[u8; 32], ()>>,
    p: WalletPayload,
    listed: Seq<ChainAccount>,
    idx: Seq<usize>,
    ids: Seq<String>,
    installed: Seq<ChainAccount>,
)
    requires
        forall|i: int| 0 <= i < accounts.len() ==> (#[trigger] accounts[i]).keystore_ref is Some,
        is_export_of(p, accounts, keys),
        watch_only_list(listed, p.accounts@),
        private_positions(p.key_sources@, idx),
        idx.len() == listed.len(),
        ids.len() == listed.len(),
        installed.len() == listed.len(),
        forall|i: int| 0 <= i < listed.len()
            ==> #[trigger] installed[i] == (ChainAccount { keystore_ref: Some(ids[i]), ..listed[i] }),
    ensures
        mnemonic_count(p.key_sources@) == 0,
        installed.len() == accounts.len(),
        forall|i: int| 0 <= i < accounts.len() ==> {
            &&& (#[trigger] installed[i]).chain@ == accounts[i].chain@
            &&& installed[i].address@ == accounts[i].address@
            &&& installed[i].name@ == accounts[i].name@
            &&& installed[i].keystore_ref == Some(ids[i])
            &&& idx[i] == i
            &&& p.key_sources@[i].kind == KeySourceKind::PrivateKey
            &&& keys[i] matches Ok(k) && p.key_sources@[idx[i] as int].secret@ == k@
        },
{
    lemma_vault_refs_all(accounts);
    let n = accounts.len() as int;
    assert(p.key_sources@.len() == n);
    lemma_increasing_positions_are_identity(idx, n);
    assert forall|i: int| 0 <= i < p.key_sources@.len() implies (#[trigger] p.key_sources@[i]).kind == KeySourceKind::PrivateKey by {
        assert(0 <= i < vault_refs(accounts).len());
    }
    lemma_no_mnemonic(p.key_sources@);
    assert forall|i: int| 0 <= i < accounts.len() implies {
        &&& (#[trigger] installed[i]).chain@ == accounts[i].chain@
        &&& installed[i].address@ == accounts[i].address@
        &&& installed[i].name@ == accounts[i].name@
        &&& installed[i].keystore_ref == Some(ids[i])
        &&& idx[i] == i
        &&& p.key_sources@[i].kind == KeySourceKind::PrivateKey
        &&& keys[i] matches Ok(k) && p.key_sources@[idx[i] as int].secret@ == k@
    } by {
        assert(listed_as(p.accounts@[i], accounts[i]));
        assert(watch_only_of(listed[i], p.accounts@[i]));
        assert(installed[i] == (ChainAccount { keystore_ref: Some(ids[i]), ..listed[i] }));
        assert(0 <= i < vault_refs(accounts).len());
        assert(p.key_sources@[i].kind == KeySourceKind::PrivateKey);
        assert(idx[i] == i);
    }
}

} // verus!
