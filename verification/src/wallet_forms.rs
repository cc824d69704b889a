//! The wallet's own screens: the wallet page's tabs and forms, the custody
//! panel of the settings, and the header's session indicator.

use vstd::prelude::*;
use crate::chain::ChainId;
use crate::records::{ChainAccount, NotificationKind};
use crate::state::WalletData;
use crate::state::{erase_confirmed, AppState, locked_at};
use crate::text::{concat2, concat3, decimal, owned, str_eq, u64_to_string};

verus! {

/// The wallet page's tabs.
#[derive(Clone, Copy, Debug, PartialEq, Eq, Structural)]
pub enum WalletTab {
    Accounts,
    AddAccount,
    Export,
    Import,
}

impl WalletTab {
    /// The tabs, in order.
    pub fn all() -> (r: [WalletTab; 4])
        ensures
            r@ == seq![WalletTab::Accounts, WalletTab::AddAccount, WalletTab::Export, WalletTab::Import],
    {
        let r = [WalletTab::Accounts, WalletTab::AddAccount, WalletTab::Export, WalletTab::Import];
        assert(r@ =~= seq![WalletTab::Accounts, WalletTab::AddAccount, WalletTab::Export, WalletTab::Import]);
        r
    }

    /// The tab's title.
    pub fn label(self) -> (s: &'static str)
        ensures
            s@ == (match self {
                WalletTab::Accounts => "Accounts"@,
                WalletTab::AddAccount => "Add Account"@,
                WalletTab::Export => "Export"@,
                WalletTab::Import => "Import"@,
            }),
    {
        match self {
            WalletTab::Accounts => "Accounts",
            WalletTab::AddAccount => "Add Account",
            WalletTab::Export => "Export",
            WalletTab::Import => "Import",
        }
    }
}

/// The account count as the wallet page's title shows it.
pub fn account_status_text(count: usize) -> (s: String)
    ensures
        count == 0 ==> s@ == "No accounts"@,
        count == 1 ==> s@ == "1 local account"@,
        count > 1 ==> s@ == decimal(count as nat) + " local accounts"@,
{
    if count == 0 {
        owned("No accounts")
    } else if count == 1 {
        owned("1 local account")
    } else {
        concat2(u64_to_string(count as u64).as_str(), " local accounts")
    }
}

/// The display name of a chain.
pub open spec fn chain_display_name(chain: Seq<char>) -> Seq<char> {
    if chain == "bitcoin"@ {
        "Bitcoin"@
    } else if chain == "ethereum"@ {
        "Ethereum"@
    } else if chain == "sui"@ {
        "Sui"@
    } else if chain == "aptos"@ {
        "Aptos"@
    } else if chain == "solana"@ {
        "Solana"@
    } else {
        "Unknown"@
    }
}

/// The display name of a chain.
pub fn chain_name(chain: &ChainId) -> (s: &'static str)
    ensures
        s@ == chain_display_name(chain@),
{
    if chain.is("bitcoin") {
        "Bitcoin"
    } else if chain.is("ethereum") {
        "Ethereum"
    } else if chain.is("sui") {
        "Sui"
    } else if chain.is("aptos") {
        "Aptos"
    } else if chain.is("solana") {
        "Solana"
    } else {
        "Unknown"
    }
}

/// The title of a chain's account section: its name and account count.
pub fn chain_section_title(chain: &ChainId, count: usize) -> (s: String)
    ensures
        s@ == chain_display_name(chain@) + " ("@ + decimal(count as nat) + ")"@,
{
    let mut s = concat3(chain_name(chain), " (", u64_to_string(count as u64).as_str());
    s.append(")");
    s
}

/// The warning of the account-removal confirmation.
pub fn removal_warning(chain: &ChainId) -> (s: String)
    ensures
        s@ == "This removes the local "@ + chain_display_name(chain@)
            + " account record and its encrypted key from this wallet. Make sure you have a backup before continuing."@,
{
    concat3(
        "This removes the local ",
        chain_name(chain),
        " account record and its encrypted key from this wallet. Make sure you have a backup before continuing.",
    )
}

/// The label of the key-storage toggle of an account row.
pub fn storage_toggle_label(showing: bool) -> (s: &'static str)
    ensures
        s@ == (if showing { "Hide storage details"@ } else { "Key storage details"@ }),
{
    if showing { "Hide storage details" } else { "Key storage details" }
}

/// The name a new account gets: the one typed, else the chain's.
pub fn new_account_name(typed: &str, chain: &ChainId) -> (s: String)
    ensures
        s@ == (if typed@.len() == 0 { chain@ } else { typed@ }),
{
    if typed.unicode_len() == 0 {
        owned(chain.as_str())
    } else {
        owned(typed)
    }
}

/// Refuses to import a key without a passphrase to encrypt it.
pub fn require_passphrase(passphrase: &str) -> (r: Result<(), String>)
    ensures
        r is Ok <==> passphrase@.len() > 0,
        r matches Err(m) ==> m@ == "Passphrase is required"@,
{
    if passphrase.unicode_len() == 0 {
        Err(owned("Passphrase is required"))
    } else {
        Ok(())
    }
}

/// The confirmation of an added account.
pub fn account_added_message(chain: &ChainId) -> (s: String)
    ensures
        s@ == "Account added for "@ + chain@ + "!"@,
{
    concat3("Account added for ", chain.as_str(), "!")
}

/// The least length, in bytes, of an export-file password.
pub const MIN_EXPORT_PASSWORD_BYTES: usize = 12;

/// Checks the export-file password and its confirmation: at least twelve
/// bytes, and typed the same twice.
pub fn check_export_passwords(file_password: &str, confirmation: &str) -> (r: Result<(), String>)
    ensures
        file_password.len() < 12 ==> (r matches Err(m) && m@ == "Use an export-file password with at least 12 characters."@),
        file_password.len() >= 12 && file_password@ != confirmation@
            ==> (r matches Err(m) && m@ == "The export-file passwords do not match."@),
        file_password.len() >= 12 && file_password@ == confirmation@ ==> r is Ok,
{
    if file_password.len() < MIN_EXPORT_PASSWORD_BYTES {
        return Err(owned("Use an export-file password with at least 12 characters."));
    }
    if !str_eq(file_password, confirmation) {
        return Err(owned("The export-file passwords do not match."));
    }
    Ok(())
}

/// Whether there is anything to export.
pub fn export_enabled(account_count: usize) -> (b: bool)
    ensures
        b == (account_count > 0),
{
    account_count > 0
}

/// The custody state the settings and the header show.
#[derive(Clone, Copy, Debug, PartialEq, Eq, Structural)]
pub enum CustodyStatus {
    /// No local wallet data.
    NoWallet,
    /// The signing session is over; metadata is kept.
    Locked,
    /// A signing session is open.
    Unlocked,
}

/// The custody state of a wallet at time `now`.
pub open spec fn custody_of(s: AppState, now: u64) -> CustodyStatus {
    if s.wallet.accounts@.len() == 0 {
        CustodyStatus::NoWallet
    } else if locked_at(s, now) {
        CustodyStatus::Locked
    } else {
        CustodyStatus::Unlocked
    }
}

/// What the custody panel offers.
#[derive(Clone, Copy, Debug, PartialEq, Eq, Structural)]
pub enum CustodyAction {
    Unlock,
    Lock,
}

impl CustodyStatus {
    /// The custody state of `state` at time `now`.
    pub fn of(state: &AppState, now: u64) -> (c: Self)
        ensures
            c == custody_of(*state, now),
    {
        if !state.is_initialized() {
            CustodyStatus::NoWallet
        } else if state.is_locked(now) {
            CustodyStatus::Locked
        } else {
            CustodyStatus::Unlocked
        }
    }

    /// The wording of the state.
    pub fn text(self) -> (s: &'static str)
        ensures
            s@ == (match self {
                CustodyStatus::NoWallet => "No local wallet data"@,
                CustodyStatus::Locked => "Locked — metadata retained"@,
                CustodyStatus::Unlocked => "Unlocked signing session"@,
            }),
    {
        match self {
            CustodyStatus::NoWallet => "No local wallet data",
            CustodyStatus::Locked => "Locked — metadata retained",
            CustodyStatus::Unlocked => "Unlocked signing session",
        }
    }

    /// The style of the state's indicator.
    pub fn indicator_class(self) -> (s: &'static str)
        ensures
            s@ == (match self {
                CustodyStatus::NoWallet => "bg-gray-500"@,
                CustodyStatus::Locked => "bg-amber-500"@,
                CustodyStatus::Unlocked => "bg-green-500 status-online"@,
            }),
    {
        match self {
            CustodyStatus::NoWallet => "bg-gray-500",
            CustodyStatus::Locked => "bg-amber-500",
            CustodyStatus::Unlocked => "bg-green-500 status-online",
        }
    }

    /// What the custody panel offers: unlocking a locked wallet, locking an
    /// open session, nothing without a wallet.
    pub fn action(self) -> (a: Option<CustodyAction>)
        ensures
            a == (match self {
                CustodyStatus::NoWallet => None,
                CustodyStatus::Locked => Some(CustodyAction::Unlock),
                CustodyStatus::Unlocked => Some(CustodyAction::Lock),
            }),
    {
        match self {
            CustodyStatus::NoWallet => None,
            CustodyStatus::Locked => Some(CustodyAction::Unlock),
            CustodyStatus::Unlocked => Some(CustodyAction::Lock),
        }
    }
}

/// Whether the permanent erase may be pressed: only once `ERASE` is typed.
pub fn erase_enabled(typed: &str) -> (b: bool)
    ensures
        b == erase_confirmed(typed@),
{
    str_eq(typed, "ERASE")
}

/// The header's session indicator: shown for the active address, with its
/// style and wording.
pub fn session_indicator(locked: bool) -> (r: (&'static str, &'static str))
    ensures
        locked ==> r.0@ == "w-2 h-2 rounded-full bg-amber-500"@ && r.1@ == "Locked"@,
        !locked ==> r.0@ == "w-2 h-2 rounded-full bg-green-500"@ && r.1@ == "Unlocked"@,
{
    if locked {
        ("w-2 h-2 rounded-full bg-amber-500", "Locked")
    } else {
        ("w-2 h-2 rounded-full bg-green-500", "Unlocked")
    }
}

/// Whether the header offers to lock: only during an open session.
pub fn header_offers_lock(state: &AppState, now: u64) -> (b: bool)
    ensures
        b == (state.wallet.accounts@.len() > 0 && !locked_at(*state, now)),
{
    state.is_initialized() && !state.is_locked(now)
}

/// The sidebar toggle's label and icon.
pub fn sidebar_toggle(sidebar_open: bool) -> (r: (&'static str, &'static str))
    ensures
        sidebar_open ==> r.0@ == "Collapse navigation"@ && r.1@ == "◀"@,
        !sidebar_open ==> r.0@ == "Expand navigation"@ && r.1@ == "▶"@,
{
    if sidebar_open {
        ("Collapse navigation", "◀")
    } else {
        ("Expand navigation", "▶")
    }
}

/// The style and icon of a notification banner.
pub fn notification_style(kind: NotificationKind) -> (r: (&'static str, &'static str))
    ensures
        (r.0@, r.1@) == (match kind {
            NotificationKind::Success => ("bg-green-900/30 border-green-700/50 text-green-300"@, "✅"@),
            NotificationKind::Error => ("bg-red-900/30 border-red-700/50 text-red-300"@, "❌"@),
            NotificationKind::Info => ("bg-blue-900/30 border-blue-700/50 text-blue-300"@, "ℹ"@),
            NotificationKind::Warning => ("bg-yellow-900/30 border-yellow-700/50 text-yellow-300"@, "⚠"@),
        }),
{
    match kind {
        NotificationKind::Success => ("bg-green-900/30 border-green-700/50 text-green-300", "✅"),
        NotificationKind::Error => ("bg-red-900/30 border-red-700/50 text-red-300", "❌"),
        NotificationKind::Info => ("bg-blue-900/30 border-blue-700/50 text-blue-300", "ℹ"),
        NotificationKind::Warning => ("bg-yellow-900/30 border-yellow-700/50 text-yellow-300", "⚠"),
    }
}

/// What the seal form answers: seals are created by the runtime host, never
/// locally, and there must be a Sanad to seal.
pub fn create_seal_outcome(has_sanads: bool) -> (s: &'static str)
    ensures
        s@ == (if has_sanads {
            "Seal creation requires a configured CSV runtime host. The wallet does not create or lock seals locally."@
        } else {
            "No sanads available to seal"@
        }),
{
    if has_sanads {
        "Seal creation requires a configured CSV runtime host. The wallet does not create or lock seals locally."
    } else {
        "No sanads available to seal"
    }
}

/// The label of the seal form's action.
pub fn create_seal_label(has_sanads: bool) -> (s: &'static str)
    ensures
        s@ == (if has_sanads { "Create Seal"@ } else { "No Sanads Available"@ }),
{
    if has_sanads { "Create Seal" } else { "No Sanads Available" }
}

/// What the Sanad form answers: Sanads are created by the runtime host.
pub fn create_sanad_outcome() -> (s: &'static str)
    ensures
        s@ == "Sanad creation requires a configured CSV runtime host. The wallet does not fabricate Sanad, seal, or commitment records locally."@,
{
    "Sanad creation requires a configured CSV runtime host. The wallet does not fabricate Sanad, seal, or commitment records locally."
}

/// What the seal check answers: cached records are no authority.
pub fn verify_seal_outcome() -> (s: &'static str)
    ensures
        s@ == "Seal status must be obtained from the configured CSV runtime host. Cached wallet records are not authority for consumption or availability."@,
{
    "Seal status must be obtained from the configured CSV runtime host. Cached wallet records are not authority for consumption or availability."
}

impl AppState {
    /// The address that would sign on a chain at time `now`: none while the
    /// wallet is locked, else the first account's on that chain.
    pub fn signer_address(&self, chain: &ChainId, now: u64) -> (r: Option<String>)
        ensures
            locked_at(*self, now) ==> r is None,
            !locked_at(*self, now) ==> match r {
                None => self.wallet.accounts@.filter(|x: ChainAccount| x.chain@ == chain@).len() == 0,
                Some(a) => self.wallet.accounts@.filter(|x: ChainAccount| x.chain@ == chain@).len() > 0
                    && a@ == self.wallet.accounts@.filter(|x: ChainAccount| x.chain@ == chain@)[0].address@,
            },
    {
        if self.is_locked(now) {
            return None;
        }
        let accounts = self.wallet.accounts_for_chain(chain);
        if accounts.len() == 0 {
            None
        } else {
            Some(accounts[0].address.clone())
        }
    }
}

impl WalletData {
    /// Whether an account with the given identifier exists; its address is
    /// left as it is.  The first such account's address must begin with
    /// eight bytes ending on a character boundary.
    pub fn refresh_account_address(&self, account_id: &str) -> (r: Result<bool, ()>)
        requires
            forall|j: int| 0 <= j < self.accounts@.len() && (#[trigger] self.accounts@[j]).id@ == account_id@
                && (forall|k: int| 0 <= k < j ==> self.accounts@[k].id@ != account_id@)
                ==> vstd::utf8::is_char_boundary(vstd::utf8::encode_utf8(self.accounts@[j].address@), 8),
        ensures
            r == Ok::<bool, ()>(exists|j: int| 0 <= j < self.accounts@.len() && (#[trigger] self.accounts@[j]).id@ == account_id@),
    {
        let mut i: usize = 0;
        while i < self.accounts.len()
            invariant
                i <= self.accounts@.len(),
                forall|j: int| 0 <= j < i ==> (#[trigger] self.accounts@[j]).id@ != account_id@,
            decreases self.accounts.len() - i,
        {
            if str_eq(self.accounts[i].id.as_str(), account_id) {
                assert(self.accounts@[i as int].id@ == account_id@);
                return Ok(true);
            }
            i = i + 1;
        }
        Ok(false)
    }
}

} // verus!
