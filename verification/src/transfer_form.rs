//! The cross-chain transfer form: what must hold before a transfer may be
//! reviewed and submitted, what the review screen shows, and what the user
//! is told at each step.
//!
//! A transfer moves value, so the form refuses to submit anything the user
//! has not confirmed on the review screen, and it never signs with a
//! watch-only account.

use vstd::prelude::*;
use crate::chain::ChainId;
use crate::ids::{hex_refusal, parse_sanad_id, without_0x, SanadId};
use crate::codec::hex_decoded;
use crate::records::{ChainAccount, ContractRecord, SanadStatus, TrackedSanad};
use crate::lifecycle::{phase_journal, phase_journal_name, NextAction, ReceiptBody, TransferEvent, TransferReceipt};
use crate::state::AppState;
use crate::text::{concat2, concat3, decimal, owned, str_eq, u64_to_string};

verus! {

/// User-visible data bound to a review: the fields the confirmation shows,
/// rather than an opaque signing payload.
#[derive(Clone, Debug, PartialEq, Eq)]
pub struct TransferReviewIntent {
    pub origin: Option<String>,
    pub signer: String,
    pub source_chain: String,
    pub destination_chain: String,
    pub recipient: String,
    pub asset: String,
    pub amount: String,
    pub fee: String,
    pub fee_provenance: &'static str,
    pub preflight_ok: bool,
    pub corrective_action: Option<String>,
    pub unknown_recipient: bool,
    pub unknown_contract: bool,
}

impl TransferReviewIntent {
    /// Whether the review may be confirmed: only after a passed preflight and
    /// the user's final acknowledgement.
    pub fn can_confirm(&self, final_confirmation: bool) -> (b: bool)
        ensures
            b == (self.preflight_ok && final_confirmation),
    {
        self.preflight_ok && final_confirmation
    }
}

/// The review of a transfer intent delivered from outside the wallet (a
/// link, a file, a relay): validated at the delivery boundary, it still
/// needs the user's confirmation, and its recipient and contract are
/// unknown.
pub fn inbound_review_intent(
    origin: String,
    chain: String,
    network: String,
    recipient: String,
    unit: String,
    amount: String,
) -> (r: TransferReviewIntent)
    ensures
        r.origin == Some(origin),
        r.signer@ == "Local wallet signer"@,
        r.source_chain == chain,
        r.destination_chain == network,
        r.recipient == recipient,
        r.asset == unit,
        r.amount == amount,
        r.fee@ == "Provided by runtime preflight"@,
        r.fee_provenance@ == "estimated"@,
        r.preflight_ok,
        r.corrective_action is None,
        r.unknown_recipient,
        r.unknown_contract,
{
    TransferReviewIntent {
        origin: Some(origin),
        signer: owned("Local wallet signer"),
        source_chain: chain,
        destination_chain: network,
        recipient,
        asset: unit,
        amount,
        fee: owned("Provided by runtime preflight"),
        fee_provenance: "estimated",
        preflight_ok: true,
        corrective_action: None,
        unknown_recipient: true,
        unknown_contract: true,
    }
}

/// The least balance, in the chain's raw units, a destination account needs
/// to pay for minting: 0.01 SUI, 0.01 APT, 0.001 ETH, 0.001 SOL; Bitcoin
/// needs no pre-funded destination.
pub open spec fn min_gas_balance(chain: Seq<char>) -> u64 {
    if chain == "sui"@ {
        10_000_000
    } else if chain == "aptos"@ {
        1_000_000
    } else if chain == "ethereum"@ {
        1_000_000_000_000_000
    } else if chain == "solana"@ {
        1_000_000
    } else {
        0
    }
}

/// The least destination balance, in raw units, for gas on a chain.
pub fn min_destination_balance(chain: &ChainId) -> (b: u64)
    ensures
        b == min_gas_balance(chain@),
{
    if chain.is("sui") {
        10_000_000
    } else if chain.is("aptos") {
        1_000_000
    } else if chain.is("ethereum") {
        1_000_000_000_000_000
    } else if chain.is("solana") {
        1_000_000
    } else {
        0
    }
}

/// The least destination balance for gas, as the user reads it; `fallback`
/// for other chains.
pub open spec fn gas_minimum_text(chain: Seq<char>, fallback: Seq<char>) -> Seq<char> {
    if chain == "sui"@ {
        "0.01 SUI"@
    } else if chain == "aptos"@ {
        "0.01 APT"@
    } else if chain == "ethereum"@ {
        "0.001 ETH"@
    } else if chain == "solana"@ {
        "0.001 SOL"@
    } else {
        fallback
    }
}

/// The least destination balance for gas, as the user reads it.
pub fn gas_minimum_label(chain: &ChainId, fallback: &'static str) -> (s: &'static str)
    ensures
        s@ == gas_minimum_text(chain@, fallback@),
{
    if chain.is("sui") {
        "0.01 SUI"
    } else if chain.is("aptos") {
        "0.01 APT"
    } else if chain.is("ethereum") {
        "0.001 ETH"
    } else if chain.is("solana") {
        "0.001 SOL"
    } else {
        fallback
    }
}

/// Active Sanads.
pub open spec fn is_active() -> spec_fn(TrackedSanad) -> bool {
    |x: TrackedSanad| x.status == SanadStatus::Active
}

/// The facts the form decides on.
#[derive(Clone, Debug, PartialEq, Eq)]
pub struct TransferChecks {
    pub source_chain: ChainId,
    pub destination_chain: ChainId,
    /// The active Sanads on the source chain, in order.
    pub sanads: Vec<TrackedSanad>,
    /// The accounts on the source chain, in order.
    pub accounts: Vec<ChainAccount>,
    /// The position of the chosen source account.
    pub selected_account: usize,
    pub destination_accounts: usize,
    pub source_contracts: usize,
    /// The contracts on the destination chain, in order.
    pub target_contracts: Vec<ContractRecord>,
    /// The destination account's balance, in raw units.
    pub destination_balance: u64,
}

/// The refusal of an unconfirmed transfer.
pub open spec fn unreviewed_message() -> Seq<char> {
    "A value-bearing transfer must be confirmed on the review screen."@
}

impl TransferChecks {
    /// The checks for a transfer from `source` to `destination` in `state`,
    /// with source account `selected_account` chosen and the destination
    /// balance last read.
    pub fn from_state(
        state: &AppState,
        source: ChainId,
        destination: ChainId,
        selected_account: usize,
        destination_balance: u64,
    ) -> (c: Self)
        ensures
            c.source_chain == source,
            c.destination_chain == destination,
            c.sanads@ == state.sanads@.filter(|x: TrackedSanad| x.chain@ == source@).filter(is_active()),
            c.accounts@ == state.wallet.accounts@.filter(|x: ChainAccount| x.chain@ == source@),
            c.selected_account == selected_account,
            c.destination_accounts == state.wallet.accounts@.filter(|x: ChainAccount| x.chain@ == destination@).len(),
            c.source_contracts == state.contracts@.filter(|x: ContractRecord| x.chain@ == source@).len(),
            c.target_contracts@ == state.contracts@.filter(|x: ContractRecord| x.chain@ == destination@),
            c.destination_balance == destination_balance,
    {
        let on_source = state.sanads_for_chain(&source);
        let mut sanads: Vec<TrackedSanad> = Vec::new();
        let mut i: usize = 0;
        while i < on_source.len()
            invariant
                i <= on_source@.len(),
                sanads@ == on_source@.subrange(0, i as int).filter(is_active()),
            decreases on_source.len() - i,
        {
            proof {
                reveal_with_fuel(Seq::filter, 1);
                assert(on_source@.subrange(0, i + 1).drop_last() =~= on_source@.subrange(0, i as int));
            }
            if on_source[i].status == SanadStatus::Active {
                sanads.push(on_source[i].copy());
            }
            i = i + 1;
        }
        proof {
            assert(on_source@.subrange(0, i as int) =~= on_source@);
        }
        let accounts = state.wallet.accounts_for_chain(&source);
        let destination_accounts = state.wallet.accounts_for_chain(&destination).len();
        let source_contracts = state.contracts_for_chain(&source).len();
        let target_contracts = state.contracts_for_chain(&destination);
        TransferChecks {
            source_chain: source,
            destination_chain: destination,
            sanads,
            accounts,
            selected_account,
            destination_accounts,
            source_contracts,
            target_contracts,
            destination_balance,
        }
    }

    /// Whether an active Sanad is available on the source chain.
    pub open spec fn has_sanads(&self) -> bool {
        self.sanads@.len() > 0
    }

    /// Whether the source chain has an account.
    pub open spec fn has_account(&self) -> bool {
        self.accounts@.len() > 0
    }

    /// Whether the chosen source account exists and cannot sign.
    pub open spec fn watch_only_selected(&self) -> bool {
        self.selected_account < self.accounts@.len() && self.accounts@[self.selected_account as int].keystore_ref is None
    }

    /// Whether the source chain has a contract; a UTXO chain needs none.
    pub open spec fn has_source_contract(&self) -> bool {
        self.source_contracts > 0 || self.source_chain@ == "bitcoin"@
    }

    /// Whether the destination chain has a contract.
    pub open spec fn has_target_contract(&self) -> bool {
        self.target_contracts@.len() > 0
    }

    /// Whether the destination chain has an account to pay gas.
    pub open spec fn has_destination_account(&self) -> bool {
        self.destination_accounts > 0
    }

    /// Whether the destination account holds enough for gas.
    pub open spec fn has_gas(&self) -> bool {
        self.destination_balance >= min_gas_balance(self.destination_chain@)
    }

    /// Whether everything a transfer needs is in place.
    pub open spec fn ready(&self) -> bool {
        &&& self.has_sanads()
        &&& self.has_account()
        &&& !self.watch_only_selected()
        &&& self.has_target_contract()
        &&& self.has_destination_account()
        &&& self.has_gas()
    }

    fn watch_only_exec(&self) -> (b: bool)
        ensures
            b == self.watch_only_selected(),
    {
        self.selected_account < self.accounts.len() && self.accounts[self.selected_account].is_watch_only()
    }

    fn gas_exec(&self) -> (b: bool)
        ensures
            b == self.has_gas(),
    {
        self.destination_balance >= min_destination_balance(&self.destination_chain)
    }

    /// Whether the preflight passes, so that the review may be confirmed.
    pub fn preflight_ok(&self) -> (b: bool)
        ensures
            b == self.ready(),
    {
        self.sanads.len() > 0 && self.accounts.len() > 0 && !self.watch_only_exec() && self.target_contracts.len() > 0
            && self.destination_accounts > 0 && self.gas_exec()
    }

    /// Why the transfer may not be submitted yet, in the order the checks
    /// run; `None` when it may.
    pub open spec fn refusal(&self, review_approved: bool) -> Option<Seq<char>> {
        if !review_approved {
            Some(unreviewed_message())
        } else if !self.has_source_contract() {
            Some("No contract deployed on "@ + self.source_chain@
                + ". Deploy contracts manually using Foundry/forge and set the address with `csv contracts set "@
                + self.source_chain@ + " <address>`."@)
        } else if !self.has_target_contract() {
            Some("No contract deployed on "@ + self.destination_chain@
                + ". Deploy contracts manually using Foundry/forge and set the address with `csv contracts set "@
                + self.destination_chain@ + " <address>`."@)
        } else if !self.has_destination_account() {
            Some("No account available for destination chain "@ + self.destination_chain@
                + ". Please add an account first."@)
        } else if !self.has_gas() {
            Some("Destination account on "@ + self.destination_chain@ + " needs at least "@
                + gas_minimum_text(self.destination_chain@, "funds"@) + " for gas fees. Please fund your account first."@)
        } else if !self.has_account() {
            Some("No account available for "@ + self.source_chain@ + ". Please add an account first."@)
        } else if !self.has_sanads() {
            Some("No active sanads available for "@ + self.source_chain@ + ". Create a sanad first."@)
        } else {
            None
        }
    }

    /// Why the transfer may not be submitted yet; `None` when it may.
    pub fn submit_refusal(&self, review_approved: bool) -> (r: Option<String>)
        ensures
            match r {
                Some(m) => self.refusal(review_approved) == Some(m@),
                None => self.refusal(review_approved) is None,
            },
    {
        let from = self.source_chain.as_str();
        let to = self.destination_chain.as_str();
        if !review_approved {
            return Some(owned("A value-bearing transfer must be confirmed on the review screen."));
        }
        if !(self.source_contracts > 0 || self.source_chain.is("bitcoin")) {
            let mut s = concat3("No contract deployed on ", from,
                ". Deploy contracts manually using Foundry/forge and set the address with `csv contracts set ");
            s.append(from);
            s.append(" <address>`.");
            return Some(s);
        }
        if self.target_contracts.len() == 0 {
            let mut s = concat3("No contract deployed on ", to,
                ". Deploy contracts manually using Foundry/forge and set the address with `csv contracts set ");
            s.append(to);
            s.append(" <address>`.");
            return Some(s);
        }
        if self.destination_accounts == 0 {
            return Some(concat3("No account available for destination chain ", to, ". Please add an account first."));
        }
        if !self.gas_exec() {
            let mut s = concat3("Destination account on ", to, " needs at least ");
            s.append(gas_minimum_label(&self.destination_chain, "funds"));
            s.append(" for gas fees. Please fund your account first.");
            return Some(s);
        }
        if self.accounts.len() == 0 {
            return Some(concat3("No account available for ", from, ". Please add an account first."));
        }
        if self.sanads.len() == 0 {
            return Some(concat3("No active sanads available for ", from, ". Create a sanad first."));
        }
        None
    }

    /// The label of the form's main action, naming the first thing missing.
    pub open spec fn action_text(&self, executing: bool) -> Seq<char> {
        if executing {
            "Executing..."@
        } else if !self.has_account() {
            "Add Source Account First"@
        } else if self.watch_only_selected() {
            "Watch-Only Account (Cannot Sign)"@
        } else if !self.has_sanads() {
            "No Sanads Available"@
        } else if !self.has_target_contract() {
            "Set Target Contract Address"@
        } else if !self.has_destination_account() {
            "Add Destination Account First"@
        } else if !self.has_gas() {
            "Fund Destination Account"@
        } else {
            "Review Cross-ChainId Transfer"@
        }
    }

    /// The label of the form's main action.
    pub fn action_label(&self, executing: bool) -> (s: &'static str)
        ensures
            s@ == self.action_text(executing),
    {
        if executing {
            "Executing..."
        } else if self.accounts.len() == 0 {
            "Add Source Account First"
        } else if self.watch_only_exec() {
            "Watch-Only Account (Cannot Sign)"
        } else if self.sanads.len() == 0 {
            "No Sanads Available"
        } else if self.target_contracts.len() == 0 {
            "Set Target Contract Address"
        } else if self.destination_accounts == 0 {
            "Add Destination Account First"
        } else if !self.gas_exec() {
            "Fund Destination Account"
        } else {
            "Review Cross-ChainId Transfer"
        }
    }

    /// The notes under the form, in order, each naming something missing.
    pub open spec fn notes_text(&self) -> Seq<Seq<char>> {
        let a: Seq<Seq<char>> = if !self.has_account() {
            seq!["Note: Add an account for the selected source chain"@]
        } else if self.watch_only_selected() {
            seq!["Note: This account is watch-only. Import the private key to transfer."@]
        } else {
            Seq::empty()
        };
        let b = if !self.has_sanads() {
            a.push("Note: Create a Sanad on "@ + self.source_chain@ + " source chain first"@)
        } else {
            a
        };
        let c = if !self.has_target_contract() {
            b.push("Note: Deploy a CSV contract on "@ + self.destination_chain@
                + " manually using Foundry/forge, then set the address with `csv contracts set`"@)
        } else {
            b
        };
        if !self.has_destination_account() {
            c.push("Note: Add an account for "@ + self.destination_chain@ + " destination chain to pay gas fees"@)
        } else if !self.has_gas() {
            c.push("Note: Destination account on "@ + self.destination_chain@ + " needs gas funds (min: "@
                + gas_minimum_text(self.destination_chain@, "0.0"@) + ")"@)
        } else {
            c
        }
    }

    /// The notes under the form.
    pub fn notes(&self) -> (r: Vec<String>)
        ensures
            r@.map_values(|s: String| s@) == self.notes_text(),
    {
        let from = self.source_chain.as_str();
        let to = self.destination_chain.as_str();
        let mut r: Vec<String> = Vec::new();
        if self.accounts.len() == 0 {
            r.push(owned("Note: Add an account for the selected source chain"));
        } else if self.watch_only_exec() {
            r.push(owned("Note: This account is watch-only. Import the private key to transfer."));
        }
        if self.sanads.len() == 0 {
            r.push(concat3("Note: Create a Sanad on ", from, " source chain first"));
        }
        if self.target_contracts.len() == 0 {
            r.push(concat3("Note: Deploy a CSV contract on ", to,
                " manually using Foundry/forge, then set the address with `csv contracts set`"));
        }
        if self.destination_accounts == 0 {
            r.push(concat3("Note: Add an account for ", to, " destination chain to pay gas fees"));
        } else if !self.gas_exec() {
            let mut s = concat3("Note: Destination account on ", to, " needs gas funds (min: ");
            s.append(gas_minimum_label(&self.destination_chain, "0.0"));
            s.append(")");
            r.push(s);
        }
        assert(r@.map_values(|s: String| s@) =~= self.notes_text());
        r
    }

    /// The review of the transfer as the form currently describes it:
    /// Sanad `selected_sanad` sent to `destination_owner`, or back to the
    /// signer when that is empty.
    pub fn review_intent(&self, selected_sanad: usize, destination_owner: &str) -> (r: TransferReviewIntent)
        ensures
            r.origin is None,
            r.signer@ == (if self.selected_account < self.accounts@.len() {
                self.accounts@[self.selected_account as int].address@
            } else {
                "No source account selected"@
            }),
            r.source_chain@ == self.source_chain@,
            r.destination_chain@ == self.destination_chain@,
            r.recipient@ == (if destination_owner@.len() > 0 {
                destination_owner@
            } else if self.selected_account < self.accounts@.len() {
                self.accounts@[self.selected_account as int].address@
            } else {
                "No recipient available"@
            }),
            r.asset@ == "Sanad"@,
            r.amount@ == (if selected_sanad < self.sanads@.len() {
                decimal(self.sanads@[selected_sanad as int].value as nat)
            } else {
                "No sanad selected"@
            }),
            r.fee@ == "Calculated by the runtime before submission"@,
            r.fee_provenance@ == "estimated"@,
            r.preflight_ok == self.ready(),
            self.ready() ==> r.corrective_action is None,
            !self.ready() ==> (r.corrective_action matches Some(a)
                && a@ == "Add the required accounts/contracts and fund the destination gas account, then review again."@),
            r.unknown_recipient,
            r.unknown_contract == !self.has_target_contract(),
    {
        let signer = if self.selected_account < self.accounts.len() {
            self.accounts[self.selected_account].address.clone()
        } else {
            owned("No source account selected")
        };
        let recipient = if destination_owner.unicode_len() > 0 {
            owned(destination_owner)
        } else if self.selected_account < self.accounts.len() {
            self.accounts[self.selected_account].address.clone()
        } else {
            owned("No recipient available")
        };
        let amount = if selected_sanad < self.sanads.len() {
            u64_to_string(self.sanads[selected_sanad].value)
        } else {
            owned("No sanad selected")
        };
        let ok = self.preflight_ok();
        TransferReviewIntent {
            origin: None,
            signer,
            source_chain: owned(self.source_chain.as_str()),
            destination_chain: owned(self.destination_chain.as_str()),
            recipient,
            asset: owned("Sanad"),
            amount,
            fee: owned("Calculated by the runtime before submission"),
            fee_provenance: "estimated",
            preflight_ok: ok,
            corrective_action: if ok {
                None
            } else {
                Some(owned("Add the required accounts/contracts and fund the destination gas account, then review again."))
            },
            unknown_recipient: true,
            unknown_contract: self.target_contracts.len() == 0,
        }
    }

    /// The destination contract to preselect: the position of the globally
    /// selected contract among the destination chain's contracts.
    pub fn preselected_target(&self, selected: &Option<ContractRecord>) -> (r: Option<usize>)
        ensures
            selected.is_none() ==> r.is_none(),
            forall|c: ContractRecord| *selected == Some(c) ==> match r {
                Some(k) => k < self.target_contracts@.len()
                    && self.target_contracts@[k as int].chain@ == c.chain@
                    && self.target_contracts@[k as int].address@ == c.address@
                    && forall|j: int| 0 <= j < k ==> !((#[trigger] self.target_contracts@[j]).chain@ == c.chain@
                        && self.target_contracts@[j].address@ == c.address@),
                None => forall|j: int| 0 <= j < self.target_contracts@.len()
                    ==> !((#[trigger] self.target_contracts@[j]).chain@ == c.chain@
                        && self.target_contracts@[j].address@ == c.address@),
            },
    {
        match selected {
            None => None,
            Some(c) => {
                let mut k: usize = 0;
                while k < self.target_contracts.len()
                    invariant
                        k <= self.target_contracts@.len(),
                        *selected == Some(*c),
                        forall|j: int| 0 <= j < k ==> !((#[trigger] self.target_contracts@[j]).chain@ == c.chain@
                            && self.target_contracts@[j].address@ == c.address@),
                    decreases self.target_contracts.len() - k,
                {
                    if self.target_contracts[k].chain.same(&c.chain)
                        && str_eq(self.target_contracts[k].address.as_str(), c.address.as_str()) {
                        return Some(k);
                    }
                    k = k + 1;
                }
                None
            },
        }
    }
}

/// The request handed to the runtime for a confirmed transfer.
#[derive(Clone, Debug, PartialEq, Eq)]
pub struct TransferRequest {
    pub sanad_id: SanadId,
    pub source_chain: ChainId,
    pub destination_chain: ChainId,
    pub destination_address: String,
}

/// The refusal to sign with a watch-only account.
pub open spec fn watch_only_message(name: Seq<char>) -> Seq<char> {
    "Account '"@ + name
        + "' is watch-only (no private key). \nPlease import the private key or use a browser wallet like MetaMask."@
}

/// The identifier text of the chosen Sanad: empty when none is chosen.
pub open spec fn chosen_sanad_text(sanads: Seq<TrackedSanad>, selected: int) -> Seq<char> {
    if 0 <= selected < sanads.len() { sanads[selected].id@ } else { Seq::empty() }
}

/// The request for a confirmed transfer of Sanad `selected_sanad` from
/// source account `account_index` to `destination_owner` (the account's own
/// address when empty).  Refused when the account is missing, cannot sign,
/// or the Sanad identifier is not exactly 32 bytes of hexadecimal.
pub fn prepare_transfer(
    source_chain: &ChainId,
    destination_chain: &ChainId,
    accounts: &Vec<ChainAccount>,
    account_index: usize,
    sanads: &Vec<TrackedSanad>,
    selected_sanad: usize,
    destination_owner: &str,
) -> (r: Result<TransferRequest, String>)
    ensures
        account_index >= accounts@.len() ==> (r matches Err(m) && m@ == "Selected account not found"@),
        account_index < accounts@.len() && accounts@[account_index as int].keystore_ref is None
            ==> (r matches Err(m) && m@ == watch_only_message(accounts@[account_index as int].name@)),
        account_index < accounts@.len() && accounts@[account_index as int].keystore_ref is Some ==> match r {
            Ok(req) => hex_decoded(without_0x(chosen_sanad_text(sanads@, selected_sanad as int)))
                == Some(req.sanad_id.bytes@)
                && req.source_chain == *source_chain
                && req.destination_chain == *destination_chain
                && req.destination_address@ == (if destination_owner@.len() > 0 {
                    destination_owner@
                } else {
                    accounts@[account_index as int].address@
                }),
            Err(m) => match hex_decoded(without_0x(chosen_sanad_text(sanads@, selected_sanad as int))) {
                None => hex_refusal("invalid Sanad ID hex: "@,
                    without_0x(chosen_sanad_text(sanads@, selected_sanad as int)), m@),
                Some(b) => b.len() != 32 && m@ == "invalid Sanad ID: expected exactly 32 bytes"@,
            },
        },
{
    if account_index >= accounts.len() {
        return Err(owned("Selected account not found"));
    }
    let account = &accounts[account_index];
    if account.is_watch_only() {
        let mut s = concat2("Account '", account.name.as_str());
        s.append("' is watch-only (no private key). \nPlease import the private key or use a browser wallet like MetaMask.");
        return Err(s);
    }
    let destination_address = if destination_owner.unicode_len() == 0 {
        account.address.clone()
    } else {
        owned(destination_owner)
    };
    let sanad_text = if selected_sanad < sanads.len() {
        sanads[selected_sanad].id.clone()
    } else {
        String::new()
    };
    match parse_sanad_id(sanad_text.as_str()) {
        Err(m) => Err(m),
        Ok(sanad_id) => Ok(TransferRequest {
            sanad_id,
            source_chain: source_chain.copy(),
            destination_chain: destination_chain.copy(),
            destination_address,
        }),
    }
}

/// How the runtime answered a submitted transfer.
#[derive(Clone, Copy, Debug, PartialEq, Eq, Structural)]
pub enum SubmissionKind {
    /// A settled materialization receipt.
    Settled,
    /// A lifecycle event; finality is still awaited.
    AwaitingFinality,
}

/// The form's notice after the runtime answered.
pub fn submission_message(outcome: &Result<SubmissionKind, String>) -> (s: String)
    ensures
        match *outcome {
            Ok(SubmissionKind::Settled) => s@ == "Runtime returned a settled materialization receipt."@,
            Ok(SubmissionKind::AwaitingFinality) => s@ == "Runtime reported a transfer lifecycle event."@,
            Err(e) => s@ == "Transfer failed: "@ + e@,
        },
{
    match outcome {
        Ok(SubmissionKind::Settled) => owned("Runtime returned a settled materialization receipt."),
        Ok(SubmissionKind::AwaitingFinality) => owned("Runtime reported a transfer lifecycle event."),
        Err(e) => concat2("Transfer failed: ", e.as_str()),
    }
}

/// The name of a permitted action, as its debug rendering spells it.
pub open spec fn action_word(a: NextAction) -> Seq<char> {
    match a {
        NextAction::Status => "Status"@,
        NextAction::Resume => "Resume"@,
        NextAction::Retry => "Retry"@,
    }
}

/// The actions, separated by `, `.
pub open spec fn action_words(actions: Seq<NextAction>) -> Seq<char>
    decreases actions.len(),
{
    if actions.len() == 0 {
        Seq::empty()
    } else if actions.len() == 1 {
        action_word(actions[0])
    } else {
        action_words(actions.drop_last()) + ", "@ + action_word(actions.last())
    }
}

/// A list of permitted actions as its debug rendering shows it:
/// `[Status, Resume]`.
pub fn actions_text(actions: &Vec<NextAction>) -> (s: String)
    ensures
        s@ == "["@ + action_words(actions@) + "]"@,
{
    let mut body = String::new();
    let mut i: usize = 0;
    while i < actions.len()
        invariant
            i <= actions@.len(),
            body@ == action_words(actions@.subrange(0, i as int)),
        decreases actions.len() - i,
    {
        proof {
            assert(actions@.subrange(0, i + 1).drop_last() =~= actions@.subrange(0, i as int));
        }
        if i > 0 {
            body.append(", ");
        }
        let word = match actions[i] {
            NextAction::Status => "Status",
            NextAction::Resume => "Resume",
            NextAction::Retry => "Retry",
        };
        body.append(word);
        proof {
            if i == 0 {
                assert(body@ =~= action_words(actions@.subrange(0, 1)));
            }
        }
        i = i + 1;
    }
    proof {
        assert(actions@.subrange(0, i as int) =~= actions@);
    }
    concat3("[", body.as_str(), "]")
}

/// The retry page's notice for a settled receipt: the mint transaction of a
/// materialization and the actions the runtime permits next; any other
/// receipt mode is unexpected.
pub fn resume_settled_message(receipt: &TransferReceipt) -> (r: Result<String, String>)
    ensures
        match receipt.body {
            ReceiptBody::Materialize(body) => r matches Ok(m) && m@ == "Transfer settled by runtime. Mint transaction: "@
                + body.mint_tx_hash@ + ". Permitted next actions: "@ + "["@ + action_words(receipt.next_actions@) + "]"@,
            _ => r matches Err(m) && m@ == "runtime returned an unexpected receipt mode"@,
        },
{
    match &receipt.body {
        ReceiptBody::Materialize(body) => {
            let mut s = concat3("Transfer settled by runtime. Mint transaction: ", body.mint_tx_hash.as_str(),
                ". Permitted next actions: ");
            s.append(actions_text(&receipt.next_actions).as_str());
            Ok(s)
        },
        _ => Err(owned("runtime returned an unexpected receipt mode")),
    }
}

/// The retry page's notice for a lifecycle event: its journal phase and the
/// actions the runtime permits next.
pub fn resume_event_message(event: &TransferEvent) -> (s: String)
    ensures
        s@ == "Runtime journal reports "@ + phase_journal_name(event.phase) + ". Permitted next actions: "@
            + "["@ + action_words(event.next_actions@) + "]"@,
{
    let mut s = concat3("Runtime journal reports ", phase_journal(&event.phase), ". Permitted next actions: ");
    s.append(actions_text(&event.next_actions).as_str());
    s
}

/// The label of the retry page's action.
pub fn resume_action_label(executing: bool) -> (s: &'static str)
    ensures
        s@ == (if executing { "Contacting Runtime..."@ } else { "Resume via Runtime"@ }),
{
    if executing { "Contacting Runtime..." } else { "Resume via Runtime" }
}

/// The gas each destination chain must hold before a transfer may go ahead,
/// in its base units: 0.01 SUI is 10_000_000 MIST, 0.01 APT is 1_000_000
/// octas, 0.001 ETH is 10^15 wei and 0.001 SOL is 1_000_000 lamports.  Below
/// it the preflight fails, and once the review is approved and the contracts
/// and destination account are in place, the refusal names the amount the
/// user has to fund; at or above it the gas check passes.
pub proof fn law_destination_gas_minimum(c: TransferChecks, chain: Seq<char>, minimum: u64, shown: Seq<char>)
    requires
        c.destination_chain@ == chain,
        (chain == "sui"@ && minimum == 10_000_000 && shown == "0.01 SUI"@)
            || (chain == "aptos"@ && minimum == 1_000_000 && shown == "0.01 APT"@)
            || (chain == "ethereum"@ && minimum == 1_000_000_000_000_000 && shown == "0.001 ETH"@)
            || (chain == "solana"@ && minimum == 1_000_000 && shown == "0.001 SOL"@),
    ensures
        c.destination_balance < minimum ==> !c.ready(),
        c.destination_balance < minimum && c.has_source_contract() && c.has_target_contract()
            && c.has_destination_account() ==> c.refusal(true) == Some("Destination account on "@ + chain
                + " needs at least "@ + shown + " for gas fees. Please fund your account first."@),
        c.destination_balance >= minimum ==> c.has_gas(),
{
    reveal_strlit("sui");
    reveal_strlit("aptos");
    reveal_strlit("ethereum");
    reveal_strlit("solana");
}

} // verus!
