//! The command grammar of the tester's command line.
//!
//! The first argument is the program name. Before the command, `--url <URL>`
//! (or `--url=<URL>`) names the node's WebSocket endpoint, by default
//! `ws://127.0.0.1:9944`. A command is a group name and a subcommand name
//! (`personas preview alice`), followed by the subcommand's positional
//! arguments; the list views `watch proposals` and `watch memberships` also
//! take `--state`, `--order`, `--pager` and `--no-pager` anywhere among them.
//! `-h` or `--help` asks for help wherever it stands. An argument of two or
//! more characters that begins with `-` is an option.
//!
//! Arguments are read left to right; the first problem decides the error. At
//! a subcommand, its options are read first, then the number of positional
//! arguments is checked, then their values.
use vstd::prelude::*;
use vstd::string::StrSliceExecFns;
use vstd::string::StringExecFns;

use crate::proposals::ProposalClass;
use crate::tester::codehash::{code_hash_of, parse_code_hash};
use crate::tester::personas::Persona;
use crate::tester::text::{
    decimal_u128, decimal_u32, has_prefix, parse_decimal_u128, parse_decimal_u32, starts_with,
    str_eq,
};
use crate::tester::watch::{ListOrder, MembershipStateFilter, ProposalStateFilter};

verus! {

/// A yes/no vote as written on the command line.
#[derive(Clone, Copy, Debug, PartialEq, Eq, Structural)]
pub enum VoteChoice {
    Yes,
    No,
}

impl VoteChoice {
    /// `true` for a yes vote.
    pub fn as_bool(self) -> (r: bool)
        ensures
            r == (self == VoteChoice::Yes),
    {
        match self {
            VoteChoice::Yes => true,
            VoteChoice::No => false,
        }
    }
}

/// Why a command line was refused.
#[derive(Clone, Copy, Debug, PartialEq, Eq, Structural)]
pub enum CliError {
    /// `-h` or `--help` was given.
    HelpRequested,
    /// A command or subcommand is missing.
    MissingCommand,
    /// A command or subcommand name is not known.
    UnknownCommand,
    /// An option is not defined where it stands.
    UnknownOption,
    /// An option that takes a value is the last argument.
    MissingOptionValue,
    /// An option is given twice.
    DuplicateOption,
    /// `--pager` and `--no-pager` are both given.
    ConflictingOptions,
    /// Fewer positional arguments than the subcommand takes.
    MissingArgument,
    /// More positional arguments than the subcommand takes.
    UnexpectedArgument,
    /// A value that does not parse as what its place takes.
    InvalidValue,
}

/// Subcommands of `personas`.
#[derive(Clone, Copy, Debug, PartialEq, Eq, Structural)]
pub enum PersonaCommand {
    List,
    Preview { persona: Persona },
}

/// Subcommands of `memberships`.
#[derive(Clone, Copy, Debug, PartialEq, Eq, Structural)]
pub enum MembershipCommand {
    Propose { signer: Persona, candidate: Persona },
    Vote { signer: Persona, proposal_id: u32, approve: VoteChoice },
    Finalize { signer: Persona, proposal_id: u32 },
}

/// The governance action of a typed `proposals submit`.
#[derive(Clone, Copy, Debug)]
pub enum ProposalAction {
    Disbursement { recipient: Persona, amount: u128 },
    SetProposalVotingPeriod { blocks: u32 },
    SetExecutionDelay { blocks: u32 },
    SetMembershipVotingPeriod { blocks: u32 },
    SetStandardThreshold { numerator: u32, denominator: u32 },
    SetGovernanceThreshold { numerator: u32, denominator: u32 },
    SetConstitutionalThreshold { numerator: u32, denominator: u32 },
    SetMembershipThreshold { numerator: u32, denominator: u32 },
    SetSuspensionThreshold { numerator: u32, denominator: u32 },
    UpgradeRuntime { code_hash: [u8; 32] },
}

/// A typed governance action with the code hash as a byte sequence.
pub enum ProposalActionView {
    Disbursement { recipient: Persona, amount: u128 },
    SetProposalVotingPeriod { blocks: u32 },
    SetExecutionDelay { blocks: u32 },
    SetMembershipVotingPeriod { blocks: u32 },
    SetStandardThreshold { numerator: u32, denominator: u32 },
    SetGovernanceThreshold { numerator: u32, denominator: u32 },
    SetConstitutionalThreshold { numerator: u32, denominator: u32 },
    SetMembershipThreshold { numerator: u32, denominator: u32 },
    SetSuspensionThreshold { numerator: u32, denominator: u32 },
    UpgradeRuntime { code_hash: Seq<u8> },
}

/// Subcommands of `proposals`.
#[derive(Clone, Debug)]
pub enum ProposalCommand {
    /// A disbursement request in the short form: signer, title, description,
    /// amount and the block of the event it is for.
    Submit { signer: Persona, title: String, description: String, amount: u128, event_block: u32 },
    /// A proposal with a typed governance action.
    SubmitAction { signer: Persona, title: String, description: String, action: ProposalAction },
    /// Upload of runtime code read from a file.
    UploadRuntimeCode { signer: Persona, code_path: String },
    Vote { signer: Persona, proposal_id: u32, approve: VoteChoice },
    Finalize { signer: Persona, proposal_id: u32 },
    Execute { signer: Persona, proposal_id: u32 },
}

/// A `proposals` subcommand with its texts as character sequences.
pub enum ProposalCommandView {
    Submit {
        signer: Persona,
        title: Seq<char>,
        description: Seq<char>,
        amount: u128,
        event_block: u32,
    },
    SubmitAction {
        signer: Persona,
        title: Seq<char>,
        description: Seq<char>,
        action: ProposalActionView,
    },
    UploadRuntimeCode { signer: Persona, code_path: Seq<char> },
    Vote { signer: Persona, proposal_id: u32, approve: VoteChoice },
    Finalize { signer: Persona, proposal_id: u32 },
    Execute { signer: Persona, proposal_id: u32 },
}

/// Subcommands of `treasury`.
#[derive(Clone, Copy, Debug, PartialEq, Eq, Structural)]
pub enum TreasuryCommand {
    Deposit { signer: Persona, amount: u128 },
}

/// Subcommands of `watch`.
#[derive(Clone, Copy, Debug, PartialEq, Eq, Structural)]
pub enum WatchCommand {
    Proposals {
        proposal_id: Option<u32>,
        state: ProposalStateFilter,
        order: ListOrder,
        pager: bool,
        no_pager: bool,
    },
    Memberships {
        proposal_id: Option<u32>,
        state: MembershipStateFilter,
        order: ListOrder,
        pager: bool,
        no_pager: bool,
    },
    Treasury,
}

/// Subcommands of `local`.
#[derive(Clone, Copy, Debug, PartialEq, Eq, Structural)]
pub enum LocalCommand {
    Start,
    Reset,
    RefreshMetadata,
}

/// A command of the tester.
#[derive(Clone, Debug)]
pub enum TopCommand {
    Personas { command: PersonaCommand },
    Memberships { command: MembershipCommand },
    Proposals { command: ProposalCommand },
    Treasury { command: TreasuryCommand },
    Watch { command: WatchCommand },
    Local { command: LocalCommand },
}

/// A tester command with its texts as character sequences.
pub enum TopCommandView {
    Personas { command: PersonaCommand },
    Memberships { command: MembershipCommand },
    Proposals { command: ProposalCommandView },
    Treasury { command: TreasuryCommand },
    Watch { command: WatchCommand },
    Local { command: LocalCommand },
}

/// A parsed command line: the node endpoint and the command.
#[derive(Clone, Debug)]
pub struct Cli {
    pub url: String,
    pub command: TopCommand,
}

/// A parsed command line with its texts as character sequences.
pub struct CliView {
    pub url: Seq<char>,
    pub command: TopCommandView,
}

impl View for ProposalAction {
    type V = ProposalActionView;

    open spec fn view(&self) -> ProposalActionView {
        match *self {
            ProposalAction::Disbursement { recipient, amount } => ProposalActionView::Disbursement {
                recipient,
                amount,
            },
            ProposalAction::SetProposalVotingPeriod { blocks } =>
                ProposalActionView::SetProposalVotingPeriod { blocks },
            ProposalAction::SetExecutionDelay { blocks } => ProposalActionView::SetExecutionDelay {
                blocks,
            },
            ProposalAction::SetMembershipVotingPeriod { blocks } =>
                ProposalActionView::SetMembershipVotingPeriod { blocks },
            ProposalAction::SetStandardThreshold { numerator, denominator } =>
                ProposalActionView::SetStandardThreshold { numerator, denominator },
            ProposalAction::SetGovernanceThreshold { numerator, denominator } =>
                ProposalActionView::SetGovernanceThreshold { numerator, denominator },
            ProposalAction::SetConstitutionalThreshold { numerator, denominator } =>
                ProposalActionView::SetConstitutionalThreshold { numerator, denominator },
            ProposalAction::SetMembershipThreshold { numerator, denominator } =>
                ProposalActionView::SetMembershipThreshold { numerator, denominator },
            ProposalAction::SetSuspensionThreshold { numerator, denominator } =>
                ProposalActionView::SetSuspensionThreshold { numerator, denominator },
            ProposalAction::UpgradeRuntime { code_hash } => ProposalActionView::UpgradeRuntime {
                code_hash: code_hash@,
            },
        }
    }
}

/// The class a typed proposal is submitted under: disbursements are
/// standard, voting periods and the execution delay are governance, and
/// thresholds and runtime upgrades are constitutional.
pub open spec fn action_class(action: ProposalActionView) -> ProposalClass {
    match action {
        ProposalActionView::Disbursement { .. } => ProposalClass::Standard,
        ProposalActionView::SetProposalVotingPeriod { .. } => ProposalClass::Governance,
        ProposalActionView::SetExecutionDelay { .. } => ProposalClass::Governance,
        ProposalActionView::SetMembershipVotingPeriod { .. } => ProposalClass::Governance,
        _ => ProposalClass::Constitutional,
    }
}

impl ProposalAction {
    /// The class this action is submitted under.
    pub fn class(&self) -> (c: ProposalClass)
        ensures
            c == action_class(self@),
    {
        match self {
            ProposalAction::Disbursement { .. } => ProposalClass::Standard,
            ProposalAction::SetProposalVotingPeriod { .. } => ProposalClass::Governance,
            ProposalAction::SetExecutionDelay { .. } => ProposalClass::Governance,
            ProposalAction::SetMembershipVotingPeriod { .. } => ProposalClass::Governance,
            _ => ProposalClass::Constitutional,
        }
    }
}

impl View for ProposalCommand {
    type V = ProposalCommandView;

    open spec fn view(&self) -> ProposalCommandView {
        match *self {
            ProposalCommand::Submit { signer, title, description, amount, event_block } =>
                ProposalCommandView::Submit {
                signer,
                title: title@,
                description: description@,
                amount,
                event_block,
            },
            ProposalCommand::SubmitAction { signer, title, description, action } =>
                ProposalCommandView::SubmitAction {
                signer,
                title: title@,
                description: description@,
                action: action@,
            },
            ProposalCommand::UploadRuntimeCode { signer, code_path } =>
                ProposalCommandView::UploadRuntimeCode { signer, code_path: code_path@ },
            ProposalCommand::Vote { signer, proposal_id, approve } => ProposalCommandView::Vote {
                signer,
                proposal_id,
                approve,
            },
            ProposalCommand::Finalize { signer, proposal_id } => ProposalCommandView::Finalize {
                signer,
                proposal_id,
            },
            ProposalCommand::Execute { signer, proposal_id } => ProposalCommandView::Execute {
                signer,
                proposal_id,
            },
        }
    }
}

impl View for TopCommand {
    type V = TopCommandView;

    open spec fn view(&self) -> TopCommandView {
        match *self {
            TopCommand::Personas { command } => TopCommandView::Personas { command },
            TopCommand::Memberships { command } => TopCommandView::Memberships { command },
            TopCommand::Proposals { command } => TopCommandView::Proposals { command: command@ },
            TopCommand::Treasury { command } => TopCommandView::Treasury { command },
            TopCommand::Watch { command } => TopCommandView::Watch { command },
            TopCommand::Local { command } => TopCommandView::Local { command },
        }
    }
}

impl View for Cli {
    type V = CliView;

    open spec fn view(&self) -> CliView {
        CliView { url: self.url@, command: self.command@ }
    }
}

// ---------------------------------------------------------------------------
// The grammar, over the arguments' character sequences.
// ---------------------------------------------------------------------------

/// The arguments as character sequences.
pub open spec fn arg_texts(args: Seq<&str>) -> Seq<Seq<char>> {
    Seq::new(args.len(), |i: int| args[i]@)
}

/// Whether an argument asks for help.
pub open spec fn is_help_flag(t: Seq<char>) -> bool {
    t == "-h"@ || t == "--help"@
}

/// Whether an argument is an option: two or more characters, the first `-`.
pub open spec fn is_option_token(t: Seq<char>) -> bool {
    t.len() >= 2 && t[0] == '-'
}

/// Where an option's value stands: an argument's index and the offset of the
/// value's first character in it.
pub type ValueRef = (usize, usize);

/// Whether a value reference points into the arguments.
pub open spec fn value_ref_valid(a: Seq<Seq<char>>, v: ValueRef) -> bool {
    v.0 < a.len() && v.1 <= a[v.0 as int].len()
}

/// The text of an option's value.
pub open spec fn value_text(a: Seq<Seq<char>>, v: ValueRef) -> Seq<char> {
    a[v.0 as int].skip(v.1 as int)
}

/// The endpoint used when `--url` is not given.
pub open spec fn default_url() -> Seq<char> {
    "ws://127.0.0.1:9944"@
}

/// The endpoint of a command line: the `--url` value, or the default.
pub open spec fn url_text(a: Seq<Seq<char>>, url: Option<ValueRef>) -> Seq<char> {
    match url {
        Some(v) => value_text(a, v),
        None => default_url(),
    }
}

/// The persona a value names.
pub open spec fn persona_named(t: Seq<char>) -> Option<Persona> {
    if t == "alice"@ {
        Some(Persona::Alice)
    } else if t == "bob"@ {
        Some(Persona::Bob)
    } else if t == "charlie"@ {
        Some(Persona::Charlie)
    } else if t == "dave"@ {
        Some(Persona::Dave)
    } else if t == "eve"@ {
        Some(Persona::Eve)
    } else if t == "ferdie"@ {
        Some(Persona::Ferdie)
    } else {
        None
    }
}

/// The vote a value names.
pub open spec fn vote_named(t: Seq<char>) -> Option<VoteChoice> {
    if t == "yes"@ {
        Some(VoteChoice::Yes)
    } else if t == "no"@ {
        Some(VoteChoice::No)
    } else {
        None
    }
}

/// The list order a value names.
pub open spec fn order_named(t: Seq<char>) -> Option<ListOrder> {
    if t == "newest"@ {
        Some(ListOrder::Newest)
    } else if t == "oldest"@ {
        Some(ListOrder::Oldest)
    } else {
        None
    }
}

/// The treasury proposal filter a value names.
pub open spec fn proposal_filter_named(t: Seq<char>) -> Option<ProposalStateFilter> {
    if t == "active"@ {
        Some(ProposalStateFilter::Active)
    } else if t == "approved"@ {
        Some(ProposalStateFilter::Approved)
    } else if t == "rejected"@ {
        Some(ProposalStateFilter::Rejected)
    } else if t == "executed"@ {
        Some(ProposalStateFilter::Executed)
    } else if t == "all"@ {
        Some(ProposalStateFilter::All)
    } else {
        None
    }
}

/// The membership proposal filter a value names.
pub open spec fn membership_filter_named(t: Seq<char>) -> Option<MembershipStateFilter> {
    if t == "active"@ {
        Some(MembershipStateFilter::Active)
    } else if t == "approved"@ {
        Some(MembershipStateFilter::Approved)
    } else if t == "rejected"@ {
        Some(MembershipStateFilter::Rejected)
    } else if t == "all"@ {
        Some(MembershipStateFilter::All)
    } else {
        None
    }
}

/// What the arguments of a subcommand hold once its options are read.
pub struct LeafScanView {
    pub state: Option<ValueRef>,
    pub order: Option<ValueRef>,
    pub pager: bool,
    pub no_pager: bool,
    pub positions: Seq<usize>,
}

/// Nothing read yet.
pub open spec fn empty_scan() -> LeafScanView {
    LeafScanView { state: None, order: None, pager: false, no_pager: false, positions: Seq::empty() }
}

/// Whether everything a scan points to lies within the arguments.
pub open spec fn scan_valid(a: Seq<Seq<char>>, s: LeafScanView) -> bool {
    &&& (s.state matches Some(v) ==> value_ref_valid(a, v))
    &&& (s.order matches Some(v) ==> value_ref_valid(a, v))
    &&& forall|i: int| 0 <= i < s.positions.len() ==> #[trigger] s.positions[i] < a.len()
}

/// Reads the arguments of a subcommand from index `k` on: options (the list
/// options only where `list_options` holds) and positional arguments.
pub open spec fn scan_leaf(
    a: Seq<Seq<char>>,
    k: int,
    list_options: bool,
    acc: LeafScanView,
) -> Result<LeafScanView, CliError>
    decreases a.len() - k,
{
    if k >= a.len() {
        Ok(acc)
    } else {
        let t = a[k];
        if is_help_flag(t) {
            Err(CliError::HelpRequested)
        } else if list_options && t == "--state"@ {
            if acc.state is Some {
                Err(CliError::DuplicateOption)
            } else if k + 1 >= a.len() {
                Err(CliError::MissingOptionValue)
            } else {
                scan_leaf(a, k + 2, list_options, LeafScanView {
                    state: Some(((k + 1) as usize, 0usize)),
                    order: acc.order,
                    pager: acc.pager,
                    no_pager: acc.no_pager,
                    positions: acc.positions,
                })
            }
        } else if list_options && has_prefix(t, "--state="@) {
            if acc.state is Some {
                Err(CliError::DuplicateOption)
            } else {
                scan_leaf(a, k + 1, list_options, LeafScanView {
                    state: Some((k as usize, "--state="@.len() as usize)),
                    order: acc.order,
                    pager: acc.pager,
                    no_pager: acc.no_pager,
                    positions: acc.positions,
                })
            }
        } else if list_options && t == "--order"@ {
            if acc.order is Some {
                Err(CliError::DuplicateOption)
            } else if k + 1 >= a.len() {
                Err(CliError::MissingOptionValue)
            } else {
                scan_leaf(a, k + 2, list_options, LeafScanView {
                    state: acc.state,
                    order: Some(((k + 1) as usize, 0usize)),
                    pager: acc.pager,
                    no_pager: acc.no_pager,
                    positions: acc.positions,
                })
            }
        } else if list_options && has_prefix(t, "--order="@) {
            if acc.order is Some {
                Err(CliError::DuplicateOption)
            } else {
                scan_leaf(a, k + 1, list_options, LeafScanView {
                    state: acc.state,
                    order: Some((k as usize, "--order="@.len() as usize)),
                    pager: acc.pager,
                    no_pager: acc.no_pager,
                    positions: acc.positions,
                })
            }
        } else if list_options && t == "--pager"@ {
            if acc.pager {
                Err(CliError::DuplicateOption)
            } else {
                scan_leaf(a, k + 1, list_options, LeafScanView {
                    state: acc.state,
                    order: acc.order,
                    pager: true,
                    no_pager: acc.no_pager,
                    positions: acc.positions,
                })
            }
        } else if list_options && t == "--no-pager"@ {
            if acc.no_pager {
                Err(CliError::DuplicateOption)
            } else {
                scan_leaf(a, k + 1, list_options, LeafScanView {
                    state: acc.state,
                    order: acc.order,
                    pager: acc.pager,
                    no_pager: true,
                    positions: acc.positions,
                })
            }
        } else if is_option_token(t) {
            Err(CliError::UnknownOption)
        } else {
            scan_leaf(a, k + 1, list_options, LeafScanView {
                state: acc.state,
                order: acc.order,
                pager: acc.pager,
                no_pager: acc.no_pager,
                positions: acc.positions.push(k as usize),
            })
        }
    }
}

/// The refusal, if any, of a subcommand that takes exactly `n` positional arguments.
pub open spec fn arity_error(s: LeafScanView, n: nat) -> Option<CliError> {
    if s.positions.len() < n {
        Some(CliError::MissingArgument)
    } else if s.positions.len() > n {
        Some(CliError::UnexpectedArgument)
    } else {
        None
    }
}

/// The `i`-th positional argument of a scanned subcommand.
pub open spec fn positional(a: Seq<Seq<char>>, s: LeafScanView, i: int) -> Seq<char> {
    a[s.positions[i] as int]
}

/// A persona in positional place `i`, or the refusal of its value.
pub open spec fn persona_at(a: Seq<Seq<char>>, s: LeafScanView, i: int) -> Result<Persona, CliError> {
    match persona_named(positional(a, s, i)) {
        Some(p) => Ok(p),
        None => Err(CliError::InvalidValue),
    }
}

/// A `u32` in positional place `i`, or the refusal of its value.
pub open spec fn u32_at(a: Seq<Seq<char>>, s: LeafScanView, i: int) -> Result<u32, CliError> {
    match decimal_u32(positional(a, s, i)) {
        Some(v) => Ok(v),
        None => Err(CliError::InvalidValue),
    }
}

/// A `u128` in positional place `i`, or the refusal of its value.
pub open spec fn u128_at(a: Seq<Seq<char>>, s: LeafScanView, i: int) -> Result<u128, CliError> {
    match decimal_u128(positional(a, s, i)) {
        Some(v) => Ok(v),
        None => Err(CliError::InvalidValue),
    }
}

/// A vote in positional place `i`, or the refusal of its value.
pub open spec fn vote_at(a: Seq<Seq<char>>, s: LeafScanView, i: int) -> Result<VoteChoice, CliError> {
    match vote_named(positional(a, s, i)) {
        Some(v) => Ok(v),
        None => Err(CliError::InvalidValue),
    }
}

/// The index of a group's subcommand name, which must follow at index `j`.
pub open spec fn subcommand_at(a: Seq<Seq<char>>, j: int) -> Result<int, CliError> {
    if j >= a.len() {
        Err(CliError::MissingCommand)
    } else if is_help_flag(a[j]) {
        Err(CliError::HelpRequested)
    } else if is_option_token(a[j]) {
        Err(CliError::UnknownOption)
    } else {
        Ok(j)
    }
}

/// The `personas` subcommand at index `j`.
pub open spec fn personas_command(a: Seq<Seq<char>>, j: int) -> Result<PersonaCommand, CliError> {
    match subcommand_at(a, j) {
        Err(e) => Err(e),
        Ok(k) => if a[k] == "list"@ {
            match scan_leaf(a, k + 1, false, empty_scan()) {
                Err(e) => Err(e),
                Ok(s) => match arity_error(s, 0) {
                    Some(e) => Err(e),
                    None => Ok(PersonaCommand::List),
                },
            }
        } else if a[k] == "preview"@ {
            match scan_leaf(a, k + 1, false, empty_scan()) {
                Err(e) => Err(e),
                Ok(s) => match arity_error(s, 1) {
                    Some(e) => Err(e),
                    None => match persona_at(a, s, 0) {
                        Ok(persona) => Ok(PersonaCommand::Preview { persona }),
                        Err(e) => Err(e),
                    },
                },
            }
        } else {
            Err(CliError::UnknownCommand)
        },
    }
}

/// The `memberships` subcommand at index `j`.
pub open spec fn memberships_command(a: Seq<Seq<char>>, j: int) -> Result<MembershipCommand, CliError> {
    match subcommand_at(a, j) {
        Err(e) => Err(e),
        Ok(k) => if a[k] == "propose"@ {
            match scan_leaf(a, k + 1, false, empty_scan()) {
                Err(e) => Err(e),
                Ok(s) => match arity_error(s, 2) {
                    Some(e) => Err(e),
                    None => match (persona_at(a, s, 0), persona_at(a, s, 1)) {
                        (Ok(signer), Ok(candidate)) => Ok(MembershipCommand::Propose { signer, candidate }),
                        _ => Err(CliError::InvalidValue),
                    },
                },
            }
        } else if a[k] == "vote"@ {
            match scan_leaf(a, k + 1, false, empty_scan()) {
                Err(e) => Err(e),
                Ok(s) => match arity_error(s, 3) {
                    Some(e) => Err(e),
                    None => match (persona_at(a, s, 0), u32_at(a, s, 1), vote_at(a, s, 2)) {
                        (Ok(signer), Ok(proposal_id), Ok(approve)) => Ok(
                            MembershipCommand::Vote { signer, proposal_id, approve },
                        ),
                        _ => Err(CliError::InvalidValue),
                    },
                },
            }
        } else if a[k] == "finalize"@ {
            match scan_leaf(a, k + 1, false, empty_scan()) {
                Err(e) => Err(e),
                Ok(s) => match arity_error(s, 2) {
                    Some(e) => Err(e),
                    None => match (persona_at(a, s, 0), u32_at(a, s, 1)) {
                        (Ok(signer), Ok(proposal_id)) => Ok(
                            MembershipCommand::Finalize { signer, proposal_id },
                        ),
                        _ => Err(CliError::InvalidValue),
                    },
                },
            }
        } else {
            Err(CliError::UnknownCommand)
        },
    }
}

/// The number of positional arguments of a typed `proposals submit` whose
/// action is named `name` (the action name included), or `None` where `name`
/// names no action.
pub open spec fn action_arity(name: Seq<char>) -> Option<nat> {
    if name == "disbursement"@ {
        Some(6)
    } else if name == "set-proposal-voting-period"@ || name == "set-execution-delay"@ || name
        == "set-membership-voting-period"@ {
        Some(5)
    } else if name == "set-standard-threshold"@ || name == "set-governance-threshold"@ || name
        == "set-constitutional-threshold"@ || name == "set-membership-threshold"@ || name
        == "set-suspension-threshold"@ {
        Some(6)
    } else if name == "upgrade-runtime"@ {
        Some(5)
    } else {
        None
    }
}

/// A block count in positional place 4, as the action `name` takes it.
pub open spec fn blocks_action(a: Seq<Seq<char>>, s: LeafScanView, name: Seq<char>) -> Result<ProposalActionView, CliError> {
    match u32_at(a, s, 4) {
        Ok(blocks) => Ok(
            if name == "set-proposal-voting-period"@ {
                ProposalActionView::SetProposalVotingPeriod { blocks }
            } else if name == "set-execution-delay"@ {
                ProposalActionView::SetExecutionDelay { blocks }
            } else {
                ProposalActionView::SetMembershipVotingPeriod { blocks }
            },
        ),
        Err(e) => Err(e),
    }
}

/// A threshold in positional places 4 and 5, as the action `name` takes it.
pub open spec fn threshold_action(a: Seq<Seq<char>>, s: LeafScanView, name: Seq<char>) -> Result<ProposalActionView, CliError> {
    match (u32_at(a, s, 4), u32_at(a, s, 5)) {
        (Ok(numerator), Ok(denominator)) => Ok(
            if name == "set-standard-threshold"@ {
                ProposalActionView::SetStandardThreshold { numerator, denominator }
            } else if name == "set-governance-threshold"@ {
                ProposalActionView::SetGovernanceThreshold { numerator, denominator }
            } else if name == "set-constitutional-threshold"@ {
                ProposalActionView::SetConstitutionalThreshold { numerator, denominator }
            } else if name == "set-membership-threshold"@ {
                ProposalActionView::SetMembershipThreshold { numerator, denominator }
            } else {
                ProposalActionView::SetSuspensionThreshold { numerator, denominator }
            },
        ),
        _ => Err(CliError::InvalidValue),
    }
}

/// The action of a typed `proposals submit` named `name`, from its arguments.
pub open spec fn action_of(a: Seq<Seq<char>>, s: LeafScanView, name: Seq<char>) -> Result<ProposalActionView, CliError> {
    if name == "disbursement"@ {
        match (persona_at(a, s, 4), u128_at(a, s, 5)) {
            (Ok(recipient), Ok(amount)) => Ok(ProposalActionView::Disbursement { recipient, amount }),
            _ => Err(CliError::InvalidValue),
        }
    } else if name == "set-proposal-voting-period"@ || name == "set-execution-delay"@ || name
        == "set-membership-voting-period"@ {
        blocks_action(a, s, name)
    } else if name == "upgrade-runtime"@ {
        match code_hash_of(vstd::utf8::encode_utf8(positional(a, s, 4))) {
            Ok(code_hash) => Ok(ProposalActionView::UpgradeRuntime { code_hash }),
            Err(_) => Err(CliError::InvalidValue),
        }
    } else {
        threshold_action(a, s, name)
    }
}

/// A `proposals submit` from its scanned arguments: the typed form where the
/// first argument names an action, else the short disbursement form.
pub open spec fn submit_of(a: Seq<Seq<char>>, s: LeafScanView) -> Result<ProposalCommandView, CliError> {
    if s.positions.len() > 0 && action_arity(positional(a, s, 0)) is Some {
        let name = positional(a, s, 0);
        match arity_error(s, action_arity(name)->0) {
            Some(e) => Err(e),
            None => match (persona_at(a, s, 1), action_of(a, s, name)) {
                (Ok(signer), Ok(action)) => Ok(
                    ProposalCommandView::SubmitAction {
                        signer,
                        title: positional(a, s, 2),
                        description: positional(a, s, 3),
                        action,
                    },
                ),
                _ => Err(CliError::InvalidValue),
            },
        }
    } else {
        match arity_error(s, 5) {
            Some(e) => Err(e),
            None => match (persona_at(a, s, 0), u128_at(a, s, 3), u32_at(a, s, 4)) {
                (Ok(signer), Ok(amount), Ok(event_block)) => Ok(
                    ProposalCommandView::Submit {
                        signer,
                        title: positional(a, s, 1),
                        description: positional(a, s, 2),
                        amount,
                        event_block,
                    },
                ),
                _ => Err(CliError::InvalidValue),
            },
        }
    }
}

/// The `proposals` subcommand at index `j`.
pub open spec fn proposals_command(a: Seq<Seq<char>>, j: int) -> Result<ProposalCommandView, CliError> {
    match subcommand_at(a, j) {
        Err(e) => Err(e),
        Ok(k) => if a[k] == "submit"@ {
            match scan_leaf(a, k + 1, false, empty_scan()) {
                Err(e) => Err(e),
                Ok(s) => submit_of(a, s),
            }
        } else if a[k] == "upload-runtime-code"@ {
            match scan_leaf(a, k + 1, false, empty_scan()) {
                Err(e) => Err(e),
                Ok(s) => match arity_error(s, 2) {
                    Some(e) => Err(e),
                    None => match persona_at(a, s, 0) {
                        Ok(signer) => Ok(
                            ProposalCommandView::UploadRuntimeCode { signer, code_path: positional(a, s, 1) },
                        ),
                        Err(e) => Err(e),
                    },
                },
            }
        } else if a[k] == "vote"@ {
            match scan_leaf(a, k + 1, false, empty_scan()) {
                Err(e) => Err(e),
                Ok(s) => match arity_error(s, 3) {
                    Some(e) => Err(e),
                    None => match (persona_at(a, s, 0), u32_at(a, s, 1), vote_at(a, s, 2)) {
                        (Ok(signer), Ok(proposal_id), Ok(approve)) => Ok(
                            ProposalCommandView::Vote { signer, proposal_id, approve },
                        ),
                        _ => Err(CliError::InvalidValue),
                    },
                },
            }
        } else if a[k] == "finalize"@ || a[k] == "execute"@ {
            match scan_leaf(a, k + 1, false, empty_scan()) {
                Err(e) => Err(e),
                Ok(s) => match arity_error(s, 2) {
                    Some(e) => Err(e),
                    None => match (persona_at(a, s, 0), u32_at(a, s, 1)) {
                        (Ok(signer), Ok(proposal_id)) => Ok(
                            if a[k] == "finalize"@ {
                                ProposalCommandView::Finalize { signer, proposal_id }
                            } else {
                                ProposalCommandView::Execute { signer, proposal_id }
                            },
                        ),
                        _ => Err(CliError::InvalidValue),
                    },
                },
            }
        } else {
            Err(CliError::UnknownCommand)
        },
    }
}

/// The `treasury` subcommand at index `j`.
pub open spec fn treasury_command(a: Seq<Seq<char>>, j: int) -> Result<TreasuryCommand, CliError> {
    match subcommand_at(a, j) {
        Err(e) => Err(e),
        Ok(k) => if a[k] == "deposit"@ {
            match scan_leaf(a, k + 1, false, empty_scan()) {
                Err(e) => Err(e),
                Ok(s) => match arity_error(s, 2) {
                    Some(e) => Err(e),
                    None => match (persona_at(a, s, 0), u128_at(a, s, 1)) {
                        (Ok(signer), Ok(amount)) => Ok(TreasuryCommand::Deposit { signer, amount }),
                        _ => Err(CliError::InvalidValue),
                    },
                },
            }
        } else {
            Err(CliError::UnknownCommand)
        },
    }
}

/// The optional proposal id of a list view.
pub open spec fn optional_id_of(a: Seq<Seq<char>>, s: LeafScanView) -> Result<Option<u32>, CliError> {
    if s.positions.len() == 0 {
        Ok(None)
    } else {
        match u32_at(a, s, 0) {
            Ok(v) => Ok(Some(v)),
            Err(e) => Err(e),
        }
    }
}

/// The `--order` of a list view, by default `newest`.
pub open spec fn order_of(a: Seq<Seq<char>>, s: LeafScanView) -> Result<ListOrder, CliError> {
    match s.order {
        None => Ok(ListOrder::Newest),
        Some(v) => match order_named(value_text(a, v)) {
            Some(o) => Ok(o),
            None => Err(CliError::InvalidValue),
        },
    }
}

/// The `--state` of the treasury proposal list view, by default `active`.
pub open spec fn proposal_filter_of(a: Seq<Seq<char>>, s: LeafScanView) -> Result<ProposalStateFilter, CliError> {
    match s.state {
        None => Ok(ProposalStateFilter::Active),
        Some(v) => match proposal_filter_named(value_text(a, v)) {
            Some(f) => Ok(f),
            None => Err(CliError::InvalidValue),
        },
    }
}

/// The `--state` of the membership proposal list view, by default `active`.
pub open spec fn membership_filter_of(a: Seq<Seq<char>>, s: LeafScanView) -> Result<MembershipStateFilter, CliError> {
    match s.state {
        None => Ok(MembershipStateFilter::Active),
        Some(v) => match membership_filter_named(value_text(a, v)) {
            Some(f) => Ok(f),
            None => Err(CliError::InvalidValue),
        },
    }
}

/// A list view's refusal of its pager flags or argument count, if any.
pub open spec fn list_view_error(s: LeafScanView) -> Option<CliError> {
    if s.pager && s.no_pager {
        Some(CliError::ConflictingOptions)
    } else if s.positions.len() > 1 {
        Some(CliError::UnexpectedArgument)
    } else {
        None
    }
}

/// The `watch` subcommand at index `j`.
pub open spec fn watch_command(a: Seq<Seq<char>>, j: int) -> Result<WatchCommand, CliError> {
    match subcommand_at(a, j) {
        Err(e) => Err(e),
        Ok(k) => if a[k] == "proposals"@ {
            match scan_leaf(a, k + 1, true, empty_scan()) {
                Err(e) => Err(e),
                Ok(s) => match list_view_error(s) {
                    Some(e) => Err(e),
                    None => match (optional_id_of(a, s), proposal_filter_of(a, s), order_of(a, s)) {
                        (Ok(proposal_id), Ok(state), Ok(order)) => Ok(
                            WatchCommand::Proposals {
                                proposal_id,
                                state,
                                order,
                                pager: s.pager,
                                no_pager: s.no_pager,
                            },
                        ),
                        _ => Err(CliError::InvalidValue),
                    },
                },
            }
        } else if a[k] == "memberships"@ {
            match scan_leaf(a, k + 1, true, empty_scan()) {
                Err(e) => Err(e),
                Ok(s) => match list_view_error(s) {
                    Some(e) => Err(e),
                    None => match (optional_id_of(a, s), membership_filter_of(a, s), order_of(a, s)) {
                        (Ok(proposal_id), Ok(state), Ok(order)) => Ok(
                            WatchCommand::Memberships {
                                proposal_id,
                                state,
                                order,
                                pager: s.pager,
                                no_pager: s.no_pager,
                            },
                        ),
                        _ => Err(CliError::InvalidValue),
                    },
                },
            }
        } else if a[k] == "treasury"@ {
            match scan_leaf(a, k + 1, false, empty_scan()) {
                Err(e) => Err(e),
                Ok(s) => match arity_error(s, 0) {
                    Some(e) => Err(e),
                    None => Ok(WatchCommand::Treasury),
                },
            }
        } else {
            Err(CliError::UnknownCommand)
        },
    }
}

/// The `local` subcommand at index `j`.
pub open spec fn local_command(a: Seq<Seq<char>>, j: int) -> Result<LocalCommand, CliError> {
    match subcommand_at(a, j) {
        Err(e) => Err(e),
        Ok(k) => if a[k] == "start"@ || a[k] == "reset"@ || a[k] == "refresh-metadata"@ {
            match scan_leaf(a, k + 1, false, empty_scan()) {
                Err(e) => Err(e),
                Ok(s) => match arity_error(s, 0) {
                    Some(e) => Err(e),
                    None => Ok(
                        if a[k] == "start"@ {
                            LocalCommand::Start
                        } else if a[k] == "reset"@ {
                            LocalCommand::Reset
                        } else {
                            LocalCommand::RefreshMetadata
                        },
                    ),
                },
            }
        } else {
            Err(CliError::UnknownCommand)
        },
    }
}

/// The command whose group name stands at index `i`.
pub open spec fn top_command(a: Seq<Seq<char>>, i: int) -> Result<TopCommandView, CliError> {
    let name = a[i];
    if name == "personas"@ {
        match personas_command(a, i + 1) {
            Ok(command) => Ok(TopCommandView::Personas { command }),
            Err(e) => Err(e),
        }
    } else if name == "memberships"@ {
        match memberships_command(a, i + 1) {
            Ok(command) => Ok(TopCommandView::Memberships { command }),
            Err(e) => Err(e),
        }
    } else if name == "proposals"@ {
        match proposals_command(a, i + 1) {
            Ok(command) => Ok(TopCommandView::Proposals { command }),
            Err(e) => Err(e),
        }
    } else if name == "treasury"@ {
        match treasury_command(a, i + 1) {
            Ok(command) => Ok(TopCommandView::Treasury { command }),
            Err(e) => Err(e),
        }
    } else if name == "watch"@ {
        match watch_command(a, i + 1) {
            Ok(command) => Ok(TopCommandView::Watch { command }),
            Err(e) => Err(e),
        }
    } else if name == "local"@ {
        match local_command(a, i + 1) {
            Ok(command) => Ok(TopCommandView::Local { command }),
            Err(e) => Err(e),
        }
    } else {
        Err(CliError::UnknownCommand)
    }
}

/// Reads the options before the command from index `i` on, with `url` the
/// `--url` value read so far.
pub open spec fn scan_top(a: Seq<Seq<char>>, i: int, url: Option<ValueRef>) -> Result<CliView, CliError>
    decreases a.len() - i,
{
    if i >= a.len() {
        Err(CliError::MissingCommand)
    } else {
        let t = a[i];
        if is_help_flag(t) {
            Err(CliError::HelpRequested)
        } else if t == "--url"@ {
            if url is Some {
                Err(CliError::DuplicateOption)
            } else if i + 1 >= a.len() {
                Err(CliError::MissingOptionValue)
            } else {
                scan_top(a, i + 2, Some(((i + 1) as usize, 0usize)))
            }
        } else if has_prefix(t, "--url="@) {
            if url is Some {
                Err(CliError::DuplicateOption)
            } else {
                scan_top(a, i + 1, Some((i as usize, "--url="@.len() as usize)))
            }
        } else if is_option_token(t) {
            Err(CliError::UnknownOption)
        } else {
            match top_command(a, i) {
                Ok(command) => Ok(CliView { url: url_text(a, url), command }),
                Err(e) => Err(e),
            }
        }
    }
}

/// The command line that the arguments (the program name first) denote.
pub open spec fn parse_cli(a: Seq<Seq<char>>) -> Result<CliView, CliError> {
    scan_top(a, 1, None)
}

/// A parse outcome with its texts as character sequences.
pub open spec fn cli_result_view(r: Result<Cli, CliError>) -> Result<CliView, CliError> {
    match r {
        Ok(c) => Ok(c@),
        Err(e) => Err(e),
    }
}

// ---------------------------------------------------------------------------
// Reading the arguments.
// ---------------------------------------------------------------------------

/// What has been read of a subcommand's arguments.
struct LeafScan {
    state: Option<ValueRef>,
    order: Option<ValueRef>,
    pager: bool,
    no_pager: bool,
    positions: Vec<usize>,
}

impl View for LeafScan {
    type V = LeafScanView;

    closed spec fn view(&self) -> LeafScanView {
        LeafScanView {
            state: self.state,
            order: self.order,
            pager: self.pager,
            no_pager: self.no_pager,
            positions: self.positions@,
        }
    }
}

fn is_help_arg(t: &str) -> (r: bool)
    ensures
        r == is_help_flag(t@),
{
    str_eq(t, "-h") || str_eq(t, "--help")
}

fn is_option_arg(t: &str) -> (r: bool)
    ensures
        r == is_option_token(t@),
{
    t.unicode_len() >= 2 && t.get_char(0) == '-'
}

fn persona_from(t: &str) -> (r: Option<Persona>)
    ensures
        r == persona_named(t@),
{
    if str_eq(t, "alice") {
        Some(Persona::Alice)
    } else if str_eq(t, "bob") {
        Some(Persona::Bob)
    } else if str_eq(t, "charlie") {
        Some(Persona::Charlie)
    } else if str_eq(t, "dave") {
        Some(Persona::Dave)
    } else if str_eq(t, "eve") {
        Some(Persona::Eve)
    } else if str_eq(t, "ferdie") {
        Some(Persona::Ferdie)
    } else {
        None
    }
}

fn vote_from(t: &str) -> (r: Option<VoteChoice>)
    ensures
        r == vote_named(t@),
{
    if str_eq(t, "yes") {
        Some(VoteChoice::Yes)
    } else if str_eq(t, "no") {
        Some(VoteChoice::No)
    } else {
        None
    }
}

fn order_from(t: &str) -> (r: Option<ListOrder>)
    ensures
        r == order_named(t@),
{
    if str_eq(t, "newest") {
        Some(ListOrder::Newest)
    } else if str_eq(t, "oldest") {
        Some(ListOrder::Oldest)
    } else {
        None
    }
}

fn proposal_filter_from(t: &str) -> (r: Option<ProposalStateFilter>)
    ensures
        r == proposal_filter_named(t@),
{
    if str_eq(t, "active") {
        Some(ProposalStateFilter::Active)
    } else if str_eq(t, "approved") {
        Some(ProposalStateFilter::Approved)
    } else if str_eq(t, "rejected") {
        Some(ProposalStateFilter::Rejected)
    } else if str_eq(t, "executed") {
        Some(ProposalStateFilter::Executed)
    } else if str_eq(t, "all") {
        Some(ProposalStateFilter::All)
    } else {
        None
    }
}

fn membership_filter_from(t: &str) -> (r: Option<MembershipStateFilter>)
    ensures
        r == membership_filter_named(t@),
{
    if str_eq(t, "active") {
        Some(MembershipStateFilter::Active)
    } else if str_eq(t, "approved") {
        Some(MembershipStateFilter::Approved)
    } else if str_eq(t, "rejected") {
        Some(MembershipStateFilter::Rejected)
    } else if str_eq(t, "all") {
        Some(MembershipStateFilter::All)
    } else {
        None
    }
}

fn value_str<'a>(args: &[&'a str], v: ValueRef) -> (r: &'a str)
    requires
        value_ref_valid(arg_texts(args@), v),
    ensures
        r@ == value_text(arg_texts(args@), v),
{
    let t = args[v.0];
    t.substring_char(v.1, t.unicode_len())
}

fn read_leaf(args: &[&str], k: usize, list_options: bool) -> (r: Result<LeafScan, CliError>)
    ensures
        match r {
            Ok(s) => scan_leaf(arg_texts(args@), k as int, list_options, empty_scan())
                == Ok::<LeafScanView, CliError>(s@) && scan_valid(arg_texts(args@), s@),
            Err(e) => scan_leaf(arg_texts(args@), k as int, list_options, empty_scan())
                == Err::<LeafScanView, CliError>(e),
        },
{
    let ghost a = arg_texts(args@);
    let n = args.len();
    let mut acc = LeafScan { state: None, order: None, pager: false, no_pager: false, positions: Vec::new() };
    assert(acc@ =~= empty_scan());
    let mut i = k;
    while i < n
        invariant
            a == arg_texts(args@),
            n == args@.len(),
            scan_leaf(a, i as int, list_options, acc@) == scan_leaf(a, k as int, list_options, empty_scan()),
            scan_valid(a, acc@),
        decreases n - i,
    {
        let t = args[i];
        assert(a[i as int] == t@);
        if is_help_arg(t) {
            return Err(CliError::HelpRequested);
        } else if list_options && str_eq(t, "--state") {
            if acc.state.is_some() {
                return Err(CliError::DuplicateOption);
            } else if i + 1 >= n {
                return Err(CliError::MissingOptionValue);
            }
            acc.state = Some((i + 1, 0));
            i = i + 2;
        } else if list_options && starts_with(t, "--state=") {
            if acc.state.is_some() {
                return Err(CliError::DuplicateOption);
            }
            acc.state = Some((i, "--state=".unicode_len()));
            i = i + 1;
        } else if list_options && str_eq(t, "--order") {
            if acc.order.is_some() {
                return Err(CliError::DuplicateOption);
            } else if i + 1 >= n {
                return Err(CliError::MissingOptionValue);
            }
            acc.order = Some((i + 1, 0));
            i = i + 2;
        } else if list_options && starts_with(t, "--order=") {
            if acc.order.is_some() {
                return Err(CliError::DuplicateOption);
            }
            acc.order = Some((i, "--order=".unicode_len()));
            i = i + 1;
        } else if list_options && str_eq(t, "--pager") {
            if acc.pager {
                return Err(CliError::DuplicateOption);
            }
            acc.pager = true;
            i = i + 1;
        } else if list_options && str_eq(t, "--no-pager") {
            if acc.no_pager {
                return Err(CliError::DuplicateOption);
            }
            acc.no_pager = true;
            i = i + 1;
        } else if is_option_arg(t) {
            return Err(CliError::UnknownOption);
        } else {
            acc.positions.push(i);
            i = i + 1;
        }
    }
    Ok(acc)
}

fn arity(s: &LeafScan, n: usize) -> (r: Option<CliError>)
    ensures
        r == arity_error(s@, n as nat),
{
    if s.positions.len() < n {
        Some(CliError::MissingArgument)
    } else if s.positions.len() > n {
        Some(CliError::UnexpectedArgument)
    } else {
        None
    }
}

fn positional_str<'a>(args: &[&'a str], s: &LeafScan, i: usize) -> (r: &'a str)
    requires
        scan_valid(arg_texts(args@), s@),
        i < s.positions@.len(),
    ensures
        r@ == positional(arg_texts(args@), s@, i as int),
{
    let p = s.positions[i];
    assert(s@.positions[i as int] < args@.len());
    args[p]
}

fn persona_arg(args: &[&str], s: &LeafScan, i: usize) -> (r: Result<Persona, CliError>)
    requires
        scan_valid(arg_texts(args@), s@),
        i < s.positions@.len(),
    ensures
        r == persona_at(arg_texts(args@), s@, i as int),
{
    match persona_from(positional_str(args, s, i)) {
        Some(p) => Ok(p),
        None => Err(CliError::InvalidValue),
    }
}

fn u32_arg(args: &[&str], s: &LeafScan, i: usize) -> (r: Result<u32, CliError>)
    requires
        scan_valid(arg_texts(args@), s@),
        i < s.positions@.len(),
    ensures
        r == u32_at(arg_texts(args@), s@, i as int),
{
    match parse_decimal_u32(positional_str(args, s, i)) {
        Some(v) => Ok(v),
        None => Err(CliError::InvalidValue),
    }
}

fn u128_arg(args: &[&str], s: &LeafScan, i: usize) -> (r: Result<u128, CliError>)
    requires
        scan_valid(arg_texts(args@), s@),
        i < s.positions@.len(),
    ensures
        r == u128_at(arg_texts(args@), s@, i as int),
{
    match parse_decimal_u128(positional_str(args, s, i)) {
        Some(v) => Ok(v),
        None => Err(CliError::InvalidValue),
    }
}

fn vote_arg(args: &[&str], s: &LeafScan, i: usize) -> (r: Result<VoteChoice, CliError>)
    requires
        scan_valid(arg_texts(args@), s@),
        i < s.positions@.len(),
    ensures
        r == vote_at(arg_texts(args@), s@, i as int),
{
    match vote_from(positional_str(args, s, i)) {
        Some(v) => Ok(v),
        None => Err(CliError::InvalidValue),
    }
}

fn subcommand_index(args: &[&str], j: usize) -> (r: Result<usize, CliError>)
    ensures
        match r {
            Ok(k) => subcommand_at(arg_texts(args@), j as int) == Ok::<int, CliError>(k as int)
                && k < args@.len(),
            Err(e) => subcommand_at(arg_texts(args@), j as int) == Err::<int, CliError>(e),
        },
{
    if j >= args.len() {
        Err(CliError::MissingCommand)
    } else if is_help_arg(args[j]) {
        Err(CliError::HelpRequested)
    } else if is_option_arg(args[j]) {
        Err(CliError::UnknownOption)
    } else {
        Ok(j)
    }
}

fn read_personas(args: &[&str], j: usize) -> (r: Result<PersonaCommand, CliError>)
    ensures
        r == personas_command(arg_texts(args@), j as int),
{
    let ghost a = arg_texts(args@);
    let k = match subcommand_index(args, j) {
        Err(e) => return Err(e),
        Ok(k) => k,
    };
    let name = args[k];
    assert(a[k as int] == name@);
    if str_eq(name, "list") {
        let s = match read_leaf(args, k + 1, false) {
            Err(e) => return Err(e),
            Ok(s) => s,
        };
        match arity(&s, 0) {
            Some(e) => Err(e),
            None => Ok(PersonaCommand::List),
        }
    } else if str_eq(name, "preview") {
        let s = match read_leaf(args, k + 1, false) {
            Err(e) => return Err(e),
            Ok(s) => s,
        };
        match arity(&s, 1) {
            Some(e) => Err(e),
            None => match persona_arg(args, &s, 0) {
                Ok(persona) => Ok(PersonaCommand::Preview { persona }),
                Err(e) => Err(e),
            },
        }
    } else {
        Err(CliError::UnknownCommand)
    }
}

fn read_memberships(args: &[&str], j: usize) -> (r: Result<MembershipCommand, CliError>)
    ensures
        r == memberships_command(arg_texts(args@), j as int),
{
    let ghost a = arg_texts(args@);
    let k = match subcommand_index(args, j) {
        Err(e) => return Err(e),
        Ok(k) => k,
    };
    let name = args[k];
    assert(a[k as int] == name@);
    if str_eq(name, "propose") {
        let s = match read_leaf(args, k + 1, false) {
            Err(e) => return Err(e),
            Ok(s) => s,
        };
        match arity(&s, 2) {
            Some(e) => Err(e),
            None => match (persona_arg(args, &s, 0), persona_arg(args, &s, 1)) {
                (Ok(signer), Ok(candidate)) => Ok(MembershipCommand::Propose { signer, candidate }),
                _ => Err(CliError::InvalidValue),
            },
        }
    } else if str_eq(name, "vote") {
        let s = match read_leaf(args, k + 1, false) {
            Err(e) => return Err(e),
            Ok(s) => s,
        };
        match arity(&s, 3) {
            Some(e) => Err(e),
            None => match (persona_arg(args, &s, 0), u32_arg(args, &s, 1), vote_arg(args, &s, 2)) {
                (Ok(signer), Ok(proposal_id), Ok(approve)) => Ok(
                    MembershipCommand::Vote { signer, proposal_id, approve },
                ),
                _ => Err(CliError::InvalidValue),
            },
        }
    } else if str_eq(name, "finalize") {
        let s = match read_leaf(args, k + 1, false) {
            Err(e) => return Err(e),
            Ok(s) => s,
        };
        match arity(&s, 2) {
            Some(e) => Err(e),
            None => match (persona_arg(args, &s, 0), u32_arg(args, &s, 1)) {
                (Ok(signer), Ok(proposal_id)) => Ok(MembershipCommand::Finalize { signer, proposal_id }),
                _ => Err(CliError::InvalidValue),
            },
        }
    } else {
        Err(CliError::UnknownCommand)
    }
}

fn action_arity_of(name: &str) -> (r: Option<usize>)
    ensures
        match r {
            Some(n) => action_arity(name@) == Some(n as nat),
            None => action_arity(name@) is None,
        },
{
    if str_eq(name, "disbursement") {
        Some(6)
    } else if str_eq(name, "set-proposal-voting-period") || str_eq(name, "set-execution-delay")
        || str_eq(name, "set-membership-voting-period") {
        Some(5)
    } else if str_eq(name, "set-standard-threshold") || str_eq(name, "set-governance-threshold")
        || str_eq(name, "set-constitutional-threshold") || str_eq(name, "set-membership-threshold")
        || str_eq(name, "set-suspension-threshold") {
        Some(6)
    } else if str_eq(name, "upgrade-runtime") {
        Some(5)
    } else {
        None
    }
}

fn read_action(args: &[&str], s: &LeafScan, name: &str) -> (r: Result<ProposalAction, CliError>)
    requires
        scan_valid(arg_texts(args@), s@),
        action_arity(name@) matches Some(n) && s.positions@.len() == n,
    ensures
        match r {
            Ok(action) => action_of(arg_texts(args@), s@, name@) == Ok::<ProposalActionView, CliError>(action@),
            Err(e) => action_of(arg_texts(args@), s@, name@) == Err::<ProposalActionView, CliError>(e),
        },
{
    if str_eq(name, "disbursement") {
        match (persona_arg(args, s, 4), u128_arg(args, s, 5)) {
            (Ok(recipient), Ok(amount)) => Ok(ProposalAction::Disbursement { recipient, amount }),
            _ => Err(CliError::InvalidValue),
        }
    } else if str_eq(name, "set-proposal-voting-period") || str_eq(name, "set-execution-delay")
        || str_eq(name, "set-membership-voting-period") {
        match u32_arg(args, s, 4) {
            Ok(blocks) => Ok(
                if str_eq(name, "set-proposal-voting-period") {
                    ProposalAction::SetProposalVotingPeriod { blocks }
                } else if str_eq(name, "set-execution-delay") {
                    ProposalAction::SetExecutionDelay { blocks }
                } else {
                    ProposalAction::SetMembershipVotingPeriod { blocks }
                },
            ),
            Err(e) => Err(e),
        }
    } else if str_eq(name, "upgrade-runtime") {
        match parse_code_hash(positional_str(args, s, 4)) {
            Ok(code_hash) => Ok(ProposalAction::UpgradeRuntime { code_hash }),
            Err(_) => Err(CliError::InvalidValue),
        }
    } else {
        match (u32_arg(args, s, 4), u32_arg(args, s, 5)) {
            (Ok(numerator), Ok(denominator)) => Ok(
                if str_eq(name, "set-standard-threshold") {
                    ProposalAction::SetStandardThreshold { numerator, denominator }
                } else if str_eq(name, "set-governance-threshold") {
                    ProposalAction::SetGovernanceThreshold { numerator, denominator }
                } else if str_eq(name, "set-constitutional-threshold") {
                    ProposalAction::SetConstitutionalThreshold { numerator, denominator }
                } else if str_eq(name, "set-membership-threshold") {
                    ProposalAction::SetMembershipThreshold { numerator, denominator }
                } else {
                    ProposalAction::SetSuspensionThreshold { numerator, denominator }
                },
            ),
            _ => Err(CliError::InvalidValue),
        }
    }
}

fn read_submit(args: &[&str], s: &LeafScan) -> (r: Result<ProposalCommand, CliError>)
    requires
        scan_valid(arg_texts(args@), s@),
    ensures
        match r {
            Ok(c) => submit_of(arg_texts(args@), s@) == Ok::<ProposalCommandView, CliError>(c@),
            Err(e) => submit_of(arg_texts(args@), s@) == Err::<ProposalCommandView, CliError>(e),
        },
{
    let typed = if s.positions.len() > 0 {
        action_arity_of(positional_str(args, s, 0))
    } else {
        None
    };
    match typed {
        Some(n) => {
            let name = positional_str(args, s, 0);
            match arity(s, n) {
                Some(e) => Err(e),
                None => match (persona_arg(args, s, 1), read_action(args, s, name)) {
                    (Ok(signer), Ok(action)) => {
                        let title = positional_str(args, s, 2).to_owned();
                        let description = positional_str(args, s, 3).to_owned();
                        Ok(ProposalCommand::SubmitAction { signer, title, description, action })
                    },
                    _ => Err(CliError::InvalidValue),
                },
            }
        },
        None => match arity(s, 5) {
            Some(e) => Err(e),
            None => match (persona_arg(args, s, 0), u128_arg(args, s, 3), u32_arg(args, s, 4)) {
                (Ok(signer), Ok(amount), Ok(event_block)) => {
                    let title = positional_str(args, s, 1).to_owned();
                    let description = positional_str(args, s, 2).to_owned();
                    Ok(ProposalCommand::Submit { signer, title, description, amount, event_block })
                },
                _ => Err(CliError::InvalidValue),
            },
        },
    }
}

fn read_proposals(args: &[&str], j: usize) -> (r: Result<ProposalCommand, CliError>)
    ensures
        match r {
            Ok(c) => proposals_command(arg_texts(args@), j as int) == Ok::<ProposalCommandView, CliError>(c@),
            Err(e) => proposals_command(arg_texts(args@), j as int) == Err::<ProposalCommandView, CliError>(e),
        },
{
    let ghost a = arg_texts(args@);
    let k = match subcommand_index(args, j) {
        Err(e) => return Err(e),
        Ok(k) => k,
    };
    let name = args[k];
    assert(a[k as int] == name@);
    if str_eq(name, "submit") {
        let s = match read_leaf(args, k + 1, false) {
            Err(e) => return Err(e),
            Ok(s) => s,
        };
        read_submit(args, &s)
    } else if str_eq(name, "upload-runtime-code") {
        let s = match read_leaf(args, k + 1, false) {
            Err(e) => return Err(e),
            Ok(s) => s,
        };
        match arity(&s, 2) {
            Some(e) => Err(e),
            None => match persona_arg(args, &s, 0) {
                Ok(signer) => {
                    let code_path = positional_str(args, &s, 1).to_owned();
                    Ok(ProposalCommand::UploadRuntimeCode { signer, code_path })
                },
                Err(e) => Err(e),
            },
        }
    } else if str_eq(name, "vote") {
        let s = match read_leaf(args, k + 1, false) {
            Err(e) => return Err(e),
            Ok(s) => s,
        };
        match arity(&s, 3) {
            Some(e) => Err(e),
            None => match (persona_arg(args, &s, 0), u32_arg(args, &s, 1), vote_arg(args, &s, 2)) {
                (Ok(signer), Ok(proposal_id), Ok(approve)) => Ok(
                    ProposalCommand::Vote { signer, proposal_id, approve },
                ),
                _ => Err(CliError::InvalidValue),
            },
        }
    } else if str_eq(name, "finalize") || str_eq(name, "execute") {
        let finalize = str_eq(name, "finalize");
        let s = match read_leaf(args, k + 1, false) {
            Err(e) => return Err(e),
            Ok(s) => s,
        };
        match arity(&s, 2) {
            Some(e) => Err(e),
            None => match (persona_arg(args, &s, 0), u32_arg(args, &s, 1)) {
                (Ok(signer), Ok(proposal_id)) => Ok(
                    if finalize {
                        ProposalCommand::Finalize { signer, proposal_id }
                    } else {
                        ProposalCommand::Execute { signer, proposal_id }
                    },
                ),
                _ => Err(CliError::InvalidValue),
            },
        }
    } else {
        Err(CliError::UnknownCommand)
    }
}

fn read_treasury(args: &[&str], j: usize) -> (r: Result<TreasuryCommand, CliError>)
    ensures
        r == treasury_command(arg_texts(args@), j as int),
{
    let ghost a = arg_texts(args@);
    let k = match subcommand_index(args, j) {
        Err(e) => return Err(e),
        Ok(k) => k,
    };
    let name = args[k];
    assert(a[k as int] == name@);
    if str_eq(name, "deposit") {
        let s = match read_leaf(args, k + 1, false) {
            Err(e) => return Err(e),
            Ok(s) => s,
        };
        match arity(&s, 2) {
            Some(e) => Err(e),
            None => match (persona_arg(args, &s, 0), u128_arg(args, &s, 1)) {
                (Ok(signer), Ok(amount)) => Ok(TreasuryCommand::Deposit { signer, amount }),
                _ => Err(CliError::InvalidValue),
            },
        }
    } else {
        Err(CliError::UnknownCommand)
    }
}

fn optional_id(args: &[&str], s: &LeafScan) -> (r: Result<Option<u32>, CliError>)
    requires
        scan_valid(arg_texts(args@), s@),
    ensures
        r == optional_id_of(arg_texts(args@), s@),
{
    if s.positions.len() == 0 {
        Ok(None)
    } else {
        match u32_arg(args, s, 0) {
            Ok(v) => Ok(Some(v)),
            Err(e) => Err(e),
        }
    }
}

fn order_arg(args: &[&str], s: &LeafScan) -> (r: Result<ListOrder, CliError>)
    requires
        scan_valid(arg_texts(args@), s@),
    ensures
        r == order_of(arg_texts(args@), s@),
{
    match s.order {
        None => Ok(ListOrder::Newest),
        Some(v) => match order_from(value_str(args, v)) {
            Some(o) => Ok(o),
            None => Err(CliError::InvalidValue),
        },
    }
}

fn proposal_filter_arg(args: &[&str], s: &LeafScan) -> (r: Result<ProposalStateFilter, CliError>)
    requires
        scan_valid(arg_texts(args@), s@),
    ensures
        r == proposal_filter_of(arg_texts(args@), s@),
{
    match s.state {
        None => Ok(ProposalStateFilter::Active),
        Some(v) => match proposal_filter_from(value_str(args, v)) {
            Some(f) => Ok(f),
            None => Err(CliError::InvalidValue),
        },
    }
}

fn membership_filter_arg(args: &[&str], s: &LeafScan) -> (r: Result<MembershipStateFilter, CliError>)
    requires
        scan_valid(arg_texts(args@), s@),
    ensures
        r == membership_filter_of(arg_texts(args@), s@),
{
    match s.state {
        None => Ok(MembershipStateFilter::Active),
        Some(v) => match membership_filter_from(value_str(args, v)) {
            Some(f) => Ok(f),
            None => Err(CliError::InvalidValue),
        },
    }
}

fn list_view_check(s: &LeafScan) -> (r: Option<CliError>)
    ensures
        r == list_view_error(s@),
{
    if s.pager && s.no_pager {
        Some(CliError::ConflictingOptions)
    } else if s.positions.len() > 1 {
        Some(CliError::UnexpectedArgument)
    } else {
        None
    }
}

fn read_watch(args: &[&str], j: usize) -> (r: Result<WatchCommand, CliError>)
    ensures
        r == watch_command(arg_texts(args@), j as int),
{
    let ghost a = arg_texts(args@);
    let k = match subcommand_index(args, j) {
        Err(e) => return Err(e),
        Ok(k) => k,
    };
    let name = args[k];
    assert(a[k as int] == name@);
    if str_eq(name, "proposals") {
        let s = match read_leaf(args, k + 1, true) {
            Err(e) => return Err(e),
            Ok(s) => s,
        };
        match list_view_check(&s) {
            Some(e) => Err(e),
            None => match (optional_id(args, &s), proposal_filter_arg(args, &s), order_arg(args, &s)) {
                (Ok(proposal_id), Ok(state), Ok(order)) => Ok(
                    WatchCommand::Proposals { proposal_id, state, order, pager: s.pager, no_pager: s.no_pager },
                ),
                _ => Err(CliError::InvalidValue),
            },
        }
    } else if str_eq(name, "memberships") {
        let s = match read_leaf(args, k + 1, true) {
            Err(e) => return Err(e),
            Ok(s) => s,
        };
        match list_view_check(&s) {
            Some(e) => Err(e),
            None => match (optional_id(args, &s), membership_filter_arg(args, &s), order_arg(args, &s)) {
                (Ok(proposal_id), Ok(state), Ok(order)) => Ok(
                    WatchCommand::Memberships { proposal_id, state, order, pager: s.pager, no_pager: s.no_pager },
                ),
                _ => Err(CliError::InvalidValue),
            },
        }
    } else if str_eq(name, "treasury") {
        let s = match read_leaf(args, k + 1, false) {
            Err(e) => return Err(e),
            Ok(s) => s,
        };
        match arity(&s, 0) {
            Some(e) => Err(e),
            None => Ok(WatchCommand::Treasury),
        }
    } else {
        Err(CliError::UnknownCommand)
    }
}

fn read_local(args: &[&str], j: usize) -> (r: Result<LocalCommand, CliError>)
    ensures
        r == local_command(arg_texts(args@), j as int),
{
    let ghost a = arg_texts(args@);
    let k = match subcommand_index(args, j) {
        Err(e) => return Err(e),
        Ok(k) => k,
    };
    let name = args[k];
    assert(a[k as int] == name@);
    let start = str_eq(name, "start");
    let reset = str_eq(name, "reset");
    let refresh = str_eq(name, "refresh-metadata");
    if start || reset || refresh {
        let s = match read_leaf(args, k + 1, false) {
            Err(e) => return Err(e),
            Ok(s) => s,
        };
        match arity(&s, 0) {
            Some(e) => Err(e),
            None => Ok(
                if start {
                    LocalCommand::Start
                } else if reset {
                    LocalCommand::Reset
                } else {
                    LocalCommand::RefreshMetadata
                },
            ),
        }
    } else {
        Err(CliError::UnknownCommand)
    }
}

fn read_top_command(args: &[&str], i: usize) -> (r: Result<TopCommand, CliError>)
    requires
        i < args@.len(),
    ensures
        match r {
            Ok(c) => top_command(arg_texts(args@), i as int) == Ok::<TopCommandView, CliError>(c@),
            Err(e) => top_command(arg_texts(args@), i as int) == Err::<TopCommandView, CliError>(e),
        },
{
    let ghost a = arg_texts(args@);
    let name = args[i];
    assert(a[i as int] == name@);
    if str_eq(name, "personas") {
        match read_personas(args, i + 1) {
            Ok(command) => Ok(TopCommand::Personas { command }),
            Err(e) => Err(e),
        }
    } else if str_eq(name, "memberships") {
        match read_memberships(args, i + 1) {
            Ok(command) => Ok(TopCommand::Memberships { command }),
            Err(e) => Err(e),
        }
    } else if str_eq(name, "proposals") {
        match read_proposals(args, i + 1) {
            Ok(command) => Ok(TopCommand::Proposals { command }),
            Err(e) => Err(e),
        }
    } else if str_eq(name, "treasury") {
        match read_treasury(args, i + 1) {
            Ok(command) => Ok(TopCommand::Treasury { command }),
            Err(e) => Err(e),
        }
    } else if str_eq(name, "watch") {
        match read_watch(args, i + 1) {
            Ok(command) => Ok(TopCommand::Watch { command }),
            Err(e) => Err(e),
        }
    } else if str_eq(name, "local") {
        match read_local(args, i + 1) {
            Ok(command) => Ok(TopCommand::Local { command }),
            Err(e) => Err(e),
        }
    } else {
        Err(CliError::UnknownCommand)
    }
}

impl Cli {
    /// Parses a command line whose first argument is the program name.
    pub fn try_parse_from(args: &[&str]) -> (r: Result<Cli, CliError>)
        ensures
            cli_result_view(r) == parse_cli(arg_texts(args@)),
    {
        let ghost a = arg_texts(args@);
        let n = args.len();
        let mut url: Option<ValueRef> = None;
        let mut i: usize = 1;
        while i < n
            invariant
                a == arg_texts(args@),
                n == args@.len(),
                scan_top(a, i as int, url) == parse_cli(a),
                url matches Some(v) ==> value_ref_valid(a, v),
            decreases n - i,
        {
            let t = args[i];
            assert(a[i as int] == t@);
            if is_help_arg(t) {
                return Err(CliError::HelpRequested);
            } else if str_eq(t, "--url") {
                if url.is_some() {
                    return Err(CliError::DuplicateOption);
                } else if i + 1 >= n {
                    return Err(CliError::MissingOptionValue);
                }
                url = Some((i + 1, 0));
                i = i + 2;
            } else if starts_with(t, "--url=") {
                if url.is_some() {
                    return Err(CliError::DuplicateOption);
                }
                url = Some((i, "--url=".unicode_len()));
                i = i + 1;
            } else if is_option_arg(t) {
                return Err(CliError::UnknownOption);
            } else {
                let command = match read_top_command(args, i) {
                    Ok(command) => command,
                    Err(e) => return Err(e),
                };
                let url_string = match url {
                    Some(v) => value_str(args, v).to_owned(),
                    None => String::from_str("ws://127.0.0.1:9944"),
                };
                return Ok(Cli { url: url_string, command });
            }
        }
        Err(CliError::MissingCommand)
    }
}

/// Each typed action name of `proposals submit` selects its own action, a
/// table that no two names share: with a block count in place 4, or a
/// numerator and a denominator in places 4 and 5, the three period names give
/// their period actions and the five threshold names their threshold
/// actions, with the given numbers.
pub proof fn lemma_action_names_select_their_action(
    a: Seq<Seq<char>>,
    s: LeafScanView,
    first: u32,
    second: u32,
)
    requires
        u32_at(a, s, 4) == Ok::<u32, CliError>(first),
        u32_at(a, s, 5) == Ok::<u32, CliError>(second),
    ensures
        action_of(a, s, "set-proposal-voting-period"@) == Ok::<ProposalActionView, CliError>(
            ProposalActionView::SetProposalVotingPeriod { blocks: first },
        ),
        action_of(a, s, "set-execution-delay"@) == Ok::<ProposalActionView, CliError>(
            ProposalActionView::SetExecutionDelay { blocks: first },
        ),
        action_of(a, s, "set-membership-voting-period"@) == Ok::<ProposalActionView, CliError>(
            ProposalActionView::SetMembershipVotingPeriod { blocks: first },
        ),
        action_of(a, s, "set-standard-threshold"@) == Ok::<ProposalActionView, CliError>(
            ProposalActionView::SetStandardThreshold { numerator: first, denominator: second },
        ),
        action_of(a, s, "set-governance-threshold"@) == Ok::<ProposalActionView, CliError>(
            ProposalActionView::SetGovernanceThreshold { numerator: first, denominator: second },
        ),
        action_of(a, s, "set-constitutional-threshold"@) == Ok::<ProposalActionView, CliError>(
            ProposalActionView::SetConstitutionalThreshold { numerator: first, denominator: second },
        ),
        action_of(a, s, "set-membership-threshold"@) == Ok::<ProposalActionView, CliError>(
            ProposalActionView::SetMembershipThreshold { numerator: first, denominator: second },
        ),
        action_of(a, s, "set-suspension-threshold"@) == Ok::<ProposalActionView, CliError>(
            ProposalActionView::SetSuspensionThreshold { numerator: first, denominator: second },
        ),
{
    reveal_strlit("disbursement");
    reveal_strlit("upgrade-runtime");
    reveal_strlit("set-proposal-voting-period");
    reveal_strlit("set-execution-delay");
    reveal_strlit("set-membership-voting-period");
    reveal_strlit("set-standard-threshold");
    reveal_strlit("set-governance-threshold");
    reveal_strlit("set-constitutional-threshold");
    reveal_strlit("set-membership-threshold");
    reveal_strlit("set-suspension-threshold");
    assert("disbursement"@[0] == 'd' && "disbursement"@[4] == 'u' && "disbursement"@[5] == 'r');
    assert("upgrade-runtime"@[0] == 'u'
        && "upgrade-runtime"@[4] == 'a'
        && "upgrade-runtime"@[5] == 'd');
    assert("set-proposal-voting-period"@[0] == 's'
        && "set-proposal-voting-period"@[4] == 'p'
        && "set-proposal-voting-period"@[5] == 'r'
        && "set-proposal-voting-period"@[15] == 't');
    assert("set-execution-delay"@[0] == 's'
        && "set-execution-delay"@[4] == 'e'
        && "set-execution-delay"@[5] == 'x'
        && "set-execution-delay"@[15] == 'e');
    assert("set-membership-voting-period"@[0] == 's'
        && "set-membership-voting-period"@[4] == 'm'
        && "set-membership-voting-period"@[5] == 'e'
        && "set-membership-voting-period"@[15] == 'v');
    assert("set-standard-threshold"@[0] == 's'
        && "set-standard-threshold"@[4] == 's'
        && "set-standard-threshold"@[5] == 't'
        && "set-standard-threshold"@[15] == 'r');
    assert("set-governance-threshold"@[0] == 's'
        && "set-governance-threshold"@[4] == 'g'
        && "set-governance-threshold"@[5] == 'o'
        && "set-governance-threshold"@[15] == 't');
    assert("set-constitutional-threshold"@[0] == 's'
        && "set-constitutional-threshold"@[4] == 'c'
        && "set-constitutional-threshold"@[5] == 'o'
        && "set-constitutional-threshold"@[15] == 'n');
    assert("set-membership-threshold"@[0] == 's'
        && "set-membership-threshold"@[4] == 'm'
        && "set-membership-threshold"@[5] == 'e'
        && "set-membership-threshold"@[15] == 't');
    assert("set-suspension-threshold"@[0] == 's'
        && "set-suspension-threshold"@[4] == 's'
        && "set-suspension-threshold"@[5] == 'u'
        && "set-suspension-threshold"@[15] == 't');
}

/// Each typed action is submitted under the class its kind requires: a
/// disbursement as Standard, the three periods as Governance, the five
/// thresholds and a runtime upgrade as Constitutional.
pub proof fn lemma_action_class_table(action: ProposalActionView)
    ensures
        action is Disbursement ==> action_class(action) == ProposalClass::Standard,
        action is SetProposalVotingPeriod ==> action_class(action) == ProposalClass::Governance,
        action is SetExecutionDelay ==> action_class(action) == ProposalClass::Governance,
        action is SetMembershipVotingPeriod ==> action_class(action) == ProposalClass::Governance,
        action is SetStandardThreshold ==> action_class(action) == ProposalClass::Constitutional,
        action is SetGovernanceThreshold ==> action_class(action) == ProposalClass::Constitutional,
        action is SetConstitutionalThreshold ==> action_class(action)
            == ProposalClass::Constitutional,
        action is SetMembershipThreshold ==> action_class(action) == ProposalClass::Constitutional,
        action is SetSuspensionThreshold ==> action_class(action) == ProposalClass::Constitutional,
        action is UpgradeRuntime ==> action_class(action) == ProposalClass::Constitutional,
{
}

} // verus!
