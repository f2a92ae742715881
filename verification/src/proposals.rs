//! The proposals pallet: the lifecycle of a governance proposal,
//! **submission → voting → tally → approval/rejection → single execution**.
//!
//! Any active member may submit a proposal with a title, a description, a
//! class and a typed governance action; the class must be the one the action
//! requires. Active members vote yes or no while the voting window is open.
//! After the window anyone may tally: the proposal is approved when the yes
//! votes reach the threshold of its class among the votes cast and outnumber
//! the no votes, and rejected otherwise (a tie is rejected). An approved
//! proposal may be executed once, no earlier than the stored execution delay
//! after its approval; execution dispatches its action with the governance
//! origin.
//!
//! Invariants: only active members vote, once per proposal and with equal
//! weight (the counters equal the recorded votes); a proposal executes at
//! most once.
use vstd::prelude::*;

use std::collections::BTreeMap;

use crate::primitives::{
    capped, counter, counts_match, ensure_signed, lemma_record_vote, meets_threshold,
    pallet_account, reaches_threshold, read_counter, read_stored, sat_add, signer_of,
    stored_or_zero, valid_threshold, voters, AccountId, Balance, BlockNumber, BoundedBytes,
    DispatchError, Origin, PalletId,
};
use crate::membership::{ChainProfile, default_membership_voting_period, spec_default_voting_period};

verus! {

/// Maximum length of a proposal title in bytes.
pub const MAX_TITLE_LEN: usize = 128;

/// Maximum length of a proposal description in bytes.
pub const MAX_DESC_LEN: usize = 1024;

/// The storage layout version of this pallet.
pub const STORAGE_VERSION: u16 = 1;

/// On-chain identifier of a proposal.
pub type ProposalId = u32;

/// A proposal title: at most `MAX_TITLE_LEN` bytes.
pub type ProposalTitle = BoundedBytes<128>;

/// A proposal description: at most `MAX_DESC_LEN` bytes.
pub type ProposalDescription = BoundedBytes<1024>;

/// Lifecycle state of a proposal.
#[derive(Clone, Copy, Debug, PartialEq, Eq, Structural)]
pub enum ProposalStatus {
    /// The voting window is open.
    Active,
    /// The tally reached the class threshold; awaiting execution.
    Approved,
    /// The tally did not reach the class threshold.
    Rejected,
    /// The action was dispatched; terminal state.
    Executed,
}

/// Approval class of a proposal.
#[derive(Clone, Copy, Debug, PartialEq, Eq, Structural)]
pub enum ProposalClass {
    Standard,
    Governance,
    Constitutional,
}

/// Typed governance action dispatched when a proposal is executed.
#[derive(Clone, Copy, Debug, PartialEq, Eq, Structural)]
pub enum GovernanceAction {
    DisburseToAccount { recipient: AccountId, amount: Balance },
    SetProposalVotingPeriod { blocks: BlockNumber },
    SetExecutionDelay { blocks: BlockNumber },
    SetStandardApprovalThreshold { numerator: u32, denominator: u32 },
    SetGovernanceApprovalThreshold { numerator: u32, denominator: u32 },
    SetConstitutionalApprovalThreshold { numerator: u32, denominator: u32 },
    SetMembershipVotingPeriod { blocks: BlockNumber },
    SetMembershipApprovalThreshold { numerator: u32, denominator: u32 },
    SetSuspensionThreshold { numerator: u32, denominator: u32 },
}

/// On-chain record of a proposal.
#[derive(Clone, Copy, Debug)]
pub struct ProposalRecord {
    pub title: ProposalTitle,
    pub description: ProposalDescription,
    pub class: ProposalClass,
    pub action: GovernanceAction,
    /// Block at which the tally approved the proposal.
    pub approved_at: Option<BlockNumber>,
    pub status: ProposalStatus,
    pub submitted_at: BlockNumber,
    /// Block number after which the proposal may be tallied.
    pub vote_end: BlockNumber,
}

/// Events of the proposals pallet.
#[derive(Clone, Copy, Debug, PartialEq, Eq, Structural)]
pub enum Event {
    /// A new proposal was submitted.
    ProposalSubmitted { proposal_id: ProposalId, organizer: AccountId },
    /// An active member voted on a proposal.
    VoteCast { proposal_id: ProposalId, voter: AccountId, approve: bool },
    /// The tally reached the class threshold: the proposal is approved.
    ProposalApproved { proposal_id: ProposalId },
    /// The tally did not reach the class threshold: the proposal is rejected.
    ProposalRejected { proposal_id: ProposalId },
    /// An approved proposal was executed.
    ProposalExecuted { proposal_id: ProposalId },
    /// The proposal voting period was updated.
    ProposalVotingPeriodSet { blocks: BlockNumber },
    /// The execution delay was updated.
    ExecutionDelaySet { blocks: BlockNumber },
    /// The standard approval threshold was updated.
    StandardThresholdSet { numerator: u32, denominator: u32 },
    /// The governance approval threshold was updated.
    GovernanceThresholdSet { numerator: u32, denominator: u32 },
    /// The constitutional approval threshold was updated.
    ConstitutionalThresholdSet { numerator: u32, denominator: u32 },
}

/// Errors of the proposals pallet.
#[derive(Clone, Copy, Debug, PartialEq, Eq, Structural)]
pub enum Error {
    /// The caller is not a registered active member.
    NotActiveMember,
    /// No proposal exists with the given id.
    ProposalNotFound,
    /// The voter has already cast a vote on this proposal.
    AlreadyVoted,
    /// The voting window has closed; votes are no longer accepted.
    VotingClosed,
    /// The voting window has not yet closed; tally is not available.
    VotingStillOpen,
    /// The proposal is not in the Active state (already tallied or executed).
    ProposalNotActive,
    /// The proposal is not in the Approved state and cannot be executed.
    ProposalNotApproved,
    /// The proposal has already been executed.
    ProposalAlreadyExecuted,
    /// The caller is not the organizer of the proposal.
    NotOrganizer,
    /// The supplied title exceeds the maximum allowed length.
    TitleTooLong,
    /// The supplied description exceeds the maximum allowed length.
    DescriptionTooLong,
    /// Invalid threshold fraction.
    InvalidThreshold,
    /// Proposal class does not match action requirements.
    ProposalClassMismatch,
    /// A setter was called by an origin other than the governance account.
    NotGovernanceOrigin,
    /// An approved proposal carries no approval block.
    ProposalNotYetApproved,
    /// The execution delay after approval has not yet passed.
    ExecutionTooEarly,
}

/// Membership status checks, as this pallet needs them.
pub trait MembershipChecker {
    /// `account` is an active member.
    spec fn spec_is_active_member(&self, account: AccountId) -> bool;

    /// Whether `account` is an active member.
    fn is_active_member(&self, account: &AccountId) -> (r: bool)
        ensures
            r == self.spec_is_active_member(*account);
}

/// Disbursements from the treasury, as this pallet needs them.
pub trait TreasuryHandler: Sized {
    /// `after` and `r` are the state and result of `before` disbursing `amount` to `to`.
    spec fn disburse_effect(
        before: Self,
        after: Self,
        to: AccountId,
        amount: Balance,
        r: Result<(), DispatchError>,
    ) -> bool;

    /// Disburses `amount` to `to`; a refused disbursement changes nothing.
    fn disburse(&mut self, to: &AccountId, amount: Balance) -> (r: Result<(), DispatchError>)
        ensures
            Self::disburse_effect(*old(self), *final(self), *to, amount, r),
            r is Err ==> *final(self) == *old(self);
}

/// Updates of the membership governance parameters, as this pallet needs them.
pub trait MembershipGovernance: Sized {
    /// `after` and `r` are the state and result of `before` setting the voting period.
    spec fn voting_period_set(
        before: Self,
        after: Self,
        origin: Origin,
        blocks: BlockNumber,
        r: Result<(), DispatchError>,
    ) -> bool;

    /// `after` and `r` are the state and result of `before` setting the approval threshold.
    spec fn approval_threshold_set(
        before: Self,
        after: Self,
        origin: Origin,
        numerator: u32,
        denominator: u32,
        r: Result<(), DispatchError>,
    ) -> bool;

    /// `after` and `r` are the state and result of `before` setting the suspension threshold.
    spec fn suspension_threshold_set(
        before: Self,
        after: Self,
        origin: Origin,
        numerator: u32,
        denominator: u32,
        r: Result<(), DispatchError>,
    ) -> bool;

    fn set_voting_period(&mut self, origin: Origin, blocks: BlockNumber) -> (r: Result<(), DispatchError>)
        ensures
            Self::voting_period_set(*old(self), *final(self), origin, blocks, r),
            r is Err ==> *final(self) == *old(self);

    fn set_approval_threshold(&mut self, origin: Origin, numerator: u32, denominator: u32) -> (r: Result<
        (),
        DispatchError,
    >)
        ensures
            Self::approval_threshold_set(*old(self), *final(self), origin, numerator, denominator, r),
            r is Err ==> *final(self) == *old(self);

    fn set_suspension_threshold(&mut self, origin: Origin, numerator: u32, denominator: u32) -> (r: Result<
        (),
        DispatchError,
    >)
        ensures
            Self::suspension_threshold_set(*old(self), *final(self), origin, numerator, denominator, r),
            r is Err ==> *final(self) == *old(self);
}

/// The class a proposal with `action` must have: disbursements are standard,
/// voting periods and the execution delay are governance, thresholds are
/// constitutional.
pub open spec fn spec_required_class(action: GovernanceAction) -> ProposalClass {
    match action {
        GovernanceAction::DisburseToAccount { .. } => ProposalClass::Standard,
        GovernanceAction::SetProposalVotingPeriod { .. } => ProposalClass::Governance,
        GovernanceAction::SetExecutionDelay { .. } => ProposalClass::Governance,
        GovernanceAction::SetMembershipVotingPeriod { .. } => ProposalClass::Governance,
        _ => ProposalClass::Constitutional,
    }
}

/// The class a proposal with `action` must have.
pub fn required_class_for_action(action: &GovernanceAction) -> (class: ProposalClass)
    ensures
        class == spec_required_class(*action),
{
    match action {
        GovernanceAction::DisburseToAccount { .. } => ProposalClass::Standard,
        GovernanceAction::SetProposalVotingPeriod { .. }
        | GovernanceAction::SetExecutionDelay { .. }
        | GovernanceAction::SetMembershipVotingPeriod { .. } => ProposalClass::Governance,
        GovernanceAction::SetStandardApprovalThreshold { .. }
        | GovernanceAction::SetGovernanceApprovalThreshold { .. }
        | GovernanceAction::SetConstitutionalApprovalThreshold { .. }
        | GovernanceAction::SetMembershipApprovalThreshold { .. }
        | GovernanceAction::SetSuspensionThreshold { .. } => ProposalClass::Constitutional,
    }
}

/// The default proposal voting period of a chain profile.
pub fn default_proposal_voting_period(profile: ChainProfile) -> (blocks: BlockNumber)
    ensures
        blocks == spec_default_voting_period(profile),
{
    default_membership_voting_period(profile)
}

/// Checks a threshold fraction: the denominator is not zero and the fraction is at most one.
pub fn ensure_valid_threshold(numerator: u32, denominator: u32) -> (r: Result<(), DispatchError>)
    ensures
        r == (if valid_threshold(numerator, denominator) {
            Ok::<(), DispatchError>(())
        } else {
            Err::<(), DispatchError>(DispatchError::Proposals(Error::InvalidThreshold))
        }),
{
    if denominator == 0 {
        return Err(DispatchError::Proposals(Error::InvalidThreshold));
    }
    if numerator > denominator {
        return Err(DispatchError::Proposals(Error::InvalidThreshold));
    }
    Ok(())
}

/// Genesis configuration of the governance parameters.
#[derive(Clone, Copy, Debug)]
pub struct GenesisConfig {
    pub proposal_voting_period: BlockNumber,
    pub execution_delay: BlockNumber,
    pub standard_approval_numerator: u32,
    pub standard_approval_denominator: u32,
    pub governance_approval_numerator: u32,
    pub governance_approval_denominator: u32,
    pub constitutional_approval_numerator: u32,
    pub constitutional_approval_denominator: u32,
}

/// Reads and writes of storage made by a migration.
#[derive(Clone, Copy, Debug, PartialEq, Eq, Structural)]
pub struct DbAccess {
    pub reads: u64,
    pub writes: u64,
}

/// State of the proposals pallet.
#[derive(Debug)]
pub struct Pallet {
    /// `ProposalCount`: the last allocated proposal id.
    pub proposal_count: u32,
    /// `Proposals`: all proposals by id.
    pub proposals: BTreeMap<ProposalId, ProposalRecord>,
    /// `ProposalVotes`: `(proposal_id, voter) -> approve`.
    pub proposal_votes: BTreeMap<(ProposalId, AccountId), bool>,
    /// `ProposalYesCount`: yes votes per proposal (absent means zero).
    pub proposal_yes_count: BTreeMap<ProposalId, u32>,
    /// `ProposalNoCount`: no votes per proposal (absent means zero).
    pub proposal_no_count: BTreeMap<ProposalId, u32>,
    /// `ProposalVotingPeriod` (absent until written; reads as zero).
    pub proposal_voting_period: Option<BlockNumber>,
    /// `ExecutionDelay` (absent until written; reads as zero).
    pub execution_delay: Option<BlockNumber>,
    pub standard_approval_numerator: Option<u32>,
    pub standard_approval_denominator: Option<u32>,
    pub governance_approval_numerator: Option<u32>,
    pub governance_approval_denominator: Option<u32>,
    pub constitutional_approval_numerator: Option<u32>,
    pub constitutional_approval_denominator: Option<u32>,
    /// The storage version found on chain.
    pub storage_version: u16,
    /// Configuration: the pallet id whose sovereign account is the governance origin.
    pub governance_pallet_id: PalletId,
    /// Events deposited by this pallet, oldest first.
    pub events: Vec<Event>,
}


/// One operation of the pallet moves a proposal's status at most one step
/// along its lifecycle `Active -> Approved / Rejected`, `Approved -> Executed`;
/// rejected and executed proposals keep their status.
pub open spec fn step_transition(from: ProposalStatus, to: ProposalStatus) -> bool {
    match from {
        ProposalStatus::Active => to == ProposalStatus::Active || to == ProposalStatus::Approved
            || to == ProposalStatus::Rejected,
        ProposalStatus::Approved => to == ProposalStatus::Approved || to == ProposalStatus::Executed,
        ProposalStatus::Rejected => to == ProposalStatus::Rejected,
        ProposalStatus::Executed => to == ProposalStatus::Executed,
    }
}

/// The status `to` can be reached from the status `from` by any number of
/// lifecycle steps: an active proposal may end in any status, an approved one
/// only approved or executed, and rejected and executed proposals never change.
pub open spec fn allowed_transition(from: ProposalStatus, to: ProposalStatus) -> bool {
    match from {
        ProposalStatus::Active => true,
        ProposalStatus::Approved => to == ProposalStatus::Approved || to == ProposalStatus::Executed,
        ProposalStatus::Rejected => to == ProposalStatus::Rejected,
        ProposalStatus::Executed => to == ProposalStatus::Executed,
    }
}

/// Events deposited by the pallet's own setter when `action` is dispatched.
pub open spec fn setter_events(action: GovernanceAction) -> Seq<Event> {
    match action {
        GovernanceAction::SetProposalVotingPeriod { blocks } => seq![
            Event::ProposalVotingPeriodSet { blocks },
        ],
        GovernanceAction::SetExecutionDelay { blocks } => seq![Event::ExecutionDelaySet { blocks }],
        GovernanceAction::SetStandardApprovalThreshold { numerator, denominator } => seq![
            Event::StandardThresholdSet { numerator, denominator },
        ],
        GovernanceAction::SetGovernanceApprovalThreshold { numerator, denominator } => seq![
            Event::GovernanceThresholdSet { numerator, denominator },
        ],
        GovernanceAction::SetConstitutionalApprovalThreshold { numerator, denominator } => seq![
            Event::ConstitutionalThresholdSet { numerator, denominator },
        ],
        _ => Seq::empty(),
    }
}

/// The error of dispatching `action` when it is one of this pallet's own
/// setters: a threshold that is not a valid fraction. Other actions are
/// handled by other pallets.
pub open spec fn own_action_error(action: GovernanceAction) -> Option<DispatchError> {
    match action {
        GovernanceAction::SetStandardApprovalThreshold { numerator, denominator }
        | GovernanceAction::SetGovernanceApprovalThreshold { numerator, denominator }
        | GovernanceAction::SetConstitutionalApprovalThreshold { numerator, denominator } => {
            if valid_threshold(numerator, denominator) {
                None
            } else {
                Some(DispatchError::Proposals(Error::InvalidThreshold))
            }
        },
        _ => None,
    }
}

impl Pallet {
    // -----------------------------------------------------------------------
    // Abstract state
    // -----------------------------------------------------------------------

    /// The governance origin account: the sovereign account of the governance pallet id.
    pub open spec fn governance_account(&self) -> AccountId {
        pallet_account(self.governance_pallet_id.0@) as AccountId
    }

    pub open spec fn voting_period(&self) -> BlockNumber {
        stored_or_zero(self.proposal_voting_period)
    }

    pub open spec fn delay(&self) -> BlockNumber {
        stored_or_zero(self.execution_delay)
    }

    /// The stored approval threshold `(numerator, denominator)` of `class`.
    pub open spec fn class_threshold(&self, class: ProposalClass) -> (u32, u32) {
        match class {
            ProposalClass::Standard => (
                stored_or_zero(self.standard_approval_numerator),
                stored_or_zero(self.standard_approval_denominator),
            ),
            ProposalClass::Governance => (
                stored_or_zero(self.governance_approval_numerator),
                stored_or_zero(self.governance_approval_denominator),
            ),
            ProposalClass::Constitutional => (
                stored_or_zero(self.constitutional_approval_numerator),
                stored_or_zero(self.constitutional_approval_denominator),
            ),
        }
    }

    pub open spec fn yes_votes(&self, id: ProposalId) -> u32 {
        counter(self.proposal_yes_count@, id)
    }

    pub open spec fn no_votes(&self, id: ProposalId) -> u32 {
        counter(self.proposal_no_count@, id)
    }

    /// A proposal of `class` with these votes passes its tally: the yes votes
    /// reach the class threshold of all votes cast, and outnumber the no
    /// votes (a tie is no majority).
    pub open spec fn passes(&self, class: ProposalClass, yes: u32, no: u32) -> bool {
        &&& reaches_threshold(yes, sat_add(yes, no), self.class_threshold(class).0, self.class_threshold(class).1)
        &&& yes > no
    }

    /// Internal invariant: every proposal id lies in `1..=proposal_count`, and
    /// a proposal carries an approval block exactly when it is approved or
    /// executed.
    pub open spec fn wf(&self) -> bool {
        &&& forall|id: ProposalId| #[trigger]
            self.proposals@.contains_key(id) ==> {
                &&& 1 <= id <= self.proposal_count
                &&& (self.proposals@[id].status == ProposalStatus::Approved
                    || self.proposals@[id].status == ProposalStatus::Executed)
                    <==> self.proposals@[id].approved_at is Some
            }
        &&& self.counts_match_votes()
    }

    /// Each proposal's yes and no counters equal the number of accounts
    /// recorded as voting that way on it (capped at `u32::MAX`): one vote
    /// per account, each of equal weight.
    pub open spec fn counts_match_votes(&self) -> bool {
        counts_match(self.proposal_yes_count@, self.proposal_no_count@, self.proposal_votes@)
    }

    /// One operation: no proposal disappears, and every proposal's status
    /// moves at most one step along its lifecycle.
    pub open spec fn lifecycle(before: &Self, after: &Self) -> bool {
        forall|id: ProposalId| #[trigger]
            before.proposals@.contains_key(id) ==> after.proposals@.contains_key(id)
                && step_transition(before.proposals@[id].status, after.proposals@[id].status)
    }

    /// Any sequence of operations: no proposal disappears, and every
    /// proposal's status is one its lifecycle can reach.
    pub open spec fn lifecycle_reaches(before: &Self, after: &Self) -> bool {
        forall|id: ProposalId| #[trigger]
            before.proposals@.contains_key(id) ==> after.proposals@.contains_key(id)
                && allowed_transition(before.proposals@[id].status, after.proposals@[id].status)
    }

    pub open spec fn same_votes(a: &Self, b: &Self) -> bool {
        &&& a.proposal_votes == b.proposal_votes
        &&& a.proposal_yes_count == b.proposal_yes_count
        &&& a.proposal_no_count == b.proposal_no_count
    }

    pub open spec fn same_params(a: &Self, b: &Self) -> bool {
        &&& a.proposal_voting_period == b.proposal_voting_period
        &&& a.execution_delay == b.execution_delay
        &&& a.standard_approval_numerator == b.standard_approval_numerator
        &&& a.standard_approval_denominator == b.standard_approval_denominator
        &&& a.governance_approval_numerator == b.governance_approval_numerator
        &&& a.governance_approval_denominator == b.governance_approval_denominator
        &&& a.constitutional_approval_numerator == b.constitutional_approval_numerator
        &&& a.constitutional_approval_denominator == b.constitutional_approval_denominator
        &&& a.storage_version == b.storage_version
        &&& a.governance_pallet_id == b.governance_pallet_id
    }

    /// The parameters of `after` are those of `before` with `action` applied
    /// when it is one of this pallet's own setters, and unchanged otherwise.
    pub open spec fn params_after(before: &Self, after: &Self, action: GovernanceAction) -> bool {
        &&& after.storage_version == before.storage_version
        &&& after.governance_pallet_id == before.governance_pallet_id
        &&& after.proposal_voting_period == (match action {
            GovernanceAction::SetProposalVotingPeriod { blocks } => Some(blocks),
            _ => before.proposal_voting_period,
        })
        &&& after.execution_delay == (match action {
            GovernanceAction::SetExecutionDelay { blocks } => Some(blocks),
            _ => before.execution_delay,
        })
        &&& (after.standard_approval_numerator, after.standard_approval_denominator) == (match action {
            GovernanceAction::SetStandardApprovalThreshold { numerator, denominator } => (
                Some(numerator),
                Some(denominator),
            ),
            _ => (before.standard_approval_numerator, before.standard_approval_denominator),
        })
        &&& (after.governance_approval_numerator, after.governance_approval_denominator) == (match action {
            GovernanceAction::SetGovernanceApprovalThreshold { numerator, denominator } => (
                Some(numerator),
                Some(denominator),
            ),
            _ => (before.governance_approval_numerator, before.governance_approval_denominator),
        })
        &&& (after.constitutional_approval_numerator, after.constitutional_approval_denominator)
            == (match action {
            GovernanceAction::SetConstitutionalApprovalThreshold { numerator, denominator } => (
                Some(numerator),
                Some(denominator),
            ),
            _ => (
                before.constitutional_approval_numerator,
                before.constitutional_approval_denominator,
            ),
        })
    }

    /// `after` is `before` once proposal `id` (record `p`) has been executed:
    /// its own setter, if the action is one, applied with its event, the
    /// proposal marked `Executed`, and the execution event deposited.
    pub open spec fn executed(before: &Self, after: &Self, id: ProposalId, p: ProposalRecord) -> bool {
        &&& after.proposal_count == before.proposal_count
        &&& after.proposals@ == before.proposals@.insert(
            id,
            ProposalRecord { status: ProposalStatus::Executed, ..p },
        )
        &&& Self::same_votes(before, after)
        &&& Self::params_after(before, after, p.action)
        &&& after.events@ == (before.events@ + setter_events(p.action)).push(
            Event::ProposalExecuted { proposal_id: id },
        )
    }

    // -----------------------------------------------------------------------
    // Refusals of the dispatchables, in the order in which they are checked
    // -----------------------------------------------------------------------

    pub open spec fn governance_error(&self, origin: Origin) -> Option<DispatchError> {
        match signer_of(origin) {
            None => Some(DispatchError::BadOrigin),
            Some(who) => if who != self.governance_account() {
                Some(DispatchError::Proposals(Error::NotGovernanceOrigin))
            } else {
                None
            },
        }
    }

    pub open spec fn threshold_setter_error(&self, origin: Origin, numerator: u32, denominator: u32) -> Option<
        DispatchError,
    > {
        match self.governance_error(origin) {
            Some(e) => Some(e),
            None => if !valid_threshold(numerator, denominator) {
                Some(DispatchError::Proposals(Error::InvalidThreshold))
            } else {
                None
            },
        }
    }

    /// Why proposal `id` is not in the `Active` state, if it is not.
    pub open spec fn active_error(&self, id: ProposalId) -> Option<DispatchError> {
        if !self.proposals@.contains_key(id) {
            Some(DispatchError::Proposals(Error::ProposalNotFound))
        } else if self.proposals@[id].status != ProposalStatus::Active {
            Some(DispatchError::Proposals(Error::ProposalNotActive))
        } else {
            None
        }
    }

    pub open spec fn tally_error(&self, origin: Origin, id: ProposalId, now: BlockNumber) -> Option<
        DispatchError,
    > {
        if signer_of(origin) is None {
            Some(DispatchError::BadOrigin)
        } else {
            match self.active_error(id) {
                Some(e) => Some(e),
                None => if now <= self.proposals@[id].vote_end {
                    Some(DispatchError::Proposals(Error::VotingStillOpen))
                } else {
                    None
                },
            }
        }
    }

    pub open spec fn execute_error(&self, origin: Origin, id: ProposalId, now: BlockNumber) -> Option<
        DispatchError,
    > {
        if signer_of(origin) is None {
            Some(DispatchError::BadOrigin)
        } else if !self.proposals@.contains_key(id) {
            Some(DispatchError::Proposals(Error::ProposalNotFound))
        } else if self.proposals@[id].status == ProposalStatus::Executed {
            Some(DispatchError::Proposals(Error::ProposalAlreadyExecuted))
        } else if self.proposals@[id].status != ProposalStatus::Approved {
            Some(DispatchError::Proposals(Error::ProposalNotApproved))
        } else {
            match self.proposals@[id].approved_at {
                None => Some(DispatchError::Proposals(Error::ProposalNotYetApproved)),
                Some(at) => if now < sat_add(at, self.delay()) {
                    Some(DispatchError::Proposals(Error::ExecutionTooEarly))
                } else {
                    None
                },
            }
        }
    }

    // -----------------------------------------------------------------------
    // Queries
    // -----------------------------------------------------------------------

    /// The governance origin account of this pallet.
    pub fn governance_account_id(&self) -> (a: AccountId)
        ensures
            a == self.governance_account(),
    {
        self.governance_pallet_id.into_account_truncating()
    }

    /// The most recent event, if any.
    pub fn last_event(&self) -> (e: Option<Event>)
        ensures
            e == (if self.events@.len() == 0 {
                None
            } else {
                Some(self.events@.last())
            }),
    {
        if self.events.len() == 0 {
            None
        } else {
            Some(self.events[self.events.len() - 1])
        }
    }

    /// The stored proposal voting period.
    pub fn get_proposal_voting_period(&self) -> (b: BlockNumber)
        ensures
            b == self.voting_period(),
    {
        read_stored(self.proposal_voting_period)
    }

    /// The stored execution delay.
    pub fn get_execution_delay(&self) -> (b: BlockNumber)
        ensures
            b == self.delay(),
    {
        read_stored(self.execution_delay)
    }

    /// The stored approval threshold `(numerator, denominator)` of `class`.
    pub fn approval_threshold(&self, class: ProposalClass) -> (t: (u32, u32))
        ensures
            t == self.class_threshold(class),
    {
        match class {
            ProposalClass::Standard => (
                read_stored(self.standard_approval_numerator),
                read_stored(self.standard_approval_denominator),
            ),
            ProposalClass::Governance => (
                read_stored(self.governance_approval_numerator),
                read_stored(self.governance_approval_denominator),
            ),
            ProposalClass::Constitutional => (
                read_stored(self.constitutional_approval_numerator),
                read_stored(self.constitutional_approval_denominator),
            ),
        }
    }

    /// Yes and no votes recorded for proposal `id`.
    pub fn vote_counts(&self, id: ProposalId) -> (c: (u32, u32))
        ensures
            c == (self.yes_votes(id), self.no_votes(id)),
    {
        (read_counter(&self.proposal_yes_count, &id), read_counter(&self.proposal_no_count, &id))
    }

    /// Accepts only a call signed by the governance account.
    fn ensure_governance_origin(&self, origin: Origin) -> (r: Result<(), DispatchError>)
        ensures
            match self.governance_error(origin) {
                Some(e) => r == Err::<(), DispatchError>(e),
                None => r is Ok,
            },
    {
        let caller = ensure_signed(origin)?;
        let expected = self.governance_pallet_id.into_account_truncating();
        if caller != expected {
            return Err(DispatchError::Proposals(Error::NotGovernanceOrigin));
        }
        Ok(())
    }
}

impl Pallet {

    /// Sets the proposal voting period; only the governance origin may call this.
    pub fn set_proposal_voting_period(&mut self, origin: Origin, blocks: BlockNumber) -> (r: Result<(), DispatchError>)
        ensures
            match old(self).governance_error(origin) {
                Some(e) => r == Err::<(), DispatchError>(e) && *final(self) == *old(self),
                None => {
                    let action = GovernanceAction::SetProposalVotingPeriod { blocks };
                    &&& r is Ok
                    &&& final(self).proposal_count == old(self).proposal_count
                    &&& final(self).proposals == old(self).proposals
                    &&& Self::same_votes(old(self), final(self))
                    &&& Self::params_after(old(self), final(self), action)
                    &&& final(self).events@ == old(self).events@ + setter_events(action)
                },
            },
            Self::lifecycle(old(self), final(self)),
            old(self).wf() ==> final(self).wf(),
    {
        self.ensure_governance_origin(origin)?;
        self.proposal_voting_period = Some(blocks);
        self.events.push(Event::ProposalVotingPeriodSet { blocks });
        proof {
            assert(self.events@ =~= old(self).events@ + setter_events(GovernanceAction::SetProposalVotingPeriod { blocks }));
        }
        Ok(())
    }

    /// Sets the execution delay; only the governance origin may call this.
    pub fn set_execution_delay(&mut self, origin: Origin, blocks: BlockNumber) -> (r: Result<(), DispatchError>)
        ensures
            match old(self).governance_error(origin) {
                Some(e) => r == Err::<(), DispatchError>(e) && *final(self) == *old(self),
                None => {
                    let action = GovernanceAction::SetExecutionDelay { blocks };
                    &&& r is Ok
                    &&& final(self).proposal_count == old(self).proposal_count
                    &&& final(self).proposals == old(self).proposals
                    &&& Self::same_votes(old(self), final(self))
                    &&& Self::params_after(old(self), final(self), action)
                    &&& final(self).events@ == old(self).events@ + setter_events(action)
                },
            },
            Self::lifecycle(old(self), final(self)),
            old(self).wf() ==> final(self).wf(),
    {
        self.ensure_governance_origin(origin)?;
        self.execution_delay = Some(blocks);
        self.events.push(Event::ExecutionDelaySet { blocks });
        proof {
            assert(self.events@ =~= old(self).events@ + setter_events(GovernanceAction::SetExecutionDelay { blocks }));
        }
        Ok(())
    }

    /// Sets the standard approval threshold; only the governance origin may call
    /// this, with a valid fraction.
    pub fn set_standard_approval_threshold(&mut self, origin: Origin, numerator: u32, denominator: u32) -> (r: Result<(), DispatchError>)
        ensures
            match old(self).threshold_setter_error(origin, numerator, denominator) {
                Some(e) => r == Err::<(), DispatchError>(e) && *final(self) == *old(self),
                None => {
                    let action = GovernanceAction::SetStandardApprovalThreshold { numerator, denominator };
                    &&& r is Ok
                    &&& final(self).proposal_count == old(self).proposal_count
                    &&& final(self).proposals == old(self).proposals
                    &&& Self::same_votes(old(self), final(self))
                    &&& Self::params_after(old(self), final(self), action)
                    &&& final(self).events@ == old(self).events@ + setter_events(action)
                },
            },
            Self::lifecycle(old(self), final(self)),
            old(self).wf() ==> final(self).wf(),
    {
        self.ensure_governance_origin(origin)?;
        ensure_valid_threshold(numerator, denominator)?;
        self.standard_approval_numerator = Some(numerator);
        self.standard_approval_denominator = Some(denominator);
        self.events.push(Event::StandardThresholdSet { numerator, denominator });
        proof {
            assert(self.events@ =~= old(self).events@ + setter_events(GovernanceAction::SetStandardApprovalThreshold { numerator, denominator }));
        }
        Ok(())
    }

    /// Sets the governance approval threshold; only the governance origin may call
    /// this, with a valid fraction.
    pub fn set_governance_approval_threshold(&mut self, origin: Origin, numerator: u32, denominator: u32) -> (r: Result<(), DispatchError>)
        ensures
            match old(self).threshold_setter_error(origin, numerator, denominator) {
                Some(e) => r == Err::<(), DispatchError>(e) && *final(self) == *old(self),
                None => {
                    let action = GovernanceAction::SetGovernanceApprovalThreshold { numerator, denominator };
                    &&& r is Ok
                    &&& final(self).proposal_count == old(self).proposal_count
                    &&& final(self).proposals == old(self).proposals
                    &&& Self::same_votes(old(self), final(self))
                    &&& Self::params_after(old(self), final(self), action)
                    &&& final(self).events@ == old(self).events@ + setter_events(action)
                },
            },
            Self::lifecycle(old(self), final(self)),
            old(self).wf() ==> final(self).wf(),
    {
        self.ensure_governance_origin(origin)?;
        ensure_valid_threshold(numerator, denominator)?;
        self.governance_approval_numerator = Some(numerator);
        self.governance_approval_denominator = Some(denominator);
        self.events.push(Event::GovernanceThresholdSet { numerator, denominator });
        proof {
            assert(self.events@ =~= old(self).events@ + setter_events(GovernanceAction::SetGovernanceApprovalThreshold { numerator, denominator }));
        }
        Ok(())
    }

    /// Sets the constitutional approval threshold; only the governance origin may call
    /// this, with a valid fraction.
    pub fn set_constitutional_approval_threshold(&mut self, origin: Origin, numerator: u32, denominator: u32) -> (r: Result<(), DispatchError>)
        ensures
            match old(self).threshold_setter_error(origin, numerator, denominator) {
                Some(e) => r == Err::<(), DispatchError>(e) && *final(self) == *old(self),
                None => {
                    let action = GovernanceAction::SetConstitutionalApprovalThreshold { numerator, denominator };
                    &&& r is Ok
                    &&& final(self).proposal_count == old(self).proposal_count
                    &&& final(self).proposals == old(self).proposals
                    &&& Self::same_votes(old(self), final(self))
                    &&& Self::params_after(old(self), final(self), action)
                    &&& final(self).events@ == old(self).events@ + setter_events(action)
                },
            },
            Self::lifecycle(old(self), final(self)),
            old(self).wf() ==> final(self).wf(),
    {
        self.ensure_governance_origin(origin)?;
        ensure_valid_threshold(numerator, denominator)?;
        self.constitutional_approval_numerator = Some(numerator);
        self.constitutional_approval_denominator = Some(denominator);
        self.events.push(Event::ConstitutionalThresholdSet { numerator, denominator });
        proof {
            assert(self.events@ =~= old(self).events@ + setter_events(GovernanceAction::SetConstitutionalApprovalThreshold { numerator, denominator }));
        }
        Ok(())
    }
}


impl Pallet {
    /// Submits a proposal of `class` carrying `action`.
    ///
    /// The caller must be an active member and `class` must be the class that
    /// `action` requires. The proposal gets the next id and stays open for
    /// voting for the stored voting period.
    pub fn submit_proposal<M: MembershipChecker>(
        &mut self,
        membership: &M,
        origin: Origin,
        title: ProposalTitle,
        description: ProposalDescription,
        class: ProposalClass,
        action: GovernanceAction,
        now: BlockNumber,
    ) -> (r: Result<(), DispatchError>)
        ensures
            signer_of(origin) is None ==> r == Err::<(), DispatchError>(DispatchError::BadOrigin)
                && *final(self) == *old(self),
            signer_of(origin) matches Some(who) ==> {
                if !membership.spec_is_active_member(who) {
                    r == Err::<(), DispatchError>(DispatchError::Proposals(Error::NotActiveMember))
                        && *final(self) == *old(self)
                } else if class != spec_required_class(action) {
                    r == Err::<(), DispatchError>(
                        DispatchError::Proposals(Error::ProposalClassMismatch),
                    ) && *final(self) == *old(self)
                } else {
                    let id = sat_add(old(self).proposal_count, 1);
                    &&& r is Ok
                    &&& final(self).proposal_count == id
                    &&& final(self).proposals@ == old(self).proposals@.insert(
                        id,
                        ProposalRecord {
                            title,
                            description,
                            class,
                            action,
                            approved_at: None,
                            status: ProposalStatus::Active,
                            submitted_at: now,
                            vote_end: sat_add(now, old(self).voting_period()),
                        },
                    )
                    &&& Self::same_votes(old(self), final(self))
                    &&& Self::same_params(old(self), final(self))
                    &&& final(self).events@ == old(self).events@.push(
                        Event::ProposalSubmitted { proposal_id: id, organizer: who },
                    )
                }
            },
            old(self).wf() && old(self).proposal_count < u32::MAX ==> Self::lifecycle(old(self), final(self)),
            old(self).wf() && old(self).proposal_count < u32::MAX ==> final(self).wf(),
    {
        let organizer = ensure_signed(origin)?;
        if !membership.is_active_member(&organizer) {
            return Err(DispatchError::Proposals(Error::NotActiveMember));
        }
        if class != required_class_for_action(&action) {
            return Err(DispatchError::Proposals(Error::ProposalClassMismatch));
        }
        let vote_end = now.saturating_add(read_stored(self.proposal_voting_period));
        let id = self.proposal_count.saturating_add(1);
        self.proposal_count = id;
        let record = ProposalRecord {
            title,
            description,
            class,
            action,
            approved_at: None,
            status: ProposalStatus::Active,
            submitted_at: now,
            vote_end,
        };
        self.proposals.insert(id, record);
        self.events.push(Event::ProposalSubmitted { proposal_id: id, organizer });
        Ok(())
    }

    /// Casts a yes or no vote on active proposal `id`.
    ///
    /// Only active members may vote, once per proposal, while the voting
    /// window is open (`now <= vote_end`).
    pub fn vote_on_proposal<M: MembershipChecker>(
        &mut self,
        membership: &M,
        origin: Origin,
        proposal_id: ProposalId,
        approve: bool,
        now: BlockNumber,
    ) -> (r: Result<(), DispatchError>)
        ensures
            signer_of(origin) is None ==> r == Err::<(), DispatchError>(DispatchError::BadOrigin)
                && *final(self) == *old(self),
            signer_of(origin) matches Some(who) ==> {
                if !membership.spec_is_active_member(who) {
                    r == Err::<(), DispatchError>(DispatchError::Proposals(Error::NotActiveMember))
                        && *final(self) == *old(self)
                } else if old(self).active_error(proposal_id) is Some {
                    r == Err::<(), DispatchError>(old(self).active_error(proposal_id)->0)
                        && *final(self) == *old(self)
                } else if now > old(self).proposals@[proposal_id].vote_end {
                    r == Err::<(), DispatchError>(DispatchError::Proposals(Error::VotingClosed))
                        && *final(self) == *old(self)
                } else if old(self).proposal_votes@.contains_key((proposal_id, who)) {
                    r == Err::<(), DispatchError>(DispatchError::Proposals(Error::AlreadyVoted))
                        && *final(self) == *old(self)
                } else {
                    &&& r is Ok
                    &&& final(self).proposal_votes@ == old(self).proposal_votes@.insert(
                        (proposal_id, who),
                        approve,
                    )
                    &&& approve ==> final(self).proposal_yes_count@
                        == old(self).proposal_yes_count@.insert(
                        proposal_id,
                        sat_add(old(self).yes_votes(proposal_id), 1),
                    ) && final(self).proposal_no_count == old(self).proposal_no_count
                    &&& !approve ==> final(self).proposal_no_count@
                        == old(self).proposal_no_count@.insert(
                        proposal_id,
                        sat_add(old(self).no_votes(proposal_id), 1),
                    ) && final(self).proposal_yes_count == old(self).proposal_yes_count
                    &&& final(self).proposal_count == old(self).proposal_count
                    &&& final(self).proposals == old(self).proposals
                    &&& Self::same_params(old(self), final(self))
                    &&& final(self).events@ == old(self).events@.push(
                        Event::VoteCast { proposal_id, voter: who, approve },
                    )
                }
            },
            Self::lifecycle(old(self), final(self)),
            old(self).wf() ==> final(self).wf(),
    {
        let voter = ensure_signed(origin)?;
        if !membership.is_active_member(&voter) {
            return Err(DispatchError::Proposals(Error::NotActiveMember));
        }
        let proposal = match self.proposals.get(&proposal_id) {
            None => {
                return Err(DispatchError::Proposals(Error::ProposalNotFound));
            },
            Some(p) => *p,
        };
        if proposal.status != ProposalStatus::Active {
            return Err(DispatchError::Proposals(Error::ProposalNotActive));
        }
        if now > proposal.vote_end {
            return Err(DispatchError::Proposals(Error::VotingClosed));
        }
        if self.proposal_votes.contains_key(&(proposal_id, voter)) {
            return Err(DispatchError::Proposals(Error::AlreadyVoted));
        }
        self.proposal_votes.insert((proposal_id, voter), approve);
        if approve {
            let yes = read_counter(&self.proposal_yes_count, &proposal_id).saturating_add(1);
            self.proposal_yes_count.insert(proposal_id, yes);
        } else {
            let no = read_counter(&self.proposal_no_count, &proposal_id).saturating_add(1);
            self.proposal_no_count.insert(proposal_id, no);
        }
        self.events.push(Event::VoteCast { proposal_id, voter, approve });
        proof {
            if old(self).wf() {
                assert forall|k: ProposalId|
                    #![trigger counter(self.proposal_yes_count@, k)]
                    #![trigger counter(self.proposal_no_count@, k)]
                    counter(self.proposal_yes_count@, k) == capped(voters(self.proposal_votes@, k, true).len())
                        && counter(self.proposal_no_count@, k) == capped(
                        voters(self.proposal_votes@, k, false).len(),
                    ) by {
                    lemma_record_vote(old(self).proposal_votes@, proposal_id, voter, approve, k, true);
                    lemma_record_vote(old(self).proposal_votes@, proposal_id, voter, approve, k, false);
                    assert(counter(old(self).proposal_yes_count@, k) == capped(
                        voters(old(self).proposal_votes@, k, true).len(),
                    ));
                    assert(counter(old(self).proposal_no_count@, k) == capped(
                        voters(old(self).proposal_votes@, k, false).len(),
                    ));
                }
            }
        }
        Ok(())
    }

    /// Tallies proposal `id` after its voting window has closed.
    ///
    /// Any signed account may call this. The proposal is approved at block
    /// `now` when `yes * den >= (yes + no) * num` for the threshold
    /// `num / den` of its class, and rejected otherwise.
    pub fn tally_proposal(&mut self, origin: Origin, proposal_id: ProposalId, now: BlockNumber) -> (r: Result<
        (),
        DispatchError,
    >)
        ensures
            match old(self).tally_error(origin, proposal_id, now) {
                Some(e) => r == Err::<(), DispatchError>(e) && *final(self) == *old(self),
                None => {
                    let p = old(self).proposals@[proposal_id];
                    &&& r is Ok
                    &&& if old(self).passes(p.class, old(self).yes_votes(proposal_id), old(self).no_votes(proposal_id)) {
                        &&& final(self).proposals@ == old(self).proposals@.insert(
                            proposal_id,
                            ProposalRecord {
                                status: ProposalStatus::Approved,
                                approved_at: Some(now),
                                ..p
                            },
                        )
                        &&& final(self).events@ == old(self).events@.push(
                            Event::ProposalApproved { proposal_id },
                        )
                    } else {
                        &&& final(self).proposals@ == old(self).proposals@.insert(
                            proposal_id,
                            ProposalRecord { status: ProposalStatus::Rejected, ..p },
                        )
                        &&& final(self).events@ == old(self).events@.push(
                            Event::ProposalRejected { proposal_id },
                        )
                    }
                    &&& final(self).proposal_count == old(self).proposal_count
                    &&& Self::same_votes(old(self), final(self))
                    &&& Self::same_params(old(self), final(self))
                },
            },
            Self::lifecycle(old(self), final(self)),
            old(self).wf() ==> final(self).wf(),
    {
        ensure_signed(origin)?;
        let proposal = match self.proposals.get(&proposal_id) {
            None => {
                return Err(DispatchError::Proposals(Error::ProposalNotFound));
            },
            Some(p) => *p,
        };
        if proposal.status != ProposalStatus::Active {
            return Err(DispatchError::Proposals(Error::ProposalNotActive));
        }
        if now <= proposal.vote_end {
            return Err(DispatchError::Proposals(Error::VotingStillOpen));
        }
        let yes = read_counter(&self.proposal_yes_count, &proposal_id);
        let no = read_counter(&self.proposal_no_count, &proposal_id);
        let total = yes.saturating_add(no);
        let (num, den) = self.approval_threshold(proposal.class);
        let mut tallied = proposal;
        if meets_threshold(yes, total, num, den) && yes > no {
            tallied.status = ProposalStatus::Approved;
            tallied.approved_at = Some(now);
            self.proposals.insert(proposal_id, tallied);
            self.events.push(Event::ProposalApproved { proposal_id });
        } else {
            tallied.status = ProposalStatus::Rejected;
            self.proposals.insert(proposal_id, tallied);
            self.events.push(Event::ProposalRejected { proposal_id });
        }
        Ok(())
    }
}


/// The other pallets reached by dispatching `action` are left as they were
/// unless `action` is addressed to them, and then behave as their own
/// contracts state; this pallet's own setters succeed unless a threshold is
/// not a valid fraction. `r` is the dispatch result.
pub open spec fn dispatch_effect<T: TreasuryHandler, G: MembershipGovernance>(
    action: GovernanceAction,
    governance_origin: Origin,
    treasury_before: T,
    treasury_after: T,
    membership_before: G,
    membership_after: G,
    r: Result<(), DispatchError>,
) -> bool {
    match action {
        GovernanceAction::DisburseToAccount { recipient, amount } => {
            &&& T::disburse_effect(treasury_before, treasury_after, recipient, amount, r)
            &&& membership_after == membership_before
        },
        GovernanceAction::SetMembershipVotingPeriod { blocks } => {
            &&& G::voting_period_set(membership_before, membership_after, governance_origin, blocks, r)
            &&& treasury_after == treasury_before
        },
        GovernanceAction::SetMembershipApprovalThreshold { numerator, denominator } => {
            &&& G::approval_threshold_set(
                membership_before,
                membership_after,
                governance_origin,
                numerator,
                denominator,
                r,
            )
            &&& treasury_after == treasury_before
        },
        GovernanceAction::SetSuspensionThreshold { numerator, denominator } => {
            &&& G::suspension_threshold_set(
                membership_before,
                membership_after,
                governance_origin,
                numerator,
                denominator,
                r,
            )
            &&& treasury_after == treasury_before
        },
        _ => {
            &&& match own_action_error(action) {
                Some(e) => r == Err::<(), DispatchError>(e),
                None => r is Ok,
            }
            &&& treasury_after == treasury_before
            &&& membership_after == membership_before
        },
    }
}

/// `action` is addressed to this pallet's own setters.
pub open spec fn is_own_action(action: GovernanceAction) -> bool {
    match action {
        GovernanceAction::SetProposalVotingPeriod { .. }
        | GovernanceAction::SetExecutionDelay { .. }
        | GovernanceAction::SetStandardApprovalThreshold { .. }
        | GovernanceAction::SetGovernanceApprovalThreshold { .. }
        | GovernanceAction::SetConstitutionalApprovalThreshold { .. } => true,
        _ => false,
    }
}

impl Pallet {
    /// Dispatches `action` with the governance origin.
    fn dispatch_governance_action<T: TreasuryHandler, G: MembershipGovernance>(
        &mut self,
        governance_origin: Origin,
        action: &GovernanceAction,
        treasury: &mut T,
        membership: &mut G,
    ) -> (r: Result<(), DispatchError>)
        requires
            governance_origin == Origin::Signed(old(self).governance_account()),
        ensures
            dispatch_effect(
                *action,
                governance_origin,
                *old(treasury),
                *final(treasury),
                *old(membership),
                *final(membership),
                r,
            ),
            r is Err ==> *final(self) == *old(self) && *final(treasury) == *old(treasury)
                && *final(membership) == *old(membership),
            r is Ok ==> {
                &&& final(self).proposal_count == old(self).proposal_count
                &&& final(self).proposals == old(self).proposals
                &&& Self::same_votes(old(self), final(self))
                &&& Self::params_after(old(self), final(self), *action)
                &&& final(self).events@ == old(self).events@ + setter_events(*action)
            },
            Self::lifecycle(old(self), final(self)),
            old(self).wf() ==> final(self).wf(),
    {
        let r = match *action {
            GovernanceAction::DisburseToAccount { recipient, amount } => treasury.disburse(
                &recipient,
                amount,
            ),
            GovernanceAction::SetProposalVotingPeriod { blocks } => self.set_proposal_voting_period(
                governance_origin,
                blocks,
            ),
            GovernanceAction::SetExecutionDelay { blocks } => self.set_execution_delay(
                governance_origin,
                blocks,
            ),
            GovernanceAction::SetStandardApprovalThreshold { numerator, denominator } => self.set_standard_approval_threshold(
                governance_origin,
                numerator,
                denominator,
            ),
            GovernanceAction::SetGovernanceApprovalThreshold { numerator, denominator } => self.set_governance_approval_threshold(
                governance_origin,
                numerator,
                denominator,
            ),
            GovernanceAction::SetConstitutionalApprovalThreshold { numerator, denominator } => self.set_constitutional_approval_threshold(
                governance_origin,
                numerator,
                denominator,
            ),
            GovernanceAction::SetMembershipVotingPeriod { blocks } => membership.set_voting_period(
                governance_origin,
                blocks,
            ),
            GovernanceAction::SetMembershipApprovalThreshold { numerator, denominator } => membership.set_approval_threshold(
                governance_origin,
                numerator,
                denominator,
            ),
            GovernanceAction::SetSuspensionThreshold { numerator, denominator } => membership.set_suspension_threshold(
                governance_origin,
                numerator,
                denominator,
            ),
        };
        proof {
            if !is_own_action(*action) {
                assert(setter_events(*action) =~= Seq::<Event>::empty());
                assert(self.events@ =~= old(self).events@ + setter_events(*action));
            }
        }
        r
    }

    /// Executes approved proposal `id` by dispatching its action with the
    /// governance origin.
    ///
    /// Any signed account may call this. The proposal must be `Approved` and
    /// the execution delay must have passed since its approval (`now >=
    /// approved_at + delay`). After a successful dispatch the proposal is
    /// `Executed`, so a second call fails with `ProposalAlreadyExecuted`. A
    /// failed dispatch is returned and changes nothing, in this pallet or in
    /// the treasury and membership pallets.
    pub fn execute_proposal<T: TreasuryHandler, G: MembershipGovernance>(
        &mut self,
        treasury: &mut T,
        membership: &mut G,
        origin: Origin,
        proposal_id: ProposalId,
        now: BlockNumber,
    ) -> (r: Result<(), DispatchError>)
        ensures
            match old(self).execute_error(origin, proposal_id, now) {
                Some(e) => {
                    &&& r == Err::<(), DispatchError>(e)
                    &&& *final(self) == *old(self)
                    &&& *final(treasury) == *old(treasury)
                    &&& *final(membership) == *old(membership)
                },
                None => {
                    let p = old(self).proposals@[proposal_id];
                    &&& dispatch_effect(
                        p.action,
                        Origin::Signed(old(self).governance_account()),
                        *old(treasury),
                        *final(treasury),
                        *old(membership),
                        *final(membership),
                        r,
                    )
                    &&& r is Err ==> *final(self) == *old(self) && *final(treasury)
                        == *old(treasury) && *final(membership) == *old(membership)
                    &&& r is Ok ==> Self::executed(old(self), final(self), proposal_id, p)
                },
            },
            Self::lifecycle(old(self), final(self)),
            old(self).wf() ==> final(self).wf(),
    {
        ensure_signed(origin)?;
        let proposal = match self.proposals.get(&proposal_id) {
            None => {
                return Err(DispatchError::Proposals(Error::ProposalNotFound));
            },
            Some(p) => *p,
        };
        if proposal.status == ProposalStatus::Executed {
            return Err(DispatchError::Proposals(Error::ProposalAlreadyExecuted));
        }
        if proposal.status != ProposalStatus::Approved {
            return Err(DispatchError::Proposals(Error::ProposalNotApproved));
        }
        let approved_at = match proposal.approved_at {
            None => {
                return Err(DispatchError::Proposals(Error::ProposalNotYetApproved));
            },
            Some(at) => at,
        };
        let delay = read_stored(self.execution_delay);
        if now < approved_at.saturating_add(delay) {
            return Err(DispatchError::Proposals(Error::ExecutionTooEarly));
        }
        let governance_origin = Origin::Signed(self.governance_pallet_id.into_account_truncating());
        self.dispatch_governance_action(governance_origin, &proposal.action, treasury, membership)?;
        let mut executed = proposal;
        executed.status = ProposalStatus::Executed;
        self.proposals.insert(proposal_id, executed);
        self.events.push(Event::ProposalExecuted { proposal_id });
        Ok(())
    }
}


impl GenesisConfig {
    /// The default governance parameters of a chain profile: the default
    /// voting period, no execution delay, and thresholds 1/2 (standard),
    /// 4/5 (governance) and 9/10 (constitutional).
    pub fn default_for(profile: ChainProfile) -> (g: Self)
        ensures
            g.proposal_voting_period == spec_default_voting_period(profile),
            g.execution_delay == 0,
            g.standard_approval_numerator == 1 && g.standard_approval_denominator == 2,
            g.governance_approval_numerator == 4 && g.governance_approval_denominator == 5,
            g.constitutional_approval_numerator == 9 && g.constitutional_approval_denominator == 10,
    {
        GenesisConfig {
            proposal_voting_period: default_proposal_voting_period(profile),
            execution_delay: 0,
            standard_approval_numerator: 1,
            standard_approval_denominator: 2,
            governance_approval_numerator: 4,
            governance_approval_denominator: 5,
            constitutional_approval_numerator: 9,
            constitutional_approval_denominator: 10,
        }
    }

    /// Builds the genesis state of the pallet from these parameters: no
    /// proposals, no votes, no events.
    pub fn build(&self, governance_pallet_id: PalletId) -> (p: Pallet)
        ensures
            p.proposal_count == 0,
            p.proposals@ == Map::<ProposalId, ProposalRecord>::empty(),
            p.proposal_votes@ == Map::<(ProposalId, AccountId), bool>::empty(),
            p.proposal_yes_count@ == Map::<ProposalId, u32>::empty(),
            p.proposal_no_count@ == Map::<ProposalId, u32>::empty(),
            p.proposal_voting_period == Some(self.proposal_voting_period),
            p.execution_delay == Some(self.execution_delay),
            p.standard_approval_numerator == Some(self.standard_approval_numerator),
            p.standard_approval_denominator == Some(self.standard_approval_denominator),
            p.governance_approval_numerator == Some(self.governance_approval_numerator),
            p.governance_approval_denominator == Some(self.governance_approval_denominator),
            p.constitutional_approval_numerator == Some(self.constitutional_approval_numerator),
            p.constitutional_approval_denominator == Some(self.constitutional_approval_denominator),
            p.storage_version == STORAGE_VERSION,
            p.governance_pallet_id == governance_pallet_id,
            p.events@ == Seq::<Event>::empty(),
            p.wf(),
    {
        let p = Pallet {
            proposal_count: 0,
            proposals: BTreeMap::new(),
            proposal_votes: BTreeMap::new(),
            proposal_yes_count: BTreeMap::new(),
            proposal_no_count: BTreeMap::new(),
            proposal_voting_period: Some(self.proposal_voting_period),
            execution_delay: Some(self.execution_delay),
            standard_approval_numerator: Some(self.standard_approval_numerator),
            standard_approval_denominator: Some(self.standard_approval_denominator),
            governance_approval_numerator: Some(self.governance_approval_numerator),
            governance_approval_denominator: Some(self.governance_approval_denominator),
            constitutional_approval_numerator: Some(self.constitutional_approval_numerator),
            constitutional_approval_denominator: Some(self.constitutional_approval_denominator),
            storage_version: STORAGE_VERSION,
            governance_pallet_id,
            events: Vec::new(),
        };
        proof {
            assert forall|id: ProposalId|
                #![trigger counter(p.proposal_yes_count@, id)]
                #![trigger counter(p.proposal_no_count@, id)]
                counter(p.proposal_yes_count@, id) == capped(voters(p.proposal_votes@, id, true).len())
                    && counter(p.proposal_no_count@, id) == capped(
                    voters(p.proposal_votes@, id, false).len(),
                ) by {
                assert(voters(p.proposal_votes@, id, true) =~= Set::<AccountId>::empty());
                assert(voters(p.proposal_votes@, id, false) =~= Set::<AccountId>::empty());
            }
        }
        p
    }
}

/// Migration of one stored parameter: a missing value is filled with its default.
pub open spec fn backfilled(before: Option<u32>, after: Option<u32>, default: u32) -> bool {
    after == (match before {
        Some(v) => Some(v),
        None => Some(default),
    })
}

/// One write for a parameter that was missing.
pub open spec fn write_if_missing(v: Option<u32>) -> int {
    if v is None {
        1
    } else {
        0
    }
}

fn backfill(slot: &mut Option<u32>, default: u32, writes: &mut u64) -> (wrote: bool)
    requires
        *old(writes) < 100,
    ensures
        backfilled(*old(slot), *final(slot), default),
        wrote == (*old(slot) is None),
        *final(writes) == *old(writes) + write_if_missing(*old(slot)),
{
    match slot {
        Some(_) => false,
        None => {
            *slot = Some(default);
            *writes = *writes + 1;
            true
        },
    }
}

impl Pallet {
    /// Runtime-upgrade migration: on a chain whose storage version is older
    /// than `STORAGE_VERSION`, writes the default of every missing governance
    /// parameter (voting period, zero execution delay, thresholds 1/2, 4/5 and
    /// 9/10) and records the new storage version. Reports the storage reads
    /// and writes made; a chain already at the current version is left as it
    /// was and reports none.
    pub fn on_runtime_upgrade(&mut self, profile: ChainProfile) -> (access: DbAccess)
        ensures
            old(self).storage_version >= STORAGE_VERSION ==> *final(self) == *old(self) && access
                == (DbAccess { reads: 0, writes: 0 }),
            old(self).storage_version < STORAGE_VERSION ==> {
                &&& backfilled(
                    old(self).proposal_voting_period,
                    final(self).proposal_voting_period,
                    spec_default_voting_period(profile),
                )
                &&& backfilled(old(self).execution_delay, final(self).execution_delay, 0)
                &&& backfilled(old(self).standard_approval_numerator, final(self).standard_approval_numerator, 1)
                &&& backfilled(old(self).standard_approval_denominator, final(self).standard_approval_denominator, 2)
                &&& backfilled(old(self).governance_approval_numerator, final(self).governance_approval_numerator, 4)
                &&& backfilled(old(self).governance_approval_denominator, final(self).governance_approval_denominator, 5)
                &&& backfilled(
                    old(self).constitutional_approval_numerator,
                    final(self).constitutional_approval_numerator,
                    9,
                )
                &&& backfilled(
                    old(self).constitutional_approval_denominator,
                    final(self).constitutional_approval_denominator,
                    10,
                )
                &&& final(self).storage_version == STORAGE_VERSION
                &&& final(self).governance_pallet_id == old(self).governance_pallet_id
                &&& final(self).proposal_count == old(self).proposal_count
                &&& final(self).proposals == old(self).proposals
                &&& Self::same_votes(old(self), final(self))
                &&& final(self).events == old(self).events
                &&& access.reads == 9
                &&& access.writes == 1 + write_if_missing(old(self).proposal_voting_period)
                    + write_if_missing(old(self).execution_delay)
                    + write_if_missing(old(self).standard_approval_numerator)
                    + write_if_missing(old(self).standard_approval_denominator)
                    + write_if_missing(old(self).governance_approval_numerator)
                    + write_if_missing(old(self).governance_approval_denominator)
                    + write_if_missing(old(self).constitutional_approval_numerator)
                    + write_if_missing(old(self).constitutional_approval_denominator)
            },
            Self::lifecycle(old(self), final(self)),
            old(self).wf() ==> final(self).wf(),
    {
        if self.storage_version >= STORAGE_VERSION {
            return DbAccess { reads: 0, writes: 0 };
        }
        let mut reads: u64 = 1;
        let mut writes: u64 = 0;
        reads = reads + 1;
        backfill(&mut self.proposal_voting_period, default_proposal_voting_period(profile), &mut writes);
        reads = reads + 1;
        backfill(&mut self.execution_delay, 0, &mut writes);
        reads = reads + 1;
        backfill(&mut self.standard_approval_numerator, 1, &mut writes);
        reads = reads + 1;
        backfill(&mut self.standard_approval_denominator, 2, &mut writes);
        reads = reads + 1;
        backfill(&mut self.governance_approval_numerator, 4, &mut writes);
        reads = reads + 1;
        backfill(&mut self.governance_approval_denominator, 5, &mut writes);
        reads = reads + 1;
        backfill(&mut self.constitutional_approval_numerator, 9, &mut writes);
        reads = reads + 1;
        backfill(&mut self.constitutional_approval_denominator, 10, &mut writes);
        self.storage_version = STORAGE_VERSION;
        writes = writes + 1;
        DbAccess { reads, writes }
    }
}

// ---------------------------------------------------------------------------
// Laws
// ---------------------------------------------------------------------------

/// A proposal executes at most once: once an execution has succeeded, every
/// further execution of the same proposal, by any signed caller at any block,
/// fails with `ProposalAlreadyExecuted`.
pub proof fn lemma_execute_at_most_once(
    before: Pallet,
    after: Pallet,
    id: ProposalId,
    p: ProposalRecord,
    caller: AccountId,
    later: BlockNumber,
)
    requires
        Pallet::executed(&before, &after, id, p),
    ensures
        after.execute_error(Origin::Signed(caller), id, later) == Some(
            DispatchError::Proposals(Error::ProposalAlreadyExecuted),
        ),
{
}

/// A single operation's lifecycle step is one the lifecycle can reach.
pub proof fn lemma_step_reaches(a: Pallet, b: Pallet)
    requires
        Pallet::lifecycle(&a, &b),
    ensures
        Pallet::lifecycle_reaches(&a, &b),
{
    assert forall|id: ProposalId| #[trigger] a.proposals@.contains_key(id) implies b.proposals@.contains_key(id)
        && allowed_transition(a.proposals@[id].status, b.proposals@[id].status) by {
        assert(step_transition(a.proposals@[id].status, b.proposals@[id].status));
    }
}

/// Reachability composes: under any sequence of the pallet's operations, each
/// of which follows the lifecycle, an approved proposal is never rejected or
/// reactivated, and rejected and executed proposals keep their status.
pub proof fn lemma_lifecycle_composes(a: Pallet, b: Pallet, c: Pallet)
    requires
        Pallet::lifecycle_reaches(&a, &b),
        Pallet::lifecycle_reaches(&b, &c),
    ensures
        Pallet::lifecycle_reaches(&a, &c),
{
    assert forall|id: ProposalId| #[trigger] a.proposals@.contains_key(id) implies c.proposals@.contains_key(id)
        && allowed_transition(a.proposals@[id].status, c.proposals@[id].status) by {
        assert(b.proposals@.contains_key(id));
    }
}

/// A tie never passes a tally, whatever the class and threshold: approval
/// needs more yes than no votes. In particular a proposal without votes is
/// rejected.
pub proof fn lemma_tie_never_passes(p: Pallet, class: ProposalClass, votes: u32)
    ensures
        !p.passes(class, votes, votes),
{
}

/// Under the default standard threshold 1/2, and while the vote total fits
/// in a `u32`, a standard proposal passes exactly when it has a simple
/// majority: more yes than no votes.
pub proof fn lemma_standard_half_is_simple_majority(p: Pallet, yes: u32, no: u32)
    requires
        p.class_threshold(ProposalClass::Standard) == (1u32, 2u32),
        yes + no <= u32::MAX,
    ensures
        p.passes(ProposalClass::Standard, yes, no) <==> yes > no,
{
    assert(sat_add(yes, no) == yes + no);
}

/// The class each action requires, as a table: a disbursement is Standard;
/// the proposal voting period, the execution delay and the membership voting
/// period are Governance; every threshold is Constitutional.
pub proof fn lemma_required_class_table(action: GovernanceAction)
    ensures
        action is DisburseToAccount ==> spec_required_class(action) == ProposalClass::Standard,
        action is SetProposalVotingPeriod ==> spec_required_class(action) == ProposalClass::Governance,
        action is SetExecutionDelay ==> spec_required_class(action) == ProposalClass::Governance,
        action is SetMembershipVotingPeriod ==> spec_required_class(action)
            == ProposalClass::Governance,
        action is SetStandardApprovalThreshold ==> spec_required_class(action)
            == ProposalClass::Constitutional,
        action is SetGovernanceApprovalThreshold ==> spec_required_class(action)
            == ProposalClass::Constitutional,
        action is SetConstitutionalApprovalThreshold ==> spec_required_class(action)
            == ProposalClass::Constitutional,
        action is SetMembershipApprovalThreshold ==> spec_required_class(action)
            == ProposalClass::Constitutional,
        action is SetSuspensionThreshold ==> spec_required_class(action)
            == ProposalClass::Constitutional,
{
}

/// Each class is judged by the threshold stored for that class itself: with
/// its stored fraction `n / d`, and while the products of the vote total fit
/// in a `u32`, a proposal of the class passes exactly when `yes * d >=
/// (yes + no) * n` and the yes votes outnumber the no votes.
pub proof fn lemma_tally_uses_own_class_threshold(p: Pallet, yes: u32, no: u32, n: u32, d: u32)
    requires
        (yes + no) * d <= u32::MAX,
        (yes + no) * n <= u32::MAX,
    ensures
        p.standard_approval_numerator == Some(n) && p.standard_approval_denominator == Some(d) ==> (
        p.passes(ProposalClass::Standard, yes, no) <==> yes * d >= (yes + no) * n && yes > no),
        p.governance_approval_numerator == Some(n) && p.governance_approval_denominator == Some(d)
            ==> (p.passes(ProposalClass::Governance, yes, no) <==> yes * d >= (yes + no) * n && yes
            > no),
        p.constitutional_approval_numerator == Some(n) && p.constitutional_approval_denominator
            == Some(d) ==> (p.passes(ProposalClass::Constitutional, yes, no) <==> yes * d >= (yes
            + no) * n && yes > no),
{
    let total: int = yes + no;
    assert(yes * d <= total * d) by (nonlinear_arith)
        requires
            0 <= yes <= total,
            d >= 0,
    ;
    assert(yes * d >= 0 && total * n >= 0) by (nonlinear_arith)
        requires
            yes >= 0,
            total >= 0,
            d >= 0,
            n >= 0,
    ;
    if d >= 1 || n >= 1 {
        assert(total <= u32::MAX) by (nonlinear_arith)
            requires
                total * d <= u32::MAX,
                total * n <= u32::MAX,
                d >= 1 || n >= 1,
                total >= 0,
        ;
        assert(sat_add(yes, no) == total);
    } else {
        assert(sat_add(yes, no) * n == 0 && yes * d == 0 && total * n == 0) by (nonlinear_arith)
            requires
                d == 0,
                n == 0,
        ;
    }
}

/// With the constitutional threshold at its default 9/10 and ten times the
/// vote total within a `u32`, a constitutional proposal passes exactly when
/// `10 * yes >= 9 * (yes + no)` and the yes votes outnumber the no votes; so
/// two yes against one no does not pass.
pub proof fn lemma_constitutional_nine_tenths(p: Pallet, yes: u32, no: u32)
    requires
        p.constitutional_approval_numerator == Some(9u32),
        p.constitutional_approval_denominator == Some(10u32),
        10 * (yes + no) <= u32::MAX,
    ensures
        p.passes(ProposalClass::Constitutional, yes, no) <==> 10 * yes >= 9 * (yes + no) && yes > no,
{
    lemma_tally_uses_own_class_threshold(p, yes, no, 9, 10);
}

/// Executing a proposal applies its action to this pallet's own parameters
/// and to nothing else: a voting period or execution delay action sets that
/// parameter alone, a threshold action sets the threshold of its own class
/// alone, and an action addressed to another pallet leaves every parameter
/// as it was.
pub proof fn lemma_execution_applies_own_setter(before: Pallet, after: Pallet, id: ProposalId, p: ProposalRecord)
    requires
        Pallet::executed(&before, &after, id, p),
    ensures
        p.action matches GovernanceAction::SetProposalVotingPeriod { blocks } ==> {
            &&& after.proposal_voting_period == Some(blocks)
            &&& after.execution_delay == before.execution_delay
            &&& after.class_threshold(ProposalClass::Standard) == before.class_threshold(ProposalClass::Standard)
            &&& after.class_threshold(ProposalClass::Governance) == before.class_threshold(ProposalClass::Governance)
            &&& after.class_threshold(ProposalClass::Constitutional) == before.class_threshold(
                ProposalClass::Constitutional,
            )
        },
        p.action matches GovernanceAction::SetExecutionDelay { blocks } ==> {
            &&& after.execution_delay == Some(blocks)
            &&& after.proposal_voting_period == before.proposal_voting_period
            &&& after.class_threshold(ProposalClass::Standard) == before.class_threshold(ProposalClass::Standard)
            &&& after.class_threshold(ProposalClass::Governance) == before.class_threshold(ProposalClass::Governance)
            &&& after.class_threshold(ProposalClass::Constitutional) == before.class_threshold(
                ProposalClass::Constitutional,
            )
        },
        p.action matches GovernanceAction::SetStandardApprovalThreshold { numerator, denominator } ==> {
            &&& after.standard_approval_numerator == Some(numerator)
            &&& after.standard_approval_denominator == Some(denominator)
            &&& after.governance_approval_numerator == before.governance_approval_numerator
            &&& after.governance_approval_denominator == before.governance_approval_denominator
            &&& after.constitutional_approval_numerator == before.constitutional_approval_numerator
            &&& after.constitutional_approval_denominator == before.constitutional_approval_denominator
            &&& after.proposal_voting_period == before.proposal_voting_period
            &&& after.execution_delay == before.execution_delay
        },
        p.action matches GovernanceAction::SetGovernanceApprovalThreshold { numerator, denominator } ==> {
            &&& after.governance_approval_numerator == Some(numerator)
            &&& after.governance_approval_denominator == Some(denominator)
            &&& after.standard_approval_numerator == before.standard_approval_numerator
            &&& after.standard_approval_denominator == before.standard_approval_denominator
            &&& after.constitutional_approval_numerator == before.constitutional_approval_numerator
            &&& after.constitutional_approval_denominator == before.constitutional_approval_denominator
            &&& after.proposal_voting_period == before.proposal_voting_period
            &&& after.execution_delay == before.execution_delay
        },
        p.action matches GovernanceAction::SetConstitutionalApprovalThreshold {
            numerator,
            denominator,
        } ==> {
            &&& after.constitutional_approval_numerator == Some(numerator)
            &&& after.constitutional_approval_denominator == Some(denominator)
            &&& after.standard_approval_numerator == before.standard_approval_numerator
            &&& after.standard_approval_denominator == before.standard_approval_denominator
            &&& after.governance_approval_numerator == before.governance_approval_numerator
            &&& after.governance_approval_denominator == before.governance_approval_denominator
            &&& after.proposal_voting_period == before.proposal_voting_period
            &&& after.execution_delay == before.execution_delay
        },
        (p.action is DisburseToAccount || p.action is SetMembershipVotingPeriod
            || p.action is SetMembershipApprovalThreshold || p.action is SetSuspensionThreshold) ==> {
            &&& after.proposal_voting_period == before.proposal_voting_period
            &&& after.execution_delay == before.execution_delay
            &&& after.class_threshold(ProposalClass::Standard) == before.class_threshold(ProposalClass::Standard)
            &&& after.class_threshold(ProposalClass::Governance) == before.class_threshold(ProposalClass::Governance)
            &&& after.class_threshold(ProposalClass::Constitutional) == before.class_threshold(
                ProposalClass::Constitutional,
            )
        },
{
}

} // verus!
