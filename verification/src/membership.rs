//! The membership pallet: the authoritative registry of GAIA members.
//!
//! A member record holds a name of at most `MAX_NAME_LEN` bytes, a status
//! (active or suspended) and the block at which the member joined. New members
//! are admitted through membership proposals with explicit lifecycle states
//! `Active -> Approved / Rejected`. The approval threshold is stored on chain
//! and checked against the number of active members at submission time; a
//! proposal is approved as soon as a yes vote reaches the threshold, and is
//! otherwise resolved by an active member after its voting deadline.
//!
//! A member may suspend themselves, or be suspended when the approvals of the
//! other active members reach the suspension threshold (unanimity by default).
//! Any suspension clears every pending suspension vote.
//!
//! Invariants (`Pallet::wf`): at most one active proposal per candidate, whose
//! candidate is not yet a member; the active-member counter equals the number
//! of active members; every vote and approval counter equals the votes
//! recorded for its subject.
use vstd::prelude::*;

use std::collections::BTreeMap;

use crate::proposals::MembershipGovernance;

use crate::primitives::{
    approvals_match, capped, counter, counts_match, ensure_signed, lemma_no_votes_no_voters,
    lemma_record_vote, meets_threshold,
    pallet_account, reaches_threshold, read_counter, read_stored, sat_add, sat_sub, signer_of,
    stored_or_zero, valid_threshold, voters, AccountId, BlockNumber, BoundedBytes, DispatchError,
    Origin, PalletId,
};

verus! {

/// Maximum length of a member name in bytes.
pub const MAX_NAME_LEN: usize = 128;

/// Largest number of members that a genesis configuration may seed.
pub const MAX_INITIAL_MEMBERS: usize = 100;

/// The storage layout version of this pallet.
pub const STORAGE_VERSION: u16 = 1;

/// Membership voting period (in blocks) of a standard chain.
pub const STANDARD_VOTING_PERIOD: BlockNumber = 100_800;

/// Membership voting period (in blocks) of a chain built for fast local testing.
pub const FAST_LOCAL_VOTING_PERIOD: BlockNumber = 20;

/// On-chain identifier of a membership proposal.
pub type MembershipProposalId = u32;

/// A member name: at most `MAX_NAME_LEN` bytes.
pub type MemberName = BoundedBytes<128>;

/// Status of a member.
#[derive(Clone, Copy, Debug, PartialEq, Eq, Structural)]
pub enum MemberStatus {
    Active,
    Suspended,
}

/// Lifecycle state of a membership proposal.
#[derive(Clone, Copy, Debug, PartialEq, Eq, Structural)]
pub enum MembershipProposalStatus {
    Active,
    Approved,
    Rejected,
}

/// Reason why a member was suspended.
#[derive(Clone, Copy, Debug, PartialEq, Eq, Structural)]
pub enum SuspensionReason {
    SelfInitiated,
    PeerVote,
}

/// Build profile of the chain, which selects the default voting period.
#[derive(Clone, Copy, Debug, PartialEq, Eq, Structural)]
pub enum ChainProfile {
    /// Regular chain: seven days of six-second blocks.
    Standard,
    /// Local tester chain with short voting windows.
    FastLocal,
}

/// On-chain record of a registered member.
#[derive(Clone, Copy, Debug)]
pub struct MemberRecord {
    pub name: MemberName,
    pub status: MemberStatus,
    pub joined_at: BlockNumber,
}

/// On-chain record of a membership proposal.
#[derive(Clone, Copy, Debug)]
pub struct MembershipProposalRecord {
    pub candidate: AccountId,
    pub name: MemberName,
    pub proposed_by: AccountId,
    pub proposed_at: BlockNumber,
    /// Block number after which `finalize_proposal` is allowed.
    pub vote_end: BlockNumber,
    /// Number of active members at submission time.
    pub active_member_snapshot: u32,
    pub status: MembershipProposalStatus,
}

/// Events of the membership pallet.
#[derive(Clone, Copy, Debug, PartialEq, Eq, Structural)]
pub enum Event {
    /// A membership proposal was created.
    MemberProposalSubmitted {
        proposal_id: MembershipProposalId,
        candidate: AccountId,
        proposed_by: AccountId,
        vote_end: BlockNumber,
    },
    /// An active member voted on a membership proposal.
    MemberProposalVoteCast {
        proposal_id: MembershipProposalId,
        candidate: AccountId,
        voter: AccountId,
        approve: bool,
    },
    /// A membership proposal was approved and its candidate became an active member.
    MemberProposalApproved { proposal_id: MembershipProposalId, member: AccountId },
    /// A membership proposal was rejected after its voting window.
    MemberProposalRejected { proposal_id: MembershipProposalId, candidate: AccountId },
    /// A suspension vote was cast for a target member.
    SuspensionVoteCast { target: AccountId, voter: AccountId, approve: bool },
    /// A member has been suspended.
    MemberSuspended { member: AccountId, reason: SuspensionReason },
    /// The membership voting period was updated.
    MembershipVotingPeriodSet { blocks: BlockNumber },
    /// The membership approval threshold was updated.
    MembershipApprovalThresholdSet { numerator: u32, denominator: u32 },
    /// The suspension threshold was updated.
    SuspensionThresholdSet { numerator: u32, denominator: u32 },
}

/// Errors of the membership pallet.
#[derive(Clone, Copy, Debug, PartialEq, Eq, Structural)]
pub enum Error {
    /// The caller is not a registered active member.
    NotActiveMember,
    /// The candidate is already a registered member.
    AlreadyMember,
    /// An active proposal for this candidate already exists.
    CandidateAlreadyProposed,
    /// No proposal exists with the given id.
    ProposalNotFound,
    /// The supplied proposal is not active.
    ProposalNotActive,
    /// The voter has already cast a vote for this proposal.
    AlreadyVoted,
    /// The voting window has closed; votes are no longer accepted.
    VotingClosed,
    /// The voting window has not yet closed; finalize is not available.
    VotingStillOpen,
    /// The supplied name exceeds the maximum allowed length.
    NameTooLong,
    /// The caller is suspended and cannot perform this action.
    MemberSuspended,
    /// The target member is already suspended.
    AlreadySuspended,
    /// A member cannot cast a peer suspension vote against themselves.
    CannotSuspendSelf,
    /// Invalid threshold fraction.
    InvalidThreshold,
    /// A setter was called by an origin other than the governance account.
    NotGovernanceOrigin,
}

/// Reads and writes of storage made by a migration.
#[derive(Clone, Copy, Debug, PartialEq, Eq, Structural)]
pub struct DbAccess {
    pub reads: u64,
    pub writes: u64,
}

/// Genesis configuration: the members seeded at chain start, `(account, name)`.
#[derive(Debug)]
pub struct GenesisConfig {
    pub initial_members: Vec<(AccountId, MemberName)>,
}

/// State of the membership pallet.
#[derive(Debug)]
pub struct Pallet {
    /// `Members`: registered members by account.
    pub members: BTreeMap<AccountId, MemberRecord>,
    /// `ActiveMemberCount`: number of currently active members.
    pub active_member_count: u32,
    /// `MembershipProposalCount`: the last allocated proposal id.
    pub membership_proposal_count: u32,
    /// `MembershipProposals`: all membership proposals by id.
    pub membership_proposals: BTreeMap<MembershipProposalId, MembershipProposalRecord>,
    /// `ActiveProposalByCandidate`: the active proposal of each candidate.
    pub active_proposal_by_candidate: BTreeMap<AccountId, MembershipProposalId>,
    /// `MembershipProposalVotes`: `(proposal_id, voter) -> approve`.
    pub membership_proposal_votes: BTreeMap<(MembershipProposalId, AccountId), bool>,
    /// `MembershipProposalYesCount`: yes votes per proposal (absent means zero).
    pub membership_proposal_yes_count: BTreeMap<MembershipProposalId, u32>,
    /// `MembershipProposalNoCount`: no votes per proposal (absent means zero).
    pub membership_proposal_no_count: BTreeMap<MembershipProposalId, u32>,
    /// `SuspensionVotes`: `(target, voter) -> approve`.
    pub suspension_votes: BTreeMap<(AccountId, AccountId), bool>,
    /// `SuspensionApprovalCount`: approvals per suspension target (absent means zero).
    pub suspension_approval_count: BTreeMap<AccountId, u32>,
    /// `MembershipVotingPeriod` (absent until written; reads as zero).
    pub membership_voting_period: Option<BlockNumber>,
    /// `MembershipApprovalNumerator` (absent until written; reads as zero).
    pub membership_approval_numerator: Option<u32>,
    /// `MembershipApprovalDenominator` (absent until written; reads as zero).
    pub membership_approval_denominator: Option<u32>,
    /// `SuspensionNumerator` (absent until written; reads as zero).
    pub suspension_numerator: Option<u32>,
    /// `SuspensionDenominator` (absent until written; reads as zero).
    pub suspension_denominator: Option<u32>,
    /// The storage version found on chain.
    pub storage_version: u16,
    /// Configuration: the pallet id whose sovereign account is the governance origin.
    pub governance_pallet_id: PalletId,
    /// Events deposited by this pallet, oldest first.
    pub events: Vec<Event>,
}

// ---------------------------------------------------------------------------
// Specification helpers
// ---------------------------------------------------------------------------

/// The default membership voting period of a chain profile.
pub open spec fn spec_default_voting_period(profile: ChainProfile) -> BlockNumber {
    match profile {
        ChainProfile::Standard => STANDARD_VOTING_PERIOD,
        ChainProfile::FastLocal => FAST_LOCAL_VOTING_PERIOD,
    }
}

/// Members seeded by a genesis list: each entry in turn, later entries for the
/// same account replacing earlier ones.
pub open spec fn genesis_members(list: Seq<(AccountId, MemberName)>) -> Map<AccountId, MemberRecord>
    decreases list.len(),
{
    if list.len() == 0 {
        Map::empty()
    } else {
        genesis_members(list.drop_last()).insert(
            list.last().0,
            MemberRecord { name: list.last().1, status: MemberStatus::Active, joined_at: 0 },
        )
    }
}

/// The accounts whose record in `members` has active status.
pub open spec fn active_of(members: Map<AccountId, MemberRecord>) -> Set<AccountId> {
    members.dom().filter(|a: AccountId| members[a].status == MemberStatus::Active)
}

/// Writing record `rec` for `k` adds `k` to the active set or removes it from it.
pub proof fn lemma_active_of_insert(members: Map<AccountId, MemberRecord>, k: AccountId, rec: MemberRecord)
    ensures
        active_of(members.insert(k, rec)) == (if rec.status == MemberStatus::Active {
            active_of(members).insert(k)
        } else {
            active_of(members).remove(k)
        }),
{
    if rec.status == MemberStatus::Active {
        assert(active_of(members.insert(k, rec)) =~= active_of(members).insert(k));
    } else {
        assert(active_of(members.insert(k, rec)) =~= active_of(members).remove(k));
    }
}

/// The accounts of a genesis list are pairwise distinct.
pub open spec fn distinct_accounts(list: Seq<(AccountId, MemberName)>) -> bool {
    forall|i: int, j: int| 0 <= i < j < list.len() ==> #[trigger] list[i].0 != #[trigger] list[j].0
}

/// The default voting period of a chain profile.
pub fn default_membership_voting_period(profile: ChainProfile) -> (blocks: BlockNumber)
    ensures
        blocks == spec_default_voting_period(profile),
{
    match profile {
        ChainProfile::Standard => STANDARD_VOTING_PERIOD,
        ChainProfile::FastLocal => FAST_LOCAL_VOTING_PERIOD,
    }
}

/// Checks a threshold fraction: the denominator is not zero and the fraction is at most one.
pub fn ensure_valid_threshold(numerator: u32, denominator: u32) -> (r: Result<(), DispatchError>)
    ensures
        r == (if valid_threshold(numerator, denominator) {
            Ok::<(), DispatchError>(())
        } else {
            Err::<(), DispatchError>(DispatchError::Membership(Error::InvalidThreshold))
        }),
{
    if denominator == 0 {
        return Err(DispatchError::Membership(Error::InvalidThreshold));
    }
    if numerator > denominator {
        return Err(DispatchError::Membership(Error::InvalidThreshold));
    }
    Ok(())
}

impl Pallet {
    // -----------------------------------------------------------------------
    // Abstract state
    // -----------------------------------------------------------------------

    /// The governance origin account: the sovereign account of the governance pallet id.
    pub open spec fn governance_account(&self) -> AccountId {
        pallet_account(self.governance_pallet_id.0@) as AccountId
    }

    /// `who` is a registered member with active status.
    pub open spec fn is_active(&self, who: AccountId) -> bool {
        self.members@.contains_key(who) && self.members@[who].status == MemberStatus::Active
    }

    /// The set of active members.
    pub open spec fn active_members(&self) -> Set<AccountId> {
        active_of(self.members@)
    }

    pub open spec fn voting_period(&self) -> BlockNumber {
        stored_or_zero(self.membership_voting_period)
    }

    pub open spec fn approval_numerator(&self) -> u32 {
        stored_or_zero(self.membership_approval_numerator)
    }

    pub open spec fn approval_denominator(&self) -> u32 {
        stored_or_zero(self.membership_approval_denominator)
    }

    pub open spec fn spec_suspension_numerator(&self) -> u32 {
        stored_or_zero(self.suspension_numerator)
    }

    pub open spec fn spec_suspension_denominator(&self) -> u32 {
        stored_or_zero(self.suspension_denominator)
    }

    pub open spec fn yes_votes(&self, id: MembershipProposalId) -> u32 {
        counter(self.membership_proposal_yes_count@, id)
    }

    pub open spec fn no_votes(&self, id: MembershipProposalId) -> u32 {
        counter(self.membership_proposal_no_count@, id)
    }

    /// A proposal with `yes` votes and the given snapshot meets the stored approval threshold.
    pub open spec fn approves(&self, yes: u32, snapshot: u32) -> bool {
        reaches_threshold(yes, snapshot, self.approval_numerator(), self.approval_denominator())
    }

    /// Why `who` may not act as an active member, if it may not.
    pub open spec fn member_error(&self, who: AccountId) -> Option<Error> {
        if !self.members@.contains_key(who) {
            Some(Error::NotActiveMember)
        } else if self.members@[who].status != MemberStatus::Active {
            Some(Error::MemberSuspended)
        } else {
            None
        }
    }

    /// Why `origin` is refused as an active member, if it is.
    pub open spec fn origin_member_error(&self, origin: Origin) -> Option<DispatchError> {
        match signer_of(origin) {
            None => Some(DispatchError::BadOrigin),
            Some(who) => match self.member_error(who) {
                Some(e) => Some(DispatchError::Membership(e)),
                None => None,
            },
        }
    }

    /// Why `origin` is refused as the governance origin, if it is.
    pub open spec fn governance_error(&self, origin: Origin) -> Option<DispatchError> {
        match signer_of(origin) {
            None => Some(DispatchError::BadOrigin),
            Some(who) => if who != self.governance_account() {
                Some(DispatchError::Membership(Error::NotGovernanceOrigin))
            } else {
                None
            },
        }
    }

    /// The candidate index: each index entry points at an active proposal of
    /// that candidate; each active proposal is indexed under its candidate;
    /// and proposal ids lie in `1..=` the proposal counter.
    pub open spec fn candidate_index_ok(&self) -> bool {
        &&& forall|c: AccountId| #[trigger]
            self.active_proposal_by_candidate@.contains_key(c) ==> {
                let id = self.active_proposal_by_candidate@[c];
                &&& self.membership_proposals@.contains_key(id)
                &&& self.membership_proposals@[id].status == MembershipProposalStatus::Active
                &&& self.membership_proposals@[id].candidate == c
            }
        &&& forall|id: MembershipProposalId| #[trigger]
            self.membership_proposals@.contains_key(id) ==> {
                let p = self.membership_proposals@[id];
                &&& 1 <= id <= self.membership_proposal_count
                &&& p.status == MembershipProposalStatus::Active ==> {
                    &&& self.active_proposal_by_candidate@.contains_key(p.candidate)
                    &&& self.active_proposal_by_candidate@[p.candidate] == id
                }
            }
    }

    /// The candidate of every active proposal is not yet a member.
    pub open spec fn active_candidates_not_members(&self) -> bool {
        forall|id: MembershipProposalId| #[trigger]
            self.membership_proposals@.contains_key(id)
                && self.membership_proposals@[id].status == MembershipProposalStatus::Active
                ==> !self.members@.contains_key(self.membership_proposals@[id].candidate)
    }

    /// Internal invariant of the pallet's storage: the candidate index holds,
    /// no active candidate is a member yet, the active member counter equals
    /// the number of active members, and every vote and approval counter
    /// equals the votes recorded for it.
    pub open spec fn wf(&self) -> bool {
        &&& self.candidate_index_ok()
        &&& self.active_candidates_not_members()
        &&& self.active_member_count == self.active_members().len()
        &&& counts_match(
            self.membership_proposal_yes_count@,
            self.membership_proposal_no_count@,
            self.membership_proposal_votes@,
        )
        &&& approvals_match(self.suspension_approval_count@, self.suspension_votes@)
    }

    /// Members, the active member counter and membership proposals are the same in `a` and `b`.
    pub open spec fn same_members(a: &Self, b: &Self) -> bool {
        &&& a.members == b.members
        &&& a.active_member_count == b.active_member_count
    }

    pub open spec fn same_proposals(a: &Self, b: &Self) -> bool {
        &&& a.membership_proposal_count == b.membership_proposal_count
        &&& a.membership_proposals == b.membership_proposals
        &&& a.active_proposal_by_candidate == b.active_proposal_by_candidate
        &&& a.membership_proposal_votes == b.membership_proposal_votes
        &&& a.membership_proposal_yes_count == b.membership_proposal_yes_count
        &&& a.membership_proposal_no_count == b.membership_proposal_no_count
    }

    pub open spec fn same_suspension_votes(a: &Self, b: &Self) -> bool {
        &&& a.suspension_votes == b.suspension_votes
        &&& a.suspension_approval_count == b.suspension_approval_count
    }

    pub open spec fn same_params(a: &Self, b: &Self) -> bool {
        &&& a.membership_voting_period == b.membership_voting_period
        &&& a.membership_approval_numerator == b.membership_approval_numerator
        &&& a.membership_approval_denominator == b.membership_approval_denominator
        &&& a.suspension_numerator == b.suspension_numerator
        &&& a.suspension_denominator == b.suspension_denominator
        &&& a.storage_version == b.storage_version
        &&& a.governance_pallet_id == b.governance_pallet_id
    }

    /// `after` is `before` with membership proposal `id` (of record `p`) approved
    /// at block `now`: the candidate joins as an active member, the proposal
    /// becomes `Approved` and leaves the candidate index, and the approval
    /// event follows the events `events_before`.
    pub open spec fn approved(
        before: &Self,
        after: &Self,
        id: MembershipProposalId,
        p: MembershipProposalRecord,
        now: BlockNumber,
        events_before: Seq<Event>,
    ) -> bool {
        &&& after.members@ == before.members@.insert(
            p.candidate,
            MemberRecord { name: p.name, status: MemberStatus::Active, joined_at: now },
        )
        &&& after.active_member_count == sat_add(before.active_member_count, 1)
        &&& after.membership_proposals@ == before.membership_proposals@.insert(
            id,
            MembershipProposalRecord { status: MembershipProposalStatus::Approved, ..p },
        )
        &&& after.active_proposal_by_candidate@ == before.active_proposal_by_candidate@.remove(
            p.candidate,
        )
        &&& after.events@ == events_before.push(
            Event::MemberProposalApproved { proposal_id: id, member: p.candidate },
        )
    }

    /// `after` is `before` with `member` suspended: its record is marked
    /// suspended, the active member counter drops by one, every pending
    /// suspension vote and approval count is cleared, and the suspension event
    /// follows the events `events_before`.
    pub open spec fn suspended(
        before: &Self,
        after: &Self,
        member: AccountId,
        reason: SuspensionReason,
        events_before: Seq<Event>,
    ) -> bool {
        &&& after.members@ == before.members@.insert(
            member,
            MemberRecord { status: MemberStatus::Suspended, ..before.members@[member] },
        )
        &&& after.active_member_count == sat_sub(before.active_member_count, 1)
        &&& after.suspension_votes@ == Map::<(AccountId, AccountId), bool>::empty()
        &&& after.suspension_approval_count@ == Map::<AccountId, u32>::empty()
        &&& after.events@ == events_before.push(Event::MemberSuspended { member, reason })
    }

    /// `after` and `r` are the state and result of setting the membership
    /// voting period to `blocks` from `origin` on `before`: only the governance
    /// origin may; a refused call changes nothing.
    pub open spec fn voting_period_set(before: Self, after: Self, origin: Origin, blocks: BlockNumber, r: Result<(), DispatchError>) -> bool {
        match before.governance_error(origin) {
            Some(e) => r == Err::<(), DispatchError>(e) && after == before,
            None => {
                &&& r is Ok
                &&& after.membership_voting_period == Some(blocks)
                &&& after.membership_approval_numerator == before.membership_approval_numerator
                &&& after.membership_approval_denominator
                    == before.membership_approval_denominator
                &&& after.suspension_numerator == before.suspension_numerator
                &&& after.suspension_denominator == before.suspension_denominator
                &&& after.storage_version == before.storage_version
                &&& after.governance_pallet_id == before.governance_pallet_id
                &&& Self::same_members(&before, &after)
                &&& Self::same_proposals(&before, &after)
                &&& Self::same_suspension_votes(&before, &after)
                &&& after.events@ == before.events@.push(
                    Event::MembershipVotingPeriodSet { blocks },
                )
            },
        }
    }

    /// `after` and `r` are the state and result of setting the membership approval threshold to `numerator / denominator`
    /// from `origin` on `before`: only the governance origin may, and only with
    /// a valid fraction; a refused call changes nothing.
    pub open spec fn approval_threshold_set(before: Self, after: Self, origin: Origin, numerator: u32, denominator: u32, r: Result<(), DispatchError>) -> bool {
        match before.threshold_setter_error(origin, numerator, denominator) {
            Some(e) => r == Err::<(), DispatchError>(e) && after == before,
            None => {
                &&& r is Ok
                &&& after.membership_approval_numerator == Some(numerator)
                &&& after.membership_approval_denominator == Some(denominator)
                &&& after.membership_voting_period == before.membership_voting_period
                &&& after.suspension_numerator == before.suspension_numerator
                &&& after.suspension_denominator == before.suspension_denominator
                &&& after.storage_version == before.storage_version
                &&& after.governance_pallet_id == before.governance_pallet_id
                &&& Self::same_members(&before, &after)
                &&& Self::same_proposals(&before, &after)
                &&& Self::same_suspension_votes(&before, &after)
                &&& after.events@ == before.events@.push(
                    Event::MembershipApprovalThresholdSet { numerator, denominator },
                )
            },
        }
    }

    /// `after` and `r` are the state and result of setting the suspension threshold to `numerator / denominator`
    /// from `origin` on `before`: only the governance origin may, and only with
    /// a valid fraction; a refused call changes nothing.
    pub open spec fn suspension_threshold_set(before: Self, after: Self, origin: Origin, numerator: u32, denominator: u32, r: Result<(), DispatchError>) -> bool {
        match before.threshold_setter_error(origin, numerator, denominator) {
            Some(e) => r == Err::<(), DispatchError>(e) && after == before,
            None => {
                &&& r is Ok
                &&& after.suspension_numerator == Some(numerator)
                &&& after.suspension_denominator == Some(denominator)
                &&& after.membership_voting_period == before.membership_voting_period
                &&& after.membership_approval_numerator == before.membership_approval_numerator
                &&& after.membership_approval_denominator
                    == before.membership_approval_denominator
                &&& after.storage_version == before.storage_version
                &&& after.governance_pallet_id == before.governance_pallet_id
                &&& Self::same_members(&before, &after)
                &&& Self::same_proposals(&before, &after)
                &&& Self::same_suspension_votes(&before, &after)
                &&& after.events@ == before.events@.push(
                    Event::SuspensionThresholdSet { numerator, denominator },
                )
            },
        }
    }

    // -----------------------------------------------------------------------
    // Queries
    // -----------------------------------------------------------------------

    /// Whether `account` is a registered member with active status.
    pub fn is_active_member(&self, account: &AccountId) -> (r: bool)
        ensures
            r == self.is_active(*account),
    {
        match self.members.get(account) {
            Some(record) => record.status == MemberStatus::Active,
            None => false,
        }
    }

    /// The governance origin account of this pallet.
    pub fn governance_account_id(&self) -> (a: AccountId)
        ensures
            a == self.governance_account(),
    {
        self.governance_pallet_id.into_account_truncating()
    }

    /// The most recent event, if any.
    pub fn last_event(&self) -> (e: Option<Event>)
        ensures
            e == (if self.events@.len() == 0 {
                None
            } else {
                Some(self.events@.last())
            }),
    {
        if self.events.len() == 0 {
            None
        } else {
            Some(self.events[self.events.len() - 1])
        }
    }

    /// The stored membership voting period.
    pub fn get_membership_voting_period(&self) -> (b: BlockNumber)
        ensures
            b == self.voting_period(),
    {
        read_stored(self.membership_voting_period)
    }

    /// The stored membership approval threshold `(numerator, denominator)`.
    pub fn get_membership_approval_threshold(&self) -> (t: (u32, u32))
        ensures
            t == (self.approval_numerator(), self.approval_denominator()),
    {
        (read_stored(self.membership_approval_numerator), read_stored(self.membership_approval_denominator))
    }

    /// The stored suspension threshold `(numerator, denominator)`.
    pub fn get_suspension_threshold(&self) -> (t: (u32, u32))
        ensures
            t == (self.spec_suspension_numerator(), self.spec_suspension_denominator()),
    {
        (read_stored(self.suspension_numerator), read_stored(self.suspension_denominator))
    }

    /// Yes and no votes recorded for membership proposal `id`.
    pub fn vote_counts(&self, id: MembershipProposalId) -> (c: (u32, u32))
        ensures
            c == (self.yes_votes(id), self.no_votes(id)),
    {
        (read_counter(&self.membership_proposal_yes_count, &id), read_counter(&self.membership_proposal_no_count, &id))
    }

    /// Approvals recorded against suspension target `target`.
    pub fn suspension_approvals(&self, target: AccountId) -> (c: u32)
        ensures
            c == counter(self.suspension_approval_count@, target),
    {
        read_counter(&self.suspension_approval_count, &target)
    }

    // -----------------------------------------------------------------------
    // Internal helpers
    // -----------------------------------------------------------------------

    /// Returns `Ok` if `who` is an active member, otherwise why not.
    fn ensure_active_member(&self, who: &AccountId) -> (r: Result<(), DispatchError>)
        ensures
            match self.member_error(*who) {
                Some(e) => r == Err::<(), DispatchError>(DispatchError::Membership(e)),
                None => r is Ok,
            },
    {
        match self.members.get(who) {
            None => Err(DispatchError::Membership(Error::NotActiveMember)),
            Some(record) => {
                if record.status == MemberStatus::Active {
                    Ok(())
                } else {
                    Err(DispatchError::Membership(Error::MemberSuspended))
                }
            },
        }
    }

    /// Accepts only a call signed by the governance account.
    fn ensure_governance_origin(&self, origin: Origin) -> (r: Result<(), DispatchError>)
        ensures
            match self.governance_error(origin) {
                Some(e) => r == Err::<(), DispatchError>(e),
                None => r is Ok,
            },
    {
        let caller = ensure_signed(origin)?;
        let expected = self.governance_pallet_id.into_account_truncating();
        if caller != expected {
            return Err(DispatchError::Membership(Error::NotGovernanceOrigin));
        }
        Ok(())
    }

    /// Whether proposal `id` with the given snapshot meets the stored approval threshold.
    fn meets_membership_threshold(&self, id: MembershipProposalId, snapshot: u32) -> (r: bool)
        ensures
            r == self.approves(self.yes_votes(id), snapshot),
    {
        let yes = read_counter(&self.membership_proposal_yes_count, &id);
        let n = read_stored(self.membership_approval_numerator);
        let d = read_stored(self.membership_approval_denominator);
        meets_threshold(yes, snapshot, n, d)
    }

    /// Admits the candidate of proposal `id` (record `p`) and marks the proposal approved.
    fn approve_membership_proposal(
        &mut self,
        id: MembershipProposalId,
        p: MembershipProposalRecord,
        now: BlockNumber,
    )
        ensures
            Self::approved(old(self), final(self), id, p, now, old(self).events@),
            final(self).membership_proposal_count == old(self).membership_proposal_count,
            final(self).membership_proposal_votes == old(self).membership_proposal_votes,
            final(self).membership_proposal_yes_count == old(self).membership_proposal_yes_count,
            final(self).membership_proposal_no_count == old(self).membership_proposal_no_count,
            Self::same_suspension_votes(old(self), final(self)),
            Self::same_params(old(self), final(self)),
    {
        let record = MemberRecord { name: p.name, status: MemberStatus::Active, joined_at: now };
        self.members.insert(p.candidate, record);
        self.active_member_count = self.active_member_count.saturating_add(1);
        let mut approved = p;
        approved.status = MembershipProposalStatus::Approved;
        self.active_proposal_by_candidate.remove(&p.candidate);
        self.membership_proposals.insert(id, approved);
        self.events.push(Event::MemberProposalApproved { proposal_id: id, member: p.candidate });
    }

    /// Suspends an active member and clears every pending suspension vote.
    ///
    /// All suspension votes and counts are cleared, not only those against
    /// this member: any change in the active-member pool invalidates prior
    /// unanimity calculations.
    fn suspend_member(&mut self, member: &AccountId, reason: SuspensionReason) -> (r: Result<
        (),
        DispatchError,
    >)
        ensures
            !old(self).members@.contains_key(*member) ==> r == Err::<(), DispatchError>(
                DispatchError::Membership(Error::NotActiveMember),
            ) && *final(self) == *old(self),
            old(self).members@.contains_key(*member) && !old(self).is_active(*member) ==> r
                == Err::<(), DispatchError>(DispatchError::Membership(Error::AlreadySuspended))
                && *final(self) == *old(self),
            old(self).is_active(*member) ==> {
                &&& r is Ok
                &&& Self::suspended(old(self), final(self), *member, reason, old(self).events@)
                &&& Self::same_proposals(old(self), final(self))
                &&& Self::same_params(old(self), final(self))
                &&& approvals_match(final(self).suspension_approval_count@, final(self).suspension_votes@)
            },
    {
        let record = match self.members.get(member) {
            None => {
                return Err(DispatchError::Membership(Error::NotActiveMember));
            },
            Some(record) => *record,
        };
        if record.status != MemberStatus::Active {
            return Err(DispatchError::Membership(Error::AlreadySuspended));
        }
        let mut updated = record;
        updated.status = MemberStatus::Suspended;
        self.members.insert(*member, updated);
        self.active_member_count = self.active_member_count.saturating_sub(1);
        self.suspension_votes.clear();
        self.suspension_approval_count.clear();
        self.events.push(Event::MemberSuspended { member: *member, reason });
        proof {
            assert forall|t: AccountId| #[trigger]
                counter(self.suspension_approval_count@, t) == capped(voters(self.suspension_votes@, t, true).len()) by {
                lemma_no_votes_no_voters::<AccountId>(t, true);
            }
        }
        Ok(())
    }
}


impl Pallet {
    // -----------------------------------------------------------------------
    // Refusals of the dispatchables, in the order in which they are checked
    // -----------------------------------------------------------------------

    pub open spec fn propose_error(&self, origin: Origin, candidate: AccountId) -> Option<DispatchError> {
        match self.origin_member_error(origin) {
            Some(e) => Some(e),
            None => if self.members@.contains_key(candidate) {
                Some(DispatchError::Membership(Error::AlreadyMember))
            } else if self.active_proposal_by_candidate@.contains_key(candidate) {
                Some(DispatchError::Membership(Error::CandidateAlreadyProposed))
            } else {
                None
            },
        }
    }

    /// Why proposal `id` cannot be voted on or finalized at all, if it cannot.
    pub open spec fn active_proposal_error(&self, id: MembershipProposalId) -> Option<DispatchError> {
        if !self.membership_proposals@.contains_key(id) {
            Some(DispatchError::Membership(Error::ProposalNotFound))
        } else if self.membership_proposals@[id].status != MembershipProposalStatus::Active {
            Some(DispatchError::Membership(Error::ProposalNotActive))
        } else {
            None
        }
    }

    pub open spec fn vote_error(&self, origin: Origin, id: MembershipProposalId, now: BlockNumber) -> Option<
        DispatchError,
    > {
        match self.origin_member_error(origin) {
            Some(e) => Some(e),
            None => match self.active_proposal_error(id) {
                Some(e) => Some(e),
                None => if now > self.membership_proposals@[id].vote_end {
                    Some(DispatchError::Membership(Error::VotingClosed))
                } else if self.membership_proposal_votes@.contains_key(
                    (id, signer_of(origin)->0),
                ) {
                    Some(DispatchError::Membership(Error::AlreadyVoted))
                } else {
                    None
                },
            },
        }
    }

    pub open spec fn finalize_error(&self, origin: Origin, id: MembershipProposalId, now: BlockNumber) -> Option<
        DispatchError,
    > {
        match self.origin_member_error(origin) {
            Some(e) => Some(e),
            None => match self.active_proposal_error(id) {
                Some(e) => Some(e),
                None => if now <= self.membership_proposals@[id].vote_end {
                    Some(DispatchError::Membership(Error::VotingStillOpen))
                } else {
                    None
                },
            },
        }
    }

    pub open spec fn suspend_error(&self, member: AccountId) -> Option<DispatchError> {
        if !self.members@.contains_key(member) {
            Some(DispatchError::Membership(Error::NotActiveMember))
        } else if !self.is_active(member) {
            Some(DispatchError::Membership(Error::AlreadySuspended))
        } else {
            None
        }
    }

    pub open spec fn vote_suspend_error(&self, origin: Origin, target: AccountId) -> Option<DispatchError> {
        match self.origin_member_error(origin) {
            Some(e) => Some(e),
            None => if signer_of(origin)->0 == target {
                Some(DispatchError::Membership(Error::CannotSuspendSelf))
            } else {
                match self.suspend_error(target) {
                    Some(e) => Some(e),
                    None => if self.suspension_votes@.contains_key((target, signer_of(origin)->0)) {
                        Some(DispatchError::Membership(Error::AlreadyVoted))
                    } else {
                        None
                    },
                }
            },
        }
    }

    pub open spec fn threshold_setter_error(&self, origin: Origin, numerator: u32, denominator: u32) -> Option<
        DispatchError,
    > {
        match self.governance_error(origin) {
            Some(e) => Some(e),
            None => if !valid_threshold(numerator, denominator) {
                Some(DispatchError::Membership(Error::InvalidThreshold))
            } else {
                None
            },
        }
    }

    // -----------------------------------------------------------------------
    // Dispatchables
    // -----------------------------------------------------------------------

    /// Proposes `candidate` for membership under `name`.
    ///
    /// The caller must be an active member. The candidate must not already be
    /// a member or have another active membership proposal. The proposal gets
    /// the next id, snapshots the active member count and stays open for the
    /// stored voting period.
    pub fn propose_member(
        &mut self,
        origin: Origin,
        candidate: AccountId,
        name: MemberName,
        now: BlockNumber,
    ) -> (r: Result<(), DispatchError>)
        ensures
            match old(self).propose_error(origin, candidate) {
                Some(e) => r == Err::<(), DispatchError>(e) && *final(self) == *old(self),
                None => {
                    let who = signer_of(origin)->0;
                    let id = sat_add(old(self).membership_proposal_count, 1);
                    let vote_end = sat_add(now, old(self).voting_period());
                    &&& r is Ok
                    &&& final(self).membership_proposal_count == id
                    &&& final(self).membership_proposals@ == old(self).membership_proposals@.insert(
                        id,
                        MembershipProposalRecord {
                            candidate,
                            name,
                            proposed_by: who,
                            proposed_at: now,
                            vote_end,
                            active_member_snapshot: old(self).active_member_count,
                            status: MembershipProposalStatus::Active,
                        },
                    )
                    &&& final(self).active_proposal_by_candidate@
                        == old(self).active_proposal_by_candidate@.insert(candidate, id)
                    &&& final(self).membership_proposal_votes == old(self).membership_proposal_votes
                    &&& final(self).membership_proposal_yes_count
                        == old(self).membership_proposal_yes_count
                    &&& final(self).membership_proposal_no_count
                        == old(self).membership_proposal_no_count
                    &&& Self::same_members(old(self), final(self))
                    &&& Self::same_suspension_votes(old(self), final(self))
                    &&& Self::same_params(old(self), final(self))
                    &&& final(self).events@ == old(self).events@.push(
                        Event::MemberProposalSubmitted {
                            proposal_id: id,
                            candidate,
                            proposed_by: who,
                            vote_end,
                        },
                    )
                },
            },
            old(self).wf() && old(self).membership_proposal_count < u32::MAX ==> final(self).wf(),
            old(self).candidate_index_ok() && old(self).membership_proposal_count < u32::MAX
                ==> final(self).candidate_index_ok(),
    {
        let proposer = ensure_signed(origin)?;
        self.ensure_active_member(&proposer)?;
        if self.members.contains_key(&candidate) {
            return Err(DispatchError::Membership(Error::AlreadyMember));
        }
        if self.active_proposal_by_candidate.contains_key(&candidate) {
            return Err(DispatchError::Membership(Error::CandidateAlreadyProposed));
        }
        let period = read_stored(self.membership_voting_period);
        let vote_end = now.saturating_add(period);
        let snapshot = self.active_member_count;
        let proposal_id = self.membership_proposal_count.saturating_add(1);
        self.membership_proposal_count = proposal_id;
        let record = MembershipProposalRecord {
            candidate,
            name,
            proposed_by: proposer,
            proposed_at: now,
            vote_end,
            active_member_snapshot: snapshot,
            status: MembershipProposalStatus::Active,
        };
        self.membership_proposals.insert(proposal_id, record);
        self.active_proposal_by_candidate.insert(candidate, proposal_id);
        self.events.push(
            Event::MemberProposalSubmitted { proposal_id, candidate, proposed_by: proposer, vote_end },
        );
        Ok(())
    }
}


impl Pallet {
    /// Votes on active membership proposal `id`.
    ///
    /// The caller must be an active member and must not have voted on this
    /// proposal before; the voting window must still be open. A yes vote that
    /// brings the proposal to the approval threshold of its submit-time
    /// snapshot approves it at once and admits the candidate.
    pub fn vote_on_candidate(
        &mut self,
        origin: Origin,
        proposal_id: MembershipProposalId,
        approve: bool,
        now: BlockNumber,
    ) -> (r: Result<(), DispatchError>)
        ensures
            match old(self).vote_error(origin, proposal_id, now) {
                Some(e) => r == Err::<(), DispatchError>(e) && *final(self) == *old(self),
                None => {
                    let who = signer_of(origin)->0;
                    let p = old(self).membership_proposals@[proposal_id];
                    let yes = sat_add(old(self).yes_votes(proposal_id), 1);
                    let no = sat_add(old(self).no_votes(proposal_id), 1);
                    let cast = old(self).events@.push(
                        Event::MemberProposalVoteCast {
                            proposal_id,
                            candidate: p.candidate,
                            voter: who,
                            approve,
                        },
                    );
                    &&& r is Ok
                    &&& final(self).membership_proposal_votes@
                        == old(self).membership_proposal_votes@.insert((proposal_id, who), approve)
                    &&& approve ==> final(self).membership_proposal_yes_count@
                        == old(self).membership_proposal_yes_count@.insert(proposal_id, yes)
                        && final(self).membership_proposal_no_count
                        == old(self).membership_proposal_no_count
                    &&& !approve ==> final(self).membership_proposal_no_count@
                        == old(self).membership_proposal_no_count@.insert(proposal_id, no)
                        && final(self).membership_proposal_yes_count
                        == old(self).membership_proposal_yes_count
                    &&& if approve && old(self).approves(yes, p.active_member_snapshot) {
                        Self::approved(old(self), final(self), proposal_id, p, now, cast)
                    } else {
                        &&& Self::same_members(old(self), final(self))
                        &&& final(self).membership_proposals == old(self).membership_proposals
                        &&& final(self).active_proposal_by_candidate
                            == old(self).active_proposal_by_candidate
                        &&& final(self).events@ == cast
                    }
                    &&& final(self).membership_proposal_count == old(self).membership_proposal_count
                    &&& Self::same_suspension_votes(old(self), final(self))
                    &&& Self::same_params(old(self), final(self))
                },
            },
            old(self).wf() && old(self).active_member_count < u32::MAX ==> final(self).wf(),
            old(self).candidate_index_ok() ==> final(self).candidate_index_ok(),
    {
        let voter = ensure_signed(origin)?;
        self.ensure_active_member(&voter)?;
        let proposal = match self.membership_proposals.get(&proposal_id) {
            None => {
                return Err(DispatchError::Membership(Error::ProposalNotFound));
            },
            Some(p) => *p,
        };
        if proposal.status != MembershipProposalStatus::Active {
            return Err(DispatchError::Membership(Error::ProposalNotActive));
        }
        if now > proposal.vote_end {
            return Err(DispatchError::Membership(Error::VotingClosed));
        }
        if self.membership_proposal_votes.contains_key(&(proposal_id, voter)) {
            return Err(DispatchError::Membership(Error::AlreadyVoted));
        }
        self.membership_proposal_votes.insert((proposal_id, voter), approve);
        if approve {
            let yes = read_counter(&self.membership_proposal_yes_count, &proposal_id).saturating_add(1);
            self.membership_proposal_yes_count.insert(proposal_id, yes);
        } else {
            let no = read_counter(&self.membership_proposal_no_count, &proposal_id).saturating_add(1);
            self.membership_proposal_no_count.insert(proposal_id, no);
        }
        self.events.push(
            Event::MemberProposalVoteCast {
                proposal_id,
                candidate: proposal.candidate,
                voter,
                approve,
            },
        );
        proof {
            if old(self).wf() {
                assert forall|k: MembershipProposalId|
                    #![trigger counter(self.membership_proposal_yes_count@, k)]
                    #![trigger counter(self.membership_proposal_no_count@, k)]
                    counter(self.membership_proposal_yes_count@, k) == capped(
                        voters(self.membership_proposal_votes@, k, true).len(),
                    ) && counter(self.membership_proposal_no_count@, k) == capped(
                        voters(self.membership_proposal_votes@, k, false).len(),
                    ) by {
                    lemma_record_vote(old(self).membership_proposal_votes@, proposal_id, voter, approve, k, true);
                    lemma_record_vote(old(self).membership_proposal_votes@, proposal_id, voter, approve, k, false);
                    assert(counter(old(self).membership_proposal_yes_count@, k) == capped(
                        voters(old(self).membership_proposal_votes@, k, true).len(),
                    ));
                    assert(counter(old(self).membership_proposal_no_count@, k) == capped(
                        voters(old(self).membership_proposal_votes@, k, false).len(),
                    ));
                }
            }
        }
        if approve && self.meets_membership_threshold(proposal_id, proposal.active_member_snapshot) {
            proof {
                lemma_active_of_insert(
                    self.members@,
                    proposal.candidate,
                    MemberRecord { name: proposal.name, status: MemberStatus::Active, joined_at: now },
                );
            }
            self.approve_membership_proposal(proposal_id, proposal, now);
        }
        Ok(())
    }

    /// Resolves active membership proposal `id` after its voting window.
    ///
    /// The caller must be an active member. A proposal that meets the
    /// approval threshold of its snapshot is approved; otherwise it is rejected.
    pub fn finalize_proposal(&mut self, origin: Origin, proposal_id: MembershipProposalId, now: BlockNumber) -> (r:
        Result<(), DispatchError>)
        ensures
            match old(self).finalize_error(origin, proposal_id, now) {
                Some(e) => r == Err::<(), DispatchError>(e) && *final(self) == *old(self),
                None => {
                    let p = old(self).membership_proposals@[proposal_id];
                    &&& r is Ok
                    &&& if old(self).approves(old(self).yes_votes(proposal_id), p.active_member_snapshot) {
                        Self::approved(old(self), final(self), proposal_id, p, now, old(self).events@)
                    } else {
                        &&& Self::same_members(old(self), final(self))
                        &&& final(self).membership_proposals@ == old(self).membership_proposals@.insert(
                            proposal_id,
                            MembershipProposalRecord { status: MembershipProposalStatus::Rejected, ..p },
                        )
                        &&& final(self).active_proposal_by_candidate@
                            == old(self).active_proposal_by_candidate@.remove(p.candidate)
                        &&& final(self).events@ == old(self).events@.push(
                            Event::MemberProposalRejected { proposal_id, candidate: p.candidate },
                        )
                    }
                    &&& final(self).membership_proposal_count == old(self).membership_proposal_count
                    &&& final(self).membership_proposal_votes == old(self).membership_proposal_votes
                    &&& final(self).membership_proposal_yes_count
                        == old(self).membership_proposal_yes_count
                    &&& final(self).membership_proposal_no_count
                        == old(self).membership_proposal_no_count
                    &&& Self::same_suspension_votes(old(self), final(self))
                    &&& Self::same_params(old(self), final(self))
                },
            },
            old(self).wf() && old(self).active_member_count < u32::MAX ==> final(self).wf(),
            old(self).candidate_index_ok() ==> final(self).candidate_index_ok(),
    {
        let caller = ensure_signed(origin)?;
        self.ensure_active_member(&caller)?;
        let proposal = match self.membership_proposals.get(&proposal_id) {
            None => {
                return Err(DispatchError::Membership(Error::ProposalNotFound));
            },
            Some(p) => *p,
        };
        if proposal.status != MembershipProposalStatus::Active {
            return Err(DispatchError::Membership(Error::ProposalNotActive));
        }
        if now <= proposal.vote_end {
            return Err(DispatchError::Membership(Error::VotingStillOpen));
        }
        if self.meets_membership_threshold(proposal_id, proposal.active_member_snapshot) {
            proof {
                lemma_active_of_insert(
                    self.members@,
                    proposal.candidate,
                    MemberRecord { name: proposal.name, status: MemberStatus::Active, joined_at: now },
                );
            }
            self.approve_membership_proposal(proposal_id, proposal, now);
            return Ok(());
        }
        let mut rejected = proposal;
        rejected.status = MembershipProposalStatus::Rejected;
        self.active_proposal_by_candidate.remove(&proposal.candidate);
        self.membership_proposals.insert(proposal_id, rejected);
        self.events.push(
            Event::MemberProposalRejected { proposal_id, candidate: proposal.candidate },
        );
        Ok(())
    }

    /// Suspends the caller's own member account.
    pub fn suspend_self(&mut self, origin: Origin) -> (r: Result<(), DispatchError>)
        ensures
            match signer_of(origin) {
                None => r == Err::<(), DispatchError>(DispatchError::BadOrigin) && *final(self)
                    == *old(self),
                Some(who) => match old(self).suspend_error(who) {
                    Some(e) => r == Err::<(), DispatchError>(e) && *final(self) == *old(self),
                    None => {
                        &&& r is Ok
                        &&& Self::suspended(
                            old(self),
                            final(self),
                            who,
                            SuspensionReason::SelfInitiated,
                            old(self).events@,
                        )
                        &&& Self::same_proposals(old(self), final(self))
                        &&& Self::same_params(old(self), final(self))
                    },
                },
            },
            old(self).wf() ==> final(self).wf(),
    {
        let caller = ensure_signed(origin)?;
        proof {
            if old(self).is_active(caller) {
                lemma_active_of_insert(
                    self.members@,
                    caller,
                    MemberRecord { status: MemberStatus::Suspended, ..self.members@[caller] },
                );
                assert(self.active_members().contains(caller));
            }
        }
        self.suspend_member(&caller, SuspensionReason::SelfInitiated)
    }

    /// Votes to suspend active member `target`.
    ///
    /// The voter must be an active member other than the target and must not
    /// have voted against this target before. When the approvals reach the
    /// suspension threshold of the other active members, the target is
    /// suspended and every pending suspension vote is cleared.
    pub fn vote_suspend_member(&mut self, origin: Origin, target: AccountId, approve: bool) -> (r: Result<
        (),
        DispatchError,
    >)
        ensures
            match old(self).vote_suspend_error(origin, target) {
                Some(e) => r == Err::<(), DispatchError>(e) && *final(self) == *old(self),
                None => {
                    let voter = signer_of(origin)->0;
                    let cast = old(self).events@.push(
                        Event::SuspensionVoteCast { target, voter, approve },
                    );
                    let approvals = sat_add(counter(old(self).suspension_approval_count@, target), 1);
                    let others = sat_sub(old(self).active_member_count, 1);
                    &&& r is Ok
                    &&& if approve && reaches_threshold(
                        approvals,
                        others,
                        old(self).spec_suspension_numerator(),
                        old(self).spec_suspension_denominator(),
                    ) {
                        Self::suspended(old(self), final(self), target, SuspensionReason::PeerVote, cast)
                    } else {
                        &&& Self::same_members(old(self), final(self))
                        &&& final(self).suspension_votes@ == old(self).suspension_votes@.insert(
                            (target, voter),
                            approve,
                        )
                        &&& approve ==> final(self).suspension_approval_count@
                            == old(self).suspension_approval_count@.insert(target, approvals)
                        &&& !approve ==> final(self).suspension_approval_count
                            == old(self).suspension_approval_count
                        &&& final(self).events@ == cast
                    }
                    &&& Self::same_proposals(old(self), final(self))
                    &&& Self::same_params(old(self), final(self))
                },
            },
            old(self).wf() ==> final(self).wf(),
    {
        let voter = ensure_signed(origin)?;
        self.ensure_active_member(&voter)?;
        if voter == target {
            return Err(DispatchError::Membership(Error::CannotSuspendSelf));
        }
        let target_record = match self.members.get(&target) {
            None => {
                return Err(DispatchError::Membership(Error::NotActiveMember));
            },
            Some(record) => *record,
        };
        if target_record.status != MemberStatus::Active {
            return Err(DispatchError::Membership(Error::AlreadySuspended));
        }
        if self.suspension_votes.contains_key(&(target, voter)) {
            return Err(DispatchError::Membership(Error::AlreadyVoted));
        }
        self.suspension_votes.insert((target, voter), approve);
        self.events.push(Event::SuspensionVoteCast { target, voter, approve });
        if !approve {
            proof {
                if old(self).wf() {
                    assert forall|t: AccountId| #[trigger]
                        counter(self.suspension_approval_count@, t) == capped(
                            voters(self.suspension_votes@, t, true).len(),
                        ) by {
                        lemma_record_vote(old(self).suspension_votes@, target, voter, approve, t, true);
                        assert(counter(old(self).suspension_approval_count@, t) == capped(
                            voters(old(self).suspension_votes@, t, true).len(),
                        ));
                    }
                }
            }
        }
        if approve {
            let approvals = read_counter(&self.suspension_approval_count, &target).saturating_add(1);
            self.suspension_approval_count.insert(target, approvals);
            proof {
                if old(self).wf() {
                    assert forall|t: AccountId| #[trigger]
                        counter(self.suspension_approval_count@, t) == capped(
                            voters(self.suspension_votes@, t, true).len(),
                        ) by {
                        lemma_record_vote(old(self).suspension_votes@, target, voter, approve, t, true);
                        assert(counter(old(self).suspension_approval_count@, t) == capped(
                            voters(old(self).suspension_votes@, t, true).len(),
                        ));
                    }
                }
            }
            let n = read_stored(self.suspension_numerator);
            let d = read_stored(self.suspension_denominator);
            let others = self.active_member_count.saturating_sub(1);
            if meets_threshold(approvals, others, n, d) {
                proof {
                    lemma_active_of_insert(
                        self.members@,
                        target,
                        MemberRecord { status: MemberStatus::Suspended, ..self.members@[target] },
                    );
                    assert(self.active_members().contains(target));
                }
                let res = self.suspend_member(&target, SuspensionReason::PeerVote);
                assert(res is Ok);
            }
        }
        Ok(())
    }

    /// Sets the membership voting period; only the governance origin may call this.
    pub fn set_membership_voting_period(&mut self, origin: Origin, blocks: BlockNumber) -> (r: Result<
        (),
        DispatchError,
    >)
        ensures
            Self::voting_period_set(*old(self), *final(self), origin, blocks, r),
            old(self).wf() ==> final(self).wf(),
    {
        self.ensure_governance_origin(origin)?;
        self.membership_voting_period = Some(blocks);
        self.events.push(Event::MembershipVotingPeriodSet { blocks });
        Ok(())
    }

    /// Sets the membership approval threshold; only the governance origin may
    /// call this, with a valid fraction.
    pub fn set_membership_approval_threshold(&mut self, origin: Origin, numerator: u32, denominator: u32) -> (r:
        Result<(), DispatchError>)
        ensures
            Self::approval_threshold_set(*old(self), *final(self), origin, numerator, denominator, r),
            old(self).wf() ==> final(self).wf(),
    {
        self.ensure_governance_origin(origin)?;
        ensure_valid_threshold(numerator, denominator)?;
        self.membership_approval_numerator = Some(numerator);
        self.membership_approval_denominator = Some(denominator);
        self.events.push(Event::MembershipApprovalThresholdSet { numerator, denominator });
        Ok(())
    }

    /// Sets the suspension threshold; only the governance origin may call
    /// this, with a valid fraction.
    pub fn set_suspension_threshold(&mut self, origin: Origin, numerator: u32, denominator: u32) -> (r: Result<
        (),
        DispatchError,
    >)
        ensures
            Self::suspension_threshold_set(*old(self), *final(self), origin, numerator, denominator, r),
            old(self).wf() ==> final(self).wf(),
    {
        self.ensure_governance_origin(origin)?;
        ensure_valid_threshold(numerator, denominator)?;
        self.suspension_numerator = Some(numerator);
        self.suspension_denominator = Some(denominator);
        self.events.push(Event::SuspensionThresholdSet { numerator, denominator });
        Ok(())
    }
}


/// Genesis members form exactly the listed accounts, all active; with
/// distinct accounts there are as many members as list entries.
pub proof fn lemma_genesis_members(list: Seq<(AccountId, MemberName)>)
    ensures
        forall|a: AccountId| #[trigger]
            genesis_members(list).contains_key(a) ==> genesis_members(list)[a].status
                == MemberStatus::Active,
        active_of(genesis_members(list)) == genesis_members(list).dom(),
        genesis_members(list).dom().finite(),
        distinct_accounts(list) ==> genesis_members(list).dom().len() == list.len(),
    decreases list.len(),
{
    if list.len() > 0 {
        let prefix = list.drop_last();
        lemma_genesis_members(prefix);
        assert(distinct_accounts(list) ==> distinct_accounts(prefix)) by {
            if distinct_accounts(list) {
                assert forall|i: int, j: int| 0 <= i < j < prefix.len() implies #[trigger] prefix[i].0
                    != #[trigger] prefix[j].0 by {
                    assert(prefix[i] == list[i] && prefix[j] == list[j]);
                }
            }
        }
        if distinct_accounts(list) {
            assert(!genesis_members(prefix).contains_key(list.last().0)) by {
                lemma_genesis_members_accounts(prefix);
                if genesis_members(prefix).contains_key(list.last().0) {
                    let i = choose|i: int| 0 <= i < prefix.len() && prefix[i].0 == list.last().0;
                    assert(list[i].0 == list[list.len() - 1].0);
                }
            }
        }
    }
    assert(active_of(genesis_members(list)) =~= genesis_members(list).dom());
}

/// Every genesis member is one of the listed accounts.
pub proof fn lemma_genesis_members_accounts(list: Seq<(AccountId, MemberName)>)
    ensures
        forall|a: AccountId| #[trigger]
            genesis_members(list).contains_key(a) ==> exists|i: int| 0 <= i < list.len() && list[i].0 == a,
    decreases list.len(),
{
    if list.len() > 0 {
        let prefix = list.drop_last();
        lemma_genesis_members_accounts(prefix);
        assert forall|a: AccountId| #[trigger]
            genesis_members(list).contains_key(a) implies exists|i: int| 0 <= i < list.len() && list[i].0 == a by {
            assert(genesis_members(list) == genesis_members(prefix).insert(
                list.last().0,
                MemberRecord { name: list.last().1, status: MemberStatus::Active, joined_at: 0 },
            ));
            if a == list.last().0 {
                assert(list[list.len() - 1].0 == a);
            } else {
                assert(genesis_members(prefix).contains_key(a));
                let i = choose|i: int| 0 <= i < prefix.len() && prefix[i].0 == a;
                assert(list[i] == prefix[i]);
            }
        }
    }
}

impl GenesisConfig {
    /// Builds the genesis state of the pallet: every initial member active
    /// from block zero, the active member counter set to the number of
    /// entries, and the default voting period and thresholds (4/5 for
    /// admission, 1/1 for suspension).
    pub fn build(&self, governance_pallet_id: PalletId, profile: ChainProfile) -> (p: Pallet)
        requires
            self.initial_members@.len() <= MAX_INITIAL_MEMBERS,
        ensures
            p.members@ == genesis_members(self.initial_members@),
            p.active_member_count == self.initial_members@.len(),
            p.membership_proposal_count == 0,
            p.membership_proposals@ == Map::<MembershipProposalId, MembershipProposalRecord>::empty(),
            p.active_proposal_by_candidate@ == Map::<AccountId, MembershipProposalId>::empty(),
            p.membership_proposal_votes@ == Map::<(MembershipProposalId, AccountId), bool>::empty(),
            p.membership_proposal_yes_count@ == Map::<MembershipProposalId, u32>::empty(),
            p.membership_proposal_no_count@ == Map::<MembershipProposalId, u32>::empty(),
            p.suspension_votes@ == Map::<(AccountId, AccountId), bool>::empty(),
            p.suspension_approval_count@ == Map::<AccountId, u32>::empty(),
            p.membership_voting_period == Some(spec_default_voting_period(profile)),
            p.membership_approval_numerator == Some(4u32),
            p.membership_approval_denominator == Some(5u32),
            p.suspension_numerator == Some(1u32),
            p.suspension_denominator == Some(1u32),
            p.storage_version == STORAGE_VERSION,
            p.governance_pallet_id == governance_pallet_id,
            p.events@ == Seq::<Event>::empty(),
            distinct_accounts(self.initial_members@) ==> p.wf(),
    {
        let mut members: BTreeMap<AccountId, MemberRecord> = BTreeMap::new();
        let mut count: u32 = 0;
        let mut i: usize = 0;
        while i < self.initial_members.len()
            invariant
                i <= self.initial_members@.len() <= MAX_INITIAL_MEMBERS,
                count == i,
                members@ == genesis_members(self.initial_members@.take(i as int)),
            decreases self.initial_members@.len() - i,
        {
            let (account, name) = self.initial_members[i];
            let record = MemberRecord { name, status: MemberStatus::Active, joined_at: 0 };
            members.insert(account, record);
            count = count.saturating_add(1);
            proof {
                let next = self.initial_members@.take(i + 1);
                assert(next.drop_last() =~= self.initial_members@.take(i as int));
                assert(next.last() == self.initial_members@[i as int]);
            }
            i = i + 1;
        }
        assert(self.initial_members@.take(i as int) =~= self.initial_members@);
        proof {
            lemma_genesis_members(self.initial_members@);
        }
        let p = Pallet {
            members,
            active_member_count: count,
            membership_proposal_count: 0,
            membership_proposals: BTreeMap::new(),
            active_proposal_by_candidate: BTreeMap::new(),
            membership_proposal_votes: BTreeMap::new(),
            membership_proposal_yes_count: BTreeMap::new(),
            membership_proposal_no_count: BTreeMap::new(),
            suspension_votes: BTreeMap::new(),
            suspension_approval_count: BTreeMap::new(),
            membership_voting_period: Some(default_membership_voting_period(profile)),
            membership_approval_numerator: Some(4),
            membership_approval_denominator: Some(5),
            suspension_numerator: Some(1),
            suspension_denominator: Some(1),
            storage_version: STORAGE_VERSION,
            governance_pallet_id,
            events: Vec::new(),
        };
        proof {
            assert forall|id: MembershipProposalId|
                #![trigger counter(p.membership_proposal_yes_count@, id)]
                #![trigger counter(p.membership_proposal_no_count@, id)]
                counter(p.membership_proposal_yes_count@, id) == capped(
                    voters(p.membership_proposal_votes@, id, true).len(),
                ) && counter(p.membership_proposal_no_count@, id) == capped(
                    voters(p.membership_proposal_votes@, id, false).len(),
                ) by {
                assert(voters(p.membership_proposal_votes@, id, true) =~= Set::<AccountId>::empty());
                assert(voters(p.membership_proposal_votes@, id, false) =~= Set::<AccountId>::empty());
            }
            assert forall|t: AccountId| #[trigger]
                counter(p.suspension_approval_count@, t) == capped(voters(p.suspension_votes@, t, true).len()) by {
                assert(voters(p.suspension_votes@, t, true) =~= Set::<AccountId>::empty());
            }
        }
        p
    }
}

/// Migration of one stored parameter: a missing value is filled with its default.
pub open spec fn backfilled(before: Option<u32>, after: Option<u32>, default: u32) -> bool {
    after == (match before {
        Some(v) => Some(v),
        None => Some(default),
    })
}

/// One write for a parameter that was missing.
pub open spec fn write_if_missing(v: Option<u32>) -> int {
    if v is None {
        1
    } else {
        0
    }
}

fn backfill(slot: &mut Option<u32>, default: u32, writes: &mut u64) -> (wrote: bool)
    requires
        *old(writes) < 100,
    ensures
        backfilled(*old(slot), *final(slot), default),
        wrote == (*old(slot) is None),
        *final(writes) == *old(writes) + write_if_missing(*old(slot)),
{
    match slot {
        Some(_) => false,
        None => {
            *slot = Some(default);
            *writes = *writes + 1;
            true
        },
    }
}

impl Pallet {
    /// Runtime-upgrade migration: on a chain whose storage version is older
    /// than `STORAGE_VERSION`, writes the default of every missing governance
    /// parameter and records the new storage version. Reports the storage
    /// reads and writes made; a chain already at the current version is left
    /// as it was and reports none.
    pub fn on_runtime_upgrade(&mut self, profile: ChainProfile) -> (access: DbAccess)
        ensures
            old(self).storage_version >= STORAGE_VERSION ==> *final(self) == *old(self) && access
                == (DbAccess { reads: 0, writes: 0 }),
            old(self).storage_version < STORAGE_VERSION ==> {
                &&& backfilled(
                    old(self).membership_voting_period,
                    final(self).membership_voting_period,
                    spec_default_voting_period(profile),
                )
                &&& backfilled(
                    old(self).membership_approval_numerator,
                    final(self).membership_approval_numerator,
                    4,
                )
                &&& backfilled(
                    old(self).membership_approval_denominator,
                    final(self).membership_approval_denominator,
                    5,
                )
                &&& backfilled(old(self).suspension_numerator, final(self).suspension_numerator, 1)
                &&& backfilled(old(self).suspension_denominator, final(self).suspension_denominator, 1)
                &&& final(self).storage_version == STORAGE_VERSION
                &&& final(self).governance_pallet_id == old(self).governance_pallet_id
                &&& Self::same_members(old(self), final(self))
                &&& Self::same_proposals(old(self), final(self))
                &&& Self::same_suspension_votes(old(self), final(self))
                &&& final(self).events == old(self).events
                &&& access.reads == 6
                &&& access.writes == 1 + write_if_missing(old(self).membership_voting_period)
                    + write_if_missing(old(self).membership_approval_numerator)
                    + write_if_missing(old(self).membership_approval_denominator)
                    + write_if_missing(old(self).suspension_numerator)
                    + write_if_missing(old(self).suspension_denominator)
            },
            old(self).wf() ==> final(self).wf(),
    {
        if self.storage_version >= STORAGE_VERSION {
            return DbAccess { reads: 0, writes: 0 };
        }
        let mut reads: u64 = 1;
        let mut writes: u64 = 0;
        reads = reads + 1;
        backfill(&mut self.membership_voting_period, default_membership_voting_period(profile), &mut writes);
        reads = reads + 1;
        backfill(&mut self.membership_approval_numerator, 4, &mut writes);
        reads = reads + 1;
        backfill(&mut self.membership_approval_denominator, 5, &mut writes);
        reads = reads + 1;
        backfill(&mut self.suspension_numerator, 1, &mut writes);
        reads = reads + 1;
        backfill(&mut self.suspension_denominator, 1, &mut writes);
        self.storage_version = STORAGE_VERSION;
        writes = writes + 1;
        DbAccess { reads, writes }
    }
}

/// Membership status checks, as other pallets use them.
pub trait MembershipChecker {
    /// `account` is an active member.
    spec fn spec_is_active_member(&self, account: AccountId) -> bool;

    /// Whether `account` is an active member.
    fn is_active_member(&self, account: &AccountId) -> (r: bool)
        ensures
            r == self.spec_is_active_member(*account);
}

impl MembershipChecker for Pallet {
    open spec fn spec_is_active_member(&self, account: AccountId) -> bool {
        self.is_active(account)
    }

    fn is_active_member(&self, account: &AccountId) -> (r: bool) {
        Pallet::is_active_member(self, account)
    }
}

// ---------------------------------------------------------------------------
// Laws
// ---------------------------------------------------------------------------

/// At most one membership proposal per candidate is active at any time.
pub proof fn lemma_one_active_proposal_per_candidate(
    p: Pallet,
    i: MembershipProposalId,
    j: MembershipProposalId,
)
    requires
        p.candidate_index_ok(),
        p.membership_proposals@.contains_key(i),
        p.membership_proposals@.contains_key(j),
        p.membership_proposals@[i].status == MembershipProposalStatus::Active,
        p.membership_proposals@[j].status == MembershipProposalStatus::Active,
        p.membership_proposals@[i].candidate == p.membership_proposals@[j].candidate,
    ensures
        i == j,
{
}

/// Under the candidate index, the id that the next proposal takes is new and
/// larger than every stored one, so a candidate proposed again after an
/// earlier proposal was resolved gets a strictly larger id.
pub proof fn lemma_next_proposal_id_is_fresh(p: Pallet, id: MembershipProposalId)
    requires
        p.candidate_index_ok(),
        p.membership_proposal_count < u32::MAX,
        p.membership_proposals@.contains_key(id),
    ensures
        !p.membership_proposals@.contains_key(sat_add(p.membership_proposal_count, 1)),
        id < sat_add(p.membership_proposal_count, 1),
{
    let next = sat_add(p.membership_proposal_count, 1);
    assert(next == p.membership_proposal_count + 1);
    if p.membership_proposals@.contains_key(next) {
        assert(1 <= next <= p.membership_proposal_count);
    }
}

/// The candidate of an active membership proposal is not yet a member.
pub proof fn lemma_active_candidate_not_member(p: Pallet, id: MembershipProposalId)
    requires
        p.wf(),
        p.membership_proposals@.contains_key(id),
        p.membership_proposals@[id].status == MembershipProposalStatus::Active,
    ensures
        !p.members@.contains_key(p.membership_proposals@[id].candidate),
{
}

/// The active member counter equals the number of members with active status.
pub proof fn lemma_active_member_count(p: Pallet)
    requires
        p.wf(),
    ensures
        p.active_member_count == active_of(p.members@).len(),
{
}

/// Peer suspension under the genesis threshold of 1/1 is unanimity: the
/// approvals reach it exactly when they number at least the other active
/// members.
pub proof fn lemma_default_suspension_is_unanimity(approvals: u32, others: u32)
    ensures
        reaches_threshold(approvals, others, 1, 1) <==> approvals >= others,
{
}

/// The saturating threshold test is the exact one, `votes * denominator >=
/// total * numerator`, whenever the required side `total * numerator` fits in
/// a `u32`.
pub proof fn lemma_threshold_is_exact_without_overflow(votes: u32, total: u32, numerator: u32, denominator: u32)
    requires
        total * numerator <= u32::MAX,
    ensures
        reaches_threshold(votes, total, numerator, denominator) <==> votes * denominator >= total
            * numerator,
{
}

/// Admission and suspension are each judged by their own stored fraction:
/// with the approval threshold stored as `n / d`, a proposal with `votes`
/// yes votes and a snapshot of `total` members is approved exactly when
/// `votes * d >= total * n`; with the suspension threshold stored as `n / d`,
/// `votes` approvals among `total` other members suspend exactly when
/// `votes * d >= total * n` (while `total * n` fits in a `u32`).
pub proof fn lemma_decisions_use_their_own_threshold(p: Pallet, votes: u32, total: u32, n: u32, d: u32)
    requires
        total * n <= u32::MAX,
    ensures
        p.membership_approval_numerator == Some(n) && p.membership_approval_denominator == Some(d)
            ==> (p.approves(votes, total) <==> votes * d >= total * n),
        p.suspension_numerator == Some(n) && p.suspension_denominator == Some(d) ==> (
        reaches_threshold(votes, total, p.spec_suspension_numerator(), p.spec_suspension_denominator())
            <==> votes * d >= total * n),
{
    lemma_threshold_is_exact_without_overflow(votes, total, n, d);
}

impl MembershipGovernance for Pallet {
    open spec fn voting_period_set(
        before: Self,
        after: Self,
        origin: Origin,
        blocks: BlockNumber,
        r: Result<(), DispatchError>,
    ) -> bool {
        Pallet::voting_period_set(before, after, origin, blocks, r)
    }

    open spec fn approval_threshold_set(
        before: Self,
        after: Self,
        origin: Origin,
        numerator: u32,
        denominator: u32,
        r: Result<(), DispatchError>,
    ) -> bool {
        Pallet::approval_threshold_set(before, after, origin, numerator, denominator, r)
    }

    open spec fn suspension_threshold_set(
        before: Self,
        after: Self,
        origin: Origin,
        numerator: u32,
        denominator: u32,
        r: Result<(), DispatchError>,
    ) -> bool {
        Pallet::suspension_threshold_set(before, after, origin, numerator, denominator, r)
    }

    fn set_voting_period(&mut self, origin: Origin, blocks: BlockNumber) -> (r: Result<(), DispatchError>) {
        self.set_membership_voting_period(origin, blocks)
    }

    fn set_approval_threshold(&mut self, origin: Origin, numerator: u32, denominator: u32) -> (r: Result<
        (),
        DispatchError,
    >) {
        self.set_membership_approval_threshold(origin, numerator, denominator)
    }

    fn set_suspension_threshold(&mut self, origin: Origin, numerator: u32, denominator: u32) -> (r: Result<
        (),
        DispatchError,
    >) {
        Pallet::set_suspension_threshold(self, origin, numerator, denominator)
    }
}

} // verus!
