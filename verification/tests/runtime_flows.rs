use gaia::membership::{
    self, ChainProfile, MemberName, MemberStatus, MembershipChecker, MembershipProposalStatus,
};
use gaia::primitives::{DispatchError, Origin};
use gaia::proposals::{self, GovernanceAction, ProposalClass, ProposalDescription, ProposalStatus, ProposalTitle};
use gaia::runtime::{MembershipAdapter, Runtime};
use gaia::treasury;

fn alice() -> u64 {
    1
}
fn bob() -> u64 {
    2
}
fn charlie() -> u64 {
    3
}
fn dave() -> u64 {
    4
}
fn eve() -> u64 {
    5
}
fn ferdie() -> u64 {
    6
}

fn bounded_name(name: &[u8]) -> MemberName {
    MemberName::try_from_slice(name).expect("name fits")
}

fn bounded_title(s: &[u8]) -> ProposalTitle {
    ProposalTitle::try_from_slice(s).expect("title fits")
}

fn bounded_desc(s: &[u8]) -> ProposalDescription {
    ProposalDescription::try_from_slice(s).expect("description fits")
}

fn signed(who: u64) -> Origin {
    Origin::Signed(who)
}

fn treasury_account() -> u64 {
    treasury::Pallet::account_id()
}

/// Genesis with a custom set of initial members, at block 1. Every listed
/// account plus Dave, Eve and Ferdie holds a large free balance; the
/// treasury's sovereign account is seeded too.
fn new_test_ext_with_members(members: &[(u64, &[u8])]) -> Runtime {
    let initial_members = members.iter().map(|(id, name)| (*id, bounded_name(name))).collect();
    let mut accounts: std::collections::BTreeSet<u64> = members.iter().map(|(id, _)| *id).collect();
    for extra in [dave(), eve(), ferdie()] {
        accounts.insert(extra);
    }
    let mut balances: Vec<(u64, u128)> = accounts.into_iter().map(|id| (id, 1u128 << 60)).collect();
    balances.push((treasury_account(), 1_000_000_000_000));
    let mut rt = Runtime::genesis(initial_members, balances, ChainProfile::Standard);
    rt.set_block_number(1);
    rt
}

/// Genesis with Alice, Bob and Charlie as members, at block 1.
fn new_test_ext() -> Runtime {
    new_test_ext_with_members(&[(alice(), b"Alice"), (bob(), b"Bob"), (charlie(), b"Charlie")])
}

fn state(rt: &Runtime) -> String {
    format!("{:?}", rt)
}

fn assert_noop(rt: &mut Runtime, call: impl FnOnce(&mut Runtime) -> Result<(), DispatchError>, expected: DispatchError) {
    let before = state(rt);
    assert_eq!(call(rt), Err(expected));
    assert_eq!(state(rt), before);
}

fn membership_err(e: membership::Error) -> DispatchError {
    DispatchError::Membership(e)
}

fn proposals_err(e: proposals::Error) -> DispatchError {
    DispatchError::Proposals(e)
}

fn treasury_err(e: treasury::Error) -> DispatchError {
    DispatchError::Treasury(e)
}

/// Advance past the treasury proposal voting window so proposals can be tallied.
fn advance_past_voting_period(rt: &mut Runtime) {
    let period = rt.proposals.get_proposal_voting_period();
    rt.advance_blocks(period + 1);
}

/// Advance past the membership proposal voting window so proposals can be finalized.
fn advance_past_membership_voting_period(rt: &mut Runtime) {
    let period = rt.membership.get_membership_voting_period();
    rt.advance_blocks(period + 1);
}

fn deposit_fee(rt: &mut Runtime, who: u64, amount: u128) -> Result<(), DispatchError> {
    rt.treasury.deposit_fee(signed(who), amount)
}

fn propose_member(rt: &mut Runtime, who: u64, candidate: u64, name: &[u8]) -> Result<(), DispatchError> {
    let now = rt.block_number;
    rt.membership.propose_member(signed(who), candidate, bounded_name(name), now)
}

fn vote_on_candidate(rt: &mut Runtime, who: u64, id: u32, approve: bool) -> Result<(), DispatchError> {
    let now = rt.block_number;
    rt.membership.vote_on_candidate(signed(who), id, approve, now)
}

fn finalize_proposal(rt: &mut Runtime, who: u64, id: u32) -> Result<(), DispatchError> {
    let now = rt.block_number;
    rt.membership.finalize_proposal(signed(who), id, now)
}

fn suspend_self(rt: &mut Runtime, who: u64) -> Result<(), DispatchError> {
    rt.membership.suspend_self(signed(who))
}

fn vote_suspend_member(rt: &mut Runtime, who: u64, target: u64, approve: bool) -> Result<(), DispatchError> {
    rt.membership.vote_suspend_member(signed(who), target, approve)
}

fn submit_proposal(
    rt: &mut Runtime,
    who: u64,
    title: &[u8],
    desc: &[u8],
    class: ProposalClass,
    action: GovernanceAction,
) -> Result<(), DispatchError> {
    let now = rt.block_number;
    let adapter = MembershipAdapter { membership: &rt.membership };
    rt.proposals.submit_proposal(&adapter, signed(who), bounded_title(title), bounded_desc(desc), class, action, now)
}

fn submit_disbursement(rt: &mut Runtime, who: u64, title: &[u8], desc: &[u8], amount: u128) -> Result<(), DispatchError> {
    submit_proposal(
        rt,
        who,
        title,
        desc,
        ProposalClass::Standard,
        GovernanceAction::DisburseToAccount { recipient: who, amount },
    )
}

fn vote_on_proposal(rt: &mut Runtime, who: u64, id: u32, approve: bool) -> Result<(), DispatchError> {
    let now = rt.block_number;
    let adapter = MembershipAdapter { membership: &rt.membership };
    rt.proposals.vote_on_proposal(&adapter, signed(who), id, approve, now)
}

fn tally_proposal(rt: &mut Runtime, who: u64, id: u32) -> Result<(), DispatchError> {
    let now = rt.block_number;
    rt.proposals.tally_proposal(signed(who), id, now)
}

fn execute_proposal(rt: &mut Runtime, who: u64, id: u32) -> Result<(), DispatchError> {
    let now = rt.block_number;
    rt.proposals.execute_proposal(&mut rt.treasury, &mut rt.membership, signed(who), id, now)
}

/// Submit a minimal treasury spending proposal from Alice (100 to Alice) and return its id.
fn submit_default_proposal(rt: &mut Runtime) -> u32 {
    assert_eq!(submit_disbursement(rt, alice(), b"t", b"d", 100), Ok(()));
    rt.proposals.proposal_count
}

/// Submit a membership proposal and return its id.
fn submit_membership_proposal(rt: &mut Runtime, signer: u64, candidate: u64, name: &[u8]) -> u32 {
    assert_eq!(propose_member(rt, signer, candidate, name), Ok(()));
    rt.membership.membership_proposal_count
}

/// Admit a candidate via membership proposal approval in the default 3-member genesis.
fn admit_candidate(rt: &mut Runtime, candidate: u64, name: &[u8]) -> u32 {
    let proposal_id = submit_membership_proposal(rt, alice(), candidate, name);
    for voter in [alice(), bob(), charlie()] {
        assert_eq!(vote_on_candidate(rt, voter, proposal_id, true), Ok(()));
    }
    proposal_id
}

fn member_status(rt: &Runtime, who: u64) -> Option<MemberStatus> {
    rt.membership.members.get(&who).map(|r| r.status)
}

fn membership_status(rt: &Runtime, id: u32) -> MembershipProposalStatus {
    rt.membership.membership_proposals.get(&id).unwrap().status
}

fn proposal_status(rt: &Runtime, id: u32) -> ProposalStatus {
    rt.proposals.proposals.get(&id).unwrap().status
}

fn approve_default_proposal(rt: &mut Runtime) -> u32 {
    let id = submit_default_proposal(rt);
    assert_eq!(vote_on_proposal(rt, alice(), id, true), Ok(()));
    assert_eq!(vote_on_proposal(rt, bob(), id, true), Ok(()));
    advance_past_voting_period(rt);
    assert_eq!(tally_proposal(rt, alice(), id), Ok(()));
    id
}

// ---------------------------------------------------------------------------
// Genesis
// ---------------------------------------------------------------------------

#[test]
fn genesis_seeds_initial_members() {
    let rt = new_test_ext();
    assert!(<membership::Pallet as MembershipChecker>::is_active_member(&rt.membership, &alice()));
    assert!(<membership::Pallet as MembershipChecker>::is_active_member(&rt.membership, &bob()));
    assert!(<membership::Pallet as MembershipChecker>::is_active_member(&rt.membership, &charlie()));
    assert_eq!(rt.membership.active_member_count, 3);
}

#[test]
fn membership_genesis_seeds_three_active_members() {
    let rt = new_test_ext();
    assert_eq!(rt.membership.active_member_count, 3);
    for who in [alice(), bob(), charlie()] {
        let record = rt.membership.members.get(&who).expect("member exists");
        assert_eq!(record.status, MemberStatus::Active);
    }
    assert!(!rt.membership.members.contains_key(&dave()));
}

// ---------------------------------------------------------------------------
// Membership proposal lifecycle
// ---------------------------------------------------------------------------

#[test]
fn propose_and_admit_new_member() {
    let mut rt = new_test_ext();
    let proposal_id = submit_membership_proposal(&mut rt, alice(), dave(), b"Dave");

    // 3 active → 80% threshold → need 3 approvals
    assert_eq!(vote_on_candidate(&mut rt, alice(), proposal_id, true), Ok(()));
    assert_eq!(vote_on_candidate(&mut rt, bob(), proposal_id, true), Ok(()));
    assert_eq!(vote_on_candidate(&mut rt, charlie(), proposal_id, true), Ok(()));

    assert_eq!(member_status(&rt, dave()), Some(MemberStatus::Active));
    assert_eq!(rt.membership.active_member_count, 4);
    assert_eq!(membership_status(&rt, proposal_id), MembershipProposalStatus::Approved);
    assert_eq!(rt.membership.active_proposal_by_candidate.get(&dave()), None);
}

#[test]
fn membership_proposal_rejected_after_deadline_when_below_threshold() {
    let mut rt = new_test_ext();
    let proposal_id = submit_membership_proposal(&mut rt, alice(), dave(), b"Dave");

    // 2/3 yes, below threshold.
    assert_eq!(vote_on_candidate(&mut rt, alice(), proposal_id, true), Ok(()));
    assert_eq!(vote_on_candidate(&mut rt, bob(), proposal_id, true), Ok(()));
    assert_eq!(vote_on_candidate(&mut rt, charlie(), proposal_id, false), Ok(()));

    advance_past_membership_voting_period(&mut rt);
    assert_eq!(finalize_proposal(&mut rt, alice(), proposal_id), Ok(()));

    assert!(!rt.membership.members.contains_key(&dave()));
    assert_eq!(membership_status(&rt, proposal_id), MembershipProposalStatus::Rejected);
    assert_eq!(rt.membership.active_proposal_by_candidate.get(&dave()), None);
}

#[test]
fn finalize_requires_active_member() {
    let mut rt = new_test_ext();
    let proposal_id = submit_membership_proposal(&mut rt, alice(), dave(), b"Dave");
    advance_past_membership_voting_period(&mut rt);
    assert_noop(
        &mut rt,
        |rt| finalize_proposal(rt, dave(), proposal_id),
        membership_err(membership::Error::NotActiveMember),
    );
}

#[test]
fn finalize_before_deadline_fails() {
    let mut rt = new_test_ext();
    let proposal_id = submit_membership_proposal(&mut rt, alice(), dave(), b"Dave");
    assert_noop(
        &mut rt,
        |rt| finalize_proposal(rt, alice(), proposal_id),
        membership_err(membership::Error::VotingStillOpen),
    );
}

#[test]
fn threshold_uses_submit_time_snapshot() {
    let mut rt = new_test_ext();
    let proposal_id = submit_membership_proposal(&mut rt, alice(), dave(), b"Dave");

    // Snapshot is 3. Two yes votes do not satisfy 80%.
    assert_eq!(vote_on_candidate(&mut rt, alice(), proposal_id, true), Ok(()));
    assert_eq!(vote_on_candidate(&mut rt, bob(), proposal_id, true), Ok(()));

    // Live active member count drops to 2, but snapshot should still apply.
    assert_eq!(suspend_self(&mut rt, charlie()), Ok(()));
    assert_eq!(rt.membership.active_member_count, 2);

    advance_past_membership_voting_period(&mut rt);
    assert_eq!(finalize_proposal(&mut rt, alice(), proposal_id), Ok(()));

    assert!(!rt.membership.members.contains_key(&dave()));
    assert_eq!(membership_status(&rt, proposal_id), MembershipProposalStatus::Rejected);
}

#[test]
fn one_active_membership_proposal_per_candidate() {
    let mut rt = new_test_ext();
    let _id = submit_membership_proposal(&mut rt, alice(), dave(), b"Dave");
    assert_noop(
        &mut rt,
        |rt| propose_member(rt, bob(), dave(), b"Dave"),
        membership_err(membership::Error::CandidateAlreadyProposed),
    );
}

#[test]
fn can_repropose_after_rejection() {
    let mut rt = new_test_ext();
    let first = submit_membership_proposal(&mut rt, alice(), dave(), b"Dave");
    assert_eq!(vote_on_candidate(&mut rt, alice(), first, false), Ok(()));

    advance_past_membership_voting_period(&mut rt);
    assert_eq!(finalize_proposal(&mut rt, bob(), first), Ok(()));

    let second = submit_membership_proposal(&mut rt, alice(), dave(), b"Dave-v2");
    assert!(second > first);
}

#[test]
fn non_member_cannot_propose_candidate() {
    let mut rt = new_test_ext();
    assert_noop(
        &mut rt,
        |rt| propose_member(rt, dave(), eve(), b"Eve"),
        membership_err(membership::Error::NotActiveMember),
    );
}

#[test]
fn propose_existing_member_fails() {
    let mut rt = new_test_ext();
    assert_noop(
        &mut rt,
        |rt| propose_member(rt, alice(), bob(), b"Bob"),
        membership_err(membership::Error::AlreadyMember),
    );
}

#[test]
fn double_vote_on_candidate_fails() {
    let mut rt = new_test_ext();
    let proposal_id = submit_membership_proposal(&mut rt, alice(), dave(), b"Dave");
    assert_eq!(vote_on_candidate(&mut rt, alice(), proposal_id, true), Ok(()));
    assert_noop(
        &mut rt,
        |rt| vote_on_candidate(rt, alice(), proposal_id, true),
        membership_err(membership::Error::AlreadyVoted),
    );
}

// ---------------------------------------------------------------------------
// Suspension
// ---------------------------------------------------------------------------

#[test]
fn self_suspension_decrements_count() {
    let mut rt = new_test_ext();
    assert_eq!(suspend_self(&mut rt, alice()), Ok(()));
    assert_eq!(member_status(&rt, alice()), Some(MemberStatus::Suspended));
    assert_eq!(rt.membership.active_member_count, 2);
}

#[test]
fn double_self_suspension_fails() {
    let mut rt = new_test_ext();
    assert_eq!(suspend_self(&mut rt, alice()), Ok(()));
    assert_noop(&mut rt, |rt| suspend_self(rt, alice()), membership_err(membership::Error::AlreadySuspended));
}

#[test]
fn non_member_cannot_self_suspend() {
    let mut rt = new_test_ext();
    assert_noop(&mut rt, |rt| suspend_self(rt, dave()), membership_err(membership::Error::NotActiveMember));
}

#[test]
fn peer_vote_suspension_requires_unanimity() {
    let mut rt = new_test_ext();
    // One vote is not enough
    assert_eq!(vote_suspend_member(&mut rt, bob(), alice(), true), Ok(()));
    assert_eq!(member_status(&rt, alice()), Some(MemberStatus::Active));

    // Second vote meets unanimity (all others = 2)
    assert_eq!(vote_suspend_member(&mut rt, charlie(), alice(), true), Ok(()));
    assert_eq!(member_status(&rt, alice()), Some(MemberStatus::Suspended));
    assert_eq!(rt.membership.active_member_count, 2);
}

#[test]
fn cannot_cast_suspension_vote_against_self() {
    let mut rt = new_test_ext();
    assert_noop(
        &mut rt,
        |rt| vote_suspend_member(rt, alice(), alice(), true),
        membership_err(membership::Error::CannotSuspendSelf),
    );
}

#[test]
fn suspended_member_cannot_vote_on_membership_proposal() {
    let mut rt = new_test_ext();
    let proposal_id = submit_membership_proposal(&mut rt, bob(), dave(), b"Dave");
    assert_eq!(suspend_self(&mut rt, alice()), Ok(()));
    assert_noop(
        &mut rt,
        |rt| vote_on_candidate(rt, alice(), proposal_id, true),
        membership_err(membership::Error::MemberSuspended),
    );
}

#[test]
fn suspended_member_cannot_propose_candidate() {
    let mut rt = new_test_ext();
    assert_eq!(suspend_self(&mut rt, alice()), Ok(()));
    assert_noop(
        &mut rt,
        |rt| propose_member(rt, alice(), dave(), b"Dave"),
        membership_err(membership::Error::MemberSuspended),
    );
}

// ---------------------------------------------------------------------------
// Edge cases
// ---------------------------------------------------------------------------

#[test]
fn single_member_genesis_admits_candidate() {
    let mut rt = new_test_ext_with_members(&[(alice(), b"Alice")]);
    assert_eq!(rt.membership.active_member_count, 1);

    let proposal_id = submit_membership_proposal(&mut rt, alice(), dave(), b"Dave");
    assert_eq!(vote_on_candidate(&mut rt, alice(), proposal_id, true), Ok(()));

    assert_eq!(member_status(&rt, dave()), Some(MemberStatus::Active));
    assert_eq!(rt.membership.active_member_count, 2);
}

#[test]
fn threshold_boundary_with_five_members() {
    let mut rt = new_test_ext();
    // Admit Dave and Eve to reach five active members.
    let dave_proposal = admit_candidate(&mut rt, dave(), b"Dave");
    assert_eq!(membership_status(&rt, dave_proposal), MembershipProposalStatus::Approved);
    let eve_proposal = submit_membership_proposal(&mut rt, alice(), eve(), b"Eve");
    for voter in [alice(), bob(), charlie(), dave()] {
        assert_eq!(vote_on_candidate(&mut rt, voter, eve_proposal, true), Ok(()));
    }
    assert_eq!(membership_status(&rt, eve_proposal), MembershipProposalStatus::Approved);
    assert_eq!(rt.membership.active_member_count, 5);

    // 3 yes votes out of 5 should not approve.
    let ferdie_proposal = submit_membership_proposal(&mut rt, alice(), ferdie(), b"Ferdie");
    for voter in [alice(), bob(), charlie()] {
        assert_eq!(vote_on_candidate(&mut rt, voter, ferdie_proposal, true), Ok(()));
    }
    assert!(!rt.membership.members.contains_key(&ferdie()));

    // 4th yes vote reaches threshold.
    assert_eq!(vote_on_candidate(&mut rt, dave(), ferdie_proposal, true), Ok(()));
    assert_eq!(member_status(&rt, ferdie()), Some(MemberStatus::Active));
    assert_eq!(rt.membership.active_member_count, 6);
}

// ---------------------------------------------------------------------------
// Treasury proposals: full lifecycle
// ---------------------------------------------------------------------------

/// Executing an approved disbursement pays the recipient from the
/// treasury's sovereign account and lowers the ledger by the same amount.
#[test]
fn full_proposal_lifecycle() {
    let mut rt = new_test_ext();
    assert_eq!(deposit_fee(&mut rt, alice(), 500), Ok(()));
    let id = submit_default_proposal(&mut rt);
    assert_eq!(vote_on_proposal(&mut rt, alice(), id, true), Ok(()));
    assert_eq!(vote_on_proposal(&mut rt, bob(), id, true), Ok(()));
    advance_past_voting_period(&mut rt);
    assert_eq!(tally_proposal(&mut rt, alice(), id), Ok(()));
    let before_treasury = rt.treasury.currency.free_balance(treasury_account());
    let before_organizer = rt.treasury.currency.free_balance(alice());
    let before_ledger = rt.treasury.balance();
    assert_eq!(execute_proposal(&mut rt, alice(), id), Ok(()));
    assert_eq!(rt.treasury.currency.free_balance(treasury_account()), before_treasury - 100);
    assert_eq!(rt.treasury.currency.free_balance(alice()), before_organizer + 100);
    assert_eq!(rt.treasury.balance(), before_ledger - 100);
    assert_eq!(
        rt.treasury.last_event(),
        Some(treasury::Event::Disbursed { to: alice(), amount: 100, new_balance: 400 })
    );
    assert_eq!(proposal_status(&rt, id), ProposalStatus::Executed);
}

#[test]
fn non_member_cannot_submit_proposal() {
    let mut rt = new_test_ext();
    assert_noop(
        &mut rt,
        |rt| {
            submit_proposal(
                rt,
                dave(),
                b"t",
                b"d",
                ProposalClass::Standard,
                GovernanceAction::DisburseToAccount { recipient: dave(), amount: 100 },
            )
        },
        proposals_err(proposals::Error::NotActiveMember),
    );
}

#[test]
fn double_vote_on_proposal_fails() {
    let mut rt = new_test_ext();
    let id = submit_default_proposal(&mut rt);
    assert_eq!(vote_on_proposal(&mut rt, alice(), id, true), Ok(()));
    assert_noop(&mut rt, |rt| vote_on_proposal(rt, alice(), id, true), proposals_err(proposals::Error::AlreadyVoted));
}

#[test]
fn vote_after_window_closes_fails() {
    let mut rt = new_test_ext();
    let id = submit_default_proposal(&mut rt);
    advance_past_voting_period(&mut rt);
    assert_noop(&mut rt, |rt| vote_on_proposal(rt, alice(), id, true), proposals_err(proposals::Error::VotingClosed));
}

#[test]
fn proposal_rejected_when_no_majority() {
    let mut rt = new_test_ext();
    let id = submit_default_proposal(&mut rt);
    assert_eq!(vote_on_proposal(&mut rt, alice(), id, false), Ok(()));
    advance_past_voting_period(&mut rt);
    assert_eq!(tally_proposal(&mut rt, alice(), id), Ok(()));
    assert_eq!(proposal_status(&rt, id), ProposalStatus::Rejected);
}

/// yes == no is rejected: a simple majority requires more yes than no votes.
#[test]
fn tally_rejects_when_tie_vote() {
    let mut rt = new_test_ext();
    let id = submit_default_proposal(&mut rt);
    assert_eq!(vote_on_proposal(&mut rt, alice(), id, true), Ok(()));
    assert_eq!(vote_on_proposal(&mut rt, bob(), id, false), Ok(()));
    advance_past_voting_period(&mut rt);
    assert_eq!(tally_proposal(&mut rt, charlie(), id), Ok(()));
    assert_eq!(rt.proposals.vote_counts(id), (1, 1));
    assert_eq!(proposal_status(&rt, id), ProposalStatus::Rejected);
}

/// A proposal that nobody voted on has no majority and is rejected.
#[test]
fn tally_rejects_without_votes() {
    let mut rt = new_test_ext();
    let id = submit_default_proposal(&mut rt);
    advance_past_voting_period(&mut rt);
    assert_eq!(tally_proposal(&mut rt, dave(), id), Ok(()));
    assert_eq!(proposal_status(&rt, id), ProposalStatus::Rejected);
}

#[test]
fn tally_fails_while_voting_open() {
    let mut rt = new_test_ext();
    let id = submit_default_proposal(&mut rt);
    assert_noop(&mut rt, |rt| tally_proposal(rt, alice(), id), proposals_err(proposals::Error::VotingStillOpen));
}

#[test]
fn tally_fails_for_already_tallied_proposal() {
    let mut rt = new_test_ext();
    let id = submit_default_proposal(&mut rt);
    assert_eq!(vote_on_proposal(&mut rt, alice(), id, true), Ok(()));
    advance_past_voting_period(&mut rt);
    assert_eq!(tally_proposal(&mut rt, alice(), id), Ok(()));
    assert_noop(&mut rt, |rt| tally_proposal(rt, alice(), id), proposals_err(proposals::Error::ProposalNotActive));
}

#[test]
fn execute_allowed_for_non_organizer() {
    let mut rt = new_test_ext();
    assert_eq!(deposit_fee(&mut rt, alice(), 500), Ok(()));
    let id = approve_default_proposal(&mut rt);
    assert_eq!(execute_proposal(&mut rt, bob(), id), Ok(()));
}

#[test]
fn execute_fails_for_rejected_proposal() {
    let mut rt = new_test_ext();
    let id = submit_default_proposal(&mut rt);
    assert_eq!(vote_on_proposal(&mut rt, alice(), id, false), Ok(()));
    advance_past_voting_period(&mut rt);
    assert_eq!(tally_proposal(&mut rt, alice(), id), Ok(()));
    assert_noop(&mut rt, |rt| execute_proposal(rt, alice(), id), proposals_err(proposals::Error::ProposalNotApproved));
}

#[test]
fn execute_fails_when_treasury_insufficient() {
    let mut rt = new_test_ext();
    let id = approve_default_proposal(&mut rt);
    assert_noop(&mut rt, |rt| execute_proposal(rt, alice(), id), treasury_err(treasury::Error::InsufficientFunds));
    // Status must remain Approved — not Executed
    assert_eq!(proposal_status(&rt, id), ProposalStatus::Approved);
}

#[test]
fn double_execution_fails() {
    let mut rt = new_test_ext();
    assert_eq!(deposit_fee(&mut rt, alice(), 500), Ok(()));
    let id = approve_default_proposal(&mut rt);
    assert_eq!(execute_proposal(&mut rt, alice(), id), Ok(()));
    assert_noop(
        &mut rt,
        |rt| execute_proposal(rt, alice(), id),
        proposals_err(proposals::Error::ProposalAlreadyExecuted),
    );
}

#[test]
fn execute_active_proposal_fails() {
    let mut rt = new_test_ext();
    let id = submit_default_proposal(&mut rt);
    assert_noop(&mut rt, |rt| execute_proposal(rt, alice(), id), proposals_err(proposals::Error::ProposalNotApproved));
}

/// Two proposals submitted by different organisers proceed independently.
#[test]
fn concurrent_proposals_independent_voting() {
    let mut rt = new_test_ext();
    assert_eq!(deposit_fee(&mut rt, alice(), 1_000), Ok(()));

    let id1 = submit_default_proposal(&mut rt);
    assert_eq!(submit_disbursement(&mut rt, bob(), b"Second", b"Another proposal", 200), Ok(()));
    let id2 = rt.proposals.proposal_count;

    assert_eq!(vote_on_proposal(&mut rt, alice(), id1, true), Ok(()));
    assert_eq!(vote_on_proposal(&mut rt, bob(), id1, true), Ok(()));
    assert_eq!(vote_on_proposal(&mut rt, alice(), id2, false), Ok(()));
    assert_eq!(vote_on_proposal(&mut rt, bob(), id2, false), Ok(()));

    advance_past_voting_period(&mut rt);

    assert_eq!(tally_proposal(&mut rt, alice(), id1), Ok(()));
    assert_eq!(tally_proposal(&mut rt, alice(), id2), Ok(()));

    assert_eq!(proposal_status(&rt, id1), ProposalStatus::Approved);
    assert_eq!(proposal_status(&rt, id2), ProposalStatus::Rejected);
}

/// Two approved proposals compete for the same treasury funds.
#[test]
fn concurrent_proposals_exhaust_treasury() {
    let mut rt = new_test_ext();
    assert_eq!(deposit_fee(&mut rt, alice(), 150), Ok(()));

    let id1 = submit_default_proposal(&mut rt);
    assert_eq!(submit_disbursement(&mut rt, bob(), b"Second", b"Another", 100), Ok(()));
    let id2 = rt.proposals.proposal_count;

    for id in [id1, id2] {
        assert_eq!(vote_on_proposal(&mut rt, alice(), id, true), Ok(()));
        assert_eq!(vote_on_proposal(&mut rt, bob(), id, true), Ok(()));
    }

    advance_past_voting_period(&mut rt);

    assert_eq!(tally_proposal(&mut rt, alice(), id1), Ok(()));
    assert_eq!(tally_proposal(&mut rt, alice(), id2), Ok(()));

    // Execute first — succeeds (treasury: 150 → 50)
    assert_eq!(execute_proposal(&mut rt, alice(), id1), Ok(()));

    // Execute second — fails (treasury: 50 < 100)
    assert_noop(&mut rt, |rt| execute_proposal(rt, bob(), id2), treasury_err(treasury::Error::InsufficientFunds));
}

#[test]
fn zero_amount_proposal_execution_fails() {
    let mut rt = new_test_ext();
    assert_eq!(submit_disbursement(&mut rt, alice(), b"Free event", b"No cost", 0), Ok(()));
    let id = rt.proposals.proposal_count;

    assert_eq!(vote_on_proposal(&mut rt, alice(), id, true), Ok(()));
    assert_eq!(vote_on_proposal(&mut rt, bob(), id, true), Ok(()));

    advance_past_voting_period(&mut rt);

    assert_eq!(tally_proposal(&mut rt, alice(), id), Ok(()));

    // Execution fails — treasury rejects zero-amount disbursements.
    assert_noop(&mut rt, |rt| execute_proposal(rt, alice(), id), treasury_err(treasury::Error::ZeroAmount));
}

#[test]
fn proposal_approved_at_exact_majority() {
    let mut rt = new_test_ext();
    assert_eq!(deposit_fee(&mut rt, alice(), 500), Ok(()));
    let id = submit_default_proposal(&mut rt);

    assert_eq!(vote_on_proposal(&mut rt, alice(), id, true), Ok(()));
    assert_eq!(vote_on_proposal(&mut rt, bob(), id, true), Ok(()));
    assert_eq!(vote_on_proposal(&mut rt, charlie(), id, false), Ok(()));

    advance_past_voting_period(&mut rt);

    assert_eq!(tally_proposal(&mut rt, alice(), id), Ok(()));
    assert_eq!(proposal_status(&rt, id), ProposalStatus::Approved);
}

/// `tally_proposal` only requires a signed origin — no membership check.
#[test]
fn non_member_can_tally_proposal() {
    let mut rt = new_test_ext();
    let id = submit_default_proposal(&mut rt);
    assert_eq!(vote_on_proposal(&mut rt, alice(), id, true), Ok(()));

    advance_past_voting_period(&mut rt);

    assert_eq!(tally_proposal(&mut rt, dave(), id), Ok(()));
    assert_eq!(proposal_status(&rt, id), ProposalStatus::Approved);
}

/// Proposal vote storage is not cleaned up after execution.
#[test]
fn vote_storage_persists_after_execution() {
    let mut rt = new_test_ext();
    assert_eq!(deposit_fee(&mut rt, alice(), 500), Ok(()));
    let id = submit_default_proposal(&mut rt);

    assert_eq!(vote_on_proposal(&mut rt, alice(), id, true), Ok(()));
    assert_eq!(vote_on_proposal(&mut rt, bob(), id, false), Ok(()));
    assert_eq!(vote_on_proposal(&mut rt, charlie(), id, true), Ok(()));

    advance_past_voting_period(&mut rt);
    assert_eq!(tally_proposal(&mut rt, alice(), id), Ok(()));
    assert_eq!(execute_proposal(&mut rt, alice(), id), Ok(()));

    assert!(rt.proposals.proposal_votes.contains_key(&(id, alice())));
    assert!(rt.proposals.proposal_votes.contains_key(&(id, bob())));
    assert!(rt.proposals.proposal_votes.contains_key(&(id, charlie())));
    assert_eq!(rt.proposals.proposal_yes_count.get(&id).copied(), Some(2));
    assert_eq!(rt.proposals.proposal_no_count.get(&id).copied(), Some(1));
}

// ---------------------------------------------------------------------------
// Treasury
// ---------------------------------------------------------------------------

/// The treasury's sovereign account holds funds from genesis, and the
/// presets seed it too; the ledger starts empty.
#[test]
fn treasury_funded_at_genesis() {
    let rt = new_test_ext();
    assert!(rt.treasury.currency.free_balance(treasury_account()) > 0);
    assert_eq!(rt.treasury.account_balance(), 1_000_000_000_000);
    assert_eq!(rt.treasury.balance(), 0);
    let dev = gaia::genesis_presets::development_config_genesis();
    assert!(dev
        .balances
        .iter()
        .any(|(account, balance)| *account == gaia::genesis_presets::GenesisAccount::Treasury && *balance > 0));
}

/// A deposit moves real tokens from the depositor to the treasury's
/// sovereign account, and the ledger records them.
#[test]
fn deposit_fee_transfers_real_tokens() {
    let mut rt = new_test_ext();
    let treasury = treasury_account();
    let before_user = rt.treasury.currency.free_balance(alice());
    let before_treasury = rt.treasury.currency.free_balance(treasury);
    assert_eq!(deposit_fee(&mut rt, alice(), 100), Ok(()));
    assert_eq!(rt.treasury.currency.free_balance(alice()), before_user - 100);
    assert_eq!(rt.treasury.currency.free_balance(treasury), before_treasury + 100);
    assert_eq!(rt.treasury.treasury_balance, 100);
    assert_eq!(
        rt.treasury.last_event(),
        Some(treasury::Event::FeeDeposited { from: alice(), amount: 100, new_balance: 100 })
    );
}

/// A deposit larger than the depositor's free balance is refused and
/// changes nothing.
#[test]
fn deposit_fee_refused_without_funds() {
    let mut rt = new_test_ext();
    let stranger = 99;
    assert_noop(
        &mut rt,
        |rt| deposit_fee(rt, stranger, 1),
        DispatchError::Token(gaia::primitives::TokenError::FundsUnavailable),
    );
    let all = rt.treasury.currency.free_balance(alice());
    assert_noop(
        &mut rt,
        |rt| deposit_fee(rt, alice(), all + 1),
        DispatchError::Token(gaia::primitives::TokenError::FundsUnavailable),
    );
    assert_eq!(deposit_fee(&mut rt, alice(), all), Ok(()));
    assert_eq!(rt.treasury.currency.free_balance(alice()), 0);
}

/// A root disbursement pays the recipient from the sovereign account.
#[test]
fn disburse_pays_recipient() {
    let mut rt = new_test_ext();
    assert_eq!(deposit_fee(&mut rt, alice(), 100), Ok(()));
    let before_bob = rt.treasury.currency.free_balance(bob());
    let before_treasury = rt.treasury.account_balance();
    assert_eq!(rt.treasury.disburse(Origin::Root, bob(), 40), Ok(()));
    assert_eq!(rt.treasury.currency.free_balance(bob()), before_bob + 40);
    assert_eq!(rt.treasury.account_balance(), before_treasury - 40);
    assert_eq!(rt.treasury.balance(), 60);
}

#[test]
fn disburse_requires_root() {
    let mut rt = new_test_ext();
    assert_eq!(deposit_fee(&mut rt, alice(), 100), Ok(()));
    assert_noop(&mut rt, |rt| rt.treasury.disburse(signed(alice()), bob(), 10), DispatchError::BadOrigin);
    assert_eq!(rt.treasury.disburse(Origin::Root, bob(), 10), Ok(()));
}

// ---------------------------------------------------------------------------
// Cross-pallet
// ---------------------------------------------------------------------------

#[test]
fn only_active_members_can_vote_on_proposals() {
    let mut rt = new_test_ext();
    let id = submit_default_proposal(&mut rt);
    // Non-member cannot vote
    assert_noop(&mut rt, |rt| vote_on_proposal(rt, dave(), id, true), proposals_err(proposals::Error::NotActiveMember));
    // Suspended member cannot vote
    assert_eq!(suspend_self(&mut rt, bob()), Ok(()));
    assert_noop(&mut rt, |rt| vote_on_proposal(rt, bob(), id, true), proposals_err(proposals::Error::NotActiveMember));
}

#[test]
fn proposal_executes_at_most_once() {
    let mut rt = new_test_ext();
    assert_eq!(deposit_fee(&mut rt, alice(), 500), Ok(()));
    let id = approve_default_proposal(&mut rt);
    assert_eq!(execute_proposal(&mut rt, alice(), id), Ok(()));
    assert_noop(
        &mut rt,
        |rt| execute_proposal(rt, alice(), id),
        proposals_err(proposals::Error::ProposalAlreadyExecuted),
    );
}

#[test]
fn suspended_member_cannot_submit_proposal() {
    let mut rt = new_test_ext();
    assert_eq!(suspend_self(&mut rt, alice()), Ok(()));
    assert_noop(
        &mut rt,
        |rt| submit_disbursement(rt, alice(), b"t", b"d", 100),
        proposals_err(proposals::Error::NotActiveMember),
    );
}

#[test]
fn suspension_during_voting_period() {
    let mut rt = new_test_ext();
    assert_eq!(deposit_fee(&mut rt, alice(), 500), Ok(()));
    let id = submit_default_proposal(&mut rt);
    // Bob votes yes then suspends — vote already cast, still counts
    assert_eq!(vote_on_proposal(&mut rt, bob(), id, true), Ok(()));
    assert_eq!(suspend_self(&mut rt, bob()), Ok(()));
    assert_eq!(vote_on_proposal(&mut rt, alice(), id, true), Ok(()));
    advance_past_voting_period(&mut rt);
    assert_eq!(tally_proposal(&mut rt, alice(), id), Ok(()));
    assert_eq!(execute_proposal(&mut rt, alice(), id), Ok(()));
}

#[test]
fn newly_admitted_member_can_vote_on_proposals() {
    let mut rt = new_test_ext();
    admit_candidate(&mut rt, dave(), b"Dave");
    // Dave is now a member — can vote on a proposal
    let id = submit_default_proposal(&mut rt);
    assert_eq!(vote_on_proposal(&mut rt, dave(), id, true), Ok(()));
}

#[test]
fn newly_admitted_member_can_submit_proposal() {
    let mut rt = new_test_ext();
    admit_candidate(&mut rt, dave(), b"Dave");
    assert_eq!(submit_disbursement(&mut rt, dave(), b"Dave's idea", b"Dave proposes something", 50), Ok(()));
}

#[test]
fn treasury_balance_never_goes_negative_via_proposal() {
    let mut rt = new_test_ext();
    // Fund treasury with less than the proposal amount
    assert_eq!(deposit_fee(&mut rt, alice(), 50), Ok(()));
    let id = approve_default_proposal(&mut rt); // requests 100
    assert_noop(&mut rt, |rt| execute_proposal(rt, alice(), id), treasury_err(treasury::Error::InsufficientFunds));
    // Treasury balance is unchanged
    assert_eq!(rt.treasury.treasury_balance, 50);
}

/// `execute_proposal` does not check membership: a suspended organizer can
/// still execute their approved proposal.
#[test]
fn suspended_organizer_can_execute_approved_proposal() {
    let mut rt = new_test_ext();
    assert_eq!(deposit_fee(&mut rt, alice(), 500), Ok(()));
    let id = submit_default_proposal(&mut rt); // Alice is organizer
    assert_eq!(vote_on_proposal(&mut rt, alice(), id, true), Ok(()));
    assert_eq!(vote_on_proposal(&mut rt, bob(), id, true), Ok(()));
    advance_past_voting_period(&mut rt);
    assert_eq!(tally_proposal(&mut rt, bob(), id), Ok(()));
    // Alice self-suspends AFTER approval
    assert_eq!(suspend_self(&mut rt, alice()), Ok(()));
    assert_eq!(execute_proposal(&mut rt, alice(), id), Ok(()));
    assert_eq!(proposal_status(&rt, id), ProposalStatus::Executed);
}

/// Votes cast before suspension still count, and tally does not require membership.
#[test]
fn tally_succeeds_after_all_voters_suspended() {
    let mut rt = new_test_ext();
    let id = submit_default_proposal(&mut rt);
    assert_eq!(vote_on_proposal(&mut rt, alice(), id, true), Ok(()));
    assert_eq!(vote_on_proposal(&mut rt, bob(), id, true), Ok(()));
    assert_eq!(vote_on_proposal(&mut rt, charlie(), id, false), Ok(()));
    // All members self-suspend
    assert_eq!(suspend_self(&mut rt, alice()), Ok(()));
    assert_eq!(suspend_self(&mut rt, bob()), Ok(()));
    assert_eq!(suspend_self(&mut rt, charlie()), Ok(()));
    assert_eq!(rt.membership.active_member_count, 0);
    advance_past_voting_period(&mut rt);
    // Non-member tallies — succeeds (2 yes > 1 no)
    assert_eq!(tally_proposal(&mut rt, dave(), id), Ok(()));
    assert_eq!(proposal_status(&rt, id), ProposalStatus::Approved);
}

/// A freshly admitted member's vote still counts toward tally.
#[test]
fn newly_admitted_member_vote_counts_after_proposer_suspends() {
    let mut rt = new_test_ext();
    assert_eq!(deposit_fee(&mut rt, alice(), 500), Ok(()));
    admit_candidate(&mut rt, dave(), b"Dave");
    let id = submit_default_proposal(&mut rt); // Alice submits
    assert_eq!(vote_on_proposal(&mut rt, dave(), id, true), Ok(()));
    assert_eq!(vote_on_proposal(&mut rt, alice(), id, true), Ok(()));
    // Bob votes no, Charlie abstains (doesn't vote)
    assert_eq!(vote_on_proposal(&mut rt, bob(), id, false), Ok(()));
    assert_eq!(suspend_self(&mut rt, alice()), Ok(()));
    advance_past_voting_period(&mut rt);
    assert_eq!(tally_proposal(&mut rt, charlie(), id), Ok(()));
    // 2 yes > 1 no → Approved
    assert_eq!(proposal_status(&rt, id), ProposalStatus::Approved);
}

// ---------------------------------------------------------------------------
// Further cases of this library
// ---------------------------------------------------------------------------

#[test]
fn governance_proposal_sets_suspension_threshold_through_execution() {
    let mut rt = new_test_ext();
    assert_eq!(
        submit_proposal(
            &mut rt,
            alice(),
            b"Majority suspension",
            b"d",
            ProposalClass::Constitutional,
            GovernanceAction::SetSuspensionThreshold { numerator: 1, denominator: 2 },
        ),
        Ok(())
    );
    let id = rt.proposals.proposal_count;
    for who in [alice(), bob(), charlie()] {
        assert_eq!(vote_on_proposal(&mut rt, who, id, true), Ok(()));
    }
    advance_past_voting_period(&mut rt);
    assert_eq!(tally_proposal(&mut rt, alice(), id), Ok(()));
    assert_eq!(execute_proposal(&mut rt, alice(), id), Ok(()));
    assert_eq!(rt.membership.get_suspension_threshold(), (1, 2));
    // One vote of the two other members now suspends.
    assert_eq!(vote_suspend_member(&mut rt, bob(), alice(), true), Ok(()));
    assert_eq!(member_status(&rt, alice()), Some(MemberStatus::Suspended));
}

#[test]
fn invalid_threshold_action_fails_at_execution_and_changes_nothing() {
    let mut rt = new_test_ext();
    assert_eq!(
        submit_proposal(
            &mut rt,
            alice(),
            b"Bad threshold",
            b"d",
            ProposalClass::Constitutional,
            GovernanceAction::SetMembershipApprovalThreshold { numerator: 3, denominator: 2 },
        ),
        Ok(())
    );
    let id = rt.proposals.proposal_count;
    for who in [alice(), bob(), charlie()] {
        assert_eq!(vote_on_proposal(&mut rt, who, id, true), Ok(()));
    }
    advance_past_voting_period(&mut rt);
    assert_eq!(tally_proposal(&mut rt, alice(), id), Ok(()));
    assert_noop(
        &mut rt,
        |rt| execute_proposal(rt, alice(), id),
        membership_err(membership::Error::InvalidThreshold),
    );
    assert_eq!(proposal_status(&rt, id), ProposalStatus::Approved);
}

#[test]
fn governance_account_is_shared_by_both_governed_pallets() {
    let rt = new_test_ext();
    assert_eq!(rt.membership.governance_account_id(), rt.proposals.governance_account_id());
    // `modl` followed by the first four bytes of `ga/govn0`, little-endian.
    let expected = u64::from_le_bytes([b'm', b'o', b'd', b'l', b'g', b'a', b'/', b'g']);
    assert_eq!(rt.proposals.governance_account_id(), expected);
}
