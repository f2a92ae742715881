//! Runtime wiring of the GAIA pallets: the shared governance pallet id, the
//! adapter through which the proposals pallet checks membership, and the
//! composition of the three pallets, with the balances that the treasury
//! moves funds through, and the chain's block number.
use vstd::prelude::*;

use crate::balances::{distinct_entries, free_in, genesis_free, Balances};
use crate::membership;
use crate::primitives::{AccountId, Balance, BlockNumber, DispatchError, Origin, PalletId};
use crate::proposals;
use crate::treasury;

verus! {

/// The pallet id whose sovereign account is the governance origin of both the
/// proposals and the membership pallet: `ga/govn0`.
pub fn governance_pallet_id() -> (id: PalletId)
    ensures
        id.0@ == seq![0x67u8, 0x61u8, 0x2fu8, 0x67u8, 0x6fu8, 0x76u8, 0x6eu8, 0x30u8],
{
    PalletId([0x67u8, 0x61u8, 0x2fu8, 0x67u8, 0x6fu8, 0x76u8, 0x6eu8, 0x30u8])
}

/// The proposals pallet's view of membership: the membership pallet's active members.
pub struct MembershipAdapter<'a> {
    pub membership: &'a membership::Pallet,
}

impl<'a> proposals::MembershipChecker for MembershipAdapter<'a> {
    open spec fn spec_is_active_member(&self, account: AccountId) -> bool {
        self.membership.is_active(account)
    }

    fn is_active_member(&self, account: &AccountId) -> (r: bool) {
        self.membership.is_active_member(account)
    }
}

/// The GAIA runtime: the current block number and the state of its pallets.
#[derive(Debug)]
pub struct Runtime {
    pub block_number: BlockNumber,
    pub membership: membership::Pallet,
    pub treasury: treasury::Pallet,
    pub proposals: proposals::Pallet,
}

impl Runtime {
    /// The runtime at genesis, at block zero: `initial_members` seeded as
    /// active members, each account of `balances` holding its free balance,
    /// an empty treasury ledger, and the default governance parameters of
    /// `profile` in both governed pallets, which share the governance pallet id.
    pub fn genesis(
        initial_members: Vec<(AccountId, membership::MemberName)>,
        balances: Vec<(AccountId, Balance)>,
        profile: membership::ChainProfile,
    ) -> (rt: Self)
        requires
            initial_members@.len() <= membership::MAX_INITIAL_MEMBERS,
            distinct_entries(balances@),
        ensures
            rt.treasury.currency.free@ == genesis_free(balances@),
            rt.block_number == 0,
            rt.membership.members@ == membership::genesis_members(initial_members@),
            rt.membership.active_member_count == initial_members@.len(),
            rt.membership.voting_period() == membership::spec_default_voting_period(profile),
            rt.membership.approval_numerator() == 4 && rt.membership.approval_denominator() == 5,
            rt.membership.spec_suspension_numerator() == 1,
            rt.membership.spec_suspension_denominator() == 1,
            rt.membership.membership_proposal_count == 0,
            rt.membership.membership_proposals@.is_empty(),
            rt.membership.membership_proposal_votes@.is_empty(),
            rt.membership.suspension_votes@.is_empty(),
            rt.membership.events@.len() == 0,
            rt.membership.governance_account() == rt.proposals.governance_account(),
            rt.treasury.treasury_balance == 0,
            rt.treasury.wf(),
            rt.proposals.voting_period() == membership::spec_default_voting_period(profile),
            rt.proposals.delay() == 0,
            rt.proposals.class_threshold(proposals::ProposalClass::Standard) == (1u32, 2u32),
            rt.proposals.class_threshold(proposals::ProposalClass::Governance) == (4u32, 5u32),
            rt.proposals.class_threshold(proposals::ProposalClass::Constitutional) == (9u32, 10u32),
            rt.proposals.proposal_count == 0,
            rt.proposals.proposals@.is_empty(),
            rt.proposals.proposal_votes@.is_empty(),
            rt.proposals.events@.len() == 0,
            rt.treasury.events@.len() == 0,
            rt.proposals.wf(),
            membership::distinct_accounts(initial_members@) ==> rt.membership.wf(),
    {
        let config = membership::GenesisConfig { initial_members };
        let membership = config.build(governance_pallet_id(), profile);
        let proposals = proposals::GenesisConfig::default_for(profile).build(governance_pallet_id());
        Runtime {
            block_number: 0,
            membership,
            treasury: treasury::Pallet::new(Balances::genesis(balances)),
            proposals,
        }
    }

    /// Sets the current block number.
    pub fn set_block_number(&mut self, n: BlockNumber)
        ensures
            final(self).block_number == n,
            final(self).membership == old(self).membership,
            final(self).treasury == old(self).treasury,
            final(self).proposals == old(self).proposals,
    {
        self.block_number = n;
    }

    /// Advances the current block number by `n` blocks.
    pub fn advance_blocks(&mut self, n: BlockNumber)
        requires
            old(self).block_number + n <= BlockNumber::MAX,
        ensures
            final(self).block_number == old(self).block_number + n,
            final(self).membership == old(self).membership,
            final(self).treasury == old(self).treasury,
            final(self).proposals == old(self).proposals,
    {
        self.block_number = self.block_number + n;
    }
}

/// Dispatching a governance action in this runtime reaches the pallet it is
/// addressed to, through the setter of that very parameter:
/// - a membership voting period, approval threshold or suspension threshold
///   action sets that membership parameter and leaves the other two and the
///   treasury as they were; from the governance origin, with a valid
///   fraction for a threshold, it succeeds;
/// - a disbursement takes the amount off the treasury ledger and pays it from
///   the treasury's sovereign account to the recipient, leaving membership
///   as it was;
/// - an action of the proposals pallet's own setters touches neither;
/// - a refused dispatch changes nothing.
pub proof fn lemma_dispatch_reaches_addressed_pallet(
    action: proposals::GovernanceAction,
    origin: Origin,
    tb: treasury::Pallet,
    ta: treasury::Pallet,
    mb: membership::Pallet,
    ma: membership::Pallet,
    r: Result<(), DispatchError>,
)
    requires
        proposals::dispatch_effect::<treasury::Pallet, membership::Pallet>(
            action,
            origin,
            tb,
            ta,
            mb,
            ma,
            r,
        ),
    ensures
        action matches proposals::GovernanceAction::SetMembershipApprovalThreshold {
            numerator,
            denominator,
        } ==> {
            &&& origin == Origin::Signed(mb.governance_account()) && denominator != 0 && numerator
                <= denominator ==> r is Ok
            &&& r is Ok ==> {
                &&& ma.membership_approval_numerator == Some(numerator)
                &&& ma.membership_approval_denominator == Some(denominator)
                &&& ma.suspension_numerator == mb.suspension_numerator
                &&& ma.suspension_denominator == mb.suspension_denominator
                &&& ma.membership_voting_period == mb.membership_voting_period
            }
            &&& ta == tb
        },
        action matches proposals::GovernanceAction::SetSuspensionThreshold { numerator, denominator }
            ==> {
            &&& origin == Origin::Signed(mb.governance_account()) && denominator != 0 && numerator
                <= denominator ==> r is Ok
            &&& r is Ok ==> {
                &&& ma.suspension_numerator == Some(numerator)
                &&& ma.suspension_denominator == Some(denominator)
                &&& ma.membership_approval_numerator == mb.membership_approval_numerator
                &&& ma.membership_approval_denominator == mb.membership_approval_denominator
                &&& ma.membership_voting_period == mb.membership_voting_period
            }
            &&& ta == tb
        },
        action matches proposals::GovernanceAction::SetMembershipVotingPeriod { blocks } ==> {
            &&& origin == Origin::Signed(mb.governance_account()) ==> r is Ok
            &&& r is Ok ==> {
                &&& ma.membership_voting_period == Some(blocks)
                &&& ma.membership_approval_numerator == mb.membership_approval_numerator
                &&& ma.membership_approval_denominator == mb.membership_approval_denominator
                &&& ma.suspension_numerator == mb.suspension_numerator
                &&& ma.suspension_denominator == mb.suspension_denominator
            }
            &&& ta == tb
        },
        action matches proposals::GovernanceAction::DisburseToAccount { recipient, amount } ==> {
            &&& r is Ok ==> {
                &&& ta.treasury_balance == tb.treasury_balance - amount
                &&& recipient != treasury::treasury_account() ==> free_in(ta.currency.free@, recipient)
                    == free_in(tb.currency.free@, recipient) + amount
                &&& recipient != treasury::treasury_account() ==> free_in(
                    ta.currency.free@,
                    treasury::treasury_account(),
                ) == free_in(tb.currency.free@, treasury::treasury_account()) - amount
            }
            &&& ma == mb
        },
        (action is SetProposalVotingPeriod || action is SetExecutionDelay
            || action is SetStandardApprovalThreshold || action is SetGovernanceApprovalThreshold
            || action is SetConstitutionalApprovalThreshold) ==> ta == tb && ma == mb,
        r is Err ==> ta == tb && ma == mb,
{
}

} // verus!
