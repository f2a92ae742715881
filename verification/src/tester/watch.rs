//! Filters and orderings of the tester's read-only list views.
use vstd::prelude::*;

use crate::tester::text::decimal_digits;
use crate::tester::text::decimal_text;
use crate::tester::text::str_eq;
use vstd::string::StringExecFns;

verus! {

/// The order in which a list view walks proposal ids.
#[derive(Clone, Copy, Debug, PartialEq, Eq, Structural)]
pub enum ListOrder {
    /// Highest id first.
    Newest,
    /// Lowest id first.
    Oldest,
}

/// Which treasury proposals a list view shows, by lifecycle state.
#[derive(Clone, Copy, Debug, PartialEq, Eq, Structural)]
pub enum ProposalStateFilter {
    Active,
    Approved,
    Rejected,
    Executed,
    All,
}

/// Which membership proposals a list view shows, by lifecycle state.
#[derive(Clone, Copy, Debug, PartialEq, Eq, Structural)]
pub enum MembershipStateFilter {
    Active,
    Approved,
    Rejected,
    All,
}

/// Options of the treasury proposal list view.
#[derive(Clone, Copy, Debug, PartialEq, Eq, Structural)]
pub struct ProposalListOptions {
    pub state: ProposalStateFilter,
    pub order: ListOrder,
    pub pager: bool,
    pub no_pager: bool,
}

/// Options of the membership proposal list view.
#[derive(Clone, Copy, Debug, PartialEq, Eq, Structural)]
pub struct MembershipListOptions {
    pub state: MembershipStateFilter,
    pub order: ListOrder,
    pub pager: bool,
    pub no_pager: bool,
}

impl ProposalStateFilter {
    /// Whether a proposal whose lower-case status name is `status` passes the filter.
    pub open spec fn admits(self, status: Seq<char>) -> bool {
        match self {
            ProposalStateFilter::Active => status == "active"@,
            ProposalStateFilter::Approved => status == "approved"@,
            ProposalStateFilter::Rejected => status == "rejected"@,
            ProposalStateFilter::Executed => status == "executed"@,
            ProposalStateFilter::All => true,
        }
    }

    /// Whether a proposal whose lower-case status name is `status` passes the filter.
    pub fn matches_status(self, status: &str) -> (r: bool)
        ensures
            r == self.admits(status@),
    {
        match self {
            ProposalStateFilter::Active => str_eq(status, "active"),
            ProposalStateFilter::Approved => str_eq(status, "approved"),
            ProposalStateFilter::Rejected => str_eq(status, "rejected"),
            ProposalStateFilter::Executed => str_eq(status, "executed"),
            ProposalStateFilter::All => true,
        }
    }
}

impl MembershipStateFilter {
    /// Whether a membership proposal whose lower-case status name is `status`
    /// passes the filter.
    pub open spec fn admits(self, status: Seq<char>) -> bool {
        match self {
            MembershipStateFilter::Active => status == "active"@,
            MembershipStateFilter::Approved => status == "approved"@,
            MembershipStateFilter::Rejected => status == "rejected"@,
            MembershipStateFilter::All => true,
        }
    }

    /// Whether a membership proposal whose lower-case status name is `status`
    /// passes the filter.
    pub fn matches_status(self, status: &str) -> (r: bool)
        ensures
            r == self.admits(status@),
    {
        match self {
            MembershipStateFilter::Active => str_eq(status, "active"),
            MembershipStateFilter::Approved => str_eq(status, "approved"),
            MembershipStateFilter::Rejected => str_eq(status, "rejected"),
            MembershipStateFilter::All => true,
        }
    }
}

/// The `i`-th id of a list of the ids `1..=count` walked in `order`.
pub open spec fn ordered_id_at(count: u32, order: ListOrder, i: int) -> int {
    match order {
        ListOrder::Newest => count - i,
        ListOrder::Oldest => i + 1,
    }
}

/// The proposal ids `1..=count`, highest first for `Newest` and lowest first
/// for `Oldest`.
pub fn ordered_ids(count: u32, order: ListOrder) -> (r: Vec<u32>)
    ensures
        r@.len() == count,
        forall|i: int| 0 <= i < count ==> r@[i] == ordered_id_at(count, order, i),
{
    let mut ids: Vec<u32> = Vec::new();
    let mut i: u32 = 0;
    while i < count
        invariant
            i <= count,
            ids@.len() == i,
            forall|j: int| 0 <= j < i ==> ids@[j] == ordered_id_at(count, order, j),
        decreases count - i,
    {
        let id = match order {
            ListOrder::Newest => count - i,
            ListOrder::Oldest => i + 1,
        };
        ids.push(id);
        i = i + 1;
    }
    ids
}

/// What a list view shows: nothing is stored, nothing stored passes the
/// filter, or the ids of the proposals shown, in order.
#[derive(Clone, Debug)]
pub enum ListPlan {
    NoneStored,
    NoneMatched,
    Show(Vec<u32>),
}

/// The status texts of fetched records, `None` where no record was found.
pub open spec fn status_texts(statuses: Seq<Option<String>>) -> Seq<Option<Seq<char>>> {
    Seq::new(
        statuses.len(),
        |i: int|
            match statuses[i] {
                Some(s) => Some(s@),
                None => None,
            },
    )
}

/// The ids, in order, whose record was found with a status that `admits` accepts.
pub open spec fn kept_ids(
    ids: Seq<u32>,
    statuses: Seq<Option<Seq<char>>>,
    admits: spec_fn(Seq<char>) -> bool,
) -> Seq<u32>
    decreases ids.len(),
{
    if ids.len() == 0 || statuses.len() == 0 {
        Seq::empty()
    } else {
        let rest = kept_ids(ids.drop_last(), statuses.drop_last(), admits);
        if statuses.last() matches Some(s) && admits(s) {
            rest.push(ids.last())
        } else {
            rest
        }
    }
}

/// The plan of a list view over the ids `1..=count` walked in `order`, whose
/// records have the given statuses, keeping those that `admits` accepts.
pub open spec fn list_plan(
    count: u32,
    order: ListOrder,
    statuses: Seq<Option<Seq<char>>>,
    admits: spec_fn(Seq<char>) -> bool,
) -> (ListPlanKind, Seq<u32>) {
    let ids = Seq::new(count as nat, |i: int| ordered_id_at(count, order, i) as u32);
    if count == 0 {
        (ListPlanKind::NoneStored, Seq::empty())
    } else if kept_ids(ids, statuses, admits).len() == 0 {
        (ListPlanKind::NoneMatched, Seq::empty())
    } else {
        (ListPlanKind::Show, kept_ids(ids, statuses, admits))
    }
}

/// The kind of a list plan.
pub enum ListPlanKind {
    NoneStored,
    NoneMatched,
    Show,
}

/// A list plan as its kind and the ids shown.
pub open spec fn plan_view(plan: ListPlan) -> (ListPlanKind, Seq<u32>) {
    match plan {
        ListPlan::NoneStored => (ListPlanKind::NoneStored, Seq::empty()),
        ListPlan::NoneMatched => (ListPlanKind::NoneMatched, Seq::empty()),
        ListPlan::Show(ids) => (ListPlanKind::Show, ids@),
    }
}

proof fn lemma_kept_ids_step(
    ids: Seq<u32>,
    statuses: Seq<Option<Seq<char>>>,
    admits: spec_fn(Seq<char>) -> bool,
    i: int,
)
    requires
        0 <= i < ids.len(),
        ids.len() == statuses.len(),
    ensures
        kept_ids(ids.take(i + 1), statuses.take(i + 1), admits) == if statuses[i] matches Some(s)
            && admits(s) {
            kept_ids(ids.take(i), statuses.take(i), admits).push(ids[i])
        } else {
            kept_ids(ids.take(i), statuses.take(i), admits)
        },
{
    assert(ids.take(i + 1).drop_last() =~= ids.take(i));
    assert(statuses.take(i + 1).drop_last() =~= statuses.take(i));
}

impl ProposalListOptions {
    /// Plans the treasury proposal list over the ids `1..=count`:
    /// `statuses[i]` is the lower-case status of the `i`-th id that
    /// `ordered_ids(count, self.order)` walks, or `None` where its record was
    /// not found.
    pub fn plan(&self, count: u32, statuses: &Vec<Option<String>>) -> (r: ListPlan)
        requires
            statuses@.len() == count,
        ensures
            plan_view(r) == list_plan(
                count,
                self.order,
                status_texts(statuses@),
                |s: Seq<char>| self.state.admits(s),
            ),
    {
        let ghost admits = |s: Seq<char>| self.state.admits(s);
        let ids = ordered_ids(count, self.order);
        let ghost texts = status_texts(statuses@);
        let ghost all = Seq::new(count as nat, |i: int| ordered_id_at(count, self.order, i) as u32);
        assert(ids@ =~= all);
        if count == 0 {
            return ListPlan::NoneStored;
        }
        let mut shown: Vec<u32> = Vec::new();
        let mut i: usize = 0;
        assert(ids@.take(0) =~= Seq::<u32>::empty());
        while i < ids.len()
            invariant
                i <= ids@.len(),
                ids@.len() == count,
                statuses@.len() == count,
                texts == status_texts(statuses@),
                admits == (|s: Seq<char>| self.state.admits(s)),
                shown@ == kept_ids(ids@.take(i as int), texts.take(i as int), admits),
            decreases ids@.len() - i,
        {
            proof {
                lemma_kept_ids_step(ids@, texts, admits, i as int);
            }
            let keep = match &statuses[i] {
                Some(status) => self.state.matches_status(status.as_str()),
                None => false,
            };
            if keep {
                shown.push(ids[i]);
            }
            i = i + 1;
        }
        assert(ids@.take(count as int) =~= ids@);
        assert(texts.take(count as int) =~= texts);
        if shown.len() == 0 {
            ListPlan::NoneMatched
        } else {
            ListPlan::Show(shown)
        }
    }
}

impl MembershipListOptions {
    /// Plans the membership proposal list over the ids `1..=count`:
    /// `statuses[i]` is the lower-case status of the `i`-th id that
    /// `ordered_ids(count, self.order)` walks, or `None` where its record was
    /// not found.
    pub fn plan(&self, count: u32, statuses: &Vec<Option<String>>) -> (r: ListPlan)
        requires
            statuses@.len() == count,
        ensures
            plan_view(r) == list_plan(
                count,
                self.order,
                status_texts(statuses@),
                |s: Seq<char>| self.state.admits(s),
            ),
    {
        let ghost admits = |s: Seq<char>| self.state.admits(s);
        let ids = ordered_ids(count, self.order);
        let ghost texts = status_texts(statuses@);
        let ghost all = Seq::new(count as nat, |i: int| ordered_id_at(count, self.order, i) as u32);
        assert(ids@ =~= all);
        if count == 0 {
            return ListPlan::NoneStored;
        }
        let mut shown: Vec<u32> = Vec::new();
        let mut i: usize = 0;
        assert(ids@.take(0) =~= Seq::<u32>::empty());
        while i < ids.len()
            invariant
                i <= ids@.len(),
                ids@.len() == count,
                statuses@.len() == count,
                texts == status_texts(statuses@),
                admits == (|s: Seq<char>| self.state.admits(s)),
                shown@ == kept_ids(ids@.take(i as int), texts.take(i as int), admits),
            decreases ids@.len() - i,
        {
            proof {
                lemma_kept_ids_step(ids@, texts, admits, i as int);
            }
            let keep = match &statuses[i] {
                Some(status) => self.state.matches_status(status.as_str()),
                None => false,
            };
            if keep {
                shown.push(ids[i]);
            }
            i = i + 1;
        }
        assert(ids@.take(count as int) =~= ids@);
        assert(texts.take(count as int) =~= texts);
        if shown.len() == 0 {
            ListPlan::NoneMatched
        } else {
            ListPlan::Show(shown)
        }
    }
}

impl ListOrder {
    /// The order's name as the list header shows it.
    pub open spec fn name(self) -> Seq<char> {
        match self {
            ListOrder::Newest => "Newest"@,
            ListOrder::Oldest => "Oldest"@,
        }
    }

    /// The order's name as the list header shows it.
    pub fn name_text(self) -> (r: &'static str)
        ensures
            r@ == self.name(),
    {
        match self {
            ListOrder::Newest => "Newest",
            ListOrder::Oldest => "Oldest",
        }
    }
}

impl ProposalStateFilter {
    /// The filter's name as the list header shows it.
    pub open spec fn name(self) -> Seq<char> {
        match self {
            ProposalStateFilter::Active => "Active"@,
            ProposalStateFilter::Approved => "Approved"@,
            ProposalStateFilter::Rejected => "Rejected"@,
            ProposalStateFilter::Executed => "Executed"@,
            ProposalStateFilter::All => "All"@,
        }
    }

    /// The filter's name as the list header shows it.
    pub fn name_text(self) -> (r: &'static str)
        ensures
            r@ == self.name(),
    {
        match self {
            ProposalStateFilter::Active => "Active",
            ProposalStateFilter::Approved => "Approved",
            ProposalStateFilter::Rejected => "Rejected",
            ProposalStateFilter::Executed => "Executed",
            ProposalStateFilter::All => "All",
        }
    }
}

impl MembershipStateFilter {
    /// The filter's name as the list header shows it.
    pub open spec fn name(self) -> Seq<char> {
        match self {
            MembershipStateFilter::Active => "Active"@,
            MembershipStateFilter::Approved => "Approved"@,
            MembershipStateFilter::Rejected => "Rejected"@,
            MembershipStateFilter::All => "All"@,
        }
    }

    /// The filter's name as the list header shows it.
    pub fn name_text(self) -> (r: &'static str)
        ensures
            r@ == self.name(),
    {
        match self {
            MembershipStateFilter::Active => "Active",
            MembershipStateFilter::Approved => "Approved",
            MembershipStateFilter::Rejected => "Rejected",
            MembershipStateFilter::All => "All",
        }
    }
}

/// A block number that may be absent, as the views show it: the number in
/// decimal, or `none`.
pub open spec fn optional_block_text(block: Option<u32>) -> Seq<char> {
    match block {
        Some(n) => decimal_digits(n as nat),
        None => "none"@,
    }
}

fn optional_block(block: Option<u32>) -> (r: String)
    ensures
        r@ == optional_block_text(block),
{
    match block {
        Some(n) => decimal_text(n as u128),
        None => String::from_str("none"),
    }
}

/// What the treasury proposal list shows of one proposal besides its id, as
/// text and numbers read from the chain: its lower-case status, title, class,
/// action, vote counts and blocks.
#[derive(Clone, Debug)]
pub struct ProposalRow {
    pub status: String,
    pub title: String,
    pub class: String,
    pub action: String,
    pub yes_votes: u32,
    pub no_votes: u32,
    pub submitted_at: u32,
    pub vote_end: u32,
    pub approved_at: Option<u32>,
}

/// What the membership proposal list shows of one proposal besides its id:
/// its lower-case status, candidate, candidate name, proposer, vote counts
/// and the end of its voting window.
#[derive(Clone, Debug)]
pub struct MembershipRow {
    pub status: String,
    pub candidate: String,
    pub name: String,
    pub proposed_by: String,
    pub yes_votes: u32,
    pub no_votes: u32,
    pub vote_end: u32,
}

/// The list line of treasury proposal `id`: `#<id> status=<s> title=<t>
/// class=<c> action=<a> yes_votes=<y> no_votes=<n> submitted_at=<b>
/// vote_end=<b> approved_at=<b or none>`.
pub open spec fn proposal_line(id: u32, row: ProposalRow) -> Seq<char> {
    "#"@ + decimal_digits(id as nat) + " status="@ + row.status@ + " title="@ + row.title@
        + " class="@ + row.class@ + " action="@ + row.action@ + " yes_votes="@ + decimal_digits(
        row.yes_votes as nat,
    ) + " no_votes="@ + decimal_digits(row.no_votes as nat) + " submitted_at="@ + decimal_digits(
        row.submitted_at as nat,
    ) + " vote_end="@ + decimal_digits(row.vote_end as nat) + " approved_at="@
        + optional_block_text(row.approved_at) + "\n"@
}

/// The list line of membership proposal `id`: `#<id> status=<s>
/// candidate=<c> name=<n> proposed_by=<p> yes_votes=<y> no_votes=<n>
/// vote_end=<b>`.
pub open spec fn membership_line(id: u32, row: MembershipRow) -> Seq<char> {
    "#"@ + decimal_digits(id as nat) + " status="@ + row.status@ + " candidate="@ + row.candidate@
        + " name="@ + row.name@ + " proposed_by="@ + row.proposed_by@ + " yes_votes="@
        + decimal_digits(row.yes_votes as nat) + " no_votes="@ + decimal_digits(row.no_votes as nat)
        + " vote_end="@ + decimal_digits(row.vote_end as nat) + "\n"@
}

/// The lines of the ids, in order, the `i`-th with the `i`-th row.
pub open spec fn rows_text<R>(ids: Seq<u32>, rows: Seq<R>, line: spec_fn(u32, R) -> Seq<char>) -> Seq<
    char,
>
    decreases ids.len(),
{
    if ids.len() == 0 || rows.len() == 0 {
        Seq::empty()
    } else {
        rows_text(ids.drop_last(), rows.drop_last(), line) + line(ids.last(), rows.last())
    }
}

/// A list view's text: the header, then what the plan calls for.
pub open spec fn listing_text<R>(
    header: Seq<char>,
    none_found: Seq<char>,
    none_matched: Seq<char>,
    plan: (ListPlanKind, Seq<u32>),
    rows: Seq<R>,
    line: spec_fn(u32, R) -> Seq<char>,
) -> Seq<char> {
    header + match plan.0 {
        ListPlanKind::NoneStored => none_found,
        ListPlanKind::NoneMatched => none_matched,
        ListPlanKind::Show => rows_text(plan.1, rows, line),
    }
}

fn append_proposal_line(out: &mut String, id: u32, row: &ProposalRow)
    ensures
        final(out)@ == old(out)@ + proposal_line(id, *row),
{
    let ghost start = out@;
    out.append("#");
    out.append(decimal_text(id as u128).as_str());
    out.append(" status=");
    out.append(row.status.as_str());
    out.append(" title=");
    out.append(row.title.as_str());
    out.append(" class=");
    out.append(row.class.as_str());
    out.append(" action=");
    out.append(row.action.as_str());
    out.append(" yes_votes=");
    out.append(decimal_text(row.yes_votes as u128).as_str());
    out.append(" no_votes=");
    out.append(decimal_text(row.no_votes as u128).as_str());
    out.append(" submitted_at=");
    out.append(decimal_text(row.submitted_at as u128).as_str());
    out.append(" vote_end=");
    out.append(decimal_text(row.vote_end as u128).as_str());
    out.append(" approved_at=");
    out.append(optional_block(row.approved_at).as_str());
    out.append("\n");
    assert(out@ =~= start + proposal_line(id, *row));
}

fn append_membership_line(out: &mut String, id: u32, row: &MembershipRow)
    ensures
        final(out)@ == old(out)@ + membership_line(id, *row),
{
    let ghost start = out@;
    out.append("#");
    out.append(decimal_text(id as u128).as_str());
    out.append(" status=");
    out.append(row.status.as_str());
    out.append(" candidate=");
    out.append(row.candidate.as_str());
    out.append(" name=");
    out.append(row.name.as_str());
    out.append(" proposed_by=");
    out.append(row.proposed_by.as_str());
    out.append(" yes_votes=");
    out.append(decimal_text(row.yes_votes as u128).as_str());
    out.append(" no_votes=");
    out.append(decimal_text(row.no_votes as u128).as_str());
    out.append(" vote_end=");
    out.append(decimal_text(row.vote_end as u128).as_str());
    out.append("\n");
    assert(out@ =~= start + membership_line(id, *row));
}

/// Whether list output goes through a pager: never with `no_pager`, always
/// with `pager`, and otherwise where standard output is a terminal.
pub fn use_pager(pager: bool, no_pager: bool, stdout_is_terminal: bool) -> (r: bool)
    ensures
        r == (!no_pager && (pager || stdout_is_terminal)),
{
    if no_pager {
        false
    } else if pager {
        true
    } else {
        stdout_is_terminal
    }
}

impl ProposalListOptions {
    /// The header line of the treasury proposal list.
    pub open spec fn header(self) -> Seq<char> {
        "Treasury proposals (state="@ + self.state.name() + ", order="@ + self.order.name() + ")\n"@
    }

    /// The text of the treasury proposal list under `plan`, where the `i`-th
    /// row belongs to the `i`-th id that the plan shows.
    pub fn listing(&self, plan: &ListPlan, rows: &Vec<ProposalRow>) -> (r: String)
        requires
            plan_view(*plan).0 is Show ==> rows@.len() == plan_view(*plan).1.len(),
        ensures
            r@ == listing_text(
                self.header(),
                "No treasury proposals found.\n"@,
                "No treasury proposals matched this filter.\n"@,
                plan_view(*plan),
                rows@,
                |id: u32, row: ProposalRow| proposal_line(id, row),
            ),
    {
        let ghost line = |id: u32, row: ProposalRow| proposal_line(id, row);
        let mut out = String::from_str("Treasury proposals (state=");
        out.append(self.state.name_text());
        out.append(", order=");
        out.append(self.order.name_text());
        out.append(")\n");
        match plan {
            ListPlan::NoneStored => out.append("No treasury proposals found.\n"),
            ListPlan::NoneMatched => out.append("No treasury proposals matched this filter.\n"),
            ListPlan::Show(ids) => {
                let ghost start = out@;
                let mut i: usize = 0;
                while i < ids.len()
                    invariant
                        i <= ids@.len(),
                        rows@.len() == ids@.len(),
                        out@ == start + rows_text(ids@.take(i as int), rows@.take(i as int), line),
                        line == (|id: u32, row: ProposalRow| proposal_line(id, row)),
                    decreases ids@.len() - i,
                {
                    append_proposal_line(&mut out, ids[i], &rows[i]);
                    assert(rows@.take(i + 1).drop_last() =~= rows@.take(i as int));
                    assert(ids@.take(i + 1).drop_last() =~= ids@.take(i as int));
                    assert(rows_text(ids@.take(i + 1), rows@.take(i + 1), line) == rows_text(
                        ids@.take(i as int),
                        rows@.take(i as int),
                        line,
                    ) + line(ids@[i as int], rows@[i as int]));
                    assert(out@ =~= start + rows_text(ids@.take(i + 1), rows@.take(i + 1), line));
                    i = i + 1;
                }
                assert(rows@.take(rows@.len() as int) =~= rows@);
                assert(ids@.take(ids@.len() as int) =~= ids@);
            },
        }
        out
    }
}

impl MembershipListOptions {
    /// The header line of the membership proposal list.
    pub open spec fn header(self) -> Seq<char> {
        "Membership proposals (state="@ + self.state.name() + ", order="@ + self.order.name()
            + ")\n"@
    }

    /// The text of the membership proposal list under `plan`, where the `i`-th
    /// row belongs to the `i`-th id that the plan shows.
    pub fn listing(&self, plan: &ListPlan, rows: &Vec<MembershipRow>) -> (r: String)
        requires
            plan_view(*plan).0 is Show ==> rows@.len() == plan_view(*plan).1.len(),
        ensures
            r@ == listing_text(
                self.header(),
                "No membership proposals found.\n"@,
                "No membership proposals matched this filter.\n"@,
                plan_view(*plan),
                rows@,
                |id: u32, row: MembershipRow| membership_line(id, row),
            ),
    {
        let ghost line = |id: u32, row: MembershipRow| membership_line(id, row);
        let mut out = String::from_str("Membership proposals (state=");
        out.append(self.state.name_text());
        out.append(", order=");
        out.append(self.order.name_text());
        out.append(")\n");
        match plan {
            ListPlan::NoneStored => out.append("No membership proposals found.\n"),
            ListPlan::NoneMatched => out.append("No membership proposals matched this filter.\n"),
            ListPlan::Show(ids) => {
                let ghost start = out@;
                let mut i: usize = 0;
                while i < ids.len()
                    invariant
                        i <= ids@.len(),
                        rows@.len() == ids@.len(),
                        out@ == start + rows_text(ids@.take(i as int), rows@.take(i as int), line),
                        line == (|id: u32, row: MembershipRow| membership_line(id, row)),
                    decreases ids@.len() - i,
                {
                    append_membership_line(&mut out, ids[i], &rows[i]);
                    assert(rows@.take(i + 1).drop_last() =~= rows@.take(i as int));
                    assert(ids@.take(i + 1).drop_last() =~= ids@.take(i as int));
                    assert(rows_text(ids@.take(i + 1), rows@.take(i + 1), line) == rows_text(
                        ids@.take(i as int),
                        rows@.take(i as int),
                        line,
                    ) + line(ids@[i as int], rows@[i as int]));
                    assert(out@ =~= start + rows_text(ids@.take(i + 1), rows@.take(i + 1), line));
                    i = i + 1;
                }
                assert(rows@.take(rows@.len() as int) =~= rows@);
                assert(ids@.take(ids@.len() as int) =~= ids@);
            },
        }
        out
    }
}

/// What the detail view shows of a stored treasury proposal, as text and
/// numbers read from the chain: its status name, title, description, class,
/// action and blocks.
#[derive(Clone, Debug)]
pub struct ProposalDetail {
    pub status: String,
    pub title: String,
    pub description: String,
    pub class: String,
    pub action: String,
    pub submitted_at: u32,
    pub vote_end: u32,
    pub approved_at: Option<u32>,
}

/// What the detail view shows of a stored membership proposal: its status
/// name, candidate, candidate name, proposer, blocks and member snapshot.
#[derive(Clone, Debug)]
pub struct MembershipDetail {
    pub status: String,
    pub candidate: String,
    pub name: String,
    pub proposed_by: String,
    pub proposed_at: u32,
    pub vote_end: u32,
    pub active_member_snapshot: u32,
}

/// The detail view of treasury proposal `id` with its vote counts: one line
/// with its fields, or a "not found" line where no record is stored.
pub open spec fn proposal_detail_text(id: u32, record: Option<ProposalDetail>, yes: u32, no: u32) -> Seq<
    char,
> {
    match record {
        Some(d) => "Proposal #"@ + decimal_digits(id as nat) + ": status="@ + d.status@ + ", title="@
            + d.title@ + ", description="@ + d.description@ + ", class="@ + d.class@
            + ", action="@ + d.action@ + ", yes_votes="@ + decimal_digits(yes as nat)
            + ", no_votes="@ + decimal_digits(no as nat) + ", submitted_at="@ + decimal_digits(
            d.submitted_at as nat,
        ) + ", vote_end="@ + decimal_digits(d.vote_end as nat) + ", approved_at="@
            + optional_block_text(d.approved_at) + "\n"@,
        None => "Proposal #"@ + decimal_digits(id as nat) + " not found (yes_votes="@
            + decimal_digits(yes as nat) + ", no_votes="@ + decimal_digits(no as nat) + ").\n"@,
    }
}

/// The detail view of membership proposal `id` with its vote counts: one
/// line with its fields, or a "not found" line where no record is stored.
pub open spec fn membership_detail_text(
    id: u32,
    record: Option<MembershipDetail>,
    yes: u32,
    no: u32,
) -> Seq<char> {
    match record {
        Some(d) => "Membership proposal #"@ + decimal_digits(id as nat) + ": status="@ + d.status@
            + ", candidate="@ + d.candidate@ + ", name="@ + d.name@ + ", proposed_by="@
            + d.proposed_by@ + ", proposed_at="@ + decimal_digits(d.proposed_at as nat)
            + ", vote_end="@ + decimal_digits(d.vote_end as nat) + ", active_member_snapshot="@
            + decimal_digits(d.active_member_snapshot as nat) + ", yes_votes="@ + decimal_digits(
            yes as nat,
        ) + ", no_votes="@ + decimal_digits(no as nat) + "\n"@,
        None => "Membership proposal #"@ + decimal_digits(id as nat) + " not found (yes_votes="@
            + decimal_digits(yes as nat) + ", no_votes="@ + decimal_digits(no as nat) + ").\n"@,
    }
}

/// The detail view of treasury proposal `id`.
pub fn proposal_detail(id: u32, record: &Option<ProposalDetail>, yes: u32, no: u32) -> (r: String)
    ensures
        r@ == proposal_detail_text(id, *record, yes, no),
{
    match record {
        Some(d) => {
            let mut out = String::from_str("Proposal #");
            out.append(decimal_text(id as u128).as_str());
            out.append(": status=");
            out.append(d.status.as_str());
            out.append(", title=");
            out.append(d.title.as_str());
            out.append(", description=");
            out.append(d.description.as_str());
            out.append(", class=");
            out.append(d.class.as_str());
            out.append(", action=");
            out.append(d.action.as_str());
            out.append(", yes_votes=");
            out.append(decimal_text(yes as u128).as_str());
            out.append(", no_votes=");
            out.append(decimal_text(no as u128).as_str());
            out.append(", submitted_at=");
            out.append(decimal_text(d.submitted_at as u128).as_str());
            out.append(", vote_end=");
            out.append(decimal_text(d.vote_end as u128).as_str());
            out.append(", approved_at=");
            out.append(optional_block(d.approved_at).as_str());
            out.append("\n");
            assert(out@ =~= proposal_detail_text(id, *record, yes, no));
            out
        },
        None => {
            let mut out = String::from_str("Proposal #");
            out.append(decimal_text(id as u128).as_str());
            out.append(" not found (yes_votes=");
            out.append(decimal_text(yes as u128).as_str());
            out.append(", no_votes=");
            out.append(decimal_text(no as u128).as_str());
            out.append(").\n");
            assert(out@ =~= proposal_detail_text(id, *record, yes, no));
            out
        },
    }
}

/// The detail view of membership proposal `id`.
pub fn membership_detail(id: u32, record: &Option<MembershipDetail>, yes: u32, no: u32) -> (r: String)
    ensures
        r@ == membership_detail_text(id, *record, yes, no),
{
    match record {
        Some(d) => {
            let mut out = String::from_str("Membership proposal #");
            out.append(decimal_text(id as u128).as_str());
            out.append(": status=");
            out.append(d.status.as_str());
            out.append(", candidate=");
            out.append(d.candidate.as_str());
            out.append(", name=");
            out.append(d.name.as_str());
            out.append(", proposed_by=");
            out.append(d.proposed_by.as_str());
            out.append(", proposed_at=");
            out.append(decimal_text(d.proposed_at as u128).as_str());
            out.append(", vote_end=");
            out.append(decimal_text(d.vote_end as u128).as_str());
            out.append(", active_member_snapshot=");
            out.append(decimal_text(d.active_member_snapshot as u128).as_str());
            out.append(", yes_votes=");
            out.append(decimal_text(yes as u128).as_str());
            out.append(", no_votes=");
            out.append(decimal_text(no as u128).as_str());
            out.append("\n");
            assert(out@ =~= membership_detail_text(id, *record, yes, no));
            out
        },
        None => {
            let mut out = String::from_str("Membership proposal #");
            out.append(decimal_text(id as u128).as_str());
            out.append(" not found (yes_votes=");
            out.append(decimal_text(yes as u128).as_str());
            out.append(", no_votes=");
            out.append(decimal_text(no as u128).as_str());
            out.append(").\n");
            assert(out@ =~= membership_detail_text(id, *record, yes, no));
            out
        },
    }
}

/// Each named state filter admits exactly its own lower-case status name,
/// and `All` admits every status; so no two named filters admit the same
/// status, and in particular the approved filter never shows an executed
/// proposal.
pub proof fn lemma_state_filters_admit_own_status(status: Seq<char>)
    ensures
        ProposalStateFilter::Active.admits(status) <==> status == "active"@,
        ProposalStateFilter::Approved.admits(status) <==> status == "approved"@,
        ProposalStateFilter::Rejected.admits(status) <==> status == "rejected"@,
        ProposalStateFilter::Executed.admits(status) <==> status == "executed"@,
        ProposalStateFilter::All.admits(status),
        MembershipStateFilter::Active.admits(status) <==> status == "active"@,
        MembershipStateFilter::Approved.admits(status) <==> status == "approved"@,
        MembershipStateFilter::Rejected.admits(status) <==> status == "rejected"@,
        MembershipStateFilter::All.admits(status),
        forall|f: ProposalStateFilter, g: ProposalStateFilter|
            f != ProposalStateFilter::All && g != ProposalStateFilter::All && f != g ==> !(
            #[trigger] f.admits(status) && #[trigger] g.admits(status)),
        forall|f: MembershipStateFilter, g: MembershipStateFilter|
            f != MembershipStateFilter::All && g != MembershipStateFilter::All && f != g ==> !(
            #[trigger] f.admits(status) && #[trigger] g.admits(status)),
{
    reveal_strlit("active");
    reveal_strlit("approved");
    reveal_strlit("rejected");
    reveal_strlit("executed");
    assert("active"@[0] == 'a' && "active"@[1] == 'c');
    assert("approved"@[0] == 'a' && "approved"@[1] == 'p');
    assert("rejected"@[0] == 'r');
    assert("executed"@[0] == 'e');
}

/// Newest-first walks the ids `count, count - 1, ..., 1` and oldest-first
/// walks `1, 2, ..., count`: each walk starts at its end of the range, stays
/// within `1..=count`, and is strictly monotone in its direction.
pub proof fn lemma_list_orders(count: u32, i: int, j: int)
    requires
        0 <= i < j < count,
    ensures
        ordered_id_at(count, ListOrder::Newest, 0) == count,
        ordered_id_at(count, ListOrder::Oldest, 0) == 1,
        ordered_id_at(count, ListOrder::Newest, i) > ordered_id_at(count, ListOrder::Newest, j),
        ordered_id_at(count, ListOrder::Oldest, i) < ordered_id_at(count, ListOrder::Oldest, j),
        1 <= ordered_id_at(count, ListOrder::Newest, j) <= count,
        1 <= ordered_id_at(count, ListOrder::Oldest, j) <= count,
{
}

/// A list shows exactly the ids whose record was found with an admitted
/// status: every id it keeps is one of them, and every one of them is kept.
pub proof fn lemma_kept_ids_are_the_admitted(
    ids: Seq<u32>,
    statuses: Seq<Option<Seq<char>>>,
    admits: spec_fn(Seq<char>) -> bool,
)
    requires
        ids.len() == statuses.len(),
    ensures
        forall|k: int|
            0 <= k < kept_ids(ids, statuses, admits).len() ==> exists|i: int|
                0 <= i < ids.len() && ids[i] == #[trigger] kept_ids(ids, statuses, admits)[k]
                    && admitted_at(statuses, admits, i),
        forall|i: int|
            0 <= i < ids.len() && #[trigger] admitted_at(statuses, admits, i) ==> kept_ids(
                ids,
                statuses,
                admits,
            ).contains(ids[i]),
    decreases ids.len(),
{
    if ids.len() > 0 {
        let ids0 = ids.drop_last();
        let st0 = statuses.drop_last();
        lemma_kept_ids_are_the_admitted(ids0, st0, admits);
        let rest = kept_ids(ids0, st0, admits);
        let kept = kept_ids(ids, statuses, admits);
        let last = ids.len() - 1;
        assert forall|k: int| 0 <= k < kept.len() implies exists|i: int|
            0 <= i < ids.len() && ids[i] == #[trigger] kept[k] && admitted_at(statuses, admits, i) by {
            if k < rest.len() {
                let i = choose|i: int|
                    0 <= i < ids0.len() && ids0[i] == rest[k] && admitted_at(st0, admits, i);
                assert(ids[i] == kept[k] && admitted_at(statuses, admits, i));
            } else {
                assert(ids[last] == kept[k] && admitted_at(statuses, admits, last));
            }
        }
        assert forall|i: int| 0 <= i < ids.len() && #[trigger] admitted_at(statuses, admits, i) implies kept.contains(
            ids[i],
        ) by {
            if i < last {
                assert(admitted_at(st0, admits, i));
                let k = choose|k: int| 0 <= k < rest.len() && rest[k] == ids0[i];
                assert(kept[k] == ids[i]);
            } else {
                assert(kept[kept.len() - 1] == ids[i]);
            }
        }
    }
}

/// Whether the `i`-th record was found with a status that `admits` accepts.
pub open spec fn admitted_at(statuses: Seq<Option<Seq<char>>>, admits: spec_fn(Seq<char>) -> bool, i: int) -> bool {
    statuses[i] matches Some(s) && admits(s)
}

} // verus!
