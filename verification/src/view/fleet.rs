//! The Fleet view: every agent with its served liveness and latest status,
//! grouped by attention. Attention comes from the served label's severity,
//! never from liveness.

use vstd::prelude::*;

use crate::api::{
    severity_spec, FleetListOut, FleetRow, LastSeen, LatestStatus, Liveness, Severity,
};

verus! {

/// The attention group an agent sorts into.
#[derive(Clone, Copy, PartialEq, Eq, Debug, Hash, Structural)]
pub enum AttentionGroup {
    /// A person needs to look.
    NeedsPerson,
    /// The latest run failed.
    Failed,
    /// Nothing needs attention.
    Nominal,
}

/// The group a severity sorts into.
pub open spec fn attention_of_severity(severity: Severity) -> AttentionGroup {
    match severity {
        Severity::Review => AttentionGroup::NeedsPerson,
        Severity::Failed => AttentionGroup::Failed,
        Severity::Nominal => AttentionGroup::Nominal,
    }
}

impl AttentionGroup {
    /// The group a severity sorts into.
    pub fn from_severity(severity: Severity) -> (r: AttentionGroup)
        ensures
            r == attention_of_severity(severity),
    {
        match severity {
            Severity::Review => AttentionGroup::NeedsPerson,
            Severity::Failed => AttentionGroup::Failed,
            Severity::Nominal => AttentionGroup::Nominal,
        }
    }
}

/// The groups in presentation order: attention first.
pub const ATTENTION_ORDER: [AttentionGroup; 3] = [
    AttentionGroup::NeedsPerson,
    AttentionGroup::Failed,
    AttentionGroup::Nominal,
];

/// One agent's row.
#[derive(PartialEq, Eq, Debug)]
pub struct FleetRowView {
    pub subject_id: String,
    pub room_id: String,
    pub liveness: Liveness,
    pub latest: LatestStatus,
    pub last_seen: LastSeen,
    pub attention: AttentionGroup,
}

impl Clone for FleetRowView {
    fn clone(&self) -> (r: Self)
        ensures
            r == *self,
    {
        FleetRowView {
            subject_id: self.subject_id.clone(),
            room_id: self.room_id.clone(),
            liveness: self.liveness,
            latest: self.latest,
            last_seen: self.last_seen,
            attention: self.attention,
        }
    }
}

/// The attention an agent's latest status asks for (none when it never
/// posted).
pub open spec fn attention_of(latest: LatestStatus) -> AttentionGroup {
    match latest {
        LatestStatus::Present { label, .. } => attention_of_severity(severity_spec(label)),
        LatestStatus::Absent => AttentionGroup::Nominal,
    }
}

/// Whether an agent is live: working or online and idle.
pub open spec fn is_live_spec(liveness: Liveness) -> bool {
    liveness is Working || liveness is OnlineIdle
}

/// The row a served fleet row folds to.
pub open spec fn row_matches(v: FleetRowView, row: FleetRow) -> bool {
    &&& v.subject_id@ == row.subject_id@
    &&& v.room_id@ == row.room_id@
    &&& v.liveness == row.liveness
    &&& v.latest == row.latest_status
    &&& v.last_seen == row.last_seen
    &&& v.attention == attention_of(row.latest_status)
}

impl FleetRowView {
    /// Whether the agent is live.
    pub fn is_live(&self) -> (r: bool)
        ensures
            r == is_live_spec(self.liveness),
    {
        matches!(self.liveness, Liveness::Working | Liveness::OnlineIdle)
    }

    fn from_row(row: &FleetRow) -> (r: FleetRowView)
        ensures
            row_matches(r, *row),
    {
        let attention = match &row.latest_status {
            LatestStatus::Present { label, .. } => AttentionGroup::from_severity(label.severity()),
            LatestStatus::Absent => AttentionGroup::Nominal,
        };
        FleetRowView {
            subject_id: row.subject_id.clone(),
            room_id: row.room_id.clone(),
            liveness: row.liveness,
            latest: row.latest_status,
            last_seen: row.last_seen,
            attention,
        }
    }
}

/// The folded fleet.
#[derive(Clone, PartialEq, Eq, Debug)]
pub struct FleetView {
    /// One row per agent, in served order.
    pub rows: Vec<FleetRowView>,
}

/// Which agents a Fleet filter shows.
#[derive(Clone, Copy, PartialEq, Eq, Debug, Structural)]
pub enum FleetFilter {
    /// Every agent.
    All,
    /// Only live agents.
    Live,
}

/// Whether a row shows under a filter.
pub open spec fn shows(filter: FleetFilter, row: FleetRowView) -> bool {
    match filter {
        FleetFilter::All => true,
        FleetFilter::Live => is_live_spec(row.liveness),
    }
}

/// The rows of `rows` that show under `filter`, in order.
pub open spec fn filter_rows(rows: Seq<FleetRowView>, filter: FleetFilter) -> Seq<FleetRowView>
    decreases rows.len(),
{
    if rows.len() == 0 {
        Seq::empty()
    } else if shows(filter, rows.last()) {
        filter_rows(rows.drop_last(), filter).push(rows.last())
    } else {
        filter_rows(rows.drop_last(), filter)
    }
}

/// The rows of `rows` in group `g`, in order.
pub open spec fn rows_in_group(rows: Seq<FleetRowView>, g: AttentionGroup) -> Seq<FleetRowView>
    decreases rows.len(),
{
    if rows.len() == 0 {
        Seq::empty()
    } else if rows.last().attention == g {
        rows_in_group(rows.drop_last(), g).push(rows.last())
    } else {
        rows_in_group(rows.drop_last(), g)
    }
}

/// The non-empty groups of `rows`, in presentation order.
pub open spec fn groups_spec(rows: Seq<FleetRowView>) -> Seq<(AttentionGroup, Seq<FleetRowView>)> {
    let a = rows_in_group(rows, AttentionGroup::NeedsPerson);
    let b = rows_in_group(rows, AttentionGroup::Failed);
    let c = rows_in_group(rows, AttentionGroup::Nominal);
    let sa = if a.len() > 0 { seq![(AttentionGroup::NeedsPerson, a)] } else { Seq::empty() };
    let sb = if b.len() > 0 { seq![(AttentionGroup::Failed, b)] } else { Seq::empty() };
    let sc = if c.len() > 0 { seq![(AttentionGroup::Nominal, c)] } else { Seq::empty() };
    sa + sb + sc
}

/// Borrowed rows as plain values.
pub open spec fn deref_rows<'a>(v: Seq<&'a FleetRowView>) -> Seq<FleetRowView> {
    v.map_values(|r: &FleetRowView| *r)
}

impl FleetView {
    /// Whether the fleet is empty.
    pub fn is_empty(&self) -> (r: bool)
        ensures
            r == (self.rows@.len() == 0),
    {
        self.rows.len() == 0
    }

    /// The rows that show under `filter`, in order.
    pub fn filtered(&self, filter: FleetFilter) -> (r: Vec<&FleetRowView>)
        ensures
            deref_rows(r@) == filter_rows(self.rows@, filter),
    {
        let mut out: Vec<&FleetRowView> = Vec::new();
        let mut i: usize = 0;
        while i < self.rows.len()
            invariant
                i <= self.rows@.len(),
                deref_rows(out@) == filter_rows(self.rows@.subrange(0, i as int), filter),
            decreases self.rows.len() - i,
        {
            let row = &self.rows[i];
            let keep = match filter {
                FleetFilter::All => true,
                FleetFilter::Live => row.is_live(),
            };
            let ghost before = out@;
            proof {
                let t = self.rows@.subrange(0, i + 1);
                assert(t.drop_last() =~= self.rows@.subrange(0, i as int));
                assert(t.last() == self.rows@[i as int]);
            }
            if keep {
                out.push(row);
                proof {
                    assert(deref_rows(out@) =~= deref_rows(before).push(*row));
                }
            }
            i = i + 1;
        }
        proof {
            assert(self.rows@.subrange(0, i as int) =~= self.rows@);
        }
        out
    }

    /// The non-empty attention groups of the rows under `filter`, attention
    /// first.
    pub fn grouped(&self, filter: FleetFilter) -> (r: Vec<(AttentionGroup, Vec<&FleetRowView>)>)
        ensures
            r@.len() == groups_spec(filter_rows(self.rows@, filter)).len(),
            forall|k: int| 0 <= k < r@.len() ==> {
                &&& (#[trigger] r@[k]).0 == groups_spec(filter_rows(self.rows@, filter))[k].0
                &&& deref_rows(r@[k].1@) == groups_spec(filter_rows(self.rows@, filter))[k].1
            },
    {
        let rows = self.filtered(filter);
        let ghost fr = filter_rows(self.rows@, filter);
        let a = members_of(&rows, AttentionGroup::NeedsPerson);
        let b = members_of(&rows, AttentionGroup::Failed);
        let c = members_of(&rows, AttentionGroup::Nominal);
        let mut out: Vec<(AttentionGroup, Vec<&FleetRowView>)> = Vec::new();
        if a.len() > 0 {
            out.push((AttentionGroup::NeedsPerson, a));
        }
        if b.len() > 0 {
            out.push((AttentionGroup::Failed, b));
        }
        if c.len() > 0 {
            out.push((AttentionGroup::Nominal, c));
        }
        out
    }
}

fn members_of<'a>(rows: &Vec<&'a FleetRowView>, g: AttentionGroup) -> (r: Vec<&'a FleetRowView>)
    ensures
        deref_rows(r@) == rows_in_group(deref_rows(rows@), g),
        r@.len() == rows_in_group(deref_rows(rows@), g).len(),
{
    let mut out: Vec<&'a FleetRowView> = Vec::new();
    let mut i: usize = 0;
    while i < rows.len()
        invariant
            i <= rows@.len(),
            deref_rows(out@) == rows_in_group(deref_rows(rows@.subrange(0, i as int)), g),
        decreases rows.len() - i,
    {
        let ghost before = out@;
        proof {
            let t = deref_rows(rows@.subrange(0, i + 1));
            assert(t.drop_last() =~= deref_rows(rows@.subrange(0, i as int)));
            assert(t.last() == *rows@[i as int]);
        }
        if rows[i].attention == g {
            out.push(rows[i]);
            proof {
                assert(deref_rows(out@) =~= deref_rows(before).push(*rows@[i as int]));
            }
        }
        i = i + 1;
    }
    proof {
        assert(rows@.subrange(0, i as int) =~= rows@);
    }
    out
}

/// Fold the served fleet into rows, in served order.
pub fn fold_fleet(fleet: &FleetListOut) -> (r: FleetView)
    ensures
        r.rows@.len() == fleet.agents@.len(),
        forall|i: int| 0 <= i < r.rows@.len() ==> row_matches(#[trigger] r.rows@[i], fleet.agents@[i]),
{
    let mut rows: Vec<FleetRowView> = Vec::new();
    let mut i: usize = 0;
    while i < fleet.agents.len()
        invariant
            i <= fleet.agents@.len(),
            rows@.len() == i,
            forall|k: int| 0 <= k < i ==> row_matches(#[trigger] rows@[k], fleet.agents@[k]),
        decreases fleet.agents.len() - i,
    {
        rows.push(FleetRowView::from_row(&fleet.agents[i]));
        i = i + 1;
    }
    FleetView { rows }
}

/// The live filter keeps exactly the live agents, in order, and the
/// everything filter keeps every agent.
pub proof fn lemma_live_filter_keeps_only_live_agents(rows: Seq<FleetRowView>)
    ensures
        filter_rows(rows, FleetFilter::All) == rows,
        forall|i: int| 0 <= i < filter_rows(rows, FleetFilter::Live).len()
            ==> is_live_spec(#[trigger] filter_rows(rows, FleetFilter::Live)[i].liveness),
        (forall|i: int| 0 <= i < rows.len() ==> !is_live_spec(#[trigger] rows[i].liveness))
            ==> filter_rows(rows, FleetFilter::Live).len() == 0,
    decreases rows.len(),
{
    if rows.len() > 0 {
        let init = rows.drop_last();
        lemma_live_filter_keeps_only_live_agents(init);
        assert(init.push(rows.last()) =~= rows);
        if forall|i: int| 0 <= i < rows.len() ==> !is_live_spec(#[trigger] rows[i].liveness) {
            assert forall|i: int| 0 <= i < init.len() implies !is_live_spec(#[trigger] init[i].liveness) by {
                assert(init[i] == rows[i]);
            }
            assert(!is_live_spec(rows[rows.len() - 1].liveness));
        }
        let f = filter_rows(init, FleetFilter::Live);
        if shows(FleetFilter::Live, rows.last()) {
            assert forall|i: int| 0 <= i < f.push(rows.last()).len() implies is_live_spec(
                #[trigger] f.push(rows.last())[i].liveness,
            ) by {
                if i < f.len() {
                    assert(f.push(rows.last())[i] == f[i]);
                }
            }
        }
    }
}

/// Grouping by attention loses and duplicates nothing: every agent lands
/// in exactly its own group, so the groups hold as many agents as were
/// grouped; and with nothing to group there are no groups.
pub proof fn lemma_grouping_partitions_the_agents(rows: Seq<FleetRowView>)
    ensures
        rows_in_group(rows, AttentionGroup::NeedsPerson).len() + rows_in_group(rows, AttentionGroup::Failed).len()
            + rows_in_group(rows, AttentionGroup::Nominal).len() == rows.len(),
        forall|g: AttentionGroup, i: int| 0 <= i < rows_in_group(rows, g).len()
            ==> (#[trigger] rows_in_group(rows, g)[i]).attention == g,
        rows.len() == 0 ==> groups_spec(rows).len() == 0,
    decreases rows.len(),
{
    if rows.len() > 0 {
        lemma_grouping_partitions_the_agents(rows.drop_last());
        assert forall|g: AttentionGroup, i: int| 0 <= i < rows_in_group(rows, g).len()
            implies (#[trigger] rows_in_group(rows, g)[i]).attention == g by {
            let prev = rows_in_group(rows.drop_last(), g);
            if rows.last().attention == g && i == prev.len() {
            } else if rows.last().attention == g {
                assert(prev.push(rows.last())[i] == prev[i]);
            }
        }
    }
}

/// With every agent offline, the live filter leaves no group to show.
pub proof fn lemma_no_live_agent_no_live_group(rows: Seq<FleetRowView>)
    requires
        forall|i: int| 0 <= i < rows.len() ==> !is_live_spec(#[trigger] rows[i].liveness),
    ensures
        groups_spec(filter_rows(rows, FleetFilter::Live)).len() == 0,
{
    lemma_live_filter_keeps_only_live_agents(rows);
    lemma_grouping_partitions_the_agents(filter_rows(rows, FleetFilter::Live));
}

} // verus!
