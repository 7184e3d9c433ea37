//! The Agents inspector: the fleet narrowed to one room, and an agent's run
//! history.

use vstd::prelude::*;

use crate::api::{
    FleetListOut, Severity, StatusHistoryOut, StatusLabel, StatusProgress, Timestamp, Truncated,
};
use crate::text::str_eq;
use crate::view::fleet::{fold_fleet, row_matches, FleetRowView};

verus! {

/// The agents of one room.
#[derive(Clone, PartialEq, Eq, Debug)]
pub struct AgentsView {
    /// The room's agents, in served order.
    pub rows: Vec<FleetRowView>,
}

impl AgentsView {
    /// Whether the room has no agents.
    pub fn is_empty(&self) -> (r: bool)
        ensures
            r == (self.rows@.len() == 0),
    {
        self.rows.len() == 0
    }
}

/// The indices of the fleet rows in `room`, in order.
pub open spec fn in_room_indices(fleet: FleetListOut, room: Seq<char>, n: int) -> Seq<int>
    decreases n,
{
    if n <= 0 {
        Seq::empty()
    } else if fleet.agents@[n - 1].room_id@ == room {
        in_room_indices(fleet, room, n - 1).push(n - 1)
    } else {
        in_room_indices(fleet, room, n - 1)
    }
}

/// The room's agents: the fleet filtered by room.
pub fn fold_room_agents(fleet: &FleetListOut, room_id: &String) -> (r: AgentsView)
    ensures
        r.rows@.len() == in_room_indices(*fleet, room_id@, fleet.agents@.len() as int).len(),
        forall|k: int| 0 <= k < r.rows@.len() ==> row_matches(#[trigger] r.rows@[k],
            fleet.agents@[in_room_indices(*fleet, room_id@, fleet.agents@.len() as int)[k]]),
{
    let all = fold_fleet(fleet);
    let mut rows: Vec<FleetRowView> = Vec::new();
    let mut i: usize = 0;
    while i < all.rows.len()
        invariant
            i <= all.rows@.len(),
            all.rows@.len() == fleet.agents@.len(),
            forall|j: int| 0 <= j < all.rows@.len() ==> row_matches(#[trigger] all.rows@[j], fleet.agents@[j]),
            rows@.len() == in_room_indices(*fleet, room_id@, i as int).len(),
            forall|k: int| 0 <= k < rows@.len() ==> row_matches(#[trigger] rows@[k],
                fleet.agents@[in_room_indices(*fleet, room_id@, i as int)[k]]),
        decreases all.rows.len() - i,
    {
        proof {
            assert(row_matches(all.rows@[i as int], fleet.agents@[i as int]));
        }
        proof {
            assert(in_room_indices(*fleet, room_id@, i + 1) == if fleet.agents@[i as int].room_id@ == room_id@ {
                in_room_indices(*fleet, room_id@, i as int).push(i as int)
            } else {
                in_room_indices(*fleet, room_id@, i as int)
            });
        }
        if str_eq(all.rows[i].room_id.as_str(), room_id.as_str()) {
            rows.push(all.rows[i].clone());
        }
        i = i + 1;
    }
    AgentsView { rows }
}

/// The subjects of the room's agents, in served order.
pub fn agent_subjects_in_room(fleet: &FleetListOut, room_id: &String) -> (r: Vec<String>)
    ensures
        r@.len() == in_room_indices(*fleet, room_id@, fleet.agents@.len() as int).len(),
        forall|k: int| 0 <= k < r@.len() ==> (#[trigger] r@[k])@
            == fleet.agents@[in_room_indices(*fleet, room_id@, fleet.agents@.len() as int)[k]].subject_id@,
{
    let mut out: Vec<String> = Vec::new();
    let mut i: usize = 0;
    while i < fleet.agents.len()
        invariant
            i <= fleet.agents@.len(),
            out@.len() == in_room_indices(*fleet, room_id@, i as int).len(),
            forall|k: int| 0 <= k < out@.len() ==> (#[trigger] out@[k])@
                == fleet.agents@[in_room_indices(*fleet, room_id@, i as int)[k]].subject_id@,
        decreases fleet.agents.len() - i,
    {
        proof {
            assert(in_room_indices(*fleet, room_id@, i + 1) == if fleet.agents@[i as int].room_id@ == room_id@ {
                in_room_indices(*fleet, room_id@, i as int).push(i as int)
            } else {
                in_room_indices(*fleet, room_id@, i as int)
            });
        }
        if str_eq(fleet.agents[i].room_id.as_str(), room_id.as_str()) {
            out.push(fleet.agents[i].subject_id.clone());
        }
        i = i + 1;
    }
    out
}

/// One entry of an agent's run history.
#[derive(Clone, Copy, PartialEq, Eq, Debug, Structural)]
pub struct RunEntryView {
    pub at: Timestamp,
    pub label: StatusLabel,
    pub severity: Severity,
    pub progress: StatusProgress,
}

/// An agent's run history.
#[derive(Clone, PartialEq, Eq, Debug)]
pub struct RunHistoryView {
    /// The entries, in served order.
    pub entries: Vec<RunEntryView>,
    /// Whether older entries remain.
    pub has_more: bool,
}

impl RunHistoryView {
    /// Whether the history is empty.
    pub fn is_empty(&self) -> (r: bool)
        ensures
            r == (self.entries@.len() == 0),
    {
        self.entries.len() == 0
    }
}

/// Fold a page of history: each entry keeps its instant, label, served
/// severity and progress; `has_more` follows the truncation.
pub fn fold_run_history(history: &StatusHistoryOut) -> (r: RunHistoryView)
    ensures
        r.entries@.len() == history.entries@.len(),
        forall|k: int| 0 <= k < r.entries@.len() ==> {
            &&& (#[trigger] r.entries@[k]).at == history.entries@[k].at
            &&& r.entries@[k].label == history.entries@[k].label
            &&& r.entries@[k].severity == history.entries@[k].severity
            &&& r.entries@[k].progress == history.entries@[k].progress
        },
        r.has_more == (history.truncated is More),
{
    let mut entries: Vec<RunEntryView> = Vec::new();
    let mut i: usize = 0;
    while i < history.entries.len()
        invariant
            i <= history.entries@.len(),
            entries@.len() == i,
            forall|k: int| 0 <= k < i ==> {
                &&& (#[trigger] entries@[k]).at == history.entries@[k].at
                &&& entries@[k].label == history.entries@[k].label
                &&& entries@[k].severity == history.entries@[k].severity
                &&& entries@[k].progress == history.entries@[k].progress
            },
        decreases history.entries.len() - i,
    {
        let e = history.entries[i];
        entries.push(RunEntryView { at: e.at, label: e.label, severity: e.severity, progress: e.progress });
        i = i + 1;
    }
    let has_more = match history.truncated {
        Truncated::More { .. } => true,
        Truncated::Complete => false,
    };
    RunHistoryView { entries, has_more }
}

} // verus!
