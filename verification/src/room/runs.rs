//! Activity categories, the activity filter, and the folding of consecutive
//! agent-status events into runs.
//!
//! A run is a maximal stretch of two or more consecutive status events
//! signed by the same resolved author; a lone status, an unresolved status
//! and any other event stay single. Folding never drops or reorders a signed
//! event: the runs and singles, flattened, are exactly the input.

use vstd::prelude::*;

use crate::api::{Author, Event, EventKindContent, Timestamp};
use crate::text::str_eq;

verus! {

/// The activity categories a timeline can be filtered by.
#[derive(Clone, Copy, PartialEq, Eq, Hash, Debug, Structural)]
pub enum ActivityCategory {
    /// Messages.
    Conversation,
    /// Agent status posts.
    AgentRuns,
    /// Room creation, joins, departures, removals, invite revocations.
    Membership,
    /// Shared files.
    Files,
    /// Published and revoked pipes.
    Pipes,
}

/// Every category, in presentation order.
pub const ACTIVITY_CATEGORIES: [ActivityCategory; 5] = [
    ActivityCategory::Conversation,
    ActivityCategory::AgentRuns,
    ActivityCategory::Membership,
    ActivityCategory::Files,
    ActivityCategory::Pipes,
];

/// The category an event kind belongs to.
pub open spec fn category_spec(kind: EventKindContent) -> ActivityCategory {
    match kind {
        EventKindContent::Message { .. } => ActivityCategory::Conversation,
        EventKindContent::AgentStatus { .. } => ActivityCategory::AgentRuns,
        EventKindContent::RoomCreated { .. } => ActivityCategory::Membership,
        EventKindContent::MemberJoined { .. } => ActivityCategory::Membership,
        EventKindContent::MemberLeft { .. } => ActivityCategory::Membership,
        EventKindContent::MemberRemoved { .. } => ActivityCategory::Membership,
        EventKindContent::InviteRevoked { .. } => ActivityCategory::Membership,
        EventKindContent::FileShared { .. } => ActivityCategory::Files,
        EventKindContent::PipePublished { .. } => ActivityCategory::Pipes,
        EventKindContent::PipeRevoked { .. } => ActivityCategory::Pipes,
    }
}

/// The category an event kind belongs to.
pub fn category_of(kind: &EventKindContent) -> (r: ActivityCategory)
    ensures
        r == category_spec(*kind),
{
    match kind {
        EventKindContent::Message { .. } => ActivityCategory::Conversation,
        EventKindContent::AgentStatus { .. } => ActivityCategory::AgentRuns,
        EventKindContent::RoomCreated { .. } => ActivityCategory::Membership,
        EventKindContent::MemberJoined { .. } => ActivityCategory::Membership,
        EventKindContent::MemberLeft { .. } => ActivityCategory::Membership,
        EventKindContent::MemberRemoved { .. } => ActivityCategory::Membership,
        EventKindContent::InviteRevoked { .. } => ActivityCategory::Membership,
        EventKindContent::FileShared { .. } => ActivityCategory::Files,
        EventKindContent::PipePublished { .. } => ActivityCategory::Pipes,
        EventKindContent::PipeRevoked { .. } => ActivityCategory::Pipes,
    }
}

/// Whether an event shows under the active filter: an empty selection is
/// everything, otherwise the event's category must be selected.
pub open spec fn passes_filter_spec(event: Event, active: Seq<ActivityCategory>) -> bool {
    active.len() == 0 || active.contains(category_spec(event.kind))
}

/// Whether an event shows under the active filter.
pub fn passes_filter(event: &Event, active: &[ActivityCategory]) -> (r: bool)
    ensures
        r == passes_filter_spec(*event, active@),
{
    if active.len() == 0 {
        return true;
    }
    let c = category_of(&event.kind);
    let mut i: usize = 0;
    while i < active.len()
        invariant
            i <= active@.len(),
            c == category_spec(event.kind),
            forall|j: int| 0 <= j < i ==> active@[j] != c,
        decreases active.len() - i,
    {
        if active[i] == c {
            return true;
        }
        i = i + 1;
    }
    false
}

/// The author a status event folds under: its resolved signer, for status
/// events only.
pub open spec fn run_author_spec(event: Event) -> Option<Seq<char>> {
    match event.kind {
        EventKindContent::AgentStatus { .. } => match event.author {
            Author::Resolved { subject_id, .. } => Some(subject_id@),
            Author::Unresolved => None,
        },
        _ => None,
    }
}

fn run_author(event: &Event) -> (r: Option<&String>)
    ensures
        match r {
            Some(a) => run_author_spec(*event) == Some(a@),
            None => run_author_spec(*event) is None,
        },
{
    match &event.kind {
        EventKindContent::AgentStatus { .. } => match &event.author {
            Author::Resolved { subject_id, .. } => Some(subject_id),
            Author::Unresolved => None,
        },
        _ => None,
    }
}

/// A run's summary.
#[derive(PartialEq, Debug)]
pub struct RunSummary {
    /// How many events the run folds.
    pub count: usize,
    /// When its first event was signed.
    pub first_at: Timestamp,
    /// When its last event was signed.
    pub last_at: Timestamp,
    /// Its latest event.
    pub latest: Event,
}

/// Consecutive status events by one author.
#[derive(PartialEq, Debug)]
pub struct AgentRun {
    /// The folded events, in order.
    pub events: Vec<Event>,
    /// Their summary.
    pub summary: RunSummary,
}

impl Clone for RunSummary {
    fn clone(&self) -> (r: Self)
        ensures
            r == *self,
    {
        RunSummary {
            count: self.count,
            first_at: self.first_at,
            last_at: self.last_at,
            latest: self.latest.clone(),
        }
    }
}

/// A copy of a run of events.
pub fn clone_events(v: &Vec<Event>) -> (r: Vec<Event>)
    ensures
        r@ == v@,
{
    let mut out: Vec<Event> = Vec::new();
    let mut i: usize = 0;
    while i < v.len()
        invariant
            i <= v@.len(),
            out@ == v@.subrange(0, i as int),
        decreases v.len() - i,
    {
        out.push(v[i].clone());
        proof {
            assert(v@.subrange(0, i + 1) =~= v@.subrange(0, i as int).push(v@[i as int]));
        }
        i = i + 1;
    }
    proof {
        assert(v@.subrange(0, i as int) =~= v@);
    }
    out
}

impl Clone for AgentRun {
    fn clone(&self) -> (r: Self)
        ensures
            r.events@ == self.events@,
            r.summary == self.summary,
    {
        AgentRun { events: clone_events(&self.events), summary: self.summary.clone() }
    }
}

/// One entry of a folded timeline.
#[derive(Clone, PartialEq, Debug)]
pub enum Grouped {
    /// An event shown on its own.
    Single(Event),
    /// A run of status events.
    Run(AgentRun),
}

/// A folded entry as plain values: the event, or the run's events.
pub enum GroupedView {
    Single(Event),
    Run(Seq<Event>),
}

/// A folded entry's plain value.
pub open spec fn grouped_view(g: Grouped) -> GroupedView {
    match g {
        Grouped::Single(e) => GroupedView::Single(e),
        Grouped::Run(r) => GroupedView::Run(r.events@),
    }
}

/// A run's summary agrees with its events.
pub open spec fn summary_agrees(r: AgentRun) -> bool {
    let ev = r.events@;
    &&& ev.len() >= 1
    &&& r.summary.count == ev.len()
    &&& r.summary.first_at == ev[0].at
    &&& r.summary.last_at == ev.last().at
    &&& r.summary.latest == ev.last()
}

/// Whether an entry is consistent (a run's summary agrees with it).
pub open spec fn grouped_ok(g: Grouped) -> bool {
    match g {
        Grouped::Single(_) => true,
        Grouped::Run(r) => summary_agrees(r),
    }
}

/// How many leading events are status events by `a`.
pub open spec fn lead_run(t: Seq<Event>, a: Seq<char>) -> nat
    decreases t.len(),
{
    if t.len() > 0 && run_author_spec(t[0]) == Some(a) {
        1 + lead_run(t.drop_first(), a)
    } else {
        0
    }
}

/// The folded timeline: each event without a run author stays single; a
/// status event starts the maximal stretch of status events by its author,
/// which folds into a run when it holds two or more events.
pub open spec fn fold_runs_spec(s: Seq<Event>) -> Seq<GroupedView>
    decreases s.len(),
{
    if s.len() == 0 {
        Seq::empty()
    } else {
        match run_author_spec(s[0]) {
            None => seq![GroupedView::Single(s[0])] + fold_runs_spec(s.drop_first()),
            Some(a) => {
                let n = lead_run(s, a);
                if n >= 2 && n <= s.len() {
                    seq![GroupedView::Run(s.take(n as int))] + fold_runs_spec(s.skip(n as int))
                } else {
                    seq![GroupedView::Single(s[0])] + fold_runs_spec(s.drop_first())
                }
            },
        }
    }
}

/// The events of folded entries, in order.
pub open spec fn flatten(gs: Seq<GroupedView>) -> Seq<Event>
    decreases gs.len(),
{
    if gs.len() == 0 {
        Seq::empty()
    } else {
        let head = match gs[0] {
            GroupedView::Single(e) => seq![e],
            GroupedView::Run(es) => es,
        };
        head + flatten(gs.drop_first())
    }
}

/// Two or more status events, all by the first one's resolved author.
pub open spec fn same_author_run(es: Seq<Event>) -> bool {
    &&& es.len() >= 2
    &&& run_author_spec(es[0]) is Some
    &&& forall|k: int| 0 <= k < es.len() ==> #[trigger] run_author_spec(es[k]) == run_author_spec(es[0])
}

/// Every run folds two or more status events by one resolved author.
pub open spec fn runs_are_same_author(gs: Seq<GroupedView>) -> bool {
    forall|i: int| 0 <= i < gs.len() ==> entry_same_author(#[trigger] gs[i])
}

/// A run entry folds two or more status events by one resolved author.
pub open spec fn entry_same_author(g: GroupedView) -> bool {
    match g {
        GroupedView::Run(es) => same_author_run(es),
        GroupedView::Single(_) => true,
    }
}

proof fn lemma_lead_run_bound(t: Seq<Event>, a: Seq<char>)
    ensures
        lead_run(t, a) <= t.len(),
        forall|k: int| 0 <= k < lead_run(t, a) ==> #[trigger] run_author_spec(t[k]) == Some(a),
    decreases t.len(),
{
    if t.len() > 0 && run_author_spec(t[0]) == Some(a) {
        lemma_lead_run_bound(t.drop_first(), a);
        assert forall|k: int| 0 <= k < lead_run(t, a) implies #[trigger] run_author_spec(t[k]) == Some(a) by {
            if k > 0 {
                assert(t[k] == t.drop_first()[k - 1]);
            }
        }
    }
}

proof fn lemma_lead_run_exact(t: Seq<Event>, a: Seq<char>, m: int)
    requires
        0 <= m <= t.len(),
        forall|k: int| 0 <= k < m ==> #[trigger] run_author_spec(t[k]) == Some(a),
        m == t.len() || run_author_spec(t[m]) != Some(a),
    ensures
        lead_run(t, a) == m,
    decreases m,
{
    if m > 0 {
        assert(run_author_spec(t[0]) == Some(a));
        let u = t.drop_first();
        assert forall|k: int| 0 <= k < m - 1 implies #[trigger] run_author_spec(u[k]) == Some(a) by {
            assert(u[k] == t[k + 1]);
        }
        if m < t.len() {
            assert(u[m - 1] == t[m]);
        }
        lemma_lead_run_exact(u, a, m - 1);
    }
}

proof fn lemma_flatten_append(x: Seq<GroupedView>, y: Seq<GroupedView>)
    ensures
        flatten(x + y) == flatten(x) + flatten(y),
    decreases x.len(),
{
    if x.len() == 0 {
        assert(x + y =~= y);
    } else {
        assert((x + y).drop_first() =~= x.drop_first() + y);
        lemma_flatten_append(x.drop_first(), y);
        let head = match x[0] {
            GroupedView::Single(e) => seq![e],
            GroupedView::Run(es) => es,
        };
        assert(head + (flatten(x.drop_first()) + flatten(y)) =~= (head + flatten(x.drop_first())) + flatten(y));
    }
}

proof fn lemma_flatten_one(g: GroupedView)
    ensures
        flatten(seq![g]) == match g {
            GroupedView::Single(e) => seq![e],
            GroupedView::Run(es) => es,
        },
{
    let one = seq![g];
    assert(one.drop_first() =~= Seq::<GroupedView>::empty());
    assert(flatten(one.drop_first()) == Seq::<Event>::empty());
    assert(one[0] == g);
    let head = match g {
        GroupedView::Single(e) => seq![e],
        GroupedView::Run(es) => es,
    };
    assert(flatten(one) == head + flatten(one.drop_first()));
    assert(head + Seq::<Event>::empty() =~= head);
}

/// Folding never drops, duplicates or reorders a signed event: the folded
/// entries, flattened, are exactly the input.
pub proof fn lemma_folding_never_drops_an_event(s: Seq<Event>)
    ensures
        flatten(fold_runs_spec(s)) == s,
    decreases s.len(),
{
    if s.len() > 0 {
        match run_author_spec(s[0]) {
            None => {
                lemma_folding_never_drops_an_event(s.drop_first());
                lemma_flatten_append(seq![GroupedView::Single(s[0])], fold_runs_spec(s.drop_first()));
                lemma_flatten_one(GroupedView::Single(s[0]));
                assert(seq![s[0]] + s.drop_first() =~= s);
            },
            Some(a) => {
                let n = lead_run(s, a);
                lemma_lead_run_bound(s, a);
                if n >= 2 && n <= s.len() {
                    lemma_folding_never_drops_an_event(s.skip(n as int));
                    lemma_flatten_append(seq![GroupedView::Run(s.take(n as int))], fold_runs_spec(s.skip(n as int)));
                    lemma_flatten_one(GroupedView::Run(s.take(n as int)));
                    assert(s.take(n as int) + s.skip(n as int) =~= s);
                } else {
                    lemma_folding_never_drops_an_event(s.drop_first());
                    lemma_flatten_append(seq![GroupedView::Single(s[0])], fold_runs_spec(s.drop_first()));
                    lemma_flatten_one(GroupedView::Single(s[0]));
                    assert(seq![s[0]] + s.drop_first() =~= s);
                }
            },
        }
    }
}

/// Every run holds two or more status events signed by one resolved
/// author; so an unresolved status, and any other event, is never folded.
pub proof fn lemma_runs_fold_one_resolved_author(s: Seq<Event>)
    ensures
        runs_are_same_author(fold_runs_spec(s)),
    decreases s.len(),
{
    if s.len() > 0 {
        match run_author_spec(s[0]) {
            None => {
                lemma_runs_fold_one_resolved_author(s.drop_first());
                let rest = fold_runs_spec(s.drop_first());
                let all = seq![GroupedView::Single(s[0])] + rest;
                assert forall|i: int| 0 <= i < all.len() implies entry_same_author(#[trigger] all[i]) by {
                    if i > 0 {
                        assert(all[i] == rest[i - 1]);
                    }
                }
            },
            Some(a) => {
                let n = lead_run(s, a);
                lemma_lead_run_bound(s, a);
                if n >= 2 && n <= s.len() {
                    lemma_runs_fold_one_resolved_author(s.skip(n as int));
                    let rest = fold_runs_spec(s.skip(n as int));
                    let run = s.take(n as int);
                    let all = seq![GroupedView::Run(run)] + rest;
                    assert forall|k: int| 0 <= k < run.len() implies #[trigger] run_author_spec(run[k]) == Some(a) by {
                        assert(run[k] == s[k]);
                    }
                    assert forall|i: int| 0 <= i < all.len() implies entry_same_author(#[trigger] all[i]) by {
                        if i > 0 {
                            assert(all[i] == rest[i - 1]);
                        }
                    }
                } else {
                    lemma_runs_fold_one_resolved_author(s.drop_first());
                    let rest = fold_runs_spec(s.drop_first());
                    let all = seq![GroupedView::Single(s[0])] + rest;
                    assert forall|i: int| 0 <= i < all.len() implies entry_same_author(#[trigger] all[i]) by {
                        if i > 0 {
                            assert(all[i] == rest[i - 1]);
                        }
                    }
                }
            },
        }
    }
}

fn summarize(events: &[Event], from: usize, to: usize) -> (r: AgentRun)
    requires
        from < to <= events@.len(),
    ensures
        r.events@ == events@.subrange(from as int, to as int),
        summary_agrees(r),
{
    let mut out: Vec<Event> = Vec::new();
    let mut i: usize = from;
    while i < to
        invariant
            from <= i <= to <= events@.len(),
            out@ == events@.subrange(from as int, i as int),
        decreases to - i,
    {
        out.push(events[i].clone());
        proof {
            assert(events@.subrange(from as int, i + 1) =~= events@.subrange(from as int, i as int).push(events@[i as int]));
        }
        i = i + 1;
    }
    let first_at = events[from].at;
    let last_at = events[to - 1].at;
    let latest = events[to - 1].clone();
    AgentRun {
        events: out,
        summary: RunSummary { count: to - from, first_at, last_at, latest },
    }
}

/// Fold consecutive same-author status events into runs.
pub fn fold_runs(events: &[Event]) -> (r: Vec<Grouped>)
    ensures
        r@.map_values(|g: Grouped| grouped_view(g)) == fold_runs_spec(events@),
        forall|i: int| 0 <= i < r@.len() ==> grouped_ok(#[trigger] r@[i]),
{
    let ghost s = events@;
    let mut out: Vec<Grouped> = Vec::new();
    let mut index: usize = 0;
    proof {
        assert(s.skip(0) =~= s);
    }
    while index < events.len()
        invariant
            s == events@,
            index <= s.len(),
            fold_runs_spec(s) == out@.map_values(|g: Grouped| grouped_view(g)) + fold_runs_spec(s.skip(index as int)),
            forall|i: int| 0 <= i < out@.len() ==> grouped_ok(#[trigger] out@[i]),
        decreases s.len() - index,
    {
        let ghost t = s.skip(index as int);
        let ghost before = out@;
        proof {
            assert(t[0] == s[index as int]);
            assert(t.drop_first() =~= s.skip(index + 1));
        }
        match run_author(&events[index]) {
            None => {
                let e = events[index].clone();
                out.push(Grouped::Single(e));
                proof {
                    assert(out@.map_values(|g: Grouped| grouped_view(g)) =~= before.map_values(|g: Grouped| grouped_view(g)).push(GroupedView::Single(s[index as int])));
                    assert(before.map_values(|g: Grouped| grouped_view(g)).push(GroupedView::Single(s[index as int])) + fold_runs_spec(s.skip(index + 1))
                        =~= before.map_values(|g: Grouped| grouped_view(g)) + (seq![GroupedView::Single(s[index as int])] + fold_runs_spec(s.skip(index + 1))));
                }
                index = index + 1;
            },
            Some(author) => {
                let mut end: usize = index + 1;
                while end < events.len()
                    invariant
                        s == events@,
                        index < end <= s.len(),
                        run_author_spec(s[index as int]) == Some(author@),
                        forall|k: int| index <= k < end ==> #[trigger] run_author_spec(s[k]) == Some(author@),
                    ensures
                        index < end <= s.len(),
                        forall|k: int| index <= k < end ==> #[trigger] run_author_spec(s[k]) == Some(author@),
                        end == s.len() || run_author_spec(s[end as int]) != Some(author@),
                    decreases s.len() - end,
                {
                    let same = match run_author(&events[end]) {
                        Some(other) => str_eq(other.as_str(), author.as_str()),
                        None => false,
                    };
                    if !same {
                        break;
                    }
                    end = end + 1;
                }
                proof {
                    assert forall|k: int| 0 <= k < end - index implies #[trigger] run_author_spec(t[k]) == Some(author@) by {
                        assert(t[k] == s[index + k]);
                    }
                    if end < s.len() {
                        assert(t[end - index] == s[end as int]);
                    }
                    lemma_lead_run_exact(t, author@, end - index);
                    assert(t.skip(end - index) =~= s.skip(end as int));
                }
                if end - index >= 2 {
                    let run = summarize(events, index, end);
                    out.push(Grouped::Run(run));
                    proof {
                        assert(t.take(end - index) =~= s.subrange(index as int, end as int));
                        assert(out@.map_values(|g: Grouped| grouped_view(g)) =~= before.map_values(|g: Grouped| grouped_view(g)).push(GroupedView::Run(t.take(end - index))));
                        assert(before.map_values(|g: Grouped| grouped_view(g)).push(GroupedView::Run(t.take(end - index))) + fold_runs_spec(s.skip(end as int))
                            =~= before.map_values(|g: Grouped| grouped_view(g)) + (seq![GroupedView::Run(t.take(end - index))] + fold_runs_spec(t.skip(end - index))));
                    }
                } else {
                    let e = events[index].clone();
                    out.push(Grouped::Single(e));
                    proof {
                        assert(out@.map_values(|g: Grouped| grouped_view(g)) =~= before.map_values(|g: Grouped| grouped_view(g)).push(GroupedView::Single(s[index as int])));
                        assert(before.map_values(|g: Grouped| grouped_view(g)).push(GroupedView::Single(s[index as int])) + fold_runs_spec(s.skip(index + 1))
                            =~= before.map_values(|g: Grouped| grouped_view(g)) + (seq![GroupedView::Single(s[index as int])] + fold_runs_spec(s.skip(index + 1))));
                    }
                }
                index = end;
            },
        }
    }
    proof {
        assert(s.skip(index as int) =~= Seq::<Event>::empty());
        assert(out@.map_values(|g: Grouped| grouped_view(g)) + Seq::<GroupedView>::empty() =~= out@.map_values(|g: Grouped| grouped_view(g)));
    }
    out
}

/// The first event of a folded entry.
pub open spec fn entry_first(g: GroupedView) -> Event {
    match g {
        GroupedView::Single(e) => e,
        GroupedView::Run(es) => es[0],
    }
}

/// The last event of a folded entry.
pub open spec fn entry_last(g: GroupedView) -> Event {
    match g {
        GroupedView::Single(e) => e,
        GroupedView::Run(es) => es.last(),
    }
}

proof fn lemma_lead_run_stops(t: Seq<Event>, a: Seq<char>)
    ensures
        lead_run(t, a) < t.len() ==> run_author_spec(t[lead_run(t, a) as int]) != Some(a),
    decreases t.len(),
{
    if t.len() > 0 && run_author_spec(t[0]) == Some(a) {
        lemma_lead_run_stops(t.drop_first(), a);
        if lead_run(t, a) < t.len() {
            assert(t[lead_run(t, a) as int] == t.drop_first()[lead_run(t.drop_first(), a) as int]);
        }
    }
}

proof fn lemma_fold_starts_with_the_first_event(t: Seq<Event>)
    requires
        t.len() > 0,
    ensures
        fold_runs_spec(t).len() > 0,
        entry_first(fold_runs_spec(t)[0]) == t[0],
{
    match run_author_spec(t[0]) {
        None => {},
        Some(a) => {
            let n = lead_run(t, a);
            if n >= 2 && n <= t.len() {
                assert(t.take(n as int)[0] == t[0]);
            }
        },
    }
}

/// Runs are maximal: no folded entry ending in a status event is followed
/// by an entry that starts with a status event by the same author, so two
/// stretches by one author are never split apart.
pub proof fn lemma_runs_are_maximal(s: Seq<Event>)
    ensures
        forall|i: int| 0 <= i < fold_runs_spec(s).len() - 1 ==> (run_author_spec(entry_last(#[trigger] fold_runs_spec(s)[i])) is Some
            ==> run_author_spec(entry_first(fold_runs_spec(s)[i + 1])) != run_author_spec(entry_last(fold_runs_spec(s)[i]))),
    decreases s.len(),
{
    let gs = fold_runs_spec(s);
    if s.len() > 0 {
        let (rest_src, head) = match run_author_spec(s[0]) {
            None => (s.drop_first(), GroupedView::Single(s[0])),
            Some(a) => {
                let n = lead_run(s, a);
                lemma_lead_run_bound(s, a);
                lemma_lead_run_stops(s, a);
                if n >= 2 && n <= s.len() {
                    (s.skip(n as int), GroupedView::Run(s.take(n as int)))
                } else {
                    (s.drop_first(), GroupedView::Single(s[0]))
                }
            },
        };
        let rest = fold_runs_spec(rest_src);
        assert(gs == seq![head] + rest);
        lemma_runs_are_maximal(rest_src);
        assert forall|i: int| 0 <= i < gs.len() - 1 implies (run_author_spec(entry_last(#[trigger] gs[i])) is Some
            ==> run_author_spec(entry_first(gs[i + 1])) != run_author_spec(entry_last(gs[i]))) by {
            if i == 0 {
                if run_author_spec(entry_last(gs[0])) is Some {
                    lemma_fold_starts_with_the_first_event(rest_src);
                    assert(gs[1] == rest[0]);
                    let a = run_author_spec(s[0])->0;
                    let n = lead_run(s, a);
                    if n >= 2 && n <= s.len() {
                        assert(entry_last(gs[0]) == s[n - 1]);
                        assert(rest_src[0] == s[n as int]);
                    } else {
                        assert(rest_src[0] == s[1]);
                    }
                }
            } else {
                assert(gs[i] == rest[i - 1]);
                assert(gs[i + 1] == rest[i]);
            }
        }
    }
}

} // verus!
