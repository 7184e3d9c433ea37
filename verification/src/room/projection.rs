//! The render projection of a room timeline: the filtered, run-folded
//! committed events with the optimistic sends interleaved at their slots,
//! then decorated with day dividers, sides and compaction.
//!
//! Pending sends are never filtered; they sink to the slot of their compose
//! instant. A pending send never opens a day divider of its own. Consecutive
//! messages by one sender within five minutes compact, unless a divider or a
//! non-message breaks the streak.

use vstd::prelude::*;

use crate::api::{ts_lt, Author, Event, EventKindContent, Timestamp};
use crate::room::runs::{
    fold_runs, fold_runs_spec, grouped_ok, grouped_view, passes_filter, passes_filter_spec,
    summary_agrees, ActivityCategory, AgentRun, Grouped, GroupedView,
};
use crate::room::send::SendEntry;
use crate::text::str_eq;

verus! {

/// One unit the timeline renders.
#[derive(PartialEq, Debug)]
pub enum RenderUnit {
    /// A committed event shown on its own.
    Event(Event),
    /// A folded run of status events.
    Run(AgentRun),
    /// An optimistic send.
    Pending(SendEntry),
}

impl Clone for RenderUnit {
    fn clone(&self) -> (r: Self)
        ensures
            unit_view(r) == unit_view(*self),
            unit_ok(*self) ==> unit_ok(r),
            unit_at_spec(r) == unit_at_spec(*self),
    {
        match self {
            RenderUnit::Event(e) => RenderUnit::Event(e.clone()),
            RenderUnit::Run(run) => RenderUnit::Run(run.clone()),
            RenderUnit::Pending(p) => RenderUnit::Pending(p.clone()),
        }
    }
}

/// A unit as plain values.
pub enum RenderUnitView {
    Event(Event),
    Run(Seq<Event>),
    Pending(SendEntry),
}

/// A unit's plain value.
pub open spec fn unit_view(u: RenderUnit) -> RenderUnitView {
    match u {
        RenderUnit::Event(e) => RenderUnitView::Event(e),
        RenderUnit::Run(r) => RenderUnitView::Run(r.events@),
        RenderUnit::Pending(p) => RenderUnitView::Pending(p),
    }
}

/// A unit is consistent: a run's summary agrees with its events.
pub open spec fn unit_ok(u: RenderUnit) -> bool {
    match u {
        RenderUnit::Run(r) => summary_agrees(r),
        _ => true,
    }
}

/// Which side a row renders on.
#[derive(Clone, Copy, PartialEq, Eq, Debug, Structural)]
pub enum Side {
    /// Authored by this device's subject.
    Own,
    /// Authored by someone else.
    Remote,
    /// A system line.
    System,
}

/// A calendar day in UTC.
#[derive(Clone, Copy, PartialEq, Eq, Debug, Structural)]
pub struct DayKey {
    /// The year.
    pub year: i32,
    /// The month, 1 to 12.
    pub month: u8,
    /// The day of the month.
    pub day: u8,
}

/// A decorated timeline row.
#[derive(Clone, PartialEq, Debug)]
pub struct TimelineRow {
    /// The day divider to draw above the row.
    pub divider: Option<DayKey>,
    /// The row's side.
    pub side: Side,
    /// Whether the row compacts into the previous message.
    pub compact: bool,
    /// The unit.
    pub unit: RenderUnit,
}

/// The UTC calendar date (year, month, day) of a Unix second, as the
/// `time` crate computes it.
pub uninterp spec fn utc_calendar_date(unix_seconds: i64) -> (i32, u8, u8);

/// `time::OffsetDateTime::from_unix_timestamp` followed by
/// `date().to_calendar_date()`: the UTC calendar date of a Unix second. The
/// contract claims only that the result is the named function of the
/// argument; the argument is within the range the call accepts.
#[verifier::external_body]
fn calendar_date(unix_seconds: i64) -> (r: (i32, u8, u8))
    requires
        crate::api::MIN_UNIX_SECONDS <= unix_seconds <= crate::api::MAX_UNIX_SECONDS,
    ensures
        r == utc_calendar_date(unix_seconds),
{
    let t = time::OffsetDateTime::from_unix_timestamp(unix_seconds).unwrap_or(time::OffsetDateTime::UNIX_EPOCH);
    let (year, month, day) = t.date().to_calendar_date();
    (year, u8::from(month), day)
}

/// How many events a timeline holds: the honest total, whatever the
/// folding and filtering.
pub fn activity_total(timeline: &[Event]) -> (r: usize)
    ensures
        r == timeline@.len(),
{
    timeline.len()
}

/// The events of `s` that pass the active filter, in order.
pub open spec fn filter_spec(s: Seq<Event>, active: Seq<ActivityCategory>) -> Seq<Event>
    decreases s.len(),
{
    if s.len() == 0 {
        Seq::empty()
    } else if passes_filter_spec(s.last(), active) {
        filter_spec(s.drop_last(), active).push(s.last())
    } else {
        filter_spec(s.drop_last(), active)
    }
}

/// A folded entry as a render unit.
pub open spec fn grouped_to_unit(g: GroupedView) -> RenderUnitView {
    match g {
        GroupedView::Single(e) => RenderUnitView::Event(e),
        GroupedView::Run(es) => RenderUnitView::Run(es),
    }
}

/// The instant a unit is placed at: an event's signing time, a run's last
/// event, a pending send's compose time.
pub open spec fn view_at(u: RenderUnitView) -> Timestamp {
    match u {
        RenderUnitView::Event(e) => e.at,
        RenderUnitView::Run(es) => es.last().at,
        RenderUnitView::Pending(p) => p.at,
    }
}

/// The instant a unit is placed at.
pub open spec fn unit_at_spec(u: RenderUnit) -> Timestamp {
    match u {
        RenderUnit::Event(e) => e.at,
        RenderUnit::Run(r) => r.summary.last_at,
        RenderUnit::Pending(p) => p.at,
    }
}

/// Pending sends ordered by compose time, then client id.
pub open spec fn pending_le(a: SendEntry, b: SendEntry) -> bool {
    ts_lt(a.at, b.at) || (a.at == b.at && a.client_id.0 <= b.client_id.0)
}

/// `ps` is `pending` ordered by compose time, then client id.
pub open spec fn sorted_pending_of(ps: Seq<SendEntry>, pending: Seq<SendEntry>) -> bool {
    &&& ps.to_multiset() == pending.to_multiset()
    &&& ps.len() == pending.len()
    &&& forall|i: int, j: int| 0 <= i < j < ps.len() ==> pending_le(ps[i], ps[j])
}

/// The committed units with each pending send placed before the first
/// committed unit it strictly precedes; the rest trail.
pub open spec fn merge_units_spec(c: Seq<RenderUnitView>, p: Seq<SendEntry>) -> Seq<RenderUnitView>
    decreases c.len() + p.len(),
{
    if c.len() == 0 && p.len() == 0 {
        Seq::empty()
    } else if c.len() > 0 && !(p.len() > 0 && ts_lt(p[0].at, view_at(c[0]))) {
        seq![c[0]] + merge_units_spec(c.drop_first(), p)
    } else {
        seq![RenderUnitView::Pending(p[0])] + merge_units_spec(c, p.drop_first())
    }
}

fn pending_key_le(a: &SendEntry, b: &SendEntry) -> (r: bool)
    ensures
        r == pending_le(*a, *b),
{
    a.at.is_before(&b.at) || (a.at == b.at && a.client_id.0 <= b.client_id.0)
}

proof fn lemma_pending_le_total(a: SendEntry, b: SendEntry)
    ensures
        pending_le(a, b) || pending_le(b, a),
{
    if !ts_lt(a.at, b.at) && !ts_lt(b.at, a.at) {
        assert(a.at.seconds() == b.at.seconds() && a.at.subsec() == b.at.subsec());
        lemma_timestamp_ext(a.at, b.at);
    }
}

proof fn lemma_pending_le_trans(a: SendEntry, b: SendEntry, c: SendEntry)
    requires
        pending_le(a, b),
        pending_le(b, c),
    ensures
        pending_le(a, c),
{
}

proof fn lemma_timestamp_ext(a: Timestamp, b: Timestamp)
    requires
        a.seconds() == b.seconds(),
        a.subsec() == b.subsec(),
    ensures
        a == b,
{
    crate::api::lemma_timestamp_ext(a, b);
}

proof fn lemma_swap_multiset_entries(s: Seq<SendEntry>, i: int, j: int)
    requires
        0 <= i < s.len(),
        0 <= j < s.len(),
    ensures
        s.update(i, s[j]).update(j, s[i]).to_multiset() == s.to_multiset(),
{
    broadcast use vstd::seq_lib::group_to_multiset_ensures;
    let t = s.update(i, s[j]);
    if i == j {
        assert(s.update(i, s[j]) =~= s);
        assert(s.update(i, s[j]).update(j, s[i]) =~= s);
    } else {
        assert(t[j] == s[j]);
        assert(s.to_multiset().remove(s[i]).insert(s[j]).remove(s[j]).insert(s[i]) =~= s.to_multiset());
    }
}

/// The pending sends, ordered by compose time then client id (stable).
fn sorted_pending(pending: &[SendEntry]) -> (r: Vec<SendEntry>)
    ensures
        sorted_pending_of(r@, pending@),
{
    let mut v: Vec<SendEntry> = Vec::new();
    let mut k: usize = 0;
    while k < pending.len()
        invariant
            k <= pending@.len(),
            v@ == pending@.subrange(0, k as int),
        decreases pending.len() - k,
    {
        v.push(pending[k].clone());
        proof {
            assert(pending@.subrange(0, k + 1) =~= pending@.subrange(0, k as int).push(pending@[k as int]));
        }
        k = k + 1;
    }
    proof {
        assert(pending@.subrange(0, k as int) =~= pending@);
    }
    let ghost orig = v@;
    if v.len() == 0 {
        return v;
    }
    let mut i: usize = 1;
    while i < v.len()
        invariant
            1 <= i <= v@.len(),
            v@.len() == orig.len(),
            orig == pending@,
            v@.to_multiset() == orig.to_multiset(),
            forall|a: int, b: int| 0 <= a < b < i ==> pending_le(#[trigger] v@[a], #[trigger] v@[b]),
        decreases v.len() - i,
    {
        let mut j: usize = i;
        while j > 0 && !pending_key_le(&v[j - 1], &v[j])
            invariant
                0 <= j <= i < v@.len(),
                v@.len() == orig.len(),
                v@.to_multiset() == orig.to_multiset(),
                forall|a: int, b: int| 0 <= a < b <= i && a != j && b != j ==> pending_le(#[trigger] v@[a], #[trigger] v@[b]),
                forall|b: int| j < b <= i ==> pending_le(v@[j as int], #[trigger] v@[b]),
            decreases j,
        {
            let ghost before = v@;
            proof {
                lemma_pending_le_total(before[j - 1], before[j as int]);
            }
            let a = v[j - 1].clone();
            let b = v[j].clone();
            v.set(j - 1, b);
            v.set(j, a);
            proof {
                assert(v@ =~= before.update(j - 1, before[j as int]).update(j as int, before[j - 1]));
                lemma_swap_multiset_entries(before, j - 1, j as int);
                assert forall|b2: int| j - 1 < b2 <= i implies pending_le(v@[j - 1], #[trigger] v@[b2]) by {
                    if b2 > j {
                        assert(pending_le(before[j as int], before[b2]));
                    }
                }
            }
            j = j - 1;
        }
        proof {
            assert forall|a: int, b: int| 0 <= a < b <= i implies pending_le(#[trigger] v@[a], #[trigger] v@[b]) by {
                if b == j && j > 0 {
                    if a < j - 1 {
                        lemma_pending_le_trans(v@[a], v@[j - 1], v@[j as int]);
                    }
                } else if a == j {
                } else if b == j {
                }
            }
        }
        i = i + 1;
    }
    v
}

/// The committed units, filtered and run-folded, with the pending sends
/// interleaved at their compose slots. Pending sends are never filtered.
pub fn build_render_units(
    timeline: &[Event],
    pending: &[SendEntry],
    active_filters: &[ActivityCategory],
) -> (r: Vec<RenderUnit>)
    ensures
        exists|ps: Seq<SendEntry>| #![trigger sorted_pending_of(ps, pending@)]
            sorted_pending_of(ps, pending@)
            && r@.map_values(|u: RenderUnit| unit_view(u)) == merge_units_spec(
                fold_runs_spec(filter_spec(timeline@, active_filters@)).map_values(|g: GroupedView| grouped_to_unit(g)),
                ps,
            ),
        forall|i: int| 0 <= i < r@.len() ==> unit_ok(#[trigger] r@[i]),
{
    let mut filtered: Vec<Event> = Vec::new();
    let mut k: usize = 0;
    while k < timeline.len()
        invariant
            k <= timeline@.len(),
            filtered@ == filter_spec(timeline@.subrange(0, k as int), active_filters@),
        decreases timeline.len() - k,
    {
        proof {
            let t = timeline@.subrange(0, k + 1);
            assert(t.drop_last() =~= timeline@.subrange(0, k as int));
            assert(t.last() == timeline@[k as int]);
        }
        if passes_filter(&timeline[k], active_filters) {
            filtered.push(timeline[k].clone());
        }
        k = k + 1;
    }
    proof {
        assert(timeline@.subrange(0, k as int) =~= timeline@);
    }
    let grouped = fold_runs(&filtered);
    let ghost c = fold_runs_spec(filtered@).map_values(|g: GroupedView| grouped_to_unit(g));
    let mut committed: Vec<RenderUnit> = Vec::new();
    let mut g: usize = 0;
    while g < grouped.len()
        invariant
            g <= grouped@.len(),
            grouped@.map_values(|x: Grouped| grouped_view(x)) == fold_runs_spec(filtered@),
            forall|i: int| 0 <= i < grouped@.len() ==> grouped_ok(#[trigger] grouped@[i]),
            c == fold_runs_spec(filtered@).map_values(|x: GroupedView| grouped_to_unit(x)),
            committed@.len() == g,
            forall|i: int| 0 <= i < g ==> unit_view(#[trigger] committed@[i]) == c[i],
            forall|i: int| 0 <= i < g ==> unit_ok(#[trigger] committed@[i]),
        decreases grouped.len() - g,
    {
        proof {
            assert(grouped@.map_values(|x: Grouped| grouped_view(x))[g as int] == grouped_view(grouped@[g as int]));
            assert(grouped_ok(grouped@[g as int]));
        }
        let unit = match &grouped[g] {
            Grouped::Single(e) => RenderUnit::Event(e.clone()),
            Grouped::Run(run) => RenderUnit::Run(run.clone()),
        };
        committed.push(unit);
        g = g + 1;
    }
    let pend = sorted_pending(pending);
    let ghost ps = pend@;
    let mut out: Vec<RenderUnit> = Vec::new();
    let mut ci: usize = 0;
    let mut pi: usize = 0;
    proof {
        assert(committed@.map_values(|u: RenderUnit| unit_view(u)) =~= c);
        assert(c.skip(0) =~= c);
        assert(ps.skip(0) =~= ps);
        assert(out@.map_values(|u: RenderUnit| unit_view(u)) =~= Seq::<RenderUnitView>::empty());
    }
    while ci < committed.len() || pi < pend.len()
        invariant
            ci <= committed@.len(),
            pi <= pend@.len(),
            ps == pend@,
            committed@.len() == c.len(),
            forall|i: int| 0 <= i < committed@.len() ==> unit_view(#[trigger] committed@[i]) == c[i],
            forall|i: int| 0 <= i < committed@.len() ==> unit_ok(#[trigger] committed@[i]),
            forall|i: int| 0 <= i < out@.len() ==> unit_ok(#[trigger] out@[i]),
            merge_units_spec(c, ps) == out@.map_values(|u: RenderUnit| unit_view(u)) + merge_units_spec(c.skip(ci as int), ps.skip(pi as int)),
        decreases committed.len() + pend.len() - ci - pi,
    {
        let ghost before = out@;
        let ghost cs = c.skip(ci as int);
        let ghost pss = ps.skip(pi as int);
        let take_pending = if ci < committed.len() {
            pi < pend.len() && pend[pi].at.is_before(&unit_at(&committed[ci]))
        } else {
            true
        };
        proof {
            if ci < committed@.len() {
                assert(cs[0] == c[ci as int]);
                assert(unit_view(committed@[ci as int]) == c[ci as int]);
                assert(view_at(cs[0]) == unit_at_spec(committed@[ci as int]));
            }
            if pi < pend@.len() {
                assert(pss[0] == ps[pi as int]);
            }
        }
        if take_pending {
            out.push(RenderUnit::Pending(pend[pi].clone()));
            proof {
                assert(pss.drop_first() =~= ps.skip(pi + 1));
                assert(out@.map_values(|u: RenderUnit| unit_view(u)) =~= before.map_values(|u: RenderUnit| unit_view(u)).push(RenderUnitView::Pending(ps[pi as int])));
                assert(before.map_values(|u: RenderUnit| unit_view(u)).push(RenderUnitView::Pending(ps[pi as int])) + merge_units_spec(cs, ps.skip(pi + 1))
                    =~= before.map_values(|u: RenderUnit| unit_view(u)) + (seq![RenderUnitView::Pending(pss[0])] + merge_units_spec(cs, pss.drop_first())));
            }
            pi = pi + 1;
        } else {
            out.push(committed[ci].clone());
            proof {
                assert(cs.drop_first() =~= c.skip(ci + 1));
                assert(out@.map_values(|u: RenderUnit| unit_view(u)) =~= before.map_values(|u: RenderUnit| unit_view(u)).push(c[ci as int]));
                assert(before.map_values(|u: RenderUnit| unit_view(u)).push(c[ci as int]) + merge_units_spec(c.skip(ci + 1), pss)
                    =~= before.map_values(|u: RenderUnit| unit_view(u)) + (seq![cs[0]] + merge_units_spec(cs.drop_first(), pss)));
            }
            ci = ci + 1;
        }
    }
    proof {
        assert(c.skip(ci as int) =~= Seq::<RenderUnitView>::empty());
        assert(ps.skip(pi as int) =~= Seq::<SendEntry>::empty());
        assert(out@.map_values(|u: RenderUnit| unit_view(u)) + Seq::<RenderUnitView>::empty() =~= out@.map_values(|u: RenderUnit| unit_view(u)));
    }
    out
}

fn unit_at(unit: &RenderUnit) -> (r: Timestamp)
    ensures
        r == unit_at_spec(*unit),
{
    match unit {
        RenderUnit::Event(event) => event.at,
        RenderUnit::Run(run) => run.summary.last_at,
        RenderUnit::Pending(entry) => entry.at,
    }
}

/// The UTC day a unit falls on.
pub open spec fn day_of(u: RenderUnit) -> DayKey {
    let d = utc_calendar_date(unit_at_spec(u).seconds() as i64);
    DayKey { year: d.0, month: d.1, day: d.2 }
}

/// The message sender a unit compacts by: `Some(None)` for this device's
/// own (a pending send, or a message signed by `self_id`), `Some(Some(id))`
/// for another resolved signer; `None` for anything that never compacts
/// (runs, system lines, unresolved messages).
pub open spec fn sender_spec(u: RenderUnit, self_id: Option<Seq<char>>) -> Option<Option<Seq<char>>> {
    match u {
        RenderUnit::Pending(_) => Some(None),
        RenderUnit::Event(e) => match e.kind {
            EventKindContent::Message { .. } => match e.author {
                Author::Resolved { subject_id, .. } => if self_id == Some(subject_id@) {
                    Some(None)
                } else {
                    Some(Some(subject_id@))
                },
                Author::Unresolved => None,
            },
            _ => None,
        },
        RenderUnit::Run(_) => None,
    }
}

/// The side an author renders on.
pub open spec fn author_side_spec(a: Author, self_id: Option<Seq<char>>) -> Side {
    match a {
        Author::Resolved { subject_id, .. } => if self_id == Some(subject_id@) { Side::Own } else { Side::Remote },
        Author::Unresolved => Side::Remote,
    }
}

/// The side a unit renders on: pending is own; a run goes by its latest
/// author; content events by their author; membership and revocations are
/// system lines.
pub open spec fn side_spec(u: RenderUnit, self_id: Option<Seq<char>>) -> Side {
    match u {
        RenderUnit::Pending(_) => Side::Own,
        RenderUnit::Run(r) => author_side_spec(r.summary.latest.author, self_id),
        RenderUnit::Event(e) => match e.kind {
            EventKindContent::Message { .. } => author_side_spec(e.author, self_id),
            EventKindContent::AgentStatus { .. } => author_side_spec(e.author, self_id),
            EventKindContent::FileShared { .. } => author_side_spec(e.author, self_id),
            EventKindContent::PipePublished { .. } => author_side_spec(e.author, self_id),
            _ => Side::System,
        },
    }
}

/// The divider above unit `i`: a committed unit opens its day when it is
/// the first or the previous unit fell on another day; a pending send never
/// opens one.
pub open spec fn divider_spec(units: Seq<RenderUnit>, i: int) -> Option<DayKey> {
    if units[i] is Pending {
        None
    } else if i == 0 || day_of(units[i - 1]) != day_of(units[i]) {
        Some(day_of(units[i]))
    } else {
        None
    }
}

/// Whether unit `i` compacts: no divider, a message sender equal to the
/// previous unit's, and within five minutes of it.
pub open spec fn compact_spec(units: Seq<RenderUnit>, i: int, self_id: Option<Seq<char>>) -> bool {
    &&& divider_spec(units, i) is None
    &&& sender_spec(units[i], self_id) is Some
    &&& i > 0
    &&& sender_spec(units[i - 1], self_id) == sender_spec(units[i], self_id)
    &&& -300 <= unit_at_spec(units[i]).seconds() - unit_at_spec(units[i - 1]).seconds() <= 300
}

/// A unit's calendar day.
fn day_key(unit: &RenderUnit) -> (r: DayKey)
    ensures
        r == day_of(*unit),
{
    let secs = unit_at(unit).unix_seconds();
    let (year, month, day) = calendar_date(secs);
    DayKey { year, month, day }
}

fn message_sender(unit: &RenderUnit, self_id: Option<&String>) -> (r: Option<Option<String>>)
    ensures
        match r {
            None => sender_spec(*unit, opt_view(self_id)) is None,
            Some(None) => sender_spec(*unit, opt_view(self_id)) == Some(None::<Seq<char>>),
            Some(Some(s)) => sender_spec(*unit, opt_view(self_id)) == Some(Some(s@)),
        },
{
    match unit {
        RenderUnit::Pending(_) => Some(None),
        RenderUnit::Event(event) => match &event.kind {
            EventKindContent::Message { .. } => match &event.author {
                Author::Resolved { subject_id, .. } => {
                    if is_self(subject_id, self_id) {
                        Some(None)
                    } else {
                        Some(Some(subject_id.clone()))
                    }
                },
                Author::Unresolved => None,
            },
            _ => None,
        },
        RenderUnit::Run(_) => None,
    }
}

/// A borrowed optional id as a plain value.
pub open spec fn opt_view(o: Option<&String>) -> Option<Seq<char>> {
    match o {
        Some(s) => Some(s@),
        None => None,
    }
}

fn is_self(subject_id: &String, self_id: Option<&String>) -> (r: bool)
    ensures
        r == (opt_view(self_id) == Some(subject_id@)),
{
    match self_id {
        Some(me) => str_eq(me.as_str(), subject_id.as_str()),
        None => false,
    }
}

fn author_side(author: &Author, self_id: Option<&String>) -> (r: Side)
    ensures
        r == author_side_spec(*author, opt_view(self_id)),
{
    match author {
        Author::Resolved { subject_id, .. } => if is_self(subject_id, self_id) { Side::Own } else { Side::Remote },
        Author::Unresolved => Side::Remote,
    }
}

fn side_of(unit: &RenderUnit, self_id: Option<&String>) -> (r: Side)
    ensures
        r == side_spec(*unit, opt_view(self_id)),
{
    match unit {
        RenderUnit::Pending(_) => Side::Own,
        RenderUnit::Run(run) => author_side(&run.summary.latest.author, self_id),
        RenderUnit::Event(event) => match &event.kind {
            EventKindContent::Message { .. }
            | EventKindContent::AgentStatus { .. }
            | EventKindContent::FileShared { .. }
            | EventKindContent::PipePublished { .. } => author_side(&event.author, self_id),
            _ => Side::System,
        },
    }
}

fn same_sender(a: &Option<Option<String>>, b: &Option<Option<String>>) -> (r: bool)
    ensures
        r == (sender_opt_view(*a) == sender_opt_view(*b)),
{
    match (a, b) {
        (None, None) => true,
        (Some(None), Some(None)) => true,
        (Some(Some(x)), Some(Some(y))) => str_eq(x.as_str(), y.as_str()),
        _ => false,
    }
}

/// A sender key as plain values.
pub open spec fn sender_opt_view(o: Option<Option<String>>) -> Option<Option<Seq<char>>> {
    match o {
        None => None,
        Some(None) => Some(None),
        Some(Some(s)) => Some(Some(s@)),
    }
}

/// Decorate units with day dividers, sides and compaction. Each row
/// depends only on its unit and the one before it.
pub fn decorate(units: &[RenderUnit], self_id: Option<&String>) -> (r: Vec<TimelineRow>)
    ensures
        r@.len() == units@.len(),
        forall|i: int| 0 <= i < units@.len() ==> {
            &&& unit_view((#[trigger] r@[i]).unit) == unit_view(units@[i])
            &&& r@[i].divider == divider_spec(units@, i)
            &&& r@[i].side == side_spec(units@[i], opt_view(self_id))
            &&& r@[i].compact == compact_spec(units@, i, opt_view(self_id))
        },
{
    let mut rows: Vec<TimelineRow> = Vec::new();
    let mut prev_day: Option<DayKey> = None;
    let mut prev_sender: Option<Option<String>> = None;
    let mut prev_at: Option<i64> = None;
    let mut i: usize = 0;
    while i < units.len()
        invariant
            i <= units@.len(),
            rows@.len() == i,
            i == 0 ==> prev_day is None && prev_at is None,
            i > 0 ==> prev_day == Some(day_of(units@[i - 1])),
            i > 0 ==> sender_opt_view(prev_sender) == sender_spec(units@[i - 1], opt_view(self_id)),
            i > 0 ==> prev_at == Some(unit_at_spec(units@[i - 1]).seconds() as i64),
            i > 0 ==> crate::api::MIN_UNIX_SECONDS <= unit_at_spec(units@[i - 1]).seconds() <= crate::api::MAX_UNIX_SECONDS,
            forall|k: int| 0 <= k < i ==> {
                &&& unit_view((#[trigger] rows@[k]).unit) == unit_view(units@[k])
                &&& rows@[k].divider == divider_spec(units@, k)
                &&& rows@[k].side == side_spec(units@[k], opt_view(self_id))
                &&& rows@[k].compact == compact_spec(units@, k, opt_view(self_id))
            },
        decreases units.len() - i,
    {
        let unit = &units[i];
        let day = day_key(unit);
        let is_pending = matches!(unit, RenderUnit::Pending(_));
        let new_day = match prev_day {
            Some(p) => p != day,
            None => true,
        };
        let divider = if !is_pending && new_day { Some(day) } else { None };
        let at = unit_at(unit).unix_seconds();
        let sender = message_sender(unit, self_id);
        let within = match prev_at {
            Some(p) => {
                let d: i64 = at - p;
                -300 <= d && d <= 300
            },
            None => false,
        };
        let compact = divider.is_none() && sender.is_some() && same_sender(&sender, &prev_sender) && within;
        let side = side_of(unit, self_id);
        let row = TimelineRow { divider, side, compact, unit: unit.clone() };
        proof {
            assert(divider == divider_spec(units@, i as int));
            assert(side == side_spec(units@[i as int], opt_view(self_id)));
            assert(sender_opt_view(sender) == sender_spec(units@[i as int], opt_view(self_id)));
            if i > 0 {
                assert(within == (-300 <= unit_at_spec(units@[i as int]).seconds() - unit_at_spec(units@[i - 1]).seconds() <= 300));
            }
            assert(compact == compact_spec(units@, i as int, opt_view(self_id)));
        }
        rows.push(row);
        prev_day = Some(day);
        prev_sender = sender;
        prev_at = Some(at);
        i = i + 1;
    }
    rows
}

/// The committed (event and run) units of `s`, in order.
pub open spec fn committed_units(s: Seq<RenderUnitView>) -> Seq<RenderUnitView>
    decreases s.len(),
{
    if s.len() == 0 {
        Seq::empty()
    } else if s[0] is Pending {
        committed_units(s.drop_first())
    } else {
        seq![s[0]] + committed_units(s.drop_first())
    }
}

/// The pending sends of `s`, in order.
pub open spec fn pending_units(s: Seq<RenderUnitView>) -> Seq<SendEntry>
    decreases s.len(),
{
    if s.len() == 0 {
        Seq::empty()
    } else {
        match s[0] {
            RenderUnitView::Pending(p) => seq![p] + pending_units(s.drop_first()),
            _ => pending_units(s.drop_first()),
        }
    }
}

/// Interleaving pending sends into the committed timeline loses and
/// reorders nothing: the committed units come out as they went in, in
/// order, and so do the pending sends, whatever the filter left committed.
pub proof fn lemma_interleaving_keeps_both_orders(c: Seq<RenderUnitView>, p: Seq<SendEntry>)
    requires
        forall|i: int| 0 <= i < c.len() ==> !(#[trigger] c[i] is Pending),
    ensures
        committed_units(merge_units_spec(c, p)) == c,
        pending_units(merge_units_spec(c, p)) == p,
        merge_units_spec(c, p).len() == c.len() + p.len(),
    decreases c.len() + p.len(),
{
    let m = merge_units_spec(c, p);
    if c.len() == 0 && p.len() == 0 {
    } else if c.len() > 0 && !(p.len() > 0 && ts_lt(p[0].at, view_at(c[0]))) {
        let rest = merge_units_spec(c.drop_first(), p);
        assert forall|i: int| 0 <= i < c.drop_first().len() implies !(#[trigger] c.drop_first()[i] is Pending) by {
            assert(c.drop_first()[i] == c[i + 1]);
        }
        lemma_interleaving_keeps_both_orders(c.drop_first(), p);
        assert(m.drop_first() =~= rest);
        assert(m[0] == c[0]);
        assert(!(c[0] is Pending));
        assert(committed_units(m) =~= seq![c[0]] + committed_units(rest));
        assert(seq![c[0]] + c.drop_first() =~= c);
        match m[0] {
            RenderUnitView::Pending(_) => {},
            _ => { assert(pending_units(m) == pending_units(rest)); },
        }
    } else {
        let rest = merge_units_spec(c, p.drop_first());
        lemma_interleaving_keeps_both_orders(c, p.drop_first());
        assert(m.drop_first() =~= rest);
        assert(m[0] == RenderUnitView::Pending(p[0]));
        assert(pending_units(m) =~= seq![p[0]] + pending_units(rest));
        assert(seq![p[0]] + p.drop_first() =~= p);
    }
}

/// A pending send sinks to its compose slot: placed directly before a
/// committed unit it was composed strictly earlier, and never placed after
/// a committed unit composed later than it (so never before an equal-time
/// committed unit).
pub proof fn lemma_pending_sinks_to_its_slot(c: Seq<RenderUnitView>, p: Seq<SendEntry>, i: int)
    requires
        forall|k: int| 0 <= k < c.len() ==> !(#[trigger] c[k] is Pending),
        0 <= i,
        i + 1 < merge_units_spec(c, p).len(),
    ensures
        ({
            let m = merge_units_spec(c, p);
            &&& m[i] matches RenderUnitView::Pending(pe) ==> (!(m[i + 1] is Pending)
                ==> ts_lt(pe.at, view_at(m[i + 1])))
            &&& m[i + 1] matches RenderUnitView::Pending(pe) ==> (!(m[i] is Pending)
                ==> !ts_lt(pe.at, view_at(m[i])))
        }),
    decreases c.len() + p.len(),
{
    let m = merge_units_spec(c, p);
    lemma_interleaving_keeps_both_orders(c, p);
    if c.len() > 0 && !(p.len() > 0 && ts_lt(p[0].at, view_at(c[0]))) {
        let c2 = c.drop_first();
        assert forall|k: int| 0 <= k < c2.len() implies !(#[trigger] c2[k] is Pending) by {
            assert(c2[k] == c[k + 1]);
        }
        let rest = merge_units_spec(c2, p);
        assert(m[0] == c[0]);
        assert forall|k: int| 0 <= k < rest.len() implies m[k + 1] == rest[k] by {}
        if i == 0 {
            lemma_merge_starts(c2, p);
        } else {
            lemma_pending_sinks_to_its_slot(c2, p, i - 1);
            assert(m[i] == rest[i - 1] && m[i + 1] == rest[i]);
        }
    } else {
        let p2 = p.drop_first();
        let rest = merge_units_spec(c, p2);
        assert(m[0] == RenderUnitView::Pending(p[0]));
        assert forall|k: int| 0 <= k < rest.len() implies m[k + 1] == rest[k] by {}
        if i == 0 {
            lemma_merge_starts(c, p2);
        } else {
            lemma_pending_sinks_to_its_slot(c, p2, i - 1);
            assert(m[i] == rest[i - 1] && m[i + 1] == rest[i]);
        }
    }
}

proof fn lemma_merge_starts(c: Seq<RenderUnitView>, p: Seq<SendEntry>)
    requires
        c.len() + p.len() > 0,
    ensures
        (c.len() > 0 && !(p.len() > 0 && ts_lt(p[0].at, view_at(c[0])))) ==> merge_units_spec(c, p)[0] == c[0],
        !(c.len() > 0 && !(p.len() > 0 && ts_lt(p[0].at, view_at(c[0])))) ==> merge_units_spec(c, p)[0]
            == RenderUnitView::Pending(p[0]),
{
}

/// A committed event renders on its author's side when it is content (a
/// message, a status, a shared file or a published pipe): on the own side
/// when it was signed by the local identity, else on the remote side. Only
/// genesis, membership and revocation events render as system lines.
pub proof fn lemma_event_rows_take_their_authors_side(e: Event, self_id: Option<Seq<char>>)
    ensures
        ({
            let content = e.kind is Message || e.kind is AgentStatus || e.kind is FileShared || e.kind is PipePublished;
            let by_self = e.author matches Author::Resolved { subject_id, .. } && self_id == Some(subject_id@);
            &&& content && by_self ==> side_spec(RenderUnit::Event(e), self_id) == Side::Own
            &&& content && !by_self ==> side_spec(RenderUnit::Event(e), self_id) == Side::Remote
            &&& !content ==> side_spec(RenderUnit::Event(e), self_id) == Side::System
        }),
{
}

/// An optimistic send always renders on the own side; a folded run renders
/// on the side of its latest status's author (own when that author is the
/// local identity, else remote), never as a system line.
pub proof fn lemma_pending_and_run_sides(u: RenderUnit, self_id: Option<Seq<char>>)
    ensures
        u is Pending ==> side_spec(u, self_id) == Side::Own,
        (u matches RenderUnit::Run(run) && (run.summary.latest.author matches Author::Resolved { subject_id, .. }
            && self_id == Some(subject_id@))) ==> side_spec(u, self_id) == Side::Own,
        (u matches RenderUnit::Run(run) && !(run.summary.latest.author matches Author::Resolved { subject_id, .. }
            && self_id == Some(subject_id@))) ==> side_spec(u, self_id) == Side::Remote,
{
}

} // verus!
