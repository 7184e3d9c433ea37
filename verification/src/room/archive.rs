//! The read-only archive of a departed room: pages of the room's signed
//! history folded into one view, deduplicated by position and kept in
//! position order, with the historical roster and the caller's own
//! departure fact.

use vstd::prelude::*;

use crate::api::{ApiError, Cursor, Event, EventKindContent, RoomArchiveOut, Standing, Truncated};
use crate::client::CallError;
use crate::room::projection::opt_view;
use crate::room::roster::{
    apply, fold_roster_spec, roster_view, HistoricalMember,
};
use crate::text::str_eq;

verus! {

/// How many archive events one page asks for.
pub const ARCHIVE_PAGE_LIMIT: u64 = 100;

/// How the caller came to be outside the room.
#[derive(Debug, Clone, PartialEq, Eq)]
pub enum DepartureFact {
    /// They left (or the standing gives nothing more specific).
    Left,
    /// They were removed, by the named subject when the caller's own signed
    /// removal event is loaded.
    Removed { by: Option<String> },
}

/// The departure a standing implies on its own.
pub open spec fn departure_of_standing(standing: Standing) -> DepartureFact {
    match standing {
        Standing::Removed => DepartureFact::Removed { by: None },
        _ => DepartureFact::Left,
    }
}

impl DepartureFact {
    /// The departure a standing implies, naming no remover.
    pub fn from_standing(standing: Standing) -> (r: DepartureFact)
        ensures
            r == departure_of_standing(standing),
    {
        match standing {
            Standing::Removed => DepartureFact::Removed { by: None },
            Standing::Left | Standing::Active => DepartureFact::Left,
        }
    }
}

/// The folded archive of a departed room.
#[derive(Debug, Clone, PartialEq)]
pub struct ArchiveView {
    /// The room.
    pub room_id: String,
    /// The genesis name, once the genesis event is loaded.
    pub room_name: Option<String>,
    /// The caller's standing.
    pub my_standing: Standing,
    /// How the caller left.
    pub departure: DepartureFact,
    /// The loaded events, in position order.
    pub events: Vec<Event>,
    /// The roster folded from the loaded events.
    pub roster: Vec<HistoricalMember>,
    /// Where the next page starts, if more remain.
    pub more: Option<Cursor>,
}

/// Whether some event in `s` sits at `pos`.
pub open spec fn has_pos(s: Seq<Event>, pos: u64) -> bool {
    exists|i: int| 0 <= i < s.len() && #[trigger] s[i].pos == pos
}

/// `existing` followed by each incoming event whose position is not yet
/// present.
pub open spec fn merge_spec(existing: Seq<Event>, incoming: Seq<Event>) -> Seq<Event>
    decreases incoming.len(),
{
    if incoming.len() == 0 {
        existing
    } else if has_pos(existing, incoming[0].pos) {
        merge_spec(existing, incoming.drop_first())
    } else {
        merge_spec(existing.push(incoming[0]), incoming.drop_first())
    }
}

/// Ascending by position.
pub open spec fn sorted_by_pos(s: Seq<Event>) -> bool {
    forall|i: int, j: int| 0 <= i < j < s.len() ==> s[i].pos <= s[j].pos
}

/// The genesis name among `s`: that of the first genesis event.
pub open spec fn room_name_spec(s: Seq<Event>) -> Option<Seq<char>>
    decreases s.len(),
{
    if s.len() == 0 {
        None
    } else {
        match s[0].kind {
            EventKindContent::RoomCreated { name } => Some(name@),
            _ => room_name_spec(s.drop_first()),
        }
    }
}

/// The remover named by the last removal of `me` among `s`.
pub open spec fn remover_of(s: Seq<Event>, me: Seq<char>) -> Option<Seq<char>>
    decreases s.len(),
{
    if s.len() == 0 {
        None
    } else {
        match s.last().kind {
            EventKindContent::MemberRemoved { subject_id, by } if subject_id@ == me => Some(by@),
            _ => remover_of(s.drop_last(), me),
        }
    }
}

/// The caller's departure: a removal names the remover only from the
/// caller's own signed removal event; otherwise the standing speaks alone.
pub open spec fn departure_spec(s: Seq<Event>, standing: Standing, me: Option<Seq<char>>) -> Option<Option<Seq<char>>> {
    match standing {
        Standing::Removed => Some(match me {
            Some(m) => remover_of(s, m),
            None => None,
        }),
        _ => None,
    }
}

/// A departure fact as plain values: `None` for `Left`, the remover for
/// `Removed`.
pub open spec fn departure_view(d: DepartureFact) -> Option<Option<Seq<char>>> {
    match d {
        DepartureFact::Left => None,
        DepartureFact::Removed { by } => Some(match by {
            Some(b) => Some(b@),
            None => None,
        }),
    }
}

/// The next-page cursor a truncation gives.
pub open spec fn more_spec(t: Truncated) -> Option<Cursor> {
    match t {
        Truncated::Complete => None,
        Truncated::More { cursor } => Some(cursor),
    }
}

fn contains_pos(events: &Vec<Event>, pos: u64) -> (r: bool)
    ensures
        r == has_pos(events@, pos),
{
    let mut i: usize = 0;
    while i < events.len()
        invariant
            i <= events@.len(),
            forall|j: int| 0 <= j < i ==> events@[j].pos != pos,
        decreases events.len() - i,
    {
        if events[i].pos == pos {
            return true;
        }
        i = i + 1;
    }
    false
}

/// Insertion sort by position, stable.
fn sort_by_pos(v: &mut Vec<Event>)
    ensures
        sorted_by_pos(final(v)@),
        final(v)@.to_multiset() == old(v)@.to_multiset(),
        final(v)@.len() == old(v)@.len(),
{
    let ghost orig = v@;
    let mut i: usize = 1;
    if v.len() == 0 {
        return;
    }
    while i < v.len()
        invariant
            1 <= i <= v@.len(),
            v@.len() == orig.len(),
            v@.to_multiset() == orig.to_multiset(),
            sorted_by_pos(v@.subrange(0, i as int)),
        decreases v.len() - i,
    {
        proof {
            assert forall|a: int, b: int| 0 <= a < b < i implies #[trigger] v@[a].pos <= #[trigger] v@[b].pos by {
                assert(v@.subrange(0, i as int)[a] == v@[a]);
                assert(v@.subrange(0, i as int)[b] == v@[b]);
            }
        }
        let mut j: usize = i;
        while j > 0 && v[j - 1].pos > v[j].pos
            invariant
                0 <= j <= i < v@.len(),
                v@.len() == orig.len(),
                v@.to_multiset() == orig.to_multiset(),
                forall|a: int, b: int| 0 <= a < b <= i && a != j && b != j ==> v@[a].pos <= v@[b].pos,
                forall|b: int| j < b <= i ==> v@[j as int].pos < v@[b].pos,
            decreases j,
        {
            let ghost before = v@;
            let a = v[j - 1].clone();
            let b = v[j].clone();
            v.set(j - 1, b);
            v.set(j, a);
            proof {
                assert(v@ =~= before.update(j - 1, before[j as int]).update(j as int, before[j - 1]));
                lemma_swap_multiset(before, j - 1, j as int);
            }
            j = j - 1;
        }
        proof {
            assert forall|a: int, b: int| 0 <= a < b <= i implies #[trigger] v@[a].pos <= #[trigger] v@[b].pos by {
                if b == j && j > 0 {
                    assert(v@[j - 1].pos <= v@[j as int].pos);
                    if a < j - 1 {
                        assert(v@[a].pos <= v@[j - 1].pos);
                    }
                }
            }
            assert(sorted_by_pos(v@.subrange(0, i + 1)));
        }
        i = i + 1;
    }
    proof {
        assert(v@.subrange(0, v@.len() as int) =~= v@);
    }
}

proof fn lemma_swap_multiset(s: Seq<Event>, i: int, j: int)
    requires
        0 <= i < s.len(),
        0 <= j < s.len(),
    ensures
        s.update(i, s[j]).update(j, s[i]).to_multiset() == s.to_multiset(),
{
    broadcast use vstd::seq_lib::group_to_multiset_ensures;
    let t = s.update(i, s[j]);
    assert(t.to_multiset() == s.to_multiset().remove(s[i]).insert(s[j]));
    assert(t.update(j, s[i]).to_multiset() == t.to_multiset().remove(t[j]).insert(s[i]));
    if i == j {
        assert(s.update(i, s[j]) =~= s);
        assert(s.update(i, s[j]).update(j, s[i]) =~= s);
    } else {
        assert(t[j] == s[j]);
        assert(s.to_multiset().count(s[i]) > 0);
        assert(s.to_multiset().remove(s[i]).insert(s[j]).remove(s[j]).insert(s[i]) =~= s.to_multiset());
    }
}

/// What folding page `out` into `prev` gives, for the caller `me`: the
/// room keeps its first id; the standing is the page's; the events are the
/// merge of the loaded and incoming events by position, in position order;
/// the name, the roster and the departure are re-derived from them; the
/// cursor tracks whether more remain.
pub open spec fn folded(prev: Option<ArchiveView>, out: RoomArchiveOut, me: Option<Seq<char>>, r: ArchiveView) -> bool {
    &&& r.room_id@ == match prev {
        Some(p) => p.room_id@,
        None => out.room_id@,
    }
    &&& r.my_standing == out.standing
    &&& sorted_by_pos(r.events@)
    &&& r.events@.to_multiset() == merge_spec(match prev {
        Some(p) => p.events@,
        None => Seq::empty(),
    }, out.events@).to_multiset()
    &&& match r.room_name {
        Some(n) => room_name_spec(r.events@) == Some(n@),
        None => room_name_spec(r.events@) is None,
    }
    &&& roster_view(r.roster@) == fold_roster_spec(Seq::empty(), r.events@)
    &&& departure_view(r.departure) == departure_spec(r.events@, out.standing, me)
    &&& r.more == more_spec(out.truncated)
}

impl ArchiveView {
    /// Fold a page into the view: events are merged by position (a re-read
    /// page never double-appends) and kept in position order; the name, the
    /// roster and the departure are re-derived from the merged events; the
    /// cursor tracks whether more remain.
    pub fn fold(prev: Option<ArchiveView>, out: RoomArchiveOut, me: Option<&String>) -> (r: ArchiveView)
        ensures
            folded(prev, out, crate::room::projection::opt_view(me), r),
    {
        let standing = out.standing;
        let (room_id, mut events) = match prev {
            Some(p) => (p.room_id, p.events),
            None => (out.room_id, Vec::new()),
        };
        let ghost start = events@;
        let incoming = out.events;
        let mut k: usize = 0;
        proof {
            assert(incoming@.skip(0) =~= incoming@);
        }
        while k < incoming.len()
            invariant
                k <= incoming@.len(),
                merge_spec(start, incoming@) == merge_spec(events@, incoming@.skip(k as int)),
            decreases incoming.len() - k,
        {
            proof {
                assert(incoming@.skip(k as int)[0] == incoming@[k as int]);
                assert(incoming@.skip(k as int).drop_first() =~= incoming@.skip(k + 1));
            }
            if !contains_pos(&events, incoming[k].pos) {
                events.push(incoming[k].clone());
            }
            k = k + 1;
        }
        proof {
            assert(incoming@.skip(k as int) =~= Seq::<Event>::empty());
        }
        sort_by_pos(&mut events);
        let room_name = first_room_name(&events);
        let mut roster: Vec<HistoricalMember> = Vec::new();
        let mut i: usize = 0;
        proof {
            assert(roster_view(roster@) =~= Seq::<(Seq<char>, crate::api::Role, Standing)>::empty());
            assert(events@.skip(0) =~= events@);
        }
        while i < events.len()
            invariant
                i <= events@.len(),
                fold_roster_spec(Seq::empty(), events@) == fold_roster_spec(roster_view(roster@), events@.skip(i as int)),
            decreases events.len() - i,
        {
            proof {
                assert(events@.skip(i as int)[0] == events@[i as int]);
                assert(events@.skip(i as int).drop_first() =~= events@.skip(i + 1));
            }
            apply(&mut roster, &events[i]);
            i = i + 1;
        }
        proof {
            assert(events@.skip(i as int) =~= Seq::<Event>::empty());
        }
        let departure = derive_departure(&events, standing, me);
        let more = match out.truncated {
            Truncated::Complete => None,
            Truncated::More { cursor } => Some(cursor),
        };
        ArchiveView { room_id, room_name, my_standing: standing, departure, events, roster, more }
    }
}

fn first_room_name(events: &Vec<Event>) -> (r: Option<String>)
    ensures
        match r {
            Some(n) => room_name_spec(events@) == Some(n@),
            None => room_name_spec(events@) is None,
        },
{
    let mut i: usize = 0;
    proof {
        assert(events@.skip(0) =~= events@);
    }
    while i < events.len()
        invariant
            i <= events@.len(),
            room_name_spec(events@) == room_name_spec(events@.skip(i as int)),
        decreases events.len() - i,
    {
        proof {
            assert(events@.skip(i as int)[0] == events@[i as int]);
            assert(events@.skip(i as int).drop_first() =~= events@.skip(i + 1));
        }
        match &events[i].kind {
            EventKindContent::RoomCreated { name } => {
                return Some(name.clone());
            },
            _ => {},
        }
        i = i + 1;
    }
    proof {
        assert(events@.skip(i as int) =~= Seq::<Event>::empty());
    }
    None
}

fn derive_departure(events: &Vec<Event>, standing: Standing, me: Option<&String>) -> (r: DepartureFact)
    ensures
        departure_view(r) == departure_spec(events@, standing, match me {
            Some(m) => Some(m@),
            None => None,
        }),
{
    match standing {
        Standing::Removed => {
            let by = match me {
                Some(m) => {
                    let mut i: usize = events.len();
                    proof {
                        assert(events@.take(i as int) =~= events@);
                    }
                    while i > 0
                        invariant
                            i <= events@.len(),
                            me == Some(m),
                            standing == Standing::Removed,
                            remover_of(events@, m@) == remover_of(events@.take(i as int), m@),
                        decreases i,
                    {
                        proof {
                            assert(events@.take(i as int).last() == events@[i - 1]);
                            assert(events@.take(i as int).drop_last() =~= events@.take(i - 1));
                        }
                        match &events[i - 1].kind {
                            EventKindContent::MemberRemoved { subject_id, by } => {
                                if str_eq(subject_id.as_str(), m.as_str()) {
                                    proof {
                                        let t = events@.take(i as int);
                                        assert(t.len() > 0);
                                        assert(t.last().kind == events@[i - 1].kind);
                                        assert(remover_of(t, m@) == Some(by@));
                                        assert(remover_of(events@, m@) == Some(by@));
                                    }
                                    let b = by.clone();
                                    let d = DepartureFact::Removed { by: Some(b) };
                                    proof {
                                        assert(b@ == by@);
                                        assert(departure_view(d) == Some(Some(by@)));
                                        assert(me == Some(m));
                                    }
                                    return d;
                                }
                            },
                            _ => {},
                        }
                        i = i - 1;
                    }
                    None
                },
                None => None,
            };
            DepartureFact::Removed { by }
        },
        Standing::Left => DepartureFact::Left,
        Standing::Active => DepartureFact::Left,
    }
}

/// No two events of `s` share a position.
pub open spec fn positions_unique(s: Seq<Event>) -> bool {
    forall|i: int, j: int| 0 <= i < j < s.len() ==> s[i].pos != s[j].pos
}

/// Re-reading a page whose every position is already loaded adds nothing.
pub proof fn lemma_reread_page_adds_nothing(existing: Seq<Event>, incoming: Seq<Event>)
    requires
        forall|i: int| 0 <= i < incoming.len() ==> has_pos(existing, #[trigger] incoming[i].pos),
    ensures
        merge_spec(existing, incoming) == existing,
    decreases incoming.len(),
{
    if incoming.len() > 0 {
        assert(has_pos(existing, incoming[0].pos));
        assert forall|i: int| 0 <= i < incoming.drop_first().len() implies has_pos(
            existing,
            #[trigger] incoming.drop_first()[i].pos,
        ) by {
            assert(incoming.drop_first()[i] == incoming[i + 1]);
        }
        lemma_reread_page_adds_nothing(existing, incoming.drop_first());
    }
}

/// Merging never loads two events at one position: if the loaded events
/// have distinct positions, so do the merged ones, whatever the page holds.
pub proof fn lemma_merge_never_double_appends(existing: Seq<Event>, incoming: Seq<Event>)
    requires
        positions_unique(existing),
    ensures
        positions_unique(merge_spec(existing, incoming)),
    decreases incoming.len(),
{
    if incoming.len() > 0 {
        if has_pos(existing, incoming[0].pos) {
            lemma_merge_never_double_appends(existing, incoming.drop_first());
        } else {
            let next = existing.push(incoming[0]);
            assert forall|i: int, j: int| 0 <= i < j < next.len() implies next[i].pos != next[j].pos by {
                if j == existing.len() {
                    assert(next[i] == existing[i]);
                    if existing[i].pos == incoming[0].pos {
                        assert(has_pos(existing, incoming[0].pos));
                    }
                } else {
                    assert(next[i] == existing[i] && next[j] == existing[j]);
                }
            }
            lemma_merge_never_double_appends(next, incoming.drop_first());
        }
    }
}

/// The archive read's progress. Loading never fabricates content.
#[derive(Clone, PartialEq, Debug)]
pub enum ArchiveLoad {
    /// The first page has not landed.
    Loading,
    /// The accumulated archive.
    Loaded(ArchiveView),
    /// The room was re-activated since the room list was read: an honest
    /// notice, never a silent redirect into the live surface.
    StillActive,
    /// The daemon answered another typed refusal.
    Failed,
}

/// A forward `room.archive` page read: from `cursor`, at most `limit`
/// events. The read is network-free and mutation-free.
#[derive(Clone, Copy, PartialEq, Eq, Debug, Structural)]
pub struct ArchivePage {
    /// Where the page starts.
    pub cursor: Cursor,
    /// The most events it returns.
    pub limit: u64,
}

/// The first page the archive pane reads: from the start.
pub fn first_page() -> (r: ArchivePage)
    ensures
        r == (ArchivePage { cursor: Cursor::Start, limit: ARCHIVE_PAGE_LIMIT }),
{
    ArchivePage { cursor: Cursor::Start, limit: ARCHIVE_PAGE_LIMIT }
}

/// The archive after its first page's read answered, for the caller `me`:
/// the folded page; still active when the room was re-activated; failed on
/// any other typed refusal; a transport failure leaves `current` as it was
/// (never an empty archive).
pub fn after_first_page(current: ArchiveLoad, result: Result<RoomArchiveOut, CallError>, me: Option<&String>) -> (r: ArchiveLoad)
    ensures
        match result {
            Ok(out) => (r matches ArchiveLoad::Loaded(v) && folded(None, out, opt_view(me), v)),
            Err(CallError::Wire(ApiError::RoomStillActive { .. })) => r == ArchiveLoad::StillActive,
            Err(CallError::Wire(_)) => r == ArchiveLoad::Failed,
            Err(_) => r == current,
        },
{
    match result {
        Ok(out) => ArchiveLoad::Loaded(ArchiveView::fold(None, out, me)),
        Err(error) => match error.as_wire() {
            Some(ApiError::RoomStillActive { .. }) => ArchiveLoad::StillActive,
            Some(_) => ArchiveLoad::Failed,
            None => current,
        },
    }
}

/// The next page to read, of which room: only a loaded archive with more
/// to read asks for one, from its cursor.
pub fn more_page(state: &ArchiveLoad) -> (r: Option<(String, ArchivePage)>)
    ensures
        match *state {
            ArchiveLoad::Loaded(v) => match v.more {
                Some(c) => (r matches Some((room, page)) && room@ == v.room_id@ && page.cursor == c
                    && page.limit == ARCHIVE_PAGE_LIMIT),
                None => r is None,
            },
            _ => r is None,
        },
{
    match state {
        ArchiveLoad::Loaded(v) => match v.more {
            Some(cursor) => Some((v.room_id.clone(), ArchivePage { cursor, limit: ARCHIVE_PAGE_LIMIT })),
            None => None,
        },
        _ => None,
    }
}

/// The archive after a further page's read answered: the page folded into
/// the loaded archive; on any failure the loaded archive is kept, so the
/// reader can try again.
pub fn after_more_page(current: ArchiveLoad, result: Result<RoomArchiveOut, CallError>, me: Option<&String>) -> (r: ArchiveLoad)
    ensures
        match (current, result) {
            (ArchiveLoad::Loaded(v), Ok(out)) => (r matches ArchiveLoad::Loaded(w) && folded(Some(v), out, opt_view(me), w)),
            _ => r == current,
        },
{
    match (current, result) {
        (ArchiveLoad::Loaded(v), Ok(out)) => ArchiveLoad::Loaded(ArchiveView::fold(Some(v), out, me)),
        (current, _) => current,
    }
}

} // verus!
