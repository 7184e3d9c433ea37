//! The historical roster: who was in a room and how they left, folded from
//! the signed membership events. Authority comes from the signed genesis
//! author only.

use vstd::prelude::*;

use crate::api::{Author, Event, EventKindContent, Role, Standing};
use crate::text::str_eq;

verus! {

/// One member of a room's history.
#[derive(Debug, PartialEq, Eq)]
pub struct HistoricalMember {
    /// The member.
    pub subject_id: String,
    /// Their role.
    pub role: Role,
    /// Their standing.
    pub standing: Standing,
}

impl Clone for HistoricalMember {
    fn clone(&self) -> (r: Self)
        ensures
            r == *self,
    {
        HistoricalMember { subject_id: self.subject_id.clone(), role: self.role, standing: self.standing }
    }
}

/// A member as plain values.
pub open spec fn member_view(m: HistoricalMember) -> (Seq<char>, Role, Standing) {
    (m.subject_id@, m.role, m.standing)
}

/// A roster as plain values.
pub open spec fn roster_view(r: Seq<HistoricalMember>) -> Seq<(Seq<char>, Role, Standing)> {
    r.map_values(|m: HistoricalMember| member_view(m))
}

/// The first index whose member is `id`, or -1.
pub open spec fn first_index(r: Seq<(Seq<char>, Role, Standing)>, id: Seq<char>) -> int {
    if exists|i: int| 0 <= i < r.len() && r[i].0 == id {
        choose|i: int| 0 <= i < r.len() && r[i].0 == id && forall|j: int| 0 <= j < i ==> r[j].0 != id
    } else {
        -1
    }
}

proof fn lemma_first_index(r: Seq<(Seq<char>, Role, Standing)>, id: Seq<char>)
    ensures
        -1 <= first_index(r, id) < r.len(),
        first_index(r, id) >= 0 ==> r[first_index(r, id)].0 == id,
        first_index(r, id) == -1 ==> forall|j: int| 0 <= j < r.len() ==> r[j].0 != id,
{
    if exists|i: int| 0 <= i < r.len() && r[i].0 == id {
        let w = choose|i: int| 0 <= i < r.len() && r[i].0 == id;
        lemma_least_witness(r, id, w);
    }
}

proof fn lemma_least_witness(r: Seq<(Seq<char>, Role, Standing)>, id: Seq<char>, w: int)
    requires
        0 <= w < r.len(),
        r[w].0 == id,
    ensures
        exists|i: int| 0 <= i < r.len() && r[i].0 == id && forall|j: int| 0 <= j < i ==> r[j].0 != id,
    decreases w,
{
    if exists|j: int| 0 <= j < w && r[j].0 == id {
        let j = choose|j: int| 0 <= j < w && r[j].0 == id;
        lemma_least_witness(r, id, j);
    } else {
        assert(forall|j: int| 0 <= j < w ==> r[j].0 != id);
    }
}

/// Set the first matching member's role and standing, or append them.
pub open spec fn upsert_spec(
    r: Seq<(Seq<char>, Role, Standing)>,
    id: Seq<char>,
    role: Role,
    standing: Standing,
) -> Seq<(Seq<char>, Role, Standing)> {
    let i = first_index(r, id);
    if i >= 0 {
        r.update(i, (id, role, standing))
    } else {
        r.push((id, role, standing))
    }
}

/// Set the first matching member's standing, or append them as a member
/// (the signed fact is recorded even for a subject not seen joining).
pub open spec fn set_standing_spec(
    r: Seq<(Seq<char>, Role, Standing)>,
    id: Seq<char>,
    standing: Standing,
) -> Seq<(Seq<char>, Role, Standing)> {
    let i = first_index(r, id);
    if i >= 0 {
        r.update(i, (r[i].0, r[i].1, standing))
    } else {
        r.push((id, Role::Member, standing))
    }
}

/// The roster after one event: genesis seats its resolved author, a join
/// seats the joiner, a departure or removal records the standing; any other
/// event leaves the roster unchanged.
pub open spec fn apply_spec(r: Seq<(Seq<char>, Role, Standing)>, event: Event) -> Seq<(Seq<char>, Role, Standing)> {
    match event.kind {
        EventKindContent::RoomCreated { .. } => match event.author {
            Author::Resolved { subject_id, role, .. } => upsert_spec(r, subject_id@, role, Standing::Active),
            Author::Unresolved => r,
        },
        EventKindContent::MemberJoined { subject_id, role } => upsert_spec(r, subject_id@, role, Standing::Active),
        EventKindContent::MemberLeft { subject_id } => set_standing_spec(r, subject_id@, Standing::Left),
        EventKindContent::MemberRemoved { subject_id, .. } => set_standing_spec(r, subject_id@, Standing::Removed),
        _ => r,
    }
}

/// The roster folded from a sequence of events.
pub open spec fn fold_roster_spec(r: Seq<(Seq<char>, Role, Standing)>, events: Seq<Event>) -> Seq<(Seq<char>, Role, Standing)>
    decreases events.len(),
{
    if events.len() == 0 {
        r
    } else {
        fold_roster_spec(apply_spec(r, events[0]), events.drop_first())
    }
}

fn find_member(roster: &Vec<HistoricalMember>, id: &str) -> (r: Option<usize>)
    ensures
        match r {
            Some(i) => first_index(roster_view(roster@), id@) == i && i < roster@.len(),
            None => first_index(roster_view(roster@), id@) == -1,
        },
{
    let ghost rv = roster_view(roster@);
    let mut i: usize = 0;
    while i < roster.len()
        invariant
            rv == roster_view(roster@),
            i <= roster@.len(),
            forall|j: int| 0 <= j < i ==> rv[j].0 != id@,
        decreases roster.len() - i,
    {
        if str_eq(roster[i].subject_id.as_str(), id) {
            proof {
                assert(rv[i as int].0 == id@);
                let c = choose|c: int| 0 <= c < rv.len() && rv[c].0 == id@ && forall|j: int| 0 <= j < c ==> rv[j].0 != id@;
                if c < i {
                } else if c > i {
                    assert(rv[i as int].0 != id@);
                }
            }
            return Some(i);
        }
        i = i + 1;
    }
    proof {
        lemma_first_index(rv, id@);
    }
    None
}

fn upsert(roster: &mut Vec<HistoricalMember>, subject_id: &str, role: Role, standing: Standing)
    ensures
        roster_view(final(roster)@) == upsert_spec(roster_view(old(roster)@), subject_id@, role, standing),
{
    let member = HistoricalMember { subject_id: subject_id.to_owned(), role, standing };
    match find_member(roster, subject_id) {
        Some(i) => {
            roster.set(i, member);
            proof {
                assert(roster_view(roster@) =~= upsert_spec(roster_view(old(roster)@), subject_id@, role, standing));
            }
        },
        None => {
            roster.push(member);
            proof {
                assert(roster_view(roster@) =~= upsert_spec(roster_view(old(roster)@), subject_id@, role, standing));
            }
        },
    }
}

fn set_standing(roster: &mut Vec<HistoricalMember>, subject_id: &str, standing: Standing)
    ensures
        roster_view(final(roster)@) == set_standing_spec(roster_view(old(roster)@), subject_id@, standing),
{
    match find_member(roster, subject_id) {
        Some(i) => {
            let member = HistoricalMember {
                subject_id: roster[i].subject_id.clone(),
                role: roster[i].role,
                standing,
            };
            roster.set(i, member);
            proof {
                assert(roster_view(roster@) =~= set_standing_spec(roster_view(old(roster)@), subject_id@, standing));
            }
        },
        None => {
            roster.push(HistoricalMember { subject_id: subject_id.to_owned(), role: Role::Member, standing });
            proof {
                assert(roster_view(roster@) =~= set_standing_spec(roster_view(old(roster)@), subject_id@, standing));
            }
        },
    }
}

/// Fold one event into the roster.
pub fn apply(roster: &mut Vec<HistoricalMember>, event: &Event)
    ensures
        roster_view(final(roster)@) == apply_spec(roster_view(old(roster)@), *event),
{
    match &event.kind {
        EventKindContent::RoomCreated { .. } => {
            match &event.author {
                Author::Resolved { subject_id, role, .. } => {
                    upsert(roster, subject_id.as_str(), *role, Standing::Active);
                },
                Author::Unresolved => {},
            }
        },
        EventKindContent::MemberJoined { subject_id, role } => {
            upsert(roster, subject_id.as_str(), *role, Standing::Active);
        },
        EventKindContent::MemberLeft { subject_id } => {
            set_standing(roster, subject_id.as_str(), Standing::Left);
        },
        EventKindContent::MemberRemoved { subject_id, .. } => {
            set_standing(roster, subject_id.as_str(), Standing::Removed);
        },
        _ => {},
    }
}

/// The room's authority: the resolved author of the first genesis event.
pub open spec fn authority_spec(events: Seq<Event>) -> Option<Seq<char>>
    decreases events.len(),
{
    if events.len() == 0 {
        None
    } else {
        match events[0].kind {
            EventKindContent::RoomCreated { .. } => match events[0].author {
                Author::Resolved { subject_id, .. } => Some(subject_id@),
                Author::Unresolved => authority_spec(events.drop_first()),
            },
            _ => authority_spec(events.drop_first()),
        }
    }
}

/// The room's authority, from the signed genesis author only.
pub fn authority_of(events: &[Event]) -> (r: Option<String>)
    ensures
        match r {
            Some(s) => authority_spec(events@) == Some(s@),
            None => authority_spec(events@) is None,
        },
{
    let mut i: usize = 0;
    proof {
        assert(events@.skip(0) =~= events@);
    }
    while i < events.len()
        invariant
            i <= events@.len(),
            authority_spec(events@) == authority_spec(events@.skip(i as int)),
        decreases events.len() - i,
    {
        proof {
            assert(events@.skip(i as int)[0] == events@[i as int]);
            assert(events@.skip(i as int).drop_first() =~= events@.skip(i + 1));
        }
        match &events[i].kind {
            EventKindContent::RoomCreated { .. } => match &events[i].author {
                Author::Resolved { subject_id, .. } => {
                    return Some(subject_id.clone());
                },
                Author::Unresolved => {},
            },
            _ => {},
        }
        i = i + 1;
    }
    proof {
        assert(events@.skip(i as int) =~= Seq::<Event>::empty());
    }
    None
}

/// An event that is not about membership leaves the roster unchanged.
pub proof fn lemma_non_membership_events_leave_roster_unchanged(
    r: Seq<(Seq<char>, Role, Standing)>,
    event: Event,
)
    requires
        !(event.kind is RoomCreated || event.kind is MemberJoined || event.kind is MemberLeft
            || event.kind is MemberRemoved),
    ensures
        apply_spec(r, event) == r,
{
}

/// After a join or a genesis seat, the subject is in the roster as active
/// with the signed role; after a departure or removal, the subject is in the
/// roster with that standing.
pub proof fn lemma_membership_events_record_their_subject(
    r: Seq<(Seq<char>, Role, Standing)>,
    id: Seq<char>,
    role: Role,
    standing: Standing,
)
    ensures
        upsert_spec(r, id, role, standing).contains((id, role, standing)),
        exists|k: int| 0 <= k < set_standing_spec(r, id, standing).len()
            && #[trigger] set_standing_spec(r, id, standing)[k].0 == id
            && set_standing_spec(r, id, standing)[k].2 == standing,
{
    let i = first_index(r, id);
    lemma_first_index(r, id);
    if i >= 0 {
        assert(upsert_spec(r, id, role, standing)[i] == (id, role, standing));
        assert(set_standing_spec(r, id, standing)[i].0 == id);
    } else {
        let u = upsert_spec(r, id, role, standing);
        assert(u[r.len() as int] == (id, role, standing));
        assert(set_standing_spec(r, id, standing)[r.len() as int].0 == id);
    }
}

/// A departure or removal changes only a standing: when the subject is
/// already on the roster (its first entry at `i`), that entry keeps its
/// subject and role and takes the new standing (left or removed), and every
/// other entry, and the roster's length, stay as they were.
pub proof fn lemma_departure_keeps_the_role(r: Seq<(Seq<char>, Role, Standing)>, event: Event, i: int)
    requires
        event.kind is MemberLeft || event.kind is MemberRemoved,
        0 <= i < r.len(),
        r[i].0 == match event.kind {
            EventKindContent::MemberLeft { subject_id } => subject_id@,
            EventKindContent::MemberRemoved { subject_id, .. } => subject_id@,
            _ => r[i].0,
        },
        forall|j: int| 0 <= j < i ==> r[j].0 != r[i].0,
    ensures
        apply_spec(r, event).len() == r.len(),
        apply_spec(r, event)[i] == (r[i].0, r[i].1, if event.kind is MemberLeft { Standing::Left } else { Standing::Removed }),
        forall|j: int| 0 <= j < r.len() && j != i ==> #[trigger] apply_spec(r, event)[j] == r[j],
{
    let id = r[i].0;
    lemma_first_index(r, id);
    let k = first_index(r, id);
    lemma_least_witness(r, id, i);
    assert(k == i) by {
        if k < i {
            assert(r[k].0 == id);
        } else if k > i {
            assert(r[i].0 == id);
        }
    }
}

} // verus!
