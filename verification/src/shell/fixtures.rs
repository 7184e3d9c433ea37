//! The offline end-to-end fixtures the web build arms only under an explicit
//! test marker (never by host name): a query string asks for a boot cover
//! (`boot=connecting|failed`), a populated room list (`rooms=N`, at most
//! fifty), every capability-gated affordance (`caps=1`) or an onboarding
//! step (`onboard=identity|rooms`). Reading the marker and the query string
//! is the renderer's; what they ask for is decided here. Without the marker
//! nothing is armed. The reference roster, invitations, fleet and peers the
//! offline suite reads are here too.

use vstd::prelude::*;

use crate::api::{
    CapabilityToken, FleetListOut, FleetRow, InviteListOut, InviteRow, LastEvent, LastSeen, LatestStatus, Link,
    Liveness, MemberRow, PeerRow, Reachability, Redeemability, Role, RoomMembersOut, RoomPeersOut, RoomRow, Standing,
    StatusLabel, SubjectState, Timestamp, Truncated,
};
use crate::client::State;
use crate::shell::bootstrap::ConnectionSnapshot;
use crate::text::{chars_of, decimal_spec, decimal_string, owned, push_str, str_eq, string_of};

verus! {

/// The query string without its leading `?` marks.
pub open spec fn drop_marks(s: Seq<char>) -> Seq<char>
    decreases s.len(),
{
    if s.len() > 0 && s[0] == '?' {
        drop_marks(s.drop_first())
    } else {
        s
    }
}

/// The `&`-separated parts of `s`, in order (one, empty, for an empty
/// text).
pub open spec fn parts(s: Seq<char>) -> Seq<Seq<char>>
    decreases s.len(),
{
    if s.len() == 0 {
        seq![Seq::<char>::empty()]
    } else {
        let prev = parts(s.drop_last());
        if s.last() == '&' {
            prev.push(Seq::empty())
        } else {
            prev.update(prev.len() - 1, prev.last().push(s.last()))
        }
    }
}

/// The parts of a query string.
pub open spec fn query_parts(search: Seq<char>) -> Seq<Seq<char>> {
    parts(drop_marks(search))
}

proof fn lemma_parts_nonempty(s: Seq<char>)
    ensures
        parts(s).len() >= 1,
    decreases s.len(),
{
    if s.len() > 0 {
        lemma_parts_nonempty(s.drop_last());
    }
}

fn skip_marks(v: &Vec<char>) -> (r: usize)
    ensures
        r <= v@.len(),
        v@.skip(r as int) == drop_marks(v@),
{
    let mut i: usize = 0;
    proof {
        assert(v@.skip(0) =~= v@);
    }
    while i < v.len() && v[i] == '?'
        invariant
            i <= v@.len(),
            drop_marks(v@.skip(i as int)) == drop_marks(v@),
        decreases v.len() - i,
    {
        proof {
            assert(v@.skip(i as int).drop_first() =~= v@.skip(i + 1));
        }
        i = i + 1;
    }
    proof {
        assert(drop_marks(v@.skip(i as int)) == v@.skip(i as int));
    }
    i
}

/// The parts of a query string, after its leading `?` marks.
pub fn split_query(search: &str) -> (r: Vec<String>)
    ensures
        r@.map_values(|p: String| p@) == query_parts(search@),
{
    let v = chars_of(search);
    let start = skip_marks(&v);
    let ghost t = v@.skip(start as int);
    let mut done: Vec<String> = Vec::new();
    let mut cur: Vec<char> = Vec::new();
    let mut i: usize = start;
    while i < v.len()
        invariant
            start <= i <= v@.len(),
            t == v@.skip(start as int),
            done@.map_values(|p: String| p@).push(cur@) == parts(t.take(i - start)),
        decreases v.len() - i,
    {
        let ghost before = parts(t.take(i - start));
        proof {
            let u = t.take(i - start + 1);
            assert(u.drop_last() =~= t.take(i - start));
            assert(u.last() == v@[i as int]);
            lemma_parts_nonempty(t.take(i - start));
        }
        if v[i] == '&' {
            let part = string_of(&cur);
            let ghost d0 = done@;
            done.push(part);
            cur = Vec::new();
            proof {
                assert(done@ =~= d0.push(part));
                assert(done@.map_values(|p: String| p@) =~= d0.map_values(|p: String| p@).push(part@));
                assert(done@.map_values(|p: String| p@).push(cur@) =~= before.push(Seq::empty()));
            }
        } else {
            let ghost c0 = cur@;
            cur.push(v[i]);
            proof {
                let dm = done@.map_values(|p: String| p@);
                assert(before == dm.push(c0));
                assert(dm.push(cur@) =~= before.update(before.len() - 1, before.last().push(v@[i as int])));
            }
        }
        i = i + 1;
    }
    proof {
        assert(t.take(i - start) =~= t);
        assert(t == drop_marks(search@));
    }
    let last = string_of(&cur);
    let ghost d1 = done@;
    done.push(last);
    proof {
        assert(done@ =~= d1.push(last));
        assert(done@.map_values(|p: String| p@) =~= d1.map_values(|p: String| p@).push(last@));
    }
    done
}

/// Whether `p` starts with `prefix`.
pub open spec fn has_prefix(p: Seq<char>, prefix: Seq<char>) -> bool {
    prefix.len() <= p.len() && p.take(prefix.len() as int) == prefix
}

/// The rest of the first part of `ps` that starts with `prefix`.
pub open spec fn first_value(ps: Seq<Seq<char>>, prefix: Seq<char>) -> Option<Seq<char>>
    decreases ps.len(),
{
    if ps.len() == 0 {
        None
    } else if has_prefix(ps[0], prefix) {
        Some(ps[0].skip(prefix.len() as int))
    } else {
        first_value(ps.drop_first(), prefix)
    }
}

/// The value `key` has in a query string: that of its first `key=value`
/// part.
pub open spec fn query_value_spec(search: Seq<char>, key: Seq<char>) -> Option<Seq<char>> {
    first_value(query_parts(search), key.push('='))
}

/// An optional text's characters.
pub open spec fn opt_chars(v: Option<String>) -> Option<Seq<char>> {
    match v {
        Some(s) => Some(s@),
        None => None,
    }
}

/// The value `key` has in a query string.
pub fn query_value(search: &str, key: &str) -> (r: Option<String>)
    ensures
        opt_chars(r) == query_value_spec(search@, key@),
{
    let ps = split_query(search);
    let mut prefix = owned(key);
    crate::text::push_char(&mut prefix, '=');
    let pv = chars_of(prefix.as_str());
    let ghost q = query_parts(search@);
    let ghost pre = key@.push('=');
    let mut i: usize = 0;
    proof {
        assert(q.skip(0) =~= q);
    }
    while i < ps.len()
        invariant
            i <= ps@.len(),
            ps@.map_values(|p: String| p@) == q,
            q == query_parts(search@),
            pv@ == pre,
            prefix@ == pre,
            pre == key@.push('='),
            first_value(q, pre) == first_value(q.skip(i as int), pre),
        decreases ps.len() - i,
    {
        proof {
            assert(q[i as int] == ps@[i as int]@);
            assert(q.skip(i as int)[0] == q[i as int]);
            assert(q.skip(i as int).drop_first() =~= q.skip(i + 1));
        }
        if crate::text::str_starts_with(ps[i].as_str(), prefix.as_str()) {
            let v = chars_of(ps[i].as_str());
            let value = crate::text::string_of_range(&v, pv.len(), v.len());
            proof {
                assert(value@ =~= q[i as int].skip(pre.len() as int));
                assert(has_prefix(q.skip(i as int)[0], pre));
                assert(first_value(q.skip(i as int), pre) == Some(q.skip(i as int)[0].skip(pre.len() as int)));
            }
            return Some(value);
        }
        i = i + 1;
    }
    proof {
        assert(q.skip(i as int).len() == 0);
    }
    None
}

/// Whether some part of a query string is exactly `pair`.
pub fn query_has(search: &str, pair: &str) -> (r: bool)
    ensures
        r == query_parts(search@).contains(pair@),
{
    let ps = split_query(search);
    let ghost q = query_parts(search@);
    let mut i: usize = 0;
    while i < ps.len()
        invariant
            i <= ps@.len(),
            ps@.map_values(|p: String| p@) == q,
            q == query_parts(search@),
            forall|j: int| 0 <= j < i ==> #[trigger] q[j] != pair@,
        decreases ps.len() - i,
    {
        proof {
            assert(q[i as int] == ps@[i as int]@);
        }
        if str_eq(ps[i].as_str(), pair) {
            proof {
                assert(q[i as int] == pair@);
            }
            return true;
        }
        i = i + 1;
    }
    false
}

/// The boot cover a `boot=` value asks for: only `connecting` and `failed`
/// (the settled-work states cannot be driven from a fixture).
pub open spec fn boot_cover_spec(value: Option<Seq<char>>) -> Option<State> {
    match value {
        Some(v) => if v == "connecting"@ {
            Some(State::Connecting)
        } else if v == "failed"@ {
            Some(State::Failed)
        } else {
            None
        },
        None => None,
    }
}

/// The boot cover the query asks for, when the fixtures are armed.
pub fn boot_fixture_state(armed: bool, search: &str) -> (r: Option<State>)
    ensures
        r == if armed { boot_cover_spec(query_value_spec(search@, "boot"@)) } else { None },
{
    if !armed {
        return None;
    }
    let value = query_value(search, "boot");
    match &value {
        Some(v) => if str_eq(v.as_str(), "connecting") {
            Some(State::Connecting)
        } else if str_eq(v.as_str(), "failed") {
            Some(State::Failed)
        } else {
            None
        },
        None => None,
    }
}

/// Whether a character is an ASCII digit.
pub open spec fn is_digit(c: char) -> bool {
    '0' <= c && c <= '9'
}

/// The number a run of ASCII digits spells.
pub open spec fn digits_value(s: Seq<char>) -> nat
    decreases s.len(),
{
    if s.len() == 0 {
        0
    } else {
        digits_value(s.drop_last()) * 10 + ((s.last() as u32) - 48) as nat
    }
}

/// The text without one leading `+`.
pub open spec fn strip_plus(s: Seq<char>) -> Seq<char> {
    if s.len() > 0 && s[0] == '+' { s.drop_first() } else { s }
}

/// Whether every character is an ASCII digit.
pub open spec fn all_digits(t: Seq<char>) -> bool {
    forall|i: int| 0 <= i < t.len() ==> is_digit(#[trigger] t[i])
}

/// A count as `usize` parsing reads it: an optional `+`, then one or more
/// ASCII digits, whose number fits a `usize`.
pub open spec fn parse_count_spec(s: Seq<char>) -> Option<nat> {
    let t = strip_plus(s);
    if t.len() > 0 && all_digits(t) && digits_value(t) <= usize::MAX {
        Some(digits_value(t))
    } else {
        None
    }
}

proof fn lemma_digits_value_grows(t: Seq<char>, k: int)
    requires
        0 <= k <= t.len(),
        forall|i: int| 0 <= i < t.len() ==> is_digit(#[trigger] t[i]),
    ensures
        digits_value(t.take(k)) <= digits_value(t),
    decreases t.len() - k,
{
    if k < t.len() {
        lemma_digits_value_grows(t, k + 1);
        assert(t.take(k + 1).drop_last() =~= t.take(k));
        assert(is_digit(t[k]));
    } else {
        assert(t.take(k) =~= t);
    }
}

proof fn lemma_overflow_refuses(t: Seq<char>, k: int, n: nat, d: nat)
    requires
        0 <= k < t.len(),
        n == digits_value(t.take(k)),
        d == ((t[k] as u32) - 48) as nat,
        is_digit(t[k]),
        n * 10 + d > usize::MAX,
    ensures
        !(all_digits(t) && digits_value(t) <= usize::MAX),
{
    if all_digits(t) {
        lemma_digits_value_grows(t, k + 1);
        let u = t.take(k + 1);
        assert(u.drop_last() =~= t.take(k));
        assert(u.last() == t[k]);
    }
}

/// Parse a count the way `usize` parsing does.
pub fn parse_count(s: &str) -> (r: Option<usize>)
    ensures
        match r {
            Some(n) => parse_count_spec(s@) == Some(n as nat),
            None => parse_count_spec(s@) is None,
        },
{
    let v = chars_of(s);
    let start: usize = if v.len() > 0 && v[0] == '+' { 1 } else { 0 };
    let ghost t = strip_plus(s@);
    proof {
        assert(t =~= v@.skip(start as int));
    }
    if start >= v.len() {
        proof {
            assert(t.len() == 0);
            assert(parse_count_spec(s@) is None);
        }
        return None;
    }
    let mut n: usize = 0;
    let mut i: usize = start;
    while i < v.len()
        invariant
            start <= i <= v@.len(),
            start < v@.len(),
            v@ == s@,
            t == v@.skip(start as int),
            t == strip_plus(s@),
            forall|k: int| 0 <= k < i - start ==> is_digit(#[trigger] t[k]),
            n as nat == digits_value(t.take(i - start)),
        decreases v.len() - i,
    {
        let c = v[i];
        proof {
            assert(t[i - start] == c);
        }
        if !('0' <= c && c <= '9') {
            proof {
                assert(!is_digit(t[i - start]));
                assert(!all_digits(t));
                assert(parse_count_spec(s@) is None);
            }
            return None;
        }
        let d = (c as u32 - 48) as usize;
        proof {
            let u = t.take(i - start + 1);
            assert(u.drop_last() =~= t.take(i - start));
            assert(u.last() == c);
        }
        let m = n.checked_mul(10);
        if m.is_none() {
            proof {
                lemma_overflow_refuses(t, i - start, n as nat, d as nat);
            }
            return None;
        }
        let m = m.unwrap();
        let a = m.checked_add(d);
        if a.is_none() {
            proof {
                lemma_overflow_refuses(t, i - start, n as nat, d as nat);
            }
            return None;
        }
        n = a.unwrap();
        i = i + 1;
    }
    proof {
        assert(t.take(i - start) =~= t);
    }
    Some(n)
}

/// The most rooms the populated-shell fixture asks for.
pub const MAX_FIXTURE_ROOMS: usize = 50;

/// How many rooms the query asks for: the `rooms=` value read as a count,
/// capped at fifty; none when absent, unreadable or unarmed.
pub open spec fn rooms_fixture_spec(armed: bool, search: Seq<char>) -> nat {
    if !armed {
        0
    } else {
        match query_value_spec(search, "rooms"@) {
            Some(v) => match parse_count_spec(v) {
                Some(n) => if n <= 50 { n } else { 50 },
                None => 0,
            },
            None => 0,
        }
    }
}

/// How many fixture rooms the query asks for, when armed.
pub fn rooms_fixture_count(armed: bool, search: &str) -> (r: usize)
    ensures
        r as nat == rooms_fixture_spec(armed, search@),
{
    if !armed {
        return 0;
    }
    match query_value(search, "rooms") {
        Some(v) => match parse_count(v.as_str()) {
            Some(n) => if n <= MAX_FIXTURE_ROOMS { n } else { MAX_FIXTURE_ROOMS },
            None => 0,
        },
        None => 0,
    }
}

/// The capabilities the `caps=1` fixture grants: every affordance the room
/// settings gate on.
pub open spec fn all_affordances() -> Seq<CapabilityToken> {
    seq![
        CapabilityToken::InviteMint,
        CapabilityToken::InviteRevoke,
        CapabilityToken::MemberRemove,
        CapabilityToken::RoomLeave,
        CapabilityToken::RoomActivate,
    ]
}

/// The capabilities the query grants, when armed: every gated affordance
/// for an exact `caps=1` part, none otherwise.
pub fn fixture_caps(armed: bool, search: &str) -> (r: Vec<CapabilityToken>)
    ensures
        r@ == if armed && query_parts(search@).contains("caps=1"@) { all_affordances() } else { Seq::empty() },
{
    if armed && query_has(search, "caps=1") {
        let r = vec![
            CapabilityToken::InviteMint,
            CapabilityToken::InviteRevoke,
            CapabilityToken::MemberRemove,
            CapabilityToken::RoomLeave,
            CapabilityToken::RoomActivate,
        ];
        proof {
            assert(r@ =~= all_affordances());
        }
        r
    } else {
        Vec::new()
    }
}

/// The capabilities each fixture room carries: the granted ones, plus
/// sending (so the offline pane shows a live composer).
pub fn fixture_room_caps(granted: Vec<CapabilityToken>) -> (r: Vec<CapabilityToken>)
    ensures
        r@ == if granted@.contains(CapabilityToken::MessageSend) { granted@ } else { granted@.push(CapabilityToken::MessageSend) },
{
    let mut caps = granted;
    let mut i: usize = 0;
    let mut found = false;
    while i < caps.len()
        invariant
            i <= caps@.len(),
            caps@ == granted@,
            found == exists|k: int| 0 <= k < i && #[trigger] caps@[k] == CapabilityToken::MessageSend,
        decreases caps.len() - i,
    {
        if caps[i] == CapabilityToken::MessageSend {
            found = true;
        }
        i = i + 1;
    }
    if !found {
        caps.push(CapabilityToken::MessageSend);
    }
    caps
}

/// The connection snapshot an `onboard=` value scripts: the identity step
/// (no subject) or the rooms step (a fixed onboarding subject).
pub open spec fn onboarding_spec(value: Option<Seq<char>>) -> Option<(Option<(Seq<char>, Seq<char>)>, u64)> {
    match value {
        Some(v) => if v == "identity"@ {
            Some((None, 1))
        } else if v == "rooms"@ {
            Some((Some(("blake3:onboarding-subject"@, "blake3:onboarding-device"@)), 1))
        } else {
            None
        },
        None => None,
    }
}

/// A snapshot as plain values: the subject and device when present, and
/// the storage generation.
pub open spec fn snapshot_view(s: ConnectionSnapshot) -> (Option<(Seq<char>, Seq<char>)>, u64) {
    (
        match s.subject {
            SubjectState::Absent => None,
            SubjectState::Present { subject_id, device_id } => Some((subject_id@, device_id@)),
        },
        s.storage_generation,
    )
}

/// The scripted connection snapshot the query asks for, when armed.
pub fn onboarding_snapshot(armed: bool, search: &str) -> (r: Option<ConnectionSnapshot>)
    ensures
        match r {
            Some(s) => armed && onboarding_spec(query_value_spec(search@, "onboard"@)) == Some(snapshot_view(s)),
            None => !armed || onboarding_spec(query_value_spec(search@, "onboard"@)) is None,
        },
{
    if !armed {
        return None;
    }
    let value = query_value(search, "onboard");
    match &value {
        Some(v) => if str_eq(v.as_str(), "identity") {
            Some(ConnectionSnapshot { subject: SubjectState::Absent, storage_generation: 1 })
        } else if str_eq(v.as_str(), "rooms") {
            Some(ConnectionSnapshot {
                subject: SubjectState::Present {
                    subject_id: owned("blake3:onboarding-subject"),
                    device_id: owned("blake3:onboarding-device"),
                },
                storage_generation: 1,
            })
        } else {
            None
        },
        None => None,
    }
}

/// The fixture room numbered `i`: an active, offline room of one member,
/// with no events, carrying `caps`.
pub open spec fn fixture_room_ok(r: RoomRow, i: nat, caps: Seq<CapabilityToken>) -> bool {
    &&& r.room_id@ == "fixture-room-"@ + decimal_spec(i)
    &&& r.name@ == "Fixture room "@ + decimal_spec(i)
    &&& r.standing == Standing::Active
    &&& !r.live
    &&& r.role == Role::Member
    &&& r.member_count == 1
    &&& r.last_event == LastEvent::Absent
    &&& r.capabilities@ == caps
}

fn copy_caps(caps: &Vec<CapabilityToken>) -> (r: Vec<CapabilityToken>)
    ensures
        r@ == caps@,
{
    let mut out: Vec<CapabilityToken> = Vec::new();
    let mut i: usize = 0;
    while i < caps.len()
        invariant
            i <= caps@.len(),
            out@ == caps@.subrange(0, i as int),
        decreases caps.len() - i,
    {
        out.push(caps[i]);
        proof {
            assert(caps@.subrange(0, i + 1) =~= caps@.subrange(0, i as int).push(caps@[i as int]));
        }
        i = i + 1;
    }
    proof {
        assert(caps@.subrange(0, i as int) =~= caps@);
    }
    out
}

/// The populated-shell fixture: `count` numbered rooms carrying `caps`.
pub fn fixture_rooms(count: usize, caps: &Vec<CapabilityToken>) -> (r: Vec<RoomRow>)
    ensures
        r@.len() == count,
        forall|i: int| 0 <= i < count ==> fixture_room_ok(#[trigger] r@[i], i as nat, caps@),
{
    let mut rooms: Vec<RoomRow> = Vec::new();
    let mut i: usize = 0;
    while i < count
        invariant
            i <= count,
            rooms@.len() == i,
            forall|k: int| 0 <= k < i ==> fixture_room_ok(#[trigger] rooms@[k], k as nat, caps@),
        decreases count - i,
    {
        let n = decimal_string(i as u64);
        let mut room_id = owned("fixture-room-");
        push_str(&mut room_id, n.as_str());
        let mut name = owned("Fixture room ");
        push_str(&mut name, n.as_str());
        rooms.push(RoomRow {
            room_id,
            name,
            standing: Standing::Active,
            live: false,
            role: Role::Member,
            member_count: 1,
            last_event: LastEvent::Absent,
            capabilities: copy_caps(caps),
        });
        i = i + 1;
    }
    rooms
}

/// The room the offline reference data belongs to.
pub open spec fn fixture_room_id() -> Seq<char> {
    "fixture-room-0"@
}

/// The reference roster: an authority and an ordinary member, both active
/// (the member is also the reference fleet's working agent).
pub fn fixture_members() -> (r: RoomMembersOut)
    ensures
        r.room_id@ == fixture_room_id(),
        r.members@.len() == 2,
        r.members@[0].subject_id@ == "blake3:fixture-authority"@ && r.members@[0].role == Role::Authority
            && r.members@[0].standing == Standing::Active,
        r.members@[1].subject_id@ == "blake3:fixture-agent"@ && r.members@[1].role == Role::Member
            && r.members@[1].standing == Standing::Active,
        r.members@[0].joined_at.seconds() == 0 && r.members@[1].joined_at.seconds() == 0,
{
    RoomMembersOut {
        room_id: owned("fixture-room-0"),
        members: vec![
            MemberRow {
                subject_id: owned("blake3:fixture-authority"),
                role: Role::Authority,
                standing: Standing::Active,
                joined_at: Timestamp::unix_epoch(),
            },
            MemberRow {
                subject_id: owned("blake3:fixture-agent"),
                role: Role::Member,
                standing: Standing::Active,
                joined_at: Timestamp::unix_epoch(),
            },
        ],
    }
}

/// The reference invitations: one outstanding (offering Revoke), one
/// expired (offering Re-invite); the list is complete.
pub fn fixture_invites() -> (r: InviteListOut)
    ensures
        r.room_id@ == fixture_room_id(),
        r.invites@.len() == 2,
        r.invites@[0].invite_id@ == "inv-outstanding"@ && r.invites@[0].subject_id@ == "blake3:fixture-invitee"@
            && r.invites@[0].role == Role::Member && r.invites@[0].redeemability == Redeemability::Outstanding,
        r.invites@[1].invite_id@ == "inv-expired"@ && r.invites@[1].subject_id@ == "blake3:fixture-expired"@
            && r.invites@[1].role == Role::Member && r.invites@[1].redeemability == Redeemability::Expired,
        r.truncated == Truncated::Complete,
{
    InviteListOut {
        room_id: owned("fixture-room-0"),
        invites: vec![
            InviteRow {
                invite_id: owned("inv-outstanding"),
                subject_id: owned("blake3:fixture-invitee"),
                role: Role::Member,
                expires_at: Timestamp::unix_epoch(),
                redeemability: Redeemability::Outstanding,
            },
            InviteRow {
                invite_id: owned("inv-expired"),
                subject_id: owned("blake3:fixture-expired"),
                role: Role::Member,
                expires_at: Timestamp::unix_epoch(),
                redeemability: Redeemability::Expired,
            },
        ],
        truncated: Truncated::Complete,
    }
}

/// The reference fleet: a working agent, seen, and a blocked one, stale
/// and never seen.
pub fn fixture_fleet() -> (r: FleetListOut)
    ensures
        r.agents@.len() == 2,
        r.agents@[0].subject_id@ == "blake3:fixture-agent"@ && r.agents@[0].room_id@ == fixture_room_id()
            && r.agents@[0].liveness == Liveness::Working
            && (r.agents@[0].latest_status matches LatestStatus::Present { label, .. } && label == StatusLabel::Working)
            && r.agents@[0].last_seen is Present,
        r.agents@[1].subject_id@ == "blake3:fixture-blocked"@ && r.agents@[1].room_id@ == fixture_room_id()
            && r.agents@[1].liveness == Liveness::Stale
            && (r.agents@[1].latest_status matches LatestStatus::Present { label, .. } && label == StatusLabel::Blocked)
            && r.agents@[1].last_seen is Absent,
{
    FleetListOut {
        agents: vec![
            FleetRow {
                subject_id: owned("blake3:fixture-agent"),
                room_id: owned("fixture-room-0"),
                liveness: Liveness::Working,
                latest_status: LatestStatus::Present { label: StatusLabel::Working, at: Timestamp::unix_epoch() },
                last_seen: LastSeen::Present { at: Timestamp::unix_epoch() },
            },
            FleetRow {
                subject_id: owned("blake3:fixture-blocked"),
                room_id: owned("fixture-room-0"),
                liveness: Liveness::Stale,
                latest_status: LatestStatus::Present { label: StatusLabel::Blocked, at: Timestamp::unix_epoch() },
                last_seen: LastSeen::Absent,
            },
        ],
    }
}

/// The reference peers of the live room: the agent's device, directly
/// linked.
pub fn fixture_peers() -> (r: RoomPeersOut)
    ensures
        r.room_id@ == fixture_room_id(),
        r.reachability == Reachability::Connected,
        r.peers@.len() == 1,
        r.peers@[0].subject_id@ == "blake3:fixture-agent"@ && r.peers@[0].device_id@ == "blake3:fixture-device"@
            && r.peers@[0].link is Direct,
{
    RoomPeersOut {
        room_id: owned("fixture-room-0"),
        reachability: Reachability::Connected,
        peers: vec![
            PeerRow {
                subject_id: owned("blake3:fixture-agent"),
                device_id: owned("blake3:fixture-device"),
                link: Link::Direct { since: Timestamp::unix_epoch() },
            },
        ],
    }
}

} // verus!
