//! Folding the reconciler's room updates into the Activity pane's state,
//! and the pending-to-committed reconciliation that keeps a message from
//! showing twice across a reconnect or resync: a syncing send is dropped the
//! moment the converged timeline holds its committed row.

use vstd::prelude::*;

use crate::api::{Event, MemberRow, PeerRow, Reachability, Timestamp};
use crate::room::runs::clone_events;
use crate::room::send::{SendEntry, SendId, SendIds, SendPhase};
use crate::text::str_eq;

verus! {

/// Why the reconciler is re-reading a room.
#[derive(Clone, Copy, PartialEq, Eq, Debug, Structural)]
pub enum ResyncReason {
    /// The connection was re-established.
    Reconnect,
}

/// A resync the reconciler started.
#[derive(Clone, Copy, PartialEq, Eq, Debug, Structural)]
pub struct ResyncRequired {
    /// The view generation the resync will produce.
    pub generation: u64,
    /// Why it started.
    pub reason: ResyncReason,
}

/// A converged, gap-free and deduplicated view of one room.
#[derive(Clone, PartialEq, Eq, Debug)]
pub struct RoomView {
    /// The room.
    pub room_id: String,
    /// The view's generation.
    pub generation: u64,
    /// The timeline, in position order.
    pub timeline: Vec<Event>,
    /// The members.
    pub members: Vec<MemberRow>,
    /// The peer devices.
    pub peers: Vec<PeerRow>,
    /// The room's reachability.
    pub reachability: Reachability,
}

/// One update the reconciler delivers (to every subscription, for every
/// room).
#[derive(Clone, PartialEq, Eq, Debug)]
pub enum RoomUpdate {
    /// A resync of `room_id` started.
    Resyncing { room_id: String, resync: ResyncRequired },
    /// A converged view.
    Converged(RoomView),
    /// `dropped` updates were lost, for `room_id` or unattributed.
    Lagged { room_id: Option<String>, dropped: u64 },
}

/// Two views hold the same facts.
pub open spec fn same_view(a: RoomView, b: RoomView) -> bool {
    &&& a.room_id@ == b.room_id@
    &&& a.generation == b.generation
    &&& a.timeline@ == b.timeline@
    &&& a.members@.len() == b.members@.len()
    &&& forall|i: int| 0 <= i < a.members@.len() ==> member_eq(#[trigger] a.members@[i], b.members@[i])
    &&& a.peers@.len() == b.peers@.len()
    &&& forall|i: int| 0 <= i < a.peers@.len() ==> peer_eq(#[trigger] a.peers@[i], b.peers@[i])
    &&& a.reachability == b.reachability
}

/// Two member rows hold the same facts.
pub open spec fn member_eq(a: MemberRow, b: MemberRow) -> bool {
    a.subject_id@ == b.subject_id@ && a.role == b.role && a.standing == b.standing && a.joined_at == b.joined_at
}

/// Two peer rows hold the same facts.
pub open spec fn peer_eq(a: PeerRow, b: PeerRow) -> bool {
    a.subject_id@ == b.subject_id@ && a.device_id@ == b.device_id@ && a.link == b.link
}

fn copy_view(v: &RoomView) -> (r: RoomView)
    ensures
        same_view(r, *v),
{
    let mut members: Vec<MemberRow> = Vec::new();
    let mut i: usize = 0;
    while i < v.members.len()
        invariant
            i <= v.members@.len(),
            members@.len() == i,
            forall|k: int| 0 <= k < i ==> member_eq(#[trigger] members@[k], v.members@[k]),
        decreases v.members.len() - i,
    {
        let m = &v.members[i];
        members.push(MemberRow {
            subject_id: m.subject_id.clone(),
            role: m.role,
            standing: m.standing,
            joined_at: m.joined_at,
        });
        i = i + 1;
    }
    let mut peers: Vec<PeerRow> = Vec::new();
    let mut j: usize = 0;
    while j < v.peers.len()
        invariant
            j <= v.peers@.len(),
            peers@.len() == j,
            forall|k: int| 0 <= k < j ==> peer_eq(#[trigger] peers@[k], v.peers@[k]),
        decreases v.peers.len() - j,
    {
        let p = &v.peers[j];
        peers.push(PeerRow { subject_id: p.subject_id.clone(), device_id: p.device_id.clone(), link: p.link });
        j = j + 1;
    }
    RoomView {
        room_id: v.room_id.clone(),
        generation: v.generation,
        timeline: clone_events(&v.timeline),
        members,
        peers,
        reachability: v.reachability,
    }
}

/// Whether some event of `timeline` carries `event_id`.
pub open spec fn timeline_holds(timeline: Seq<Event>, event_id: Seq<char>) -> bool {
    exists|i: int| 0 <= i < timeline.len() && (#[trigger] timeline[i]).event_id@ == event_id
}

/// Whether the committed row of a send is in `timeline`: only a syncing
/// send with a known event id is, and only by that id.
pub open spec fn committed_in(e: SendEntry, timeline: Seq<Event>) -> bool {
    e.phase matches SendPhase::Syncing { event_id: Some(id) } && timeline_holds(timeline, id@)
}

/// The sends of `s` whose committed row `timeline` does not hold, in order.
pub open spec fn uncommitted(s: Seq<SendEntry>, timeline: Seq<Event>) -> Seq<SendEntry>
    decreases s.len(),
{
    if s.len() == 0 {
        Seq::empty()
    } else if committed_in(s.last(), timeline) {
        uncommitted(s.drop_last(), timeline)
    } else {
        uncommitted(s.drop_last(), timeline).push(s.last())
    }
}

/// The optimistic sends of one pane mount, under its namespace.
pub struct Sends {
    namespace: String,
    ids: SendIds,
    entries: Vec<SendEntry>,
}

impl Sends {
    /// The sends, in the order they were begun.
    pub closed spec fn entries_view(&self) -> Seq<SendEntry> {
        self.entries@
    }

    /// The namespace the sends' `op_id`s are minted under.
    pub closed spec fn namespace_view(&self) -> Seq<char> {
        self.namespace@
    }

    /// The next client id.
    pub closed spec fn next_id(&self) -> u64 {
        self.ids.next_spec()
    }

    /// No sends yet, under `namespace`.
    pub fn new(namespace: String) -> (r: Self)
        ensures
            r.entries_view() == Seq::<SendEntry>::empty(),
            r.namespace_view() == namespace@,
            r.next_id() == 0,
    {
        Sends { namespace, ids: SendIds::new(), entries: Vec::new() }
    }

    /// Begin a pending send of `body` composed at `at`: it gets the next
    /// client id and the `op_id` that id names.
    pub fn begin(&mut self, body: String, at: Timestamp) -> (r: SendId)
        ensures
            r.0 == old(self).next_id(),
            final(self).namespace_view() == old(self).namespace_view(),
            final(self).entries_view().len() == old(self).entries_view().len() + 1,
            final(self).entries_view().drop_last() == old(self).entries_view(),
            final(self).entries_view().last().client_id == r,
            final(self).entries_view().last().op_id@ == crate::room::send::op_id_spec(old(self).namespace_view(), r),
            final(self).entries_view().last().body == body,
            final(self).entries_view().last().at == at,
            final(self).entries_view().last().phase == SendPhase::Pending,
    {
        let id = self.ids.mint();
        let entry = SendEntry::new(self.namespace.as_str(), id, body, at);
        self.entries.push(entry);
        proof {
            assert(self.entries@.drop_last() =~= old(self).entries@);
        }
        id
    }

    /// Move the send `id` to `phase`; no other send changes.
    pub fn set_phase(&mut self, id: SendId, phase: SendPhase)
        ensures
            final(self).namespace_view() == old(self).namespace_view(),
            final(self).next_id() == old(self).next_id(),
            final(self).entries_view().len() == old(self).entries_view().len(),
            forall|i: int| 0 <= i < old(self).entries_view().len() ==> {
                let e = #[trigger] final(self).entries_view()[i];
                let o = old(self).entries_view()[i];
                &&& e.client_id == o.client_id
                &&& e.op_id == o.op_id
                &&& e.body == o.body
                &&& e.at == o.at
                &&& e.phase == if o.client_id == id { phase } else { o.phase }
            },
    {
        let mut i: usize = 0;
        let n = self.entries.len();
        let mut out: Vec<SendEntry> = Vec::new();
        while i < n
            invariant
                i <= n,
                n == old(self).entries@.len(),
                self.entries@ == old(self).entries@,
                out@.len() == i,
                forall|k: int| 0 <= k < i ==> {
                    let e = #[trigger] out@[k];
                    let o = old(self).entries@[k];
                    &&& e.client_id == o.client_id
                    &&& e.op_id == o.op_id
                    &&& e.body == o.body
                    &&& e.at == o.at
                    &&& e.phase == if o.client_id == id { phase } else { o.phase }
                },
            decreases n - i,
        {
            let mut e = self.entries[i].clone();
            if e.client_id.0 == id.0 {
                e.phase = phase.clone();
            }
            out.push(e);
            i = i + 1;
        }
        self.entries = out;
    }

    /// The sends, in the order they were begun.
    pub fn entries(&self) -> (r: &Vec<SendEntry>)
        ensures
            r@ == self.entries_view(),
    {
        &self.entries
    }

    /// Whether no send is held.
    pub fn is_empty(&self) -> (r: bool)
        ensures
            r == (self.entries_view().len() == 0),
    {
        self.entries.len() == 0
    }

    /// The send `id`, if it is still held.
    pub fn get(&self, id: SendId) -> (r: Option<&SendEntry>)
        ensures
            match r {
                Some(e) => e.client_id == id && exists|i: int| 0 <= i < self.entries_view().len()
                    && self.entries_view()[i] == *e,
                None => forall|i: int| 0 <= i < self.entries_view().len()
                    ==> (#[trigger] self.entries_view()[i]).client_id != id,
            },
    {
        let mut i: usize = 0;
        while i < self.entries.len()
            invariant
                i <= self.entries@.len(),
                forall|j: int| 0 <= j < i ==> (#[trigger] self.entries@[j]).client_id != id,
            decreases self.entries.len() - i,
        {
            if self.entries[i].client_id.0 == id.0 {
                return Some(&self.entries[i]);
            }
            i = i + 1;
        }
        None
    }

    /// Drop every send whose committed row `timeline` holds; the others
    /// stay, in order.
    pub fn reconcile(&mut self, timeline: &Vec<Event>)
        ensures
            final(self).entries_view() == uncommitted(old(self).entries_view(), timeline@),
            final(self).namespace_view() == old(self).namespace_view(),
            final(self).next_id() == old(self).next_id(),
    {
        let n = self.entries.len();
        let mut out: Vec<SendEntry> = Vec::new();
        let mut i: usize = 0;
        while i < n
            invariant
                i <= n,
                n == old(self).entries@.len(),
                self.entries@ == old(self).entries@,
                out@ == uncommitted(old(self).entries@.subrange(0, i as int), timeline@),
            decreases n - i,
        {
            let e = &self.entries[i];
            let committed = match &e.phase {
                SendPhase::Syncing { event_id: Some(id) } => holds_event(timeline, id),
                _ => false,
            };
            proof {
                let s = old(self).entries@.subrange(0, i + 1);
                assert(s.drop_last() =~= old(self).entries@.subrange(0, i as int));
                assert(s.last() == old(self).entries@[i as int]);
            }
            if !committed {
                out.push(e.clone());
            }
            i = i + 1;
        }
        proof {
            assert(old(self).entries@.subrange(0, n as int) =~= old(self).entries@);
        }
        self.entries = out;
    }
}

fn holds_event(timeline: &Vec<Event>, event_id: &String) -> (r: bool)
    ensures
        r == timeline_holds(timeline@, event_id@),
{
    let mut i: usize = 0;
    while i < timeline.len()
        invariant
            i <= timeline@.len(),
            forall|j: int| 0 <= j < i ==> (#[trigger] timeline@[j]).event_id@ != event_id@,
        decreases timeline.len() - i,
    {
        if str_eq(timeline[i].event_id.as_str(), event_id.as_str()) {
            return true;
        }
        i = i + 1;
    }
    false
}

/// The Activity pane's state for one room: the latest converged view, the
/// resync notice, the honest loss marker, and the optimistic sends.
pub struct RoomActivityState {
    /// The latest converged view, once one arrived.
    pub view: Option<RoomView>,
    /// A resync is in flight.
    pub resyncing: bool,
    /// How many updates were lost since the last converged view.
    pub lost: Option<u64>,
    /// The optimistic sends.
    pub sends: Sends,
}

impl RoomActivityState {
    /// No view yet, no notice, no sends under `namespace`.
    pub fn new(namespace: String) -> (r: Self)
        ensures
            r.view is None,
            !r.resyncing,
            r.lost is None,
            r.sends.entries_view() == Seq::<SendEntry>::empty(),
            r.sends.namespace_view() == namespace@,
    {
        RoomActivityState { view: None, resyncing: false, lost: None, sends: Sends::new(namespace) }
    }

    /// The converged timeline, empty before the first view.
    pub fn timeline(&self) -> (r: &[Event])
        ensures
            r@ == match self.view {
                Some(v) => v.timeline@,
                None => Seq::<Event>::empty(),
            },
    {
        match &self.view {
            Some(v) => v.timeline.as_slice(),
            None => &[],
        }
    }

    /// Fold one update for `room_id`: a resync of this room raises the
    /// notice; a converged view of this room replaces the view, clears the
    /// notice and the loss marker, and drops every send whose committed row
    /// it holds; a loss for this room, or an unattributed one, adds to the
    /// loss marker (saturating). Updates for other rooms change nothing.
    pub fn apply_update(&mut self, room_id: &String, update: &RoomUpdate)
        ensures
            match *update {
                RoomUpdate::Resyncing { room_id: r, .. } => if r@ == room_id@ {
                    &&& final(self).resyncing
                    &&& final(self).view == old(self).view
                    &&& final(self).lost == old(self).lost
                    &&& final(self).sends.entries_view() == old(self).sends.entries_view()
                } else {
                    unchanged(*old(self), *final(self))
                },
                RoomUpdate::Converged(v) => if v.room_id@ == room_id@ {
                    &&& (final(self).view matches Some(w) && same_view(w, v))
                    &&& !final(self).resyncing
                    &&& final(self).lost is None
                    &&& final(self).sends.entries_view() == uncommitted(old(self).sends.entries_view(), v.timeline@)
                } else {
                    unchanged(*old(self), *final(self))
                },
                RoomUpdate::Lagged { room_id: r, dropped } => if r is None || r->0@ == room_id@ {
                    &&& final(self).lost == Some(lost_after(old(self).lost, dropped))
                    &&& final(self).view == old(self).view
                    &&& final(self).resyncing == old(self).resyncing
                    &&& final(self).sends.entries_view() == old(self).sends.entries_view()
                } else {
                    unchanged(*old(self), *final(self))
                },
            },
            final(self).sends.namespace_view() == old(self).sends.namespace_view(),
            final(self).sends.next_id() == old(self).sends.next_id(),
    {
        match update {
            RoomUpdate::Resyncing { room_id: r, .. } => {
                if str_eq(r.as_str(), room_id.as_str()) {
                    self.resyncing = true;
                }
            },
            RoomUpdate::Converged(view) => {
                if str_eq(view.room_id.as_str(), room_id.as_str()) {
                    self.view = Some(copy_view(view));
                    self.resyncing = false;
                    self.lost = None;
                    self.sends.reconcile(&view.timeline);
                }
            },
            RoomUpdate::Lagged { room_id: r, dropped } => {
                let ours = match r {
                    Some(r) => str_eq(r.as_str(), room_id.as_str()),
                    None => true,
                };
                if ours {
                    let prior = match self.lost {
                        Some(n) => n,
                        None => 0,
                    };
                    self.lost = Some(prior.saturating_add(*dropped));
                }
            },
        }
    }
}

/// The loss marker after `dropped` more updates were lost.
pub open spec fn lost_after(lost: Option<u64>, dropped: u64) -> u64 {
    let prior: int = match lost {
        Some(n) => n as int,
        None => 0,
    };
    if prior + dropped <= u64::MAX { (prior + dropped) as u64 } else { u64::MAX }
}

/// Nothing observable changed.
pub open spec fn unchanged(a: RoomActivityState, b: RoomActivityState) -> bool {
    &&& a.view == b.view
    &&& a.resyncing == b.resyncing
    &&& a.lost == b.lost
    &&& a.sends.entries_view() == b.sends.entries_view()
}

/// No message shows twice: after reconciling against a timeline, no send
/// left whose committed row that timeline holds.
pub proof fn lemma_reconciled_sends_are_not_in_the_timeline(s: Seq<SendEntry>, timeline: Seq<Event>)
    ensures
        forall|i: int| 0 <= i < uncommitted(s, timeline).len() ==> !committed_in(
            #[trigger] uncommitted(s, timeline)[i],
            timeline,
        ),
        uncommitted(s, timeline).len() <= s.len(),
    decreases s.len(),
{
    if s.len() > 0 {
        lemma_reconciled_sends_are_not_in_the_timeline(s.drop_last(), timeline);
        let u = uncommitted(s.drop_last(), timeline);
        if !committed_in(s.last(), timeline) {
            assert forall|i: int| 0 <= i < u.push(s.last()).len() implies !committed_in(
                #[trigger] u.push(s.last())[i],
                timeline,
            ) by {
                if i < u.len() {
                    assert(u.push(s.last())[i] == u[i]);
                }
            }
        }
    }
}

/// Reconciliation drops only committed sends: every send still pending,
/// failed, or syncing on a row the timeline does not hold stays.
pub proof fn lemma_reconcile_keeps_every_uncommitted_send(s: Seq<SendEntry>, timeline: Seq<Event>, i: int)
    requires
        0 <= i < s.len(),
        !committed_in(s[i], timeline),
    ensures
        uncommitted(s, timeline).contains(s[i]),
    decreases s.len(),
{
    if i == s.len() - 1 {
        assert(uncommitted(s, timeline).last() == s[i]);
    } else {
        assert(s.drop_last()[i] == s[i]);
        lemma_reconcile_keeps_every_uncommitted_send(s.drop_last(), timeline, i);
        let u = uncommitted(s.drop_last(), timeline);
        let k = choose|k: int| 0 <= k < u.len() && u[k] == s[i];
        if !committed_in(s.last(), timeline) {
            assert(u.push(s.last())[k] == s[i]);
        }
    }
}

} // verus!
