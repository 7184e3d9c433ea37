//! The People roster: every member with their role and standing, whether
//! they are a known agent, and their presence. Presence is unknown unless
//! the room is live; a live member with no peer row is absent, not unknown.

use vstd::prelude::*;

use crate::api::{Link, MemberRow, Reachability, Role, RoomMembersOut, RoomPeersOut, Standing, Timestamp};
use crate::text::str_eq;

verus! {

/// A member's presence.
#[derive(Clone, PartialEq, Eq, Debug)]
pub enum MemberPresence {
    /// The room is not live: presence cannot be known.
    Unknown,
    /// The member's peer links (empty: absent).
    Links(Vec<Link>),
}

impl MemberPresence {
    /// Whether presence cannot be known.
    pub fn is_unknown(&self) -> (r: bool)
        ensures
            r == (*self is Unknown),
    {
        matches!(self, MemberPresence::Unknown)
    }

    /// Whether the member is known to be absent (live, no links).
    pub fn is_absent(&self) -> (r: bool)
        ensures
            r == (match *self {
                MemberPresence::Links(l) => l@.len() == 0,
                MemberPresence::Unknown => false,
            }),
    {
        match self {
            MemberPresence::Links(links) => links.len() == 0,
            MemberPresence::Unknown => false,
        }
    }
}

/// One member's row.
#[derive(Clone, PartialEq, Eq, Debug)]
pub struct RosterRow {
    pub subject_id: String,
    pub role: Role,
    pub standing: Standing,
    pub joined_at: Timestamp,
    /// Whether the member is a known agent.
    pub is_agent: bool,
    pub presence: MemberPresence,
}

/// The folded roster.
#[derive(Clone, PartialEq, Eq, Debug)]
pub struct RosterView {
    /// One row per member, in served order.
    pub rows: Vec<RosterRow>,
    /// Whether the room's session is open (live).
    pub session_open: bool,
    /// The live room's reachability.
    pub reachability: Option<Reachability>,
}

impl RosterView {
    /// Whether the roster is empty.
    pub fn is_empty(&self) -> (r: bool)
        ensures
            r == (self.rows@.len() == 0),
    {
        self.rows.len() == 0
    }
}

/// The links of the peer rows that belong to `subject`, in order.
pub open spec fn links_of(peers: Seq<crate::api::PeerRow>, subject: Seq<char>) -> Seq<Link>
    decreases peers.len(),
{
    if peers.len() == 0 {
        Seq::empty()
    } else if peers.last().subject_id@ == subject {
        links_of(peers.drop_last(), subject).push(peers.last().link)
    } else {
        links_of(peers.drop_last(), subject)
    }
}

/// Whether `agents` holds `subject`.
pub open spec fn is_agent_spec(agents: Seq<String>, subject: Seq<char>) -> bool {
    exists|i: int| 0 <= i < agents.len() && #[trigger] agents[i]@ == subject
}

/// The row a member folds to, given the live peers (if any).
pub open spec fn roster_row_matches(
    r: RosterRow,
    m: MemberRow,
    live_peers: Option<RoomPeersOut>,
    agents: Seq<String>,
) -> bool {
    &&& r.subject_id@ == m.subject_id@
    &&& r.role == m.role
    &&& r.standing == m.standing
    &&& r.joined_at == m.joined_at
    &&& r.is_agent == is_agent_spec(agents, m.subject_id@)
    &&& match live_peers {
        None => r.presence is Unknown,
        Some(p) => r.presence matches MemberPresence::Links(l) && l@ == links_of(p.peers@, m.subject_id@),
    }
}

fn contains_subject(agents: &[String], subject: &String) -> (r: bool)
    ensures
        r == is_agent_spec(agents@, subject@),
{
    let mut i: usize = 0;
    while i < agents.len()
        invariant
            i <= agents@.len(),
            forall|j: int| 0 <= j < i ==> agents@[j]@ != subject@,
        decreases agents.len() - i,
    {
        if str_eq(agents[i].as_str(), subject.as_str()) {
            return true;
        }
        i = i + 1;
    }
    false
}

fn fold_row(member: &MemberRow, live_peers: Option<&RoomPeersOut>, agent_subjects: &[String]) -> (r: RosterRow)
    ensures
        roster_row_matches(r, *member, match live_peers {
            Some(p) => Some(*p),
            None => None,
        }, agent_subjects@),
{
    let presence = match live_peers {
        None => MemberPresence::Unknown,
        Some(peers) => {
            let mut links: Vec<Link> = Vec::new();
            let mut i: usize = 0;
            while i < peers.peers.len()
                invariant
                    i <= peers.peers@.len(),
                    links@ == links_of(peers.peers@.subrange(0, i as int), member.subject_id@),
                decreases peers.peers.len() - i,
            {
                proof {
                    let t = peers.peers@.subrange(0, i + 1);
                    assert(t.drop_last() =~= peers.peers@.subrange(0, i as int));
                    assert(t.last() == peers.peers@[i as int]);
                }
                if str_eq(peers.peers[i].subject_id.as_str(), member.subject_id.as_str()) {
                    links.push(peers.peers[i].link);
                }
                i = i + 1;
            }
            proof {
                assert(peers.peers@.subrange(0, i as int) =~= peers.peers@);
            }
            MemberPresence::Links(links)
        },
    };
    RosterRow {
        subject_id: member.subject_id.clone(),
        role: member.role,
        standing: member.standing,
        joined_at: member.joined_at,
        is_agent: contains_subject(agent_subjects, &member.subject_id),
        presence,
    }
}

/// Fold the roster. Peers are only read for a live room: a closed room's
/// presence is unknown, and a stale peers read is ignored.
pub fn fold_roster(
    members: &RoomMembersOut,
    peers: Option<&RoomPeersOut>,
    agent_subjects: &[String],
    live: bool,
) -> (r: RosterView)
    ensures
        r.rows@.len() == members.members@.len(),
        forall|i: int| 0 <= i < r.rows@.len() ==> roster_row_matches(#[trigger] r.rows@[i], members.members@[i],
            if live { match peers { Some(p) => Some(*p), None => None } } else { None }, agent_subjects@),
        r.session_open == live,
        r.reachability == if live { match peers { Some(p) => Some(p.reachability), None => None } } else { None },
{
    let live_peers = if live { peers } else { None };
    let mut rows: Vec<RosterRow> = Vec::new();
    let mut i: usize = 0;
    while i < members.members.len()
        invariant
            i <= members.members@.len(),
            rows@.len() == i,
            live_peers == (if live { peers } else { None }),
            forall|k: int| 0 <= k < i ==> roster_row_matches(#[trigger] rows@[k], members.members@[k],
                if live { match peers { Some(p) => Some(*p), None => None } } else { None }, agent_subjects@),
        decreases members.members.len() - i,
    {
        rows.push(fold_row(&members.members[i], live_peers, agent_subjects));
        i = i + 1;
    }
    let reachability = match live_peers {
        Some(p) => Some(p.reachability),
        None => None,
    };
    RosterView { rows, session_open: live, reachability }
}

} // verus!
