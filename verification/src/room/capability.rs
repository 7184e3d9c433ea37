//! Capability checks for a room's served capability list, and the set of
//! live-room operations an archive must never offer.

use vstd::prelude::*;

use crate::api::CapabilityToken;

verus! {

/// Every live-room operation: none may be offered for a departed room.
pub const FORBIDDEN_IN_ARCHIVE: [CapabilityToken; 26] = [
    CapabilityToken::MessageSend,
    CapabilityToken::StatusPost,
    CapabilityToken::RoomLeave,
    CapabilityToken::RoomActivate,
    CapabilityToken::RoomDeactivate,
    CapabilityToken::InviteMint,
    CapabilityToken::InviteList,
    CapabilityToken::InviteRevoke,
    CapabilityToken::MemberRemove,
    CapabilityToken::FileShare,
    CapabilityToken::FileList,
    CapabilityToken::FileFetch,
    CapabilityToken::FileRead,
    CapabilityToken::TransferCancel,
    CapabilityToken::PipePublish,
    CapabilityToken::PipeList,
    CapabilityToken::PipeConnect,
    CapabilityToken::PipeRelease,
    CapabilityToken::PipeRevoke,
    CapabilityToken::RoomTimeline,
    CapabilityToken::RoomMembers,
    CapabilityToken::RoomPeers,
    CapabilityToken::StatusHistory,
    CapabilityToken::StreamSubscribe,
    CapabilityToken::StreamUnsubscribe,
    CapabilityToken::StreamResync,
];

/// Whether a token is a live-room operation: everything but the archive
/// read and the room enumeration.
pub open spec fn forbidden_in_archive_spec(t: CapabilityToken) -> bool {
    !(t is RoomArchive || t is RoomList)
}

/// Whether a token is in the forbidden set.
pub fn is_forbidden_in_archive(token: CapabilityToken) -> (r: bool)
    ensures
        r == forbidden_in_archive_spec(token),
{
    !matches!(token, CapabilityToken::RoomArchive | CapabilityToken::RoomList)
}

/// Whether the served list grants `token`.
pub fn grants(caps: &[CapabilityToken], token: CapabilityToken) -> (r: bool)
    ensures
        r == caps@.contains(token),
{
    let mut i: usize = 0;
    while i < caps.len()
        invariant
            i <= caps@.len(),
            forall|j: int| 0 <= j < i ==> caps@[j] != token,
        decreases caps.len() - i,
    {
        if caps[i] == token {
            proof {
                assert(caps@[i as int] == token);
            }
            return true;
        }
        i = i + 1;
    }
    false
}

/// Whether the served list carries no live-room operation.
pub fn is_archive_only(caps: &[CapabilityToken]) -> (r: bool)
    ensures
        r == forall|j: int| 0 <= j < caps@.len() ==> !forbidden_in_archive_spec(#[trigger] caps@[j]),
{
    let mut i: usize = 0;
    while i < caps.len()
        invariant
            i <= caps@.len(),
            forall|j: int| 0 <= j < i ==> !forbidden_in_archive_spec(#[trigger] caps@[j]),
        decreases caps.len() - i,
    {
        if is_forbidden_in_archive(caps[i]) {
            return false;
        }
        i = i + 1;
    }
    true
}

/// The forbidden set is exactly every token but the archive read and the
/// room enumeration.
pub proof fn lemma_forbidden_set_is_every_live_operation(t: CapabilityToken)
    ensures
        FORBIDDEN_IN_ARCHIVE@.contains(t) <==> forbidden_in_archive_spec(t),
{
    let f = FORBIDDEN_IN_ARCHIVE@;
    if forbidden_in_archive_spec(t) {
        let i: int = match t {
            CapabilityToken::MessageSend => 0,
            CapabilityToken::StatusPost => 1,
            CapabilityToken::RoomLeave => 2,
            CapabilityToken::RoomActivate => 3,
            CapabilityToken::RoomDeactivate => 4,
            CapabilityToken::InviteMint => 5,
            CapabilityToken::InviteList => 6,
            CapabilityToken::InviteRevoke => 7,
            CapabilityToken::MemberRemove => 8,
            CapabilityToken::FileShare => 9,
            CapabilityToken::FileList => 10,
            CapabilityToken::FileFetch => 11,
            CapabilityToken::FileRead => 12,
            CapabilityToken::TransferCancel => 13,
            CapabilityToken::PipePublish => 14,
            CapabilityToken::PipeList => 15,
            CapabilityToken::PipeConnect => 16,
            CapabilityToken::PipeRelease => 17,
            CapabilityToken::PipeRevoke => 18,
            CapabilityToken::RoomTimeline => 19,
            CapabilityToken::RoomMembers => 20,
            CapabilityToken::RoomPeers => 21,
            CapabilityToken::StatusHistory => 22,
            CapabilityToken::StreamSubscribe => 23,
            CapabilityToken::StreamUnsubscribe => 24,
            CapabilityToken::StreamResync => 25,
            _ => 0,
        };
        assert(f[i] == t);
    } else {
        assert forall|i: int| 0 <= i < f.len() implies f[i] != t by {
        }
    }
}

} // verus!
