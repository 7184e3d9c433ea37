//! What the departed-room archive shows, before any markup: the permanent
//! departure banner, each archived event as an activity label and its data,
//! and each historical member's row. Nothing live is ever shown.

use vstd::prelude::*;

use crate::api::{Event, EventKindContent, Standing};
use crate::components::{short_spec, short_subject8};
use crate::l10n::Catalog;
use crate::room::roster::HistoricalMember;
use crate::status::{role_label, role_text, standing_label, standing_text};

verus! {

/// The departure banner's heading: the removed copy for a removal, the left
/// copy otherwise (an active room never reaches the archive, so it is
/// never claimed removed).
pub fn departure_title<C: Catalog + ?Sized>(strings: &C, standing: Standing) -> (r: &'static str)
    ensures
        r@ == if standing is Removed { "You were removed from this room"@ } else { "You left this room"@ },
{
    match standing {
        Standing::Removed => strings.archive_banner_removed_title(),
        Standing::Left | Standing::Active => strings.archive_banner_left_title(),
    }
}

/// An archived event's activity label and data: a message is its body with
/// no label; every other kind has its label and, where it carries one, its
/// data (the room name, the member's short id, the file name).
pub open spec fn archive_row_spec(kind: EventKindContent) -> (Option<Seq<char>>, Option<Seq<char>>) {
    match kind {
        EventKindContent::RoomCreated { name } => (Some("Room created"@), Some(name@)),
        EventKindContent::Message { body } => (None, Some(body@)),
        EventKindContent::AgentStatus { .. } => (Some("Agent status"@), None),
        EventKindContent::MemberJoined { subject_id, .. } => (Some("Member joined"@), Some(short_spec(subject_id@, 8))),
        EventKindContent::MemberLeft { subject_id } => (Some("Member left"@), Some(short_spec(subject_id@, 8))),
        EventKindContent::MemberRemoved { subject_id, .. } => (Some("Member removed"@), Some(short_spec(subject_id@, 8))),
        EventKindContent::InviteRevoked { .. } => (Some("Invite revoked"@), None),
        EventKindContent::FileShared { name, .. } => (Some("File shared"@), Some(name@)),
        EventKindContent::PipePublished { .. } => (Some("Pipe published"@), None),
        EventKindContent::PipeRevoked { .. } => (Some("Pipe revoked"@), None),
    }
}

/// An optional text as plain characters.
pub open spec fn opt_text(o: Option<&'static str>) -> Option<Seq<char>> {
    match o {
        Some(s) => Some(s@),
        None => None,
    }
}

/// An optional owned text as plain characters.
pub open spec fn opt_string(o: Option<String>) -> Option<Seq<char>> {
    match o {
        Some(s) => Some(s@),
        None => None,
    }
}

/// An archived event's activity label and data.
pub fn archive_event_row<C: Catalog + ?Sized>(strings: &C, event: &Event) -> (r: (Option<&'static str>, Option<String>))
    ensures
        (opt_text(r.0), opt_string(r.1)) == archive_row_spec(event.kind),
{
    match &event.kind {
        EventKindContent::RoomCreated { name } => (Some(strings.event_room_created()), Some(name.clone())),
        EventKindContent::Message { body } => (None, Some(body.clone())),
        EventKindContent::AgentStatus { .. } => (Some(strings.event_agent_status()), None),
        EventKindContent::MemberJoined { subject_id, .. } =>
            (Some(strings.event_member_joined()), Some(short_subject8(subject_id))),
        EventKindContent::MemberLeft { subject_id } =>
            (Some(strings.event_member_left()), Some(short_subject8(subject_id))),
        EventKindContent::MemberRemoved { subject_id, .. } =>
            (Some(strings.event_member_removed()), Some(short_subject8(subject_id))),
        EventKindContent::InviteRevoked { .. } => (Some(strings.event_invite_revoked()), None),
        EventKindContent::FileShared { name, .. } => (Some(strings.event_file_shared()), Some(name.clone())),
        EventKindContent::PipePublished { .. } => (Some(strings.event_pipe_published()), None),
        EventKindContent::PipeRevoked { .. } => (Some(strings.event_pipe_revoked()), None),
    }
}

/// A historical member's row: the short id, the role and the ended
/// standing; no presence or reachability is ever asserted.
pub struct HistoricalRowView {
    /// The member's short id.
    pub subject: String,
    /// The role, in the catalog's words.
    pub role: &'static str,
    /// The standing, in the catalog's words.
    pub standing: &'static str,
}

/// A historical member's row.
pub fn historical_row<C: Catalog + ?Sized>(strings: &C, member: &HistoricalMember) -> (r: HistoricalRowView)
    ensures
        r.subject@ == short_spec(member.subject_id@, 8),
        r.role@ == role_text(strings.locale_spec(), member.role),
        r.standing@ == standing_text(strings.locale_spec(), member.standing),
{
    HistoricalRowView {
        subject: short_subject8(&member.subject_id),
        role: role_label(strings, member.role),
        standing: standing_label(strings, member.standing),
    }
}

} // verus!
