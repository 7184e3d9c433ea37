//! The display seam for status vocabulary: every served status fact maps to
//! catalog copy and, where it has one, a tone. Tone and label are separate
//! facts; the label is the meaning.

use vstd::prelude::*;

use crate::api::{LatestStatus, Link, LinkReason, Liveness, Reachability, Redeemability, Role, Severity, Standing, StatusLabel};
use crate::components::StatusTone;
use crate::l10n::{Catalog, Locale};
use crate::text::{owned, push_str};
use crate::view::alias::ResolvedName;

verus! {

/// The copy for a room's session state.
pub fn room_session_label<C: Catalog + ?Sized>(strings: &C, live: bool) -> (r: &'static str)
    ensures
        r@ == if live { "Open"@ } else { "Closed"@ },
{
    if live {
        strings.room_open()
    } else {
        strings.room_closed()
    }
}

/// The copy for a member standing.
pub open spec fn standing_text(l: Locale, standing: Standing) -> Seq<char> {
    match standing {
        Standing::Active => crate::l10n::messages::wire_status_active_text(l),
        Standing::Left => crate::l10n::messages::wire_status_left_text(l),
        Standing::Removed => crate::l10n::messages::wire_status_removed_text(l),
    }
}

/// The copy for a member standing.
pub fn standing_label<C: Catalog + ?Sized>(strings: &C, standing: Standing) -> (r: &'static str)
    ensures
        r@ == standing_text(strings.locale_spec(), standing),
{
    match standing {
        Standing::Active => strings.wire_status_active(),
        Standing::Left => strings.wire_status_left(),
        Standing::Removed => strings.wire_status_removed(),
    }
}

/// The copy for a role.
pub open spec fn role_text(l: Locale, role: Role) -> Seq<char> {
    match role {
        Role::Authority => crate::l10n::messages::wire_role_authority_text(l),
        Role::Member => crate::l10n::messages::wire_role_member_text(l),
    }
}

/// The copy for a role.
pub fn role_label<C: Catalog + ?Sized>(strings: &C, role: Role) -> (r: &'static str)
    ensures
        r@ == role_text(strings.locale_spec(), role),
{
    match role {
        Role::Authority => strings.wire_role_authority(),
        Role::Member => strings.wire_role_member(),
    }
}

/// The copy for a live room's reachability.
pub open spec fn reachability_text(l: Locale, reachability: Reachability) -> Seq<char> {
    match reachability {
        Reachability::Connecting => "Connecting"@,
        Reachability::Connected => "Connected"@,
        Reachability::Alone => "No peers connected"@,
        Reachability::Offline => "Offline"@,
    }
}

/// The copy for a live room's reachability.
pub fn reachability_label<C: Catalog + ?Sized>(strings: &C, reachability: Reachability) -> (r: &'static str)
    ensures
        r@ == reachability_text(strings.locale_spec(), reachability),
{
    match reachability {
        Reachability::Connecting => strings.reachability_connecting(),
        Reachability::Connected => strings.reachability_connected(),
        Reachability::Alone => strings.reachability_alone(),
        Reachability::Offline => strings.reachability_offline(),
    }
}

/// The copy for an agent's liveness.
pub open spec fn liveness_text(l: Locale, liveness: Liveness) -> Seq<char> {
    match liveness {
        Liveness::Working => "Working"@,
        Liveness::OnlineIdle => "Online"@,
        Liveness::Offline => "Offline"@,
        Liveness::Stale => "Stale"@,
    }
}

/// The copy for an agent's liveness.
pub fn liveness_label<C: Catalog + ?Sized>(strings: &C, liveness: Liveness) -> (r: &'static str)
    ensures
        r@ == liveness_text(strings.locale_spec(), liveness),
{
    match liveness {
        Liveness::Working => strings.liveness_working(),
        Liveness::OnlineIdle => strings.liveness_online(),
        Liveness::Offline => strings.liveness_offline(),
        Liveness::Stale => strings.liveness_stale(),
    }
}

/// The copy for a posted status label; `Blocked` reads "needs a person".
pub open spec fn status_label_text(l: Locale, label: StatusLabel) -> Seq<char> {
    match label {
        StatusLabel::Online => "Online"@,
        StatusLabel::Idle => "Idle"@,
        StatusLabel::Claiming => "Claiming"@,
        StatusLabel::Working => "Working"@,
        StatusLabel::Done => "Done"@,
        StatusLabel::Failed => "Failed"@,
        StatusLabel::Blocked => "Needs a person"@,
    }
}

/// The copy for a posted status label; `Blocked` reads "needs a person".
pub fn status_label_word<C: Catalog + ?Sized>(strings: &C, label: StatusLabel) -> (r: &'static str)
    ensures
        r@ == status_label_text(strings.locale_spec(), label),
{
    match label {
        StatusLabel::Online => strings.status_label_online(),
        StatusLabel::Idle => strings.status_label_idle(),
        StatusLabel::Claiming => strings.status_label_claiming(),
        StatusLabel::Working => strings.status_label_working(),
        StatusLabel::Done => strings.status_label_done(),
        StatusLabel::Failed => strings.status_label_failed(),
        StatusLabel::Blocked => strings.status_label_blocked(),
    }
}

/// The copy for an invite's redeemability.
pub open spec fn redeemability_text(l: Locale, redeemability: Redeemability) -> Seq<char> {
    match redeemability {
        Redeemability::Outstanding => "Outstanding"@,
        Redeemability::Expired => "Expired"@,
        Redeemability::Revoked => "Revoked"@,
        Redeemability::Redeemed => "Redeemed"@,
    }
}

/// The copy for an invite's redeemability.
pub fn redeemability_label<C: Catalog + ?Sized>(strings: &C, redeemability: Redeemability) -> (r: &'static str)
    ensures
        r@ == redeemability_text(strings.locale_spec(), redeemability),
{
    match redeemability {
        Redeemability::Outstanding => strings.redeemability_outstanding(),
        Redeemability::Expired => strings.redeemability_expired(),
        Redeemability::Revoked => strings.redeemability_revoked(),
        Redeemability::Redeemed => strings.redeemability_redeemed(),
    }
}

/// The copy for why a peer is not connected.
pub open spec fn link_reason_text(l: Locale, reason: LinkReason) -> Seq<char> {
    match reason {
        LinkReason::NeverDialed => "never dialed"@,
        LinkReason::DialFailed => "dial failed"@,
        LinkReason::NoRoute => "no route"@,
        LinkReason::Closed => "closed"@,
    }
}

/// The copy for why a peer is not connected.
pub fn link_reason_label<C: Catalog + ?Sized>(strings: &C, reason: LinkReason) -> (r: &'static str)
    ensures
        r@ == link_reason_text(strings.locale_spec(), reason),
{
    match reason {
        LinkReason::NeverDialed => strings.link_reason_never_dialed(),
        LinkReason::DialFailed => strings.link_reason_dial_failed(),
        LinkReason::NoRoute => strings.link_reason_no_route(),
        LinkReason::Closed => strings.link_reason_closed(),
    }
}

/// The copy for an agent's latest status.
pub fn latest_status_label<C: Catalog + ?Sized>(strings: &C, latest: &LatestStatus) -> (r: &'static str)
    ensures
        r@ == match *latest {
            LatestStatus::Present { label, .. } => status_label_text(strings.locale_spec(), label),
            LatestStatus::Absent => "No status yet"@,
        },
{
    match latest {
        LatestStatus::Present { label, .. } => status_label_word(strings, *label),
        LatestStatus::Absent => strings.status_none_yet(),
    }
}

/// The copy for a peer link: its path, or "not connected" with the reason.
pub fn link_label<C: Catalog + ?Sized>(strings: &C, link: &Link) -> (r: String)
    ensures
        r@ == match *link {
            Link::Direct { .. } => crate::l10n::messages::wire_path_direct_text(strings.locale_spec()),
            Link::Relay { .. } => crate::l10n::messages::wire_path_relay_text(strings.locale_spec()),
            Link::NotConnected { reason } => "not connected"@ + " ("@
                + link_reason_text(strings.locale_spec(), reason) + ")"@,
        },
{
    match link {
        Link::Direct { .. } => owned(strings.wire_path_direct()),
        Link::Relay { .. } => owned(strings.wire_path_relay()),
        Link::NotConnected { reason } => {
            let mut s = owned(strings.link_not_connected());
            push_str(&mut s, " (");
            push_str(&mut s, link_reason_label(strings, *reason));
            push_str(&mut s, ")");
            s
        },
    }
}

/// The tone a severity shows.
pub fn severity_tone(severity: Severity) -> (r: StatusTone)
    ensures
        r == match severity {
            Severity::Nominal => StatusTone::Positive,
            Severity::Failed => StatusTone::Danger,
            Severity::Review => StatusTone::Warn,
        },
{
    match severity {
        Severity::Nominal => StatusTone::Positive,
        Severity::Failed => StatusTone::Danger,
        Severity::Review => StatusTone::Warn,
    }
}

/// The tone a liveness shows.
pub fn liveness_tone(liveness: Liveness) -> (r: StatusTone)
    ensures
        r == match liveness {
            Liveness::Working | Liveness::OnlineIdle => StatusTone::Positive,
            Liveness::Stale => StatusTone::Warn,
            Liveness::Offline => StatusTone::Neutral,
        },
{
    match liveness {
        Liveness::Working | Liveness::OnlineIdle => StatusTone::Positive,
        Liveness::Stale => StatusTone::Warn,
        Liveness::Offline => StatusTone::Neutral,
    }
}

/// The display text of a resolved name: the alias, "You", or the short id.
pub fn resolved_name<C: Catalog + ?Sized>(strings: &C, name: &ResolvedName) -> (r: String)
    ensures
        r@ == match *name {
            ResolvedName::SelfAlias(a) => a@,
            ResolvedName::PeerAlias(a) => a@,
            ResolvedName::SelfDefault => "You"@,
            ResolvedName::PeerShort(s) => s@,
        },
{
    match name {
        ResolvedName::SelfAlias(alias) | ResolvedName::PeerAlias(alias) => alias.clone(),
        ResolvedName::SelfDefault => owned(strings.self_you()),
        ResolvedName::PeerShort(short) => short.clone(),
    }
}

} // verus!
