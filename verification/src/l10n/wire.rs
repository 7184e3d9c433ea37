//! The display seam for wire vocabulary: lifecycle states, roles, member
//! statuses and peer paths. Known values map to catalog copy; an unknown
//! value passes through raw rather than being guessed; an empty member
//! status is "unknown", never passed through.

use vstd::prelude::*;

use crate::client::State;
use crate::l10n::messages::{
    status_connecting_text, status_failed_text, status_interrupted_text, status_ready_text,
    status_stopped_text, status_stopping_text, wire_path_direct_text, wire_path_relay_text,
    wire_role_authority_text, wire_role_member_text, wire_status_active_text,
    wire_status_invited_text, wire_status_left_text, wire_status_removed_text,
    wire_status_unknown_text,
};
use crate::l10n::Catalog;
use crate::text::{owned, str_eq};

verus! {

/// The copy for a lifecycle state.
pub open spec fn status_text(strings_locale: crate::l10n::Locale, state: State) -> Seq<char> {
    match state {
        State::Idle | State::Connecting => status_connecting_text(strings_locale),
        State::Ready => status_ready_text(strings_locale),
        State::Interrupted => status_interrupted_text(strings_locale),
        State::Stopping => status_stopping_text(strings_locale),
        State::Stopped => status_stopped_text(strings_locale),
        State::Failed => status_failed_text(strings_locale),
    }
}

/// The copy for a lifecycle state.
pub fn status_for<C: Catalog + ?Sized>(strings: &C, state: State) -> (r: &'static str)
    ensures
        r@ == status_text(strings.locale_spec(), state),
{
    match state {
        State::Idle | State::Connecting => strings.status_connecting(),
        State::Ready => strings.status_ready(),
        State::Interrupted => strings.status_interrupted(),
        State::Stopping => strings.status_stopping(),
        State::Stopped => strings.status_stopped(),
        State::Failed => strings.status_failed(),
    }
}

/// The copy for a wire role; an unknown role passes through.
pub open spec fn role_text(l: crate::l10n::Locale, role: Seq<char>) -> Seq<char> {
    if role == "authority"@ {
        wire_role_authority_text(l)
    } else if role == "member"@ {
        wire_role_member_text(l)
    } else {
        role
    }
}

/// The copy for a wire role.
pub fn role_label<C: Catalog + ?Sized>(strings: &C, role: &str) -> (r: String)
    ensures
        r@ == role_text(strings.locale_spec(), role@),
{
    if str_eq(role, "authority") {
        owned(strings.wire_role_authority())
    } else if str_eq(role, "member") {
        owned(strings.wire_role_member())
    } else {
        owned(role)
    }
}

/// The copy for a wire member status; empty is unknown; anything else
/// unknown passes through.
pub open spec fn member_status_text(l: crate::l10n::Locale, status: Seq<char>) -> Seq<char> {
    if status == "active"@ {
        wire_status_active_text(l)
    } else if status == "invited"@ {
        wire_status_invited_text(l)
    } else if status == "left"@ {
        wire_status_left_text(l)
    } else if status == "removed"@ {
        wire_status_removed_text(l)
    } else if status.len() == 0 {
        wire_status_unknown_text(l)
    } else {
        status
    }
}

/// The copy for a wire member status.
pub fn member_status_label<C: Catalog + ?Sized>(strings: &C, status: &str) -> (r: String)
    ensures
        r@ == member_status_text(strings.locale_spec(), status@),
{
    if str_eq(status, "active") {
        owned(strings.wire_status_active())
    } else if str_eq(status, "invited") {
        owned(strings.wire_status_invited())
    } else if str_eq(status, "left") {
        owned(strings.wire_status_left())
    } else if str_eq(status, "removed") {
        owned(strings.wire_status_removed())
    } else if status.unicode_len() == 0 {
        owned(strings.wire_status_unknown())
    } else {
        owned(status)
    }
}

/// The copy for a peer path; an unknown path passes through verbatim.
pub open spec fn path_text(l: crate::l10n::Locale, path: Seq<char>) -> Seq<char> {
    if path == "direct"@ {
        wire_path_direct_text(l)
    } else if path == "relay"@ {
        wire_path_relay_text(l)
    } else {
        path
    }
}

/// The copy for a peer path.
pub fn peer_path_label<C: Catalog + ?Sized>(strings: &C, path: &str) -> (r: String)
    ensures
        r@ == path_text(strings.locale_spec(), path@),
{
    if str_eq(path, "direct") {
        owned(strings.wire_path_direct())
    } else if str_eq(path, "relay") {
        owned(strings.wire_path_relay())
    } else {
        owned(path)
    }
}

} // verus!
