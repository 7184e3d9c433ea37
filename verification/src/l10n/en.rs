//! The English catalog: the source of truth for product copy.

use vstd::prelude::*;

use crate::l10n::plural::PluralCategory;
use crate::l10n::{Catalog, Locale};
use crate::text::{owned, push_str};

verus! {

/// The English catalog.
#[derive(Clone, Copy, PartialEq, Eq, Debug)]
pub struct En;

impl Catalog for En {
    open spec fn locale_spec(&self) -> Locale {
        Locale::En
    }

    fn locale_tag(&self) -> (r: &'static str) {
        "en"
    }

    fn app_name(&self) -> (r: &'static str) {
        "Jeliya"
    }

    fn boot_connecting(&self) -> (r: &'static str) {
        "connecting to the local daemon…"
    }

    fn boot_stopping(&self) -> (r: &'static str) {
        "stopping — draining accepted work…"
    }

    fn boot_stopped(&self) -> (r: &'static str) {
        "stopped"
    }

    fn boot_failed(&self) -> (r: &'static str) {
        "the client failed and will not retry"
    }

    fn rooms_heading(&self) -> (r: &'static str) {
        "Rooms"
    }

    fn rooms_empty(&self) -> (r: &'static str) {
        "No rooms yet"
    }

    fn rooms_loading(&self) -> (r: &'static str) {
        "Loading rooms…"
    }

    fn room_untitled(&self) -> (r: &'static str) {
        "Untitled room"
    }

    fn center_choose_room(&self) -> (r: &'static str) {
        "Choose a room"
    }

    fn skip_to_rooms(&self) -> (r: &'static str) {
        "Skip to rooms"
    }

    fn skip_to_content(&self) -> (r: &'static str) {
        "Skip to main content"
    }

    fn diagnostics_open(&self) -> (r: &'static str) {
        "Diagnostics"
    }

    fn diagnostics_title(&self) -> (r: &'static str) {
        "Diagnostics"
    }

    fn diagnostics_close(&self) -> (r: &'static str) {
        "Close"
    }

    fn diagnostics_lifecycle_label(&self) -> (r: &'static str) {
        "Client lifecycle"
    }

    fn diagnostics_detail_label(&self) -> (r: &'static str) {
        "Last error detail"
    }

    fn diagnostics_no_detail(&self) -> (r: &'static str) {
        "No errors recorded."
    }

    fn err_room_list_title(&self) -> (r: &'static str) {
        "Couldn’t load rooms"
    }

    fn err_room_list_message(&self) -> (r: &'static str) {
        "The room list didn’t load. Jeliya will retry when the connection returns."
    }

    fn err_room_list_terminal_message(&self) -> (r: &'static str) {
        "The room list couldn’t load. Open Diagnostics for details."
    }

    fn err_unknown_title(&self) -> (r: &'static str) {
        "Something went wrong"
    }

    fn err_unknown_message(&self) -> (r: &'static str) {
        "An unexpected error occurred. See Diagnostics for details."
    }

    fn status_connecting(&self) -> (r: &'static str) {
        "Connecting"
    }

    fn status_ready(&self) -> (r: &'static str) {
        "Connected"
    }

    fn status_interrupted(&self) -> (r: &'static str) {
        "Reconnecting"
    }

    fn status_stopping(&self) -> (r: &'static str) {
        "Stopping"
    }

    fn status_stopped(&self) -> (r: &'static str) {
        "Stopped"
    }

    fn status_failed(&self) -> (r: &'static str) {
        "Disconnected"
    }

    fn conn_announcement(&self, status: &str) -> (r: String) {
        let mut s = owned("Connection status: ");
        push_str(&mut s, status);
        s
    }

    fn wire_role_authority(&self) -> (r: &'static str) {
        "Authority"
    }

    fn wire_role_member(&self) -> (r: &'static str) {
        "Member"
    }

    fn wire_status_active(&self) -> (r: &'static str) {
        "Member"
    }

    fn wire_status_invited(&self) -> (r: &'static str) {
        "Invited"
    }

    fn wire_status_left(&self) -> (r: &'static str) {
        "Left"
    }

    fn wire_status_removed(&self) -> (r: &'static str) {
        "Removed"
    }

    fn wire_status_unknown(&self) -> (r: &'static str) {
        "Unknown"
    }

    fn wire_path_direct(&self) -> (r: &'static str) {
        "direct"
    }

    fn wire_path_relay(&self) -> (r: &'static str) {
        "relay"
    }

    fn format_percent(&self, n: &str) -> (r: String) {
        let mut s = owned(n);
        push_str(&mut s, "%");
        s
    }

    fn format_bytes_b(&self, n: &str) -> (r: String) {
        let mut s = owned(n);
        push_str(&mut s, " B");
        s
    }

    fn format_bytes_kb(&self, n: &str) -> (r: String) {
        let mut s = owned(n);
        push_str(&mut s, " KB");
        s
    }

    fn format_bytes_mb(&self, n: &str) -> (r: String) {
        let mut s = owned(n);
        push_str(&mut s, " MB");
        s
    }

    fn format_bytes_gb(&self, n: &str) -> (r: String) {
        let mut s = owned(n);
        push_str(&mut s, " GB");
        s
    }

    fn format_today(&self) -> (r: &'static str) {
        "Today"
    }

    fn format_yesterday(&self) -> (r: &'static str) {
        "Yesterday"
    }

    fn month_name(&self, month: u32) -> (r: Option<&'static str>) {
        match month {
            1 => Some("January"),
            2 => Some("February"),
            3 => Some("March"),
            4 => Some("April"),
            5 => Some("May"),
            6 => Some("June"),
            7 => Some("July"),
            8 => Some("August"),
            9 => Some("September"),
            10 => Some("October"),
            11 => Some("November"),
            12 => Some("December"),
            _ => None,
        }
    }

    fn format_just_now(&self) -> (r: &'static str) {
        "just now"
    }

    fn format_minutes_ago(&self, n: &str) -> (r: String) {
        let mut s = owned(n);
        push_str(&mut s, "m ago");
        s
    }

    fn format_hours_ago(&self, n: &str) -> (r: String) {
        let mut s = owned(n);
        push_str(&mut s, "h ago");
        s
    }

    fn format_days_ago(&self, n: &str) -> (r: String) {
        let mut s = owned(n);
        push_str(&mut s, "d ago");
        s
    }

    fn client_status(&self, lifecycle: &str) -> (r: String) {
        let mut s = owned("client ");
        push_str(&mut s, crate::l10n::tokens::MIDDLE_DOT);
        push_str(&mut s, " ");
        push_str(&mut s, lifecycle);
        s
    }

    fn rooms_count(&self, count_display: &str, category: PluralCategory) -> (r: String) {
        match category {
            PluralCategory::One => {
                let mut s = owned(count_display);
                push_str(&mut s, " room");
                s
            },
            PluralCategory::Other => {
                let mut s = owned(count_display);
                push_str(&mut s, " rooms");
                s
            },
        }
    }

    fn nav_global_label(&self) -> (r: &'static str) {
        "Primary"
    }

    fn dest_rooms(&self) -> (r: &'static str) {
        "Rooms"
    }

    fn dest_fleet(&self) -> (r: &'static str) {
        "Agent Fleet"
    }

    fn dest_settings(&self) -> (r: &'static str) {
        "Settings"
    }

    fn onboarding_identity_title(&self) -> (r: &'static str) {
        "Create your identity"
    }

    fn onboarding_identity_body(&self) -> (r: &'static str) {
        "Your identity is a keypair on this device. There is no account and no password to recover."
    }

    fn onboarding_create_identity(&self) -> (r: &'static str) {
        "Create identity"
    }

    fn identity_id_label(&self) -> (r: &'static str) {
        "Your identity"
    }

    fn identity_copy(&self) -> (r: &'static str) {
        "Copy"
    }

    fn identity_unrecoverable(&self) -> (r: &'static str) {
        "This is your permanent peer-to-peer identity. It cannot be recovered if lost."
    }

    fn onboarding_rooms_title(&self) -> (r: &'static str) {
        "Start or join a room"
    }

    fn onboarding_create_room(&self) -> (r: &'static str) {
        "Create a room"
    }

    fn room_name_label(&self) -> (r: &'static str) {
        "Room name"
    }

    fn onboarding_join_room(&self) -> (r: &'static str) {
        "Join with a ticket"
    }

    fn ticket_label(&self) -> (r: &'static str) {
        "Invite ticket"
    }

    fn ticket_help(&self) -> (r: &'static str) {
        "Paste an invite ticket a room member shared with you."
    }

    fn self_label_label(&self) -> (r: &'static str) {
        "Your name"
    }

    fn self_label_help(&self) -> (r: &'static str) {
        "Shown on this device only. It is never sent to anyone."
    }

    fn settings_heading(&self) -> (r: &'static str) {
        "Settings"
    }

    fn settings_identity_heading(&self) -> (r: &'static str) {
        "Identity"
    }

    fn settings_language_heading(&self) -> (r: &'static str) {
        "Language"
    }

    fn settings_text_locale_label(&self) -> (r: &'static str) {
        "Interface language"
    }

    fn settings_formatting_locale_label(&self) -> (r: &'static str) {
        "Number and date format"
    }

    fn settings_locale_follow_system(&self) -> (r: &'static str) {
        "Follow system"
    }

    fn settings_session_only_note(&self) -> (r: &'static str) {
        "Applies this session — not saved on this browser."
    }

    fn fleet_heading(&self) -> (r: &'static str) {
        "Agent Fleet"
    }

    fn fleet_loading(&self) -> (r: &'static str) {
        "Agent Fleet is not available yet."
    }

    fn room_nav_label(&self) -> (r: &'static str) {
        "Room"
    }

    fn room_dest_activity(&self) -> (r: &'static str) {
        "Activity"
    }

    fn room_dest_people(&self) -> (r: &'static str) {
        "People"
    }

    fn room_dest_agents(&self) -> (r: &'static str) {
        "Agents"
    }

    fn room_dest_files(&self) -> (r: &'static str) {
        "Files"
    }

    fn room_dest_pipes(&self) -> (r: &'static str) {
        "Pipes"
    }

    fn room_dest_skeleton(&self) -> (r: &'static str) {
        "Nothing to show here yet."
    }

    fn room_unavailable(&self) -> (r: &'static str) {
        "This room isn’t available on this device. Return to Rooms."
    }

    fn recovery_title(&self) -> (r: &'static str) {
        "Local preferences reset"
    }

    fn recovery_body(&self) -> (r: &'static str) {
        "Some local preferences couldn’t be read and were reset to their defaults."
    }

    fn recovery_reset_action(&self) -> (r: &'static str) {
        "Reset local preferences"
    }

    fn err_onboarding_identity(&self) -> (r: &'static str) {
        "Couldn't create your identity"
    }

    fn err_onboarding_identity_body(&self) -> (r: &'static str) {
        "The daemon did not respond. Check your connection and try again."
    }

    fn err_onboarding_room_create(&self) -> (r: &'static str) {
        "Couldn't create the room"
    }

    fn err_onboarding_room_create_body(&self) -> (r: &'static str) {
        "The daemon did not respond. Check your connection and try again."
    }
}

} // verus!
