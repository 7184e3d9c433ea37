//! The shell's top-level state: the client lifecycle, the room list, and the
//! notice banner with its diagnostics. The lifecycle folds only from
//! state-change events; a recovered notice keeps its diagnostic.

use vstd::prelude::*;

use crate::api::RoomRow;
use crate::client::{ClientEvent, State};

verus! {

/// The shell's state.
#[derive(Clone, PartialEq, Debug)]
pub struct UiState {
    /// The client lifecycle.
    pub lifecycle: State,
    /// The room list (meaningful once loaded).
    pub rooms: Vec<RoomRow>,
    /// Whether the room list has answered.
    pub rooms_loaded: bool,
    /// The banner text, if any.
    pub notice: Option<String>,
    /// Whether the banner promises no recovery.
    pub notice_terminal: bool,
    /// The last failure detail, kept for diagnostics after recovery.
    pub last_diagnostic: Option<String>,
}

/// An optional string as a plain value.
pub open spec fn opt_string(o: Option<String>) -> Option<Seq<char>> {
    match o {
        Some(s) => Some(s@),
        None => None,
    }
}

impl UiState {
    /// Idle, no rooms, no notice.
    pub fn new() -> (r: Self)
        ensures
            r.lifecycle == State::Idle,
            r.rooms@.len() == 0,
            !r.rooms_loaded,
            r.notice is None,
            !r.notice_terminal,
            r.last_diagnostic is None,
    {
        UiState {
            lifecycle: State::Idle,
            rooms: Vec::new(),
            rooms_loaded: false,
            notice: None,
            notice_terminal: false,
            last_diagnostic: None,
        }
    }

    /// Fold a client event: a state change moves the lifecycle to its
    /// target; every other event leaves the state unchanged.
    pub fn apply_event(&mut self, event: &ClientEvent)
        ensures
            final(self).lifecycle == match *event {
                ClientEvent::StateChanged { to, .. } => to,
                _ => old(self).lifecycle,
            },
            final(self).rooms == old(self).rooms,
            final(self).rooms_loaded == old(self).rooms_loaded,
            final(self).notice == old(self).notice,
            final(self).notice_terminal == old(self).notice_terminal,
            final(self).last_diagnostic == old(self).last_diagnostic,
    {
        if let ClientEvent::StateChanged { to, .. } = event {
            self.lifecycle = *to;
        }
    }

    /// Replace the room list; it has now answered.
    pub fn set_rooms(&mut self, rooms: Vec<RoomRow>)
        ensures
            final(self).rooms@ == rooms@,
            final(self).rooms_loaded,
            final(self).lifecycle == old(self).lifecycle,
            final(self).notice == old(self).notice,
            final(self).notice_terminal == old(self).notice_terminal,
            final(self).last_diagnostic == old(self).last_diagnostic,
    {
        self.rooms = rooms;
        self.rooms_loaded = true;
    }

    /// Show a recoverable notice, recording it as the last diagnostic.
    pub fn set_notice(&mut self, notice: String)
        ensures
            opt_string(final(self).notice) == Some(notice@),
            opt_string(final(self).last_diagnostic) == Some(notice@),
            !final(self).notice_terminal,
            final(self).lifecycle == old(self).lifecycle,
            final(self).rooms == old(self).rooms,
            final(self).rooms_loaded == old(self).rooms_loaded,
    {
        self.last_diagnostic = Some(notice.clone());
        self.notice = Some(notice);
        self.notice_terminal = false;
    }

    /// Show a terminal notice, recording it as the last diagnostic.
    pub fn set_terminal_notice(&mut self, notice: String)
        ensures
            opt_string(final(self).notice) == Some(notice@),
            opt_string(final(self).last_diagnostic) == Some(notice@),
            final(self).notice_terminal,
            final(self).lifecycle == old(self).lifecycle,
            final(self).rooms == old(self).rooms,
            final(self).rooms_loaded == old(self).rooms_loaded,
    {
        self.last_diagnostic = Some(notice.clone());
        self.notice = Some(notice);
        self.notice_terminal = true;
    }

    /// Clear the banner; the last diagnostic is kept.
    pub fn clear_notice(&mut self)
        ensures
            final(self).notice is None,
            !final(self).notice_terminal,
            final(self).last_diagnostic == old(self).last_diagnostic,
            final(self).lifecycle == old(self).lifecycle,
            final(self).rooms == old(self).rooms,
            final(self).rooms_loaded == old(self).rooms_loaded,
    {
        self.notice = None;
        self.notice_terminal = false;
    }
}

impl Default for UiState {
    fn default() -> (r: Self)
        ensures
            r.lifecycle == State::Idle,
            r.rooms@.len() == 0,
            !r.rooms_loaded,
            r.notice is None,
            !r.notice_terminal,
            r.last_diagnostic is None,
    {
        UiState::new()
    }
}

} // verus!
