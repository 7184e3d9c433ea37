//! What each timeline row shows, before any markup: the per-kind rendering
//! of a signed event (total over the closed set of kinds), a folded run's
//! summary, and a pending send's state label.

use vstd::prelude::*;

use crate::api::{Event, EventKindContent, StatusLabel, StatusProgress, Target};
use crate::client::Execution;
use crate::components::{author_name, author_text, short_spec, short_subject8, wire_role_str};
use crate::l10n::format::{count_spec, Formats};
use crate::l10n::plural::{category, category_spec};
use crate::l10n::wire::{role_label, role_text};
use crate::l10n::{Catalog, Locale, PluralCategory};
use crate::room::projection::opt_view;
use crate::room::runs::AgentRun;
use crate::room::send::{SendEntry, SendPhase};
use crate::text::{decimal_spec, decimal_string, owned, push_char, push_str};

verus! {

/// What one signed event renders as.
#[derive(Clone, PartialEq, Eq, Debug)]
pub enum EventView {
    /// A message: its author and body.
    Message { author: String, body: String },
    /// An agent status card: its author, wire label and progress.
    AgentStatus { author: String, label: StatusLabel, progress: StatusProgress },
    /// A membership or lifecycle line.
    Sysline { text: String },
    /// A shared file: its author, declared name and size.
    FileReference { author: String, file_name: String, bytes: u64 },
    /// A published pipe: its author and `host:port` target.
    PipeReference { author: String, target: String },
}

/// A pipe target as `host:port`.
pub open spec fn target_text(host: Seq<char>, port: u64) -> Seq<char> {
    host + ":"@ + decimal_spec(port as nat)
}

/// A wire role's text in a text locale.
pub open spec fn role_word(l: Locale, role: crate::api::Role) -> Seq<char> {
    role_text(l, match role {
        crate::api::Role::Authority => "authority"@,
        crate::api::Role::Member => "member"@,
    })
}

/// The line a membership or lifecycle event renders as, in a text locale,
/// with `name` its author's display name; `None` for the kinds that render
/// as cards.
pub open spec fn sysline_text(kind: EventKindContent, name: Seq<char>, l: Locale) -> Option<Seq<char>> {
    match kind {
        EventKindContent::RoomCreated { .. } => Some(name + " created the room"@),
        EventKindContent::MemberJoined { subject_id, role } => Some(
            short_spec(subject_id@, 8) + " joined as "@ + role_word(l, role),
        ),
        EventKindContent::MemberLeft { subject_id } => Some(short_spec(subject_id@, 8) + " left"@),
        EventKindContent::MemberRemoved { subject_id, by } => Some(
            short_spec(subject_id@, 8) + " was removed by "@ + short_spec(by@, 8),
        ),
        EventKindContent::InviteRevoked { .. } => Some("An invitation was revoked"@),
        EventKindContent::PipeRevoked { .. } => Some("A pipe was revoked"@),
        _ => None,
    }
}

/// A pipe target as `host:port`.
pub fn pipe_target(target: &Target) -> (r: String)
    ensures
        r@ == target_text(target.host@, target.port),
{
    let mut s = target.host.clone();
    push_char(&mut s, ':');
    let digits = decimal_string(target.port);
    push_str(&mut s, digits.as_str());
    proof {
        assert(s@ =~= target.host@ + ":"@ + decimal_spec(target.port as nat)) by {
            reveal_strlit(":");
        }
    }
    s
}

/// What `event` renders as, for the subject `self_id` in the catalog's
/// locale: every kind has its own rendering.
pub fn event_view<C: Catalog + ?Sized>(event: &Event, self_id: Option<&String>, strings: &C) -> (r: EventView)
    ensures
        ({
            let name = author_text(event.author, opt_view(self_id));
            match event.kind {
                EventKindContent::Message { body } => r matches EventView::Message { author, body: b }
                    && author@ == name && b@ == body@,
                EventKindContent::AgentStatus { label, progress } => r matches EventView::AgentStatus {
                    author,
                    label: l,
                    progress: p,
                } && author@ == name && l == label && p == progress,
                EventKindContent::FileShared { name: file_name, bytes, .. } => r matches EventView::FileReference {
                    author,
                    file_name: f,
                    bytes: b,
                } && author@ == name && f@ == file_name@ && b == bytes,
                EventKindContent::PipePublished { target, .. } => r matches EventView::PipeReference {
                    author,
                    target: t,
                } && author@ == name && t@ == target_text(target.host@, target.port),
                _ => r matches EventView::Sysline { text } && sysline_text(
                    event.kind,
                    name,
                    strings.locale_spec(),
                ) == Some(text@),
            }
        }),
{
    let name = author_name(&event.author, self_id, strings);
    match &event.kind {
        EventKindContent::Message { body } => EventView::Message { author: name, body: body.clone() },
        EventKindContent::AgentStatus { label, progress } => EventView::AgentStatus {
            author: name,
            label: *label,
            progress: *progress,
        },
        EventKindContent::RoomCreated { .. } => {
            let t = strings.sysline_room_created(name.as_str());
            EventView::Sysline { text: t }
        },
        EventKindContent::MemberJoined { subject_id, role } => {
            let who = short_subject8(subject_id);
            let rs = wire_role_str(*role);
            let role_w = role_label(strings, rs);
            let t = strings.sysline_member_joined(who.as_str(), role_w.as_str());
            EventView::Sysline { text: t }
        },
        EventKindContent::MemberLeft { subject_id } => {
            let who = short_subject8(subject_id);
            let t = strings.sysline_member_left(who.as_str());
            EventView::Sysline { text: t }
        },
        EventKindContent::MemberRemoved { subject_id, by } => {
            let who = short_subject8(subject_id);
            let remover = short_subject8(by);
            let t = strings.sysline_member_removed(who.as_str(), remover.as_str());
            EventView::Sysline { text: t }
        },
        EventKindContent::InviteRevoked { .. } => {
            let t = owned(strings.sysline_invite_revoked());
            EventView::Sysline { text: t }
        },
        EventKindContent::FileShared { name: file_name, bytes, .. } => EventView::FileReference {
            author: name,
            file_name: file_name.clone(),
            bytes: *bytes,
        },
        EventKindContent::PipePublished { target, .. } => EventView::PipeReference {
            author: name,
            target: pipe_target(target),
        },
        EventKindContent::PipeRevoked { .. } => {
            let t = owned(strings.sysline_pipe_revoked());
            EventView::Sysline { text: t }
        },
    }
}

/// What a folded agent-status run renders as: its count summary and its
/// latest status card.
#[derive(Clone, PartialEq, Eq, Debug)]
pub struct RunView {
    /// The count of folded posts, as text.
    pub summary: String,
    /// The latest post's author.
    pub author: String,
    /// The latest post's wire label.
    pub label: StatusLabel,
    /// The latest post's progress.
    pub progress: StatusProgress,
}

/// A run's count summary: the grouped count and the plural form of the
/// text locale.
pub open spec fn run_summary_text(text: Locale, formatting: Locale, count: u64) -> Seq<char> {
    let shown = count_spec(formatting, count);
    match category_spec(text, count) {
        PluralCategory::One => shown + " status update"@,
        PluralCategory::Other => shown + " status updates"@,
    }
}

/// What `run` renders as, counted under `formats` with the plural rules of
/// `text_locale`. A run folds only status posts; should its latest be any
/// other kind, the card shows `working` with no progress.
pub fn run_view<C: Catalog + ?Sized>(
    run: &AgentRun,
    self_id: Option<&String>,
    strings: &C,
    formats: Formats,
    text_locale: Locale,
) -> (r: RunView)
    requires
        run.summary.count <= u64::MAX,
    ensures
        r.summary@ == run_summary_text(text_locale, formats.formatting_spec(), run.summary.count as u64),
        r.author@ == author_text(run.summary.latest.author, opt_view(self_id)),
        match run.summary.latest.kind {
            EventKindContent::AgentStatus { label, progress } => r.label == label && r.progress == progress,
            _ => r.label == StatusLabel::Working && r.progress == StatusProgress::Absent,
        },
{
    let count = run.summary.count as u64;
    let cat = category(text_locale, count);
    let shown = formats.count(count);
    let summary = strings.timeline_run_summary(shown.as_str(), cat);
    let latest = &run.summary.latest;
    let author = author_name(&latest.author, self_id, strings);
    let (label, progress) = match &latest.kind {
        EventKindContent::AgentStatus { label, progress } => (*label, *progress),
        _ => (StatusLabel::Working, StatusProgress::Absent),
    };
    RunView { summary, author, label, progress }
}

/// What a pending send shows: its state class, its state label, and
/// whether it offers a retry.
#[derive(Clone, PartialEq, Eq, Debug)]
pub struct PendingView {
    /// The row's state class.
    pub state_class: &'static str,
    /// The state label.
    pub label: &'static str,
    /// Whether the send failed and offers a retry.
    pub failed: bool,
}

/// What a pending send shows: sending while pending or syncing; a failure
/// that may have sent when its execution is unknown; otherwise not sent.
/// Never a delivery receipt.
pub fn pending_view<C: Catalog + ?Sized>(entry: &SendEntry, strings: &C) -> (r: PendingView)
    ensures
        match entry.phase {
            SendPhase::Pending | SendPhase::Syncing { .. } => r.state_class@ == "pending syncing"@
                && r.label@ == "Sending…"@ && !r.failed,
            SendPhase::Failed { execution: Execution::Unknown, .. } => r.state_class@ == "pending failed"@
                && r.label@ == "May not have sent"@ && r.failed,
            SendPhase::Failed { .. } => r.state_class@ == "pending failed"@ && r.label@ == "Not sent"@
                && r.failed,
        },
{
    match &entry.phase {
        SendPhase::Pending | SendPhase::Syncing { .. } => PendingView {
            state_class: "pending syncing",
            label: strings.send_sending(),
            failed: false,
        },
        SendPhase::Failed { execution: Execution::Unknown, .. } => PendingView {
            state_class: "pending failed",
            label: strings.send_failed_maybe(),
            failed: true,
        },
        SendPhase::Failed { .. } => PendingView {
            state_class: "pending failed",
            label: strings.send_failed_not_sent(),
            failed: true,
        },
    }
}

} // verus!
