use jeliya_ui::api::{
    ApiError, Audience, Author, CapabilityToken, Cursor, Event, EventKindContent, MessageSendOut,
    Reachability, Role, RoomArchiveOut, Standing, StatusLabel, StatusProgress, Target, Timestamp,
    Truncated,
};
use jeliya_ui::client::{CallError, Execution, LocalError};
use jeliya_ui::room::archive::{
    after_first_page, after_more_page, first_page, more_page, ArchiveLoad, ArchivePage, ArchiveView,
    DepartureFact,
};
use jeliya_ui::room::capability::{grants, is_archive_only, FORBIDDEN_IN_ARCHIVE};
use jeliya_ui::room::projection::{activity_total, build_render_units, decorate, RenderUnit, Side};
use jeliya_ui::room::roster::{apply, authority_of, HistoricalMember};
use jeliya_ui::room::runs::ActivityCategory::{AgentRuns, Conversation, Files, Membership, Pipes};
use jeliya_ui::room::runs::{
    category_of, fold_runs, passes_filter, ActivityCategory, Grouped, ACTIVITY_CATEGORIES,
};
use jeliya_ui::room::reconcile::{
    RoomActivityState, RoomUpdate, RoomView, ResyncReason, ResyncRequired, Sends,
};
use jeliya_ui::room::scroll::{SavedView, ScrollAction, ScrollModel};
use jeliya_ui::room::send::{
    send_namespace, classify_error, epoch_timestamp, next_send_namespace, op_id_for, phase_for_reply, SendEntry,
    SendId, SendIds, SendPhase,
};

// ---- runs


fn ts_runs(secs: i64) -> Timestamp {
    Timestamp::from_unix_seconds(secs).unwrap()
}

fn resolved_runs(subject: &str) -> Author {
    Author::Resolved {
        subject_id: String::from(subject),
        role: Role::Member,
        standing: Standing::Active,
    }
}

fn status_runs(pos: u64, subject: &str, at: i64) -> Event {
    Event {
        pos,
        event_id: String::from(format!("e{pos}")),
        at: ts_runs(at),
        author: resolved_runs(subject),
        kind: EventKindContent::AgentStatus {
            label: StatusLabel::Working,
            progress: StatusProgress::Absent,
        },
    }
}

fn message_runs(pos: u64, subject: &str, at: i64) -> Event {
    Event {
        pos,
        event_id: String::from(format!("e{pos}")),
        at: ts_runs(at),
        author: resolved_runs(subject),
        kind: EventKindContent::Message { body: "hi".into() },
    }
}

fn unresolved_status(pos: u64, at: i64) -> Event {
    Event {
        pos,
        event_id: String::from(format!("e{pos}")),
        at: ts_runs(at),
        author: Author::Unresolved,
        kind: EventKindContent::AgentStatus {
            label: StatusLabel::Working,
            progress: StatusProgress::Absent,
        },
    }
}

#[test]
fn every_kind_maps_to_exactly_one_category() {
    let cases = [
        (EventKindContent::Message { body: "b".into() }, Conversation),
        (
            EventKindContent::AgentStatus {
                label: StatusLabel::Idle,
                progress: StatusProgress::Absent,
            },
            AgentRuns,
        ),
        (
            EventKindContent::RoomCreated { name: "r".into() },
            Membership,
        ),
        (
            EventKindContent::MemberJoined {
                subject_id: String::from("s"),
                role: Role::Member,
            },
            Membership,
        ),
        (
            EventKindContent::MemberLeft {
                subject_id: String::from("s"),
            },
            Membership,
        ),
        (
            EventKindContent::MemberRemoved {
                subject_id: String::from("s"),
                by: String::from("a"),
            },
            Membership,
        ),
        (
            EventKindContent::InviteRevoked {
                invite_id: String::from("i"),
            },
            Membership,
        ),
        (
            EventKindContent::FileShared {
                file_id: String::from("f"),
                name: "n".into(),
                bytes: 1,
                digest: "d".into(),
            },
            Files,
        ),
        (
            EventKindContent::PipePublished {
                pipe_id: String::from("p"),
                target: Target {
                    host: "127.0.0.1".into(),
                    port: 1,
                },
                audience: Audience::Room,
            },
            Pipes,
        ),
        (
            EventKindContent::PipeRevoked {
                pipe_id: String::from("p"),
            },
            Pipes,
        ),
    ];
    for (kind, expected) in cases {
        assert_eq!(category_of(&kind), expected);
    }
}

#[test]
fn empty_filter_is_everything_and_a_selection_narrows() {
    let msg = message_runs(0, "a", 1);
    assert!(passes_filter(&msg, &[]));
    assert!(passes_filter(&msg, &[ActivityCategory::Conversation]));
    assert!(!passes_filter(&msg, &[ActivityCategory::Files]));
}

#[test]
fn maximal_same_author_status_runs_fold_and_others_stay_single() {
    let events = vec![
        message_runs(0, "a", 1),
        status_runs(1, "bot", 2),
        status_runs(2, "bot", 3),
        status_runs(3, "bot", 4),
        message_runs(4, "a", 5),
    ];
    let grouped = fold_runs(&events);
    assert_eq!(grouped.len(), 3);
    assert!(matches!(grouped[0], Grouped::Single(_)));
    match &grouped[1] {
        Grouped::Run(run) => {
            assert_eq!(run.summary.count, 3);
            assert_eq!(run.summary.first_at, ts_runs(2));
            assert_eq!(run.summary.last_at, ts_runs(4));
            assert_eq!(run.summary.latest.pos, 3);
            assert_eq!(run.events.len(), 3);
        }
        other => panic!("expected a run, got {other:?}"),
    }
    assert!(matches!(grouped[2], Grouped::Single(_)));
}

#[test]
fn a_run_breaks_at_author_change_and_a_lone_status_stays_single() {
    let events = vec![status_runs(0, "bot-a", 1), status_runs(1, "bot-b", 2)];
    let grouped = fold_runs(&events);
    assert_eq!(grouped.len(), 2);
    assert!(matches!(grouped[0], Grouped::Single(_)));
    assert!(matches!(grouped[1], Grouped::Single(_)));

    let lone = fold_runs(&[status_runs(0, "bot", 1)]);
    assert_eq!(lone.len(), 1);
    assert!(matches!(lone[0], Grouped::Single(_)));
}

#[test]
fn unresolved_status_never_folds() {
    let events = vec![unresolved_status(0, 1), unresolved_status(1, 2)];
    let grouped = fold_runs(&events);
    assert_eq!(grouped.len(), 2);
    assert!(grouped.iter().all(|g| matches!(g, Grouped::Single(_))));
}

#[test]
fn folding_never_drops_a_signed_event() {
    let events = vec![
        status_runs(0, "bot", 1),
        status_runs(1, "bot", 2),
        message_runs(2, "a", 3),
        status_runs(3, "bot", 4),
    ];
    let grouped = fold_runs(&events);
    let mut seen = 0;
    for g in &grouped {
        match g {
            Grouped::Single(_) => seen += 1,
            Grouped::Run(run) => seen += run.events.len(),
        }
    }
    assert_eq!(
        seen,
        events.len(),
        "the union of grouped events must equal the input"
    );
}

#[test]
fn two_consecutive_different_author_run_blocks_produce_independent_runs() {
    let events = vec![
        status_runs(0, "bot-a", 1),
        status_runs(1, "bot-a", 2),
        status_runs(2, "bot-b", 3),
        status_runs(3, "bot-b", 4),
    ];
    let grouped = fold_runs(&events);
    assert_eq!(grouped.len(), 2, "each author block is its own run");
    match &grouped[0] {
        Grouped::Run(run) => {
            assert_eq!(run.summary.count, 2);
            assert_eq!(run.summary.first_at, ts_runs(1));
        }
        other => panic!("expected first Run, got {other:?}"),
    }
    match &grouped[1] {
        Grouped::Run(run) => {
            assert_eq!(run.summary.count, 2);
            assert_eq!(run.summary.first_at, ts_runs(3));
        }
        other => panic!("expected second Run, got {other:?}"),
    }
}

#[test]
fn a_run_interrupted_by_a_message_produces_run_single_single() {
    let events = vec![
        status_runs(0, "bot", 1),
        status_runs(1, "bot", 2),
        message_runs(2, "a", 3),
        status_runs(3, "bot", 4),
    ];
    let grouped = fold_runs(&events);
    assert_eq!(grouped.len(), 3);
    assert!(
        matches!(grouped[0], Grouped::Run(_)),
        "leading pair folds into a run"
    );
    assert!(
        matches!(grouped[1], Grouped::Single(_)),
        "message stays single"
    );
    assert!(
        matches!(grouped[2], Grouped::Single(_)),
        "lone trailing status stays single"
    );
}

#[test]
fn activity_categories_constant_has_all_five_in_presentation_order() {
    assert_eq!(
        ACTIVITY_CATEGORIES,
        [Conversation, AgentRuns, Membership, Files, Pipes]
    );
}

// ---- projection


fn ts_projection(secs: i64) -> Timestamp {
    Timestamp::from_unix_seconds(secs).unwrap()
}

fn resolved_projection(subject: &str) -> Author {
    Author::Resolved {
        subject_id: String::from(subject),
        role: Role::Member,
        standing: Standing::Active,
    }
}

fn message_projection(pos: u64, subject: &str, at: i64, body: &str) -> Event {
    Event {
        pos,
        event_id: String::from(format!("e{pos}")),
        at: ts_projection(at),
        author: resolved_projection(subject),
        kind: EventKindContent::Message { body: body.into() },
    }
}

fn status_projection(pos: u64, subject: &str, at: i64) -> Event {
    Event {
        pos,
        event_id: String::from(format!("e{pos}")),
        at: ts_projection(at),
        author: resolved_projection(subject),
        kind: EventKindContent::AgentStatus {
            label: StatusLabel::Working,
            progress: StatusProgress::Absent,
        },
    }
}

fn sysline_projection(pos: u64, at: i64) -> Event {
    Event {
        pos,
        event_id: String::from(format!("e{pos}")),
        at: ts_projection(at),
        author: resolved_projection("authority"),
        kind: EventKindContent::MemberLeft {
            subject_id: String::from("gone"),
        },
    }
}

fn pending_projection(id: u64, at: i64) -> SendEntry {
    SendEntry::new("dx-send-t", SendId(id), "draft".into(), ts_projection(at))
}

#[test]
fn activity_total_counts_unfolded_unfiltered_events() {
    let timeline = vec![
        status_projection(0, "bot", 1),
        status_projection(1, "bot", 2),
        message_projection(2, "a", 3, "hi"),
    ];
    assert_eq!(activity_total(&timeline), 3);
    let units = build_render_units(&timeline, &[], &[ActivityCategory::Conversation]);
    assert_eq!(activity_total(&timeline), 3);
    assert_eq!(units.len(), 1);
}

#[test]
fn pending_are_never_filtered_and_sink_to_their_at_slot() {
    let timeline = vec![message_projection(0, "a", 10, "hi")];
    let pend = vec![pending_projection(0, 20)];
    let units = build_render_units(&timeline, &pend, &[ActivityCategory::Files]);
    assert_eq!(units.len(), 1);
    assert!(matches!(units[0], RenderUnit::Pending(_)));

    let units = build_render_units(&timeline, &pend, &[]);
    assert_eq!(units.len(), 2);
    assert!(matches!(units[0], RenderUnit::Event(_)));
    assert!(matches!(units[1], RenderUnit::Pending(_)));
}

#[test]
fn a_pending_before_a_committed_unit_sorts_ahead_of_it() {
    let timeline = vec![message_projection(0, "a", 100, "later")];
    let pend = vec![pending_projection(0, 50)];
    let units = build_render_units(&timeline, &pend, &[]);
    assert!(matches!(units[0], RenderUnit::Pending(_)));
    assert!(matches!(units[1], RenderUnit::Event(_)));
}

#[test]
fn day_divider_precedes_the_first_unit_of_each_day() {
    let timeline = vec![
        message_projection(0, "a", 1, "day one"),
        message_projection(1, "a", 86_401, "day two"),
    ];
    let units = build_render_units(&timeline, &[], &[]);
    let rows = decorate(&units, Some(&String::from("a")));
    assert_eq!(rows.len(), 2);
    assert!(rows[0].divider.is_some(), "first row always opens a day");
    assert!(
        rows[1].divider.is_some(),
        "a new calendar day opens a divider"
    );
    assert_ne!(rows[0].divider, rows[1].divider);
}

#[test]
fn a_lone_pending_send_never_opens_a_fabricated_day_divider() {
    let pend = vec![pending_projection(0, 0)];
    let units = build_render_units(&[], &pend, &[]);
    let rows = decorate(&units, Some(&String::from("me")));
    assert_eq!(rows.len(), 1);
    assert!(matches!(rows[0].unit, RenderUnit::Pending(_)));
    assert!(
        rows[0].divider.is_none(),
        "a pending send with no signed day must not fabricate a day divider"
    );
}

#[test]
fn a_pending_after_committed_content_needs_no_divider_and_keeps_the_committed_one() {
    let timeline = vec![message_projection(0, "me", 100, "hello")];
    let pend = vec![pending_projection(0, 100)];
    let units = build_render_units(&timeline, &pend, &[]);
    let rows = decorate(&units, Some(&String::from("me")));
    assert_eq!(rows.len(), 2);
    assert!(
        rows[0].divider.is_some(),
        "the committed message opens the day"
    );
    assert!(matches!(rows[1].unit, RenderUnit::Pending(_)));
    assert!(
        rows[1].divider.is_none(),
        "the pending shares the day, no new divider"
    );
}

#[test]
fn five_minute_same_sender_messages_compact_but_a_gap_does_not() {
    let self_id = String::from("a");
    let timeline = vec![
        message_projection(0, "a", 100, "first"),
        message_projection(1, "a", 200, "within five minutes"),
        message_projection(2, "a", 700, "more than five minutes later"),
    ];
    let units = build_render_units(&timeline, &[], &[]);
    let rows = decorate(&units, Some(&self_id));
    assert!(!rows[0].compact, "the first message is never compact");
    assert!(
        rows[1].compact,
        "a same-sender message within 5 minutes compacts"
    );
    assert!(!rows[2].compact, "a >5-minute gap breaks compacting");
}

#[test]
fn a_different_sender_and_a_sysline_break_compacting() {
    let self_id = String::from("a");
    let timeline = vec![
        message_projection(0, "a", 100, "mine"),
        message_projection(1, "b", 150, "theirs"),
        message_projection(2, "b", 160, "theirs again"),
        sysline_projection(3, 170),
        message_projection(4, "b", 175, "after the sysline"),
    ];
    let units = build_render_units(&timeline, &[], &[]);
    let rows = decorate(&units, Some(&self_id));
    assert!(!rows[1].compact, "a sender change breaks compacting");
    assert!(
        rows[2].compact,
        "the same remote sender within 5 minutes compacts"
    );
    assert!(!rows[3].compact, "a sysline never compacts");
    assert!(
        !rows[4].compact,
        "a message after a sysline does not group into it"
    );
}

#[test]
fn sides_classify_own_remote_and_system() {
    let self_id = String::from("me");
    let mut timeline = vec![
        message_projection(0, "me", 1, "mine"),
        message_projection(1, "other", 2, "theirs"),
        sysline_projection(2, 3),
        Event {
            pos: 3,
            event_id: String::from("e3"),
            at: ts_projection(4),
            author: resolved_projection("other"),
            kind: EventKindContent::FileShared {
                file_id: String::from("f"),
                name: "n".into(),
                bytes: 1,
                digest: "d".into(),
            },
        },
    ];
    timeline.push(Event {
        pos: 4,
        event_id: String::from("e4"),
        at: ts_projection(5),
        author: Author::Unresolved,
        kind: EventKindContent::InviteRevoked {
            invite_id: String::from("i"),
        },
    });
    let units = build_render_units(&timeline, &[pending_projection(0, 6)], &[]);
    let rows = decorate(&units, Some(&self_id));
    assert_eq!(rows[0].side, Side::Own);
    assert_eq!(rows[1].side, Side::Remote);
    assert_eq!(rows[2].side, Side::System);
    assert_eq!(rows[3].side, Side::Remote);
    assert_eq!(rows[4].side, Side::System);
    assert_eq!(rows[5].side, Side::Own);
    assert!(matches!(rows[5].unit, RenderUnit::Pending(_)));
}

#[test]
fn an_unresolved_message_never_compacts() {
    let timeline = vec![
        Event {
            pos: 0,
            event_id: String::from("e0"),
            at: ts_projection(100),
            author: Author::Unresolved,
            kind: EventKindContent::Message { body: "a".into() },
        },
        Event {
            pos: 1,
            event_id: String::from("e1"),
            at: ts_projection(120),
            author: Author::Unresolved,
            kind: EventKindContent::Message { body: "b".into() },
        },
    ];
    let units = build_render_units(&timeline, &[], &[]);
    let rows = decorate(&units, None);
    assert!(!rows[1].compact);
}

#[test]
fn a_day_boundary_breaks_compacting_even_within_five_minutes() {
    let self_id = String::from("a");
    let timeline = vec![
        message_projection(0, "a", 86_399, "end of day one"),
        message_projection(1, "a", 86_400, "start of day two"),
    ];
    let units = build_render_units(&timeline, &[], &[]);
    let rows = decorate(&units, Some(&self_id));
    assert_eq!(rows.len(), 2);
    assert!(!rows[0].compact, "the first row never compacts");
    assert!(
        rows[1].divider.is_some(),
        "a new calendar day must open a divider"
    );
    assert!(
        !rows[1].compact,
        "a day divider prevents compacting even within five minutes"
    );
}

#[test]
fn equal_at_pending_entries_are_sorted_stably_by_client_id() {
    let pend = vec![pending_projection(1, 50), pending_projection(0, 50)];
    let units = build_render_units(&[], &pend, &[]);
    match (&units[0], &units[1]) {
        (RenderUnit::Pending(a), RenderUnit::Pending(b)) => {
            assert!(
                a.client_id < b.client_id,
                "equal-at pendins are sorted by client_id"
            );
        }
        other => panic!("expected two Pending units, got {other:?}"),
    }
}

// ---- roster


fn event_roster(pos: u64, author: Author, kind: EventKindContent) -> Event {
    Event {
        pos,
        event_id: String::from(format!("e-{pos}")),
        at: Timestamp::unix_epoch(),
        author,
        kind,
    }
}

fn resolved_roster(subject: &str, role: Role, standing: Standing) -> Author {
    Author::Resolved {
        subject_id: String::from(subject),
        role,
        standing,
    }
}

#[test]
fn genesis_join_leave_remove_fold_to_the_right_standings() {
    let creator = resolved_roster("blake3:creator", Role::Authority, Standing::Active);
    let events = [
        event_roster(
            0,
            creator,
            EventKindContent::RoomCreated { name: "R".into() },
        ),
        event_roster(
            1,
            Author::Unresolved,
            EventKindContent::MemberJoined {
                subject_id: String::from("blake3:alice"),
                role: Role::Member,
            },
        ),
        event_roster(
            2,
            Author::Unresolved,
            EventKindContent::MemberJoined {
                subject_id: String::from("blake3:bob"),
                role: Role::Member,
            },
        ),
        event_roster(
            3,
            Author::Unresolved,
            EventKindContent::MemberLeft {
                subject_id: String::from("blake3:alice"),
            },
        ),
        event_roster(
            4,
            Author::Unresolved,
            EventKindContent::MemberRemoved {
                subject_id: String::from("blake3:bob"),
                by: String::from("blake3:creator"),
            },
        ),
    ];
    let mut roster = Vec::new();
    for e in &events {
        apply(&mut roster, e);
    }
    assert_eq!(
        roster,
        vec![
            HistoricalMember {
                subject_id: String::from("blake3:creator"),
                role: Role::Authority,
                standing: Standing::Active,
            },
            HistoricalMember {
                subject_id: String::from("blake3:alice"),
                role: Role::Member,
                standing: Standing::Left,
            },
            HistoricalMember {
                subject_id: String::from("blake3:bob"),
                role: Role::Member,
                standing: Standing::Removed,
            },
        ]
    );
}

#[test]
fn authority_comes_from_the_signed_genesis_author_only() {
    let creator = resolved_roster("blake3:creator", Role::Authority, Standing::Active);
    let with_author = [event_roster(
        0,
        creator,
        EventKindContent::RoomCreated { name: "R".into() },
    )];
    assert_eq!(
        authority_of(&with_author),
        Some(String::from("blake3:creator"))
    );

    let unresolved = [event_roster(
        0,
        Author::Unresolved,
        EventKindContent::RoomCreated { name: "R".into() },
    )];
    assert_eq!(authority_of(&unresolved), None);

    let none = [event_roster(
        7,
        Author::Unresolved,
        EventKindContent::MemberLeft {
            subject_id: String::from("blake3:alice"),
        },
    )];
    assert_eq!(authority_of(&none), None);
}

#[test]
fn a_rejoin_after_a_departure_reactivates_the_member() {
    let alice = String::from("blake3:alice");
    let events = [
        event_roster(
            0,
            Author::Unresolved,
            EventKindContent::MemberJoined {
                subject_id: alice.clone(),
                role: Role::Member,
            },
        ),
        event_roster(
            1,
            Author::Unresolved,
            EventKindContent::MemberLeft {
                subject_id: alice.clone(),
            },
        ),
        event_roster(
            2,
            Author::Unresolved,
            EventKindContent::MemberJoined {
                subject_id: alice.clone(),
                role: Role::Member,
            },
        ),
    ];
    let mut roster = Vec::new();
    for e in &events {
        apply(&mut roster, e);
    }
    assert_eq!(roster.len(), 1);
    assert_eq!(roster[0].standing, Standing::Active);
}

#[test]
fn a_departure_for_an_unseen_subject_records_the_signed_fact_defensively() {
    let unknown = String::from("blake3:unknown");
    let mut roster = Vec::new();
    apply(
        &mut roster,
        &event_roster(
            5,
            Author::Unresolved,
            EventKindContent::MemberLeft {
                subject_id: unknown.clone(),
            },
        ),
    );
    assert_eq!(roster.len(), 1);
    assert_eq!(roster[0].subject_id, unknown);
    assert_eq!(roster[0].role, Role::Member);
    assert_eq!(roster[0].standing, Standing::Left);
}

#[test]
fn a_removal_for_an_unseen_subject_records_the_signed_removal_defensively() {
    let unknown = String::from("blake3:unknown");
    let mut roster = Vec::new();
    apply(
        &mut roster,
        &event_roster(
            3,
            Author::Unresolved,
            EventKindContent::MemberRemoved {
                subject_id: unknown.clone(),
                by: String::from("blake3:creator"),
            },
        ),
    );
    assert_eq!(roster.len(), 1);
    assert_eq!(roster[0].subject_id, unknown);
    assert_eq!(roster[0].standing, Standing::Removed);
}

#[test]
fn non_membership_events_leave_roster_unchanged() {
    let alice = String::from("blake3:alice");
    let events = [
        event_roster(
            0,
            Author::Unresolved,
            EventKindContent::MemberJoined {
                subject_id: alice.clone(),
                role: Role::Member,
            },
        ),
        event_roster(
            1,
            Author::Unresolved,
            EventKindContent::Message {
                body: "hello".into(),
            },
        ),
        event_roster(
            2,
            Author::Unresolved,
            EventKindContent::Message {
                body: "world".into(),
            },
        ),
    ];
    let mut roster = Vec::new();
    for e in &events {
        apply(&mut roster, e);
    }
    assert_eq!(
        roster.len(),
        1,
        "only the MemberJoined contributes a roster entry"
    );
    assert_eq!(
        roster[0].standing,
        Standing::Active,
        "Message events must not change standings"
    );
}

// ---- archive


fn event_archive(pos: u64, author: Author, kind: EventKindContent) -> Event {
    Event {
        pos,
        event_id: String::from(format!("e-{pos}")),
        at: Timestamp::unix_epoch(),
        author,
        kind,
    }
}

fn out_archive(standing: Standing, events: Vec<Event>, truncated: Truncated) -> RoomArchiveOut {
    RoomArchiveOut {
        room_id: String::from("blake3:room"),
        standing,
        events,
        truncated,
    }
}

fn genesis_archive() -> Event {
    event_archive(
        0,
        Author::Resolved {
            subject_id: String::from("blake3:creator"),
            role: Role::Authority,
            standing: Standing::Active,
        },
        EventKindContent::RoomCreated { name: "Ops".into() },
    )
}

#[test]
fn a_first_page_seeds_name_roster_and_more() {
    let events = vec![
        genesis_archive(),
        event_archive(
            1,
            Author::Unresolved,
            EventKindContent::MemberJoined {
                subject_id: String::from("blake3:me"),
                role: Role::Member,
            },
        ),
    ];
    let view = ArchiveView::fold(
        None,
        out_archive(
            Standing::Left,
            events,
            Truncated::More {
                cursor: Cursor::At { pos: 2 },
            },
        ),
        Some(&String::from("blake3:me")),
    );
    assert_eq!(view.room_name.as_deref(), Some("Ops"));
    assert_eq!(view.my_standing, Standing::Left);
    assert_eq!(view.departure, DepartureFact::Left);
    assert_eq!(view.roster.len(), 2);
    assert_eq!(view.more, Some(Cursor::At { pos: 2 }));
}

#[test]
fn folding_a_re_read_page_is_idempotent_by_position() {
    let page = || {
        out_archive(
            Standing::Left,
            vec![genesis_archive()],
            Truncated::More {
                cursor: Cursor::At { pos: 1 },
            },
        )
    };
    let first = ArchiveView::fold(None, page(), None);
    let again = ArchiveView::fold(Some(first.clone()), page(), None);
    assert_eq!(again.events.len(), 1);
    assert_eq!(first.events.len(), again.events.len());
}

#[test]
fn a_second_page_appends_and_tracks_completion() {
    let first = ArchiveView::fold(
        None,
        out_archive(
            Standing::Left,
            vec![genesis_archive()],
            Truncated::More {
                cursor: Cursor::At { pos: 1 },
            },
        ),
        None,
    );
    let merged = ArchiveView::fold(
        Some(first),
        out_archive(
            Standing::Left,
            vec![event_archive(
                1,
                Author::Unresolved,
                EventKindContent::Message { body: "hi".into() },
            )],
            Truncated::Complete,
        ),
        None,
    );
    assert_eq!(merged.events.len(), 2);
    assert_eq!(merged.events[0].pos, 0);
    assert_eq!(merged.events[1].pos, 1);
    assert_eq!(merged.more, None);
}

#[test]
fn removed_reads_the_remover_from_the_callers_own_event() {
    let me = String::from("blake3:me");
    let view = ArchiveView::fold(
        None,
        out_archive(
            Standing::Removed,
            vec![
                genesis_archive(),
                event_archive(
                    3,
                    Author::Unresolved,
                    EventKindContent::MemberRemoved {
                        subject_id: me.clone(),
                        by: String::from("blake3:creator"),
                    },
                ),
            ],
            Truncated::Complete,
        ),
        Some(&me),
    );
    assert_eq!(
        view.departure,
        DepartureFact::Removed {
            by: Some(String::from("blake3:creator"))
        }
    );
}

#[test]
fn removed_without_the_signed_event_falls_back_to_standing_and_names_no_one() {
    let view = ArchiveView::fold(
        None,
        out_archive(Standing::Removed, vec![genesis_archive()], Truncated::Complete),
        Some(&String::from("blake3:me")),
    );
    assert_eq!(view.departure, DepartureFact::Removed { by: None });
}

#[test]
fn removed_with_no_known_caller_names_no_remover() {
    let view = ArchiveView::fold(
        None,
        out_archive(
            Standing::Removed,
            vec![
                genesis_archive(),
                event_archive(
                    3,
                    Author::Unresolved,
                    EventKindContent::MemberRemoved {
                        subject_id: String::from("blake3:other"),
                        by: String::from("blake3:creator"),
                    },
                ),
            ],
            Truncated::Complete,
        ),
        None,
    );
    assert_eq!(view.departure, DepartureFact::Removed { by: None });
}

#[test]
fn from_standing_all_variants_map_correctly() {
    assert_eq!(
        DepartureFact::from_standing(Standing::Left),
        DepartureFact::Left
    );
    assert_eq!(
        DepartureFact::from_standing(Standing::Removed),
        DepartureFact::Removed { by: None }
    );
    assert_eq!(
        DepartureFact::from_standing(Standing::Active),
        DepartureFact::Left
    );
}

#[test]
fn another_members_removal_does_not_name_the_callers_remover() {
    let me = String::from("blake3:me");
    let view = ArchiveView::fold(
        None,
        out_archive(
            Standing::Removed,
            vec![
                genesis_archive(),
                event_archive(
                    1,
                    Author::Unresolved,
                    EventKindContent::MemberRemoved {
                        subject_id: String::from("blake3:someone_else"),
                        by: String::from("blake3:creator"),
                    },
                ),
            ],
            Truncated::Complete,
        ),
        Some(&me),
    );
    assert_eq!(view.departure, DepartureFact::Removed { by: None });
}

#[test]
fn room_name_is_none_when_no_genesis_event_is_loaded() {
    let view = ArchiveView::fold(
        None,
        out_archive(
            Standing::Left,
            vec![event_archive(
                0,
                Author::Unresolved,
                EventKindContent::Message { body: "hi".into() },
            )],
            Truncated::Complete,
        ),
        None,
    );
    assert_eq!(view.room_name, None);
}

#[test]
fn events_from_pages_are_sorted_into_position_order() {
    let first = ArchiveView::fold(
        None,
        out_archive(
            Standing::Left,
            vec![
                event_archive(
                    2,
                    Author::Unresolved,
                    EventKindContent::Message { body: "b".into() },
                ),
                event_archive(
                    4,
                    Author::Unresolved,
                    EventKindContent::Message { body: "d".into() },
                ),
            ],
            Truncated::More {
                cursor: Cursor::At { pos: 5 },
            },
        ),
        None,
    );
    let merged = ArchiveView::fold(
        Some(first),
        out_archive(
            Standing::Left,
            vec![
                event_archive(
                    0,
                    Author::Unresolved,
                    EventKindContent::Message { body: "a".into() },
                ),
                event_archive(
                    3,
                    Author::Unresolved,
                    EventKindContent::Message { body: "c".into() },
                ),
            ],
            Truncated::Complete,
        ),
        None,
    );
    assert_eq!(merged.events.len(), 4);
    assert!(
        merged.events.windows(2).all(|w| w[0].pos < w[1].pos),
        "events must be sorted by pos after merging out-of-order pages"
    );
    assert_eq!(merged.more, None);
}

// ---- capability


#[test]
fn the_forbidden_set_excludes_room_archive_and_room_list() {
    assert!(!FORBIDDEN_IN_ARCHIVE.contains(&CapabilityToken::RoomArchive));
    assert!(!FORBIDDEN_IN_ARCHIVE.contains(&CapabilityToken::RoomList));
}

#[test]
fn the_forbidden_set_covers_every_live_room_action() {
    for token in [
        CapabilityToken::MessageSend,
        CapabilityToken::RoomLeave,
        CapabilityToken::RoomActivate,
        CapabilityToken::InviteMint,
        CapabilityToken::MemberRemove,
        CapabilityToken::FileShare,
        CapabilityToken::FileFetch,
        CapabilityToken::PipePublish,
        CapabilityToken::RoomTimeline,
        CapabilityToken::RoomMembers,
        CapabilityToken::StreamSubscribe,
    ] {
        assert!(
            FORBIDDEN_IN_ARCHIVE.contains(&token),
            "{token:?} must be forbidden in an archive"
        );
    }
}

#[test]
fn grants_is_a_pure_membership_check() {
    let caps = [CapabilityToken::RoomArchive];
    assert!(grants(&caps, CapabilityToken::RoomArchive));
    assert!(!grants(&caps, CapabilityToken::MessageSend));
    assert!(!grants(&[], CapabilityToken::RoomArchive));
}

#[test]
fn a_departed_rooms_served_capabilities_are_archive_only() {
    assert!(is_archive_only(&[CapabilityToken::RoomArchive]));
    assert!(is_archive_only(&[]));
    assert!(!is_archive_only(&[
        CapabilityToken::RoomArchive,
        CapabilityToken::MessageSend,
    ]));
}

// ---- send


fn ts_send(secs: i64) -> Timestamp {
    Timestamp::from_unix_seconds(secs).unwrap()
}

fn send_out_send(event_id: &str) -> MessageSendOut {
    MessageSendOut {
        room_id: String::from("r"),
        event_id: String::from(event_id),
        pos: 7,
        at: ts_send(100),
    }
}

#[test]
fn send_ids_are_monotonic_and_op_id_is_stable() {
    let mut ids = SendIds::new();
    let a = ids.mint();
    let b = ids.mint();
    assert_eq!(a, SendId(0));
    assert_eq!(b, SendId(1));
    assert_eq!(op_id_for("dx-send-t", a), String::from("dx-send-t-0"));
    assert_eq!(op_id_for("dx-send-t", a), op_id_for("dx-send-t", a));
    assert_ne!(op_id_for("dx-send-t", a), op_id_for("dx-send-t", b));
}

#[test]
fn namespaces_make_op_ids_unique_across_send_sets() {
    let mut seq = 0u64;
    let ns_a = next_send_namespace(&mut seq);
    let ns_b = next_send_namespace(&mut seq);
    assert_ne!(ns_a, ns_b);
    assert_ne!(
        op_id_for(&ns_a, SendId(0)),
        op_id_for(&ns_b, SendId(0)),
        "fresh mounts must not collide on dx-send-…-0"
    );
}

#[test]
fn a_reply_moves_pending_to_syncing_with_the_event_id() {
    let mut ids = SendIds::new();
    let entry = SendEntry::new("dx-send-t", ids.mint(), "hi".into(), ts_send(1));
    assert_eq!(entry.phase, SendPhase::Pending);
    let phase = phase_for_reply(&send_out_send("event-1"));
    assert_eq!(
        phase,
        SendPhase::Syncing {
            event_id: Some(String::from("event-1"))
        }
    );
}

#[test]
fn classify_maps_execution_to_the_honest_phase() {
    assert_eq!(
        classify_error(&CallError::QueueFull {
            resource: "outbound".into(),
            limit: 8,
        }),
        SendPhase::Failed {
            execution: Execution::DefinitelyNot,
            code: None,
        }
    );
    let wire = classify_error(&CallError::Wire(ApiError::OpIdConflict {
        op_id: String::from("secret-key"),
    }));
    match wire {
        SendPhase::Failed {
            execution: Execution::DefinitelyNot,
            code: Some(code),
        } => {
            assert_eq!(code, "op_id_conflict");
            assert!(!code.contains("secret-key"));
        }
        other => panic!("expected DefinitelyNot wire failure, got {other:?}"),
    }
    assert_eq!(
        classify_error(&CallError::Timeout),
        SendPhase::Failed {
            execution: Execution::Unknown,
            code: None,
        }
    );
    assert_eq!(
        classify_error(&CallError::Disconnected {
            execution: Execution::Unknown,
        }),
        SendPhase::Failed {
            execution: Execution::Unknown,
            code: None,
        }
    );
    assert_eq!(
        classify_error(&CallError::Local(LocalError::DecodeReply)),
        SendPhase::Syncing { event_id: None }
    );
}

#[test]
fn a_never_sent_disconnect_is_a_clean_failure() {
    assert_eq!(
        classify_error(&CallError::Disconnected {
            execution: Execution::DefinitelyNot,
        }),
        SendPhase::Failed {
            execution: Execution::DefinitelyNot,
            code: None,
        }
    );
}

#[test]
fn a_syncing_entry_reconciles_only_on_its_own_event_id() {
    let mut ids = SendIds::new();
    let mut entry = SendEntry::new("dx-send-t", ids.mint(), "hi".into(), ts_send(1));
    entry.phase = phase_for_reply(&send_out_send("event-1"));
    let has_other = |id: &String| id.as_str() == "event-2";
    let has_own = |id: &String| id.as_str() == "event-1";
    assert!(!entry.reconciled_by(&has_other));
    assert!(entry.reconciled_by(&has_own));

    let pending = SendEntry::new("dx-send-t", ids.mint(), "hi".into(), ts_send(1));
    assert!(!pending.reconciled_by(&has_own));

    let mut decoded = SendEntry::new("dx-send-t", ids.mint(), "hi".into(), ts_send(1));
    decoded.phase = SendPhase::Syncing { event_id: None };
    assert!(!decoded.reconciled_by(&has_own));
}

#[test]
fn epoch_timestamp_is_unix_epoch_and_precedes_any_real_signed_timestamp() {
    let epoch = epoch_timestamp();
    let later = ts_send(1);
    assert!(
        epoch < later,
        "UNIX_EPOCH sorts before any positive-second timestamp"
    );
    assert_eq!(epoch, epoch_timestamp());
}

// ---- scroll

#[derive(Clone, Copy)]
struct Measure {
    scroll_top: f64,
    scroll_height: f64,
    client_height: f64,
}

const BOTTOM_THRESHOLD: f64 = 140.0;

fn near_bottom(m: Measure) -> bool {
    (m.scroll_height - m.client_height - m.scroll_top).max(0.0) <= BOTTOM_THRESHOLD
}

fn measured_zero(m: Measure) -> bool {
    m.scroll_height <= 0.0 || m.client_height <= 0.0
}

fn scroll(model: &mut ScrollModel<f64>, m: Measure) -> ScrollAction<f64> {
    model.on_scroll(m.scroll_top, near_bottom(m))
}

fn at_bottom() -> Measure {
    Measure {
        scroll_top: 900.0,
        scroll_height: 1000.0,
        client_height: 100.0,
    }
}

fn scrolled_up() -> Measure {
    Measure {
        scroll_top: 0.0,
        scroll_height: 1000.0,
        client_height: 100.0,
    }
}

#[test]
fn a_fresh_model_sticks_to_the_bottom() {
    let m = ScrollModel::new(0.0);
    assert!(m.stick_to_bottom);
    assert_eq!(m.new_item_count, 0);
}

#[test]
fn scrolling_within_the_threshold_sticks_and_away_releases() {
    let mut m = ScrollModel::new(0.0);
    scroll(
        &mut m,
        Measure {
            scroll_top: 780.0,
            scroll_height: 1000.0,
            client_height: 100.0,
        },
    );
    assert!(m.stick_to_bottom);
    scroll(&mut m, scrolled_up());
    assert!(!m.stick_to_bottom);
}

#[test]
fn new_items_while_scrolled_up_accumulate_and_reaching_bottom_clears() {
    let mut m = ScrollModel::new(0.0);
    m.on_items_changed(10, false);
    scroll(&mut m, scrolled_up());
    assert_eq!(m.on_items_changed(13, false), ScrollAction::Stay);
    assert_eq!(m.new_item_count, 3);
    m.on_items_changed(15, false);
    assert_eq!(m.new_item_count, 5);
    scroll(&mut m, at_bottom());
    assert_eq!(m.new_item_count, 0);
    assert!(m.stick_to_bottom);
}

#[test]
fn sticking_to_bottom_follows_new_items_without_announcing() {
    let mut m = ScrollModel::new(0.0);
    m.on_items_changed(10, false);
    assert_eq!(m.on_items_changed(12, false), ScrollAction::ToBottom);
    assert_eq!(m.new_item_count, 0);
}

#[test]
fn a_wholesale_reload_is_not_announced_as_new_activity() {
    let mut m = ScrollModel::new(0.0);
    m.on_items_changed(50, false);
    scroll(&mut m, scrolled_up());
    m.on_items_changed(0, true);
    let action = m.on_items_changed(50, false);
    assert_eq!(action, ScrollAction::Stay);
    assert_eq!(m.new_item_count, 0, "a reconnect reload is not new activity");
    m.on_items_changed(51, false);
    assert_eq!(m.new_item_count, 1);
}

#[test]
fn save_and_restore_round_trip_preserves_the_reading_position() {
    let mut m = ScrollModel::new(0.0);
    m.on_items_changed(20, false);
    scroll(&mut m, scrolled_up());
    let saved = m.save_view(scrolled_up().scroll_top);
    assert_eq!(
        saved,
        Some(SavedView {
            scroll_top: 0.0,
            item_count: 20,
        })
    );
    let mut restored = ScrollModel::new(0.0);
    restored.restore(saved);
    assert!(!restored.stick_to_bottom);
    assert_eq!(restored.on_items_changed(10, false), ScrollAction::Stay);
    assert_eq!(restored.on_items_changed(22, false), ScrollAction::ToOffset(0.0));
    assert_eq!(restored.new_item_count, 2);
}

#[test]
fn a_view_left_at_the_bottom_reopens_at_the_newest() {
    let mut m = ScrollModel::new(0.0);
    m.on_items_changed(20, false);
    assert_eq!(m.save_view(at_bottom().scroll_top), None, "no deliberate position saved");
    let mut reopened = ScrollModel::new(0.0);
    reopened.restore(None);
    assert!(reopened.stick_to_bottom);
}

#[test]
fn a_reveal_that_zeroes_the_measurement_reinstates_the_reading_spot() {
    let mut m = ScrollModel::new(0.0);
    m.on_items_changed(20, false);
    scroll(&mut m, scrolled_up());
    scroll(
        &mut m,
        Measure {
            scroll_top: 300.0,
            scroll_height: 1000.0,
            client_height: 100.0,
        },
    );
    assert!(!m.stick_to_bottom);
    let hidden = Measure {
        scroll_top: 0.0,
        scroll_height: 0.0,
        client_height: 0.0,
    };
    assert_eq!(m.sync(measured_zero(hidden)), ScrollAction::ToOffset(300.0));
}

#[test]
fn sync_sticks_to_bottom_when_following() {
    let m = ScrollModel::new(0.0);
    assert_eq!(m.sync(measured_zero(at_bottom())), ScrollAction::ToBottom);
}

#[test]
fn jump_to_new_returns_to_the_bottom_and_clears_the_count() {
    let mut m = ScrollModel::new(0.0);
    m.on_items_changed(10, false);
    scroll(&mut m, scrolled_up());
    m.on_items_changed(14, false);
    assert_eq!(m.new_item_count, 4);
    assert_eq!(m.jump_to_new(), ScrollAction::ToBottom);
    assert_eq!(m.new_item_count, 0);
    assert!(m.stick_to_bottom);
}

#[test]
fn sync_returns_none_during_a_pending_restore_so_it_does_not_race_the_one_shot() {
    let mut m = ScrollModel::new(0.0);
    m.on_items_changed(20, false);
    scroll(&mut m, scrolled_up());
    let saved = m.save_view(scrolled_up().scroll_top);
    let mut restored = ScrollModel::new(0.0);
    restored.restore(saved);
    assert_eq!(restored.sync(measured_zero(scrolled_up())), ScrollAction::Stay);
}

#[test]
fn bottom_threshold_boundary_sticks_at_exactly_140px_and_releases_above() {
    let mut m = ScrollModel::new(0.0);
    let exactly_at_threshold = Measure {
        scroll_top: 760.0,
        scroll_height: 1000.0,
        client_height: 100.0,
    };
    scroll(&mut m, exactly_at_threshold);
    assert!(m.stick_to_bottom, "140px from the bottom is within the threshold");
    scroll(
        &mut m,
        Measure {
            scroll_top: 759.0,
            scroll_height: 1000.0,
            client_height: 100.0,
        },
    );
    assert!(!m.stick_to_bottom, "141px from the bottom exceeds the threshold");
}

#[test]
fn a_resync_while_following_keeps_following() {
    let mut m = ScrollModel::new(0.0);
    m.on_items_changed(5, false);
    assert_eq!(m.on_items_changed(0, true), ScrollAction::ToBottom);
    assert_eq!(m.on_items_changed(7, false), ScrollAction::ToBottom);
    assert_eq!(m.new_item_count, 0);
}

#[test]
fn op_ids_of_different_namespaces_and_entries_never_collide() {
    let a = op_id_for(&send_namespace(1), SendId(23));
    let b = op_id_for(&send_namespace(12), SendId(3));
    assert_eq!(a, "dx-send-1-23");
    assert_eq!(b, "dx-send-12-3");
    assert_ne!(a, b);
    assert_eq!(op_id_for(&send_namespace(1), SendId(23)), a);
}

#[test]
fn the_archive_pane_reads_forward_pages_and_never_fabricates_content() {
    assert_eq!(first_page(), ArchivePage { cursor: Cursor::Start, limit: 100 });
    let page = out_archive(Standing::Left, vec![genesis_archive()], Truncated::More { cursor: Cursor::At { pos: 1 } });
    let loaded = after_first_page(ArchiveLoad::Loading, Ok(page), None);
    let ArchiveLoad::Loaded(view) = &loaded else {
        panic!("the first page loads");
    };
    assert_eq!(view.room_name.as_deref(), Some("Ops"));
    assert_eq!(
        more_page(&loaded),
        Some(("blake3:room".to_string(), ArchivePage { cursor: Cursor::At { pos: 1 }, limit: 100 }))
    );

    let still_active = after_first_page(
        ArchiveLoad::Loading,
        Err(CallError::Wire(ApiError::RoomStillActive { room_id: "blake3:room".into() })),
        None,
    );
    assert_eq!(still_active, ArchiveLoad::StillActive);
    let refused = after_first_page(
        ArchiveLoad::Loading,
        Err(CallError::Wire(ApiError::Unauthorized)),
        None,
    );
    assert_eq!(refused, ArchiveLoad::Failed);
    assert_eq!(after_first_page(ArchiveLoad::Loading, Err(CallError::Timeout), None), ArchiveLoad::Loading);
    assert_eq!(more_page(&ArchiveLoad::Loading), None);

    let next = out_archive(
        Standing::Left,
        vec![event_archive(1, Author::Unresolved, EventKindContent::Message { body: "hi".into() })],
        Truncated::Complete,
    );
    let more = after_more_page(loaded.clone(), Ok(next), None);
    let ArchiveLoad::Loaded(all) = &more else {
        panic!("the next page folds in");
    };
    assert_eq!(all.events.len(), 2);
    assert_eq!(more_page(&more), None);
    assert_eq!(after_more_page(loaded.clone(), Err(CallError::Timeout), None), loaded);
}

// ---- reconcile

fn ts_reconcile(secs: i64) -> Timestamp {
    Timestamp::from_unix_seconds(secs).expect("valid instant")
}

fn event_reconcile(event_id: &str, pos: u64) -> Event {
    Event {
        pos,
        event_id: event_id.to_string(),
        at: ts_reconcile(pos as i64),
        author: Author::Unresolved,
        kind: EventKindContent::Message { body: "hi".into() },
    }
}

fn view_reconcile(room: &str, generation: u64, timeline: Vec<Event>) -> RoomView {
    RoomView {
        room_id: room.to_string(),
        generation,
        timeline,
        members: Vec::new(),
        peers: Vec::new(),
        reachability: Reachability::Connected,
    }
}

#[test]
fn a_converged_view_for_this_room_replaces_state_and_clears_notices() {
    let room = "r".to_string();
    let mut state = RoomActivityState::new(send_namespace(0));
    state.resyncing = true;
    state.lost = Some(4);
    state.apply_update(&room, &RoomUpdate::Converged(view_reconcile("r", 1, vec![event_reconcile("e0", 0)])));
    assert!(!state.resyncing);
    assert_eq!(state.lost, None);
    assert_eq!(state.timeline().len(), 1);
}

#[test]
fn an_update_for_another_room_is_ignored() {
    let room = "r".to_string();
    let mut state = RoomActivityState::new(send_namespace(0));
    state.apply_update(&room, &RoomUpdate::Converged(view_reconcile("other", 1, vec![event_reconcile("x", 0)])));
    assert!(state.view.is_none());
    state.apply_update(
        &room,
        &RoomUpdate::Resyncing {
            room_id: "other".to_string(),
            resync: ResyncRequired { generation: 1, reason: ResyncReason::Reconnect },
        },
    );
    assert!(!state.resyncing);
}

#[test]
fn resyncing_sets_the_notice_and_convergence_clears_it() {
    let room = "r".to_string();
    let mut state = RoomActivityState::new(send_namespace(0));
    state.apply_update(
        &room,
        &RoomUpdate::Resyncing {
            room_id: room.clone(),
            resync: ResyncRequired { generation: 2, reason: ResyncReason::Reconnect },
        },
    );
    assert!(state.resyncing);
    state.apply_update(&room, &RoomUpdate::Converged(view_reconcile("r", 2, Vec::new())));
    assert!(!state.resyncing);
}

#[test]
fn a_lagged_marker_is_recorded_and_recovered_by_the_next_converged_view() {
    let room = "r".to_string();
    let mut state = RoomActivityState::new(send_namespace(0));
    state.apply_update(&room, &RoomUpdate::Lagged { room_id: Some(room.clone()), dropped: 3 });
    assert_eq!(state.lost, Some(3));
    state.apply_update(&room, &RoomUpdate::Lagged { room_id: None, dropped: 2 });
    assert_eq!(state.lost, Some(5));
    state.apply_update(&room, &RoomUpdate::Lagged { room_id: Some("other".to_string()), dropped: 7 });
    assert_eq!(state.lost, Some(5));
    state.apply_update(&room, &RoomUpdate::Converged(view_reconcile("r", 3, Vec::new())));
    assert_eq!(state.lost, None, "the converged view recovers the loss");
}

#[test]
fn convergence_drops_a_pending_send_whose_committed_row_arrived() {
    let room = "r".to_string();
    let mut state = RoomActivityState::new(send_namespace(0));
    let id = state.sends.begin("hello".into(), ts_reconcile(5));
    state.sends.set_phase(
        id,
        phase_for_reply(&MessageSendOut {
            room_id: room.clone(),
            event_id: "committed".to_string(),
            pos: 9,
            at: ts_reconcile(6),
        }),
    );
    state.apply_update(&room, &RoomUpdate::Converged(view_reconcile("r", 1, vec![event_reconcile("other", 0)])));
    assert_eq!(state.sends.entries().len(), 1);
    assert!(matches!(state.sends.get(id).unwrap().phase, SendPhase::Syncing { .. }));
    state.apply_update(&room, &RoomUpdate::Converged(view_reconcile("r", 2, vec![event_reconcile("committed", 1)])));
    assert!(state.sends.is_empty(), "no duplicate: pending drops on its committed row");
}

#[test]
fn begun_sends_carry_consecutive_ids_and_their_op_ids() {
    let mut sends = Sends::new(send_namespace(4));
    let a = sends.begin("a".into(), ts_reconcile(1));
    let b = sends.begin("b".into(), ts_reconcile(2));
    assert_eq!((a, b), (SendId(0), SendId(1)));
    assert_eq!(sends.entries()[1].op_id, "dx-send-4-1");
    assert_eq!(sends.entries()[0].phase, SendPhase::Pending);
    sends.set_phase(b, SendPhase::Syncing { event_id: None });
    assert_eq!(sends.get(a).unwrap().phase, SendPhase::Pending);
    sends.reconcile(&vec![event_reconcile("x", 0)]);
    assert_eq!(sends.entries().len(), 2, "a syncing send without a known id never reconciles");
    assert!(sends.get(SendId(9)).is_none());
}

#[test]
fn minted_ids_count_up_from_zero() {
    let mut ids = SendIds::new();
    for n in 0..6u64 {
        assert_eq!(ids.mint(), SendId(n));
    }
}
