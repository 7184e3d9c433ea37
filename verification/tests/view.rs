use jeliya_ui::api::{
    Cursor, FleetListOut, FleetRow, InviteListOut, InviteRow, LastSeen, LatestStatus, Link,
    LinkReason, Liveness, MemberRow, PeerRow, Reachability, Redeemability, Role, RoomMembersOut,
    RoomPeersOut, Severity, Standing, StatusEntry, StatusHistoryOut, StatusLabel, StatusProgress,
    Timestamp, Truncated, CapabilityToken,
};
use jeliya_ui::client::{CallError, Execution};
use jeliya_ui::view::agents::{agent_subjects_in_room, fold_room_agents, fold_run_history};
use jeliya_ui::view::alias::{AliasMap, ResolvedName};
use jeliya_ui::view::capability::{authorized, Action};
use jeliya_ui::view::fleet::{fold_fleet, AttentionGroup, FleetFilter};
use jeliya_ui::view::invites::fold_invites;
use jeliya_ui::view::load::{LoadState, ReadOutcome};
use jeliya_ui::view::poll::{FleetPoll, PollAction};
use jeliya_ui::view::roster::{fold_roster, MemberPresence};



#[test]
fn opening_the_destination_fetches_once_then_polls() {
    let mut poll = FleetPoll::new();
    assert_eq!(poll.update(false, true), PollAction::Stop);
    assert_eq!(poll.update(true, true), PollAction::FetchOnceThenPoll);
    assert_eq!(poll.update(true, true), PollAction::Poll);
}

#[test]
fn backgrounding_stops_and_refocus_resumes_once() {
    let mut poll = FleetPoll::new();
    assert_eq!(poll.update(true, true), PollAction::FetchOnceThenPoll);
    assert_eq!(poll.update(true, true), PollAction::Poll);
    assert_eq!(poll.update(true, false), PollAction::Stop);
    assert_eq!(poll.update(true, false), PollAction::Stop);
    assert_eq!(poll.update(true, true), PollAction::FetchOnceThenPoll);
    assert_eq!(poll.update(true, true), PollAction::Poll);
}

#[test]
fn leaving_the_destination_stops_and_reentry_resumes_once() {
    let mut poll = FleetPoll::new();
    assert_eq!(poll.update(true, true), PollAction::FetchOnceThenPoll);
    assert_eq!(poll.update(false, true), PollAction::Stop);
    assert_eq!(poll.update(true, true), PollAction::FetchOnceThenPoll);
}

#[test]
fn never_running_while_either_input_is_false() {
    let mut poll = FleetPoll::new();
    assert_eq!(poll.update(false, false), PollAction::Stop);
    assert_eq!(poll.update(true, false), PollAction::Stop);
    assert_eq!(poll.update(false, true), PollAction::Stop);
    assert!(!poll.is_running());
}

#[test]
fn exactly_one_resume_fetch_per_reentry() {
    let mut poll = FleetPoll::new();
    let mut fetches = 0;
    let tick = |poll: &mut FleetPoll, a, v, fetches: &mut u32| {
        if poll.update(a, v) == PollAction::FetchOnceThenPoll {
            *fetches += 1;
        }
    };
    tick(&mut poll, true, true, &mut fetches); // activate → fetch #1
    tick(&mut poll, true, true, &mut fetches); // steady
    tick(&mut poll, true, false, &mut fetches); // background
    tick(&mut poll, true, true, &mut fetches); // refocus → fetch #2
    tick(&mut poll, false, true, &mut fetches); // deactivate
    tick(&mut poll, true, true, &mut fetches); // re-enter → fetch #3
    assert_eq!(fetches, 3, "one resume-fetch per re-entry, never a backlog");
}



#[test]
fn loading_is_never_a_value() {
    let s: LoadState<u8> = LoadState::Loading;
    assert!(!s.has_value());
    assert_eq!(s.value(), None);
    assert_eq!(LoadState::Empty::<u8>.value(), None);
}

#[test]
fn loaded_and_stale_expose_the_value() {
    assert_eq!(LoadState::Loaded(7u8).value(), Some(&7));
    assert_eq!(LoadState::Stale(7u8).value(), Some(&7));
    assert!(LoadState::Loaded(7u8).has_value());
    assert!(LoadState::Stale(7u8).has_value());
}

#[test]
fn a_transient_disconnect_on_a_read_is_offline() {
    let offline = ReadOutcome::classify(
        &CallError::Disconnected {
            execution: Execution::Unknown,
        },
        false,
    );
    assert_eq!(offline, ReadOutcome::Offline);
    let unsent = ReadOutcome::classify(
        &CallError::Disconnected {
            execution: Execution::DefinitelyNot,
        },
        false,
    );
    assert_eq!(unsent, ReadOutcome::Offline);
}

#[test]
fn an_authorization_refusal_is_unauthorized_not_empty() {
    let out = ReadOutcome::classify(&CallError::Timeout, true);
    assert_eq!(out, ReadOutcome::Unauthorized);
}

#[test]
fn other_errors_are_terminal_failed() {
    let out = ReadOutcome::classify(&CallError::Timeout, false);
    assert_eq!(out, ReadOutcome::Failed);
    let committed = ReadOutcome::classify(
        &CallError::Disconnected {
            execution: Execution::Definitely,
        },
        false,
    );
    assert_eq!(committed, ReadOutcome::Failed);
}

#[test]
fn a_cancelled_definitely_is_terminal_failed_not_offline() {
    let out = ReadOutcome::classify(
        &CallError::Cancelled {
            execution: Execution::Definitely,
        },
        false,
    );
    assert_eq!(out, ReadOutcome::Failed);
}

#[test]
fn a_cancelled_not_definitely_is_recoverable_offline() {
    for exec in [Execution::Unknown, Execution::DefinitelyNot] {
        let out = ReadOutcome::classify(&CallError::Cancelled { execution: exec }, false);
        assert_eq!(
            out,
            ReadOutcome::Offline,
            "Cancelled({exec:?}) should be Offline (retry-safe)"
        );
    }
}



fn sid(s: &str) -> String {
    String::from(s)
}

#[test]
fn empty_and_corrupt_values_parse_to_empty() {
    assert!(AliasMap::parse(None).is_empty());
    assert!(AliasMap::parse(Some("")).is_empty());
    assert!(AliasMap::parse(Some("garbage-no-version")).is_empty());
    assert!(AliasMap::parse(Some("v2\nblake3:a\tAda")).is_empty());
}

#[test]
fn one_corrupt_line_empties_the_whole_map() {
    assert!(AliasMap::parse(Some("v1\nno-tab-here\nb\tY")).is_empty());
    assert!(AliasMap::parse(Some("v1\na\tX\nno-tab-here")).is_empty());
    assert!(AliasMap::parse(Some("v1\na\tX\nb\\q\tY")).is_empty());
    assert!(AliasMap::parse(Some("v1\na\tX\nb\tY\\")).is_empty());
    assert!(AliasMap::parse(Some("v1\na\\\tX")).is_empty());
}

#[test]
fn blank_lines_and_empty_subjects_are_skipped() {
    let map = AliasMap::parse(Some("v1\n\na\tX\n\tY\n"));
    assert_eq!(map.get(&sid("a")), Some("X"));
    assert_eq!(map.iter().len(), 1);
    let later = AliasMap::parse(Some("v1\na\tX\na\tZ"));
    assert_eq!(later.get(&sid("a")), Some("Z"));
}

#[test]
fn set_trims_soft_caps_and_empty_clears() {
    let mut map = AliasMap::new();
    map.set(&sid("blake3:a"), "  Ada  ");
    assert_eq!(map.get(&sid("blake3:a")), Some("Ada"));
    map.set(&sid("blake3:a"), "   ");
    assert_eq!(map.get(&sid("blake3:a")), None);
    let long = "x".repeat(60);
    map.set(&sid("blake3:b"), &long);
    assert_eq!(map.get(&sid("blake3:b")).unwrap().chars().count(), 40);
}

#[test]
fn round_trips_through_serialize_and_parse() {
    let mut map = AliasMap::new();
    map.set(&sid("blake3:a"), "Ada");
    map.set(&sid("blake3:b"), "Grace");
    let encoded = map.serialize();
    let back = AliasMap::parse(Some(&encoded));
    assert_eq!(map, back);
    assert_eq!(map.serialize(), back.serialize());
}

#[test]
fn tabs_newlines_and_backslashes_round_trip() {
    let mut map = AliasMap::new();
    map.set(&sid("weird\tid\\x"), "label\nwith\ttabs\\and\\slash");
    let back = AliasMap::parse(Some(&map.serialize()));
    assert_eq!(
        back.get(&sid("weird\tid\\x")),
        Some("label\nwith\ttabs\\and\\slash")
    );
}

#[test]
fn resolution_distinguishes_self_from_peer() {
    let mut map = AliasMap::new();
    let me = sid("blake3:me");
    let peer = sid("blake3:peerabcdefghijklmnop");
    assert_eq!(map.resolve(&me, Some(&me)), ResolvedName::SelfDefault);
    assert_eq!(
        map.resolve(&peer, Some(&me)),
        ResolvedName::PeerShort("peerabcdefgh".to_string())
    );
    map.set(&me, "Me");
    map.set(&peer, "Bob");
    assert_eq!(
        map.resolve(&me, Some(&me)),
        ResolvedName::SelfAlias("Me".to_string())
    );
    assert_eq!(
        map.resolve(&peer, Some(&me)),
        ResolvedName::PeerAlias("Bob".to_string())
    );
    assert!(!map.resolve(&peer, None).is_self());
}



#[test]
fn each_action_is_authorized_only_by_its_own_token() {
    let caps = [CapabilityToken::InviteMint, CapabilityToken::MemberRemove];
    assert!(authorized(Action::Invite, &caps));
    assert!(authorized(Action::Remove, &caps));
    assert!(!authorized(Action::Revoke, &caps));
    assert!(!authorized(Action::Leave, &caps));
    assert!(!authorized(Action::Activate, &caps));
}

#[test]
fn an_empty_capability_list_authorizes_nothing() {
    for action in [
        Action::Invite,
        Action::Revoke,
        Action::Remove,
        Action::Leave,
        Action::Activate,
    ] {
        assert!(!authorized(action, &[]));
    }
}

#[test]
fn the_action_token_map_is_the_expected_pairing() {
    assert_eq!(Action::Invite.token(), CapabilityToken::InviteMint);
    assert_eq!(Action::Revoke.token(), CapabilityToken::InviteRevoke);
    assert_eq!(Action::Remove.token(), CapabilityToken::MemberRemove);
    assert_eq!(Action::Leave.token(), CapabilityToken::RoomLeave);
    assert_eq!(Action::Activate.token(), CapabilityToken::RoomActivate);
}



fn ts_invites() -> Timestamp {
    Timestamp::unix_epoch()
}

fn invite(id: &str, subject: &str, r: Redeemability) -> InviteRow {
    InviteRow {
        invite_id: String::from(id),
        subject_id: String::from(subject),
        role: Role::Member,
        expires_at: ts_invites(),
        redeemability: r,
    }
}

fn list(rows: Vec<InviteRow>, truncated: Truncated) -> InviteListOut {
    InviteListOut {
        room_id: String::from("r-1"),
        invites: rows,
        truncated,
    }
}

#[test]
fn outstanding_offers_revoke_expired_offers_reinvite() {
    let view = fold_invites(&list(
        vec![
            invite("i1", "a", Redeemability::Outstanding),
            invite("i2", "b", Redeemability::Expired),
            invite("i3", "c", Redeemability::Revoked),
            invite("i4", "d", Redeemability::Redeemed),
        ],
        Truncated::Complete,
    ));
    assert!(view.rows[0].can_revoke && !view.rows[0].can_reinvite);
    assert!(view.rows[1].can_reinvite && !view.rows[1].can_revoke);
    assert!(!view.rows[2].can_revoke && !view.rows[2].can_reinvite);
    assert!(!view.rows[3].can_revoke && !view.rows[3].can_reinvite);
}

#[test]
fn the_reinvite_target_is_the_same_identity() {
    let view = fold_invites(&list(
        vec![invite("i2", "blake3:same", Redeemability::Expired)],
        Truncated::Complete,
    ));
    let (subject, role) = view.rows[0].reinvite_target().expect("re-invitable");
    assert_eq!(subject, String::from("blake3:same"));
    assert_eq!(role, Role::Member);
    let outstanding = fold_invites(&list(
        vec![invite("i1", "a", Redeemability::Outstanding)],
        Truncated::Complete,
    ));
    assert_eq!(outstanding.rows[0].reinvite_target(), None);
}

#[test]
fn a_truncated_page_reports_more() {
    let complete = fold_invites(&list(vec![], Truncated::Complete));
    assert!(!complete.has_more);
    let more = fold_invites(&list(
        vec![invite("i1", "a", Redeemability::Outstanding)],
        Truncated::More {
            cursor: Cursor::At { pos: 1 },
        },
    ));
    assert!(more.has_more);
}



fn ts_agents() -> Timestamp {
    Timestamp::unix_epoch()
}

fn fleet_row(subject: &str, room: &str) -> FleetRow {
    FleetRow {
        subject_id: String::from(subject),
        room_id: String::from(room),
        liveness: Liveness::Working,
        latest_status: LatestStatus::Absent,
        last_seen: LastSeen::Absent,
    }
}

#[test]
fn room_agents_are_the_fleet_filtered_by_room() {
    let fleet = FleetListOut {
        agents: vec![
            fleet_row("a", "r-1"),
            fleet_row("b", "r-2"),
            fleet_row("c", "r-1"),
        ],
    };
    let view = fold_room_agents(&fleet, &String::from("r-1"));
    assert_eq!(view.rows.len(), 2);
    let subjects = agent_subjects_in_room(&fleet, &String::from("r-1"));
    assert_eq!(subjects, vec![String::from("a"), String::from("c")]);
}

#[test]
fn run_history_carries_severity_and_progress_and_more() {
    let history = StatusHistoryOut {
        room_id: String::from("r-1"),
        subject_id: String::from("a"),
        entries: vec![StatusEntry {
            at: ts_agents(),
            label: StatusLabel::Working,
            severity: Severity::Nominal,
            progress: StatusProgress::Reported { percent: 42 },
        }],
        truncated: Truncated::More {
            cursor: Cursor::At { pos: 1 },
        },
    };
    let view = fold_run_history(&history);
    assert_eq!(view.entries.len(), 1);
    assert_eq!(view.entries[0].progress, StatusProgress::Reported { percent: 42 });
    assert!(view.has_more);
}



fn ts_fleet() -> Timestamp {
    Timestamp::unix_epoch()
}

fn row(subject: &str, room: &str, liveness: Liveness, label: Option<StatusLabel>) -> FleetRow {
    FleetRow {
        subject_id: String::from(subject),
        room_id: String::from(room),
        liveness,
        latest_status: match label {
            Some(label) => LatestStatus::Present { label, at: ts_fleet() },
            None => LatestStatus::Absent,
        },
        last_seen: LastSeen::Absent,
    }
}

#[test]
fn attention_uses_the_served_label_severity_never_liveness() {
    let view = fold_fleet(&FleetListOut {
        agents: vec![row("a", "r", Liveness::Stale, Some(StatusLabel::Working))],
    });
    assert_eq!(view.rows[0].attention, AttentionGroup::Nominal);
    let view = fold_fleet(&FleetListOut {
        agents: vec![
            row("b", "r", Liveness::Offline, Some(StatusLabel::Blocked)),
            row("c", "r", Liveness::Working, Some(StatusLabel::Failed)),
        ],
    });
    assert_eq!(view.rows[0].attention, AttentionGroup::NeedsPerson);
    assert_eq!(view.rows[1].attention, AttentionGroup::Failed);
}

#[test]
fn an_absent_latest_status_needs_no_attention() {
    let view = fold_fleet(&FleetListOut {
        agents: vec![row("a", "r", Liveness::Offline, None)],
    });
    assert_eq!(view.rows[0].attention, AttentionGroup::Nominal);
}

#[test]
fn the_live_filter_spans_working_and_online_idle_only() {
    let view = fold_fleet(&FleetListOut {
        agents: vec![
            row("w", "r", Liveness::Working, None),
            row("i", "r", Liveness::OnlineIdle, None),
            row("o", "r", Liveness::Offline, None),
            row("s", "r", Liveness::Stale, None),
        ],
    });
    let live = view.filtered(FleetFilter::Live);
    assert_eq!(live.len(), 2);
    assert!(live.iter().all(|r| r.is_live()));
}

#[test]
fn grouping_orders_attention_first_and_omits_empty_groups() {
    let view = fold_fleet(&FleetListOut {
        agents: vec![
            row("ok", "r", Liveness::Working, Some(StatusLabel::Done)),
            row(
                "blocked",
                "r",
                Liveness::Offline,
                Some(StatusLabel::Blocked),
            ),
        ],
    });
    let groups = view.grouped(FleetFilter::All);
    assert_eq!(groups.len(), 2);
    assert_eq!(groups[0].0, AttentionGroup::NeedsPerson);
    assert_eq!(groups[1].0, AttentionGroup::Nominal);
}

#[test]
fn grouped_with_live_filter_excludes_offline_and_stale_agents() {
    let view = fold_fleet(&FleetListOut {
        agents: vec![
            row("w", "r", Liveness::Working, Some(StatusLabel::Blocked)),
            row("i", "r", Liveness::OnlineIdle, Some(StatusLabel::Failed)),
            row("o", "r", Liveness::Offline, Some(StatusLabel::Blocked)),
            row("s", "r", Liveness::Stale, None),
        ],
    });
    let groups = view.grouped(FleetFilter::Live);
    let total: usize = groups.iter().map(|(_, rows)| rows.len()).sum();
    assert_eq!(
        total, 2,
        "only the two live agents appear under Live filter"
    );
    assert!(groups
        .iter()
        .any(|(g, _)| *g == AttentionGroup::NeedsPerson));
    assert!(groups.iter().any(|(g, _)| *g == AttentionGroup::Failed));
    assert!(!groups.iter().any(|(g, _)| *g == AttentionGroup::Nominal));
}

#[test]
fn grouped_with_live_filter_returns_empty_when_all_agents_are_offline() {
    let view = fold_fleet(&FleetListOut {
        agents: vec![
            row("o", "r", Liveness::Offline, None),
            row("s", "r", Liveness::Stale, None),
        ],
    });
    assert!(
        view.grouped(FleetFilter::Live).is_empty(),
        "no groups when the Live filter matches nothing"
    );
}



fn ts_roster() -> Timestamp {
    Timestamp::unix_epoch()
}

fn member(id: &str) -> MemberRow {
    MemberRow {
        subject_id: String::from(id),
        role: Role::Member,
        standing: Standing::Active,
        joined_at: ts_roster(),
    }
}

fn members(ids: &[&str]) -> RoomMembersOut {
    RoomMembersOut {
        room_id: String::from("r-1"),
        members: ids.iter().map(|id| member(id)).collect(),
    }
}

#[test]
fn a_closed_room_yields_presence_unknown_not_zero() {
    let view = fold_roster(&members(&["a", "b"]), None, &[], false);
    assert!(!view.session_open);
    assert_eq!(view.reachability, None);
    for row in &view.rows {
        assert!(row.presence.is_unknown(), "closed room must be Unknown");
        assert!(!row.presence.is_absent());
    }
}

#[test]
fn a_stale_peers_read_is_ignored_for_a_closed_room() {
    let peers = RoomPeersOut {
        room_id: String::from("r-1"),
        reachability: Reachability::Connected,
        peers: vec![PeerRow {
            subject_id: String::from("a"),
            device_id: String::from("d"),
            link: Link::Direct { since: ts_roster() },
        }],
    };
    let view = fold_roster(&members(&["a"]), Some(&peers), &[], false);
    assert_eq!(view.reachability, None);
    assert!(view.rows[0].presence.is_unknown());
}

#[test]
fn a_live_member_with_no_peer_row_is_absent_not_unknown() {
    let peers = RoomPeersOut {
        room_id: String::from("r-1"),
        reachability: Reachability::Alone,
        peers: vec![],
    };
    let view = fold_roster(&members(&["a"]), Some(&peers), &[], true);
    assert!(view.session_open);
    assert_eq!(view.reachability, Some(Reachability::Alone));
    assert!(view.rows[0].presence.is_absent(), "live + no link = Absent");
    assert!(!view.rows[0].presence.is_unknown());
}

#[test]
fn presence_links_are_collected_per_member() {
    let peers = RoomPeersOut {
        room_id: String::from("r-1"),
        reachability: Reachability::Connected,
        peers: vec![
            PeerRow {
                subject_id: String::from("a"),
                device_id: String::from("d1"),
                link: Link::Direct { since: ts_roster() },
            },
            PeerRow {
                subject_id: String::from("a"),
                device_id: String::from("d2"),
                link: Link::Relay { since: ts_roster() },
            },
            PeerRow {
                subject_id: String::from("b"),
                device_id: String::from("d3"),
                link: Link::NotConnected {
                    reason: LinkReason::Closed,
                },
            },
        ],
    };
    let view = fold_roster(
        &members(&["a", "b"]),
        Some(&peers),
        &[String::from("b")],
        true,
    );
    match &view.rows[0].presence {
        MemberPresence::Links(links) => assert_eq!(links.len(), 2),
        _ => panic!("expected links"),
    }
    assert!(view.rows[1].is_agent);
    assert!(!view.rows[0].is_agent);
}
