use jeliya_ui::api::{
    CapabilityToken, LastSeen, Liveness, Reachability, Redeemability, Role, SubjectState,
};
use jeliya_ui::shell::fixtures::{
    boot_fixture_state, fixture_caps, fixture_fleet, fixture_invites, fixture_members, fixture_peers, fixture_room_caps, fixture_rooms, onboarding_snapshot, parse_count,
    query_has, query_value, rooms_fixture_count, split_query,
};
use jeliya_ui::client::{ClientEvent, GapReason, GapTo, State};
use jeliya_ui::prefs::{AnomalyReason, SchemaAnomaly};
use jeliya_ui::shell::bootstrap::{
    derive_boot, derive_boot_view, BootView, ConnectionSnapshot, FailureView, OnboardStep,
    RecoveryView, RoomsKnowledge,
};
use jeliya_ui::shell::{Shell, COMPACT_MEDIA_QUERY, MEDIUM_MEDIA_QUERY, WIDE_MEDIA_QUERY};
use jeliya_ui::state::UiState;
use jeliya_ui::shell::router::{
    parse_or_rooms, push_intent, resolve_mount, should_push, MountResolution, NavIntent,
};

fn present() -> ConnectionSnapshot {
    ConnectionSnapshot {
        subject: SubjectState::Present {
            subject_id: "blake3:subject".to_string(),
            device_id: "blake3:device".to_string(),
        },
        storage_generation: 1,
    }
}

fn absent() -> ConnectionSnapshot {
    ConnectionSnapshot { subject: SubjectState::Absent, storage_generation: 1 }
}

#[test]
fn element_identity_forks_track_the_shell() {
    assert!(Shell::Compact.uses_bottom_bar());
    assert!(!Shell::Medium.uses_bottom_bar());
    assert!(!Shell::Wide.uses_bottom_bar());
    assert!(Shell::Wide.inspector_is_column());
    assert!(!Shell::Medium.inspector_is_column());
    assert!(!Shell::Compact.inspector_is_column());
}

#[test]
fn media_queries_name_the_breakpoints() {
    assert_eq!(COMPACT_MEDIA_QUERY, "(max-width: 899.98px)");
    assert_eq!(MEDIUM_MEDIA_QUERY, "(max-width: 1279.98px) and (min-width: 900px)");
    assert_eq!(WIDE_MEDIA_QUERY, "(min-width: 1280px)");
}

#[test]
fn booting_is_unknown_not_zero() {
    assert_eq!(derive_boot_view(State::Idle, None, RoomsKnowledge::Unknown), BootView::Booting);
    assert_eq!(
        derive_boot_view(State::Connecting, Some(&present()), RoomsKnowledge::Unknown),
        BootView::Booting
    );
    assert_eq!(derive_boot_view(State::Ready, None, RoomsKnowledge::Unknown), BootView::Booting);
    assert_eq!(
        derive_boot_view(State::Ready, Some(&present()), RoomsKnowledge::Unknown),
        BootView::Booting
    );
}

#[test]
fn absent_subject_starts_identity_onboarding() {
    assert_eq!(
        derive_boot_view(State::Ready, Some(&absent()), RoomsKnowledge::Unknown),
        BootView::Onboarding(OnboardStep::Identity)
    );
}

#[test]
fn present_subject_with_zero_rooms_starts_rooms_onboarding() {
    assert_eq!(
        derive_boot_view(State::Ready, Some(&present()), RoomsKnowledge::Loaded { count: 0 }),
        BootView::Onboarding(OnboardStep::Rooms)
    );
}

#[test]
fn present_subject_with_rooms_or_failed_read_mounts_the_shell() {
    assert_eq!(
        derive_boot_view(State::Ready, Some(&present()), RoomsKnowledge::Loaded { count: 3 }),
        BootView::Shell
    );
    assert_eq!(derive_boot_view(State::Ready, Some(&present()), RoomsKnowledge::Failed), BootView::Shell);
    assert_eq!(
        derive_boot_view(State::Interrupted, Some(&present()), RoomsKnowledge::Loaded { count: 1 }),
        BootView::Shell
    );
}

#[test]
fn terminal_states_fail_with_a_way_forward() {
    assert_eq!(
        derive_boot_view(State::Stopping, None, RoomsKnowledge::Unknown),
        BootView::Failed(FailureView::Stopping)
    );
    assert_eq!(
        derive_boot_view(State::Stopped, None, RoomsKnowledge::Unknown),
        BootView::Failed(FailureView::Stopped)
    );
    assert_eq!(
        derive_boot_view(State::Failed, Some(&present()), RoomsKnowledge::Unknown),
        BootView::Failed(FailureView::Failed)
    );
}

#[test]
fn recovery_overlays_without_replacing_the_view() {
    let anomalies = vec![SchemaAnomaly {
        key: "jeliya.dx.v1.selfLabel".to_owned(),
        reason: AnomalyReason::Corrupt,
    }];
    let boot = derive_boot(State::Ready, Some(&present()), RoomsKnowledge::Loaded { count: 2 }, &anomalies);
    assert_eq!(boot.view, BootView::Shell);
    assert_eq!(boot.recovery, Some(RecoveryView { reset_count: 1 }));
}

#[test]
fn no_recovery_when_there_are_no_anomalies() {
    let boot = derive_boot(State::Ready, Some(&present()), RoomsKnowledge::Loaded { count: 0 }, &[]);
    assert_eq!(boot.recovery, None);
    assert_eq!(boot.view, BootView::Onboarding(OnboardStep::Rooms));
}

#[test]
fn interrupted_with_absent_subject_still_onboards_identity() {
    assert_eq!(
        derive_boot_view(State::Interrupted, Some(&absent()), RoomsKnowledge::Unknown),
        BootView::Onboarding(OnboardStep::Identity),
    );
}

#[test]
fn interrupted_with_failed_room_list_mounts_the_shell() {
    assert_eq!(
        derive_boot_view(State::Interrupted, Some(&present()), RoomsKnowledge::Failed),
        BootView::Shell,
    );
}

#[test]
fn multiple_anomalies_produce_correct_reset_count() {
    let anomalies = vec![
        SchemaAnomaly { key: "jeliya.dx.v1.selfLabel".to_owned(), reason: AnomalyReason::Corrupt },
        SchemaAnomaly { key: "jeliya.dx.v1.textLocale".to_owned(), reason: AnomalyReason::UnsupportedNewer },
        SchemaAnomaly { key: "jeliya.dx.v1.lastRoom".to_owned(), reason: AnomalyReason::UnsupportedOlder },
    ];
    let rv = RecoveryView::from_anomalies(&anomalies);
    assert_eq!(rv, Some(RecoveryView { reset_count: 3 }));
}

#[test]
fn stopping_wins_over_any_identity_or_room_state() {
    assert_eq!(
        derive_boot_view(State::Stopping, Some(&present()), RoomsKnowledge::Loaded { count: 5 }),
        BootView::Failed(FailureView::Stopping),
    );
    assert_eq!(
        derive_boot_view(State::Failed, Some(&absent()), RoomsKnowledge::Loaded { count: 1 }),
        BootView::Failed(FailureView::Failed),
    );
}

fn ready(state: &mut UiState) {
    state.apply_event(&ClientEvent::StateChanged {
        from: State::Idle,
        to: State::Ready,
        coalesced_through_problem: false,
    });
}

#[test]
fn lifecycle_folds_from_state_changed() {
    let mut state = UiState::new();
    assert_eq!(state.lifecycle, State::Idle);
    state.apply_event(&ClientEvent::StateChanged {
        from: State::Idle,
        to: State::Connecting,
        coalesced_through_problem: false,
    });
    assert_eq!(state.lifecycle, State::Connecting);
    ready(&mut state);
    assert_eq!(state.lifecycle, State::Ready);
}

#[test]
fn default_equals_new() {
    assert_eq!(UiState::default(), UiState::new());
}

#[test]
fn set_notice_stores_the_notice() {
    let mut state = UiState::new();
    assert_eq!(state.notice, None);
    state.set_notice("room.list: connection refused".to_string());
    assert_eq!(state.notice.as_deref(), Some("room.list: connection refused"));
    state.set_notice("reconnecting".to_string());
    assert_eq!(state.notice.as_deref(), Some("reconnecting"));
}

#[test]
fn a_recovered_retry_keeps_the_last_diagnostic() {
    let mut state = UiState::new();
    state.set_notice("room.list: connection refused".to_string());
    assert_eq!(state.last_diagnostic.as_deref(), Some("room.list: connection refused"));
    state.clear_notice();
    assert_eq!(state.notice, None);
    assert_eq!(state.last_diagnostic.as_deref(), Some("room.list: connection refused"));
}

#[test]
fn gap_event_leaves_lifecycle_unchanged() {
    let mut state = UiState::new();
    ready(&mut state);
    let before = state.lifecycle;
    state.apply_event(&ClientEvent::Gap {
        room_id: "r-001".to_string(),
        from_pos: 0,
        to: GapTo::Open,
        reason: GapReason::Backpressure,
    });
    assert_eq!(state.lifecycle, before);
}

#[test]
fn resync_required_event_leaves_lifecycle_unchanged() {
    let mut state = UiState::new();
    ready(&mut state);
    let before = state.lifecycle;
    state.apply_event(&ClientEvent::ResyncRequired { room_id: "r-001".to_string(), from_pos: 42 });
    assert_eq!(state.lifecycle, before);
}

#[test]
fn lagged_event_leaves_lifecycle_unchanged() {
    let mut state = UiState::new();
    ready(&mut state);
    let before = state.lifecycle;
    state.apply_event(&ClientEvent::Lagged { room_id: Some("r-001".to_string()), dropped: 7 });
    assert_eq!(state.lifecycle, before);
}

#[test]
fn a_terminal_notice_is_marked_terminal() {
    let mut state = UiState::new();
    state.set_terminal_notice("refused".to_string());
    assert!(state.notice_terminal);
    state.clear_notice();
    assert!(!state.notice_terminal);
}

fn test_room(id: &str, name: &str) -> jeliya_ui::api::RoomRow {
    jeliya_ui::api::RoomRow {
        room_id: id.to_string(),
        name: name.to_string(),
        standing: jeliya_ui::api::Standing::Active,
        live: false,
        role: jeliya_ui::api::Role::Member,
        member_count: 1,
        last_event: jeliya_ui::api::LastEvent::Absent,
        capabilities: vec![],
    }
}

#[test]
fn set_rooms_replaces_the_room_list() {
    let mut state = UiState::new();
    assert!(state.rooms.is_empty());
    state.set_rooms(vec![test_room("r-001", "Alpha"), test_room("r-002", "Beta")]);
    assert_eq!(state.rooms.len(), 2);
    assert_eq!(state.rooms[0].room_id, "r-001");
    state.set_rooms(vec![test_room("r-003", "Gamma")]);
    assert_eq!(state.rooms.len(), 1);
    assert_eq!(state.rooms[0].room_id, "r-003");
}

// ---- router, over a small route grammar

#[derive(Clone, Debug, PartialEq)]
enum Route {
    Rooms,
    Fleet,
    Settings,
    Room { room_id: String, dest: &'static str },
}

fn parse_route(path: &str) -> Option<Route> {
    let parts: Vec<&str> = path.split('/').collect();
    match parts.as_slice() {
        [""] | ["", ""] | ["", "rooms"] | ["", "rooms", ""] => Some(Route::Rooms),
        ["", "fleet"] => Some(Route::Fleet),
        ["", "settings"] => Some(Route::Settings),
        ["", "rooms", id] if !id.is_empty() => Some(Route::Room { room_id: id.to_string(), dest: "activity" }),
        ["", "rooms", id, dest]
            if !id.is_empty() && ["activity", "people", "agents", "files", "pipes"].contains(dest) =>
        {
            let dest = ["activity", "people", "agents", "files", "pipes"].into_iter().find(|d| d == dest).unwrap();
            Some(Route::Room { room_id: id.to_string(), dest })
        }
        _ => None,
    }
}

fn path_of(route: &Route) -> String {
    match route {
        Route::Rooms => "/rooms".to_string(),
        Route::Fleet => "/fleet".to_string(),
        Route::Settings => "/settings".to_string(),
        Route::Room { room_id, dest } => format!("/rooms/{room_id}/{dest}"),
    }
}

fn mount(raw: &str, last_room: Option<&str>) -> MountResolution<Route> {
    let (route, fell_back) = parse_or_rooms(parse_route(raw), Route::Rooms);
    let canonical = path_of(&route);
    let restored = last_room.map(|id| Route::Room { room_id: id.to_string(), dest: "activity" });
    resolve_mount(raw, route, fell_back, &canonical, restored)
}

fn pushes(from: &Route, to: &Route) -> bool {
    should_push(&path_of(from), &path_of(to))
}

#[test]
fn a_malformed_path_falls_back_to_rooms_and_replaces() {
    let res = mount("/nope/garbage", None);
    assert_eq!(res.route, Route::Rooms);
    assert_eq!(res.replace_to, Some(Route::Rooms));
    assert_eq!(res.restore_push, None);
    assert_eq!(res.final_route(), Route::Rooms);
}

#[test]
fn bare_root_canonicalizes_to_rooms_via_replace() {
    let res = mount("/", None);
    assert_eq!(res.route, Route::Rooms);
    assert_eq!(res.replace_to, Some(Route::Rooms));
    assert_eq!(res.restore_push, None);
}

#[test]
fn a_bare_room_canonicalizes_to_activity_via_replace() {
    let res = mount("/rooms/r-1", None);
    let activity = Route::Room { room_id: "r-1".to_string(), dest: "activity" };
    assert_eq!(res.route, activity);
    assert_eq!(res.replace_to, Some(activity));
}

#[test]
fn a_canonical_path_needs_no_replace() {
    let res = mount("/rooms/r-1/people", None);
    assert_eq!(res.route, Route::Room { room_id: "r-1".to_string(), dest: "people" });
    assert_eq!(res.replace_to, None);
    assert_eq!(res.restore_push, None);
}

#[test]
fn last_room_restores_only_from_the_bare_root() {
    let restored = Route::Room { room_id: "r-9".to_string(), dest: "activity" };
    let res = mount("/", Some("r-9"));
    assert_eq!(res.replace_to, Some(Route::Rooms));
    assert_eq!(res.restore_push, Some(restored.clone()));
    assert_eq!(res.final_route(), restored);
    let res = mount("/rooms", Some("r-9"));
    assert_eq!(res.restore_push, None);
    assert_eq!(res.final_route(), Route::Rooms);
    let res = mount("/settings", Some("r-9"));
    assert_eq!(res.restore_push, None);
    assert_eq!(res.final_route(), Route::Settings);
}

#[test]
fn should_push_dedupes_navigating_to_the_current_path() {
    let people = Route::Room { room_id: "r-1".to_string(), dest: "people" };
    assert!(!pushes(&people, &people));
    assert!(pushes(&people, &Route::Rooms));
    assert!(push_intent(&path_of(&people), people.clone(), &path_of(&people)).replace);
    assert!(!push_intent(&path_of(&people), Route::Rooms, "/rooms").replace);
}

#[test]
fn a_trailing_slash_is_canonicalized_via_replace() {
    let res = mount("/rooms/", None);
    assert_eq!(res.route, Route::Rooms);
    assert_eq!(res.replace_to, Some(Route::Rooms));
}

#[test]
fn empty_path_is_treated_as_bare_root_and_restores() {
    let restored = Route::Room { room_id: "r-7".to_string(), dest: "activity" };
    let res = mount("", Some("r-7"));
    assert_eq!(res.replace_to, Some(Route::Rooms), "empty path canonicalizes to /rooms via replace");
    assert_eq!(res.restore_push, Some(restored.clone()), "empty path is restore-eligible like bare root");
    assert_eq!(res.final_route(), restored);
}

#[test]
fn should_push_is_true_between_global_destinations() {
    assert!(pushes(&Route::Rooms, &Route::Fleet));
    assert!(pushes(&Route::Fleet, &Route::Settings));
    assert!(pushes(&Route::Settings, &Route::Rooms));
    assert!(!pushes(&Route::Fleet, &Route::Fleet));
    assert!(!pushes(&Route::Settings, &Route::Settings));
}

#[test]
fn nav_intent_push_and_replace_flags_are_correct() {
    let route = Route::Fleet;
    let push = NavIntent::push(route.clone());
    assert_eq!(push.route, route);
    assert!(!push.replace, "NavIntent::push must have replace=false");
    let rep = NavIntent::replace(route.clone());
    assert_eq!(rep.route, route);
    assert!(rep.replace, "NavIntent::replace must have replace=true");
}

#[test]
fn last_room_is_not_restored_off_explicit_fleet_or_settings() {
    for path in ["/fleet", "/settings"] {
        let res = mount(path, Some("r-5"));
        assert!(res.restore_push.is_none(), "restore must not fire from explicit path {path}");
    }
}

// ---- end-to-end fixtures

#[test]
fn the_query_is_split_into_its_parts_after_the_question_marks() {
    assert_eq!(split_query("??a=1&&b"), vec!["a=1".to_string(), "".to_string(), "b".to_string()]);
    assert_eq!(split_query(""), vec!["".to_string()]);
    assert_eq!(query_value("?boot=failed&rooms=3", "rooms"), Some("3".to_string()));
    assert_eq!(query_value("?rooms=&rooms=4", "rooms"), Some("".to_string()));
    assert_eq!(query_value("?roomsx=4", "rooms"), None);
    assert!(query_has("?x=2&caps=1", "caps=1"));
    assert!(!query_has("?caps=10", "caps=1"));
}

#[test]
fn fixtures_are_inert_without_the_marker() {
    assert_eq!(boot_fixture_state(false, "?boot=failed"), None);
    assert_eq!(rooms_fixture_count(false, "?rooms=3"), 0);
    assert!(fixture_caps(false, "?caps=1").is_empty());
    assert_eq!(onboarding_snapshot(false, "?onboard=identity"), None);
}

#[test]
fn an_armed_boot_fixture_drives_only_connecting_and_failed() {
    assert_eq!(boot_fixture_state(true, "?boot=connecting"), Some(State::Connecting));
    assert_eq!(boot_fixture_state(true, "?x=1&boot=failed"), Some(State::Failed));
    assert_eq!(boot_fixture_state(true, "?boot=stopped"), None);
    assert_eq!(boot_fixture_state(true, ""), None);
}

#[test]
fn the_rooms_fixture_reads_a_count_capped_at_fifty() {
    assert_eq!(rooms_fixture_count(true, "?rooms=3"), 3);
    assert_eq!(rooms_fixture_count(true, "?rooms=+7"), 7);
    assert_eq!(rooms_fixture_count(true, "?rooms=99999"), 50);
    assert_eq!(rooms_fixture_count(true, "?rooms=99999999999999999999999"), 0);
    assert_eq!(rooms_fixture_count(true, "?rooms=-1"), 0);
    assert_eq!(rooms_fixture_count(true, "?rooms=x"), 0);
    assert_eq!(rooms_fixture_count(true, "?rooms="), 0);
    assert_eq!(parse_count("+"), None);
    assert_eq!(parse_count("18446744073709551615"), Some(usize::MAX));
}

#[test]
fn the_caps_fixture_grants_every_gated_affordance_and_rooms_can_send() {
    let caps = fixture_caps(true, "?caps=1");
    assert_eq!(
        caps,
        vec![
            CapabilityToken::InviteMint,
            CapabilityToken::InviteRevoke,
            CapabilityToken::MemberRemove,
            CapabilityToken::RoomLeave,
            CapabilityToken::RoomActivate,
        ]
    );
    let room_caps = fixture_room_caps(caps);
    assert_eq!(room_caps.last(), Some(&CapabilityToken::MessageSend));
    assert_eq!(fixture_room_caps(vec![CapabilityToken::MessageSend]), vec![CapabilityToken::MessageSend]);
    let rooms = fixture_rooms(2, &vec![CapabilityToken::MessageSend]);
    assert_eq!(rooms.len(), 2);
    assert_eq!(rooms[1].room_id, "fixture-room-1");
    assert_eq!(rooms[1].name, "Fixture room 1");
    assert_eq!(rooms[0].member_count, 1);
}

#[test]
fn the_onboarding_fixture_scripts_the_identity_or_rooms_step() {
    assert_eq!(
        onboarding_snapshot(true, "?onboard=identity"),
        Some(ConnectionSnapshot { subject: SubjectState::Absent, storage_generation: 1 })
    );
    assert_eq!(
        onboarding_snapshot(true, "?onboard=rooms"),
        Some(ConnectionSnapshot {
            subject: SubjectState::Present {
                subject_id: "blake3:onboarding-subject".to_string(),
                device_id: "blake3:onboarding-device".to_string(),
            },
            storage_generation: 1,
        })
    );
    assert_eq!(onboarding_snapshot(true, "?onboard=other"), None);
}

#[test]
fn the_reference_data_covers_each_affordance_state() {
    let members = fixture_members();
    assert_eq!(members.members.len(), 2);
    assert_eq!(members.members[0].role, Role::Authority);
    let invites = fixture_invites();
    assert_eq!(invites.invites[0].redeemability, Redeemability::Outstanding);
    assert_eq!(invites.invites[1].redeemability, Redeemability::Expired);
    let fleet = fixture_fleet();
    assert_eq!(fleet.agents[1].liveness, Liveness::Stale);
    assert_eq!(fleet.agents[1].last_seen, LastSeen::Absent);
    let peers = fixture_peers();
    assert_eq!(peers.reachability, Reachability::Connected);
    assert_eq!(peers.peers[0].device_id, "blake3:fixture-device");
}
