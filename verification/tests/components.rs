use jeliya_ui::api::{
    Audience, Author, Event, EventKindContent, Role, Standing, StatusLabel, StatusProgress, Timestamp,
};
use jeliya_ui::client::Execution;
use jeliya_ui::components::archive_rows::{archive_event_row, departure_title, historical_row};
use jeliya_ui::room::roster::HistoricalMember;
use jeliya_ui::view::alias::AliasMap;
use jeliya_ui::components::timeline_row::{event_view, pending_view, pipe_target, run_view, EventView};
use jeliya_ui::l10n::format::Formats;
use jeliya_ui::platform::RoomDest;
use jeliya_ui::room::runs::{AgentRun, RunSummary};
use jeliya_ui::room::send::{SendEntry, SendId, SendPhase};
use jeliya_ui::components::{
    alias_editor_subjects, locale_options_selected, self_label_write, apply_formatting_locale, apply_text_locale, author_name, dest_kind_matches, dest_tab_class,
    room_dest_tabs, LocalePrefWrite, diagnostics_copy_text, endonym, first_supported_language_tag,
    normalize_self_label, parse_locale_choice, short_digest, short_id, short_subject12,
    short_subject8, side_class, wire_role_str, LocaleChoice, StatusTone, LOCALE_VALUE_SYSTEM,
};
use jeliya_ui::l10n::{catalog_for, Locale, LocaleState};
use jeliya_ui::api::Target;
use jeliya_ui::pipes::publish::{is_loopback, unbracketed, validate_loopback_target, HostAddr};
use jeliya_ui::room::projection::Side;
use jeliya_ui::files::errors::FlowFailure;

#[test]
fn short_id_takes_the_tail_after_a_colon() {
    assert_eq!(short_id(&"blake3:abcdefghmore".to_string()), "abcdefgh");
    assert_eq!(short_id(&"r-1".to_string()), "r-1");
}

#[test]
fn short_subject_takes_the_tail_after_a_colon() {
    assert_eq!(short_subject8(&"blake3:abcdefghmore".to_string()), "abcdefgh");
    assert_eq!(short_subject8(&"s-1".to_string()), "s-1");
}

#[test]
fn short_subject_truncates_after_the_colon() {
    assert_eq!(short_subject8(&"blake3:abcdefghXYZ".to_string()), "abcdefgh");
    assert_eq!(short_subject8(&"s-1".to_string()), "s-1");
}

#[test]
fn short_subject_takes_the_tail() {
    assert_eq!(short_subject12(&"blake3:abcdefghijklmnop".to_string()), "abcdefghijkl");
}

#[test]
fn a_short_digest_is_the_prefix_free_essence() {
    assert_eq!(short_digest("blake3:0123456789abcdefXYZ"), "0123456789ab");
    assert!(!short_digest("blake3:0123456789abcdef").contains("blake3"));
}

#[test]
fn self_label_is_trimmed_and_soft_capped() {
    assert_eq!(normalize_self_label("  Ada  "), "Ada");
    assert_eq!(normalize_self_label("   "), "");
    let long = "x".repeat(60);
    assert_eq!(normalize_self_label(&long).chars().count(), 40);
}

#[test]
fn diagnostics_copy_text_contains_lifecycle_state() {
    let text = diagnostics_copy_text("Ready", None, None);
    assert!(text.contains("state: Ready"));
}

#[test]
fn diagnostics_copy_text_includes_short_identity_when_supplied() {
    let text = diagnostics_copy_text("Ready", Some("abcdefghijkl"), None);
    assert!(text.contains("identity: abcdefghijkl"));
    assert!(!text.contains("blake3:"));
}

#[test]
fn diagnostics_copy_text_omits_identity_line_when_none() {
    let text = diagnostics_copy_text("Idle", None, None);
    assert!(!text.contains("identity:"));
}

#[test]
fn diagnostics_copy_text_says_none_when_no_detail() {
    let text = diagnostics_copy_text("Ready", None, None);
    assert!(text.contains("last_error: none"));
    assert!(!text.contains("last_error: none\nlast_error:"));
}

#[test]
fn diagnostics_copy_text_includes_detail_when_present() {
    let text = diagnostics_copy_text("Ready", None, Some("connection refused"));
    assert!(text.contains("last_error: connection refused"));
}

#[test]
fn diagnostics_copy_text_all_fields_present_and_bounded() {
    let text = diagnostics_copy_text("Reconnecting", Some("shortid123"), Some("timeout"));
    assert!(text.contains("state: Reconnecting"));
    assert!(text.contains("identity: shortid123"));
    assert!(text.contains("last_error: timeout"));
    let lines: Vec<&str> = text.lines().collect();
    assert_eq!(lines.len(), 3);
    assert_eq!(text, "state: Reconnecting\nidentity: shortid123\nlast_error: timeout\n");
}

#[test]
fn parse_locale_choice_maps_en_and_fr_tags_to_explicit() {
    assert_eq!(parse_locale_choice(Locale::En.tag()), LocaleChoice::Explicit(Locale::En));
    assert_eq!(parse_locale_choice(Locale::Fr.tag()), LocaleChoice::Explicit(Locale::Fr));
}

#[test]
fn parse_locale_choice_falls_back_to_system_for_unknown_input() {
    assert_eq!(parse_locale_choice(LOCALE_VALUE_SYSTEM), LocaleChoice::System);
    assert_eq!(parse_locale_choice("de"), LocaleChoice::System);
    assert_eq!(parse_locale_choice(""), LocaleChoice::System);
}

#[test]
fn endonyms_name_each_language_in_itself() {
    assert_eq!(endonym(Locale::En), "English");
    assert_eq!(endonym(Locale::Fr), "Français");
}

#[test]
fn author_name_resolves_self_peer_and_unresolved() {
    let me = "me".to_string();
    let strings = catalog_for(Locale::En);
    let self_author = Author::Resolved { subject_id: me.clone(), role: Role::Member, standing: Standing::Active };
    assert_eq!(author_name(&self_author, Some(&me), strings), "You");
    let peer = Author::Resolved {
        subject_id: "blake3:otherlongid".to_string(),
        role: Role::Member,
        standing: Standing::Active,
    };
    assert_eq!(author_name(&peer, Some(&me), strings), "otherlon");
    assert_eq!(author_name(&Author::Unresolved, Some(&me), strings), "Unknown sender");
}

#[test]
fn first_supported_language_tag_honors_the_ordered_preference() {
    let of = |v: &[&str]| first_supported_language_tag(&v.iter().map(|s| s.to_string()).collect());
    assert_eq!(of(&["de-DE", "fr-FR"]), Some("fr-FR".to_string()));
    assert_eq!(of(&["en-US", "fr-FR"]), Some("en-US".to_string()));
    assert_eq!(of(&["fr", "en"]), Some("fr".to_string()));
    assert_eq!(of(&["de-DE", "es-ES"]), None);
    assert_eq!(of(&[]), None);
}

#[test]
fn tones_and_sides_map_to_the_shared_classes() {
    assert_eq!(StatusTone::Neutral.badge_class(), "conn-badge");
    assert_eq!(StatusTone::Danger.badge_class(), "conn-badge conn-disconnected");
    assert_eq!(side_class(Side::Own), "timeline-row own");
    assert_eq!(side_class(Side::System), "timeline-row system");
    assert_eq!(wire_role_str(Role::Authority), "authority");
}

fn target(host: &str, port: u64) -> Target {
    Target { host: host.to_string(), port }
}

fn v4(a: u8, b: u8, c: u8, d: u8) -> HostAddr {
    HostAddr::V4(a, b, c, d)
}

fn v6_last(h: u16) -> HostAddr {
    HostAddr::V6(0, 0, 0, 0, 0, 0, 0, h)
}

#[test]
fn loopback_targets_are_accepted() {
    for (host, addr, port) in [
        ("127.0.0.1", v4(127, 0, 0, 1), 8080),
        ("127.5.6.7", v4(127, 5, 6, 7), 1),
        ("::1", v6_last(1), 65535),
        ("[::1]", v6_last(1), 22),
    ] {
        assert!(
            validate_loopback_target(&target(host, port), addr).is_ok(),
            "{host}:{port} is loopback"
        );
    }
    assert_eq!(unbracketed("[::1]"), "::1");
    assert_eq!(unbracketed("127.0.0.1"), "127.0.0.1");
}

#[test]
fn non_loopback_and_bad_ports_are_refused_locally() {
    for (host, addr, port) in [
        ("192.168.1.10", v4(192, 168, 1, 10), 8080),
        ("10.0.0.1", v4(10, 0, 0, 1), 22),
        ("0.0.0.0", v4(0, 0, 0, 0), 80),
        ("example.com", HostAddr::NotIp, 443),
        ("localhost", HostAddr::NotIp, 8080),
        ("127.0.0.1", v4(127, 0, 0, 1), 0),
        ("127.0.0.1", v4(127, 0, 0, 1), 65536),
        ("::2", v6_last(2), 22),
    ] {
        assert_eq!(
            validate_loopback_target(&target(host, port), addr),
            Err(FlowFailure::PipeTargetRefused),
            "{host}:{port} must be refused"
        );
    }
}

#[test]
fn the_refusal_carries_no_target_payload() {
    let failure =
        validate_loopback_target(&target("192.168.1.10", 8080), v4(192, 168, 1, 10)).unwrap_err();
    assert_eq!(failure, FlowFailure::PipeTargetRefused);
}

#[test]
fn loopback_addresses_are_127_slash_8_and_the_ipv6_localhost() {
    assert!(is_loopback(v4(127, 255, 255, 255)));
    assert!(!is_loopback(v4(128, 0, 0, 1)));
    assert!(is_loopback(v6_last(1)));
    assert!(!is_loopback(v6_last(0)));
    assert!(!is_loopback(HostAddr::V6(1, 0, 0, 0, 0, 0, 0, 1)));
    assert!(!is_loopback(HostAddr::NotIp));
}

#[test]
fn dest_kind_ignores_selected_item() {
    assert!(dest_kind_matches(
        &RoomDest::Files {
            item: Some("f-1".to_string()),
        },
        &RoomDest::Files { item: None },
    ));
    assert!(dest_kind_matches(
        &RoomDest::People {
            item: Some("m-1".to_string()),
        },
        &RoomDest::People { item: None },
    ));
    assert!(!dest_kind_matches(
        &RoomDest::People { item: None },
        &RoomDest::Agents { item: None },
    ));
    assert!(dest_kind_matches(&RoomDest::Activity, &RoomDest::Activity));
    assert!(!dest_kind_matches(&RoomDest::Activity, &RoomDest::Pipes { item: None }));
}

fn event(kind: EventKindContent, author: Author) -> Event {
    Event {
        pos: 1,
        event_id: "e1".to_string(),
        at: Timestamp::unix_epoch(),
        author,
        kind,
    }
}

fn peer(id: &str) -> Author {
    Author::Resolved {
        subject_id: id.to_string(),
        role: Role::Member,
        standing: Standing::Active,
    }
}

#[test]
fn every_event_kind_has_its_own_rendering() {
    let strings = catalog_for(Locale::En);
    let me = "blake3:me".to_string();
    let author = peer("blake3:authorlongid");
    let view = |kind: EventKindContent| event_view(&event(kind, author.clone()), Some(&me), strings);
    assert_eq!(
        view(EventKindContent::Message { body: "hi".to_string() }),
        EventView::Message { author: "authorlo".to_string(), body: "hi".to_string() }
    );
    assert_eq!(
        view(EventKindContent::AgentStatus { label: StatusLabel::Idle, progress: StatusProgress::Reported { percent: 40 } }),
        EventView::AgentStatus {
            author: "authorlo".to_string(),
            label: StatusLabel::Idle,
            progress: StatusProgress::Reported { percent: 40 },
        }
    );
    assert_eq!(
        view(EventKindContent::RoomCreated { name: "Ops".to_string() }),
        EventView::Sysline { text: "authorlo created the room".to_string() }
    );
    assert_eq!(
        view(EventKindContent::MemberJoined { subject_id: "blake3:newcomer99".to_string(), role: Role::Authority }),
        EventView::Sysline { text: "newcomer joined as Authority".to_string() }
    );
    assert_eq!(
        view(EventKindContent::MemberLeft { subject_id: "s-1".to_string() }),
        EventView::Sysline { text: "s-1 left".to_string() }
    );
    assert_eq!(
        view(EventKindContent::MemberRemoved { subject_id: "s-1".to_string(), by: "blake3:removerxyz".to_string() }),
        EventView::Sysline { text: "s-1 was removed by removerx".to_string() }
    );
    assert_eq!(
        view(EventKindContent::InviteRevoked { invite_id: "i".to_string() }),
        EventView::Sysline { text: "An invitation was revoked".to_string() }
    );
    assert_eq!(
        view(EventKindContent::FileShared {
            file_id: "f".to_string(),
            name: "a.txt".to_string(),
            bytes: 12,
            digest: "blake3:d".to_string(),
        }),
        EventView::FileReference { author: "authorlo".to_string(), file_name: "a.txt".to_string(), bytes: 12 }
    );
    assert_eq!(
        view(EventKindContent::PipePublished {
            pipe_id: "p".to_string(),
            target: Target { host: "127.0.0.1".to_string(), port: 8080 },
            audience: Audience::Room,
        }),
        EventView::PipeReference { author: "authorlo".to_string(), target: "127.0.0.1:8080".to_string() }
    );
    assert_eq!(
        view(EventKindContent::PipeRevoked { pipe_id: "p".to_string() }),
        EventView::Sysline { text: "A pipe was revoked".to_string() }
    );
}

#[test]
fn own_events_render_as_you_and_french_roles_are_translated() {
    let me = "blake3:me".to_string();
    let own = event(EventKindContent::RoomCreated { name: "Ops".to_string() }, peer("blake3:me"));
    assert_eq!(
        event_view(&own, Some(&me), catalog_for(Locale::En)),
        EventView::Sysline { text: "You created the room".to_string() }
    );
    let joined = event(
        EventKindContent::MemberJoined { subject_id: "s-2".to_string(), role: Role::Member },
        peer("s-1"),
    );
    let fr = catalog_for(Locale::Fr);
    let expected = format!("s-2 joined as {}", fr.wire_role_member());
    assert_eq!(event_view(&joined, None, fr), EventView::Sysline { text: expected });
}

#[test]
fn a_pipe_target_is_host_colon_port() {
    assert_eq!(pipe_target(&Target { host: "::1".to_string(), port: 22 }), "::1:22");
    assert_eq!(pipe_target(&Target { host: "h".to_string(), port: 0 }), "h:0");
}

#[test]
fn a_pending_send_never_claims_delivery() {
    let strings = catalog_for(Locale::En);
    let entry = |phase: SendPhase| SendEntry {
        client_id: SendId(0),
        op_id: "op".to_string(),
        body: "hello".to_string(),
        at: Timestamp::unix_epoch(),
        phase,
    };
    let pending = pending_view(&entry(SendPhase::Pending), strings);
    assert_eq!((pending.state_class, pending.label, pending.failed), ("pending syncing", "Sending…", false));
    let syncing = pending_view(&entry(SendPhase::Syncing { event_id: None }), strings);
    assert_eq!((syncing.state_class, syncing.label, syncing.failed), ("pending syncing", "Sending…", false));
    let maybe = pending_view(&entry(SendPhase::Failed { execution: Execution::Unknown, code: None }), strings);
    assert_eq!((maybe.state_class, maybe.label, maybe.failed), ("pending failed", "May not have sent", true));
    let not_sent = pending_view(
        &entry(SendPhase::Failed { execution: Execution::DefinitelyNot, code: Some("room_not_found".to_string()) }),
        strings,
    );
    assert_eq!((not_sent.state_class, not_sent.label, not_sent.failed), ("pending failed", "Not sent", true));
}

#[test]
fn a_run_shows_its_grouped_count_and_latest_card() {
    let strings = catalog_for(Locale::En);
    let status = |pos: u64, percent: u8| Event {
        pos,
        event_id: format!("e{pos}"),
        at: Timestamp::from_unix_seconds(pos as i64).unwrap(),
        author: peer("blake3:botlongid"),
        kind: EventKindContent::AgentStatus {
            label: StatusLabel::Working,
            progress: StatusProgress::Reported { percent },
        },
    };
    let events: Vec<Event> = (1..=3).map(|p| status(p, 10 * p as u8)).collect();
    let run = AgentRun {
        summary: RunSummary {
            count: 1234,
            first_at: events[0].at,
            last_at: events[2].at,
            latest: events[2].clone(),
        },
        events,
    };
    let view = run_view(&run, None, strings, Formats::new(Locale::En, Locale::En), Locale::En);
    assert_eq!(view.summary, "1,234 status updates");
    assert_eq!(view.author, "botlongi");
    assert_eq!(view.label, StatusLabel::Working);
    assert_eq!(view.progress, StatusProgress::Reported { percent: 30 });
    let one = AgentRun {
        summary: RunSummary { count: 1, ..run.summary.clone() },
        events: run.events.clone(),
    };
    assert_eq!(
        run_view(&one, None, strings, Formats::new(Locale::En, Locale::En), Locale::En).summary,
        "1 status update"
    );
}

#[test]
fn locale_choices_store_or_clear_their_preference_independently() {
    let state = LocaleState { text: Locale::En, formatting: Locale::En, text_follows_system: true };
    let (fr_text, write) = apply_text_locale(state, LocaleChoice::Explicit(Locale::Fr));
    assert_eq!(fr_text, LocaleState { text: Locale::Fr, formatting: Locale::En, text_follows_system: false });
    assert_eq!(write, LocalePrefWrite::Store(Locale::Fr));
    let (system, write) = apply_text_locale(fr_text, LocaleChoice::System);
    assert_eq!(system, LocaleState { text: Locale::Fr, formatting: Locale::En, text_follows_system: true });
    assert_eq!(write, LocalePrefWrite::Clear);
    let (fr_format, write) = apply_formatting_locale(state, LocaleChoice::Explicit(Locale::Fr));
    assert_eq!(fr_format, LocaleState { text: Locale::En, formatting: Locale::Fr, text_follows_system: true });
    assert_eq!(write, LocalePrefWrite::Store(Locale::Fr));
    assert_eq!(apply_formatting_locale(fr_format, LocaleChoice::System), (fr_format, LocalePrefWrite::Clear));
}

#[test]
fn the_destination_strip_highlights_the_open_destination() {
    let strings = catalog_for(Locale::En);
    let tabs = room_dest_tabs(strings, &RoomDest::People { item: Some("m-1".to_string()) });
    let ids: Vec<&str> = tabs.iter().map(|t| t.id).collect();
    assert_eq!(
        ids,
        vec!["room-dest-activity", "room-dest-people", "room-dest-agents", "room-dest-files", "room-dest-pipes"]
    );
    let active: Vec<bool> = tabs.iter().map(|t| t.active).collect();
    assert_eq!(active, vec![false, true, false, false, false]);
    assert_eq!(tabs[1].target, RoomDest::People { item: None });
    assert_eq!(tabs[0].label, strings.room_dest_activity());
    assert_eq!(dest_tab_class(true), "room-dest-item selected");
    assert_eq!(dest_tab_class(false), "room-dest-item");
}

#[test]
fn an_archived_event_shows_its_label_and_its_data() {
    let strings = catalog_for(Locale::En);
    let row = |kind: EventKindContent| archive_event_row(strings, &event(kind, Author::Unresolved));
    assert_eq!(
        row(EventKindContent::RoomCreated { name: "Ops".to_string() }),
        (Some("Room created"), Some("Ops".to_string()))
    );
    assert_eq!(row(EventKindContent::Message { body: "hi".to_string() }), (None, Some("hi".to_string())));
    assert_eq!(
        row(EventKindContent::MemberRemoved { subject_id: "blake3:abcdefghij".to_string(), by: "x".to_string() }),
        (Some("Member removed"), Some("abcdefgh".to_string()))
    );
    assert_eq!(row(EventKindContent::PipeRevoked { pipe_id: "p".to_string() }), (Some("Pipe revoked"), None));
}

#[test]
fn the_departure_banner_never_claims_a_removal_it_did_not_see() {
    let strings = catalog_for(Locale::En);
    assert_eq!(departure_title(strings, Standing::Removed), "You were removed from this room");
    assert_eq!(departure_title(strings, Standing::Left), "You left this room");
    assert_eq!(departure_title(strings, Standing::Active), "You left this room");
    let member = HistoricalMember {
        subject_id: "blake3:memberlongid".to_string(),
        role: Role::Authority,
        standing: Standing::Left,
    };
    let view = historical_row(strings, &member);
    assert_eq!(view.subject, "memberlo");
    assert_eq!(view.role, jeliya_ui::status::role_label(strings, Role::Authority));
    assert_eq!(view.standing, jeliya_ui::status::standing_label(strings, Standing::Left));
}

#[test]
fn the_alias_editor_lists_every_alias_and_the_unnamed_self_first() {
    let mut map = AliasMap::new();
    map.set(&"blake3:bob".to_string(), "Bob");
    map.set(&"blake3:ada".to_string(), "Ada");
    assert_eq!(alias_editor_subjects(&map, None), vec!["blake3:ada".to_string(), "blake3:bob".to_string()]);
    let me = "blake3:me".to_string();
    assert_eq!(
        alias_editor_subjects(&map, Some(&me)),
        vec!["blake3:me".to_string(), "blake3:ada".to_string(), "blake3:bob".to_string()]
    );
    let bob = "blake3:bob".to_string();
    assert_eq!(alias_editor_subjects(&map, Some(&bob)), vec!["blake3:ada".to_string(), "blake3:bob".to_string()]);
    assert!(alias_editor_subjects(&AliasMap::new(), None).is_empty());
}

#[test]
fn a_self_label_edit_stores_the_normalized_label_or_clears_it() {
    assert_eq!(self_label_write("  Ada  "), Some("Ada".to_string()));
    assert_eq!(self_label_write("   "), None);
    assert_eq!(self_label_write(&"x".repeat(60)).map(|v| v.chars().count()), Some(40));
}

#[test]
fn the_locale_switcher_selects_system_or_the_resolved_locale() {
    assert_eq!(locale_options_selected(Locale::Fr, true), (true, false, false));
    assert_eq!(locale_options_selected(Locale::En, false), (false, true, false));
    assert_eq!(locale_options_selected(Locale::Fr, false), (false, false, true));
}
