use jeliya_ui::api::{LatestStatus, Link, Liveness, Reachability, Redeemability, Severity, StatusLabel, Timestamp};
use jeliya_ui::client::{CallError, Execution, State};
use jeliya_ui::components::StatusTone;
use jeliya_ui::l10n::error::{scrub_secrets, ErrorDisplay};
use jeliya_ui::l10n::palette::{avatar_bg, color_for_id, file_tint, tile_bg};
use jeliya_ui::l10n::plural::{category, PluralCategory};
use jeliya_ui::l10n::tokens::{BRAND, MIDDLE_DOT};
use jeliya_ui::l10n::wire::{member_status_label, peer_path_label, role_label, status_for};
use jeliya_ui::l10n::{catalog_for, Catalog, En, Formats, Fr, Locale, LocaleState, SUPPORTED_LOCALES};
use jeliya_ui::status::{
    latest_status_label, link_label, liveness_label, liveness_tone, reachability_label,
    redeemability_label, room_session_label, severity_tone, status_label_word,
};

#[test]
fn the_catalogs_agree_with_the_never_translate_tokens() {
    assert_eq!(En.app_name(), BRAND, "EN brand must be the canonical token");
    assert_eq!(Fr.app_name(), BRAND, "FR brand must be the canonical token");
    for status in [En.client_status("Ready"), Fr.client_status("Ready")] {
        assert!(status.contains(MIDDLE_DOT), "the status line must use the canonical middle dot: {status}");
    }
}

#[test]
fn scrub_secrets_redacts_quoted_and_spaced_credentials() {
    for input in [
        r#"token="abc123secret""#,
        r#"secret='abc123secret'"#,
        r#"Authorization: "abc123secret""#,
        "token=abc123secret trailing",
        "Authorization: Basic abc123secret, next",
    ] {
        let scrubbed = scrub_secrets(input.to_string());
        assert!(!scrubbed.contains("abc123secret"), "credential leaked from {input:?}: {scrubbed}");
        assert!(scrubbed.contains("«redacted»"), "no redaction marker for {input:?}: {scrubbed}");
    }
    let s = scrub_secrets(r#"connect failed token="abc123secret" then done"#.to_string());
    assert!(s.contains("connect failed") && s.contains("done"), "{s}");
    let escaped = scrub_secrets(r#"token="abc\"VISIBLE_SECRET" then done"#.to_string());
    assert!(!escaped.contains("VISIBLE_SECRET"), "escaped-quote token leaked: {escaped}");
    assert!(escaped.contains("done"), "structure after must survive: {escaped}");
}

#[test]
fn scrub_secrets_redacts_the_whole_digest_authorization_field() {
    let s = scrub_secrets(
        r#"Authorization: Digest username="alice", nonce="n0nce", response="deadbeefcafe""#.to_string(),
    );
    assert!(!s.contains("alice"), "digest username leaked: {s}");
    assert!(!s.contains("n0nce"), "digest nonce leaked: {s}");
    assert!(!s.contains("deadbeefcafe"), "digest response leaked: {s}");
    assert!(s.contains("«redacted»"), "no redaction marker: {s}");
    let bounded = scrub_secrets(r#"{Authorization: Digest response="deadbeefcafe"} tail"#.to_string());
    assert!(!bounded.contains("deadbeefcafe"), "bounded digest leaked: {bounded}");
    assert!(bounded.contains("tail"), "structure after the brace must survive: {bounded}");
    let quoted = scrub_secrets(r#"Authorization: Digest username="a)}", response="deadbeefcafe""#.to_string());
    assert!(!quoted.contains("deadbeefcafe"), "quoted-delimiter digest leaked: {quoted}");
    let escaped = scrub_secrets(r#"Authorization: Digest username="a\")", response="deadbeefcafe""#.to_string());
    assert!(!escaped.contains("deadbeefcafe"), "escaped-quote digest leaked: {escaped}");
}

#[test]
fn scrub_secrets_gives_the_exact_redaction() {
    assert_eq!(
        scrub_secrets("connect failed token=abc123secret next".to_string()),
        "connect failed «redacted» next"
    );
    assert_eq!(scrub_secrets("Bearer xyz, tail".to_string()), "«redacted», tail");
    assert_eq!(scrub_secrets("nothing to hide".to_string()), "nothing to hide");
}

#[test]
fn diagnostic_detail_is_raw_but_scrubbed() {
    let error = CallError::Disconnected { execution: Execution::Unknown };
    let detail = ErrorDisplay::diagnostic_detail(&error);
    assert!(detail.contains("Disconnected"));
    let scrubbed = scrub_secrets("connect failed token=abc123secret next".to_string());
    assert!(!scrubbed.contains("abc123secret"));
    assert!(scrubbed.contains("«redacted»"));
    assert!(scrubbed.contains("connect failed"));
    assert!(scrubbed.contains("next"));
}

#[test]
fn friendly_copy_switches_with_the_catalog() {
    assert_eq!(ErrorDisplay::room_list_failure(&En, false).title, "Couldn’t load rooms");
    assert_eq!(ErrorDisplay::room_list_failure(&Fr, false).title, "Échec du chargement des salons");
    assert_ne!(ErrorDisplay::friendly_unknown(&En).message, ErrorDisplay::friendly_unknown(&Fr).message);
}

#[test]
fn terminal_and_retryable_room_list_copy_differ() {
    for cat in [&En as &dyn Catalog, &Fr as &dyn Catalog] {
        let retryable = ErrorDisplay::room_list_failure(cat, false).message;
        let terminal = ErrorDisplay::room_list_failure(cat, true).message;
        assert_ne!(retryable, terminal);
    }
}

#[test]
fn from_tag_matches_on_primary_subtag() {
    assert_eq!(Locale::from_tag("en"), Some(Locale::En));
    assert_eq!(Locale::from_tag("fr"), Some(Locale::Fr));
    assert_eq!(Locale::from_tag("fr-CA"), Some(Locale::Fr));
    assert_eq!(Locale::from_tag("FR_be"), Some(Locale::Fr));
    assert_eq!(Locale::from_tag("de-CH"), None);
    assert_eq!(Locale::from_tag(""), None);
}

#[test]
fn resolve_prefers_explicit_then_platform_then_fallback() {
    let s = LocaleState::resolve(Some("fr"), None, Some("en"), None);
    assert_eq!(s.text, Locale::Fr);
    assert_eq!(s.formatting, Locale::Fr);
    assert!(!s.text_follows_system);
    let s = LocaleState::resolve(None, Some("en"), Some("fr-CA"), None);
    assert_eq!(s.text, Locale::Fr);
    assert_eq!(s.formatting, Locale::En);
    assert!(s.text_follows_system);
    let s = LocaleState::resolve(None, None, Some("de-CH"), Some("de-CH"));
    assert_eq!(s.text, Locale::En);
    assert_eq!(s.formatting, Locale::En);
}

#[test]
fn independently_switchable_both_directions() {
    let a = LocaleState::resolve(Some("fr"), Some("en"), None, None);
    assert_eq!((a.text, a.formatting), (Locale::Fr, Locale::En));
    let b = LocaleState::resolve(Some("en"), Some("fr"), None, None);
    assert_eq!((b.text, b.formatting), (Locale::En, Locale::Fr));
}

#[test]
fn every_supported_locale_has_a_catalog_and_matching_tag() {
    for locale in SUPPORTED_LOCALES {
        let catalog = catalog_for(locale);
        assert_eq!(catalog.locale_tag(), locale.tag());
        assert_eq!(catalog.app_name(), "Jeliya");
    }
}

#[test]
fn default_locale_state_is_english_following_the_system() {
    let s = LocaleState::default();
    assert_eq!((s.text, s.formatting), (Locale::En, Locale::En));
    assert!(s.text_follows_system);
}

#[test]
fn english_singular_is_one_only() {
    assert_eq!(category(Locale::En, 0), PluralCategory::Other);
    assert_eq!(category(Locale::En, 1), PluralCategory::One);
    assert_eq!(category(Locale::En, 2), PluralCategory::Other);
    assert_eq!(category(Locale::En, 5), PluralCategory::Other);
}

#[test]
fn french_zero_and_one_are_singular() {
    assert_eq!(category(Locale::Fr, 0), PluralCategory::One);
    assert_eq!(category(Locale::Fr, 1), PluralCategory::One);
    assert_eq!(category(Locale::Fr, 2), PluralCategory::Other);
    assert_eq!(category(Locale::Fr, 5), PluralCategory::Other);
}

#[test]
fn rooms_count_follows_the_plural_category() {
    assert_eq!(En.rooms_count("1", PluralCategory::One), "1 room");
    assert_eq!(En.rooms_count("3", PluralCategory::Other), "3 rooms");
    assert_eq!(Fr.rooms_count("0", PluralCategory::One), "0 salon");
}

#[test]
fn unknown_values_pass_through_raw() {
    assert_eq!(role_label(&En, "observer"), "observer");
    assert_eq!(role_label(&En, "owner"), "owner");
    assert_eq!(member_status_label(&En, "suspended"), "suspended");
    assert_eq!(peer_path_label(&En, "mesh"), "mesh");
}

#[test]
fn the_canonical_role_maps_to_a_designed_label() {
    assert_eq!(role_label(&En, "authority"), "Authority");
    assert_eq!(role_label(&Fr, "authority"), "Autorité");
    assert_eq!(role_label(&En, "member"), "Member");
    assert_ne!(role_label(&Fr, "authority"), "authority");
    assert_eq!(member_status_label(&En, "active"), "Member");
}

#[test]
fn tier2_path_tokens_are_rendered_verbatim() {
    assert_eq!(peer_path_label(&En, "relay"), "relay");
    assert_eq!(peer_path_label(&Fr, "relay"), "relay");
    assert_eq!(peer_path_label(&En, "direct"), "direct");
    assert_eq!(peer_path_label(&Fr, "direct"), "direct");
}

#[test]
fn empty_member_status_is_unknown_not_passthrough() {
    assert_eq!(member_status_label(&En, ""), "Unknown");
    assert_eq!(member_status_label(&Fr, ""), "Inconnu");
}

#[test]
fn lifecycle_maps_every_state_to_a_word() {
    for state in [
        State::Idle,
        State::Connecting,
        State::Ready,
        State::Interrupted,
        State::Stopping,
        State::Stopped,
        State::Failed,
    ] {
        assert!(!status_for(&En, state).is_empty());
        assert!(!status_for(&Fr, state).is_empty());
    }
    assert_eq!(status_for(&En, State::Ready), "Connected");
    assert_eq!(status_for(&Fr, State::Ready), "Connecté");
}

#[test]
fn count_groups_thousands_per_convention() {
    assert_eq!(Formats::new(Locale::En, Locale::En).count(1234), "1,234");
    assert_eq!(Formats::new(Locale::En, Locale::En).count(1234567), "1,234,567");
    assert_eq!(Formats::new(Locale::En, Locale::Fr).count(1234), "1\u{202f}234");
    assert_eq!(Formats::new(Locale::En, Locale::En).count(0), "0");
    assert_eq!(Formats::new(Locale::En, Locale::En).count(999), "999");
}

#[test]
fn percent_spacing_is_french_narrow_space() {
    assert_eq!(Formats::new(Locale::En, Locale::En).percent(42), "42%");
    assert_eq!(Formats::new(Locale::Fr, Locale::Fr).percent(42), "42\u{202f}%");
    assert_eq!(Formats::new(Locale::Fr, Locale::En).percent(42), "42\u{202f}%");
}

#[test]
fn day_labels_follow_the_text_locale() {
    assert_eq!(Formats::new(Locale::En, Locale::Fr).today(), "Today");
    assert_eq!(Formats::new(Locale::Fr, Locale::En).today(), "Aujourd\u{2019}hui");
    assert_eq!(Formats::new(Locale::En, Locale::En).yesterday(), "Yesterday");
}

#[test]
fn identity_colours_are_stable_and_from_the_palette() {
    let palette = ["#2fd6a4", "#6aa8f7", "#a78bfa", "#fb923c", "#f472b6", "#22d3ee"];
    for id in ["", "a", "blake3:subject", "é🚀"] {
        assert_eq!(color_for_id(id), color_for_id(id));
        assert!(palette.contains(&color_for_id(id)));
    }
    assert_eq!(color_for_id(""), "#2fd6a4");
    assert_eq!(color_for_id("a"), "#6aa8f7");
    assert_eq!(avatar_bg("a"), "#6aa8f726");
    assert_eq!(tile_bg("a"), "#6aa8f71f");
}

#[test]
fn file_tints_follow_the_extension() {
    assert_eq!(file_tint("report.PDF"), "#f26d6d");
    assert_eq!(file_tint("notes.md"), "#6aa8f7");
    assert_eq!(file_tint("app.ts"), "#2fd6a4");
    assert_eq!(file_tint("photo.jpeg"), "#a78bfa");
    assert_eq!(file_tint("archive.tar.gz"), "#8aa39d");
    assert_eq!(file_tint("README"), "#8aa39d");
}

fn assert_distinct_nonempty(labels: &[&str]) {
    for (i, a) in labels.iter().enumerate() {
        assert!(!a.is_empty(), "empty label at {i}");
        for b in &labels[i + 1..] {
            assert_ne!(a, b, "labels must be distinct: {a:?}");
        }
    }
}

#[test]
fn every_vocabulary_arm_is_nonempty_and_distinct() {
    for cat in [&En as &dyn Catalog, &Fr as &dyn Catalog] {
        assert_distinct_nonempty(&[
            reachability_label(cat, Reachability::Connecting),
            reachability_label(cat, Reachability::Connected),
            reachability_label(cat, Reachability::Alone),
            reachability_label(cat, Reachability::Offline),
        ]);
        assert_distinct_nonempty(&[
            liveness_label(cat, Liveness::Working),
            liveness_label(cat, Liveness::OnlineIdle),
            liveness_label(cat, Liveness::Offline),
            liveness_label(cat, Liveness::Stale),
        ]);
        assert_distinct_nonempty(&[
            status_label_word(cat, StatusLabel::Online),
            status_label_word(cat, StatusLabel::Idle),
            status_label_word(cat, StatusLabel::Claiming),
            status_label_word(cat, StatusLabel::Working),
            status_label_word(cat, StatusLabel::Done),
            status_label_word(cat, StatusLabel::Failed),
            status_label_word(cat, StatusLabel::Blocked),
        ]);
        assert_distinct_nonempty(&[
            redeemability_label(cat, Redeemability::Outstanding),
            redeemability_label(cat, Redeemability::Expired),
            redeemability_label(cat, Redeemability::Revoked),
            redeemability_label(cat, Redeemability::Redeemed),
        ]);
        assert!(!latest_status_label(cat, &LatestStatus::Absent).is_empty());
        assert!(!cat.last_seen_never().is_empty());
        assert_ne!(room_session_label(cat, true), room_session_label(cat, false));
    }
}

#[test]
fn tier2_link_tokens_are_verbatim_in_every_locale() {
    let ts = Timestamp::unix_epoch();
    for cat in [&En as &dyn Catalog, &Fr as &dyn Catalog] {
        assert_eq!(link_label(cat, &Link::Direct { since: ts }), "direct");
        assert_eq!(link_label(cat, &Link::Relay { since: ts }), "relay");
    }
}

#[test]
fn severity_and_liveness_tones_are_distinct_facts() {
    assert_ne!(liveness_tone(Liveness::Stale), liveness_tone(Liveness::Working));
    assert_eq!(severity_tone(Severity::Failed), StatusTone::Danger);
    assert_eq!(severity_tone(Severity::Review), StatusTone::Warn);
}
