use jeliya_ui::prefs::backend::{InMemoryBackend, KeyValueBackend};
use jeliya_ui::prefs::legacy::{is_legacy_web_key, LEGACY_WEB_KEYS};
use jeliya_ui::prefs::{
    encode_component, parse_envelope, write_envelope, AnomalyReason, EnvelopeParse,
    PreferenceKey, PreferenceSchema, NAMESPACE, NAMESPACE_PREFIX, SCHEMA_VERSION,
};

fn schema() -> PreferenceSchema<InMemoryBackend> {
    PreferenceSchema::new(InMemoryBackend::new())
}

fn key_of(key: &PreferenceKey) -> String {
    PreferenceSchema::<InMemoryBackend>::backend_key(key)
}

#[test]
fn in_memory_backend_round_trips_and_removes() {
    let mut backend = InMemoryBackend::new();
    assert_eq!(backend.get("k"), None);
    backend.set("k", "v");
    assert_eq!(backend.get("k"), Some("v".to_owned()));
    backend.set("k", "v2");
    assert_eq!(backend.get("k"), Some("v2".to_owned()));
    backend.remove("k");
    assert_eq!(backend.get("k"), None);
    backend.remove("absent");
}

#[test]
fn seeded_backend_exposes_its_keys() {
    let backend = InMemoryBackend::seeded(vec![
        ("a".to_owned(), "1".to_owned()),
        ("b".to_owned(), "2".to_owned()),
    ]);
    let mut keys = backend.keys();
    keys.sort();
    assert_eq!(keys, vec!["a".to_owned(), "b".to_owned()]);
}

#[test]
fn exact_legacy_keys_match() {
    for key in LEGACY_WEB_KEYS {
        assert!(is_legacy_web_key(key), "{key} should be a legacy key");
    }
}

#[test]
fn draft_family_matches_by_prefix() {
    assert!(is_legacy_web_key("jeliya.draft.room-1"));
    assert!(is_legacy_web_key("jeliya.draft.blake3%3Aabc"));
}

#[test]
fn the_purge_never_matches_fresh_or_arbitrary_keys() {
    assert!(!is_legacy_web_key("jeliya.dx.v1.lastRoom"));
    assert!(!is_legacy_web_key("jeliya.dx.v1.draft.room-1"));
    assert!(!is_legacy_web_key("some.other.app"));
    assert!(!is_legacy_web_key("jeliya.unknownFutureKey"));
    assert!(!is_legacy_web_key(""));
}

#[test]
fn namespace_is_disjoint_from_every_legacy_key() {
    for legacy in LEGACY_WEB_KEYS {
        assert!(!legacy.starts_with(NAMESPACE_PREFIX), "legacy key {legacy} collides");
        assert!(!is_legacy_web_key(&format!("{NAMESPACE}.x")));
    }
}

#[test]
fn key_derivation_is_total_and_namespaced() {
    let room = "blake3:abc".to_string();
    for key in [
        PreferenceKey::LastRoom,
        PreferenceKey::Aliases,
        PreferenceKey::SelfLabel,
        PreferenceKey::TextLocale,
        PreferenceKey::FormattingLocale,
        PreferenceKey::Draft { room_id: room.clone() },
        PreferenceKey::Pinned { room_id: room.clone() },
        PreferenceKey::Archived { room_id: room.clone() },
        PreferenceKey::LastSeen { room_id: room },
    ] {
        let derived = key_of(&key);
        assert!(derived.starts_with(NAMESPACE_PREFIX), "{derived}");
    }
}

#[test]
fn room_id_is_percent_encoded_in_keys_like_routes() {
    let key = PreferenceKey::Draft { room_id: "blake3:abc".to_string() };
    assert_eq!(key_of(&key), "jeliya.dx.v1.draft.blake3%3Aabc");
}

#[test]
fn envelope_round_trips_arbitrary_values() {
    let mut schema = schema();
    for value in ["", "hello", "quote\"and\\slash", "line\nbreak", "é🚀"] {
        schema.set(&PreferenceKey::SelfLabel, value);
        assert_eq!(
            schema.get(&PreferenceKey::SelfLabel).as_deref(),
            Some(value),
            "value {value:?} did not round-trip"
        );
    }
}

#[test]
fn fresh_backend_returns_none_for_every_key() {
    let mut schema = schema();
    assert_eq!(schema.get(&PreferenceKey::LastRoom), None);
    assert_eq!(schema.get(&PreferenceKey::TextLocale), None);
    assert!(!schema.has_anomaly());
}

#[test]
fn a_corrupt_value_resets_to_default_removes_and_records() {
    let key = PreferenceKey::SelfLabel;
    let backend_key = key_of(&key);
    let mut schema = PreferenceSchema::new(InMemoryBackend::seeded(vec![(
        backend_key.clone(),
        "not an envelope".to_owned(),
    )]));
    assert_eq!(schema.get(&key), None);
    assert_eq!(schema.backend().get(&backend_key), None);
    let anomalies = schema.take_anomalies();
    assert_eq!(anomalies.len(), 1);
    assert_eq!(anomalies[0].reason, AnomalyReason::Corrupt);
}

#[test]
fn an_unsupported_newer_version_is_reset() {
    let key = PreferenceKey::TextLocale;
    let backend_key = key_of(&key);
    let future = format!("{{\"v\":{},\"value\":\"fr\"}}", SCHEMA_VERSION + 1);
    let mut schema = PreferenceSchema::new(InMemoryBackend::seeded(vec![(backend_key, future)]));
    assert_eq!(schema.get(&key), None);
    assert_eq!(schema.take_anomalies()[0].reason, AnomalyReason::UnsupportedNewer);
}

#[test]
fn boot_scan_surfaces_and_purges_corruption_before_any_read() {
    let key = PreferenceKey::LastRoom;
    let backend_key = key_of(&key);
    let mut schema = PreferenceSchema::new(InMemoryBackend::seeded(vec![(
        backend_key.clone(),
        "{ bad ".to_owned(),
    )]));
    let found = schema.boot_scan();
    assert_eq!(found.len(), 1);
    assert_eq!(schema.backend().get(&backend_key), None);
}

#[test]
fn reset_all_clears_only_the_namespace() {
    let mut schema = PreferenceSchema::new(InMemoryBackend::seeded(vec![(
        "some.other.app".to_owned(),
        "keepme".to_owned(),
    )]));
    schema.set(&PreferenceKey::SelfLabel, "Ada");
    schema.set(&PreferenceKey::TextLocale, "fr");
    schema.reset_all();
    assert_eq!(schema.get(&PreferenceKey::SelfLabel), None);
    assert_eq!(schema.get(&PreferenceKey::TextLocale), None);
    assert_eq!(schema.backend().get("some.other.app"), Some("keepme".to_owned()));
}

#[test]
fn an_unsupported_older_version_is_reset() {
    let key = PreferenceKey::SelfLabel;
    let backend_key = key_of(&key);
    let old = "{\"v\":0,\"value\":\"legacy\"}".to_string();
    let mut schema = PreferenceSchema::new(InMemoryBackend::seeded(vec![(backend_key, old)]));
    assert_eq!(schema.get(&key), None);
    assert_eq!(schema.take_anomalies()[0].reason, AnomalyReason::UnsupportedOlder);
}

#[test]
fn multiple_anomalies_accumulate_in_take_anomalies() {
    let room = "r-1".to_string();
    let k1 = key_of(&PreferenceKey::SelfLabel);
    let k2 = key_of(&PreferenceKey::TextLocale);
    let k3 = key_of(&PreferenceKey::Draft { room_id: room.clone() });
    let mut schema = PreferenceSchema::new(InMemoryBackend::seeded(vec![
        (k1, "not-json".to_owned()),
        (k2, "also-bad".to_owned()),
        (k3, "{}".to_owned()),
    ]));
    let _ = schema.get(&PreferenceKey::SelfLabel);
    let _ = schema.get(&PreferenceKey::TextLocale);
    let _ = schema.get(&PreferenceKey::Draft { room_id: room });
    let anomalies = schema.take_anomalies();
    assert_eq!(anomalies.len(), 3, "all three anomalies must be recorded");
    assert!(schema.take_anomalies().is_empty());
}

#[test]
fn boot_scan_reports_anomalies_in_backend_key_order() {
    let mut schema = PreferenceSchema::new(InMemoryBackend::seeded(vec![
        ("jeliya.dx.v1.zeta".to_owned(), "{ bad ".to_owned()),
        ("jeliya.dx.v1.alpha".to_owned(), "nope".to_owned()),
        ("jeliya.dx.v1.mid".to_owned(), "{\"v\":1,\"value\":\"ok\"}".to_owned()),
        ("jeliya.dx.v1.beta".to_owned(), "{\"v\":9,\"value\":\"x\"}".to_owned()),
    ]));
    let found = schema.boot_scan();
    let keys: Vec<&str> = found.iter().map(|a| a.key.as_str()).collect();
    assert_eq!(keys, vec!["jeliya.dx.v1.alpha", "jeliya.dx.v1.beta", "jeliya.dx.v1.zeta"]);
    assert_eq!(schema.backend().get("jeliya.dx.v1.mid"), Some("{\"v\":1,\"value\":\"ok\"}".to_owned()));
    assert_eq!(schema.backend().get("jeliya.dx.v1.alpha"), None);
}

#[test]
fn boot_scan_ignores_non_namespace_keys() {
    let mut schema = PreferenceSchema::new(InMemoryBackend::seeded(vec![
        ("some.other.app".to_owned(), "bad-envelope".to_owned()),
        ("jeliya.lastRoom".to_owned(), "legacy".to_owned()),
    ]));
    let found = schema.boot_scan();
    assert!(found.is_empty(), "non-namespace keys must not be touched by boot_scan");
    assert_eq!(schema.backend().get("some.other.app"), Some("bad-envelope".to_owned()));
    assert_eq!(schema.backend().get("jeliya.lastRoom"), Some("legacy".to_owned()));
}

#[test]
fn decode_envelope_tolerates_insignificant_whitespace() {
    let padded = "{ \"v\" : 1 , \"value\" : \"hello world\" }";
    match parse_envelope(padded) {
        EnvelopeParse::Valid(v) => assert_eq!(v, "hello world"),
        EnvelopeParse::Anomaly(r) => panic!("expected a value, got anomaly {r:?}"),
    }
}

#[test]
fn encode_component_percent_encodes_special_bytes() {
    assert_eq!(encode_component("AZaz09-_.!~*'()"), "AZaz09-_.!~*'()");
    assert_eq!(encode_component("a:b"), "a%3Ab");
    assert_eq!(encode_component("a/b"), "a%2Fb");
    assert_eq!(encode_component("hello world"), "hello%20world");
    assert_eq!(encode_component("a#b"), "a%23b");
    assert_eq!(encode_component("©"), "%C2%A9");
}

#[test]
fn write_envelope_produces_valid_json_that_decode_accepts() {
    for value in ["", "simple", "quote\"here", "back\\slash", "\nnewline", "é🚀"] {
        let encoded = write_envelope(value);
        match parse_envelope(&encoded) {
            EnvelopeParse::Valid(decoded) => assert_eq!(decoded, value, "failed for {value:?}"),
            EnvelopeParse::Anomaly(r) => panic!("anomaly for {value:?}: {r:?}"),
        }
    }
}

#[test]
fn write_envelope_has_the_exact_versioned_shape() {
    assert_eq!(write_envelope("a\"b"), "{\"v\":1,\"value\":\"a\\\"b\"}");
}

#[test]
fn set_then_get_reads_back_the_value_and_remove_clears_it() {
    let mut schema = schema();
    schema.set(&PreferenceKey::LastRoom, "r-42");
    assert_eq!(schema.get(&PreferenceKey::LastRoom).as_deref(), Some("r-42"));
    schema.remove(&PreferenceKey::LastRoom);
    assert_eq!(schema.get(&PreferenceKey::LastRoom), None);
}
