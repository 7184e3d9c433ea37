use jeliya_ui::services::{PlatformServices, PlatformServicesImpl, WebPlatformServices};

#[test]
fn set_preference_overwrites_same_key() {
    let mut svc = WebPlatformServices::new();
    svc.set_preference("k", "first");
    svc.set_preference("k", "second");
    assert_eq!(svc.preference("k").as_deref(), Some("second"));
}

#[test]
fn independent_preference_keys_are_independent() {
    let mut svc = WebPlatformServices::new();
    svc.set_preference("a", "alpha");
    svc.set_preference("b", "beta");
    assert_eq!(svc.preference("a").as_deref(), Some("alpha"));
    assert_eq!(svc.preference("b").as_deref(), Some("beta"));
    assert_eq!(svc.preference("c"), None);
}

#[test]
fn open_url_is_recorded_in_order() {
    let mut svc = WebPlatformServices::new();
    assert!(svc.opened_urls().is_empty());
    svc.open_url("https://example.com");
    svc.open_url("https://example.org");
    assert_eq!(svc.opened_urls(), vec!["https://example.com", "https://example.org"]);
}

#[test]
fn write_clipboard_overwrites_and_returns_last() {
    let mut svc = WebPlatformServices::new();
    assert_eq!(svc.last_clipboard(), None);
    svc.write_clipboard("first");
    svc.write_clipboard("second");
    assert_eq!(svc.last_clipboard().as_deref(), Some("second"));
}

#[test]
fn navigate_sets_and_returns_route() {
    let mut svc = WebPlatformServices::new();
    assert_eq!(svc.route(), "");
    svc.navigate("/rooms");
    assert_eq!(svc.route(), "/rooms");
    svc.navigate("/rooms/r-99");
    assert_eq!(svc.route(), "/rooms/r-99");
}

#[test]
fn preferences_round_trip_deterministically() {
    let mut services = PlatformServices::web_default();
    assert_eq!(services.preference("last_room"), None);
    services.set_preference("last_room", "r-42");
    assert_eq!(services.preference("last_room").as_deref(), Some("r-42"));
}

#[test]
fn the_services_forward_every_call_to_their_implementation() {
    let mut services = PlatformServices::new(WebPlatformServices::new());
    assert_eq!(services.route(), "");
    services.navigate("/fleet");
    services.open_url("https://example.com");
    services.write_clipboard("copied");
    services.set_preference("k", "v");
    assert_eq!(services.route(), "/fleet");
    assert_eq!(services.preference("k").as_deref(), Some("v"));
    assert_eq!(services.preference("missing"), None);
}
