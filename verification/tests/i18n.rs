use axum_extra::extract::CookieJar;
use main_web::i18n::{is_supported_locale, resolve_locale, Tr, DEFAULT_LOCALE, LOCALE_COOKIE_NAME};

#[test]
fn cookie_override_wins_over_accept_language() {
    let mut jar = CookieJar::new();
    jar = jar.add(("locale", "en"));
    let tr = Tr::resolve(&jar, Some("zz"));
    assert_eq!(tr.locale(), "en");
}

#[test]
fn unsupported_cookie_falls_through_to_accept_language() {
    let mut jar = CookieJar::new();
    jar = jar.add((LOCALE_COOKIE_NAME, "zz"));
    let tr = Tr::resolve(&jar, Some("en"));
    assert_eq!(tr.locale(), "en");
}

#[test]
fn accept_language_region_tag_matches_base_locale() {
    let tr = Tr::resolve(&CookieJar::new(), Some("en-GB,en;q=0.9"));
    assert_eq!(tr.locale(), "en");
}

#[test]
fn unsupported_accept_language_and_no_cookie_falls_back_to_english() {
    let tr = Tr::resolve(&CookieJar::new(), Some("fr-CA,fr;q=0.9"));
    assert_eq!(tr.locale(), DEFAULT_LOCALE);
}

#[test]
fn missing_everything_falls_back_to_english() {
    let tr = Tr::resolve(&CookieJar::new(), None);
    assert_eq!(tr.locale(), DEFAULT_LOCALE);
}

#[test]
fn english_translator_resolves_a_known_key() {
    assert!(!Tr::english().landing_tagline().is_empty());
}

#[test]
fn accept_language_first_tag_is_trimmed_and_weight_ignored() {
    assert_eq!(resolve_locale(None, Some("  en-US ;q=0.5, fr")), "en");
    assert_eq!(resolve_locale(None, Some("\ten;q=0.9")), "en");
}

#[test]
fn only_the_first_accept_language_tag_counts() {
    assert_eq!(resolve_locale(None, Some("fr, en")), DEFAULT_LOCALE);
    assert_eq!(resolve_locale(None, Some("")), DEFAULT_LOCALE);
    assert_eq!(resolve_locale(Some("zz"), Some("de")), DEFAULT_LOCALE);
    assert_eq!(resolve_locale(Some("en"), None), "en");
}

#[test]
fn supported_locales_are_exactly_english() {
    assert!(is_supported_locale("en"));
    assert!(!is_supported_locale("EN"));
    assert!(!is_supported_locale("en-GB"));
    assert!(!is_supported_locale(""));
}

#[test]
fn translator_getters_return_english_copy() {
    let tr = Tr::english();
    assert_eq!(tr.nav_main(), "Main");
    assert_eq!(tr.nav_catalog(), "Catalog");
    assert_eq!(tr.nav_initiative(), "Initiative");
    assert_eq!(tr.menu_log_in(), "Log in");
    assert_eq!(tr.menu_log_out(), "Log out");
    assert_eq!(tr.cards_coming_soon(), "Coming soon");
    assert_eq!(tr.menu_administration(), "Administration");
    for text in [
        tr.nav_game_systems(),
        tr.nav_shelf(),
        tr.menu_switch_app(),
        tr.menu_theme(),
        tr.menu_theme_light(),
        tr.menu_theme_dark(),
        tr.menu_theme_system(),
        tr.menu_user_settings(),
        tr.menu_administration(),
        tr.cards_maintenance(),
    ] {
        assert!(!text.is_empty());
        assert!(!text.starts_with("en."));
    }
}

#[test]
fn missing_key_renders_as_locale_dot_key() {
    assert_eq!(Tr::english().get("no.such.key"), "en.no.such.key");
    assert_eq!(Tr::new("").get("no.such.key"), "no.such.key");
    assert_eq!(Tr::new("zz").get("nav.main"), "zz.nav.main");
}

#[test]
fn regional_locale_falls_back_to_its_base_language() {
    assert_eq!(Tr::new("en-GB").get("nav.main"), "Main");
    assert_eq!(Tr::new("en-x-private").get("nav.main"), "Main");
    assert_eq!(Tr::new("en-GB").get("no.such.key"), "en-GB.no.such.key");
}
