use main_web::admin::{Banner, MaintenanceMode};
use main_web::build_info::BuildInfo;
use main_web::config::{Config, ConfigEnv};
use main_web::i18n::Tr;
use main_web::landing::{
    apply_maintenance, apps, avatar_initial, gravatar_url, is_admin, landing_page,
    login_error_message_key, maintenance_scopes, short_hash, LandingPage, MaintenanceBadge,
};
use main_web::session::SessionUser;

fn template(current_user_name: Option<String>, is_admin: bool) -> LandingPage {
    LandingPage {
        shared_url: "http://localhost:8081".to_string(),
        apps: apps(&Tr::english()),
        version: "dev".to_string(),
        build_date: "unset".to_string(),
        build_hash: "unset".to_string(),
        banners: Vec::new(),
        avatar_initial: current_user_name
            .as_deref()
            .and_then(|n| n.chars().next())
            .map(|c| c.to_uppercase().to_string())
            .unwrap_or_default(),
        current_user_name,
        current_user_email: None,
        avatar_gravatar_url: None,
        is_admin,
        login_url: "/auth/login?return_to=/".to_string(),
        logout_url: "/auth/logout".to_string(),
        admin_url: "/admin".to_string(),
        user_settings_url: "/users/profile".to_string(),
        tr: Tr::english(),
    }
}

#[test]
fn logged_out_shows_avatar_menu_with_mystery_man_and_log_in_item() {
    let html = template(None, false).render();
    assert!(html.contains(r#"href="/auth/login?return_to=/""#));
    assert!(html.contains("Log in"));
    assert!(!html.contains("Log out"));
    assert!(html.contains("avatar-menu-trigger"));
    assert!(html.contains("mystery-man.svg"));
    assert!(html.contains("avatar-menu-theme-row"));
}

#[test]
fn app_switcher_renders_with_four_destinations_and_no_admin_link() {
    let html = template(None, false).render();
    assert!(html.contains("app-switcher-trigger"));
    assert!(html.contains(r#"href="/">Main"#));
    assert!(html.contains(r#"href="/catalog">Catalog"#));
    assert!(html.contains(r#"href="/game-room">Game Room"#));
    assert!(html.contains(r#"href="/initiative">Initiative"#));
    assert!(!html.contains("app-switcher-item\" href=\"/admin\""));
}

#[test]
fn login_error_message_covers_every_known_reason_distinctly() {
    let known = ["denied", "expired", "unavailable", "forbidden"];
    let messages: Vec<&str> = known.iter().map(|r| login_error_message_key(r)).collect();
    let mut unique = messages.clone();
    unique.sort_unstable();
    unique.dedup();
    assert_eq!(unique.len(), known.len());
}

#[test]
fn login_error_message_falls_back_for_unrecognized_reason() {
    assert_eq!(login_error_message_key("1"), "login_error.generic");
    assert_eq!(
        login_error_message_key("<script>alert(1)</script>"),
        "login_error.generic"
    );
}

#[test]
fn every_login_error_key_resolves_to_english_copy() {
    let tr = Tr::english();
    for reason in [
        "denied",
        "expired",
        "unavailable",
        "forbidden",
        "anything-else",
    ] {
        let message = tr.get(login_error_message_key(reason));
        assert!(!message.is_empty());
        assert_ne!(message, login_error_message_key(reason), "missing key");
    }
}

#[test]
fn login_error_banner_renders_as_critical() {
    let mut tpl = template(None, false);
    tpl.banners.push(Banner {
        severity: "critical".to_string(),
        message: "Login failed. Please try again.".to_string(),
    });
    let html = tpl.render();
    assert!(html.contains("banner-critical"));
    assert!(html.contains("Login failed. Please try again."));
}

#[test]
fn logged_in_shows_avatar_menu_with_name_and_log_out_form() {
    let html = template(Some("Alice".to_string()), false).render();
    assert!(html.contains("Alice"));
    assert!(html.contains(r#"action="/auth/logout""#));
    assert!(html.contains("Log out"));
    assert!(!html.contains(">Log in<"));
    assert!(html.contains("avatar-menu-trigger"));
    assert!(html.contains("avatar-menu-item-danger"));
    assert!(!html.contains("mystery-man.svg"));
    assert!(html.contains("avatar-menu-theme-row"));
}

#[test]
fn logged_in_with_email_shows_it_as_a_subtitle() {
    let mut tpl = template(Some("Alice".to_string()), false);
    tpl.current_user_email = Some("alice@example.com".to_string());
    let html = tpl.render();
    assert!(html.contains("avatar-menu-email"));
    assert!(html.contains("alice@example.com"));
}

#[test]
fn logged_in_without_email_shows_no_subtitle() {
    let html = template(Some("Alice".to_string()), false).render();
    assert!(!html.contains("avatar-menu-email"));
}

#[test]
fn logged_in_shows_user_settings_but_not_admin_when_not_admin() {
    let html = template(Some("Alice".to_string()), false).render();
    assert!(html.contains(r#"href="/users/profile""#));
    assert!(!html.contains(r#"href="/admin""#));
}

#[test]
fn admin_session_shows_admin_link() {
    let html = template(Some("Alice".to_string()), true).render();
    assert!(html.contains(r#"href="/admin""#));
    assert!(html.contains(r#"href="/users/profile""#));
}

#[test]
fn gravatar_url_is_none_without_an_email() {
    assert_eq!(gravatar_url(None), None);
}

#[test]
fn gravatar_url_hashes_a_trimmed_lowercased_email_with_a_404_fallback() {
    let mixed_case = gravatar_url(Some(" Alice@Example.com ")).unwrap();
    let canonical = gravatar_url(Some("alice@example.com")).unwrap();
    assert_eq!(mixed_case, canonical);
    assert!(canonical.starts_with("https://www.gravatar.com/avatar/"));
    assert!(canonical.contains("d=404"));
}

#[test]
fn logged_in_with_email_renders_gravatar_img_with_onerror_fallback() {
    let mut tpl = template(Some("Alice".to_string()), false);
    tpl.avatar_gravatar_url = gravatar_url(Some("alice@example.com"));
    let html = tpl.render();
    assert!(html.contains("avatar-menu-avatar"));
    assert!(html.contains(
        "onerror=\"this.style.display='none'; this.nextElementSibling.style.display='flex';\""
    ));
    assert!(html.contains("avatar-menu-fallback"));
}

#[test]
fn logged_in_without_email_renders_only_the_fallback_letter() {
    let html = template(Some("Alice".to_string()), false).render();
    assert!(!html.contains("avatar-menu-avatar"));
    assert!(html.contains("avatar-menu-fallback"));
}

fn maintenance_mode(scope_type: &str, scope_value: &str) -> MaintenanceMode {
    MaintenanceMode {
        scope_type: scope_type.to_string(),
        scope_value: scope_value.to_string(),
        label: "Scheduled downtime".to_string(),
        description: "Upgrading the database.".to_string(),
        starts_at: "2026-08-01T00:00:00Z".to_string(),
        ends_at: Some("2026-08-01T04:00:00Z".to_string()),
    }
}

#[test]
fn service_scoped_maintenance_affects_only_that_card() {
    let mut apps = apps(&Tr::english());
    apply_maintenance(&mut apps, &[maintenance_mode("service", "catalog")]);

    let catalog = apps.iter().find(|a| a.name == "Catalogue").unwrap();
    assert!(catalog.maintenance.is_some());
    let others_unaffected = apps
        .iter()
        .filter(|a| a.name != "Catalogue")
        .all(|a| a.maintenance.is_none());
    assert!(others_unaffected);
}

#[test]
fn platform_scoped_maintenance_affects_every_card_with_a_service_scope() {
    let mut apps = apps(&Tr::english());
    apply_maintenance(&mut apps, &[maintenance_mode("platform", "")]);

    for app in &apps {
        assert_eq!(app.maintenance.is_some(), app.service_scope.is_some());
    }
}

#[test]
fn maintenance_badge_renders_with_tooltip() {
    let mut tpl = template(None, false);
    tpl.apps[0].maintenance = Some(MaintenanceBadge {
        label: "Scheduled downtime".to_string(),
        description: "Upgrading the database.".to_string(),
        starts_at: "2026-08-01T00:00:00Z".to_string(),
        ends_at: Some("2026-08-01T04:00:00Z".to_string()),
    });
    let html = tpl.render();
    assert!(html.contains("tag-danger"));
    assert!(html.contains("Scheduled downtime: Upgrading the database."));
    assert!(html.contains("2026-08-01T00:00:00Z - 2026-08-01T04:00:00Z"));
}

// --- further cases ----------------------------------------------------------

#[test]
fn service_record_takes_precedence_over_platform_record() {
    let mut apps = apps(&Tr::english());
    let mut platform = maintenance_mode("platform", "");
    platform.label = "Platform upgrade".to_string();
    let mut service = maintenance_mode("service", "game_room");
    service.label = "Game room fix".to_string();
    apply_maintenance(&mut apps, &[platform, service]);
    assert_eq!(apps[0].maintenance.as_ref().unwrap().label, "Platform upgrade");
    assert_eq!(apps[1].maintenance.as_ref().unwrap().label, "Game room fix");
    assert_eq!(apps[4].maintenance.as_ref().unwrap().label, "Platform upgrade");
}

#[test]
fn systems_card_never_shows_a_maintenance_badge() {
    let mut apps = apps(&Tr::english());
    apply_maintenance(
        &mut apps,
        &[maintenance_mode("platform", ""), maintenance_mode("service", "systems")],
    );
    let systems = apps.iter().find(|a| a.background == "systems-card-back.jpg").unwrap();
    assert!(systems.service_scope.is_none());
    assert!(systems.maintenance.is_none());
    assert!(apps[0].maintenance.is_some());
}

#[test]
fn admin_item_reads_administration() {
    let html = template(Some("Alice".to_string()), true).render();
    assert!(html.contains(r#"href="/admin">Administration</a>"#));
}

#[test]
fn no_records_leave_every_card_without_a_badge() {
    let mut apps = apps(&Tr::english());
    apply_maintenance(&mut apps, &[]);
    assert!(apps.iter().all(|a| a.maintenance.is_none()));
}

#[test]
fn card_without_scope_keeps_its_badge() {
    let mut apps = apps(&Tr::english());
    apps[2].service_scope = None;
    apps[2].maintenance = Some(MaintenanceBadge {
        label: "kept".to_string(),
        description: String::new(),
        starts_at: String::new(),
        ends_at: None,
    });
    apply_maintenance(&mut apps, &[maintenance_mode("platform", "")]);
    assert_eq!(apps[2].maintenance.as_ref().unwrap().label, "kept");
}

#[test]
fn maintenance_scopes_start_with_platform_then_card_scopes() {
    let apps = apps(&Tr::english());
    assert_eq!(
        maintenance_scopes(&apps),
        vec![
            "platform",
            "service:catalog",
            "service:game_room",
            "service:initiative",
            "service:users",
        ]
    );
}

#[test]
fn app_cards_list_the_suite_in_order() {
    let apps = apps(&Tr::english());
    let names: Vec<&str> = apps.iter().map(|a| a.name.as_str()).collect();
    assert_eq!(names, vec!["Catalogue", "Game Room", "Initiative!", "Systems", "Profile"]);
    let hrefs: Vec<&str> = apps.iter().map(|a| a.href).collect();
    assert_eq!(hrefs, vec!["/catalog", "/game-room", "#", "#", "#"]);
    for i in [1, 2, 3, 4] {
        assert!(apps[i].has_status);
        assert_eq!(apps[i].status, "Coming soon");
    }
    assert!(!apps[0].has_status && apps[0].status.is_empty());
    let scopes: Vec<Option<&str>> = apps.iter().map(|a| a.service_scope).collect();
    assert_eq!(
        scopes,
        vec![
            Some("service:catalog"),
            Some("service:game_room"),
            Some("service:initiative"),
            None,
            Some("service:users"),
        ]
    );
}

#[test]
fn gravatar_url_is_the_md5_of_the_email() {
    assert_eq!(
        gravatar_url(Some("MyEmailAddress@example.com ")).unwrap(),
        "https://www.gravatar.com/avatar/0bc83cb571cd1c50ba6f3e8a78ef1346?s=64&d=404"
    );
}

#[test]
fn admin_role_and_initial() {
    assert!(is_admin(&vec!["user".to_string(), "admin".to_string()]));
    assert!(!is_admin(&vec!["administrator".to_string()]));
    assert!(!is_admin(&Vec::new()));
    assert_eq!(avatar_initial("alice"), "A");
    assert_eq!(avatar_initial("ßen"), "SS");
    assert_eq!(avatar_initial(""), "");
}

#[test]
fn short_hash_keeps_eight_bytes() {
    assert_eq!(short_hash("0123456789abcdef"), "01234567");
    assert_eq!(short_hash("deadbeef"), "deadbeef");
    assert_eq!(short_hash("abc"), "abc");
    assert_eq!(short_hash("1234567é9"), "1234567é9");
}

#[test]
fn escaped_user_text_cannot_inject_markup() {
    let mut tpl = template(Some("<b>\"Eve\" & 'co'</b>".to_string()), false);
    tpl.banners.push(Banner {
        severity: "info".to_string(),
        message: "<script>".to_string(),
    });
    let html = tpl.render();
    assert!(html.contains("&lt;b&gt;&#34;Eve&#34; &amp; &#39;co&#39;&lt;/b&gt;"));
    assert!(html.contains("&lt;script&gt;"));
    assert!(!html.contains("<script>"));
}

fn empty_env() -> ConfigEnv {
    ConfigEnv {
        port: None,
        shared_url: None,
        otlp_endpoint: None,
        log_level: None,
        admin_api_url: None,
        shared_session_redis_host: None,
        shared_session_redis_port: None,
        shared_session_redis_db: None,
        shared_session_redis_pass: None,
        sentry_dsn: None,
        env: None,
    }
}

#[test]
fn landing_page_puts_a_login_error_banner_first_and_fills_the_visitor() {
    let config = Config::from_vars(empty_env());
    let info = BuildInfo::finish(None);
    let tr = Tr::english();
    let fetched = vec![Banner { severity: "info".to_string(), message: "Hello".to_string() }];
    let user = SessionUser {
        sub: "auth0|1".to_string(),
        name: "alice".to_string(),
        email: Some("alice@example.com".to_string()),
        roles: vec!["admin".to_string()],
    };
    let page = landing_page(
        &config,
        &info,
        tr.clone(),
        apps(&tr),
        &[maintenance_mode("service", "catalog")],
        fetched,
        Some("expired"),
        Some(user),
    );
    assert_eq!(page.banners.len(), 2);
    assert_eq!(page.banners[0].severity, "critical");
    assert_eq!(page.banners[0].message, tr.get("login_error.expired"));
    assert_eq!(page.banners[1].message, "Hello");
    assert_eq!(page.current_user_name.as_deref(), Some("alice"));
    assert_eq!(page.avatar_initial, "A");
    assert!(page.is_admin);
    assert_eq!(page.avatar_gravatar_url, gravatar_url(Some("alice@example.com")));
    assert!(page.apps[0].maintenance.is_some());
    assert!(page.apps[1].maintenance.is_none());
    assert_eq!(page.build_hash, "deadbeef");
    assert_eq!(page.version, "dev");
    assert_eq!(page.shared_url, "http://localhost:8081");
    assert_eq!(page.login_url, "/auth/login?return_to=/");
    let html = page.render();
    assert!(html.contains("banner-critical"));
    assert!(html.contains(r#"href="/admin""#));
}

#[test]
fn landing_page_for_an_anonymous_visitor() {
    let config = Config::from_vars(empty_env());
    let info = BuildInfo::finish(None);
    let tr = Tr::english();
    let page = landing_page(&config, &info, tr.clone(), apps(&tr), &[], Vec::new(), None, None);
    assert!(page.banners.is_empty());
    assert!(page.current_user_name.is_none());
    assert!(page.avatar_initial.is_empty());
    assert!(!page.is_admin);
    assert!(page.render().contains("mystery-man.svg"));
}
