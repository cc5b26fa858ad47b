use main_web::admin::{admin_request_url, plan_fetch, records_or_empty, AdminResource, Banner, FetchPlan, TtlCache, ADMIN_CACHE_TTL_MS};

#[test]
fn disabled_client_plans_no_request() {
    let cache: TtlCache<Vec<Banner>> = TtlCache::new(ADMIN_CACHE_TTL_MS);
    assert!(matches!(plan_fetch(None, &cache, 0, AdminResource::Banners, &vec!["platform"]), FetchPlan::Disabled));
}

#[test]
fn empty_cache_plans_a_request_to_the_endpoint() {
    let cache: TtlCache<Vec<Banner>> = TtlCache::new(ADMIN_CACHE_TTL_MS);
    match plan_fetch(
        Some("http://admin-api"),
        &cache,
        5,
        AdminResource::MaintenanceModes,
        &vec!["platform", "service:catalog"],
    ) {
        FetchPlan::Request(url) => assert_eq!(
            url,
            "http://admin-api/maintenance-modes/active?scope=platform&scope=service%3Acatalog"
        ),
        _ => panic!("expected a request"),
    }
    match plan_fetch(Some("http://a"), &cache, 5, AdminResource::AppCardStatuses, &Vec::new()) {
        // query_pairs_mut leaves an empty query behind when no pair is appended
        FetchPlan::Request(url) => assert_eq!(url, "http://a/app-card-statuses/active?"),
        _ => panic!("expected a request"),
    }
}

#[test]
fn cache_serves_a_stored_value_until_the_ttl_passes() {
    let mut cache: TtlCache<Vec<Banner>> = TtlCache::new(90_000);
    let banners = vec![Banner { severity: "info".to_string(), message: "hi".to_string() }];
    cache.store(1_000, banners);
    assert_eq!(cache.cached(1_000).unwrap()[0].message, "hi");
    assert!(cache.cached(90_999).is_some());
    assert!(cache.cached(91_000).is_none());
    assert!(cache.cached(500).is_some());
    assert!(matches!(plan_fetch(Some("http://a"), &cache, 2_000, AdminResource::Banners, &vec!["platform"]), FetchPlan::Cached));
    assert!(matches!(plan_fetch(Some("http://a"), &cache, 95_000, AdminResource::Banners, &vec!["platform"]), FetchPlan::Request(_)));
}

#[test]
fn failed_fetch_yields_no_records() {
    assert!(records_or_empty::<Banner>(None).is_empty());
    assert_eq!(records_or_empty(Some(vec![1, 2])), vec![1, 2]);
}

#[test]
fn finished_fetch_is_cached_and_returned() {
    let mut cache: TtlCache<Vec<u64>> = TtlCache::new(90_000);
    assert_eq!(cache.finish_fetch(1_000, Some(vec![7, 8])), &vec![7, 8]);
    assert_eq!(cache.cached(2_000), Some(&vec![7, 8]));
    assert!(matches!(plan_fetch(Some("http://a"), &cache, 2_000, AdminResource::Banners, &vec!["platform"]), FetchPlan::Cached));
}

#[test]
fn failed_fetch_is_cached_as_no_records() {
    let mut cache: TtlCache<Vec<u64>> = TtlCache::new(90_000);
    cache.store(0, vec![1]);
    assert!(cache.finish_fetch(5_000, None).is_empty());
    assert_eq!(cache.cached(6_000), Some(&Vec::new()));
    assert!(cache.cached(95_000).is_none());
}

#[test]
fn resources_name_their_paths_and_kinds() {
    assert_eq!(AdminResource::Banners.path(), "banners");
    assert_eq!(AdminResource::Banners.kind(), "banner");
    assert_eq!(AdminResource::MaintenanceModes.kind(), "maintenance-mode");
    assert_eq!(AdminResource::AppCardStatuses.kind(), "app-card-status");
}

#[test]
fn invalid_base_url_plans_no_request() {
    let cache: TtlCache<Vec<Banner>> = TtlCache::new(ADMIN_CACHE_TTL_MS);
    assert!(matches!(
        plan_fetch(Some("not a url"), &cache, 0, AdminResource::Banners, &vec!["platform"]),
        FetchPlan::InvalidUrl
    ));
}

#[test]
fn request_url_carries_one_scope_pair_per_scope() {
    assert_eq!(
        admin_request_url("http://admin-api:8080", AdminResource::Banners, &vec!["platform", "service:main"]).as_deref(),
        Some("http://admin-api:8080/banners?scope=platform&scope=service%3Amain")
    );
    assert_eq!(admin_request_url("", AdminResource::Banners, &vec!["platform"]), None);
}
