use ecs_sd::labels::LabelBuilder;
use ecs_sd::level::{FilterMode, MetadataLevel};
use ecs_sd::ecs::{Cluster, Service};
use ecs_sd::route::{build_proxy_sd_target, ProxyTarget};
use ecs_sd::sd::{
    authorize_refresh, cache_headers, cache_state, calculate_cache_age_seconds,
    extract_tag_filters_from_pairs, extract_values, filter_targets, params_from_query,
    parse_raw_query, refresh_retry_after_seconds, RefreshDenied, SdQueryParams, UnixTime,
};
use ecs_sd::strmap::StrMap;
use ecs_sd::target::{filter_labels_by_level, Labels, Target};
use uuid::Uuid;

fn labels_of(pairs: &[(&str, &str)]) -> Labels {
    let mut m: Labels = StrMap::new();
    for (k, v) in pairs {
        m.insert(k.to_string(), v.to_string());
    }
    m
}

fn create_test_target(cluster: &str, service: &str, family: &str) -> Target {
    Target {
        targets: vec!["10.0.0.1:8080".to_string()],
        labels: labels_of(&[
            ("__meta_ecs_cluster_name", cluster),
            ("__meta_ecs_service_name", service),
            ("__meta_ecs_task_family", family),
        ]),
    }
}

fn params(
    clusters: &[&str],
    services: &[&str],
    families: &[&str],
    level: Option<MetadataLevel>,
    filter_mode: FilterMode,
    tag_filters: &[(&str, &str)],
) -> SdQueryParams {
    SdQueryParams {
        clusters: clusters.iter().map(|s| s.to_string()).collect(),
        services: services.iter().map(|s| s.to_string()).collect(),
        families: families.iter().map(|s| s.to_string()).collect(),
        level,
        filter_mode,
        tag_filters: tag_filters.iter().map(|(k, v)| (k.to_string(), v.to_string())).collect(),
    }
}

fn at(secs: u64) -> UnixTime {
    UnixTime::from_secs(secs)
}

#[test]
fn test_filter_by_cluster() {
    let targets = vec![create_test_target("prod", "api", "api-task"), create_test_target("dev", "api", "api-task")];
    let p = params(&["prod"], &[], &[], Some(MetadataLevel::default()), FilterMode::And, &[]);
    let filtered = filter_targets(targets, &p);
    assert_eq!(filtered.len(), 1);
    assert_eq!(filtered[0].labels.get("__meta_ecs_cluster_name"), Some(&"prod".to_string()));
}

#[test]
fn test_filter_by_multiple_clusters() {
    let targets = vec![
        create_test_target("prod", "api", "api-task"),
        create_test_target("staging", "api", "api-task"),
        create_test_target("dev", "api", "api-task"),
    ];
    let p = params(&["prod", "staging"], &[], &[], Some(MetadataLevel::default()), FilterMode::And, &[]);
    let filtered = filter_targets(targets, &p);
    assert_eq!(filtered.len(), 2);
}

#[test]
fn test_filter_by_multiple_families() {
    let targets = vec![
        create_test_target("prod", "api", "api-task"),
        create_test_target("prod", "worker", "worker-task"),
        create_test_target("prod", "web", "web-task"),
    ];
    let p = params(&[], &[], &["api-task", "worker-task"], Some(MetadataLevel::default()), FilterMode::And, &[]);
    let filtered = filter_targets(targets, &p);
    assert_eq!(filtered.len(), 2);
}

#[test]
fn test_filter_case_sensitive() {
    let targets = vec![create_test_target("Prod", "api", "api-task")];
    let p = params(&["prod"], &[], &[], Some(MetadataLevel::default()), FilterMode::And, &[]);
    let filtered = filter_targets(targets, &p);
    assert_eq!(filtered.len(), 0);
}

#[test]
fn test_filter_and_logic() {
    let targets = vec![
        create_test_target("prod", "api", "api-task"),
        create_test_target("prod", "web", "web-task"),
        create_test_target("dev", "api", "api-task"),
    ];
    let p = params(&["prod"], &["api"], &[], Some(MetadataLevel::default()), FilterMode::And, &[]);
    let filtered = filter_targets(targets, &p);
    assert_eq!(filtered.len(), 1);
}

#[test]
fn test_filter_no_params() {
    let targets = vec![create_test_target("prod", "api", "api-task"), create_test_target("dev", "web", "web-task")];
    let p = params(&[], &[], &[], Some(MetadataLevel::default()), FilterMode::And, &[]);
    let filtered = filter_targets(targets, &p);
    assert_eq!(filtered.len(), 2);
}

#[test]
fn test_filter_by_cluster_with_legacy_label_schema() {
    let targets = vec![Target {
        targets: vec!["10.0.0.1:8080".to_string()],
        labels: labels_of(&[
            ("__meta_ecs_cluster", "prod"),
            ("__meta_ecs_service", "api"),
            ("__meta_ecs_task_family", "api-task"),
        ]),
    }];
    let p = params(&["prod"], &[], &[], Some(MetadataLevel::default()), FilterMode::And, &[]);
    let filtered = filter_targets(targets, &p);
    assert_eq!(filtered.len(), 1);
}

#[test]
fn test_filter_by_service_with_legacy_label_schema() {
    let targets = vec![Target {
        targets: vec!["10.0.0.1:8080".to_string()],
        labels: labels_of(&[
            ("__meta_ecs_cluster", "prod"),
            ("__meta_ecs_service", "api"),
            ("__meta_ecs_task_family", "api-task"),
        ]),
    }];
    let p = params(&[], &["api"], &[], Some(MetadataLevel::default()), FilterMode::And, &[]);
    let filtered = filter_targets(targets, &p);
    assert_eq!(filtered.len(), 1);
}

#[test]
fn test_filter_targets_with_labels_from_label_builder() {
    let service = Service {
        service_name: Some("api".to_string()),
        service_arn: Some("arn:aws:ecs:eu-west-1:123456789012:service/prod/api".to_string()),
        status: Some("ACTIVE".to_string()),
        desired_count: 2,
        running_count: 2,
        tags: Vec::new(),
    };
    let cluster = Cluster {
        cluster_name: Some("prod".to_string()),
        cluster_arn: Some("arn:aws:ecs:eu-west-1:123456789012:cluster/prod".to_string()),
        tags: Vec::new(),
    };
    let labels = LabelBuilder::new(MetadataLevel::Cluster).with_service(&service).with_cluster(&cluster).build();
    let targets = vec![Target { targets: vec!["10.0.0.1:8080".to_string()], labels }];
    let p = params(&["prod"], &["api"], &[], Some(MetadataLevel::default()), FilterMode::And, &[]);
    let filtered = filter_targets(targets, &p);
    assert_eq!(filtered.len(), 1);
}

#[test]
fn test_cache_age_seconds_from_system_times() {
    let age = calculate_cache_age_seconds(&at(88), &at(100));
    assert_eq!(age, 12);
}

#[test]
fn test_sd_response_includes_cache_age_header() {
    let headers = cache_headers(7, "fresh");
    let header = headers.iter().find(|(k, _)| k == "X-Cache-Age").expect("X-Cache-Age header must be present");
    assert_eq!(header.1, "7");
}

#[test]
fn ttl_within_interval_marks_fresh() {
    let cache_age_seconds = calculate_cache_age_seconds(&at(75), &at(100));
    let headers = cache_headers(cache_age_seconds, cache_state(cache_age_seconds, 30));
    let state = headers.iter().find(|(k, _)| k == "X-Cache-State").expect("X-Cache-State header must be present");
    assert_eq!(state.1, "fresh");
}

#[test]
fn ttl_beyond_interval_marks_stale() {
    let cache_age_seconds = calculate_cache_age_seconds(&at(10), &at(100));
    let headers = cache_headers(cache_age_seconds, cache_state(cache_age_seconds, 30));
    let state = headers.iter().find(|(k, _)| k == "X-Cache-State").expect("X-Cache-State header must be present");
    assert_eq!(state.1, "stale");
}

#[test]
fn test_cache_age_exactly_at_ttl_is_fresh() {
    let age = calculate_cache_age_seconds(&at(70), &at(100));
    assert_eq!(age, 30);
    assert_eq!(cache_state(age, 30), "fresh", "age == ttl must be classified as fresh");
}

#[test]
fn test_cache_age_one_second_past_ttl_is_stale() {
    let age = calculate_cache_age_seconds(&at(69), &at(100));
    assert_eq!(age, 31);
    assert_eq!(cache_state(age, 30), "stale");
}

#[test]
fn test_cache_age_clock_skew_returns_zero() {
    let age = calculate_cache_age_seconds(&at(100), &at(50));
    assert_eq!(age, 0);
}

#[test]
fn cache_age_counts_whole_seconds_across_nanoseconds() {
    let age = calculate_cache_age_seconds(&UnixTime::new(10, 900_000_000), &UnixTime::new(12, 100_000_000));
    assert_eq!(age, 1);
    let age = calculate_cache_age_seconds(&UnixTime::new(10, 100_000_000), &UnixTime::new(12, 100_000_000));
    assert_eq!(age, 2);
    let age = calculate_cache_age_seconds(&UnixTime::new(10, 500), &UnixTime::new(10, 400));
    assert_eq!(age, 0);
}

#[test]
fn authorize_refresh_returns_service_unavailable_when_token_missing() {
    let result = authorize_refresh(None, Some("provided"));
    assert!(result.is_err());
    let denied = result.err().unwrap();
    assert_eq!(denied.status_code(), 503);
    assert_eq!(denied.error_text(), "refresh endpoint disabled");
    assert_eq!(denied.reason(), Some("refresh token not configured"));
}

#[test]
fn authorize_refresh_rejects_missing_or_invalid_token() {
    let missing = authorize_refresh(Some("secret"), None);
    assert!(missing.is_err());
    assert_eq!(missing.err().unwrap().status_code(), 401);

    let wrong = authorize_refresh(Some("secret"), Some("wrong"));
    assert!(wrong.is_err());
    assert_eq!(wrong.err().unwrap(), RefreshDenied::Unauthorized);
    assert_eq!(RefreshDenied::Unauthorized.error_text(), "unauthorized");
}

#[test]
fn authorize_refresh_accepts_matching_token() {
    let result = authorize_refresh(Some("secret"), Some("secret"));
    assert!(result.is_ok());
}

#[test]
fn refresh_retry_after_seconds_returns_none_when_interval_elapsed() {
    let retry = refresh_retry_after_seconds(60, 100, 30);
    assert_eq!(retry, None);
}

#[test]
fn refresh_retry_after_seconds_returns_remaining_when_rate_limited() {
    let retry = refresh_retry_after_seconds(95, 100, 30);
    assert_eq!(retry, Some(25));
}

#[test]
fn refresh_retry_after_seconds_handles_clock_skew() {
    let retry = refresh_retry_after_seconds(100, 50, 30);
    assert_eq!(retry, Some(30));
}

fn proxy_target(uuid: &Uuid, labels: Labels) -> ProxyTarget {
    ProxyTarget { address: "10.0.0.1:8080".to_string(), route_id: uuid.as_u128(), labels }
}

#[test]
fn sd_proxy_mode_returns_public_address_as_target() {
    let uuid = Uuid::new_v5(&Uuid::NAMESPACE_URL, b"test-target");
    let pt = proxy_target(&uuid, StrMap::new());
    let target = build_proxy_sd_target(uuid.as_u128(), &pt, "ecs-sd.internal:8080", "https");
    assert_eq!(target.targets, vec!["ecs-sd.internal:8080"]);
}

#[test]
fn sd_proxy_mode_sets_metrics_path_label() {
    let uuid = Uuid::new_v5(&Uuid::NAMESPACE_URL, b"test-target");
    let pt = proxy_target(&uuid, StrMap::new());
    let target = build_proxy_sd_target(uuid.as_u128(), &pt, "ecs-sd.internal:8080", "https");
    let expected_path = format!("/proxy/{}/metrics", uuid);
    assert_eq!(target.labels.get("__metrics_path__"), Some(&expected_path));
}

#[test]
fn sd_proxy_mode_target_has_no_original_address() {
    let uuid = Uuid::new_v5(&Uuid::NAMESPACE_URL, b"test-target");
    let pt = proxy_target(&uuid, StrMap::new());
    let target = build_proxy_sd_target(uuid.as_u128(), &pt, "ecs-sd.internal:8080", "https");
    assert!(!target.targets.contains(&"10.0.0.5:8080".to_string()));
}

#[test]
fn sd_proxy_mode_preserves_meta_labels() {
    let uuid = Uuid::new_v5(&Uuid::NAMESPACE_URL, b"test-target");
    let labels = labels_of(&[("__meta_ecs_task_family", "o11y-bot"), ("__meta_ecs_container_name", "ingestion")]);
    let pt = proxy_target(&uuid, labels);
    let target = build_proxy_sd_target(uuid.as_u128(), &pt, "ecs-sd.internal:8080", "https");
    assert_eq!(target.labels.get("__meta_ecs_task_family"), Some(&"o11y-bot".to_string()));
    assert_eq!(target.labels.get("__meta_ecs_container_name"), Some(&"ingestion".to_string()));
    assert!(target.labels.contains_key("__metrics_path__"));
}

#[test]
fn sd_proxy_mode_sets_scheme_from_public_address() {
    let uuid = Uuid::new_v5(&Uuid::NAMESPACE_URL, b"test-target");
    let pt = proxy_target(&uuid, StrMap::new());
    let target = build_proxy_sd_target(uuid.as_u128(), &pt, "ecs-sd.internal:443", "https");
    assert_eq!(target.labels.get("__scheme__"), Some(&"https".to_string()));
}

#[test]
fn sd_proxy_mode_filters_by_cluster_service_and_family() {
    let mk_target = |cluster: &str, service: &str, family: &str| {
        let uuid = Uuid::new_v5(&Uuid::NAMESPACE_URL, format!("{}:{}:{}", cluster, service, family).as_bytes());
        let labels = labels_of(&[
            ("__meta_ecs_cluster_name", cluster),
            ("__meta_ecs_service_name", service),
            ("__meta_ecs_task_family", family),
        ]);
        let pt = proxy_target(&uuid, labels);
        build_proxy_sd_target(uuid.as_u128(), &pt, "ecs-sd.internal:8080", "http")
    };

    let targets = vec![
        mk_target("prod", "api", "api-task"),
        mk_target("prod", "worker", "worker-task"),
        mk_target("dev", "api", "api-task"),
    ];
    let p = params(&["prod"], &["api"], &["api-task"], Some(MetadataLevel::Aws), FilterMode::And, &[]);
    let filtered = filter_targets(targets, &p);

    assert_eq!(filtered.len(), 1);
    assert_eq!(filtered[0].labels.get("__meta_ecs_cluster_name"), Some(&"prod".to_string()));
    assert_eq!(filtered[0].labels.get("__meta_ecs_service_name"), Some(&"api".to_string()));
    assert_eq!(filtered[0].labels.get("__meta_ecs_task_family"), Some(&"api-task".to_string()));
}

#[test]
fn sd_proxy_mode_level_filtering_can_remove_filter_labels() {
    let uuid = Uuid::new_v5(&Uuid::NAMESPACE_URL, b"proxy-level-filter");
    let labels = labels_of(&[
        ("__meta_ecs_cluster_name", "prod"),
        ("__meta_ecs_service_name", "api"),
        ("__meta_ecs_task_family", "api-task"),
    ]);
    let pt = proxy_target(&uuid, labels);
    let target = build_proxy_sd_target(uuid.as_u128(), &pt, "ecs-sd.internal:8080", "http");
    let container_level_target = filter_labels_by_level(&target, MetadataLevel::Container);

    let p = params(&["prod"], &[], &[], Some(MetadataLevel::Container), FilterMode::And, &[]);
    let filtered = filter_targets(vec![container_level_target], &p);
    assert_eq!(filtered.len(), 0, "cluster filter cannot match after container-level label filtering");
}

#[test]
fn test_extract_tag_filters_allows_multiple_same_tag() {
    let pairs = parse_raw_query(Some("tag_task_env=prod&tag_task_env=staging&cluster=prod"));
    let filters = extract_tag_filters_from_pairs(&pairs);
    assert_eq!(
        filters,
        vec![("task_env".to_string(), "prod".to_string()), ("task_env".to_string(), "staging".to_string())]
    );
}

fn tag_target(addr: &str, tags: &[(&str, &str)]) -> Target {
    Target { targets: vec![addr.to_string()], labels: labels_of(tags) }
}

#[test]
fn test_filter_same_tag_key_is_or() {
    let targets = vec![
        tag_target("10.0.0.1:8080", &[("__meta_ecs_tag_env", "prod")]),
        tag_target("10.0.0.2:8080", &[("__meta_ecs_tag_env", "staging")]),
        tag_target("10.0.0.3:8080", &[("__meta_ecs_tag_env", "dev")]),
    ];
    let p = params(&[], &[], &[], None, FilterMode::And, &[("env", "prod"), ("env", "staging")]);
    let filtered = filter_targets(targets, &p);
    assert_eq!(filtered.len(), 2, "prod and staging should both match");
}

#[test]
fn test_filter_different_tag_keys_are_and() {
    let targets = vec![
        tag_target("10.0.0.1:8080", &[("__meta_ecs_tag_env", "prod"), ("__meta_ecs_tag_team", "obs")]),
        tag_target("10.0.0.2:8080", &[("__meta_ecs_tag_env", "prod")]),
    ];
    let p = params(&[], &[], &[], None, FilterMode::And, &[("env", "prod"), ("team", "obs")]);
    let filtered = filter_targets(targets, &p);
    assert_eq!(filtered.len(), 1, "only target with both tags should match");
}

#[test]
fn test_filter_mixed_tag_or_and() {
    let targets = vec![
        tag_target("10.0.0.1:8080", &[("__meta_ecs_tag_env", "prod"), ("__meta_ecs_tag_team", "obs")]),
        tag_target("10.0.0.2:8080", &[("__meta_ecs_tag_env", "staging"), ("__meta_ecs_tag_team", "obs")]),
        tag_target("10.0.0.3:8080", &[("__meta_ecs_tag_env", "prod"), ("__meta_ecs_tag_team", "platform")]),
    ];
    let p = params(&[], &[], &[], None, FilterMode::And, &[("env", "prod"), ("env", "staging"), ("team", "obs")]);
    let filtered = filter_targets(targets, &p);
    assert_eq!(filtered.len(), 2, "prod+obs and staging+obs should match; prod+platform should not");
}

#[test]
fn test_filter_tag_filters_default_and() {
    let targets = vec![
        tag_target("10.0.0.1:8080", &[("__meta_ecs_tag_task_env", "prod"), ("__meta_ecs_tag_task_team", "obs")]),
        tag_target("10.0.0.2:8080", &[("__meta_ecs_tag_task_env", "prod")]),
    ];
    let p = params(&[], &[], &[], Some(MetadataLevel::Aws), FilterMode::And, &[("task_env", "prod"), ("task_team", "obs")]);
    let filtered = filter_targets(targets, &p);
    assert_eq!(filtered.len(), 1);
    assert_eq!(filtered[0].targets, vec!["10.0.0.1:8080".to_string()]);
}

#[test]
fn test_filter_or_mode_with_mixed_filters() {
    let targets = vec![
        tag_target("10.0.0.1:8080", &[("__meta_ecs_cluster_name", "prod"), ("__meta_ecs_tag_task_team", "obs")]),
        tag_target("10.0.0.2:8080", &[("__meta_ecs_cluster_name", "dev"), ("__meta_ecs_tag_task_team", "platform")]),
    ];
    let p = params(&["prod"], &[], &[], Some(MetadataLevel::Aws), FilterMode::Or, &[("task_team", "platform")]);
    let filtered = filter_targets(targets, &p);
    assert_eq!(filtered.len(), 2);
}

#[test]
fn query_pairs_build_the_request_filters() {
    let p = params_from_query(
        Some(MetadataLevel::Service),
        FilterMode::Or,
        Some("cluster=a&cluster=b&service=api&family=f%20x&tag_env=prod&level=service"),
    );
    assert_eq!(p.clusters, vec!["a".to_string(), "b".to_string()]);
    assert_eq!(p.services, vec!["api".to_string()]);
    assert_eq!(p.families, vec!["f x".to_string()]);
    assert_eq!(p.tag_filters, vec![("env".to_string(), "prod".to_string())]);
    assert_eq!(p.level, Some(MetadataLevel::Service));
    assert_eq!(p.filter_mode, FilterMode::Or);

    let none = params_from_query(None, FilterMode::And, None);
    assert!(none.clusters.is_empty() && none.tag_filters.is_empty());
    let pairs = vec![("cluster".to_string(), "x".to_string()), ("other".to_string(), "y".to_string())];
    assert_eq!(extract_values(&pairs, "other"), vec!["y".to_string()]);
}

#[test]
fn default_params_keep_everything() {
    let p = SdQueryParams::default();
    let targets = vec![create_test_target("prod", "api", "api-task"), Target::new("10.0.0.9", 80, StrMap::new())];
    assert_eq!(filter_targets(targets, &p).len(), 2);
}

#[test]
fn filtering_twice_keeps_the_same_targets() {
    let p = params(&["prod"], &[], &[], None, FilterMode::And, &[]);
    let targets = vec![create_test_target("prod", "api", "a"), create_test_target("dev", "api", "a")];
    let once = filter_targets(targets, &p);
    let n = once.len();
    let twice = filter_targets(once, &p);
    assert_eq!(twice.len(), n);
}

fn addresses(ts: &[Target]) -> Vec<String> {
    ts.iter().map(|t| t.targets[0].clone()).collect()
}

fn spread_targets() -> Vec<Target> {
    let mk = |addr: &str, cluster: &str, service: &str| Target {
        targets: vec![addr.to_string()],
        labels: labels_of(&[("__meta_ecs_cluster_name", cluster), ("__meta_ecs_service_name", service)]),
    };
    vec![
        mk("10.0.0.1:80", "prod", "api"),
        mk("10.0.0.2:80", "dev", "api"),
        mk("10.0.0.3:80", "prod", "worker"),
        mk("10.0.0.4:80", "staging", "api"),
    ]
}

#[test]
fn another_cluster_value_widens_the_result() {
    let narrow = params(&["prod"], &["api"], &[], None, FilterMode::And, &[]);
    let wide = params(&["prod", "dev"], &["api"], &[], None, FilterMode::And, &[]);
    let a = addresses(&filter_targets(spread_targets(), &narrow));
    let b = addresses(&filter_targets(spread_targets(), &wide));
    assert_eq!(a, vec!["10.0.0.1:80".to_string()]);
    assert_eq!(b, vec!["10.0.0.1:80".to_string(), "10.0.0.2:80".to_string()]);
}

#[test]
fn another_filter_field_narrows_the_result() {
    let one = params(&["prod"], &[], &[], None, FilterMode::And, &[]);
    let two = params(&["prod"], &["api"], &[], None, FilterMode::And, &[]);
    let a = addresses(&filter_targets(spread_targets(), &one));
    let b = addresses(&filter_targets(spread_targets(), &two));
    assert_eq!(a, vec!["10.0.0.1:80".to_string(), "10.0.0.3:80".to_string()]);
    assert_eq!(b, vec!["10.0.0.1:80".to_string()]);
}

#[test]
fn a_value_placed_first_widens_the_result_too() {
    let narrow = params(&["prod"], &[], &[], None, FilterMode::And, &[("team", "obs")]);
    let wide = params(&["staging", "prod"], &[], &[], None, FilterMode::And, &[("team", "obs")]);
    let tag = |addr: &str, cluster: &str| Target {
        targets: vec![addr.to_string()],
        labels: labels_of(&[("__meta_ecs_cluster_name", cluster), ("__meta_ecs_tag_team", "obs")]),
    };
    let ts = || vec![tag("10.0.0.1:80", "prod"), tag("10.0.0.2:80", "staging"), tag("10.0.0.3:80", "dev")];
    assert_eq!(addresses(&filter_targets(ts(), &narrow)), vec!["10.0.0.1:80".to_string()]);
    assert_eq!(
        addresses(&filter_targets(ts(), &wide)),
        vec!["10.0.0.1:80".to_string(), "10.0.0.2:80".to_string()]
    );
    let with_tag_first = params(&["prod"], &[], &[], None, FilterMode::And, &[("env", "prod"), ("team", "obs")]);
    assert_eq!(addresses(&filter_targets(ts(), &with_tag_first)).len(), 0);
}
