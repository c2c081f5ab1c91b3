use ecs_sd::config::ClusterMode;
use ecs_sd::health::{
    build_health_response, determine_health_status, determine_readiness_status, live_status,
    CacheHealth, ClusterHealth, HealthResponse, LastRefreshHealth,
};
use ecs_sd::state::RefreshOutcome;

#[test]
fn determine_health_status_healthy_when_populated_and_success() {
    let outcome = Some(RefreshOutcome { success: true, timestamp_unix: 100 });
    let (status, code) = determine_health_status(5, &outcome);
    assert_eq!(status, "healthy");
    assert_eq!(code, 200);
}

#[test]
fn determine_health_status_degraded_when_populated_and_failed() {
    let outcome = Some(RefreshOutcome { success: false, timestamp_unix: 100 });
    let (status, code) = determine_health_status(5, &outcome);
    assert_eq!(status, "degraded");
    assert_eq!(code, 200);
}

#[test]
fn determine_health_status_degraded_when_populated_and_no_outcome() {
    let (status, code) = determine_health_status(5, &None);
    assert_eq!(status, "degraded");
    assert_eq!(code, 200);
}

#[test]
fn determine_health_status_starting_503_when_empty_and_failed() {
    let outcome = Some(RefreshOutcome { success: false, timestamp_unix: 100 });
    let (status, code) = determine_health_status(0, &outcome);
    assert_eq!(status, "starting");
    assert_eq!(code, 503);
}

#[test]
fn determine_health_status_starting_200_when_empty_and_success() {
    let outcome = Some(RefreshOutcome { success: true, timestamp_unix: 100 });
    let (status, code) = determine_health_status(0, &outcome);
    assert_eq!(status, "starting");
    assert_eq!(code, 200);
}

#[test]
fn determine_health_status_starting_200_when_empty_and_no_outcome() {
    let (status, code) = determine_health_status(0, &None);
    assert_eq!(status, "starting");
    assert_eq!(code, 200);
}

#[test]
fn determine_readiness_status_ready_when_targets_present() {
    let (status, code) = determine_readiness_status(3);
    assert_eq!(status, "ready");
    assert_eq!(code, 200);
}

#[test]
fn determine_readiness_status_not_ready_when_empty() {
    let (status, code) = determine_readiness_status(0);
    assert_eq!(status, "not_ready");
    assert_eq!(code, 503);
}

#[test]
fn health_live_handler_returns_alive_status() {
    assert_eq!(live_status(), "alive");
}

#[test]
fn health_response_serializes_all_expected_keys() {
    let response = HealthResponse {
        status: "healthy",
        version: "0.5.0",
        uptime_seconds: 42,
        cache: CacheHealth { targets: 5, age_seconds: 10, state: "populated" },
        cluster: ClusterHealth { mode: "standalone", nodes: 1, is_leader: true },
        last_refresh: LastRefreshHealth { status: "ok", timestamp: Some(1_234_567_890) },
    };
    assert_eq!(response.status, "healthy");
    assert_eq!(response.version, "0.5.0");
    assert_eq!(response.uptime_seconds, 42);
    assert_eq!(response.cache.targets, 5);
    assert_eq!(response.cache.age_seconds, 10);
    assert_eq!(response.cache.state, "populated");
    assert_eq!(response.cluster.mode, "standalone");
    assert_eq!(response.cluster.nodes, 1);
    assert!(response.cluster.is_leader);
    assert_eq!(response.last_refresh.status, "ok");
    assert_eq!(response.last_refresh.timestamp, Some(1_234_567_890));
}

#[test]
fn health_response_reports_cache_and_refresh() {
    let failed = Some(RefreshOutcome { success: false, timestamp_unix: 77 });
    let r = build_health_response("1.0.0", 9, 0, 500, ClusterMode::Cluster, 3, false, &failed);
    assert_eq!(r.status, "starting");
    assert_eq!(r.cache.age_seconds, 0);
    assert_eq!(r.cache.state, "empty");
    assert_eq!(r.cluster.mode, "cluster");
    assert_eq!(r.last_refresh.status, "failed");
    assert_eq!(r.last_refresh.timestamp, Some(77));

    let r = build_health_response("1.0.0", 9, 4, 12, ClusterMode::Standalone, 1, true, &None);
    assert_eq!(r.status, "degraded");
    assert_eq!(r.cache.age_seconds, 12);
    assert_eq!(r.cache.state, "populated");
    assert_eq!(r.last_refresh.status, "never");
    assert_eq!(r.last_refresh.timestamp, None);
}
