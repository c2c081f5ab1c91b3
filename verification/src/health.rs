//! What the health, readiness and liveness endpoints answer.
use vstd::prelude::*;
use crate::config::ClusterMode;
use crate::state::RefreshOutcome;

verus! {

/// The answer of the health endpoint.
pub struct HealthResponse {
    pub status: &'static str,
    pub version: &'static str,
    pub uptime_seconds: u64,
    pub cache: CacheHealth,
    pub cluster: ClusterHealth,
    pub last_refresh: LastRefreshHealth,
}

/// The state of the target cache.
pub struct CacheHealth {
    pub targets: usize,
    pub age_seconds: u64,
    pub state: &'static str,
}

/// The state of the gossip cluster.
pub struct ClusterHealth {
    pub mode: &'static str,
    pub nodes: usize,
    pub is_leader: bool,
}

/// The outcome of the latest refresh.
pub struct LastRefreshHealth {
    pub status: &'static str,
    pub timestamp: Option<u64>,
}

/// The overall health: healthy once targets are cached and the latest
/// refresh succeeded, degraded when targets are cached but the latest
/// refresh failed or none is known, starting while no target is cached.
pub open spec fn health_status(target_count: usize, last_outcome: Option<RefreshOutcome>) -> (
    Seq<char>,
    u16,
) {
    if target_count > 0 {
        match last_outcome {
            Some(o) => if o.success {
                ("healthy"@, 200)
            } else {
                ("degraded"@, 200)
            },
            None => ("degraded"@, 200),
        }
    } else {
        match last_outcome {
            Some(o) => if o.success {
                ("starting"@, 200)
            } else {
                ("starting"@, 503)
            },
            None => ("starting"@, 200),
        }
    }
}

/// The health status and HTTP status of the service.
pub fn determine_health_status(target_count: usize, last_outcome: &Option<RefreshOutcome>) -> (r: (
    &'static str,
    u16,
))
    ensures
        (r.0@, r.1) == health_status(target_count, *last_outcome),
{
    if target_count > 0 {
        match last_outcome {
            Some(o) => if o.success {
                ("healthy", 200)
            } else {
                ("degraded", 200)
            },
            None => ("degraded", 200),
        }
    } else {
        match last_outcome {
            Some(o) => if o.success {
                ("starting", 200)
            } else {
                ("starting", 503)
            },
            None => ("starting", 200),
        }
    }
}

/// Ready once some target is cached.
pub fn determine_readiness_status(target_count: usize) -> (r: (&'static str, u16))
    ensures
        target_count > 0 ==> r.0@ == "ready"@ && r.1 == 200,
        target_count == 0 ==> r.0@ == "not_ready"@ && r.1 == 503,
{
    if target_count > 0 {
        ("ready", 200)
    } else {
        ("not_ready", 503)
    }
}

/// The status the liveness endpoint reports: the process answers.
pub fn live_status() -> (r: &'static str)
    ensures
        r@ == "alive"@,
{
    "alive"
}

/// The name of a cluster mode.
pub fn cluster_mode_name(mode: ClusterMode) -> (r: &'static str)
    ensures
        mode == ClusterMode::Standalone ==> r@ == "standalone"@,
        mode == ClusterMode::Cluster ==> r@ == "cluster"@,
{
    match mode {
        ClusterMode::Standalone => "standalone",
        ClusterMode::Cluster => "cluster",
    }
}

/// The answer of the health endpoint.  The cache age is reported only while
/// targets are cached; the latest refresh is `ok`, `failed` or `never`.
pub fn build_health_response(
    version: &'static str,
    uptime_seconds: u64,
    target_count: usize,
    cache_age_seconds: u64,
    cluster_mode: ClusterMode,
    cluster_nodes: usize,
    is_leader: bool,
    last_outcome: &Option<RefreshOutcome>,
) -> (r: HealthResponse)
    ensures
        r.status@ == health_status(target_count, *last_outcome).0,
        r.version == version,
        r.uptime_seconds == uptime_seconds,
        r.cache.targets == target_count,
        r.cache.age_seconds == if target_count > 0 {
            cache_age_seconds
        } else {
            0
        },
        r.cache.state@ == if target_count > 0 {
            "populated"@
        } else {
            "empty"@
        },
        cluster_mode == ClusterMode::Standalone ==> r.cluster.mode@ == "standalone"@,
        cluster_mode == ClusterMode::Cluster ==> r.cluster.mode@ == "cluster"@,
        r.cluster.nodes == cluster_nodes,
        r.cluster.is_leader == is_leader,
        r.last_refresh.status@ == match *last_outcome {
            Some(o) => if o.success {
                "ok"@
            } else {
                "failed"@
            },
            None => "never"@,
        },
        r.last_refresh.timestamp == match *last_outcome {
            Some(o) => Some(o.timestamp_unix),
            None => None::<u64>,
        },
{
    let (status, _) = determine_health_status(target_count, last_outcome);
    let (last_status, last_timestamp): (&'static str, Option<u64>) = match last_outcome {
        Some(o) => if o.success {
            ("ok", Some(o.timestamp_unix))
        } else {
            ("failed", Some(o.timestamp_unix))
        },
        None => ("never", None),
    };
    HealthResponse {
        status,
        version,
        uptime_seconds,
        cache: CacheHealth {
            targets: target_count,
            age_seconds: if target_count > 0 {
                cache_age_seconds
            } else {
                0
            },
            state: if target_count > 0 {
                "populated"
            } else {
                "empty"
            },
        },
        cluster: ClusterHealth {
            mode: cluster_mode_name(cluster_mode),
            nodes: cluster_nodes,
            is_leader,
        },
        last_refresh: LastRefreshHealth { status: last_status, timestamp: last_timestamp },
    }
}

/// A service that has cached targets is never reported as unavailable.
pub proof fn lemma_cached_targets_keep_service_available(
    target_count: usize,
    last_outcome: Option<RefreshOutcome>,
)
    requires
        target_count > 0,
    ensures
        health_status(target_count, last_outcome).1 == 200,
{
}

/// The service is reported unavailable only while nothing is cached and the
/// latest refresh failed.
pub proof fn lemma_unavailable_only_when_empty_and_failed(
    target_count: usize,
    last_outcome: Option<RefreshOutcome>,
)
    ensures
        health_status(target_count, last_outcome).1 == 503 <==> (target_count == 0
            && last_outcome is Some && !last_outcome.unwrap().success),
{
}

} // verus!
