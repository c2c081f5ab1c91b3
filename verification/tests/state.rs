use ecs_sd::config::Mode;
use ecs_sd::level::MetadataLevel;
use ecs_sd::sd::UnixTime;
use ecs_sd::state::{
    build_snapshot, cache_ttl_seconds, per_cluster_gauge_values, per_cluster_target_counts,
    target_address_churn, target_addresses, CacheSnapshot,
};
use ecs_sd::strmap::StrMap;
use ecs_sd::target::{Labels, Target};

fn labels_of(pairs: &[(&str, &str)]) -> Labels {
    let mut m: Labels = StrMap::new();
    for (k, v) in pairs {
        m.insert(k.to_string(), v.to_string());
    }
    m
}

fn strings(v: &[&str]) -> Vec<String> {
    v.iter().map(|s| s.to_string()).collect()
}

fn two_targets() -> Vec<Target> {
    vec![
        Target {
            targets: vec!["10.0.0.1:8080".to_string()],
            labels: labels_of(&[
                ("__meta_ecs_task_arn", "arn:aws:ecs:us-east-1:123:task/cluster/task1"),
                ("__meta_ecs_container_name", "app1"),
                ("__meta_ecs_cluster_name", "prod"),
                ("__meta_ecs_service_name", "api"),
                ("__meta_ecs_task_family", "api-task"),
            ]),
        },
        Target {
            targets: vec!["10.0.0.2:8080".to_string()],
            labels: labels_of(&[
                ("__meta_ecs_task_arn", "arn:aws:ecs:us-east-1:123:task/cluster/task2"),
                ("__meta_ecs_container_name", "app2"),
                ("__meta_ecs_cluster_name", "prod"),
                ("__meta_ecs_service_name", "worker"),
                ("__meta_ecs_task_family", "worker-task"),
            ]),
        },
    ]
}

#[test]
fn build_snapshot_produces_consistent_tiers() {
    let targets = two_targets();
    let n = targets.len();
    let snap = build_snapshot(targets, Mode::Proxy, UnixTime::from_secs(1_000));

    assert_eq!(snap.targets_at(MetadataLevel::Aws).len(), n, "Aws tier must contain all input targets");
    for level in [
        MetadataLevel::Aws,
        MetadataLevel::Cluster,
        MetadataLevel::Service,
        MetadataLevel::Task,
        MetadataLevel::Container,
    ] {
        assert_eq!(snap.targets_at(level).len(), n, "tier {:?} must be present", level);
    }
    assert!(snap.routing_table.len() > 0, "routing_table must be non-empty in proxy mode");
    assert_eq!(snap.routing_table.len(), n, "routing_table size must match input count");
}

#[test]
fn snapshot_outside_proxy_mode_has_no_routes() {
    let snap = build_snapshot(two_targets(), Mode::Discovery, UnixTime::from_secs(5));
    assert_eq!(snap.routing_table.len(), 0);
    assert_eq!(snap.last_refresh.secs(), 5);
    let container = snap.targets_at(MetadataLevel::Container);
    assert!(container[0].labels.contains_key("__meta_ecs_container_name"));
    assert!(!container[0].labels.contains_key("__meta_ecs_cluster_name"));
    let empty = CacheSnapshot::empty();
    assert!(empty.targets_at(MetadataLevel::Aws).is_empty());
}

#[test]
fn per_cluster_target_counts_groups_by_cluster_and_counts_addresses() {
    let targets = vec![
        Target { targets: vec!["10.0.0.1:8080".to_string()], labels: labels_of(&[("__meta_ecs_cluster_name", "prod")]) },
        Target { targets: vec!["10.0.0.2:8080".to_string()], labels: labels_of(&[("__meta_ecs_cluster_name", "prod")]) },
    ];
    let counts = per_cluster_target_counts(&targets);
    assert_eq!(counts.get("prod"), Some(&2));
}

#[test]
fn per_cluster_target_counts_buckets_missing_cluster_as_unknown() {
    let targets = vec![Target { targets: vec!["10.0.0.1:8080".to_string()], labels: StrMap::new() }];
    let counts = per_cluster_target_counts(&targets);
    assert_eq!(counts.get("unknown"), Some(&1));
}

#[test]
fn discovery_targets_per_cluster_resets_dropped_cluster_to_zero() {
    let configured_clusters = strings(&["prod"]);
    let old_targets = vec![Target {
        targets: vec!["10.0.0.1:8080".to_string()],
        labels: labels_of(&[("__meta_ecs_cluster_name", "prod")]),
    }];
    let new_targets = vec![Target {
        targets: vec!["10.0.0.2:8080".to_string()],
        labels: labels_of(&[("__meta_ecs_cluster_name", "dev")]),
    }];
    let values = per_cluster_gauge_values(&configured_clusters, &old_targets, &new_targets);
    assert_eq!(values.get("prod"), Some(&0));
    assert_eq!(values.get("dev"), Some(&1));
}

#[test]
fn target_address_churn_counts_added_and_removed_addresses() {
    let old = strings(&["a", "b"]);
    let new = strings(&["b", "c"]);
    assert_eq!(target_address_churn(&old, &new), (1, 1));
}

#[test]
fn target_address_churn_counts_initial_population_and_no_change() {
    let empty: Vec<String> = Vec::new();
    let populated = strings(&["a", "b"]);
    assert_eq!(target_address_churn(&empty, &populated), (2, 0));
    assert_eq!(target_address_churn(&populated, &populated), (0, 0));
}

#[test]
fn churn_counts_each_address_once() {
    let old = strings(&["a", "a", "b"]);
    let new = strings(&["c", "c", "b", "d"]);
    assert_eq!(target_address_churn(&old, &new), (2, 1));
}

#[test]
fn addresses_and_ttl() {
    let addrs = target_addresses(&two_targets());
    assert_eq!(addrs, strings(&["10.0.0.1:8080", "10.0.0.2:8080"]));
    assert_eq!(cache_ttl_seconds(0), 1);
    assert_eq!(cache_ttl_seconds(45), 45);
}
