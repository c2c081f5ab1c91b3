use ecs_sd::config::Mode;
use ecs_sd::discovery::{
    aggregate_cluster_results, apply_page, batch_targets, ec2_container_instance_arns,
    ec2_info_from_instance, ec2_instance_from_cache, instance_id_of, instance_info_of,
    instance_to_resolve, missing_container_instance_arns, missing_ec2_instance_ids, plan_task,
    record_container_instances, remember_instance, task_definition_from_cache, DiscoveryError,
    Ec2InstanceInfo, TaskPlan,
};
use ecs_sd::ecs::{
    extract_fargate_private_ip, Attachment, Cluster, ContainerDefinition, ContainerInstance,
    Ec2Instance, KeyValuePair, Service, Tag, Task, TaskDefinition,
};
use ecs_sd::strmap::StrMap;
use ecs_sd::target::{Labels, Target};

fn labels_of(pairs: &[(&str, &str)]) -> Labels {
    let mut m: Labels = StrMap::new();
    for (k, v) in pairs {
        m.insert(k.to_string(), v.to_string());
    }
    m
}

fn map_of(pairs: &[(&str, &str)]) -> StrMap<String> {
    labels_of(pairs)
}

fn info(private_ip: &str, arn: &str, id: &str) -> Ec2InstanceInfo {
    Ec2InstanceInfo {
        private_ip: private_ip.to_string(),
        public_ip: None,
        availability_zone: None,
        subnet_id: None,
        container_instance_arn: arn.to_string(),
        ec2_instance_id: id.to_string(),
        ec2_instance_type: None,
        ec2_tags: StrMap::new(),
    }
}

fn strings(v: &[&str]) -> Vec<String> {
    v.iter().map(|s| s.to_string()).collect()
}

fn empty_task() -> Task {
    Task {
        task_arn: None,
        task_definition_arn: None,
        container_instance_arn: None,
        group: None,
        launch_type: None,
        desired_status: None,
        last_status: None,
        health_status: None,
        platform_family: None,
        platform_version: None,
        attachments: Vec::new(),
        tags: Vec::new(),
    }
}

fn eni(ip: &str) -> Attachment {
    Attachment {
        attachment_type: Some("ElasticNetworkInterface".to_string()),
        details: vec![KeyValuePair {
            name: Some("privateIPv4Address".to_string()),
            value: Some(ip.to_string()),
        }],
    }
}

fn scraped_container(name: &str, port: &str) -> ContainerDefinition {
    ContainerDefinition {
        name: Some(name.to_string()),
        image: Some("repo/app:1".to_string()),
        docker_labels: Some(labels_of(&[("prometheus.io/scrape", "true"), ("prometheus.io/port", port)])),
    }
}

fn service() -> Service {
    Service {
        service_name: Some("api".to_string()),
        service_arn: Some("arn:aws:ecs:eu-west-1:123456789012:service/prod/api".to_string()),
        status: Some("ACTIVE".to_string()),
        desired_count: 2,
        running_count: 2,
        tags: vec![Tag { key: Some("team".to_string()), value: Some("obs".to_string()) }],
    }
}

fn cluster() -> Cluster {
    Cluster {
        cluster_name: Some("prod".to_string()),
        cluster_arn: Some("arn:aws:ecs:eu-west-1:123456789012:cluster/prod".to_string()),
        tags: Vec::new(),
    }
}

#[test]
fn task_definition_from_cache_returns_none_on_miss() {
    let cache: StrMap<TaskDefinition> = StrMap::new();
    let result = task_definition_from_cache(&cache, "arn:missing");
    assert!(result.is_none());
}

#[test]
fn task_definition_from_cache_returns_cloned_value_on_hit() {
    let mut cache: StrMap<TaskDefinition> = StrMap::new();
    let task_def = TaskDefinition {
        task_definition_arn: Some("arn:task-def:1".to_string()),
        family: Some("svc".to_string()),
        network_mode: None,
        container_definitions: Vec::new(),
    };
    cache.insert("arn:task-def:1".to_string(), task_def);

    let result = task_definition_from_cache(&cache, "arn:task-def:1");
    assert!(result.is_some());
    assert_eq!(result.unwrap().task_definition_arn.as_deref(), Some("arn:task-def:1"));
}

#[test]
fn missing_container_instance_arns_returns_unique_uncached_values() {
    let cache = map_of(&[("ci:1", "i-1")]);
    let input = strings(&["ci:1", "ci:2", "ci:2", "ci:3"]);
    let missing = missing_container_instance_arns(&cache, &input);
    assert_eq!(missing, vec!["ci:2".to_string(), "ci:3".to_string()]);
}

#[test]
fn missing_ec2_instance_ids_returns_unique_uncached_values() {
    let container_to_ec2 = map_of(&[("ci:1", "i-1"), ("ci:2", "i-2"), ("ci:3", "i-2"), ("ci:4", "i-4")]);
    let mut ec2_cache = StrMap::new();
    ec2_cache.insert("i-1".to_string(), info("10.0.0.1", "ci:1", "i-1"));

    let input = strings(&["ci:1", "ci:2", "ci:3", "ci:4", "ci:unknown"]);
    let missing = missing_ec2_instance_ids(&container_to_ec2, &ec2_cache, &input);
    assert_eq!(missing, vec!["i-2".to_string(), "i-4".to_string()]);
}

#[test]
fn ec2_instance_from_cache_rehydrates_container_instance_context() {
    let container_to_ec2 = map_of(&[("ci:1", "i-1")]);
    let mut ec2_cache = StrMap::new();
    let mut cached = info("10.0.0.1", "", "i-1");
    cached.public_ip = Some("1.2.3.4".to_string());
    cached.availability_zone = Some("eu-west-1a".to_string());
    cached.subnet_id = Some("subnet-1".to_string());
    cached.ec2_instance_type = Some("t3.medium".to_string());
    cached.ec2_tags = labels_of(&[("Name", "node-1")]);
    ec2_cache.insert("i-1".to_string(), cached);

    let result = ec2_instance_from_cache(&container_to_ec2, &ec2_cache, "ci:1").expect("cache hit expected");
    assert_eq!(result.container_instance_arn, "ci:1");
    assert_eq!(result.ec2_instance_id, "i-1");
    assert_eq!(result.private_ip, "10.0.0.1");
}

#[test]
fn apply_page_accumulates_items_and_token_across_pages() {
    let mut items = Vec::new();

    let token = apply_page(&mut items, &vec!["svc:1".to_string(), "svc:2".to_string()], Some("t1"));
    assert_eq!(items, vec!["svc:1".to_string(), "svc:2".to_string()]);
    assert_eq!(token.as_deref(), Some("t1"));

    let token = apply_page(&mut items, &vec!["svc:3".to_string()], None);
    assert_eq!(items, vec!["svc:1", "svc:2", "svc:3"]);
    assert_eq!(token, None);
}

#[test]
fn missing_container_instance_arns_scales_with_large_paginated_input() {
    let mut cache: StrMap<String> = StrMap::new();
    for i in 0..50 {
        cache.insert(format!("ci:{}", i), format!("i-{}", i));
    }

    let mut input = Vec::new();
    for page in 0..4 {
        for i in 0..80 {
            let value = format!("ci:{}", page * 80 + i);
            input.push(value.clone());
            if i % 3 == 0 {
                input.push(value);
            }
        }
    }

    let missing = missing_container_instance_arns(&cache, &input);
    assert_eq!(missing.len(), 270);
    assert_eq!(missing.first().map(|s| s.as_str()), Some("ci:50"));
    assert_eq!(missing.last().map(|s| s.as_str()), Some("ci:319"));
}

#[test]
fn missing_ec2_instance_ids_scales_and_preserves_first_seen_order() {
    let container_to_ec2 = map_of(&[
        ("ci:1", "i-1"),
        ("ci:2", "i-2"),
        ("ci:3", "i-3"),
        ("ci:4", "i-2"),
        ("ci:5", "i-4"),
    ]);

    let mut ec2_cache = StrMap::new();
    ec2_cache.insert("i-1".to_string(), info("10.0.0.1", "ci:1", "i-1"));

    let input = strings(&["ci:1", "ci:2", "ci:3", "ci:4", "ci:5", "ci:unknown", "ci:2", "ci:5"]);

    let missing = missing_ec2_instance_ids(&container_to_ec2, &ec2_cache, &input);
    assert_eq!(missing, vec!["i-2", "i-3", "i-4"]);
}

#[test]
fn ec2_instance_from_cache_returns_none_when_container_mapping_missing() {
    let container_to_ec2: StrMap<String> = StrMap::new();
    let ec2_cache: StrMap<Ec2InstanceInfo> = StrMap::new();

    let result = ec2_instance_from_cache(&container_to_ec2, &ec2_cache, "ci:missing");
    assert!(result.is_none());
}

#[test]
fn extract_fargate_ip_from_valid_eni() {
    let mut task = empty_task();
    task.attachments = vec![eni("10.0.1.42")];
    assert_eq!(extract_fargate_private_ip(&task).as_deref(), Some("10.0.1.42"));
}

#[test]
fn extract_fargate_ip_returns_none_when_no_eni() {
    let task = empty_task();
    assert_eq!(extract_fargate_private_ip(&task), None);
}

#[test]
fn extract_fargate_ip_returns_none_when_wrong_attachment_type() {
    let mut task = empty_task();
    let mut attachment = eni("10.0.1.42");
    attachment.attachment_type = Some("other".to_string());
    task.attachments = vec![attachment];
    assert_eq!(extract_fargate_private_ip(&task), None);
}

#[test]
fn extract_fargate_ip_returns_none_when_ip_key_missing() {
    let mut task = empty_task();
    task.attachments = vec![Attachment {
        attachment_type: Some("ElasticNetworkInterface".to_string()),
        details: vec![KeyValuePair {
            name: Some("someOtherKey".to_string()),
            value: Some("10.0.1.42".to_string()),
        }],
    }];
    assert_eq!(extract_fargate_private_ip(&task), None);
}

#[test]
fn extract_fargate_ip_from_eni_attachment_for_ec2_awsvpc_shape() {
    let mut task = empty_task();
    task.attachments = vec![eni("10.157.8.169")];
    assert_eq!(extract_fargate_private_ip(&task).as_deref(), Some("10.157.8.169"));
}

#[test]
fn discover_all_clusters_returns_err_when_all_clusters_fail() {
    let per_cluster: Vec<Result<Vec<Target>, DiscoveryError>> = vec![
        Err(DiscoveryError::EcsError("simulated".to_string())),
        Err(DiscoveryError::EcsError("simulated".to_string())),
    ];
    let result = aggregate_cluster_results(per_cluster);
    assert!(matches!(result, Err(DiscoveryError::AllClustersFailed)));
}

#[test]
fn discover_all_clusters_returns_partial_ok_when_some_clusters_fail() {
    let target = Target { targets: vec!["10.0.0.1:9090".to_string()], labels: StrMap::new() };
    let per_cluster: Vec<Result<Vec<Target>, DiscoveryError>> =
        vec![Ok(vec![target]), Err(DiscoveryError::EcsError("simulated".to_string()))];
    let result = aggregate_cluster_results(per_cluster);
    assert!(result.is_ok());
    assert_eq!(result.unwrap().len(), 1);
}

#[test]
fn aggregate_of_no_clusters_is_empty_success() {
    let result = aggregate_cluster_results(Vec::new());
    assert!(matches!(result, Ok(ref v) if v.is_empty()));
}

#[test]
fn discovery_error_messages() {
    assert_eq!(DiscoveryError::EcsError("boom".to_string()).message(), "AWS ECS API error: boom");
    assert_eq!(DiscoveryError::ClusterNotFound("prod".to_string()).message(), "Cluster not found: prod");
    assert_eq!(DiscoveryError::NoPrivateIp.message(), "EC2 instance has no private IP");
    assert_eq!(DiscoveryError::AllClustersFailed.message(), "All clusters failed discovery");
}

fn ec2_task(last_status: &str) -> Task {
    let mut t = empty_task();
    t.task_arn = Some("arn:aws:ecs:eu-west-1:123456789012:task/prod/abc".to_string());
    t.task_definition_arn = Some("arn:aws:ecs:eu-west-1:123456789012:task-definition/api:7".to_string());
    t.container_instance_arn = Some("ci:1".to_string());
    t.launch_type = Some("EC2".to_string());
    t.last_status = Some(last_status.to_string());
    t
}

fn task_defs(network_mode: Option<&str>) -> StrMap<TaskDefinition> {
    let mut defs = StrMap::new();
    defs.insert(
        "arn:aws:ecs:eu-west-1:123456789012:task-definition/api:7".to_string(),
        TaskDefinition {
            task_definition_arn: Some("arn:aws:ecs:eu-west-1:123456789012:task-definition/api:7".to_string()),
            family: Some("api".to_string()),
            network_mode: network_mode.map(|s| s.to_string()),
            container_definitions: vec![
                scraped_container("web", "9090"),
                ContainerDefinition { name: Some("sidecar".to_string()), image: None, docker_labels: None },
                scraped_container("bad-port", "not-a-port"),
            ],
        },
    );
    defs
}

fn instance_caches() -> (StrMap<String>, StrMap<Ec2InstanceInfo>) {
    let to_ec2 = map_of(&[("ci:1", "i-1")]);
    let mut cache = StrMap::new();
    let mut i = info("10.0.0.7", "", "i-1");
    i.subnet_id = Some("subnet-1".to_string());
    i.availability_zone = Some("eu-west-1a".to_string());
    i.ec2_tags = labels_of(&[("Name", "node-1")]);
    cache.insert("i-1".to_string(), i);
    (to_ec2, cache)
}

#[test]
fn ec2_task_targets_use_instance_address_and_metadata() {
    let (to_ec2, cache) = instance_caches();
    let tasks = vec![ec2_task("RUNNING")];
    let targets = batch_targets(
        Mode::Discovery, "eu-west-1", "123456789012", &cluster(), &service(), &tasks,
        &task_defs(None), &to_ec2, &cache,
    )
    .ok()
    .expect("batch succeeds");
    assert_eq!(targets.len(), 1);
    let t = &targets[0];
    assert_eq!(t.targets, vec!["10.0.0.7:9090".to_string()]);
    let get = |k: &str| t.labels.get(k).map(String::as_str);
    assert_eq!(get("__meta_ecs_container_name"), Some("web"));
    assert_eq!(get("__meta_ecs_network_mode"), Some("bridge"));
    assert_eq!(get("__meta_ecs_subnet_id"), Some("subnet-1"));
    assert_eq!(get("__meta_ecs_task_version"), Some("7"));
    assert_eq!(get("__meta_ecs_service_name"), Some("api"));
    assert_eq!(get("__meta_ecs_cluster_name"), Some("prod"));
    assert_eq!(get("__meta_ecs_service"), Some("api"));
    assert_eq!(get("__meta_ecs_cluster"), Some("prod"));
    assert_eq!(get("__meta_ecs_availability_zone"), Some("eu-west-1a"));
    assert_eq!(get("__meta_ecs_container_instance_arn"), Some("ci:1"));
    assert_eq!(get("__meta_ecs_ec2_instance_id"), Some("i-1"));
    assert_eq!(get("__meta_ecs_tag_ec2_name"), Some("node-1"));
    assert_eq!(get("__meta_ecs_tag_service_team"), Some("obs"));
    assert_eq!(get("__scheme__"), Some("http"));
    assert_eq!(get("__metrics_path__"), Some("/metrics"));
}

#[test]
fn ec2_awsvpc_task_targets_use_interface_address() {
    let (to_ec2, cache) = instance_caches();
    let mut task = ec2_task("RUNNING");
    task.attachments = vec![eni("10.1.2.3")];
    let targets = batch_targets(
        Mode::Discovery, "eu-west-1", "123456789012", &cluster(), &service(), &vec![task],
        &task_defs(Some("awsvpc")), &to_ec2, &cache,
    )
    .ok()
    .expect("batch succeeds");
    assert_eq!(targets.len(), 1);
    assert_eq!(targets[0].targets, vec!["10.1.2.3:9090".to_string()]);
}

#[test]
fn stopped_and_unresolved_tasks_yield_no_targets() {
    let (to_ec2, cache) = instance_caches();
    let mut unknown_instance = ec2_task("RUNNING");
    unknown_instance.container_instance_arn = Some("ci:unknown".to_string());
    let tasks = vec![ec2_task("STOPPED"), ec2_task("STOPPING"), unknown_instance];
    let targets = batch_targets(
        Mode::Discovery, "eu-west-1", "123456789012", &cluster(), &service(), &tasks,
        &task_defs(None), &to_ec2, &cache,
    )
    .ok()
    .expect("batch succeeds");
    assert!(targets.is_empty());
}

#[test]
fn running_ec2_task_without_definition_fails_the_batch() {
    let (to_ec2, cache) = instance_caches();
    let mut task = ec2_task("RUNNING");
    task.task_definition_arn = None;
    let result = batch_targets(
        Mode::Discovery, "eu-west-1", "123456789012", &cluster(), &service(), &vec![task],
        &task_defs(None), &to_ec2, &cache,
    );
    assert!(matches!(result, Err(DiscoveryError::NoContainerInstance)));
}

fn fargate_task() -> Task {
    let mut t = ec2_task("RUNNING");
    t.launch_type = Some("FARGATE".to_string());
    t.container_instance_arn = None;
    t.attachments = vec![eni("10.9.8.7")];
    t
}

#[test]
fn fargate_tasks_are_scraped_only_in_proxy_mode() {
    let (to_ec2, cache) = instance_caches();
    let tasks = vec![fargate_task()];
    let discovery = batch_targets(
        Mode::Discovery, "eu-west-1", "123456789012", &cluster(), &service(), &tasks,
        &task_defs(None), &to_ec2, &cache,
    )
    .ok()
    .expect("batch succeeds");
    assert!(discovery.is_empty());

    let proxy = batch_targets(
        Mode::Proxy, "eu-west-1", "123456789012", &cluster(), &service(), &tasks,
        &task_defs(None), &to_ec2, &cache,
    )
    .ok()
    .expect("batch succeeds");
    assert_eq!(proxy.len(), 1);
    assert_eq!(proxy[0].targets, vec!["10.9.8.7:9090".to_string()]);
    assert_eq!(proxy[0].labels.get("__meta_ecs_network_mode").map(String::as_str), Some("awsvpc"));
    assert!(!proxy[0].labels.contains_key("__meta_ecs_ec2_instance_id"));
}

#[test]
fn plan_and_lookups_follow_the_task_kind() {
    assert!(matches!(plan_task(Mode::Discovery, &fargate_task()), TaskPlan::Skip));
    assert!(matches!(
        plan_task(Mode::Proxy, &fargate_task()),
        TaskPlan::FetchDefinition { required: false, .. }
    ));
    assert!(matches!(plan_task(Mode::Proxy, &ec2_task("STOPPED")), TaskPlan::Skip));
    assert!(matches!(plan_task(Mode::Proxy, &ec2_task("RUNNING")), TaskPlan::FetchDefinition { required: true, .. }));
    let mut no_def = ec2_task("RUNNING");
    no_def.task_definition_arn = None;
    assert!(matches!(plan_task(Mode::Discovery, &no_def), TaskPlan::Fail));

    let tasks = vec![ec2_task("RUNNING"), ec2_task("STOPPED"), fargate_task()];
    assert_eq!(ec2_container_instance_arns(&tasks), vec!["ci:1".to_string()]);

    let defs = task_defs(None);
    let td = defs.get("arn:aws:ecs:eu-west-1:123456789012:task-definition/api:7").unwrap();
    let (to_ec2, cache) = instance_caches();
    assert_eq!(instance_to_resolve(&ec2_task("RUNNING"), td, &to_ec2, &cache), None);
    let empty_map: StrMap<String> = StrMap::new();
    assert_eq!(instance_to_resolve(&ec2_task("RUNNING"), td, &empty_map, &cache), Some("ci:1".to_string()));
}

#[test]
fn instance_descriptions_fill_the_caches() {
    let mut to_ec2: StrMap<String> = StrMap::new();
    record_container_instances(
        &mut to_ec2,
        &vec![
            ContainerInstance { container_instance_arn: Some("ci:1".to_string()), ec2_instance_id: Some("i-1".to_string()) },
            ContainerInstance { container_instance_arn: Some("ci:2".to_string()), ec2_instance_id: None },
        ],
    );
    assert_eq!(to_ec2.get("ci:1").map(String::as_str), Some("i-1"));
    assert!(!to_ec2.contains_key("ci:2"));

    let instance = Ec2Instance {
        instance_id: Some("i-1".to_string()),
        private_ip_address: Some("10.0.0.1".to_string()),
        public_ip_address: None,
        availability_zone: Some("eu-west-1b".to_string()),
        subnet_id: None,
        instance_type: Some("m5.large".to_string()),
        tags: vec![Tag { key: Some("Name".to_string()), value: Some("n1".to_string()) }],
    };
    let converted = ec2_info_from_instance(&instance).expect("has id and address");
    assert_eq!(converted.container_instance_arn, "");
    assert_eq!(converted.ec2_tags.get("Name").map(String::as_str), Some("n1"));

    let mut no_ip = instance;
    no_ip.private_ip_address = None;
    assert!(ec2_info_from_instance(&no_ip).is_none());

    assert!(matches!(instance_id_of(&Vec::new()), Err(DiscoveryError::NoContainerInstance)));
    assert!(matches!(instance_info_of("ci:1", "i-1", &vec![vec![no_ip]]), Err(DiscoveryError::NoPrivateIp)));

    let mut caches = (StrMap::new(), StrMap::new());
    remember_instance(&mut caches.0, &mut caches.1, info("10.0.0.3", "ci:3", "i-3"));
    assert!(ec2_instance_from_cache(&caches.0, &caches.1, "ci:3").is_some());
}
