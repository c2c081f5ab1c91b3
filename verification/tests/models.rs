use ecs_sd::ecs::{Cluster, Service, Tag};
use ecs_sd::labels::{sanitize_tag_key, LabelBuilder};
use ecs_sd::level::MetadataLevel;
use ecs_sd::strmap::StrMap;
use ecs_sd::target::{filter_labels_by_level, Labels, Target};

fn labels_of(pairs: &[(&str, &str)]) -> Labels {
    let mut m: Labels = StrMap::new();
    for (k, v) in pairs {
        m.insert(k.to_string(), v.to_string());
    }
    m
}

#[test]
fn test_label_builder_empty() {
    let labels = LabelBuilder::new(MetadataLevel::Container).build();
    assert!(labels.is_empty());
}

#[test]
fn test_label_builder_includes_hierarchy() {
    let builder = LabelBuilder::new(MetadataLevel::Container);
    assert!(builder.level().includes(MetadataLevel::Container));
    assert!(!builder.level().includes(MetadataLevel::Task));

    let builder = LabelBuilder::new(MetadataLevel::Aws);
    assert!(builder.level().includes(MetadataLevel::Container));
    assert!(builder.level().includes(MetadataLevel::Task));
    assert!(builder.level().includes(MetadataLevel::Service));
    assert!(builder.level().includes(MetadataLevel::Cluster));
    assert!(builder.level().includes(MetadataLevel::Aws));
}

#[test]
fn test_sanitize_tag_key() {
    assert_eq!(sanitize_tag_key("my-tag"), "my_tag");
    assert_eq!(sanitize_tag_key("My.Tag.Key"), "my_tag_key");
    assert_eq!(sanitize_tag_key("already_valid"), "already_valid");
    assert_eq!(sanitize_tag_key("Tag:Name"), "tag_name");
}

#[test]
fn test_network_labels() {
    let builder = LabelBuilder::new(MetadataLevel::Container).with_network(
        "10.0.1.5",
        "bridge",
        Some("subnet-abc123"),
    );
    let labels = builder.build();
    assert_eq!(labels.get("__meta_ecs_ip_address").map(String::as_str), Some("10.0.1.5"));
    assert_eq!(labels.get("__meta_ecs_network_mode").map(String::as_str), Some("bridge"));
    assert_eq!(labels.get("__meta_ecs_subnet_id").map(String::as_str), Some("subnet-abc123"));
}

#[test]
fn test_ec2_tags_emitted_at_aws_level() {
    let ec2_tags = labels_of(&[("Name", "my-node"), ("env", "prod")]);

    let builder = LabelBuilder::new(MetadataLevel::Aws).with_ec2_instance(
        "arn:aws:ecs:us-east-1:123:container-instance/abc",
        "i-0123456789abcdef0",
        Some("t3.medium"),
        "10.0.1.5",
        Some("1.2.3.4"),
        ec2_tags,
    );
    let labels = builder.build();
    assert_eq!(labels.get("__meta_ecs_ec2_instance_type").map(String::as_str), Some("t3.medium"));
    assert_eq!(labels.get("__meta_ecs_tag_ec2_name").map(String::as_str), Some("my-node"));
    assert_eq!(labels.get("__meta_ecs_tag_ec2_env").map(String::as_str), Some("prod"));
    assert_eq!(labels.get("__meta_ecs_public_ip").map(String::as_str), Some("1.2.3.4"));
    assert_eq!(
        labels.get("__meta_ecs_ec2_instance_public_ip").map(String::as_str),
        Some("1.2.3.4")
    );
}

#[test]
fn test_aws_level_excludes_ec2_at_cluster_level() {
    let ec2_tags = labels_of(&[("Name", "my-node")]);

    let builder = LabelBuilder::new(MetadataLevel::Cluster).with_ec2_instance(
        "arn:instance",
        "i-abc",
        None,
        "10.0.0.1",
        None,
        ec2_tags,
    );
    let labels = builder.build();
    assert!(!labels.contains_key("__meta_ecs_ec2_instance_id"));
    assert!(!labels.contains_key("__meta_ecs_tag_ec2_name"));
}

#[test]
fn test_filter_labels_by_level_preserves_prometheus_specials() {
    let labels = labels_of(&[
        ("__scheme__", "https"),
        ("__metrics_path__", "/custom"),
        ("__meta_ecs_task_arn", "arn:task"),
        ("__meta_ecs_service", "api"),
    ]);

    let target = Target { targets: vec!["10.0.0.1:9090".to_string()], labels };

    let container = filter_labels_by_level(&target, MetadataLevel::Container);
    assert!(container.labels.contains_key("__scheme__"));
    assert!(container.labels.contains_key("__metrics_path__"));
    assert!(!container.labels.contains_key("__meta_ecs_task_arn"));
    assert!(!container.labels.contains_key("__meta_ecs_service"));

    let task = filter_labels_by_level(&target, MetadataLevel::Task);
    assert!(task.labels.contains_key("__scheme__"));
    assert!(task.labels.contains_key("__meta_ecs_task_arn"));
    assert!(!task.labels.contains_key("__meta_ecs_service"));

    let service = filter_labels_by_level(&target, MetadataLevel::Service);
    assert!(
        service.labels.contains_key("__meta_ecs_service"),
        "__meta_ecs_service must be classified as Service level"
    );
    assert!(service.labels.contains_key("__meta_ecs_task_arn"));
}

#[test]
fn test_default_is_task() {
    assert_eq!(MetadataLevel::default(), MetadataLevel::Task);
}

#[test]
fn test_from_str_case_insensitive() {
    assert_eq!("container".parse::<MetadataLevel>().unwrap(), MetadataLevel::Container);
    assert_eq!("CONTAINER".parse::<MetadataLevel>().unwrap(), MetadataLevel::Container);
    assert_eq!("Container".parse::<MetadataLevel>().unwrap(), MetadataLevel::Container);
}

#[test]
fn test_from_str_invalid() {
    assert!("invalid".parse::<MetadataLevel>().is_err());
}

#[test]
fn test_display() {
    assert_eq!(MetadataLevel::Container.as_str(), "container");
    assert_eq!(MetadataLevel::Task.as_str(), "task");
    assert_eq!(MetadataLevel::Service.as_str(), "service");
    assert_eq!(MetadataLevel::Cluster.as_str(), "cluster");
    assert_eq!(MetadataLevel::Aws.as_str(), "aws");
}

#[test]
fn test_includes_hierarchy() {
    assert!(MetadataLevel::Aws.includes(MetadataLevel::Container));
    assert!(MetadataLevel::Aws.includes(MetadataLevel::Aws));

    assert!(MetadataLevel::Container.includes(MetadataLevel::Container));
    assert!(!MetadataLevel::Container.includes(MetadataLevel::Task));

    assert!(MetadataLevel::Task.includes(MetadataLevel::Container));
    assert!(MetadataLevel::Task.includes(MetadataLevel::Task));
    assert!(!MetadataLevel::Task.includes(MetadataLevel::Service));

    assert!(MetadataLevel::Service.includes(MetadataLevel::Container));
    assert!(MetadataLevel::Service.includes(MetadataLevel::Task));
    assert!(MetadataLevel::Service.includes(MetadataLevel::Service));
    assert!(!MetadataLevel::Service.includes(MetadataLevel::Cluster));
}

#[test]
fn test_target_address_format() {
    let t = Target::new("10.0.1.5", 9090, StrMap::new());
    assert_eq!(t.targets, vec!["10.0.1.5:9090".to_string()]);
}

#[test]
fn test_target_address_low_port() {
    let t = Target::new("192.168.0.1", 80, StrMap::new());
    assert_eq!(t.targets, vec!["192.168.0.1:80".to_string()]);
}

#[test]
fn test_target_labels_passed_through() {
    let labels = labels_of(&[("__meta_ecs_cluster", "prod"), ("__meta_ecs_service", "api")]);
    let copy = labels.duplicate();

    let t = Target::new("10.0.0.1", 8080, copy);
    assert_eq!(t.labels.len(), labels.len());
    for i in 0..labels.entry_count() {
        let (k, v) = labels.entry(i);
        assert_eq!(t.labels.get(k), Some(v));
    }
    assert_eq!(t.targets, vec!["10.0.0.1:8080".to_string()]);
}

#[test]
fn level_names_read_back() {
    for level in [
        MetadataLevel::Container,
        MetadataLevel::Task,
        MetadataLevel::Service,
        MetadataLevel::Cluster,
        MetadataLevel::Aws,
    ] {
        assert_eq!(MetadataLevel::parse(level.as_str()), Ok(level));
    }
    assert_eq!(
        MetadataLevel::parse("bogus"),
        Err("Invalid level: bogus. Valid: container, task, service, cluster, aws".to_string())
    );
}

#[test]
fn level_filter_composes_to_the_lower_level() {
    let labels = labels_of(&[
        ("__meta_ecs_task_arn", "arn:task"),
        ("__meta_ecs_service", "api"),
        ("__meta_ecs_cluster", "prod"),
        ("__meta_ecs_container_name", "web"),
    ]);
    let target = Target { targets: vec!["10.0.0.1:9090".to_string()], labels };
    let once = filter_labels_by_level(&target, MetadataLevel::Task);
    let twice = filter_labels_by_level(&filter_labels_by_level(&target, MetadataLevel::Cluster), MetadataLevel::Task);
    assert_eq!(once.labels.len(), twice.labels.len());
    assert_eq!(once.labels.len(), 2);
    assert!(twice.labels.contains_key("__meta_ecs_task_arn"));
    assert!(twice.labels.contains_key("__meta_ecs_container_name"));
}

#[test]
fn label_builder_writes_every_tier_at_aws_level() {
    let labels = LabelBuilder::new(MetadataLevel::Aws)
        .with_network("10.0.0.9", "awsvpc", None)
        .with_aws("eu-west-1", "123456789012", Some("eu-west-1a"))
        .build();
    assert_eq!(labels.get("__meta_ecs_ip_address").map(String::as_str), Some("10.0.0.9"));
    assert_eq!(labels.get("__meta_ecs_region").map(String::as_str), Some("eu-west-1"));
    assert_eq!(labels.get("__meta_ecs_account_id").map(String::as_str), Some("123456789012"));
    assert_eq!(labels.get("__meta_ecs_availability_zone").map(String::as_str), Some("eu-west-1a"));
    assert!(!labels.contains_key("__meta_ecs_subnet_id"));
}

fn api_service() -> Service {
    Service {
        service_name: Some("api".to_string()),
        service_arn: Some("arn:aws:ecs:eu-west-1:123456789012:service/prod/api".to_string()),
        status: Some("ACTIVE".to_string()),
        desired_count: 2,
        running_count: 2,
        tags: vec![Tag { key: Some("Team".to_string()), value: Some("obs".to_string()) }],
    }
}

fn prod_cluster() -> Cluster {
    Cluster {
        cluster_name: Some("prod".to_string()),
        cluster_arn: Some("arn:aws:ecs:eu-west-1:123456789012:cluster/prod".to_string()),
        tags: vec![Tag { key: Some("env".to_string()), value: Some("production".to_string()) }],
    }
}

#[test]
fn label_builder_writes_canonical_service_and_cluster_names() {
    let labels = LabelBuilder::new(MetadataLevel::Cluster)
        .with_service(&api_service())
        .with_cluster(&prod_cluster())
        .build();
    let get = |k: &str| labels.get(k).map(String::as_str);
    assert_eq!(get("__meta_ecs_service_name"), Some("api"));
    assert_eq!(get("__meta_ecs_cluster_name"), Some("prod"));
    assert_eq!(get("__meta_ecs_desired_count"), Some("2"));
    assert_eq!(get("__meta_ecs_running_count"), Some("2"));
    assert_eq!(get("__meta_ecs_cluster_arn"), Some("arn:aws:ecs:eu-west-1:123456789012:cluster/prod"));
    assert_eq!(get("__meta_ecs_service"), Some("api"));
    assert_eq!(get("__meta_ecs_cluster"), Some("prod"));
    assert_eq!(get("__meta_ecs_tag_service_team"), Some("obs"));
    assert_eq!(get("__meta_ecs_tag_cluster_env"), Some("production"));
}

#[test]
fn service_level_keeps_service_labels_and_drops_cluster_labels() {
    let labels = LabelBuilder::new(MetadataLevel::Service)
        .with_service(&api_service())
        .with_cluster(&prod_cluster())
        .build();
    assert!(labels.contains_key("__meta_ecs_service_name"));
    assert!(labels.contains_key("__meta_ecs_desired_count"));
    assert!(!labels.contains_key("__meta_ecs_cluster_name"));
    assert!(!labels.contains_key("__meta_ecs_tag_cluster_env"));
}

#[test]
fn filter_keeps_service_counts_at_service_level() {
    let labels = labels_of(&[
        ("__meta_ecs_desired_count", "3"),
        ("__meta_ecs_running_count", "3"),
        ("__meta_ecs_cluster", "prod"),
    ]);
    let target = Target { targets: vec!["10.0.0.1:9090".to_string()], labels };
    let service = filter_labels_by_level(&target, MetadataLevel::Service);
    assert_eq!(service.labels.len(), 2);
    assert_eq!(service.labels.get("__meta_ecs_desired_count").map(String::as_str), Some("3"));
    assert_eq!(service.labels.get("__meta_ecs_running_count").map(String::as_str), Some("3"));
    let task = filter_labels_by_level(&target, MetadataLevel::Task);
    assert!(task.labels.is_empty());
    let cluster = filter_labels_by_level(&target, MetadataLevel::Cluster);
    assert_eq!(cluster.labels.len(), 3);
    assert_eq!(cluster.labels.get("__meta_ecs_cluster").map(String::as_str), Some("prod"));
}

#[test]
fn filter_reads_levels_from_label_name_prefixes() {
    let labels = labels_of(&[
        ("__meta_ecs_container_name", "web"),
        ("__meta_ecs_container_instance_arn", "ci:1"),
        ("__meta_ecs_ip_address", "10.0.0.1"),
        ("__meta_ecs_task_family", "web"),
        ("__meta_ecs_launch_type", "FARGATE"),
        ("__meta_ecs_tag_task_team", "obs"),
        ("__meta_ecs_service_name", "api"),
        ("__meta_ecs_running_count", "2"),
        ("__meta_ecs_tag_service_team", "obs"),
        ("__meta_ecs_cluster_name", "prod"),
        ("__meta_ecs_cluster", "prod"),
        ("__meta_ecs_region", "eu-west-1"),
        ("__scheme__", "http"),
    ]);
    let target = Target { targets: vec!["10.0.0.1:9090".to_string()], labels };
    let count = |level: MetadataLevel| filter_labels_by_level(&target, level).labels.len();
    assert_eq!(count(MetadataLevel::Container), 3);
    assert_eq!(count(MetadataLevel::Task), 4);
    assert_eq!(count(MetadataLevel::Service), 6);
    assert_eq!(count(MetadataLevel::Cluster), 8);
    assert_eq!(count(MetadataLevel::Aws), 13);
    let container = filter_labels_by_level(&target, MetadataLevel::Container);
    assert!(container.labels.contains_key("__meta_ecs_container_instance_arn"));
    assert!(container.labels.contains_key("__scheme__"));
    let cluster = filter_labels_by_level(&target, MetadataLevel::Cluster);
    assert!(!cluster.labels.contains_key("__meta_ecs_ip_address"));
    assert!(!cluster.labels.contains_key("__meta_ecs_launch_type"));
    assert!(!cluster.labels.contains_key("__meta_ecs_tag_task_team"));
}

#[test]
fn higher_level_only_adds_labels() {
    let build = |level: MetadataLevel| {
        LabelBuilder::new(level)
            .with_network("10.0.0.9", "awsvpc", Some("subnet-1"))
            .with_service(&api_service())
            .with_cluster(&prod_cluster())
            .with_aws("eu-west-1", "123456789012", None)
            .build()
    };
    let levels = [
        MetadataLevel::Container,
        MetadataLevel::Task,
        MetadataLevel::Service,
        MetadataLevel::Cluster,
        MetadataLevel::Aws,
    ];
    for (i, lower) in levels.iter().enumerate() {
        let low = build(*lower);
        for higher in &levels[i..] {
            let high = build(*higher);
            for j in 0..low.entry_count() {
                let (k, v) = low.entry(j);
                assert_eq!(high.get(k), Some(v));
            }
        }
    }
    assert_eq!(build(MetadataLevel::Container).len(), 3);
    assert_eq!(build(MetadataLevel::Service).len(), 10);
    assert_eq!(build(MetadataLevel::Cluster).len(), 14);
    assert_eq!(build(MetadataLevel::Aws).len(), 16);
}

#[test]
fn network_step_replaces_only_network_labels() {
    let labels = LabelBuilder::new(MetadataLevel::Service)
        .with_network("10.0.0.1", "bridge", Some("subnet-1"))
        .with_service(&api_service())
        .with_network("10.0.0.2", "awsvpc", None)
        .build();
    assert_eq!(labels.get("__meta_ecs_ip_address").map(String::as_str), Some("10.0.0.2"));
    assert_eq!(labels.get("__meta_ecs_network_mode").map(String::as_str), Some("awsvpc"));
    assert!(!labels.contains_key("__meta_ecs_subnet_id"));
    assert_eq!(labels.get("__meta_ecs_service_name").map(String::as_str), Some("api"));
}

#[test]
fn aws_step_adds_nothing_below_aws_level() {
    let without = LabelBuilder::new(MetadataLevel::Cluster).with_cluster(&prod_cluster()).build();
    let with = LabelBuilder::new(MetadataLevel::Cluster)
        .with_cluster(&prod_cluster())
        .with_aws("eu-west-1", "123456789012", Some("eu-west-1a"))
        .build();
    assert_eq!(with.len(), without.len());
    assert!(!with.contains_key("__meta_ecs_region"));
    assert!(!with.contains_key("__meta_ecs_availability_zone"));
}

#[test]
fn ec2_step_writes_its_labels_last_at_aws_level() {
    let base = LabelBuilder::new(MetadataLevel::Aws).with_aws("eu-west-1", "123456789012", None);
    let before = LabelBuilder::new(MetadataLevel::Aws).with_aws("eu-west-1", "123456789012", None).build();
    let after = base
        .with_ec2_instance("ci:1", "i-1", Some("t3.small"), "10.0.0.7", Some("3.3.3.3"), labels_of(&[("Name", "node")]))
        .build();
    assert_eq!(after.len(), before.len() + 7);
    assert_eq!(after.get("__meta_ecs_region").map(String::as_str), Some("eu-west-1"));
    assert_eq!(after.get("__meta_ecs_public_ip").map(String::as_str), Some("3.3.3.3"));
    assert_eq!(after.get("__meta_ecs_ec2_instance_type").map(String::as_str), Some("t3.small"));
    assert_eq!(after.get("__meta_ecs_tag_ec2_name").map(String::as_str), Some("node"));
}
