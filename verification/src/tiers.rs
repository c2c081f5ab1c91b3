//! The tier level of each label that the label builder writes.
use vstd::prelude::*;
use crate::level::MetadataLevel;
use crate::target::{tier_level, lemma_differ_at};

verus! {

/// The container labels that the builder writes are those of the container tier.
pub proof fn lemma_container_label_levels()
    ensures
        tier_level("__meta_ecs_container_name"@) == MetadataLevel::Container,
        tier_level("__meta_ecs_container_image"@) == MetadataLevel::Container,
        tier_level("__meta_ecs_metrics_port"@) == MetadataLevel::Container,
        tier_level("__meta_ecs_ip_address"@) == MetadataLevel::Container,
        tier_level("__meta_ecs_network_mode"@) == MetadataLevel::Container,
        tier_level("__meta_ecs_subnet_id"@) == MetadataLevel::Container,
        tier_level("__scheme__"@) == MetadataLevel::Container,
        tier_level("__metrics_path__"@) == MetadataLevel::Container,
{
    assert(tier_level("__meta_ecs_container_name"@) == MetadataLevel::Container) by {
        reveal_strlit("__meta_ecs_container_");
        reveal_strlit("__meta_ecs_container_instance_arn");
        reveal_strlit("__meta_ecs_container_name");
        reveal_strlit("__meta_ecs_tag_");
        reveal_strlit("__meta_ecs_tag_cluster_");
        reveal_strlit("__meta_ecs_tag_service_");
        reveal_strlit("__meta_ecs_tag_task_");
        lemma_differ_at("__meta_ecs_container_name"@, "__meta_ecs_tag_task_"@, 11);
        lemma_differ_at("__meta_ecs_container_name"@, "__meta_ecs_tag_service_"@, 11);
        lemma_differ_at("__meta_ecs_container_name"@, "__meta_ecs_tag_cluster_"@, 11);
        lemma_differ_at("__meta_ecs_container_name"@, "__meta_ecs_tag_"@, 11);
        lemma_differ_at("__meta_ecs_container_name"@, "__meta_ecs_container_instance_arn"@, 21);
        assert("__meta_ecs_container_name"@.take(21) =~= "__meta_ecs_container_"@);
    }
    assert(tier_level("__meta_ecs_container_image"@) == MetadataLevel::Container) by {
        reveal_strlit("__meta_ecs_container_");
        reveal_strlit("__meta_ecs_container_image");
        reveal_strlit("__meta_ecs_container_instance_arn");
        reveal_strlit("__meta_ecs_tag_");
        reveal_strlit("__meta_ecs_tag_cluster_");
        reveal_strlit("__meta_ecs_tag_service_");
        reveal_strlit("__meta_ecs_tag_task_");
        lemma_differ_at("__meta_ecs_container_image"@, "__meta_ecs_tag_task_"@, 11);
        lemma_differ_at("__meta_ecs_container_image"@, "__meta_ecs_tag_service_"@, 11);
        lemma_differ_at("__meta_ecs_container_image"@, "__meta_ecs_tag_cluster_"@, 11);
        lemma_differ_at("__meta_ecs_container_image"@, "__meta_ecs_tag_"@, 11);
        lemma_differ_at("__meta_ecs_container_image"@, "__meta_ecs_container_instance_arn"@, 22);
        assert("__meta_ecs_container_image"@.take(21) =~= "__meta_ecs_container_"@);
    }
    assert(tier_level("__meta_ecs_metrics_port"@) == MetadataLevel::Container) by {
        reveal_strlit("__meta_ecs_container_");
        reveal_strlit("__meta_ecs_container_instance_arn");
        reveal_strlit("__meta_ecs_metrics_port");
        reveal_strlit("__meta_ecs_tag_");
        reveal_strlit("__meta_ecs_tag_cluster_");
        reveal_strlit("__meta_ecs_tag_service_");
        reveal_strlit("__meta_ecs_tag_task_");
        lemma_differ_at("__meta_ecs_metrics_port"@, "__meta_ecs_tag_task_"@, 11);
        lemma_differ_at("__meta_ecs_metrics_port"@, "__meta_ecs_tag_service_"@, 11);
        lemma_differ_at("__meta_ecs_metrics_port"@, "__meta_ecs_tag_cluster_"@, 11);
        lemma_differ_at("__meta_ecs_metrics_port"@, "__meta_ecs_tag_"@, 11);
        lemma_differ_at("__meta_ecs_metrics_port"@, "__meta_ecs_container_instance_arn"@, 11);
        lemma_differ_at("__meta_ecs_metrics_port"@, "__meta_ecs_container_"@, 11);
    }
    assert(tier_level("__meta_ecs_ip_address"@) == MetadataLevel::Container) by {
        reveal_strlit("__meta_ecs_container_");
        reveal_strlit("__meta_ecs_container_instance_arn");
        reveal_strlit("__meta_ecs_ip_address");
        reveal_strlit("__meta_ecs_metrics_port");
        reveal_strlit("__meta_ecs_tag_");
        reveal_strlit("__meta_ecs_tag_cluster_");
        reveal_strlit("__meta_ecs_tag_service_");
        reveal_strlit("__meta_ecs_tag_task_");
        lemma_differ_at("__meta_ecs_ip_address"@, "__meta_ecs_tag_task_"@, 11);
        lemma_differ_at("__meta_ecs_ip_address"@, "__meta_ecs_tag_service_"@, 11);
        lemma_differ_at("__meta_ecs_ip_address"@, "__meta_ecs_tag_cluster_"@, 11);
        lemma_differ_at("__meta_ecs_ip_address"@, "__meta_ecs_tag_"@, 11);
        lemma_differ_at("__meta_ecs_ip_address"@, "__meta_ecs_container_instance_arn"@, 11);
        lemma_differ_at("__meta_ecs_ip_address"@, "__meta_ecs_container_"@, 11);
        lemma_differ_at("__meta_ecs_ip_address"@, "__meta_ecs_metrics_port"@, 11);
    }
    assert(tier_level("__meta_ecs_network_mode"@) == MetadataLevel::Container) by {
        reveal_strlit("__meta_ecs_container_");
        reveal_strlit("__meta_ecs_container_instance_arn");
        reveal_strlit("__meta_ecs_ip_address");
        reveal_strlit("__meta_ecs_metrics_port");
        reveal_strlit("__meta_ecs_network_mode");
        reveal_strlit("__meta_ecs_tag_");
        reveal_strlit("__meta_ecs_tag_cluster_");
        reveal_strlit("__meta_ecs_tag_service_");
        reveal_strlit("__meta_ecs_tag_task_");
        lemma_differ_at("__meta_ecs_network_mode"@, "__meta_ecs_tag_task_"@, 11);
        lemma_differ_at("__meta_ecs_network_mode"@, "__meta_ecs_tag_service_"@, 11);
        lemma_differ_at("__meta_ecs_network_mode"@, "__meta_ecs_tag_cluster_"@, 11);
        lemma_differ_at("__meta_ecs_network_mode"@, "__meta_ecs_tag_"@, 11);
        lemma_differ_at("__meta_ecs_network_mode"@, "__meta_ecs_container_instance_arn"@, 11);
        lemma_differ_at("__meta_ecs_network_mode"@, "__meta_ecs_container_"@, 11);
        lemma_differ_at("__meta_ecs_network_mode"@, "__meta_ecs_metrics_port"@, 11);
        lemma_differ_at("__meta_ecs_network_mode"@, "__meta_ecs_ip_address"@, 11);
    }
    assert(tier_level("__meta_ecs_subnet_id"@) == MetadataLevel::Container) by {
        reveal_strlit("__meta_ecs_container_");
        reveal_strlit("__meta_ecs_container_instance_arn");
        reveal_strlit("__meta_ecs_ip_address");
        reveal_strlit("__meta_ecs_metrics_port");
        reveal_strlit("__meta_ecs_network_mode");
        reveal_strlit("__meta_ecs_subnet_id");
        reveal_strlit("__meta_ecs_tag_");
        reveal_strlit("__meta_ecs_tag_cluster_");
        reveal_strlit("__meta_ecs_tag_service_");
        reveal_strlit("__meta_ecs_tag_task_");
        lemma_differ_at("__meta_ecs_subnet_id"@, "__meta_ecs_tag_task_"@, 11);
        lemma_differ_at("__meta_ecs_subnet_id"@, "__meta_ecs_tag_service_"@, 11);
        lemma_differ_at("__meta_ecs_subnet_id"@, "__meta_ecs_tag_cluster_"@, 11);
        lemma_differ_at("__meta_ecs_subnet_id"@, "__meta_ecs_tag_"@, 11);
        lemma_differ_at("__meta_ecs_subnet_id"@, "__meta_ecs_container_instance_arn"@, 11);
        lemma_differ_at("__meta_ecs_subnet_id"@, "__meta_ecs_container_"@, 11);
        lemma_differ_at("__meta_ecs_subnet_id"@, "__meta_ecs_metrics_port"@, 11);
        lemma_differ_at("__meta_ecs_subnet_id"@, "__meta_ecs_ip_address"@, 11);
        lemma_differ_at("__meta_ecs_subnet_id"@, "__meta_ecs_network_mode"@, 11);
    }
    assert(tier_level("__scheme__"@) == MetadataLevel::Container) by {
        reveal_strlit("__meta_ecs_");
        reveal_strlit("__meta_ecs_cluster");
        reveal_strlit("__meta_ecs_cluster_");
        reveal_strlit("__meta_ecs_container_");
        reveal_strlit("__meta_ecs_container_instance_arn");
        reveal_strlit("__meta_ecs_desired_count");
        reveal_strlit("__meta_ecs_desired_status");
        reveal_strlit("__meta_ecs_health_status");
        reveal_strlit("__meta_ecs_ip_address");
        reveal_strlit("__meta_ecs_last_status");
        reveal_strlit("__meta_ecs_launch_type");
        reveal_strlit("__meta_ecs_metrics_port");
        reveal_strlit("__meta_ecs_network_mode");
        reveal_strlit("__meta_ecs_platform_family");
        reveal_strlit("__meta_ecs_platform_version");
        reveal_strlit("__meta_ecs_running_count");
        reveal_strlit("__meta_ecs_service");
        reveal_strlit("__meta_ecs_service_");
        reveal_strlit("__meta_ecs_subnet_id");
        reveal_strlit("__meta_ecs_tag_");
        reveal_strlit("__meta_ecs_tag_cluster_");
        reveal_strlit("__meta_ecs_tag_service_");
        reveal_strlit("__meta_ecs_tag_task_");
        reveal_strlit("__meta_ecs_task_");
        reveal_strlit("__scheme__");
        lemma_differ_at("__scheme__"@, "__meta_ecs_tag_task_"@, 2);
        lemma_differ_at("__scheme__"@, "__meta_ecs_tag_service_"@, 2);
        lemma_differ_at("__scheme__"@, "__meta_ecs_tag_cluster_"@, 2);
        lemma_differ_at("__scheme__"@, "__meta_ecs_tag_"@, 2);
        lemma_differ_at("__scheme__"@, "__meta_ecs_container_instance_arn"@, 2);
        lemma_differ_at("__scheme__"@, "__meta_ecs_container_"@, 2);
        lemma_differ_at("__scheme__"@, "__meta_ecs_metrics_port"@, 2);
        lemma_differ_at("__scheme__"@, "__meta_ecs_ip_address"@, 2);
        lemma_differ_at("__scheme__"@, "__meta_ecs_network_mode"@, 2);
        lemma_differ_at("__scheme__"@, "__meta_ecs_subnet_id"@, 2);
        lemma_differ_at("__scheme__"@, "__meta_ecs_task_"@, 2);
        lemma_differ_at("__scheme__"@, "__meta_ecs_launch_type"@, 2);
        lemma_differ_at("__scheme__"@, "__meta_ecs_desired_status"@, 2);
        lemma_differ_at("__scheme__"@, "__meta_ecs_last_status"@, 2);
        lemma_differ_at("__scheme__"@, "__meta_ecs_health_status"@, 2);
        lemma_differ_at("__scheme__"@, "__meta_ecs_platform_family"@, 2);
        lemma_differ_at("__scheme__"@, "__meta_ecs_platform_version"@, 2);
        lemma_differ_at("__scheme__"@, "__meta_ecs_service_"@, 2);
        lemma_differ_at("__scheme__"@, "__meta_ecs_service"@, 2);
        lemma_differ_at("__scheme__"@, "__meta_ecs_desired_count"@, 2);
        lemma_differ_at("__scheme__"@, "__meta_ecs_running_count"@, 2);
        lemma_differ_at("__scheme__"@, "__meta_ecs_cluster_"@, 2);
        lemma_differ_at("__scheme__"@, "__meta_ecs_cluster"@, 2);
        lemma_differ_at("__scheme__"@, "__meta_ecs_"@, 2);
    }
    assert(tier_level("__metrics_path__"@) == MetadataLevel::Container) by {
        reveal_strlit("__meta_ecs_");
        reveal_strlit("__meta_ecs_cluster");
        reveal_strlit("__meta_ecs_cluster_");
        reveal_strlit("__meta_ecs_container_");
        reveal_strlit("__meta_ecs_container_instance_arn");
        reveal_strlit("__meta_ecs_desired_count");
        reveal_strlit("__meta_ecs_desired_status");
        reveal_strlit("__meta_ecs_health_status");
        reveal_strlit("__meta_ecs_ip_address");
        reveal_strlit("__meta_ecs_last_status");
        reveal_strlit("__meta_ecs_launch_type");
        reveal_strlit("__meta_ecs_metrics_port");
        reveal_strlit("__meta_ecs_network_mode");
        reveal_strlit("__meta_ecs_platform_family");
        reveal_strlit("__meta_ecs_platform_version");
        reveal_strlit("__meta_ecs_running_count");
        reveal_strlit("__meta_ecs_service");
        reveal_strlit("__meta_ecs_service_");
        reveal_strlit("__meta_ecs_subnet_id");
        reveal_strlit("__meta_ecs_tag_");
        reveal_strlit("__meta_ecs_tag_cluster_");
        reveal_strlit("__meta_ecs_tag_service_");
        reveal_strlit("__meta_ecs_tag_task_");
        reveal_strlit("__meta_ecs_task_");
        reveal_strlit("__metrics_path__");
        lemma_differ_at("__metrics_path__"@, "__meta_ecs_tag_task_"@, 5);
        lemma_differ_at("__metrics_path__"@, "__meta_ecs_tag_service_"@, 5);
        lemma_differ_at("__metrics_path__"@, "__meta_ecs_tag_cluster_"@, 5);
        lemma_differ_at("__metrics_path__"@, "__meta_ecs_tag_"@, 5);
        lemma_differ_at("__metrics_path__"@, "__meta_ecs_container_instance_arn"@, 5);
        lemma_differ_at("__metrics_path__"@, "__meta_ecs_container_"@, 5);
        lemma_differ_at("__metrics_path__"@, "__meta_ecs_metrics_port"@, 5);
        lemma_differ_at("__metrics_path__"@, "__meta_ecs_ip_address"@, 5);
        lemma_differ_at("__metrics_path__"@, "__meta_ecs_network_mode"@, 5);
        lemma_differ_at("__metrics_path__"@, "__meta_ecs_subnet_id"@, 5);
        lemma_differ_at("__metrics_path__"@, "__meta_ecs_task_"@, 5);
        lemma_differ_at("__metrics_path__"@, "__meta_ecs_launch_type"@, 5);
        lemma_differ_at("__metrics_path__"@, "__meta_ecs_desired_status"@, 5);
        lemma_differ_at("__metrics_path__"@, "__meta_ecs_last_status"@, 5);
        lemma_differ_at("__metrics_path__"@, "__meta_ecs_health_status"@, 5);
        lemma_differ_at("__metrics_path__"@, "__meta_ecs_platform_family"@, 5);
        lemma_differ_at("__metrics_path__"@, "__meta_ecs_platform_version"@, 5);
        lemma_differ_at("__metrics_path__"@, "__meta_ecs_service_"@, 5);
        lemma_differ_at("__metrics_path__"@, "__meta_ecs_service"@, 5);
        lemma_differ_at("__metrics_path__"@, "__meta_ecs_desired_count"@, 5);
        lemma_differ_at("__metrics_path__"@, "__meta_ecs_running_count"@, 5);
        lemma_differ_at("__metrics_path__"@, "__meta_ecs_cluster_"@, 5);
        lemma_differ_at("__metrics_path__"@, "__meta_ecs_cluster"@, 5);
        lemma_differ_at("__metrics_path__"@, "__meta_ecs_"@, 5);
    }
}

/// The task labels that the builder writes are those of the task tier.
pub proof fn lemma_task_label_levels()
    ensures
        tier_level("__meta_ecs_task_arn"@) == MetadataLevel::Task,
        tier_level("__meta_ecs_task_definition"@) == MetadataLevel::Task,
        tier_level("__meta_ecs_task_family"@) == MetadataLevel::Task,
        tier_level("__meta_ecs_task_version"@) == MetadataLevel::Task,
        tier_level("__meta_ecs_launch_type"@) == MetadataLevel::Task,
        tier_level("__meta_ecs_task_group"@) == MetadataLevel::Task,
        tier_level("__meta_ecs_desired_status"@) == MetadataLevel::Task,
        tier_level("__meta_ecs_last_status"@) == MetadataLevel::Task,
        tier_level("__meta_ecs_health_status"@) == MetadataLevel::Task,
        tier_level("__meta_ecs_platform_family"@) == MetadataLevel::Task,
        tier_level("__meta_ecs_platform_version"@) == MetadataLevel::Task,
{
    assert(tier_level("__meta_ecs_task_arn"@) == MetadataLevel::Task) by {
        reveal_strlit("__meta_ecs_container_");
        reveal_strlit("__meta_ecs_container_instance_arn");
        reveal_strlit("__meta_ecs_ip_address");
        reveal_strlit("__meta_ecs_metrics_port");
        reveal_strlit("__meta_ecs_network_mode");
        reveal_strlit("__meta_ecs_subnet_id");
        reveal_strlit("__meta_ecs_tag_");
        reveal_strlit("__meta_ecs_tag_cluster_");
        reveal_strlit("__meta_ecs_tag_service_");
        reveal_strlit("__meta_ecs_tag_task_");
        reveal_strlit("__meta_ecs_task_");
        reveal_strlit("__meta_ecs_task_arn");
        lemma_differ_at("__meta_ecs_task_arn"@, "__meta_ecs_tag_task_"@, 13);
        lemma_differ_at("__meta_ecs_task_arn"@, "__meta_ecs_tag_service_"@, 13);
        lemma_differ_at("__meta_ecs_task_arn"@, "__meta_ecs_tag_cluster_"@, 13);
        lemma_differ_at("__meta_ecs_task_arn"@, "__meta_ecs_tag_"@, 13);
        lemma_differ_at("__meta_ecs_task_arn"@, "__meta_ecs_container_instance_arn"@, 11);
        lemma_differ_at("__meta_ecs_task_arn"@, "__meta_ecs_container_"@, 11);
        lemma_differ_at("__meta_ecs_task_arn"@, "__meta_ecs_metrics_port"@, 11);
        lemma_differ_at("__meta_ecs_task_arn"@, "__meta_ecs_ip_address"@, 11);
        lemma_differ_at("__meta_ecs_task_arn"@, "__meta_ecs_network_mode"@, 11);
        lemma_differ_at("__meta_ecs_task_arn"@, "__meta_ecs_subnet_id"@, 11);
        assert("__meta_ecs_task_arn"@.take(16) =~= "__meta_ecs_task_"@);
    }
    assert(tier_level("__meta_ecs_task_definition"@) == MetadataLevel::Task) by {
        reveal_strlit("__meta_ecs_container_");
        reveal_strlit("__meta_ecs_container_instance_arn");
        reveal_strlit("__meta_ecs_ip_address");
        reveal_strlit("__meta_ecs_metrics_port");
        reveal_strlit("__meta_ecs_network_mode");
        reveal_strlit("__meta_ecs_subnet_id");
        reveal_strlit("__meta_ecs_tag_");
        reveal_strlit("__meta_ecs_tag_cluster_");
        reveal_strlit("__meta_ecs_tag_service_");
        reveal_strlit("__meta_ecs_tag_task_");
        reveal_strlit("__meta_ecs_task_");
        reveal_strlit("__meta_ecs_task_definition");
        lemma_differ_at("__meta_ecs_task_definition"@, "__meta_ecs_tag_task_"@, 13);
        lemma_differ_at("__meta_ecs_task_definition"@, "__meta_ecs_tag_service_"@, 13);
        lemma_differ_at("__meta_ecs_task_definition"@, "__meta_ecs_tag_cluster_"@, 13);
        lemma_differ_at("__meta_ecs_task_definition"@, "__meta_ecs_tag_"@, 13);
        lemma_differ_at("__meta_ecs_task_definition"@, "__meta_ecs_container_instance_arn"@, 11);
        lemma_differ_at("__meta_ecs_task_definition"@, "__meta_ecs_container_"@, 11);
        lemma_differ_at("__meta_ecs_task_definition"@, "__meta_ecs_metrics_port"@, 11);
        lemma_differ_at("__meta_ecs_task_definition"@, "__meta_ecs_ip_address"@, 11);
        lemma_differ_at("__meta_ecs_task_definition"@, "__meta_ecs_network_mode"@, 11);
        lemma_differ_at("__meta_ecs_task_definition"@, "__meta_ecs_subnet_id"@, 11);
        assert("__meta_ecs_task_definition"@.take(16) =~= "__meta_ecs_task_"@);
    }
    assert(tier_level("__meta_ecs_task_family"@) == MetadataLevel::Task) by {
        reveal_strlit("__meta_ecs_container_");
        reveal_strlit("__meta_ecs_container_instance_arn");
        reveal_strlit("__meta_ecs_ip_address");
        reveal_strlit("__meta_ecs_metrics_port");
        reveal_strlit("__meta_ecs_network_mode");
        reveal_strlit("__meta_ecs_subnet_id");
        reveal_strlit("__meta_ecs_tag_");
        reveal_strlit("__meta_ecs_tag_cluster_");
        reveal_strlit("__meta_ecs_tag_service_");
        reveal_strlit("__meta_ecs_tag_task_");
        reveal_strlit("__meta_ecs_task_");
        reveal_strlit("__meta_ecs_task_family");
        lemma_differ_at("__meta_ecs_task_family"@, "__meta_ecs_tag_task_"@, 13);
        lemma_differ_at("__meta_ecs_task_family"@, "__meta_ecs_tag_service_"@, 13);
        lemma_differ_at("__meta_ecs_task_family"@, "__meta_ecs_tag_cluster_"@, 13);
        lemma_differ_at("__meta_ecs_task_family"@, "__meta_ecs_tag_"@, 13);
        lemma_differ_at("__meta_ecs_task_family"@, "__meta_ecs_container_instance_arn"@, 11);
        lemma_differ_at("__meta_ecs_task_family"@, "__meta_ecs_container_"@, 11);
        lemma_differ_at("__meta_ecs_task_family"@, "__meta_ecs_metrics_port"@, 11);
        lemma_differ_at("__meta_ecs_task_family"@, "__meta_ecs_ip_address"@, 11);
        lemma_differ_at("__meta_ecs_task_family"@, "__meta_ecs_network_mode"@, 11);
        lemma_differ_at("__meta_ecs_task_family"@, "__meta_ecs_subnet_id"@, 11);
        assert("__meta_ecs_task_family"@.take(16) =~= "__meta_ecs_task_"@);
    }
    assert(tier_level("__meta_ecs_task_version"@) == MetadataLevel::Task) by {
        reveal_strlit("__meta_ecs_container_");
        reveal_strlit("__meta_ecs_container_instance_arn");
        reveal_strlit("__meta_ecs_ip_address");
        reveal_strlit("__meta_ecs_metrics_port");
        reveal_strlit("__meta_ecs_network_mode");
        reveal_strlit("__meta_ecs_subnet_id");
        reveal_strlit("__meta_ecs_tag_");
        reveal_strlit("__meta_ecs_tag_cluster_");
        reveal_strlit("__meta_ecs_tag_service_");
        reveal_strlit("__meta_ecs_tag_task_");
        reveal_strlit("__meta_ecs_task_");
        reveal_strlit("__meta_ecs_task_version");
        lemma_differ_at("__meta_ecs_task_version"@, "__meta_ecs_tag_task_"@, 13);
        lemma_differ_at("__meta_ecs_task_version"@, "__meta_ecs_tag_service_"@, 13);
        lemma_differ_at("__meta_ecs_task_version"@, "__meta_ecs_tag_cluster_"@, 13);
        lemma_differ_at("__meta_ecs_task_version"@, "__meta_ecs_tag_"@, 13);
        lemma_differ_at("__meta_ecs_task_version"@, "__meta_ecs_container_instance_arn"@, 11);
        lemma_differ_at("__meta_ecs_task_version"@, "__meta_ecs_container_"@, 11);
        lemma_differ_at("__meta_ecs_task_version"@, "__meta_ecs_metrics_port"@, 11);
        lemma_differ_at("__meta_ecs_task_version"@, "__meta_ecs_ip_address"@, 11);
        lemma_differ_at("__meta_ecs_task_version"@, "__meta_ecs_network_mode"@, 11);
        lemma_differ_at("__meta_ecs_task_version"@, "__meta_ecs_subnet_id"@, 11);
        assert("__meta_ecs_task_version"@.take(16) =~= "__meta_ecs_task_"@);
    }
    assert(tier_level("__meta_ecs_launch_type"@) == MetadataLevel::Task) by {
        reveal_strlit("__meta_ecs_container_");
        reveal_strlit("__meta_ecs_container_instance_arn");
        reveal_strlit("__meta_ecs_ip_address");
        reveal_strlit("__meta_ecs_launch_type");
        reveal_strlit("__meta_ecs_metrics_port");
        reveal_strlit("__meta_ecs_network_mode");
        reveal_strlit("__meta_ecs_subnet_id");
        reveal_strlit("__meta_ecs_tag_");
        reveal_strlit("__meta_ecs_tag_cluster_");
        reveal_strlit("__meta_ecs_tag_service_");
        reveal_strlit("__meta_ecs_tag_task_");
        reveal_strlit("__meta_ecs_task_");
        lemma_differ_at("__meta_ecs_launch_type"@, "__meta_ecs_tag_task_"@, 11);
        lemma_differ_at("__meta_ecs_launch_type"@, "__meta_ecs_tag_service_"@, 11);
        lemma_differ_at("__meta_ecs_launch_type"@, "__meta_ecs_tag_cluster_"@, 11);
        lemma_differ_at("__meta_ecs_launch_type"@, "__meta_ecs_tag_"@, 11);
        lemma_differ_at("__meta_ecs_launch_type"@, "__meta_ecs_container_instance_arn"@, 11);
        lemma_differ_at("__meta_ecs_launch_type"@, "__meta_ecs_container_"@, 11);
        lemma_differ_at("__meta_ecs_launch_type"@, "__meta_ecs_metrics_port"@, 11);
        lemma_differ_at("__meta_ecs_launch_type"@, "__meta_ecs_ip_address"@, 11);
        lemma_differ_at("__meta_ecs_launch_type"@, "__meta_ecs_network_mode"@, 11);
        lemma_differ_at("__meta_ecs_launch_type"@, "__meta_ecs_subnet_id"@, 11);
        lemma_differ_at("__meta_ecs_launch_type"@, "__meta_ecs_task_"@, 11);
    }
    assert(tier_level("__meta_ecs_task_group"@) == MetadataLevel::Task) by {
        reveal_strlit("__meta_ecs_container_");
        reveal_strlit("__meta_ecs_container_instance_arn");
        reveal_strlit("__meta_ecs_ip_address");
        reveal_strlit("__meta_ecs_metrics_port");
        reveal_strlit("__meta_ecs_network_mode");
        reveal_strlit("__meta_ecs_subnet_id");
        reveal_strlit("__meta_ecs_tag_");
        reveal_strlit("__meta_ecs_tag_cluster_");
        reveal_strlit("__meta_ecs_tag_service_");
        reveal_strlit("__meta_ecs_tag_task_");
        reveal_strlit("__meta_ecs_task_");
        reveal_strlit("__meta_ecs_task_group");
        lemma_differ_at("__meta_ecs_task_group"@, "__meta_ecs_tag_task_"@, 13);
        lemma_differ_at("__meta_ecs_task_group"@, "__meta_ecs_tag_service_"@, 13);
        lemma_differ_at("__meta_ecs_task_group"@, "__meta_ecs_tag_cluster_"@, 13);
        lemma_differ_at("__meta_ecs_task_group"@, "__meta_ecs_tag_"@, 13);
        lemma_differ_at("__meta_ecs_task_group"@, "__meta_ecs_container_instance_arn"@, 11);
        lemma_differ_at("__meta_ecs_task_group"@, "__meta_ecs_container_"@, 11);
        lemma_differ_at("__meta_ecs_task_group"@, "__meta_ecs_metrics_port"@, 11);
        lemma_differ_at("__meta_ecs_task_group"@, "__meta_ecs_ip_address"@, 11);
        lemma_differ_at("__meta_ecs_task_group"@, "__meta_ecs_network_mode"@, 11);
        lemma_differ_at("__meta_ecs_task_group"@, "__meta_ecs_subnet_id"@, 11);
        assert("__meta_ecs_task_group"@.take(16) =~= "__meta_ecs_task_"@);
    }
    assert(tier_level("__meta_ecs_desired_status"@) == MetadataLevel::Task) by {
        reveal_strlit("__meta_ecs_container_");
        reveal_strlit("__meta_ecs_container_instance_arn");
        reveal_strlit("__meta_ecs_desired_status");
        reveal_strlit("__meta_ecs_ip_address");
        reveal_strlit("__meta_ecs_launch_type");
        reveal_strlit("__meta_ecs_metrics_port");
        reveal_strlit("__meta_ecs_network_mode");
        reveal_strlit("__meta_ecs_subnet_id");
        reveal_strlit("__meta_ecs_tag_");
        reveal_strlit("__meta_ecs_tag_cluster_");
        reveal_strlit("__meta_ecs_tag_service_");
        reveal_strlit("__meta_ecs_tag_task_");
        reveal_strlit("__meta_ecs_task_");
        lemma_differ_at("__meta_ecs_desired_status"@, "__meta_ecs_tag_task_"@, 11);
        lemma_differ_at("__meta_ecs_desired_status"@, "__meta_ecs_tag_service_"@, 11);
        lemma_differ_at("__meta_ecs_desired_status"@, "__meta_ecs_tag_cluster_"@, 11);
        lemma_differ_at("__meta_ecs_desired_status"@, "__meta_ecs_tag_"@, 11);
        lemma_differ_at("__meta_ecs_desired_status"@, "__meta_ecs_container_instance_arn"@, 11);
        lemma_differ_at("__meta_ecs_desired_status"@, "__meta_ecs_container_"@, 11);
        lemma_differ_at("__meta_ecs_desired_status"@, "__meta_ecs_metrics_port"@, 11);
        lemma_differ_at("__meta_ecs_desired_status"@, "__meta_ecs_ip_address"@, 11);
        lemma_differ_at("__meta_ecs_desired_status"@, "__meta_ecs_network_mode"@, 11);
        lemma_differ_at("__meta_ecs_desired_status"@, "__meta_ecs_subnet_id"@, 11);
        lemma_differ_at("__meta_ecs_desired_status"@, "__meta_ecs_task_"@, 11);
        lemma_differ_at("__meta_ecs_desired_status"@, "__meta_ecs_launch_type"@, 11);
    }
    assert(tier_level("__meta_ecs_last_status"@) == MetadataLevel::Task) by {
        reveal_strlit("__meta_ecs_container_");
        reveal_strlit("__meta_ecs_container_instance_arn");
        reveal_strlit("__meta_ecs_desired_status");
        reveal_strlit("__meta_ecs_ip_address");
        reveal_strlit("__meta_ecs_last_status");
        reveal_strlit("__meta_ecs_launch_type");
        reveal_strlit("__meta_ecs_metrics_port");
        reveal_strlit("__meta_ecs_network_mode");
        reveal_strlit("__meta_ecs_subnet_id");
        reveal_strlit("__meta_ecs_tag_");
        reveal_strlit("__meta_ecs_tag_cluster_");
        reveal_strlit("__meta_ecs_tag_service_");
        reveal_strlit("__meta_ecs_tag_task_");
        reveal_strlit("__meta_ecs_task_");
        lemma_differ_at("__meta_ecs_last_status"@, "__meta_ecs_tag_task_"@, 11);
        lemma_differ_at("__meta_ecs_last_status"@, "__meta_ecs_tag_service_"@, 11);
        lemma_differ_at("__meta_ecs_last_status"@, "__meta_ecs_tag_cluster_"@, 11);
        lemma_differ_at("__meta_ecs_last_status"@, "__meta_ecs_tag_"@, 11);
        lemma_differ_at("__meta_ecs_last_status"@, "__meta_ecs_container_instance_arn"@, 11);
        lemma_differ_at("__meta_ecs_last_status"@, "__meta_ecs_container_"@, 11);
        lemma_differ_at("__meta_ecs_last_status"@, "__meta_ecs_metrics_port"@, 11);
        lemma_differ_at("__meta_ecs_last_status"@, "__meta_ecs_ip_address"@, 11);
        lemma_differ_at("__meta_ecs_last_status"@, "__meta_ecs_network_mode"@, 11);
        lemma_differ_at("__meta_ecs_last_status"@, "__meta_ecs_subnet_id"@, 11);
        lemma_differ_at("__meta_ecs_last_status"@, "__meta_ecs_task_"@, 11);
        lemma_differ_at("__meta_ecs_last_status"@, "__meta_ecs_launch_type"@, 13);
        lemma_differ_at("__meta_ecs_last_status"@, "__meta_ecs_desired_status"@, 11);
    }
    assert(tier_level("__meta_ecs_health_status"@) == MetadataLevel::Task) by {
        reveal_strlit("__meta_ecs_container_");
        reveal_strlit("__meta_ecs_container_instance_arn");
        reveal_strlit("__meta_ecs_desired_status");
        reveal_strlit("__meta_ecs_health_status");
        reveal_strlit("__meta_ecs_ip_address");
        reveal_strlit("__meta_ecs_last_status");
        reveal_strlit("__meta_ecs_launch_type");
        reveal_strlit("__meta_ecs_metrics_port");
        reveal_strlit("__meta_ecs_network_mode");
        reveal_strlit("__meta_ecs_subnet_id");
        reveal_strlit("__meta_ecs_tag_");
        reveal_strlit("__meta_ecs_tag_cluster_");
        reveal_strlit("__meta_ecs_tag_service_");
        reveal_strlit("__meta_ecs_tag_task_");
        reveal_strlit("__meta_ecs_task_");
        lemma_differ_at("__meta_ecs_health_status"@, "__meta_ecs_tag_task_"@, 11);
        lemma_differ_at("__meta_ecs_health_status"@, "__meta_ecs_tag_service_"@, 11);
        lemma_differ_at("__meta_ecs_health_status"@, "__meta_ecs_tag_cluster_"@, 11);
        lemma_differ_at("__meta_ecs_health_status"@, "__meta_ecs_tag_"@, 11);
        lemma_differ_at("__meta_ecs_health_status"@, "__meta_ecs_container_instance_arn"@, 11);
        lemma_differ_at("__meta_ecs_health_status"@, "__meta_ecs_container_"@, 11);
        lemma_differ_at("__meta_ecs_health_status"@, "__meta_ecs_metrics_port"@, 11);
        lemma_differ_at("__meta_ecs_health_status"@, "__meta_ecs_ip_address"@, 11);
        lemma_differ_at("__meta_ecs_health_status"@, "__meta_ecs_network_mode"@, 11);
        lemma_differ_at("__meta_ecs_health_status"@, "__meta_ecs_subnet_id"@, 11);
        lemma_differ_at("__meta_ecs_health_status"@, "__meta_ecs_task_"@, 11);
        lemma_differ_at("__meta_ecs_health_status"@, "__meta_ecs_launch_type"@, 11);
        lemma_differ_at("__meta_ecs_health_status"@, "__meta_ecs_desired_status"@, 11);
        lemma_differ_at("__meta_ecs_health_status"@, "__meta_ecs_last_status"@, 11);
    }
    assert(tier_level("__meta_ecs_platform_family"@) == MetadataLevel::Task) by {
        reveal_strlit("__meta_ecs_container_");
        reveal_strlit("__meta_ecs_container_instance_arn");
        reveal_strlit("__meta_ecs_desired_status");
        reveal_strlit("__meta_ecs_health_status");
        reveal_strlit("__meta_ecs_ip_address");
        reveal_strlit("__meta_ecs_last_status");
        reveal_strlit("__meta_ecs_launch_type");
        reveal_strlit("__meta_ecs_metrics_port");
        reveal_strlit("__meta_ecs_network_mode");
        reveal_strlit("__meta_ecs_platform_family");
        reveal_strlit("__meta_ecs_subnet_id");
        reveal_strlit("__meta_ecs_tag_");
        reveal_strlit("__meta_ecs_tag_cluster_");
        reveal_strlit("__meta_ecs_tag_service_");
        reveal_strlit("__meta_ecs_tag_task_");
        reveal_strlit("__meta_ecs_task_");
        lemma_differ_at("__meta_ecs_platform_family"@, "__meta_ecs_tag_task_"@, 11);
        lemma_differ_at("__meta_ecs_platform_family"@, "__meta_ecs_tag_service_"@, 11);
        lemma_differ_at("__meta_ecs_platform_family"@, "__meta_ecs_tag_cluster_"@, 11);
        lemma_differ_at("__meta_ecs_platform_family"@, "__meta_ecs_tag_"@, 11);
        lemma_differ_at("__meta_ecs_platform_family"@, "__meta_ecs_container_instance_arn"@, 11);
        lemma_differ_at("__meta_ecs_platform_family"@, "__meta_ecs_container_"@, 11);
        lemma_differ_at("__meta_ecs_platform_family"@, "__meta_ecs_metrics_port"@, 11);
        lemma_differ_at("__meta_ecs_platform_family"@, "__meta_ecs_ip_address"@, 11);
        lemma_differ_at("__meta_ecs_platform_family"@, "__meta_ecs_network_mode"@, 11);
        lemma_differ_at("__meta_ecs_platform_family"@, "__meta_ecs_subnet_id"@, 11);
        lemma_differ_at("__meta_ecs_platform_family"@, "__meta_ecs_task_"@, 11);
        lemma_differ_at("__meta_ecs_platform_family"@, "__meta_ecs_launch_type"@, 11);
        lemma_differ_at("__meta_ecs_platform_family"@, "__meta_ecs_desired_status"@, 11);
        lemma_differ_at("__meta_ecs_platform_family"@, "__meta_ecs_last_status"@, 11);
        lemma_differ_at("__meta_ecs_platform_family"@, "__meta_ecs_health_status"@, 11);
    }
    assert(tier_level("__meta_ecs_platform_version"@) == MetadataLevel::Task) by {
        reveal_strlit("__meta_ecs_container_");
        reveal_strlit("__meta_ecs_container_instance_arn");
        reveal_strlit("__meta_ecs_desired_status");
        reveal_strlit("__meta_ecs_health_status");
        reveal_strlit("__meta_ecs_ip_address");
        reveal_strlit("__meta_ecs_last_status");
        reveal_strlit("__meta_ecs_launch_type");
        reveal_strlit("__meta_ecs_metrics_port");
        reveal_strlit("__meta_ecs_network_mode");
        reveal_strlit("__meta_ecs_platform_family");
        reveal_strlit("__meta_ecs_platform_version");
        reveal_strlit("__meta_ecs_subnet_id");
        reveal_strlit("__meta_ecs_tag_");
        reveal_strlit("__meta_ecs_tag_cluster_");
        reveal_strlit("__meta_ecs_tag_service_");
        reveal_strlit("__meta_ecs_tag_task_");
        reveal_strlit("__meta_ecs_task_");
        lemma_differ_at("__meta_ecs_platform_version"@, "__meta_ecs_tag_task_"@, 11);
        lemma_differ_at("__meta_ecs_platform_version"@, "__meta_ecs_tag_service_"@, 11);
        lemma_differ_at("__meta_ecs_platform_version"@, "__meta_ecs_tag_cluster_"@, 11);
        lemma_differ_at("__meta_ecs_platform_version"@, "__meta_ecs_tag_"@, 11);
        lemma_differ_at("__meta_ecs_platform_version"@, "__meta_ecs_container_instance_arn"@, 11);
        lemma_differ_at("__meta_ecs_platform_version"@, "__meta_ecs_container_"@, 11);
        lemma_differ_at("__meta_ecs_platform_version"@, "__meta_ecs_metrics_port"@, 11);
        lemma_differ_at("__meta_ecs_platform_version"@, "__meta_ecs_ip_address"@, 11);
        lemma_differ_at("__meta_ecs_platform_version"@, "__meta_ecs_network_mode"@, 11);
        lemma_differ_at("__meta_ecs_platform_version"@, "__meta_ecs_subnet_id"@, 11);
        lemma_differ_at("__meta_ecs_platform_version"@, "__meta_ecs_task_"@, 11);
        lemma_differ_at("__meta_ecs_platform_version"@, "__meta_ecs_launch_type"@, 11);
        lemma_differ_at("__meta_ecs_platform_version"@, "__meta_ecs_desired_status"@, 11);
        lemma_differ_at("__meta_ecs_platform_version"@, "__meta_ecs_last_status"@, 11);
        lemma_differ_at("__meta_ecs_platform_version"@, "__meta_ecs_health_status"@, 11);
        lemma_differ_at("__meta_ecs_platform_version"@, "__meta_ecs_platform_family"@, 20);
    }
}

/// The service labels that the builder writes are those of the service tier.
pub proof fn lemma_service_label_levels()
    ensures
        tier_level("__meta_ecs_service_name"@) == MetadataLevel::Service,
        tier_level("__meta_ecs_service"@) == MetadataLevel::Service,
        tier_level("__meta_ecs_service_arn"@) == MetadataLevel::Service,
        tier_level("__meta_ecs_service_status"@) == MetadataLevel::Service,
        tier_level("__meta_ecs_desired_count"@) == MetadataLevel::Service,
        tier_level("__meta_ecs_running_count"@) == MetadataLevel::Service,
{
    assert(tier_level("__meta_ecs_service_name"@) == MetadataLevel::Service) by {
        reveal_strlit("__meta_ecs_container_");
        reveal_strlit("__meta_ecs_container_instance_arn");
        reveal_strlit("__meta_ecs_desired_status");
        reveal_strlit("__meta_ecs_health_status");
        reveal_strlit("__meta_ecs_ip_address");
        reveal_strlit("__meta_ecs_last_status");
        reveal_strlit("__meta_ecs_launch_type");
        reveal_strlit("__meta_ecs_metrics_port");
        reveal_strlit("__meta_ecs_network_mode");
        reveal_strlit("__meta_ecs_platform_family");
        reveal_strlit("__meta_ecs_platform_version");
        reveal_strlit("__meta_ecs_service_");
        reveal_strlit("__meta_ecs_service_name");
        reveal_strlit("__meta_ecs_subnet_id");
        reveal_strlit("__meta_ecs_tag_");
        reveal_strlit("__meta_ecs_tag_cluster_");
        reveal_strlit("__meta_ecs_tag_service_");
        reveal_strlit("__meta_ecs_tag_task_");
        reveal_strlit("__meta_ecs_task_");
        lemma_differ_at("__meta_ecs_service_name"@, "__meta_ecs_tag_task_"@, 11);
        lemma_differ_at("__meta_ecs_service_name"@, "__meta_ecs_tag_service_"@, 11);
        lemma_differ_at("__meta_ecs_service_name"@, "__meta_ecs_tag_cluster_"@, 11);
        lemma_differ_at("__meta_ecs_service_name"@, "__meta_ecs_tag_"@, 11);
        lemma_differ_at("__meta_ecs_service_name"@, "__meta_ecs_container_instance_arn"@, 11);
        lemma_differ_at("__meta_ecs_service_name"@, "__meta_ecs_container_"@, 11);
        lemma_differ_at("__meta_ecs_service_name"@, "__meta_ecs_metrics_port"@, 11);
        lemma_differ_at("__meta_ecs_service_name"@, "__meta_ecs_ip_address"@, 11);
        lemma_differ_at("__meta_ecs_service_name"@, "__meta_ecs_network_mode"@, 11);
        lemma_differ_at("__meta_ecs_service_name"@, "__meta_ecs_subnet_id"@, 12);
        lemma_differ_at("__meta_ecs_service_name"@, "__meta_ecs_task_"@, 11);
        lemma_differ_at("__meta_ecs_service_name"@, "__meta_ecs_launch_type"@, 11);
        lemma_differ_at("__meta_ecs_service_name"@, "__meta_ecs_desired_status"@, 11);
        lemma_differ_at("__meta_ecs_service_name"@, "__meta_ecs_last_status"@, 11);
        lemma_differ_at("__meta_ecs_service_name"@, "__meta_ecs_health_status"@, 11);
        lemma_differ_at("__meta_ecs_service_name"@, "__meta_ecs_platform_family"@, 11);
        lemma_differ_at("__meta_ecs_service_name"@, "__meta_ecs_platform_version"@, 11);
        assert("__meta_ecs_service_name"@.take(19) =~= "__meta_ecs_service_"@);
    }
    assert(tier_level("__meta_ecs_service"@) == MetadataLevel::Service) by {
        reveal_strlit("__meta_ecs_container_");
        reveal_strlit("__meta_ecs_container_instance_arn");
        reveal_strlit("__meta_ecs_desired_status");
        reveal_strlit("__meta_ecs_health_status");
        reveal_strlit("__meta_ecs_ip_address");
        reveal_strlit("__meta_ecs_last_status");
        reveal_strlit("__meta_ecs_launch_type");
        reveal_strlit("__meta_ecs_metrics_port");
        reveal_strlit("__meta_ecs_network_mode");
        reveal_strlit("__meta_ecs_platform_family");
        reveal_strlit("__meta_ecs_platform_version");
        reveal_strlit("__meta_ecs_service");
        reveal_strlit("__meta_ecs_service_");
        reveal_strlit("__meta_ecs_subnet_id");
        reveal_strlit("__meta_ecs_tag_");
        reveal_strlit("__meta_ecs_tag_cluster_");
        reveal_strlit("__meta_ecs_tag_service_");
        reveal_strlit("__meta_ecs_tag_task_");
        reveal_strlit("__meta_ecs_task_");
        lemma_differ_at("__meta_ecs_service"@, "__meta_ecs_tag_task_"@, 11);
        lemma_differ_at("__meta_ecs_service"@, "__meta_ecs_tag_service_"@, 11);
        lemma_differ_at("__meta_ecs_service"@, "__meta_ecs_tag_cluster_"@, 11);
        lemma_differ_at("__meta_ecs_service"@, "__meta_ecs_tag_"@, 11);
        lemma_differ_at("__meta_ecs_service"@, "__meta_ecs_container_instance_arn"@, 11);
        lemma_differ_at("__meta_ecs_service"@, "__meta_ecs_container_"@, 11);
        lemma_differ_at("__meta_ecs_service"@, "__meta_ecs_metrics_port"@, 11);
        lemma_differ_at("__meta_ecs_service"@, "__meta_ecs_ip_address"@, 11);
        lemma_differ_at("__meta_ecs_service"@, "__meta_ecs_network_mode"@, 11);
        lemma_differ_at("__meta_ecs_service"@, "__meta_ecs_subnet_id"@, 12);
        lemma_differ_at("__meta_ecs_service"@, "__meta_ecs_task_"@, 11);
        lemma_differ_at("__meta_ecs_service"@, "__meta_ecs_launch_type"@, 11);
        lemma_differ_at("__meta_ecs_service"@, "__meta_ecs_desired_status"@, 11);
        lemma_differ_at("__meta_ecs_service"@, "__meta_ecs_last_status"@, 11);
        lemma_differ_at("__meta_ecs_service"@, "__meta_ecs_health_status"@, 11);
        lemma_differ_at("__meta_ecs_service"@, "__meta_ecs_platform_family"@, 11);
        lemma_differ_at("__meta_ecs_service"@, "__meta_ecs_platform_version"@, 11);
    }
    assert(tier_level("__meta_ecs_service_arn"@) == MetadataLevel::Service) by {
        reveal_strlit("__meta_ecs_container_");
        reveal_strlit("__meta_ecs_container_instance_arn");
        reveal_strlit("__meta_ecs_desired_status");
        reveal_strlit("__meta_ecs_health_status");
        reveal_strlit("__meta_ecs_ip_address");
        reveal_strlit("__meta_ecs_last_status");
        reveal_strlit("__meta_ecs_launch_type");
        reveal_strlit("__meta_ecs_metrics_port");
        reveal_strlit("__meta_ecs_network_mode");
        reveal_strlit("__meta_ecs_platform_family");
        reveal_strlit("__meta_ecs_platform_version");
        reveal_strlit("__meta_ecs_service_");
        reveal_strlit("__meta_ecs_service_arn");
        reveal_strlit("__meta_ecs_subnet_id");
        reveal_strlit("__meta_ecs_tag_");
        reveal_strlit("__meta_ecs_tag_cluster_");
        reveal_strlit("__meta_ecs_tag_service_");
        reveal_strlit("__meta_ecs_tag_task_");
        reveal_strlit("__meta_ecs_task_");
        lemma_differ_at("__meta_ecs_service_arn"@, "__meta_ecs_tag_task_"@, 11);
        lemma_differ_at("__meta_ecs_service_arn"@, "__meta_ecs_tag_service_"@, 11);
        lemma_differ_at("__meta_ecs_service_arn"@, "__meta_ecs_tag_cluster_"@, 11);
        lemma_differ_at("__meta_ecs_service_arn"@, "__meta_ecs_tag_"@, 11);
        lemma_differ_at("__meta_ecs_service_arn"@, "__meta_ecs_container_instance_arn"@, 11);
        lemma_differ_at("__meta_ecs_service_arn"@, "__meta_ecs_container_"@, 11);
        lemma_differ_at("__meta_ecs_service_arn"@, "__meta_ecs_metrics_port"@, 11);
        lemma_differ_at("__meta_ecs_service_arn"@, "__meta_ecs_ip_address"@, 11);
        lemma_differ_at("__meta_ecs_service_arn"@, "__meta_ecs_network_mode"@, 11);
        lemma_differ_at("__meta_ecs_service_arn"@, "__meta_ecs_subnet_id"@, 12);
        lemma_differ_at("__meta_ecs_service_arn"@, "__meta_ecs_task_"@, 11);
        lemma_differ_at("__meta_ecs_service_arn"@, "__meta_ecs_launch_type"@, 11);
        lemma_differ_at("__meta_ecs_service_arn"@, "__meta_ecs_desired_status"@, 11);
        lemma_differ_at("__meta_ecs_service_arn"@, "__meta_ecs_last_status"@, 11);
        lemma_differ_at("__meta_ecs_service_arn"@, "__meta_ecs_health_status"@, 11);
        lemma_differ_at("__meta_ecs_service_arn"@, "__meta_ecs_platform_family"@, 11);
        lemma_differ_at("__meta_ecs_service_arn"@, "__meta_ecs_platform_version"@, 11);
        assert("__meta_ecs_service_arn"@.take(19) =~= "__meta_ecs_service_"@);
    }
    assert(tier_level("__meta_ecs_service_status"@) == MetadataLevel::Service) by {
        reveal_strlit("__meta_ecs_container_");
        reveal_strlit("__meta_ecs_container_instance_arn");
        reveal_strlit("__meta_ecs_desired_status");
        reveal_strlit("__meta_ecs_health_status");
        reveal_strlit("__meta_ecs_ip_address");
        reveal_strlit("__meta_ecs_last_status");
        reveal_strlit("__meta_ecs_launch_type");
        reveal_strlit("__meta_ecs_metrics_port");
        reveal_strlit("__meta_ecs_network_mode");
        reveal_strlit("__meta_ecs_platform_family");
        reveal_strlit("__meta_ecs_platform_version");
        reveal_strlit("__meta_ecs_service_");
        reveal_strlit("__meta_ecs_service_status");
        reveal_strlit("__meta_ecs_subnet_id");
        reveal_strlit("__meta_ecs_tag_");
        reveal_strlit("__meta_ecs_tag_cluster_");
        reveal_strlit("__meta_ecs_tag_service_");
        reveal_strlit("__meta_ecs_tag_task_");
        reveal_strlit("__meta_ecs_task_");
        lemma_differ_at("__meta_ecs_service_status"@, "__meta_ecs_tag_task_"@, 11);
        lemma_differ_at("__meta_ecs_service_status"@, "__meta_ecs_tag_service_"@, 11);
        lemma_differ_at("__meta_ecs_service_status"@, "__meta_ecs_tag_cluster_"@, 11);
        lemma_differ_at("__meta_ecs_service_status"@, "__meta_ecs_tag_"@, 11);
        lemma_differ_at("__meta_ecs_service_status"@, "__meta_ecs_container_instance_arn"@, 11);
        lemma_differ_at("__meta_ecs_service_status"@, "__meta_ecs_container_"@, 11);
        lemma_differ_at("__meta_ecs_service_status"@, "__meta_ecs_metrics_port"@, 11);
        lemma_differ_at("__meta_ecs_service_status"@, "__meta_ecs_ip_address"@, 11);
        lemma_differ_at("__meta_ecs_service_status"@, "__meta_ecs_network_mode"@, 11);
        lemma_differ_at("__meta_ecs_service_status"@, "__meta_ecs_subnet_id"@, 12);
        lemma_differ_at("__meta_ecs_service_status"@, "__meta_ecs_task_"@, 11);
        lemma_differ_at("__meta_ecs_service_status"@, "__meta_ecs_launch_type"@, 11);
        lemma_differ_at("__meta_ecs_service_status"@, "__meta_ecs_desired_status"@, 11);
        lemma_differ_at("__meta_ecs_service_status"@, "__meta_ecs_last_status"@, 11);
        lemma_differ_at("__meta_ecs_service_status"@, "__meta_ecs_health_status"@, 11);
        lemma_differ_at("__meta_ecs_service_status"@, "__meta_ecs_platform_family"@, 11);
        lemma_differ_at("__meta_ecs_service_status"@, "__meta_ecs_platform_version"@, 11);
        assert("__meta_ecs_service_status"@.take(19) =~= "__meta_ecs_service_"@);
    }
    assert(tier_level("__meta_ecs_desired_count"@) == MetadataLevel::Service) by {
        reveal_strlit("__meta_ecs_container_");
        reveal_strlit("__meta_ecs_container_instance_arn");
        reveal_strlit("__meta_ecs_desired_count");
        reveal_strlit("__meta_ecs_desired_status");
        reveal_strlit("__meta_ecs_health_status");
        reveal_strlit("__meta_ecs_ip_address");
        reveal_strlit("__meta_ecs_last_status");
        reveal_strlit("__meta_ecs_launch_type");
        reveal_strlit("__meta_ecs_metrics_port");
        reveal_strlit("__meta_ecs_network_mode");
        reveal_strlit("__meta_ecs_platform_family");
        reveal_strlit("__meta_ecs_platform_version");
        reveal_strlit("__meta_ecs_service");
        reveal_strlit("__meta_ecs_service_");
        reveal_strlit("__meta_ecs_subnet_id");
        reveal_strlit("__meta_ecs_tag_");
        reveal_strlit("__meta_ecs_tag_cluster_");
        reveal_strlit("__meta_ecs_tag_service_");
        reveal_strlit("__meta_ecs_tag_task_");
        reveal_strlit("__meta_ecs_task_");
        lemma_differ_at("__meta_ecs_desired_count"@, "__meta_ecs_tag_task_"@, 11);
        lemma_differ_at("__meta_ecs_desired_count"@, "__meta_ecs_tag_service_"@, 11);
        lemma_differ_at("__meta_ecs_desired_count"@, "__meta_ecs_tag_cluster_"@, 11);
        lemma_differ_at("__meta_ecs_desired_count"@, "__meta_ecs_tag_"@, 11);
        lemma_differ_at("__meta_ecs_desired_count"@, "__meta_ecs_container_instance_arn"@, 11);
        lemma_differ_at("__meta_ecs_desired_count"@, "__meta_ecs_container_"@, 11);
        lemma_differ_at("__meta_ecs_desired_count"@, "__meta_ecs_metrics_port"@, 11);
        lemma_differ_at("__meta_ecs_desired_count"@, "__meta_ecs_ip_address"@, 11);
        lemma_differ_at("__meta_ecs_desired_count"@, "__meta_ecs_network_mode"@, 11);
        lemma_differ_at("__meta_ecs_desired_count"@, "__meta_ecs_subnet_id"@, 11);
        lemma_differ_at("__meta_ecs_desired_count"@, "__meta_ecs_task_"@, 11);
        lemma_differ_at("__meta_ecs_desired_count"@, "__meta_ecs_launch_type"@, 11);
        lemma_differ_at("__meta_ecs_desired_count"@, "__meta_ecs_desired_status"@, 19);
        lemma_differ_at("__meta_ecs_desired_count"@, "__meta_ecs_last_status"@, 11);
        lemma_differ_at("__meta_ecs_desired_count"@, "__meta_ecs_health_status"@, 11);
        lemma_differ_at("__meta_ecs_desired_count"@, "__meta_ecs_platform_family"@, 11);
        lemma_differ_at("__meta_ecs_desired_count"@, "__meta_ecs_platform_version"@, 11);
        lemma_differ_at("__meta_ecs_desired_count"@, "__meta_ecs_service_"@, 11);
        lemma_differ_at("__meta_ecs_desired_count"@, "__meta_ecs_service"@, 11);
    }
    assert(tier_level("__meta_ecs_running_count"@) == MetadataLevel::Service) by {
        reveal_strlit("__meta_ecs_container_");
        reveal_strlit("__meta_ecs_container_instance_arn");
        reveal_strlit("__meta_ecs_desired_count");
        reveal_strlit("__meta_ecs_desired_status");
        reveal_strlit("__meta_ecs_health_status");
        reveal_strlit("__meta_ecs_ip_address");
        reveal_strlit("__meta_ecs_last_status");
        reveal_strlit("__meta_ecs_launch_type");
        reveal_strlit("__meta_ecs_metrics_port");
        reveal_strlit("__meta_ecs_network_mode");
        reveal_strlit("__meta_ecs_platform_family");
        reveal_strlit("__meta_ecs_platform_version");
        reveal_strlit("__meta_ecs_running_count");
        reveal_strlit("__meta_ecs_service");
        reveal_strlit("__meta_ecs_service_");
        reveal_strlit("__meta_ecs_subnet_id");
        reveal_strlit("__meta_ecs_tag_");
        reveal_strlit("__meta_ecs_tag_cluster_");
        reveal_strlit("__meta_ecs_tag_service_");
        reveal_strlit("__meta_ecs_tag_task_");
        reveal_strlit("__meta_ecs_task_");
        lemma_differ_at("__meta_ecs_running_count"@, "__meta_ecs_tag_task_"@, 11);
        lemma_differ_at("__meta_ecs_running_count"@, "__meta_ecs_tag_service_"@, 11);
        lemma_differ_at("__meta_ecs_running_count"@, "__meta_ecs_tag_cluster_"@, 11);
        lemma_differ_at("__meta_ecs_running_count"@, "__meta_ecs_tag_"@, 11);
        lemma_differ_at("__meta_ecs_running_count"@, "__meta_ecs_container_instance_arn"@, 11);
        lemma_differ_at("__meta_ecs_running_count"@, "__meta_ecs_container_"@, 11);
        lemma_differ_at("__meta_ecs_running_count"@, "__meta_ecs_metrics_port"@, 11);
        lemma_differ_at("__meta_ecs_running_count"@, "__meta_ecs_ip_address"@, 11);
        lemma_differ_at("__meta_ecs_running_count"@, "__meta_ecs_network_mode"@, 11);
        lemma_differ_at("__meta_ecs_running_count"@, "__meta_ecs_subnet_id"@, 11);
        lemma_differ_at("__meta_ecs_running_count"@, "__meta_ecs_task_"@, 11);
        lemma_differ_at("__meta_ecs_running_count"@, "__meta_ecs_launch_type"@, 11);
        lemma_differ_at("__meta_ecs_running_count"@, "__meta_ecs_desired_status"@, 11);
        lemma_differ_at("__meta_ecs_running_count"@, "__meta_ecs_last_status"@, 11);
        lemma_differ_at("__meta_ecs_running_count"@, "__meta_ecs_health_status"@, 11);
        lemma_differ_at("__meta_ecs_running_count"@, "__meta_ecs_platform_family"@, 11);
        lemma_differ_at("__meta_ecs_running_count"@, "__meta_ecs_platform_version"@, 11);
        lemma_differ_at("__meta_ecs_running_count"@, "__meta_ecs_service_"@, 11);
        lemma_differ_at("__meta_ecs_running_count"@, "__meta_ecs_service"@, 11);
        lemma_differ_at("__meta_ecs_running_count"@, "__meta_ecs_desired_count"@, 11);
    }
}

/// The cluster labels that the builder writes are those of the cluster tier.
pub proof fn lemma_cluster_label_levels()
    ensures
        tier_level("__meta_ecs_cluster_name"@) == MetadataLevel::Cluster,
        tier_level("__meta_ecs_cluster"@) == MetadataLevel::Cluster,
        tier_level("__meta_ecs_cluster_arn"@) == MetadataLevel::Cluster,
{
    assert(tier_level("__meta_ecs_cluster_name"@) == MetadataLevel::Cluster) by {
        reveal_strlit("__meta_ecs_cluster_");
        reveal_strlit("__meta_ecs_cluster_name");
        reveal_strlit("__meta_ecs_container_");
        reveal_strlit("__meta_ecs_container_instance_arn");
        reveal_strlit("__meta_ecs_desired_count");
        reveal_strlit("__meta_ecs_desired_status");
        reveal_strlit("__meta_ecs_health_status");
        reveal_strlit("__meta_ecs_ip_address");
        reveal_strlit("__meta_ecs_last_status");
        reveal_strlit("__meta_ecs_launch_type");
        reveal_strlit("__meta_ecs_metrics_port");
        reveal_strlit("__meta_ecs_network_mode");
        reveal_strlit("__meta_ecs_platform_family");
        reveal_strlit("__meta_ecs_platform_version");
        reveal_strlit("__meta_ecs_running_count");
        reveal_strlit("__meta_ecs_service");
        reveal_strlit("__meta_ecs_service_");
        reveal_strlit("__meta_ecs_subnet_id");
        reveal_strlit("__meta_ecs_tag_");
        reveal_strlit("__meta_ecs_tag_cluster_");
        reveal_strlit("__meta_ecs_tag_service_");
        reveal_strlit("__meta_ecs_tag_task_");
        reveal_strlit("__meta_ecs_task_");
        lemma_differ_at("__meta_ecs_cluster_name"@, "__meta_ecs_tag_task_"@, 11);
        lemma_differ_at("__meta_ecs_cluster_name"@, "__meta_ecs_tag_service_"@, 11);
        lemma_differ_at("__meta_ecs_cluster_name"@, "__meta_ecs_tag_cluster_"@, 11);
        lemma_differ_at("__meta_ecs_cluster_name"@, "__meta_ecs_tag_"@, 11);
        lemma_differ_at("__meta_ecs_cluster_name"@, "__meta_ecs_container_instance_arn"@, 12);
        lemma_differ_at("__meta_ecs_cluster_name"@, "__meta_ecs_container_"@, 12);
        lemma_differ_at("__meta_ecs_cluster_name"@, "__meta_ecs_metrics_port"@, 11);
        lemma_differ_at("__meta_ecs_cluster_name"@, "__meta_ecs_ip_address"@, 11);
        lemma_differ_at("__meta_ecs_cluster_name"@, "__meta_ecs_network_mode"@, 11);
        lemma_differ_at("__meta_ecs_cluster_name"@, "__meta_ecs_subnet_id"@, 11);
        lemma_differ_at("__meta_ecs_cluster_name"@, "__meta_ecs_task_"@, 11);
        lemma_differ_at("__meta_ecs_cluster_name"@, "__meta_ecs_launch_type"@, 11);
        lemma_differ_at("__meta_ecs_cluster_name"@, "__meta_ecs_desired_status"@, 11);
        lemma_differ_at("__meta_ecs_cluster_name"@, "__meta_ecs_last_status"@, 11);
        lemma_differ_at("__meta_ecs_cluster_name"@, "__meta_ecs_health_status"@, 11);
        lemma_differ_at("__meta_ecs_cluster_name"@, "__meta_ecs_platform_family"@, 11);
        lemma_differ_at("__meta_ecs_cluster_name"@, "__meta_ecs_platform_version"@, 11);
        lemma_differ_at("__meta_ecs_cluster_name"@, "__meta_ecs_service_"@, 11);
        lemma_differ_at("__meta_ecs_cluster_name"@, "__meta_ecs_service"@, 11);
        lemma_differ_at("__meta_ecs_cluster_name"@, "__meta_ecs_desired_count"@, 11);
        lemma_differ_at("__meta_ecs_cluster_name"@, "__meta_ecs_running_count"@, 11);
        assert("__meta_ecs_cluster_name"@.take(19) =~= "__meta_ecs_cluster_"@);
    }
    assert(tier_level("__meta_ecs_cluster"@) == MetadataLevel::Cluster) by {
        reveal_strlit("__meta_ecs_cluster");
        reveal_strlit("__meta_ecs_cluster_");
        reveal_strlit("__meta_ecs_container_");
        reveal_strlit("__meta_ecs_container_instance_arn");
        reveal_strlit("__meta_ecs_desired_count");
        reveal_strlit("__meta_ecs_desired_status");
        reveal_strlit("__meta_ecs_health_status");
        reveal_strlit("__meta_ecs_ip_address");
        reveal_strlit("__meta_ecs_last_status");
        reveal_strlit("__meta_ecs_launch_type");
        reveal_strlit("__meta_ecs_metrics_port");
        reveal_strlit("__meta_ecs_network_mode");
        reveal_strlit("__meta_ecs_platform_family");
        reveal_strlit("__meta_ecs_platform_version");
        reveal_strlit("__meta_ecs_running_count");
        reveal_strlit("__meta_ecs_service");
        reveal_strlit("__meta_ecs_service_");
        reveal_strlit("__meta_ecs_subnet_id");
        reveal_strlit("__meta_ecs_tag_");
        reveal_strlit("__meta_ecs_tag_cluster_");
        reveal_strlit("__meta_ecs_tag_service_");
        reveal_strlit("__meta_ecs_tag_task_");
        reveal_strlit("__meta_ecs_task_");
        lemma_differ_at("__meta_ecs_cluster"@, "__meta_ecs_tag_task_"@, 11);
        lemma_differ_at("__meta_ecs_cluster"@, "__meta_ecs_tag_service_"@, 11);
        lemma_differ_at("__meta_ecs_cluster"@, "__meta_ecs_tag_cluster_"@, 11);
        lemma_differ_at("__meta_ecs_cluster"@, "__meta_ecs_tag_"@, 11);
        lemma_differ_at("__meta_ecs_cluster"@, "__meta_ecs_container_instance_arn"@, 12);
        lemma_differ_at("__meta_ecs_cluster"@, "__meta_ecs_container_"@, 12);
        lemma_differ_at("__meta_ecs_cluster"@, "__meta_ecs_metrics_port"@, 11);
        lemma_differ_at("__meta_ecs_cluster"@, "__meta_ecs_ip_address"@, 11);
        lemma_differ_at("__meta_ecs_cluster"@, "__meta_ecs_network_mode"@, 11);
        lemma_differ_at("__meta_ecs_cluster"@, "__meta_ecs_subnet_id"@, 11);
        lemma_differ_at("__meta_ecs_cluster"@, "__meta_ecs_task_"@, 11);
        lemma_differ_at("__meta_ecs_cluster"@, "__meta_ecs_launch_type"@, 11);
        lemma_differ_at("__meta_ecs_cluster"@, "__meta_ecs_desired_status"@, 11);
        lemma_differ_at("__meta_ecs_cluster"@, "__meta_ecs_last_status"@, 11);
        lemma_differ_at("__meta_ecs_cluster"@, "__meta_ecs_health_status"@, 11);
        lemma_differ_at("__meta_ecs_cluster"@, "__meta_ecs_platform_family"@, 11);
        lemma_differ_at("__meta_ecs_cluster"@, "__meta_ecs_platform_version"@, 11);
        lemma_differ_at("__meta_ecs_cluster"@, "__meta_ecs_service_"@, 11);
        lemma_differ_at("__meta_ecs_cluster"@, "__meta_ecs_service"@, 11);
        lemma_differ_at("__meta_ecs_cluster"@, "__meta_ecs_desired_count"@, 11);
        lemma_differ_at("__meta_ecs_cluster"@, "__meta_ecs_running_count"@, 11);
    }
    assert(tier_level("__meta_ecs_cluster_arn"@) == MetadataLevel::Cluster) by {
        reveal_strlit("__meta_ecs_cluster_");
        reveal_strlit("__meta_ecs_cluster_arn");
        reveal_strlit("__meta_ecs_container_");
        reveal_strlit("__meta_ecs_container_instance_arn");
        reveal_strlit("__meta_ecs_desired_count");
        reveal_strlit("__meta_ecs_desired_status");
        reveal_strlit("__meta_ecs_health_status");
        reveal_strlit("__meta_ecs_ip_address");
        reveal_strlit("__meta_ecs_last_status");
        reveal_strlit("__meta_ecs_launch_type");
        reveal_strlit("__meta_ecs_metrics_port");
        reveal_strlit("__meta_ecs_network_mode");
        reveal_strlit("__meta_ecs_platform_family");
        reveal_strlit("__meta_ecs_platform_version");
        reveal_strlit("__meta_ecs_running_count");
        reveal_strlit("__meta_ecs_service");
        reveal_strlit("__meta_ecs_service_");
        reveal_strlit("__meta_ecs_subnet_id");
        reveal_strlit("__meta_ecs_tag_");
        reveal_strlit("__meta_ecs_tag_cluster_");
        reveal_strlit("__meta_ecs_tag_service_");
        reveal_strlit("__meta_ecs_tag_task_");
        reveal_strlit("__meta_ecs_task_");
        lemma_differ_at("__meta_ecs_cluster_arn"@, "__meta_ecs_tag_task_"@, 11);
        lemma_differ_at("__meta_ecs_cluster_arn"@, "__meta_ecs_tag_service_"@, 11);
        lemma_differ_at("__meta_ecs_cluster_arn"@, "__meta_ecs_tag_cluster_"@, 11);
        lemma_differ_at("__meta_ecs_cluster_arn"@, "__meta_ecs_tag_"@, 11);
        lemma_differ_at("__meta_ecs_cluster_arn"@, "__meta_ecs_container_instance_arn"@, 12);
        lemma_differ_at("__meta_ecs_cluster_arn"@, "__meta_ecs_container_"@, 12);
        lemma_differ_at("__meta_ecs_cluster_arn"@, "__meta_ecs_metrics_port"@, 11);
        lemma_differ_at("__meta_ecs_cluster_arn"@, "__meta_ecs_ip_address"@, 11);
        lemma_differ_at("__meta_ecs_cluster_arn"@, "__meta_ecs_network_mode"@, 11);
        lemma_differ_at("__meta_ecs_cluster_arn"@, "__meta_ecs_subnet_id"@, 11);
        lemma_differ_at("__meta_ecs_cluster_arn"@, "__meta_ecs_task_"@, 11);
        lemma_differ_at("__meta_ecs_cluster_arn"@, "__meta_ecs_launch_type"@, 11);
        lemma_differ_at("__meta_ecs_cluster_arn"@, "__meta_ecs_desired_status"@, 11);
        lemma_differ_at("__meta_ecs_cluster_arn"@, "__meta_ecs_last_status"@, 11);
        lemma_differ_at("__meta_ecs_cluster_arn"@, "__meta_ecs_health_status"@, 11);
        lemma_differ_at("__meta_ecs_cluster_arn"@, "__meta_ecs_platform_family"@, 11);
        lemma_differ_at("__meta_ecs_cluster_arn"@, "__meta_ecs_platform_version"@, 11);
        lemma_differ_at("__meta_ecs_cluster_arn"@, "__meta_ecs_service_"@, 11);
        lemma_differ_at("__meta_ecs_cluster_arn"@, "__meta_ecs_service"@, 11);
        lemma_differ_at("__meta_ecs_cluster_arn"@, "__meta_ecs_desired_count"@, 11);
        lemma_differ_at("__meta_ecs_cluster_arn"@, "__meta_ecs_running_count"@, 11);
        assert("__meta_ecs_cluster_arn"@.take(19) =~= "__meta_ecs_cluster_"@);
    }
}

/// The aws labels that the builder writes are those of the aws tier.
pub proof fn lemma_aws_label_levels()
    ensures
        tier_level("__meta_ecs_region"@) == MetadataLevel::Aws,
        tier_level("__meta_ecs_account_id"@) == MetadataLevel::Aws,
        tier_level("__meta_ecs_availability_zone"@) == MetadataLevel::Aws,
        tier_level("__meta_ecs_container_instance_arn"@) == MetadataLevel::Aws,
        tier_level("__meta_ecs_ec2_instance_id"@) == MetadataLevel::Aws,
        tier_level("__meta_ecs_ec2_instance_private_ip"@) == MetadataLevel::Aws,
        tier_level("__meta_ecs_public_ip"@) == MetadataLevel::Aws,
        tier_level("__meta_ecs_ec2_instance_public_ip"@) == MetadataLevel::Aws,
        tier_level("__meta_ecs_ec2_instance_type"@) == MetadataLevel::Aws,
{
    assert(tier_level("__meta_ecs_region"@) == MetadataLevel::Aws) by {
        reveal_strlit("__meta_ecs_");
        reveal_strlit("__meta_ecs_cluster");
        reveal_strlit("__meta_ecs_cluster_");
        reveal_strlit("__meta_ecs_container_");
        reveal_strlit("__meta_ecs_container_instance_arn");
        reveal_strlit("__meta_ecs_desired_count");
        reveal_strlit("__meta_ecs_desired_status");
        reveal_strlit("__meta_ecs_health_status");
        reveal_strlit("__meta_ecs_ip_address");
        reveal_strlit("__meta_ecs_last_status");
        reveal_strlit("__meta_ecs_launch_type");
        reveal_strlit("__meta_ecs_metrics_port");
        reveal_strlit("__meta_ecs_network_mode");
        reveal_strlit("__meta_ecs_platform_family");
        reveal_strlit("__meta_ecs_platform_version");
        reveal_strlit("__meta_ecs_region");
        reveal_strlit("__meta_ecs_running_count");
        reveal_strlit("__meta_ecs_service");
        reveal_strlit("__meta_ecs_service_");
        reveal_strlit("__meta_ecs_subnet_id");
        reveal_strlit("__meta_ecs_tag_");
        reveal_strlit("__meta_ecs_tag_cluster_");
        reveal_strlit("__meta_ecs_tag_service_");
        reveal_strlit("__meta_ecs_tag_task_");
        reveal_strlit("__meta_ecs_task_");
        lemma_differ_at("__meta_ecs_region"@, "__meta_ecs_tag_task_"@, 11);
        lemma_differ_at("__meta_ecs_region"@, "__meta_ecs_tag_service_"@, 11);
        lemma_differ_at("__meta_ecs_region"@, "__meta_ecs_tag_cluster_"@, 11);
        lemma_differ_at("__meta_ecs_region"@, "__meta_ecs_tag_"@, 11);
        lemma_differ_at("__meta_ecs_region"@, "__meta_ecs_container_instance_arn"@, 11);
        lemma_differ_at("__meta_ecs_region"@, "__meta_ecs_container_"@, 11);
        lemma_differ_at("__meta_ecs_region"@, "__meta_ecs_metrics_port"@, 11);
        lemma_differ_at("__meta_ecs_region"@, "__meta_ecs_ip_address"@, 11);
        lemma_differ_at("__meta_ecs_region"@, "__meta_ecs_network_mode"@, 11);
        lemma_differ_at("__meta_ecs_region"@, "__meta_ecs_subnet_id"@, 11);
        lemma_differ_at("__meta_ecs_region"@, "__meta_ecs_task_"@, 11);
        lemma_differ_at("__meta_ecs_region"@, "__meta_ecs_launch_type"@, 11);
        lemma_differ_at("__meta_ecs_region"@, "__meta_ecs_desired_status"@, 11);
        lemma_differ_at("__meta_ecs_region"@, "__meta_ecs_last_status"@, 11);
        lemma_differ_at("__meta_ecs_region"@, "__meta_ecs_health_status"@, 11);
        lemma_differ_at("__meta_ecs_region"@, "__meta_ecs_platform_family"@, 11);
        lemma_differ_at("__meta_ecs_region"@, "__meta_ecs_platform_version"@, 11);
        lemma_differ_at("__meta_ecs_region"@, "__meta_ecs_service_"@, 11);
        lemma_differ_at("__meta_ecs_region"@, "__meta_ecs_service"@, 11);
        lemma_differ_at("__meta_ecs_region"@, "__meta_ecs_desired_count"@, 11);
        lemma_differ_at("__meta_ecs_region"@, "__meta_ecs_running_count"@, 12);
        lemma_differ_at("__meta_ecs_region"@, "__meta_ecs_cluster_"@, 11);
        lemma_differ_at("__meta_ecs_region"@, "__meta_ecs_cluster"@, 11);
        assert("__meta_ecs_region"@.take(11) =~= "__meta_ecs_"@);
    }
    assert(tier_level("__meta_ecs_account_id"@) == MetadataLevel::Aws) by {
        reveal_strlit("__meta_ecs_");
        reveal_strlit("__meta_ecs_account_id");
        reveal_strlit("__meta_ecs_cluster");
        reveal_strlit("__meta_ecs_cluster_");
        reveal_strlit("__meta_ecs_container_");
        reveal_strlit("__meta_ecs_container_instance_arn");
        reveal_strlit("__meta_ecs_desired_count");
        reveal_strlit("__meta_ecs_desired_status");
        reveal_strlit("__meta_ecs_health_status");
        reveal_strlit("__meta_ecs_ip_address");
        reveal_strlit("__meta_ecs_last_status");
        reveal_strlit("__meta_ecs_launch_type");
        reveal_strlit("__meta_ecs_metrics_port");
        reveal_strlit("__meta_ecs_network_mode");
        reveal_strlit("__meta_ecs_platform_family");
        reveal_strlit("__meta_ecs_platform_version");
        reveal_strlit("__meta_ecs_running_count");
        reveal_strlit("__meta_ecs_service");
        reveal_strlit("__meta_ecs_service_");
        reveal_strlit("__meta_ecs_subnet_id");
        reveal_strlit("__meta_ecs_tag_");
        reveal_strlit("__meta_ecs_tag_cluster_");
        reveal_strlit("__meta_ecs_tag_service_");
        reveal_strlit("__meta_ecs_tag_task_");
        reveal_strlit("__meta_ecs_task_");
        lemma_differ_at("__meta_ecs_account_id"@, "__meta_ecs_tag_task_"@, 11);
        lemma_differ_at("__meta_ecs_account_id"@, "__meta_ecs_tag_service_"@, 11);
        lemma_differ_at("__meta_ecs_account_id"@, "__meta_ecs_tag_cluster_"@, 11);
        lemma_differ_at("__meta_ecs_account_id"@, "__meta_ecs_tag_"@, 11);
        lemma_differ_at("__meta_ecs_account_id"@, "__meta_ecs_container_instance_arn"@, 11);
        lemma_differ_at("__meta_ecs_account_id"@, "__meta_ecs_container_"@, 11);
        lemma_differ_at("__meta_ecs_account_id"@, "__meta_ecs_metrics_port"@, 11);
        lemma_differ_at("__meta_ecs_account_id"@, "__meta_ecs_ip_address"@, 11);
        lemma_differ_at("__meta_ecs_account_id"@, "__meta_ecs_network_mode"@, 11);
        lemma_differ_at("__meta_ecs_account_id"@, "__meta_ecs_subnet_id"@, 11);
        lemma_differ_at("__meta_ecs_account_id"@, "__meta_ecs_task_"@, 11);
        lemma_differ_at("__meta_ecs_account_id"@, "__meta_ecs_launch_type"@, 11);
        lemma_differ_at("__meta_ecs_account_id"@, "__meta_ecs_desired_status"@, 11);
        lemma_differ_at("__meta_ecs_account_id"@, "__meta_ecs_last_status"@, 11);
        lemma_differ_at("__meta_ecs_account_id"@, "__meta_ecs_health_status"@, 11);
        lemma_differ_at("__meta_ecs_account_id"@, "__meta_ecs_platform_family"@, 11);
        lemma_differ_at("__meta_ecs_account_id"@, "__meta_ecs_platform_version"@, 11);
        lemma_differ_at("__meta_ecs_account_id"@, "__meta_ecs_service_"@, 11);
        lemma_differ_at("__meta_ecs_account_id"@, "__meta_ecs_service"@, 11);
        lemma_differ_at("__meta_ecs_account_id"@, "__meta_ecs_desired_count"@, 11);
        lemma_differ_at("__meta_ecs_account_id"@, "__meta_ecs_running_count"@, 11);
        lemma_differ_at("__meta_ecs_account_id"@, "__meta_ecs_cluster_"@, 11);
        lemma_differ_at("__meta_ecs_account_id"@, "__meta_ecs_cluster"@, 11);
        assert("__meta_ecs_account_id"@.take(11) =~= "__meta_ecs_"@);
    }
    assert(tier_level("__meta_ecs_availability_zone"@) == MetadataLevel::Aws) by {
        reveal_strlit("__meta_ecs_");
        reveal_strlit("__meta_ecs_availability_zone");
        reveal_strlit("__meta_ecs_cluster");
        reveal_strlit("__meta_ecs_cluster_");
        reveal_strlit("__meta_ecs_container_");
        reveal_strlit("__meta_ecs_container_instance_arn");
        reveal_strlit("__meta_ecs_desired_count");
        reveal_strlit("__meta_ecs_desired_status");
        reveal_strlit("__meta_ecs_health_status");
        reveal_strlit("__meta_ecs_ip_address");
        reveal_strlit("__meta_ecs_last_status");
        reveal_strlit("__meta_ecs_launch_type");
        reveal_strlit("__meta_ecs_metrics_port");
        reveal_strlit("__meta_ecs_network_mode");
        reveal_strlit("__meta_ecs_platform_family");
        reveal_strlit("__meta_ecs_platform_version");
        reveal_strlit("__meta_ecs_running_count");
        reveal_strlit("__meta_ecs_service");
        reveal_strlit("__meta_ecs_service_");
        reveal_strlit("__meta_ecs_subnet_id");
        reveal_strlit("__meta_ecs_tag_");
        reveal_strlit("__meta_ecs_tag_cluster_");
        reveal_strlit("__meta_ecs_tag_service_");
        reveal_strlit("__meta_ecs_tag_task_");
        reveal_strlit("__meta_ecs_task_");
        lemma_differ_at("__meta_ecs_availability_zone"@, "__meta_ecs_tag_task_"@, 11);
        lemma_differ_at("__meta_ecs_availability_zone"@, "__meta_ecs_tag_service_"@, 11);
        lemma_differ_at("__meta_ecs_availability_zone"@, "__meta_ecs_tag_cluster_"@, 11);
        lemma_differ_at("__meta_ecs_availability_zone"@, "__meta_ecs_tag_"@, 11);
        lemma_differ_at("__meta_ecs_availability_zone"@, "__meta_ecs_container_instance_arn"@, 11);
        lemma_differ_at("__meta_ecs_availability_zone"@, "__meta_ecs_container_"@, 11);
        lemma_differ_at("__meta_ecs_availability_zone"@, "__meta_ecs_metrics_port"@, 11);
        lemma_differ_at("__meta_ecs_availability_zone"@, "__meta_ecs_ip_address"@, 11);
        lemma_differ_at("__meta_ecs_availability_zone"@, "__meta_ecs_network_mode"@, 11);
        lemma_differ_at("__meta_ecs_availability_zone"@, "__meta_ecs_subnet_id"@, 11);
        lemma_differ_at("__meta_ecs_availability_zone"@, "__meta_ecs_task_"@, 11);
        lemma_differ_at("__meta_ecs_availability_zone"@, "__meta_ecs_launch_type"@, 11);
        lemma_differ_at("__meta_ecs_availability_zone"@, "__meta_ecs_desired_status"@, 11);
        lemma_differ_at("__meta_ecs_availability_zone"@, "__meta_ecs_last_status"@, 11);
        lemma_differ_at("__meta_ecs_availability_zone"@, "__meta_ecs_health_status"@, 11);
        lemma_differ_at("__meta_ecs_availability_zone"@, "__meta_ecs_platform_family"@, 11);
        lemma_differ_at("__meta_ecs_availability_zone"@, "__meta_ecs_platform_version"@, 11);
        lemma_differ_at("__meta_ecs_availability_zone"@, "__meta_ecs_service_"@, 11);
        lemma_differ_at("__meta_ecs_availability_zone"@, "__meta_ecs_service"@, 11);
        lemma_differ_at("__meta_ecs_availability_zone"@, "__meta_ecs_desired_count"@, 11);
        lemma_differ_at("__meta_ecs_availability_zone"@, "__meta_ecs_running_count"@, 11);
        lemma_differ_at("__meta_ecs_availability_zone"@, "__meta_ecs_cluster_"@, 11);
        lemma_differ_at("__meta_ecs_availability_zone"@, "__meta_ecs_cluster"@, 11);
        assert("__meta_ecs_availability_zone"@.take(11) =~= "__meta_ecs_"@);
    }
    assert(tier_level("__meta_ecs_container_instance_arn"@) == MetadataLevel::Aws) by {
        reveal_strlit("__meta_ecs_container_instance_arn");
        reveal_strlit("__meta_ecs_tag_");
        reveal_strlit("__meta_ecs_tag_cluster_");
        reveal_strlit("__meta_ecs_tag_service_");
        reveal_strlit("__meta_ecs_tag_task_");
        lemma_differ_at("__meta_ecs_container_instance_arn"@, "__meta_ecs_tag_task_"@, 11);
        lemma_differ_at("__meta_ecs_container_instance_arn"@, "__meta_ecs_tag_service_"@, 11);
        lemma_differ_at("__meta_ecs_container_instance_arn"@, "__meta_ecs_tag_cluster_"@, 11);
        lemma_differ_at("__meta_ecs_container_instance_arn"@, "__meta_ecs_tag_"@, 11);
    }
    assert(tier_level("__meta_ecs_ec2_instance_id"@) == MetadataLevel::Aws) by {
        reveal_strlit("__meta_ecs_");
        reveal_strlit("__meta_ecs_cluster");
        reveal_strlit("__meta_ecs_cluster_");
        reveal_strlit("__meta_ecs_container_");
        reveal_strlit("__meta_ecs_container_instance_arn");
        reveal_strlit("__meta_ecs_desired_count");
        reveal_strlit("__meta_ecs_desired_status");
        reveal_strlit("__meta_ecs_ec2_instance_id");
        reveal_strlit("__meta_ecs_health_status");
        reveal_strlit("__meta_ecs_ip_address");
        reveal_strlit("__meta_ecs_last_status");
        reveal_strlit("__meta_ecs_launch_type");
        reveal_strlit("__meta_ecs_metrics_port");
        reveal_strlit("__meta_ecs_network_mode");
        reveal_strlit("__meta_ecs_platform_family");
        reveal_strlit("__meta_ecs_platform_version");
        reveal_strlit("__meta_ecs_running_count");
        reveal_strlit("__meta_ecs_service");
        reveal_strlit("__meta_ecs_service_");
        reveal_strlit("__meta_ecs_subnet_id");
        reveal_strlit("__meta_ecs_tag_");
        reveal_strlit("__meta_ecs_tag_cluster_");
        reveal_strlit("__meta_ecs_tag_service_");
        reveal_strlit("__meta_ecs_tag_task_");
        reveal_strlit("__meta_ecs_task_");
        lemma_differ_at("__meta_ecs_ec2_instance_id"@, "__meta_ecs_tag_task_"@, 11);
        lemma_differ_at("__meta_ecs_ec2_instance_id"@, "__meta_ecs_tag_service_"@, 11);
        lemma_differ_at("__meta_ecs_ec2_instance_id"@, "__meta_ecs_tag_cluster_"@, 11);
        lemma_differ_at("__meta_ecs_ec2_instance_id"@, "__meta_ecs_tag_"@, 11);
        lemma_differ_at("__meta_ecs_ec2_instance_id"@, "__meta_ecs_container_instance_arn"@, 11);
        lemma_differ_at("__meta_ecs_ec2_instance_id"@, "__meta_ecs_container_"@, 11);
        lemma_differ_at("__meta_ecs_ec2_instance_id"@, "__meta_ecs_metrics_port"@, 11);
        lemma_differ_at("__meta_ecs_ec2_instance_id"@, "__meta_ecs_ip_address"@, 11);
        lemma_differ_at("__meta_ecs_ec2_instance_id"@, "__meta_ecs_network_mode"@, 11);
        lemma_differ_at("__meta_ecs_ec2_instance_id"@, "__meta_ecs_subnet_id"@, 11);
        lemma_differ_at("__meta_ecs_ec2_instance_id"@, "__meta_ecs_task_"@, 11);
        lemma_differ_at("__meta_ecs_ec2_instance_id"@, "__meta_ecs_launch_type"@, 11);
        lemma_differ_at("__meta_ecs_ec2_instance_id"@, "__meta_ecs_desired_status"@, 11);
        lemma_differ_at("__meta_ecs_ec2_instance_id"@, "__meta_ecs_last_status"@, 11);
        lemma_differ_at("__meta_ecs_ec2_instance_id"@, "__meta_ecs_health_status"@, 11);
        lemma_differ_at("__meta_ecs_ec2_instance_id"@, "__meta_ecs_platform_family"@, 11);
        lemma_differ_at("__meta_ecs_ec2_instance_id"@, "__meta_ecs_platform_version"@, 11);
        lemma_differ_at("__meta_ecs_ec2_instance_id"@, "__meta_ecs_service_"@, 11);
        lemma_differ_at("__meta_ecs_ec2_instance_id"@, "__meta_ecs_service"@, 11);
        lemma_differ_at("__meta_ecs_ec2_instance_id"@, "__meta_ecs_desired_count"@, 11);
        lemma_differ_at("__meta_ecs_ec2_instance_id"@, "__meta_ecs_running_count"@, 11);
        lemma_differ_at("__meta_ecs_ec2_instance_id"@, "__meta_ecs_cluster_"@, 11);
        lemma_differ_at("__meta_ecs_ec2_instance_id"@, "__meta_ecs_cluster"@, 11);
        assert("__meta_ecs_ec2_instance_id"@.take(11) =~= "__meta_ecs_"@);
    }
    assert(tier_level("__meta_ecs_ec2_instance_private_ip"@) == MetadataLevel::Aws) by {
        reveal_strlit("__meta_ecs_");
        reveal_strlit("__meta_ecs_cluster");
        reveal_strlit("__meta_ecs_cluster_");
        reveal_strlit("__meta_ecs_container_");
        reveal_strlit("__meta_ecs_container_instance_arn");
        reveal_strlit("__meta_ecs_desired_count");
        reveal_strlit("__meta_ecs_desired_status");
        reveal_strlit("__meta_ecs_ec2_instance_private_ip");
        reveal_strlit("__meta_ecs_health_status");
        reveal_strlit("__meta_ecs_ip_address");
        reveal_strlit("__meta_ecs_last_status");
        reveal_strlit("__meta_ecs_launch_type");
        reveal_strlit("__meta_ecs_metrics_port");
        reveal_strlit("__meta_ecs_network_mode");
        reveal_strlit("__meta_ecs_platform_family");
        reveal_strlit("__meta_ecs_platform_version");
        reveal_strlit("__meta_ecs_running_count");
        reveal_strlit("__meta_ecs_service");
        reveal_strlit("__meta_ecs_service_");
        reveal_strlit("__meta_ecs_subnet_id");
        reveal_strlit("__meta_ecs_tag_");
        reveal_strlit("__meta_ecs_tag_cluster_");
        reveal_strlit("__meta_ecs_tag_service_");
        reveal_strlit("__meta_ecs_tag_task_");
        reveal_strlit("__meta_ecs_task_");
        lemma_differ_at("__meta_ecs_ec2_instance_private_ip"@, "__meta_ecs_tag_task_"@, 11);
        lemma_differ_at("__meta_ecs_ec2_instance_private_ip"@, "__meta_ecs_tag_service_"@, 11);
        lemma_differ_at("__meta_ecs_ec2_instance_private_ip"@, "__meta_ecs_tag_cluster_"@, 11);
        lemma_differ_at("__meta_ecs_ec2_instance_private_ip"@, "__meta_ecs_tag_"@, 11);
        lemma_differ_at("__meta_ecs_ec2_instance_private_ip"@, "__meta_ecs_container_instance_arn"@, 11);
        lemma_differ_at("__meta_ecs_ec2_instance_private_ip"@, "__meta_ecs_container_"@, 11);
        lemma_differ_at("__meta_ecs_ec2_instance_private_ip"@, "__meta_ecs_metrics_port"@, 11);
        lemma_differ_at("__meta_ecs_ec2_instance_private_ip"@, "__meta_ecs_ip_address"@, 11);
        lemma_differ_at("__meta_ecs_ec2_instance_private_ip"@, "__meta_ecs_network_mode"@, 11);
        lemma_differ_at("__meta_ecs_ec2_instance_private_ip"@, "__meta_ecs_subnet_id"@, 11);
        lemma_differ_at("__meta_ecs_ec2_instance_private_ip"@, "__meta_ecs_task_"@, 11);
        lemma_differ_at("__meta_ecs_ec2_instance_private_ip"@, "__meta_ecs_launch_type"@, 11);
        lemma_differ_at("__meta_ecs_ec2_instance_private_ip"@, "__meta_ecs_desired_status"@, 11);
        lemma_differ_at("__meta_ecs_ec2_instance_private_ip"@, "__meta_ecs_last_status"@, 11);
        lemma_differ_at("__meta_ecs_ec2_instance_private_ip"@, "__meta_ecs_health_status"@, 11);
        lemma_differ_at("__meta_ecs_ec2_instance_private_ip"@, "__meta_ecs_platform_family"@, 11);
        lemma_differ_at("__meta_ecs_ec2_instance_private_ip"@, "__meta_ecs_platform_version"@, 11);
        lemma_differ_at("__meta_ecs_ec2_instance_private_ip"@, "__meta_ecs_service_"@, 11);
        lemma_differ_at("__meta_ecs_ec2_instance_private_ip"@, "__meta_ecs_service"@, 11);
        lemma_differ_at("__meta_ecs_ec2_instance_private_ip"@, "__meta_ecs_desired_count"@, 11);
        lemma_differ_at("__meta_ecs_ec2_instance_private_ip"@, "__meta_ecs_running_count"@, 11);
        lemma_differ_at("__meta_ecs_ec2_instance_private_ip"@, "__meta_ecs_cluster_"@, 11);
        lemma_differ_at("__meta_ecs_ec2_instance_private_ip"@, "__meta_ecs_cluster"@, 11);
        assert("__meta_ecs_ec2_instance_private_ip"@.take(11) =~= "__meta_ecs_"@);
    }
    assert(tier_level("__meta_ecs_public_ip"@) == MetadataLevel::Aws) by {
        reveal_strlit("__meta_ecs_");
        reveal_strlit("__meta_ecs_cluster");
        reveal_strlit("__meta_ecs_cluster_");
        reveal_strlit("__meta_ecs_container_");
        reveal_strlit("__meta_ecs_container_instance_arn");
        reveal_strlit("__meta_ecs_desired_count");
        reveal_strlit("__meta_ecs_desired_status");
        reveal_strlit("__meta_ecs_health_status");
        reveal_strlit("__meta_ecs_ip_address");
        reveal_strlit("__meta_ecs_last_status");
        reveal_strlit("__meta_ecs_launch_type");
        reveal_strlit("__meta_ecs_metrics_port");
        reveal_strlit("__meta_ecs_network_mode");
        reveal_strlit("__meta_ecs_platform_family");
        reveal_strlit("__meta_ecs_platform_version");
        reveal_strlit("__meta_ecs_public_ip");
        reveal_strlit("__meta_ecs_running_count");
        reveal_strlit("__meta_ecs_service");
        reveal_strlit("__meta_ecs_service_");
        reveal_strlit("__meta_ecs_subnet_id");
        reveal_strlit("__meta_ecs_tag_");
        reveal_strlit("__meta_ecs_tag_cluster_");
        reveal_strlit("__meta_ecs_tag_service_");
        reveal_strlit("__meta_ecs_tag_task_");
        reveal_strlit("__meta_ecs_task_");
        lemma_differ_at("__meta_ecs_public_ip"@, "__meta_ecs_tag_task_"@, 11);
        lemma_differ_at("__meta_ecs_public_ip"@, "__meta_ecs_tag_service_"@, 11);
        lemma_differ_at("__meta_ecs_public_ip"@, "__meta_ecs_tag_cluster_"@, 11);
        lemma_differ_at("__meta_ecs_public_ip"@, "__meta_ecs_tag_"@, 11);
        lemma_differ_at("__meta_ecs_public_ip"@, "__meta_ecs_container_instance_arn"@, 11);
        lemma_differ_at("__meta_ecs_public_ip"@, "__meta_ecs_container_"@, 11);
        lemma_differ_at("__meta_ecs_public_ip"@, "__meta_ecs_metrics_port"@, 11);
        lemma_differ_at("__meta_ecs_public_ip"@, "__meta_ecs_ip_address"@, 11);
        lemma_differ_at("__meta_ecs_public_ip"@, "__meta_ecs_network_mode"@, 11);
        lemma_differ_at("__meta_ecs_public_ip"@, "__meta_ecs_subnet_id"@, 11);
        lemma_differ_at("__meta_ecs_public_ip"@, "__meta_ecs_task_"@, 11);
        lemma_differ_at("__meta_ecs_public_ip"@, "__meta_ecs_launch_type"@, 11);
        lemma_differ_at("__meta_ecs_public_ip"@, "__meta_ecs_desired_status"@, 11);
        lemma_differ_at("__meta_ecs_public_ip"@, "__meta_ecs_last_status"@, 11);
        lemma_differ_at("__meta_ecs_public_ip"@, "__meta_ecs_health_status"@, 11);
        lemma_differ_at("__meta_ecs_public_ip"@, "__meta_ecs_platform_family"@, 12);
        lemma_differ_at("__meta_ecs_public_ip"@, "__meta_ecs_platform_version"@, 12);
        lemma_differ_at("__meta_ecs_public_ip"@, "__meta_ecs_service_"@, 11);
        lemma_differ_at("__meta_ecs_public_ip"@, "__meta_ecs_service"@, 11);
        lemma_differ_at("__meta_ecs_public_ip"@, "__meta_ecs_desired_count"@, 11);
        lemma_differ_at("__meta_ecs_public_ip"@, "__meta_ecs_running_count"@, 11);
        lemma_differ_at("__meta_ecs_public_ip"@, "__meta_ecs_cluster_"@, 11);
        lemma_differ_at("__meta_ecs_public_ip"@, "__meta_ecs_cluster"@, 11);
        assert("__meta_ecs_public_ip"@.take(11) =~= "__meta_ecs_"@);
    }
    assert(tier_level("__meta_ecs_ec2_instance_public_ip"@) == MetadataLevel::Aws) by {
        reveal_strlit("__meta_ecs_");
        reveal_strlit("__meta_ecs_cluster");
        reveal_strlit("__meta_ecs_cluster_");
        reveal_strlit("__meta_ecs_container_");
        reveal_strlit("__meta_ecs_container_instance_arn");
        reveal_strlit("__meta_ecs_desired_count");
        reveal_strlit("__meta_ecs_desired_status");
        reveal_strlit("__meta_ecs_ec2_instance_public_ip");
        reveal_strlit("__meta_ecs_health_status");
        reveal_strlit("__meta_ecs_ip_address");
        reveal_strlit("__meta_ecs_last_status");
        reveal_strlit("__meta_ecs_launch_type");
        reveal_strlit("__meta_ecs_metrics_port");
        reveal_strlit("__meta_ecs_network_mode");
        reveal_strlit("__meta_ecs_platform_family");
        reveal_strlit("__meta_ecs_platform_version");
        reveal_strlit("__meta_ecs_running_count");
        reveal_strlit("__meta_ecs_service");
        reveal_strlit("__meta_ecs_service_");
        reveal_strlit("__meta_ecs_subnet_id");
        reveal_strlit("__meta_ecs_tag_");
        reveal_strlit("__meta_ecs_tag_cluster_");
        reveal_strlit("__meta_ecs_tag_service_");
        reveal_strlit("__meta_ecs_tag_task_");
        reveal_strlit("__meta_ecs_task_");
        lemma_differ_at("__meta_ecs_ec2_instance_public_ip"@, "__meta_ecs_tag_task_"@, 11);
        lemma_differ_at("__meta_ecs_ec2_instance_public_ip"@, "__meta_ecs_tag_service_"@, 11);
        lemma_differ_at("__meta_ecs_ec2_instance_public_ip"@, "__meta_ecs_tag_cluster_"@, 11);
        lemma_differ_at("__meta_ecs_ec2_instance_public_ip"@, "__meta_ecs_tag_"@, 11);
        lemma_differ_at("__meta_ecs_ec2_instance_public_ip"@, "__meta_ecs_container_instance_arn"@, 11);
        lemma_differ_at("__meta_ecs_ec2_instance_public_ip"@, "__meta_ecs_container_"@, 11);
        lemma_differ_at("__meta_ecs_ec2_instance_public_ip"@, "__meta_ecs_metrics_port"@, 11);
        lemma_differ_at("__meta_ecs_ec2_instance_public_ip"@, "__meta_ecs_ip_address"@, 11);
        lemma_differ_at("__meta_ecs_ec2_instance_public_ip"@, "__meta_ecs_network_mode"@, 11);
        lemma_differ_at("__meta_ecs_ec2_instance_public_ip"@, "__meta_ecs_subnet_id"@, 11);
        lemma_differ_at("__meta_ecs_ec2_instance_public_ip"@, "__meta_ecs_task_"@, 11);
        lemma_differ_at("__meta_ecs_ec2_instance_public_ip"@, "__meta_ecs_launch_type"@, 11);
        lemma_differ_at("__meta_ecs_ec2_instance_public_ip"@, "__meta_ecs_desired_status"@, 11);
        lemma_differ_at("__meta_ecs_ec2_instance_public_ip"@, "__meta_ecs_last_status"@, 11);
        lemma_differ_at("__meta_ecs_ec2_instance_public_ip"@, "__meta_ecs_health_status"@, 11);
        lemma_differ_at("__meta_ecs_ec2_instance_public_ip"@, "__meta_ecs_platform_family"@, 11);
        lemma_differ_at("__meta_ecs_ec2_instance_public_ip"@, "__meta_ecs_platform_version"@, 11);
        lemma_differ_at("__meta_ecs_ec2_instance_public_ip"@, "__meta_ecs_service_"@, 11);
        lemma_differ_at("__meta_ecs_ec2_instance_public_ip"@, "__meta_ecs_service"@, 11);
        lemma_differ_at("__meta_ecs_ec2_instance_public_ip"@, "__meta_ecs_desired_count"@, 11);
        lemma_differ_at("__meta_ecs_ec2_instance_public_ip"@, "__meta_ecs_running_count"@, 11);
        lemma_differ_at("__meta_ecs_ec2_instance_public_ip"@, "__meta_ecs_cluster_"@, 11);
        lemma_differ_at("__meta_ecs_ec2_instance_public_ip"@, "__meta_ecs_cluster"@, 11);
        assert("__meta_ecs_ec2_instance_public_ip"@.take(11) =~= "__meta_ecs_"@);
    }
    assert(tier_level("__meta_ecs_ec2_instance_type"@) == MetadataLevel::Aws) by {
        reveal_strlit("__meta_ecs_");
        reveal_strlit("__meta_ecs_cluster");
        reveal_strlit("__meta_ecs_cluster_");
        reveal_strlit("__meta_ecs_container_");
        reveal_strlit("__meta_ecs_container_instance_arn");
        reveal_strlit("__meta_ecs_desired_count");
        reveal_strlit("__meta_ecs_desired_status");
        reveal_strlit("__meta_ecs_ec2_instance_type");
        reveal_strlit("__meta_ecs_health_status");
        reveal_strlit("__meta_ecs_ip_address");
        reveal_strlit("__meta_ecs_last_status");
        reveal_strlit("__meta_ecs_launch_type");
        reveal_strlit("__meta_ecs_metrics_port");
        reveal_strlit("__meta_ecs_network_mode");
        reveal_strlit("__meta_ecs_platform_family");
        reveal_strlit("__meta_ecs_platform_version");
        reveal_strlit("__meta_ecs_running_count");
        reveal_strlit("__meta_ecs_service");
        reveal_strlit("__meta_ecs_service_");
        reveal_strlit("__meta_ecs_subnet_id");
        reveal_strlit("__meta_ecs_tag_");
        reveal_strlit("__meta_ecs_tag_cluster_");
        reveal_strlit("__meta_ecs_tag_service_");
        reveal_strlit("__meta_ecs_tag_task_");
        reveal_strlit("__meta_ecs_task_");
        lemma_differ_at("__meta_ecs_ec2_instance_type"@, "__meta_ecs_tag_task_"@, 11);
        lemma_differ_at("__meta_ecs_ec2_instance_type"@, "__meta_ecs_tag_service_"@, 11);
        lemma_differ_at("__meta_ecs_ec2_instance_type"@, "__meta_ecs_tag_cluster_"@, 11);
        lemma_differ_at("__meta_ecs_ec2_instance_type"@, "__meta_ecs_tag_"@, 11);
        lemma_differ_at("__meta_ecs_ec2_instance_type"@, "__meta_ecs_container_instance_arn"@, 11);
        lemma_differ_at("__meta_ecs_ec2_instance_type"@, "__meta_ecs_container_"@, 11);
        lemma_differ_at("__meta_ecs_ec2_instance_type"@, "__meta_ecs_metrics_port"@, 11);
        lemma_differ_at("__meta_ecs_ec2_instance_type"@, "__meta_ecs_ip_address"@, 11);
        lemma_differ_at("__meta_ecs_ec2_instance_type"@, "__meta_ecs_network_mode"@, 11);
        lemma_differ_at("__meta_ecs_ec2_instance_type"@, "__meta_ecs_subnet_id"@, 11);
        lemma_differ_at("__meta_ecs_ec2_instance_type"@, "__meta_ecs_task_"@, 11);
        lemma_differ_at("__meta_ecs_ec2_instance_type"@, "__meta_ecs_launch_type"@, 11);
        lemma_differ_at("__meta_ecs_ec2_instance_type"@, "__meta_ecs_desired_status"@, 11);
        lemma_differ_at("__meta_ecs_ec2_instance_type"@, "__meta_ecs_last_status"@, 11);
        lemma_differ_at("__meta_ecs_ec2_instance_type"@, "__meta_ecs_health_status"@, 11);
        lemma_differ_at("__meta_ecs_ec2_instance_type"@, "__meta_ecs_platform_family"@, 11);
        lemma_differ_at("__meta_ecs_ec2_instance_type"@, "__meta_ecs_platform_version"@, 11);
        lemma_differ_at("__meta_ecs_ec2_instance_type"@, "__meta_ecs_service_"@, 11);
        lemma_differ_at("__meta_ecs_ec2_instance_type"@, "__meta_ecs_service"@, 11);
        lemma_differ_at("__meta_ecs_ec2_instance_type"@, "__meta_ecs_desired_count"@, 11);
        lemma_differ_at("__meta_ecs_ec2_instance_type"@, "__meta_ecs_running_count"@, 11);
        lemma_differ_at("__meta_ecs_ec2_instance_type"@, "__meta_ecs_cluster_"@, 11);
        lemma_differ_at("__meta_ecs_ec2_instance_type"@, "__meta_ecs_cluster"@, 11);
        assert("__meta_ecs_ec2_instance_type"@.take(11) =~= "__meta_ecs_"@);
    }
}

/// A tag label is of the tier its tags were read from; the tags of the
/// EC2 instance are of the aws tier.
pub proof fn lemma_tag_label_levels(x: Seq<char>)
    ensures
        tier_level("__meta_ecs_tag_task_"@ + x) == MetadataLevel::Task,
        tier_level("__meta_ecs_tag_service_"@ + x) == MetadataLevel::Service,
        tier_level("__meta_ecs_tag_cluster_"@ + x) == MetadataLevel::Cluster,
        tier_level("__meta_ecs_tag_ec2_"@ + x) == MetadataLevel::Aws,
{
    assert(tier_level("__meta_ecs_tag_task_"@ + x) == MetadataLevel::Task) by {
        reveal_strlit("__meta_ecs_tag_task_");
        assert(("__meta_ecs_tag_task_"@ + x).take(20) =~= "__meta_ecs_tag_task_"@);
    }
    assert(tier_level("__meta_ecs_tag_service_"@ + x) == MetadataLevel::Service) by {
        reveal_strlit("__meta_ecs_tag_service_");
        reveal_strlit("__meta_ecs_tag_task_");
        lemma_differ_at("__meta_ecs_tag_service_"@ + x, "__meta_ecs_tag_task_"@, 15);
        assert(("__meta_ecs_tag_service_"@ + x).take(23) =~= "__meta_ecs_tag_service_"@);
    }
    assert(tier_level("__meta_ecs_tag_cluster_"@ + x) == MetadataLevel::Cluster) by {
        reveal_strlit("__meta_ecs_tag_cluster_");
        reveal_strlit("__meta_ecs_tag_service_");
        reveal_strlit("__meta_ecs_tag_task_");
        lemma_differ_at("__meta_ecs_tag_cluster_"@ + x, "__meta_ecs_tag_task_"@, 15);
        lemma_differ_at("__meta_ecs_tag_cluster_"@ + x, "__meta_ecs_tag_service_"@, 15);
        assert(("__meta_ecs_tag_cluster_"@ + x).take(23) =~= "__meta_ecs_tag_cluster_"@);
    }
    assert(tier_level("__meta_ecs_tag_ec2_"@ + x) == MetadataLevel::Aws) by {
        reveal_strlit("__meta_ecs_tag_");
        reveal_strlit("__meta_ecs_tag_cluster_");
        reveal_strlit("__meta_ecs_tag_ec2_");
        reveal_strlit("__meta_ecs_tag_service_");
        reveal_strlit("__meta_ecs_tag_task_");
        lemma_differ_at("__meta_ecs_tag_ec2_"@ + x, "__meta_ecs_tag_task_"@, 15);
        lemma_differ_at("__meta_ecs_tag_ec2_"@ + x, "__meta_ecs_tag_service_"@, 15);
        lemma_differ_at("__meta_ecs_tag_ec2_"@ + x, "__meta_ecs_tag_cluster_"@, 15);
        assert(("__meta_ecs_tag_ec2_"@ + x).take(15) =~= "__meta_ecs_tag_"@);
    }
}

/// The labels of the container tier are not network labels.
pub proof fn lemma_container_labels_not_network()
    ensures
        "__meta_ecs_container_name"@ != "__meta_ecs_ip_address"@,
        "__meta_ecs_container_name"@ != "__meta_ecs_network_mode"@,
        "__meta_ecs_container_name"@ != "__meta_ecs_subnet_id"@,
        "__meta_ecs_container_image"@ != "__meta_ecs_ip_address"@,
        "__meta_ecs_container_image"@ != "__meta_ecs_network_mode"@,
        "__meta_ecs_container_image"@ != "__meta_ecs_subnet_id"@,
        "__meta_ecs_metrics_port"@ != "__meta_ecs_ip_address"@,
        "__meta_ecs_metrics_port"@ != "__meta_ecs_network_mode"@,
        "__meta_ecs_metrics_port"@ != "__meta_ecs_subnet_id"@,
        "__scheme__"@ != "__meta_ecs_ip_address"@,
        "__scheme__"@ != "__meta_ecs_network_mode"@,
        "__scheme__"@ != "__meta_ecs_subnet_id"@,
        "__metrics_path__"@ != "__meta_ecs_ip_address"@,
        "__metrics_path__"@ != "__meta_ecs_network_mode"@,
        "__metrics_path__"@ != "__meta_ecs_subnet_id"@,
{
    assert("__meta_ecs_container_name"@ != "__meta_ecs_ip_address"@) by {
        reveal_strlit("__meta_ecs_container_name");
        reveal_strlit("__meta_ecs_ip_address");
        lemma_differ_at("__meta_ecs_container_name"@, "__meta_ecs_ip_address"@, 11);
    }
    assert("__meta_ecs_container_name"@ != "__meta_ecs_network_mode"@) by {
        reveal_strlit("__meta_ecs_container_name");
        reveal_strlit("__meta_ecs_network_mode");
        lemma_differ_at("__meta_ecs_container_name"@, "__meta_ecs_network_mode"@, 11);
    }
    assert("__meta_ecs_container_name"@ != "__meta_ecs_subnet_id"@) by {
        reveal_strlit("__meta_ecs_container_name");
        reveal_strlit("__meta_ecs_subnet_id");
        lemma_differ_at("__meta_ecs_container_name"@, "__meta_ecs_subnet_id"@, 11);
    }
    assert("__meta_ecs_container_image"@ != "__meta_ecs_ip_address"@) by {
        reveal_strlit("__meta_ecs_container_image");
        reveal_strlit("__meta_ecs_ip_address");
        lemma_differ_at("__meta_ecs_container_image"@, "__meta_ecs_ip_address"@, 11);
    }
    assert("__meta_ecs_container_image"@ != "__meta_ecs_network_mode"@) by {
        reveal_strlit("__meta_ecs_container_image");
        reveal_strlit("__meta_ecs_network_mode");
        lemma_differ_at("__meta_ecs_container_image"@, "__meta_ecs_network_mode"@, 11);
    }
    assert("__meta_ecs_container_image"@ != "__meta_ecs_subnet_id"@) by {
        reveal_strlit("__meta_ecs_container_image");
        reveal_strlit("__meta_ecs_subnet_id");
        lemma_differ_at("__meta_ecs_container_image"@, "__meta_ecs_subnet_id"@, 11);
    }
    assert("__meta_ecs_metrics_port"@ != "__meta_ecs_ip_address"@) by {
        reveal_strlit("__meta_ecs_metrics_port");
        reveal_strlit("__meta_ecs_ip_address");
        lemma_differ_at("__meta_ecs_metrics_port"@, "__meta_ecs_ip_address"@, 11);
    }
    assert("__meta_ecs_metrics_port"@ != "__meta_ecs_network_mode"@) by {
        reveal_strlit("__meta_ecs_metrics_port");
        reveal_strlit("__meta_ecs_network_mode");
        lemma_differ_at("__meta_ecs_metrics_port"@, "__meta_ecs_network_mode"@, 11);
    }
    assert("__meta_ecs_metrics_port"@ != "__meta_ecs_subnet_id"@) by {
        reveal_strlit("__meta_ecs_metrics_port");
        reveal_strlit("__meta_ecs_subnet_id");
        lemma_differ_at("__meta_ecs_metrics_port"@, "__meta_ecs_subnet_id"@, 11);
    }
    assert("__scheme__"@ != "__meta_ecs_ip_address"@) by {
        reveal_strlit("__scheme__");
        reveal_strlit("__meta_ecs_ip_address");
        lemma_differ_at("__scheme__"@, "__meta_ecs_ip_address"@, 2);
    }
    assert("__scheme__"@ != "__meta_ecs_network_mode"@) by {
        reveal_strlit("__scheme__");
        reveal_strlit("__meta_ecs_network_mode");
        lemma_differ_at("__scheme__"@, "__meta_ecs_network_mode"@, 2);
    }
    assert("__scheme__"@ != "__meta_ecs_subnet_id"@) by {
        reveal_strlit("__scheme__");
        reveal_strlit("__meta_ecs_subnet_id");
        lemma_differ_at("__scheme__"@, "__meta_ecs_subnet_id"@, 2);
    }
    assert("__metrics_path__"@ != "__meta_ecs_ip_address"@) by {
        reveal_strlit("__metrics_path__");
        reveal_strlit("__meta_ecs_ip_address");
        lemma_differ_at("__metrics_path__"@, "__meta_ecs_ip_address"@, 5);
    }
    assert("__metrics_path__"@ != "__meta_ecs_network_mode"@) by {
        reveal_strlit("__metrics_path__");
        reveal_strlit("__meta_ecs_network_mode");
        lemma_differ_at("__metrics_path__"@, "__meta_ecs_network_mode"@, 5);
    }
    assert("__metrics_path__"@ != "__meta_ecs_subnet_id"@) by {
        reveal_strlit("__metrics_path__");
        reveal_strlit("__meta_ecs_subnet_id");
        lemma_differ_at("__metrics_path__"@, "__meta_ecs_subnet_id"@, 5);
    }
}

/// The labels of the EC2 tier are not account labels.
pub proof fn lemma_ec2_labels_not_account(x: Seq<char>)
    ensures
        "__meta_ecs_container_instance_arn"@ != "__meta_ecs_region"@,
        "__meta_ecs_container_instance_arn"@ != "__meta_ecs_account_id"@,
        "__meta_ecs_container_instance_arn"@ != "__meta_ecs_availability_zone"@,
        "__meta_ecs_ec2_instance_id"@ != "__meta_ecs_region"@,
        "__meta_ecs_ec2_instance_id"@ != "__meta_ecs_account_id"@,
        "__meta_ecs_ec2_instance_id"@ != "__meta_ecs_availability_zone"@,
        "__meta_ecs_ec2_instance_private_ip"@ != "__meta_ecs_region"@,
        "__meta_ecs_ec2_instance_private_ip"@ != "__meta_ecs_account_id"@,
        "__meta_ecs_ec2_instance_private_ip"@ != "__meta_ecs_availability_zone"@,
        "__meta_ecs_public_ip"@ != "__meta_ecs_region"@,
        "__meta_ecs_public_ip"@ != "__meta_ecs_account_id"@,
        "__meta_ecs_public_ip"@ != "__meta_ecs_availability_zone"@,
        "__meta_ecs_ec2_instance_public_ip"@ != "__meta_ecs_region"@,
        "__meta_ecs_ec2_instance_public_ip"@ != "__meta_ecs_account_id"@,
        "__meta_ecs_ec2_instance_public_ip"@ != "__meta_ecs_availability_zone"@,
        "__meta_ecs_ec2_instance_type"@ != "__meta_ecs_region"@,
        "__meta_ecs_ec2_instance_type"@ != "__meta_ecs_account_id"@,
        "__meta_ecs_ec2_instance_type"@ != "__meta_ecs_availability_zone"@,
        "__meta_ecs_tag_ec2_"@ + x != "__meta_ecs_region"@,
        "__meta_ecs_tag_ec2_"@ + x != "__meta_ecs_account_id"@,
        "__meta_ecs_tag_ec2_"@ + x != "__meta_ecs_availability_zone"@,
{
    assert("__meta_ecs_container_instance_arn"@ != "__meta_ecs_region"@) by {
        reveal_strlit("__meta_ecs_container_instance_arn");
        reveal_strlit("__meta_ecs_region");
        lemma_differ_at("__meta_ecs_container_instance_arn"@, "__meta_ecs_region"@, 11);
    }
    assert("__meta_ecs_container_instance_arn"@ != "__meta_ecs_account_id"@) by {
        reveal_strlit("__meta_ecs_container_instance_arn");
        reveal_strlit("__meta_ecs_account_id");
        lemma_differ_at("__meta_ecs_container_instance_arn"@, "__meta_ecs_account_id"@, 11);
    }
    assert("__meta_ecs_container_instance_arn"@ != "__meta_ecs_availability_zone"@) by {
        reveal_strlit("__meta_ecs_container_instance_arn");
        reveal_strlit("__meta_ecs_availability_zone");
        lemma_differ_at("__meta_ecs_container_instance_arn"@, "__meta_ecs_availability_zone"@, 11);
    }
    assert("__meta_ecs_ec2_instance_id"@ != "__meta_ecs_region"@) by {
        reveal_strlit("__meta_ecs_ec2_instance_id");
        reveal_strlit("__meta_ecs_region");
        lemma_differ_at("__meta_ecs_ec2_instance_id"@, "__meta_ecs_region"@, 11);
    }
    assert("__meta_ecs_ec2_instance_id"@ != "__meta_ecs_account_id"@) by {
        reveal_strlit("__meta_ecs_ec2_instance_id");
        reveal_strlit("__meta_ecs_account_id");
        lemma_differ_at("__meta_ecs_ec2_instance_id"@, "__meta_ecs_account_id"@, 11);
    }
    assert("__meta_ecs_ec2_instance_id"@ != "__meta_ecs_availability_zone"@) by {
        reveal_strlit("__meta_ecs_ec2_instance_id");
        reveal_strlit("__meta_ecs_availability_zone");
        lemma_differ_at("__meta_ecs_ec2_instance_id"@, "__meta_ecs_availability_zone"@, 11);
    }
    assert("__meta_ecs_ec2_instance_private_ip"@ != "__meta_ecs_region"@) by {
        reveal_strlit("__meta_ecs_ec2_instance_private_ip");
        reveal_strlit("__meta_ecs_region");
        lemma_differ_at("__meta_ecs_ec2_instance_private_ip"@, "__meta_ecs_region"@, 11);
    }
    assert("__meta_ecs_ec2_instance_private_ip"@ != "__meta_ecs_account_id"@) by {
        reveal_strlit("__meta_ecs_ec2_instance_private_ip");
        reveal_strlit("__meta_ecs_account_id");
        lemma_differ_at("__meta_ecs_ec2_instance_private_ip"@, "__meta_ecs_account_id"@, 11);
    }
    assert("__meta_ecs_ec2_instance_private_ip"@ != "__meta_ecs_availability_zone"@) by {
        reveal_strlit("__meta_ecs_ec2_instance_private_ip");
        reveal_strlit("__meta_ecs_availability_zone");
        lemma_differ_at("__meta_ecs_ec2_instance_private_ip"@, "__meta_ecs_availability_zone"@, 11);
    }
    assert("__meta_ecs_public_ip"@ != "__meta_ecs_region"@) by {
        reveal_strlit("__meta_ecs_public_ip");
        reveal_strlit("__meta_ecs_region");
        lemma_differ_at("__meta_ecs_public_ip"@, "__meta_ecs_region"@, 11);
    }
    assert("__meta_ecs_public_ip"@ != "__meta_ecs_account_id"@) by {
        reveal_strlit("__meta_ecs_public_ip");
        reveal_strlit("__meta_ecs_account_id");
        lemma_differ_at("__meta_ecs_public_ip"@, "__meta_ecs_account_id"@, 11);
    }
    assert("__meta_ecs_public_ip"@ != "__meta_ecs_availability_zone"@) by {
        reveal_strlit("__meta_ecs_public_ip");
        reveal_strlit("__meta_ecs_availability_zone");
        lemma_differ_at("__meta_ecs_public_ip"@, "__meta_ecs_availability_zone"@, 11);
    }
    assert("__meta_ecs_ec2_instance_public_ip"@ != "__meta_ecs_region"@) by {
        reveal_strlit("__meta_ecs_ec2_instance_public_ip");
        reveal_strlit("__meta_ecs_region");
        lemma_differ_at("__meta_ecs_ec2_instance_public_ip"@, "__meta_ecs_region"@, 11);
    }
    assert("__meta_ecs_ec2_instance_public_ip"@ != "__meta_ecs_account_id"@) by {
        reveal_strlit("__meta_ecs_ec2_instance_public_ip");
        reveal_strlit("__meta_ecs_account_id");
        lemma_differ_at("__meta_ecs_ec2_instance_public_ip"@, "__meta_ecs_account_id"@, 11);
    }
    assert("__meta_ecs_ec2_instance_public_ip"@ != "__meta_ecs_availability_zone"@) by {
        reveal_strlit("__meta_ecs_ec2_instance_public_ip");
        reveal_strlit("__meta_ecs_availability_zone");
        lemma_differ_at("__meta_ecs_ec2_instance_public_ip"@, "__meta_ecs_availability_zone"@, 11);
    }
    assert("__meta_ecs_ec2_instance_type"@ != "__meta_ecs_region"@) by {
        reveal_strlit("__meta_ecs_ec2_instance_type");
        reveal_strlit("__meta_ecs_region");
        lemma_differ_at("__meta_ecs_ec2_instance_type"@, "__meta_ecs_region"@, 11);
    }
    assert("__meta_ecs_ec2_instance_type"@ != "__meta_ecs_account_id"@) by {
        reveal_strlit("__meta_ecs_ec2_instance_type");
        reveal_strlit("__meta_ecs_account_id");
        lemma_differ_at("__meta_ecs_ec2_instance_type"@, "__meta_ecs_account_id"@, 11);
    }
    assert("__meta_ecs_ec2_instance_type"@ != "__meta_ecs_availability_zone"@) by {
        reveal_strlit("__meta_ecs_ec2_instance_type");
        reveal_strlit("__meta_ecs_availability_zone");
        lemma_differ_at("__meta_ecs_ec2_instance_type"@, "__meta_ecs_availability_zone"@, 11);
    }
    assert("__meta_ecs_tag_ec2_"@ + x != "__meta_ecs_region"@) by {
        reveal_strlit("__meta_ecs_tag_ec2_");
        reveal_strlit("__meta_ecs_region");
        lemma_differ_at("__meta_ecs_tag_ec2_"@ + x, "__meta_ecs_region"@, 11);
    }
    assert("__meta_ecs_tag_ec2_"@ + x != "__meta_ecs_account_id"@) by {
        reveal_strlit("__meta_ecs_tag_ec2_");
        reveal_strlit("__meta_ecs_account_id");
        lemma_differ_at("__meta_ecs_tag_ec2_"@ + x, "__meta_ecs_account_id"@, 11);
    }
    assert("__meta_ecs_tag_ec2_"@ + x != "__meta_ecs_availability_zone"@) by {
        reveal_strlit("__meta_ecs_tag_ec2_");
        reveal_strlit("__meta_ecs_availability_zone");
        lemma_differ_at("__meta_ecs_tag_ec2_"@ + x, "__meta_ecs_availability_zone"@, 11);
    }
}

/// The network labels are distinct, and so are the account labels.
pub proof fn lemma_network_and_account_labels_distinct()
    ensures
        "__meta_ecs_ip_address"@ != "__meta_ecs_network_mode"@,
        "__meta_ecs_ip_address"@ != "__meta_ecs_subnet_id"@,
        "__meta_ecs_network_mode"@ != "__meta_ecs_subnet_id"@,
        "__meta_ecs_region"@ != "__meta_ecs_account_id"@,
        "__meta_ecs_region"@ != "__meta_ecs_availability_zone"@,
        "__meta_ecs_account_id"@ != "__meta_ecs_availability_zone"@,
{
    assert("__meta_ecs_ip_address"@ != "__meta_ecs_network_mode"@) by {
        reveal_strlit("__meta_ecs_ip_address");
        reveal_strlit("__meta_ecs_network_mode");
        lemma_differ_at("__meta_ecs_ip_address"@, "__meta_ecs_network_mode"@, 11);
    }
    assert("__meta_ecs_ip_address"@ != "__meta_ecs_subnet_id"@) by {
        reveal_strlit("__meta_ecs_ip_address");
        reveal_strlit("__meta_ecs_subnet_id");
        lemma_differ_at("__meta_ecs_ip_address"@, "__meta_ecs_subnet_id"@, 11);
    }
    assert("__meta_ecs_network_mode"@ != "__meta_ecs_subnet_id"@) by {
        reveal_strlit("__meta_ecs_network_mode");
        reveal_strlit("__meta_ecs_subnet_id");
        lemma_differ_at("__meta_ecs_network_mode"@, "__meta_ecs_subnet_id"@, 11);
    }
    assert("__meta_ecs_region"@ != "__meta_ecs_account_id"@) by {
        reveal_strlit("__meta_ecs_region");
        reveal_strlit("__meta_ecs_account_id");
        lemma_differ_at("__meta_ecs_region"@, "__meta_ecs_account_id"@, 11);
    }
    assert("__meta_ecs_region"@ != "__meta_ecs_availability_zone"@) by {
        reveal_strlit("__meta_ecs_region");
        reveal_strlit("__meta_ecs_availability_zone");
        lemma_differ_at("__meta_ecs_region"@, "__meta_ecs_availability_zone"@, 11);
    }
    assert("__meta_ecs_account_id"@ != "__meta_ecs_availability_zone"@) by {
        reveal_strlit("__meta_ecs_account_id");
        reveal_strlit("__meta_ecs_availability_zone");
        lemma_differ_at("__meta_ecs_account_id"@, "__meta_ecs_availability_zone"@, 12);
    }
}

/// The fixed labels of the service tier are distinct from each other and from every later label of that tier.
pub proof fn lemma_service_names_distinct(x: Seq<char>)
    ensures
        "__meta_ecs_service_name"@ != "__meta_ecs_service"@,
        "__meta_ecs_service_name"@ != "__meta_ecs_service_arn"@,
        "__meta_ecs_service_name"@ != "__meta_ecs_service_status"@,
        "__meta_ecs_service_name"@ != "__meta_ecs_desired_count"@,
        "__meta_ecs_service_name"@ != "__meta_ecs_running_count"@,
        "__meta_ecs_tag_service_"@ + x != "__meta_ecs_service_name"@,
        "__meta_ecs_service"@ != "__meta_ecs_service_arn"@,
        "__meta_ecs_service"@ != "__meta_ecs_service_status"@,
        "__meta_ecs_service"@ != "__meta_ecs_desired_count"@,
        "__meta_ecs_service"@ != "__meta_ecs_running_count"@,
        "__meta_ecs_tag_service_"@ + x != "__meta_ecs_service"@,
        "__meta_ecs_service_arn"@ != "__meta_ecs_service_status"@,
        "__meta_ecs_service_arn"@ != "__meta_ecs_desired_count"@,
        "__meta_ecs_service_arn"@ != "__meta_ecs_running_count"@,
        "__meta_ecs_tag_service_"@ + x != "__meta_ecs_service_arn"@,
        "__meta_ecs_service_status"@ != "__meta_ecs_desired_count"@,
        "__meta_ecs_service_status"@ != "__meta_ecs_running_count"@,
        "__meta_ecs_tag_service_"@ + x != "__meta_ecs_service_status"@,
        "__meta_ecs_desired_count"@ != "__meta_ecs_running_count"@,
        "__meta_ecs_tag_service_"@ + x != "__meta_ecs_desired_count"@,
        "__meta_ecs_tag_service_"@ + x != "__meta_ecs_running_count"@,
{
    assert("__meta_ecs_service_name"@ != "__meta_ecs_service"@) by {
        reveal_strlit("__meta_ecs_service_name");
        reveal_strlit("__meta_ecs_service");
        assert("__meta_ecs_service_name"@.len() != "__meta_ecs_service"@.len());
    }
    assert("__meta_ecs_service_name"@ != "__meta_ecs_service_arn"@) by {
        reveal_strlit("__meta_ecs_service_name");
        reveal_strlit("__meta_ecs_service_arn");
        lemma_differ_at("__meta_ecs_service_name"@, "__meta_ecs_service_arn"@, 19);
    }
    assert("__meta_ecs_service_name"@ != "__meta_ecs_service_status"@) by {
        reveal_strlit("__meta_ecs_service_name");
        reveal_strlit("__meta_ecs_service_status");
        lemma_differ_at("__meta_ecs_service_name"@, "__meta_ecs_service_status"@, 19);
    }
    assert("__meta_ecs_service_name"@ != "__meta_ecs_desired_count"@) by {
        reveal_strlit("__meta_ecs_service_name");
        reveal_strlit("__meta_ecs_desired_count");
        lemma_differ_at("__meta_ecs_service_name"@, "__meta_ecs_desired_count"@, 11);
    }
    assert("__meta_ecs_service_name"@ != "__meta_ecs_running_count"@) by {
        reveal_strlit("__meta_ecs_service_name");
        reveal_strlit("__meta_ecs_running_count");
        lemma_differ_at("__meta_ecs_service_name"@, "__meta_ecs_running_count"@, 11);
    }
    assert("__meta_ecs_tag_service_"@ + x != "__meta_ecs_service_name"@) by {
        reveal_strlit("__meta_ecs_tag_service_");
        reveal_strlit("__meta_ecs_service_name");
        lemma_differ_at("__meta_ecs_tag_service_"@ + x, "__meta_ecs_service_name"@, 11);
    }
    assert("__meta_ecs_service"@ != "__meta_ecs_service_arn"@) by {
        reveal_strlit("__meta_ecs_service");
        reveal_strlit("__meta_ecs_service_arn");
        assert("__meta_ecs_service"@.len() != "__meta_ecs_service_arn"@.len());
    }
    assert("__meta_ecs_service"@ != "__meta_ecs_service_status"@) by {
        reveal_strlit("__meta_ecs_service");
        reveal_strlit("__meta_ecs_service_status");
        assert("__meta_ecs_service"@.len() != "__meta_ecs_service_status"@.len());
    }
    assert("__meta_ecs_service"@ != "__meta_ecs_desired_count"@) by {
        reveal_strlit("__meta_ecs_service");
        reveal_strlit("__meta_ecs_desired_count");
        lemma_differ_at("__meta_ecs_service"@, "__meta_ecs_desired_count"@, 11);
    }
    assert("__meta_ecs_service"@ != "__meta_ecs_running_count"@) by {
        reveal_strlit("__meta_ecs_service");
        reveal_strlit("__meta_ecs_running_count");
        lemma_differ_at("__meta_ecs_service"@, "__meta_ecs_running_count"@, 11);
    }
    assert("__meta_ecs_tag_service_"@ + x != "__meta_ecs_service"@) by {
        reveal_strlit("__meta_ecs_tag_service_");
        reveal_strlit("__meta_ecs_service");
        lemma_differ_at("__meta_ecs_tag_service_"@ + x, "__meta_ecs_service"@, 11);
    }
    assert("__meta_ecs_service_arn"@ != "__meta_ecs_service_status"@) by {
        reveal_strlit("__meta_ecs_service_arn");
        reveal_strlit("__meta_ecs_service_status");
        lemma_differ_at("__meta_ecs_service_arn"@, "__meta_ecs_service_status"@, 19);
    }
    assert("__meta_ecs_service_arn"@ != "__meta_ecs_desired_count"@) by {
        reveal_strlit("__meta_ecs_service_arn");
        reveal_strlit("__meta_ecs_desired_count");
        lemma_differ_at("__meta_ecs_service_arn"@, "__meta_ecs_desired_count"@, 11);
    }
    assert("__meta_ecs_service_arn"@ != "__meta_ecs_running_count"@) by {
        reveal_strlit("__meta_ecs_service_arn");
        reveal_strlit("__meta_ecs_running_count");
        lemma_differ_at("__meta_ecs_service_arn"@, "__meta_ecs_running_count"@, 11);
    }
    assert("__meta_ecs_tag_service_"@ + x != "__meta_ecs_service_arn"@) by {
        reveal_strlit("__meta_ecs_tag_service_");
        reveal_strlit("__meta_ecs_service_arn");
        lemma_differ_at("__meta_ecs_tag_service_"@ + x, "__meta_ecs_service_arn"@, 11);
    }
    assert("__meta_ecs_service_status"@ != "__meta_ecs_desired_count"@) by {
        reveal_strlit("__meta_ecs_service_status");
        reveal_strlit("__meta_ecs_desired_count");
        lemma_differ_at("__meta_ecs_service_status"@, "__meta_ecs_desired_count"@, 11);
    }
    assert("__meta_ecs_service_status"@ != "__meta_ecs_running_count"@) by {
        reveal_strlit("__meta_ecs_service_status");
        reveal_strlit("__meta_ecs_running_count");
        lemma_differ_at("__meta_ecs_service_status"@, "__meta_ecs_running_count"@, 11);
    }
    assert("__meta_ecs_tag_service_"@ + x != "__meta_ecs_service_status"@) by {
        reveal_strlit("__meta_ecs_tag_service_");
        reveal_strlit("__meta_ecs_service_status");
        lemma_differ_at("__meta_ecs_tag_service_"@ + x, "__meta_ecs_service_status"@, 11);
    }
    assert("__meta_ecs_desired_count"@ != "__meta_ecs_running_count"@) by {
        reveal_strlit("__meta_ecs_desired_count");
        reveal_strlit("__meta_ecs_running_count");
        lemma_differ_at("__meta_ecs_desired_count"@, "__meta_ecs_running_count"@, 11);
    }
    assert("__meta_ecs_tag_service_"@ + x != "__meta_ecs_desired_count"@) by {
        reveal_strlit("__meta_ecs_tag_service_");
        reveal_strlit("__meta_ecs_desired_count");
        lemma_differ_at("__meta_ecs_tag_service_"@ + x, "__meta_ecs_desired_count"@, 11);
    }
    assert("__meta_ecs_tag_service_"@ + x != "__meta_ecs_running_count"@) by {
        reveal_strlit("__meta_ecs_tag_service_");
        reveal_strlit("__meta_ecs_running_count");
        lemma_differ_at("__meta_ecs_tag_service_"@ + x, "__meta_ecs_running_count"@, 11);
    }
}

/// The fixed labels of the cluster tier are distinct from each other and from every later label of that tier.
pub proof fn lemma_cluster_names_distinct(x: Seq<char>)
    ensures
        "__meta_ecs_cluster_name"@ != "__meta_ecs_cluster"@,
        "__meta_ecs_cluster_name"@ != "__meta_ecs_cluster_arn"@,
        "__meta_ecs_tag_cluster_"@ + x != "__meta_ecs_cluster_name"@,
        "__meta_ecs_cluster"@ != "__meta_ecs_cluster_arn"@,
        "__meta_ecs_tag_cluster_"@ + x != "__meta_ecs_cluster"@,
        "__meta_ecs_tag_cluster_"@ + x != "__meta_ecs_cluster_arn"@,
{
    assert("__meta_ecs_cluster_name"@ != "__meta_ecs_cluster"@) by {
        reveal_strlit("__meta_ecs_cluster_name");
        reveal_strlit("__meta_ecs_cluster");
        assert("__meta_ecs_cluster_name"@.len() != "__meta_ecs_cluster"@.len());
    }
    assert("__meta_ecs_cluster_name"@ != "__meta_ecs_cluster_arn"@) by {
        reveal_strlit("__meta_ecs_cluster_name");
        reveal_strlit("__meta_ecs_cluster_arn");
        lemma_differ_at("__meta_ecs_cluster_name"@, "__meta_ecs_cluster_arn"@, 19);
    }
    assert("__meta_ecs_tag_cluster_"@ + x != "__meta_ecs_cluster_name"@) by {
        reveal_strlit("__meta_ecs_tag_cluster_");
        reveal_strlit("__meta_ecs_cluster_name");
        lemma_differ_at("__meta_ecs_tag_cluster_"@ + x, "__meta_ecs_cluster_name"@, 11);
    }
    assert("__meta_ecs_cluster"@ != "__meta_ecs_cluster_arn"@) by {
        reveal_strlit("__meta_ecs_cluster");
        reveal_strlit("__meta_ecs_cluster_arn");
        assert("__meta_ecs_cluster"@.len() != "__meta_ecs_cluster_arn"@.len());
    }
    assert("__meta_ecs_tag_cluster_"@ + x != "__meta_ecs_cluster"@) by {
        reveal_strlit("__meta_ecs_tag_cluster_");
        reveal_strlit("__meta_ecs_cluster");
        lemma_differ_at("__meta_ecs_tag_cluster_"@ + x, "__meta_ecs_cluster"@, 11);
    }
    assert("__meta_ecs_tag_cluster_"@ + x != "__meta_ecs_cluster_arn"@) by {
        reveal_strlit("__meta_ecs_tag_cluster_");
        reveal_strlit("__meta_ecs_cluster_arn");
        lemma_differ_at("__meta_ecs_tag_cluster_"@ + x, "__meta_ecs_cluster_arn"@, 11);
    }
}

/// The fixed labels of the container tier are distinct from each other and from every later label of that tier.
pub proof fn lemma_container_names_distinct()
    ensures
        "__meta_ecs_container_name"@ != "__meta_ecs_container_image"@,
        "__meta_ecs_container_name"@ != "__meta_ecs_metrics_port"@,
        "__meta_ecs_container_name"@ != "__scheme__"@,
        "__meta_ecs_container_name"@ != "__metrics_path__"@,
        "__meta_ecs_container_image"@ != "__meta_ecs_metrics_port"@,
        "__meta_ecs_container_image"@ != "__scheme__"@,
        "__meta_ecs_container_image"@ != "__metrics_path__"@,
        "__meta_ecs_metrics_port"@ != "__scheme__"@,
        "__meta_ecs_metrics_port"@ != "__metrics_path__"@,
        "__scheme__"@ != "__metrics_path__"@,
{
    assert("__meta_ecs_container_name"@ != "__meta_ecs_container_image"@) by {
        reveal_strlit("__meta_ecs_container_name");
        reveal_strlit("__meta_ecs_container_image");
        lemma_differ_at("__meta_ecs_container_name"@, "__meta_ecs_container_image"@, 21);
    }
    assert("__meta_ecs_container_name"@ != "__meta_ecs_metrics_port"@) by {
        reveal_strlit("__meta_ecs_container_name");
        reveal_strlit("__meta_ecs_metrics_port");
        lemma_differ_at("__meta_ecs_container_name"@, "__meta_ecs_metrics_port"@, 11);
    }
    assert("__meta_ecs_container_name"@ != "__scheme__"@) by {
        reveal_strlit("__meta_ecs_container_name");
        reveal_strlit("__scheme__");
        lemma_differ_at("__meta_ecs_container_name"@, "__scheme__"@, 2);
    }
    assert("__meta_ecs_container_name"@ != "__metrics_path__"@) by {
        reveal_strlit("__meta_ecs_container_name");
        reveal_strlit("__metrics_path__");
        lemma_differ_at("__meta_ecs_container_name"@, "__metrics_path__"@, 5);
    }
    assert("__meta_ecs_container_image"@ != "__meta_ecs_metrics_port"@) by {
        reveal_strlit("__meta_ecs_container_image");
        reveal_strlit("__meta_ecs_metrics_port");
        lemma_differ_at("__meta_ecs_container_image"@, "__meta_ecs_metrics_port"@, 11);
    }
    assert("__meta_ecs_container_image"@ != "__scheme__"@) by {
        reveal_strlit("__meta_ecs_container_image");
        reveal_strlit("__scheme__");
        lemma_differ_at("__meta_ecs_container_image"@, "__scheme__"@, 2);
    }
    assert("__meta_ecs_container_image"@ != "__metrics_path__"@) by {
        reveal_strlit("__meta_ecs_container_image");
        reveal_strlit("__metrics_path__");
        lemma_differ_at("__meta_ecs_container_image"@, "__metrics_path__"@, 5);
    }
    assert("__meta_ecs_metrics_port"@ != "__scheme__"@) by {
        reveal_strlit("__meta_ecs_metrics_port");
        reveal_strlit("__scheme__");
        lemma_differ_at("__meta_ecs_metrics_port"@, "__scheme__"@, 2);
    }
    assert("__meta_ecs_metrics_port"@ != "__metrics_path__"@) by {
        reveal_strlit("__meta_ecs_metrics_port");
        reveal_strlit("__metrics_path__");
        lemma_differ_at("__meta_ecs_metrics_port"@, "__metrics_path__"@, 5);
    }
    assert("__scheme__"@ != "__metrics_path__"@) by {
        reveal_strlit("__scheme__");
        reveal_strlit("__metrics_path__");
        lemma_differ_at("__scheme__"@, "__metrics_path__"@, 2);
    }
}

/// The fixed labels of the task tier are distinct from each other and from every later label of that tier.
pub proof fn lemma_task_names_distinct(x: Seq<char>)
    ensures
        "__meta_ecs_task_arn"@ != "__meta_ecs_task_definition"@,
        "__meta_ecs_task_arn"@ != "__meta_ecs_task_family"@,
        "__meta_ecs_task_arn"@ != "__meta_ecs_task_version"@,
        "__meta_ecs_task_arn"@ != "__meta_ecs_launch_type"@,
        "__meta_ecs_task_arn"@ != "__meta_ecs_task_group"@,
        "__meta_ecs_task_arn"@ != "__meta_ecs_desired_status"@,
        "__meta_ecs_task_arn"@ != "__meta_ecs_last_status"@,
        "__meta_ecs_task_arn"@ != "__meta_ecs_health_status"@,
        "__meta_ecs_task_arn"@ != "__meta_ecs_platform_family"@,
        "__meta_ecs_task_arn"@ != "__meta_ecs_platform_version"@,
        "__meta_ecs_tag_task_"@ + x != "__meta_ecs_task_arn"@,
        "__meta_ecs_task_definition"@ != "__meta_ecs_task_family"@,
        "__meta_ecs_task_definition"@ != "__meta_ecs_task_version"@,
        "__meta_ecs_task_definition"@ != "__meta_ecs_launch_type"@,
        "__meta_ecs_task_definition"@ != "__meta_ecs_task_group"@,
        "__meta_ecs_task_definition"@ != "__meta_ecs_desired_status"@,
        "__meta_ecs_task_definition"@ != "__meta_ecs_last_status"@,
        "__meta_ecs_task_definition"@ != "__meta_ecs_health_status"@,
        "__meta_ecs_task_definition"@ != "__meta_ecs_platform_family"@,
        "__meta_ecs_task_definition"@ != "__meta_ecs_platform_version"@,
        "__meta_ecs_tag_task_"@ + x != "__meta_ecs_task_definition"@,
        "__meta_ecs_task_family"@ != "__meta_ecs_task_version"@,
        "__meta_ecs_task_family"@ != "__meta_ecs_launch_type"@,
        "__meta_ecs_task_family"@ != "__meta_ecs_task_group"@,
        "__meta_ecs_task_family"@ != "__meta_ecs_desired_status"@,
        "__meta_ecs_task_family"@ != "__meta_ecs_last_status"@,
        "__meta_ecs_task_family"@ != "__meta_ecs_health_status"@,
        "__meta_ecs_task_family"@ != "__meta_ecs_platform_family"@,
        "__meta_ecs_task_family"@ != "__meta_ecs_platform_version"@,
        "__meta_ecs_tag_task_"@ + x != "__meta_ecs_task_family"@,
        "__meta_ecs_task_version"@ != "__meta_ecs_launch_type"@,
        "__meta_ecs_task_version"@ != "__meta_ecs_task_group"@,
        "__meta_ecs_task_version"@ != "__meta_ecs_desired_status"@,
        "__meta_ecs_task_version"@ != "__meta_ecs_last_status"@,
        "__meta_ecs_task_version"@ != "__meta_ecs_health_status"@,
        "__meta_ecs_task_version"@ != "__meta_ecs_platform_family"@,
        "__meta_ecs_task_version"@ != "__meta_ecs_platform_version"@,
        "__meta_ecs_tag_task_"@ + x != "__meta_ecs_task_version"@,
        "__meta_ecs_launch_type"@ != "__meta_ecs_task_group"@,
        "__meta_ecs_launch_type"@ != "__meta_ecs_desired_status"@,
        "__meta_ecs_launch_type"@ != "__meta_ecs_last_status"@,
        "__meta_ecs_launch_type"@ != "__meta_ecs_health_status"@,
        "__meta_ecs_launch_type"@ != "__meta_ecs_platform_family"@,
        "__meta_ecs_launch_type"@ != "__meta_ecs_platform_version"@,
        "__meta_ecs_tag_task_"@ + x != "__meta_ecs_launch_type"@,
{
    assert("__meta_ecs_task_arn"@ != "__meta_ecs_task_definition"@) by {
        reveal_strlit("__meta_ecs_task_arn");
        reveal_strlit("__meta_ecs_task_definition");
        lemma_differ_at("__meta_ecs_task_arn"@, "__meta_ecs_task_definition"@, 16);
    }
    assert("__meta_ecs_task_arn"@ != "__meta_ecs_task_family"@) by {
        reveal_strlit("__meta_ecs_task_arn");
        reveal_strlit("__meta_ecs_task_family");
        lemma_differ_at("__meta_ecs_task_arn"@, "__meta_ecs_task_family"@, 16);
    }
    assert("__meta_ecs_task_arn"@ != "__meta_ecs_task_version"@) by {
        reveal_strlit("__meta_ecs_task_arn");
        reveal_strlit("__meta_ecs_task_version");
        lemma_differ_at("__meta_ecs_task_arn"@, "__meta_ecs_task_version"@, 16);
    }
    assert("__meta_ecs_task_arn"@ != "__meta_ecs_launch_type"@) by {
        reveal_strlit("__meta_ecs_task_arn");
        reveal_strlit("__meta_ecs_launch_type");
        lemma_differ_at("__meta_ecs_task_arn"@, "__meta_ecs_launch_type"@, 11);
    }
    assert("__meta_ecs_task_arn"@ != "__meta_ecs_task_group"@) by {
        reveal_strlit("__meta_ecs_task_arn");
        reveal_strlit("__meta_ecs_task_group");
        lemma_differ_at("__meta_ecs_task_arn"@, "__meta_ecs_task_group"@, 16);
    }
    assert("__meta_ecs_task_arn"@ != "__meta_ecs_desired_status"@) by {
        reveal_strlit("__meta_ecs_task_arn");
        reveal_strlit("__meta_ecs_desired_status");
        lemma_differ_at("__meta_ecs_task_arn"@, "__meta_ecs_desired_status"@, 11);
    }
    assert("__meta_ecs_task_arn"@ != "__meta_ecs_last_status"@) by {
        reveal_strlit("__meta_ecs_task_arn");
        reveal_strlit("__meta_ecs_last_status");
        lemma_differ_at("__meta_ecs_task_arn"@, "__meta_ecs_last_status"@, 11);
    }
    assert("__meta_ecs_task_arn"@ != "__meta_ecs_health_status"@) by {
        reveal_strlit("__meta_ecs_task_arn");
        reveal_strlit("__meta_ecs_health_status");
        lemma_differ_at("__meta_ecs_task_arn"@, "__meta_ecs_health_status"@, 11);
    }
    assert("__meta_ecs_task_arn"@ != "__meta_ecs_platform_family"@) by {
        reveal_strlit("__meta_ecs_task_arn");
        reveal_strlit("__meta_ecs_platform_family");
        lemma_differ_at("__meta_ecs_task_arn"@, "__meta_ecs_platform_family"@, 11);
    }
    assert("__meta_ecs_task_arn"@ != "__meta_ecs_platform_version"@) by {
        reveal_strlit("__meta_ecs_task_arn");
        reveal_strlit("__meta_ecs_platform_version");
        lemma_differ_at("__meta_ecs_task_arn"@, "__meta_ecs_platform_version"@, 11);
    }
    assert("__meta_ecs_tag_task_"@ + x != "__meta_ecs_task_arn"@) by {
        reveal_strlit("__meta_ecs_tag_task_");
        reveal_strlit("__meta_ecs_task_arn");
        lemma_differ_at("__meta_ecs_tag_task_"@ + x, "__meta_ecs_task_arn"@, 13);
    }
    assert("__meta_ecs_task_definition"@ != "__meta_ecs_task_family"@) by {
        reveal_strlit("__meta_ecs_task_definition");
        reveal_strlit("__meta_ecs_task_family");
        lemma_differ_at("__meta_ecs_task_definition"@, "__meta_ecs_task_family"@, 16);
    }
    assert("__meta_ecs_task_definition"@ != "__meta_ecs_task_version"@) by {
        reveal_strlit("__meta_ecs_task_definition");
        reveal_strlit("__meta_ecs_task_version");
        lemma_differ_at("__meta_ecs_task_definition"@, "__meta_ecs_task_version"@, 16);
    }
    assert("__meta_ecs_task_definition"@ != "__meta_ecs_launch_type"@) by {
        reveal_strlit("__meta_ecs_task_definition");
        reveal_strlit("__meta_ecs_launch_type");
        lemma_differ_at("__meta_ecs_task_definition"@, "__meta_ecs_launch_type"@, 11);
    }
    assert("__meta_ecs_task_definition"@ != "__meta_ecs_task_group"@) by {
        reveal_strlit("__meta_ecs_task_definition");
        reveal_strlit("__meta_ecs_task_group");
        lemma_differ_at("__meta_ecs_task_definition"@, "__meta_ecs_task_group"@, 16);
    }
    assert("__meta_ecs_task_definition"@ != "__meta_ecs_desired_status"@) by {
        reveal_strlit("__meta_ecs_task_definition");
        reveal_strlit("__meta_ecs_desired_status");
        lemma_differ_at("__meta_ecs_task_definition"@, "__meta_ecs_desired_status"@, 11);
    }
    assert("__meta_ecs_task_definition"@ != "__meta_ecs_last_status"@) by {
        reveal_strlit("__meta_ecs_task_definition");
        reveal_strlit("__meta_ecs_last_status");
        lemma_differ_at("__meta_ecs_task_definition"@, "__meta_ecs_last_status"@, 11);
    }
    assert("__meta_ecs_task_definition"@ != "__meta_ecs_health_status"@) by {
        reveal_strlit("__meta_ecs_task_definition");
        reveal_strlit("__meta_ecs_health_status");
        lemma_differ_at("__meta_ecs_task_definition"@, "__meta_ecs_health_status"@, 11);
    }
    assert("__meta_ecs_task_definition"@ != "__meta_ecs_platform_family"@) by {
        reveal_strlit("__meta_ecs_task_definition");
        reveal_strlit("__meta_ecs_platform_family");
        lemma_differ_at("__meta_ecs_task_definition"@, "__meta_ecs_platform_family"@, 11);
    }
    assert("__meta_ecs_task_definition"@ != "__meta_ecs_platform_version"@) by {
        reveal_strlit("__meta_ecs_task_definition");
        reveal_strlit("__meta_ecs_platform_version");
        lemma_differ_at("__meta_ecs_task_definition"@, "__meta_ecs_platform_version"@, 11);
    }
    assert("__meta_ecs_tag_task_"@ + x != "__meta_ecs_task_definition"@) by {
        reveal_strlit("__meta_ecs_tag_task_");
        reveal_strlit("__meta_ecs_task_definition");
        lemma_differ_at("__meta_ecs_tag_task_"@ + x, "__meta_ecs_task_definition"@, 13);
    }
    assert("__meta_ecs_task_family"@ != "__meta_ecs_task_version"@) by {
        reveal_strlit("__meta_ecs_task_family");
        reveal_strlit("__meta_ecs_task_version");
        lemma_differ_at("__meta_ecs_task_family"@, "__meta_ecs_task_version"@, 16);
    }
    assert("__meta_ecs_task_family"@ != "__meta_ecs_launch_type"@) by {
        reveal_strlit("__meta_ecs_task_family");
        reveal_strlit("__meta_ecs_launch_type");
        lemma_differ_at("__meta_ecs_task_family"@, "__meta_ecs_launch_type"@, 11);
    }
    assert("__meta_ecs_task_family"@ != "__meta_ecs_task_group"@) by {
        reveal_strlit("__meta_ecs_task_family");
        reveal_strlit("__meta_ecs_task_group");
        lemma_differ_at("__meta_ecs_task_family"@, "__meta_ecs_task_group"@, 16);
    }
    assert("__meta_ecs_task_family"@ != "__meta_ecs_desired_status"@) by {
        reveal_strlit("__meta_ecs_task_family");
        reveal_strlit("__meta_ecs_desired_status");
        lemma_differ_at("__meta_ecs_task_family"@, "__meta_ecs_desired_status"@, 11);
    }
    assert("__meta_ecs_task_family"@ != "__meta_ecs_last_status"@) by {
        reveal_strlit("__meta_ecs_task_family");
        reveal_strlit("__meta_ecs_last_status");
        lemma_differ_at("__meta_ecs_task_family"@, "__meta_ecs_last_status"@, 11);
    }
    assert("__meta_ecs_task_family"@ != "__meta_ecs_health_status"@) by {
        reveal_strlit("__meta_ecs_task_family");
        reveal_strlit("__meta_ecs_health_status");
        lemma_differ_at("__meta_ecs_task_family"@, "__meta_ecs_health_status"@, 11);
    }
    assert("__meta_ecs_task_family"@ != "__meta_ecs_platform_family"@) by {
        reveal_strlit("__meta_ecs_task_family");
        reveal_strlit("__meta_ecs_platform_family");
        lemma_differ_at("__meta_ecs_task_family"@, "__meta_ecs_platform_family"@, 11);
    }
    assert("__meta_ecs_task_family"@ != "__meta_ecs_platform_version"@) by {
        reveal_strlit("__meta_ecs_task_family");
        reveal_strlit("__meta_ecs_platform_version");
        lemma_differ_at("__meta_ecs_task_family"@, "__meta_ecs_platform_version"@, 11);
    }
    assert("__meta_ecs_tag_task_"@ + x != "__meta_ecs_task_family"@) by {
        reveal_strlit("__meta_ecs_tag_task_");
        reveal_strlit("__meta_ecs_task_family");
        lemma_differ_at("__meta_ecs_tag_task_"@ + x, "__meta_ecs_task_family"@, 13);
    }
    assert("__meta_ecs_task_version"@ != "__meta_ecs_launch_type"@) by {
        reveal_strlit("__meta_ecs_task_version");
        reveal_strlit("__meta_ecs_launch_type");
        lemma_differ_at("__meta_ecs_task_version"@, "__meta_ecs_launch_type"@, 11);
    }
    assert("__meta_ecs_task_version"@ != "__meta_ecs_task_group"@) by {
        reveal_strlit("__meta_ecs_task_version");
        reveal_strlit("__meta_ecs_task_group");
        lemma_differ_at("__meta_ecs_task_version"@, "__meta_ecs_task_group"@, 16);
    }
    assert("__meta_ecs_task_version"@ != "__meta_ecs_desired_status"@) by {
        reveal_strlit("__meta_ecs_task_version");
        reveal_strlit("__meta_ecs_desired_status");
        lemma_differ_at("__meta_ecs_task_version"@, "__meta_ecs_desired_status"@, 11);
    }
    assert("__meta_ecs_task_version"@ != "__meta_ecs_last_status"@) by {
        reveal_strlit("__meta_ecs_task_version");
        reveal_strlit("__meta_ecs_last_status");
        lemma_differ_at("__meta_ecs_task_version"@, "__meta_ecs_last_status"@, 11);
    }
    assert("__meta_ecs_task_version"@ != "__meta_ecs_health_status"@) by {
        reveal_strlit("__meta_ecs_task_version");
        reveal_strlit("__meta_ecs_health_status");
        lemma_differ_at("__meta_ecs_task_version"@, "__meta_ecs_health_status"@, 11);
    }
    assert("__meta_ecs_task_version"@ != "__meta_ecs_platform_family"@) by {
        reveal_strlit("__meta_ecs_task_version");
        reveal_strlit("__meta_ecs_platform_family");
        lemma_differ_at("__meta_ecs_task_version"@, "__meta_ecs_platform_family"@, 11);
    }
    assert("__meta_ecs_task_version"@ != "__meta_ecs_platform_version"@) by {
        reveal_strlit("__meta_ecs_task_version");
        reveal_strlit("__meta_ecs_platform_version");
        lemma_differ_at("__meta_ecs_task_version"@, "__meta_ecs_platform_version"@, 11);
    }
    assert("__meta_ecs_tag_task_"@ + x != "__meta_ecs_task_version"@) by {
        reveal_strlit("__meta_ecs_tag_task_");
        reveal_strlit("__meta_ecs_task_version");
        lemma_differ_at("__meta_ecs_tag_task_"@ + x, "__meta_ecs_task_version"@, 13);
    }
    assert("__meta_ecs_launch_type"@ != "__meta_ecs_task_group"@) by {
        reveal_strlit("__meta_ecs_launch_type");
        reveal_strlit("__meta_ecs_task_group");
        lemma_differ_at("__meta_ecs_launch_type"@, "__meta_ecs_task_group"@, 11);
    }
    assert("__meta_ecs_launch_type"@ != "__meta_ecs_desired_status"@) by {
        reveal_strlit("__meta_ecs_launch_type");
        reveal_strlit("__meta_ecs_desired_status");
        lemma_differ_at("__meta_ecs_launch_type"@, "__meta_ecs_desired_status"@, 11);
    }
    assert("__meta_ecs_launch_type"@ != "__meta_ecs_last_status"@) by {
        reveal_strlit("__meta_ecs_launch_type");
        reveal_strlit("__meta_ecs_last_status");
        lemma_differ_at("__meta_ecs_launch_type"@, "__meta_ecs_last_status"@, 13);
    }
    assert("__meta_ecs_launch_type"@ != "__meta_ecs_health_status"@) by {
        reveal_strlit("__meta_ecs_launch_type");
        reveal_strlit("__meta_ecs_health_status");
        lemma_differ_at("__meta_ecs_launch_type"@, "__meta_ecs_health_status"@, 11);
    }
    assert("__meta_ecs_launch_type"@ != "__meta_ecs_platform_family"@) by {
        reveal_strlit("__meta_ecs_launch_type");
        reveal_strlit("__meta_ecs_platform_family");
        lemma_differ_at("__meta_ecs_launch_type"@, "__meta_ecs_platform_family"@, 11);
    }
    assert("__meta_ecs_launch_type"@ != "__meta_ecs_platform_version"@) by {
        reveal_strlit("__meta_ecs_launch_type");
        reveal_strlit("__meta_ecs_platform_version");
        lemma_differ_at("__meta_ecs_launch_type"@, "__meta_ecs_platform_version"@, 11);
    }
    assert("__meta_ecs_tag_task_"@ + x != "__meta_ecs_launch_type"@) by {
        reveal_strlit("__meta_ecs_tag_task_");
        reveal_strlit("__meta_ecs_launch_type");
        lemma_differ_at("__meta_ecs_tag_task_"@ + x, "__meta_ecs_launch_type"@, 11);
    }
}

/// The fixed labels of the ec2 tier are distinct from each other and from every later label of that tier.
pub proof fn lemma_ec2_names_distinct(x: Seq<char>)
    ensures
        "__meta_ecs_container_instance_arn"@ != "__meta_ecs_ec2_instance_id"@,
        "__meta_ecs_container_instance_arn"@ != "__meta_ecs_ec2_instance_private_ip"@,
        "__meta_ecs_container_instance_arn"@ != "__meta_ecs_public_ip"@,
        "__meta_ecs_container_instance_arn"@ != "__meta_ecs_ec2_instance_public_ip"@,
        "__meta_ecs_container_instance_arn"@ != "__meta_ecs_ec2_instance_type"@,
        "__meta_ecs_tag_ec2_"@ + x != "__meta_ecs_container_instance_arn"@,
        "__meta_ecs_ec2_instance_id"@ != "__meta_ecs_ec2_instance_private_ip"@,
        "__meta_ecs_ec2_instance_id"@ != "__meta_ecs_public_ip"@,
        "__meta_ecs_ec2_instance_id"@ != "__meta_ecs_ec2_instance_public_ip"@,
        "__meta_ecs_ec2_instance_id"@ != "__meta_ecs_ec2_instance_type"@,
        "__meta_ecs_tag_ec2_"@ + x != "__meta_ecs_ec2_instance_id"@,
        "__meta_ecs_ec2_instance_private_ip"@ != "__meta_ecs_public_ip"@,
        "__meta_ecs_ec2_instance_private_ip"@ != "__meta_ecs_ec2_instance_public_ip"@,
        "__meta_ecs_ec2_instance_private_ip"@ != "__meta_ecs_ec2_instance_type"@,
        "__meta_ecs_tag_ec2_"@ + x != "__meta_ecs_ec2_instance_private_ip"@,
{
    assert("__meta_ecs_container_instance_arn"@ != "__meta_ecs_ec2_instance_id"@) by {
        reveal_strlit("__meta_ecs_container_instance_arn");
        reveal_strlit("__meta_ecs_ec2_instance_id");
        lemma_differ_at("__meta_ecs_container_instance_arn"@, "__meta_ecs_ec2_instance_id"@, 11);
    }
    assert("__meta_ecs_container_instance_arn"@ != "__meta_ecs_ec2_instance_private_ip"@) by {
        reveal_strlit("__meta_ecs_container_instance_arn");
        reveal_strlit("__meta_ecs_ec2_instance_private_ip");
        lemma_differ_at("__meta_ecs_container_instance_arn"@, "__meta_ecs_ec2_instance_private_ip"@, 11);
    }
    assert("__meta_ecs_container_instance_arn"@ != "__meta_ecs_public_ip"@) by {
        reveal_strlit("__meta_ecs_container_instance_arn");
        reveal_strlit("__meta_ecs_public_ip");
        lemma_differ_at("__meta_ecs_container_instance_arn"@, "__meta_ecs_public_ip"@, 11);
    }
    assert("__meta_ecs_container_instance_arn"@ != "__meta_ecs_ec2_instance_public_ip"@) by {
        reveal_strlit("__meta_ecs_container_instance_arn");
        reveal_strlit("__meta_ecs_ec2_instance_public_ip");
        lemma_differ_at("__meta_ecs_container_instance_arn"@, "__meta_ecs_ec2_instance_public_ip"@, 11);
    }
    assert("__meta_ecs_container_instance_arn"@ != "__meta_ecs_ec2_instance_type"@) by {
        reveal_strlit("__meta_ecs_container_instance_arn");
        reveal_strlit("__meta_ecs_ec2_instance_type");
        lemma_differ_at("__meta_ecs_container_instance_arn"@, "__meta_ecs_ec2_instance_type"@, 11);
    }
    assert("__meta_ecs_tag_ec2_"@ + x != "__meta_ecs_container_instance_arn"@) by {
        reveal_strlit("__meta_ecs_tag_ec2_");
        reveal_strlit("__meta_ecs_container_instance_arn");
        lemma_differ_at("__meta_ecs_tag_ec2_"@ + x, "__meta_ecs_container_instance_arn"@, 11);
    }
    assert("__meta_ecs_ec2_instance_id"@ != "__meta_ecs_ec2_instance_private_ip"@) by {
        reveal_strlit("__meta_ecs_ec2_instance_id");
        reveal_strlit("__meta_ecs_ec2_instance_private_ip");
        lemma_differ_at("__meta_ecs_ec2_instance_id"@, "__meta_ecs_ec2_instance_private_ip"@, 24);
    }
    assert("__meta_ecs_ec2_instance_id"@ != "__meta_ecs_public_ip"@) by {
        reveal_strlit("__meta_ecs_ec2_instance_id");
        reveal_strlit("__meta_ecs_public_ip");
        lemma_differ_at("__meta_ecs_ec2_instance_id"@, "__meta_ecs_public_ip"@, 11);
    }
    assert("__meta_ecs_ec2_instance_id"@ != "__meta_ecs_ec2_instance_public_ip"@) by {
        reveal_strlit("__meta_ecs_ec2_instance_id");
        reveal_strlit("__meta_ecs_ec2_instance_public_ip");
        lemma_differ_at("__meta_ecs_ec2_instance_id"@, "__meta_ecs_ec2_instance_public_ip"@, 24);
    }
    assert("__meta_ecs_ec2_instance_id"@ != "__meta_ecs_ec2_instance_type"@) by {
        reveal_strlit("__meta_ecs_ec2_instance_id");
        reveal_strlit("__meta_ecs_ec2_instance_type");
        lemma_differ_at("__meta_ecs_ec2_instance_id"@, "__meta_ecs_ec2_instance_type"@, 24);
    }
    assert("__meta_ecs_tag_ec2_"@ + x != "__meta_ecs_ec2_instance_id"@) by {
        reveal_strlit("__meta_ecs_tag_ec2_");
        reveal_strlit("__meta_ecs_ec2_instance_id");
        lemma_differ_at("__meta_ecs_tag_ec2_"@ + x, "__meta_ecs_ec2_instance_id"@, 11);
    }
    assert("__meta_ecs_ec2_instance_private_ip"@ != "__meta_ecs_public_ip"@) by {
        reveal_strlit("__meta_ecs_ec2_instance_private_ip");
        reveal_strlit("__meta_ecs_public_ip");
        lemma_differ_at("__meta_ecs_ec2_instance_private_ip"@, "__meta_ecs_public_ip"@, 11);
    }
    assert("__meta_ecs_ec2_instance_private_ip"@ != "__meta_ecs_ec2_instance_public_ip"@) by {
        reveal_strlit("__meta_ecs_ec2_instance_private_ip");
        reveal_strlit("__meta_ecs_ec2_instance_public_ip");
        lemma_differ_at("__meta_ecs_ec2_instance_private_ip"@, "__meta_ecs_ec2_instance_public_ip"@, 25);
    }
    assert("__meta_ecs_ec2_instance_private_ip"@ != "__meta_ecs_ec2_instance_type"@) by {
        reveal_strlit("__meta_ecs_ec2_instance_private_ip");
        reveal_strlit("__meta_ecs_ec2_instance_type");
        lemma_differ_at("__meta_ecs_ec2_instance_private_ip"@, "__meta_ecs_ec2_instance_type"@, 24);
    }
    assert("__meta_ecs_tag_ec2_"@ + x != "__meta_ecs_ec2_instance_private_ip"@) by {
        reveal_strlit("__meta_ecs_tag_ec2_");
        reveal_strlit("__meta_ecs_ec2_instance_private_ip");
        lemma_differ_at("__meta_ecs_tag_ec2_"@ + x, "__meta_ecs_ec2_instance_private_ip"@, 11);
    }
}

} // verus!
