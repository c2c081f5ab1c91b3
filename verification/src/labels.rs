//! Building the metadata labels of a discovered target.
use vstd::prelude::*;
use crate::ecs::{
    docker_label, opt_text, tag_pairs, Cluster, ContainerDefinition, Service, Task, TaskDefinition,
};
use crate::level::{level_includes, MetadataLevel};
use crate::strmap::StrMap;
use crate::target::{
    agree_on, all_in_tier, insert_all, tier_level, label_text, lemma_all_in_tier_concat,
    lemma_names_all_concat, lemma_names_all_from_level, lemma_put_all_avoiding,
    lemma_put_all_concat, lemma_put_all_keeps_agreement, lemma_put_all_last_write, names_all, lemma_tier_kept_compose, lemma_tier_kept_put_all, pairs_text,
    put_all, tier_kept, Labels,
};
use crate::tiers::{
    lemma_aws_label_levels, lemma_cluster_label_levels, lemma_container_label_levels,
    lemma_container_labels_not_network, lemma_container_names_distinct,
    lemma_cluster_names_distinct, lemma_ec2_labels_not_account, lemma_ec2_names_distinct,
    lemma_service_names_distinct, lemma_task_names_distinct,
    lemma_network_and_account_labels_distinct, lemma_service_label_levels,
    lemma_tag_label_levels, lemma_task_label_levels,
};
use crate::text::{
    ascii_alphanumeric, ascii_lower, cat, chars_of, decimal, has_prefix, i64_to_string, is_alphanumeric,
    is_ascii_text, push_char, signed_decimal, string_from_chars, to_lowercase, u64_to_string,
    unicode_alphanumeric, unicode_lowercase,
};

verus! {

/// Label name/value pairs, as text, in the order they are written.
pub type Pairs = Seq<(Seq<char>, Seq<char>)>;

/// A tag key made fit for a label name: every character that is neither
/// alphanumeric nor `_` becomes `_`, then the whole is lower-cased.
pub open spec fn sanitized_key(k: Seq<char>) -> Seq<char> {
    unicode_lowercase(
        k.map_values(|c: char| if unicode_alphanumeric(c) || c == '_' { c } else { '_' }),
    )
}

/// An ASCII tag key made fit for a label name: letters and digits kept and
/// made small, every other character `_`.
pub open spec fn ascii_sanitized_key(k: Seq<char>) -> Seq<char> {
    k.map_values(|c: char| if ascii_alphanumeric(c) { ascii_lower(c) } else { '_' })
}

/// Makes a tag key fit for a label name.
pub fn sanitize_tag_key(key: &str) -> (r: String)
    ensures
        r@ == sanitized_key(key@),
        is_ascii_text(key@) ==> r@ == ascii_sanitized_key(key@),
        is_ascii_text(key@) ==> r@.len() == key@.len(),
        is_ascii_text(key@) ==> forall|i: int|
            #![trigger key@[i]]
            0 <= i < key@.len() ==> {
                let c = key@[i] as u32;
                &&& (48 <= c <= 57 || 97 <= c <= 122 || key@[i] == '_') ==> r@[i] == key@[i]
                &&& 65 <= c <= 90 ==> r@[i] as u32 == c + 32
                &&& !(48 <= c <= 57 || 65 <= c <= 90 || 97 <= c <= 122) ==> r@[i] == '_'
            },
{
    let cs = chars_of(key);
    let mut s = String::new();
    let mut i: usize = 0;
    let ghost mapped = key@.map_values(
        |c: char| if unicode_alphanumeric(c) || c == '_' { c } else { '_' },
    );
    while i < cs.len()
        invariant
            0 <= i <= cs@.len(),
            cs@ == key@,
            mapped == key@.map_values(
                |c: char| if unicode_alphanumeric(c) || c == '_' { c } else { '_' },
            ),
            s@ == mapped.take(i as int),
            forall|j: int|
                0 <= j < i && (key@[j] as u32) < 128 ==> (unicode_alphanumeric(#[trigger] key@[j])
                    == ascii_alphanumeric(key@[j])),
        decreases cs.len() - i,
    {
        let c = cs[i];
        let keep = is_alphanumeric(c) || c == '_';
        if keep {
            push_char(&mut s, c);
        } else {
            push_char(&mut s, '_');
        }
        assert(mapped.take(i + 1) =~= mapped.take(i as int).push(mapped[i as int]));
        i = i + 1;
    }
    assert(mapped.take(cs@.len() as int) =~= mapped);
    proof {
        if is_ascii_text(key@) {
            assert forall|j: int| 0 <= j < mapped.len() implies (#[trigger] mapped[j] as u32) < 128 by {
                assert((key@[j] as u32) < 128);
            }
            let lowered = s@.map_values(|c: char| ascii_lower(c));
            assert(lowered =~= ascii_sanitized_key(key@)) by {
                assert forall|j: int| 0 <= j < key@.len() implies #[trigger] lowered[j]
                    == ascii_sanitized_key(key@)[j] by {
                    assert((key@[j] as u32) < 128);
                    assert(unicode_alphanumeric(key@[j]) == ascii_alphanumeric(key@[j]));
                    if key@[j] == '_' {
                        assert(!ascii_alphanumeric(key@[j]));
                    }
                }
            }
        }
    }
    let r = to_lowercase(s.as_str());
    proof {
        if is_ascii_text(key@) {
            assert forall|i: int| #![trigger key@[i]] 0 <= i < key@.len() implies {
                let c = key@[i] as u32;
                &&& (48 <= c <= 57 || 97 <= c <= 122 || key@[i] == '_') ==> r@[i] == key@[i]
                &&& 65 <= c <= 90 ==> r@[i] as u32 == c + 32
                &&& !(48 <= c <= 57 || 65 <= c <= 90 || 97 <= c <= 122) ==> r@[i] == '_'
            } by {
                let k = key@[i];
                assert(r@[i] == (if ascii_alphanumeric(k) { ascii_lower(k) } else { '_' }));
                if 65 <= (k as u32) <= 90 {
                    assert(ascii_lower(k) == (((k as u32) + 32) as char));
                }
            }
        }
    }
    r
}

/// The labels that tags become: the sanitized key after `prefix`, and the value.
pub open spec fn tag_labels(prefix: Seq<char>, pairs: Pairs) -> Pairs {
    pairs.map_values(|p: (Seq<char>, Seq<char>)| (prefix + sanitized_key(p.0), p.1))
}

/// The entries of a label map, as text pairs, in entry order.
pub open spec fn entry_pairs(m: Labels) -> Pairs {
    m.keys().map_values(|k: Seq<char>| (k, m@[k]@))
}

/// `o`'s text, or `dflt` when there is none.
pub open spec fn text_or(o: Option<String>, dflt: Seq<char>) -> Seq<char> {
    match o {
        Some(s) => s@,
        None => dflt,
    }
}

/// One pair when there is a value, none otherwise.
pub open spec fn opt_pair(key: Seq<char>, v: Option<Seq<char>>) -> Pairs {
    match v {
        Some(t) => seq![(key, t)],
        None => Seq::empty(),
    }
}

/// The text after the last `c` in `s`, or all of `s` when there is none.
pub open spec fn after_last(s: Seq<char>, c: char) -> Seq<char>
    decreases s.len(),
{
    if s.len() == 0 {
        Seq::empty()
    } else if s.last() == c {
        Seq::empty()
    } else {
        after_last(s.drop_last(), c).push(s.last())
    }
}

/// The value of a docker label, or `dflt` when the container has no such label.
pub open spec fn docker_label_or(def: ContainerDefinition, key: Seq<char>, dflt: Seq<char>) -> Seq<
    char,
> {
    match def.docker_labels {
        Some(m) => if m@.contains_key(key) {
            m@[key]@
        } else {
            dflt
        },
        None => dflt,
    }
}

/// The container labels of a scraped container.
pub open spec fn container_pairs(def: ContainerDefinition, port: u16) -> Pairs {
    seq![
        ("__meta_ecs_container_name"@, text_or(def.name, "unknown"@)),
        ("__meta_ecs_container_image"@, text_or(def.image, "unknown"@)),
        ("__meta_ecs_metrics_port"@, decimal(port as nat)),
        ("__scheme__"@, docker_label_or(def, "prometheus.io/scheme"@, "http"@)),
        ("__metrics_path__"@, docker_label_or(def, "prometheus.io/path"@, "/metrics"@)),
    ]
}

/// The network labels of a target.
pub open spec fn network_pairs(ip: Seq<char>, mode: Seq<char>, subnet: Option<Seq<char>>) -> Pairs {
    seq![("__meta_ecs_ip_address"@, ip), ("__meta_ecs_network_mode"@, mode)] + opt_pair(
        "__meta_ecs_subnet_id"@,
        subnet,
    )
}

/// The task labels of a task run from a task definition.
pub open spec fn task_pairs(task: Task, td: TaskDefinition) -> Pairs {
    let def_arn = text_or(td.task_definition_arn, "unknown"@);
    seq![
        ("__meta_ecs_task_arn"@, text_or(task.task_arn, "unknown"@)),
        ("__meta_ecs_task_definition"@, def_arn),
        ("__meta_ecs_task_family"@, text_or(td.family, "unknown"@)),
        ("__meta_ecs_task_version"@, after_last(def_arn, ':')),
        ("__meta_ecs_launch_type"@, text_or(task.launch_type, "unknown"@)),
    ] + opt_pair("__meta_ecs_task_group"@, opt_text(task.group)) + opt_pair(
        "__meta_ecs_desired_status"@,
        opt_text(task.desired_status),
    ) + opt_pair("__meta_ecs_last_status"@, opt_text(task.last_status)) + opt_pair(
        "__meta_ecs_health_status"@,
        opt_text(task.health_status),
    ) + opt_pair("__meta_ecs_platform_family"@, opt_text(task.platform_family)) + opt_pair(
        "__meta_ecs_platform_version"@,
        opt_text(task.platform_version),
    ) + tag_labels("__meta_ecs_tag_task_"@, tag_pairs(task.tags@))
}

/// The service labels of a service.
pub open spec fn service_pairs(service: Service) -> Pairs {
    seq![
        ("__meta_ecs_service_name"@, text_or(service.service_name, "unknown"@)),
        ("__meta_ecs_service"@, text_or(service.service_name, "unknown"@)),
        ("__meta_ecs_service_arn"@, text_or(service.service_arn, "unknown"@)),
        ("__meta_ecs_service_status"@, text_or(service.status, "unknown"@)),
        ("__meta_ecs_desired_count"@, signed_decimal(service.desired_count as int)),
        ("__meta_ecs_running_count"@, signed_decimal(service.running_count as int)),
    ] + tag_labels("__meta_ecs_tag_service_"@, tag_pairs(service.tags@))
}

/// The cluster labels of a cluster.
pub open spec fn cluster_pairs(cluster: Cluster) -> Pairs {
    seq![
        ("__meta_ecs_cluster_name"@, text_or(cluster.cluster_name, "unknown"@)),
        ("__meta_ecs_cluster"@, text_or(cluster.cluster_name, "unknown"@)),
        ("__meta_ecs_cluster_arn"@, text_or(cluster.cluster_arn, "unknown"@)),
    ] + tag_labels("__meta_ecs_tag_cluster_"@, tag_pairs(cluster.tags@))
}

/// The account labels of a target.
pub open spec fn aws_pairs(region: Seq<char>, account_id: Seq<char>, az: Option<Seq<char>>) -> Pairs {
    seq![("__meta_ecs_region"@, region), ("__meta_ecs_account_id"@, account_id)] + opt_pair(
        "__meta_ecs_availability_zone"@,
        az,
    )
}

/// The labels of the EC2 instance behind a target.
pub open spec fn ec2_pairs(
    container_instance_arn: Seq<char>,
    instance_id: Seq<char>,
    instance_type: Option<Seq<char>>,
    private_ip: Seq<char>,
    public_ip: Option<Seq<char>>,
    tags: Labels,
) -> Pairs {
    seq![
        ("__meta_ecs_container_instance_arn"@, container_instance_arn),
        ("__meta_ecs_ec2_instance_id"@, instance_id),
        ("__meta_ecs_ec2_instance_private_ip"@, private_ip),
    ] + match public_ip {
        Some(p) => seq![("__meta_ecs_public_ip"@, p), ("__meta_ecs_ec2_instance_public_ip"@, p)],
        None => Seq::empty(),
    } + opt_pair("__meta_ecs_ec2_instance_type"@, instance_type) + tag_labels(
        "__meta_ecs_tag_ec2_"@,
        entry_pairs(tags),
    )
}

/// A pair written only when there is a value has the tier level of its name.
proof fn lemma_opt_pair_level(key: Seq<char>, v: Option<Seq<char>>, t: MetadataLevel)
    requires
        tier_level(key) == t,
    ensures
        all_in_tier(opt_pair(key, v), t),
{
}

/// Tag labels have the tier level that every name after their prefix has.
proof fn lemma_tag_labels_level(prefix: Seq<char>, pairs: Pairs, t: MetadataLevel)
    requires
        forall|x: Seq<char>| #[trigger] tier_level(prefix + x) == t,
    ensures
        all_in_tier(tag_labels(prefix, pairs), t),
{
    assert forall|i: int| 0 <= i < tag_labels(prefix, pairs).len() implies tier_level(
        #[trigger] tag_labels(prefix, pairs)[i].0,
    ) == t by {
        assert(tag_labels(prefix, pairs)[i].0 == prefix + sanitized_key(pairs[i].0));
    }
}

/// The container labels are those of a tier of the container level.
pub proof fn lemma_container_pairs_level(def: ContainerDefinition, port: u16)
    ensures
        all_in_tier(container_pairs(def, port), MetadataLevel::Container),
{
    lemma_container_label_levels();
}

/// The network labels are those of a tier of the container level.
pub proof fn lemma_network_pairs_level(ip: Seq<char>, mode: Seq<char>, subnet: Option<Seq<char>>)
    ensures
        all_in_tier(network_pairs(ip, mode, subnet), MetadataLevel::Container),
{
    lemma_container_label_levels();
    let head = seq![("__meta_ecs_ip_address"@, ip), ("__meta_ecs_network_mode"@, mode)];
    lemma_opt_pair_level("__meta_ecs_subnet_id"@, subnet, MetadataLevel::Container);
    assert(all_in_tier(head, MetadataLevel::Container));
    lemma_all_in_tier_concat(
        head,
        opt_pair("__meta_ecs_subnet_id"@, subnet),
        MetadataLevel::Container,
    );
}

/// The task labels are those of a tier of the task level.
pub proof fn lemma_task_pairs_level(task: Task, td: TaskDefinition)
    ensures
        all_in_tier(task_pairs(task, td), MetadataLevel::Task),
{
    let t = MetadataLevel::Task;
    lemma_task_label_levels();
    assert forall|x: Seq<char>| #[trigger] tier_level("__meta_ecs_tag_task_"@ + x) == t by {
        lemma_tag_label_levels(x);
    }
    let def_arn = text_or(td.task_definition_arn, "unknown"@);
    let head = seq![
        ("__meta_ecs_task_arn"@, text_or(task.task_arn, "unknown"@)),
        ("__meta_ecs_task_definition"@, def_arn),
        ("__meta_ecs_task_family"@, text_or(td.family, "unknown"@)),
        ("__meta_ecs_task_version"@, after_last(def_arn, ':')),
        ("__meta_ecs_launch_type"@, text_or(task.launch_type, "unknown"@)),
    ];
    assert(all_in_tier(head, t));
    let p1 = opt_pair("__meta_ecs_task_group"@, opt_text(task.group));
    let p2 = opt_pair("__meta_ecs_desired_status"@, opt_text(task.desired_status));
    let p3 = opt_pair("__meta_ecs_last_status"@, opt_text(task.last_status));
    let p4 = opt_pair("__meta_ecs_health_status"@, opt_text(task.health_status));
    let p5 = opt_pair("__meta_ecs_platform_family"@, opt_text(task.platform_family));
    let p6 = opt_pair("__meta_ecs_platform_version"@, opt_text(task.platform_version));
    let tags = tag_labels("__meta_ecs_tag_task_"@, tag_pairs(task.tags@));
    lemma_opt_pair_level("__meta_ecs_task_group"@, opt_text(task.group), t);
    lemma_opt_pair_level("__meta_ecs_desired_status"@, opt_text(task.desired_status), t);
    lemma_opt_pair_level("__meta_ecs_last_status"@, opt_text(task.last_status), t);
    lemma_opt_pair_level("__meta_ecs_health_status"@, opt_text(task.health_status), t);
    lemma_opt_pair_level("__meta_ecs_platform_family"@, opt_text(task.platform_family), t);
    lemma_opt_pair_level("__meta_ecs_platform_version"@, opt_text(task.platform_version), t);
    lemma_tag_labels_level("__meta_ecs_tag_task_"@, tag_pairs(task.tags@), t);
    lemma_all_in_tier_concat(head, p1, t);
    lemma_all_in_tier_concat(head + p1, p2, t);
    lemma_all_in_tier_concat(head + p1 + p2, p3, t);
    lemma_all_in_tier_concat(head + p1 + p2 + p3, p4, t);
    lemma_all_in_tier_concat(head + p1 + p2 + p3 + p4, p5, t);
    lemma_all_in_tier_concat(head + p1 + p2 + p3 + p4 + p5, p6, t);
    lemma_all_in_tier_concat(head + p1 + p2 + p3 + p4 + p5 + p6, tags, t);
}

/// The service labels are those of a tier of the service level.
pub proof fn lemma_service_pairs_level(service: Service)
    ensures
        all_in_tier(service_pairs(service), MetadataLevel::Service),
{
    let t = MetadataLevel::Service;
    lemma_service_label_levels();
    assert forall|x: Seq<char>| #[trigger] tier_level("__meta_ecs_tag_service_"@ + x) == t by {
        lemma_tag_label_levels(x);
    }
    let head = seq![
        ("__meta_ecs_service_name"@, text_or(service.service_name, "unknown"@)),
        ("__meta_ecs_service"@, text_or(service.service_name, "unknown"@)),
        ("__meta_ecs_service_arn"@, text_or(service.service_arn, "unknown"@)),
        ("__meta_ecs_service_status"@, text_or(service.status, "unknown"@)),
        ("__meta_ecs_desired_count"@, signed_decimal(service.desired_count as int)),
        ("__meta_ecs_running_count"@, signed_decimal(service.running_count as int)),
    ];
    assert(all_in_tier(head, t));
    lemma_tag_labels_level("__meta_ecs_tag_service_"@, tag_pairs(service.tags@), t);
    lemma_all_in_tier_concat(head, tag_labels("__meta_ecs_tag_service_"@, tag_pairs(service.tags@)), t);
}

/// The cluster labels are those of a tier of the cluster level.
pub proof fn lemma_cluster_pairs_level(cluster: Cluster)
    ensures
        all_in_tier(cluster_pairs(cluster), MetadataLevel::Cluster),
{
    let t = MetadataLevel::Cluster;
    lemma_cluster_label_levels();
    assert forall|x: Seq<char>| #[trigger] tier_level("__meta_ecs_tag_cluster_"@ + x) == t by {
        lemma_tag_label_levels(x);
    }
    let head = seq![
        ("__meta_ecs_cluster_name"@, text_or(cluster.cluster_name, "unknown"@)),
        ("__meta_ecs_cluster"@, text_or(cluster.cluster_name, "unknown"@)),
        ("__meta_ecs_cluster_arn"@, text_or(cluster.cluster_arn, "unknown"@)),
    ];
    assert(all_in_tier(head, t));
    lemma_tag_labels_level("__meta_ecs_tag_cluster_"@, tag_pairs(cluster.tags@), t);
    lemma_all_in_tier_concat(head, tag_labels("__meta_ecs_tag_cluster_"@, tag_pairs(cluster.tags@)), t);
}

/// The account labels are those of a tier of the aws level.
pub proof fn lemma_aws_pairs_level(region: Seq<char>, account_id: Seq<char>, az: Option<Seq<char>>)
    ensures
        all_in_tier(aws_pairs(region, account_id, az), MetadataLevel::Aws),
{
    lemma_aws_label_levels();
    let head = seq![("__meta_ecs_region"@, region), ("__meta_ecs_account_id"@, account_id)];
    assert(all_in_tier(head, MetadataLevel::Aws));
    lemma_opt_pair_level("__meta_ecs_availability_zone"@, az, MetadataLevel::Aws);
    lemma_all_in_tier_concat(head, opt_pair("__meta_ecs_availability_zone"@, az), MetadataLevel::Aws);
}

/// The EC2 instance labels are those of a tier of the aws level.
pub proof fn lemma_ec2_pairs_level(
    container_instance_arn: Seq<char>,
    instance_id: Seq<char>,
    instance_type: Option<Seq<char>>,
    private_ip: Seq<char>,
    public_ip: Option<Seq<char>>,
    tags: Labels,
)
    ensures
        all_in_tier(
            ec2_pairs(container_instance_arn, instance_id, instance_type, private_ip, public_ip, tags),
            MetadataLevel::Aws,
        ),
{
    let t = MetadataLevel::Aws;
    lemma_aws_label_levels();
    assert forall|x: Seq<char>| #[trigger] tier_level("__meta_ecs_tag_ec2_"@ + x) == t by {
        lemma_tag_label_levels(x);
    }
    let head = seq![
        ("__meta_ecs_container_instance_arn"@, container_instance_arn),
        ("__meta_ecs_ec2_instance_id"@, instance_id),
        ("__meta_ecs_ec2_instance_private_ip"@, private_ip),
    ];
    let ips: Pairs = match public_ip {
        Some(p) => seq![("__meta_ecs_public_ip"@, p), ("__meta_ecs_ec2_instance_public_ip"@, p)],
        None => Seq::empty(),
    };
    let ty = opt_pair("__meta_ecs_ec2_instance_type"@, instance_type);
    let tl = tag_labels("__meta_ecs_tag_ec2_"@, entry_pairs(tags));
    assert(all_in_tier(head, t));
    assert(all_in_tier(ips, t));
    lemma_opt_pair_level("__meta_ecs_ec2_instance_type"@, instance_type, t);
    lemma_tag_labels_level("__meta_ecs_tag_ec2_"@, entry_pairs(tags), t);
    lemma_all_in_tier_concat(head, ips, t);
    lemma_all_in_tier_concat(head + ips, ty, t);
    lemma_all_in_tier_concat(head + ips + ty, tl, t);
}

/// Whether `k` names one of the network labels.
pub open spec fn is_network_label(k: Seq<char>) -> bool {
    k == "__meta_ecs_ip_address"@ || k == "__meta_ecs_network_mode"@ || k == "__meta_ecs_subnet_id"@
}

/// Whether `k` names one of the account labels.
pub open spec fn is_account_label(k: Seq<char>) -> bool {
    k == "__meta_ecs_region"@ || k == "__meta_ecs_account_id"@ || k
        == "__meta_ecs_availability_zone"@
}

/// None of the container labels is a network label.
proof fn lemma_container_pairs_not_network(def: ContainerDefinition, port: u16)
    ensures
        names_all(container_pairs(def, port), |k: Seq<char>| !is_network_label(k)),
{
    lemma_container_labels_not_network();
}

/// None of the EC2 instance labels is an account label.
proof fn lemma_ec2_pairs_not_account(
    container_instance_arn: Seq<char>,
    instance_id: Seq<char>,
    instance_type: Option<Seq<char>>,
    private_ip: Seq<char>,
    public_ip: Option<Seq<char>>,
    tags: Labels,
)
    ensures
        names_all(
            ec2_pairs(container_instance_arn, instance_id, instance_type, private_ip, public_ip, tags),
            |k: Seq<char>| !is_account_label(k),
        ),
{
    let pred = |k: Seq<char>| !is_account_label(k);
    lemma_ec2_labels_not_account(Seq::empty());
    let head = seq![
        ("__meta_ecs_container_instance_arn"@, container_instance_arn),
        ("__meta_ecs_ec2_instance_id"@, instance_id),
        ("__meta_ecs_ec2_instance_private_ip"@, private_ip),
    ];
    let ips: Pairs = match public_ip {
        Some(p) => seq![("__meta_ecs_public_ip"@, p), ("__meta_ecs_ec2_instance_public_ip"@, p)],
        None => Seq::empty(),
    };
    let ty = opt_pair("__meta_ecs_ec2_instance_type"@, instance_type);
    let tl = tag_labels("__meta_ecs_tag_ec2_"@, entry_pairs(tags));
    assert(names_all(head, pred));
    assert(names_all(ips, pred));
    assert(names_all(ty, pred));
    assert forall|i: int| 0 <= i < tl.len() implies pred(#[trigger] tl[i].0) by {
        lemma_ec2_labels_not_account(sanitized_key(entry_pairs(tags)[i].0));
    }
    lemma_names_all_concat(head, ips, pred);
    lemma_names_all_concat(head + ips, ty, pred);
    lemma_names_all_concat(head + ips + ty, tl, pred);
}

/// Collects the metadata of a target, tier by tier, and builds its labels for
/// a metadata level.  Each tier holds the labels it contributes, in order.
pub struct LabelBuilder {
    level: MetadataLevel,
    container: Vec<(String, String)>,
    network: Vec<(String, String)>,
    task: Vec<(String, String)>,
    service: Vec<(String, String)>,
    cluster: Vec<(String, String)>,
    aws: Vec<(String, String)>,
    ec2: Vec<(String, String)>,
}

impl LabelBuilder {
    pub closed spec fn level_of(self) -> MetadataLevel {
        self.level
    }

    pub closed spec fn container_part(self) -> Pairs {
        pairs_text(self.container@)
    }

    pub closed spec fn network_part(self) -> Pairs {
        pairs_text(self.network@)
    }

    pub closed spec fn task_part(self) -> Pairs {
        pairs_text(self.task@)
    }

    pub closed spec fn service_part(self) -> Pairs {
        pairs_text(self.service@)
    }

    pub closed spec fn cluster_part(self) -> Pairs {
        pairs_text(self.cluster@)
    }

    pub closed spec fn aws_part(self) -> Pairs {
        pairs_text(self.aws@)
    }

    pub closed spec fn ec2_part(self) -> Pairs {
        pairs_text(self.ec2@)
    }

    /// The labels that `build` writes, in order: each tier that the level
    /// carries, from container to aws.
    pub open spec fn emitted(self) -> Pairs {
        self.emitted_at(self.level_of())
    }

    /// The labels that `build` would write at level `l`.
    pub open spec fn emitted_at(self, l: MetadataLevel) -> Pairs {
        (if level_includes(l, MetadataLevel::Container) {
            self.container_part() + self.network_part()
        } else {
            Seq::empty()
        }) + (if level_includes(l, MetadataLevel::Task) {
            self.task_part()
        } else {
            Seq::empty()
        }) + (if level_includes(l, MetadataLevel::Service) {
            self.service_part()
        } else {
            Seq::empty()
        }) + (if level_includes(l, MetadataLevel::Cluster) {
            self.cluster_part()
        } else {
            Seq::empty()
        }) + (if level_includes(l, MetadataLevel::Aws) {
            self.aws_part() + self.ec2_part()
        } else {
            Seq::empty()
        })
    }

    /// The labels that `build` writes after the network tier.
    pub open spec fn after_network(self) -> Pairs {
        let l = self.level_of();
        (if level_includes(l, MetadataLevel::Task) {
            self.task_part()
        } else {
            Seq::empty()
        }) + (if level_includes(l, MetadataLevel::Service) {
            self.service_part()
        } else {
            Seq::empty()
        }) + (if level_includes(l, MetadataLevel::Cluster) {
            self.cluster_part()
        } else {
            Seq::empty()
        }) + (if level_includes(l, MetadataLevel::Aws) {
            self.aws_part() + self.ec2_part()
        } else {
            Seq::empty()
        })
    }

    /// The labels that `build` returns, names and values as text.
    pub open spec fn built(self) -> Map<Seq<char>, Seq<char>> {
        put_all(Map::empty(), self.emitted())
    }

    /// The tiers, in the order they are written, each with its level.
    pub open spec fn tier_list(self) -> Seq<(MetadataLevel, Pairs)> {
        seq![
            (MetadataLevel::Container, self.container_part()),
            (MetadataLevel::Container, self.network_part()),
            (MetadataLevel::Task, self.task_part()),
            (MetadataLevel::Service, self.service_part()),
            (MetadataLevel::Cluster, self.cluster_part()),
            (MetadataLevel::Aws, self.aws_part()),
            (MetadataLevel::Aws, self.ec2_part()),
        ]
    }

    /// Every tier holds only labels whose tier level is its own.
    pub open spec fn tiered(self) -> bool {
        forall|i: int|
            0 <= i < self.tier_list().len() ==> all_in_tier(
                #[trigger] self.tier_list()[i].1,
                self.tier_list()[i].0,
            )
    }

    /// Each tier names only its own labels where another tier could write
    /// them too: the network tier only network labels, and the container
    /// tier before it none; the account tier only account labels, and the
    /// EC2 tier after it none.
    pub open spec fn names_in_place(self) -> bool {
        &&& names_all(self.network_part(), |k: Seq<char>| is_network_label(k))
        &&& names_all(self.container_part(), |k: Seq<char>| !is_network_label(k))
        &&& names_all(self.aws_part(), |k: Seq<char>| is_account_label(k))
        &&& names_all(self.ec2_part(), |k: Seq<char>| !is_account_label(k))
    }

    /// What every builder made by `new` and the `with_` steps satisfies.
    pub open spec fn well_formed(self) -> bool {
        self.tiered() && self.names_in_place()
    }

    /// Both builders were given the same metadata.
    pub open spec fn same_metadata(self, other: Self) -> bool {
        &&& self.container_part() == other.container_part()
        &&& self.network_part() == other.network_part()
        &&& self.task_part() == other.task_part()
        &&& self.service_part() == other.service_part()
        &&& self.cluster_part() == other.cluster_part()
        &&& self.aws_part() == other.aws_part()
        &&& self.ec2_part() == other.ec2_part()
    }

    /// A builder for `level` with no metadata yet.
    pub fn new(level: MetadataLevel) -> (r: Self)
        ensures
            r.level_of() == level,
            r.container_part() == Pairs::empty(),
            r.network_part() == Pairs::empty(),
            r.task_part() == Pairs::empty(),
            r.service_part() == Pairs::empty(),
            r.cluster_part() == Pairs::empty(),
            r.aws_part() == Pairs::empty(),
            r.ec2_part() == Pairs::empty(),
            r.well_formed(),
    {
        let r = LabelBuilder {
            level,
            container: Vec::new(),
            network: Vec::new(),
            task: Vec::new(),
            service: Vec::new(),
            cluster: Vec::new(),
            aws: Vec::new(),
            ec2: Vec::new(),
        };
        assert(r.container_part() =~= Pairs::empty());
        assert(r.network_part() =~= Pairs::empty());
        assert(r.task_part() =~= Pairs::empty());
        assert(r.service_part() =~= Pairs::empty());
        assert(r.cluster_part() =~= Pairs::empty());
        assert(r.aws_part() =~= Pairs::empty());
        assert(r.ec2_part() =~= Pairs::empty());
        assert(r.tiered()) by {
            assert forall|i: int| 0 <= i < r.tier_list().len() implies all_in_tier(
                #[trigger] r.tier_list()[i].1,
                r.tier_list()[i].0,
            ) by {
                assert(r.tier_list()[i].1.len() == 0);
            }
        }
        r
    }

    /// The metadata level the labels are built for.
    pub fn level(&self) -> (r: MetadataLevel)
        ensures
            r == self.level_of(),
    {
        self.level
    }

    /// Adds the labels of a scraped container.
    pub fn with_container(self, def: &ContainerDefinition, port: u16) -> (r: Self)
        ensures
            r.container_part() == container_pairs(*def, port),
            r.level_of() == self.level_of(),
            r.network_part() == self.network_part(),
            r.task_part() == self.task_part(),
            r.service_part() == self.service_part(),
            r.cluster_part() == self.cluster_part(),
            r.aws_part() == self.aws_part(),
            r.ec2_part() == self.ec2_part(),
            self.well_formed() ==> r.well_formed(),
            self.well_formed() ==> (r.built().contains_key("__meta_ecs_container_name"@)),
            self.well_formed() ==> (r.built()["__meta_ecs_container_name"@] == text_or(def.name, "unknown"@)),
            self.well_formed() ==> (r.built().contains_key("__meta_ecs_container_image"@)),
            self.well_formed() ==> (r.built()["__meta_ecs_container_image"@] == text_or(def.image, "unknown"@)),
            self.well_formed() ==> (r.built().contains_key("__meta_ecs_metrics_port"@)),
            self.well_formed() ==> (r.built()["__meta_ecs_metrics_port"@] == decimal(port as nat)),
            self.well_formed() ==> (r.built().contains_key("__scheme__"@)),
            self.well_formed() ==> (r.built()["__scheme__"@] == docker_label_or(*def, "prometheus.io/scheme"@, "http"@)),
            self.well_formed() ==> (r.built().contains_key("__metrics_path__"@)),
            self.well_formed() ==> (r.built()["__metrics_path__"@] == docker_label_or(*def, "prometheus.io/path"@, "/metrics"@)),
    {
        let mut v: Vec<(String, String)> = Vec::new();
        push_pair(&mut v, "__meta_ecs_container_name", string_or(&def.name, "unknown"));
        push_pair(&mut v, "__meta_ecs_container_image", string_or(&def.image, "unknown"));
        push_pair(&mut v, "__meta_ecs_metrics_port", u64_to_string(port as u64));
        push_pair(&mut v, "__scheme__", label_or(def, "prometheus.io/scheme", "http"));
        push_pair(&mut v, "__metrics_path__", label_or(def, "prometheus.io/path", "/metrics"));
        assert(pairs_text(v@) =~= container_pairs(*def, port));
        let r = LabelBuilder { container: v, ..self };
        proof {
            lemma_container_pairs_not_network(*def, port);
            lemma_container_pairs_level(*def, port);
            assert(r.tier_list() =~= self.tier_list().update(0, r.tier_list()[0]));
            if self.well_formed() {
                assert(r.well_formed());
                lemma_container_step_labels(r, *def, port);
            }
        }
        r
    }

    /// Adds the network labels of a target.
    pub fn with_network(self, ip_address: &str, network_mode: &str, subnet_id: Option<&str>) -> (r: Self)
        ensures
            r.network_part() == network_pairs(
                ip_address@,
                network_mode@,
                match subnet_id {
                    Some(s) => Some(s@),
                    None => None,
                },
            ),
            r.level_of() == self.level_of(),
            r.container_part() == self.container_part(),
            r.task_part() == self.task_part(),
            r.service_part() == self.service_part(),
            r.cluster_part() == self.cluster_part(),
            r.aws_part() == self.aws_part(),
            r.ec2_part() == self.ec2_part(),
            self.well_formed() ==> r.well_formed(),
    {
        let mut v: Vec<(String, String)> = Vec::new();
        push_pair(&mut v, "__meta_ecs_ip_address", ip_address.to_owned());
        push_pair(&mut v, "__meta_ecs_network_mode", network_mode.to_owned());
        let ghost base = pairs_text(v@);
        match subnet_id {
            Some(s) => push_pair(&mut v, "__meta_ecs_subnet_id", s.to_owned()),
            None => {},
        }
        assert(pairs_text(v@) =~= network_pairs(
            ip_address@,
            network_mode@,
            match subnet_id {
                Some(s) => Some(s@),
                None => None,
            },
        ));
        let r = LabelBuilder { network: v, ..self };
        proof {
            assert(names_all(r.network_part(), |k: Seq<char>| is_network_label(k)));
            lemma_network_pairs_level(ip_address@, network_mode@, match subnet_id { Some(s) => Some(s@), None => None });
            assert(r.tier_list() =~= self.tier_list().update(1, r.tier_list()[1]));
        }
        r
    }

    /// Adds the labels of a task and its task definition.
    pub fn with_task(self, task: &Task, task_def: &TaskDefinition) -> (r: Self)
        ensures
            r.task_part() == task_pairs(*task, *task_def),
            r.level_of() == self.level_of(),
            r.container_part() == self.container_part(),
            r.network_part() == self.network_part(),
            r.service_part() == self.service_part(),
            r.cluster_part() == self.cluster_part(),
            r.aws_part() == self.aws_part(),
            r.ec2_part() == self.ec2_part(),
            self.well_formed() ==> r.well_formed(),
            self.well_formed() ==> (level_includes(r.level_of(), MetadataLevel::Task) ==> {
                &&& r.built().contains_key("__meta_ecs_task_arn"@)
                &&& r.built()["__meta_ecs_task_arn"@] == text_or(task.task_arn, "unknown"@)
                &&& r.built().contains_key("__meta_ecs_task_definition"@)
                &&& r.built()["__meta_ecs_task_definition"@] == text_or(task_def.task_definition_arn, "unknown"@)
                &&& r.built().contains_key("__meta_ecs_task_family"@)
                &&& r.built()["__meta_ecs_task_family"@] == text_or(task_def.family, "unknown"@)
                &&& r.built().contains_key("__meta_ecs_task_version"@)
                &&& r.built()["__meta_ecs_task_version"@] == after_last(
                    text_or(task_def.task_definition_arn, "unknown"@),
                    ':',
                )
                &&& r.built().contains_key("__meta_ecs_launch_type"@)
                &&& r.built()["__meta_ecs_launch_type"@] == text_or(task.launch_type, "unknown"@)
            }),
            self.well_formed() ==> (!level_includes(r.level_of(), MetadataLevel::Task) ==> {
                &&& !r.built().contains_key("__meta_ecs_task_arn"@)
                &&& !r.built().contains_key("__meta_ecs_task_definition"@)
                &&& !r.built().contains_key("__meta_ecs_task_family"@)
                &&& !r.built().contains_key("__meta_ecs_task_version"@)
                &&& !r.built().contains_key("__meta_ecs_launch_type"@)
            }),
    {
        let def_arn = string_or(&task_def.task_definition_arn, "unknown");
        let version = text_after_last(def_arn.as_str(), ':');
        let mut v: Vec<(String, String)> = Vec::new();
        push_pair(&mut v, "__meta_ecs_task_arn", string_or(&task.task_arn, "unknown"));
        push_pair(&mut v, "__meta_ecs_task_definition", def_arn);
        push_pair(&mut v, "__meta_ecs_task_family", string_or(&task_def.family, "unknown"));
        push_pair(&mut v, "__meta_ecs_task_version", version);
        push_pair(&mut v, "__meta_ecs_launch_type", string_or(&task.launch_type, "unknown"));
        let ghost p0 = pairs_text(v@);
        push_opt(&mut v, "__meta_ecs_task_group", &task.group);
        push_opt(&mut v, "__meta_ecs_desired_status", &task.desired_status);
        push_opt(&mut v, "__meta_ecs_last_status", &task.last_status);
        push_opt(&mut v, "__meta_ecs_health_status", &task.health_status);
        push_opt(&mut v, "__meta_ecs_platform_family", &task.platform_family);
        push_opt(&mut v, "__meta_ecs_platform_version", &task.platform_version);
        push_tag_labels(&mut v, "__meta_ecs_tag_task_", &task.tags);
        assert(pairs_text(v@) =~= task_pairs(*task, *task_def));
        let r = LabelBuilder { task: v, ..self };
        proof {
            lemma_task_pairs_level(*task, *task_def);
            assert(r.tier_list() =~= self.tier_list().update(2, r.tier_list()[2]));
            if self.well_formed() {
                assert(r.well_formed());
                lemma_task_step_labels(r, *task, *task_def);
            }
        }
        r
    }

    /// Adds the labels of a service.
    pub fn with_service(self, service: &Service) -> (r: Self)
        ensures
            r.service_part() == service_pairs(*service),
            r.level_of() == self.level_of(),
            r.container_part() == self.container_part(),
            r.network_part() == self.network_part(),
            r.task_part() == self.task_part(),
            r.cluster_part() == self.cluster_part(),
            r.aws_part() == self.aws_part(),
            r.ec2_part() == self.ec2_part(),
            self.well_formed() ==> r.well_formed(),
            self.well_formed() ==> (level_includes(r.level_of(), MetadataLevel::Service) ==> {
                &&& r.built().contains_key("__meta_ecs_service_name"@)
                &&& r.built()["__meta_ecs_service_name"@] == text_or(service.service_name, "unknown"@)
                &&& r.built().contains_key("__meta_ecs_service"@)
                &&& r.built()["__meta_ecs_service"@] == text_or(service.service_name, "unknown"@)
                &&& r.built().contains_key("__meta_ecs_service_arn"@)
                &&& r.built()["__meta_ecs_service_arn"@] == text_or(service.service_arn, "unknown"@)
                &&& r.built().contains_key("__meta_ecs_service_status"@)
                &&& r.built()["__meta_ecs_service_status"@] == text_or(service.status, "unknown"@)
                &&& r.built().contains_key("__meta_ecs_desired_count"@)
                &&& r.built()["__meta_ecs_desired_count"@] == signed_decimal(service.desired_count as int)
                &&& r.built().contains_key("__meta_ecs_running_count"@)
                &&& r.built()["__meta_ecs_running_count"@] == signed_decimal(service.running_count as int)
            }),
            self.well_formed() ==> (!level_includes(r.level_of(), MetadataLevel::Service) ==> {
                &&& !r.built().contains_key("__meta_ecs_service_name"@)
                &&& !r.built().contains_key("__meta_ecs_service"@)
                &&& !r.built().contains_key("__meta_ecs_service_arn"@)
                &&& !r.built().contains_key("__meta_ecs_service_status"@)
                &&& !r.built().contains_key("__meta_ecs_desired_count"@)
                &&& !r.built().contains_key("__meta_ecs_running_count"@)
            }),
    {
        let mut v: Vec<(String, String)> = Vec::new();
        let name = string_or(&service.service_name, "unknown");
        push_pair(&mut v, "__meta_ecs_service_name", name.clone());
        push_pair(&mut v, "__meta_ecs_service", name);
        push_pair(&mut v, "__meta_ecs_service_arn", string_or(&service.service_arn, "unknown"));
        push_pair(&mut v, "__meta_ecs_service_status", string_or(&service.status, "unknown"));
        push_pair(&mut v, "__meta_ecs_desired_count", i64_to_string(service.desired_count as i64));
        push_pair(&mut v, "__meta_ecs_running_count", i64_to_string(service.running_count as i64));
        push_tag_labels(&mut v, "__meta_ecs_tag_service_", &service.tags);
        assert(pairs_text(v@) =~= service_pairs(*service));
        let r = LabelBuilder { service: v, ..self };
        proof {
            lemma_service_pairs_level(*service);
            assert(r.tier_list() =~= self.tier_list().update(3, r.tier_list()[3]));
            if self.well_formed() {
                assert(r.well_formed());
                lemma_service_step_labels(r, *service);
            }
        }
        r
    }

    /// Adds the labels of a cluster.
    pub fn with_cluster(self, cluster: &Cluster) -> (r: Self)
        ensures
            r.cluster_part() == cluster_pairs(*cluster),
            r.level_of() == self.level_of(),
            r.container_part() == self.container_part(),
            r.network_part() == self.network_part(),
            r.task_part() == self.task_part(),
            r.service_part() == self.service_part(),
            r.aws_part() == self.aws_part(),
            r.ec2_part() == self.ec2_part(),
            self.well_formed() ==> r.well_formed(),
            self.well_formed() ==> (level_includes(r.level_of(), MetadataLevel::Cluster) ==> {
                &&& r.built().contains_key("__meta_ecs_cluster_name"@)
                &&& r.built()["__meta_ecs_cluster_name"@] == text_or(cluster.cluster_name, "unknown"@)
                &&& r.built().contains_key("__meta_ecs_cluster"@)
                &&& r.built()["__meta_ecs_cluster"@] == text_or(cluster.cluster_name, "unknown"@)
                &&& r.built().contains_key("__meta_ecs_cluster_arn"@)
                &&& r.built()["__meta_ecs_cluster_arn"@] == text_or(cluster.cluster_arn, "unknown"@)
            }),
            self.well_formed() ==> (!level_includes(r.level_of(), MetadataLevel::Cluster) ==> {
                &&& !r.built().contains_key("__meta_ecs_cluster_name"@)
                &&& !r.built().contains_key("__meta_ecs_cluster"@)
                &&& !r.built().contains_key("__meta_ecs_cluster_arn"@)
            }),
    {
        let mut v: Vec<(String, String)> = Vec::new();
        let name = string_or(&cluster.cluster_name, "unknown");
        push_pair(&mut v, "__meta_ecs_cluster_name", name.clone());
        push_pair(&mut v, "__meta_ecs_cluster", name);
        push_pair(&mut v, "__meta_ecs_cluster_arn", string_or(&cluster.cluster_arn, "unknown"));
        push_tag_labels(&mut v, "__meta_ecs_tag_cluster_", &cluster.tags);
        assert(pairs_text(v@) =~= cluster_pairs(*cluster));
        let r = LabelBuilder { cluster: v, ..self };
        proof {
            lemma_cluster_pairs_level(*cluster);
            assert(r.tier_list() =~= self.tier_list().update(4, r.tier_list()[4]));
            if self.well_formed() {
                assert(r.well_formed());
                lemma_cluster_step_labels(r, *cluster);
            }
        }
        r
    }

    /// Adds the account labels of a target.
    pub fn with_aws(self, region: &str, account_id: &str, az: Option<&str>) -> (r: Self)
        ensures
            r.aws_part() == aws_pairs(
                region@,
                account_id@,
                match az {
                    Some(s) => Some(s@),
                    None => None,
                },
            ),
            r.level_of() == self.level_of(),
            r.container_part() == self.container_part(),
            r.network_part() == self.network_part(),
            r.task_part() == self.task_part(),
            r.service_part() == self.service_part(),
            r.cluster_part() == self.cluster_part(),
            r.ec2_part() == self.ec2_part(),
            self.well_formed() ==> r.well_formed(),
    {
        let mut v: Vec<(String, String)> = Vec::new();
        push_pair(&mut v, "__meta_ecs_region", region.to_owned());
        push_pair(&mut v, "__meta_ecs_account_id", account_id.to_owned());
        match az {
            Some(s) => push_pair(&mut v, "__meta_ecs_availability_zone", s.to_owned()),
            None => {},
        }
        assert(pairs_text(v@) =~= aws_pairs(
            region@,
            account_id@,
            match az {
                Some(s) => Some(s@),
                None => None,
            },
        ));
        let r = LabelBuilder { aws: v, ..self };
        proof {
            assert(names_all(r.aws_part(), |k: Seq<char>| is_account_label(k)));
            lemma_aws_pairs_level(region@, account_id@, match az { Some(s) => Some(s@), None => None });
            assert(r.tier_list() =~= self.tier_list().update(5, r.tier_list()[5]));
        }
        r
    }

    /// Adds the labels of the EC2 instance behind a target.
    pub fn with_ec2_instance(
        self,
        container_instance_arn: &str,
        instance_id: &str,
        instance_type: Option<&str>,
        private_ip: &str,
        public_ip: Option<&str>,
        tags: Labels,
    ) -> (r: Self)
        ensures
            r.ec2_part() == ec2_pairs(
                container_instance_arn@,
                instance_id@,
                match instance_type {
                    Some(s) => Some(s@),
                    None => None,
                },
                private_ip@,
                match public_ip {
                    Some(s) => Some(s@),
                    None => None,
                },
                tags,
            ),
            r.level_of() == self.level_of(),
            r.container_part() == self.container_part(),
            r.network_part() == self.network_part(),
            r.task_part() == self.task_part(),
            r.service_part() == self.service_part(),
            r.cluster_part() == self.cluster_part(),
            r.aws_part() == self.aws_part(),
            self.well_formed() ==> r.well_formed(),
            self.well_formed() ==> (r.level_of() == MetadataLevel::Aws ==> {
                &&& r.built().contains_key("__meta_ecs_container_instance_arn"@)
                &&& r.built()["__meta_ecs_container_instance_arn"@] == container_instance_arn@
                &&& r.built().contains_key("__meta_ecs_ec2_instance_id"@)
                &&& r.built()["__meta_ecs_ec2_instance_id"@] == instance_id@
                &&& r.built().contains_key("__meta_ecs_ec2_instance_private_ip"@)
                &&& r.built()["__meta_ecs_ec2_instance_private_ip"@] == private_ip@
            }),
            self.well_formed() ==> (r.level_of() != MetadataLevel::Aws ==> {
                &&& !r.built().contains_key("__meta_ecs_container_instance_arn"@)
                &&& !r.built().contains_key("__meta_ecs_ec2_instance_id"@)
                &&& !r.built().contains_key("__meta_ecs_ec2_instance_private_ip"@)
            }),
    {
        let mut v: Vec<(String, String)> = Vec::new();
        push_pair(&mut v, "__meta_ecs_container_instance_arn", container_instance_arn.to_owned());
        push_pair(&mut v, "__meta_ecs_ec2_instance_id", instance_id.to_owned());
        push_pair(&mut v, "__meta_ecs_ec2_instance_private_ip", private_ip.to_owned());
        match public_ip {
            Some(ip) => {
                push_pair(&mut v, "__meta_ecs_public_ip", ip.to_owned());
                push_pair(&mut v, "__meta_ecs_ec2_instance_public_ip", ip.to_owned());
            },
            None => {},
        }
        match instance_type {
            Some(t) => push_pair(&mut v, "__meta_ecs_ec2_instance_type", t.to_owned()),
            None => {},
        }
        push_map_tag_labels(&mut v, "__meta_ecs_tag_ec2_", &tags);
        assert(pairs_text(v@) =~= ec2_pairs(
            container_instance_arn@,
            instance_id@,
            match instance_type {
                Some(s) => Some(s@),
                None => None,
            },
            private_ip@,
            match public_ip {
                Some(s) => Some(s@),
                None => None,
            },
            tags,
        ));
        let r = LabelBuilder { ec2: v, ..self };
        proof {
            lemma_ec2_pairs_not_account(
                container_instance_arn@,
                instance_id@,
                match instance_type {
                    Some(s) => Some(s@),
                    None => None,
                },
                private_ip@,
                match public_ip {
                    Some(s) => Some(s@),
                    None => None,
                },
                tags,
            );
            lemma_ec2_pairs_level(
                container_instance_arn@,
                instance_id@,
                match instance_type {
                    Some(s) => Some(s@),
                    None => None,
                },
                private_ip@,
                match public_ip {
                    Some(s) => Some(s@),
                    None => None,
                },
                tags,
            );
            assert(r.tier_list() =~= self.tier_list().update(6, r.tier_list()[6]));
            if self.well_formed() {
                assert(r.well_formed());
                lemma_ec2_step_labels(
                    r,
                    container_instance_arn@,
                    instance_id@,
                    match instance_type {
                        Some(s) => Some(s@),
                        None => None,
                    },
                    private_ip@,
                    match public_ip {
                        Some(s) => Some(s@),
                        None => None,
                    },
                    tags,
                );
            }
        }
        r
    }

    /// The labels of the target: the labels of each tier that the level
    /// carries, written in tier order.
    pub fn build(self) -> (r: Labels)
        ensures
            label_text(r) == self.built(),
    {
        let mut labels: Labels = StrMap::new();
        let ghost mut written: Pairs = Seq::empty();
        assert(label_text(labels) =~= put_all(Map::empty(), written));
        if self.level.includes(MetadataLevel::Container) {
            insert_all(&mut labels, &self.container);
            proof {
                lemma_put_all_concat(Map::empty(), written, self.container_part());
                written = written + self.container_part();
            }
            insert_all(&mut labels, &self.network);
            proof {
                lemma_put_all_concat(Map::empty(), written, self.network_part());
                written = written + self.network_part();
            }
        }
        if self.level.includes(MetadataLevel::Task) {
            insert_all(&mut labels, &self.task);
            proof {
                lemma_put_all_concat(Map::empty(), written, self.task_part());
                written = written + self.task_part();
            }
        }
        if self.level.includes(MetadataLevel::Service) {
            insert_all(&mut labels, &self.service);
            proof {
                lemma_put_all_concat(Map::empty(), written, self.service_part());
                written = written + self.service_part();
            }
        }
        if self.level.includes(MetadataLevel::Cluster) {
            insert_all(&mut labels, &self.cluster);
            proof {
                lemma_put_all_concat(Map::empty(), written, self.cluster_part());
                written = written + self.cluster_part();
            }
        }
        if self.level.includes(MetadataLevel::Aws) {
            insert_all(&mut labels, &self.aws);
            proof {
                lemma_put_all_concat(Map::empty(), written, self.aws_part());
                written = written + self.aws_part();
            }
            insert_all(&mut labels, &self.ec2);
            proof {
                lemma_put_all_concat(Map::empty(), written, self.ec2_part());
                written = written + self.ec2_part();
            }
        }
        assert(written =~= self.emitted());
        labels
    }
}

/// The labels of the tiers that level `l` carries, tier after tier.
pub open spec fn emit_tiers(ts: Seq<(MetadataLevel, Pairs)>, l: MetadataLevel) -> Pairs
    decreases ts.len(),
{
    if ts.len() == 0 {
        Seq::empty()
    } else {
        emit_tiers(ts.drop_last(), l) + (if level_includes(l, ts.last().0) {
            ts.last().1
        } else {
            Seq::empty()
        })
    }
}

/// What a builder writes at a level is what its tiers give at that level.
proof fn lemma_emitted_tiers(b: LabelBuilder, l: MetadataLevel)
    ensures
        b.emitted_at(l) == emit_tiers(b.tier_list(), l),
{
    let ts = b.tier_list();
    let e = Seq::<(Seq<char>, Seq<char>)>::empty();
    assert(ts.take(0).len() == 0);
    assert(emit_tiers(ts.take(0), l) == e);
    assert(ts.take(1).drop_last() =~= ts.take(0));
    assert(ts.take(2).drop_last() =~= ts.take(1));
    assert(ts.take(3).drop_last() =~= ts.take(2));
    assert(ts.take(4).drop_last() =~= ts.take(3));
    assert(ts.take(5).drop_last() =~= ts.take(4));
    assert(ts.take(6).drop_last() =~= ts.take(5));
    assert(ts.take(7).drop_last() =~= ts.take(6));
    assert(ts.take(7) =~= ts);
    let c = if level_includes(l, MetadataLevel::Container) { b.container_part() } else { e };
    let n = if level_includes(l, MetadataLevel::Container) { b.network_part() } else { e };
    let t = if level_includes(l, MetadataLevel::Task) { b.task_part() } else { e };
    let s = if level_includes(l, MetadataLevel::Service) { b.service_part() } else { e };
    let cl = if level_includes(l, MetadataLevel::Cluster) { b.cluster_part() } else { e };
    let a = if level_includes(l, MetadataLevel::Aws) { b.aws_part() } else { e };
    let x = if level_includes(l, MetadataLevel::Aws) { b.ec2_part() } else { e };
    assert(emit_tiers(ts.take(1), l) == e + c);
    assert(emit_tiers(ts.take(2), l) == e + c + n);
    assert(emit_tiers(ts.take(3), l) == e + c + n + t);
    assert(emit_tiers(ts.take(4), l) == e + c + n + t + s);
    assert(emit_tiers(ts.take(5), l) == e + c + n + t + s + cl);
    assert(emit_tiers(ts.take(6), l) == e + c + n + t + s + cl + a);
    assert(emit_tiers(ts.take(7), l) == e + c + n + t + s + cl + a + x);
    assert(b.emitted_at(l) =~= e + c + n + t + s + cl + a + x);
}

/// Writing the tiers at level `l` gives the labels written at the aws level
/// whose tier `l` carries.
proof fn lemma_emit_tiers_at_level(ts: Seq<(MetadataLevel, Pairs)>, l: MetadataLevel)
    requires
        forall|i: int| 0 <= i < ts.len() ==> all_in_tier(#[trigger] ts[i].1, ts[i].0),
    ensures
        put_all(Map::empty(), emit_tiers(ts, l)) == tier_kept(
            put_all(Map::empty(), emit_tiers(ts, MetadataLevel::Aws)),
            l,
        ),
    decreases ts.len(),
{
    let m0 = Map::<Seq<char>, Seq<char>>::empty();
    if ts.len() == 0 {
        assert(tier_kept(m0, l) =~= m0);
    } else {
        let rest = ts.drop_last();
        let (t, p) = ts.last();
        assert(all_in_tier(ts[ts.len() - 1].1, ts[ts.len() - 1].0));
        assert forall|i: int| 0 <= i < rest.len() implies all_in_tier(#[trigger] rest[i].1, rest[i].0) by {
            assert(rest[i] == ts[i]);
        }
        lemma_emit_tiers_at_level(rest, l);
        let chunk = if level_includes(l, t) { p } else { Seq::empty() };
        lemma_put_all_concat(m0, emit_tiers(rest, l), chunk);
        lemma_put_all_concat(m0, emit_tiers(rest, MetadataLevel::Aws), p);
        let full = put_all(m0, emit_tiers(rest, MetadataLevel::Aws));
        lemma_tier_kept_put_all(full, p, t, l);
        assert(level_includes(MetadataLevel::Aws, t));
    }
}

/// Writing the tiers is writing those before a tier, that tier, then those after.
proof fn lemma_emit_tiers_split(ts: Seq<(MetadataLevel, Pairs)>, l: MetadataLevel, k: int)
    requires
        0 <= k <= ts.len(),
    ensures
        emit_tiers(ts, l) == emit_tiers(ts.take(k), l) + emit_tiers(ts.skip(k), l),
    decreases ts.len(),
{
    if k == ts.len() {
        assert(ts.take(k) =~= ts);
        assert(ts.skip(k).len() == 0);
        assert(emit_tiers(ts, l) + Pairs::empty() =~= emit_tiers(ts, l));
    } else {
        let d = ts.drop_last();
        lemma_emit_tiers_split(d, l, k);
        assert(d.take(k) =~= ts.take(k));
        assert(ts.skip(k).drop_last() =~= d.skip(k));
        assert(ts.skip(k).last() == ts.last());
        let c = if level_includes(l, ts.last().0) { ts.last().1 } else { Pairs::empty() };
        assert(emit_tiers(ts.skip(k), l) == emit_tiers(d.skip(k), l) + c);
        assert(emit_tiers(ts, l) =~= emit_tiers(ts.take(k), l) + emit_tiers(ts.skip(k), l));
    }
}

/// Tiers none of whose labels is named `key` write no label named `key`.
proof fn lemma_emit_tiers_avoid(ts: Seq<(MetadataLevel, Pairs)>, l: MetadataLevel, key: Seq<char>)
    requires
        forall|u: int, j: int| 0 <= u < ts.len() && 0 <= j < ts[u].1.len() ==> #[trigger] ts[u].1[j].0 != key,
    ensures
        forall|j: int| 0 <= j < emit_tiers(ts, l).len() ==> #[trigger] emit_tiers(ts, l)[j].0 != key,
    decreases ts.len(),
{
    if ts.len() > 0 {
        let d = ts.drop_last();
        assert forall|u: int, j: int| 0 <= u < d.len() && 0 <= j < d[u].1.len() implies #[trigger] d[u].1[j].0 != key by {
            assert(d[u] == ts[u]);
        }
        lemma_emit_tiers_avoid(d, l, key);
        let c = if level_includes(l, ts.last().0) { ts.last().1 } else { Pairs::empty() };
        let e = emit_tiers(d, l);
        assert forall|j: int| 0 <= j < (e + c).len() implies #[trigger] (e + c)[j].0 != key by {
            if j < e.len() {
                assert((e + c)[j] == e[j]);
            } else {
                assert((e + c)[j] == c[j - e.len()]);
                assert(ts.last().1[j - e.len()].0 != key) by {
                    assert(ts[ts.len() - 1].1[j - e.len()].0 != key);
                }
            }
        }
    }
}

/// A label of a tier that the level carries is built with the value of its
/// last write in that tier, when no later tier writes it.
proof fn lemma_tier_label_built(b: LabelBuilder, t: int, i: int)
    requires
        0 <= t < 7,
        level_includes(b.level_of(), b.tier_list()[t].0),
        0 <= i < b.tier_list()[t].1.len(),
        forall|j: int|
            i < j < b.tier_list()[t].1.len() ==> #[trigger] b.tier_list()[t].1[j].0 != b.tier_list()[t].1[i].0,
        forall|u: int, j: int|
            t < u < 7 && 0 <= j < b.tier_list()[u].1.len() ==> #[trigger] b.tier_list()[u].1[j].0
                != b.tier_list()[t].1[i].0,
    ensures
        b.built().contains_key(b.tier_list()[t].1[i].0),
        b.built()[b.tier_list()[t].1[i].0] == b.tier_list()[t].1[i].1,
{
    let ts = b.tier_list();
    let l = b.level_of();
    let part = ts[t].1;
    let key = part[i].0;
    lemma_emitted_tiers(b, l);
    lemma_emit_tiers_split(ts, l, t);
    let rest = ts.skip(t);
    lemma_emit_tiers_split(rest, l, 1);
    let one = rest.take(1);
    assert(one.drop_last().len() == 0);
    assert(one.last() == ts[t]);
    assert(emit_tiers(one.drop_last(), l) == Pairs::empty());
    assert(emit_tiers(one, l) == emit_tiers(one.drop_last(), l) + part);
    assert(emit_tiers(one, l) =~= part);
    let later = rest.skip(1);
    assert(later =~= ts.skip(t + 1));
    assert forall|u: int, j: int| 0 <= u < later.len() && 0 <= j < later[u].1.len() implies #[trigger] later[u].1[j].0 != key by {
        assert(later[u] == ts[t + 1 + u]);
    }
    lemma_emit_tiers_avoid(later, l, key);
    let pre = emit_tiers(ts.take(t), l);
    let post = emit_tiers(later, l);
    assert(b.emitted() =~= pre + part + post);
    let m0 = Map::<Seq<char>, Seq<char>>::empty();
    lemma_put_all_concat(m0, pre + part, post);
    lemma_put_all_concat(m0, pre, part);
    lemma_put_all_last_write(put_all(m0, pre), part, i);
    lemma_put_all_avoiding(put_all(m0, pre + part), post, key);
}

/// No tier after tier `t` writes a label of tier `t`'s level (or, after the
/// container tier, a label that is no network label).
proof fn lemma_later_tiers_avoid(b: LabelBuilder, t: int, key: Seq<char>)
    requires
        b.well_formed(),
        t == 0 || 2 <= t <= 4 || t == 6,
        tier_level(key) == b.tier_list()[t].0,
        t == 0 ==> !is_network_label(key),
    ensures
        forall|u: int, j: int|
            t < u < 7 && 0 <= j < b.tier_list()[u].1.len() ==> #[trigger] b.tier_list()[u].1[j].0 != key,
{
    lemma_tier_parts(b);
    let ts = b.tier_list();
    assert forall|u: int, j: int| t < u < 7 && 0 <= j < ts[u].1.len() implies #[trigger] ts[u].1[j].0 != key by {
        if u == 1 {
            assert(is_network_label(b.network_part()[j].0));
        } else if u == 2 {
            assert(tier_level(b.task_part()[j].0) == MetadataLevel::Task);
        } else if u == 3 {
            assert(tier_level(b.service_part()[j].0) == MetadataLevel::Service);
        } else if u == 4 {
            assert(tier_level(b.cluster_part()[j].0) == MetadataLevel::Cluster);
        } else if u == 5 {
            assert(tier_level(b.aws_part()[j].0) == MetadataLevel::Aws);
        } else {
            assert(tier_level(b.ec2_part()[j].0) == MetadataLevel::Aws);
        }
    }
}

/// A label among the leading labels of a tier is built with its value when
/// neither a later label of the tier nor a later tier writes it.
proof fn lemma_head_label_built(b: LabelBuilder, t: int, head: Pairs, tail: Pairs, i: int)
    requires
        b.well_formed(),
        t == 0 || 2 <= t <= 4 || t == 6,
        level_includes(b.level_of(), b.tier_list()[t].0),
        b.tier_list()[t].1 == head + tail,
        0 <= i < head.len(),
        forall|j: int| i < j < head.len() ==> #[trigger] head[j].0 != head[i].0,
        forall|j: int| 0 <= j < tail.len() ==> #[trigger] tail[j].0 != head[i].0,
        tier_level(head[i].0) == b.tier_list()[t].0,
        t == 0 ==> !is_network_label(head[i].0),
    ensures
        b.built().contains_key(head[i].0),
        b.built()[head[i].0] == head[i].1,
{
    let part = head + tail;
    assert(part[i] == head[i]);
    assert forall|j: int| i < j < part.len() implies #[trigger] part[j].0 != part[i].0 by {
        if j < head.len() {
            assert(part[j] == head[j]);
        } else {
            assert(part[j] == tail[j - head.len()]);
        }
    }
    lemma_later_tiers_avoid(b, t, head[i].0);
    lemma_tier_label_built(b, t, i);
}

/// After the service step, a builder whose level carries service labels
/// builds the service's name (under the canonical and the legacy label), its
/// ARN, its status and its desired and running counts; a builder whose level
/// does not carry them builds none of these labels.
pub proof fn lemma_service_step_labels(r: LabelBuilder, service: Service)
    requires
        r.well_formed(),
        r.service_part() == service_pairs(service),
    ensures
        level_includes(r.level_of(), MetadataLevel::Service) ==> {
            &&& r.built().contains_key("__meta_ecs_service_name"@)
            &&& r.built()["__meta_ecs_service_name"@] == text_or(service.service_name, "unknown"@)
            &&& r.built().contains_key("__meta_ecs_service"@)
            &&& r.built()["__meta_ecs_service"@] == text_or(service.service_name, "unknown"@)
            &&& r.built().contains_key("__meta_ecs_service_arn"@)
            &&& r.built()["__meta_ecs_service_arn"@] == text_or(service.service_arn, "unknown"@)
            &&& r.built().contains_key("__meta_ecs_service_status"@)
            &&& r.built()["__meta_ecs_service_status"@] == text_or(service.status, "unknown"@)
            &&& r.built().contains_key("__meta_ecs_desired_count"@)
            &&& r.built()["__meta_ecs_desired_count"@] == signed_decimal(service.desired_count as int)
            &&& r.built().contains_key("__meta_ecs_running_count"@)
            &&& r.built()["__meta_ecs_running_count"@] == signed_decimal(service.running_count as int)
        },
        !level_includes(r.level_of(), MetadataLevel::Service) ==> {
            &&& !r.built().contains_key("__meta_ecs_service_name"@)
            &&& !r.built().contains_key("__meta_ecs_service"@)
            &&& !r.built().contains_key("__meta_ecs_service_arn"@)
            &&& !r.built().contains_key("__meta_ecs_service_status"@)
            &&& !r.built().contains_key("__meta_ecs_desired_count"@)
            &&& !r.built().contains_key("__meta_ecs_running_count"@)
        },
{
    lemma_service_label_levels();
    lemma_built_labels_belong_to_level(r);
    if level_includes(r.level_of(), MetadataLevel::Service) {
        let head = seq![
            ("__meta_ecs_service_name"@, text_or(service.service_name, "unknown"@)),
            ("__meta_ecs_service"@, text_or(service.service_name, "unknown"@)),
            ("__meta_ecs_service_arn"@, text_or(service.service_arn, "unknown"@)),
            ("__meta_ecs_service_status"@, text_or(service.status, "unknown"@)),
            ("__meta_ecs_desired_count"@, signed_decimal(service.desired_count as int)),
            ("__meta_ecs_running_count"@, signed_decimal(service.running_count as int)),
        ];
        let tail = tag_labels("__meta_ecs_tag_service_"@, tag_pairs(service.tags@));
        assert(r.tier_list()[3].1 == head + tail);
        lemma_service_names_distinct(Seq::empty());
        assert forall|i: int, j: int| 0 <= i < 6 && 0 <= j < tail.len() implies #[trigger] tail[j].0 != #[trigger] head[i].0 by {
            lemma_service_names_distinct(sanitized_key(tag_pairs(service.tags@)[j].0));
        }
        lemma_head_label_built(r, 3, head, tail, 0);
        lemma_head_label_built(r, 3, head, tail, 1);
        lemma_head_label_built(r, 3, head, tail, 2);
        lemma_head_label_built(r, 3, head, tail, 3);
        lemma_head_label_built(r, 3, head, tail, 4);
        lemma_head_label_built(r, 3, head, tail, 5);
    }
}

/// After the cluster step, a builder whose level carries cluster labels
/// builds the cluster's name (under the canonical and the legacy label) and
/// its ARN; a builder whose level does not carry them builds none of these.
pub proof fn lemma_cluster_step_labels(r: LabelBuilder, cluster: Cluster)
    requires
        r.well_formed(),
        r.cluster_part() == cluster_pairs(cluster),
    ensures
        level_includes(r.level_of(), MetadataLevel::Cluster) ==> {
            &&& r.built().contains_key("__meta_ecs_cluster_name"@)
            &&& r.built()["__meta_ecs_cluster_name"@] == text_or(cluster.cluster_name, "unknown"@)
            &&& r.built().contains_key("__meta_ecs_cluster"@)
            &&& r.built()["__meta_ecs_cluster"@] == text_or(cluster.cluster_name, "unknown"@)
            &&& r.built().contains_key("__meta_ecs_cluster_arn"@)
            &&& r.built()["__meta_ecs_cluster_arn"@] == text_or(cluster.cluster_arn, "unknown"@)
        },
        !level_includes(r.level_of(), MetadataLevel::Cluster) ==> {
            &&& !r.built().contains_key("__meta_ecs_cluster_name"@)
            &&& !r.built().contains_key("__meta_ecs_cluster"@)
            &&& !r.built().contains_key("__meta_ecs_cluster_arn"@)
        },
{
    lemma_cluster_label_levels();
    lemma_built_labels_belong_to_level(r);
    if level_includes(r.level_of(), MetadataLevel::Cluster) {
        let head = seq![
            ("__meta_ecs_cluster_name"@, text_or(cluster.cluster_name, "unknown"@)),
            ("__meta_ecs_cluster"@, text_or(cluster.cluster_name, "unknown"@)),
            ("__meta_ecs_cluster_arn"@, text_or(cluster.cluster_arn, "unknown"@)),
        ];
        let tail = tag_labels("__meta_ecs_tag_cluster_"@, tag_pairs(cluster.tags@));
        assert(r.tier_list()[4].1 == head + tail);
        lemma_cluster_names_distinct(Seq::empty());
        assert forall|i: int, j: int| 0 <= i < 3 && 0 <= j < tail.len() implies #[trigger] tail[j].0 != #[trigger] head[i].0 by {
            lemma_cluster_names_distinct(sanitized_key(tag_pairs(cluster.tags@)[j].0));
        }
        lemma_head_label_built(r, 4, head, tail, 0);
        lemma_head_label_built(r, 4, head, tail, 1);
        lemma_head_label_built(r, 4, head, tail, 2);
    }
}

/// After the container step, at every level, the built labels give the
/// container's name and image, the scraped port in decimal, and the scheme
/// and metrics path of its docker labels (`http` and `/metrics` by default).
pub proof fn lemma_container_step_labels(r: LabelBuilder, def: ContainerDefinition, port: u16)
    requires
        r.well_formed(),
        r.container_part() == container_pairs(def, port),
    ensures
        r.built().contains_key("__meta_ecs_container_name"@),
        r.built()["__meta_ecs_container_name"@] == text_or(def.name, "unknown"@),
        r.built().contains_key("__meta_ecs_container_image"@),
        r.built()["__meta_ecs_container_image"@] == text_or(def.image, "unknown"@),
        r.built().contains_key("__meta_ecs_metrics_port"@),
        r.built()["__meta_ecs_metrics_port"@] == decimal(port as nat),
        r.built().contains_key("__scheme__"@),
        r.built()["__scheme__"@] == docker_label_or(def, "prometheus.io/scheme"@, "http"@),
        r.built().contains_key("__metrics_path__"@),
        r.built()["__metrics_path__"@] == docker_label_or(def, "prometheus.io/path"@, "/metrics"@),
{
    lemma_container_label_levels();
    lemma_container_labels_not_network();
    lemma_container_names_distinct();
    let head = container_pairs(def, port);
    let tail = Pairs::empty();
    assert(r.tier_list()[0].1 == head + tail);
    lemma_head_label_built(r, 0, head, tail, 0);
    lemma_head_label_built(r, 0, head, tail, 1);
    lemma_head_label_built(r, 0, head, tail, 2);
    lemma_head_label_built(r, 0, head, tail, 3);
    lemma_head_label_built(r, 0, head, tail, 4);
}

/// A name that begins with `prefix` is `prefix` followed by something.
proof fn lemma_prefix_split(k: Seq<char>, prefix: Seq<char>)
    requires
        has_prefix(k, prefix),
    ensures
        k == prefix + k.skip(prefix.len() as int),
{
    assert(k =~= prefix + k.skip(prefix.len() as int));
}

/// Every name of an optional pair is its key.
proof fn lemma_opt_pair_names(key: Seq<char>, v: Option<Seq<char>>, pred: spec_fn(Seq<char>) -> bool)
    requires
        pred(key),
    ensures
        names_all(opt_pair(key, v), pred),
{
}

/// Every name of a tag label begins with the tag prefix.
proof fn lemma_tag_label_names(prefix: Seq<char>, pairs: Pairs, pred: spec_fn(Seq<char>) -> bool)
    requires
        forall|x: Seq<char>| #[trigger] has_prefix(x, prefix) ==> pred(x),
    ensures
        names_all(tag_labels(prefix, pairs), pred),
{
    assert forall|i: int| 0 <= i < tag_labels(prefix, pairs).len() implies pred(
        #[trigger] tag_labels(prefix, pairs)[i].0,
    ) by {
        let x = tag_labels(prefix, pairs)[i].0;
        assert(x == prefix + sanitized_key(pairs[i].0));
        assert(x.take(prefix.len() as int) =~= prefix);
        assert(has_prefix(x, prefix));
    }
}

/// Whether `x` names a task label written after the fixed ones.
spec fn later_task_name(x: Seq<char>) -> bool {
    ||| x == "__meta_ecs_task_group"@
    ||| x == "__meta_ecs_desired_status"@
    ||| x == "__meta_ecs_last_status"@
    ||| x == "__meta_ecs_health_status"@
    ||| x == "__meta_ecs_platform_family"@
    ||| x == "__meta_ecs_platform_version"@
    ||| has_prefix(x, "__meta_ecs_tag_task_"@)
}

/// After the task step, a builder whose level carries task labels builds
/// the task's ARN, its task definition's ARN, family and revision (the text
/// after the last `:` of that ARN) and the launch type; a builder whose level
/// does not carry them builds none of these.
pub proof fn lemma_task_step_labels(r: LabelBuilder, task: Task, td: TaskDefinition)
    requires
        r.well_formed(),
        r.task_part() == task_pairs(task, td),
    ensures
        level_includes(r.level_of(), MetadataLevel::Task) ==> {
            &&& r.built().contains_key("__meta_ecs_task_arn"@)
            &&& r.built()["__meta_ecs_task_arn"@] == text_or(task.task_arn, "unknown"@)
            &&& r.built().contains_key("__meta_ecs_task_definition"@)
            &&& r.built()["__meta_ecs_task_definition"@] == text_or(td.task_definition_arn, "unknown"@)
            &&& r.built().contains_key("__meta_ecs_task_family"@)
            &&& r.built()["__meta_ecs_task_family"@] == text_or(td.family, "unknown"@)
            &&& r.built().contains_key("__meta_ecs_task_version"@)
            &&& r.built()["__meta_ecs_task_version"@] == after_last(
                text_or(td.task_definition_arn, "unknown"@),
                ':',
            )
            &&& r.built().contains_key("__meta_ecs_launch_type"@)
            &&& r.built()["__meta_ecs_launch_type"@] == text_or(task.launch_type, "unknown"@)
        },
        !level_includes(r.level_of(), MetadataLevel::Task) ==> {
            &&& !r.built().contains_key("__meta_ecs_task_arn"@)
            &&& !r.built().contains_key("__meta_ecs_task_definition"@)
            &&& !r.built().contains_key("__meta_ecs_task_family"@)
            &&& !r.built().contains_key("__meta_ecs_task_version"@)
            &&& !r.built().contains_key("__meta_ecs_launch_type"@)
        },
{
    lemma_task_label_levels();
    lemma_built_labels_belong_to_level(r);
    if level_includes(r.level_of(), MetadataLevel::Task) {
        let def_arn = text_or(td.task_definition_arn, "unknown"@);
        let head = seq![
            ("__meta_ecs_task_arn"@, text_or(task.task_arn, "unknown"@)),
            ("__meta_ecs_task_definition"@, def_arn),
            ("__meta_ecs_task_family"@, text_or(td.family, "unknown"@)),
            ("__meta_ecs_task_version"@, after_last(def_arn, ':')),
            ("__meta_ecs_launch_type"@, text_or(task.launch_type, "unknown"@)),
        ];
        let p1 = opt_pair("__meta_ecs_task_group"@, opt_text(task.group));
        let p2 = opt_pair("__meta_ecs_desired_status"@, opt_text(task.desired_status));
        let p3 = opt_pair("__meta_ecs_last_status"@, opt_text(task.last_status));
        let p4 = opt_pair("__meta_ecs_health_status"@, opt_text(task.health_status));
        let p5 = opt_pair("__meta_ecs_platform_family"@, opt_text(task.platform_family));
        let p6 = opt_pair("__meta_ecs_platform_version"@, opt_text(task.platform_version));
        let tags = tag_labels("__meta_ecs_tag_task_"@, tag_pairs(task.tags@));
        let tail = p1 + p2 + p3 + p4 + p5 + p6 + tags;
        assert(r.tier_list()[2].1 =~= head + tail);
        let pred = |x: Seq<char>| later_task_name(x);
        lemma_opt_pair_names("__meta_ecs_task_group"@, opt_text(task.group), pred);
        lemma_opt_pair_names("__meta_ecs_desired_status"@, opt_text(task.desired_status), pred);
        lemma_opt_pair_names("__meta_ecs_last_status"@, opt_text(task.last_status), pred);
        lemma_opt_pair_names("__meta_ecs_health_status"@, opt_text(task.health_status), pred);
        lemma_opt_pair_names("__meta_ecs_platform_family"@, opt_text(task.platform_family), pred);
        lemma_opt_pair_names("__meta_ecs_platform_version"@, opt_text(task.platform_version), pred);
        lemma_tag_label_names("__meta_ecs_tag_task_"@, tag_pairs(task.tags@), pred);
        lemma_names_all_concat(p1, p2, pred);
        lemma_names_all_concat(p1 + p2, p3, pred);
        lemma_names_all_concat(p1 + p2 + p3, p4, pred);
        lemma_names_all_concat(p1 + p2 + p3 + p4, p5, pred);
        lemma_names_all_concat(p1 + p2 + p3 + p4 + p5, p6, pred);
        lemma_names_all_concat(p1 + p2 + p3 + p4 + p5 + p6, tags, pred);
        lemma_task_names_distinct(Seq::empty());
        assert forall|i: int| 0 <= i < 5 implies !later_task_name(#[trigger] head[i].0) by {
            let k = head[i].0;
            if has_prefix(k, "__meta_ecs_tag_task_"@) {
                lemma_prefix_split(k, "__meta_ecs_tag_task_"@);
                lemma_task_names_distinct(k.skip("__meta_ecs_tag_task_"@.len() as int));
            }
        }
        assert forall|i: int, j: int| 0 <= i < 5 && 0 <= j < tail.len() implies #[trigger] tail[j].0 != #[trigger] head[i].0 by {
            assert(pred(tail[j].0));
            assert(!later_task_name(head[i].0));
        }
        lemma_head_label_built(r, 2, head, tail, 0);
        lemma_head_label_built(r, 2, head, tail, 1);
        lemma_head_label_built(r, 2, head, tail, 2);
        lemma_head_label_built(r, 2, head, tail, 3);
        lemma_head_label_built(r, 2, head, tail, 4);
    }
}

/// Whether `x` names an EC2 label written after the fixed ones.
spec fn later_ec2_name(x: Seq<char>) -> bool {
    ||| x == "__meta_ecs_public_ip"@
    ||| x == "__meta_ecs_ec2_instance_public_ip"@
    ||| x == "__meta_ecs_ec2_instance_type"@
    ||| has_prefix(x, "__meta_ecs_tag_ec2_"@)
}

/// After the EC2 step, a builder at the aws level builds the container
/// instance ARN, the instance id and the private IP it was given; a builder
/// at a lower level builds none of these.
pub proof fn lemma_ec2_step_labels(
    r: LabelBuilder,
    container_instance_arn: Seq<char>,
    instance_id: Seq<char>,
    instance_type: Option<Seq<char>>,
    private_ip: Seq<char>,
    public_ip: Option<Seq<char>>,
    tags: Labels,
)
    requires
        r.well_formed(),
        r.ec2_part() == ec2_pairs(
            container_instance_arn,
            instance_id,
            instance_type,
            private_ip,
            public_ip,
            tags,
        ),
    ensures
        r.level_of() == MetadataLevel::Aws ==> {
            &&& r.built().contains_key("__meta_ecs_container_instance_arn"@)
            &&& r.built()["__meta_ecs_container_instance_arn"@] == container_instance_arn
            &&& r.built().contains_key("__meta_ecs_ec2_instance_id"@)
            &&& r.built()["__meta_ecs_ec2_instance_id"@] == instance_id
            &&& r.built().contains_key("__meta_ecs_ec2_instance_private_ip"@)
            &&& r.built()["__meta_ecs_ec2_instance_private_ip"@] == private_ip
        },
        r.level_of() != MetadataLevel::Aws ==> {
            &&& !r.built().contains_key("__meta_ecs_container_instance_arn"@)
            &&& !r.built().contains_key("__meta_ecs_ec2_instance_id"@)
            &&& !r.built().contains_key("__meta_ecs_ec2_instance_private_ip"@)
        },
{
    lemma_aws_label_levels();
    lemma_built_labels_belong_to_level(r);
    if r.level_of() == MetadataLevel::Aws {
        let head = seq![
            ("__meta_ecs_container_instance_arn"@, container_instance_arn),
            ("__meta_ecs_ec2_instance_id"@, instance_id),
            ("__meta_ecs_ec2_instance_private_ip"@, private_ip),
        ];
        let ips: Pairs = match public_ip {
            Some(p) => seq![("__meta_ecs_public_ip"@, p), ("__meta_ecs_ec2_instance_public_ip"@, p)],
            None => Seq::empty(),
        };
        let ty = opt_pair("__meta_ecs_ec2_instance_type"@, instance_type);
        let tl = tag_labels("__meta_ecs_tag_ec2_"@, entry_pairs(tags));
        let tail = ips + ty + tl;
        assert(r.tier_list()[6].1 =~= head + tail);
        let pred = |x: Seq<char>| later_ec2_name(x);
        assert(names_all(ips, pred));
        lemma_opt_pair_names("__meta_ecs_ec2_instance_type"@, instance_type, pred);
        lemma_tag_label_names("__meta_ecs_tag_ec2_"@, entry_pairs(tags), pred);
        lemma_names_all_concat(ips, ty, pred);
        lemma_names_all_concat(ips + ty, tl, pred);
        lemma_ec2_names_distinct(Seq::empty());
        assert forall|i: int| 0 <= i < 3 implies !later_ec2_name(#[trigger] head[i].0) by {
            let k = head[i].0;
            if has_prefix(k, "__meta_ecs_tag_ec2_"@) {
                lemma_prefix_split(k, "__meta_ecs_tag_ec2_"@);
                lemma_ec2_names_distinct(k.skip("__meta_ecs_tag_ec2_"@.len() as int));
            }
        }
        assert forall|i: int, j: int| 0 <= i < 3 && 0 <= j < tail.len() implies #[trigger] tail[j].0 != #[trigger] head[i].0 by {
            assert(pred(tail[j].0));
            assert(!later_ec2_name(head[i].0));
        }
        lemma_head_label_built(r, 6, head, tail, 0);
        lemma_head_label_built(r, 6, head, tail, 1);
        lemma_head_label_built(r, 6, head, tail, 2);
    }
}

/// Every label that a builder builds is one whose tier the builder's level carries.
pub proof fn lemma_built_labels_belong_to_level(b: LabelBuilder)
    requires
        b.tiered(),
    ensures
        forall|k: Seq<char>| #[trigger]
            b.built().contains_key(k) ==> level_includes(b.level_of(), tier_level(k)),
{
    lemma_emitted_tiers(b, b.level_of());
    lemma_emitted_tiers(b, MetadataLevel::Aws);
    lemma_emit_tiers_at_level(b.tier_list(), b.level_of());
}

/// Two builders given the same metadata build the same labels, except that
/// the higher level adds the labels of the levels that only it carries: the
/// labels at the lower level are exactly those at the higher level whose
/// tier the lower one carries.
pub proof fn lemma_higher_level_only_adds_labels(b1: LabelBuilder, b2: LabelBuilder)
    requires
        b1.tiered(),
        b1.same_metadata(b2),
        level_includes(b2.level_of(), b1.level_of()),
    ensures
        b1.built() == tier_kept(b2.built(), b1.level_of()),
        b1.built().submap_of(b2.built()),
{
    let (l1, l2) = (b1.level_of(), b2.level_of());
    assert(b1.tier_list() =~= b2.tier_list());
    lemma_emitted_tiers(b1, l1);
    lemma_emitted_tiers(b2, l2);
    lemma_emitted_tiers(b1, MetadataLevel::Aws);
    lemma_emit_tiers_at_level(b1.tier_list(), l1);
    lemma_emit_tiers_at_level(b1.tier_list(), l2);
    let full = put_all(Map::empty(), emit_tiers(b1.tier_list(), MetadataLevel::Aws));
    lemma_tier_kept_compose(full, l1, l2);
}

/// Adding the EC2 instance to a builder that has none yet: at the aws level
/// its labels are written over those built before (they come last); at any
/// other level nothing changes.
pub proof fn lemma_ec2_step_adds_its_labels(
    b: LabelBuilder,
    r: LabelBuilder,
    container_instance_arn: Seq<char>,
    instance_id: Seq<char>,
    instance_type: Option<Seq<char>>,
    private_ip: Seq<char>,
    public_ip: Option<Seq<char>>,
    tags: Labels,
)
    requires
        b.ec2_part().len() == 0,
        r.ec2_part() == ec2_pairs(
            container_instance_arn,
            instance_id,
            instance_type,
            private_ip,
            public_ip,
            tags,
        ),
        r.level_of() == b.level_of(),
        r.container_part() == b.container_part(),
        r.network_part() == b.network_part(),
        r.task_part() == b.task_part(),
        r.service_part() == b.service_part(),
        r.cluster_part() == b.cluster_part(),
        r.aws_part() == b.aws_part(),
    ensures
        b.level_of() == MetadataLevel::Aws ==> r.built() == put_all(
            b.built(),
            ec2_pairs(container_instance_arn, instance_id, instance_type, private_ip, public_ip, tags),
        ),
        b.level_of() != MetadataLevel::Aws ==> r.built() == b.built(),
{
    if b.level_of() == MetadataLevel::Aws {
        assert(r.emitted() =~= b.emitted() + r.ec2_part());
        lemma_put_all_concat(Map::empty(), b.emitted(), r.ec2_part());
    } else {
        assert(r.emitted() =~= b.emitted());
    }
}

/// Writing the network labels.
proof fn lemma_put_all_network(
    m: Map<Seq<char>, Seq<char>>,
    ip: Seq<char>,
    mode: Seq<char>,
    subnet: Option<Seq<char>>,
)
    ensures
        put_all(m, network_pairs(ip, mode, subnet)) == (match subnet {
            Some(s) => m.insert("__meta_ecs_ip_address"@, ip).insert("__meta_ecs_network_mode"@, mode).insert(
                "__meta_ecs_subnet_id"@,
                s,
            ),
            None => m.insert("__meta_ecs_ip_address"@, ip).insert("__meta_ecs_network_mode"@, mode),
        }),
{
    reveal_with_fuel(put_all, 3);
    let one = seq![("__meta_ecs_ip_address"@, ip)];
    let head = seq![("__meta_ecs_ip_address"@, ip), ("__meta_ecs_network_mode"@, mode)];
    let tail = opt_pair("__meta_ecs_subnet_id"@, subnet);
    assert(one.drop_last() =~= Pairs::empty());
    assert(head.drop_last() =~= one);
    assert(put_all(m, one) == m.insert("__meta_ecs_ip_address"@, ip));
    assert(put_all(m, head) == put_all(m, one).insert("__meta_ecs_network_mode"@, mode));
    lemma_put_all_concat(m, head, tail);
    match subnet {
        Some(sv) => {
            assert(tail.drop_last() =~= Pairs::empty());
            assert(put_all(put_all(m, head), tail) == put_all(m, head).insert("__meta_ecs_subnet_id"@, sv));
        },
        None => {},
    }
}

/// Writing the account labels.
proof fn lemma_put_all_account(
    m: Map<Seq<char>, Seq<char>>,
    region: Seq<char>,
    account_id: Seq<char>,
    az: Option<Seq<char>>,
)
    ensures
        put_all(m, aws_pairs(region, account_id, az)) == (match az {
            Some(z) => m.insert("__meta_ecs_region"@, region).insert("__meta_ecs_account_id"@, account_id).insert(
                "__meta_ecs_availability_zone"@,
                z,
            ),
            None => m.insert("__meta_ecs_region"@, region).insert("__meta_ecs_account_id"@, account_id),
        }),
{
    reveal_with_fuel(put_all, 3);
    let one = seq![("__meta_ecs_region"@, region)];
    let head = seq![("__meta_ecs_region"@, region), ("__meta_ecs_account_id"@, account_id)];
    let tail = opt_pair("__meta_ecs_availability_zone"@, az);
    assert(one.drop_last() =~= Pairs::empty());
    assert(head.drop_last() =~= one);
    assert(put_all(m, one) == m.insert("__meta_ecs_region"@, region));
    assert(put_all(m, head) == put_all(m, one).insert("__meta_ecs_account_id"@, account_id));
    lemma_put_all_concat(m, head, tail);
    match az {
        Some(z) => {
            assert(tail.drop_last() =~= Pairs::empty());
            assert(put_all(put_all(m, head), tail) == put_all(m, head).insert("__meta_ecs_availability_zone"@, z));
        },
        None => {},
    }
}

/// The parts of a tiered builder each hold labels of their own level.
proof fn lemma_tier_parts(b: LabelBuilder)
    requires
        b.tiered(),
    ensures
        all_in_tier(b.container_part(), MetadataLevel::Container),
        all_in_tier(b.network_part(), MetadataLevel::Container),
        all_in_tier(b.task_part(), MetadataLevel::Task),
        all_in_tier(b.service_part(), MetadataLevel::Service),
        all_in_tier(b.cluster_part(), MetadataLevel::Cluster),
        all_in_tier(b.aws_part(), MetadataLevel::Aws),
        all_in_tier(b.ec2_part(), MetadataLevel::Aws),
{
    let ts = b.tier_list();
    assert(all_in_tier(ts[0].1, ts[0].0));
    assert(all_in_tier(ts[1].1, ts[1].0));
    assert(all_in_tier(ts[2].1, ts[2].0));
    assert(all_in_tier(ts[3].1, ts[3].0));
    assert(all_in_tier(ts[4].1, ts[4].0));
    assert(all_in_tier(ts[5].1, ts[5].0));
    assert(all_in_tier(ts[6].1, ts[6].0));
}

/// Setting the network data of a target changes only its network labels:
/// every other label is built as before, and the network labels are those
/// given (the container tier, which every level carries, writes them).
pub proof fn lemma_network_step_frame(
    b: LabelBuilder,
    r: LabelBuilder,
    ip: Seq<char>,
    mode: Seq<char>,
    subnet: Option<Seq<char>>,
)
    requires
        b.well_formed(),
        r.network_part() == network_pairs(ip, mode, subnet),
        r.level_of() == b.level_of(),
        r.container_part() == b.container_part(),
        r.task_part() == b.task_part(),
        r.service_part() == b.service_part(),
        r.cluster_part() == b.cluster_part(),
        r.aws_part() == b.aws_part(),
        r.ec2_part() == b.ec2_part(),
    ensures
        forall|k: Seq<char>| !is_network_label(k) ==> #[trigger] agree_on(r.built(), b.built(), k),
        r.built().contains_key("__meta_ecs_ip_address"@),
        r.built()["__meta_ecs_ip_address"@] == ip,
        r.built().contains_key("__meta_ecs_network_mode"@),
        r.built()["__meta_ecs_network_mode"@] == mode,
        r.built().contains_key("__meta_ecs_subnet_id"@) == subnet is Some,
        subnet is Some ==> r.built()["__meta_ecs_subnet_id"@] == subnet.unwrap(),
{
    let f = b.container_part();
    let p1 = b.network_part();
    let p2 = r.network_part();
    let later = b.after_network();
    lemma_emitted_around_network(b);
    lemma_emitted_around_network(r);
    assert(r.after_network() == later);
    let m0 = Map::<Seq<char>, Seq<char>>::empty();
    lemma_put_all_concat(m0, f + p1, later);
    lemma_put_all_concat(m0, f, p1);
    lemma_put_all_concat(m0, f + p2, later);
    lemma_put_all_concat(m0, f, p2);
    let mf = put_all(m0, f);
    assert(names_all(p2, |k: Seq<char>| is_network_label(k)));
    assert forall|k: Seq<char>| !is_network_label(k) implies #[trigger] agree_on(r.built(), b.built(), k) by {
        assert forall|i: int| 0 <= i < p1.len() implies #[trigger] p1[i].0 != k by {
            assert(is_network_label(p1[i].0));
        }
        assert forall|i: int| 0 <= i < p2.len() implies #[trigger] p2[i].0 != k by {
            assert(is_network_label(p2[i].0));
        }
        lemma_put_all_avoiding(mf, p1, k);
        lemma_put_all_avoiding(mf, p2, k);
        lemma_put_all_keeps_agreement(put_all(mf, p2), put_all(mf, p1), later, k);
    }
    lemma_network_labels_of_step(b, r, ip, mode, subnet);
}

/// The network labels that a builder builds after the network step.
proof fn lemma_network_labels_of_step(
    b: LabelBuilder,
    r: LabelBuilder,
    ip: Seq<char>,
    mode: Seq<char>,
    subnet: Option<Seq<char>>,
)
    requires
        b.well_formed(),
        r.network_part() == network_pairs(ip, mode, subnet),
        r.level_of() == b.level_of(),
        r.container_part() == b.container_part(),
        r.task_part() == b.task_part(),
        r.service_part() == b.service_part(),
        r.cluster_part() == b.cluster_part(),
        r.aws_part() == b.aws_part(),
        r.ec2_part() == b.ec2_part(),
    ensures
        r.built().contains_key("__meta_ecs_ip_address"@),
        r.built()["__meta_ecs_ip_address"@] == ip,
        r.built().contains_key("__meta_ecs_network_mode"@),
        r.built()["__meta_ecs_network_mode"@] == mode,
        r.built().contains_key("__meta_ecs_subnet_id"@) == subnet is Some,
        subnet is Some ==> r.built()["__meta_ecs_subnet_id"@] == subnet.unwrap(),
{
    let f = r.container_part();
    let p2 = r.network_part();
    let later = r.after_network();
    lemma_emitted_around_network(r);
    assert(later == b.after_network());
    lemma_after_network_is_higher(b);
    let m0 = Map::<Seq<char>, Seq<char>>::empty();
    lemma_put_all_concat(m0, f + p2, later);
    lemma_put_all_concat(m0, f, p2);
    let mf = put_all(m0, f);
    let mr = put_all(mf, p2);
    lemma_container_label_levels();
    lemma_network_and_account_labels_distinct();
    lemma_put_all_network(mf, ip, mode, subnet);
    lemma_network_label_kept(r.built(), mr, later, "__meta_ecs_ip_address"@);
    lemma_network_label_kept(r.built(), mr, later, "__meta_ecs_network_mode"@);
    lemma_network_label_kept(r.built(), mr, later, "__meta_ecs_subnet_id"@);
    if subnet is None {
        assert forall|i: int| 0 <= i < f.len() implies #[trigger] f[i].0 != "__meta_ecs_subnet_id"@ by {
            assert(!is_network_label(f[i].0));
        }
        lemma_put_all_avoiding(m0, f, "__meta_ecs_subnet_id"@);
    }
}

/// Labels of higher tiers written over a map leave a label of the container tier as it was.
proof fn lemma_network_label_kept(
    built: Map<Seq<char>, Seq<char>>,
    m: Map<Seq<char>, Seq<char>>,
    later: Pairs,
    k: Seq<char>,
)
    requires
        built == put_all(m, later),
        names_all(later, |x: Seq<char>| tier_level(x) != MetadataLevel::Container),
        tier_level(k) == MetadataLevel::Container,
    ensures
        agree_on(built, m, k),
{
    assert forall|i: int| 0 <= i < later.len() implies #[trigger] later[i].0 != k by {
        assert(tier_level(later[i].0) != MetadataLevel::Container);
    }
    lemma_put_all_avoiding(m, later, k);
}

/// What a builder writes is its container tier, its network tier, then the rest.
proof fn lemma_emitted_around_network(b: LabelBuilder)
    ensures
        b.emitted() == b.container_part() + b.network_part() + b.after_network(),
{
    assert(b.emitted() =~= b.container_part() + b.network_part() + b.after_network());
}

/// The labels written after the network tier are of tiers above the container level.
proof fn lemma_after_network_is_higher(b: LabelBuilder)
    requires
        b.tiered(),
    ensures
        names_all(b.after_network(), |k: Seq<char>| tier_level(k) != MetadataLevel::Container),
{
    let l = b.level_of();
    let e = Pairs::empty();
    lemma_tier_parts(b);
    let higher = |k: Seq<char>| tier_level(k) != MetadataLevel::Container;
    lemma_names_all_from_level(b.task_part(), MetadataLevel::Task, higher);
    lemma_names_all_from_level(b.service_part(), MetadataLevel::Service, higher);
    lemma_names_all_from_level(b.cluster_part(), MetadataLevel::Cluster, higher);
    lemma_names_all_from_level(b.aws_part(), MetadataLevel::Aws, higher);
    lemma_names_all_from_level(b.ec2_part(), MetadataLevel::Aws, higher);
    assert(names_all(e, higher));
    let t1 = if level_includes(l, MetadataLevel::Task) { b.task_part() } else { e };
    let t2 = if level_includes(l, MetadataLevel::Service) { b.service_part() } else { e };
    let t3 = if level_includes(l, MetadataLevel::Cluster) { b.cluster_part() } else { e };
    lemma_names_all_concat(b.aws_part(), b.ec2_part(), higher);
    let t4 = if level_includes(l, MetadataLevel::Aws) { b.aws_part() + b.ec2_part() } else { e };
    lemma_names_all_concat(t1, t2, higher);
    lemma_names_all_concat(t1 + t2, t3, higher);
    lemma_names_all_concat(t1 + t2 + t3, t4, higher);
    assert(b.after_network() == t1 + t2 + t3 + t4);
}

/// EC2 labels written over a map leave an account label as it was.
proof fn lemma_account_label_kept(
    built: Map<Seq<char>, Seq<char>>,
    m: Map<Seq<char>, Seq<char>>,
    ec: Pairs,
    k: Seq<char>,
)
    requires
        built == put_all(m, ec),
        names_all(ec, |x: Seq<char>| !is_account_label(x)),
        is_account_label(k),
    ensures
        agree_on(built, m, k),
{
    assert forall|i: int| 0 <= i < ec.len() implies #[trigger] ec[i].0 != k by {
        assert(!is_account_label(ec[i].0));
    }
    lemma_put_all_avoiding(m, ec, k);
}

/// Setting the account data of a target changes only its account labels:
/// every other label is built as before; at the aws level the account labels
/// are those given, and at any other level there are none.
pub proof fn lemma_aws_step_frame(
    b: LabelBuilder,
    r: LabelBuilder,
    region: Seq<char>,
    account_id: Seq<char>,
    az: Option<Seq<char>>,
)
    requires
        b.well_formed(),
        r.aws_part() == aws_pairs(region, account_id, az),
        r.level_of() == b.level_of(),
        r.container_part() == b.container_part(),
        r.network_part() == b.network_part(),
        r.task_part() == b.task_part(),
        r.service_part() == b.service_part(),
        r.cluster_part() == b.cluster_part(),
        r.ec2_part() == b.ec2_part(),
    ensures
        forall|k: Seq<char>| !is_account_label(k) ==> #[trigger] agree_on(r.built(), b.built(), k),
        b.level_of() == MetadataLevel::Aws ==> {
            &&& r.built().contains_key("__meta_ecs_region"@)
            &&& r.built()["__meta_ecs_region"@] == region
            &&& r.built().contains_key("__meta_ecs_account_id"@)
            &&& r.built()["__meta_ecs_account_id"@] == account_id
            &&& r.built().contains_key("__meta_ecs_availability_zone"@) == az is Some
            &&& az is Some ==> r.built()["__meta_ecs_availability_zone"@] == az.unwrap()
        },
        b.level_of() != MetadataLevel::Aws ==> {
            &&& r.built() == b.built()
            &&& !r.built().contains_key("__meta_ecs_region"@)
            &&& !r.built().contains_key("__meta_ecs_account_id"@)
            &&& !r.built().contains_key("__meta_ecs_availability_zone"@)
        },
{
    let l = b.level_of();
    lemma_tier_parts(b);
    lemma_aws_label_levels();
    if l != MetadataLevel::Aws {
        assert(r.emitted() =~= b.emitted());
        lemma_aws_pairs_level(region, account_id, az);
        assert(r.tiered()) by {
            assert(r.tier_list() =~= b.tier_list().update(5, (MetadataLevel::Aws, r.aws_part())));
        }
        lemma_built_labels_belong_to_level(r);
        assert(agree_on(r.built(), b.built(), "__meta_ecs_region"@));
    } else {
        let x = b.container_part() + b.network_part() + b.task_part() + b.service_part() + b.cluster_part();
        let a1 = b.aws_part();
        let a2 = r.aws_part();
        let ec = b.ec2_part();
        assert(b.emitted() =~= x + a1 + ec);
        assert(r.emitted() =~= x + a2 + ec);
        let m0 = Map::<Seq<char>, Seq<char>>::empty();
        lemma_put_all_concat(m0, x + a1, ec);
        lemma_put_all_concat(m0, x, a1);
        lemma_put_all_concat(m0, x + a2, ec);
        lemma_put_all_concat(m0, x, a2);
        let mx = put_all(m0, x);
        assert(names_all(a2, |k: Seq<char>| is_account_label(k)));
        assert forall|k: Seq<char>| !is_account_label(k) implies #[trigger] agree_on(r.built(), b.built(), k) by {
            assert forall|i: int| 0 <= i < a1.len() implies #[trigger] a1[i].0 != k by {
                assert(is_account_label(a1[i].0));
            }
            assert forall|i: int| 0 <= i < a2.len() implies #[trigger] a2[i].0 != k by {
                assert(is_account_label(a2[i].0));
            }
            lemma_put_all_avoiding(mx, a1, k);
            lemma_put_all_avoiding(mx, a2, k);
            lemma_put_all_keeps_agreement(put_all(mx, a2), put_all(mx, a1), ec, k);
        }
        lemma_network_and_account_labels_distinct();
        lemma_put_all_account(mx, region, account_id, az);
        let mr = put_all(mx, a2);
        lemma_account_label_kept(r.built(), mr, ec, "__meta_ecs_region"@);
        lemma_account_label_kept(r.built(), mr, ec, "__meta_ecs_account_id"@);
        lemma_account_label_kept(r.built(), mr, ec, "__meta_ecs_availability_zone"@);
        if az is None {
            let lower = |k: Seq<char>| tier_level(k) != MetadataLevel::Aws;
            lemma_names_all_from_level(b.container_part(), MetadataLevel::Container, lower);
            lemma_names_all_from_level(b.network_part(), MetadataLevel::Container, lower);
            lemma_names_all_from_level(b.task_part(), MetadataLevel::Task, lower);
            lemma_names_all_from_level(b.service_part(), MetadataLevel::Service, lower);
            lemma_names_all_from_level(b.cluster_part(), MetadataLevel::Cluster, lower);
            lemma_names_all_concat(b.container_part(), b.network_part(), lower);
            lemma_names_all_concat(b.container_part() + b.network_part(), b.task_part(), lower);
            lemma_names_all_concat(
                b.container_part() + b.network_part() + b.task_part(),
                b.service_part(),
                lower,
            );
            lemma_names_all_concat(
                b.container_part() + b.network_part() + b.task_part() + b.service_part(),
                b.cluster_part(),
                lower,
            );
            assert forall|i: int| 0 <= i < x.len() implies #[trigger] x[i].0 != "__meta_ecs_availability_zone"@ by {
                assert(lower(x[i].0));
            }
            lemma_put_all_avoiding(m0, x, "__meta_ecs_availability_zone"@);
        }
    }
}

/// `o`'s string, or `dflt` when there is none.
pub fn string_or(o: &Option<String>, dflt: &str) -> (r: String)
    ensures
        r@ == text_or(*o, dflt@),
{
    match o {
        Some(s) => s.clone(),
        None => dflt.to_owned(),
    }
}

/// The value of a docker label of a container, or `dflt`.
fn label_or(def: &ContainerDefinition, key: &str, dflt: &str) -> (r: String)
    ensures
        r@ == docker_label_or(*def, key@, dflt@),
{
    match docker_label(def, key) {
        Some(v) => v.clone(),
        None => dflt.to_owned(),
    }
}

/// The text after the last `c` in `s`, or all of `s` when there is none;
/// the last piece that `s.split(c)` yields.
pub fn text_after_last(s: &str, c: char) -> (r: String)
    ensures
        r@ == after_last(s@, c),
{
    let cs = chars_of(s);
    let mut start: usize = 0;
    let mut i: usize = 0;
    while i < cs.len()
        invariant
            0 <= start <= i <= cs@.len(),
            cs@ == s@,
            after_last(cs@.take(i as int), c) == cs@.subrange(start as int, i as int),
        decreases cs.len() - i,
    {
        assert(cs@.take(i + 1).drop_last() =~= cs@.take(i as int));
        assert(cs@.take(i + 1).last() == cs@[i as int]);
        if cs[i] == c {
            start = i + 1;
            assert(cs@.subrange(start as int, i + 1) =~= Seq::<char>::empty());
        } else {
            assert(cs@.subrange(start as int, i + 1) =~= cs@.subrange(start as int, i as int).push(
                cs@[i as int],
            ));
        }
        i = i + 1;
    }
    assert(cs@.take(cs@.len() as int) =~= cs@);
    string_from_chars(&cs, start, cs.len())
}

fn push_pair(v: &mut Vec<(String, String)>, key: &str, value: String)
    ensures
        pairs_text(final(v)@) == pairs_text(old(v)@).push((key@, value@)),
{
    v.push((key.to_owned(), value));
    assert(pairs_text(v@) =~= pairs_text(old(v)@).push((key@, value@)));
}

fn push_opt(v: &mut Vec<(String, String)>, key: &str, value: &Option<String>)
    ensures
        pairs_text(final(v)@) == pairs_text(old(v)@) + opt_pair(key@, opt_text(*value)),
{
    match value {
        Some(s) => {
            push_pair(v, key, s.clone());
            assert(pairs_text(v@) =~= pairs_text(old(v)@) + opt_pair(key@, opt_text(*value)));
        },
        None => {
            assert(pairs_text(v@) =~= pairs_text(old(v)@) + opt_pair(key@, opt_text(*value)));
        },
    }
}

fn push_tag_labels(v: &mut Vec<(String, String)>, prefix: &str, tags: &Vec<crate::ecs::Tag>)
    ensures
        pairs_text(final(v)@) == pairs_text(old(v)@) + tag_labels(prefix@, tag_pairs(tags@)),
{
    let mut i: usize = 0;
    assert(pairs_text(old(v)@) + tag_labels(prefix@, tag_pairs(tags@.take(0))) =~= pairs_text(old(v)@));
    while i < tags.len()
        invariant
            0 <= i <= tags@.len(),
            pairs_text(v@) == pairs_text(old(v)@) + tag_labels(prefix@, tag_pairs(tags@.take(i as int))),
        decreases tags.len() - i,
    {
        let t = &tags[i];
        assert(tags@.take(i + 1).drop_last() =~= tags@.take(i as int));
        assert(tags@.take(i + 1).last() == tags@[i as int]);
        let ghost before = pairs_text(v@);
        let ghost rest = tag_pairs(tags@.take(i as int));
        match (&t.key, &t.value) {
            (Some(k), Some(val)) => {
                let name = sanitize_tag_key(k.as_str());
                let label = cat(prefix, name.as_str());
                push_pair(v, label.as_str(), val.clone());
                assert(tag_pairs(tags@.take(i + 1)) == rest.push((k@, val@)));
                assert(tag_labels(prefix@, rest.push((k@, val@))) =~= tag_labels(prefix@, rest).push(
                    (prefix@ + sanitized_key(k@), val@),
                ));
            },
            _ => {
                assert(tag_pairs(tags@.take(i + 1)) == rest);
            },
        }
        i = i + 1;
    }
    assert(tags@.take(tags@.len() as int) =~= tags@);
}

fn push_map_tag_labels(v: &mut Vec<(String, String)>, prefix: &str, tags: &Labels)
    ensures
        pairs_text(final(v)@) == pairs_text(old(v)@) + tag_labels(prefix@, entry_pairs(*tags)),
{
    let n = tags.entry_count();
    let mut i: usize = 0;
    assert(entry_pairs(*tags).take(0) =~= Pairs::empty());
    assert(pairs_text(old(v)@) + tag_labels(prefix@, Pairs::empty()) =~= pairs_text(old(v)@));
    while i < n
        invariant
            0 <= i <= n,
            n == tags.size(),
            pairs_text(v@) == pairs_text(old(v)@) + tag_labels(
                prefix@,
                entry_pairs(*tags).take(i as int),
            ),
        decreases n - i,
    {
        let (k, val) = tags.entry(i);
        let name = sanitize_tag_key(k.as_str());
        let label = cat(prefix, name.as_str());
        let ghost rest = entry_pairs(*tags).take(i as int);
        push_pair(v, label.as_str(), val.clone());
        assert(entry_pairs(*tags).take(i + 1) =~= rest.push((k@, val@)));
        assert(tag_labels(prefix@, rest.push((k@, val@))) =~= tag_labels(prefix@, rest).push(
            (prefix@ + sanitized_key(k@), val@),
        ));
        i = i + 1;
    }
    assert(entry_pairs(*tags).take(n as int) =~= entry_pairs(*tags));
}

} // verus!
