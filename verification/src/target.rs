use vstd::prelude::*;
use crate::level::{level_includes, MetadataLevel};
use crate::strmap::StrMap;
use crate::text::{cat, decimal, has_prefix, starts_with, str_eq, u64_to_string};

verus! {

/// A set of Prometheus labels: label name to value.
pub type Labels = StrMap<String>;

/// One entry of a Prometheus HTTP service-discovery response.
pub struct Target {
    pub targets: Vec<String>,
    pub labels: Labels,
}

/// `ip:port`, as a target address is written.
pub open spec fn address_text(ip: Seq<char>, port: u16) -> Seq<char> {
    ip + ":"@ + decimal(port as nat)
}

impl Target {
    /// A target with the single address `ip:port` and the given labels.
    pub fn new(ip: &str, port: u16, labels: Labels) -> (r: Target)
        ensures
            r.targets@.len() == 1,
            r.targets@[0]@ == address_text(ip@, port),
            r.labels@ == labels@,
    {
        let a = cat(ip, ":");
        let p = u64_to_string(port as u64);
        let addr = cat(a.as_str(), p.as_str());
        let mut targets: Vec<String> = Vec::new();
        targets.push(addr);
        Target { targets, labels }
    }

    /// A copy of the target.
    pub fn duplicate(&self) -> (r: Target)
        ensures
            r.targets@ == self.targets@,
            r.labels@ == self.labels@,
            r.labels.keys() == self.labels.keys(),
    {
        Target { targets: clone_strings(&self.targets), labels: self.labels.duplicate() }
    }
}

/// A copy of a list of strings.
pub fn clone_strings(v: &Vec<String>) -> (r: Vec<String>)
    ensures
        r@ == v@,
{
    let mut r: Vec<String> = Vec::new();
    let mut i: usize = 0;
    while i < v.len()
        invariant
            0 <= i <= v@.len(),
            r@ == v@.take(i as int),
        decreases v.len() - i,
    {
        r.push(v[i].clone());
        assert(v@.take(i + 1) =~= v@.take(i as int).push(v@[i as int]));
        i = i + 1;
    }
    assert(v@.take(v@.len() as int) =~= v@);
    r
}

/// The level that a label belongs to when a target's labels are filtered by
/// level, read from its name: container names (and `__meta_ecs_metrics_port`)
/// belong to the container level, task names to the task level, service
/// names, the legacy `__meta_ecs_service` and the desired and running counts
/// to the service level, cluster names and the legacy `__meta_ecs_cluster` to
/// the cluster level, any other ECS metadata to the aws level.  Labels that
/// are not ECS metadata (such as `__scheme__`) belong to the container level.
pub open spec fn label_level(key: Seq<char>) -> MetadataLevel {
    if has_prefix(key, "__meta_ecs_container_"@) || key == "__meta_ecs_metrics_port"@ {
        MetadataLevel::Container
    } else if has_prefix(key, "__meta_ecs_task_"@) {
        MetadataLevel::Task
    } else if has_prefix(key, "__meta_ecs_service_"@) || key == "__meta_ecs_service"@ || key
        == "__meta_ecs_desired_count"@ || key == "__meta_ecs_running_count"@ {
        MetadataLevel::Service
    } else if has_prefix(key, "__meta_ecs_cluster_"@) || key == "__meta_ecs_cluster"@ {
        MetadataLevel::Cluster
    } else if has_prefix(key, "__meta_ecs_"@) {
        MetadataLevel::Aws
    } else {
        MetadataLevel::Container
    }
}

/// The level of the tier in which the label builder writes a label: the
/// container tier writes the container and network labels, the task tier
/// the task labels and task tags, the service and cluster tiers their labels
/// and tags, the aws tier the account and EC2 instance labels.  This is the
/// builder's own grouping, by which a builder for a level writes the tiers
/// that level carries; filtering a target's labels by level reads names by
/// `label_level` instead.
pub open spec fn tier_level(key: Seq<char>) -> MetadataLevel {
    if has_prefix(key, "__meta_ecs_tag_task_"@) {
        MetadataLevel::Task
    } else if has_prefix(key, "__meta_ecs_tag_service_"@) {
        MetadataLevel::Service
    } else if has_prefix(key, "__meta_ecs_tag_cluster_"@) {
        MetadataLevel::Cluster
    } else if has_prefix(key, "__meta_ecs_tag_"@) || key == "__meta_ecs_container_instance_arn"@ {
        MetadataLevel::Aws
    } else if has_prefix(key, "__meta_ecs_container_"@) || key == "__meta_ecs_metrics_port"@
        || key == "__meta_ecs_ip_address"@ || key == "__meta_ecs_network_mode"@ || key
        == "__meta_ecs_subnet_id"@ {
        MetadataLevel::Container
    } else if has_prefix(key, "__meta_ecs_task_"@) || key == "__meta_ecs_launch_type"@ || key
        == "__meta_ecs_desired_status"@ || key == "__meta_ecs_last_status"@ || key
        == "__meta_ecs_health_status"@ || key == "__meta_ecs_platform_family"@ || key
        == "__meta_ecs_platform_version"@ {
        MetadataLevel::Task
    } else if has_prefix(key, "__meta_ecs_service_"@) || key == "__meta_ecs_service"@ || key
        == "__meta_ecs_desired_count"@ || key == "__meta_ecs_running_count"@ {
        MetadataLevel::Service
    } else if has_prefix(key, "__meta_ecs_cluster_"@) || key == "__meta_ecs_cluster"@ {
        MetadataLevel::Cluster
    } else if has_prefix(key, "__meta_ecs_"@) {
        MetadataLevel::Aws
    } else {
        MetadataLevel::Container
    }
}

/// The level that a label belongs to.
pub fn label_level_of(key: &str) -> (r: MetadataLevel)
    ensures
        r == label_level(key@),
{
    if starts_with(key, "__meta_ecs_container_") || str_eq(key, "__meta_ecs_metrics_port") {
        MetadataLevel::Container
    } else if starts_with(key, "__meta_ecs_task_") {
        MetadataLevel::Task
    } else if starts_with(key, "__meta_ecs_service_") || str_eq(key, "__meta_ecs_service")
        || str_eq(key, "__meta_ecs_desired_count") || str_eq(key, "__meta_ecs_running_count") {
        MetadataLevel::Service
    } else if starts_with(key, "__meta_ecs_cluster_") || str_eq(key, "__meta_ecs_cluster") {
        MetadataLevel::Cluster
    } else if starts_with(key, "__meta_ecs_") {
        MetadataLevel::Aws
    } else {
        MetadataLevel::Container
    }
}

/// The labels of `m` that a target carries at `level`.
pub open spec fn labels_at_level(m: Map<Seq<char>, String>, level: MetadataLevel) -> Map<
    Seq<char>,
    String,
> {
    Map::new(
        |k: Seq<char>| m.contains_key(k) && level_includes(level, label_level(k)),
        |k: Seq<char>| m[k],
    )
}

/// The target with only the labels that belong to `level` or a level it carries.
pub fn filter_labels_by_level(target: &Target, level: MetadataLevel) -> (r: Target)
    ensures
        r.targets@ == target.targets@,
        r.labels@ == labels_at_level(target.labels@, level),
{
    let m = &target.labels;
    let mut out: Labels = StrMap::new();
    let n = m.entry_count();
    let mut i: usize = 0;
    while i < n
        invariant
            0 <= i <= n,
            n == m.size(),
            forall|k: Seq<char>|
                #[trigger] out@.contains_key(k) <==> (exists|j: int|
                    0 <= j < i && #[trigger] m.key_at(j) == k && level_includes(
                        level,
                        label_level(k),
                    )),
            forall|k: Seq<char>| #[trigger] out@.contains_key(k) ==> m@.contains_key(k) && out@[k] == m@[k],
        decreases n - i,
    {
        let (k, v) = m.entry(i);
        let kl = label_level_of(k.as_str());
        if level.includes(kl) {
            out.insert(k.clone(), v.clone());
            assert(m.key_at(i as int) == k@);
        }
        i = i + 1;
    }
    assert(out@ =~= labels_at_level(m@, level));
    Target { targets: clone_strings(&target.targets), labels: out }
}

} // verus!

verus! {

/// The labels of a target, names and values as text.
pub open spec fn label_text(m: Labels) -> Map<Seq<char>, Seq<char>> {
    m@.map_values(|v: String| v@)
}

/// The map that results from writing the `(name, value)` pairs in order into
/// `m`; a later pair replaces an earlier one with the same name.
pub open spec fn put_all(m: Map<Seq<char>, Seq<char>>, kvs: Seq<(Seq<char>, Seq<char>)>) -> Map<
    Seq<char>,
    Seq<char>,
>
    decreases kvs.len(),
{
    if kvs.len() == 0 {
        m
    } else {
        put_all(m, kvs.drop_last()).insert(kvs.last().0, kvs.last().1)
    }
}

/// Writing two lists of pairs one after the other is writing their concatenation.
pub proof fn lemma_put_all_concat(
    m: Map<Seq<char>, Seq<char>>,
    a: Seq<(Seq<char>, Seq<char>)>,
    b: Seq<(Seq<char>, Seq<char>)>,
)
    ensures
        put_all(m, a + b) == put_all(put_all(m, a), b),
    decreases b.len(),
{
    if b.len() == 0 {
        assert(a + b =~= a);
    } else {
        assert((a + b).drop_last() =~= a + b.drop_last());
        lemma_put_all_concat(m, a, b.drop_last());
    }
}

/// The text view of a list of string pairs.
pub open spec fn pairs_text(v: Seq<(String, String)>) -> Seq<(Seq<char>, Seq<char>)> {
    v.map_values(|p: (String, String)| (p.0@, p.1@))
}

/// Writes the pairs, in order, into the labels.
pub fn insert_all(labels: &mut Labels, pairs: &Vec<(String, String)>)
    ensures
        label_text(*final(labels)) == put_all(label_text(*old(labels)), pairs_text(pairs@)),
{
    let ghost start = label_text(*labels);
    let mut i: usize = 0;
    while i < pairs.len()
        invariant
            0 <= i <= pairs@.len(),
            label_text(*labels) == put_all(start, pairs_text(pairs@).take(i as int)),
        decreases pairs.len() - i,
    {
        let k = pairs[i].0.clone();
        let v = pairs[i].1.clone();
        let ghost before = *labels;
        labels.insert(k, v);
        proof {
            let t = pairs_text(pairs@).take(i + 1);
            assert(t.drop_last() =~= pairs_text(pairs@).take(i as int));
            assert(label_text(*labels) =~= label_text(before).insert(pairs@[i as int].0@, pairs@[i as int].1@));
        }
        i = i + 1;
    }
    assert(pairs_text(pairs@).take(pairs@.len() as int) =~= pairs_text(pairs@));
}

/// A lower level's labels are kept, with their values, at a higher level.
pub proof fn lemma_level_filter_monotone(m: Map<Seq<char>, String>, a: MetadataLevel, b: MetadataLevel)
    requires
        level_includes(b, a),
    ensures
        labels_at_level(m, a).submap_of(labels_at_level(m, b)),
{
}

/// Filtering for a level and then for a lower one is filtering for the lower one.
pub proof fn lemma_level_filter_compose(m: Map<Seq<char>, String>, a: MetadataLevel, b: MetadataLevel)
    requires
        level_includes(b, a),
    ensures
        labels_at_level(labels_at_level(m, b), a) == labels_at_level(m, a),
{
    assert(labels_at_level(labels_at_level(m, b), a) =~= labels_at_level(m, a));
}

/// The aws level keeps every label.
pub proof fn lemma_level_filter_aws_keeps_all(m: Map<Seq<char>, String>)
    ensures
        labels_at_level(m, MetadataLevel::Aws) == m,
{
    assert(labels_at_level(m, MetadataLevel::Aws) =~= m);
}

/// A prefix of a prefix is a prefix.
pub proof fn lemma_prefix_transitive(k: Seq<char>, p: Seq<char>, q: Seq<char>)
    requires
        has_prefix(k, p),
        has_prefix(p, q),
    ensures
        has_prefix(k, q),
{
    assert(k.take(q.len() as int) =~= p.take(q.len() as int));
}

/// A text that differs from `p` at a position of `p` neither starts with `p`
/// nor equals it.
pub proof fn lemma_differ_at(s: Seq<char>, p: Seq<char>, j: int)
    requires
        0 <= j < p.len(),
        j < s.len() ==> s[j] != p[j],
    ensures
        !has_prefix(s, p),
        s != p,
{
    if has_prefix(s, p) {
        assert(s.take(p.len() as int)[j] == p[j]);
    }
}

/// Every ECS metadata label name that `label_level` tells apart starts with `__meta_ecs_`.
proof fn lemma_meta_names()
    ensures
        has_prefix("__meta_ecs_container_"@, "__meta_ecs_"@),
        has_prefix("__meta_ecs_metrics_port"@, "__meta_ecs_"@),
        has_prefix("__meta_ecs_task_"@, "__meta_ecs_"@),
        has_prefix("__meta_ecs_service_"@, "__meta_ecs_"@),
        has_prefix("__meta_ecs_service"@, "__meta_ecs_"@),
        has_prefix("__meta_ecs_desired_count"@, "__meta_ecs_"@),
        has_prefix("__meta_ecs_running_count"@, "__meta_ecs_"@),
        has_prefix("__meta_ecs_cluster_"@, "__meta_ecs_"@),
        has_prefix("__meta_ecs_cluster"@, "__meta_ecs_"@),
{
    reveal_strlit("__meta_ecs_");
    reveal_strlit("__meta_ecs_container_");
    assert("__meta_ecs_container_"@.take(11) =~= "__meta_ecs_"@);
    reveal_strlit("__meta_ecs_metrics_port");
    assert("__meta_ecs_metrics_port"@.take(11) =~= "__meta_ecs_"@);
    reveal_strlit("__meta_ecs_task_");
    assert("__meta_ecs_task_"@.take(11) =~= "__meta_ecs_"@);
    reveal_strlit("__meta_ecs_service_");
    assert("__meta_ecs_service_"@.take(11) =~= "__meta_ecs_"@);
    reveal_strlit("__meta_ecs_service");
    assert("__meta_ecs_service"@.take(11) =~= "__meta_ecs_"@);
    reveal_strlit("__meta_ecs_desired_count");
    assert("__meta_ecs_desired_count"@.take(11) =~= "__meta_ecs_"@);
    reveal_strlit("__meta_ecs_running_count");
    assert("__meta_ecs_running_count"@.take(11) =~= "__meta_ecs_"@);
    reveal_strlit("__meta_ecs_cluster_");
    assert("__meta_ecs_cluster_"@.take(11) =~= "__meta_ecs_"@);
    reveal_strlit("__meta_ecs_cluster");
    assert("__meta_ecs_cluster"@.take(11) =~= "__meta_ecs_"@);
}

/// Labels that are not ECS metadata, such as `__scheme__` and
/// `__metrics_path__`, belong to the container level and so are kept at every level.
pub proof fn lemma_other_labels_are_container_level(k: Seq<char>)
    requires
        !has_prefix(k, "__meta_ecs_"@),
    ensures
        label_level(k) == MetadataLevel::Container,
{
    reveal_strlit("__meta_ecs_");
    let meta = "__meta_ecs_"@;
    assert forall|p: Seq<char>| has_prefix(k, p) && #[trigger] has_prefix(p, meta) implies false by {
        lemma_prefix_transitive(k, p, meta);
    }
    assert forall|p: Seq<char>| k == p && #[trigger] has_prefix(p, meta) implies false by {
        assert(k.take(k.len() as int) =~= k);
        lemma_prefix_transitive(k, p, meta);
    }
    lemma_meta_names();
}

/// A text that starts with `p` does not start with, nor equal, a text that
/// differs from `p` at a position of both.
pub proof fn lemma_prefix_excludes(k: Seq<char>, p: Seq<char>, q: Seq<char>, j: int)
    requires
        has_prefix(k, p),
        0 <= j < p.len(),
        j < q.len(),
        p[j] != q[j],
    ensures
        !has_prefix(k, q),
        k != q,
{
    assert(k[j] == k.take(p.len() as int)[j]);
    lemma_differ_at(k, q, j);
}

/// The level of a label, read from its name: container names (and the
/// metrics port) are container labels, task names task labels, service names
/// (with the legacy service name and the desired and running counts) service
/// labels, cluster names (with the legacy cluster name) cluster labels, any
/// other ECS metadata aws labels.
pub proof fn lemma_label_level_by_name(k: Seq<char>)
    ensures
        has_prefix(k, "__meta_ecs_container_"@) ==> label_level(k) == MetadataLevel::Container,
        label_level("__meta_ecs_metrics_port"@) == MetadataLevel::Container,
        has_prefix(k, "__meta_ecs_task_"@) ==> label_level(k) == MetadataLevel::Task,
        has_prefix(k, "__meta_ecs_service_"@) ==> label_level(k) == MetadataLevel::Service,
        label_level("__meta_ecs_service"@) == MetadataLevel::Service,
        label_level("__meta_ecs_desired_count"@) == MetadataLevel::Service,
        label_level("__meta_ecs_running_count"@) == MetadataLevel::Service,
        has_prefix(k, "__meta_ecs_cluster_"@) ==> label_level(k) == MetadataLevel::Cluster,
        label_level("__meta_ecs_cluster"@) == MetadataLevel::Cluster,
        has_prefix(k, "__meta_ecs_"@) && !has_prefix(k, "__meta_ecs_container_"@) && k != "__meta_ecs_metrics_port"@ && !has_prefix(k, "__meta_ecs_task_"@) && !has_prefix(k, "__meta_ecs_service_"@) && k != "__meta_ecs_service"@ && k != "__meta_ecs_desired_count"@ && k != "__meta_ecs_running_count"@ && !has_prefix(k, "__meta_ecs_cluster_"@) && k != "__meta_ecs_cluster"@ ==> label_level(k) == MetadataLevel::Aws,
{
    if has_prefix(k, "__meta_ecs_container_"@) {
        reveal_strlit("__meta_ecs_container_");
    }
    assert(label_level("__meta_ecs_metrics_port"@) == MetadataLevel::Container) by {
        reveal_strlit("__meta_ecs_container_");
        reveal_strlit("__meta_ecs_metrics_port");
        lemma_differ_at("__meta_ecs_metrics_port"@, "__meta_ecs_container_"@, 11);
    }
    if has_prefix(k, "__meta_ecs_task_"@) {
        reveal_strlit("__meta_ecs_container_");
        reveal_strlit("__meta_ecs_metrics_port");
        reveal_strlit("__meta_ecs_task_");
        lemma_prefix_excludes(k, "__meta_ecs_task_"@, "__meta_ecs_container_"@, 11);
        lemma_prefix_excludes(k, "__meta_ecs_task_"@, "__meta_ecs_metrics_port"@, 11);
    }
    if has_prefix(k, "__meta_ecs_service_"@) {
        reveal_strlit("__meta_ecs_container_");
        reveal_strlit("__meta_ecs_metrics_port");
        reveal_strlit("__meta_ecs_service_");
        reveal_strlit("__meta_ecs_task_");
        lemma_prefix_excludes(k, "__meta_ecs_service_"@, "__meta_ecs_container_"@, 11);
        lemma_prefix_excludes(k, "__meta_ecs_service_"@, "__meta_ecs_metrics_port"@, 11);
        lemma_prefix_excludes(k, "__meta_ecs_service_"@, "__meta_ecs_task_"@, 11);
    }
    assert(label_level("__meta_ecs_service"@) == MetadataLevel::Service) by {
        reveal_strlit("__meta_ecs_container_");
        reveal_strlit("__meta_ecs_metrics_port");
        reveal_strlit("__meta_ecs_service");
        reveal_strlit("__meta_ecs_service_");
        reveal_strlit("__meta_ecs_task_");
        lemma_differ_at("__meta_ecs_service"@, "__meta_ecs_container_"@, 11);
        lemma_differ_at("__meta_ecs_service"@, "__meta_ecs_metrics_port"@, 11);
        lemma_differ_at("__meta_ecs_service"@, "__meta_ecs_task_"@, 11);
        assert("__meta_ecs_service"@.len() != "__meta_ecs_service_"@.len());
    }
    assert(label_level("__meta_ecs_desired_count"@) == MetadataLevel::Service) by {
        reveal_strlit("__meta_ecs_container_");
        reveal_strlit("__meta_ecs_desired_count");
        reveal_strlit("__meta_ecs_metrics_port");
        reveal_strlit("__meta_ecs_service");
        reveal_strlit("__meta_ecs_service_");
        reveal_strlit("__meta_ecs_task_");
        lemma_differ_at("__meta_ecs_desired_count"@, "__meta_ecs_container_"@, 11);
        lemma_differ_at("__meta_ecs_desired_count"@, "__meta_ecs_metrics_port"@, 11);
        lemma_differ_at("__meta_ecs_desired_count"@, "__meta_ecs_task_"@, 11);
        lemma_differ_at("__meta_ecs_desired_count"@, "__meta_ecs_service_"@, 11);
        lemma_differ_at("__meta_ecs_desired_count"@, "__meta_ecs_service"@, 11);
    }
    assert(label_level("__meta_ecs_running_count"@) == MetadataLevel::Service) by {
        reveal_strlit("__meta_ecs_container_");
        reveal_strlit("__meta_ecs_desired_count");
        reveal_strlit("__meta_ecs_metrics_port");
        reveal_strlit("__meta_ecs_running_count");
        reveal_strlit("__meta_ecs_service");
        reveal_strlit("__meta_ecs_service_");
        reveal_strlit("__meta_ecs_task_");
        lemma_differ_at("__meta_ecs_running_count"@, "__meta_ecs_container_"@, 11);
        lemma_differ_at("__meta_ecs_running_count"@, "__meta_ecs_metrics_port"@, 11);
        lemma_differ_at("__meta_ecs_running_count"@, "__meta_ecs_task_"@, 11);
        lemma_differ_at("__meta_ecs_running_count"@, "__meta_ecs_service_"@, 11);
        lemma_differ_at("__meta_ecs_running_count"@, "__meta_ecs_service"@, 11);
        lemma_differ_at("__meta_ecs_running_count"@, "__meta_ecs_desired_count"@, 11);
    }
    if has_prefix(k, "__meta_ecs_cluster_"@) {
        reveal_strlit("__meta_ecs_cluster_");
        reveal_strlit("__meta_ecs_container_");
        reveal_strlit("__meta_ecs_desired_count");
        reveal_strlit("__meta_ecs_metrics_port");
        reveal_strlit("__meta_ecs_running_count");
        reveal_strlit("__meta_ecs_service");
        reveal_strlit("__meta_ecs_service_");
        reveal_strlit("__meta_ecs_task_");
        lemma_prefix_excludes(k, "__meta_ecs_cluster_"@, "__meta_ecs_container_"@, 12);
        lemma_prefix_excludes(k, "__meta_ecs_cluster_"@, "__meta_ecs_metrics_port"@, 11);
        lemma_prefix_excludes(k, "__meta_ecs_cluster_"@, "__meta_ecs_task_"@, 11);
        lemma_prefix_excludes(k, "__meta_ecs_cluster_"@, "__meta_ecs_service_"@, 11);
        lemma_prefix_excludes(k, "__meta_ecs_cluster_"@, "__meta_ecs_service"@, 11);
        lemma_prefix_excludes(k, "__meta_ecs_cluster_"@, "__meta_ecs_desired_count"@, 11);
        lemma_prefix_excludes(k, "__meta_ecs_cluster_"@, "__meta_ecs_running_count"@, 11);
    }
    assert(label_level("__meta_ecs_cluster"@) == MetadataLevel::Cluster) by {
        reveal_strlit("__meta_ecs_cluster");
        reveal_strlit("__meta_ecs_cluster_");
        reveal_strlit("__meta_ecs_container_");
        reveal_strlit("__meta_ecs_desired_count");
        reveal_strlit("__meta_ecs_metrics_port");
        reveal_strlit("__meta_ecs_running_count");
        reveal_strlit("__meta_ecs_service");
        reveal_strlit("__meta_ecs_service_");
        reveal_strlit("__meta_ecs_task_");
        lemma_differ_at("__meta_ecs_cluster"@, "__meta_ecs_container_"@, 12);
        lemma_differ_at("__meta_ecs_cluster"@, "__meta_ecs_metrics_port"@, 11);
        lemma_differ_at("__meta_ecs_cluster"@, "__meta_ecs_task_"@, 11);
        lemma_differ_at("__meta_ecs_cluster"@, "__meta_ecs_service_"@, 11);
        lemma_differ_at("__meta_ecs_cluster"@, "__meta_ecs_service"@, 11);
        lemma_differ_at("__meta_ecs_cluster"@, "__meta_ecs_desired_count"@, 11);
        lemma_differ_at("__meta_ecs_cluster"@, "__meta_ecs_running_count"@, 11);
        assert("__meta_ecs_cluster"@.len() != "__meta_ecs_cluster_"@.len());
    }
}

/// Container labels (container names, the metrics port, and every label that
/// is not ECS metadata) are kept, with their values, at every level.
pub proof fn lemma_level_filter_keeps_container_labels(
    m: Map<Seq<char>, String>,
    level: MetadataLevel,
    k: Seq<char>,
)
    requires
        m.contains_key(k),
        has_prefix(k, "__meta_ecs_container_"@) || k == "__meta_ecs_metrics_port"@ || !has_prefix(
            k,
            "__meta_ecs_"@,
        ),
    ensures
        labels_at_level(m, level).contains_key(k),
        labels_at_level(m, level)[k] == m[k],
{
    lemma_label_level_by_name(k);
    if !has_prefix(k, "__meta_ecs_"@) {
        lemma_other_labels_are_container_level(k);
    }
}

/// Labels that are not ECS metadata, such as `__scheme__` and
/// `__metrics_path__`, are kept at every level.
pub proof fn lemma_level_filter_keeps_other_labels(
    m: Map<Seq<char>, String>,
    level: MetadataLevel,
    k: Seq<char>,
)
    requires
        m.contains_key(k),
        !has_prefix(k, "__meta_ecs_"@),
    ensures
        labels_at_level(m, level).contains_key(k),
        labels_at_level(m, level)[k] == m[k],
{
    lemma_other_labels_are_container_level(k);
}

} // verus!

verus! {

/// The labels of a text label map whose builder tier `level` carries.
pub open spec fn tier_kept(m: Map<Seq<char>, Seq<char>>, level: MetadataLevel) -> Map<
    Seq<char>,
    Seq<char>,
> {
    Map::new(
        |k: Seq<char>| m.contains_key(k) && level_includes(level, tier_level(k)),
        |k: Seq<char>| m[k],
    )
}

/// Every label of `pairs` is written by a builder tier of level `t`.
pub open spec fn all_in_tier(pairs: Seq<(Seq<char>, Seq<char>)>, t: MetadataLevel) -> bool {
    forall|i: int| 0 <= i < pairs.len() ==> tier_level(#[trigger] pairs[i].0) == t
}

/// Writing labels of one level and then keeping those of `level`: when
/// `level` carries them it is writing them into what was kept, and otherwise
/// they leave no trace.
pub proof fn lemma_tier_kept_put_all(
    m: Map<Seq<char>, Seq<char>>,
    pairs: Seq<(Seq<char>, Seq<char>)>,
    t: MetadataLevel,
    level: MetadataLevel,
)
    requires
        all_in_tier(pairs, t),
    ensures
        tier_kept(put_all(m, pairs), level) == (if level_includes(level, t) {
            put_all(tier_kept(m, level), pairs)
        } else {
            tier_kept(m, level)
        }),
    decreases pairs.len(),
{
    if pairs.len() == 0 {
    } else {
        let rest = pairs.drop_last();
        let (k, v) = pairs.last();
        assert(tier_level(pairs[pairs.len() - 1].0) == t);
        assert(all_in_tier(rest, t)) by {
            assert forall|i: int| 0 <= i < rest.len() implies tier_level(#[trigger] rest[i].0) == t by {
                assert(rest[i] == pairs[i]);
            }
        }
        lemma_tier_kept_put_all(m, rest, t, level);
        let before = put_all(m, rest);
        if level_includes(level, t) {
            assert(tier_kept(before.insert(k, v), level) =~= tier_kept(before, level).insert(k, v));
        } else {
            assert(tier_kept(before.insert(k, v), level) =~= tier_kept(before, level));
        }
    }
}

/// Keeping the labels of a level, then those of a lower one, keeps those of the lower one.
pub proof fn lemma_tier_kept_compose(m: Map<Seq<char>, Seq<char>>, a: MetadataLevel, b: MetadataLevel)
    requires
        level_includes(b, a),
    ensures
        tier_kept(tier_kept(m, b), a) == tier_kept(m, a),
{
    assert(tier_kept(tier_kept(m, b), a) =~= tier_kept(m, a));
}

/// Writing two runs of labels, each of one level, is writing their concatenation.
pub proof fn lemma_all_in_tier_concat(
    a: Seq<(Seq<char>, Seq<char>)>,
    b: Seq<(Seq<char>, Seq<char>)>,
    t: MetadataLevel,
)
    requires
        all_in_tier(a, t),
        all_in_tier(b, t),
    ensures
        all_in_tier(a + b, t),
{
    assert forall|i: int| 0 <= i < (a + b).len() implies tier_level(#[trigger] (a + b)[i].0) == t by {
        if i < a.len() {
            assert((a + b)[i] == a[i]);
        } else {
            assert((a + b)[i] == b[i - a.len()]);
        }
    }
}

} // verus!

verus! {

/// Two label maps agree on label `k`: both lack it, or both have it with one value.
pub open spec fn agree_on(m1: Map<Seq<char>, Seq<char>>, m2: Map<Seq<char>, Seq<char>>, k: Seq<char>) -> bool {
    &&& m1.contains_key(k) == m2.contains_key(k)
    &&& m1.contains_key(k) ==> m1[k] == m2[k]
}

/// Every name in `pairs` satisfies `pred`.
pub open spec fn names_all(pairs: Seq<(Seq<char>, Seq<char>)>, pred: spec_fn(Seq<char>) -> bool) -> bool {
    forall|i: int| 0 <= i < pairs.len() ==> pred(#[trigger] pairs[i].0)
}

/// Writing pairs none of which is named `k` leaves label `k` as it was.
pub proof fn lemma_put_all_avoiding(m: Map<Seq<char>, Seq<char>>, pairs: Seq<(Seq<char>, Seq<char>)>, k: Seq<char>)
    requires
        forall|i: int| 0 <= i < pairs.len() ==> #[trigger] pairs[i].0 != k,
    ensures
        agree_on(put_all(m, pairs), m, k),
    decreases pairs.len(),
{
    if pairs.len() > 0 {
        let rest = pairs.drop_last();
        assert(pairs[pairs.len() - 1].0 != k);
        assert forall|i: int| 0 <= i < rest.len() implies #[trigger] rest[i].0 != k by {
            assert(rest[i] == pairs[i]);
        }
        lemma_put_all_avoiding(m, rest, k);
    }
}

/// Writing the same pairs into two maps that agree on `k` gives maps that agree on `k`.
pub proof fn lemma_put_all_keeps_agreement(
    m1: Map<Seq<char>, Seq<char>>,
    m2: Map<Seq<char>, Seq<char>>,
    pairs: Seq<(Seq<char>, Seq<char>)>,
    k: Seq<char>,
)
    requires
        agree_on(m1, m2, k),
    ensures
        agree_on(put_all(m1, pairs), put_all(m2, pairs), k),
    decreases pairs.len(),
{
    if pairs.len() > 0 {
        lemma_put_all_keeps_agreement(m1, m2, pairs.drop_last(), k);
    }
}

/// Names of labels that all belong to one level satisfy what every name of that level does.
pub proof fn lemma_names_all_from_level(
    pairs: Seq<(Seq<char>, Seq<char>)>,
    t: MetadataLevel,
    pred: spec_fn(Seq<char>) -> bool,
)
    requires
        all_in_tier(pairs, t),
        forall|k: Seq<char>| tier_level(k) == t ==> #[trigger] pred(k),
    ensures
        names_all(pairs, pred),
{
    assert forall|i: int| 0 <= i < pairs.len() implies pred(#[trigger] pairs[i].0) by {
        assert(tier_level(pairs[i].0) == t);
    }
}

/// The names of a concatenation are those of its two parts.
pub proof fn lemma_names_all_concat(
    a: Seq<(Seq<char>, Seq<char>)>,
    b: Seq<(Seq<char>, Seq<char>)>,
    pred: spec_fn(Seq<char>) -> bool,
)
    requires
        names_all(a, pred),
        names_all(b, pred),
    ensures
        names_all(a + b, pred),
{
    assert forall|i: int| 0 <= i < (a + b).len() implies pred(#[trigger] (a + b)[i].0) by {
        if i < a.len() {
            assert((a + b)[i] == a[i]);
        } else {
            assert((a + b)[i] == b[i - a.len()]);
        }
    }
}

} // verus!

verus! {

/// The value a label ends with is the one its last write gave it.
pub proof fn lemma_put_all_last_write(m: Map<Seq<char>, Seq<char>>, pairs: Seq<(Seq<char>, Seq<char>)>, i: int)
    requires
        0 <= i < pairs.len(),
        forall|j: int| i < j < pairs.len() ==> #[trigger] pairs[j].0 != pairs[i].0,
    ensures
        put_all(m, pairs).contains_key(pairs[i].0),
        put_all(m, pairs)[pairs[i].0] == pairs[i].1,
    decreases pairs.len(),
{
    if i < pairs.len() - 1 {
        let rest = pairs.drop_last();
        assert(pairs[pairs.len() - 1].0 != pairs[i].0);
        assert forall|j: int| i < j < rest.len() implies #[trigger] rest[j].0 != rest[i].0 by {
            assert(rest[j] == pairs[j]);
        }
        lemma_put_all_last_write(m, rest, i);
    }
}

} // verus!
