//! Discovery: which ECS tasks become scrape targets, with which address and
//! labels, and what the caches of one discovery pass hold.
use vstd::prelude::*;
use crate::config::Mode;
use crate::ecs::{
    clone_opt, docker_label, extract_fargate_private_ip, fargate_private_ip, opt_is, opt_text, tags_to_map,
    Cluster, ContainerDefinition, ContainerInstance, Ec2Instance, Service, Task, TaskDefinition,
};
use crate::labels::{
    aws_pairs, cluster_pairs, container_pairs, ec2_pairs, entry_pairs, network_pairs, service_pairs,
    task_pairs, LabelBuilder, Pairs,
};
use crate::level::{level_includes, MetadataLevel};
use crate::strmap::StrMap;
use crate::target::{address_text, label_text, put_all, Labels, Target};
use crate::text::{decimal, lemma_parse_u16_of_decimal, parse_u16, parse_u16_spec, str_eq};

verus! {

// ---------------------------------------------------------------------------
// Errors
// ---------------------------------------------------------------------------

/// Why discovery of a cluster, or of all clusters, failed.
#[derive(Debug)]
pub enum DiscoveryError {
    /// An ECS call failed.
    EcsError(String),
    /// An EC2 call failed.
    Ec2Error(String),
    /// An STS call failed.
    StsError(String),
    /// The cluster does not exist.
    ClusterNotFound(String),
    /// A task names no container instance (or no task definition).
    NoContainerInstance,
    /// An EC2 instance reports no private IP.
    NoPrivateIp,
    /// Every configured cluster failed.
    AllClustersFailed,
}

/// The message of a discovery error.
pub open spec fn discovery_error_text(e: DiscoveryError) -> Seq<char> {
    match e {
        DiscoveryError::EcsError(s) => "AWS ECS API error: "@ + s@,
        DiscoveryError::Ec2Error(s) => "AWS EC2 API error: "@ + s@,
        DiscoveryError::StsError(s) => "AWS STS API error: "@ + s@,
        DiscoveryError::ClusterNotFound(s) => "Cluster not found: "@ + s@,
        DiscoveryError::NoContainerInstance => "Task has no container instance"@,
        DiscoveryError::NoPrivateIp => "EC2 instance has no private IP"@,
        DiscoveryError::AllClustersFailed => "All clusters failed discovery"@,
    }
}

impl DiscoveryError {
    /// The message of the error.
    pub fn message(&self) -> (r: String)
        ensures
            r@ == discovery_error_text(*self),
    {
        match self {
            DiscoveryError::EcsError(s) => crate::text::cat("AWS ECS API error: ", s.as_str()),
            DiscoveryError::Ec2Error(s) => crate::text::cat("AWS EC2 API error: ", s.as_str()),
            DiscoveryError::StsError(s) => crate::text::cat("AWS STS API error: ", s.as_str()),
            DiscoveryError::ClusterNotFound(s) => crate::text::cat("Cluster not found: ", s.as_str()),
            DiscoveryError::NoContainerInstance => "Task has no container instance".to_owned(),
            DiscoveryError::NoPrivateIp => "EC2 instance has no private IP".to_owned(),
            DiscoveryError::AllClustersFailed => "All clusters failed discovery".to_owned(),
        }
    }
}

// ---------------------------------------------------------------------------
// EC2 instances and the caches of a discovery pass
// ---------------------------------------------------------------------------

/// What discovery keeps of the EC2 instance behind a container instance.
pub struct Ec2InstanceInfo {
    pub private_ip: String,
    pub public_ip: Option<String>,
    pub availability_zone: Option<String>,
    pub subnet_id: Option<String>,
    pub container_instance_arn: String,
    pub ec2_instance_id: String,
    pub ec2_instance_type: Option<String>,
    pub ec2_tags: Labels,
}

/// Whether two instance records agree on everything but the container
/// instance and instance ids.
pub open spec fn same_instance_facts(a: Ec2InstanceInfo, b: Ec2InstanceInfo) -> bool {
    &&& a.private_ip == b.private_ip
    &&& a.public_ip == b.public_ip
    &&& a.availability_zone == b.availability_zone
    &&& a.subnet_id == b.subnet_id
    &&& a.ec2_instance_type == b.ec2_instance_type
    &&& a.ec2_tags@ == b.ec2_tags@
    &&& a.ec2_tags.keys() == b.ec2_tags.keys()
}

/// The cached record of the EC2 instance behind a container instance, with
/// the container instance and instance ids of this lookup.
pub fn ec2_instance_from_cache(
    container_instance_to_ec2_id: &StrMap<String>,
    ec2_cache: &StrMap<Ec2InstanceInfo>,
    container_instance_arn: &str,
) -> (r: Option<Ec2InstanceInfo>)
    ensures
        r is Some <==> container_instance_to_ec2_id@.contains_key(container_instance_arn@)
            && ec2_cache@.contains_key(container_instance_to_ec2_id@[container_instance_arn@]@),
        r is Some ==> {
            let id = container_instance_to_ec2_id@[container_instance_arn@];
            let info = r.unwrap();
            &&& info.container_instance_arn@ == container_instance_arn@
            &&& info.ec2_instance_id == id
            &&& same_instance_facts(info, ec2_cache@[id@])
        },
{
    let id = match container_instance_to_ec2_id.get(container_instance_arn) {
        Some(id) => id,
        None => return None,
    };
    let cached = match ec2_cache.get(id.as_str()) {
        Some(c) => c,
        None => return None,
    };
    Some(
        Ec2InstanceInfo {
            private_ip: cached.private_ip.clone(),
            public_ip: clone_opt(&cached.public_ip),
            availability_zone: clone_opt(&cached.availability_zone),
            subnet_id: clone_opt(&cached.subnet_id),
            container_instance_arn: container_instance_arn.to_owned(),
            ec2_instance_id: id.clone(),
            ec2_instance_type: clone_opt(&cached.ec2_instance_type),
            ec2_tags: cached.ec2_tags.duplicate(),
        },
    )
}

/// Whether `a` occurs in `s`.
pub open spec fn occurs(s: Seq<Seq<char>>, a: Seq<char>) -> bool {
    exists|i: int| 0 <= i < s.len() && #[trigger] s[i] == a
}

/// The container instance ARNs that the cache does not map yet, each once,
/// in the order of their first occurrence.
pub open spec fn uncached_arns(cache: Map<Seq<char>, String>, arns: Seq<Seq<char>>) -> Seq<
    Seq<char>,
>
    decreases arns.len(),
{
    if arns.len() == 0 {
        Seq::empty()
    } else {
        let rest = uncached_arns(cache, arns.drop_last());
        let a = arns.last();
        if cache.contains_key(a) || occurs(rest, a) {
            rest
        } else {
            rest.push(a)
        }
    }
}

fn contains_text(v: &Vec<String>, s: &str) -> (r: bool)
    ensures
        r == occurs(v@.map_values(|x: String| x@), s@),
{
    let ghost vs = v@.map_values(|x: String| x@);
    let mut i: usize = 0;
    while i < v.len()
        invariant
            0 <= i <= v@.len(),
            vs == v@.map_values(|x: String| x@),
            forall|j: int| 0 <= j < i ==> #[trigger] vs[j] != s@,
        decreases v.len() - i,
    {
        if str_eq(v[i].as_str(), s) {
            assert(vs[i as int] == s@);
            return true;
        }
        i = i + 1;
    }
    false
}

/// The container instance ARNs whose EC2 instance ids must still be looked up.
pub fn missing_container_instance_arns(
    container_instance_to_ec2_id: &StrMap<String>,
    container_instance_arns: &Vec<String>,
) -> (r: Vec<String>)
    ensures
        r@.map_values(|x: String| x@) == uncached_arns(
            container_instance_to_ec2_id@,
            container_instance_arns@.map_values(|x: String| x@),
        ),
{
    let ghost arns = container_instance_arns@.map_values(|x: String| x@);
    let mut missing: Vec<String> = Vec::new();
    let mut i: usize = 0;
    while i < container_instance_arns.len()
        invariant
            0 <= i <= container_instance_arns@.len(),
            arns == container_instance_arns@.map_values(|x: String| x@),
            missing@.map_values(|x: String| x@) == uncached_arns(
                container_instance_to_ec2_id@,
                arns.take(i as int),
            ),
        decreases container_instance_arns.len() - i,
    {
        let arn = &container_instance_arns[i];
        assert(arns.take(i + 1).drop_last() =~= arns.take(i as int));
        assert(arns.take(i + 1).last() == arn@);
        let ghost before = missing@.map_values(|x: String| x@);
        if !container_instance_to_ec2_id.contains_key(arn.as_str()) && !contains_text(
            &missing,
            arn.as_str(),
        ) {
            missing.push(arn.clone());
            assert(missing@.map_values(|x: String| x@) =~= before.push(arn@));
        }
        i = i + 1;
    }
    assert(arns.take(container_instance_arns@.len() as int) =~= arns);
    missing
}

/// The EC2 instance ids, mapped from the container instance ARNs, whose
/// instances are not cached yet, each once, in the order of their first
/// occurrence.
pub open spec fn uncached_instance_ids(
    to_ec2: Map<Seq<char>, String>,
    ec2_cache: Map<Seq<char>, Ec2InstanceInfo>,
    arns: Seq<Seq<char>>,
) -> Seq<Seq<char>>
    decreases arns.len(),
{
    if arns.len() == 0 {
        Seq::empty()
    } else {
        let rest = uncached_instance_ids(to_ec2, ec2_cache, arns.drop_last());
        let a = arns.last();
        if !to_ec2.contains_key(a) {
            rest
        } else {
            let id = to_ec2[a]@;
            if ec2_cache.contains_key(id) || occurs(rest, id) {
                rest
            } else {
                rest.push(id)
            }
        }
    }
}

/// The EC2 instances that must still be described.
pub fn missing_ec2_instance_ids(
    container_instance_to_ec2_id: &StrMap<String>,
    ec2_cache: &StrMap<Ec2InstanceInfo>,
    container_instance_arns: &Vec<String>,
) -> (r: Vec<String>)
    ensures
        r@.map_values(|x: String| x@) == uncached_instance_ids(
            container_instance_to_ec2_id@,
            ec2_cache@,
            container_instance_arns@.map_values(|x: String| x@),
        ),
{
    let ghost arns = container_instance_arns@.map_values(|x: String| x@);
    let mut missing: Vec<String> = Vec::new();
    let mut i: usize = 0;
    while i < container_instance_arns.len()
        invariant
            0 <= i <= container_instance_arns@.len(),
            arns == container_instance_arns@.map_values(|x: String| x@),
            missing@.map_values(|x: String| x@) == uncached_instance_ids(
                container_instance_to_ec2_id@,
                ec2_cache@,
                arns.take(i as int),
            ),
        decreases container_instance_arns.len() - i,
    {
        let arn = &container_instance_arns[i];
        assert(arns.take(i + 1).drop_last() =~= arns.take(i as int));
        assert(arns.take(i + 1).last() == arn@);
        let ghost before = missing@.map_values(|x: String| x@);
        match container_instance_to_ec2_id.get(arn.as_str()) {
            None => {},
            Some(id) => {
                if !ec2_cache.contains_key(id.as_str()) && !contains_text(&missing, id.as_str()) {
                    missing.push(id.clone());
                    assert(missing@.map_values(|x: String| x@) =~= before.push(id@));
                }
            },
        }
        i = i + 1;
    }
    assert(arns.take(container_instance_arns@.len() as int) =~= arns);
    missing
}

/// Appends a page of a listing and hands back the token of the next page.
pub fn apply_page(items: &mut Vec<String>, page_items: &Vec<String>, next_token: Option<&str>) -> (r:
    Option<String>)
    ensures
        final(items)@ == old(items)@ + page_items@,
        match next_token {
            Some(t) => r is Some && r.unwrap()@ == t@,
            None => r is None,
        },
{
    let mut i: usize = 0;
    let ghost start = items@;
    while i < page_items.len()
        invariant
            0 <= i <= page_items@.len(),
            items@ == start + page_items@.take(i as int),
        decreases page_items.len() - i,
    {
        items.push(page_items[i].clone());
        assert(page_items@.take(i + 1) =~= page_items@.take(i as int).push(page_items@[i as int]));
        assert(start + page_items@.take(i + 1) =~= (start + page_items@.take(i as int)).push(
            page_items@[i as int],
        ));
        i = i + 1;
    }
    assert(page_items@.take(page_items@.len() as int) =~= page_items@);
    match next_token {
        Some(t) => Some(t.to_owned()),
        None => None,
    }
}

/// The targets of the clusters that succeeded, in cluster order.
pub open spec fn succeeded_targets(rs: Seq<Result<Vec<Target>, DiscoveryError>>) -> Seq<Target>
    decreases rs.len(),
{
    if rs.len() == 0 {
        Seq::empty()
    } else {
        let rest = succeeded_targets(rs.drop_last());
        match rs.last() {
            Ok(v) => rest + v@,
            Err(_) => rest,
        }
    }
}

/// Whether at least one cluster succeeded.
pub open spec fn any_succeeded(rs: Seq<Result<Vec<Target>, DiscoveryError>>) -> bool {
    exists|i: int| 0 <= i < rs.len() && (#[trigger] rs[i]) is Ok
}

/// The outcome of discovering several clusters: every target of the clusters
/// that succeeded, unless clusters were tried and none succeeded.
pub fn aggregate_cluster_results(per_cluster: Vec<Result<Vec<Target>, DiscoveryError>>) -> (r:
    Result<Vec<Target>, DiscoveryError>)
    ensures
        per_cluster@.len() > 0 && !any_succeeded(per_cluster@) ==> r matches Err(
            DiscoveryError::AllClustersFailed,
        ),
        per_cluster@.len() == 0 || any_succeeded(per_cluster@) ==> r is Ok && r.unwrap()@
            == succeeded_targets(per_cluster@),
{
    let attempted = per_cluster.len();
    let ghost all = per_cluster@;
    let mut all_targets: Vec<Target> = Vec::new();
    let mut any = false;
    for result in it: per_cluster.into_iter()
        invariant
            it.seq() == all,
            all_targets@ == succeeded_targets(all.take(it.index())),
            any == any_succeeded(all.take(it.index())),
    {
        let ghost i = it.index();
        assert(all.take(i + 1).drop_last() =~= all.take(i));
        assert(all.take(i + 1).last() == result);
        proof {
            if any_succeeded(all.take(i)) {
                let j = choose|j: int| 0 <= j < all.take(i).len() && (#[trigger] all.take(i)[j]) is Ok;
                assert(all.take(i + 1)[j] == all.take(i)[j]);
            }
            if result is Ok {
                assert(all.take(i + 1)[i] == result);
            }
            if any_succeeded(all.take(i + 1)) && !(result is Ok) {
                let j = choose|j: int| 0 <= j < all.take(i + 1).len() && (#[trigger] all.take(i + 1)[j]) is Ok;
                assert(j != i);
                assert(all.take(i)[j] == all.take(i + 1)[j]);
            }
        }
        match result {
            Ok(targets) => {
                any = true;
                let mut t = targets;
                all_targets.append(&mut t);
            },
            Err(_) => {},
        }
    }
    assert(all.take(all.len() as int) =~= all);
    if attempted > 0 && !any {
        return Err(DiscoveryError::AllClustersFailed);
    }
    Ok(all_targets)
}

// ---------------------------------------------------------------------------
// Targets of tasks
// ---------------------------------------------------------------------------

/// The port a container asks to be scraped on: its `prometheus.io/scrape`
/// label is `true` and its `prometheus.io/port` label is a valid port.
pub open spec fn scrape_port(def: ContainerDefinition) -> Option<u16> {
    match def.docker_labels {
        Some(m) => if m@.contains_key("prometheus.io/scrape"@) && m@["prometheus.io/scrape"@]@
            == "true"@ && m@.contains_key("prometheus.io/port"@) {
            parse_u16_spec(m@["prometheus.io/port"@]@)
        } else {
            None
        },
        None => None,
    }
}

/// A container is scraped only when its `prometheus.io/scrape` docker label
/// is exactly `true` and it names a port in `prometheus.io/port`.
pub proof fn lemma_scraped_only_when_asked(def: ContainerDefinition)
    ensures
        scrape_port(def) is Some ==> (def.docker_labels matches Some(m) && m@.contains_key(
            "prometheus.io/scrape"@,
        ) && m@["prometheus.io/scrape"@]@ == "true"@ && m@.contains_key("prometheus.io/port"@)),
{
}

/// A container whose `prometheus.io/scrape` docker label is `true` and whose
/// `prometheus.io/port` docker label is a port written in decimal is scraped
/// on that port.
pub proof fn lemma_scraped_on_its_port(def: ContainerDefinition, port: u16)
    requires
        def.docker_labels matches Some(m) && m@.contains_key("prometheus.io/scrape"@)
            && m@["prometheus.io/scrape"@]@ == "true"@ && m@.contains_key("prometheus.io/port"@)
            && m@["prometheus.io/port"@]@ == decimal(port as nat),
    ensures
        scrape_port(def) == Some(port),
{
    lemma_parse_u16_of_decimal(port);
}

/// The port a container asks to be scraped on, if it asks to be scraped.
pub fn container_scrape_port(def: &ContainerDefinition) -> (r: Option<u16>)
    ensures
        r == scrape_port(*def),
        r is Some ==> (def.docker_labels matches Some(m) && m@.contains_key("prometheus.io/scrape"@)
            && m@["prometheus.io/scrape"@]@ == "true"@ && m@.contains_key("prometheus.io/port"@)),
{
    proof {
        lemma_scraped_only_when_asked(*def);
    }
    match docker_label(def, "prometheus.io/scrape") {
        Some(v) => {
            if !str_eq(v.as_str(), "true") {
                return None;
            }
        },
        None => return None,
    }
    match docker_label(def, "prometheus.io/port") {
        Some(p) => parse_u16(p.as_str()),
        None => None,
    }
}

/// A target as text: its addresses and its labels.
pub type TargetView = (Seq<Seq<char>>, Map<Seq<char>, Seq<char>>);

/// The text of a target.
pub open spec fn target_view(t: Target) -> TargetView {
    (t.targets@.map_values(|s: String| s@), label_text(t.labels))
}

/// The text of a list of targets.
pub open spec fn targets_view(ts: Seq<Target>) -> Seq<TargetView> {
    ts.map_values(|t: Target| target_view(t))
}

/// The labels of a discovered container, at the `aws` level: container,
/// network, task, service, cluster, account and instance labels, in that
/// order.
pub open spec fn discovered_labels(
    def: ContainerDefinition,
    port: u16,
    ip: Seq<char>,
    network_mode: Seq<char>,
    task: Task,
    td: TaskDefinition,
    service: Service,
    cluster: Cluster,
    region: Seq<char>,
    account_id: Seq<char>,
    subnet: Option<Seq<char>>,
    az: Option<Seq<char>>,
    ec2: Pairs,
) -> Map<Seq<char>, Seq<char>> {
    put_all(
        Map::empty(),
        container_pairs(def, port) + network_pairs(ip, network_mode, subnet) + task_pairs(task, td)
            + service_pairs(service) + cluster_pairs(cluster) + (aws_pairs(region, account_id, az)
            + ec2),
    )
}

/// The labels of the EC2 instance `e` behind container instance `arn`.
pub open spec fn instance_pairs(arn: Seq<char>, id: Seq<char>, e: Ec2InstanceInfo) -> Pairs {
    ec2_pairs(
        arn,
        id,
        opt_text(e.ec2_instance_type),
        e.private_ip@,
        opt_text(e.public_ip),
        e.ec2_tags,
    )
}

fn opt_str(o: &Option<String>) -> (r: Option<&str>)
    ensures
        match r {
            Some(s) => opt_text(*o) == Some(s@),
            None => o is None,
        },
{
    match o {
        Some(s) => Some(s.as_str()),
        None => None,
    }
}

proof fn lemma_aws_level_carries_all()
    ensures
        level_includes(MetadataLevel::Aws, MetadataLevel::Container),
        level_includes(MetadataLevel::Aws, MetadataLevel::Task),
        level_includes(MetadataLevel::Aws, MetadataLevel::Service),
        level_includes(MetadataLevel::Aws, MetadataLevel::Cluster),
        level_includes(MetadataLevel::Aws, MetadataLevel::Aws),
{
}

/// The target of a scraped container of a Fargate task, in proxy mode.
fn fargate_target(
    def: &ContainerDefinition,
    port: u16,
    ip: &str,
    task: &Task,
    td: &TaskDefinition,
    service: &Service,
    cluster: &Cluster,
    region: &str,
    account_id: &str,
) -> (r: Target)
    ensures
        target_view(r) == (
            seq![address_text(ip@, port)],
            discovered_labels(
                *def,
                port,
                ip@,
                "awsvpc"@,
                *task,
                *td,
                *service,
                *cluster,
                region@,
                account_id@,
                None,
                None,
                Seq::empty(),
            ),
        ),
{
    let b = LabelBuilder::new(MetadataLevel::Aws).with_container(def, port).with_network(
        ip,
        "awsvpc",
        None,
    ).with_task(task, td).with_service(service).with_cluster(cluster).with_aws(
        region,
        account_id,
        None,
    );
    proof {
        lemma_aws_level_carries_all();
    }
    let labels = b.build();
    let t = Target::new(ip, port, labels);
    assert(t.targets@.map_values(|s: String| s@) =~= seq![address_text(ip@, port)]);
    assert(b.aws_part() + b.ec2_part() =~= b.aws_part());
    t
}

/// The target of a scraped container of an EC2 task, on instance `info`.
fn ec2_target(
    def: &ContainerDefinition,
    port: u16,
    ip: &str,
    network_mode: &str,
    task: &Task,
    td: &TaskDefinition,
    service: &Service,
    cluster: &Cluster,
    region: &str,
    account_id: &str,
    info: &Ec2InstanceInfo,
) -> (r: Target)
    ensures
        target_view(r) == (
            seq![address_text(ip@, port)],
            discovered_labels(
                *def,
                port,
                ip@,
                network_mode@,
                *task,
                *td,
                *service,
                *cluster,
                region@,
                account_id@,
                opt_text(info.subnet_id),
                opt_text(info.availability_zone),
                instance_pairs(info.container_instance_arn@, info.ec2_instance_id@, *info),
            ),
        ),
{
    let tags = info.ec2_tags.duplicate();
    let b = LabelBuilder::new(MetadataLevel::Aws).with_container(def, port).with_network(
        ip,
        network_mode,
        opt_str(&info.subnet_id),
    ).with_task(task, td).with_service(service).with_cluster(cluster).with_aws(
        region,
        account_id,
        opt_str(&info.availability_zone),
    ).with_ec2_instance(
        info.container_instance_arn.as_str(),
        info.ec2_instance_id.as_str(),
        opt_str(&info.ec2_instance_type),
        info.private_ip.as_str(),
        opt_str(&info.public_ip),
        tags,
    );
    proof {
        lemma_aws_level_carries_all();
    }
    assert(entry_pairs(tags) =~= entry_pairs(info.ec2_tags));
    let labels = b.build();
    let t = Target::new(ip, port, labels);
    assert(t.targets@.map_values(|s: String| s@) =~= seq![address_text(ip@, port)]);
    t
}

/// The targets of the scraped containers of a Fargate task, in container order.
pub open spec fn fargate_views(
    defs: Seq<ContainerDefinition>,
    ip: Seq<char>,
    task: Task,
    td: TaskDefinition,
    service: Service,
    cluster: Cluster,
    region: Seq<char>,
    account_id: Seq<char>,
) -> Seq<TargetView>
    decreases defs.len(),
{
    if defs.len() == 0 {
        Seq::empty()
    } else {
        let rest = fargate_views(defs.drop_last(), ip, task, td, service, cluster, region, account_id);
        let d = defs.last();
        match scrape_port(d) {
            Some(p) => rest.push(
                (
                    seq![address_text(ip, p)],
                    discovered_labels(
                        d,
                        p,
                        ip,
                        "awsvpc"@,
                        task,
                        td,
                        service,
                        cluster,
                        region,
                        account_id,
                        None,
                        None,
                        Seq::empty(),
                    ),
                ),
            ),
            None => rest,
        }
    }
}

/// The container instance behind a task, with its EC2 instance id and the
/// cached record of that instance, when both lookups succeed.
pub open spec fn task_instance(
    task: Task,
    to_ec2: Map<Seq<char>, String>,
    ec2_cache: Map<Seq<char>, Ec2InstanceInfo>,
) -> Option<(Seq<char>, Seq<char>, Ec2InstanceInfo)> {
    match task.container_instance_arn {
        Some(a) => if to_ec2.contains_key(a@) && ec2_cache.contains_key(to_ec2[a@]@) {
            Some((a@, to_ec2[a@]@, ec2_cache[to_ec2[a@]@]))
        } else {
            None
        },
        None => None,
    }
}

/// The network mode of a task definition; `bridge` when it names none.
pub open spec fn network_mode_of(td: TaskDefinition) -> Seq<char> {
    match td.network_mode {
        Some(m) => m@,
        None => "bridge"@,
    }
}

/// The address of an EC2 task's target: the task's own interface in
/// `awsvpc` mode, the instance's private IP otherwise.
pub open spec fn ec2_target_ip(task: Task, network_mode: Seq<char>, e: Ec2InstanceInfo) -> Option<
    Seq<char>,
> {
    if network_mode == "awsvpc"@ {
        fargate_private_ip(task)
    } else {
        Some(e.private_ip@)
    }
}

/// The targets of the scraped containers of an EC2 task, in container order:
/// a container is skipped when its instance is unknown or it has no address.
pub open spec fn ec2_views(
    defs: Seq<ContainerDefinition>,
    task: Task,
    td: TaskDefinition,
    service: Service,
    cluster: Cluster,
    region: Seq<char>,
    account_id: Seq<char>,
    inst: Option<(Seq<char>, Seq<char>, Ec2InstanceInfo)>,
) -> Seq<TargetView>
    decreases defs.len(),
{
    if defs.len() == 0 {
        Seq::empty()
    } else {
        let rest = ec2_views(defs.drop_last(), task, td, service, cluster, region, account_id, inst);
        let d = defs.last();
        match (scrape_port(d), inst) {
            (Some(p), Some((arn, id, e))) => match ec2_target_ip(task, network_mode_of(td), e) {
                Some(ip) => rest.push(
                    (
                        seq![address_text(ip, p)],
                        discovered_labels(
                            d,
                            p,
                            ip,
                            network_mode_of(td),
                            task,
                            td,
                            service,
                            cluster,
                            region,
                            account_id,
                            opt_text(e.subnet_id),
                            opt_text(e.availability_zone),
                            instance_pairs(arn, id, e),
                        ),
                    ),
                ),
                None => rest,
            },
            _ => rest,
        }
    }
}

/// Whether a task has stopped or is stopping.
pub open spec fn is_stopping(task: Task) -> bool {
    opt_text(task.last_status) == Some("STOPPED"@) || opt_text(task.last_status) == Some(
        "STOPPING"@,
    )
}

/// Whether a task is a running EC2 task that names no task definition,
/// which fails the discovery of its cluster.
pub open spec fn lacks_definition(task: Task) -> bool {
    opt_text(task.launch_type) == Some("EC2"@) && !is_stopping(task) && task.task_definition_arn is None
}

/// The targets of one task.  EC2 tasks that are running are scraped with
/// their instance's metadata; Fargate tasks only in proxy mode, at the
/// address of their network interface; other tasks not at all.  A task
/// whose task definition is not known yields nothing.
pub open spec fn task_views(
    mode: Mode,
    region: Seq<char>,
    account_id: Seq<char>,
    cluster: Cluster,
    service: Service,
    task: Task,
    defs: Map<Seq<char>, TaskDefinition>,
    to_ec2: Map<Seq<char>, String>,
    ec2_cache: Map<Seq<char>, Ec2InstanceInfo>,
) -> Seq<TargetView> {
    if opt_text(task.launch_type) != Some("EC2"@) {
        if mode == Mode::Proxy && opt_text(task.launch_type) == Some("FARGATE"@) {
            match (fargate_private_ip(task), task.task_definition_arn) {
                (Some(ip), Some(a)) => if defs.contains_key(a@) {
                    fargate_views(
                        defs[a@].container_definitions@,
                        ip,
                        task,
                        defs[a@],
                        service,
                        cluster,
                        region,
                        account_id,
                    )
                } else {
                    Seq::empty()
                },
                _ => Seq::empty(),
            }
        } else {
            Seq::empty()
        }
    } else if is_stopping(task) {
        Seq::empty()
    } else {
        match task.task_definition_arn {
            Some(a) => if defs.contains_key(a@) {
                ec2_views(
                    defs[a@].container_definitions@,
                    task,
                    defs[a@],
                    service,
                    cluster,
                    region,
                    account_id,
                    task_instance(task, to_ec2, ec2_cache),
                )
            } else {
                Seq::empty()
            },
            None => Seq::empty(),
        }
    }
}

fn fargate_task_targets(
    ip: &str,
    task: &Task,
    td: &TaskDefinition,
    service: &Service,
    cluster: &Cluster,
    region: &str,
    account_id: &str,
    out: &mut Vec<Target>,
)
    ensures
        targets_view(final(out)@) == targets_view(old(out)@) + fargate_views(
            td.container_definitions@,
            ip@,
            *task,
            *td,
            *service,
            *cluster,
            region@,
            account_id@,
        ),
{
    let defs = &td.container_definitions;
    let mut i: usize = 0;
    let ghost start = targets_view(out@);
    assert(defs@.take(0) =~= Seq::<ContainerDefinition>::empty());
    assert(start + Seq::<TargetView>::empty() =~= start);
    while i < defs.len()
        invariant
            0 <= i <= defs@.len(),
            defs@ == td.container_definitions@,
            start == targets_view(old(out)@),
            targets_view(out@) == start + fargate_views(
                defs@.take(i as int),
                ip@,
                *task,
                *td,
                *service,
                *cluster,
                region@,
                account_id@,
            ),
        decreases defs.len() - i,
    {
        let d = &defs[i];
        assert(defs@.take(i + 1).drop_last() =~= defs@.take(i as int));
        assert(defs@.take(i + 1).last() == *d);
        let ghost before = targets_view(out@);
        match container_scrape_port(d) {
            Some(port) => {
                let t = fargate_target(d, port, ip, task, td, service, cluster, region, account_id);
                out.push(t);
                assert(targets_view(out@) =~= before.push(target_view(t)));
            },
            None => {},
        }
        i = i + 1;
    }
    assert(defs@.take(defs@.len() as int) =~= defs@);
}

fn ec2_task_targets(
    task: &Task,
    td: &TaskDefinition,
    service: &Service,
    cluster: &Cluster,
    region: &str,
    account_id: &str,
    inst: Option<&Ec2InstanceInfo>,
    out: &mut Vec<Target>,
)
    ensures
        targets_view(final(out)@) == targets_view(old(out)@) + ec2_views(
            td.container_definitions@,
            *task,
            *td,
            *service,
            *cluster,
            region@,
            account_id@,
            match inst {
                Some(e) => Some((e.container_instance_arn@, e.ec2_instance_id@, *e)),
                None => None,
            },
        ),
{
    let ghost gi = match inst {
        Some(e) => Some((e.container_instance_arn@, e.ec2_instance_id@, *e)),
        None => None,
    };
    let network_mode = match &td.network_mode {
        Some(m) => m.clone(),
        None => "bridge".to_owned(),
    };
    assert(network_mode@ == network_mode_of(*td));
    let awsvpc = str_eq(network_mode.as_str(), "awsvpc");
    let eni_ip = extract_fargate_private_ip(task);
    let defs = &td.container_definitions;
    let mut i: usize = 0;
    let ghost start = targets_view(out@);
    assert(start + Seq::<TargetView>::empty() =~= start);
    while i < defs.len()
        invariant
            0 <= i <= defs@.len(),
            defs@ == td.container_definitions@,
            network_mode@ == network_mode_of(*td),
            awsvpc == (network_mode@ == "awsvpc"@),
            opt_text(eni_ip) == fargate_private_ip(*task),
            gi == match inst {
                Some(e) => Some((e.container_instance_arn@, e.ec2_instance_id@, *e)),
                None => None,
            },
            start == targets_view(old(out)@),
            targets_view(out@) == start + ec2_views(
                defs@.take(i as int),
                *task,
                *td,
                *service,
                *cluster,
                region@,
                account_id@,
                gi,
            ),
        decreases defs.len() - i,
    {
        let d = &defs[i];
        assert(defs@.take(i + 1).drop_last() =~= defs@.take(i as int));
        assert(defs@.take(i + 1).last() == *d);
        let ghost before = targets_view(out@);
        match (container_scrape_port(d), inst) {
            (Some(port), Some(info)) => {
                let ip: Option<&str> = if awsvpc {
                    opt_str(&eni_ip)
                } else {
                    Some(info.private_ip.as_str())
                };
                match ip {
                    Some(ip) => {
                        let t = ec2_target(
                            d,
                            port,
                            ip,
                            network_mode.as_str(),
                            task,
                            td,
                            service,
                            cluster,
                            region,
                            account_id,
                            info,
                        );
                        out.push(t);
                        assert(targets_view(out@) =~= before.push(target_view(t)));
                    },
                    None => {},
                }
            },
            _ => {},
        }
        i = i + 1;
    }
    assert(defs@.take(defs@.len() as int) =~= defs@);
}

/// Appends the targets of one task.
fn task_targets(
    mode: Mode,
    region: &str,
    account_id: &str,
    cluster: &Cluster,
    service: &Service,
    task: &Task,
    task_defs: &StrMap<TaskDefinition>,
    container_instance_to_ec2_id: &StrMap<String>,
    ec2_cache: &StrMap<Ec2InstanceInfo>,
    out: &mut Vec<Target>,
)
    ensures
        targets_view(final(out)@) == targets_view(old(out)@) + task_views(
            mode,
            region@,
            account_id@,
            *cluster,
            *service,
            *task,
            task_defs@,
            container_instance_to_ec2_id@,
            ec2_cache@,
        ),
{
    let ghost start = targets_view(out@);
    assert(start + Seq::<TargetView>::empty() =~= start);
    if !opt_is(&task.launch_type, "EC2") {
        if mode == Mode::Proxy && opt_is(&task.launch_type, "FARGATE") {
            let ip = extract_fargate_private_ip(task);
            match (&ip, &task.task_definition_arn) {
                (Some(ip), Some(a)) => match task_defs.get(a.as_str()) {
                    Some(td) => fargate_task_targets(
                        ip.as_str(),
                        task,
                        td,
                        service,
                        cluster,
                        region,
                        account_id,
                        out,
                    ),
                    None => {},
                },
                _ => {},
            }
        }
        return;
    }
    if opt_is(&task.last_status, "STOPPED") || opt_is(&task.last_status, "STOPPING") {
        return;
    }
    match &task.task_definition_arn {
        Some(a) => match task_defs.get(a.as_str()) {
            Some(td) => {
                let inst = match &task.container_instance_arn {
                    Some(ci) => ec2_instance_from_cache(
                        container_instance_to_ec2_id,
                        ec2_cache,
                        ci.as_str(),
                    ),
                    None => None,
                };
                let ghost gi = task_instance(*task, container_instance_to_ec2_id@, ec2_cache@);
                let ghost ei = match &inst {
                    Some(e) => Some((e.container_instance_arn@, e.ec2_instance_id@, *e)),
                    None => None,
                };
                let ghost before = targets_view(out@);
                match &inst {
                    Some(info) => ec2_task_targets(
                        task,
                        td,
                        service,
                        cluster,
                        region,
                        account_id,
                        Some(info),
                        out,
                    ),
                    None => ec2_task_targets(
                        task,
                        td,
                        service,
                        cluster,
                        region,
                        account_id,
                        None,
                        out,
                    ),
                }
                proof {
                    lemma_ec2_views_same_instance(
                        td.container_definitions@,
                        *task,
                        *td,
                        *service,
                        *cluster,
                        region@,
                        account_id@,
                        ei,
                        gi,
                    );
                }
            },
            None => {},
        },
        None => {},
    }
}

/// Instance records that agree on everything a target shows give the same targets.
proof fn lemma_ec2_views_same_instance(
    defs: Seq<ContainerDefinition>,
    task: Task,
    td: TaskDefinition,
    service: Service,
    cluster: Cluster,
    region: Seq<char>,
    account_id: Seq<char>,
    a: Option<(Seq<char>, Seq<char>, Ec2InstanceInfo)>,
    b: Option<(Seq<char>, Seq<char>, Ec2InstanceInfo)>,
)
    requires
        a is Some <==> b is Some,
        a is Some ==> {
            let (x1, y1, e1) = a.unwrap();
            let (x2, y2, e2) = b.unwrap();
            x1 == x2 && y1 == y2 && same_instance_facts(e1, e2)
        },
    ensures
        ec2_views(defs, task, td, service, cluster, region, account_id, a) == ec2_views(
            defs,
            task,
            td,
            service,
            cluster,
            region,
            account_id,
            b,
        ),
    decreases defs.len(),
{
    if defs.len() > 0 {
        lemma_ec2_views_same_instance(
            defs.drop_last(),
            task,
            td,
            service,
            cluster,
            region,
            account_id,
            a,
            b,
        );
        if a is Some {
            let (x1, y1, e1) = a.unwrap();
            let (x2, y2, e2) = b.unwrap();
            assert(entry_pairs(e1.ec2_tags) =~= entry_pairs(e2.ec2_tags));
            assert(instance_pairs(x1, y1, e1) == instance_pairs(x2, y2, e2));
        }
    }
}

/// The targets of a list of tasks, in task order.
pub open spec fn batch_views(
    mode: Mode,
    region: Seq<char>,
    account_id: Seq<char>,
    cluster: Cluster,
    service: Service,
    tasks: Seq<Task>,
    defs: Map<Seq<char>, TaskDefinition>,
    to_ec2: Map<Seq<char>, String>,
    ec2_cache: Map<Seq<char>, Ec2InstanceInfo>,
) -> Seq<TargetView>
    decreases tasks.len(),
{
    if tasks.len() == 0 {
        Seq::empty()
    } else {
        batch_views(mode, region, account_id, cluster, service, tasks.drop_last(), defs, to_ec2, ec2_cache)
            + task_views(mode, region, account_id, cluster, service, tasks.last(), defs, to_ec2, ec2_cache)
    }
}

/// The targets of a batch of described tasks of one service, given the task
/// definitions and instances that were looked up for them.  A running EC2
/// task that names no task definition fails the batch.
pub fn batch_targets(
    mode: Mode,
    region: &str,
    account_id: &str,
    cluster: &Cluster,
    service: &Service,
    tasks: &Vec<Task>,
    task_defs: &StrMap<TaskDefinition>,
    container_instance_to_ec2_id: &StrMap<String>,
    ec2_cache: &StrMap<Ec2InstanceInfo>,
) -> (r: Result<Vec<Target>, DiscoveryError>)
    ensures
        (exists|i: int| 0 <= i < tasks@.len() && lacks_definition(#[trigger] tasks@[i])) ==> r matches Err(
            DiscoveryError::NoContainerInstance,
        ),
        !(exists|i: int| 0 <= i < tasks@.len() && lacks_definition(#[trigger] tasks@[i])) ==> r is Ok
            && targets_view(r.unwrap()@) == batch_views(
            mode,
            region@,
            account_id@,
            *cluster,
            *service,
            tasks@,
            task_defs@,
            container_instance_to_ec2_id@,
            ec2_cache@,
        ),
{
    let mut out: Vec<Target> = Vec::new();
    let mut i: usize = 0;
    assert(targets_view(out@) =~= Seq::<TargetView>::empty());
    while i < tasks.len()
        invariant
            0 <= i <= tasks@.len(),
            forall|j: int| 0 <= j < i ==> !lacks_definition(#[trigger] tasks@[j]),
            targets_view(out@) == batch_views(
                mode,
                region@,
                account_id@,
                *cluster,
                *service,
                tasks@.take(i as int),
                task_defs@,
                container_instance_to_ec2_id@,
                ec2_cache@,
            ),
        decreases tasks.len() - i,
    {
        let task = &tasks[i];
        if opt_is(&task.launch_type, "EC2") && !(opt_is(&task.last_status, "STOPPED") || opt_is(
            &task.last_status,
            "STOPPING",
        )) && task.task_definition_arn.is_none() {
            assert(lacks_definition(tasks@[i as int]));
            return Err(DiscoveryError::NoContainerInstance);
        }
        assert(tasks@.take(i + 1).drop_last() =~= tasks@.take(i as int));
        assert(tasks@.take(i + 1).last() == *task);
        task_targets(
            mode,
            region,
            account_id,
            cluster,
            service,
            task,
            task_defs,
            container_instance_to_ec2_id,
            ec2_cache,
            &mut out,
        );
        i = i + 1;
    }
    assert(tasks@.take(tasks@.len() as int) =~= tasks@);
    Ok(out)
}

// ---------------------------------------------------------------------------
// What a discovery pass looks up
// ---------------------------------------------------------------------------

/// The container instance ARNs of the running EC2 tasks, in task order.
pub open spec fn ec2_task_instance_arns(tasks: Seq<Task>) -> Seq<Seq<char>>
    decreases tasks.len(),
{
    if tasks.len() == 0 {
        Seq::empty()
    } else {
        let rest = ec2_task_instance_arns(tasks.drop_last());
        let t = tasks.last();
        if opt_text(t.launch_type) == Some("EC2"@) && !is_stopping(t) {
            match t.container_instance_arn {
                Some(a) => rest.push(a@),
                None => rest,
            }
        } else {
            rest
        }
    }
}

/// The container instances that the running EC2 tasks of a batch run on.
pub fn ec2_container_instance_arns(tasks: &Vec<Task>) -> (r: Vec<String>)
    ensures
        r@.map_values(|x: String| x@) == ec2_task_instance_arns(tasks@),
{
    let mut out: Vec<String> = Vec::new();
    let mut i: usize = 0;
    while i < tasks.len()
        invariant
            0 <= i <= tasks@.len(),
            out@.map_values(|x: String| x@) == ec2_task_instance_arns(tasks@.take(i as int)),
        decreases tasks.len() - i,
    {
        let t = &tasks[i];
        assert(tasks@.take(i + 1).drop_last() =~= tasks@.take(i as int));
        assert(tasks@.take(i + 1).last() == *t);
        let ghost before = out@.map_values(|x: String| x@);
        if opt_is(&t.launch_type, "EC2") && !(opt_is(&t.last_status, "STOPPED") || opt_is(
            &t.last_status,
            "STOPPING",
        )) {
            match &t.container_instance_arn {
                Some(a) => {
                    out.push(a.clone());
                    assert(out@.map_values(|x: String| x@) =~= before.push(a@));
                },
                None => {},
            }
        }
        i = i + 1;
    }
    assert(tasks@.take(tasks@.len() as int) =~= tasks@);
    out
}

/// The container instance to EC2 instance pairs that a description reports.
pub open spec fn instance_id_pairs(cis: Seq<ContainerInstance>) -> Seq<(Seq<char>, Seq<char>)>
    decreases cis.len(),
{
    if cis.len() == 0 {
        Seq::empty()
    } else {
        let rest = instance_id_pairs(cis.drop_last());
        let c = cis.last();
        match (c.container_instance_arn, c.ec2_instance_id) {
            (Some(a), Some(i)) => rest.push((a@, i@)),
            _ => rest,
        }
    }
}

/// Records, for each described container instance, the EC2 instance it runs on.
pub fn record_container_instances(
    container_instance_to_ec2_id: &mut StrMap<String>,
    container_instances: &Vec<ContainerInstance>,
)
    ensures
        label_text(*final(container_instance_to_ec2_id)) == put_all(
            label_text(*old(container_instance_to_ec2_id)),
            instance_id_pairs(container_instances@),
        ),
{
    let ghost start = label_text(*container_instance_to_ec2_id);
    let mut i: usize = 0;
    while i < container_instances.len()
        invariant
            0 <= i <= container_instances@.len(),
            start == label_text(*old(container_instance_to_ec2_id)),
            label_text(*container_instance_to_ec2_id) == put_all(
                start,
                instance_id_pairs(container_instances@.take(i as int)),
            ),
        decreases container_instances.len() - i,
    {
        let c = &container_instances[i];
        assert(container_instances@.take(i + 1).drop_last() =~= container_instances@.take(i as int));
        assert(container_instances@.take(i + 1).last() == *c);
        match (&c.container_instance_arn, &c.ec2_instance_id) {
            (Some(a), Some(id)) => {
                let ghost before = *container_instance_to_ec2_id;
                let ghost rest = instance_id_pairs(container_instances@.take(i as int));
                container_instance_to_ec2_id.insert(a.clone(), id.clone());
                assert(label_text(*container_instance_to_ec2_id) =~= label_text(before).insert(a@, id@));
                assert(instance_id_pairs(container_instances@.take(i + 1)) == rest.push((a@, id@)));
                assert(rest.push((a@, id@)).drop_last() =~= rest);
            },
            _ => {},
        }
        i = i + 1;
    }
    assert(container_instances@.take(container_instances@.len() as int) =~= container_instances@);
}

/// What discovery keeps of a described EC2 instance; nothing when it reports
/// no instance id or no private IP.  The container instance is not known yet.
pub fn ec2_info_from_instance(instance: &Ec2Instance) -> (r: Option<Ec2InstanceInfo>)
    ensures
        r is Some <==> instance.instance_id is Some && instance.private_ip_address is Some,
        r is Some ==> {
            let info = r.unwrap();
            &&& info.ec2_instance_id == instance.instance_id.unwrap()
            &&& info.private_ip == instance.private_ip_address.unwrap()
            &&& info.public_ip == instance.public_ip_address
            &&& info.availability_zone == instance.availability_zone
            &&& info.subnet_id == instance.subnet_id
            &&& info.ec2_instance_type == instance.instance_type
            &&& info.container_instance_arn@ == Seq::<char>::empty()
            &&& label_text(info.ec2_tags) == put_all(
                Map::empty(),
                crate::ecs::tag_pairs(instance.tags@),
            )
        },
{
    let id = match &instance.instance_id {
        Some(id) => id,
        None => return None,
    };
    let private_ip = match &instance.private_ip_address {
        Some(ip) => ip,
        None => return None,
    };
    Some(
        Ec2InstanceInfo {
            private_ip: private_ip.clone(),
            public_ip: clone_opt(&instance.public_ip_address),
            availability_zone: clone_opt(&instance.availability_zone),
            subnet_id: clone_opt(&instance.subnet_id),
            container_instance_arn: String::new(),
            ec2_instance_id: id.clone(),
            ec2_instance_type: clone_opt(&instance.instance_type),
            ec2_tags: tags_to_map(&instance.tags),
        },
    )
}

/// The EC2 instance id that a container instance description reports: that
/// of the first container instance.
pub fn instance_id_of(container_instances: &Vec<ContainerInstance>) -> (r: Result<
    String,
    DiscoveryError,
>)
    ensures
        container_instances@.len() > 0 && container_instances@[0].ec2_instance_id is Some ==> r is Ok
            && r.unwrap() == container_instances@[0].ec2_instance_id.unwrap(),
        !(container_instances@.len() > 0 && container_instances@[0].ec2_instance_id is Some) ==> r matches Err(
            DiscoveryError::NoContainerInstance,
        ),
{
    if container_instances.len() == 0 {
        return Err(DiscoveryError::NoContainerInstance);
    }
    match &container_instances[0].ec2_instance_id {
        Some(id) => Ok(id.clone()),
        None => Err(DiscoveryError::NoContainerInstance),
    }
}

/// The record of the EC2 instance behind a container instance, from the
/// description of that instance: the first instance of the first reservation.
pub fn instance_info_of(
    container_instance_arn: &str,
    ec2_instance_id: &str,
    reservations: &Vec<Vec<Ec2Instance>>,
) -> (r: Result<Ec2InstanceInfo, DiscoveryError>)
    ensures
        r is Ok <==> reservations@.len() > 0 && reservations@[0]@.len() > 0
            && reservations@[0]@[0].private_ip_address is Some,
        !(r is Ok) ==> r matches Err(DiscoveryError::NoPrivateIp),
        r is Ok ==> {
            let inst = reservations@[0]@[0];
            let info = r.unwrap();
            &&& info.container_instance_arn@ == container_instance_arn@
            &&& info.ec2_instance_id@ == ec2_instance_id@
            &&& info.private_ip == inst.private_ip_address.unwrap()
            &&& info.public_ip == inst.public_ip_address
            &&& info.availability_zone == inst.availability_zone
            &&& info.subnet_id == inst.subnet_id
            &&& info.ec2_instance_type == inst.instance_type
            &&& label_text(info.ec2_tags) == put_all(Map::empty(), crate::ecs::tag_pairs(inst.tags@))
        },
{
    if reservations.len() == 0 || reservations[0].len() == 0 {
        return Err(DiscoveryError::NoPrivateIp);
    }
    let inst = &reservations[0][0];
    let private_ip = match &inst.private_ip_address {
        Some(ip) => ip,
        None => return Err(DiscoveryError::NoPrivateIp),
    };
    Ok(
        Ec2InstanceInfo {
            private_ip: private_ip.clone(),
            public_ip: clone_opt(&inst.public_ip_address),
            availability_zone: clone_opt(&inst.availability_zone),
            subnet_id: clone_opt(&inst.subnet_id),
            container_instance_arn: container_instance_arn.to_owned(),
            ec2_instance_id: ec2_instance_id.to_owned(),
            ec2_instance_type: clone_opt(&inst.instance_type),
            ec2_tags: tags_to_map(&inst.tags),
        },
    )
}

/// Remembers a resolved instance: its container instance maps to it, and it
/// is cached under its id.
pub fn remember_instance(
    container_instance_to_ec2_id: &mut StrMap<String>,
    ec2_cache: &mut StrMap<Ec2InstanceInfo>,
    info: Ec2InstanceInfo,
)
    ensures
        final(container_instance_to_ec2_id)@ == old(container_instance_to_ec2_id)@.insert(
            info.container_instance_arn@,
            info.ec2_instance_id,
        ),
        final(ec2_cache)@ == old(ec2_cache)@.insert(info.ec2_instance_id@, info),
{
    container_instance_to_ec2_id.insert(info.container_instance_arn.clone(), info.ec2_instance_id.clone());
    let id = info.ec2_instance_id.clone();
    ec2_cache.insert(id, info);
}

/// What a discovery pass must look up for a task before its targets can be
/// built.
pub enum TaskPlan {
    /// The task yields no targets.
    Skip,
    /// The task definition must be looked up; when `required`, a failed
    /// lookup fails the cluster, otherwise the task is skipped.
    FetchDefinition { arn: String, required: bool },
    /// The task fails the cluster.
    Fail,
}

/// Whether a task yields no targets whatever is looked up for it.
pub open spec fn skipped(mode: Mode, task: Task) -> bool {
    if opt_text(task.launch_type) != Some("EC2"@) {
        !(mode == Mode::Proxy && opt_text(task.launch_type) == Some("FARGATE"@)
            && fargate_private_ip(task) is Some && task.task_definition_arn is Some)
    } else {
        is_stopping(task)
    }
}

/// A skipped task yields no targets.
pub proof fn lemma_skipped_yields_nothing(
    mode: Mode,
    region: Seq<char>,
    account_id: Seq<char>,
    cluster: Cluster,
    service: Service,
    task: Task,
    defs: Map<Seq<char>, TaskDefinition>,
    to_ec2: Map<Seq<char>, String>,
    ec2_cache: Map<Seq<char>, Ec2InstanceInfo>,
)
    requires
        skipped(mode, task),
    ensures
        task_views(mode, region, account_id, cluster, service, task, defs, to_ec2, ec2_cache)
            == Seq::<TargetView>::empty(),
{
}

/// What to look up for a task, as the target building reads it.
pub fn plan_task(mode: Mode, task: &Task) -> (r: TaskPlan)
    ensures
        lacks_definition(*task) <==> r is Fail,
        r matches TaskPlan::FetchDefinition { arn, required } ==> {
            &&& task.task_definition_arn == Some(arn)
            &&& required == (opt_text(task.launch_type) == Some("EC2"@))
            &&& required ==> !is_stopping(*task)
            &&& !required ==> mode == Mode::Proxy && opt_text(task.launch_type) == Some("FARGATE"@)
                && fargate_private_ip(*task) is Some
        },
        r is Skip <==> skipped(mode, *task),
{
    if !opt_is(&task.launch_type, "EC2") {
        if mode == Mode::Proxy && opt_is(&task.launch_type, "FARGATE") {
            let ip = extract_fargate_private_ip(task);
            match (&ip, &task.task_definition_arn) {
                (Some(_), Some(a)) => {
                    return TaskPlan::FetchDefinition { arn: a.clone(), required: false };
                },
                _ => {},
            }
        }
        return TaskPlan::Skip;
    }
    if opt_is(&task.last_status, "STOPPED") || opt_is(&task.last_status, "STOPPING") {
        return TaskPlan::Skip;
    }
    match &task.task_definition_arn {
        Some(a) => TaskPlan::FetchDefinition { arn: a.clone(), required: true },
        None => TaskPlan::Fail,
    }
}

/// Whether a task definition has a container that asks to be scraped.
pub open spec fn has_scraped_container(td: TaskDefinition) -> bool {
    exists|i: int| 0 <= i < td.container_definitions@.len() && (#[trigger] scrape_port(td.container_definitions@[i])) is Some
}

/// The container instance whose EC2 instance must still be resolved for a
/// task: a running EC2 task with a scraped container whose instance the
/// caches do not know.
pub fn instance_to_resolve(
    task: &Task,
    td: &TaskDefinition,
    container_instance_to_ec2_id: &StrMap<String>,
    ec2_cache: &StrMap<Ec2InstanceInfo>,
) -> (r: Option<String>)
    ensures
        r is Some <==> opt_text(task.launch_type) == Some("EC2"@) && !is_stopping(*task)
            && has_scraped_container(*td) && task.container_instance_arn is Some
            && task_instance(*task, container_instance_to_ec2_id@, ec2_cache@) is None,
        r is Some ==> r == task.container_instance_arn,
{
    if !opt_is(&task.launch_type, "EC2") || opt_is(&task.last_status, "STOPPED") || opt_is(
        &task.last_status,
        "STOPPING",
    ) {
        return None;
    }
    let defs = &td.container_definitions;
    let mut any = false;
    let mut i: usize = 0;
    while i < defs.len()
        invariant
            0 <= i <= defs@.len(),
            defs@ == td.container_definitions@,
            any == exists|j: int| 0 <= j < i && (#[trigger] scrape_port(defs@[j])) is Some,
        decreases defs.len() - i,
    {
        let p = container_scrape_port(&defs[i]);
        proof {
            if p is Some {
                assert(scrape_port(defs@[i as int]) is Some);
            }
            if any || p is Some {
            } else {
                assert forall|j: int| 0 <= j < i + 1 implies !(#[trigger] scrape_port(defs@[j])
                    is Some) by {}
            }
        }
        any = any || p.is_some();
        i = i + 1;
    }
    if !any {
        return None;
    }
    match &task.container_instance_arn {
        Some(a) => {
            if ec2_instance_from_cache(container_instance_to_ec2_id, ec2_cache, a.as_str()).is_some() {
                None
            } else {
                Some(a.clone())
            }
        },
        None => None,
    }
}

/// The cached task definition of an ARN, if any.
pub fn task_definition_from_cache<'a>(cache: &'a StrMap<TaskDefinition>, task_definition_arn: &str) -> (r:
    Option<&'a TaskDefinition>)
    ensures
        match r {
            Some(td) => cache@.contains_key(task_definition_arn@) && *td == cache@[task_definition_arn@],
            None => !cache@.contains_key(task_definition_arn@),
        },
{
    cache.get(task_definition_arn)
}

/// The container instances left to look up are each asked for once, none of
/// them is cached, each comes from the input, and every uncached input is
/// among them.
pub proof fn lemma_uncached_arns_are_unique_and_complete(
    cache: Map<Seq<char>, String>,
    arns: Seq<Seq<char>>,
)
    ensures
        uncached_arns(cache, arns).no_duplicates(),
        forall|i: int|
            0 <= i < uncached_arns(cache, arns).len() ==> !cache.contains_key(
                #[trigger] uncached_arns(cache, arns)[i],
            ) && occurs(arns, uncached_arns(cache, arns)[i]),
        forall|j: int|
            0 <= j < arns.len() && !cache.contains_key(#[trigger] arns[j]) ==> occurs(
                uncached_arns(cache, arns),
                arns[j],
            ),
    decreases arns.len(),
{
    if arns.len() > 0 {
        let init = arns.drop_last();
        lemma_uncached_arns_are_unique_and_complete(cache, init);
        let rest = uncached_arns(cache, init);
        let r = uncached_arns(cache, arns);
        let a = arns.last();
        assert forall|i: int| 0 <= i < r.len() implies !cache.contains_key(#[trigger] r[i]) && occurs(arns, r[i]) by {
            if i < rest.len() {
                assert(r[i] == rest[i]);
                let k = choose|k: int| 0 <= k < init.len() && #[trigger] init[k] == rest[i];
                assert(arns[k] == init[k]);
            } else {
                assert(arns[arns.len() - 1] == a);
            }
        }
        assert forall|j: int| 0 <= j < arns.len() && !cache.contains_key(#[trigger] arns[j]) implies occurs(r, arns[j]) by {
            if j < init.len() {
                assert(init[j] == arns[j]);
                let k = choose|k: int| 0 <= k < rest.len() && #[trigger] rest[k] == init[j];
                assert(r[k] == rest[k]);
            } else {
                if occurs(rest, a) {
                    let k = choose|k: int| 0 <= k < rest.len() && #[trigger] rest[k] == a;
                    assert(r[k] == rest[k]);
                } else {
                    assert(r[rest.len() as int] == a);
                }
            }
        }
    }
}

/// The EC2 instances left to describe are each asked for once, none of them
/// is cached, each is the instance of some input, and every uncached
/// instance of an input is among them.
pub proof fn lemma_uncached_instance_ids_are_unique_and_complete(
    to_ec2: Map<Seq<char>, String>,
    ec2_cache: Map<Seq<char>, Ec2InstanceInfo>,
    arns: Seq<Seq<char>>,
)
    ensures
        uncached_instance_ids(to_ec2, ec2_cache, arns).no_duplicates(),
        forall|i: int|
            0 <= i < uncached_instance_ids(to_ec2, ec2_cache, arns).len() ==> !ec2_cache.contains_key(
                #[trigger] uncached_instance_ids(to_ec2, ec2_cache, arns)[i],
            ),
        forall|j: int|
            0 <= j < arns.len() && to_ec2.contains_key(#[trigger] arns[j])
                && !ec2_cache.contains_key(to_ec2[arns[j]]@) ==> occurs(
                uncached_instance_ids(to_ec2, ec2_cache, arns),
                to_ec2[arns[j]]@,
            ),
    decreases arns.len(),
{
    if arns.len() > 0 {
        let init = arns.drop_last();
        lemma_uncached_instance_ids_are_unique_and_complete(to_ec2, ec2_cache, init);
        let rest = uncached_instance_ids(to_ec2, ec2_cache, init);
        let r = uncached_instance_ids(to_ec2, ec2_cache, arns);
        let a = arns.last();
        assert forall|i: int| 0 <= i < r.len() implies !ec2_cache.contains_key(#[trigger] r[i]) by {
            if i < rest.len() {
                assert(r[i] == rest[i]);
            }
        }
        assert forall|j: int|
            0 <= j < arns.len() && to_ec2.contains_key(#[trigger] arns[j]) && !ec2_cache.contains_key(
                to_ec2[arns[j]]@,
            ) implies occurs(r, to_ec2[arns[j]]@) by {
            if j < init.len() {
                assert(init[j] == arns[j]);
                let k = choose|k: int| 0 <= k < rest.len() && #[trigger] rest[k] == to_ec2[init[j]]@;
                assert(r[k] == rest[k]);
            } else {
                let id = to_ec2[a]@;
                if occurs(rest, id) {
                    let k = choose|k: int| 0 <= k < rest.len() && #[trigger] rest[k] == id;
                    assert(r[k] == rest[k]);
                } else {
                    assert(r[rest.len() as int] == id);
                }
            }
        }
    }
}

/// Outside proxy mode only EC2 tasks are scraped.
pub proof fn lemma_only_ec2_tasks_outside_proxy_mode(
    region: Seq<char>,
    account_id: Seq<char>,
    cluster: Cluster,
    service: Service,
    task: Task,
    defs: Map<Seq<char>, TaskDefinition>,
    to_ec2: Map<Seq<char>, String>,
    ec2_cache: Map<Seq<char>, Ec2InstanceInfo>,
)
    requires
        opt_text(task.launch_type) != Some("EC2"@),
    ensures
        task_views(Mode::Discovery, region, account_id, cluster, service, task, defs, to_ec2, ec2_cache)
            == Seq::<TargetView>::empty(),
{
}

/// A stopped or stopping EC2 task is never scraped.
pub proof fn lemma_stopped_tasks_yield_nothing(
    mode: Mode,
    region: Seq<char>,
    account_id: Seq<char>,
    cluster: Cluster,
    service: Service,
    task: Task,
    defs: Map<Seq<char>, TaskDefinition>,
    to_ec2: Map<Seq<char>, String>,
    ec2_cache: Map<Seq<char>, Ec2InstanceInfo>,
)
    requires
        opt_text(task.launch_type) == Some("EC2"@),
        is_stopping(task),
    ensures
        task_views(mode, region, account_id, cluster, service, task, defs, to_ec2, ec2_cache)
            == Seq::<TargetView>::empty(),
{
}

} // verus!
