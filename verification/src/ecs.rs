//! What discovery reads of the ECS and EC2 records it is given, as plain values.
use vstd::prelude::*;
use crate::strmap::StrMap;
use crate::target::{label_text, put_all, Labels};
use crate::text::str_eq;

verus! {

/// A resource tag.
pub struct Tag {
    pub key: Option<String>,
    pub value: Option<String>,
}

/// A name/value detail of an attachment.
pub struct KeyValuePair {
    pub name: Option<String>,
    pub value: Option<String>,
}

/// An attachment of a task, such as its elastic network interface.
pub struct Attachment {
    pub attachment_type: Option<String>,
    pub details: Vec<KeyValuePair>,
}

/// A container of a task definition.
pub struct ContainerDefinition {
    pub name: Option<String>,
    pub image: Option<String>,
    pub docker_labels: Option<Labels>,
}

/// A task definition.
pub struct TaskDefinition {
    pub task_definition_arn: Option<String>,
    pub family: Option<String>,
    pub network_mode: Option<String>,
    pub container_definitions: Vec<ContainerDefinition>,
}

/// A running or stopped task.
pub struct Task {
    pub task_arn: Option<String>,
    pub task_definition_arn: Option<String>,
    pub container_instance_arn: Option<String>,
    pub group: Option<String>,
    pub launch_type: Option<String>,
    pub desired_status: Option<String>,
    pub last_status: Option<String>,
    pub health_status: Option<String>,
    pub platform_family: Option<String>,
    pub platform_version: Option<String>,
    pub attachments: Vec<Attachment>,
    pub tags: Vec<Tag>,
}

/// An ECS service.
pub struct Service {
    pub service_name: Option<String>,
    pub service_arn: Option<String>,
    pub status: Option<String>,
    pub desired_count: i32,
    pub running_count: i32,
    pub tags: Vec<Tag>,
}

/// An ECS cluster.
pub struct Cluster {
    pub cluster_name: Option<String>,
    pub cluster_arn: Option<String>,
    pub tags: Vec<Tag>,
}

/// An ECS container instance: the EC2 instance that backs it.
pub struct ContainerInstance {
    pub container_instance_arn: Option<String>,
    pub ec2_instance_id: Option<String>,
}

/// An EC2 instance.
pub struct Ec2Instance {
    pub instance_id: Option<String>,
    pub private_ip_address: Option<String>,
    pub public_ip_address: Option<String>,
    pub availability_zone: Option<String>,
    pub subnet_id: Option<String>,
    pub instance_type: Option<String>,
    pub tags: Vec<Tag>,
}

/// The text of an optional string.
pub open spec fn opt_text(o: Option<String>) -> Option<Seq<char>> {
    match o {
        Some(s) => Some(s@),
        None => None,
    }
}

/// Whether an optional string holds exactly `lit`.
pub fn opt_is(o: &Option<String>, lit: &str) -> (r: bool)
    ensures
        r == (opt_text(*o) == Some(lit@)),
{
    match o {
        Some(s) => str_eq(s.as_str(), lit),
        None => false,
    }
}

/// A copy of an optional string.
pub fn clone_opt(o: &Option<String>) -> (r: Option<String>)
    ensures
        r == *o,
{
    match o {
        Some(s) => Some(s.clone()),
        None => None,
    }
}

/// The tags that have both a key and a value, as `(key, value)` text, in order.
pub open spec fn tag_pairs(tags: Seq<Tag>) -> Seq<(Seq<char>, Seq<char>)>
    decreases tags.len(),
{
    if tags.len() == 0 {
        Seq::empty()
    } else {
        let rest = tag_pairs(tags.drop_last());
        let t = tags.last();
        match (t.key, t.value) {
            (Some(k), Some(v)) => rest.push((k@, v@)),
            _ => rest,
        }
    }
}

/// The tags as a map from key to value; a later tag with the same key wins.
pub fn tags_to_map(tags: &Vec<Tag>) -> (r: Labels)
    ensures
        label_text(r) == put_all(Map::empty(), tag_pairs(tags@)),
{
    let mut m: Labels = StrMap::new();
    let mut i: usize = 0;
    assert(label_text(m) =~= Map::<Seq<char>, Seq<char>>::empty());
    while i < tags.len()
        invariant
            0 <= i <= tags@.len(),
            label_text(m) == put_all(Map::empty(), tag_pairs(tags@.take(i as int))),
        decreases tags.len() - i,
    {
        let t = &tags[i];
        assert(tags@.take(i + 1).drop_last() =~= tags@.take(i as int));
        assert(tags@.take(i + 1).last() == tags@[i as int]);
        match (&t.key, &t.value) {
            (Some(k), Some(v)) => {
                let ghost before = m;
                m.insert(k.clone(), v.clone());
                assert(label_text(m) =~= label_text(before).insert(k@, v@));
                let ghost rest = tag_pairs(tags@.take(i as int));
                assert(tag_pairs(tags@.take(i + 1)) == rest.push((k@, v@)));
                assert(rest.push((k@, v@)).drop_last() =~= rest);
            },
            _ => {
                assert(tag_pairs(tags@.take(i + 1)) == tag_pairs(tags@.take(i as int)));
            },
        }
        i = i + 1;
    }
    assert(tags@.take(tags@.len() as int) =~= tags@);
    m
}

/// Whether `i` is the first position whose attachment is an elastic network interface.
pub open spec fn is_first_eni(atts: Seq<Attachment>, i: int) -> bool {
    &&& 0 <= i < atts.len()
    &&& opt_text(atts[i].attachment_type) == Some("ElasticNetworkInterface"@)
    &&& forall|j: int|
        0 <= j < i ==> opt_text(#[trigger] atts[j].attachment_type) != Some(
            "ElasticNetworkInterface"@,
        )
}

/// Whether `i` is the first position whose detail is named `privateIPv4Address`.
pub open spec fn is_first_ip_detail(ds: Seq<KeyValuePair>, i: int) -> bool {
    &&& 0 <= i < ds.len()
    &&& opt_text(ds[i].name) == Some("privateIPv4Address"@)
    &&& forall|j: int|
        0 <= j < i ==> opt_text(#[trigger] ds[j].name) != Some("privateIPv4Address"@)
}

/// The private IP of a task's network interface: the value of the first
/// `privateIPv4Address` detail of the first elastic network interface.
pub open spec fn fargate_private_ip(task: Task) -> Option<Seq<char>> {
    let atts = task.attachments@;
    if exists|i: int| is_first_eni(atts, i) {
        let i = choose|i: int| is_first_eni(atts, i);
        let ds = atts[i].details@;
        if exists|j: int| is_first_ip_detail(ds, j) {
            let j = choose|j: int| is_first_ip_detail(ds, j);
            opt_text(ds[j].value)
        } else {
            None
        }
    } else {
        None
    }
}

proof fn lemma_first_eni_unique(atts: Seq<Attachment>, i: int, j: int)
    requires
        is_first_eni(atts, i),
        is_first_eni(atts, j),
    ensures
        i == j,
{
    if i < j {
        assert(opt_text(atts[i].attachment_type) != Some("ElasticNetworkInterface"@));
    }
    if j < i {
        assert(opt_text(atts[j].attachment_type) != Some("ElasticNetworkInterface"@));
    }
}

proof fn lemma_first_ip_detail_unique(ds: Seq<KeyValuePair>, i: int, j: int)
    requires
        is_first_ip_detail(ds, i),
        is_first_ip_detail(ds, j),
    ensures
        i == j,
{
    if i < j {
        assert(opt_text(ds[i].name) != Some("privateIPv4Address"@));
    }
    if j < i {
        assert(opt_text(ds[j].name) != Some("privateIPv4Address"@));
    }
}

/// The private IP that a task's elastic network interface reports.
pub fn extract_fargate_private_ip(task: &Task) -> (r: Option<String>)
    ensures
        opt_text(r) == fargate_private_ip(*task),
{
    let atts = &task.attachments;
    let mut i: usize = 0;
    while i < atts.len()
        invariant
            0 <= i <= atts@.len(),
            atts@ == task.attachments@,
            forall|j: int|
                0 <= j < i ==> opt_text(#[trigger] atts@[j].attachment_type) != Some(
                    "ElasticNetworkInterface"@,
                ),
        decreases atts.len() - i,
    {
        if opt_is(&atts[i].attachment_type, "ElasticNetworkInterface") {
            assert(is_first_eni(atts@, i as int));
            proof {
                let c = choose|c: int| is_first_eni(atts@, c);
                lemma_first_eni_unique(atts@, c, i as int);
            }
            let ds = &atts[i].details;
            let mut j: usize = 0;
            while j < ds.len()
                invariant
                    0 <= j <= ds@.len(),
                    i < atts@.len(),
                    atts@ == task.attachments@,
                    ds@ == atts@[i as int].details@,
                    is_first_eni(atts@, i as int),
                    (choose|c: int| is_first_eni(atts@, c)) == i,
                    forall|q: int|
                        0 <= q < j ==> opt_text(#[trigger] ds@[q].name) != Some(
                            "privateIPv4Address"@,
                        ),
                decreases ds.len() - j,
            {
                if opt_is(&ds[j].name, "privateIPv4Address") {
                    assert(is_first_ip_detail(ds@, j as int));
                    proof {
                        let c = choose|c: int| is_first_ip_detail(ds@, c);
                        lemma_first_ip_detail_unique(ds@, c, j as int);
                    }
                    return clone_opt(&ds[j].value);
                }
                j = j + 1;
            }
            assert(!exists|q: int| is_first_ip_detail(ds@, q));
            return None;
        }
        i = i + 1;
    }
    assert(!exists|q: int| is_first_eni(atts@, q));
    None
}

/// The value of a docker label of a container, if it has one.
pub fn docker_label<'a>(def: &'a ContainerDefinition, key: &str) -> (r: Option<&'a String>)
    ensures
        match def.docker_labels {
            Some(m) => match r {
                Some(v) => m@.contains_key(key@) && *v == m@[key@],
                None => !m@.contains_key(key@),
            },
            None => r is None,
        },
{
    match &def.docker_labels {
        Some(m) => m.get(key),
        None => None,
    }
}

} // verus!
