//! Proxy routes: stable ids for discovered targets, the routing table, and
//! what the proxy forwards.
use vstd::prelude::*;
use crate::level::{level_includes, MetadataLevel};
use crate::target::{filter_labels_by_level, label_level, Labels, Target};
use crate::text::cat;
use std::collections::HashMap;
use vstd::std_specs::hash::{into_iter_keys, spec_keys_iter};
use vstd::std_specs::iter::IteratorSpec;

verus! {

// ---------------------------------------------------------------------------
// Route ids
// ---------------------------------------------------------------------------

/// What `Uuid::new_v5(&Uuid::NAMESPACE_URL, name.as_bytes())` gives for the
/// text `name`, as the 128-bit value of the UUID.
pub uninterp spec fn url_uuid_v5(name: Seq<char>) -> u128;

/// What `Uuid::parse_str` gives for a text, as the 128-bit value of the
/// UUID; `None` where it reports an error.
pub uninterp spec fn parsed_uuid(s: Seq<char>) -> Option<u128>;

/// The lower-case hexadecimal digit of `d`.
pub open spec fn hex_digit(d: int) -> char {
    if d < 10 {
        (48 + d) as char
    } else {
        (87 + d) as char
    }
}

/// The `width` lowest hexadecimal digits of `n`, most significant first.
pub open spec fn hex_of(n: nat, width: nat) -> Seq<char>
    decreases width,
{
    if width == 0 {
        Seq::empty()
    } else {
        hex_of(n / 16, (width - 1) as nat).push(hex_digit((n % 16) as int))
    }
}

/// The hyphenated text of a UUID: its 32 hexadecimal digits, most
/// significant first, in groups of 8, 4, 4, 4 and 12.
pub open spec fn uuid_text(id: u128) -> Seq<char> {
    let h = hex_of(id as nat, 32);
    h.subrange(0, 8) + seq!['-'] + h.subrange(8, 12) + seq!['-'] + h.subrange(12, 16) + seq!['-']
        + h.subrange(16, 20) + seq!['-'] + h.subrange(20, 32)
}

/// Calls `Uuid::new_v5` in the URL namespace on the bytes of `name`; the
/// result is named by `url_uuid_v5`.
#[verifier::external_body]
fn uuid_v5_url(name: &str) -> (r: u128)
    ensures
        r == url_uuid_v5(name@),
{
    uuid::Uuid::new_v5(&uuid::Uuid::NAMESPACE_URL, name.as_bytes()).as_u128()
}

/// Calls `Uuid::to_string`, which writes the hyphenated lower-case form.
#[verifier::external_body]
fn uuid_string(id: u128) -> (r: String)
    ensures
        r@ == uuid_text(id),
{
    uuid::Uuid::from_u128(id).to_string()
}

/// Calls `Uuid::parse_str`; the result is named by `parsed_uuid`.  The
/// parser reads the hyphenated form, so that form of a UUID gives it back.
#[verifier::external_body]
pub(crate) fn parse_uuid(s: &str) -> (r: Option<u128>)
    ensures
        r == parsed_uuid(s@),
        forall|v: u128| uuid_text(v) == s@ ==> r == Some(v),
{
    match uuid::Uuid::parse_str(s) {
        Ok(u) => Some(u.as_u128()),
        Err(_) => None,
    }
}

/// The text a route id is derived from.
pub open spec fn route_name(task_arn: Seq<char>, container_name: Seq<char>, container_id: Seq<char>) -> Seq<
    char,
> {
    task_arn + ":"@ + container_name + ":"@ + container_id
}

/// The stable id of the route to a container of a task.
pub fn route_id(task_arn: &str, container_name: &str, container_id: &str) -> (r: u128)
    ensures
        r == url_uuid_v5(route_name(task_arn@, container_name@, container_id@)),
{
    let a = cat(task_arn, ":");
    let b = cat(a.as_str(), container_name);
    let c = cat(b.as_str(), ":");
    let d = cat(c.as_str(), container_id);
    uuid_v5_url(d.as_str())
}

/// The hyphenated text of a route id.
pub fn route_id_text(id: u128) -> (r: String)
    ensures
        r@ == uuid_text(id),
{
    uuid_string(id)
}

// ---------------------------------------------------------------------------
// The routing table
// ---------------------------------------------------------------------------

/// Where the proxy sends the scrapes of one route.
pub struct ProxyTarget {
    /// `host:port` of the upstream target.
    pub address: String,
    /// The id of the route.
    pub route_id: u128,
    /// The labels of the target.
    pub labels: Labels,
}

/// What a route holds: the upstream address and the labels of the target.
pub type RouteView = (Seq<char>, Map<Seq<char>, String>);

/// The routes of a snapshot, keyed by route id: a hash map from each id to
/// the route stored under it.  Every route is stored under its own id.
pub struct RoutingTable {
    routes: HashMap<u128, ProxyTarget>,
}

impl RoutingTable {
    /// Every route is stored under its own id.
    #[verifier::type_invariant]
    pub closed spec fn wf(self) -> bool {
        forall|id: u128| #[trigger] self.routes@.contains_key(id) ==> self.routes@[id].route_id == id
    }

    /// The routes as a map from id to address and labels.
    pub closed spec fn view(self) -> Map<u128, RouteView> {
        self.routes@.map_values(|pt: ProxyTarget| (pt.address@, pt.labels@))
    }

    /// A table with no routes.
    pub fn new() -> (r: Self)
        ensures
            r@ == Map::<u128, RouteView>::empty(),
    {
        let r = RoutingTable { routes: HashMap::new() };
        assert(r@ =~= Map::<u128, RouteView>::empty());
        r
    }

    /// The number of routes.
    pub fn len(&self) -> (r: usize)
        ensures
            r == self@.len(),
    {
        broadcast use vstd::std_specs::hash::group_hash_axioms;
        assert(self@.dom() =~= self.routes@.dom());
        self.routes.len()
    }

    /// The route with id `id`, if any.
    pub fn get(&self, id: u128) -> (r: Option<&ProxyTarget>)
        ensures
            match r {
                Some(pt) => self@.contains_key(id) && pt.route_id == id && self@[id] == (
                    pt.address@,
                    pt.labels@,
                ),
                None => !self@.contains_key(id),
            },
    {
        broadcast use vstd::std_specs::hash::group_hash_axioms;
        proof {
            use_type_invariant(self);
        }
        self.routes.get(&id)
    }

    /// Adds a route under its id, replacing a route with the same id.
    pub fn insert(&mut self, pt: ProxyTarget)
        ensures
            final(self)@ == old(self)@.insert(pt.route_id, (pt.address@, pt.labels@)),
    {
        broadcast use vstd::std_specs::hash::group_hash_axioms;
        proof {
            use_type_invariant(&*self);
        }
        let ghost before = self.routes@;
        let ghost rv = (pt.address@, pt.labels@);
        let id = pt.route_id;
        let mut routes: HashMap<u128, ProxyTarget> = HashMap::new();
        std::mem::swap(&mut routes, &mut self.routes);
        routes.insert(id, pt);
        proof {
            assert(routes@ == before.insert(id, pt));
            assert forall|k: u128| #[trigger] routes@.contains_key(k) implies routes@[k].route_id == k by {
                if k != id {
                    assert(before.contains_key(k));
                }
            }
        }
        self.routes = routes;
        assert(self@ =~= old(self)@.insert(id, rv));
    }

    /// The ids of the routes in the order in which the map walks them.
    pub closed spec fn walk(self) -> Seq<u128> {
        into_iter_keys(spec_keys_iter(&self.routes))
    }

    /// The ids of the routes, each once, in the order in which the map walks them.
    pub fn ids(&self) -> (r: Vec<u128>)
        ensures
            r@ == self.walk(),
            r@.no_duplicates(),
            r@.to_set() == self@.dom(),
            r@.len() == self@.len(),
    {
        broadcast use vstd::std_specs::hash::group_hash_axioms;
        let keys_iter = self.routes.keys();
        let ghost rem = keys_iter.remaining();
        let ghost keys = rem.unref();
        assert(keys == self.walk());
        let mut out: Vec<u128> = Vec::new();
        for k in it: keys_iter
            invariant
                it.seq() == rem,
                keys == rem.unref(),
                out@ == keys.take(it.index()),
        {
            let ghost i = it.index();
            out.push(*k);
            assert(keys.take(i + 1) =~= keys.take(i).push(keys[i]));
        }
        assert(keys.take(keys.len() as int) =~= keys);
        assert(self@.dom() =~= self.routes@.dom());
        assert forall|i: int, j: int|
            0 <= i < keys.len() && 0 <= j < keys.len() && i != j implies keys[i] != keys[j] by {
            assert(rem[i] != rem[j]);
        }
        proof {
            keys.unique_seq_to_set();
        }
        out
    }
}

/// The value of label `k`, or the empty text.
pub open spec fn label_or_empty(m: Map<Seq<char>, String>, k: Seq<char>) -> Seq<char> {
    if m.contains_key(k) {
        m[k]@
    } else {
        Seq::empty()
    }
}

/// The route id of a target with labels `m`: from its task ARN, container
/// name and container id (each empty when missing).
pub open spec fn target_route_id(m: Map<Seq<char>, String>) -> u128 {
    url_uuid_v5(
        route_name(
            label_or_empty(m, "__meta_ecs_task_arn"@),
            label_or_empty(m, "__meta_ecs_container_name"@),
            label_or_empty(m, "__meta_ecs_container_id"@),
        ),
    )
}

/// The routes of a list of targets: each target with an address is routed,
/// under its route id, to its first address; a later target replaces an
/// earlier one with the same id.
pub open spec fn routes_of(ts: Seq<Target>) -> Map<u128, RouteView>
    decreases ts.len(),
{
    if ts.len() == 0 {
        Map::empty()
    } else {
        let rest = routes_of(ts.drop_last());
        let t = ts.last();
        if t.targets@.len() == 0 {
            rest
        } else {
            rest.insert(target_route_id(t.labels@), (t.targets@[0]@, t.labels@))
        }
    }
}

fn label_text_or_empty(labels: &Labels, k: &str) -> (r: String)
    ensures
        r@ == label_or_empty(labels@, k@),
{
    match labels.get(k) {
        Some(v) => v.clone(),
        None => String::new(),
    }
}

/// The routing table of a list of targets.
pub fn build_routing_table(targets: &Vec<Target>) -> (r: RoutingTable)
    ensures
        r@ == routes_of(targets@),
{
    let mut table = RoutingTable::new();
    let mut i: usize = 0;
    while i < targets.len()
        invariant
            0 <= i <= targets@.len(),
            table@ == routes_of(targets@.take(i as int)),
        decreases targets.len() - i,
    {
        let t = &targets[i];
        assert(targets@.take(i + 1).drop_last() =~= targets@.take(i as int));
        assert(targets@.take(i + 1).last() == targets@[i as int]);
        if t.targets.len() > 0 {
            let address = t.targets[0].clone();
            let task_arn = label_text_or_empty(&t.labels, "__meta_ecs_task_arn");
            let container_name = label_text_or_empty(&t.labels, "__meta_ecs_container_name");
            let container_id = label_text_or_empty(&t.labels, "__meta_ecs_container_id");
            let id = route_id(task_arn.as_str(), container_name.as_str(), container_id.as_str());
            let labels = t.labels.duplicate();
            table.insert(ProxyTarget { address, route_id: id, labels });
        }
        i = i + 1;
    }
    assert(targets@.take(targets@.len() as int) =~= targets@);
    table
}

// ---------------------------------------------------------------------------
// Discovery targets in proxy mode
// ---------------------------------------------------------------------------

/// The metrics path through the proxy for a route.
pub open spec fn proxy_metrics_path(id: u128) -> Seq<char> {
    "/proxy/"@ + uuid_text(id) + "/metrics"@
}

/// The labels of a proxied target: its own, with the metrics path pointing
/// through the proxy and the scheme of the public address.
pub open spec fn proxy_labels(m: Map<Seq<char>, String>, id: u128, scheme: Seq<char>) -> Map<
    Seq<char>,
    Seq<char>,
> {
    m.map_values(|v: String| v@).insert("__metrics_path__"@, proxy_metrics_path(id)).insert(
        "__scheme__"@,
        scheme,
    )
}

/// The discovery entry of a route in proxy mode: Prometheus scrapes this
/// service's public address, on the route's path through the proxy.
pub fn build_proxy_sd_target(
    id: u128,
    proxy_target: &ProxyTarget,
    public_address: &str,
    public_address_scheme: &str,
) -> (r: Target)
    ensures
        r.targets@.len() == 1,
        r.targets@[0]@ == public_address@,
        r.labels@.map_values(|v: String| v@) == proxy_labels(
            proxy_target.labels@,
            id,
            public_address_scheme@,
        ),
{
    let mut labels = proxy_target.labels.duplicate();
    let a = cat("/proxy/", route_id_text(id).as_str());
    let path = cat(a.as_str(), "/metrics");
    labels.insert("__metrics_path__".to_owned(), path);
    labels.insert("__scheme__".to_owned(), public_address_scheme.to_owned());
    assert(labels@.map_values(|v: String| v@) =~= proxy_labels(
        proxy_target.labels@,
        id,
        public_address_scheme@,
    ));
    let mut targets: Vec<String> = Vec::new();
    targets.push(public_address.to_owned());
    Target { targets, labels }
}

/// The text labels of `m` that a target carries at `level`.
pub open spec fn text_at_level(m: Map<Seq<char>, Seq<char>>, level: MetadataLevel) -> Map<
    Seq<char>,
    Seq<char>,
> {
    Map::new(|k: Seq<char>| m.contains_key(k) && level_includes(level, label_level(k)), |k: Seq<char>| m[k])
}

/// The discovery entries of every route in proxy mode, in the order the table walks them, each
/// with the labels of `level`.
pub fn proxy_sd_targets(
    table: &RoutingTable,
    public_address: &str,
    public_address_scheme: &str,
    level: MetadataLevel,
) -> (r: Vec<Target>)
    ensures
        r@.len() == table.walk().len(),
        r@.len() == table@.len(),
        forall|i: int|
            0 <= i < r@.len() ==> {
                let id = table.walk()[i];
                &&& (#[trigger] r@[i]).targets@.len() == 1
                &&& r@[i].targets@[0]@ == public_address@
                &&& r@[i].labels@.map_values(|v: String| v@) == text_at_level(
                    proxy_labels(table@[id].1, id, public_address_scheme@),
                    level,
                )
            },
{
    let ids = table.ids();
    let mut out: Vec<Target> = Vec::new();
    let mut i: usize = 0;
    while i < ids.len()
        invariant
            0 <= i <= ids@.len(),
            ids@ == table.walk(),
            table.walk().to_set() == table@.dom(),
            out@.len() == i,
            forall|j: int|
                0 <= j < i ==> {
                    let id = table.walk()[j];
                    &&& (#[trigger] out@[j]).targets@.len() == 1
                    &&& out@[j].targets@[0]@ == public_address@
                    &&& out@[j].labels@.map_values(|v: String| v@) == text_at_level(
                        proxy_labels(table@[id].1, id, public_address_scheme@),
                        level,
                    )
                },
        decreases ids.len() - i,
    {
        let id = ids[i];
        assert(table.walk().to_set().contains(id));
        let pt = table.get(id).unwrap();
        let t = build_proxy_sd_target(pt.route_id, pt, public_address, public_address_scheme);
        let f = filter_labels_by_level(&t, level);
        assert(f.labels@.map_values(|v: String| v@) =~= text_at_level(
            t.labels@.map_values(|v: String| v@),
            level,
        ));
        out.push(f);
        i = i + 1;
    }
    out
}

} // verus!
