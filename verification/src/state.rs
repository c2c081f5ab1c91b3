//! The cache that discovery responses are served from, and what a refresh
//! reports about it.
use vstd::prelude::*;
use crate::config::Mode;
use crate::level::MetadataLevel;
use crate::route::{build_routing_table, routes_of, RouteView, RoutingTable};
use crate::sd::UnixTime;
use crate::strmap::StrMap;
use crate::target::{clone_strings, filter_labels_by_level, labels_at_level, Labels, Target};
use crate::text::str_eq;

verus! {

broadcast use vstd::set::group_set_axioms, vstd::seq_lib::seq_to_set_is_finite;

/// The outcome of the latest refresh.
#[derive(Debug, Clone, Copy, PartialEq, Eq, Structural)]
pub struct RefreshOutcome {
    pub success: bool,
    pub timestamp_unix: u64,
}

/// Whether `ts` holds, target by target, the targets of `aws` with the labels
/// of `level`.
pub open spec fn is_tier_of(ts: Seq<Target>, aws: Seq<Target>, level: MetadataLevel) -> bool {
    &&& ts.len() == aws.len()
    &&& forall|i: int|
        0 <= i < ts.len() ==> {
            &&& (#[trigger] ts[i]).targets@ == aws[i].targets@
            &&& ts[i].labels@ == labels_at_level(aws[i].labels@, level)
        }
}

/// What discovery responses are served from: the discovered targets at each
/// metadata level, when they were discovered, and the proxy routes.
pub struct CacheSnapshot {
    pub container: Vec<Target>,
    pub task: Vec<Target>,
    pub service: Vec<Target>,
    pub cluster: Vec<Target>,
    pub aws: Vec<Target>,
    pub last_refresh: UnixTime,
    pub routing_table: RoutingTable,
}

impl CacheSnapshot {
    /// The targets served at `level`.
    pub open spec fn tier(self, level: MetadataLevel) -> Seq<Target> {
        match level {
            MetadataLevel::Container => self.container@,
            MetadataLevel::Task => self.task@,
            MetadataLevel::Service => self.service@,
            MetadataLevel::Cluster => self.cluster@,
            MetadataLevel::Aws => self.aws@,
        }
    }

    /// The targets served at `level`.
    pub fn targets_at(&self, level: MetadataLevel) -> (r: &Vec<Target>)
        ensures
            r@ == self.tier(level),
    {
        match level {
            MetadataLevel::Container => &self.container,
            MetadataLevel::Task => &self.task,
            MetadataLevel::Service => &self.service,
            MetadataLevel::Cluster => &self.cluster,
            MetadataLevel::Aws => &self.aws,
        }
    }

    /// The snapshot before the first refresh: no targets, refreshed at the
    /// epoch, no routes.
    pub fn empty() -> (r: CacheSnapshot)
        ensures
            forall|l: MetadataLevel| r.tier(l).len() == 0,
            r.last_refresh.total_nanos() == 0,
            r.routing_table@ == Map::<u128, RouteView>::empty(),
    {
        CacheSnapshot {
            container: Vec::new(),
            task: Vec::new(),
            service: Vec::new(),
            cluster: Vec::new(),
            aws: Vec::new(),
            last_refresh: UnixTime::epoch(),
            routing_table: RoutingTable::new(),
        }
    }
}

/// The targets with the labels of `level`.
pub fn tier_of(targets: &Vec<Target>, level: MetadataLevel) -> (r: Vec<Target>)
    ensures
        is_tier_of(r@, targets@, level),
{
    let mut out: Vec<Target> = Vec::new();
    let mut i: usize = 0;
    while i < targets.len()
        invariant
            0 <= i <= targets@.len(),
            out@.len() == i,
            forall|j: int|
                0 <= j < i ==> {
                    &&& (#[trigger] out@[j]).targets@ == targets@[j].targets@
                    &&& out@[j].labels@ == labels_at_level(targets@[j].labels@, level)
                },
        decreases targets.len() - i,
    {
        out.push(filter_labels_by_level(&targets[i], level));
        i = i + 1;
    }
    out
}

/// The snapshot of a refresh at `now`: the discovered targets at every level
/// and, in proxy mode, their routes.
pub fn build_snapshot(targets_aws: Vec<Target>, mode: Mode, now: UnixTime) -> (r: CacheSnapshot)
    ensures
        r.aws@ == targets_aws@,
        is_tier_of(r.cluster@, targets_aws@, MetadataLevel::Cluster),
        is_tier_of(r.service@, targets_aws@, MetadataLevel::Service),
        is_tier_of(r.task@, targets_aws@, MetadataLevel::Task),
        is_tier_of(r.container@, targets_aws@, MetadataLevel::Container),
        r.last_refresh == now,
        mode == Mode::Proxy ==> r.routing_table@ == routes_of(targets_aws@),
        mode == Mode::Discovery ==> r.routing_table@ == Map::<u128, RouteView>::empty(),
{
    let cluster = tier_of(&targets_aws, MetadataLevel::Cluster);
    let service = tier_of(&targets_aws, MetadataLevel::Service);
    let task = tier_of(&targets_aws, MetadataLevel::Task);
    let container = tier_of(&targets_aws, MetadataLevel::Container);
    let routing_table = if mode == Mode::Proxy {
        build_routing_table(&targets_aws)
    } else {
        RoutingTable::new()
    };
    CacheSnapshot {
        container,
        task,
        service,
        cluster,
        aws: targets_aws,
        last_refresh: now,
        routing_table,
    }
}

/// The cluster a target is counted under: its cluster name, or `unknown`.
pub open spec fn cluster_of(t: Target) -> Seq<char> {
    if t.labels@.contains_key("__meta_ecs_cluster_name"@) {
        t.labels@["__meta_ecs_cluster_name"@]@
    } else {
        "unknown"@
    }
}

/// The number of addresses of the targets counted under `cluster`.
pub open spec fn cluster_count(ts: Seq<Target>, cluster: Seq<char>) -> nat
    decreases ts.len(),
{
    if ts.len() == 0 {
        0
    } else {
        cluster_count(ts.drop_last(), cluster) + if cluster_of(ts.last()) == cluster {
            ts.last().targets@.len()
        } else {
            0
        }
    }
}

/// The number of addresses of all targets.
pub open spec fn address_count(ts: Seq<Target>) -> nat
    decreases ts.len(),
{
    if ts.len() == 0 {
        0
    } else {
        address_count(ts.drop_last()) + ts.last().targets@.len()
    }
}

/// Whether some target is counted under `cluster`.
pub open spec fn has_cluster(ts: Seq<Target>, cluster: Seq<char>) -> bool {
    exists|i: int| 0 <= i < ts.len() && cluster_of(#[trigger] ts[i]) == cluster
}

proof fn lemma_cluster_count_bounded(ts: Seq<Target>, cluster: Seq<char>)
    ensures
        cluster_count(ts, cluster) <= address_count(ts),
    decreases ts.len(),
{
    if ts.len() > 0 {
        lemma_cluster_count_bounded(ts.drop_last(), cluster);
    }
}

proof fn lemma_cluster_count_zero(ts: Seq<Target>, cluster: Seq<char>)
    requires
        !has_cluster(ts, cluster),
    ensures
        cluster_count(ts, cluster) == 0,
    decreases ts.len(),
{
    if ts.len() > 0 {
        assert(!has_cluster(ts.drop_last(), cluster)) by {
            if has_cluster(ts.drop_last(), cluster) {
                let i = choose|i: int| 0 <= i < ts.drop_last().len() && cluster_of(#[trigger] ts.drop_last()[i]) == cluster;
                assert(ts[i] == ts.drop_last()[i]);
            }
        }
        assert(cluster_of(ts[ts.len() - 1]) != cluster);
        lemma_cluster_count_zero(ts.drop_last(), cluster);
    }
}

fn cluster_name_of(t: &Target) -> (r: String)
    ensures
        r@ == cluster_of(*t),
{
    match t.labels.get("__meta_ecs_cluster_name") {
        Some(v) => v.clone(),
        None => "unknown".to_owned(),
    }
}

/// The number of addresses per cluster, clusters named by their cluster name
/// label, targets without one counted under `unknown`.
pub fn per_cluster_target_counts(targets: &Vec<Target>) -> (r: StrMap<usize>)
    requires
        address_count(targets@) <= usize::MAX,
    ensures
        forall|c: Seq<char>| #[trigger] r@.contains_key(c) <==> has_cluster(targets@, c),
        forall|c: Seq<char>| #[trigger] r@.contains_key(c) ==> r@[c] == cluster_count(targets@, c),
{
    let mut counts: StrMap<usize> = StrMap::new();
    let mut i: usize = 0;
    while i < targets.len()
        invariant
            0 <= i <= targets@.len(),
            address_count(targets@) <= usize::MAX,
            forall|c: Seq<char>| #[trigger] counts@.contains_key(c) <==> has_cluster(targets@.take(i as int), c),
            forall|c: Seq<char>| #[trigger] counts@.contains_key(c) ==> counts@[c] == cluster_count(
                targets@.take(i as int),
                c,
            ),
        decreases targets.len() - i,
    {
        let t = &targets[i];
        let ghost pre = targets@.take(i as int);
        let ghost post = targets@.take(i + 1);
        assert(post.drop_last() =~= pre);
        assert(post.last() == *t);
        let name = cluster_name_of(t);
        let current: usize = match counts.get(name.as_str()) {
            Some(n) => *n,
            None => 0,
        };
        proof {
            if !counts@.contains_key(name@) {
                lemma_cluster_count_zero(pre, name@);
            }
            lemma_cluster_count_bounded(post, name@);
            lemma_address_count_prefix(targets@, i + 1);
        }
        let ghost before = counts@;
        counts.insert(name, current + t.targets.len());
        proof {
            assert forall|c: Seq<char>| #[trigger] counts@.contains_key(c) <==> has_cluster(post, c) by {
                if has_cluster(post, c) && c != name@ {
                    let k = choose|k: int| 0 <= k < post.len() && cluster_of(#[trigger] post[k]) == c;
                    assert(k < pre.len());
                    assert(pre[k] == post[k]);
                }
                if has_cluster(pre, c) {
                    let k = choose|k: int| 0 <= k < pre.len() && cluster_of(#[trigger] pre[k]) == c;
                    assert(pre[k] == post[k]);
                }
                if c == name@ {
                    assert(cluster_of(post[i as int]) == c);
                }
            }
        }
        i = i + 1;
    }
    assert(targets@.take(targets@.len() as int) =~= targets@);
    counts
}

proof fn lemma_address_count_prefix(ts: Seq<Target>, n: int)
    requires
        0 <= n <= ts.len(),
    ensures
        address_count(ts.take(n)) <= address_count(ts),
    decreases ts.len() - n,
{
    if n < ts.len() {
        lemma_address_count_prefix(ts, n + 1);
        assert(ts.take(n + 1).drop_last() =~= ts.take(n));
    } else {
        assert(ts.take(n) =~= ts);
    }
}

/// The values the per-cluster target gauge holds after a refresh: each
/// cluster of the new targets at its count, and each cluster that had
/// targets before, or is configured, back at zero.
pub fn per_cluster_gauge_values(
    configured_clusters: &Vec<String>,
    old_targets: &Vec<Target>,
    new_targets: &Vec<Target>,
) -> (r: StrMap<usize>)
    requires
        address_count(old_targets@) <= usize::MAX,
        address_count(new_targets@) <= usize::MAX,
    ensures
        forall|c: Seq<char>|
            #[trigger] r@.contains_key(c) <==> (has_cluster(new_targets@, c) || has_cluster(
                old_targets@,
                c,
            ) || exists|j: int| 0 <= j < configured_clusters@.len() && #[trigger] configured_clusters@[j]@ == c),
        forall|c: Seq<char>|
            #[trigger] r@.contains_key(c) ==> r@[c] == if has_cluster(new_targets@, c) {
                cluster_count(new_targets@, c)
            } else {
                0
            },
{
    let old_counts = per_cluster_target_counts(old_targets);
    let new_counts = per_cluster_target_counts(new_targets);
    let mut values: StrMap<usize> = StrMap::new();
    let n = old_counts.entry_count();
    let mut i: usize = 0;
    while i < n
        invariant
            0 <= i <= n,
            n == old_counts.size(),
            forall|c: Seq<char>| #[trigger] values@.contains_key(c) <==> exists|j: int| 0 <= j < i && #[trigger] old_counts.key_at(j) == c,
            forall|c: Seq<char>| #[trigger] values@.contains_key(c) ==> values@[c] == 0,
        decreases n - i,
    {
        let (k, _) = old_counts.entry(i);
        values.insert(k.clone(), 0);
        i = i + 1;
    }
    let mut j: usize = 0;
    while j < configured_clusters.len()
        invariant
            0 <= j <= configured_clusters@.len(),
            n == old_counts.size(),
            forall|c: Seq<char>| #[trigger] values@.contains_key(c) <==> (
                (exists|q: int| 0 <= q < n && #[trigger] old_counts.key_at(q) == c)
                || exists|q: int| 0 <= q < j && #[trigger] configured_clusters@[q]@ == c),
            forall|c: Seq<char>| #[trigger] values@.contains_key(c) ==> values@[c] == 0,
        decreases configured_clusters.len() - j,
    {
        values.insert(configured_clusters[j].clone(), 0);
        j = j + 1;
    }
    let m = new_counts.entry_count();
    let mut k: usize = 0;
    while k < m
        invariant
            0 <= k <= m,
            n == old_counts.size(),
            m == new_counts.size(),
            forall|c: Seq<char>| #[trigger] values@.contains_key(c) <==> (
                (exists|q: int| 0 <= q < n && #[trigger] old_counts.key_at(q) == c)
                || (exists|q: int| 0 <= q < configured_clusters@.len() && #[trigger] configured_clusters@[q]@ == c)
                || exists|q: int| 0 <= q < k && #[trigger] new_counts.key_at(q) == c),
            forall|c: Seq<char>| #[trigger] values@.contains_key(c) ==> values@[c] == if (exists|q: int| 0 <= q < k && #[trigger] new_counts.key_at(q) == c) {
                new_counts@[c]
            } else {
                0
            },
        decreases m - k,
    {
        let (name, count) = new_counts.entry(k);
        let ghost before = values@;
        values.insert(name.clone(), *count);
        proof {
            assert forall|c: Seq<char>| #[trigger] values@.contains_key(c) implies values@[c] == if (exists|q: int| 0 <= q < k + 1 && #[trigger] new_counts.key_at(q) == c) {
                new_counts@[c]
            } else {
                0
            } by {
                if c == name@ {
                    assert(new_counts.key_at(k as int) == c);
                } else if exists|q: int| 0 <= q < k + 1 && #[trigger] new_counts.key_at(q) == c {
                    let q = choose|q: int| 0 <= q < k + 1 && #[trigger] new_counts.key_at(q) == c;
                    assert(q < k);
                }
            }
        }
        k = k + 1;
    }
    proof {
        assert forall|c: Seq<char>| #[trigger] values@.contains_key(c) <==> (has_cluster(new_targets@, c) || has_cluster(
                old_targets@,
                c,
            ) || exists|j: int| 0 <= j < configured_clusters@.len() && #[trigger] configured_clusters@[j]@ == c) by {
            assert(old_counts@.contains_key(c) == old_counts.has_key(c));
            assert(new_counts@.contains_key(c) == new_counts.has_key(c));
        }
        assert forall|c: Seq<char>| #[trigger] values@.contains_key(c) implies values@[c] == if has_cluster(new_targets@, c) {
                cluster_count(new_targets@, c)
            } else {
                0
            } by {
            assert(new_counts@.contains_key(c) == new_counts.has_key(c));
        }
    }
    values
}

/// The addresses of the targets, in order.
pub open spec fn addresses_of(ts: Seq<Target>) -> Seq<Seq<char>>
    decreases ts.len(),
{
    if ts.len() == 0 {
        Seq::empty()
    } else {
        addresses_of(ts.drop_last()) + ts.last().targets@.map_values(|s: String| s@)
    }
}

/// Every address of the targets, in order.
pub fn target_addresses(targets: &Vec<Target>) -> (r: Vec<String>)
    ensures
        r@.map_values(|s: String| s@) == addresses_of(targets@),
{
    let mut out: Vec<String> = Vec::new();
    let mut i: usize = 0;
    while i < targets.len()
        invariant
            0 <= i <= targets@.len(),
            out@.map_values(|s: String| s@) == addresses_of(targets@.take(i as int)),
        decreases targets.len() - i,
    {
        let t = &targets[i];
        assert(targets@.take(i + 1).drop_last() =~= targets@.take(i as int));
        assert(targets@.take(i + 1).last() == *t);
        let ghost before = out@.map_values(|s: String| s@);
        let mut j: usize = 0;
        while j < t.targets.len()
            invariant
                0 <= j <= t.targets@.len(),
                out@.map_values(|s: String| s@) == before + t.targets@.map_values(|s: String| s@).take(j as int),
            decreases t.targets.len() - j,
        {
            let ghost mid = out@.map_values(|s: String| s@);
            out.push(t.targets[j].clone());
            assert(out@.map_values(|s: String| s@) =~= mid.push(t.targets@[j as int]@));
            assert(t.targets@.map_values(|s: String| s@).take(j + 1) =~= t.targets@.map_values(|s: String| s@).take(j as int).push(t.targets@[j as int]@));
            j = j + 1;
        }
        assert(t.targets@.map_values(|s: String| s@).take(t.targets@.len() as int) =~= t.targets@.map_values(|s: String| s@));
        i = i + 1;
    }
    assert(targets@.take(targets@.len() as int) =~= targets@);
    out
}

/// The number of distinct elements of `s` that are not in `other`, counted
/// at their first occurrence.
pub open spec fn fresh_count(s: Seq<Seq<char>>, other: Set<Seq<char>>) -> nat
    decreases s.len(),
{
    if s.len() == 0 {
        0
    } else {
        fresh_count(s.drop_last(), other) + if !other.contains(s.last()) && !s.drop_last().contains(
            s.last(),
        ) {
            1nat
        } else {
            0nat
        }
    }
}

/// Counting at first occurrences is the size of the set difference.
pub proof fn lemma_fresh_count_is_difference_size(s: Seq<Seq<char>>, other: Set<Seq<char>>)
    ensures
        fresh_count(s, other) == s.to_set().difference(other).len(),
    decreases s.len(),
{
    if s.len() == 0 {
        assert(s.to_set().difference(other) =~= Set::<Seq<char>>::empty());
    } else {
        let init = s.drop_last();
        let x = s.last();
        lemma_fresh_count_is_difference_size(init, other);
        assert(s =~= init.push(x));
        assert(s.to_set() =~= init.to_set().insert(x));
        let d0 = init.to_set().difference(other);
        let d1 = s.to_set().difference(other);
        assert(d0.finite()) by {
            vstd::set_lib::lemma_set_subset_finite(init.to_set(), d0);
        }
        if other.contains(x) || init.contains(x) {
            assert(d1 =~= d0);
        } else {
            assert(d1 =~= d0.insert(x));
            assert(!d0.contains(x));
        }
    }
}

/// A refresh that finds the same addresses adds and removes none.
pub proof fn lemma_no_churn_without_change(addresses: Seq<Seq<char>>)
    ensures
        addresses.to_set().difference(addresses.to_set()).len() == 0,
{
    assert(addresses.to_set().difference(addresses.to_set()) =~= Set::<Seq<char>>::empty());
}

fn contains_string(v: &Vec<String>, s: &str, upto: usize) -> (r: bool)
    requires
        upto <= v@.len(),
    ensures
        r == v@.map_values(|x: String| x@).take(upto as int).contains(s@),
{
    let ghost vs = v@.map_values(|x: String| x@).take(upto as int);
    let mut i: usize = 0;
    while i < upto
        invariant
            0 <= i <= upto,
            upto <= v@.len(),
            vs == v@.map_values(|x: String| x@).take(upto as int),
            forall|j: int| 0 <= j < i ==> #[trigger] vs[j] != s@,
        decreases upto - i,
    {
        if str_eq(v[i].as_str(), s) {
            assert(vs[i as int] == s@);
            return true;
        }
        i = i + 1;
    }
    false
}

fn count_fresh(s: &Vec<String>, other: &Vec<String>) -> (r: usize)
    ensures
        r == fresh_count(s@.map_values(|x: String| x@), other@.map_values(|x: String| x@).to_set()),
{
    let ghost ss = s@.map_values(|x: String| x@);
    let ghost os = other@.map_values(|x: String| x@);
    let mut count: usize = 0;
    let mut i: usize = 0;
    while i < s.len()
        invariant
            0 <= i <= s@.len(),
            ss == s@.map_values(|x: String| x@),
            os == other@.map_values(|x: String| x@),
            count == fresh_count(ss.take(i as int), os.to_set()),
            count <= i,
        decreases s.len() - i,
    {
        assert(ss.take(i + 1).drop_last() =~= ss.take(i as int));
        assert(ss.take(i + 1).last() == s@[i as int]@);
        assert(os.take(os.len() as int) =~= os);
        let in_other = contains_string(other, s[i].as_str(), other.len());
        let seen = contains_string(s, s[i].as_str(), i);
        assert(ss.take(i as int) =~= s@.map_values(|x: String| x@).take(i as int));
        if !in_other && !seen {
            count = count + 1;
        }
        i = i + 1;
    }
    assert(ss.take(s@.len() as int) =~= ss);
    count
}

/// How many distinct addresses a refresh added and how many it removed.
pub fn target_address_churn(old: &Vec<String>, new: &Vec<String>) -> (r: (usize, usize))
    ensures
        r.0 == new@.map_values(|x: String| x@).to_set().difference(
            old@.map_values(|x: String| x@).to_set(),
        ).len(),
        r.1 == old@.map_values(|x: String| x@).to_set().difference(
            new@.map_values(|x: String| x@).to_set(),
        ).len(),
{
    let added = count_fresh(new, old);
    let removed = count_fresh(old, new);
    proof {
        lemma_fresh_count_is_difference_size(
            new@.map_values(|x: String| x@),
            old@.map_values(|x: String| x@).to_set(),
        );
        lemma_fresh_count_is_difference_size(
            old@.map_values(|x: String| x@),
            new@.map_values(|x: String| x@).to_set(),
        );
    }
    (added, removed)
}

/// The time-to-live of the cache: the refresh interval, at least a second.
pub fn cache_ttl_seconds(refresh_interval: u64) -> (r: u64)
    ensures
        r == if refresh_interval >= 1 {
            refresh_interval
        } else {
            1
        },
{
    if refresh_interval >= 1 {
        refresh_interval
    } else {
        1
    }
}

} // verus!
