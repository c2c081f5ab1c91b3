//! The filtering of discovery responses by query parameters.
use vstd::prelude::*;
use crate::level::{FilterMode, MetadataLevel};
use crate::target::{pairs_text, Labels, Target};
use crate::text::{cat, has_prefix, str_eq, strip_prefix};

verus! {

/// Query parameters of a discovery request.
pub struct SdQueryParams {
    /// Cluster names; a target matches when its cluster is one of them.
    pub clusters: Vec<String>,
    /// Service names.
    pub services: Vec<String>,
    /// Task definition families.
    pub families: Vec<String>,
    /// Metadata level override.
    pub level: Option<MetadataLevel>,
    /// How the filters combine.
    pub filter_mode: FilterMode,
    /// Tag filters as `(tag name, value)`; repeated names are alternatives.
    pub tag_filters: Vec<(String, String)>,
}

impl Default for SdQueryParams {
    fn default() -> (r: Self)
        ensures
            r.clusters@.len() == 0,
            r.services@.len() == 0,
            r.families@.len() == 0,
            r.level is None,
            r.filter_mode == FilterMode::And,
            r.tag_filters@.len() == 0,
    {
        SdQueryParams {
            clusters: Vec::new(),
            services: Vec::new(),
            families: Vec::new(),
            level: None,
            filter_mode: FilterMode::And,
            tag_filters: Vec::new(),
        }
    }
}

/// Whether `v` is one of the strings of `list`.
pub open spec fn text_listed(v: Seq<char>, list: Seq<String>) -> bool {
    exists|i: int| 0 <= i < list.len() && #[trigger] list[i]@ == v
}

/// The value of label `primary`, or else of label `legacy`.
pub open spec fn label_with_fallback(
    m: Map<Seq<char>, String>,
    primary: Seq<char>,
    legacy: Seq<char>,
) -> Option<Seq<char>> {
    if m.contains_key(primary) {
        Some(m[primary]@)
    } else if m.contains_key(legacy) {
        Some(m[legacy]@)
    } else {
        None
    }
}

/// Whether a label value is present and one of `list`.
pub open spec fn listed(o: Option<Seq<char>>, list: Seq<String>) -> bool {
    match o {
        Some(v) => text_listed(v, list),
        None => false,
    }
}

/// The label that carries tag `k`.
pub open spec fn tag_label_name(k: Seq<char>) -> Seq<char> {
    "__meta_ecs_tag_"@ + k
}

/// Whether the target carries tag `k` with one of the values that the tag
/// filters give for `k`.
pub open spec fn tag_group_matches(
    m: Map<Seq<char>, String>,
    tf: Seq<(String, String)>,
    k: Seq<char>,
) -> bool {
    &&& m.contains_key(tag_label_name(k))
    &&& exists|j: int|
        0 <= j < tf.len() && #[trigger] tf[j].0@ == k && tf[j].1@ == m[tag_label_name(k)]@
}

/// The cluster filter: the cluster name, or the legacy cluster label, is listed.
pub open spec fn cluster_check(m: Map<Seq<char>, String>, p: SdQueryParams) -> bool {
    listed(label_with_fallback(m, "__meta_ecs_cluster_name"@, "__meta_ecs_cluster"@), p.clusters@)
}

/// The service filter: the service name, or the legacy service label, is listed.
pub open spec fn service_check(m: Map<Seq<char>, String>, p: SdQueryParams) -> bool {
    listed(label_with_fallback(m, "__meta_ecs_service_name"@, "__meta_ecs_service"@), p.services@)
}

/// The value of label `k`, if the target has it.
pub open spec fn label_value(m: Map<Seq<char>, String>, k: Seq<char>) -> Option<Seq<char>> {
    if m.contains_key(k) {
        Some(m[k]@)
    } else {
        None
    }
}

/// The family filter: the task family is listed.
pub open spec fn family_check(m: Map<Seq<char>, String>, p: SdQueryParams) -> bool {
    listed(label_value(m, "__meta_ecs_task_family"@), p.families@)
}

/// Whether the request asks for any filtering at all.
pub open spec fn has_checks(p: SdQueryParams) -> bool {
    p.clusters@.len() > 0 || p.services@.len() > 0 || p.families@.len() > 0
        || p.tag_filters@.len() > 0
}

/// Every requested filter passes (tag filters: every tag name that is asked for).
pub open spec fn all_checks_pass(m: Map<Seq<char>, String>, p: SdQueryParams) -> bool {
    &&& p.clusters@.len() > 0 ==> cluster_check(m, p)
    &&& p.services@.len() > 0 ==> service_check(m, p)
    &&& p.families@.len() > 0 ==> family_check(m, p)
    &&& forall|i: int|
        0 <= i < p.tag_filters@.len() ==> tag_group_matches(
            m,
            p.tag_filters@,
            #[trigger] p.tag_filters@[i].0@,
        )
}

/// Some requested filter passes.
pub open spec fn some_check_passes(m: Map<Seq<char>, String>, p: SdQueryParams) -> bool {
    ||| p.clusters@.len() > 0 && cluster_check(m, p)
    ||| p.services@.len() > 0 && service_check(m, p)
    ||| p.families@.len() > 0 && family_check(m, p)
    ||| exists|i: int|
        0 <= i < p.tag_filters@.len() && tag_group_matches(
            m,
            p.tag_filters@,
            #[trigger] p.tag_filters@[i].0@,
        )
}

/// Whether a target with labels `m` is kept by the request `p`: with no
/// filters every target is; otherwise all filters must pass (`And`) or one
/// of them (`Or`).
pub open spec fn target_matches(m: Map<Seq<char>, String>, p: SdQueryParams) -> bool {
    if !has_checks(p) {
        true
    } else {
        match p.filter_mode {
            FilterMode::And => all_checks_pass(m, p),
            FilterMode::Or => some_check_passes(m, p),
        }
    }
}

/// The predicate that `filter_targets` keeps targets by.
pub open spec fn keeps(p: SdQueryParams) -> spec_fn(Target) -> bool {
    |t: Target| target_matches(t.labels@, p)
}

/// Whether `v` is one of the strings of `list`.
fn text_in(v: &str, list: &Vec<String>) -> (r: bool)
    ensures
        r == text_listed(v@, list@),
{
    let mut i: usize = 0;
    while i < list.len()
        invariant
            0 <= i <= list@.len(),
            forall|j: int| 0 <= j < i ==> #[trigger] list@[j]@ != v@,
        decreases list.len() - i,
    {
        if str_eq(list[i].as_str(), v) {
            return true;
        }
        i = i + 1;
    }
    false
}

/// Whether the label `primary`, or else `legacy`, is present with a listed value.
fn fallback_listed(labels: &Labels, primary: &str, legacy: &str, list: &Vec<String>) -> (r: bool)
    ensures
        r == listed(label_with_fallback(labels@, primary@, legacy@), list@),
{
    match labels.get(primary) {
        Some(v) => text_in(v.as_str(), list),
        None => match labels.get(legacy) {
            Some(v) => text_in(v.as_str(), list),
            None => false,
        },
    }
}

/// Whether the target carries tag `k` with one of the values asked for `k`.
fn tag_group_ok(labels: &Labels, tf: &Vec<(String, String)>, k: &str) -> (r: bool)
    ensures
        r == tag_group_matches(labels@, tf@, k@),
{
    let name = cat("__meta_ecs_tag_", k);
    match labels.get(name.as_str()) {
        None => false,
        Some(v) => {
            let mut j: usize = 0;
            while j < tf.len()
                invariant
                    0 <= j <= tf@.len(),
                    labels@.contains_key(tag_label_name(k@)),
                    *v == labels@[tag_label_name(k@)],
                    forall|q: int|
                        0 <= q < j ==> !(#[trigger] tf@[q].0@ == k@ && tf@[q].1@ == v@),
                decreases tf.len() - j,
            {
                if str_eq(tf[j].0.as_str(), k) && str_eq(tf[j].1.as_str(), v.as_str()) {
                    return true;
                }
                j = j + 1;
            }
            false
        },
    }
}

/// Whether the request keeps a target with these labels.
pub fn matches_params(labels: &Labels, params: &SdQueryParams) -> (r: bool)
    ensures
        r == target_matches(labels@, *params),
{
    let want_cluster = params.clusters.len() > 0;
    let want_service = params.services.len() > 0;
    let want_family = params.families.len() > 0;
    let want_tags = params.tag_filters.len() > 0;
    if !(want_cluster || want_service || want_family || want_tags) {
        return true;
    }
    let cluster_ok = want_cluster && fallback_listed(
        labels,
        "__meta_ecs_cluster_name",
        "__meta_ecs_cluster",
        &params.clusters,
    );
    let service_ok = want_service && fallback_listed(
        labels,
        "__meta_ecs_service_name",
        "__meta_ecs_service",
        &params.services,
    );
    let family_ok = want_family && match labels.get("__meta_ecs_task_family") {
        Some(v) => text_in(v.as_str(), &params.families),
        None => false,
    };
    let tf = &params.tag_filters;
    let mut all_tags = true;
    let mut any_tag = false;
    let mut i: usize = 0;
    while i < tf.len()
        invariant
            0 <= i <= tf@.len(),
            tf@ == params.tag_filters@,
            all_tags == (forall|q: int|
                0 <= q < i ==> tag_group_matches(labels@, tf@, #[trigger] tf@[q].0@)),
            any_tag == (exists|q: int|
                0 <= q < i && tag_group_matches(labels@, tf@, #[trigger] tf@[q].0@)),
        decreases tf.len() - i,
    {
        let ok = tag_group_ok(labels, tf, tf[i].0.as_str());
        proof {
            if !ok {
                assert(!tag_group_matches(labels@, tf@, tf@[i as int].0@));
            } else {
                assert(tag_group_matches(labels@, tf@, tf@[i as int].0@));
            }
        }
        all_tags = all_tags && ok;
        any_tag = any_tag || ok;
        i = i + 1;
    }
    match params.filter_mode {
        FilterMode::And => (!want_cluster || cluster_ok) && (!want_service || service_ok) && (
        !want_family || family_ok) && all_tags,
        FilterMode::Or => cluster_ok || service_ok || family_ok || any_tag,
    }
}

/// The targets that the request keeps, in their order.
pub fn filter_targets(targets: Vec<Target>, params: &SdQueryParams) -> (r: Vec<Target>)
    ensures
        r@ == targets@.filter(keeps(*params)),
{
    let ghost all = targets@;
    let ghost f = keeps(*params);
    let mut out: Vec<Target> = Vec::new();
    for t in it: targets.into_iter()
        invariant
            it.seq() == all,
            f == keeps(*params),
            out@ == all.take(it.index()).filter(f),
    {
        let ghost i = it.index();
        proof {
            reveal(Seq::filter);
            assert(all.take(i + 1).drop_last() =~= all.take(i));
            assert(all.take(i + 1).last() == t);
        }
        if matches_params(&t.labels, params) {
            out.push(t);
        }
    }
    assert(all.take(all.len() as int) =~= all);
    out
}

/// With no filters, every target is kept.
pub proof fn lemma_no_filters_keep_all(ts: Seq<Target>, p: SdQueryParams)
    requires
        !has_checks(p),
    ensures
        ts.filter(keeps(p)) == ts,
    decreases ts.len(),
{
    reveal(Seq::filter);
    if ts.len() > 0 {
        lemma_no_filters_keep_all(ts.drop_last(), p);
        assert(ts.drop_last().push(ts.last()) =~= ts);
    }
}

/// Filtering what was already filtered by the same request changes nothing.
pub proof fn lemma_filter_idempotent(ts: Seq<Target>, p: SdQueryParams)
    ensures
        ts.filter(keeps(p)).filter(keeps(p)) == ts.filter(keeps(p)),
    decreases ts.len(),
{
    reveal(Seq::filter);
    if ts.len() > 0 {
        lemma_filter_idempotent(ts.drop_last(), p);
        let sub = ts.drop_last().filter(keeps(p));
        if keeps(p)(ts.last()) {
            assert(sub.push(ts.last()).drop_last() =~= sub);
        }
    }
}

/// A target that passes every filter also passes when any one filter is enough.
pub proof fn lemma_all_filters_imply_any(m: Map<Seq<char>, String>, p: SdQueryParams)
    requires
        has_checks(p),
        p.filter_mode == FilterMode::And,
        target_matches(m, p),
    ensures
        target_matches(m, SdQueryParams { filter_mode: FilterMode::Or, ..p }),
{
    let q = SdQueryParams { filter_mode: FilterMode::Or, ..p };
    assert(cluster_check(m, q) == cluster_check(m, p));
    assert(service_check(m, q) == service_check(m, p));
    assert(family_check(m, q) == family_check(m, p));
    if p.tag_filters@.len() > 0 {
        assert(tag_group_matches(m, q.tag_filters@, q.tag_filters@[0].0@));
    }
}

/// Tag filters with a name that is already asked for are alternatives: adding
/// another value for that name never drops a target.
pub proof fn lemma_same_tag_name_widens(
    m: Map<Seq<char>, String>,
    p: SdQueryParams,
    q: SdQueryParams,
    i0: int,
    v: String,
)
    requires
        0 <= i0 < p.tag_filters@.len(),
        q.tag_filters@ == p.tag_filters@.push((p.tag_filters@[i0].0, v)),
        q.clusters@ == p.clusters@,
        q.services@ == p.services@,
        q.families@ == p.families@,
        q.filter_mode == p.filter_mode,
        target_matches(m, p),
    ensures
        target_matches(m, q),
{
    let tf = p.tag_filters@;
    let tq = q.tag_filters@;
    assert forall|k: Seq<char>| tag_group_matches(m, tf, k) implies tag_group_matches(m, tq, k) by {
        let j = choose|j: int| 0 <= j < tf.len() && #[trigger] tf[j].0@ == k && tf[j].1@ == m[tag_label_name(k)]@;
        assert(tq[j] == tf[j]);
    }
    match p.filter_mode {
        FilterMode::And => {
            assert(tag_group_matches(m, tf, tf[i0].0@));
            assert forall|i: int| 0 <= i < tq.len() implies tag_group_matches(m, tq, #[trigger] tq[i].0@) by {
                if i < tf.len() {
                    assert(tq[i] == tf[i]);
                    assert(tag_group_matches(m, tf, tf[i].0@));
                }
            }
        },
        FilterMode::Or => {
            if exists|i: int| 0 <= i < tf.len() && tag_group_matches(m, tf, #[trigger] tf[i].0@) {
                let i = choose|i: int| 0 <= i < tf.len() && tag_group_matches(m, tf, #[trigger] tf[i].0@);
                assert(tq[i] == tf[i]);
                assert(tag_group_matches(m, tq, tq[i].0@));
            }
        },
    }
}

/// Tag filters with different names must all pass: when every filter must
/// pass, adding a filter for a tag name not yet asked for never adds a target.
pub proof fn lemma_new_tag_name_narrows(
    m: Map<Seq<char>, String>,
    p: SdQueryParams,
    q: SdQueryParams,
    k: String,
    v: String,
)
    requires
        forall|i: int| 0 <= i < p.tag_filters@.len() ==> #[trigger] p.tag_filters@[i].0@ != k@,
        q.tag_filters@ == p.tag_filters@.push((k, v)),
        q.clusters@ == p.clusters@,
        q.services@ == p.services@,
        q.families@ == p.families@,
        p.filter_mode == FilterMode::And,
        q.filter_mode == FilterMode::And,
        target_matches(m, q),
    ensures
        target_matches(m, p),
{
    let tf = p.tag_filters@;
    let tq = q.tag_filters@;
    assert forall|i: int| 0 <= i < tf.len() implies tag_group_matches(m, tf, #[trigger] tf[i].0@) by {
        assert(tq[i] == tf[i]);
        let key = tf[i].0@;
        assert(tag_group_matches(m, tq, tq[i].0@));
        let j = choose|j: int| 0 <= j < tq.len() && #[trigger] tq[j].0@ == key && tq[j].1@ == m[tag_label_name(key)]@;
        assert(j < tf.len());
        assert(tf[j] == tq[j]);
    }
}

/// Every value of `a` is also a value of `b`, and `a` has one: `b` accepts
/// what the filter `a` accepts, and maybe more.
pub open spec fn accepts_more(a: Seq<String>, b: Seq<String>) -> bool {
    &&& a.len() > 0
    &&& forall|i: int| 0 <= i < a.len() ==> text_listed(#[trigger] a[i]@, b)
}

/// Some tag filter of `tf` asks for tag `k` with value `v`.
pub open spec fn tag_filter_listed(k: Seq<char>, v: Seq<char>, tf: Seq<(String, String)>) -> bool {
    exists|j: int| 0 <= j < tf.len() && #[trigger] tf[j].0@ == k && tf[j].1@ == v
}

/// Some tag filter of `tf` asks for tag `k`.
pub open spec fn tag_name_asked(k: Seq<char>, tf: Seq<(String, String)>) -> bool {
    exists|j: int| 0 <= j < tf.len() && #[trigger] tf[j].0@ == k
}

/// `q` asks for the same filters as `p` and accepts more values for one of
/// them: a cluster, service or family list of `p` that is not empty has all
/// its values, wherever they stand, in `q`'s list; or `q`'s tag filters
/// hold all of `p`'s and name only tags that `p` asks for.
pub open spec fn adds_accepted_value(p: SdQueryParams, q: SdQueryParams) -> bool {
    &&& q.filter_mode == p.filter_mode
    &&& {
        ||| accepts_more(p.clusters@, q.clusters@) && q.services@ == p.services@ && q.families@
            == p.families@ && q.tag_filters@ == p.tag_filters@
        ||| accepts_more(p.services@, q.services@) && q.clusters@ == p.clusters@ && q.families@
            == p.families@ && q.tag_filters@ == p.tag_filters@
        ||| accepts_more(p.families@, q.families@) && q.clusters@ == p.clusters@ && q.services@
            == p.services@ && q.tag_filters@ == p.tag_filters@
        ||| q.clusters@ == p.clusters@ && q.services@ == p.services@ && q.families@ == p.families@
            && (forall|i: int|
            0 <= i < p.tag_filters@.len() ==> tag_filter_listed(
                #[trigger] p.tag_filters@[i].0@,
                p.tag_filters@[i].1@,
                q.tag_filters@,
            )) && (forall|j: int|
            0 <= j < q.tag_filters@.len() ==> tag_name_asked(
                #[trigger] q.tag_filters@[j].0@,
                p.tag_filters@,
            ))
    }
}

/// `q` asks for every filter of `p`, all of which must pass, and maybe for
/// more: a cluster, service or family list that is empty in `p` may be given
/// values; or `q`'s tag filters hold all of `p`'s, wherever they stand, and
/// add values only for tags that `p` does not ask for.
pub open spec fn adds_filter(p: SdQueryParams, q: SdQueryParams) -> bool {
    &&& p.filter_mode == FilterMode::And
    &&& q.filter_mode == FilterMode::And
    &&& {
        ||| p.clusters@.len() == 0 && q.services@ == p.services@ && q.families@ == p.families@
            && q.tag_filters@ == p.tag_filters@
        ||| p.services@.len() == 0 && q.clusters@ == p.clusters@ && q.families@ == p.families@
            && q.tag_filters@ == p.tag_filters@
        ||| p.families@.len() == 0 && q.clusters@ == p.clusters@ && q.services@ == p.services@
            && q.tag_filters@ == p.tag_filters@
        ||| q.clusters@ == p.clusters@ && q.services@ == p.services@ && q.families@ == p.families@
            && (forall|i: int|
            0 <= i < p.tag_filters@.len() ==> tag_filter_listed(
                #[trigger] p.tag_filters@[i].0@,
                p.tag_filters@[i].1@,
                q.tag_filters@,
            )) && (forall|j: int|
            0 <= j < q.tag_filters@.len() && tag_name_asked(
                #[trigger] q.tag_filters@[j].0@,
                p.tag_filters@,
            ) ==> tag_filter_listed(q.tag_filters@[j].0@, q.tag_filters@[j].1@, p.tag_filters@))
    }
}

/// A value listed in a list is listed in a list that accepts more.
proof fn lemma_listed_more(o: Option<Seq<char>>, a: Seq<String>, b: Seq<String>)
    requires
        accepts_more(a, b),
        listed(o, a),
    ensures
        listed(o, b),
{
    let v = o.unwrap();
    let i = choose|i: int| 0 <= i < a.len() && #[trigger] a[i]@ == v;
    assert(text_listed(a[i]@, b));
}

/// Accepting more values for a filter never drops a target.
pub proof fn lemma_accepted_value_widens(m: Map<Seq<char>, String>, p: SdQueryParams, q: SdQueryParams)
    requires
        adds_accepted_value(p, q),
        target_matches(m, p),
    ensures
        target_matches(m, q),
{
    let tp = p.tag_filters@;
    let tq = q.tag_filters@;
    if accepts_more(p.clusters@, q.clusters@) && q.services@ == p.services@ && q.families@
        == p.families@ && tq == tp {
        let oc = label_with_fallback(m, "__meta_ecs_cluster_name"@, "__meta_ecs_cluster"@);
        if listed(oc, p.clusters@) {
            lemma_listed_more(oc, p.clusters@, q.clusters@);
        }
    } else if accepts_more(p.services@, q.services@) && q.clusters@ == p.clusters@ && q.families@
        == p.families@ && tq == tp {
        let os = label_with_fallback(m, "__meta_ecs_service_name"@, "__meta_ecs_service"@);
        if listed(os, p.services@) {
            lemma_listed_more(os, p.services@, q.services@);
        }
    } else if accepts_more(p.families@, q.families@) && q.clusters@ == p.clusters@ && q.services@
        == p.services@ && tq == tp {
        let of = label_value(m, "__meta_ecs_task_family"@);
        if listed(of, p.families@) {
            lemma_listed_more(of, p.families@, q.families@);
        }
    } else {
        // A tag that passes under `p` passes under `q`.
        assert forall|k: Seq<char>| tag_group_matches(m, tp, k) implies tag_group_matches(m, tq, k) by {
            let j = choose|j: int|
                0 <= j < tp.len() && #[trigger] tp[j].0@ == k && tp[j].1@ == m[tag_label_name(k)]@;
            assert(tag_filter_listed(tp[j].0@, tp[j].1@, tq));
        }
        if has_checks(p) {
            match p.filter_mode {
                FilterMode::And => {
                    assert forall|i: int| 0 <= i < tq.len() implies tag_group_matches(
                        m,
                        tq,
                        #[trigger] tq[i].0@,
                    ) by {
                        assert(tag_name_asked(tq[i].0@, tp));
                        let j = choose|j: int| 0 <= j < tp.len() && #[trigger] tp[j].0@ == tq[i].0@;
                        assert(tag_group_matches(m, tp, tp[j].0@));
                    }
                },
                FilterMode::Or => {
                    if exists|i: int| 0 <= i < tp.len() && tag_group_matches(m, tp, #[trigger] tp[i].0@) {
                        let i = choose|i: int|
                            0 <= i < tp.len() && tag_group_matches(m, tp, #[trigger] tp[i].0@);
                        assert(tag_filter_listed(tp[i].0@, tp[i].1@, tq));
                        let j = choose|j: int|
                            0 <= j < tq.len() && #[trigger] tq[j].0@ == tp[i].0@ && tq[j].1@ == tp[i].1@;
                        assert(tag_group_matches(m, tq, tq[j].0@));
                    }
                },
            }
        }
        if has_checks(p) && tp.len() > 0 {
            assert(tag_filter_listed(tp[0].0@, tp[0].1@, tq));
        }
        if tq.len() > 0 {
            assert(tag_name_asked(tq[0].0@, tp));
        }
    }
}

/// With every filter required, asking for more filters never adds a target.
pub proof fn lemma_added_filter_narrows(m: Map<Seq<char>, String>, p: SdQueryParams, q: SdQueryParams)
    requires
        adds_filter(p, q),
        target_matches(m, q),
    ensures
        target_matches(m, p),
{
    let tp = p.tag_filters@;
    let tq = q.tag_filters@;
    if has_checks(p) {
        if tp.len() > 0 {
            if tq != tp {
                assert(tag_filter_listed(tp[0].0@, tp[0].1@, tq));
            }
        }
        assert(has_checks(q));
        if q.clusters@ == p.clusters@ && q.services@ == p.services@ && q.families@ == p.families@
            && tq != tp {
            assert forall|i: int| 0 <= i < tp.len() implies tag_group_matches(m, tp, #[trigger] tp[i].0@) by {
                let k = tp[i].0@;
                assert(tag_filter_listed(k, tp[i].1@, tq));
                let j0 = choose|j: int| 0 <= j < tq.len() && #[trigger] tq[j].0@ == k && tq[j].1@ == tp[i].1@;
                assert(tag_group_matches(m, tq, tq[j0].0@));
                let j = choose|j: int|
                    0 <= j < tq.len() && #[trigger] tq[j].0@ == k && tq[j].1@ == m[tag_label_name(k)]@;
                assert(tag_name_asked(tq[j].0@, tp));
                assert(tag_filter_listed(tq[j].0@, tq[j].1@, tp));
            }
        }
    }
}

/// Keeping by a predicate that implies another keeps a subsequence of what
/// the other keeps: exactly what the other keeps, filtered once more.
pub proof fn lemma_filter_within(ts: Seq<Target>, f: spec_fn(Target) -> bool, g: spec_fn(Target) -> bool)
    requires
        forall|t: Target| #[trigger] f(t) ==> g(t),
    ensures
        ts.filter(f) == ts.filter(g).filter(f),
    decreases ts.len(),
{
    reveal(Seq::filter);
    if ts.len() > 0 {
        lemma_filter_within(ts.drop_last(), f, g);
        let sub = ts.drop_last().filter(g);
        if g(ts.last()) {
            assert(sub.push(ts.last()).drop_last() =~= sub);
        }
    }
}

/// Values of one filter are alternatives: accepting more values for a filter,
/// wherever they stand in its list, keeps every target kept before, in the
/// same order, and maybe more.
pub proof fn lemma_more_values_widen_the_result(ts: Seq<Target>, p: SdQueryParams, q: SdQueryParams)
    requires
        adds_accepted_value(p, q),
    ensures
        ts.filter(keeps(p)) == ts.filter(keeps(q)).filter(keeps(p)),
{
    assert forall|t: Target| #[trigger] keeps(p)(t) implies keeps(q)(t) by {
        lemma_accepted_value_widens(t.labels@, p, q);
    }
    lemma_filter_within(ts, keeps(p), keeps(q));
}

/// Filters of different fields must all pass: when every filter is
/// required, asking for more filters keeps only targets kept before, in the
/// same order.
pub proof fn lemma_more_filters_narrow_the_result(ts: Seq<Target>, p: SdQueryParams, q: SdQueryParams)
    requires
        adds_filter(p, q),
    ensures
        ts.filter(keeps(q)) == ts.filter(keeps(p)).filter(keeps(q)),
{
    assert forall|t: Target| #[trigger] keeps(q)(t) implies keeps(p)(t) by {
        lemma_added_filter_narrows(t.labels@, p, q);
    }
    lemma_filter_within(ts, keeps(q), keeps(p));
}

/// The values of the pairs whose name is `key`, in order.
pub open spec fn values_for(pairs: Seq<(Seq<char>, Seq<char>)>, key: Seq<char>) -> Seq<Seq<char>>
    decreases pairs.len(),
{
    if pairs.len() == 0 {
        Seq::empty()
    } else {
        let rest = values_for(pairs.drop_last(), key);
        if pairs.last().0 == key {
            rest.push(pairs.last().1)
        } else {
            rest
        }
    }
}

/// The values of the query pairs named `key`, in order.
pub fn extract_values(pairs: &Vec<(String, String)>, key: &str) -> (r: Vec<String>)
    ensures
        r@.map_values(|s: String| s@) == values_for(pairs_text(pairs@), key@),
{
    let ghost pt = pairs_text(pairs@);
    let mut out: Vec<String> = Vec::new();
    let mut i: usize = 0;
    while i < pairs.len()
        invariant
            0 <= i <= pairs@.len(),
            pt == pairs_text(pairs@),
            out@.map_values(|s: String| s@) == values_for(pt.take(i as int), key@),
        decreases pairs.len() - i,
    {
        assert(pt.take(i + 1).drop_last() =~= pt.take(i as int));
        assert(pt.take(i + 1).last() == (pairs@[i as int].0@, pairs@[i as int].1@));
        let ghost before = out@.map_values(|s: String| s@);
        if str_eq(pairs[i].0.as_str(), key) {
            out.push(pairs[i].1.clone());
            assert(out@.map_values(|s: String| s@) =~= before.push(pairs@[i as int].1@));
        }
        i = i + 1;
    }
    assert(pt.take(pairs@.len() as int) =~= pt);
    out
}

/// The tag filters of the query pairs: each pair whose name begins with
/// `tag_`, with that prefix removed, in order.
pub open spec fn tag_filters_of(pairs: Seq<(Seq<char>, Seq<char>)>) -> Seq<(Seq<char>, Seq<char>)>
    decreases pairs.len(),
{
    if pairs.len() == 0 {
        Seq::empty()
    } else {
        let rest = tag_filters_of(pairs.drop_last());
        let (k, v) = pairs.last();
        if has_prefix(k, "tag_"@) {
            rest.push((k.skip(4), v))
        } else {
            rest
        }
    }
}

/// The tag filters of the query pairs.
pub fn extract_tag_filters_from_pairs(pairs: &Vec<(String, String)>) -> (r: Vec<(String, String)>)
    ensures
        pairs_text(r@) == tag_filters_of(pairs_text(pairs@)),
{
    let ghost pt = pairs_text(pairs@);
    let mut out: Vec<(String, String)> = Vec::new();
    let mut i: usize = 0;
    proof {
        reveal_strlit("tag_");
    }
    assert(pairs_text(out@) =~= tag_filters_of(pt.take(0)));
    while i < pairs.len()
        invariant
            0 <= i <= pairs@.len(),
            pt == pairs_text(pairs@),
            "tag_"@.len() == 4,
            pairs_text(out@) == tag_filters_of(pt.take(i as int)),
        decreases pairs.len() - i,
    {
        assert(pt.take(i + 1).drop_last() =~= pt.take(i as int));
        assert(pt.take(i + 1).last() == (pairs@[i as int].0@, pairs@[i as int].1@));
        let ghost before = pairs_text(out@);
        match strip_prefix(pairs[i].0.as_str(), "tag_") {
            Some(name) => {
                out.push((name, pairs[i].1.clone()));
                assert(pairs_text(out@) =~= before.push((pairs@[i as int].0@.skip(4), pairs@[i as int].1@)));
            },
            None => {
                assert(pairs_text(out@) =~= before);
            },
        }
        i = i + 1;
    }
    assert(pt.take(pairs@.len() as int) =~= pt);
    out
}

/// What `serde_urlencoded::from_str` decodes a query string into, as a list
/// of name/value pairs; `None` where it reports an error.
pub uninterp spec fn urlencoded_pairs(q: Seq<char>) -> Option<Seq<(Seq<char>, Seq<char>)>>;

/// Calls `serde_urlencoded::from_str` for a list of string pairs; the result
/// is named by `urlencoded_pairs`.
#[verifier::external_body]
fn decode_query(q: &str) -> (r: Option<Vec<(String, String)>>)
    ensures
        match r {
            Some(v) => urlencoded_pairs(q@) == Some(pairs_text(v@)),
            None => urlencoded_pairs(q@) is None,
        },
{
    serde_urlencoded::from_str::<Vec<(String, String)>>(q).ok()
}

/// The decoded pairs of a raw query string; none when there is no query or
/// it does not decode.
pub open spec fn raw_query_pairs(raw: Option<Seq<char>>) -> Seq<(Seq<char>, Seq<char>)> {
    match raw {
        Some(q) => match urlencoded_pairs(q) {
            Some(p) => p,
            None => Seq::empty(),
        },
        None => Seq::empty(),
    }
}

/// The name/value pairs of a raw query string, in order.
pub fn parse_raw_query(raw_query: Option<&str>) -> (r: Vec<(String, String)>)
    ensures
        pairs_text(r@) == raw_query_pairs(
            match raw_query {
                Some(q) => Some(q@),
                None => None,
            },
        ),
{
    match raw_query {
        Some(q) => match decode_query(q) {
            Some(v) => v,
            None => {
                let v: Vec<(String, String)> = Vec::new();
                assert(pairs_text(v@) =~= Seq::<(Seq<char>, Seq<char>)>::empty());
                v
            },
        },
        None => {
            let v: Vec<(String, String)> = Vec::new();
            assert(pairs_text(v@) =~= Seq::<(Seq<char>, Seq<char>)>::empty());
            v
        },
    }
}

/// The query parameters of a discovery request: the filters come from the
/// raw query pairs, so that repeated names are all kept; the level and the
/// filter mode are those decoded from the query.
pub fn params_from_query(
    level: Option<MetadataLevel>,
    filter_mode: FilterMode,
    raw_query: Option<&str>,
) -> (r: SdQueryParams)
    ensures
        r.clusters@.map_values(|s: String| s@) == values_for(
            raw_query_pairs(
                match raw_query {
                    Some(q) => Some(q@),
                    None => None,
                },
            ),
            "cluster"@,
        ),
        r.services@.map_values(|s: String| s@) == values_for(
            raw_query_pairs(
                match raw_query {
                    Some(q) => Some(q@),
                    None => None,
                },
            ),
            "service"@,
        ),
        r.families@.map_values(|s: String| s@) == values_for(
            raw_query_pairs(
                match raw_query {
                    Some(q) => Some(q@),
                    None => None,
                },
            ),
            "family"@,
        ),
        pairs_text(r.tag_filters@) == tag_filters_of(
            raw_query_pairs(
                match raw_query {
                    Some(q) => Some(q@),
                    None => None,
                },
            ),
        ),
        r.level == level,
        r.filter_mode == filter_mode,
{
    let pairs = parse_raw_query(raw_query);
    SdQueryParams {
        clusters: extract_values(&pairs, "cluster"),
        services: extract_values(&pairs, "service"),
        families: extract_values(&pairs, "family"),
        level,
        filter_mode,
        tag_filters: extract_tag_filters_from_pairs(&pairs),
    }
}

} // verus!

verus! {

/// A point in time, as seconds and nanoseconds since the Unix epoch.
pub struct UnixTime {
    secs: u64,
    nanos: u32,
}

/// One second in nanoseconds.
pub const NANOS_PER_SEC: u32 = 1_000_000_000;

impl UnixTime {
    /// Seconds since the epoch.
    pub closed spec fn secs_of(self) -> nat {
        self.secs as nat
    }

    /// The nanoseconds past the second.
    pub closed spec fn nanos_of(self) -> nat {
        self.nanos as nat
    }

    #[verifier::type_invariant]
    closed spec fn wf(self) -> bool {
        self.nanos < NANOS_PER_SEC
    }

    /// Nanoseconds since the epoch.
    pub open spec fn total_nanos(self) -> int {
        (self.secs_of() * 1_000_000_000 + self.nanos_of()) as int
    }

    /// The time `secs` seconds and `nanos` nanoseconds after the epoch.
    pub fn new(secs: u64, nanos: u32) -> (r: UnixTime)
        requires
            nanos < NANOS_PER_SEC,
        ensures
            r.secs_of() == secs,
            r.nanos_of() == nanos,
    {
        UnixTime { secs, nanos }
    }

    /// The time `secs` whole seconds after the epoch.
    pub fn from_secs(secs: u64) -> (r: UnixTime)
        ensures
            r.secs_of() == secs,
            r.nanos_of() == 0,
    {
        UnixTime { secs, nanos: 0 }
    }

    /// The epoch itself.
    pub fn epoch() -> (r: UnixTime)
        ensures
            r.total_nanos() == 0,
    {
        UnixTime { secs: 0, nanos: 0 }
    }

    /// Seconds since the epoch.
    pub fn secs(&self) -> (r: u64)
        ensures
            r == self.secs_of(),
    {
        self.secs
    }

    /// The nanoseconds past the second.
    pub fn subsec_nanos(&self) -> (r: u32)
        ensures
            r == self.nanos_of(),
            r < NANOS_PER_SEC,
    {
        proof {
            use_type_invariant(self);
        }
        self.nanos
    }
}

/// The whole seconds from `last` to `now`; zero when `now` is before `last`.
pub open spec fn age_seconds(last: UnixTime, now: UnixTime) -> int {
    if now.total_nanos() >= last.total_nanos() {
        (now.total_nanos() - last.total_nanos()) / 1_000_000_000
    } else {
        0
    }
}

proof fn lemma_div_by_second(x: int, q: int, r: int)
    by (nonlinear_arith)
    requires
        x == q * 1_000_000_000 + r,
        0 <= r < 1_000_000_000,
    ensures
        x / 1_000_000_000 == q,
{
}

/// How old the cache is, in whole seconds; zero when the clock went backwards.
pub fn calculate_cache_age_seconds(last_refresh: &UnixTime, now: &UnixTime) -> (r: u64)
    ensures
        r == age_seconds(*last_refresh, *now),
{
    proof {
        use_type_invariant(last_refresh);
        use_type_invariant(now);
    }
    let ls = last_refresh.secs;
    let ln = last_refresh.nanos;
    let ns = now.secs;
    let nn = now.nanos;
    if ns > ls || (ns == ls && nn >= ln) {
        let d = ns - ls;
        if nn >= ln {
            proof {
                lemma_div_by_second(
                    now.total_nanos() - last_refresh.total_nanos(),
                    d as int,
                    nn - ln,
                );
            }
            d
        } else {
            proof {
                lemma_div_by_second(
                    now.total_nanos() - last_refresh.total_nanos(),
                    d - 1,
                    1_000_000_000 + nn - ln,
                );
            }
            d - 1
        }
    } else {
        proof {
            assert(ns < ls || (ns == ls && nn < ln));
            if ns < ls {
                assert(now.total_nanos() < (ns as int + 1) * 1_000_000_000) by (nonlinear_arith)
                    requires
                        now.total_nanos() == ns * 1_000_000_000 + nn,
                        nn < 1_000_000_000,
                ;
                assert((ns as int + 1) * 1_000_000_000 <= ls * 1_000_000_000) by (nonlinear_arith)
                    requires
                        ns < ls,
                ;
            }
        }
        0
    }
}

/// The freshness a cache of `age` seconds reports: stale once it is older
/// than the time-to-live.
pub open spec fn cache_state_text(age: u64, ttl: u64) -> Seq<char> {
    if age > ttl {
        "stale"@
    } else {
        "fresh"@
    }
}

/// `"stale"` when the cache is older than `ttl` seconds, `"fresh"` otherwise.
pub fn cache_state(cache_age_seconds: u64, ttl_seconds: u64) -> (r: &'static str)
    ensures
        r@ == cache_state_text(cache_age_seconds, ttl_seconds),
{
    if cache_age_seconds > ttl_seconds {
        "stale"
    } else {
        "fresh"
    }
}

/// Why a manual refresh was refused.
#[derive(Debug, Clone, Copy, PartialEq, Eq, Structural)]
pub enum RefreshDenied {
    /// No refresh token is configured: the endpoint is disabled.
    Disabled,
    /// The request did not carry the configured token.
    Unauthorized,
}

impl RefreshDenied {
    /// The HTTP status of the refusal.
    pub fn status_code(&self) -> (r: u16)
        ensures
            *self == RefreshDenied::Disabled ==> r == 503,
            *self == RefreshDenied::Unauthorized ==> r == 401,
    {
        match self {
            RefreshDenied::Disabled => 503,
            RefreshDenied::Unauthorized => 401,
        }
    }

    /// The `error` text of the refusal.
    pub fn error_text(&self) -> (r: &'static str)
        ensures
            *self == RefreshDenied::Disabled ==> r@ == "refresh endpoint disabled"@,
            *self == RefreshDenied::Unauthorized ==> r@ == "unauthorized"@,
    {
        match self {
            RefreshDenied::Disabled => "refresh endpoint disabled",
            RefreshDenied::Unauthorized => "unauthorized",
        }
    }

    /// The `reason` text of the refusal, where it has one.
    pub fn reason(&self) -> (r: Option<&'static str>)
        ensures
            *self == RefreshDenied::Disabled ==> r == Some("refresh token not configured"),
            *self == RefreshDenied::Unauthorized ==> r is None,
    {
        match self {
            RefreshDenied::Disabled => Some("refresh token not configured"),
            RefreshDenied::Unauthorized => None,
        }
    }
}

/// Whether a manual refresh is allowed: a token must be configured, and the
/// request must carry exactly that token.
pub fn authorize_refresh(expected_token: Option<&str>, provided_token: Option<&str>) -> (r: Result<
    (),
    RefreshDenied,
>)
    ensures
        expected_token is None ==> r == Err::<(), RefreshDenied>(RefreshDenied::Disabled),
        expected_token is Some ==> (r is Ok <==> (provided_token is Some
            && provided_token.unwrap()@ == expected_token.unwrap()@)),
        expected_token is Some && !(r is Ok) ==> r == Err::<(), RefreshDenied>(
            RefreshDenied::Unauthorized,
        ),
{
    match expected_token {
        None => Err(RefreshDenied::Disabled),
        Some(e) => match provided_token {
            Some(p) => {
                if str_eq(p, e) {
                    Ok(())
                } else {
                    Err(RefreshDenied::Unauthorized)
                }
            },
            None => Err(RefreshDenied::Unauthorized),
        },
    }
}

/// The seconds a caller must still wait before the next manual refresh, or
/// `None` when `min_interval` seconds have passed since the last one.  A clock
/// that went backwards counts as no time passed.
pub open spec fn retry_after(last: u64, now: u64, min_interval: u64) -> Option<u64> {
    let elapsed: int = if now >= last {
        now - last
    } else {
        0
    };
    if elapsed < min_interval {
        Some((min_interval - elapsed) as u64)
    } else {
        None
    }
}

/// How long a manual refresh must wait, if at all.
pub fn refresh_retry_after_seconds(last_request_secs: u64, now_secs: u64, min_interval: u64) -> (r:
    Option<u64>)
    ensures
        r == retry_after(last_request_secs, now_secs, min_interval),
        r is Some ==> 0 < r.unwrap() <= min_interval,
{
    let elapsed = now_secs.saturating_sub(last_request_secs);
    if elapsed < min_interval {
        Some(min_interval - elapsed)
    } else {
        None
    }
}

/// The headers a discovery response carries: the cache age in seconds and
/// the cache state.
pub fn cache_headers(cache_age_seconds: u64, cache_state: &str) -> (r: Vec<(String, String)>)
    ensures
        pairs_text(r@) == seq![
            ("X-Cache-Age"@, crate::text::decimal(cache_age_seconds as nat)),
            ("X-Cache-State"@, cache_state@),
        ],
{
    let mut v: Vec<(String, String)> = Vec::new();
    v.push(("X-Cache-Age".to_owned(), crate::text::u64_to_string(cache_age_seconds)));
    v.push(("X-Cache-State".to_owned(), cache_state.to_owned()));
    assert(pairs_text(v@) =~= seq![
        ("X-Cache-Age"@, crate::text::decimal(cache_age_seconds as nat)),
        ("X-Cache-State"@, cache_state@),
    ]);
    v
}

} // verus!
