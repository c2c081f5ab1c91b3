//! Leader election among the live gossip nodes, and what the leader gossips.
use vstd::prelude::*;
use crate::route::{route_id_text, uuid_text, RoutingTable};
use crate::target::Labels;
use crate::text::{lemma_lex_irreflexive, lemma_lex_total, lemma_lex_transitive, lex_lt, str_eq, str_lt};

verus! {

/// A route as the leader gossips it to the other nodes.
pub struct GossipProxyTarget {
    /// The hyphenated route id.
    pub route_id: String,
    pub address: String,
    pub labels: Labels,
}

/// The node ids as text.
pub open spec fn ids_text(ids: Seq<&str>) -> Seq<Seq<char>> {
    ids.map_values(|s: &str| s@)
}

/// Whether `x` is the least of the ids: one of them, and none comes before it.
pub open spec fn is_least(ids: Seq<Seq<char>>, x: Seq<char>) -> bool {
    &&& exists|i: int| 0 <= i < ids.len() && #[trigger] ids[i] == x
    &&& forall|i: int| 0 <= i < ids.len() ==> !lex_lt(#[trigger] ids[i], x)
}

/// The leader among the live nodes: the least node id; none when no node is live.
pub fn elect_leader<'a>(live_node_ids: &[&'a str]) -> (r: Option<&'a str>)
    ensures
        r is None <==> live_node_ids@.len() == 0,
        r is Some ==> is_least(ids_text(live_node_ids@), r.unwrap()@),
{
    let ghost ids = ids_text(live_node_ids@);
    if live_node_ids.len() == 0 {
        return None;
    }
    let mut best: &'a str = live_node_ids[0];
    let mut i: usize = 1;
    proof {
        lemma_lex_irreflexive(best@);
        assert(ids[0] == best@);
    }
    while i < live_node_ids.len()
        invariant
            1 <= i <= live_node_ids@.len(),
            ids == ids_text(live_node_ids@),
            exists|j: int| 0 <= j < i && #[trigger] ids[j] == best@,
            forall|j: int| 0 <= j < i ==> !lex_lt(#[trigger] ids[j], best@),
        decreases live_node_ids.len() - i,
    {
        let candidate = live_node_ids[i];
        assert(ids[i as int] == candidate@);
        if str_lt(candidate, best) {
            proof {
                assert forall|j: int| 0 <= j < i + 1 implies !lex_lt(#[trigger] ids[j], candidate@) by {
                    if j < i {
                        if lex_lt(ids[j], candidate@) {
                            lemma_lex_transitive(ids[j], candidate@, best@);
                        }
                    } else {
                        lemma_lex_irreflexive(candidate@);
                    }
                }
            }
            best = candidate;
            assert(ids[i as int] == best@);
        } else {
            proof {
                assert forall|j: int| 0 <= j < i + 1 implies !lex_lt(#[trigger] ids[j], best@) by {
                    if j == i {
                        assert(!lex_lt(candidate@, best@));
                    }
                }
            }
        }
        i = i + 1;
    }
    Some(best)
}

/// Whether this node leads the live nodes.
pub fn is_leader_among(self_id: &str, live_node_ids: &[&str]) -> (r: bool)
    ensures
        r <==> is_least(ids_text(live_node_ids@), self_id@),
{
    match elect_leader(live_node_ids) {
        Some(leader) => {
            let r = str_eq(leader, self_id);
            proof {
                if !r && is_least(ids_text(live_node_ids@), self_id@) {
                    lemma_least_is_unique(ids_text(live_node_ids@), leader@, self_id@);
                }
            }
            r
        },
        None => false,
    }
}

/// The least id is unique.
pub proof fn lemma_least_is_unique(ids: Seq<Seq<char>>, x: Seq<char>, y: Seq<char>)
    requires
        is_least(ids, x),
        is_least(ids, y),
    ensures
        x == y,
{
    let i = choose|i: int| 0 <= i < ids.len() && #[trigger] ids[i] == x;
    let j = choose|j: int| 0 <= j < ids.len() && #[trigger] ids[j] == y;
    assert(!lex_lt(ids[i], y));
    assert(!lex_lt(ids[j], x));
    lemma_lex_total(x, y);
}

/// Every node that sees the same live nodes, in whatever order, elects the
/// same leader.
pub proof fn lemma_leader_independent_of_order(
    a: Seq<Seq<char>>,
    b: Seq<Seq<char>>,
    x: Seq<char>,
    y: Seq<char>,
)
    requires
        a.to_set() == b.to_set(),
        is_least(a, x),
        is_least(b, y),
    ensures
        x == y,
{
    let i = choose|i: int| 0 <= i < a.len() && #[trigger] a[i] == x;
    let j = choose|j: int| 0 <= j < b.len() && #[trigger] b[j] == y;
    assert(a.to_set().contains(x));
    assert(b.to_set().contains(x));
    let k = choose|k: int| 0 <= k < b.len() && b[k] == x;
    assert(b.to_set().contains(y));
    assert(a.to_set().contains(y));
    let l = choose|l: int| 0 <= l < a.len() && a[l] == y;
    assert(!lex_lt(b[k], y));
    assert(!lex_lt(a[l], x));
    lemma_lex_total(x, y);
}

/// The routes the leader gossips: every route of its table, in the order the
/// table walks them, with its id written out.
pub fn gossip_routes(table: &RoutingTable) -> (r: Vec<GossipProxyTarget>)
    ensures
        r@.len() == table.walk().len(),
        r@.len() == table@.len(),
        forall|i: int|
            0 <= i < r@.len() ==> {
                let id = table.walk()[i];
                &&& (#[trigger] r@[i]).route_id@ == uuid_text(id)
                &&& r@[i].address@ == table@[id].0
                &&& r@[i].labels@ == table@[id].1
            },
{
    let ids = table.ids();
    let mut out: Vec<GossipProxyTarget> = Vec::new();
    let mut i: usize = 0;
    while i < ids.len()
        invariant
            0 <= i <= ids@.len(),
            ids@ == table.walk(),
            table.walk().to_set() == table@.dom(),
            out@.len() == i,
            forall|j: int|
                0 <= j < i ==> {
                    let id = table.walk()[j];
                    &&& (#[trigger] out@[j]).route_id@ == uuid_text(id)
                    &&& out@[j].address@ == table@[id].0
                    &&& out@[j].labels@ == table@[id].1
                },
        decreases ids.len() - i,
    {
        let id = ids[i];
        assert(table.walk().to_set().contains(id));
        let pt = table.get(id).unwrap();
        out.push(
            GossipProxyTarget {
                route_id: route_id_text(pt.route_id),
                address: pt.address.clone(),
                labels: pt.labels.duplicate(),
            },
        );
        i = i + 1;
    }
    out
}

} // verus!
