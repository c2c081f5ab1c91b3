use ecs_sd::cluster::{elect_leader, gossip_routes, is_leader_among};
use ecs_sd::route::{build_routing_table, route_id_text};
use ecs_sd::strmap::StrMap;
use ecs_sd::target::{Labels, Target};

#[test]
fn leader_is_min_node_id() {
    assert_eq!(elect_leader(&["node-b", "node-a", "node-c"]), Some("node-a"));
}

#[test]
fn single_node_is_leader() {
    assert_eq!(elect_leader(&["node-x"]), Some("node-x"));
}

#[test]
fn empty_cluster_has_no_leader() {
    assert_eq!(elect_leader(&[]), None);
}

#[test]
fn leader_does_not_depend_on_order() {
    assert_eq!(elect_leader(&["b", "a", "ab"]), elect_leader(&["ab", "b", "a"]));
    assert!(is_leader_among("a", &["b", "a", "ab"]));
    assert!(!is_leader_among("ab", &["b", "a", "ab"]));
    assert!(!is_leader_among("a", &[]));
}

#[test]
fn gossiped_routes_carry_their_ids() {
    let mut labels: Labels = StrMap::new();
    labels.insert("__meta_ecs_task_arn".to_string(), "arn:t".to_string());
    let table = build_routing_table(&vec![Target { targets: vec!["10.0.0.1:80".to_string()], labels }]);
    let routes = gossip_routes(&table);
    assert_eq!(routes.len(), 1);
    assert_eq!(routes[0].route_id, route_id_text(table.get(table.ids()[0]).unwrap().route_id));
    assert_eq!(routes[0].address, "10.0.0.1:80");
}
