use ecs_sd::level::MetadataLevel;
use ecs_sd::proxy::{
    filter_hop_by_hop_headers, filter_sensitive_headers, resolve_route, upstream_failure, upstream_url, Header,
    ProxyError,
};
use ecs_sd::route::{
    build_routing_table, proxy_sd_targets, route_id, route_id_text, ProxyTarget, RoutingTable,
};
use ecs_sd::strmap::StrMap;
use ecs_sd::target::{Labels, Target};
use uuid::Uuid;

fn labels_of(pairs: &[(&str, &str)]) -> Labels {
    let mut m: Labels = StrMap::new();
    for (k, v) in pairs {
        m.insert(k.to_string(), v.to_string());
    }
    m
}

fn make_target(address: &str, task_arn: &str, container_name: &str, container_id: &str) -> Target {
    Target {
        targets: if address.is_empty() { vec![] } else { vec![address.to_string()] },
        labels: labels_of(&[
            ("__meta_ecs_task_arn", task_arn),
            ("__meta_ecs_container_name", container_name),
            ("__meta_ecs_container_id", container_id),
        ]),
    }
}

fn header(name: &str, value: &str) -> Header {
    Header { name: name.to_string(), value: value.as_bytes().to_vec() }
}

fn has(headers: &[Header], name: &str) -> bool {
    headers.iter().any(|h| h.name == name)
}

#[test]
fn route_id_is_deterministic() {
    let a = route_id("arn:task", "web", "abc123");
    let b = route_id("arn:task", "web", "abc123");
    assert_eq!(a, b);
}

#[test]
fn route_id_differs_for_different_container_id() {
    let a = route_id("arn", "web", "c1");
    let b = route_id("arn", "web", "c2");
    assert_ne!(a, b);
}

#[test]
fn route_id_separator_prevents_prefix_collision() {
    let a = route_id("a", "bc", "x");
    let b = route_id("ab", "c", "x");
    assert_ne!(a, b);
}

#[test]
fn route_id_is_the_url_namespace_uuid_of_the_joined_names() {
    let expected = Uuid::new_v5(&Uuid::NAMESPACE_URL, b"arn:task:web:abc123");
    assert_eq!(route_id("arn:task", "web", "abc123"), expected.as_u128());
    assert_eq!(route_id_text(expected.as_u128()), expected.to_string());
}

#[test]
fn build_routing_table_produces_entry_per_target() {
    let targets = vec![
        make_target("10.1.0.1:9090", "arn:task1", "web", "c1"),
        make_target("10.1.0.2:9090", "arn:task2", "api", "c2"),
    ];
    let table = build_routing_table(&targets);
    assert_eq!(table.len(), 2);
}

#[test]
fn build_routing_table_entry_has_correct_address() {
    let targets = vec![make_target("10.1.2.3:9090", "arn:t", "web", "c1")];
    let table = build_routing_table(&targets);
    let entry = table.get(table.ids()[0]).unwrap();
    assert_eq!(entry.address, "10.1.2.3:9090");
}

#[test]
fn build_routing_table_copies_labels() {
    let targets = vec![make_target("10.1.2.3:9090", "arn:t", "web", "c1")];
    let table = build_routing_table(&targets);
    let entry = table.get(table.ids()[0]).unwrap();
    assert_eq!(entry.labels.get("__meta_ecs_task_arn"), Some(&"arn:t".to_string()));
    assert_eq!(entry.labels.get("__meta_ecs_container_name"), Some(&"web".to_string()));
}

#[test]
fn build_routing_table_uuid_is_deterministic() {
    let targets = vec![make_target("10.0.0.1:8080", "arn:t", "web", "c1")];
    let table1 = build_routing_table(&targets);
    let table2 = build_routing_table(&targets);
    let key1: Vec<u128> = table1.ids();
    let key2: Vec<u128> = table2.ids();
    assert_eq!(key1, key2);
}

#[test]
fn build_routing_table_skips_target_with_no_address() {
    let targets = vec![make_target("", "arn:t", "web", "c1")];
    let table = build_routing_table(&targets);
    assert_eq!(table.len(), 0);
}

#[test]
fn routing_table_later_target_with_same_route_replaces_earlier() {
    let targets = vec![
        make_target("10.0.0.1:80", "arn:t", "web", "c1"),
        make_target("10.0.0.2:80", "arn:t", "web", "c1"),
    ];
    let table = build_routing_table(&targets);
    assert_eq!(table.len(), 1);
    assert_eq!(table.get(table.ids()[0]).unwrap().address, "10.0.0.2:80");
}

#[test]
fn filter_hop_by_hop_removes_connection() {
    let result = filter_hop_by_hop_headers(vec![header("connection", "keep-alive")]);
    assert!(!has(&result, "connection"));
}

#[test]
fn filter_hop_by_hop_removes_host() {
    let result = filter_hop_by_hop_headers(vec![header("host", "example.com")]);
    assert!(!has(&result, "host"));
}

#[test]
fn filter_hop_by_hop_preserves_accept() {
    let result = filter_hop_by_hop_headers(vec![header("accept", "text/plain"), header("connection", "close")]);
    assert!(has(&result, "accept"));
    assert!(!has(&result, "connection"));
}

#[test]
fn filter_hop_by_hop_preserves_authorization() {
    let result = filter_hop_by_hop_headers(vec![header("authorization", "Bearer tok")]);
    assert!(has(&result, "authorization"));
}

#[test]
fn filter_sensitive_headers_strips_authorization_and_cookie_by_default() {
    let headers = vec![
        header("authorization", "Bearer tok"),
        header("cookie", "session=abc"),
        header("accept", "application/json"),
    ];
    let result = filter_sensitive_headers(headers, false);
    assert!(!has(&result, "authorization"));
    assert!(!has(&result, "cookie"));
    assert!(has(&result, "accept"));
}

#[test]
fn filter_sensitive_headers_keeps_sensitive_when_enabled() {
    let headers = vec![header("authorization", "Bearer tok"), header("cookie", "session=abc")];
    let result = filter_sensitive_headers(headers, true);
    assert!(has(&result, "authorization"));
    assert!(has(&result, "cookie"));
}

#[test]
fn upstream_url_joins_address_path_and_query() {
    assert_eq!(upstream_url("10.0.0.1:9090", "metrics", Some("a=1")), "http://10.0.0.1:9090/metrics?a=1");
    assert_eq!(upstream_url("10.0.0.1:9090", "metrics", None), "http://10.0.0.1:9090/metrics");
}

#[test]
fn proxy_routes_resolve_by_their_hyphenated_id() {
    let targets = vec![make_target("10.0.0.1:8080", "arn:t", "web", "c1")];
    let table = build_routing_table(&targets);
    let id = table.get(table.ids()[0]).unwrap().route_id;
    let text = route_id_text(id);

    let found = resolve_route(true, &text, &table).ok().expect("route exists");
    assert_eq!(found.address, "10.0.0.1:8080");

    assert_eq!(resolve_route(false, &text, &table).err(), Some(ProxyError::NotProxyMode));
    assert_eq!(resolve_route(true, "not-a-uuid", &table).err(), Some(ProxyError::InvalidRouteId));
    let other = Uuid::new_v5(&Uuid::NAMESPACE_URL, b"other").to_string();
    assert_eq!(resolve_route(true, &other, &table).err(), Some(ProxyError::RouteNotFound));

    assert_eq!(ProxyError::InvalidRouteId.status_code(), 400);
    assert_eq!(ProxyError::RouteNotFound.error_text(), "route not found");
    assert_eq!(ProxyError::UpstreamUnreachable.status_code(), 502);
}

#[test]
fn proxy_mode_targets_point_through_the_proxy() {
    let targets = vec![Target {
        targets: vec!["10.0.0.1:8080".to_string()],
        labels: labels_of(&[
            ("__meta_ecs_task_arn", "arn:t"),
            ("__meta_ecs_container_name", "web"),
            ("__meta_ecs_cluster_name", "prod"),
        ]),
    }];
    let table = build_routing_table(&targets);
    let out = proxy_sd_targets(&table, "ecs-sd.example.com:443", "https", MetadataLevel::Task);
    assert_eq!(out.len(), 1);
    assert_eq!(out[0].targets, vec!["ecs-sd.example.com:443".to_string()]);
    let path = format!("/proxy/{}/metrics", route_id_text(table.get(table.ids()[0]).unwrap().route_id));
    assert_eq!(out[0].labels.get("__metrics_path__"), Some(&path));
    assert_eq!(out[0].labels.get("__scheme__"), Some(&"https".to_string()));
    assert!(!out[0].labels.contains_key("__meta_ecs_cluster_name"));
}

#[test]
fn empty_routing_table_has_no_routes() {
    let table = RoutingTable::new();
    assert_eq!(table.len(), 0);
    assert!(table.get(1).is_none());
    let mut table = table;
    table.insert(ProxyTarget { address: "a:1".to_string(), route_id: 7, labels: StrMap::new() });
    assert_eq!(table.get(7).map(|p| p.address.as_str()), Some("a:1"));
}

#[test]
fn proxy_routes_resolve_by_any_form_of_their_id() {
    let targets = vec![make_target("10.0.0.1:8080", "arn:t", "web", "c1")];
    let table = build_routing_table(&targets);
    let id = table.get(table.ids()[0]).unwrap().route_id;
    let uuid = Uuid::from_u128(id);
    let upper = uuid.hyphenated().to_string().to_uppercase();
    let simple = uuid.simple().to_string();
    let braced = uuid.braced().to_string();
    for text in [upper, simple, braced] {
        let found = resolve_route(true, &text, &table).ok().expect("route exists");
        assert_eq!(found.route_id, id);
        assert_eq!(found.address, "10.0.0.1:8080");
    }
}

#[test]
fn upstream_failures_answer_bad_gateway_or_gateway_timeout() {
    let timeout = upstream_failure(true);
    assert_eq!(timeout, ProxyError::UpstreamTimeout);
    assert_eq!(timeout.status_code(), 504);
    assert_eq!(timeout.error_text(), "upstream timeout");
    let refused = upstream_failure(false);
    assert_eq!(refused, ProxyError::UpstreamUnreachable);
    assert_eq!(refused.status_code(), 502);
    assert_eq!(refused.error_text(), "upstream unreachable");
}

#[test]
fn proxy_mode_lists_every_route_once() {
    let targets = vec![
        make_target("10.0.0.1:8080", "arn:t1", "web", "c1"),
        make_target("10.0.0.2:8080", "arn:t2", "web", "c2"),
        make_target("10.0.0.3:8080", "arn:t1", "web", "c1"),
    ];
    let table = build_routing_table(&targets);
    assert_eq!(table.len(), 2);
    let out = proxy_sd_targets(&table, "ecs-sd:8080", "http", MetadataLevel::Task);
    assert_eq!(out.len(), 2);
    let mut paths: Vec<String> = out.iter().map(|t| t.labels.get("__metrics_path__").unwrap().clone()).collect();
    paths.sort();
    let mut expected: Vec<String> = [route_id("arn:t1", "web", "c1"), route_id("arn:t2", "web", "c2")]
        .iter()
        .map(|id| format!("/proxy/{}/metrics", route_id_text(*id)))
        .collect();
    expected.sort();
    assert_eq!(paths, expected);
    let mut ids = table.ids();
    ids.sort();
    ids.dedup();
    assert_eq!(ids.len(), 2);
    let newer = table.get(route_id("arn:t1", "web", "c1")).unwrap();
    assert_eq!(newer.address, "10.0.0.3:8080");
}
