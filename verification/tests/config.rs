use ecs_sd::config::{
    default_node_id, normalize_public_address, parse_metadata_level, require_region, valid_seed,
    Args, ClusterMode, Config, ConfigError, Mode, Span,
};
use ecs_sd::level::MetadataLevel;

fn args(clusters: &str) -> Args {
    Args {
        clusters: clusters.to_string(),
        listen: "0.0.0.0:8080".to_string(),
        refresh_interval: Span { secs: 60, nanos: 0 },
        metadata_level: MetadataLevel::Task,
        mode: Mode::Discovery,
        public_address: None,
        cluster_mode: ClusterMode::Standalone,
        cluster_seeds: None,
        gossip_port: 8081,
        node_id: None,
        metrics_port: None,
        refresh_token: None,
        refresh_min_interval: Span { secs: 30, nanos: 0 },
        proxy_forward_sensitive_headers: false,
    }
}

fn proxy_args(public_address: &str) -> Args {
    let mut a = args("prod");
    a.mode = Mode::Proxy;
    a.public_address = Some(public_address.to_string());
    a
}

// Every listen address used here is a valid socket address, except the one
// that `rejects_invalid_listen_address` passes to `build_with_listen`.
fn build(a: Args) -> Result<Config, ConfigError> {
    build_with_listen(a, true)
}

fn build_with_listen(a: Args, listen_is_socket_address: bool) -> Result<Config, ConfigError> {
    Config::try_from_args(a, Some("ecs-host"), listen_is_socket_address)
}

fn err_text(r: Result<Config, ConfigError>) -> String {
    match r {
        Err(e) => e.message(),
        Ok(_) => panic!("expected an error"),
    }
}

#[test]
fn require_region_errors_when_none() {
    let result = require_region(None);
    assert!(result.is_err());
    let msg = result.unwrap_err();
    assert!(msg.contains("AWS region"), "error message must mention 'AWS region', got: {msg}");
}

#[test]
fn require_region_returns_region_when_present() {
    let result = require_region(Some("eu-west-1".to_string()));
    assert_eq!(result, Ok("eu-west-1".to_string()));
}

#[test]
fn mode_defaults_to_discovery() {
    let config = build(args("prod")).expect("should succeed");
    assert_eq!(config.mode, Mode::Discovery);
}

#[test]
fn mode_flag_sets_proxy() {
    let config = build(proxy_args("http://ecs-sd.local:8080")).expect("should succeed");
    assert_eq!(config.mode, Mode::Proxy);
    assert_eq!(config.public_address.as_deref(), Some("ecs-sd.local:8080"));
    assert_eq!(config.public_address_scheme.as_deref(), Some("http"));
}

#[test]
fn proxy_mode_without_public_address_fails() {
    let mut a = args("prod");
    a.mode = Mode::Proxy;
    let err = err_text(build(a));
    assert!(err.contains("--public-address"), "error was: {err}");
}

#[test]
fn proxy_mode_with_public_address_succeeds() {
    let config = build(proxy_args("https://ecs-sd.example.com")).expect("should succeed");
    assert_eq!(config.public_address.as_deref(), Some("ecs-sd.example.com:443"));
    assert_eq!(config.public_address_scheme.as_deref(), Some("https"));
}

#[test]
fn discovery_mode_without_public_address_ok() {
    build(args("prod")).expect("should succeed");
}

#[test]
fn public_address_requires_scheme() {
    let err = err_text(build(proxy_args("ecs-sd.example.com:8080")));
    assert!(err.contains("http:// or https://"), "error was: {err}");
}

#[test]
fn public_address_rejects_unsupported_scheme() {
    let err = err_text(build(proxy_args("ftp://ecs-sd.example.com:8080")));
    assert!(err.contains("only http:// or https://"), "error was: {err}");
}

#[test]
fn public_address_rejects_ip_host() {
    let err = err_text(build(proxy_args("http://10.0.0.10:8080")));
    assert!(err.contains("host must be a domain name"), "error was: {err}");
}

#[test]
fn public_address_rejects_path_query_and_fragment() {
    let err = err_text(build(proxy_args("https://ecs-sd.example.com/proxy?x=1#frag")));
    assert!(err.contains("path, query, and fragment are not allowed"), "error was: {err}");
}

#[test]
fn public_address_rejects_user_info() {
    let err = err_text(build(proxy_args("https://user:pw@ecs-sd.example.com")));
    assert!(err.contains("user info is not allowed"), "error was: {err}");
}

#[test]
fn rejects_empty_clusters() {
    let error = err_text(build(args(" , , ")));
    assert!(error.contains("clusters must contain at least one non-empty entry"));
}

#[test]
fn rejects_invalid_listen_address() {
    let mut a = args("prod");
    a.listen = "bad-listen".to_string();
    let error = err_text(build_with_listen(a, false));
    assert!(error.contains("listen must be a valid socket address"));
}

#[test]
fn rejects_zero_refresh_interval() {
    let mut a = args("prod");
    a.refresh_interval = Span { secs: 0, nanos: 0 };
    let error = err_text(build(a));
    assert!(error.contains("refresh interval must be greater than 0"));
}

#[test]
fn rejects_sub_second_refresh_interval() {
    let mut a = args("prod");
    a.refresh_interval = Span { secs: 0, nanos: 500_000_000 };
    let error = err_text(build(a));
    assert!(error.contains("refresh interval must be at least 1 second"));
}

#[test]
fn cluster_mode_defaults_to_standalone() {
    let config = build(args("prod")).expect("should succeed");
    assert_eq!(config.cluster_mode, ClusterMode::Standalone);
}

#[test]
fn cluster_mode_cluster_via_flag() {
    let mut a = args("prod");
    a.cluster_mode = ClusterMode::Cluster;
    let config = build(a).expect("should succeed");
    assert_eq!(config.cluster_mode, ClusterMode::Cluster);
}

#[test]
fn gossip_port_defaults_to_8081() {
    let config = build(args("prod")).expect("should succeed");
    assert_eq!(config.gossip_port, 8081);
}

#[test]
fn gossip_port_overridable() {
    let mut a = args("prod");
    a.gossip_port = 9999;
    let config = build(a).expect("should succeed");
    assert_eq!(config.gossip_port, 9999);
}

#[test]
fn cluster_seeds_parsed_from_comma_separated() {
    let mut a = args("prod");
    a.cluster_mode = ClusterMode::Cluster;
    a.cluster_seeds = Some("host1:8081,host2:8081".to_string());
    let config = build(a).expect("should succeed");
    assert_eq!(config.cluster_seeds, vec!["host1:8081", "host2:8081"]);
}

#[test]
fn cluster_seeds_empty_allowed_in_cluster_mode() {
    let mut a = args("prod");
    a.cluster_mode = ClusterMode::Cluster;
    let config = build(a).expect("should succeed");
    assert_eq!(config.cluster_seeds, Vec::<String>::new());
}

#[test]
fn node_id_defaults_to_hostname_colon_port() {
    let config = build(args("prod")).expect("should succeed");
    assert!(config.node_id.contains(':'), "node_id should contain colon: {}", config.node_id);
    assert!(config.node_id.ends_with(":8081"), "node_id should end with default gossip port: {}", config.node_id);
    assert_eq!(config.node_id, "ecs-host:8081");
    assert_eq!(default_node_id(None, 8081), "localhost:8081");
}

#[test]
fn node_id_overridable() {
    let mut a = args("prod");
    a.node_id = Some("my-custom-id".to_string());
    let config = build(a).expect("should succeed");
    assert_eq!(config.node_id, "my-custom-id");
}

#[test]
fn invalid_cluster_seed_rejected() {
    let mut a = args("prod");
    a.cluster_seeds = Some("notaport".to_string());
    let err = err_text(build(a));
    assert!(err.contains("invalid cluster seed"), "error was: {err}");
    assert!(valid_seed("host:80"));
    assert!(!valid_seed("host:port"));
}

#[test]
fn metrics_port_defaults_to_none() {
    let config = build(args("prod")).expect("should succeed");
    assert_eq!(config.metrics_port, None);
}

#[test]
fn metrics_port_overridable_via_flag() {
    let mut a = args("prod");
    a.metrics_port = Some(9090);
    let config = build(a).expect("should succeed");
    assert_eq!(config.metrics_port, Some(9090));
}

#[test]
fn refresh_token_defaults_to_none() {
    let config = build(args("prod")).expect("should succeed");
    assert_eq!(config.refresh_token, None);
}

#[test]
fn refresh_token_overridable_via_flag() {
    let mut a = args("prod");
    a.refresh_token = Some("secret-token".to_string());
    let config = build(a).expect("should succeed");
    assert_eq!(config.refresh_token.as_deref(), Some("secret-token"));
}

#[test]
fn refresh_min_interval_defaults_to_30_seconds() {
    let config = build(args("prod")).expect("should succeed");
    assert_eq!(config.refresh_min_interval, 30);
}

#[test]
fn refresh_min_interval_overridable_via_flag() {
    let mut a = args("prod");
    a.refresh_min_interval = Span { secs: 45, nanos: 0 };
    let config = build(a).expect("should succeed");
    assert_eq!(config.refresh_min_interval, 45);
}

#[test]
fn rejects_zero_refresh_min_interval() {
    let mut a = args("prod");
    a.refresh_min_interval = Span { secs: 0, nanos: 0 };
    let error = err_text(build(a));
    assert!(error.contains("refresh min interval must be greater than 0"));
}

#[test]
fn proxy_forward_sensitive_headers_defaults_to_false() {
    let config = build(args("prod")).expect("should succeed");
    assert!(!config.proxy_forward_sensitive_headers);
}

#[test]
fn proxy_forward_sensitive_headers_overridable_via_flag() {
    let mut a = args("prod");
    a.proxy_forward_sensitive_headers = true;
    let config = build(a).expect("should succeed");
    assert!(config.proxy_forward_sensitive_headers);
}

#[test]
fn standalone_config_yields_no_cluster_state() {
    let cfg = build(args("prod")).unwrap();
    assert_eq!(cfg.cluster_mode, ClusterMode::Standalone, "Default cluster_mode should be Standalone");
}

#[test]
fn clusters_are_trimmed_and_kept_in_order() {
    let config = build(args(" prod , ,staging ")).expect("should succeed");
    assert_eq!(config.clusters, vec!["prod", "staging"]);
}

#[test]
fn config_defaults_and_errors() {
    let d = Config::default();
    assert_eq!(d.listen, "0.0.0.0:8080");
    assert_eq!(d.node_id, "localhost:8081");
    assert_eq!(ConfigError::InvalidValue("x".to_string()).message(), "Invalid configuration value: x");
    assert_eq!(ConfigError::MissingConfig("clusters").message(), "Missing required configuration: clusters");
    assert_eq!(parse_metadata_level("AWS"), Ok(MetadataLevel::Aws));
    let (a, s) = normalize_public_address(Mode::Discovery, None).ok().unwrap();
    assert!(a.is_none() && s.is_none());
    let (a, s) = normalize_public_address(Mode::Proxy, Some("http://sd.example.com")).ok().unwrap();
    assert_eq!(a.as_deref(), Some("sd.example.com:80"));
    assert_eq!(s.as_deref(), Some("http"));
}
