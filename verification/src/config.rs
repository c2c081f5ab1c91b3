//! Startup configuration: operating modes and the validation of arguments.
use vstd::prelude::*;
use crate::labels::{after_last, text_after_last};
use crate::level::MetadataLevel;
use crate::text::{
    cat, chars_of, decimal, parse_u16, parse_u16_spec, split_trim_nonempty,
    split_trim_nonempty_exec, str_eq, u64_to_string,
};

verus! {

/// Whether instances coordinate through gossip.
#[derive(Debug, Clone, Copy, PartialEq, Eq, Structural)]
pub enum ClusterMode {
    Standalone,
    Cluster,
}

impl Default for ClusterMode {
    fn default() -> (r: Self)
        ensures
            r == ClusterMode::Standalone,
    {
        ClusterMode::Standalone
    }
}

/// Whether targets are scraped directly or through this service.
#[derive(Debug, Clone, Copy, PartialEq, Eq, Structural)]
pub enum Mode {
    Discovery,
    Proxy,
}

impl Default for Mode {
    fn default() -> (r: Self)
        ensures
            r == Mode::Discovery,
    {
        Mode::Discovery
    }
}

/// A length of time, in whole seconds and nanoseconds, as `Duration` holds it.
#[derive(Debug, Clone, Copy, PartialEq, Eq, Structural)]
pub struct Span {
    pub secs: u64,
    pub nanos: u32,
}

/// The startup arguments, after the command line and the environment were read.
pub struct Args {
    /// Comma-separated cluster names or ARNs.
    pub clusters: String,
    /// The address to listen on, `host:port`.
    pub listen: String,
    pub refresh_interval: Span,
    pub metadata_level: MetadataLevel,
    pub mode: Mode,
    /// Where this service can be reached; required in proxy mode.
    pub public_address: Option<String>,
    pub cluster_mode: ClusterMode,
    /// Comma-separated gossip seeds, `host:port` each.
    pub cluster_seeds: Option<String>,
    pub gossip_port: u16,
    pub node_id: Option<String>,
    pub metrics_port: Option<u16>,
    pub refresh_token: Option<String>,
    pub refresh_min_interval: Span,
    pub proxy_forward_sensitive_headers: bool,
}

/// The validated configuration.
pub struct Config {
    pub clusters: Vec<String>,
    pub listen: String,
    /// Seconds between background refreshes.
    pub refresh_interval: u64,
    pub metadata_level: MetadataLevel,
    pub mode: Mode,
    /// `host:port` of this service, in proxy mode.
    pub public_address: Option<String>,
    /// `http` or `https`, in proxy mode.
    pub public_address_scheme: Option<String>,
    pub cluster_mode: ClusterMode,
    pub cluster_seeds: Vec<String>,
    pub gossip_port: u16,
    pub node_id: String,
    pub metrics_port: Option<u16>,
    pub refresh_token: Option<String>,
    /// Seconds that must pass between manual refreshes.
    pub refresh_min_interval: u64,
    pub proxy_forward_sensitive_headers: bool,
}

impl Default for Config {
    fn default() -> (r: Self)
        ensures
            r.clusters@.len() == 0,
            r.listen@ == "0.0.0.0:8080"@,
            r.refresh_interval == 60,
            r.metadata_level == MetadataLevel::Task,
            r.mode == Mode::Discovery,
            r.public_address is None,
            r.public_address_scheme is None,
            r.cluster_mode == ClusterMode::Standalone,
            r.cluster_seeds@.len() == 0,
            r.gossip_port == 8081,
            r.node_id@ == "localhost:8081"@,
            r.metrics_port is None,
            r.refresh_token is None,
            r.refresh_min_interval == 30,
            !r.proxy_forward_sensitive_headers,
    {
        Config {
            clusters: Vec::new(),
            listen: "0.0.0.0:8080".to_owned(),
            refresh_interval: 60,
            metadata_level: MetadataLevel::Task,
            mode: Mode::Discovery,
            public_address: None,
            public_address_scheme: None,
            cluster_mode: ClusterMode::Standalone,
            cluster_seeds: Vec::new(),
            gossip_port: 8081,
            node_id: "localhost:8081".to_owned(),
            metrics_port: None,
            refresh_token: None,
            refresh_min_interval: 30,
            proxy_forward_sensitive_headers: false,
        }
    }
}

/// Why the configuration was refused.
#[derive(Debug)]
pub enum ConfigError {
    MissingConfig(&'static str),
    InvalidValue(String),
}

/// The message of a configuration error.
pub open spec fn config_error_text(e: ConfigError) -> Seq<char> {
    match e {
        ConfigError::MissingConfig(s) => "Missing required configuration: "@ + s@,
        ConfigError::InvalidValue(s) => "Invalid configuration value: "@ + s@,
    }
}

impl ConfigError {
    /// The message of the error.
    pub fn message(&self) -> (r: String)
        ensures
            r@ == config_error_text(*self),
    {
        match self {
            ConfigError::MissingConfig(s) => cat("Missing required configuration: ", s),
            ConfigError::InvalidValue(s) => cat("Invalid configuration value: ", s.as_str()),
        }
    }
}

// ---------------------------------------------------------------------------
// The public address
// ---------------------------------------------------------------------------

/// What a URL parser reports of a URL: scheme, user name, password, path,
/// query, fragment, host text, whether the host is an IPv4 address, and the
/// port (or the scheme's default port).
pub type UrlView = (
    Seq<char>,
    Seq<char>,
    Option<Seq<char>>,
    Seq<char>,
    Option<Seq<char>>,
    Option<Seq<char>>,
    Option<Seq<char>>,
    bool,
    Option<u16>,
);

/// The parts of a parsed URL.
pub struct UrlParts {
    pub scheme: String,
    pub username: String,
    pub password: Option<String>,
    pub path: String,
    pub query: Option<String>,
    pub fragment: Option<String>,
    pub host: Option<String>,
    pub host_is_ipv4: bool,
    pub port: Option<u16>,
}

/// The text of an optional string.
pub open spec fn opt_view(o: Option<String>) -> Option<Seq<char>> {
    match o {
        Some(s) => Some(s@),
        None => None,
    }
}

impl UrlParts {
    /// The parts as text.
    pub open spec fn view(self) -> UrlView {
        (
            self.scheme@,
            self.username@,
            opt_view(self.password),
            self.path@,
            opt_view(self.query),
            opt_view(self.fragment),
            opt_view(self.host),
            self.host_is_ipv4,
            self.port,
        )
    }

    fn new(
        scheme: &str,
        username: &str,
        password: Option<&str>,
        path: &str,
        query: Option<&str>,
        fragment: Option<&str>,
        host: Option<&str>,
        host_is_ipv4: bool,
        port: Option<u16>,
    ) -> (r: UrlParts)
        ensures
            r.view() == (
                scheme@,
                username@,
                opt_str_view(password),
                path@,
                opt_str_view(query),
                opt_str_view(fragment),
                opt_str_view(host),
                host_is_ipv4,
                port,
            ),
    {
        UrlParts {
            scheme: scheme.to_owned(),
            username: username.to_owned(),
            password: own(password),
            path: path.to_owned(),
            query: own(query),
            fragment: own(fragment),
            host: own(host),
            host_is_ipv4,
            port,
        }
    }
}

/// The text of an optional string slice.
pub open spec fn opt_str_view(o: Option<&str>) -> Option<Seq<char>> {
    match o {
        Some(s) => Some(s@),
        None => None,
    }
}

fn own(o: Option<&str>) -> (r: Option<String>)
    ensures
        opt_view(r) == opt_str_view(o),
{
    match o {
        Some(s) => Some(s.to_owned()),
        None => None,
    }
}

/// What `url::Url::parse` reports of a text: scheme, `username`, `password`,
/// `path`, `query`, `fragment`, `host_str`, whether `host` is an IPv4
/// address, and `port_or_known_default`; `None` where the parse fails.
pub uninterp spec fn parsed_url(s: Seq<char>) -> Option<UrlView>;

/// Calls `url::Url::parse` and reads the parts of the URL; the result is
/// named by `parsed_url`.
#[verifier::external_body]
fn parse_url(s: &str) -> (r: Option<UrlParts>)
    ensures
        match r {
            Some(p) => parsed_url(s@) == Some(p.view()),
            None => parsed_url(s@) is None,
        },
{
    match url::Url::parse(s) {
        Ok(u) => Some(UrlParts::new(
            u.scheme(), u.username(), u.password(), u.path(), u.query(), u.fragment(),
            u.host_str(), matches!(u.host(), Some(url::Host::Ipv4(_))), u.port_or_known_default(),
        )),
        Err(_) => None,
    }
}

/// The start of every message about a bad public address.
pub open spec fn bad_address(raw: Seq<char>) -> Seq<char> {
    "invalid --public-address / ECS_SD_PUBLIC_ADDRESS '"@ + raw + "': "@
}

/// The public address of this service and its scheme, from the configured
/// URL: it must be an `http` or `https` URL with a domain name, no user
/// info, no path, query or fragment; the port defaults to the scheme's.
/// Without a URL, proxy mode is refused; otherwise there is no public address.
pub open spec fn public_address_outcome(mode: Mode, raw: Option<Seq<char>>) -> Result<
    (Option<Seq<char>>, Option<Seq<char>>),
    Seq<char>,
> {
    match raw {
        None => if mode == Mode::Proxy {
            Err("--public-address / ECS_SD_PUBLIC_ADDRESS is required in proxy mode"@)
        } else {
            Ok((None, None))
        },
        Some(r) => match parsed_url(r) {
            None => Err(bad_address(r) + "expected full URL with http:// or https://"@),
            Some(u) => if !(u.0 == "http"@ || u.0 == "https"@) {
                Err(bad_address(r) + "only http:// or https:// are supported"@)
            } else if u.1 != Seq::<char>::empty() || u.2 is Some {
                Err(bad_address(r) + "user info is not allowed"@)
            } else if u.3 != "/"@ || u.4 is Some || u.5 is Some {
                Err(bad_address(r) + "path, query, and fragment are not allowed"@)
            } else {
                match u.6 {
                    None => Err(bad_address(r) + "host is required"@),
                    Some(h) => if u.7 {
                        Err(bad_address(r) + "host must be a domain name"@)
                    } else {
                        match u.8 {
                            None => Err(bad_address(r) + "missing port and unknown default for scheme"@),
                            Some(p) => Ok((Some(h + ":"@ + decimal(p as nat)), Some(u.0))),
                        }
                    }
                }
            },
        },
    }
}

fn bad_address_error(raw: &str, what: &str) -> (r: ConfigError)
    ensures
        r matches ConfigError::InvalidValue(m) && m@ == bad_address(raw@) + what@,
{
    let a = cat("invalid --public-address / ECS_SD_PUBLIC_ADDRESS '", raw);
    let b = cat(a.as_str(), "': ");
    ConfigError::InvalidValue(cat(b.as_str(), what))
}

/// The public address and its scheme, checked as `public_address_outcome` says.
pub fn normalize_public_address(mode: Mode, raw_public_address: Option<&str>) -> (r: Result<
    (Option<String>, Option<String>),
    ConfigError,
>)
    ensures
        match public_address_outcome(mode, opt_str_view(raw_public_address)) {
            Ok((a, s)) => r matches Ok((ra, rs)) && opt_view(ra) == a && opt_view(rs) == s,
            Err(m) => r matches Err(ConfigError::InvalidValue(rm)) && rm@ == m,
        },
{
    let raw = match raw_public_address {
        None => {
            if mode == Mode::Proxy {
                return Err(
                    ConfigError::InvalidValue(
                        "--public-address / ECS_SD_PUBLIC_ADDRESS is required in proxy mode".to_owned(),
                    ),
                );
            }
            return Ok((None, None));
        },
        Some(raw) => raw,
    };
    let u = match parse_url(raw) {
        None => return Err(bad_address_error(raw, "expected full URL with http:// or https://")),
        Some(u) => u,
    };
    if !(str_eq(u.scheme.as_str(), "http") || str_eq(u.scheme.as_str(), "https")) {
        return Err(bad_address_error(raw, "only http:// or https:// are supported"));
    }
    if !u.username.as_str().is_empty() || u.password.is_some() {
        proof {
            if u.username@.len() == 0 {
                assert(u.username@ =~= Seq::<char>::empty());
            }
        }
        return Err(bad_address_error(raw, "user info is not allowed"));
    }
    assert(u.username@ =~= Seq::<char>::empty());
    if !str_eq(u.path.as_str(), "/") || u.query.is_some() || u.fragment.is_some() {
        return Err(bad_address_error(raw, "path, query, and fragment are not allowed"));
    }
    let host = match &u.host {
        None => return Err(bad_address_error(raw, "host is required")),
        Some(h) => h,
    };
    if u.host_is_ipv4 {
        return Err(bad_address_error(raw, "host must be a domain name"));
    }
    let port = match u.port {
        None => return Err(bad_address_error(raw, "missing port and unknown default for scheme")),
        Some(p) => p,
    };
    let a = cat(host.as_str(), ":");
    let address = cat(a.as_str(), u64_to_string(port as u64).as_str());
    Ok((Some(address), Some(u.scheme.clone())))
}

// ---------------------------------------------------------------------------
// The other arguments
// ---------------------------------------------------------------------------

/// Whether a gossip seed is `host:port`: after its last `:` stands a port.
pub open spec fn seed_ok(seed: Seq<char>) -> bool {
    seed.contains(':') && parse_u16_spec(after_last(seed, ':')) is Some
}

/// The first seed that is not `host:port`.
pub open spec fn first_bad_seed(seeds: Seq<Seq<char>>) -> Option<Seq<char>>
    decreases seeds.len(),
{
    if seeds.len() == 0 {
        None
    } else if !seed_ok(seeds[0]) {
        Some(seeds[0])
    } else {
        first_bad_seed(seeds.drop_first())
    }
}

/// The gossip seeds of the arguments.
pub open spec fn seeds_of(raw: Option<Seq<char>>) -> Seq<Seq<char>> {
    match raw {
        Some(s) => split_trim_nonempty(s, ','),
        None => Seq::empty(),
    }
}

fn has_char(s: &str, c: char) -> (r: bool)
    ensures
        r == s@.contains(c),
{
    let cs = chars_of(s);
    let mut i: usize = 0;
    while i < cs.len()
        invariant
            0 <= i <= cs@.len(),
            cs@ == s@,
            forall|j: int| 0 <= j < i ==> cs@[j] != c,
        decreases cs.len() - i,
    {
        if cs[i] == c {
            assert(s@[i as int] == c);
            return true;
        }
        i = i + 1;
    }
    false
}

/// Whether a gossip seed is `host:port`.
pub fn valid_seed(seed: &str) -> (r: bool)
    ensures
        r == seed_ok(seed@),
{
    has_char(seed, ':') && parse_u16(text_after_last(seed, ':').as_str()).is_some()
}

/// The first seed that is not `host:port`, if any.
pub fn find_bad_seed(seeds: &Vec<String>) -> (r: Option<usize>)
    ensures
        match r {
            Some(i) => i < seeds@.len() && first_bad_seed(seeds@.map_values(|s: String| s@)) == Some(
                seeds@[i as int]@,
            ),
            None => first_bad_seed(seeds@.map_values(|s: String| s@)) is None,
        },
{
    let ghost all = seeds@.map_values(|s: String| s@);
    let mut i: usize = 0;
    assert(all.skip(0) =~= all);
    while i < seeds.len()
        invariant
            0 <= i <= seeds@.len(),
            all == seeds@.map_values(|s: String| s@),
            first_bad_seed(all) == first_bad_seed(all.skip(i as int)),
        decreases seeds.len() - i,
    {
        assert(all.skip(i as int)[0] == seeds@[i as int]@);
        if !valid_seed(seeds[i].as_str()) {
            return Some(i);
        }
        assert(all.skip(i as int).drop_first() =~= all.skip(i + 1));
        i = i + 1;
    }
    assert(all.skip(i as int) =~= Seq::<Seq<char>>::empty());
    None
}

/// The default node id: the host name (`localhost` when unknown), a colon,
/// and the gossip port.
pub open spec fn default_node_id_text(hostname: Option<Seq<char>>, gossip_port: u16) -> Seq<char> {
    let h = match hostname {
        Some(h) => h,
        None => "localhost"@,
    };
    h + ":"@ + decimal(gossip_port as nat)
}

/// The default node id.
pub fn default_node_id(hostname: Option<&str>, gossip_port: u16) -> (r: String)
    ensures
        r@ == default_node_id_text(opt_str_view(hostname), gossip_port),
{
    let h = match hostname {
        Some(h) => h,
        None => "localhost",
    };
    let a = cat(h, ":");
    cat(a.as_str(), u64_to_string(gossip_port as u64).as_str())
}

/// Reads a metadata level, in any letter case.
pub fn parse_metadata_level(input: &str) -> (r: Result<MetadataLevel, String>)
    ensures
        match r {
            Ok(l) => crate::level::level_named(crate::text::unicode_lowercase(input@)) == Some(l),
            Err(m) => crate::level::level_named(crate::text::unicode_lowercase(input@)) is None
                && m@ == crate::level::invalid_level_message(input@),
        },
{
    MetadataLevel::parse(input)
}

/// The message when no AWS region is known.
pub open spec fn missing_region_message() -> Seq<char> {
    "AWS region is not configured: set AWS_REGION or a default region in the AWS profile"@
}

/// The AWS region, which must be known.
pub fn require_region(region: Option<String>) -> (r: Result<String, String>)
    ensures
        match region {
            Some(s) => r == Ok::<String, String>(s),
            None => r matches Err(m) && m@ == missing_region_message(),
        },
{
    match region {
        Some(s) => Ok(s),
        None => Err(
            "AWS region is not configured: set AWS_REGION or a default region in the AWS profile".to_owned(),
        ),
    }
}

/// The first reason the arguments are refused, in the order they are checked.
pub open spec fn args_error(args: Args, listen_is_socket_address: bool) -> Option<Seq<char>> {
    if split_trim_nonempty(args.clusters@, ',').len() == 0 {
        Some("clusters must contain at least one non-empty entry"@)
    } else if !listen_is_socket_address {
        Some("listen must be a valid socket address, got '"@ + args.listen@ + "'"@)
    } else if args.refresh_interval.secs == 0 && args.refresh_interval.nanos == 0 {
        Some("refresh interval must be greater than 0"@)
    } else if args.refresh_interval.secs == 0 {
        Some("refresh interval must be at least 1 second"@)
    } else if args.refresh_min_interval.secs == 0 && args.refresh_min_interval.nanos == 0 {
        Some("refresh min interval must be greater than 0"@)
    } else if args.refresh_min_interval.secs == 0 {
        Some("refresh min interval must be at least 1 second"@)
    } else {
        match public_address_outcome(args.mode, opt_view(args.public_address)) {
            Err(m) => Some(m),
            Ok(_) => match first_bad_seed(seeds_of(opt_view(args.cluster_seeds))) {
                Some(s) => Some("invalid cluster seed '"@ + s + "': must be host:port"@),
                None => None,
            },
        }
    }
}

impl Config {
    /// Validates the arguments.  `listen_is_socket_address` tells whether
    /// `args.listen` parses as a socket address; `hostname` is the host name
    /// the default node id is made of.
    pub fn try_from_args(args: Args, hostname: Option<&str>, listen_is_socket_address: bool) -> (r:
        Result<Config, ConfigError>)
        ensures
            match args_error(args, listen_is_socket_address) {
                Some(m) => r matches Err(ConfigError::InvalidValue(rm)) && rm@ == m,
                None => r is Ok,
            },
            r matches Ok(c) ==> {
                &&& c.clusters@.map_values(|s: String| s@) == split_trim_nonempty(args.clusters@, ',')
                &&& c.listen == args.listen
                &&& c.refresh_interval == args.refresh_interval.secs
                &&& c.metadata_level == args.metadata_level
                &&& c.mode == args.mode
                &&& public_address_outcome(args.mode, opt_view(args.public_address)) == Ok::<
                    (Option<Seq<char>>, Option<Seq<char>>),
                    Seq<char>,
                >((opt_view(c.public_address), opt_view(c.public_address_scheme)))
                &&& c.cluster_mode == args.cluster_mode
                &&& c.cluster_seeds@.map_values(|s: String| s@) == seeds_of(opt_view(args.cluster_seeds))
                &&& c.gossip_port == args.gossip_port
                &&& c.node_id@ == match args.node_id {
                    Some(n) => n@,
                    None => default_node_id_text(opt_str_view(hostname), args.gossip_port),
                }
                &&& c.metrics_port == args.metrics_port
                &&& c.refresh_token == args.refresh_token
                &&& c.refresh_min_interval == args.refresh_min_interval.secs
                &&& c.proxy_forward_sensitive_headers == args.proxy_forward_sensitive_headers
            },
    {
        let clusters = split_trim_nonempty_exec(args.clusters.as_str(), ',');
        if clusters.len() == 0 {
            return Err(
                ConfigError::InvalidValue(
                    "clusters must contain at least one non-empty entry".to_owned(),
                ),
            );
        }
        if !listen_is_socket_address {
            let a = cat("listen must be a valid socket address, got '", args.listen.as_str());
            return Err(ConfigError::InvalidValue(cat(a.as_str(), "'")));
        }
        if args.refresh_interval.secs == 0 && args.refresh_interval.nanos == 0 {
            return Err(ConfigError::InvalidValue("refresh interval must be greater than 0".to_owned()));
        }
        if args.refresh_interval.secs == 0 {
            return Err(
                ConfigError::InvalidValue("refresh interval must be at least 1 second".to_owned()),
            );
        }
        if args.refresh_min_interval.secs == 0 && args.refresh_min_interval.nanos == 0 {
            return Err(
                ConfigError::InvalidValue("refresh min interval must be greater than 0".to_owned()),
            );
        }
        if args.refresh_min_interval.secs == 0 {
            return Err(
                ConfigError::InvalidValue("refresh min interval must be at least 1 second".to_owned()),
            );
        }
        let raw_public = match &args.public_address {
            Some(s) => Some(s.as_str()),
            None => None,
        };
        let (public_address, public_address_scheme) = match normalize_public_address(
            args.mode,
            raw_public,
        ) {
            Ok(p) => p,
            Err(e) => return Err(e),
        };
        let cluster_seeds: Vec<String> = match &args.cluster_seeds {
            Some(s) => split_trim_nonempty_exec(s.as_str(), ','),
            None => Vec::new(),
        };
        assert(cluster_seeds@.map_values(|s: String| s@) =~= seeds_of(opt_view(args.cluster_seeds)));
        match find_bad_seed(&cluster_seeds) {
            Some(i) => {
                let a = cat("invalid cluster seed '", cluster_seeds[i].as_str());
                return Err(ConfigError::InvalidValue(cat(a.as_str(), "': must be host:port")));
            },
            None => {},
        }
        let node_id = match args.node_id {
            Some(n) => n,
            None => default_node_id(hostname, args.gossip_port),
        };
        Ok(
            Config {
                clusters,
                listen: args.listen,
                refresh_interval: args.refresh_interval.secs,
                metadata_level: args.metadata_level,
                mode: args.mode,
                public_address,
                public_address_scheme,
                cluster_mode: args.cluster_mode,
                cluster_seeds,
                gossip_port: args.gossip_port,
                node_id,
                metrics_port: args.metrics_port,
                refresh_token: args.refresh_token,
                refresh_min_interval: args.refresh_min_interval.secs,
                proxy_forward_sensitive_headers: args.proxy_forward_sensitive_headers,
            },
        )
    }
}

/// Proxy mode is never configured without a public address.
pub proof fn lemma_proxy_mode_needs_public_address(args: Args, listen_is_socket_address: bool)
    requires
        args.mode == Mode::Proxy,
        args_error(args, listen_is_socket_address) is None,
    ensures
        public_address_outcome(args.mode, opt_view(args.public_address)) matches Ok((Some(_), Some(_))),
{
}

} // verus!
