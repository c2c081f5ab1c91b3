//! What the scrape proxy decides: which route a request names, which
//! headers go upstream, and where the request is sent.
use vstd::prelude::*;
use crate::route::{parsed_uuid, uuid_text, ProxyTarget, RoutingTable};
use crate::text::{cat, str_eq};

verus! {

/// One request or response header: a lower-case name and its raw value.
pub struct Header {
    pub name: String,
    pub value: Vec<u8>,
}

/// Headers that belong to one connection and are never forwarded.
pub open spec fn is_hop_by_hop(name: Seq<char>) -> bool {
    name == "connection"@ || name == "keep-alive"@ || name == "transfer-encoding"@ || name == "te"@
        || name == "trailer"@ || name == "upgrade"@ || name == "proxy-authorization"@ || name
        == "proxy-authenticate"@ || name == "host"@
}

/// Headers that carry credentials.
pub open spec fn is_sensitive(name: Seq<char>) -> bool {
    name == "authorization"@ || name == "cookie"@ || name == "set-cookie"@ || name == "x-api-key"@
}

/// Keeps the headers that are not hop-by-hop.
pub open spec fn not_hop_by_hop() -> spec_fn(Header) -> bool {
    |h: Header| !is_hop_by_hop(h.name@)
}

/// Keeps the headers that carry no credentials.
pub open spec fn not_sensitive() -> spec_fn(Header) -> bool {
    |h: Header| !is_sensitive(h.name@)
}

fn hop_by_hop_name(name: &str) -> (r: bool)
    ensures
        r == is_hop_by_hop(name@),
{
    str_eq(name, "connection") || str_eq(name, "keep-alive") || str_eq(name, "transfer-encoding")
        || str_eq(name, "te") || str_eq(name, "trailer") || str_eq(name, "upgrade") || str_eq(
        name,
        "proxy-authorization",
    ) || str_eq(name, "proxy-authenticate") || str_eq(name, "host")
}

fn sensitive_name(name: &str) -> (r: bool)
    ensures
        r == is_sensitive(name@),
{
    str_eq(name, "authorization") || str_eq(name, "cookie") || str_eq(name, "set-cookie")
        || str_eq(name, "x-api-key")
}

/// The headers without the hop-by-hop ones, in order.
pub fn filter_hop_by_hop_headers(headers: Vec<Header>) -> (r: Vec<Header>)
    ensures
        r@ == headers@.filter(not_hop_by_hop()),
{
    let ghost all = headers@;
    let ghost f = not_hop_by_hop();
    let mut out: Vec<Header> = Vec::new();
    for h in it: headers.into_iter()
        invariant
            it.seq() == all,
            f == not_hop_by_hop(),
            out@ == all.take(it.index()).filter(f),
    {
        let ghost i = it.index();
        proof {
            reveal(Seq::filter);
            assert(all.take(i + 1).drop_last() =~= all.take(i));
            assert(all.take(i + 1).last() == h);
        }
        if !hop_by_hop_name(h.name.as_str()) {
            out.push(h);
        }
    }
    assert(all.take(all.len() as int) =~= all);
    out
}

/// The headers without the ones that carry credentials, unless forwarding
/// them is allowed.
pub fn filter_sensitive_headers(headers: Vec<Header>, allow_sensitive: bool) -> (r: Vec<Header>)
    ensures
        allow_sensitive ==> r@ == headers@,
        !allow_sensitive ==> r@ == headers@.filter(not_sensitive()),
{
    if allow_sensitive {
        return headers;
    }
    let ghost all = headers@;
    let ghost f = not_sensitive();
    let mut out: Vec<Header> = Vec::new();
    for h in it: headers.into_iter()
        invariant
            it.seq() == all,
            f == not_sensitive(),
            out@ == all.take(it.index()).filter(f),
    {
        let ghost i = it.index();
        proof {
            reveal(Seq::filter);
            assert(all.take(i + 1).drop_last() =~= all.take(i));
            assert(all.take(i + 1).last() == h);
        }
        if !sensitive_name(h.name.as_str()) {
            out.push(h);
        }
    }
    assert(all.take(all.len() as int) =~= all);
    out
}

/// The URL a proxied scrape is sent to: plain HTTP to the target's address,
/// the rest of the request path, and the request's query if it had one.
pub open spec fn upstream_url_text(address: Seq<char>, path: Seq<char>, query: Option<Seq<char>>) -> Seq<
    char,
> {
    "http://"@ + address + "/"@ + path + match query {
        Some(q) => "?"@ + q,
        None => Seq::empty(),
    }
}

/// The URL a proxied scrape is sent to.
pub fn upstream_url(address: &str, path: &str, query: Option<&str>) -> (r: String)
    ensures
        r@ == upstream_url_text(
            address@,
            path@,
            match query {
                Some(q) => Some(q@),
                None => None,
            },
        ),
{
    let a = cat("http://", address);
    let b = cat(a.as_str(), "/");
    let c = cat(b.as_str(), path);
    match query {
        Some(q) => {
            let d = cat("?", q);
            cat(c.as_str(), d.as_str())
        },
        None => {
            assert(c@ + Seq::<char>::empty() =~= c@);
            c
        },
    }
}

/// Why a proxied scrape was not served.
#[derive(Debug, Clone, Copy, PartialEq, Eq, Structural)]
pub enum ProxyError {
    /// The service does not run in proxy mode.
    NotProxyMode,
    /// The route id in the path is not a UUID.
    InvalidRouteId,
    /// No route has that id.
    RouteNotFound,
    /// The upstream target could not be reached.
    UpstreamUnreachable,
    /// The upstream target did not answer in time.
    UpstreamTimeout,
}

impl ProxyError {
    /// The HTTP status of the answer.
    pub fn status_code(&self) -> (r: u16)
        ensures
            *self == ProxyError::NotProxyMode ==> r == 404,
            *self == ProxyError::InvalidRouteId ==> r == 400,
            *self == ProxyError::RouteNotFound ==> r == 404,
            *self == ProxyError::UpstreamUnreachable ==> r == 502,
            *self == ProxyError::UpstreamTimeout ==> r == 504,
    {
        match self {
            ProxyError::NotProxyMode => 404,
            ProxyError::InvalidRouteId => 400,
            ProxyError::RouteNotFound => 404,
            ProxyError::UpstreamUnreachable => 502,
            ProxyError::UpstreamTimeout => 504,
        }
    }

    /// The `error` text of the answer.
    pub fn error_text(&self) -> (r: &'static str)
        ensures
            *self == ProxyError::NotProxyMode ==> r@ == "proxy mode not enabled"@,
            *self == ProxyError::InvalidRouteId ==> r@ == "invalid route id"@,
            *self == ProxyError::RouteNotFound ==> r@ == "route not found"@,
            *self == ProxyError::UpstreamUnreachable ==> r@ == "upstream unreachable"@,
            *self == ProxyError::UpstreamTimeout ==> r@ == "upstream timeout"@,
    {
        match self {
            ProxyError::NotProxyMode => "proxy mode not enabled",
            ProxyError::InvalidRouteId => "invalid route id",
            ProxyError::RouteNotFound => "route not found",
            ProxyError::UpstreamUnreachable => "upstream unreachable",
            ProxyError::UpstreamTimeout => "upstream timeout",
        }
    }
}

/// Why a request to the upstream target failed: it timed out, or it could
/// not be made at all.
pub fn upstream_failure(timed_out: bool) -> (r: ProxyError)
    ensures
        r == (if timed_out {
            ProxyError::UpstreamTimeout
        } else {
            ProxyError::UpstreamUnreachable
        }),
{
    if timed_out {
        ProxyError::UpstreamTimeout
    } else {
        ProxyError::UpstreamUnreachable
    }
}

/// The route that a proxied scrape names.  Outside proxy mode nothing is
/// proxied; an id that is not a UUID is a bad request; an unknown id is not
/// found; an id that parses to a route's id names that route.  The hyphenated text of a route's id always names that route.
pub fn resolve_route<'a>(proxy_mode: bool, id: &str, table: &'a RoutingTable) -> (r: Result<
    &'a ProxyTarget,
    ProxyError,
>)
    ensures
        !proxy_mode ==> r == Err::<&ProxyTarget, ProxyError>(ProxyError::NotProxyMode),
        proxy_mode && parsed_uuid(id@) is None ==> r == Err::<&ProxyTarget, ProxyError>(
            ProxyError::InvalidRouteId,
        ),
        proxy_mode && parsed_uuid(id@) is Some && !table@.contains_key(parsed_uuid(id@).unwrap())
            ==> r == Err::<&ProxyTarget, ProxyError>(ProxyError::RouteNotFound),
        proxy_mode && parsed_uuid(id@) is Some && table@.contains_key(parsed_uuid(id@).unwrap())
            ==> r is Ok && r.unwrap().route_id == parsed_uuid(id@).unwrap(),
        r is Ok ==> {
            let pt = r.unwrap();
            &&& proxy_mode
            &&& parsed_uuid(id@) == Some(pt.route_id)
            &&& table@.contains_key(pt.route_id)
            &&& table@[pt.route_id] == (pt.address@, pt.labels@)
        },
        forall|v: u128|
            proxy_mode && #[trigger] uuid_text(v) == id@ && table@.contains_key(v) ==> r is Ok
                && r.unwrap().route_id == v,
{
    if !proxy_mode {
        return Err(ProxyError::NotProxyMode);
    }
    match crate::route::parse_uuid(id) {
        None => Err(ProxyError::InvalidRouteId),
        Some(u) => match table.get(u) {
            Some(pt) => Ok(pt),
            None => Err(ProxyError::RouteNotFound),
        },
    }
}

} // verus!
