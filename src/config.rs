use vstd::prelude::*;

verus! {

/// Relies on `str::starts_with` with a `&str` pattern: true exactly when
/// `prefix` is a prefix of `s`.
#[verifier::external_body]
fn str_starts_with(s: &str, prefix: &str) -> (r: bool)
    ensures
        r == prefix@.is_prefix_of(s@),
{
    s.starts_with(prefix)
}

/// A host and a path prefix. As a route's request side it says which inbound
/// traffic is accepted; as its target side, where that traffic goes.
#[derive(Debug, Clone)]
pub struct Address {
    pub host: String,
    /// Path prefix; the empty path matches every path.
    pub path: String,
}

/// `req` (a request's host and path) is accepted by `pattern`: the hosts are
/// equal, exactly, and the pattern's path is a prefix of the request's path.
pub open spec fn address_matches(req_host: Seq<char>, req_path: Seq<char>, pattern: Address) -> bool {
    &&& req_host == pattern.host@
    &&& pattern.path@.is_prefix_of(req_path)
}

impl Address {
    pub fn new(host: String, path: String) -> (r: Address)
        ensures
            r.host@ == host@,
            r.path@ == path@,
    {
        Address { host, path }
    }

    /// `self` is a request's address, `other` a route's: the hosts must be
    /// equal and `self.path` must start with `other.path`.
    pub fn matches(&self, other: &Address) -> (r: bool)
        ensures
            r == address_matches(self.host@, self.path@, *other),
    {
        self.host == other.host && str_starts_with(self.path.as_str(), other.path.as_str())
    }
}

impl PartialEq for Address {
    fn eq(&self, other: &Address) -> (r: bool)
        ensures
            r == (self.host@ == other.host@ && self.path@ == other.path@),
    {
        self.host == other.host && self.path == other.path
    }
}

impl Eq for Address {}

impl vstd::std_specs::cmp::PartialEqSpecImpl for Address {
    open spec fn obeys_eq_spec() -> bool {
        true
    }

    open spec fn eq_spec(&self, other: &Address) -> bool {
        self.host@ == other.host@ && self.path@ == other.path@
    }
}

/// One routing rule: traffic accepted by `request` is forwarded to `target`.
#[derive(Debug, Clone)]
pub struct RouteConfig {
    pub request: Address,
    pub target: Address,
}

/// Where the listener's TLS certificate chain and private key are stored.
#[derive(Debug, Clone)]
pub struct TlsConfig {
    pub fullchain_path: String,
    pub privkey_path: String,
}

/// The process-wide configuration, read once at startup and never changed.
#[derive(Debug)]
pub struct ReverseProxyConfig {
    pub logging: bool,
    /// Listening address, `host:port`.
    pub address: String,
    /// Address at which the listing of all routes is served, if any.
    pub router_page: Option<Address>,
    pub tls_config: Option<TlsConfig>,
    /// Routes in configuration order; the first match wins.
    pub routes: Vec<RouteConfig>,
    /// Largest request body, in bytes, accepted when its length is declared.
    pub max_body_bytes: u64,
}

/// The body cap when the configuration names none: 64 MiB.
pub const DEFAULT_MAX_BODY_BYTES: u64 = 67108864;

pub open spec fn scheme_for(uses_tls: bool) -> Seq<char> {
    if uses_tls {
        "https"@
    } else {
        "http"@
    }
}

impl Default for ReverseProxyConfig {
    /// Logging on, listening on every interface at port 8080, no TLS, no
    /// router page, no routes and a body cap of 64 MiB.
    fn default() -> (r: ReverseProxyConfig)
        ensures
            r.logging,
            r.address@ == "[::]:8080"@,
            r.router_page.is_none(),
            r.tls_config.is_none(),
            r.routes@.len() == 0,
            r.max_body_bytes == DEFAULT_MAX_BODY_BYTES,
    {
        ReverseProxyConfig {
            logging: true,
            address: String::from_str("[::]:8080"),
            router_page: None,
            tls_config: None,
            routes: Vec::new(),
            max_body_bytes: DEFAULT_MAX_BODY_BYTES,
        }
    }
}

impl ReverseProxyConfig {
    pub fn default_config_file_path() -> (r: String)
        ensures
            r@ == "./revproxy.toml"@,
    {
        String::from_str("./revproxy.toml")
    }

    pub fn server_uses_tls(&self) -> (r: bool)
        ensures
            r == self.tls_config.is_some(),
    {
        self.tls_config.is_some()
    }

    /// The scheme under which clients reach this proxy.
    pub fn request_scheme(&self) -> (r: &'static str)
        ensures
            r@ == scheme_for(self.tls_config.is_some()),
    {
        if self.server_uses_tls() {
            "https"
        } else {
            "http"
        }
    }

    /// The request at `addr` asks for the router page: one is configured and
    /// its host and path equal `addr`'s exactly.
    pub fn is_router_page(&self, addr: &Address) -> (r: bool)
        ensures
            r == (match self.router_page {
                Some(p) => p.host@ == addr.host@ && p.path@ == addr.path@,
                None => false,
            }),
    {
        match &self.router_page {
            Some(p) => *addr == *p,
            None => false,
        }
    }
}

} // verus!
