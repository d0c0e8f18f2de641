use rusty_reverse_proxy::config::{Address, ReverseProxyConfig, RouteConfig, TlsConfig};
use rusty_reverse_proxy::routing::find_route;

fn addr(host: &str, path: &str) -> Address {
    Address::new(host.to_string(), path.to_string())
}

fn route(host: &str, path: &str, target: &str) -> RouteConfig {
    RouteConfig { request: addr(host, path), target: addr(target, "") }
}

#[test]
fn address_matches_on_equal_host_and_prefix() {
    let pattern = addr("a.example.com", "/api");
    assert!(addr("a.example.com", "/api/widgets").matches(&pattern));
    assert!(addr("a.example.com", "/api").matches(&pattern));
    assert!(!addr("a.example.com", "/other").matches(&pattern));
    assert!(!addr("b.example.com", "/api").matches(&pattern));
}

#[test]
fn empty_path_matches_every_path() {
    let pattern = addr("a.example.com", "");
    assert!(addr("a.example.com", "/").matches(&pattern));
    assert!(addr("a.example.com", "").matches(&pattern));
    assert!(addr("a.example.com", "/foo").matches(&pattern));
}

#[test]
fn host_comparison_is_exact() {
    let pattern = addr("a.example.com", "");
    assert!(!addr("A.example.com", "/").matches(&pattern));
    assert!(!addr("a.example.com:80", "/").matches(&pattern));
}

#[test]
fn first_match_wins_over_more_specific_route() {
    let routes = vec![route("a.example.com", "", "y:1"), route("a.example.com", "/api", "x:1")];
    assert_eq!(find_route(&routes, &addr("a.example.com", "/api/widgets")), Some(0));
}

#[test]
fn routes_by_prefix_in_table_order() {
    let routes = vec![route("a.example.com", "/api", "x:1"), route("a.example.com", "", "y:1")];
    assert_eq!(find_route(&routes, &addr("a.example.com", "/api/widgets")), Some(0));
    assert_eq!(find_route(&routes, &addr("a.example.com", "/other")), Some(1));
}

#[test]
fn no_route_for_unknown_host() {
    let routes = vec![route("a.example.com", "", "127.0.0.1:9001")];
    assert_eq!(find_route(&routes, &addr("b.example.com", "/")), None);
    assert_eq!(find_route(&Vec::new(), &addr("a.example.com", "/")), None);
}

#[test]
fn default_config() {
    let c = ReverseProxyConfig::default();
    assert!(c.logging);
    assert_eq!(c.address, "[::]:8080");
    assert!(c.router_page.is_none());
    assert!(c.tls_config.is_none());
    assert!(c.routes.is_empty());
    assert_eq!(c.max_body_bytes, 64 * 1024 * 1024);
    assert!(!c.server_uses_tls());
    assert_eq!(c.request_scheme(), "http");
    assert_eq!(ReverseProxyConfig::default_config_file_path(), "./revproxy.toml");
}

#[test]
fn tls_config_gives_https_scheme() {
    let mut c = ReverseProxyConfig::default();
    c.tls_config = Some(TlsConfig {
        fullchain_path: "fullchain.pem".to_string(),
        privkey_path: "privkey.pem".to_string(),
    });
    assert!(c.server_uses_tls());
    assert_eq!(c.request_scheme(), "https");
}

#[test]
fn router_page_address_is_compared_exactly() {
    let mut c = ReverseProxyConfig::default();
    assert!(!c.is_router_page(&addr("proxy.local", "/routes")));
    c.router_page = Some(addr("proxy.local", "/routes"));
    assert!(c.is_router_page(&addr("proxy.local", "/routes")));
    assert!(!c.is_router_page(&addr("proxy.local", "/routes/x")));
    assert!(!c.is_router_page(&addr("other.local", "/routes")));
    assert!(addr("h", "/p") == addr("h", "/p"));
    assert!(addr("h", "/p") != addr("h", "/q"));
}
