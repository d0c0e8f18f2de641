use rusty_reverse_proxy::config::{Address, RouteConfig};
use rusty_reverse_proxy::debug::{DebugBuf, Level};
use rusty_reverse_proxy::router_page::{route_items, route_url, router_page_html, PAGE_HEAD, PAGE_TAIL};

#[test]
fn builds_a_request_line() {
    let b = DebugBuf::with_stamp("2024-01-02 03:04:05.678")
        .write_str("1.2.3.4:5")
        .write_char(':')
        .write_char(' ')
        .req_with_scheme("GET", "a.example.com", "/foo?x=1", "http")
        .to()
        .not_found();
    assert_eq!(
        b.as_str(),
        "2024-01-02 03:04:05.678: 1.2.3.4:5: GET \"http://a.example.com/foo?x=1\" -> 404 NOT FOUND"
    );
}

#[test]
fn request_forms() {
    assert_eq!(DebugBuf::with_stamp("t").req("GET", "h", "/p").as_str(), "t: GET \"h/p\"");
    assert_eq!(
        DebugBuf::with_stamp("t").upstream_req("POST", "http://h/p").as_str(),
        "t: POST \"http://h/p\""
    );
}

#[test]
fn display_and_debug() {
    assert_eq!(DebugBuf::with_stamp("t").display(42).as_str(), "t: 42");
    assert_eq!(DebugBuf::with_stamp("t").display("x y").as_str(), "t: x y");
    assert_eq!(DebugBuf::with_stamp("t").debug("q").as_str(), "t: \"q\"");
    assert_eq!(DebugBuf::with_stamp("t").debug_alt(Some(1)).as_str(), "t: Some(\n    1,\n)");
}

#[test]
fn new_starts_with_a_timestamp() {
    let b = DebugBuf::new();
    let s = b.as_str();
    assert!(s.ends_with(": "));
    assert_eq!(s.len(), "2024-01-02 03:04:05.678: ".len());
    assert_eq!(&s[4..5], "-");
}

#[test]
fn lines_carry_their_level() {
    let b = DebugBuf::with_stamp("t");
    assert_eq!(b.line(Level::Debug), "\x1b[92;1m[DEBUG]\x1b[0m t: ");
    assert_eq!(b.line(Level::Info), "\x1b[96;1m[ INFO]\x1b[0m t: ");
    assert_eq!(b.line(Level::Warn), "\x1b[93;1m[ WARN]\x1b[0m t: ");
    assert_eq!(b.line(Level::Error), "\x1b[91;1m[ERROR]\x1b[0m t: ");
}

#[test]
fn router_page_lists_routes() {
    let r = RouteConfig {
        request: Address::new("a.example.com".to_string(), "/api".to_string()),
        target: Address::new("x:1".to_string(), "".to_string()),
    };
    assert_eq!(route_url("https", &r), "https://a.example.com/api");
    let routes = vec![r];
    let items = route_items("https", &routes);
    assert_eq!(
        items,
        "<li><a href=\"https://a.example.com/api\">https://a.example.com/api</a></li>\n"
    );
    let page = router_page_html("https", &routes);
    assert_eq!(page, format!("{PAGE_HEAD}{items}{PAGE_TAIL}"));
    assert!(page.starts_with("<!DOCTYPE HTML>"));
    assert!(page.contains("<title>Reverse Proxy Router</title>"));
    assert_eq!(route_items("http", &Vec::new()), "");
}
