use vstd::prelude::*;

use crate::config::RouteConfig;

verus! {

/// The page up to the list of routes.
pub const PAGE_HEAD: &'static str = "<!DOCTYPE HTML>\n<html lang=\"en\">\n\n<head>\n    <meta charset=\"utf-8\">\n    <meta name=\"viewport\" content=\"width=device-width, initial-scale=1\">\n\n    <title>Reverse Proxy Router</title>\n    <meta name=\"description\" content=\"Lists all available routes managed by the reverse proxy.\">\n</head>\n\n<body>\n    <h1>Reverse Proxy Router</h1>\n    <ul>\n        ";

/// The page after the list of routes.
pub const PAGE_TAIL: &'static str = "\n    </ul>\n</body>\n\n</html>";

/// The URL under which clients reach a route: `scheme://host` then the path prefix.
pub open spec fn route_url_of(scheme: Seq<char>, route: RouteConfig) -> Seq<char> {
    scheme + "://"@ + route.request.host@ + route.request.path@
}

/// One list entry linking to `url`.
pub open spec fn item_of(url: Seq<char>) -> Seq<char> {
    "<li><a href=\""@ + url + "\">"@ + url + "</a></li>\n"@
}

/// The entries of all `routes`, in table order.
pub open spec fn items_of(scheme: Seq<char>, routes: Seq<RouteConfig>) -> Seq<char>
    decreases routes.len(),
{
    if routes.len() == 0 {
        Seq::empty()
    } else {
        items_of(scheme, routes.drop_last()) + item_of(route_url_of(scheme, routes.last()))
    }
}

pub fn route_url(scheme: &str, route: &RouteConfig) -> (r: String)
    ensures
        r@ == route_url_of(scheme@, *route),
{
    let mut url = String::from_str(scheme);
    url.append("://");
    url.append(route.request.host.as_str());
    url.append(route.request.path.as_str());
    url
}

/// The list entries of the listing page, one link per route, in table order.
pub fn route_items(scheme: &str, routes: &Vec<RouteConfig>) -> (r: String)
    ensures
        r@ == items_of(scheme@, routes@),
{
    let mut out = String::new();
    let mut i: usize = 0;
    while i < routes.len()
        invariant
            i <= routes@.len(),
            out@ == items_of(scheme@, routes@.take(i as int)),
        decreases routes@.len() - i,
    {
        let url = route_url(scheme, &routes[i]);
        out.append("<li><a href=\"");
        out.append(url.as_str());
        out.append("\">");
        out.append(url.as_str());
        out.append("</a></li>\n");
        proof {
            let next = routes@.take(i + 1);
            assert(next.drop_last() =~= routes@.take(i as int));
            assert(next.last() == routes@[i as int]);
        }
        i += 1;
    }
    proof {
        assert(routes@.take(routes@.len() as int) =~= routes@);
    }
    out
}

/// The HTML page that lists every route as a link under `scheme`.
pub fn router_page_html(scheme: &str, routes: &Vec<RouteConfig>) -> (r: String)
    ensures
        r@ == PAGE_HEAD@ + items_of(scheme@, routes@) + PAGE_TAIL@,
{
    let mut page = String::from_str(PAGE_HEAD);
    let items = route_items(scheme, routes);
    page.append(items.as_str());
    page.append(PAGE_TAIL);
    page
}

} // verus!
