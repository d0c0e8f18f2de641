use vstd::prelude::*;

use crate::config::{address_matches, Address, RouteConfig};

verus! {

/// The route selected for a request to `host` and `path`, as an index into
/// `routes`, or `None` when no route accepts it.
pub open spec fn first_match(routes: Seq<RouteConfig>, host: Seq<char>, path: Seq<char>) -> Option<
    int,
> {
    if exists|i: int| is_first_match(routes, host, path, Some(i)) {
        Some(choose|i: int| is_first_match(routes, host, path, Some(i)))
    } else {
        None
    }
}

/// Route `r` accepts a request for `host` and `path`.
pub open spec fn route_accepts(r: RouteConfig, host: Seq<char>, path: Seq<char>) -> bool {
    address_matches(host, path, r.request)
}

/// `found` is the outcome of first-match-wins selection over `routes`: the
/// index of the earliest route that accepts the request, or `None` when no
/// route does.
pub open spec fn is_first_match(
    routes: Seq<RouteConfig>,
    host: Seq<char>,
    path: Seq<char>,
    found: Option<int>,
) -> bool {
    match found {
        Some(i) => {
            &&& 0 <= i < routes.len()
            &&& route_accepts(routes[i], host, path)
            &&& forall|j: int| 0 <= j < i ==> !route_accepts(#[trigger] routes[j], host, path)
        },
        None => forall|j: int| 0 <= j < routes.len() ==> !route_accepts(#[trigger] routes[j], host, path),
    }
}

pub open spec fn as_int(o: Option<usize>) -> Option<int> {
    match o {
        Some(i) => Some(i as int),
        None => None,
    }
}

/// Selects the route for a request to `host` and `path`: the first route, in
/// table order, whose request address accepts it.
pub fn find_route(routes: &Vec<RouteConfig>, host: &Address) -> (r: Option<usize>)
    ensures
        is_first_match(routes@, host.host@, host.path@, as_int(r)),
{
    let mut i: usize = 0;
    while i < routes.len()
        invariant
            i <= routes@.len(),
            forall|j: int| 0 <= j < i ==> !route_accepts(#[trigger] routes@[j], host.host@, host.path@),
        decreases routes@.len() - i,
    {
        if host.matches(&routes[i].request) {
            return Some(i);
        }
        i += 1;
    }
    None
}

/// Selection is a function: only one outcome is the first match.
pub proof fn lemma_first_match_unique(
    routes: Seq<RouteConfig>,
    host: Seq<char>,
    path: Seq<char>,
    a: Option<int>,
    b: Option<int>,
)
    requires
        is_first_match(routes, host, path, a),
        is_first_match(routes, host, path, b),
    ensures
        a == b,
{
    match (a, b) {
        (Some(i), Some(j)) => {
            if i < j {
                assert(!route_accepts(routes[i], host, path));
            } else if j < i {
                assert(!route_accepts(routes[j], host, path));
            }
        },
        (Some(i), None) => {
            assert(!route_accepts(routes[i], host, path));
        },
        (None, Some(j)) => {
            assert(!route_accepts(routes[j], host, path));
        },
        (None, None) => {},
    }
}

/// Whatever satisfies the first-match description is `first_match`.
pub proof fn lemma_first_match_is(
    routes: Seq<RouteConfig>,
    host: Seq<char>,
    path: Seq<char>,
    found: Option<int>,
)
    requires
        is_first_match(routes, host, path, found),
    ensures
        first_match(routes, host, path) == found,
        is_first_match(routes, host, path, first_match(routes, host, path)),
{
    match found {
        Some(i) => {
            let k = choose|k: int| is_first_match(routes, host, path, Some(k));
            lemma_first_match_unique(routes, host, path, Some(k), Some(i));
        },
        None => {
            if exists|i: int| is_first_match(routes, host, path, Some(i)) {
                let k = choose|k: int| is_first_match(routes, host, path, Some(k));
                lemma_first_match_unique(routes, host, path, Some(k), None);
            }
        },
    }
}

/// Order decides, not specificity: when routes `i < j` both accept a request,
/// route `j` is never selected, whatever their path prefixes; the selected
/// route stands no later than `i`.
pub proof fn lemma_earlier_route_wins(
    routes: Seq<RouteConfig>,
    host: Seq<char>,
    path: Seq<char>,
    i: int,
    j: int,
    found: Option<int>,
)
    requires
        0 <= i < j < routes.len(),
        route_accepts(routes[i], host, path),
        route_accepts(routes[j], host, path),
        is_first_match(routes, host, path, found),
    ensures
        found is Some,
        found->0 <= i,
        found != Some(j),
{
    match found {
        Some(k) => {
            if k > i {
                assert(!route_accepts(routes[i], host, path));
            }
        },
        None => {
            assert(!route_accepts(routes[i], host, path));
        },
    }
}

} // verus!
