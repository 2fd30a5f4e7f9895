use crate::pattern::regex_matches;
use crate::router::{dispatch_spec, same_dispatch, Dispatch, Router};
use vstd::prelude::*;

verus! {

/// A path that no registered pattern matches is handed to the fallback.
pub proof fn unmatched_path_falls_back<H>(
    router: &Router<H>,
    method: Seq<char>,
    path: Seq<char>,
    d: Dispatch,
)
    requires
        dispatch_spec(router.routes_view(), method, path, d),
        forall|i: int|
            0 <= i < router.routes_view().len() ==> !regex_matches(
                #[trigger] router.routes_view()[i].1,
                path,
            ),
    ensures
        d is NotFound,
{
}

/// A path that some patterns match, none of them registered under the
/// request's method, gets the method-not-allowed outcome and no handler.
pub proof fn wrong_method_is_not_allowed<H>(
    router: &Router<H>,
    method: Seq<char>,
    path: Seq<char>,
    d: Dispatch,
    k: int,
)
    requires
        dispatch_spec(router.routes_view(), method, path, d),
        0 <= k < router.routes_view().len(),
        regex_matches(router.routes_view()[k].1, path),
        forall|i: int|
            0 <= i < router.routes_view().len() && regex_matches(
                #[trigger] router.routes_view()[i].1,
                path,
            ) ==> router.routes_view()[i].0 != method,
    ensures
        d is MethodNotAllowed,
{
}

/// A route registered under the request's method whose pattern matches the
/// path, with no earlier such route, is the one the request is dispatched to.
pub proof fn first_matching_route_is_chosen<H>(
    router: &Router<H>,
    method: Seq<char>,
    path: Seq<char>,
    d: Dispatch,
    k: int,
)
    requires
        dispatch_spec(router.routes_view(), method, path, d),
        0 <= k < router.routes_view().len(),
        regex_matches(router.routes_view()[k].1, path),
        router.routes_view()[k].0 == method,
        forall|j: int|
            0 <= j < k && regex_matches(#[trigger] router.routes_view()[j].1, path)
                ==> router.routes_view()[j].0 != method,
    ensures
        d matches Dispatch::Route { index, captures } && index == k,
{
    let routes = router.routes_view();
    match d {
        Dispatch::Route { index, captures } => {
            if (index as int) < k {
            } else if (index as int) > k {
                assert(regex_matches(routes[k].1, path));
            }
        },
        Dispatch::NotFound => {
            assert(regex_matches(routes[k].1, path));
        },
        Dispatch::MethodNotAllowed => {
            assert(regex_matches(routes[k].1, path));
        },
    }
}

/// Of two routes under the request's method whose patterns both match the
/// path, the later-registered one is never chosen: registration order decides.
pub proof fn earlier_route_takes_precedence<H>(
    router: &Router<H>,
    method: Seq<char>,
    path: Seq<char>,
    d: Dispatch,
    first: int,
    second: int,
)
    requires
        dispatch_spec(router.routes_view(), method, path, d),
        0 <= first < second < router.routes_view().len(),
        regex_matches(router.routes_view()[first].1, path),
        regex_matches(router.routes_view()[second].1, path),
        router.routes_view()[first].0 == method,
        router.routes_view()[second].0 == method,
    ensures
        d matches Dispatch::Route { index, captures } && index <= first,
{
    let routes = router.routes_view();
    match d {
        Dispatch::Route { index, captures } => {
            if (index as int) > first {
                assert(regex_matches(routes[first].1, path));
            }
        },
        Dispatch::NotFound => {
            assert(regex_matches(routes[first].1, path));
        },
        Dispatch::MethodNotAllowed => {
            assert(regex_matches(routes[first].1, path));
        },
    }
}

/// Dispatch is a function of the router and the request: any two outcomes
/// of `handle` for the same method and path select the same route with the
/// same captures, or the same fallback.
pub proof fn dispatch_is_deterministic<H>(
    router: &Router<H>,
    method: Seq<char>,
    path: Seq<char>,
    a: Dispatch,
    b: Dispatch,
)
    requires
        dispatch_spec(router.routes_view(), method, path, a),
        dispatch_spec(router.routes_view(), method, path, b),
    ensures
        same_dispatch(a, b),
{
    let routes = router.routes_view();
    match (a, b) {
        (Dispatch::Route { index: i, captures: c }, Dispatch::Route { index: j, captures: e }) => {
            if i < j {
                assert(regex_matches(routes[i as int].1, path));
            } else if j < i {
                assert(regex_matches(routes[j as int].1, path));
            }
        },
        (Dispatch::Route { index: i, captures: c }, _) => {
            assert(regex_matches(routes[i as int].1, path));
        },
        (_, Dispatch::Route { index: j, captures: e }) => {
            assert(regex_matches(routes[j as int].1, path));
        },
        (Dispatch::NotFound, Dispatch::MethodNotAllowed) => {
            let k = choose|k: int| 0 <= k < routes.len() && regex_matches(#[trigger] routes[k].1, path);
        },
        (Dispatch::MethodNotAllowed, Dispatch::NotFound) => {
            let k = choose|k: int| 0 <= k < routes.len() && regex_matches(#[trigger] routes[k].1, path);
        },
        _ => {},
    }
}

} // verus!
