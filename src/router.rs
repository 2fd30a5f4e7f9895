use crate::error::Error;
use crate::pattern::{
    captures_spec, capture_groups_of, compile_regex, compile_set, get_captures, matching_indices,
    pattern_compiles, regex_matches, regex_source, set_compiles, set_sources, views_of,
};
use regex::{Regex, RegexSet};
use vstd::prelude::*;

verus! {

/// Relies on `String::push_str`, which appends `tail` to `s`.
#[verifier::external_body]
fn append(s: &mut String, tail: &str)
    ensures
        final(s)@ == old(s)@ + tail@,
{
    s.push_str(tail)
}

/// A pattern anchored at the start and the end of the text, so that it only
/// matches a whole path.
pub open spec fn anchored(pattern: Seq<char>) -> Seq<char> {
    "\\A"@ + pattern + "\\z"@
}

/// What a request comes to: a registered route, an unknown path, or a known
/// path under a method that none of its routes accepts.
#[derive(Debug)]
pub enum Dispatch {
    /// The route at `index` owns the request; `captures` are its participating groups.
    Route { index: usize, captures: Option<Vec<String>> },
    NotFound,
    MethodNotAllowed,
}

/// An ordered route table under construction.
pub struct RouterBuilder<H> {
    routes: Vec<String>,
    handlers: Vec<(String, H)>,
    not_found: Option<H>,
}

/// A compiled, immutable route table.
pub struct Router<H> {
    routes: RegexSet,
    patterns: Vec<Regex>,
    handlers: Vec<(String, H)>,
    not_found: Option<H>,
}

/// The captures as character sequences.
pub open spec fn captures_view(captures: Option<Vec<String>>) -> Option<Seq<Seq<char>>> {
    match captures {
        None => None,
        Some(v) => Some(views_of(v@)),
    }
}

/// Two outcomes that pick the same route with the same captures, or the same fallback.
pub open spec fn same_dispatch(a: Dispatch, b: Dispatch) -> bool {
    match (a, b) {
        (Dispatch::Route { index: i, captures: c }, Dispatch::Route { index: j, captures: d }) => i
            == j && captures_view(c) == captures_view(d),
        (Dispatch::NotFound, Dispatch::NotFound) => true,
        (Dispatch::MethodNotAllowed, Dispatch::MethodNotAllowed) => true,
        _ => false,
    }
}

/// The outcome owed to a request with `method` and `path` by routes given as
/// (method, anchored pattern) pairs, where `captures` are those of the chosen
/// route's pattern on the path.
pub open spec fn dispatch_spec(
    routes: Seq<(Seq<char>, Seq<char>)>,
    method: Seq<char>,
    path: Seq<char>,
    d: Dispatch,
) -> bool {
    match d {
        Dispatch::NotFound => forall|i: int|
            0 <= i < routes.len() ==> !regex_matches(#[trigger] routes[i].1, path),
        Dispatch::MethodNotAllowed => (exists|i: int|
            0 <= i < routes.len() && regex_matches(#[trigger] routes[i].1, path)) && forall|i: int|
            0 <= i < routes.len() && regex_matches(#[trigger] routes[i].1, path) ==> routes[i].0
                != method,
        Dispatch::Route { index, captures } => {
            &&& index < routes.len()
            &&& regex_matches(routes[index as int].1, path)
            &&& routes[index as int].0 == method
            &&& forall|j: int|
                0 <= j < index && regex_matches(#[trigger] routes[j].1, path) ==> routes[j].0
                    != method
            &&& captures_view(captures) == captures_spec(
                capture_groups_of(routes[index as int].1, path),
            )
        },
    }
}

impl<H> RouterBuilder<H> {
    /// The registered routes, in order, as (method, anchored pattern) pairs.
    pub closed spec fn routes_view(&self) -> Seq<(Seq<char>, Seq<char>)> {
        Seq::new(self.routes@.len(), |i: int| (self.handlers@[i].0@, self.routes@[i]@))
    }

    /// The fallback handler, if one was installed.
    pub closed spec fn fallback(&self) -> Option<H> {
        self.not_found
    }

    /// The handler registered with the route at `i`.
    pub closed spec fn handler_at(&self, i: int) -> H {
        self.handlers@[i].1
    }

    /// Every pattern has its method and handler.
    pub closed spec fn wf(&self) -> bool {
        self.routes@.len() == self.handlers@.len()
    }

    /// A builder with no routes and no fallback handler.
    pub fn new() -> (r: RouterBuilder<H>)
        ensures
            r.wf(),
            r.routes_view() == Seq::<(Seq<char>, Seq<char>)>::empty(),
            r.fallback() is None,
    {
        let r = RouterBuilder { routes: Vec::new(), handlers: Vec::new(), not_found: None };
        assert(r.routes_view() =~= Seq::<(Seq<char>, Seq<char>)>::empty());
        r
    }

    /// Appends a route for requests with method `verb` whose whole path
    /// matches `route`. The pattern is checked only by `finalize`.
    pub fn route(&mut self, verb: &str, route: &str, handler: H) -> (r: &mut RouterBuilder<H>)
        requires
            old(self).wf(),
        ensures
            r.wf(),
            r.routes_view() == old(self).routes_view().push((verb@, anchored(route@))),
            r.handler_at(old(self).routes_view().len() as int) == handler,
            forall|i: int|
                0 <= i < old(self).routes_view().len() ==> r.handler_at(i) == old(self).handler_at(i),
            r.fallback() == old(self).fallback(),
            *final(self) == *final(r),
    {
        let mut pattern = "\\A".to_owned();
        append(&mut pattern, route);
        append(&mut pattern, "\\z");
        self.routes.push(pattern);
        self.handlers.push((verb.to_owned(), handler));
        assert(self.routes_view() =~= old(self).routes_view().push((verb@, anchored(route@))));
        self
    }

    /// Compiles the table. Fails on the first pattern that does not compile,
    /// or when the combined matcher cannot be built; no router is made then.
    pub fn finalize(self) -> (r: Result<Router<H>, Error>)
        requires
            self.wf(),
        ensures
            r is Ok <==> ((forall|i: int|
                0 <= i < self.routes_view().len() ==> pattern_compiles(
                    #[trigger] self.routes_view()[i].1,
                )) && set_compiles(self.routes_view().map_values(|e: (Seq<char>, Seq<char>)| e.1))),
            r matches Ok(router) ==> router.wf() && router.routes_view() == self.routes_view()
                && router.fallback() == self.fallback() && forall|i: int|
                0 <= i < self.routes_view().len() ==> router.handler_at(i) == self.handler_at(i),
            r matches Err(Error::InvalidPattern { index, pattern }) ==> index
                < self.routes_view().len() && pattern@ == self.routes_view()[index as int].1
                && !pattern_compiles(pattern@) && forall|j: int|
                0 <= j < index ==> pattern_compiles(#[trigger] self.routes_view()[j].1),
            r matches Err(Error::PatternSet) ==> forall|i: int|
                0 <= i < self.routes_view().len() ==> pattern_compiles(
                    #[trigger] self.routes_view()[i].1,
                ),
    {
        let ghost view = self.routes_view();
        let mut patterns: Vec<Regex> = Vec::new();
        let mut i: usize = 0;
        while i < self.routes.len()
            invariant
                self.wf(),
                view == self.routes_view(),
                i <= self.routes@.len(),
                patterns@.len() == i,
                forall|j: int| 0 <= j < i ==> regex_source(#[trigger] patterns@[j]) == self.routes@[j]@,
                forall|j: int| 0 <= j < i ==> pattern_compiles(#[trigger] view[j].1),
            decreases self.routes@.len() - i,
        {
            match compile_regex(&self.routes[i]) {
                Some(re) => patterns.push(re),
                None => {
                    assert(view[i as int].1 == self.routes@[i as int]@);
                    return Err(Error::InvalidPattern { index: i, pattern: self.routes[i].clone() });
                },
            }
            i = i + 1;
        }
        assert(views_of(self.routes@) =~= view.map_values(|e: (Seq<char>, Seq<char>)| e.1));
        match compile_set(&self.routes) {
            Some(set) => {
                let router = Router {
                    routes: set,
                    patterns,
                    handlers: self.handlers,
                    not_found: self.not_found,
                };
                assert(router.routes_view() =~= view);
                assert(set_sources(router.routes) =~= router.patterns@.map_values(
                    |re: Regex| regex_source(re),
                ));
                Ok(router)
            },
            None => Err(Error::PatternSet),
        }
    }

    /// Appends a route for GET requests; the same as `route` with method "GET".
    pub fn get(&mut self, route: &str, handler: H) -> (r: &mut RouterBuilder<H>)
        requires
            old(self).wf(),
        ensures
            r.wf(),
            r.routes_view() == old(self).routes_view().push(("GET"@, anchored(route@))),
            r.handler_at(old(self).routes_view().len() as int) == handler,
            forall|i: int|
                0 <= i < old(self).routes_view().len() ==> r.handler_at(i) == old(self).handler_at(i),
            r.fallback() == old(self).fallback(),
            *final(self) == *final(r),
    {
        self.route("GET", route, handler)
    }

    /// Appends a route for POST requests; the same as `route` with method "POST".
    pub fn post(&mut self, route: &str, handler: H) -> (r: &mut RouterBuilder<H>)
        requires
            old(self).wf(),
        ensures
            r.wf(),
            r.routes_view() == old(self).routes_view().push(("POST"@, anchored(route@))),
            r.handler_at(old(self).routes_view().len() as int) == handler,
            forall|i: int|
                0 <= i < old(self).routes_view().len() ==> r.handler_at(i) == old(self).handler_at(i),
            r.fallback() == old(self).fallback(),
            *final(self) == *final(r),
    {
        self.route("POST", route, handler)
    }

    /// Appends a route for PUT requests; the same as `route` with method "PUT".
    pub fn put(&mut self, route: &str, handler: H) -> (r: &mut RouterBuilder<H>)
        requires
            old(self).wf(),
        ensures
            r.wf(),
            r.routes_view() == old(self).routes_view().push(("PUT"@, anchored(route@))),
            r.handler_at(old(self).routes_view().len() as int) == handler,
            forall|i: int|
                0 <= i < old(self).routes_view().len() ==> r.handler_at(i) == old(self).handler_at(i),
            r.fallback() == old(self).fallback(),
            *final(self) == *final(r),
    {
        self.route("PUT", route, handler)
    }

    /// Appends a route for PATCH requests; the same as `route` with method "PATCH".
    pub fn patch(&mut self, route: &str, handler: H) -> (r: &mut RouterBuilder<H>)
        requires
            old(self).wf(),
        ensures
            r.wf(),
            r.routes_view() == old(self).routes_view().push(("PATCH"@, anchored(route@))),
            r.handler_at(old(self).routes_view().len() as int) == handler,
            forall|i: int|
                0 <= i < old(self).routes_view().len() ==> r.handler_at(i) == old(self).handler_at(i),
            r.fallback() == old(self).fallback(),
            *final(self) == *final(r),
    {
        self.route("PATCH", route, handler)
    }

    /// Appends a route for DELETE requests; the same as `route` with method "DELETE".
    pub fn delete(&mut self, route: &str, handler: H) -> (r: &mut RouterBuilder<H>)
        requires
            old(self).wf(),
        ensures
            r.wf(),
            r.routes_view() == old(self).routes_view().push(("DELETE"@, anchored(route@))),
            r.handler_at(old(self).routes_view().len() as int) == handler,
            forall|i: int|
                0 <= i < old(self).routes_view().len() ==> r.handler_at(i) == old(self).handler_at(i),
            r.fallback() == old(self).fallback(),
            *final(self) == *final(r),
    {
        self.route("DELETE", route, handler)
    }

    /// Appends a route for OPTIONS requests; the same as `route` with method "OPTIONS".
    pub fn options(&mut self, route: &str, handler: H) -> (r: &mut RouterBuilder<H>)
        requires
            old(self).wf(),
        ensures
            r.wf(),
            r.routes_view() == old(self).routes_view().push(("OPTIONS"@, anchored(route@))),
            r.handler_at(old(self).routes_view().len() as int) == handler,
            forall|i: int|
                0 <= i < old(self).routes_view().len() ==> r.handler_at(i) == old(self).handler_at(i),
            r.fallback() == old(self).fallback(),
            *final(self) == *final(r),
    {
        self.route("OPTIONS", route, handler)
    }

    /// Installs the handler used when no route matches the path.
    pub fn not_found(&mut self, handler: H) -> (r: &mut RouterBuilder<H>)
        requires
            old(self).wf(),
        ensures
            r.wf(),
            r.routes_view() == old(self).routes_view(),
            forall|i: int|
                0 <= i < old(self).routes_view().len() ==> r.handler_at(i) == old(self).handler_at(i),
            r.fallback() == Some(handler),
            *final(self) == *final(r),
    {
        self.not_found = Some(handler);
        self
    }
}

impl<H> Router<H> {
    /// The routes, in registration order, as (method, anchored pattern) pairs.
    pub closed spec fn routes_view(&self) -> Seq<(Seq<char>, Seq<char>)> {
        Seq::new(
            self.handlers@.len(),
            |i: int| (self.handlers@[i].0@, regex_source(self.patterns@[i])),
        )
    }

    /// The fallback handler, if one was installed.
    pub closed spec fn fallback(&self) -> Option<H> {
        self.not_found
    }

    /// The handler of the route at `i`.
    pub closed spec fn handler_at(&self, i: int) -> H {
        self.handlers@[i].1
    }

    /// The combined matcher and the single-pattern matchers are index-aligned
    /// with the handlers.
    pub closed spec fn wf(&self) -> bool {
        &&& self.patterns@.len() == self.handlers@.len()
        &&& set_sources(self.routes) == self.patterns@.map_values(|re: Regex| regex_source(re))
    }

    /// Decides which route owns a request with `method` and `path`: the first
    /// registered route whose pattern matches the whole path and whose method
    /// is `method`, with the captures of that pattern; `NotFound` when no
    /// pattern matches; `MethodNotAllowed` when some match but none under `method`.
    pub fn handle(&self, method: &str, path: &str) -> (r: Dispatch)
        requires
            self.wf(),
        ensures
            dispatch_spec(self.routes_view(), method@, path@, r),
    {
        let ghost view = self.routes_view();
        let n = self.handlers.len();
        assert(view.len() == n);
        let matched = matching_indices(&self.routes, path);
        assert(set_sources(self.routes).len() == view.len());
        assert forall|i: int| 0 <= i < view.len() implies #[trigger] view[i].1 == set_sources(
            self.routes,
        )[i] by {}
        if matched.len() == 0 {
            assert forall|i: int| 0 <= i < view.len() implies !regex_matches(
                #[trigger] view[i].1,
                path@,
            ) by {
                if regex_matches(view[i].1, path@) {
                    assert(set_sources(self.routes)[i] == view[i].1);
                    assert(matched@.contains(i as usize));
                }
            }
            return Dispatch::NotFound;
        }
        let wanted = method.to_owned();
        let mut k: usize = 0;
        while k < matched.len()
            invariant
                self.wf(),
                view == self.routes_view(),
                wanted@ == method@,
                k <= matched@.len(),
                view.len() <= usize::MAX,
                view.len() == set_sources(self.routes).len(),
                forall|i: int| 0 <= i < view.len() ==> #[trigger] view[i].1 == set_sources(self.routes)[i],
                forall|a: int, b: int| 0 <= a < b < matched@.len() ==> matched@[a] < matched@[b],
                forall|a: int| 0 <= a < matched@.len() ==> matched@[a] < view.len(),
                forall|i: int|
                    0 <= i < view.len() ==> (matched@.contains(i as usize) <==> regex_matches(
                        #[trigger] set_sources(self.routes)[i],
                        path@,
                    )),
                forall|a: int| 0 <= a < k ==> view[matched@[a] as int].0 != method@,
            decreases matched@.len() - k,
        {
            let index = matched[k];
            if self.handlers[index].0 == wanted {
                let captures = get_captures(&self.patterns[index], path);
                assert forall|j: int|
                    0 <= j < index && regex_matches(#[trigger] view[j].1, path@) implies view[j].0
                    != method@ by {
                    assert(matched@.contains(j as usize));
                    let a = choose|a: int| 0 <= a < matched@.len() && matched@[a] == j as usize;
                    if a >= k {
                        assert(matched@[k as int] <= matched@[a]);
                    }
                }
                return Dispatch::Route { index, captures };
            }
            k = k + 1;
        }
        assert forall|i: int| 0 <= i < view.len() && regex_matches(#[trigger] view[i].1, path@) implies view[i].0 != method@ by {
            assert(matched@.contains(i as usize));
            let a = choose|a: int| 0 <= a < matched@.len() && matched@[a] == i as usize;
            assert(view[matched@[a] as int].0 != method@);
        }
        assert(regex_matches(view[matched@[0] as int].1, path@));
        Dispatch::MethodNotAllowed
    }

    /// The handler of the route at `index`.
    pub fn handler(&self, index: usize) -> (r: &H)
        requires
            index < self.routes_view().len(),
        ensures
            *r == self.handler_at(index as int),
    {
        &self.handlers[index].1
    }

    /// The fallback handler, if one was installed.
    pub fn not_found_handler(&self) -> (r: Option<&H>)
        ensures
            match r {
                Some(h) => self.fallback() == Some(*h),
                None => self.fallback() is None,
            },
    {
        match &self.not_found {
            Some(h) => Some(h),
            None => None,
        }
    }
}

} // verus!
