//! Routes and the router: routes are tried in the order in which they were
//! registered, and the first one that matches wins.
use super::path::{anchored, Path, RouteError};
use crate::pattern::{regex_captures, regex_compiles};
use vstd::prelude::*;
use vstd::string::StringExecFns;

verus! {

/// The method of a request.
#[derive(Clone, Copy, Debug, PartialEq, Eq, Structural)]
pub enum Method {
    Get,
    Head,
    Post,
    Put,
    Delete,
    Options,
    Patch,
    /// Any other method.
    Other,
}

/// A route as a mathematical value.
pub struct RouteView {
    pub method: Method,
    /// The regular expression of the route's path.
    pub matcher: Seq<char>,
    pub name: Seq<char>,
    pub params: Seq<Seq<char>>,
}

/// The parts of a path that a match extracts: the text of the first group,
/// where the pattern has one and it took part in the match.
pub open spec fn captured(groups: Seq<Option<Seq<char>>>) -> Seq<Seq<char>> {
    if groups.len() > 1 && groups[1] is Some {
        seq![groups[1]->0]
    } else {
        Seq::empty()
    }
}

impl RouteView {
    /// Whether a request with `method` and `path` is one for this route.
    pub open spec fn matches(self, method: Method, path: Seq<char>) -> bool {
        self.method == method && regex_captures(self.matcher, path) is Some
    }

    /// This route with what it extracts from `path` added to its parameters.
    pub open spec fn with_captures(self, path: Seq<char>) -> RouteView {
        RouteView {
            params: self.params + captured(regex_captures(self.matcher, path)->0),
            ..self
        }
    }
}

/// `i` is the position of the first of `routes` that matches.
pub open spec fn first_match(routes: Seq<RouteView>, method: Method, path: Seq<char>, i: int) -> bool {
    &&& 0 <= i < routes.len()
    &&& routes[i].matches(method, path)
    &&& forall|j: int| 0 <= j < i ==> !routes[j].matches(method, path)
}

/// The route that answers a request: the first of `routes` that matches,
/// with what it extracts from the path, or `None` where none matches.
pub open spec fn resolve(routes: Seq<RouteView>, method: Method, path: Seq<char>) -> Option<
    RouteView,
> {
    if exists|i: int| first_match(routes, method, path, i) {
        let i = choose|i: int| first_match(routes, method, path, i);
        Some(routes[i].with_captures(path))
    } else {
        None
    }
}

/// Holds route information.
#[derive(Debug)]
pub struct Route {
    /// HTTP method to match
    pub method: Method,
    /// Path to match
    pub path: Path,
    /// Name of the route
    pub name: String,
    /// Extracted parts of the path
    pub params: Vec<String>,
}

impl View for Route {
    type V = RouteView;

    open spec fn view(&self) -> RouteView {
        RouteView {
            method: self.method,
            matcher: self.path.matcher@,
            name: self.name@,
            params: self.params.deep_view(),
        }
    }
}

/// A copy of `items`.
fn copy_strings(items: &Vec<String>) -> (copy: Vec<String>)
    ensures
        copy.deep_view() == items.deep_view(),
{
    let mut copy: Vec<String> = Vec::new();
    let mut i: usize = 0;
    while i < items.len()
        invariant
            i <= items@.len(),
            copy@.len() == i,
            forall|j: int| 0 <= j < i ==> copy@[j]@ == items@[j]@,
        decreases items@.len() - i,
    {
        copy.push(items[i].clone());
        i += 1;
    }
    assert(copy.deep_view() =~= items.deep_view());
    copy
}

impl Clone for Route {
    fn clone(&self) -> (copy: Route)
        ensures
            copy@ == self@,
    {
        Route {
            method: self.method,
            path: self.path.clone(),
            name: self.name.clone(),
            params: copy_strings(&self.params),
        }
    }
}

impl Route {
    /// A route for `GET` requests whose path matches `path` as a whole. It
    /// has no name yet.
    pub fn get(path: &str) -> (made: Result<RouteBuilder, RouteError>)
        ensures
            made is Ok <==> regex_compiles(anchored(path@)),
            made matches Ok(b) ==> b.route() == (RouteView {
                method: Method::Get,
                matcher: anchored(path@),
                name: Seq::empty(),
                params: Seq::empty(),
            }),
            made matches Err(RouteError::InvalidPattern(given)) ==> given@ == path@,
    {
        Route::from(Method::Get, path)
    }

    /// A route for requests with `method` whose path matches `path` as a
    /// whole. It has no name yet.
    fn from(method: Method, path: &str) -> (made: Result<RouteBuilder, RouteError>)
        ensures
            made is Ok <==> regex_compiles(anchored(path@)),
            made matches Ok(b) ==> b.route() == (RouteView {
                method,
                matcher: anchored(path@),
                name: Seq::empty(),
                params: Seq::empty(),
            }),
            made matches Err(RouteError::InvalidPattern(given)) ==> given@ == path@,
    {
        match Path::new(path) {
            Ok(path) => {
                let route = Route { method, path, name: String::new(), params: Vec::new() };
                assert(route@.params =~= Seq::empty());
                Ok(RouteBuilder::new(route))
            },
            Err(e) => Err(e),
        }
    }
}

/// A route that is waiting for its name.
pub struct RouteBuilder {
    route: Route,
}

impl RouteBuilder {
    /// The route as built so far.
    pub closed spec fn route(&self) -> RouteView {
        self.route@
    }

    /// A builder that holds `route` until it is named.
    pub fn new(route: Route) -> (builder: RouteBuilder)
        ensures
            builder.route() == route@,
    {
        RouteBuilder { route }
    }

    /// Names the route, which completes it.
    pub fn name(self, name: &str) -> (route: Route)
        ensures
            route@ == (RouteView { name: name@, ..self.route() }),
    {
        let mut this = self;
        this.route.name = String::from_str(name);
        this.route
    }
}

/// The routes of a service, in the order in which they were registered.
pub struct Router {
    routes: Vec<Route>,
}

impl Router {
    /// The registered routes, oldest first.
    pub closed spec fn routes(&self) -> Seq<RouteView> {
        Seq::new(self.routes@.len(), |i: int| self.routes@[i]@)
    }

    /// A router without routes.
    pub fn new() -> (router: Router)
        ensures
            router.routes() == Seq::<RouteView>::empty(),
    {
        let router = Router { routes: Vec::new() };
        assert(router.routes() =~= Seq::<RouteView>::empty());
        router
    }

    /// Registers `route` behind the routes that are there.
    pub fn add(&mut self, route: Route)
        ensures
            final(self).routes() == old(self).routes().push(route@),
    {
        self.routes.push(route);
        assert(self.routes() =~= old(self).routes().push(route@));
    }

    /// The route for a request: the first registered route whose method is
    /// `method` and whose path matches `path`, as a copy that holds what the
    /// match extracted. The router itself is left as it is.
    pub fn is_match(&self, method: Method, path: &str) -> (found: Option<Route>)
        ensures
            found is Some <==> resolve(self.routes(), method, path@) is Some,
            found matches Some(route) ==> Some(route@) == resolve(self.routes(), method, path@),
    {
        let mut i: usize = 0;
        while i < self.routes.len()
            invariant
                i <= self.routes@.len(),
                forall|j: int| 0 <= j < i ==> !self.routes()[j].matches(method, path@),
            decreases self.routes@.len() - i,
        {
            let route = &self.routes[i];
            assert(self.routes()[i as int] == route@);
            if route.method == method {
                if let Some(groups) = route.path.captures(path) {
                    let mut found = route.clone();
                    if groups.len() > 1 {
                        if let Some(text) = &groups[1] {
                            found.params.push(text.clone());
                        }
                    }
                    proof {
                        assert(first_match(self.routes(), method, path@, i as int));
                        lemma_first_match_wins(self.routes(), method, path@, i as int);
                        assert(groups.deep_view() == regex_captures(route@.matcher, path@)->0);
                        assert(found@.params =~= route@.params + captured(groups.deep_view()));
                    }
                    return Some(found);
                }
            }
            i += 1;
        }
        proof {
            lemma_no_match(self.routes(), method, path@);
        }
        None
    }
}

/// First match wins: where `i` is the first route that matches, the request
/// is answered by that route and by no other.
pub proof fn lemma_first_match_wins(routes: Seq<RouteView>, method: Method, path: Seq<char>, i: int)
    requires
        first_match(routes, method, path, i),
    ensures
        resolve(routes, method, path) == Some(routes[i].with_captures(path)),
{
    let k = choose|k: int| first_match(routes, method, path, k);
    assert(first_match(routes, method, path, k));
    if k < i {
        assert(!routes[k].matches(method, path));
    } else if i < k {
        assert(!routes[i].matches(method, path));
    }
}

/// A request that no route matches has no answer.
pub proof fn lemma_no_match(routes: Seq<RouteView>, method: Method, path: Seq<char>)
    requires
        forall|j: int| 0 <= j < routes.len() ==> !routes[j].matches(method, path),
    ensures
        resolve(routes, method, path) is None,
{
}

} // verus!
