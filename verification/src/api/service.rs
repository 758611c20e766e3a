//! The service: its routes, and the decision which handler answers a
//! request.
use super::path::{anchored, RouteError};
use super::router::{resolve, Method, Route, RouteView, Router};
use crate::config::SharedCfg;
use crate::pattern::regex_compiles;
use crate::text::{parse_i32, parsed_i32, str_eq};
use vstd::prelude::*;

verus! {

/// What is to be done for a request.
#[derive(Clone, Copy, Debug, PartialEq, Eq)]
pub enum Action {
    /// List the library.
    GetMovies,
    /// Show the movie with this id.
    GetMovie(i32),
    /// Stream the movie with this id.
    GetStream(i32),
    /// The request names a route but its parameter is no id: an error of
    /// the client.
    BadRequest,
    /// No route is for this request.
    NotFound,
}

/// The id that a route extracted, where it extracted one and it is a number.
pub open spec fn id_of(params: Seq<Seq<char>>) -> Option<i32> {
    if params.len() > 0 {
        parsed_i32(params[0])
    } else {
        None
    }
}

/// What is to be done where `route` answers a request.
pub open spec fn decide(route: Option<RouteView>) -> Action {
    match route {
        None => Action::NotFound,
        Some(r) => if r.name == "get_movies"@ {
            Action::GetMovies
        } else if r.name == "get_movie"@ {
            match id_of(r.params) {
                Some(id) => Action::GetMovie(id),
                None => Action::BadRequest,
            }
        } else if r.name == "get_stream"@ {
            match id_of(r.params) {
                Some(id) => Action::GetStream(id),
                None => Action::BadRequest,
            }
        } else {
            Action::NotFound
        },
    }
}

/// A `GET` route without parameters.
pub open spec fn get_route(path: Seq<char>, name: Seq<char>) -> RouteView {
    RouteView { method: Method::Get, matcher: anchored(path), name, params: Seq::empty() }
}

/// The routes of the service, in the order in which they are tried.
pub open spec fn service_routes() -> Seq<RouteView> {
    seq![
        get_route("/movies/(\\d+)"@, "get_movie"@),
        get_route("/movies/"@, "get_movies"@),
        get_route("/stream/(\\d+)"@, "get_stream"@),
    ]
}

/// The first of the service's paths that is no regular expression;
/// meaningful only where there is one.
pub open spec fn first_refused() -> Seq<char> {
    if !regex_compiles(anchored("/movies/(\\d+)"@)) {
        "/movies/(\\d+)"@
    } else if !regex_compiles(anchored("/movies/"@)) {
        "/movies/"@
    } else {
        "/stream/(\\d+)"@
    }
}

/// The service that answers requests.
pub struct ApiService {
    config: SharedCfg,
    router: Router,
}

impl ApiService {
    /// The routes of this service, in the order in which they are tried.
    pub closed spec fn routes(&self) -> Seq<RouteView> {
        self.router.routes()
    }

    /// The settings this service was made with.
    pub closed spec fn config(&self) -> SharedCfg {
        self.config
    }

    /// The service with its three routes: one movie, the list of movies,
    /// and a stream. An error where one of their paths is no regular
    /// expression.
    pub fn new(config: SharedCfg) -> (made: Result<ApiService, RouteError>)
        ensures
            made is Ok <==> regex_compiles(anchored("/movies/(\\d+)"@)) && regex_compiles(
                anchored("/movies/"@),
            ) && regex_compiles(anchored("/stream/(\\d+)"@)),
            made matches Ok(service) ==> service.routes() == service_routes() && service.config()
                == config,
            made matches Err(RouteError::InvalidPattern(given)) ==> given@ == first_refused(),
    {
        let mut router = Router::new();
        match Route::get("/movies/(\\d+)") {
            Ok(builder) => router.add(builder.name("get_movie")),
            Err(e) => {
                return Err(e);
            },
        }
        match Route::get("/movies/") {
            Ok(builder) => router.add(builder.name("get_movies")),
            Err(e) => {
                return Err(e);
            },
        }
        match Route::get("/stream/(\\d+)") {
            Ok(builder) => router.add(builder.name("get_stream")),
            Err(e) => {
                return Err(e);
            },
        }
        assert(router.routes() =~= service_routes());
        Ok(ApiService { config, router })
    }

    /// The settings this service was made with.
    pub fn cfg(&self) -> (config: &SharedCfg)
        ensures
            *config == self.config(),
    {
        &self.config
    }

    /// Decides what is to be done for a request: the first route that
    /// matches names the handler, and what the route extracted from the
    /// path is read as the id. A request that no route matches is not
    /// found; one whose id is no number is an error of the client.
    pub fn call(&self, method: Method, path: &str) -> (action: Action)
        ensures
            action == decide(resolve(self.routes(), method, path@)),
    {
        match self.router.is_match(method, path) {
            None => Action::NotFound,
            Some(route) => {
                let name = route.name.as_str();
                if str_eq(name, "get_movies") {
                    Action::GetMovies
                } else if str_eq(name, "get_movie") {
                    match ApiService::id(&route) {
                        Some(id) => Action::GetMovie(id),
                        None => Action::BadRequest,
                    }
                } else if str_eq(name, "get_stream") {
                    match ApiService::id(&route) {
                        Some(id) => Action::GetStream(id),
                        None => Action::BadRequest,
                    }
                } else {
                    Action::NotFound
                }
            },
        }
    }

    /// The id that `route` extracted.
    fn id(route: &Route) -> (id: Option<i32>)
        ensures
            id == id_of(route@.params),
    {
        if route.params.len() > 0 {
            parse_i32(route.params[0].as_str())
        } else {
            None
        }
    }
}

} // verus!
