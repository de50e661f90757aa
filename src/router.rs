use vstd::prelude::*;
use vstd::string::*;

verus! {

/// The handlers a request can be dispatched to.
#[derive(Clone, Copy, Debug, PartialEq, Eq, Structural)]
pub enum Route {
    Home,
    Profile,
}

/// The route bound to a method and a path: `GET /` and `GET /profile`; any
/// other pair has none.
pub open spec fn route_of(method: Seq<char>, path: Seq<char>) -> Option<Route> {
    if method == "GET"@ && path == "/"@ {
        Some(Route::Home)
    } else if method == "GET"@ && path == "/profile"@ {
        Some(Route::Profile)
    } else {
        None
    }
}

/// Dispatches a request by its method and path.
pub fn route(method: &str, path: &str) -> (r: Option<Route>)
    ensures
        r == route_of(method@, path@),
{
    let method = String::from_str(method);
    let path = String::from_str(path);
    if method != String::from_str("GET") {
        None
    } else if path == String::from_str("/") {
        Some(Route::Home)
    } else if path == String::from_str("/profile") {
        Some(Route::Profile)
    } else {
        None
    }
}

} // verus!
