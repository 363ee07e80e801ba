//! The declared routes, and exact-match routing by method and path.
//!
//! A request that matches no declared route is the dispatcher's to serve
//! from the static-file directory: `match_route` answers `None` for it,
//! and for nothing else.

use crate::text::str_eq;
use vstd::prelude::*;
use vstd::string::StrSliceExecFns;
use vstd::string::StringExecFns;

verus! {

/// The declared endpoints.
#[derive(Clone, Copy, PartialEq, Eq, Structural, Debug)]
pub enum Route {
    Index,
    About,
    Counter,
    Increment,
    FetchData,
    Forecasts,
    HelloWorld,
    GoodDay,
    Hello,
}

/// The path prefix of the greeting route with a name parameter.
pub open spec fn hello_prefix() -> Seq<char> {
    "/hello/"@
}

/// A path of the form `/hello/{name}` with a non-empty name.
pub open spec fn is_hello_path(p: Seq<char>) -> bool {
    p.len() > hello_prefix().len() && p.subrange(0, hello_prefix().len() as int)
        == hello_prefix()
}

/// The name segment of a `/hello/{name}` path.
pub open spec fn spec_hello_name(p: Seq<char>) -> Seq<char>
    recommends
        is_hello_path(p),
{
    p.subrange(hello_prefix().len() as int, p.len() as int)
}

/// The route table: which declared route, if any, a method and path name.
pub open spec fn route_of(m: Seq<char>, p: Seq<char>) -> Option<Route> {
    if m == "GET"@ {
        if p == "/"@ {
            Some(Route::Index)
        } else if p == "/about"@ {
            Some(Route::About)
        } else if p == "/counter"@ {
            Some(Route::Counter)
        } else if p == "/fetchdata"@ {
            Some(Route::FetchData)
        } else if p == "/hello"@ {
            Some(Route::HelloWorld)
        } else if p == "/goodday"@ {
            Some(Route::GoodDay)
        } else if is_hello_path(p) {
            Some(Route::Hello)
        } else {
            None
        }
    } else if m == "POST"@ {
        if p == "/increment"@ {
            Some(Route::Increment)
        } else if p == "/forecasts"@ {
            Some(Route::Forecasts)
        } else {
            None
        }
    } else {
        None
    }
}

/// Extracts the name from a `/hello/{name}` path, and recognises exactly
/// those paths.
pub fn hello_name(path: &str) -> (r: Option<String>)
    ensures
        r is Some <==> is_hello_path(path@),
        r matches Some(n) ==> n@ == spec_hello_name(path@),
{
    let prefix = "/hello/";
    proof {
        reveal_strlit("/hello/");
    }
    let plen = prefix.unicode_len();
    let n = path.unicode_len();
    if n <= plen {
        return None;
    }
    let head = path.substring_char(0, plen);
    if str_eq(head, prefix) {
        let name = path.substring_char(plen, n);
        Some(String::from_str(name))
    } else {
        None
    }
}

/// Decides which declared route, if any, handles a request; `None` means
/// the request is delegated to static-file serving.
pub fn match_route(method: &str, path: &str) -> (r: Option<Route>)
    ensures
        r == route_of(method@, path@),
{
    if str_eq(method, "GET") {
        if str_eq(path, "/") {
            Some(Route::Index)
        } else if str_eq(path, "/about") {
            Some(Route::About)
        } else if str_eq(path, "/counter") {
            Some(Route::Counter)
        } else if str_eq(path, "/fetchdata") {
            Some(Route::FetchData)
        } else if str_eq(path, "/hello") {
            Some(Route::HelloWorld)
        } else if str_eq(path, "/goodday") {
            Some(Route::GoodDay)
        } else if hello_name(path).is_some() {
            Some(Route::Hello)
        } else {
            None
        }
    } else if str_eq(method, "POST") {
        if str_eq(path, "/increment") {
            Some(Route::Increment)
        } else if str_eq(path, "/forecasts") {
            Some(Route::Forecasts)
        } else {
            None
        }
    } else {
        None
    }
}

} // verus!
