use rust_axum::routes::hello_name;
use rust_axum::routes::match_route;
use rust_axum::routes::Route;
use rust_axum::text::str_eq;
use rust_axum::text::u64_to_string;

#[test]
fn decimal_zero() {
    assert_eq!(u64_to_string(0), "0");
}

#[test]
fn decimal_single_digit() {
    assert_eq!(u64_to_string(7), "7");
}

#[test]
fn decimal_many_digits() {
    assert_eq!(u64_to_string(12345), "12345");
    assert_eq!(u64_to_string(1000), "1000");
}

#[test]
fn decimal_max() {
    assert_eq!(u64_to_string(u64::MAX), "18446744073709551615");
}

#[test]
fn str_eq_agrees_with_equality() {
    assert!(str_eq("abc", "abc"));
    assert!(!str_eq("abc", "abd"));
    assert!(!str_eq("abc", "ab"));
    assert!(str_eq("", ""));
    assert!(str_eq("zß水", "zß水"));
    assert!(!str_eq("zß水", "zß氷"));
}

#[test]
fn declared_routes_match() {
    assert_eq!(match_route("GET", "/"), Some(Route::Index));
    assert_eq!(match_route("GET", "/about"), Some(Route::About));
    assert_eq!(match_route("GET", "/counter"), Some(Route::Counter));
    assert_eq!(match_route("GET", "/fetchdata"), Some(Route::FetchData));
    assert_eq!(match_route("GET", "/hello"), Some(Route::HelloWorld));
    assert_eq!(match_route("GET", "/goodday"), Some(Route::GoodDay));
    assert_eq!(match_route("GET", "/hello/Ada"), Some(Route::Hello));
    assert_eq!(match_route("POST", "/increment"), Some(Route::Increment));
    assert_eq!(match_route("POST", "/forecasts"), Some(Route::Forecasts));
}

#[test]
fn undeclared_paths_are_delegated() {
    assert_eq!(match_route("GET", "/definitely-not-a-route"), None);
    assert_eq!(match_route("GET", "/styles/site.css"), None);
    assert_eq!(match_route("GET", ""), None);
    assert_eq!(match_route("GET", "/aboutx"), None);
    assert_eq!(match_route("POST", "/"), None);
    assert_eq!(match_route("POST", "/about"), None);
    assert_eq!(match_route("PUT", "/"), None);
    assert_eq!(match_route("get", "/"), None);
}

#[test]
fn hello_route_needs_a_name() {
    assert_eq!(match_route("GET", "/hello/"), None);
    assert_eq!(hello_name("/hello/"), None);
    assert_eq!(hello_name("/hello"), None);
    assert_eq!(hello_name("/helloX/Ada"), None);
    assert_eq!(hello_name("/hello/Ada").as_deref(), Some("Ada"));
    assert_eq!(hello_name("/hello/a/b").as_deref(), Some("a/b"));
}
