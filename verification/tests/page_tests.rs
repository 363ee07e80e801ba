use rust_axum::handlers::about;
use rust_axum::handlers::goodday;
use rust_axum::handlers::handle_request;
use rust_axum::handlers::hello;
use rust_axum::handlers::hello_world;
use rust_axum::handlers::increment;
use rust_axum::handlers::index;
use rust_axum::into_html;
use rust_axum::layout::layout_mode;
use rust_axum::layout::LayoutMode;
use rust_axum::render::ForecastsTemplate;
use rust_axum::render::HomeTemplate;
use rust_axum::render::Renderable;
use rust_axum::RenderError;

const NAV_HOME: &str = "<nav data-path=/><a href=/>Home</a><a href=/about>About</a><a href=/counter>Counter</a><a href=/fetchdata>Weather</a></nav>";
const HOME_ARTICLE: &str = "<h1>Home</h1><p>Welcome to the demo.</p><section id=survey><h2>Survey</h2><p>Tell us what you think of this page.</p></section>";

#[test]
fn index_full_page_exact() {
    let r = index("/", LayoutMode::FullPage);
    assert_eq!(r.status, 200);
    let expected = format!(
        "<!DOCTYPE html><html><head><title>Home</title></head><body><main>{}<article>{}</article></main></body></html>",
        NAV_HOME, HOME_ARTICLE
    );
    assert_eq!(r.body, expected);
}

#[test]
fn index_boosted_fragment_exact() {
    let r = index("/", LayoutMode::BoostedFragment);
    assert_eq!(r.status, 200);
    let expected = format!(
        "<title>Home</title><main>{}<article>{}</article></main>",
        NAV_HOME, HOME_ARTICLE
    );
    assert_eq!(r.body, expected);
}

#[test]
fn boosted_and_full_both_succeed_and_differ() {
    let full = index("/", LayoutMode::FullPage);
    let boosted = index("/", LayoutMode::BoostedFragment);
    assert_eq!(full.status, 200);
    assert_eq!(boosted.status, 200);
    assert_ne!(full.body, boosted.body);

    let full = about("/about", LayoutMode::FullPage);
    let boosted = about("/about", LayoutMode::BoostedFragment);
    assert_eq!(full.status, 200);
    assert_eq!(boosted.status, 200);
    assert_ne!(full.body, boosted.body);
}

#[test]
fn layout_mode_from_header() {
    assert!(matches!(layout_mode(Some("true")), LayoutMode::BoostedFragment));
    assert!(matches!(layout_mode(Some("false")), LayoutMode::FullPage));
    assert!(matches!(layout_mode(Some("True")), LayoutMode::FullPage));
    assert!(matches!(layout_mode(None), LayoutMode::FullPage));
}

#[test]
fn increment_reflects_submitted_count() {
    let r = increment(7);
    assert_eq!(r.status, 200);
    assert_eq!(r.body, "<h1>Counter</h1><div id=counter>Current count: 7</div>");
    let again = increment(7);
    assert_eq!(again.body, r.body);
    let other = increment(41);
    assert_eq!(other.body, "<h1>Counter</h1><div id=counter>Current count: 41</div>");
}

#[test]
fn hello_interpolates_name_verbatim() {
    let r = hello("Ada");
    assert_eq!(r.status, 200);
    assert_eq!(r.body, "<h1>Hello, Ada!</h1>");
    assert!(r.body.contains("Ada"));

    let odd = "<& zß水 100%";
    let r = hello(odd);
    assert_eq!(r.status, 200);
    assert!(r.body.contains(odd));
}

#[test]
fn static_fragments_exact() {
    let r = goodday();
    assert_eq!(r.status, 200);
    assert_eq!(r.body, "<p>Good day to you!</p>");
    let r = hello_world();
    assert_eq!(r.status, 200);
    assert_eq!(r.body, "Hello, world!");
}

#[test]
fn render_failure_maps_to_500_with_prefix() {
    let r = into_html(Err(RenderError { message: String::from("boom") }));
    assert_eq!(r.status, 500);
    assert_eq!(r.body, "Failed to render template. Error: boom");
    assert!(r.body.starts_with("Failed to render template. Error:"));
}

#[test]
fn malformed_forecast_model_fails_to_render() {
    let template = ForecastsTemplate { forecasts: Vec::new() };
    let rendered = template.render();
    assert!(rendered.is_err());
    let r = into_html(rendered);
    assert_eq!(r.status, 500);
    assert!(r.body.starts_with("Failed to render template. Error:"));
}

#[test]
fn successful_render_maps_to_200() {
    let r = into_html((HomeTemplate {}).render());
    assert_eq!(r.status, 200);
    assert_eq!(r.body, HOME_ARTICLE);
}

#[test]
fn survey_heading_is_configurable() {
    let home = HomeTemplate {};
    let survey = home.survey_html("Another title");
    let body = survey.render().unwrap();
    assert_eq!(
        body,
        "<section id=survey><h2>Another title</h2><p>Tell us what you think of this page.</p></section>"
    );
}

#[test]
fn dispatcher_delegates_unmatched_paths() {
    assert!(handle_request("GET", "/no/such/page", None, 0).is_none());
    assert!(handle_request("DELETE", "/", None, 0).is_none());
}

#[test]
fn dispatcher_serves_declared_routes() {
    let full = handle_request("GET", "/", None, 0).unwrap();
    let boosted = handle_request("GET", "/", Some("true"), 0).unwrap();
    assert_eq!(full.status, 200);
    assert_eq!(boosted.status, 200);
    assert_ne!(full.body, boosted.body);

    let inc = handle_request("POST", "/increment", None, 7).unwrap();
    assert_eq!(inc.body, "<h1>Counter</h1><div id=counter>Current count: 7</div>");

    let greet = handle_request("GET", "/hello/Ada", None, 0).unwrap();
    assert_eq!(greet.body, "<h1>Hello, Ada!</h1>");
}
