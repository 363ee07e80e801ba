//! One handler per endpoint: each selects a content template, supplies its
//! data, and wraps the result by the uniform response policy. A dispatcher
//! ties the route table to the handlers.

use crate::forecast::forecasts_from;
use crate::forecast::make_forecasts;
use crate::forecast::Forecast;
use crate::into_html;
use crate::layout::layout_mode;
use crate::layout::page_html;
use crate::layout::render_main_layout_page;
use crate::layout::LayoutMode;
use crate::render::about_html;
use crate::render::counter_html;
use crate::render::fetchdata_html;
use crate::render::forecast_views;
use crate::render::forecasts_html;
use crate::render::goodday_html;
use crate::render::hello_html;
use crate::render::home_html;
use crate::render::AboutTemplate;
use crate::render::CounterTemplate;
use crate::render::FetchDataTemplate;
use crate::render::ForecastsTemplate;
use crate::render::GoodDayTemplate;
use crate::render::HelloTemplate;
use crate::render::HomeTemplate;
use crate::render::Renderable;
use crate::routes::match_route;
use crate::routes::hello_name;
use crate::routes::route_of;
use crate::routes::spec_hello_name;
use crate::routes::Route;
use crate::text::contains_substring;
use crate::text::lemma_concat_contains_mid;
use crate::HttpResponse;
use vstd::prelude::*;
use vstd::string::StringExecFns;

verus! {

/// The home page.
pub fn index(path: &str, mode: LayoutMode) -> (r: HttpResponse)
    ensures
        r.status == 200,
        r.body@ == page_html("Home"@, path@, mode is BoostedFragment, home_html()),
{
    into_html(render_main_layout_page("Home", path, mode, &(HomeTemplate {})))
}

/// The about page.
pub fn about(path: &str, mode: LayoutMode) -> (r: HttpResponse)
    ensures
        r.status == 200,
        r.body@ == page_html("About"@, path@, mode is BoostedFragment, about_html()),
{
    into_html(render_main_layout_page("About", path, mode, &(AboutTemplate {})))
}

/// The counter page, with an initial count of zero.
pub fn counter(path: &str, mode: LayoutMode) -> (r: HttpResponse)
    ensures
        r.status == 200,
        r.body@ == page_html("Counter"@, path@, mode is BoostedFragment, counter_html(0)),
{
    into_html(render_main_layout_page("Counter", path, mode, &(CounterTemplate { count: 0 })))
}

/// The weather page shell; the rows come from a separate request.
pub fn fetchdata(path: &str, mode: LayoutMode) -> (r: HttpResponse)
    ensures
        r.status == 200,
        r.body@ == page_html("Fetch Data"@, path@, mode is BoostedFragment, fetchdata_html()),
{
    into_html(render_main_layout_page("Fetch Data", path, mode, &(FetchDataTemplate {})))
}

/// Re-renders the counter fragment from the submitted form count: the
/// response is a function of the submitted count alone, no count is kept
/// on the server.
pub fn increment(count: u32) -> (r: HttpResponse)
    ensures
        r.status == 200,
        r.body@ == counter_html(count as nat),
{
    into_html((CounterTemplate { count }).render())
}

/// Five freshly drawn forecast rows, as a table fragment.
pub fn forecasts() -> (r: HttpResponse)
    ensures
        r.status == 200,
        exists|rows: Seq<Forecast>, t: int|
            {
                &&& rows.len() == 5
                &&& #[trigger] forecasts_from(rows, t)
                &&& r.body@ == forecasts_html(forecast_views(rows))
            },
{
    let v = make_forecasts();
    proof {
        let t = choose|t: int| forecasts_from(v@, t);
        assert(forall|i: int|
            0 <= i < v@.len() ==> #[trigger] crate::forecast::forecast_wf(v@[i]@, t + 1 + i));
        assert forall|i: int| 0 <= i < v@.len() implies 0 <= #[trigger] v@[i]@.temperature_c && 0
            <= v@[i]@.temperature_f by {
            assert(crate::forecast::forecast_wf(v@[i]@, t + 1 + i));
        }
    }
    let template = ForecastsTemplate { forecasts: v };
    let r = into_html(template.render());
    proof {
        let t = choose|t: int| forecasts_from(template.forecasts@, t);
        assert(forecasts_from(template.forecasts@, t));
    }
    r
}

/// The greeting fragment: the name appears in the body verbatim.
pub fn hello(name: &str) -> (r: HttpResponse)
    ensures
        r.status == 200,
        r.body@ == hello_html(name@),
{
    into_html((HelloTemplate { name: String::from_str(name) }).render())
}

/// The static pleasantry fragment.
pub fn goodday() -> (r: HttpResponse)
    ensures
        r.status == 200,
        r.body@ == goodday_html(),
{
    into_html((GoodDayTemplate {}).render())
}

/// The earliest endpoint: a plain-text greeting.
pub fn hello_world() -> (r: HttpResponse)
    ensures
        r.status == 200,
        r.body@ == "Hello, world!"@,
{
    HttpResponse { status: 200, body: String::from_str("Hello, world!") }
}

/// The greeting body contains the interpolated name verbatim, whatever the
/// name is.
pub proof fn lemma_hello_contains_name(name: Seq<char>)
    ensures
        contains_substring(hello_html(name), name),
{
    lemma_concat_contains_mid("<h1>Hello, "@, name, "!</h1>"@);
}

/// The counter fragment shows the decimal digits of the submitted count
/// verbatim, whatever the count is; together with the contract of
/// `increment`, the response depends on the request body alone.
pub proof fn lemma_counter_reflects_count(count: nat)
    ensures
        contains_substring(counter_html(count), crate::text::dec_str_of(count)),
{
    lemma_concat_contains_mid(
        "<h1>Counter</h1><div id=counter>Current count: "@,
        crate::text::dec_str_of(count),
        "</div>"@,
    );
}

/// Dispatches one request to its handler: `None` delegates to static-file
/// serving, and comes exactly for requests off the route table. The
/// layout mode is derived once from the `HX-Boosted` header; `form_count`
/// is the submitted `count` field, read only by the increment route.
pub fn handle_request(
    method: &str,
    path: &str,
    hx_boosted: Option<&str>,
    form_count: u32,
) -> (r: Option<HttpResponse>)
    ensures
        r is Some <==> route_of(method@, path@) is Some,
        r matches Some(resp) ==> resp.status == 200,
        ({
            let boosted = hx_boosted matches Some(v) && v@ == "true"@;
            &&& route_of(method@, path@) == Some(Route::Index) ==> (r matches Some(resp)
                && resp.body@ == page_html("Home"@, path@, boosted, home_html()))
            &&& route_of(method@, path@) == Some(Route::About) ==> (r matches Some(resp)
                && resp.body@ == page_html("About"@, path@, boosted, about_html()))
            &&& route_of(method@, path@) == Some(Route::Counter) ==> (r matches Some(resp)
                && resp.body@ == page_html("Counter"@, path@, boosted, counter_html(0)))
            &&& route_of(method@, path@) == Some(Route::FetchData) ==> (r matches Some(resp)
                && resp.body@ == page_html("Fetch Data"@, path@, boosted, fetchdata_html()))
            &&& route_of(method@, path@) == Some(Route::Increment) ==> (r matches Some(resp)
                && resp.body@ == counter_html(form_count as nat))
            &&& route_of(method@, path@) == Some(Route::Forecasts) ==> (r matches Some(resp)
                && exists|rows: Seq<Forecast>, t: int|
                {
                    &&& rows.len() == 5
                    &&& #[trigger] forecasts_from(rows, t)
                    &&& resp.body@ == forecasts_html(forecast_views(rows))
                })
            &&& route_of(method@, path@) == Some(Route::Hello) ==> (r matches Some(resp)
                && resp.body@ == hello_html(spec_hello_name(path@)))
            &&& route_of(method@, path@) == Some(Route::HelloWorld) ==> (r matches Some(resp)
                && resp.body@ == "Hello, world!"@)
            &&& route_of(method@, path@) == Some(Route::GoodDay) ==> (r matches Some(resp)
                && resp.body@ == goodday_html())
        }),
{
    let route = match match_route(method, path) {
        Some(route) => route,
        None => {
            return None;
        },
    };
    let mode = layout_mode(hx_boosted);
    match route {
        Route::Index => Some(index(path, mode)),
        Route::About => Some(about(path, mode)),
        Route::Counter => Some(counter(path, mode)),
        Route::FetchData => Some(fetchdata(path, mode)),
        Route::Increment => Some(increment(form_count)),
        Route::Forecasts => Some(forecasts()),
        Route::Hello => {
            let name = match hello_name(path) {
                Some(name) => name,
                None => {
                    return None;
                },
            };
            Some(hello(name.as_str()))
        },
        Route::HelloWorld => Some(hello_world()),
        Route::GoodDay => Some(goodday()),
    }
}

} // verus!
