//! Content templates and the rendering capability.
//!
//! A template is a value whose `render` method produces an HTML string, or
//! a `RenderError`. Interpolated values appear in the output verbatim;
//! escaping is no concern of this layer.

use crate::forecast::Forecast;
use crate::forecast::ForecastView;
use crate::text::dec_str_of;
use crate::text::u64_to_string;
use crate::RenderError;
use vstd::prelude::*;
use vstd::string::StringExecFns;

verus! {

/// The rendering capability: any value that can produce an HTML fragment.
/// `renders_ok` says on which values rendering succeeds, and `rendered`
/// what it then produces.
pub trait Renderable {
    spec fn renders_ok(&self) -> bool;

    spec fn rendered(&self) -> Seq<char>
        recommends
            self.renders_ok(),
    ;

    fn render(&self) -> (r: Result<String, RenderError>)
        ensures
            r is Ok <==> self.renders_ok(),
            r matches Ok(s) ==> s@ == self.rendered(),
    ;
}

/// The home-page content.
pub struct HomeTemplate {}

/// The about-page content.
pub struct AboutTemplate {}

/// The weather-page content: a shell around which forecast rows are
/// fetched separately.
pub struct FetchDataTemplate {}

/// The counter content: shows the submitted count.
pub struct CounterTemplate {
    pub count: u32,
}

/// A small survey section with a configurable heading, embedded in the
/// home page.
pub struct SurveyTemplate<'a> {
    pub title: &'a str,
}

/// The greeting fragment: interpolates a name verbatim.
pub struct HelloTemplate {
    pub name: String,
}

/// A static pleasantry fragment.
pub struct GoodDayTemplate {}

/// The forecast table: well formed only when it holds exactly five rows
/// with non-negative temperatures.
pub struct ForecastsTemplate {
    pub forecasts: Vec<Forecast>,
}

pub open spec fn survey_html(title: Seq<char>) -> Seq<char> {
    "<section id=survey><h2>"@ + title + "</h2><p>Tell us what you think of this page.</p></section>"@
}

pub open spec fn home_html() -> Seq<char> {
    "<h1>Home</h1><p>Welcome to the demo.</p>"@ + survey_html("Survey"@)
}

pub open spec fn about_html() -> Seq<char> {
    "<h1>About</h1><p>A small server-rendered demo application.</p>"@
}

pub open spec fn fetchdata_html() -> Seq<char> {
    "<h1>Weather</h1><button hx-post=/forecasts hx-target=#forecasts>Fetch</button><tbody id=forecasts></tbody>"@
}

pub open spec fn counter_html(count: nat) -> Seq<char> {
    "<h1>Counter</h1><div id=counter>Current count: "@ + dec_str_of(count) + "</div>"@
}

pub open spec fn hello_html(name: Seq<char>) -> Seq<char> {
    "<h1>Hello, "@ + name + "!</h1>"@
}

pub open spec fn goodday_html() -> Seq<char> {
    "<p>Good day to you!</p>"@
}

impl HomeTemplate {
    /// The survey section that the home page embeds, under the given
    /// heading.
    pub fn survey_html<'a>(&'a self, title: &'a str) -> (s: SurveyTemplate<'a>)
        ensures
            s.title@ == title@,
    {
        SurveyTemplate { title }
    }
}

impl Renderable for SurveyTemplate<'_> {
    open spec fn renders_ok(&self) -> bool {
        true
    }

    open spec fn rendered(&self) -> Seq<char> {
        survey_html(self.title@)
    }

    fn render(&self) -> (r: Result<String, RenderError>)
        ensures
            r is Ok <==> self.renders_ok(),
            r matches Ok(s) ==> s@ == self.rendered(),
    {
        let mut s = String::from_str("<section id=survey><h2>");
        s.append(self.title);
        s.append("</h2><p>Tell us what you think of this page.</p></section>");
        proof {
            assert(s@ =~= self.rendered());
        }
        Ok(s)
    }
}

impl Renderable for HomeTemplate {
    open spec fn renders_ok(&self) -> bool {
        true
    }

    open spec fn rendered(&self) -> Seq<char> {
        home_html()
    }

    fn render(&self) -> (r: Result<String, RenderError>)
        ensures
            r is Ok <==> self.renders_ok(),
            r matches Ok(s) ==> s@ == self.rendered(),
    {
        let survey = self.survey_html("Survey");
        let survey_part = match survey.render() {
            Ok(p) => p,
            Err(e) => {
                return Err(e);
            },
        };
        let mut s = String::from_str("<h1>Home</h1><p>Welcome to the demo.</p>");
        s.append(survey_part.as_str());
        proof {
            assert(s@ =~= self.rendered());
        }
        Ok(s)
    }
}

impl Renderable for AboutTemplate {
    open spec fn renders_ok(&self) -> bool {
        true
    }

    open spec fn rendered(&self) -> Seq<char> {
        about_html()
    }

    fn render(&self) -> (r: Result<String, RenderError>)
        ensures
            r is Ok <==> self.renders_ok(),
            r matches Ok(s) ==> s@ == self.rendered(),
    {
        Ok(String::from_str("<h1>About</h1><p>A small server-rendered demo application.</p>"))
    }
}

impl Renderable for FetchDataTemplate {
    open spec fn renders_ok(&self) -> bool {
        true
    }

    open spec fn rendered(&self) -> Seq<char> {
        fetchdata_html()
    }

    fn render(&self) -> (r: Result<String, RenderError>)
        ensures
            r is Ok <==> self.renders_ok(),
            r matches Ok(s) ==> s@ == self.rendered(),
    {
        Ok(
            String::from_str(
                "<h1>Weather</h1><button hx-post=/forecasts hx-target=#forecasts>Fetch</button><tbody id=forecasts></tbody>",
            ),
        )
    }
}

impl Renderable for CounterTemplate {
    open spec fn renders_ok(&self) -> bool {
        true
    }

    open spec fn rendered(&self) -> Seq<char> {
        counter_html(self.count as nat)
    }

    fn render(&self) -> (r: Result<String, RenderError>)
        ensures
            r is Ok <==> self.renders_ok(),
            r matches Ok(s) ==> s@ == self.rendered(),
    {
        let mut s = String::from_str("<h1>Counter</h1><div id=counter>Current count: ");
        let num = u64_to_string(self.count as u64);
        s.append(num.as_str());
        s.append("</div>");
        proof {
            assert(s@ =~= self.rendered());
        }
        Ok(s)
    }
}

impl Renderable for HelloTemplate {
    open spec fn renders_ok(&self) -> bool {
        true
    }

    open spec fn rendered(&self) -> Seq<char> {
        hello_html(self.name@)
    }

    fn render(&self) -> (r: Result<String, RenderError>)
        ensures
            r is Ok <==> self.renders_ok(),
            r matches Ok(s) ==> s@ == self.rendered(),
    {
        let mut s = String::from_str("<h1>Hello, ");
        s.append(self.name.as_str());
        s.append("!</h1>");
        proof {
            assert(s@ =~= self.rendered());
        }
        Ok(s)
    }
}

impl Renderable for GoodDayTemplate {
    open spec fn renders_ok(&self) -> bool {
        true
    }

    open spec fn rendered(&self) -> Seq<char> {
        goodday_html()
    }

    fn render(&self) -> (r: Result<String, RenderError>)
        ensures
            r is Ok <==> self.renders_ok(),
            r matches Ok(s) ==> s@ == self.rendered(),
    {
        Ok(String::from_str("<p>Good day to you!</p>"))
    }
}

/// One table row of the forecast table.
pub open spec fn forecast_row_html(fv: ForecastView) -> Seq<char> {
    "<tr><td>"@ + fv.date + "</td><td>"@ + dec_str_of(fv.temperature_c as nat) + "</td><td>"@
        + dec_str_of(fv.temperature_f as nat) + "</td><td>"@ + fv.summary + "</td></tr>"@
}

/// The rows of the forecast table, in order.
pub open spec fn forecast_rows_html(rows: Seq<ForecastView>) -> Seq<char>
    decreases rows.len(),
{
    if rows.len() == 0 {
        Seq::empty()
    } else {
        forecast_rows_html(rows.drop_last()) + forecast_row_html(rows.last())
    }
}

/// The models of a sequence of forecast records.
pub open spec fn forecast_views(s: Seq<Forecast>) -> Seq<ForecastView> {
    s.map_values(|f: Forecast| f@)
}

/// The forecast table over the given rows.
pub open spec fn forecasts_html(rows: Seq<ForecastView>) -> Seq<char> {
    "<table>"@ + forecast_rows_html(rows) + "</table>"@
}

fn push_forecast_row(out: &mut String, f: &Forecast)
    requires
        0 <= f.temperature_c,
        0 <= f.temperature_f,
    ensures
        final(out)@ == old(out)@ + forecast_row_html(f@),
{
    out.append("<tr><td>");
    out.append(f.date.as_str());
    out.append("</td><td>");
    let c = u64_to_string(f.temperature_c as u64);
    out.append(c.as_str());
    out.append("</td><td>");
    let fh = u64_to_string(f.temperature_f as u64);
    out.append(fh.as_str());
    out.append("</td><td>");
    out.append(f.summary.as_str());
    out.append("</td></tr>");
    proof {
        assert(out@ =~= old(out)@ + forecast_row_html(f@));
    }
}

impl Renderable for ForecastsTemplate {
    open spec fn renders_ok(&self) -> bool {
        &&& self.forecasts@.len() == 5
        &&& forall|i: int|
            0 <= i < self.forecasts@.len() ==> 0 <= #[trigger] self.forecasts@[i]@.temperature_c
                && 0 <= self.forecasts@[i]@.temperature_f
    }

    open spec fn rendered(&self) -> Seq<char> {
        forecasts_html(forecast_views(self.forecasts@))
    }

    fn render(&self) -> (r: Result<String, RenderError>)
        ensures
            r is Ok <==> self.renders_ok(),
            r matches Ok(s) ==> s@ == self.rendered(),
    {
        if self.forecasts.len() != 5 {
            return Err(
                RenderError { message: String::from_str("forecasts: expected exactly 5 rows") },
            );
        }
        let mut i: usize = 0;
        while i < self.forecasts.len()
            invariant
                i <= self.forecasts@.len(),
                forall|j: int|
                    0 <= j < i ==> 0 <= #[trigger] self.forecasts@[j]@.temperature_c && 0
                        <= self.forecasts@[j]@.temperature_f,
            decreases self.forecasts@.len() - i,
        {
            let f = &self.forecasts[i];
            if f.temperature_c < 0 || f.temperature_f < 0 {
                proof {
                    assert(self.forecasts@[i as int]@.temperature_c < 0
                        || self.forecasts@[i as int]@.temperature_f < 0);
                    assert(!self.renders_ok());
                }
                return Err(
                    RenderError { message: String::from_str("forecasts: negative temperature") },
                );
            }
            proof {
                let fi = self.forecasts@[i as int]@;
                assert(0 <= fi.temperature_c && 0 <= fi.temperature_f);
            }
            i = i + 1;
        }
        let mut s = String::from_str("<table>");
        let mut k: usize = 0;
        while k < self.forecasts.len()
            invariant
                k <= self.forecasts@.len(),
                forall|j: int|
                    0 <= j < self.forecasts@.len() ==> 0 <= #[trigger] self.forecasts@[j]@.temperature_c
                        && 0 <= self.forecasts@[j]@.temperature_f,
                s@ == "<table>"@ + forecast_rows_html(
                    forecast_views(self.forecasts@).take(k as int),
                ),
            decreases self.forecasts@.len() - k,
        {
            proof {
                let fk = self.forecasts@[k as int]@;
                assert(0 <= fk.temperature_c && 0 <= fk.temperature_f);
            }
            push_forecast_row(&mut s, &self.forecasts[k]);
            proof {
                let views = forecast_views(self.forecasts@);
                assert(views.take(k as int + 1).drop_last() =~= views.take(k as int));
                assert(views.take(k as int + 1).last() == self.forecasts@[k as int]@);
            }
            k = k + 1;
        }
        s.append("</table>");
        proof {
            assert(forecast_views(self.forecasts@).take(self.forecasts@.len() as int)
                =~= forecast_views(self.forecasts@));
            assert(s@ =~= self.rendered());
        }
        Ok(s)
    }
}

} // verus!
