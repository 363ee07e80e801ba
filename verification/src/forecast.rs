//! Weather-forecast demo data: five freshly drawn records per request.
//!
//! Temperatures are drawn uniformly from 40 to 90 degrees Celsius and
//! converted to Fahrenheit; the summary is drawn from ten fixed labels; the
//! dates are five consecutive calendar days starting tomorrow.

use vstd::prelude::*;
use vstd::string::StringExecFns;

verus! {

/// One forecast record, all fields plain values.
pub struct Forecast {
    pub date: String,
    pub summary: String,
    pub temperature_c: i32,
    pub temperature_f: i32,
}

/// The mathematical model of a forecast record.
pub ghost struct ForecastView {
    pub date: Seq<char>,
    pub summary: Seq<char>,
    pub temperature_c: int,
    pub temperature_f: int,
}

impl View for Forecast {
    type V = ForecastView;

    open spec fn view(&self) -> ForecastView {
        ForecastView {
            date: self.date@,
            summary: self.summary@,
            temperature_c: self.temperature_c as int,
            temperature_f: self.temperature_f as int,
        }
    }
}

/// Celsius to Fahrenheit by the affine transform `32 + c / 0.5556`, rounded
/// to the nearest integer. In exact integer arithmetic, `c / 0.5556` is
/// `2500 * c / 1389`, and rounding that quotient is adding half the
/// denominator before dividing: `(5000 * c + 1389) / 2778`. No tie can
/// occur (`5000 * c` is even, `1389` odd, `2778` even), so the rounding is
/// unambiguous.
pub open spec fn fahrenheit_of(c: int) -> int
    recommends
        0 <= c,
{
    32 + (5000 * c + 1389) / 2778
}

/// Computes the rounded Fahrenheit value for a non-negative Celsius value.
pub fn fahrenheit(c: i32) -> (f: i32)
    requires
        0 <= c <= 100_000,
    ensures
        f == fahrenheit_of(c as int),
{
    32 + (5000 * c + 1389) / 2778
}

/// The ten fixed summary labels.
pub open spec fn summary_labels() -> Seq<Seq<char>> {
    seq![
        "Freezing"@,
        "Bracing"@,
        "Chilly"@,
        "Cool"@,
        "Mild"@,
        "Warm"@,
        "Balmy"@,
        "Hot"@,
        "Sweltering"@,
        "Scorching"@,
    ]
}

/// Returns the summary label with the given index.
pub fn summary_label(i: u64) -> (s: &'static str)
    requires
        i < 10,
    ensures
        s@ == summary_labels()[i as int],
{
    if i == 0 {
        "Freezing"
    } else if i == 1 {
        "Bracing"
    } else if i == 2 {
        "Chilly"
    } else if i == 3 {
        "Cool"
    } else if i == 4 {
        "Mild"
    } else if i == 5 {
        "Warm"
    } else if i == 6 {
        "Balmy"
    } else if i == 7 {
        "Hot"
    } else if i == 8 {
        "Sweltering"
    } else {
        "Scorching"
    }
}

/// The date string that the calendar produces for the day with the given
/// number in the proleptic Gregorian calendar (January 1 of year 1 being
/// day 1). A function of the day number alone.
pub uninterp spec fn date_string_of(day: int) -> Seq<char>;

/// Relies on rand::rng and rand::RngExt::random_range: a draw from a
/// uniform distribution over the inclusive range, which is in bounds; the
/// call panics only on an empty range, which the precondition rules out.
#[verifier::external_body]
fn draw_in_range(lo: u64, hi: u64) -> (r: u64)
    requires
        lo <= hi,
    ensures
        lo <= r <= hi,
{
    rand::RngExt::random_range(&mut rand::rng(), lo..=hi)
}

/// Relies on chrono::Local::now, DateTime::date_naive and
/// chrono::Datelike::num_days_from_ce: the local calendar date of the
/// current moment, as a day number. Nothing can be promised of the clock
/// beyond the bound that every representable chrono date respects (years
/// within about plus or minus 262,000 of the common era).
#[verifier::external_body]
fn local_today_days() -> (d: i32)
    ensures
        -96_000_000 <= d <= 96_000_000,
{
    chrono::Datelike::num_days_from_ce(&chrono::Local::now().date_naive())
}

/// Relies on chrono::NaiveDate::from_num_days_from_ce_opt and the Display
/// of NaiveDate: the ISO-8601 date string of the given day number, a
/// function of the day number alone. The precondition keeps the day well
/// inside chrono's representable range, where the conversion is `Some`.
#[verifier::external_body]
fn day_number_string(d: i32) -> (s: String)
    requires
        0 <= d <= 90_000_000,
    ensures
        s@ == date_string_of(d as int),
{
    chrono::NaiveDate::from_num_days_from_ce_opt(d).unwrap().to_string()
}

/// What holds of one well-formed forecast record for a given calendar day.
pub open spec fn forecast_wf(fv: ForecastView, day: int) -> bool {
    &&& 40 <= fv.temperature_c <= 90
    &&& fv.temperature_f == fahrenheit_of(fv.temperature_c)
    &&& summary_labels().contains(fv.summary)
    &&& fv.date == date_string_of(day)
}

/// The record at position `i` of `s` is well formed for day `t + 1 + i`:
/// the records cover consecutive calendar days starting the day after `t`.
pub open spec fn forecasts_from(s: Seq<Forecast>, t: int) -> bool {
    forall|i: int| 0 <= i < s.len() ==> #[trigger] forecast_wf(s[i]@, t + 1 + i)
}

fn make_forecast(day: i32) -> (f: Forecast)
    requires
        0 <= day <= 90_000_000,
    ensures
        forecast_wf(f@, day as int),
{
    let c64 = draw_in_range(40, 90);
    let c: i32 = c64 as i32;
    let f = fahrenheit(c);
    let si = draw_in_range(0, 9);
    let label = summary_label(si);
    let record = Forecast {
        date: day_number_string(day),
        summary: String::from_str(label),
        temperature_c: c,
        temperature_f: f,
    };
    proof {
        assert(summary_labels()[si as int] == record.summary@);
        assert(summary_labels().contains(record.summary@));
    }
    record
}

/// Draws five fresh forecast records: for some starting day (today, as the
/// clock reports it), the records cover the five consecutive days after it.
pub fn make_forecasts() -> (r: Vec<Forecast>)
    ensures
        r@.len() == 5,
        exists|t: int| #[trigger] forecasts_from(r@, t),
{
    let today0 = local_today_days();
    let today: i32 = if today0 < 0 {
        0
    } else if today0 > 89_999_990 {
        89_999_990
    } else {
        today0
    };
    let mut v: Vec<Forecast> = Vec::new();
    let mut k: i32 = 1;
    while k <= 5
        invariant
            1 <= k <= 6,
            0 <= today <= 89_999_990,
            v@.len() == k - 1,
            forall|j: int| 0 <= j < v@.len() ==> #[trigger] forecast_wf(v@[j]@, today + 1 + j),
        decreases 6 - k,
    {
        let f = make_forecast(today + k);
        v.push(f);
        k = k + 1;
    }
    proof {
        let t = today as int;
        assert(forecasts_from(v@, t));
    }
    v
}

} // verus!
