use rust_axum::forecast::fahrenheit;
use rust_axum::forecast::make_forecasts;
use rust_axum::forecast::summary_label;
use rust_axum::handlers::forecasts;

const LABELS: [&str; 10] = [
    "Freezing",
    "Bracing",
    "Chilly",
    "Cool",
    "Mild",
    "Warm",
    "Balmy",
    "Hot",
    "Sweltering",
    "Scorching",
];

#[test]
fn fahrenheit_exact_endpoints() {
    assert_eq!(fahrenheit(40), 104);
    assert_eq!(fahrenheit(90), 194);
    assert_eq!(fahrenheit(0), 32);
}

#[test]
fn fahrenheit_matches_rounded_affine_transform() {
    for c in 0..=1000_i32 {
        let exact = (32.0_f64 + (c as f64) / 0.5556).round() as i32;
        assert_eq!(fahrenheit(c), exact, "celsius {}", c);
    }
}

#[test]
fn summary_labels_are_the_ten_fixed_ones() {
    for (i, expected) in LABELS.iter().enumerate() {
        assert_eq!(summary_label(i as u64), *expected);
    }
}

#[test]
fn forecasts_are_five_well_formed_rows() {
    let today_before = chrono::Local::now().date_naive();
    let rows = make_forecasts();
    let today_after = chrono::Local::now().date_naive();
    assert_eq!(rows.len(), 5);
    for (k, row) in rows.iter().enumerate() {
        assert!(40 <= row.temperature_c && row.temperature_c <= 90);
        let exact = (32.0_f64 + (row.temperature_c as f64) / 0.5556).round() as i32;
        assert_eq!(row.temperature_f, exact);
        assert!(LABELS.contains(&row.summary.as_str()));
        if today_before == today_after {
            let expected_date = today_before + chrono::Duration::days(k as i64 + 1);
            assert_eq!(row.date, expected_date.to_string());
        }
    }
}

#[test]
fn forecast_response_is_a_table_of_five_rows() {
    let r = forecasts();
    assert_eq!(r.status, 200);
    assert!(r.body.starts_with("<table>"));
    assert!(r.body.ends_with("</table>"));
    assert_eq!(r.body.matches("<tr>").count(), 5);
    assert_eq!(r.body.matches("</tr>").count(), 5);
}

#[test]
fn forecast_draws_vary_between_requests() {
    let mut distinct = false;
    let first = make_forecasts();
    for _ in 0..50 {
        let next = make_forecasts();
        let differs = first.iter().zip(next.iter()).any(|(a, b)| {
            a.temperature_c != b.temperature_c || a.summary != b.summary
        });
        if differs {
            distinct = true;
            break;
        }
    }
    assert!(distinct, "fifty fresh draws never differed from the first");
}
