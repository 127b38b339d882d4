use baf::profit::{parse_short_number, ProfitTracker};

#[test]
fn tracker_starts_at_zero() {
    let t = ProfitTracker::new_at(100);
    assert_eq!(t.totals(), (0, 0));
    assert_eq!(t.ah_points(), vec![(100, 0)]);
    assert_eq!(t.bz_points(), vec![(100, 0)]);
}

#[test]
fn recorded_profits_accumulate() {
    let mut t = ProfitTracker::new_at(0);
    t.record_ah_profit_at(10, 500);
    t.record_ah_profit_at(20, -200);
    t.record_bz_profit_at(30, 1_000);
    assert_eq!(t.totals(), (300, 1_000));
    assert_eq!(t.ah_points(), vec![(0, 0), (10, 500), (20, 300)]);
    assert_eq!(t.bz_points(), vec![(0, 0), (30, 1_000)]);
}

#[test]
fn set_total_replaces_and_appends_point() {
    let mut t = ProfitTracker::new_at(0);
    t.record_ah_profit_at(1, 42);
    t.set_ah_total_at(2, 82_700_000);
    t.set_bz_total_at(3, -5);
    assert_eq!(t.totals(), (82_700_000, -5));
    assert_eq!(t.ah_points().last(), Some(&(2, 82_700_000)));
    assert_eq!(t.bz_points(), vec![(0, 0), (3, -5)]);
}

#[test]
fn clock_based_recording_appends_points() {
    let mut t = ProfitTracker::new();
    t.record_ah_profit(7);
    t.set_bz_total(9);
    t.record_bz_profit(1);
    assert_eq!(t.totals(), (7, 10));
    assert_eq!(t.ah_points().len(), 2);
    assert_eq!(t.bz_points().len(), 3);
    assert_eq!(t.bz_points()[2].1, 10);
}

#[test]
fn short_number_sign_and_fraction_forms() {
    assert_eq!(parse_short_number("-768K"), Some(-768_000));
    assert_eq!(parse_short_number("+5"), Some(5));
    assert_eq!(parse_short_number(".5k"), Some(500));
    assert_eq!(parse_short_number("7.k"), Some(7_000));
    assert_eq!(parse_short_number("1.05M"), Some(1_050_000));
    assert_eq!(parse_short_number("7.16m"), Some(7_160_000));
    assert_eq!(parse_short_number("1.5b"), Some(1_500_000_000));
    assert_eq!(parse_short_number("0.0000001"), Some(0));
    assert_eq!(parse_short_number("-0.9"), Some(0));
    assert_eq!(parse_short_number("12.99"), Some(12));
}

#[test]
fn short_number_rejects_malformed() {
    assert_eq!(parse_short_number(""), None);
    assert_eq!(parse_short_number("."), None);
    assert_eq!(parse_short_number("-"), None);
    assert_eq!(parse_short_number("K"), None);
    assert_eq!(parse_short_number("1.2.3"), None);
    assert_eq!(parse_short_number("+-5"), None);
    assert_eq!(parse_short_number(" 5"), None);
    assert_eq!(parse_short_number("5KK"), None);
}

#[test]
fn short_number_saturates_at_i64_bounds() {
    assert_eq!(parse_short_number("99999999999B"), Some(i64::MAX));
    assert_eq!(parse_short_number("-99999999999B"), Some(i64::MIN));
    assert_eq!(parse_short_number("9223372036854775807"), Some(i64::MAX));
    assert_eq!(parse_short_number("-9223372036854775808"), Some(i64::MIN));
}

#[test]
fn short_number_commas_are_ignored() {
    assert_eq!(parse_short_number("1,500,000"), parse_short_number("1500000"));
    assert_eq!(parse_short_number(",,2,5,0K"), Some(250_000));
}

#[test]
fn short_number_suffix_scales_whole_numbers() {
    assert_eq!(parse_short_number("250"), Some(250));
    assert_eq!(parse_short_number("250K"), Some(250_000));
    assert_eq!(parse_short_number("250M"), Some(250_000_000));
    assert_eq!(parse_short_number("250B"), Some(250_000_000_000));
}

#[test]
fn short_number_negation_law_example() {
    assert_eq!(parse_short_number("-82.7M"), parse_short_number("82.7M").map(|v| -v));
}

#[test]
fn short_number_accepts_exponents_exactly() {
    assert_eq!(parse_short_number("1e3"), Some(1_000));
    assert_eq!(parse_short_number("1.5e3K"), Some(1_500_000));
    assert_eq!(parse_short_number("2E-2M"), Some(20_000));
    assert_eq!(parse_short_number("8.2e0M"), Some(8_200_000));
    assert_eq!(parse_short_number("1e+5"), Some(100_000));
    assert_eq!(parse_short_number("1e999"), Some(i64::MAX));
    assert_eq!(parse_short_number("-1e999"), Some(i64::MIN));
    assert_eq!(parse_short_number("1e-999"), Some(0));
    assert_eq!(parse_short_number("0e999"), Some(0));
    assert_eq!(parse_short_number("1e"), None);
    assert_eq!(parse_short_number("e5"), None);
    assert_eq!(parse_short_number("1e5.5"), None);
}

#[test]
fn short_number_infinities_and_nan() {
    assert_eq!(parse_short_number("inf"), Some(i64::MAX));
    assert_eq!(parse_short_number("-Infinity"), Some(i64::MIN));
    assert_eq!(parse_short_number("infK"), Some(i64::MAX));
    assert_eq!(parse_short_number("NaN"), Some(0));
    assert_eq!(parse_short_number("-nan"), Some(0));
    assert_eq!(parse_short_number("infinit"), None);
}

#[test]
fn short_number_reads_the_exact_decimal_value() {
    assert_eq!(parse_short_number("8.2M"), Some(8_200_000));
    assert_eq!(parse_short_number("2.01M"), Some(2_010_000));
    assert_eq!(parse_short_number("-2.01M"), Some(-2_010_000));
    assert_eq!(parse_short_number("9007199254740993"), Some(9_007_199_254_740_993));
    assert_eq!(parse_short_number("123456789.123456789B"), Some(123_456_789_123_456_789));
    assert_eq!(parse_short_number("4.1B"), Some(4_100_000_000));
    assert_eq!(parse_short_number("1.005K"), Some(1005));
    assert_eq!(parse_short_number("1.0059K"), Some(1005));
}

#[test]
fn charts_follow_mixed_calls() {
    let mut t = ProfitTracker::new_at(0);
    t.record_ah_profit_at(1, 5);
    t.set_bz_total_at(2, 7);
    t.set_ah_total_at(3, 100);
    t.record_bz_profit_at(4, -2);
    t.record_ah_profit_at(5, -1);
    assert_eq!(t.ah_points(), vec![(0, 0), (1, 5), (3, 100), (5, 99)]);
    assert_eq!(t.bz_points(), vec![(0, 0), (2, 7), (4, 5)]);
    assert_eq!(t.totals(), (99, 5));
}
