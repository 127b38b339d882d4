use baf::profit::{
    parse_bz_list_flip_detail, parse_cofl_bz_h_total_profit, parse_cofl_profit_response,
    parse_short_number,
};

#[test]
fn parse_cofl_profit_response_82m() {
    let msg = "According to our data TestPlayer made 82.7M in the last 7 days across 10 auctions";
    assert_eq!(parse_cofl_profit_response(msg), Some(82_700_000));
}

#[test]
fn parse_cofl_profit_response_1b() {
    let msg = "According to our data TestPlayer made 1.5B in the last 30 days across 50 auctions";
    assert_eq!(parse_cofl_profit_response(msg), Some(1_500_000_000));
}

#[test]
fn parse_cofl_profit_response_plain() {
    let msg = "According to our data TestPlayer made 500 in the last 1 days across 1 auctions";
    assert_eq!(parse_cofl_profit_response(msg), Some(500));
}

#[test]
fn parse_cofl_profit_response_250k() {
    let msg = "According to our data TestPlayer made 250K in the last 7 days across 3 auctions";
    assert_eq!(parse_cofl_profit_response(msg), Some(250_000));
}

#[test]
fn parse_cofl_profit_response_no_match() {
    assert_eq!(parse_cofl_profit_response("Some random chat message"), None);
}

#[test]
fn parse_short_number_values() {
    assert_eq!(parse_short_number("82.7M"), Some(82_700_000));
    assert_eq!(parse_short_number("1.5B"), Some(1_500_000_000));
    assert_eq!(parse_short_number("250K"), Some(250_000));
    assert_eq!(parse_short_number("500"), Some(500));
    assert_eq!(parse_short_number("1,500,000"), Some(1_500_000));
    assert_eq!(parse_short_number("abc"), None);
}

#[test]
fn parse_bz_list_flip_detail_profit() {
    let line = "128xWorm Membrane: 7.16M -> 7.91M => 741K(7)";
    let (name, profit, count) = parse_bz_list_flip_detail(line).unwrap();
    assert_eq!(name, "Worm Membrane");
    assert_eq!(profit, 741_000);
    assert_eq!(count, 7);
}

#[test]
fn parse_bz_list_flip_detail_multiple_flips() {
    let line = "2xJungle Key: 1.05M -> 287K => -768K(1)";
    let (name, profit, count) = parse_bz_list_flip_detail(line).unwrap();
    assert_eq!(name, "Jungle Key");
    assert_eq!(profit, -768_000);
    assert_eq!(count, 1);
}

#[test]
fn parse_bz_list_flip_detail_no_match() {
    assert!(parse_bz_list_flip_detail("Some random text").is_none());
    assert!(parse_bz_list_flip_detail("Last Completed Bazaar Flips").is_none());
}

#[test]
fn parse_cofl_bz_h_negative_profit() {
    let msg = "Total Profit: -234M";
    assert_eq!(parse_cofl_bz_h_total_profit(msg), Some(-234_000_000));
}

#[test]
fn parse_cofl_bz_h_positive_profit() {
    let msg = "Total Profit: 1.5B";
    assert_eq!(parse_cofl_bz_h_total_profit(msg), Some(1_500_000_000));
}

#[test]
fn parse_cofl_bz_h_in_context() {
    let msg = "Bazaar Profit History for TestPlayer (last 7 days)\nTotal Profit: -234M\nAverage Daily Profit: -33.5M";
    assert_eq!(parse_cofl_bz_h_total_profit(msg), Some(-234_000_000));
}

#[test]
fn parse_cofl_bz_h_no_match() {
    assert_eq!(parse_cofl_bz_h_total_profit("Some random message"), None);
}
