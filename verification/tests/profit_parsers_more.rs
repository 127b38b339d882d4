use baf::profit::{
    parse_bz_list_flip_detail, parse_bz_list_flip_profit, parse_cofl_bz_h_total_profit,
    parse_cofl_profit_response,
};

#[test]
fn flip_profit_reads_value_before_paren() {
    assert_eq!(parse_bz_list_flip_profit("2xJungle Key: 1.05M -> 287K => -768K(1)"), Some(-768_000));
    assert_eq!(parse_bz_list_flip_profit("x => 5 (3)"), Some(5));
    assert_eq!(parse_bz_list_flip_profit("no arrow (1)"), None);
    assert_eq!(parse_bz_list_flip_profit("=> 5 no paren"), None);
}

#[test]
fn flip_detail_requires_each_part() {
    assert_eq!(parse_bz_list_flip_detail("x5: 1 -> 2 => 1(1)"), None);
    assert_eq!(parse_bz_list_flip_detail("3x : 1 -> 2 => 1(1)"), None);
    assert_eq!(parse_bz_list_flip_detail("3xItem 1 -> 2 => 1(1)"), None);
    assert_eq!(parse_bz_list_flip_detail("3xItem: 1 -> 2 => 1(-1)"), None);
    assert_eq!(parse_bz_list_flip_detail("3xItem: 1 -> 2 => abc(1)"), None);
    assert_eq!(
        parse_bz_list_flip_detail(" 3 x Enchanted Iron : 1 -> 2 => 2.5K( 4 )"),
        Some(("Enchanted Iron".to_string(), 2_500, 4))
    );
}

#[test]
fn cofl_profit_response_with_spaces_and_commas() {
    let msg = "According to our data A made  1,234  in the last 2 days across 5 auctions";
    assert_eq!(parse_cofl_profit_response(msg), Some(1_234));
    let msg = "According to our data made made 5 in the last 1 days";
    assert_eq!(parse_cofl_profit_response(msg), Some(5));
    let msg = "According to our data A made 5 in the past day";
    assert_eq!(parse_cofl_profit_response(msg), None);
}

#[test]
fn cofl_bz_h_word_ends_at_whitespace() {
    assert_eq!(parse_cofl_bz_h_total_profit("x Total Profit: 12K\ty"), Some(12_000));
    assert_eq!(parse_cofl_bz_h_total_profit("Total Profit: "), None);
}

#[test]
fn flip_detail_and_profit_agree() {
    for line in [
        "128xWorm Membrane: 7.16M -> 7.91M => 741K(7)",
        " 2 xJungle Key: 1.05M -> 287K => -768K(1)",
    ] {
        let (_, profit, _) = parse_bz_list_flip_detail(line).unwrap();
        assert_eq!(parse_bz_list_flip_profit(line), Some(profit));
    }
}
