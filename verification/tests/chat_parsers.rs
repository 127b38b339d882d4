use baf::parsers::{
    extract_viewauction_uuid, parse_claimed_sold_event_from_lore, parse_purchased_message,
    parse_sold_message, sold_event_from_groups,
};

#[test]
fn purchased_message_reads_item_and_price() {
    assert_eq!(
        parse_purchased_message("You purchased Hyperion for 1,250,000,000 coins!"),
        Some(("Hyperion".to_string(), 1_250_000_000))
    );
}

#[test]
fn purchased_message_item_may_hold_for() {
    assert_eq!(
        parse_purchased_message("You purchased Book for Dummies for 500 coins!"),
        Some(("Book for Dummies".to_string(), 500))
    );
}

#[test]
fn purchased_message_rejects_other_text() {
    assert_eq!(parse_purchased_message("You bought Hyperion for 5 coins!"), None);
    assert_eq!(parse_purchased_message("You purchased Hyperion for lots of coins!"), None);
    assert_eq!(parse_purchased_message("You purchased Hyperion for 5 bits"), None);
}

#[test]
fn sold_message_reads_buyer_item_and_price() {
    assert_eq!(
        parse_sold_message("[Auction] Steve bought Aspect of the End for 12,345 coins"),
        Some(("Steve".to_string(), "Aspect of the End".to_string(), 12_345))
    );
}

#[test]
fn sold_message_rejects_missing_parts() {
    assert_eq!(parse_sold_message("[Auction] Steve sold Aspect of the End for 1 coins"), None);
    assert_eq!(parse_sold_message("Steve bought Aspect of the End for 1 coins"), None);
    assert_eq!(parse_sold_message("[Auction] Steve bought Aspect for -1 coins"), None);
}

#[test]
fn viewauction_uuid_plain_and_json() {
    assert_eq!(
        extract_viewauction_uuid("Click /viewauction 1234-abcd to view"),
        Some("1234-abcd".to_string())
    );
    assert_eq!(
        extract_viewauction_uuid("{\"value\":\"/viewauction 99ff\"}"),
        Some("99ff".to_string())
    );
    assert_eq!(extract_viewauction_uuid("/viewauction  x"), None);
    assert_eq!(extract_viewauction_uuid("no command here"), None);
}

#[test]
fn claimed_sold_event_from_lore_reads_price_and_buyer() {
    let lore = vec![
        "Status: Sold!".to_string(),
        "Sold for: 1,500 coins".to_string(),
        "Buyer: Alex".to_string(),
    ];
    assert_eq!(
        parse_claimed_sold_event_from_lore("Hyperion", &lore),
        Some(("Hyperion".to_string(), 1500, "Alex".to_string()))
    );
}

#[test]
fn claimed_sold_event_from_lore_unknown_buyer() {
    let lore = vec!["SOLD FOR 42 coins".to_string()];
    assert_eq!(
        parse_claimed_sold_event_from_lore("Stick", &lore),
        Some(("Stick".to_string(), 42, "Unknown".to_string()))
    );
}

#[test]
fn claimed_sold_event_from_lore_rejects_unsold() {
    let lore = vec!["Status: Active".to_string(), "Buy it now: 5 coins".to_string()];
    assert_eq!(parse_claimed_sold_event_from_lore("Stick", &lore), None);
    assert_eq!(parse_claimed_sold_event_from_lore("Stick", &[]), None);
}

#[test]
fn sold_event_from_groups_reads_captures() {
    assert_eq!(
        sold_event_from_groups("Stick", Some(" 1,234 ".to_string()), Some("  Steve ".to_string())),
        Some(("Stick".to_string(), 1234, "Steve".to_string()))
    );
    assert_eq!(
        sold_event_from_groups("Stick", Some("7".to_string()), Some("   ".to_string())),
        Some(("Stick".to_string(), 7, "Unknown".to_string()))
    );
    assert_eq!(
        sold_event_from_groups("Stick", Some("7".to_string()), None),
        Some(("Stick".to_string(), 7, "Unknown".to_string()))
    );
    assert_eq!(sold_event_from_groups("Stick", None, Some("Steve".to_string())), None);
    assert_eq!(sold_event_from_groups("Stick", Some(",".to_string()), None), None);
}

#[test]
fn claimed_sold_event_from_lore_buyer_line_is_trimmed() {
    let lore = vec![
        "Status: Sold".to_string(),
        "sold for 9,001 coins".to_string(),
        "buyer:   Notch  ".to_string(),
    ];
    assert_eq!(
        parse_claimed_sold_event_from_lore("Apple", &lore),
        Some(("Apple".to_string(), 9001, "Notch".to_string()))
    );
}
