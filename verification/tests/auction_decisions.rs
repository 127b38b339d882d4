use baf::auction::cancelling::{
    auction_to_cancel, cancel_action, classify_cancel_window, lore_shows_inactive,
    manage_auctions_slot, AuctionSlotInfo, AuctionWindow, CancelAction,
};
use baf::auction::claiming::{
    claim_list_action, classify_claim_purchased_window, classify_claim_sold_window,
    sold_view_claim_slot, won_auction_slot, ClaimListAction, ClaimWindow,
};
use baf::auction::cookie::{
    claim_step, consumed_cookie_hours, cookie_buff_slot, cookie_check, cookie_slot,
    cookie_window_action, hotbar_plan, CookieCheck, CookieWindowAction, HotbarPlan,
};
use baf::auction::purchasing::{
    bed_click_interval_ms, bed_pre_click_wait_ms, bed_turn, classify_purchase_window,
    confirm_purchase_start, next_window_id, plan_view, remaining_until_purchase_ms,
    still_confirming, BedTurn, PurchaseAction, PurchaseWindow, ViewPlan,
};
use baf::auction::selling::{at_auction_limit, plan_selling, select_item_slot, SellAction, SellingWindow};
use baf::steps::{AuctionStep, CookieStep};

fn lines(v: &[&str]) -> Vec<String> {
    v.iter().map(|s| s.to_string()).collect()
}

#[test]
fn purchase_windows() {
    assert_eq!(classify_purchase_window("BIN Auction View"), PurchaseWindow::AuctionView);
    assert_eq!(classify_purchase_window("Auction View"), PurchaseWindow::AuctionView);
    assert_eq!(classify_purchase_window("Confirm Purchase"), PurchaseWindow::ConfirmPurchase);
    assert_eq!(classify_purchase_window("Bazaar"), PurchaseWindow::Other);
}

#[test]
fn slot_31_gate() {
    assert_eq!(plan_view("red_bed", true, 5, true), ViewPlan::BedTiming);
    assert_eq!(
        plan_view("gold_nugget", false, 5, true),
        ViewPlan::Act(vec![PurchaseAction::RawClick { window_id: 5, slot: 31 }])
    );
    assert_eq!(
        plan_view("gold_nugget", true, 255, true),
        ViewPlan::Act(vec![
            PurchaseAction::RawClick { window_id: 255, slot: 31 },
            PurchaseAction::RawClick { window_id: 255, slot: 31 },
            PurchaseAction::MarkSkipClickSent,
            PurchaseAction::RawClick { window_id: 1, slot: 11 },
        ])
    );
    assert_eq!(
        plan_view("feather", true, 5, true),
        ViewPlan::Act(vec![PurchaseAction::SetIdle, PurchaseAction::ClearPurchaseTiming, PurchaseAction::Close])
    );
    assert_eq!(plan_view("feather", true, 5, false), ViewPlan::Wait);
    assert_eq!(plan_view("air", true, 5, true), ViewPlan::Wait);
}

#[test]
fn window_ids_wrap_to_one() {
    assert_eq!(next_window_id(1), 2);
    assert_eq!(next_window_id(254), 255);
    assert_eq!(next_window_id(255), 1);
}

#[test]
fn bed_timing() {
    assert_eq!(bed_click_interval_ms(true, 500), 20);
    assert_eq!(bed_click_interval_ms(false, 0), 1);
    assert_eq!(bed_click_interval_ms(false, 75), 75);
    assert_eq!(remaining_until_purchase_ms(Some(1_000), Some(400)), Some(600));
    assert_eq!(remaining_until_purchase_ms(Some(1_000), Some(1_000)), None);
    assert_eq!(remaining_until_purchase_ms(None, Some(1)), None);
    assert_eq!(bed_pre_click_wait_ms(600, 30), 570);
    assert_eq!(bed_pre_click_wait_ms(20, 30), 0);
    assert_eq!(bed_turn("red_bed", true, true, true, 0), BedTurn::Abandon);
    assert_eq!(bed_turn("air", false, true, true, 0), BedTurn::Abandon);
    assert_eq!(bed_turn("gold_nugget", false, false, false, 3), BedTurn::Buy { click: false });
    assert_eq!(bed_turn("potato", false, false, true, 0), BedTurn::Abandon);
    assert_eq!(bed_turn("red_bed", false, true, true, 0), BedTurn::Continue { click: true });
    assert_eq!(bed_turn("red_bed", false, false, true, 0), BedTurn::Continue { click: false });
    assert_eq!(bed_turn("feather", false, false, true, 3), BedTurn::Unexpected { failed_clicks: 4 });
    assert_eq!(bed_turn("feather", false, false, true, 4), BedTurn::Abandon);
}

#[test]
fn confirm_purchase() {
    assert_eq!(confirm_purchase_start(true), (false, 100));
    assert_eq!(confirm_purchase_start(false), (true, 50));
    assert!(still_confirming(Some("Confirm Purchase")));
    assert!(!still_confirming(Some("Auction House")));
    assert!(!still_confirming(None));
}

fn selling_window(title: &str, step: AuctionStep) -> SellingWindow {
    SellingWindow {
        title: title.to_string(),
        step,
        aborted: false,
        item_slot: Some(12),
        player_start: 54,
        occupied: vec![true; 90],
        item_by_name: Some(70),
        create_auction: Some(24),
        create_auction_lore: lines(&["Click to create"]),
    }
}

#[test]
fn selling_item_slot_selection() {
    let occ = vec![false; 90];
    assert_eq!(select_item_slot(Some(12), 54, &vec![true; 90], Some(70)), Some(57));
    assert_eq!(select_item_slot(Some(12), 54, &occ, Some(70)), Some(70));
    assert_eq!(select_item_slot(Some(5), 54, &vec![true; 90], Some(70)), Some(70));
    assert_eq!(select_item_slot(Some(44), 54, &vec![true; 80], None), None);
    assert_eq!(select_item_slot(None, 54, &vec![true; 90], None), None);
}

#[test]
fn selling_flow_windows() {
    let w = selling_window("Auction House", AuctionStep::Initial);
    assert_eq!(
        plan_selling(&w),
        vec![SellAction::SetStep(AuctionStep::OpenManage), SellAction::Pause(200), SellAction::Click(15)]
    );
    let w = selling_window("Manage Auctions", AuctionStep::OpenManage);
    assert_eq!(
        plan_selling(&w),
        vec![SellAction::SetStep(AuctionStep::ClickCreate), SellAction::Pause(200), SellAction::Click(24)]
    );
    let mut w = selling_window("Manage Auctions", AuctionStep::OpenManage);
    w.create_auction_lore = lines(&["You reached the Maximum", "of auctions"]);
    assert_eq!(plan_selling(&w), vec![SellAction::SetAtLimit, SellAction::Close, SellAction::SetIdle]);
    let w = selling_window("Create BIN Auction", AuctionStep::SelectBIN);
    assert_eq!(
        plan_selling(&w),
        vec![
            SellAction::ClearPreviewSlot,
            SellAction::Pause(200),
            SellAction::Click(57),
            SellAction::Pause(300),
            SellAction::SetStep(AuctionStep::PriceSign),
            SellAction::ClickCarrying { slot: 31, item_slot: 57 },
        ]
    );
    let mut w = selling_window("Create BIN Auction", AuctionStep::OpenManage);
    w.item_slot = None;
    w.item_by_name = None;
    assert_eq!(plan_selling(&w), vec![SellAction::Close, SellAction::SetIdle]);
    let w = selling_window("Create Auction", AuctionStep::ClickCreate);
    assert_eq!(
        plan_selling(&w),
        vec![SellAction::SetStep(AuctionStep::SelectBIN), SellAction::Pause(200), SellAction::Click(48)]
    );
    let w = selling_window("Auction Duration", AuctionStep::DurationSign);
    assert_eq!(plan_selling(&w), vec![SellAction::Pause(200), SellAction::Click(16)]);
    let w = selling_window("Confirm BIN Auction", AuctionStep::FinalConfirm);
    assert_eq!(plan_selling(&w).last(), Some(&SellAction::SetIdle));
    let w = selling_window("Create BIN Auction", AuctionStep::PriceSign);
    assert_eq!(plan_selling(&w), vec![]);
}

#[test]
fn aborted_sale_only_closes() {
    let mut w = selling_window("Confirm BIN Auction", AuctionStep::FinalConfirm);
    w.aborted = true;
    assert_eq!(plan_selling(&w), vec![SellAction::Close]);
    assert!(at_auction_limit(&lines(&["limit reached"])));
    assert!(!at_auction_limit(&lines(&["Create a new auction"])));
}

#[test]
fn cancelling_flow() {
    assert_eq!(classify_cancel_window("Auction House", false), AuctionWindow::AuctionHouse);
    assert_eq!(classify_cancel_window("Manage Auctions", true), AuctionWindow::MyAuctions);
    assert_eq!(classify_cancel_window("BIN Auction View", false), AuctionWindow::AuctionView);
    assert_eq!(classify_cancel_window("Confirm Cancel", false), AuctionWindow::Confirm);
    assert_eq!(manage_auctions_slot(None, Some(14)), 14);
    assert_eq!(manage_auctions_slot(None, None), 15);
    assert_eq!(cancel_action(AuctionWindow::Confirm, 15, None), CancelAction::ConfirmAndReport(11));
    assert_eq!(cancel_action(AuctionWindow::MyAuctions, 15, None), CancelAction::CloseAndIdle);
    assert_eq!(cancel_action(AuctionWindow::AuctionView, 15, Some(33)), CancelAction::Click(33));
    assert_eq!(cancel_action(AuctionWindow::AuctionHouse, 12, None), CancelAction::Click(12));
}

#[test]
fn auction_to_cancel_matches_name_price_and_status() {
    let slots = vec![
        AuctionSlotInfo { empty: true, clean_name: None, lore: vec![], price: None },
        AuctionSlotInfo {
            empty: false,
            clean_name: Some("Hyperion".to_string()),
            lore: lines(&["Status: Sold!"]),
            price: Some(100),
        },
        AuctionSlotInfo {
            empty: false,
            clean_name: Some("Hyperion".to_string()),
            lore: lines(&["Buy it now: 90"]),
            price: Some(90),
        },
        AuctionSlotInfo {
            empty: false,
            clean_name: Some("Shiny HYPERION".to_string()),
            lore: lines(&["Ends in 5h"]),
            price: Some(100),
        },
    ];
    assert_eq!(auction_to_cancel(&slots, "hyperion", 100), Some(3));
    assert_eq!(auction_to_cancel(&slots, "Hyperion", 90), Some(2));
    assert_eq!(auction_to_cancel(&slots, "Terminator", 90), None);
    assert!(lore_shows_inactive(&lines(&["This auction has", "EXPIRED"])));
    assert!(!lore_shows_inactive(&lines(&["Ends in 5h"])));
}

#[test]
fn claiming_flows() {
    assert_eq!(classify_claim_purchased_window("Your Bids"), ClaimWindow::ClaimList);
    assert_eq!(classify_claim_purchased_window("Auction House"), ClaimWindow::AuctionHouse);
    assert_eq!(classify_claim_sold_window("My Auctions", true), ClaimWindow::ClaimList);
    assert_eq!(classify_claim_sold_window("Auction View", false), ClaimWindow::AuctionView);
    assert_eq!(claim_list_action(Some(3), Some(4)), ClaimListAction::ClaimAll(3));
    assert_eq!(claim_list_action(None, Some(4)), ClaimListAction::OpenItem(4));
    assert_eq!(claim_list_action(None, None), ClaimListAction::CloseAndIdle);
    assert_eq!(sold_view_claim_slot("Click to Claim", Some(20)), 31);
    assert_eq!(sold_view_claim_slot("Barrier", Some(20)), 20);
    assert_eq!(sold_view_claim_slot("Barrier", None), 31);
    let lores = vec![lines(&["Status: Active"]), lines(&["Bid", "STATUS: SOLD!"])];
    assert_eq!(won_auction_slot(&lores), Some(1));
    assert_eq!(won_auction_slot(&vec![lines(&["sold out"])]), None);
}

#[test]
fn cookie_check_decisions() {
    assert_eq!(cookie_check(None, 24, Some(1)), CookieCheck::NotFound);
    assert_eq!(cookie_check(Some(48 * 3600), 24, None), CookieCheck::Sufficient { hours: 48 });
    assert_eq!(cookie_check(Some(3600), 24, None), CookieCheck::TooPoor { hours: 1, purse_millions: 0 });
    assert_eq!(cookie_check(Some(3600), 24, Some(7_499_999)), CookieCheck::TooPoor { hours: 1, purse_millions: 7 });
    assert_eq!(cookie_check(Some(3600), 24, Some(7_500_000)), CookieCheck::Buy { hours: 1 });
    let lores = vec![lines(&["Nothing"]), lines(&["Booster Cookie", "Duration: 3d 4h"])];
    assert_eq!(cookie_buff_slot(&lores), Some(1));
    assert_eq!(cookie_buff_slot(&vec![lines(&["x"])]), None);
}

#[test]
fn cookie_buying_flow() {
    assert_eq!(cookie_window_action(CookieStep::Initial, "Bazaar"), CookieWindowAction::ClickItem);
    assert_eq!(cookie_window_action(CookieStep::Initial, "Chest"), CookieWindowAction::Nothing);
    assert_eq!(cookie_window_action(CookieStep::ItemDetail, "x"), CookieWindowAction::ClickBuyInstantly);
    assert_eq!(cookie_window_action(CookieStep::BuyConfirm, "x"), CookieWindowAction::ConfirmAndConsume);
    assert_eq!(cookie_window_action(CookieStep::WaitingForCookie, "x"), CookieWindowAction::CloseStray);
    assert_eq!(cookie_window_action(CookieStep::ConsumingCookie, "x"), CookieWindowAction::Consume);
    assert_eq!(
        claim_step(CookieStep::BuyConfirm, CookieStep::BuyConfirm, CookieStep::WaitingForCookie),
        (CookieStep::WaitingForCookie, true)
    );
    assert_eq!(
        claim_step(CookieStep::WaitingForCookie, CookieStep::BuyConfirm, CookieStep::WaitingForCookie),
        (CookieStep::WaitingForCookie, false)
    );
    let names = vec![None, Some("Diamond".to_string()), Some("§6Booster Cookie".to_string())];
    assert_eq!(cookie_slot(&names), Some(2));
    assert_eq!(cookie_slot(&vec![Some("COOKIE".to_string())]), Some(0));
    assert_eq!(cookie_slot(&vec![None]), None);
    assert_eq!(hotbar_plan(30, 54), HotbarPlan::Select(3));
    assert_eq!(hotbar_plan(4, 9), HotbarPlan::MoveThenSelect { from: 13 });
    assert_eq!(consumed_cookie_hours(3600 * 10 + 5), (10, 106));
}
