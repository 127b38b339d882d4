use baf::bazaar::insta_sell::{insta_sell_actions, insta_sell_search, InstaSellAction, InstaSellSearch};
use baf::bazaar::manage_orders::{
    action_outcome_effects, cancel_button, choose_order, classify_manage_orders_window,
    collect_button, inventory_still_full, manage_orders_slot, options_click,
    options_finish_effects, order_options_mode, order_options_opened, orders_list_effects,
    skip_buy_order_while_full, orders_of, ListOutcome, OrderSlotReading, ManageEffect, ManageOrdersWindow, OptionButtons,
    OptionsAction, OptionsClick, OptionsMode, OrderClickResponse, OrderSlot,
};
use baf::bazaar::order_placement::{
    is_search_results, jitter_ms, looks_for_order_button, order_button_turn, order_placed,
    screen_turn, PollTurn, ScreenAction,
};
use baf::bazaar::sell_inventory::{sell_inventory_action, SellInventoryAction};
use baf::steps::{BazaarStep, InstaSellStep, SellInventoryStep};

fn order(slot: usize, is_buy: bool, claimable: bool, stale: bool) -> OrderSlot {
    OrderSlot { slot, is_buy, claimable, stale }
}

#[test]
fn manage_orders_windows_are_classified() {
    assert_eq!(classify_manage_orders_window("Bazaar ➜ Farming", false), ManageOrdersWindow::BazaarPage);
    assert_eq!(classify_manage_orders_window("Your Bazaar Orders", true), ManageOrdersWindow::OrdersList);
    assert_eq!(classify_manage_orders_window("Order Options", false), ManageOrdersWindow::OrderOptions);
    assert_eq!(classify_manage_orders_window("Chest", false), ManageOrdersWindow::Unexpected);
    assert_eq!(manage_orders_slot(Some(49)), 49);
    assert_eq!(manage_orders_slot(None), 50);
}

#[test]
fn collect_mode_prefers_claimable_sell_offers() {
    let orders = vec![
        order(10, true, true, false),
        order(11, false, false, true),
        order(12, false, true, false),
    ];
    assert_eq!(choose_order(&orders, false, false), Some(2));
}

#[test]
fn collect_mode_skips_claimable_buys_while_full() {
    let orders = vec![order(10, true, true, false), order(11, true, false, true)];
    assert_eq!(choose_order(&orders, false, false), Some(0));
    assert_eq!(choose_order(&orders, false, true), Some(1));
    let only_claimable_buy = vec![order(10, true, true, false)];
    assert_eq!(choose_order(&only_claimable_buy, false, true), None);
}

#[test]
fn collect_mode_leaves_open_fresh_orders_alone() {
    let orders = vec![order(10, false, false, false), order(11, true, false, false)];
    assert_eq!(choose_order(&orders, false, false), None);
}

#[test]
fn cancel_mode_takes_sell_offers_first() {
    let orders = vec![order(10, true, false, false), order(11, false, false, false)];
    assert_eq!(choose_order(&orders, true, true), Some(1));
    let buys = vec![order(10, true, true, false)];
    assert_eq!(choose_order(&buys, true, false), Some(0));
    assert_eq!(choose_order(&vec![], true, false), None);
}

#[test]
fn inventory_full_rechecks_free_slots() {
    assert!(inventory_still_full(true, 1));
    assert!(!inventory_still_full(true, 2));
    assert!(!inventory_still_full(false, 0));
    assert!(skip_buy_order_while_full(true, false, true, 0));
    assert!(!skip_buy_order_while_full(true, true, true, 0));
    assert!(!skip_buy_order_while_full(false, false, true, 0));
}

#[test]
fn order_click_response_tells_options_from_collection() {
    assert!(order_options_opened(&OrderClickResponse::WindowChanged(None)));
    assert!(order_options_opened(&OrderClickResponse::WindowChanged(Some("Order options".to_string()))));
    assert!(!order_options_opened(&OrderClickResponse::WindowChanged(Some("Your Bazaar Orders".to_string()))));
    assert!(!order_options_opened(&OrderClickResponse::TimedOut));
    assert!(!order_options_opened(&OrderClickResponse::InventoryFull));
}

#[test]
fn orders_list_effects_follow_the_outcome() {
    assert_eq!(
        orders_list_effects(ListOutcome::NoOrder, 0, false),
        vec![ManageEffect::Close, ManageEffect::ClearDeadline, ManageEffect::ClearAtLimit, ManageEffect::SetIdle]
    );
    assert_eq!(
        orders_list_effects(ListOutcome::Clicked { options_opened: true }, 3, false),
        vec![ManageEffect::CloseIfCurrent]
    );
    let direct = orders_list_effects(ListOutcome::Clicked { options_opened: false }, 3, false);
    assert_eq!(direct.first(), Some(&ManageEffect::EmitCollected));
    assert_eq!(direct.last(), Some(&ManageEffect::Requeue));
    let single = orders_list_effects(ListOutcome::Clicked { options_opened: false }, 1, false);
    assert_eq!(single.last(), Some(&ManageEffect::SetIdle));
    let skipped = orders_list_effects(ListOutcome::SkippedFull, 2, true);
    assert_eq!(skipped[0], ManageEffect::LogPendingClaim);
}

#[test]
fn order_options_modes() {
    assert_eq!(order_options_mode(false, true, true, false, 0), OptionsMode::AlreadyProcessed);
    assert_eq!(order_options_mode(true, true, true, false, 0), OptionsMode::CancelOrCollect { due_to_age: false });
    assert_eq!(order_options_mode(false, false, true, false, 5), OptionsMode::GiveUp);
    assert_eq!(order_options_mode(false, false, false, true, 5), OptionsMode::GiveUp);
    assert_eq!(order_options_mode(false, false, false, false, 9), OptionsMode::CollectOnly);
    assert_eq!(order_options_mode(false, false, false, true, 4), OptionsMode::CancelOrCollect { due_to_age: true });
}

#[test]
fn order_options_buttons_and_clicks() {
    let b = OptionButtons {
        collect_by_name: None,
        claim_by_name: Some(13),
        collect_by_lore: Some(14),
        claim_by_lore: None,
        cancel_by_name: None,
        cancel_by_lore: None,
        cancel_order_by_lore: Some(15),
    };
    assert_eq!(collect_button(&b), Some(13));
    assert_eq!(cancel_button(&b), Some(15));
    let cancel_mode = OptionsMode::CancelOrCollect { due_to_age: false };
    assert_eq!(options_click(cancel_mode, Some(13), Some(15)), OptionsClick::Collect { slot: 13, then_cancel: true });
    assert_eq!(options_click(cancel_mode, None, Some(15)), OptionsClick::Cancel { slot: 15 });
    assert_eq!(options_click(OptionsMode::CollectOnly, None, Some(15)), OptionsClick::Nothing);
    assert_eq!(options_click(OptionsMode::GiveUp, Some(13), Some(15)), OptionsClick::Nothing);
}

#[test]
fn action_outcomes_count_failures_and_report() {
    assert_eq!(action_outcome_effects(OptionsAction::Collect, true, true), vec![ManageEffect::EmitCollected]);
    assert_eq!(action_outcome_effects(OptionsAction::Collect, true, false), vec![]);
    assert_eq!(
        action_outcome_effects(OptionsAction::Cancel { already_collected: true }, true, true),
        vec![
            ManageEffect::CountCancelled,
            ManageEffect::ResetCancelFailures,
            ManageEffect::EmitCancelled { already_collected: true }
        ]
    );
    assert_eq!(
        action_outcome_effects(OptionsAction::Cancel { already_collected: false }, false, true),
        vec![ManageEffect::CountCancelFailure]
    );
}

#[test]
fn options_finish_always_goes_idle() {
    for mode in [
        OptionsMode::AlreadyProcessed,
        OptionsMode::GiveUp,
        OptionsMode::CollectOnly,
        OptionsMode::CancelOrCollect { due_to_age: true },
    ] {
        let e = options_finish_effects(mode, false, true, false);
        assert!(e.contains(&ManageEffect::SetIdle));
        assert!(e.contains(&ManageEffect::ClearDeadline));
    }
    assert_eq!(
        options_finish_effects(OptionsMode::CollectOnly, true, false, false),
        vec![ManageEffect::CloseIfCurrent, ManageEffect::ClearDeadline, ManageEffect::SetIdle]
    );
}

#[test]
fn order_button_poll() {
    assert_eq!(order_button_turn("Hyperion", true, Some(15), Some(16), false, false, false), PollTurn::Found(15));
    assert_eq!(order_button_turn("Hyperion", false, Some(15), Some(16), false, false, false), PollTurn::Found(16));
    assert_eq!(order_button_turn("Bazaar ➜ x", true, None, None, false, false, false), PollTurn::Stop);
    assert_eq!(order_button_turn("Hyperion", true, None, None, true, false, false), PollTurn::Stop);
    assert_eq!(order_button_turn("Hyperion", true, None, None, false, false, true), PollTurn::Stop);
    assert_eq!(order_button_turn("Hyperion", true, None, None, false, false, false), PollTurn::Again);
    assert!(looks_for_order_button(BazaarStep::Initial));
    assert!(!looks_for_order_button(BazaarStep::SetPrice));
    assert!(is_search_results("Bazaar ➜ \"Hyperion\"", BazaarStep::Initial));
    assert!(!is_search_results("Bazaar", BazaarStep::SearchResults));
}

#[test]
fn placement_screens() {
    assert_eq!(screen_turn(true, Some(3), None, BazaarStep::SelectOrderType, false), Some(ScreenAction::Amount(3)));
    assert_eq!(screen_turn(false, Some(3), Some(4), BazaarStep::SelectOrderType, false), Some(ScreenAction::Price(4)));
    assert_eq!(screen_turn(true, None, Some(4), BazaarStep::SetAmount, false), Some(ScreenAction::Price(4)));
    assert_eq!(screen_turn(true, None, None, BazaarStep::SetPrice, true), Some(ScreenAction::Confirm));
    assert_eq!(screen_turn(true, None, None, BazaarStep::SetPrice, false), None);
    assert_eq!(screen_turn(false, Some(3), None, BazaarStep::SelectOrderType, false), None);
    assert_eq!(screen_turn(true, None, None, BazaarStep::Confirm, true), Some(ScreenAction::Nothing));
    assert!(order_placed(false, false));
    assert!(!order_placed(true, false));
    assert!(!order_placed(false, true));
    assert_eq!(jitter_ms(200, 300, 1_234_567), 200 + 1_234_567 % 300);
    assert!(jitter_ms(300, 400, u32::MAX) < 700);
}

#[test]
fn insta_sell_flow() {
    assert_eq!(insta_sell_search(InstaSellStep::FindItem, "Bazaar ➜ x"), InstaSellSearch::Item);
    assert_eq!(insta_sell_search(InstaSellStep::FindItem, "Chest"), InstaSellSearch::Nothing);
    assert_eq!(insta_sell_search(InstaSellStep::WaitConfirm, "Chest"), InstaSellSearch::Confirm);
    assert_eq!(
        insta_sell_actions(InstaSellSearch::Item, Some(20)),
        vec![InstaSellAction::SetStep(InstaSellStep::FindSellButton), InstaSellAction::Click(20)]
    );
    assert_eq!(
        insta_sell_actions(InstaSellSearch::SellButton, None),
        vec![InstaSellAction::Close, InstaSellAction::ResetFlow, InstaSellAction::SetIdle]
    );
    let confirm = insta_sell_actions(InstaSellSearch::Confirm, None);
    assert_eq!(confirm.last(), Some(&InstaSellAction::ResumeManageOrders));
    assert!(!confirm.iter().any(|a| matches!(a, InstaSellAction::Click(_))));
}

#[test]
fn sell_inventory_flow() {
    assert_eq!(sell_inventory_action(SellInventoryStep::Initial, "Bazaar", None), SellInventoryAction::OpenSell(47));
    assert_eq!(sell_inventory_action(SellInventoryStep::Initial, "Bazaar", Some(48)), SellInventoryAction::OpenSell(48));
    assert_eq!(sell_inventory_action(SellInventoryStep::Initial, "Chest", Some(48)), SellInventoryAction::Nothing);
    assert_eq!(sell_inventory_action(SellInventoryStep::ConfirmWindow, "Chest", None), SellInventoryAction::Confirm);
}

fn reading(slot: usize, named: bool, processed: bool, is_order: bool, identity_is_buy: Option<bool>, name_says_buy: bool, claimable: bool, due_for_age: bool) -> OrderSlotReading {
    OrderSlotReading { slot, named, processed, is_order, identity_is_buy, name_says_buy, claimable, due_for_age }
}

#[test]
fn orders_are_read_from_named_unhandled_order_slots() {
    let readings = vec![
        reading(0, false, false, false, None, false, false, false),
        reading(1, true, false, true, Some(false), true, true, true),
        reading(2, true, true, true, Some(true), true, false, true),
        reading(3, true, false, false, None, true, false, false),
        reading(4, true, false, true, None, true, false, true),
    ];
    assert_eq!(orders_of(&readings, false), vec![order(1, false, true, false), order(4, true, false, true)]);
    assert_eq!(orders_of(&readings, true), vec![order(1, false, true, false), order(4, true, false, false)]);
}
