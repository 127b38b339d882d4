//! Decisions of the Manage Orders flow: collect filled bazaar orders and, in
//! cancel mode or for stale orders, cancel open ones — one order per cycle.
//!
//! The caller reads the window, clicks, waits and records; these functions
//! decide which window it is, which order to take, and what follows each
//! outcome.

use vstd::prelude::*;
use crate::constants::{MANAGE_ORDERS_FALLBACK_SLOT, MAX_CANCEL_RETRIES, MIN_FREE_SLOTS_FOR_BUY};
use crate::gui::{title_contains, title_contains_lowercase};
use crate::text::{lowercase, spec_contains};

verus! {

/// The windows that the Manage Orders flow meets.
#[derive(Debug, Clone, Copy, PartialEq, Eq, Structural)]
pub enum ManageOrdersWindow {
    /// A bazaar page: the "Manage Orders" button is clicked.
    BazaarPage,
    /// The list of the player's orders.
    OrdersList,
    /// "Order options" of one open order.
    OrderOptions,
    /// Anything else: the flow closes it and re-opens the bazaar.
    Unexpected,
}

/// Which window `title` is; `is_orders_title` tells whether it is the orders list.
pub open spec fn spec_manage_orders_window(title: Seq<char>, is_orders_title: bool) -> ManageOrdersWindow {
    if spec_contains(title, "Bazaar"@) && !is_orders_title {
        ManageOrdersWindow::BazaarPage
    } else if is_orders_title {
        ManageOrdersWindow::OrdersList
    } else if spec_contains(lowercase(title), "order options"@) {
        ManageOrdersWindow::OrderOptions
    } else {
        ManageOrdersWindow::Unexpected
    }
}

/// Which window of the flow has opened.
pub fn classify_manage_orders_window(title: &str, is_orders_title: bool) -> (w: ManageOrdersWindow)
    ensures
        w == spec_manage_orders_window(title@, is_orders_title),
{
    if title_contains(title, "Bazaar") && !is_orders_title {
        ManageOrdersWindow::BazaarPage
    } else if is_orders_title {
        ManageOrdersWindow::OrdersList
    } else if title_contains_lowercase(title, "order options") {
        ManageOrdersWindow::OrderOptions
    } else {
        ManageOrdersWindow::Unexpected
    }
}

/// The slot of "Manage Orders" on a bazaar page: where it was found, else the fallback.
pub fn manage_orders_slot(found: Option<usize>) -> (r: usize)
    ensures
        r == match found {
            Some(i) => i,
            None => MANAGE_ORDERS_FALLBACK_SLOT,
        },
{
    match found {
        Some(i) => i,
        None => MANAGE_ORDERS_FALLBACK_SLOT,
    }
}

/// One order of the orders list, as read from its slot.
#[derive(Debug, Clone, Copy, PartialEq, Eq)]
pub struct OrderSlot {
    /// The window slot that shows the order.
    pub slot: usize,
    /// A buy order (else a sell offer).
    pub is_buy: bool,
    /// Its lore shows something to collect.
    pub claimable: bool,
    /// It has stood open longer than the age threshold allows.
    pub stale: bool,
}

/// What the caller reads of one slot of the orders list.
#[derive(Debug, Clone, Copy, PartialEq, Eq)]
pub struct OrderSlotReading {
    /// The window slot.
    pub slot: usize,
    /// The slot's item has a display name.
    pub named: bool,
    /// That name (normalized) was already handled in this round.
    pub processed: bool,
    /// The name and lore show a bazaar order.
    pub is_order: bool,
    /// The side that the order's lore names, if it names one (`true` for buy).
    pub identity_is_buy: Option<bool>,
    /// The side that the display name suggests (`true` for buy).
    pub name_says_buy: bool,
    /// The lore shows something to collect.
    pub claimable: bool,
    /// The order is old enough to cancel by the age threshold.
    pub due_for_age: bool,
}

/// The order that a reading shows: the lore's side, else the name's; stale
/// only in collect-only mode, where an open order is due for cancelling.
pub open spec fn reading_order(r: OrderSlotReading, cancel_open: bool) -> OrderSlot {
    OrderSlot {
        slot: r.slot,
        is_buy: match r.identity_is_buy {
            Some(b) => b,
            None => r.name_says_buy,
        },
        claimable: r.claimable,
        stale: !cancel_open && !r.claimable && r.due_for_age,
    }
}

/// The orders of the list, in slot order: every named slot not yet handled
/// that shows an order.
pub open spec fn spec_orders_of(readings: Seq<OrderSlotReading>, cancel_open: bool) -> Seq<OrderSlot>
    decreases readings.len(),
{
    if readings.len() == 0 {
        Seq::empty()
    } else {
        let before = spec_orders_of(readings.drop_last(), cancel_open);
        let r = readings.last();
        if r.named && !r.processed && r.is_order {
            before.push(reading_order(r, cancel_open))
        } else {
            before
        }
    }
}

/// The orders that the slots of the orders list show.
pub fn orders_of(readings: &Vec<OrderSlotReading>, cancel_open: bool) -> (r: Vec<OrderSlot>)
    ensures
        r@ == spec_orders_of(readings@, cancel_open),
{
    let mut r: Vec<OrderSlot> = Vec::new();
    let mut i: usize = 0;
    while i < readings.len()
        invariant
            i <= readings.len(),
            r@ == spec_orders_of(readings@.take(i as int), cancel_open),
        decreases readings.len() - i,
    {
        let x = readings[i];
        assert(readings@.take(i + 1).drop_last() =~= readings@.take(i as int));
        assert(readings@.take(i + 1).last() == x);
        if x.named && !x.processed && x.is_order {
            let is_buy = match x.identity_is_buy {
                Some(b) => b,
                None => x.name_says_buy,
            };
            r.push(OrderSlot {
                slot: x.slot,
                is_buy,
                claimable: x.claimable,
                stale: !cancel_open && !x.claimable && x.due_for_age,
            });
        }
        i = i + 1;
    }
    assert(readings@.take(readings.len() as int) =~= readings@);
    r
}

/// Which orders a search accepts.
#[derive(Debug, Clone, Copy, PartialEq, Eq, Structural)]
pub enum OrderFilter {
    /// Orders with something to collect.
    Claimable,
    /// Orders with nothing to collect that are stale.
    StaleOpen,
    /// Every order.
    Any,
}

/// `o` is of the side `want_buy` and passes `filter`.
pub open spec fn order_matches(o: OrderSlot, want_buy: bool, filter: OrderFilter) -> bool {
    &&& o.is_buy == want_buy
    &&& match filter {
        OrderFilter::Claimable => o.claimable,
        OrderFilter::StaleOpen => !o.claimable && o.stale,
        OrderFilter::Any => true,
    }
}

/// The first index at or after `k` of an order that matches.
pub open spec fn first_match_from(
    orders: Seq<OrderSlot>,
    want_buy: bool,
    filter: OrderFilter,
    k: int,
) -> Option<int>
    decreases orders.len() - k,
{
    if k < 0 || k >= orders.len() {
        None
    } else if order_matches(orders[k], want_buy, filter) {
        Some(k)
    } else {
        first_match_from(orders, want_buy, filter, k + 1)
    }
}

/// `a` where it holds a value, else `b`.
pub open spec fn or_else(a: Option<int>, b: Option<int>) -> Option<int> {
    if a is Some {
        a
    } else {
        b
    }
}

/// The order to handle this cycle, as an index into `orders` (in slot order).
///
/// In cancel mode: the first sell offer, else the first buy order. Otherwise:
/// the first claimable sell offer, then (unless the inventory is full) the
/// first claimable buy order, then the first stale open sell offer, then the
/// first stale open buy order.
pub open spec fn spec_choose_order(orders: Seq<OrderSlot>, cancel_open: bool, inventory_full: bool) -> Option<int> {
    if cancel_open {
        or_else(
            first_match_from(orders, false, OrderFilter::Any, 0),
            first_match_from(orders, true, OrderFilter::Any, 0),
        )
    } else {
        or_else(
            first_match_from(orders, false, OrderFilter::Claimable, 0),
            or_else(
                if inventory_full {
                    None
                } else {
                    first_match_from(orders, true, OrderFilter::Claimable, 0)
                },
                or_else(
                    first_match_from(orders, false, OrderFilter::StaleOpen, 0),
                    first_match_from(orders, true, OrderFilter::StaleOpen, 0),
                ),
            ),
        )
    }
}

/// The first order that matches.
fn first_match(orders: &Vec<OrderSlot>, want_buy: bool, filter: OrderFilter) -> (r: Option<usize>)
    ensures
        match r {
            Some(i) => first_match_from(orders@, want_buy, filter, 0) == Some(i as int),
            None => first_match_from(orders@, want_buy, filter, 0) is None,
        },
{
    let mut k: usize = 0;
    while k < orders.len()
        invariant
            k <= orders.len(),
            first_match_from(orders@, want_buy, filter, 0) == first_match_from(
                orders@,
                want_buy,
                filter,
                k as int,
            ),
        decreases orders.len() - k,
    {
        let o = orders[k];
        let ok = o.is_buy == want_buy && match filter {
            OrderFilter::Claimable => o.claimable,
            OrderFilter::StaleOpen => !o.claimable && o.stale,
            OrderFilter::Any => true,
        };
        if ok {
            return Some(k);
        }
        k = k + 1;
    }
    None
}

/// `a` where it holds a value, else `b`.
fn or_else_exec(a: Option<usize>, b: Option<usize>) -> (r: Option<usize>)
    ensures
        match r {
            Some(i) => or_else(
                match a {
                    Some(x) => Some(x as int),
                    None => None,
                },
                match b {
                    Some(x) => Some(x as int),
                    None => None,
                },
            ) == Some(i as int),
            None => a is None && b is None,
        },
{
    if a.is_some() {
        a
    } else {
        b
    }
}

/// Chooses the order to handle this cycle (see [`spec_choose_order`]).
pub fn choose_order(orders: &Vec<OrderSlot>, cancel_open: bool, inventory_full: bool) -> (r: Option<usize>)
    ensures
        match r {
            Some(i) => spec_choose_order(orders@, cancel_open, inventory_full) == Some(i as int)
                && i < orders@.len(),
            None => spec_choose_order(orders@, cancel_open, inventory_full) is None,
        },
{
    proof {
        lemma_first_match_in_range(orders@, false, OrderFilter::Any, 0);
        lemma_first_match_in_range(orders@, true, OrderFilter::Any, 0);
        lemma_first_match_in_range(orders@, false, OrderFilter::Claimable, 0);
        lemma_first_match_in_range(orders@, true, OrderFilter::Claimable, 0);
        lemma_first_match_in_range(orders@, false, OrderFilter::StaleOpen, 0);
        lemma_first_match_in_range(orders@, true, OrderFilter::StaleOpen, 0);
    }
    if cancel_open {
        let sell = first_match(orders, false, OrderFilter::Any);
        let buy = first_match(orders, true, OrderFilter::Any);
        or_else_exec(sell, buy)
    } else {
        let sell_claim = first_match(orders, false, OrderFilter::Claimable);
        let buy_claim = if inventory_full {
            None
        } else {
            first_match(orders, true, OrderFilter::Claimable)
        };
        let sell_stale = first_match(orders, false, OrderFilter::StaleOpen);
        let buy_stale = first_match(orders, true, OrderFilter::StaleOpen);
        let stale = or_else_exec(sell_stale, buy_stale);
        let rest = or_else_exec(buy_claim, stale);
        or_else_exec(sell_claim, rest)
    }
}

/// What a search finds is an index of a matching order at or after `k`, and
/// no order before it (from `k` on) matches.
pub proof fn lemma_first_match_in_range(orders: Seq<OrderSlot>, want_buy: bool, filter: OrderFilter, k: int)
    requires
        0 <= k,
    ensures
        match first_match_from(orders, want_buy, filter, k) {
            Some(i) => k <= i < orders.len() && order_matches(orders[i], want_buy, filter)
                && forall|j: int| k <= j < i ==> !#[trigger] order_matches(orders[j], want_buy, filter),
            None => forall|j: int| k <= j < orders.len() ==> !#[trigger] order_matches(orders[j], want_buy, filter),
        },
    decreases orders.len() - k,
{
    if k < orders.len() && !order_matches(orders[k], want_buy, filter) {
        lemma_first_match_in_range(orders, want_buy, filter, k + 1);
    }
}

/// The inventory still counts as full: the flag is set and fewer than
/// [`MIN_FREE_SLOTS_FOR_BUY`] player slots are empty. Where the flag is set
/// but enough slots are empty, the caller clears the flag.
pub open spec fn spec_inventory_still_full(full_flag: bool, empty_slots: nat) -> bool {
    full_flag && empty_slots < MIN_FREE_SLOTS_FOR_BUY
}

/// Whether the inventory still counts as full.
pub fn inventory_still_full(full_flag: bool, empty_slots: usize) -> (b: bool)
    ensures
        b == spec_inventory_still_full(full_flag, empty_slots as nat),
{
    full_flag && empty_slots < MIN_FREE_SLOTS_FOR_BUY as usize
}

/// A chosen buy order is skipped (outside cancel mode) while the inventory is full.
pub fn skip_buy_order_while_full(is_buy: bool, cancel_open: bool, full_flag: bool, empty_slots: usize) -> (b: bool)
    ensures
        b == (is_buy && !cancel_open && spec_inventory_still_full(full_flag, empty_slots as nat)),
{
    is_buy && !cancel_open && inventory_still_full(full_flag, empty_slots)
}

/// What the server did after an order of the list was clicked.
#[derive(Debug, Clone, PartialEq, Eq)]
pub enum OrderClickResponse {
    /// A newer window opened, with this title where one is known.
    WindowChanged(Option<String>),
    /// The inventory became full while a buy order was clicked.
    InventoryFull,
    /// Nothing happened before the deadline.
    TimedOut,
}

/// "Order options" opened (the order is open) rather than the order being collected.
pub open spec fn spec_order_options_opened(resp: OrderClickResponse) -> bool {
    match resp {
        OrderClickResponse::WindowChanged(None) => true,
        OrderClickResponse::WindowChanged(Some(t)) => spec_contains(lowercase(t@), "order options"@),
        _ => false,
    }
}

/// Whether "Order options" opened after the click.
pub fn order_options_opened(resp: &OrderClickResponse) -> (b: bool)
    ensures
        b == spec_order_options_opened(*resp),
{
    match resp {
        OrderClickResponse::WindowChanged(None) => true,
        OrderClickResponse::WindowChanged(Some(t)) => title_contains_lowercase(t.as_str(), "order options"),
        _ => false,
    }
}

/// One thing that the flow does to the bot's state or the server.
#[derive(Debug, Clone, Copy, PartialEq, Eq, Structural)]
pub enum ManageEffect {
    /// Close this window.
    Close,
    /// Close this window while it is still the latest one.
    CloseIfCurrent,
    /// Clear the flow's deadline.
    ClearDeadline,
    /// Clear the order-limit flag.
    ClearAtLimit,
    /// Go idle.
    SetIdle,
    /// Record the order as processed for this run.
    MarkProcessed,
    /// Note that a filled buy order waits for inventory space.
    LogPendingClaim,
    /// Report the order as collected.
    EmitCollected,
    /// Report the order as cancelled.
    EmitCancelled { already_collected: bool },
    /// Count one more cancelled order.
    CountCancelled,
    /// Forget the order's failed cancel attempts.
    ResetCancelFailures,
    /// Count one more failed cancel attempt for the order.
    CountCancelFailure,
    /// Queue another Manage Orders run.
    Requeue,
}

/// How the orders list was handled.
#[derive(Debug, Clone, Copy, PartialEq, Eq, Structural)]
pub enum ListOutcome {
    /// No order was chosen.
    NoOrder,
    /// The chosen buy order was skipped: the inventory is full.
    SkippedFull,
    /// The chosen order was clicked; `options_opened` tells whether "Order options" opened.
    Clicked { options_opened: bool },
}

/// What follows the handling of the orders list.
pub open spec fn spec_orders_list_effects(
    outcome: ListOutcome,
    total_orders: nat,
    queue_has_manage_orders: bool,
) -> Seq<ManageEffect> {
    match outcome {
        ListOutcome::NoOrder => seq![
            ManageEffect::Close,
            ManageEffect::ClearDeadline,
            ManageEffect::ClearAtLimit,
            ManageEffect::SetIdle,
        ],
        ListOutcome::SkippedFull => seq![
            ManageEffect::LogPendingClaim,
            ManageEffect::MarkProcessed,
            ManageEffect::Close,
            ManageEffect::ClearDeadline,
            ManageEffect::SetIdle,
        ],
        ListOutcome::Clicked { options_opened } => if options_opened {
            seq![ManageEffect::CloseIfCurrent]
        } else {
            seq![
                ManageEffect::EmitCollected,
                ManageEffect::MarkProcessed,
                ManageEffect::ClearAtLimit,
                ManageEffect::CloseIfCurrent,
                ManageEffect::ClearDeadline,
                ManageEffect::SetIdle,
            ] + if total_orders > 1 && !queue_has_manage_orders {
                seq![ManageEffect::Requeue]
            } else {
                Seq::empty()
            }
        },
    }
}

/// What follows the handling of the orders list.
pub fn orders_list_effects(outcome: ListOutcome, total_orders: usize, queue_has_manage_orders: bool) -> (r: Vec<ManageEffect>)
    ensures
        r@ == spec_orders_list_effects(outcome, total_orders as nat, queue_has_manage_orders),
{
    match outcome {
        ListOutcome::NoOrder => {
            let r = vec![
                ManageEffect::Close,
                ManageEffect::ClearDeadline,
                ManageEffect::ClearAtLimit,
                ManageEffect::SetIdle,
            ];
            assert(r@ =~= spec_orders_list_effects(outcome, total_orders as nat, queue_has_manage_orders));
            r
        },
        ListOutcome::SkippedFull => {
            let r = vec![
                ManageEffect::LogPendingClaim,
                ManageEffect::MarkProcessed,
                ManageEffect::Close,
                ManageEffect::ClearDeadline,
                ManageEffect::SetIdle,
            ];
            assert(r@ =~= spec_orders_list_effects(outcome, total_orders as nat, queue_has_manage_orders));
            r
        },
        ListOutcome::Clicked { options_opened } => {
            if options_opened {
                let r = vec![ManageEffect::CloseIfCurrent];
                assert(r@ =~= spec_orders_list_effects(outcome, total_orders as nat, queue_has_manage_orders));
                r
            } else {
                let mut r = vec![
                    ManageEffect::EmitCollected,
                    ManageEffect::MarkProcessed,
                    ManageEffect::ClearAtLimit,
                    ManageEffect::CloseIfCurrent,
                    ManageEffect::ClearDeadline,
                    ManageEffect::SetIdle,
                ];
                if total_orders > 1 && !queue_has_manage_orders {
                    r.push(ManageEffect::Requeue);
                }
                assert(r@ =~= spec_orders_list_effects(outcome, total_orders as nat, queue_has_manage_orders));
                r
            }
        },
    }
}

/// How an "Order options" window is handled.
#[derive(Debug, Clone, Copy, PartialEq, Eq, Structural)]
pub enum OptionsMode {
    /// The order was already handled this run: close and go idle.
    AlreadyProcessed,
    /// Cancelling it failed too often: give up on it.
    GiveUp,
    /// Collect-only mode and the order is not stale: collect a partial fill, if any.
    CollectOnly,
    /// Cancel mode, or a stale order: collect, then cancel.
    CancelOrCollect { due_to_age: bool },
}

/// How an "Order options" window is handled, from the order's name key
/// (empty or not; already processed or not), the mode, whether the order is
/// stale, and how many cancel attempts on it failed before.
pub open spec fn spec_order_options_mode(
    key_empty: bool,
    key_processed: bool,
    cancel_open: bool,
    stale: bool,
    prior_failures: u32,
) -> OptionsMode {
    let due_to_age = !cancel_open && stale;
    if !key_empty && key_processed {
        OptionsMode::AlreadyProcessed
    } else if prior_failures >= MAX_CANCEL_RETRIES && (cancel_open || due_to_age) {
        OptionsMode::GiveUp
    } else if !cancel_open && !due_to_age {
        OptionsMode::CollectOnly
    } else {
        OptionsMode::CancelOrCollect { due_to_age }
    }
}

/// How an "Order options" window is handled.
pub fn order_options_mode(
    key_empty: bool,
    key_processed: bool,
    cancel_open: bool,
    stale: bool,
    prior_failures: u32,
) -> (m: OptionsMode)
    ensures
        m == spec_order_options_mode(key_empty, key_processed, cancel_open, stale, prior_failures),
{
    let due_to_age = !cancel_open && stale;
    if !key_empty && key_processed {
        OptionsMode::AlreadyProcessed
    } else if prior_failures >= MAX_CANCEL_RETRIES && (cancel_open || due_to_age) {
        OptionsMode::GiveUp
    } else if !cancel_open && !due_to_age {
        OptionsMode::CollectOnly
    } else {
        OptionsMode::CancelOrCollect { due_to_age }
    }
}

/// The buttons found in an "Order options" window, each search by itself.
#[derive(Debug, Clone, Copy, PartialEq, Eq)]
pub struct OptionButtons {
    /// A slot named "Collect".
    pub collect_by_name: Option<usize>,
    /// A slot named "Claim".
    pub claim_by_name: Option<usize>,
    /// A slot whose lore holds "click to collect".
    pub collect_by_lore: Option<usize>,
    /// A slot whose lore holds "claim your".
    pub claim_by_lore: Option<usize>,
    /// A slot named "Cancel".
    pub cancel_by_name: Option<usize>,
    /// A slot whose lore holds "click to cancel".
    pub cancel_by_lore: Option<usize>,
    /// A slot whose lore holds "cancel order".
    pub cancel_order_by_lore: Option<usize>,
}

/// The first of the searches that found a slot.
pub open spec fn first_found(a: Option<usize>, b: Option<usize>) -> Option<usize> {
    if a is Some {
        a
    } else {
        b
    }
}

/// The collect button: by name "Collect", then "Claim", then by lore.
pub open spec fn spec_collect_button(b: OptionButtons) -> Option<usize> {
    first_found(
        b.collect_by_name,
        first_found(b.claim_by_name, first_found(b.collect_by_lore, b.claim_by_lore)),
    )
}

/// The cancel button: by name "Cancel", then by lore.
pub open spec fn spec_cancel_button(b: OptionButtons) -> Option<usize> {
    first_found(b.cancel_by_name, first_found(b.cancel_by_lore, b.cancel_order_by_lore))
}

fn first_found_exec(a: Option<usize>, b: Option<usize>) -> (r: Option<usize>)
    ensures
        r == first_found(a, b),
{
    if a.is_some() {
        a
    } else {
        b
    }
}

/// The collect button of an "Order options" window.
pub fn collect_button(b: &OptionButtons) -> (r: Option<usize>)
    ensures
        r == spec_collect_button(*b),
{
    first_found_exec(
        b.collect_by_name,
        first_found_exec(b.claim_by_name, first_found_exec(b.collect_by_lore, b.claim_by_lore)),
    )
}

/// The cancel button of an "Order options" window.
pub fn cancel_button(b: &OptionButtons) -> (r: Option<usize>)
    ensures
        r == spec_cancel_button(*b),
{
    first_found_exec(b.cancel_by_name, first_found_exec(b.cancel_by_lore, b.cancel_order_by_lore))
}

/// The button that the flow clicks in "Order options".
#[derive(Debug, Clone, Copy, PartialEq, Eq, Structural)]
pub enum OptionsClick {
    /// Collect at this slot; in cancel handling, then look for "Cancel" and click it.
    Collect { slot: usize, then_cancel: bool },
    /// Cancel at this slot.
    Cancel { slot: usize },
    /// No button to click.
    Nothing,
}

/// The click in "Order options": collecting comes first; cancelling only
/// where the order is handled for cancellation.
pub open spec fn spec_options_click(mode: OptionsMode, collect: Option<usize>, cancel: Option<usize>) -> OptionsClick {
    match mode {
        OptionsMode::CollectOnly => match collect {
            Some(s) => OptionsClick::Collect { slot: s, then_cancel: false },
            None => OptionsClick::Nothing,
        },
        OptionsMode::CancelOrCollect { .. } => match collect {
            Some(s) => OptionsClick::Collect { slot: s, then_cancel: true },
            None => match cancel {
                Some(s) => OptionsClick::Cancel { slot: s },
                None => OptionsClick::Nothing,
            },
        },
        _ => OptionsClick::Nothing,
    }
}

/// The click in "Order options".
pub fn options_click(mode: OptionsMode, collect: Option<usize>, cancel: Option<usize>) -> (r: OptionsClick)
    ensures
        r == spec_options_click(mode, collect, cancel),
{
    match mode {
        OptionsMode::CollectOnly => match collect {
            Some(s) => OptionsClick::Collect { slot: s, then_cancel: false },
            None => OptionsClick::Nothing,
        },
        OptionsMode::CancelOrCollect { .. } => match collect {
            Some(s) => OptionsClick::Collect { slot: s, then_cancel: true },
            None => match cancel {
                Some(s) => OptionsClick::Cancel { slot: s },
                None => OptionsClick::Nothing,
            },
        },
        _ => OptionsClick::Nothing,
    }
}

/// What a confirmed or unconfirmed action in "Order options" leads to.
#[derive(Debug, Clone, Copy, PartialEq, Eq, Structural)]
pub enum OptionsAction {
    /// Collecting the order.
    Collect,
    /// Cancelling the order, after collecting from it or not.
    Cancel { already_collected: bool },
}

/// What follows an action in "Order options", from whether the server
/// confirmed it and whether the order's context is known.
pub open spec fn spec_action_outcome_effects(action: OptionsAction, confirmed: bool, has_context: bool) -> Seq<ManageEffect> {
    match action {
        OptionsAction::Collect => if confirmed && has_context {
            seq![ManageEffect::EmitCollected]
        } else {
            Seq::empty()
        },
        OptionsAction::Cancel { already_collected } => if confirmed {
            seq![ManageEffect::CountCancelled, ManageEffect::ResetCancelFailures]
                + if has_context {
                seq![ManageEffect::EmitCancelled { already_collected }]
            } else {
                Seq::empty()
            }
        } else {
            seq![ManageEffect::CountCancelFailure]
        },
    }
}

/// What follows an action in "Order options".
pub fn action_outcome_effects(action: OptionsAction, confirmed: bool, has_context: bool) -> (r: Vec<ManageEffect>)
    ensures
        r@ == spec_action_outcome_effects(action, confirmed, has_context),
{
    let mut r: Vec<ManageEffect> = Vec::new();
    match action {
        OptionsAction::Collect => {
            if confirmed && has_context {
                r.push(ManageEffect::EmitCollected);
            }
        },
        OptionsAction::Cancel { already_collected } => {
            if confirmed {
                r.push(ManageEffect::CountCancelled);
                r.push(ManageEffect::ResetCancelFailures);
                if has_context {
                    r.push(ManageEffect::EmitCancelled { already_collected });
                }
            } else {
                r.push(ManageEffect::CountCancelFailure);
            }
        },
    }
    assert(r@ =~= spec_action_outcome_effects(action, confirmed, has_context));
    r
}

/// What ends the handling of an "Order options" window, from the mode, whether
/// the order's name key is empty, whether a collect button was found in
/// collect-only mode, and whether a Manage Orders run is already queued.
pub open spec fn spec_options_finish_effects(
    mode: OptionsMode,
    key_empty: bool,
    collect_found: bool,
    queue_has_manage_orders: bool,
) -> Seq<ManageEffect> {
    let mark = if key_empty {
        Seq::<ManageEffect>::empty()
    } else {
        seq![ManageEffect::MarkProcessed]
    };
    match mode {
        OptionsMode::AlreadyProcessed => seq![
            ManageEffect::Close,
            ManageEffect::ClearDeadline,
            ManageEffect::SetIdle,
        ],
        OptionsMode::GiveUp => mark + seq![
            ManageEffect::CloseIfCurrent,
            ManageEffect::ClearDeadline,
            ManageEffect::ClearAtLimit,
            ManageEffect::SetIdle,
        ],
        OptionsMode::CollectOnly => mark + seq![
            ManageEffect::CloseIfCurrent,
            ManageEffect::ClearDeadline,
            ManageEffect::SetIdle,
        ] + if collect_found && !queue_has_manage_orders {
            seq![ManageEffect::Requeue]
        } else {
            Seq::empty()
        },
        OptionsMode::CancelOrCollect { .. } => mark + seq![
            ManageEffect::CloseIfCurrent,
            ManageEffect::ClearDeadline,
            ManageEffect::ClearAtLimit,
            ManageEffect::SetIdle,
        ] + if !queue_has_manage_orders {
            seq![ManageEffect::Requeue]
        } else {
            Seq::empty()
        },
    }
}

/// What ends the handling of an "Order options" window.
pub fn options_finish_effects(
    mode: OptionsMode,
    key_empty: bool,
    collect_found: bool,
    queue_has_manage_orders: bool,
) -> (r: Vec<ManageEffect>)
    ensures
        r@ == spec_options_finish_effects(mode, key_empty, collect_found, queue_has_manage_orders),
{
    let mut r: Vec<ManageEffect> = Vec::new();
    match mode {
        OptionsMode::AlreadyProcessed => {
            r.push(ManageEffect::Close);
            r.push(ManageEffect::ClearDeadline);
            r.push(ManageEffect::SetIdle);
        },
        OptionsMode::GiveUp => {
            if !key_empty {
                r.push(ManageEffect::MarkProcessed);
            }
            r.push(ManageEffect::CloseIfCurrent);
            r.push(ManageEffect::ClearDeadline);
            r.push(ManageEffect::ClearAtLimit);
            r.push(ManageEffect::SetIdle);
        },
        OptionsMode::CollectOnly => {
            if !key_empty {
                r.push(ManageEffect::MarkProcessed);
            }
            r.push(ManageEffect::CloseIfCurrent);
            r.push(ManageEffect::ClearDeadline);
            r.push(ManageEffect::SetIdle);
            if collect_found && !queue_has_manage_orders {
                r.push(ManageEffect::Requeue);
            }
        },
        OptionsMode::CancelOrCollect { .. } => {
            if !key_empty {
                r.push(ManageEffect::MarkProcessed);
            }
            r.push(ManageEffect::CloseIfCurrent);
            r.push(ManageEffect::ClearDeadline);
            r.push(ManageEffect::ClearAtLimit);
            r.push(ManageEffect::SetIdle);
            if !queue_has_manage_orders {
                r.push(ManageEffect::Requeue);
            }
        },
    }
    assert(r@ =~= spec_options_finish_effects(mode, key_empty, collect_found, queue_has_manage_orders));
    r
}


// ---------------------------------------------------------------------------
// Laws
// ---------------------------------------------------------------------------

/// In collect-only mode only orders with something to do are taken: one
/// with something to collect, or a stale one that is due for cancelling;
/// and while the inventory is full no buy order with items to collect.
pub proof fn law_collect_mode_takes_only_actionable_orders(orders: Seq<OrderSlot>, inventory_full: bool)
    ensures
        match spec_choose_order(orders, false, inventory_full) {
            Some(i) => 0 <= i < orders.len() && (orders[i].claimable || orders[i].stale) && !(
            inventory_full && orders[i].is_buy && orders[i].claimable),
            None => true,
        },
{
    lemma_first_match_in_range(orders, false, OrderFilter::Claimable, 0);
    lemma_first_match_in_range(orders, true, OrderFilter::Claimable, 0);
    lemma_first_match_in_range(orders, false, OrderFilter::StaleOpen, 0);
    lemma_first_match_in_range(orders, true, OrderFilter::StaleOpen, 0);
}

/// In collect-only mode a sell offer with coins to collect comes first: the
/// first such offer is taken before any buy order.
pub proof fn law_claimable_sell_offer_first(orders: Seq<OrderSlot>, inventory_full: bool, j: int)
    requires
        0 <= j < orders.len(),
        !orders[j].is_buy,
        orders[j].claimable,
    ensures
        spec_choose_order(orders, false, inventory_full) is Some,
        ({
            let i = spec_choose_order(orders, false, inventory_full)->0;
            &&& !orders[i].is_buy
            &&& orders[i].claimable
            &&& i <= j
        }),
{
    lemma_first_match_in_range(orders, false, OrderFilter::Claimable, 0);
    assert(order_matches(orders[j], false, OrderFilter::Claimable));
}

/// In cancel mode every order is taken in turn, sell offers first: where a
/// sell offer exists, a sell offer is taken; where any order exists, one is taken.
pub proof fn law_cancel_mode_sell_offers_first(orders: Seq<OrderSlot>, inventory_full: bool)
    ensures
        (exists|j: int| 0 <= j < orders.len() && !#[trigger] orders[j].is_buy) ==> (spec_choose_order(
            orders,
            true,
            inventory_full,
        ) is Some && !orders[spec_choose_order(orders, true, inventory_full)->0].is_buy),
        orders.len() > 0 ==> spec_choose_order(orders, true, inventory_full) is Some,
{
    lemma_first_match_in_range(orders, false, OrderFilter::Any, 0);
    lemma_first_match_in_range(orders, true, OrderFilter::Any, 0);
    if exists|j: int| 0 <= j < orders.len() && !#[trigger] orders[j].is_buy {
        let j = choose|j: int| 0 <= j < orders.len() && !#[trigger] orders[j].is_buy;
        assert(order_matches(orders[j], false, OrderFilter::Any));
    }
    if orders.len() > 0 {
        if !orders[0].is_buy {
            assert(order_matches(orders[0], false, OrderFilter::Any));
        } else {
            assert(order_matches(orders[0], true, OrderFilter::Any));
        }
    }
}

/// In collect-only mode nothing is taken only where no order has something
/// to do: none with something to collect (buy orders counting only while
/// the inventory has room) and none stale.
pub proof fn law_collect_mode_misses_nothing(orders: Seq<OrderSlot>, inventory_full: bool)
    ensures
        spec_choose_order(orders, false, inventory_full) is None <==> (forall|j: int|
            0 <= j < orders.len() ==> {
                let o = #[trigger] orders[j];
                &&& !(o.claimable && (!o.is_buy || !inventory_full))
                &&& !(!o.claimable && o.stale)
            }),
{
    lemma_first_match_in_range(orders, false, OrderFilter::Claimable, 0);
    lemma_first_match_in_range(orders, true, OrderFilter::Claimable, 0);
    lemma_first_match_in_range(orders, false, OrderFilter::StaleOpen, 0);
    lemma_first_match_in_range(orders, true, OrderFilter::StaleOpen, 0);
    if spec_choose_order(orders, false, inventory_full) is None {
        assert forall|j: int| 0 <= j < orders.len() implies {
            let o = #[trigger] orders[j];
            &&& !(o.claimable && (!o.is_buy || !inventory_full))
            &&& !(!o.claimable && o.stale)
        } by {
            let o = orders[j];
            assert(!order_matches(o, false, OrderFilter::Claimable));
            assert(!order_matches(o, false, OrderFilter::StaleOpen));
            assert(!order_matches(o, true, OrderFilter::StaleOpen));
            if !inventory_full {
                assert(!order_matches(o, true, OrderFilter::Claimable));
            }
        }
    }
}

/// An order whose cancelling failed [`MAX_CANCEL_RETRIES`] times is given up
/// where it would be cancelled: no button of its "Order options" is clicked.
pub proof fn law_exhausted_order_is_left_alone(
    key_empty: bool,
    key_processed: bool,
    cancel_open: bool,
    stale: bool,
    prior_failures: u32,
    collect: Option<usize>,
    cancel: Option<usize>,
)
    requires
        prior_failures >= MAX_CANCEL_RETRIES,
        cancel_open || stale,
    ensures
        spec_options_click(
            spec_order_options_mode(key_empty, key_processed, cancel_open, stale, prior_failures),
            collect,
            cancel,
        ) == OptionsClick::Nothing,
{
}

/// One order per cycle: every way in which a cycle ends clears the deadline
/// and goes idle — except where "Order options" opened, whose own handling
/// then ends the cycle.
pub proof fn law_cycle_ends_idle(
    outcome: ListOutcome,
    total_orders: nat,
    queue_has: bool,
    mode: OptionsMode,
    key_empty: bool,
    collect_found: bool,
)
    ensures
        outcome != (ListOutcome::Clicked { options_opened: true }) ==> {
            &&& spec_orders_list_effects(outcome, total_orders, queue_has).contains(ManageEffect::SetIdle)
            &&& spec_orders_list_effects(outcome, total_orders, queue_has).contains(
                ManageEffect::ClearDeadline,
            )
        },
        !spec_orders_list_effects(
            ListOutcome::Clicked { options_opened: true },
            total_orders,
            queue_has,
        ).contains(ManageEffect::SetIdle),
        spec_options_finish_effects(mode, key_empty, collect_found, queue_has).contains(
            ManageEffect::SetIdle,
        ),
        spec_options_finish_effects(mode, key_empty, collect_found, queue_has).contains(
            ManageEffect::ClearDeadline,
        ),
{
    let l = spec_orders_list_effects(outcome, total_orders, queue_has);
    match outcome {
        ListOutcome::NoOrder => {
            assert(l[3] == ManageEffect::SetIdle);
            assert(l[1] == ManageEffect::ClearDeadline);
        },
        ListOutcome::SkippedFull => {
            assert(l[4] == ManageEffect::SetIdle);
            assert(l[3] == ManageEffect::ClearDeadline);
        },
        ListOutcome::Clicked { options_opened } => {
            if !options_opened {
                assert(l[5] == ManageEffect::SetIdle);
                assert(l[4] == ManageEffect::ClearDeadline);
            }
        },
    }
    let one = spec_orders_list_effects(ListOutcome::Clicked { options_opened: true }, total_orders, queue_has);
    assert(one =~= seq![ManageEffect::CloseIfCurrent]);
    let f = spec_options_finish_effects(mode, key_empty, collect_found, queue_has);
    let m: int = if key_empty { 0 } else { 1 };
    match mode {
        OptionsMode::AlreadyProcessed => {
            assert(f[2] == ManageEffect::SetIdle);
            assert(f[1] == ManageEffect::ClearDeadline);
        },
        OptionsMode::GiveUp => {
            assert(f[m + 3] == ManageEffect::SetIdle);
            assert(f[m + 1] == ManageEffect::ClearDeadline);
        },
        OptionsMode::CollectOnly => {
            assert(f[m + 2] == ManageEffect::SetIdle);
            assert(f[m + 1] == ManageEffect::ClearDeadline);
        },
        OptionsMode::CancelOrCollect { .. } => {
            assert(f[m + 3] == ManageEffect::SetIdle);
            assert(f[m + 1] == ManageEffect::ClearDeadline);
        },
    }
}


/// Only cancel mode or a stale order cancels: in collect-only mode the
/// Order options click collects what was found (and nothing else), never
/// cancels, and never cancels after collecting; a cancel after collecting
/// happens exactly in the cancel-or-collect mode, and so does a lone cancel.
pub proof fn law_collect_only_never_cancels(mode: OptionsMode, collect: Option<usize>, cancel: Option<usize>)
    ensures
        ({
            let r = spec_options_click(mode, collect, cancel);
            &&& mode == OptionsMode::CollectOnly ==> match r {
                OptionsClick::Collect { slot, then_cancel } => !then_cancel && collect == Some(slot),
                OptionsClick::Cancel { .. } => false,
                OptionsClick::Nothing => collect is None,
            }
            &&& (r matches OptionsClick::Collect { then_cancel, .. } ==> (then_cancel
                <==> mode is CancelOrCollect))
            &&& (r is Cancel ==> mode is CancelOrCollect && collect is None)
        }),
{
}


/// A click's outcome is recorded as it went: a confirmed cancel counts a
/// cancellation and clears the failures and never counts a failure; an
/// unconfirmed one counts a failure and reports nothing; a collect or cancel
/// is reported only when confirmed and the order is known.
pub proof fn law_outcome_recorded_as_it_went(action: OptionsAction, confirmed: bool, has_context: bool)
    ensures
        ({
            let e = spec_action_outcome_effects(action, confirmed, has_context);
            &&& (action is Cancel && confirmed) ==> e.contains(ManageEffect::CountCancelled) && e.contains(
                ManageEffect::ResetCancelFailures,
            ) && !e.contains(ManageEffect::CountCancelFailure)
            &&& (action is Cancel && !confirmed) ==> e == seq![ManageEffect::CountCancelFailure]
            &&& e.contains(ManageEffect::EmitCollected) <==> (action is Collect && confirmed && has_context)
            &&& (forall|j: int| 0 <= j < e.len() ==> (#[trigger] e[j] is EmitCancelled) ==> (
                action is Cancel && confirmed && has_context))
            &&& (action is Cancel && confirmed && has_context) ==> e.contains(ManageEffect::EmitCancelled {
                already_collected: action->already_collected,
            })
        }),
{
    let e = spec_action_outcome_effects(action, confirmed, has_context);
    match action {
        OptionsAction::Collect => {
            if confirmed && has_context {
                assert(e[0] == ManageEffect::EmitCollected);
            }
        },
        OptionsAction::Cancel { already_collected } => {
            if confirmed {
                assert(e[0] == ManageEffect::CountCancelled);
                assert(e[1] == ManageEffect::ResetCancelFailures);
                if has_context {
                    assert(e[2] == ManageEffect::EmitCancelled { already_collected });
                }
            }
        },
    }
}

} // verus!
