//! Decisions of the bazaar order-placement flow: search results → item
//! detail (create buy order / sell offer) → amount → price → confirm.
//!
//! The caller polls the window's slots by name and answers the signs; these
//! functions decide when a poll is done and what to click.

use vstd::prelude::*;
use crate::gui::title_contains;
use crate::steps::BazaarStep;
use crate::text::spec_contains;

verus! {

/// The order-button search is made on the item detail page, before any
/// order button was clicked.
pub open spec fn spec_looks_for_order_button(step: BazaarStep) -> bool {
    step == BazaarStep::Initial || step == BazaarStep::SearchResults
}

/// Whether the order-button search is made.
pub fn looks_for_order_button(step: BazaarStep) -> (b: bool)
    ensures
        b == spec_looks_for_order_button(step),
{
    step == BazaarStep::Initial || step == BazaarStep::SearchResults
}

/// One turn of a poll for a button.
#[derive(Debug, Clone, Copy, PartialEq, Eq, Structural)]
pub enum PollTurn {
    /// The button is at this slot.
    Found(usize),
    /// Stop: the button will not appear here.
    Stop,
    /// Poll again.
    Again,
}

/// One turn of the poll for the order button ("Create Buy Order" for a buy
/// order, else "Create Sell Offer"). The poll stops without a button on an
/// amount or price screen, on a bazaar search page, or at the deadline.
pub open spec fn spec_order_button_turn(
    title: Seq<char>,
    is_buy: bool,
    buy_button: Option<usize>,
    sell_button: Option<usize>,
    has_custom_amount: bool,
    has_custom_price: bool,
    deadline_passed: bool,
) -> PollTurn {
    let found = if is_buy { buy_button } else { sell_button };
    match found {
        Some(i) => PollTurn::Found(i),
        None => if has_custom_amount || has_custom_price || spec_contains(title, "Bazaar"@)
            || deadline_passed {
            PollTurn::Stop
        } else {
            PollTurn::Again
        },
    }
}

/// One turn of the poll for the order button.
pub fn order_button_turn(
    title: &str,
    is_buy: bool,
    buy_button: Option<usize>,
    sell_button: Option<usize>,
    has_custom_amount: bool,
    has_custom_price: bool,
    deadline_passed: bool,
) -> (r: PollTurn)
    ensures
        r == spec_order_button_turn(
            title@,
            is_buy,
            buy_button,
            sell_button,
            has_custom_amount,
            has_custom_price,
            deadline_passed,
        ),
{
    let found = if is_buy {
        buy_button
    } else {
        sell_button
    };
    match found {
        Some(i) => PollTurn::Found(i),
        None => {
            if has_custom_amount || has_custom_price || title_contains(title, "Bazaar")
                || deadline_passed {
                PollTurn::Stop
            } else {
                PollTurn::Again
            }
        },
    }
}

/// The window is the search-results page: a bazaar page before anything was clicked.
pub open spec fn spec_is_search_results(title: Seq<char>, step: BazaarStep) -> bool {
    spec_contains(title, "Bazaar"@) && step == BazaarStep::Initial
}

/// Whether the window is the search-results page.
pub fn is_search_results(title: &str, step: BazaarStep) -> (b: bool)
    ensures
        b == spec_is_search_results(title@, step),
{
    title_contains(title, "Bazaar") && step == BazaarStep::Initial
}

/// A human-like delay: `base` plus the clock's nanoseconds modulo `spread`
/// (milliseconds).
pub fn jitter_ms(base: u64, spread: u32, subsec_nanos: u32) -> (r: u64)
    requires
        spread > 0,
        base + spread <= u64::MAX,
    ensures
        r == base + subsec_nanos % spread,
        base <= r < base + spread,
{
    base + (subsec_nanos % spread) as u64
}

/// What the flow does on the amount, price and confirm screens.
#[derive(Debug, Clone, Copy, PartialEq, Eq, Structural)]
pub enum ScreenAction {
    /// Amount screen (buy orders): go to `SetAmount`, click "Custom Amount" here.
    Amount(usize),
    /// Price screen: go to `SetPrice`, click "Custom Price" here.
    Price(usize),
    /// Confirm screen: go to `Confirm`, clear the rejection flag, click slot 13,
    /// report the order unless it was rejected, close and go idle.
    Confirm,
    /// Nothing to do on this window.
    Nothing,
}

/// The screen action, from "Custom Amount" (looked for on buy orders only)
/// and "Custom Price" where found, and the flow's step.
pub open spec fn spec_screen_action(
    is_buy: bool,
    custom_amount: Option<usize>,
    custom_price: Option<usize>,
    step: BazaarStep,
) -> ScreenAction {
    let amount = if is_buy { custom_amount } else { None };
    if amount is Some && is_buy && step == BazaarStep::SelectOrderType {
        ScreenAction::Amount(amount->0)
    } else if custom_price is Some && (step == BazaarStep::SelectOrderType || step
        == BazaarStep::SetAmount) {
        ScreenAction::Price(custom_price->0)
    } else if step == BazaarStep::SetPrice {
        ScreenAction::Confirm
    } else {
        ScreenAction::Nothing
    }
}

/// One turn of the poll on an amount, price or confirm screen: done (with
/// its action) once a custom button is found or the deadline passed.
pub open spec fn spec_screen_turn(
    is_buy: bool,
    custom_amount: Option<usize>,
    custom_price: Option<usize>,
    step: BazaarStep,
    deadline_passed: bool,
) -> Option<ScreenAction> {
    let amount = if is_buy { custom_amount } else { None };
    if amount is Some || custom_price is Some || deadline_passed {
        Some(spec_screen_action(is_buy, custom_amount, custom_price, step))
    } else {
        None
    }
}

/// One turn of the poll on an amount, price or confirm screen.
pub fn screen_turn(
    is_buy: bool,
    custom_amount: Option<usize>,
    custom_price: Option<usize>,
    step: BazaarStep,
    deadline_passed: bool,
) -> (r: Option<ScreenAction>)
    ensures
        r == spec_screen_turn(is_buy, custom_amount, custom_price, step, deadline_passed),
{
    let amount = if is_buy {
        custom_amount
    } else {
        None
    };
    if amount.is_some() || custom_price.is_some() || deadline_passed {
        let action = if amount.is_some() && is_buy && step == BazaarStep::SelectOrderType {
            ScreenAction::Amount(amount.unwrap())
        } else if custom_price.is_some() && (step == BazaarStep::SelectOrderType || step
            == BazaarStep::SetAmount) {
            ScreenAction::Price(custom_price.unwrap())
        } else if step == BazaarStep::SetPrice {
            ScreenAction::Confirm
        } else {
            ScreenAction::Nothing
        };
        Some(action)
    } else {
        None
    }
}

/// After the confirm click: the order counts as placed unless the order
/// limit was hit or the price was rejected.
pub fn order_placed(at_limit: bool, rejected: bool) -> (b: bool)
    ensures
        b == (!at_limit && !rejected),
{
    !at_limit && !rejected
}


/// The order button is searched at every step before one was clicked (the
/// first window and the item page after the search results) and at no step
/// after it (amount, price, confirm).
pub proof fn law_order_button_searched_until_clicked(step: BazaarStep)
    ensures
        spec_looks_for_order_button(step) <==> !(step == BazaarStep::SelectOrderType || step
            == BazaarStep::SetAmount || step == BazaarStep::SetPrice || step == BazaarStep::Confirm),
        spec_looks_for_order_button(BazaarStep::Initial),
        spec_looks_for_order_button(BazaarStep::SearchResults),
{
}


/// What each screen clicks: the custom amount only for a buy order right
/// after its order button, at the slot found; the custom price at the slot
/// found, once the order type (and amount) is set; the confirm button
/// exactly once the price is set. A sell offer never sets an amount.
pub proof fn law_screen_clicks_what_was_found(
    is_buy: bool,
    custom_amount: Option<usize>,
    custom_price: Option<usize>,
    step: BazaarStep,
)
    ensures
        ({
            let a = spec_screen_action(is_buy, custom_amount, custom_price, step);
            &&& (a matches ScreenAction::Amount(i) ==> is_buy && custom_amount == Some(i) && step
                == BazaarStep::SelectOrderType)
            &&& (a matches ScreenAction::Price(i) ==> custom_price == Some(i) && (step
                == BazaarStep::SelectOrderType || step == BazaarStep::SetAmount))
            &&& (a is Confirm <==> step == BazaarStep::SetPrice)
            &&& (is_buy && custom_amount is Some && step == BazaarStep::SelectOrderType) ==> a
                == ScreenAction::Amount(custom_amount->0)
            &&& (!is_buy && custom_price is Some && step == BazaarStep::SelectOrderType) ==> a
                == ScreenAction::Price(custom_price->0)
            &&& (custom_price is Some && step == BazaarStep::SetAmount) ==> a == ScreenAction::Price(
                custom_price->0,
            )
        }),
{
}


/// The poll for the order button takes the button of the order's own side
/// (never the other side's) as soon as it is there, and stops without a
/// click on an amount or price screen, a "Bazaar" page, or at the deadline.
pub proof fn law_order_button_of_own_side(
    title: Seq<char>,
    is_buy: bool,
    buy_button: Option<usize>,
    sell_button: Option<usize>,
    has_custom_amount: bool,
    has_custom_price: bool,
    deadline_passed: bool,
)
    ensures
        ({
            let own = if is_buy { buy_button } else { sell_button };
            let t = spec_order_button_turn(title, is_buy, buy_button, sell_button, has_custom_amount, has_custom_price, deadline_passed);
            &&& own is Some ==> t == PollTurn::Found(own->0)
            &&& (t matches PollTurn::Found(i) ==> own == Some(i))
            &&& (own is None && (has_custom_amount || has_custom_price || deadline_passed)) ==> t == PollTurn::Stop
            &&& (t is Again ==> own is None && !deadline_passed)
        }),
{
}

} // verus!
