//! Decisions of the purchase flow: wait for the buy button in an auction
//! view, wait out the grace period of a fresh auction (the bed), and confirm
//! the purchase.
//!
//! The caller reads slot 31 of the window (its item kind, lowercased, `air`
//! where empty), clicks through the raw connection, sleeps and polls; these
//! functions decide.

use vstd::prelude::*;
use crate::gui::title_contains;
use crate::text::spec_contains;

verus! {

/// The windows that the purchase flow handles.
#[derive(Debug, Clone, Copy, PartialEq, Eq, Structural)]
pub enum PurchaseWindow {
    /// An auction view: wait for slot 31.
    AuctionView,
    /// "Confirm Purchase": confirm at slot 11.
    ConfirmPurchase,
    /// Any other window: nothing to do.
    Other,
}

/// Which purchase window `title` names.
pub open spec fn spec_purchase_window(title: Seq<char>) -> PurchaseWindow {
    if spec_contains(title, "BIN Auction View"@) || spec_contains(title, "Auction View"@) {
        PurchaseWindow::AuctionView
    } else if spec_contains(title, "Confirm Purchase"@) {
        PurchaseWindow::ConfirmPurchase
    } else {
        PurchaseWindow::Other
    }
}

/// Which purchase window has opened.
pub fn classify_purchase_window(title: &str) -> (w: PurchaseWindow)
    ensures
        w == spec_purchase_window(title@),
{
    if title_contains(title, "BIN Auction View") || title_contains(title, "Auction View") {
        PurchaseWindow::AuctionView
    } else if title_contains(title, "Confirm Purchase") {
        PurchaseWindow::ConfirmPurchase
    } else {
        PurchaseWindow::Other
    }
}

/// The window id that the server gives the next window: ids run from 1 to
/// 255 and wrap to 1.
pub open spec fn spec_next_window_id(window_id: u8) -> u8 {
    if window_id == 255 {
        1
    } else {
        (window_id + 1) as u8
    }
}

/// The id of the window expected after `window_id`.
pub fn next_window_id(window_id: u8) -> (r: u8)
    ensures
        r == spec_next_window_id(window_id),
{
    if window_id == 255 {
        1u8
    } else {
        window_id + 1
    }
}

/// One thing that the purchase flow does.
#[derive(Debug, Clone, Copy, PartialEq, Eq, Structural)]
pub enum PurchaseAction {
    /// Click `slot` of window `window_id` through the raw connection.
    RawClick { window_id: u8, slot: u16 },
    /// Record that a click on the predicted confirm window was sent ahead.
    MarkSkipClickSent,
    /// Mark whether the bed-timing loop holds the window open.
    SetBedTiming(bool),
    /// Forget the timing of the pending purchase.
    ClearPurchaseTiming,
    /// Close this window.
    Close,
    /// Go idle.
    SetIdle,
}

/// What the flow does once slot 31 of an auction view is known.
#[derive(Debug, Clone, PartialEq, Eq)]
pub enum ViewPlan {
    /// A bed: the auction is still in its grace period; run the bed-timing loop.
    BedTiming,
    /// The buy button: perform these actions.
    Act(Vec<PurchaseAction>),
    /// Slot 31 never filled: leave cleanup to the watchdogs.
    Wait,
}

/// The actions for the kind `kind` of slot 31 (lowercased), given the
/// fast-buy setting, the window's id and whether the bot is still purchasing.
///
/// A bed starts the bed-timing loop. The gold nugget is the buy button: it is
/// clicked, and with fast-buy clicked again and the confirm button (slot 11)
/// of the next window clicked in the same burst. Anything else but air
/// cannot be bought: while the bot is still purchasing it goes idle, forgets
/// the purchase timing and closes the window.
pub open spec fn spec_view_plan(kind: Seq<char>, fastbuy: bool, window_id: u8, still_purchasing: bool) -> Option<Seq<PurchaseAction>> {
    if spec_contains(kind, "bed"@) {
        None
    } else if spec_contains(kind, "gold_nugget"@) {
        Some(
            seq![PurchaseAction::RawClick { window_id, slot: 31 }] + if fastbuy {
                seq![
                    PurchaseAction::RawClick { window_id, slot: 31 },
                    PurchaseAction::MarkSkipClickSent,
                    PurchaseAction::RawClick { window_id: spec_next_window_id(window_id), slot: 11 },
                ]
            } else {
                Seq::empty()
            },
        )
    } else if !spec_contains(kind, "air"@) {
        Some(
            if still_purchasing {
                seq![PurchaseAction::SetIdle, PurchaseAction::ClearPurchaseTiming, PurchaseAction::Close]
            } else {
                Seq::empty()
            },
        )
    } else {
        Some(Seq::empty())
    }
}

/// What the flow does once slot 31 of an auction view is known.
pub fn plan_view(kind: &str, fastbuy: bool, window_id: u8, still_purchasing: bool) -> (r: ViewPlan)
    ensures
        match r {
            ViewPlan::BedTiming => spec_view_plan(kind@, fastbuy, window_id, still_purchasing) is None,
            ViewPlan::Act(v) => spec_view_plan(kind@, fastbuy, window_id, still_purchasing) == Some(v@)
                && v@.len() > 0,
            ViewPlan::Wait => spec_view_plan(kind@, fastbuy, window_id, still_purchasing) == Some(
                Seq::<PurchaseAction>::empty(),
            ),
        },
{
    if title_contains(kind, "bed") {
        ViewPlan::BedTiming
    } else if title_contains(kind, "gold_nugget") {
        let mut v = vec![PurchaseAction::RawClick { window_id, slot: 31 }];
        if fastbuy {
            v.push(PurchaseAction::RawClick { window_id, slot: 31 });
            v.push(PurchaseAction::MarkSkipClickSent);
            v.push(PurchaseAction::RawClick { window_id: next_window_id(window_id), slot: 11 });
        }
        assert(v@ =~= spec_view_plan(kind@, fastbuy, window_id, still_purchasing)->0);
        ViewPlan::Act(v)
    } else if !title_contains(kind, "air") {
        if still_purchasing {
            let v = vec![
                PurchaseAction::SetIdle,
                PurchaseAction::ClearPurchaseTiming,
                PurchaseAction::Close,
            ];
            assert(v@ =~= spec_view_plan(kind@, fastbuy, window_id, still_purchasing)->0);
            ViewPlan::Act(v)
        } else {
            ViewPlan::Wait
        }
    } else {
        ViewPlan::Wait
    }
}

/// Click interval of the bed loop in free-money mode (milliseconds).
pub const BED_FREEMONEY_CLICK_INTERVAL_MS: u64 = 20;

/// Poll interval while waiting for the purchase time in free-money mode (milliseconds).
pub const BED_WAIT_POLL_MS: u64 = 20;

/// Unexpected slot-31 states after which the bed loop gives up.
pub const MAX_FAILED_CLICKS: usize = 5;

/// How long the bed loop may run before it gives up (seconds).
pub const BED_DEADLINE_SECS: u64 = 70;

/// The bed loop's click interval: fixed in free-money mode, else the
/// configured delay, at least one millisecond.
pub open spec fn spec_bed_click_interval_ms(freemoney: bool, bed_spam_click_delay: u64) -> u64 {
    if freemoney {
        BED_FREEMONEY_CLICK_INTERVAL_MS
    } else if bed_spam_click_delay < 1 {
        1
    } else {
        bed_spam_click_delay
    }
}

/// The bed loop's click interval.
pub fn bed_click_interval_ms(freemoney: bool, bed_spam_click_delay: u64) -> (r: u64)
    ensures
        r == spec_bed_click_interval_ms(freemoney, bed_spam_click_delay),
{
    if freemoney {
        BED_FREEMONEY_CLICK_INTERVAL_MS
    } else if bed_spam_click_delay < 1 {
        1
    } else {
        bed_spam_click_delay
    }
}

/// In free-money mode, the time left until the announced purchase time,
/// where that lies in the future (milliseconds).
pub open spec fn spec_remaining_until_purchase_ms(purchase_at_ms: Option<i64>, now_ms: Option<i64>) -> Option<u64> {
    match (purchase_at_ms, now_ms) {
        (Some(at), Some(now)) => if at - now <= 0 {
            None
        } else {
            Some((at - now) as u64)
        },
        _ => None,
    }
}

/// The time left until the announced purchase time, where it lies ahead.
pub fn remaining_until_purchase_ms(purchase_at_ms: Option<i64>, now_ms: Option<i64>) -> (r: Option<u64>)
    requires
        match (purchase_at_ms, now_ms) {
            (Some(at), Some(now)) => i64::MIN <= at - now <= i64::MAX,
            _ => true,
        },
    ensures
        r == spec_remaining_until_purchase_ms(purchase_at_ms, now_ms),
{
    match (purchase_at_ms, now_ms) {
        (Some(at), Some(now)) => {
            let diff = at - now;
            if diff <= 0 {
                None
            } else {
                Some(diff as u64)
            }
        },
        _ => None,
    }
}

/// How long to wait before the rapid-click phase: the time left until the
/// purchase, less the lead time, never below zero.
pub fn bed_pre_click_wait_ms(remaining_ms: u64, pre_click_lead_ms: u64) -> (r: u64)
    ensures
        r == if remaining_ms > pre_click_lead_ms { remaining_ms - pre_click_lead_ms } else { 0 },
{
    remaining_ms.saturating_sub(pre_click_lead_ms)
}

/// One turn of the bed loop, decided from what slot 31 holds.
#[derive(Debug, Clone, Copy, PartialEq, Eq, Structural)]
pub enum BedTurn {
    /// Stop the loop, clear the bed flag, close the window and go idle.
    Abandon,
    /// The buy button appeared: clear the bed flag, click slot 31 if the
    /// window is still the latest, and leave the loop.
    Buy { click: bool },
    /// Still in the grace period: click slot 31 or not, and go on.
    Continue { click: bool },
    /// An unexpected item: go on with this many unexpected states so far.
    Unexpected { failed_clicks: usize },
}

/// One turn of the bed loop, from slot 31's kind, whether the loop's
/// deadline has passed, the mode, whether the window is still the latest,
/// and the unexpected states so far.
///
/// Past the deadline, at air (the window closed), at a potato (the auction
/// cannot be bought) or at the fifth unexpected state, the loop is abandoned.
/// At the gold nugget it buys. At the bed it waits, clicking ahead only in
/// free-money mode.
pub open spec fn spec_bed_turn(
    kind: Seq<char>,
    deadline_passed: bool,
    freemoney: bool,
    is_current: bool,
    failed_clicks: nat,
) -> BedTurn {
    if deadline_passed {
        BedTurn::Abandon
    } else if spec_contains(kind, "air"@) {
        BedTurn::Abandon
    } else if spec_contains(kind, "gold_nugget"@) {
        BedTurn::Buy { click: is_current }
    } else if spec_contains(kind, "potato"@) {
        BedTurn::Abandon
    } else if spec_contains(kind, "bed"@) {
        BedTurn::Continue { click: freemoney && is_current }
    } else if failed_clicks + 1 >= MAX_FAILED_CLICKS {
        BedTurn::Abandon
    } else {
        BedTurn::Unexpected { failed_clicks: (failed_clicks + 1) as usize }
    }
}

/// One turn of the bed loop.
pub fn bed_turn(kind: &str, deadline_passed: bool, freemoney: bool, is_current: bool, failed_clicks: usize) -> (r: BedTurn)
    requires
        failed_clicks < MAX_FAILED_CLICKS,
    ensures
        r == spec_bed_turn(kind@, deadline_passed, freemoney, is_current, failed_clicks as nat),
{
    if deadline_passed {
        BedTurn::Abandon
    } else if title_contains(kind, "air") {
        BedTurn::Abandon
    } else if title_contains(kind, "gold_nugget") {
        BedTurn::Buy { click: is_current }
    } else if title_contains(kind, "potato") {
        BedTurn::Abandon
    } else if title_contains(kind, "bed") {
        BedTurn::Continue { click: freemoney && is_current }
    } else if failed_clicks + 1 >= MAX_FAILED_CLICKS {
        BedTurn::Abandon
    } else {
        BedTurn::Unexpected { failed_clicks: failed_clicks + 1 }
    }
}

/// The first moves in "Confirm Purchase": whether to click the confirm
/// button (not where a click was sent ahead) and how long to wait before the
/// retry loop (milliseconds).
pub open spec fn spec_confirm_purchase_start(skip_click_sent: bool) -> (bool, u64) {
    if skip_click_sent {
        (false, 100)
    } else {
        (true, crate::constants::CONFIRM_PURCHASE_RETRY_MS)
    }
}

/// The first moves in "Confirm Purchase".
pub fn confirm_purchase_start(skip_click_sent: bool) -> (r: (bool, u64))
    ensures
        r == spec_confirm_purchase_start(skip_click_sent),
{
    if skip_click_sent {
        (false, 100)
    } else {
        (true, crate::constants::CONFIRM_PURCHASE_RETRY_MS)
    }
}

/// The retry loop in "Confirm Purchase" goes on while the current window's
/// title holds "Confirm Purchase".
pub fn still_confirming(current_title: Option<&str>) -> (b: bool)
    ensures
        b == match current_title {
            Some(t) => spec_contains(t@, "Confirm Purchase"@),
            None => false,
        },
{
    match current_title {
        Some(t) => title_contains(t, "Confirm Purchase"),
        None => false,
    }
}


// ---------------------------------------------------------------------------
// Laws
// ---------------------------------------------------------------------------

/// The anti-cheat gate: slot 31 of an auction view is clicked only once the
/// server has put the buy button (the gold nugget) there, never on a bed,
/// a loading placeholder or an empty slot.
pub proof fn law_buy_click_only_on_gold_nugget(kind: Seq<char>, fastbuy: bool, window_id: u8, still_purchasing: bool)
    ensures
        forall|i: int|
            #![trigger spec_view_plan(kind, fastbuy, window_id, still_purchasing)->0[i]]
            spec_view_plan(kind, fastbuy, window_id, still_purchasing) is Some && 0 <= i
                < spec_view_plan(kind, fastbuy, window_id, still_purchasing)->0.len()
                && spec_view_plan(kind, fastbuy, window_id, still_purchasing)->0[i] is RawClick
                ==> spec_contains(kind, "gold_nugget"@) && !spec_contains(kind, "bed"@),
{
}

/// The fast-buy click goes to the next window id, which is never 0: ids
/// count up and wrap from 255 to 1.
pub proof fn law_next_window_id(window_id: u8)
    ensures
        spec_next_window_id(window_id) != 0,
        window_id < 255 ==> spec_next_window_id(window_id) == window_id + 1,
{
}

/// The bed loop ends: a turn never counts more than [`MAX_FAILED_CLICKS`]
/// unexpected states (it abandons instead), and it never clicks a window
/// that is no longer the latest.
pub proof fn law_bed_turn_bounded(kind: Seq<char>, deadline_passed: bool, freemoney: bool, is_current: bool, failed_clicks: nat)
    ensures
        match spec_bed_turn(kind, deadline_passed, freemoney, is_current, failed_clicks) {
            BedTurn::Unexpected { failed_clicks: f } => f == failed_clicks + 1 && f < MAX_FAILED_CLICKS,
            BedTurn::Buy { click } => click ==> is_current,
            BedTurn::Continue { click } => click ==> is_current && freemoney,
            BedTurn::Abandon => true,
        },
{
}

} // verus!
