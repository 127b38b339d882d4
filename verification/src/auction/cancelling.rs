//! Decisions of the auction-cancelling flow: AH → Manage Auctions → the
//! auction → Cancel Auction → Confirm.

use vstd::prelude::*;
use crate::gui::title_contains;
use crate::text::{
    chars_of, contains_chars, join_strings, lowercase, lowercase_chars, spec_contains, spec_join,
};

verus! {

/// The windows of the auction flows that go through the auction house.
#[derive(Debug, Clone, Copy, PartialEq, Eq, Structural)]
pub enum AuctionWindow {
    /// The auction house's main page.
    AuctionHouse,
    /// The player's own auctions ("Manage Auctions" / "My Auctions").
    MyAuctions,
    /// The view of one auction.
    AuctionView,
    /// A confirmation window.
    Confirm,
    /// Any other window.
    Other,
}

/// Which window of the cancelling flow `title` names; `is_my_auctions_title`
/// tells whether it is the player's own auctions.
pub open spec fn spec_cancel_window(title: Seq<char>, is_my_auctions_title: bool) -> AuctionWindow {
    if spec_contains(title, "Auction House"@) {
        AuctionWindow::AuctionHouse
    } else if is_my_auctions_title {
        AuctionWindow::MyAuctions
    } else if spec_contains(title, "BIN Auction View"@) || spec_contains(title, "Auction View"@) {
        AuctionWindow::AuctionView
    } else if spec_contains(title, "Confirm"@) {
        AuctionWindow::Confirm
    } else {
        AuctionWindow::Other
    }
}

/// Which window of the cancelling flow has opened.
pub fn classify_cancel_window(title: &str, is_my_auctions_title: bool) -> (w: AuctionWindow)
    ensures
        w == spec_cancel_window(title@, is_my_auctions_title),
{
    if title_contains(title, "Auction House") {
        AuctionWindow::AuctionHouse
    } else if is_my_auctions_title {
        AuctionWindow::MyAuctions
    } else if title_contains(title, "BIN Auction View") || title_contains(title, "Auction View") {
        AuctionWindow::AuctionView
    } else if title_contains(title, "Confirm") {
        AuctionWindow::Confirm
    } else {
        AuctionWindow::Other
    }
}

/// The slot to click on the auction house's main page: "Manage Auctions",
/// else "My Auctions", else slot 15.
pub fn manage_auctions_slot(manage: Option<usize>, mine: Option<usize>) -> (r: usize)
    ensures
        r == match manage {
            Some(i) => i,
            None => match mine {
                Some(j) => j,
                None => 15,
            },
        },
{
    match manage {
        Some(i) => i,
        None => match mine {
            Some(j) => j,
            None => 15,
        },
    }
}

/// What the flow reads of one slot of the player's auctions.
pub struct AuctionSlotInfo {
    /// The slot holds no item.
    pub empty: bool,
    /// The item's display name without color codes, if it has one.
    pub clean_name: Option<String>,
    /// The item's lore lines.
    pub lore: Vec<String>,
    /// The price read from the lore, if any.
    pub price: Option<i64>,
}

/// The view of an [`AuctionSlotInfo`].
pub ghost struct AuctionSlotView {
    pub empty: bool,
    pub clean_name: Option<Seq<char>>,
    pub lore: Seq<Seq<char>>,
    pub price: Option<i64>,
}

impl View for AuctionSlotInfo {
    type V = AuctionSlotView;

    open spec fn view(&self) -> AuctionSlotView {
        AuctionSlotView {
            empty: self.empty,
            clean_name: match self.clean_name {
                Some(n) => Some(n@),
                None => None,
            },
            lore: self.lore@.map_values(|l: String| l@),
            price: self.price,
        }
    }
}

/// The lore shows an auction that is no longer active: sold, expired or ended.
pub open spec fn spec_lore_shows_inactive(lore: Seq<Seq<char>>) -> bool {
    let text = lowercase(spec_join(lore, "\n"@));
    spec_contains(text, "sold!"@) || spec_contains(text, "expired"@) || spec_contains(text, "ended"@)
}

/// The slot is the auction to cancel: an item whose name holds the target
/// name (case-insensitively), whose price (where the lore shows one) is the
/// target bid, and which is still active.
pub open spec fn spec_is_auction_to_cancel(s: AuctionSlotView, target_name: Seq<char>, target_bid: i64) -> bool {
    &&& !s.empty
    &&& s.clean_name is Some
    &&& spec_contains(lowercase(s.clean_name->0), lowercase(target_name))
    &&& (s.price is None || s.price->0 == target_bid)
    &&& !spec_lore_shows_inactive(s.lore)
}

/// The first slot at or after `k` that is the auction to cancel.
pub open spec fn spec_auction_to_cancel_from(
    slots: Seq<AuctionSlotView>,
    target_name: Seq<char>,
    target_bid: i64,
    k: int,
) -> Option<int>
    decreases slots.len() - k,
{
    if k < 0 || k >= slots.len() {
        None
    } else if spec_is_auction_to_cancel(slots[k], target_name, target_bid) {
        Some(k)
    } else {
        spec_auction_to_cancel_from(slots, target_name, target_bid, k + 1)
    }
}

/// The views of the slots.
pub open spec fn slots_view(slots: Seq<AuctionSlotInfo>) -> Seq<AuctionSlotView> {
    slots.map_values(|s: AuctionSlotInfo| s@)
}

/// Whether the lore shows an inactive auction.
pub fn lore_shows_inactive(lore: &[String]) -> (b: bool)
    ensures
        b == spec_lore_shows_inactive(lore@.map_values(|l: String| l@)),
{
    let newline = chars_of("\n");
    let joined = join_strings(lore, &newline);
    let text = lowercase_chars(&joined);
    let sold = chars_of("sold!");
    let expired = chars_of("expired");
    let ended = chars_of("ended");
    contains_chars(&text, &sold) || contains_chars(&text, &expired) || contains_chars(&text, &ended)
}

/// Whether one slot is the auction to cancel.
fn is_auction_to_cancel(s: &AuctionSlotInfo, target_name: Ghost<Seq<char>>, target_lower: &Vec<char>, target_bid: i64) -> (b: bool)
    requires
        target_lower@ == lowercase(target_name@),
    ensures
        b == spec_is_auction_to_cancel(s@, target_name@, target_bid),
{
    if s.empty {
        return false;
    }
    let name = match &s.clean_name {
        Some(n) => n,
        None => return false,
    };
    let name_chars = chars_of(name.as_str());
    let name_lower = lowercase_chars(&name_chars);
    if !contains_chars(&name_lower, target_lower) {
        return false;
    }
    match s.price {
        Some(p) => {
            if p != target_bid {
                return false;
            }
        },
        None => {},
    }
    !lore_shows_inactive(s.lore.as_slice())
}

/// The slot of the auction to cancel: the first slot whose item is the
/// target auction (see [`spec_is_auction_to_cancel`]). Where there is none,
/// the flow closes the window and goes idle.
pub fn auction_to_cancel(slots: &Vec<AuctionSlotInfo>, target_name: &str, target_bid: i64) -> (r: Option<usize>)
    ensures
        match r {
            Some(i) => spec_auction_to_cancel_from(slots_view(slots@), target_name@, target_bid, 0)
                == Some(i as int),
            None => spec_auction_to_cancel_from(slots_view(slots@), target_name@, target_bid, 0) is None,
        },
{
    let ghost views = slots_view(slots@);
    let target = chars_of(target_name);
    let target_lower = lowercase_chars(&target);
    let mut k: usize = 0;
    while k < slots.len()
        invariant
            k <= slots.len(),
            views == slots_view(slots@),
            target_lower@ == lowercase(target_name@),
            spec_auction_to_cancel_from(views, target_name@, target_bid, 0)
                == spec_auction_to_cancel_from(views, target_name@, target_bid, k as int),
        decreases slots.len() - k,
    {
        if is_auction_to_cancel(&slots[k], Ghost(target_name@), &target_lower, target_bid) {
            return Some(k);
        }
        k = k + 1;
    }
    None
}

/// What the flow does with a window of the cancelling flow.
#[derive(Debug, Clone, Copy, PartialEq, Eq, Structural)]
pub enum CancelAction {
    /// Click this slot.
    Click(usize),
    /// Close the window and go idle.
    CloseAndIdle,
    /// Click this slot, then close, report the cancelled auction and go idle.
    ConfirmAndReport(usize),
    /// Nothing to do.
    Nothing,
}

/// What follows the search on each window, from the window and the slots found.
///
/// On the main page the "Manage Auctions" slot is clicked; among the
/// player's auctions the target auction; in its view "Cancel Auction"; in
/// the confirmation "Confirm" (else slot 11). Where the auction or its cancel
/// button is missing, the flow closes and goes idle.
pub open spec fn spec_cancel_action(window: AuctionWindow, manage_slot: usize, found: Option<usize>) -> CancelAction {
    match window {
        AuctionWindow::AuctionHouse => CancelAction::Click(manage_slot),
        AuctionWindow::MyAuctions | AuctionWindow::AuctionView => match found {
            Some(i) => CancelAction::Click(i),
            None => CancelAction::CloseAndIdle,
        },
        AuctionWindow::Confirm => CancelAction::ConfirmAndReport(
            match found {
                Some(i) => i,
                None => 11,
            },
        ),
        AuctionWindow::Other => CancelAction::Nothing,
    }
}

/// What follows the search on a window of the cancelling flow. `found` is
/// the target auction's slot among the player's auctions, the "Cancel
/// Auction" slot in an auction view, or the "Confirm" slot in a confirmation.
pub fn cancel_action(window: AuctionWindow, manage_slot: usize, found: Option<usize>) -> (r: CancelAction)
    ensures
        r == spec_cancel_action(window, manage_slot, found),
{
    match window {
        AuctionWindow::AuctionHouse => CancelAction::Click(manage_slot),
        AuctionWindow::MyAuctions | AuctionWindow::AuctionView => match found {
            Some(i) => CancelAction::Click(i),
            None => CancelAction::CloseAndIdle,
        },
        AuctionWindow::Confirm => CancelAction::ConfirmAndReport(
            match found {
                Some(i) => i,
                None => 11,
            },
        ),
        AuctionWindow::Other => CancelAction::Nothing,
    }
}


/// The slot at or after `k` that the search returns is an auction to
/// cancel, and every slot before it from `k` on is not.
proof fn lemma_auction_to_cancel_first(slots: Seq<AuctionSlotView>, target_name: Seq<char>, target_bid: i64, k: int)
    requires
        0 <= k,
    ensures
        match spec_auction_to_cancel_from(slots, target_name, target_bid, k) {
            Some(i) => k <= i < slots.len() && spec_is_auction_to_cancel(slots[i], target_name, target_bid)
                && forall|j: int| k <= j < i ==> !spec_is_auction_to_cancel(#[trigger] slots[j], target_name, target_bid),
            None => forall|j: int| k <= j < slots.len() ==> !spec_is_auction_to_cancel(#[trigger] slots[j], target_name, target_bid),
        },
    decreases slots.len() - k,
{
    if k < slots.len() && !spec_is_auction_to_cancel(slots[k], target_name, target_bid) {
        lemma_auction_to_cancel_first(slots, target_name, target_bid, k + 1);
    }
}

/// The auction that is cancelled is the target one: a non-empty, still
/// active slot whose name holds the target name, and whose price, where its
/// lore shows one, is exactly the target bid. It is the first such slot, and
/// where any slot is such an auction, one is found.
pub proof fn law_cancelled_auction_is_the_target(slots: Seq<AuctionSlotView>, target_name: Seq<char>, target_bid: i64)
    ensures
        match spec_auction_to_cancel_from(slots, target_name, target_bid, 0) {
            Some(i) => {
                &&& 0 <= i < slots.len()
                &&& !slots[i].empty
                &&& slots[i].clean_name is Some
                &&& spec_contains(lowercase(slots[i].clean_name->0), lowercase(target_name))
                &&& (slots[i].price is None || slots[i].price == Some(target_bid))
                &&& !spec_lore_shows_inactive(slots[i].lore)
                &&& forall|j: int| 0 <= j < i && (#[trigger] slots[j]).price == Some(target_bid)
                    && !slots[j].empty && slots[j].clean_name is Some && spec_contains(
                    lowercase(slots[j].clean_name->0),
                    lowercase(target_name),
                ) ==> spec_lore_shows_inactive(slots[j].lore)
            },
            None => forall|j: int|
                0 <= j < slots.len() && (#[trigger] slots[j]).price == Some(target_bid)
                    && !slots[j].empty && slots[j].clean_name is Some ==> !spec_contains(
                    lowercase(slots[j].clean_name->0),
                    lowercase(target_name),
                ) || spec_lore_shows_inactive(slots[j].lore),
        },
{
    lemma_auction_to_cancel_first(slots, target_name, target_bid, 0);
}


/// Each window clicks what its search found: the auction house its "Manage
/// Auctions" slot; the player's auctions and the auction's view the slot
/// found, closing and going idle only where nothing was found; only the
/// confirmation reports the cancelled auction; any other window does nothing.
pub proof fn law_cancel_clicks_what_was_found(window: AuctionWindow, manage_slot: usize, found: Option<usize>)
    ensures
        ({
            let a = spec_cancel_action(window, manage_slot, found);
            &&& window == AuctionWindow::AuctionHouse ==> a == CancelAction::Click(manage_slot)
            &&& (window == AuctionWindow::MyAuctions || window == AuctionWindow::AuctionView) ==> match found {
                Some(i) => a == CancelAction::Click(i),
                None => a == CancelAction::CloseAndIdle,
            }
            &&& (a is ConfirmAndReport <==> window == AuctionWindow::Confirm)
            &&& (window == AuctionWindow::Confirm && found is Some) ==> a == CancelAction::ConfirmAndReport(found->0)
            &&& (a is Nothing <==> window == AuctionWindow::Other)
        }),
{
}

} // verus!
