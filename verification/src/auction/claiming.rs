//! Decisions of the claiming flows: collect purchased items ("Your Bids")
//! and the coins of sold auctions ("Manage Auctions").

use vstd::prelude::*;
use crate::gui::title_contains;
use crate::text::{
    chars_of, contains_chars, join_strings, lowercase, lowercase_chars, spec_contains, spec_join,
};

verus! {

/// The windows of the claiming flows.
#[derive(Debug, Clone, Copy, PartialEq, Eq, Structural)]
pub enum ClaimWindow {
    /// The auction house's main page.
    AuctionHouse,
    /// The list to claim from ("Your Bids", or the player's own auctions).
    ClaimList,
    /// The view of one auction.
    AuctionView,
    /// Any other window.
    Other,
}

/// Which window of the purchased-items flow `title` names.
pub open spec fn spec_claim_purchased_window(title: Seq<char>) -> ClaimWindow {
    if spec_contains(title, "Auction House"@) {
        ClaimWindow::AuctionHouse
    } else if spec_contains(title, "Your Bids"@) {
        ClaimWindow::ClaimList
    } else if spec_contains(title, "BIN Auction View"@) || spec_contains(title, "Auction View"@) {
        ClaimWindow::AuctionView
    } else {
        ClaimWindow::Other
    }
}

/// Which window of the purchased-items flow has opened.
pub fn classify_claim_purchased_window(title: &str) -> (w: ClaimWindow)
    ensures
        w == spec_claim_purchased_window(title@),
{
    if title_contains(title, "Auction House") {
        ClaimWindow::AuctionHouse
    } else if title_contains(title, "Your Bids") {
        ClaimWindow::ClaimList
    } else if title_contains(title, "BIN Auction View") || title_contains(title, "Auction View") {
        ClaimWindow::AuctionView
    } else {
        ClaimWindow::Other
    }
}

/// Which window of the sold-auctions flow `title` names; `is_my_auctions_title`
/// tells whether it is the player's own auctions.
pub open spec fn spec_claim_sold_window(title: Seq<char>, is_my_auctions_title: bool) -> ClaimWindow {
    if spec_contains(title, "Auction House"@) {
        ClaimWindow::AuctionHouse
    } else if is_my_auctions_title {
        ClaimWindow::ClaimList
    } else if spec_contains(title, "BIN Auction View"@) || spec_contains(title, "Auction View"@) {
        ClaimWindow::AuctionView
    } else {
        ClaimWindow::Other
    }
}

/// Which window of the sold-auctions flow has opened.
pub fn classify_claim_sold_window(title: &str, is_my_auctions_title: bool) -> (w: ClaimWindow)
    ensures
        w == spec_claim_sold_window(title@, is_my_auctions_title),
{
    if title_contains(title, "Auction House") {
        ClaimWindow::AuctionHouse
    } else if is_my_auctions_title {
        ClaimWindow::ClaimList
    } else if title_contains(title, "BIN Auction View") || title_contains(title, "Auction View") {
        ClaimWindow::AuctionView
    } else {
        ClaimWindow::Other
    }
}

/// The lore of a bid shows a won auction: it mentions "status:" and "sold"
/// (its lines joined by newlines, lowercased).
pub open spec fn spec_lore_shows_won(lore: Seq<Seq<char>>) -> bool {
    let text = lowercase(spec_join(lore, "\n"@));
    spec_contains(text, "status:"@) && spec_contains(text, "sold"@)
}

/// The first slot at or after `k` whose lore shows a won auction.
pub open spec fn spec_won_slot_from(lores: Seq<Seq<Seq<char>>>, k: int) -> Option<int>
    decreases lores.len() - k,
{
    if k < 0 || k >= lores.len() {
        None
    } else if spec_lore_shows_won(lores[k]) {
        Some(k)
    } else {
        spec_won_slot_from(lores, k + 1)
    }
}

/// The lore lines of each slot, as character sequences.
pub open spec fn slot_lores_view(lores: Seq<Vec<String>>) -> Seq<Seq<Seq<char>>> {
    lores.map_values(|l: Vec<String>| l@.map_values(|s: String| s@))
}

/// The first slot (one lore per slot) that holds a won auction.
pub fn won_auction_slot(lores: &Vec<Vec<String>>) -> (r: Option<usize>)
    ensures
        match r {
            Some(i) => spec_won_slot_from(slot_lores_view(lores@), 0) == Some(i as int),
            None => spec_won_slot_from(slot_lores_view(lores@), 0) is None,
        },
{
    let ghost views = slot_lores_view(lores@);
    let newline = chars_of("\n");
    let status = chars_of("status:");
    let sold = chars_of("sold");
    let mut k: usize = 0;
    while k < lores.len()
        invariant
            k <= lores.len(),
            views == slot_lores_view(lores@),
            newline@ == "\n"@,
            status@ == "status:"@,
            sold@ == "sold"@,
            spec_won_slot_from(views, 0) == spec_won_slot_from(views, k as int),
        decreases lores.len() - k,
    {
        let joined = join_strings(lores[k].as_slice(), &newline);
        let text = lowercase_chars(&joined);
        assert(views[k as int] == lores@[k as int]@.map_values(|s: String| s@));
        if contains_chars(&text, &status) && contains_chars(&text, &sold) {
            return Some(k);
        }
        k = k + 1;
    }
    None
}

/// What a claiming flow does with its list window.
#[derive(Debug, Clone, Copy, PartialEq, Eq, Structural)]
pub enum ClaimListAction {
    /// Click "Claim All" here, close and go idle.
    ClaimAll(usize),
    /// Click this item and stay in the flow (its view opens next).
    OpenItem(usize),
    /// Nothing to claim: close and go idle.
    CloseAndIdle,
}

/// What a claiming flow does with its list: "Claim All" where present, else
/// the first claimable item, else nothing to claim.
pub open spec fn spec_claim_list_action(claim_all: Option<usize>, first_claimable: Option<usize>) -> ClaimListAction {
    match claim_all {
        Some(i) => ClaimListAction::ClaimAll(i),
        None => match first_claimable {
            Some(j) => ClaimListAction::OpenItem(j),
            None => ClaimListAction::CloseAndIdle,
        },
    }
}

/// What a claiming flow does with its list.
pub fn claim_list_action(claim_all: Option<usize>, first_claimable: Option<usize>) -> (r: ClaimListAction)
    ensures
        r == spec_claim_list_action(claim_all, first_claimable),
{
    match claim_all {
        Some(i) => ClaimListAction::ClaimAll(i),
        None => match first_claimable {
            Some(j) => ClaimListAction::OpenItem(j),
            None => ClaimListAction::CloseAndIdle,
        },
    }
}

/// The claim button in the view of a sold auction: slot 31 where its name
/// (without colors, lowercased) holds "claim", else a slot named "Claim",
/// else slot 31.
pub open spec fn spec_sold_view_claim_slot(slot_31_clean_name: Seq<char>, claim_by_name: Option<usize>) -> usize {
    if spec_contains(lowercase(slot_31_clean_name), "claim"@) {
        31
    } else {
        match claim_by_name {
            Some(i) => i,
            None => 31,
        }
    }
}

/// The claim button in the view of a sold auction.
pub fn sold_view_claim_slot(slot_31_clean_name: &str, claim_by_name: Option<usize>) -> (r: usize)
    ensures
        r == spec_sold_view_claim_slot(slot_31_clean_name@, claim_by_name),
{
    let name = chars_of(slot_31_clean_name);
    let low = lowercase_chars(&name);
    let claim = chars_of("claim");
    if contains_chars(&low, &claim) {
        31
    } else {
        match claim_by_name {
            Some(i) => i,
            None => 31,
        }
    }
}


/// "Claim All" is taken whenever it is there; otherwise the first claimable
/// item is opened; the list is closed only where there is neither.
pub proof fn law_claim_all_first(claim_all: Option<usize>, first_claimable: Option<usize>)
    ensures
        ({
            let a = spec_claim_list_action(claim_all, first_claimable);
            &&& claim_all is Some ==> a == ClaimListAction::ClaimAll(claim_all->0)
            &&& (a matches ClaimListAction::OpenItem(j) ==> claim_all is None && first_claimable == Some(j))
            &&& (claim_all is None && first_claimable is Some) ==> a == ClaimListAction::OpenItem(first_claimable->0)
            &&& (a is CloseAndIdle <==> claim_all is None && first_claimable is None)
        }),
{
}

} // verus!
