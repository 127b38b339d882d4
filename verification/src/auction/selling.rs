//! Decisions of the auction-creation flow: AH → Manage Auctions → Create
//! Auction → BIN → item and price → duration → confirm.
//!
//! The caller reads the window when it opens and performs the returned
//! actions in order; the price and duration signs are answered elsewhere.

use vstd::prelude::*;
use crate::gui::title_contains;
use crate::steps::AuctionStep;
use crate::text::{chars_of, contains_chars, join_strings, lowercase, lowercase_chars, spec_contains, spec_join};

verus! {

/// One thing that the auction-creation flow does.
#[derive(Debug, Clone, Copy, PartialEq, Eq, Structural)]
pub enum SellAction {
    /// Sleep this many milliseconds.
    Pause(u64),
    /// Move the flow to this step.
    SetStep(AuctionStep),
    /// Click this slot of the window.
    Click(usize),
    /// Click slot `slot` while carrying the item that was at `item_slot`.
    ClickCarrying { slot: usize, item_slot: usize },
    /// Take a stuck item out of the auction preview slot.
    ClearPreviewSlot,
    /// Record that the auction limit is reached.
    SetAtLimit,
    /// Close the window.
    Close,
    /// Go idle.
    SetIdle,
}

/// What the flow reads of a window when it opens.
pub struct SellingWindow {
    /// The window's title.
    pub title: String,
    /// The flow's step.
    pub step: AuctionStep,
    /// The sale was aborted (e.g. a stuck item in the auction slot).
    pub aborted: bool,
    /// The item's inventory slot in mineflayer numbering (9..=44 for the player inventory), if known.
    pub item_slot: Option<u64>,
    /// The first window slot of the player inventory.
    pub player_start: usize,
    /// For each window slot, whether it holds an item.
    pub occupied: Vec<bool>,
    /// The slot whose name matches the item's name, if any.
    pub item_by_name: Option<usize>,
    /// The slot named "Create Auction", if any.
    pub create_auction: Option<usize>,
    /// The lore lines of that slot.
    pub create_auction_lore: Vec<String>,
}

/// The window slot of the item: its known inventory slot mapped into the
/// window where that slot holds an item, else the slot found by the item's name.
pub open spec fn spec_select_item_slot(
    item_slot: Option<u64>,
    player_start: nat,
    occupied: Seq<bool>,
    by_name: Option<usize>,
) -> Option<usize> {
    match item_slot {
        Some(mj) => if 9 <= mj <= 44 {
            let ws = player_start + (mj - 9);
            if ws < occupied.len() && occupied[ws] {
                Some(ws as usize)
            } else {
                by_name
            }
        } else {
            by_name
        },
        None => by_name,
    }
}

/// The window slot of the item to sell.
pub fn select_item_slot(item_slot: Option<u64>, player_start: usize, occupied: &Vec<bool>, by_name: Option<usize>) -> (r: Option<usize>)
    requires
        player_start + 35 <= usize::MAX,
    ensures
        r == spec_select_item_slot(item_slot, player_start as nat, occupied@, by_name),
{
    match item_slot {
        Some(mj) => {
            if 9 <= mj && mj <= 44 {
                let offset = (mj - 9) as usize;
                let ws = player_start + offset;
                if ws < occupied.len() && occupied[ws] {
                    Some(ws)
                } else {
                    by_name
                }
            } else {
                by_name
            }
        },
        None => by_name,
    }
}

/// Putting the item up: clear the preview slot first where asked; then click
/// the item, open the price sign at slot 31 carrying it; or, with no item,
/// close and go idle.
pub open spec fn spec_put_item_actions(clear_preview: bool, target: Option<usize>) -> Seq<SellAction> {
    (if clear_preview {
        seq![SellAction::ClearPreviewSlot]
    } else {
        Seq::empty()
    }) + match target {
        Some(i) => seq![
            SellAction::Pause(200),
            SellAction::Click(i),
            SellAction::Pause(300),
            SellAction::SetStep(AuctionStep::PriceSign),
            SellAction::ClickCarrying { slot: 31, item_slot: i },
        ],
        None => seq![SellAction::Close, SellAction::SetIdle],
    }
}

/// Move to `step`, pause, click `slot`.
pub open spec fn spec_step_click(step: AuctionStep, slot: usize) -> Seq<SellAction> {
    seq![SellAction::SetStep(step), SellAction::Pause(200), SellAction::Click(slot)]
}

/// The "Create Auction" button's lore shows that no more auctions can be created.
pub open spec fn spec_at_auction_limit(lore: Seq<Seq<char>>) -> bool {
    let text = lowercase(spec_join(lore, " "@));
    spec_contains(text, "maximum"@) || spec_contains(text, "limit"@)
}

/// The window is "Create Auction" but not its BIN form.
pub open spec fn is_create_auction_type_page(title: Seq<char>) -> bool {
    spec_contains(title, "Create Auction"@) && !spec_contains(title, "BIN"@)
}

/// The actions for a window of the auction-creation flow.
pub open spec fn spec_plan_selling(
    title: Seq<char>,
    step: AuctionStep,
    aborted: bool,
    target: Option<usize>,
    create_auction: Option<usize>,
    at_limit: bool,
) -> Seq<SellAction> {
    if aborted {
        seq![SellAction::Close]
    } else {
        match step {
            AuctionStep::Initial => if spec_contains(title, "Auction House"@) {
                spec_step_click(AuctionStep::OpenManage, 15)
            } else {
                Seq::empty()
            },
            AuctionStep::OpenManage => if spec_contains(title, "Manage Auctions"@) {
                match create_auction {
                    Some(i) => if at_limit {
                        seq![SellAction::SetAtLimit, SellAction::Close, SellAction::SetIdle]
                    } else {
                        spec_step_click(AuctionStep::ClickCreate, i)
                    },
                    None => seq![SellAction::Close, SellAction::SetIdle],
                }
            } else if is_create_auction_type_page(title) {
                spec_step_click(AuctionStep::SelectBIN, 48)
            } else if spec_contains(title, "Create BIN Auction"@) {
                spec_put_item_actions(false, target)
            } else {
                Seq::empty()
            },
            AuctionStep::ClickCreate => if is_create_auction_type_page(title) {
                spec_step_click(AuctionStep::SelectBIN, 48)
            } else if spec_contains(title, "Create BIN Auction"@) {
                spec_put_item_actions(true, target)
            } else {
                Seq::empty()
            },
            AuctionStep::SelectBIN => if spec_contains(title, "Create BIN Auction"@) {
                spec_put_item_actions(true, target)
            } else {
                Seq::empty()
            },
            AuctionStep::SetDuration => if spec_contains(title, "Create BIN Auction"@) {
                spec_step_click(AuctionStep::DurationSign, 33)
            } else {
                Seq::empty()
            },
            AuctionStep::DurationSign => if spec_contains(title, "Auction Duration"@) {
                seq![SellAction::Pause(200), SellAction::Click(16)]
            } else {
                Seq::empty()
            },
            AuctionStep::ConfirmSell => if spec_contains(title, "Create BIN Auction"@) {
                spec_step_click(AuctionStep::FinalConfirm, 29)
            } else {
                Seq::empty()
            },
            AuctionStep::FinalConfirm => if spec_contains(title, "Confirm BIN Auction"@)
                || spec_contains(title, "Confirm"@) {
                seq![
                    SellAction::Pause(200),
                    SellAction::Click(11),
                    SellAction::Pause(500),
                    SellAction::Close,
                    SellAction::SetIdle,
                ]
            } else {
                Seq::empty()
            },
            AuctionStep::PriceSign => Seq::empty(),
        }
    }
}

fn put_item_actions(clear_preview: bool, target: Option<usize>) -> (r: Vec<SellAction>)
    ensures
        r@ == spec_put_item_actions(clear_preview, target),
{
    let mut r: Vec<SellAction> = Vec::new();
    if clear_preview {
        r.push(SellAction::ClearPreviewSlot);
    }
    match target {
        Some(i) => {
            r.push(SellAction::Pause(200));
            r.push(SellAction::Click(i));
            r.push(SellAction::Pause(300));
            r.push(SellAction::SetStep(AuctionStep::PriceSign));
            r.push(SellAction::ClickCarrying { slot: 31, item_slot: i });
        },
        None => {
            r.push(SellAction::Close);
            r.push(SellAction::SetIdle);
        },
    }
    assert(r@ =~= spec_put_item_actions(clear_preview, target));
    r
}

fn step_click(step: AuctionStep, slot: usize) -> (r: Vec<SellAction>)
    ensures
        r@ == spec_step_click(step, slot),
{
    let r = vec![SellAction::SetStep(step), SellAction::Pause(200), SellAction::Click(slot)];
    assert(r@ =~= spec_step_click(step, slot));
    r
}

/// Whether the "Create Auction" lore shows the auction limit.
pub fn at_auction_limit(lore: &[String]) -> (b: bool)
    ensures
        b == spec_at_auction_limit(lore@.map_values(|l: String| l@)),
{
    let space = chars_of(" ");
    let joined = join_strings(lore, &space);
    let text = lowercase_chars(&joined);
    let maximum = chars_of("maximum");
    let limit = chars_of("limit");
    contains_chars(&text, &maximum) || contains_chars(&text, &limit)
}

fn is_create_auction_type_page_exec(title: &str) -> (b: bool)
    ensures
        b == is_create_auction_type_page(title@),
{
    title_contains(title, "Create Auction") && !title_contains(title, "BIN")
}

/// The actions for a window of the auction-creation flow.
pub fn plan_selling(w: &SellingWindow) -> (r: Vec<SellAction>)
    requires
        w.player_start + 35 <= usize::MAX,
    ensures
        r@ == spec_plan_selling(
            w.title@,
            w.step,
            w.aborted,
            spec_select_item_slot(w.item_slot, w.player_start as nat, w.occupied@, w.item_by_name),
            w.create_auction,
            spec_at_auction_limit(w.create_auction_lore@.map_values(|l: String| l@)),
        ),
{
    let title = w.title.as_str();
    if w.aborted {
        let r = vec![SellAction::Close];
        return r;
    }
    let target = select_item_slot(w.item_slot, w.player_start, &w.occupied, w.item_by_name);
    match w.step {
        AuctionStep::Initial => {
            if title_contains(title, "Auction House") {
                step_click(AuctionStep::OpenManage, 15)
            } else {
                Vec::new()
            }
        },
        AuctionStep::OpenManage => {
            if title_contains(title, "Manage Auctions") {
                match w.create_auction {
                    Some(i) => {
                        if at_auction_limit(w.create_auction_lore.as_slice()) {
                            vec![SellAction::SetAtLimit, SellAction::Close, SellAction::SetIdle]
                        } else {
                            step_click(AuctionStep::ClickCreate, i)
                        }
                    },
                    None => vec![SellAction::Close, SellAction::SetIdle],
                }
            } else if is_create_auction_type_page_exec(title) {
                step_click(AuctionStep::SelectBIN, 48)
            } else if title_contains(title, "Create BIN Auction") {
                put_item_actions(false, target)
            } else {
                Vec::new()
            }
        },
        AuctionStep::ClickCreate => {
            if is_create_auction_type_page_exec(title) {
                step_click(AuctionStep::SelectBIN, 48)
            } else if title_contains(title, "Create BIN Auction") {
                put_item_actions(true, target)
            } else {
                Vec::new()
            }
        },
        AuctionStep::SelectBIN => {
            if title_contains(title, "Create BIN Auction") {
                put_item_actions(true, target)
            } else {
                Vec::new()
            }
        },
        AuctionStep::SetDuration => {
            if title_contains(title, "Create BIN Auction") {
                step_click(AuctionStep::DurationSign, 33)
            } else {
                Vec::new()
            }
        },
        AuctionStep::DurationSign => {
            if title_contains(title, "Auction Duration") {
                vec![SellAction::Pause(200), SellAction::Click(16)]
            } else {
                Vec::new()
            }
        },
        AuctionStep::ConfirmSell => {
            if title_contains(title, "Create BIN Auction") {
                step_click(AuctionStep::FinalConfirm, 29)
            } else {
                Vec::new()
            }
        },
        AuctionStep::FinalConfirm => {
            if title_contains(title, "Confirm BIN Auction") || title_contains(title, "Confirm") {
                vec![
                    SellAction::Pause(200),
                    SellAction::Click(11),
                    SellAction::Pause(500),
                    SellAction::Close,
                    SellAction::SetIdle,
                ]
            } else {
                Vec::new()
            }
        },
        AuctionStep::PriceSign => Vec::new(),
    }
}


// ---------------------------------------------------------------------------
// Laws
// ---------------------------------------------------------------------------

/// The order of the auction-creation steps.
pub open spec fn auction_step_rank(step: AuctionStep) -> nat {
    match step {
        AuctionStep::Initial => 0,
        AuctionStep::OpenManage => 1,
        AuctionStep::ClickCreate => 2,
        AuctionStep::SelectBIN => 3,
        AuctionStep::PriceSign => 4,
        AuctionStep::SetDuration => 5,
        AuctionStep::DurationSign => 6,
        AuctionStep::ConfirmSell => 7,
        AuctionStep::FinalConfirm => 8,
    }
}

/// An aborted sale never clicks: the window is only closed.
pub proof fn law_aborted_sale_only_closes(
    title: Seq<char>,
    step: AuctionStep,
    target: Option<usize>,
    create_auction: Option<usize>,
    at_limit: bool,
)
    ensures
        spec_plan_selling(title, step, true, target, create_auction, at_limit) == seq![SellAction::Close],
{
}

/// The flow only moves forward: every step that a window sets lies after
/// the step the flow was at.
pub proof fn law_selling_steps_only_advance(
    title: Seq<char>,
    step: AuctionStep,
    aborted: bool,
    target: Option<usize>,
    create_auction: Option<usize>,
    at_limit: bool,
)
    ensures
        forall|i: int|
            0 <= i < spec_plan_selling(title, step, aborted, target, create_auction, at_limit).len()
                ==> match #[trigger] spec_plan_selling(
                title,
                step,
                aborted,
                target,
                create_auction,
                at_limit,
            )[i] {
                SellAction::SetStep(next) => auction_step_rank(next) > auction_step_rank(step),
                _ => true,
            },
{
    let p = spec_plan_selling(title, step, aborted, target, create_auction, at_limit);
    assert forall|i: int| 0 <= i < p.len() implies match #[trigger] p[i] {
        SellAction::SetStep(next) => auction_step_rank(next) > auction_step_rank(step),
        _ => true,
    } by {
        if !aborted {
            match step {
                AuctionStep::OpenManage => {
                    if !spec_contains(title, "Manage Auctions"@) && !is_create_auction_type_page(title)
                        && spec_contains(title, "Create BIN Auction"@) {
                        lemma_put_item_steps(false, target, i);
                    }
                },
                AuctionStep::ClickCreate => {
                    if !is_create_auction_type_page(title) && spec_contains(title, "Create BIN Auction"@) {
                        lemma_put_item_steps(true, target, i);
                    }
                },
                AuctionStep::SelectBIN => {
                    if spec_contains(title, "Create BIN Auction"@) {
                        lemma_put_item_steps(true, target, i);
                    }
                },
                _ => {},
            }
        }
    }
}

/// Putting the item up sets no step but `PriceSign`.
proof fn lemma_put_item_steps(clear_preview: bool, target: Option<usize>, i: int)
    requires
        0 <= i < spec_put_item_actions(clear_preview, target).len(),
    ensures
        match spec_put_item_actions(clear_preview, target)[i] {
            SellAction::SetStep(next) => next == AuctionStep::PriceSign,
            _ => true,
        },
{
    let head: Seq<SellAction> = if clear_preview {
        seq![SellAction::ClearPreviewSlot]
    } else {
        Seq::empty()
    };
    let p = spec_put_item_actions(clear_preview, target);
    if i >= head.len() {
        assert(p[i] == (match target {
            Some(t) => seq![
                SellAction::Pause(200),
                SellAction::Click(t),
                SellAction::Pause(300),
                SellAction::SetStep(AuctionStep::PriceSign),
                SellAction::ClickCarrying { slot: 31, item_slot: t },
            ],
            None => seq![SellAction::Close, SellAction::SetIdle],
        })[i - head.len()]);
    }
}


/// The final confirmation is clicked: at step `FinalConfirm`, not aborted,
/// on a window whose title holds "Confirm", the plan clicks slot 11, and
/// every close in it comes after that click.
pub proof fn law_final_confirm_clicks_before_closing(
    title: Seq<char>,
    target: Option<usize>,
    create_auction: Option<usize>,
    at_limit: bool,
)
    requires
        spec_contains(title, "Confirm"@),
    ensures
        ({
            let p = spec_plan_selling(title, AuctionStep::FinalConfirm, false, target, create_auction, at_limit);
            &&& exists|i: int| 0 <= i < p.len() && p[i] == SellAction::Click(11)
            &&& forall|j: int| 0 <= j < p.len() && p[j] == SellAction::Close ==> exists|i: int|
                0 <= i < j && p[i] == SellAction::Click(11)
        }),
{
    let p = spec_plan_selling(title, AuctionStep::FinalConfirm, false, target, create_auction, at_limit);
    assert(p[1] == SellAction::Click(11));
    assert forall|j: int| 0 <= j < p.len() && p[j] == SellAction::Close implies exists|i: int|
        0 <= i < j && p[i] == SellAction::Click(11) by {
        assert(j == 3);
        assert(p[1] == SellAction::Click(11));
    }
}

} // verus!
