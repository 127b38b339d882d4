//! Decisions of the insta-sell flow: sell the item that crowds the
//! inventory via /bz → item → Sell Instantly → Confirm, then return to
//! Manage Orders.

use vstd::prelude::*;
use crate::gui::title_contains;
use crate::steps::InstaSellStep;
use crate::text::spec_contains;

verus! {

/// What the insta-sell flow looks for on a window.
#[derive(Debug, Clone, Copy, PartialEq, Eq, Structural)]
pub enum InstaSellSearch {
    /// The item, by its name, in the bazaar search results.
    Item,
    /// The "Sell Instantly" button on the item's page.
    SellButton,
    /// The "Confirm" button on the confirmation page (up to five seconds).
    Confirm,
    /// Nothing: the window is not one of the flow's.
    Nothing,
}

/// What the flow looks for on a window titled `title` at `step`.
pub open spec fn spec_insta_sell_search(step: InstaSellStep, title: Seq<char>) -> InstaSellSearch {
    match step {
        InstaSellStep::FindItem => if spec_contains(title, "Bazaar"@) {
            InstaSellSearch::Item
        } else {
            InstaSellSearch::Nothing
        },
        InstaSellStep::FindSellButton => InstaSellSearch::SellButton,
        InstaSellStep::WaitConfirm => InstaSellSearch::Confirm,
    }
}

/// What the flow looks for on a window.
pub fn insta_sell_search(step: InstaSellStep, title: &str) -> (r: InstaSellSearch)
    ensures
        r == spec_insta_sell_search(step, title@),
{
    match step {
        InstaSellStep::FindItem => {
            if title_contains(title, "Bazaar") {
                InstaSellSearch::Item
            } else {
                InstaSellSearch::Nothing
            }
        },
        InstaSellStep::FindSellButton => InstaSellSearch::SellButton,
        InstaSellStep::WaitConfirm => InstaSellSearch::Confirm,
    }
}

/// One thing that the insta-sell flow does.
#[derive(Debug, Clone, Copy, PartialEq, Eq, Structural)]
pub enum InstaSellAction {
    /// Move the flow to this step.
    SetStep(InstaSellStep),
    /// Click this slot of the window.
    Click(usize),
    /// Sleep this many milliseconds.
    Pause(u64),
    /// Close the window.
    Close,
    /// Forget the item and go back to the first step.
    ResetFlow,
    /// Clear the inventory-full flag.
    ClearInventoryFull,
    /// Go idle.
    SetIdle,
    /// Return to Manage Orders and re-open the bazaar.
    ResumeManageOrders,
}

/// What follows a search, from what was searched and the slot found.
///
/// The item and the sell button are clicked (advancing the step) or, where
/// missing, the flow closes, resets and goes idle. On the confirmation page
/// the confirm button is clicked where found; in any case the flow then
/// resets, clears the inventory-full flag and returns to Manage Orders.
pub open spec fn spec_insta_sell_actions(search: InstaSellSearch, found: Option<usize>) -> Seq<InstaSellAction> {
    match search {
        InstaSellSearch::Item => match found {
            Some(i) => seq![InstaSellAction::SetStep(InstaSellStep::FindSellButton), InstaSellAction::Click(i)],
            None => seq![InstaSellAction::Close, InstaSellAction::ResetFlow, InstaSellAction::SetIdle],
        },
        InstaSellSearch::SellButton => match found {
            Some(i) => seq![InstaSellAction::SetStep(InstaSellStep::WaitConfirm), InstaSellAction::Click(i)],
            None => seq![InstaSellAction::Close, InstaSellAction::ResetFlow, InstaSellAction::SetIdle],
        },
        InstaSellSearch::Confirm => (match found {
            Some(i) => seq![InstaSellAction::Click(i)],
            None => Seq::empty(),
        }) + seq![
            InstaSellAction::Pause(500),
            InstaSellAction::ResetFlow,
            InstaSellAction::ClearInventoryFull,
            InstaSellAction::ResumeManageOrders,
        ],
        InstaSellSearch::Nothing => Seq::empty(),
    }
}

/// What follows a search.
pub fn insta_sell_actions(search: InstaSellSearch, found: Option<usize>) -> (r: Vec<InstaSellAction>)
    ensures
        r@ == spec_insta_sell_actions(search, found),
{
    let mut r: Vec<InstaSellAction> = Vec::new();
    match search {
        InstaSellSearch::Item => match found {
            Some(i) => {
                r.push(InstaSellAction::SetStep(InstaSellStep::FindSellButton));
                r.push(InstaSellAction::Click(i));
            },
            None => {
                r.push(InstaSellAction::Close);
                r.push(InstaSellAction::ResetFlow);
                r.push(InstaSellAction::SetIdle);
            },
        },
        InstaSellSearch::SellButton => match found {
            Some(i) => {
                r.push(InstaSellAction::SetStep(InstaSellStep::WaitConfirm));
                r.push(InstaSellAction::Click(i));
            },
            None => {
                r.push(InstaSellAction::Close);
                r.push(InstaSellAction::ResetFlow);
                r.push(InstaSellAction::SetIdle);
            },
        },
        InstaSellSearch::Confirm => {
            match found {
                Some(i) => r.push(InstaSellAction::Click(i)),
                None => {},
            }
            r.push(InstaSellAction::Pause(500));
            r.push(InstaSellAction::ResetFlow);
            r.push(InstaSellAction::ClearInventoryFull);
            r.push(InstaSellAction::ResumeManageOrders);
        },
        InstaSellSearch::Nothing => {},
    }
    assert(r@ =~= spec_insta_sell_actions(search, found));
    r
}


/// A found item or button is clicked and the flow moves on: for the item and
/// the "Sell Instantly" searches, a found slot `i` is clicked, the step
/// advances (to the sell button, resp. the confirmation), and the flow neither
/// closes nor goes idle; only where nothing was found does it close, reset
/// and go idle, without clicking.
pub proof fn law_found_slot_is_clicked(search: InstaSellSearch, found: Option<usize>)
    requires
        search == InstaSellSearch::Item || search == InstaSellSearch::SellButton,
    ensures
        ({
            let a = spec_insta_sell_actions(search, found);
            let next = if search == InstaSellSearch::Item {
                InstaSellStep::FindSellButton
            } else {
                InstaSellStep::WaitConfirm
            };
            match found {
                Some(i) => {
                    &&& a.contains(InstaSellAction::Click(i))
                    &&& a.contains(InstaSellAction::SetStep(next))
                    &&& !a.contains(InstaSellAction::Close)
                    &&& !a.contains(InstaSellAction::SetIdle)
                },
                None => {
                    &&& a.contains(InstaSellAction::Close)
                    &&& a.contains(InstaSellAction::SetIdle)
                    &&& forall|j: int| 0 <= j < a.len() ==> !(a[j] is Click)
                },
            }
        }),
{
    let a = spec_insta_sell_actions(search, found);
    match found {
        Some(i) => {
            assert(a[1] == InstaSellAction::Click(i));
            assert(a[0] is SetStep);
        },
        None => {
            assert(a[0] == InstaSellAction::Close);
            assert(a[2] == InstaSellAction::SetIdle);
        },
    }
}


/// On the confirmation page the found "Confirm" button is clicked first, and
/// whether or not it was found the flow returns to Manage Orders with the
/// inventory no longer marked full, never closing the window nor going idle.
pub proof fn law_confirm_returns_to_manage_orders(found: Option<usize>)
    ensures
        ({
            let a = spec_insta_sell_actions(InstaSellSearch::Confirm, found);
            &&& found is Some ==> a[0] == InstaSellAction::Click(found->0)
            &&& a.contains(InstaSellAction::ResumeManageOrders)
            &&& a.contains(InstaSellAction::ClearInventoryFull)
            &&& !a.contains(InstaSellAction::Close)
            &&& !a.contains(InstaSellAction::SetIdle)
        }),
{
    let a = spec_insta_sell_actions(InstaSellSearch::Confirm, found);
    let n: int = if found is Some { 1 } else { 0 };
    assert(a[n + 3] == InstaSellAction::ResumeManageOrders);
    assert(a[n + 2] == InstaSellAction::ClearInventoryFull);
}

} // verus!
