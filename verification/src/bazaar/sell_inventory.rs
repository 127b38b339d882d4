//! Decisions of the sell-inventory flow: /bz → "Sell Inventory Now" →
//! confirm (slot 11).

use vstd::prelude::*;
use crate::constants::SELL_INVENTORY_NOW_FALLBACK_SLOT;
use crate::gui::title_contains;
use crate::steps::SellInventoryStep;
use crate::text::spec_contains;

verus! {

/// What the sell-inventory flow does with a window.
#[derive(Debug, Clone, Copy, PartialEq, Eq, Structural)]
pub enum SellInventoryAction {
    /// Go to `ConfirmWindow` and click "Sell Inventory Now" at this slot.
    OpenSell(usize),
    /// Click slot 11, close, go back to `Initial` and go idle.
    Confirm,
    /// Nothing to do.
    Nothing,
}

/// What the flow does with a window titled `title` at `step`, where
/// "Sell Inventory Now" was found at `sell_slot` (else the fallback slot).
pub open spec fn spec_sell_inventory_action(step: SellInventoryStep, title: Seq<char>, sell_slot: Option<usize>) -> SellInventoryAction {
    match step {
        SellInventoryStep::Initial => if spec_contains(title, "Bazaar"@) {
            SellInventoryAction::OpenSell(
                match sell_slot {
                    Some(i) => i,
                    None => SELL_INVENTORY_NOW_FALLBACK_SLOT,
                },
            )
        } else {
            SellInventoryAction::Nothing
        },
        SellInventoryStep::ConfirmWindow => SellInventoryAction::Confirm,
    }
}

/// What the sell-inventory flow does with a window.
pub fn sell_inventory_action(step: SellInventoryStep, title: &str, sell_slot: Option<usize>) -> (r: SellInventoryAction)
    ensures
        r == spec_sell_inventory_action(step, title@, sell_slot),
{
    match step {
        SellInventoryStep::Initial => {
            if title_contains(title, "Bazaar") {
                SellInventoryAction::OpenSell(
                    match sell_slot {
                        Some(i) => i,
                        None => SELL_INVENTORY_NOW_FALLBACK_SLOT,
                    },
                )
            } else {
                SellInventoryAction::Nothing
            }
        },
        SellInventoryStep::ConfirmWindow => SellInventoryAction::Confirm,
    }
}


/// On a bazaar page at the first step the "Sell Inventory Now" button is
/// clicked where found (else its usual slot); on the confirmation the sale
/// is confirmed; nothing else is clicked.
pub proof fn law_sell_inventory_clicks(step: SellInventoryStep, title: Seq<char>, sell_slot: Option<usize>)
    ensures
        ({
            let a = spec_sell_inventory_action(step, title, sell_slot);
            &&& (step == SellInventoryStep::Initial && spec_contains(title, "Bazaar"@)) ==> a
                == SellInventoryAction::OpenSell(
                match sell_slot {
                    Some(i) => i,
                    None => SELL_INVENTORY_NOW_FALLBACK_SLOT,
                },
            )
            &&& (a is Confirm <==> step == SellInventoryStep::ConfirmWindow)
            &&& (a is OpenSell ==> step == SellInventoryStep::Initial)
        }),
{
}

} // verus!
