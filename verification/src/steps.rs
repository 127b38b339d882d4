//! GUI workflow step enums — one enum per bot flow.

use vstd::prelude::*;

verus! {

/// Which step of the auction creation flow the bot is in.
#[derive(Debug, Clone, Copy, PartialEq, Eq, Structural, Default)]
pub enum AuctionStep {
    /// Just sent /ah, waiting for "Auction House".
    #[default]
    Initial,
    /// Clicked the Manage Auctions slot in AH, waiting for "Manage Auctions".
    OpenManage,
    /// Clicked "Create Auction" in Manage Auctions, waiting for "Create Auction".
    ClickCreate,
    /// Clicked the BIN slot in "Create Auction", waiting for "Create BIN Auction".
    SelectBIN,
    /// Clicked the item and the price setter; a sign is expected.
    PriceSign,
    /// Price sign done; "Create BIN Auction" second visit → click the duration slot.
    SetDuration,
    /// "Auction Duration" opened and its sign slot clicked; a sign is expected for the duration.
    DurationSign,
    /// Duration sign done; "Create BIN Auction" third visit → click the confirm slot.
    ConfirmSell,
    /// In "Confirm BIN Auction" → click the final confirm slot.
    FinalConfirm,
}

/// Which step of the bazaar order-placement flow the bot is in.
#[derive(Debug, Clone, Copy, PartialEq, Eq, Structural, Default)]
pub enum BazaarStep {
    #[default]
    Initial,
    SearchResults,
    SelectOrderType,
    SetAmount,
    SetPrice,
    Confirm,
}

/// Steps for the InstaSelling flow (separate from bazaar order placement).
#[derive(Debug, Clone, Copy, PartialEq, Eq, Structural, Default)]
pub enum InstaSellStep {
    /// /bz opened — searching for the item in results.
    #[default]
    FindItem,
    /// On item detail page — looking for "Sell Instantly".
    FindSellButton,
    /// On confirmation/warning page — waiting for "Confirm" button.
    WaitConfirm,
}

/// Steps for the SellingInventoryBz flow.
#[derive(Debug, Clone, Copy, PartialEq, Eq, Structural, Default)]
pub enum SellInventoryStep {
    /// Bazaar main page — clicking "Sell Inventory Now".
    #[default]
    Initial,
    /// Confirmation page — clicking the sell slot.
    ConfirmWindow,
}

/// Sub-steps within the BuyingCookie state.
#[derive(Debug, Clone, Copy, PartialEq, Eq, Structural, Default)]
pub enum CookieStep {
    /// Sent /bz booster cookie, waiting for Bazaar window.
    #[default]
    Initial,
    /// Clicked cookie item, waiting for detail window.
    ItemDetail,
    /// Clicked Buy Instantly, waiting for confirm window.
    BuyConfirm,
    /// Clicked Confirm, waiting for cookie to appear in inventory.
    WaitingForCookie,
    /// Right-clicked cookie, waiting for cookie GUI window.
    ConsumingCookie,
}

} // verus!
