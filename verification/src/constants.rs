//! Timing constants and fixed GUI slots of the bot.

use vstd::prelude::*;

verus! {

/// Connection wait duration (seconds) - time to wait for bot connection to establish
pub const CONNECTION_WAIT_SECONDS: u64 = 2;

/// Delay after spawning in lobby before sending /play sb command
pub const LOBBY_COMMAND_DELAY_SECS: u64 = 3;

/// Delay after detecting SkyBlock join before teleporting to island
pub const ISLAND_TELEPORT_DELAY_SECS: u64 = 2;

/// Wait time for island teleport to complete
pub const TELEPORT_COMPLETION_WAIT_SECS: u64 = 3;

/// Timeout for waiting for SkyBlock join confirmation (seconds)
pub const SKYBLOCK_JOIN_TIMEOUT_SECS: u64 = 15;

/// Delay before clicking accept button in trade response window (milliseconds)
pub const TRADE_RESPONSE_DELAY_MS: u64 = 3400;

/// Timeout for the startup sequence (seconds)
pub const STARTUP_ENTRY_TIMEOUT_SECS: u64 = 60;

/// Interval for safety retry clicks in the Confirm Purchase window (milliseconds).
pub const CONFIRM_PURCHASE_RETRY_MS: u64 = 50;

/// Brief delay after closing a stale window so the server processes the
/// container-close packet before the next command is sent.
pub const WINDOW_CLOSE_DELAY_MS: u64 = 150;

/// Capacity of the queue of sold-auction ids waiting to be claimed.
pub const MAX_CLAIM_SOLD_UUID_QUEUE: usize = 64;

/// Delay before retrying the auction flow after closing a window to remove a
/// stuck item from the auction slot.
pub const AUCTION_RETRY_AFTER_STUCK_ITEM_MS: u64 = 2000;

/// Maximum number of retry attempts when "You already have an item in the auction
/// slot!" keeps recurring.
pub const MAX_AUCTION_STUCK_ITEM_RETRIES: u8 = 3;

/// Fallback slot index for "Manage Orders" in the Bazaar GUI when dynamic name
/// lookup fails.
pub const MANAGE_ORDERS_FALLBACK_SLOT: usize = 50;

/// Fallback slot index for "Sell Inventory Now" in the Bazaar GUI when dynamic
/// name lookup fails.
pub const SELL_INVENTORY_NOW_FALLBACK_SLOT: usize = 47;

/// Debounce interval for rebuilding the cached window JSON on slot updates.
pub const WINDOW_CACHE_REBUILD_DEBOUNCE_MS: u64 = 100;

/// Debounce interval for rebuilding the cached inventory JSON on slot updates.
pub const INVENTORY_CACHE_REBUILD_DEBOUNCE_MS: u64 = 100;

/// Timeout (seconds) for waiting on a collect or cancel confirmation.
pub const ORDER_ACTION_CONFIRMATION_TIMEOUT_SECS: u64 = 8;

/// Maximum number of cancel attempts per order before giving up.
pub const MAX_CANCEL_RETRIES: u32 = 5;

/// Minimum number of empty player-inventory slots required to consider the
/// inventory "not full".
pub const MIN_FREE_SLOTS_FOR_BUY: u8 = 2;

} // verus!
