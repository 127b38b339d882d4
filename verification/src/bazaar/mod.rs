//! Decisions of the bazaar window flows.

pub mod manage_orders;
pub mod order_placement;
pub mod insta_sell;
pub mod sell_inventory;
