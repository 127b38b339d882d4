//! Verified core of a SkyBlock auction-house and bazaar flipping bot.

pub mod text;
pub mod numeral;
pub mod profit;
pub mod parsers;
pub mod steps;
pub mod constants;
pub mod gui;
pub mod auction;
pub mod bazaar;
