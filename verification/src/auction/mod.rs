//! Decisions of the auction-house window flows.

pub mod purchasing;
pub mod selling;
pub mod cookie;
pub mod cancelling;
pub mod claiming;
