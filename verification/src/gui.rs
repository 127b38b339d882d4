//! What the window handlers share: the bot's top-level state and window-title tests.

use vstd::prelude::*;
use crate::text::{chars_of, contains_chars, lowercase, lowercase_chars, spec_contains};

verus! {

/// The bot's top-level activity, as far as the window handlers set or test it.
#[derive(Debug, Clone, Copy, PartialEq, Eq, Structural)]
pub enum BotState {
    Idle,
    Purchasing,
    ClaimingSold,
    CancellingAuction,
    BuyingCookie,
    ManagingOrders,
}

/// `title` holds `pat` (`str::contains`).
pub fn title_contains(title: &str, pat: &str) -> (b: bool)
    ensures
        b == spec_contains(title@, pat@),
{
    let t = chars_of(title);
    let p = chars_of(pat);
    contains_chars(&t, &p)
}

/// The lowercase form of `title` holds `pat`.
pub fn title_contains_lowercase(title: &str, pat: &str) -> (b: bool)
    ensures
        b == spec_contains(lowercase(title@), pat@),
{
    let t = chars_of(title);
    let low = lowercase_chars(&t);
    let p = chars_of(pat);
    contains_chars(&low, &p)
}

} // verus!
