//! Decisions of the booster-cookie flows: read the remaining cookie time
//! from the SkyBlock menu, and buy and consume a cookie when it runs low.

use vstd::prelude::*;
use crate::gui::title_contains;
use crate::steps::CookieStep;
use crate::text::{
    chars_of, contains_chars, join_strings, lowercase, lowercase_chars, spec_contains, spec_join,
};

verus! {

/// Coins the purse must hold before a cookie is bought (1.5 times the usual price).
pub const MIN_PURSE_FOR_COOKIE: u64 = 7_500_000;

/// The lore of a slot shows the cookie buff: its lines, joined by spaces and
/// lowercased, mention "duration".
pub open spec fn spec_shows_cookie_duration(lore: Seq<Seq<char>>) -> bool {
    spec_contains(lowercase(spec_join(lore, " "@)), "duration"@)
}

/// The first slot (in `lores`, one lore per slot) that shows the cookie buff.
pub open spec fn spec_cookie_buff_slot_from(lores: Seq<Seq<Seq<char>>>, k: int) -> Option<int>
    decreases lores.len() - k,
{
    if k < 0 || k >= lores.len() {
        None
    } else if spec_shows_cookie_duration(lores[k]) {
        Some(k)
    } else {
        spec_cookie_buff_slot_from(lores, k + 1)
    }
}

/// The lore lines of each slot, as character sequences.
pub open spec fn lores_view(lores: Seq<Vec<String>>) -> Seq<Seq<Seq<char>>> {
    lores.map_values(|l: Vec<String>| l@.map_values(|s: String| s@))
}

/// The first slot whose lore shows the cookie buff; the caller reads the
/// remaining time from that lore.
pub fn cookie_buff_slot(lores: &Vec<Vec<String>>) -> (r: Option<usize>)
    ensures
        match r {
            Some(i) => spec_cookie_buff_slot_from(lores_view(lores@), 0) == Some(i as int),
            None => spec_cookie_buff_slot_from(lores_view(lores@), 0) is None,
        },
{
    let ghost views = lores_view(lores@);
    let space = chars_of(" ");
    let duration = chars_of("duration");
    let mut k: usize = 0;
    while k < lores.len()
        invariant
            k <= lores.len(),
            views == lores_view(lores@),
            space@ == " "@,
            duration@ == "duration"@,
            spec_cookie_buff_slot_from(views, 0) == spec_cookie_buff_slot_from(views, k as int),
        decreases lores.len() - k,
    {
        let joined = join_strings(lores[k].as_slice(), &space);
        let low = lowercase_chars(&joined);
        assert(views[k as int] == lores@[k as int]@.map_values(|s: String| s@));
        if contains_chars(&low, &duration) {
            return Some(k);
        }
        k = k + 1;
    }
    None
}

/// What the cookie check decides.
#[derive(Debug, Clone, Copy, PartialEq, Eq, Structural)]
pub enum CookieCheck {
    /// No cookie time was found: go idle.
    NotFound,
    /// Enough time remains (in hours): record it and go idle.
    Sufficient { hours: u64 },
    /// Too little time remains, but the purse is too small: report and go idle.
    TooPoor { hours: u64, purse_millions: u64 },
    /// Buy a cookie: reset the cookie step, search the bazaar for it and go to BuyingCookie.
    Buy { hours: u64 },
}

/// The cookie check, from the remaining cookie time (seconds) where found,
/// the threshold (hours) and the purse where known.
pub open spec fn spec_cookie_check(secs: Option<u64>, threshold_hours: u64, purse: Option<u64>) -> CookieCheck {
    match secs {
        None => CookieCheck::NotFound,
        Some(s) => {
            let hours = (s / 3600) as u64;
            let coins = match purse {
                Some(p) => p,
                None => 0,
            };
            if hours >= threshold_hours {
                CookieCheck::Sufficient { hours }
            } else if coins < MIN_PURSE_FOR_COOKIE {
                CookieCheck::TooPoor { hours, purse_millions: (coins / 1_000_000) as u64 }
            } else {
                CookieCheck::Buy { hours }
            }
        },
    }
}

/// The cookie check.
pub fn cookie_check(secs: Option<u64>, threshold_hours: u64, purse: Option<u64>) -> (r: CookieCheck)
    ensures
        r == spec_cookie_check(secs, threshold_hours, purse),
{
    match secs {
        None => CookieCheck::NotFound,
        Some(s) => {
            let hours = s / 3600;
            let coins = match purse {
                Some(p) => p,
                None => 0,
            };
            if hours >= threshold_hours {
                CookieCheck::Sufficient { hours }
            } else if coins < MIN_PURSE_FOR_COOKIE {
                CookieCheck::TooPoor { hours, purse_millions: coins / 1_000_000 }
            } else {
                CookieCheck::Buy { hours }
            }
        },
    }
}

/// What the cookie-buying flow does with a window.
#[derive(Debug, Clone, Copy, PartialEq, Eq, Structural)]
pub enum CookieWindowAction {
    /// Bazaar search results: click the cookie (slot 11), go to `ItemDetail`.
    ClickItem,
    /// Item detail: click "Buy Instantly" (slot 10), go to `BuyConfirm`.
    ClickBuyInstantly,
    /// Confirmation: claim the step (to `WaitingForCookie`), confirm at slot
    /// 10, close, then find the cookie in the inventory and use it.
    ConfirmAndConsume,
    /// A window while waiting for the cookie: close it.
    CloseStray,
    /// The cookie's GUI: claim the step (back to `Initial`), consume at slot
    /// 11, close, report and go idle.
    Consume,
    /// Nothing to do.
    Nothing,
}

/// What the cookie-buying flow does with a window titled `title` at `step`.
pub open spec fn spec_cookie_window_action(step: CookieStep, title: Seq<char>) -> CookieWindowAction {
    match step {
        CookieStep::Initial => if spec_contains(title, "Bazaar"@) {
            CookieWindowAction::ClickItem
        } else {
            CookieWindowAction::Nothing
        },
        CookieStep::ItemDetail => CookieWindowAction::ClickBuyInstantly,
        CookieStep::BuyConfirm => CookieWindowAction::ConfirmAndConsume,
        CookieStep::WaitingForCookie => CookieWindowAction::CloseStray,
        CookieStep::ConsumingCookie => CookieWindowAction::Consume,
    }
}

/// What the cookie-buying flow does with a window.
pub fn cookie_window_action(step: CookieStep, title: &str) -> (r: CookieWindowAction)
    ensures
        r == spec_cookie_window_action(step, title@),
{
    match step {
        CookieStep::Initial => {
            if title_contains(title, "Bazaar") {
                CookieWindowAction::ClickItem
            } else {
                CookieWindowAction::Nothing
            }
        },
        CookieStep::ItemDetail => CookieWindowAction::ClickBuyInstantly,
        CookieStep::BuyConfirm => CookieWindowAction::ConfirmAndConsume,
        CookieStep::WaitingForCookie => CookieWindowAction::CloseStray,
        CookieStep::ConsumingCookie => CookieWindowAction::Consume,
    }
}

/// The step after a claim of `expected`, and whether the claim succeeded:
/// only a step that still is `expected` moves, to `next`.
pub open spec fn spec_claim_step(current: CookieStep, expected: CookieStep, next: CookieStep) -> (CookieStep, bool) {
    if current == expected {
        (next, true)
    } else {
        (current, false)
    }
}

/// A step that two handlers may race for is claimed only by the first: the
/// one that still finds `expected` moves it to `next`.
pub fn claim_step(current: CookieStep, expected: CookieStep, next: CookieStep) -> (r: (CookieStep, bool))
    ensures
        r == spec_claim_step(current, expected, next),
{
    if current == expected {
        (next, true)
    } else {
        (current, false)
    }
}

/// An item's display name (lowercased) names a cookie.
pub open spec fn spec_names_cookie(name: Seq<char>) -> bool {
    let low = lowercase(name);
    spec_contains(low, "booster cookie"@) || spec_contains(low, "cookie"@)
}

/// The first player slot (index into `names`) whose item names a cookie.
pub open spec fn spec_cookie_slot_from(names: Seq<Option<Seq<char>>>, k: int) -> Option<int>
    decreases names.len() - k,
{
    if k < 0 || k >= names.len() {
        None
    } else if spec_names_cookie(
        match names[k] {
            Some(n) => n,
            None => Seq::empty(),
        },
    ) {
        Some(k)
    } else {
        spec_cookie_slot_from(names, k + 1)
    }
}

/// The display names of the player slots, as character sequences.
pub open spec fn names_view(names: Seq<Option<String>>) -> Seq<Option<Seq<char>>> {
    names.map_values(
        |n: Option<String>|
            match n {
                Some(s) => Some(s@),
                None => None,
            },
    )
}

/// The first player slot whose item names a cookie.
pub fn cookie_slot(names: &Vec<Option<String>>) -> (r: Option<usize>)
    ensures
        match r {
            Some(i) => spec_cookie_slot_from(names_view(names@), 0) == Some(i as int),
            None => spec_cookie_slot_from(names_view(names@), 0) is None,
        },
{
    let ghost views = names_view(names@);
    let booster = chars_of("booster cookie");
    let cookie = chars_of("cookie");
    let mut k: usize = 0;
    while k < names.len()
        invariant
            k <= names.len(),
            views == names_view(names@),
            booster@ == "booster cookie"@,
            cookie@ == "cookie"@,
            spec_cookie_slot_from(views, 0) == spec_cookie_slot_from(views, k as int),
        decreases names.len() - k,
    {
        let name = match &names[k] {
            Some(s) => chars_of(s.as_str()),
            None => Vec::new(),
        };
        assert(name@ == match views[k as int] {
            Some(n) => n,
            None => Seq::<char>::empty(),
        });
        let low = lowercase_chars(&name);
        if contains_chars(&low, &booster) || contains_chars(&low, &cookie) {
            return Some(k);
        }
        k = k + 1;
    }
    None
}

/// How the bought cookie is brought to hand.
#[derive(Debug, Clone, Copy, PartialEq, Eq, Structural)]
pub enum HotbarPlan {
    /// It is in the hotbar already: select this hotbar slot.
    Select(u16),
    /// Move it from this slot of the player's inventory window to slot 36
    /// (the first hotbar slot), then select hotbar slot 0.
    MoveThenSelect { from: i16 },
}

/// How to bring the cookie at player index `idx` (0..=26 inventory, 27..=35
/// hotbar) to hand, where the player slots start at window slot `player_start`.
pub open spec fn spec_hotbar_plan(idx: nat, player_start: nat) -> HotbarPlan {
    if idx >= 27 {
        HotbarPlan::Select((idx - 27) as u16)
    } else {
        HotbarPlan::MoveThenSelect { from: (player_start + idx) as i16 }
    }
}

/// How to bring the cookie to hand.
pub fn hotbar_plan(idx: usize, player_start: usize) -> (r: HotbarPlan)
    requires
        idx < 36,
        player_start + 36 <= i16::MAX,
    ensures
        r == spec_hotbar_plan(idx as nat, player_start as nat),
{
    if idx >= 27 {
        HotbarPlan::Select((idx - 27) as u16)
    } else {
        HotbarPlan::MoveThenSelect { from: (player_start + idx) as i16 }
    }
}

/// Hours a consumed cookie adds: four days.
pub const COOKIE_HOURS_ADDED: u64 = 96;

/// The cookie time in hours before and after consuming a cookie (which adds four days).
pub fn consumed_cookie_hours(cookie_time_secs: u64) -> (r: (u64, u64))
    requires
        cookie_time_secs + 4 * 86400 <= u64::MAX,
    ensures
        r == ((cookie_time_secs / 3600) as u64, ((cookie_time_secs + 4 * 86400) / 3600) as u64),
        r.1 == r.0 + COOKIE_HOURS_ADDED,
{
    ((cookie_time_secs / 3600), ((cookie_time_secs + 4 * 86400) / 3600))
}


// ---------------------------------------------------------------------------
// Laws
// ---------------------------------------------------------------------------

/// A step is taken once: where a claim moves the step on to another one, a
/// second claim of the same step fails and leaves the step where it is.
pub proof fn law_cookie_step_taken_once(current: CookieStep, expected: CookieStep, next: CookieStep)
    requires
        next != expected,
    ensures
        ({
            let after = spec_claim_step(current, expected, next).0;
            spec_claim_step(after, expected, next) == (after, false)
        }),
{
}

/// A cookie is bought only when the remaining time is below the threshold
/// and the purse holds at least [`MIN_PURSE_FOR_COOKIE`]; and whenever both
/// hold, one is bought.
pub proof fn law_cookie_bought_exactly_when_needed_and_affordable(secs: u64, threshold_hours: u64, purse: u64)
    ensures
        (spec_cookie_check(Some(secs), threshold_hours, Some(purse)) is Buy) <==> (secs / 3600
            < threshold_hours && purse >= MIN_PURSE_FOR_COOKIE),
{
}


/// Each step of the cookie purchase handles its own window: the cookie item
/// is clicked only on a bazaar page at the first step, "Buy Instantly" only
/// on the item page, the purchase is confirmed (and the cookie consumed)
/// only at the confirmation step, a window that opens while waiting for the
/// cookie is closed, and the cookie's own window consumes it.
pub proof fn law_cookie_steps_handle_their_window(step: CookieStep, title: Seq<char>)
    ensures
        ({
            let a = spec_cookie_window_action(step, title);
            &&& (a == CookieWindowAction::ClickItem <==> step == CookieStep::Initial && spec_contains(title, "Bazaar"@))
            &&& (a == CookieWindowAction::ClickBuyInstantly <==> step == CookieStep::ItemDetail)
            &&& (a == CookieWindowAction::ConfirmAndConsume <==> step == CookieStep::BuyConfirm)
            &&& (a == CookieWindowAction::CloseStray <==> step == CookieStep::WaitingForCookie)
            &&& (a == CookieWindowAction::Consume <==> step == CookieStep::ConsumingCookie)
        }),
{
}

} // verus!
