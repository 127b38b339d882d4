//! Realized-profit tracking and the parsers for Coflnet profit reports.

use vstd::prelude::*;
use crate::numeral::{
    ascii_lower, eq_ignore_ascii_case, exponent_mark_from, clamp_i64, decimal_parts, lemma_pow10_values, parse_scaled, pow10, shift_magnitude,
    spec_parse_scaled,
};
use crate::text::{
    is_ws, lemma_find_extend, lemma_take_non_ws_word, decimal_digits, lemma_decimal_digits, lemma_find_from, lemma_no_occurrence,
    lemma_remove_char_absent, lemma_remove_char_concat, lemma_remove_char_idempotent, is_digit,
    all_digits, all_digits_exec, chars_of, digits_value, digits_value_capped, find_chars,
    parse_u32_chars, remove_char, remove_char_chars, slice_chars, spec_find, spec_parse_u32,
    spec_strip_prefix, spec_trim, string_of, strip_prefix_chars, take_non_ws, take_non_ws_chars,
    trim_chars, lemma_find_skip, lemma_trimmed_digits, occurs_at,
};

verus! {

/// A single profit data point: (unix_timestamp_secs, cumulative_profit_coins)
pub type ProfitPoint = (u64, i64);

/// What a [`ProfitTracker`] holds: the AH and Bazaar charts and their running totals.
pub ghost struct ProfitHistory {
    pub ah_points: Seq<ProfitPoint>,
    pub bz_points: Seq<ProfitPoint>,
    pub ah_total: i64,
    pub bz_total: i64,
}

/// Profit tracker for AH and Bazaar realized profits.
///
/// Each chart starts with one point of value zero, and every change of a
/// total appends a point that holds the new total.
pub struct ProfitTracker {
    ah_points: Vec<ProfitPoint>,
    bz_points: Vec<ProfitPoint>,
    ah_total: i64,
    bz_total: i64,
}

impl View for ProfitTracker {
    type V = ProfitHistory;

    closed spec fn view(&self) -> ProfitHistory {
        ProfitHistory {
            ah_points: self.ah_points@,
            bz_points: self.bz_points@,
            ah_total: self.ah_total,
            bz_total: self.bz_total,
        }
    }
}

impl ProfitHistory {
    /// Each chart has a point, and its last point holds the current total.
    pub open spec fn wf(self) -> bool {
        &&& self.ah_points.len() >= 1
        &&& self.bz_points.len() >= 1
        &&& self.ah_points.last().1 == self.ah_total
        &&& self.bz_points.last().1 == self.bz_total
    }

    /// A fresh history whose charts start at `now` with value zero.
    pub open spec fn started_at(now: u64) -> ProfitHistory {
        ProfitHistory {
            ah_points: seq![(now, 0i64)],
            bz_points: seq![(now, 0i64)],
            ah_total: 0,
            bz_total: 0,
        }
    }

    /// The AH total set to `total`, with a point for it at `now`.
    pub open spec fn with_ah_total(self, now: u64, total: i64) -> ProfitHistory {
        ProfitHistory { ah_points: self.ah_points.push((now, total)), ah_total: total, ..self }
    }

    /// The Bazaar total set to `total`, with a point for it at `now`.
    pub open spec fn with_bz_total(self, now: u64, total: i64) -> ProfitHistory {
        ProfitHistory { bz_points: self.bz_points.push((now, total)), bz_total: total, ..self }
    }
}

/// The current unix time in seconds (zero where the clock is before the epoch).
///
/// Reads the system clock through `SystemTime::now`; nothing is promised of
/// the value, which depends on the machine's clock.
#[verifier::external_body]
fn now_unix() -> u64 {
    std::time::SystemTime::now().duration_since(std::time::UNIX_EPOCH).unwrap_or_default().as_secs()
}

/// A copy of a chart.
fn copy_points(v: &Vec<ProfitPoint>) -> (r: Vec<ProfitPoint>)
    ensures
        r@ == v@,
{
    let mut r: Vec<ProfitPoint> = Vec::new();
    let mut i: usize = 0;
    while i < v.len()
        invariant
            i <= v.len(),
            r@ == v@.take(i as int),
        decreases v.len() - i,
    {
        r.push(v[i]);
        i = i + 1;
        assert(r@ =~= v@.take(i as int));
    }
    assert(v@.take(v.len() as int) =~= v@);
    r
}

impl ProfitTracker {
    /// A tracker whose charts start now, at zero.
    pub fn new() -> (t: Self)
        ensures
            t@.wf(),
            exists|now: u64| t@ == #[trigger] ProfitHistory::started_at(now),
    {
        let now = now_unix();
        Self::new_at(now)
    }

    /// A tracker whose charts start at `now`, at zero.
    pub fn new_at(now: u64) -> (t: Self)
        ensures
            t@ == ProfitHistory::started_at(now),
            t@.wf(),
    {
        let t = ProfitTracker {
            ah_points: vec![(now, 0)],
            bz_points: vec![(now, 0)],
            ah_total: 0,
            bz_total: 0,
        };
        assert(t@.ah_points =~= seq![(now, 0i64)]);
        assert(t@.bz_points =~= seq![(now, 0i64)]);
        t
    }

    /// Record a realized AH profit (positive or negative) at time `now`.
    pub fn record_ah_profit_at(&mut self, now: u64, profit: i64)
        requires
            old(self)@.wf(),
            i64::MIN <= old(self)@.ah_total + profit <= i64::MAX,
        ensures
            final(self)@ == old(self)@.with_ah_total(now, (old(self)@.ah_total + profit) as i64),
            final(self)@.wf(),
    {
        let total = self.ah_total + profit;
        self.set_ah_total_at(now, total);
    }

    /// Record a realized AH profit (positive or negative).
    pub fn record_ah_profit(&mut self, profit: i64)
        requires
            old(self)@.wf(),
            i64::MIN <= old(self)@.ah_total + profit <= i64::MAX,
        ensures
            exists|now: u64|
                final(self)@ == #[trigger] old(self)@.with_ah_total(now, (old(self)@.ah_total + profit) as i64),
            final(self)@.wf(),
    {
        let now = now_unix();
        self.record_ah_profit_at(now, profit);
    }

    /// Replace the AH total with `total` and record a point for it at `now`.
    pub fn set_ah_total_at(&mut self, now: u64, total: i64)
        requires
            old(self)@.wf(),
        ensures
            final(self)@ == old(self)@.with_ah_total(now, total),
            final(self)@.wf(),
    {
        self.ah_total = total;
        self.ah_points.push((now, total));
    }

    /// Replace the AH total with an authoritative value (e.g. from Coflnet
    /// `/cofl profit`) and record a new data-point so the chart updates.
    pub fn set_ah_total(&mut self, total: i64)
        requires
            old(self)@.wf(),
        ensures
            exists|now: u64| final(self)@ == #[trigger] old(self)@.with_ah_total(now, total),
            final(self)@.wf(),
    {
        let now = now_unix();
        self.set_ah_total_at(now, total);
    }

    /// Record a realized Bazaar profit (positive or negative) at time `now`.
    pub fn record_bz_profit_at(&mut self, now: u64, profit: i64)
        requires
            old(self)@.wf(),
            i64::MIN <= old(self)@.bz_total + profit <= i64::MAX,
        ensures
            final(self)@ == old(self)@.with_bz_total(now, (old(self)@.bz_total + profit) as i64),
            final(self)@.wf(),
    {
        let total = self.bz_total + profit;
        self.set_bz_total_at(now, total);
    }

    /// Record a realized Bazaar profit (positive or negative).
    pub fn record_bz_profit(&mut self, profit: i64)
        requires
            old(self)@.wf(),
            i64::MIN <= old(self)@.bz_total + profit <= i64::MAX,
        ensures
            exists|now: u64|
                final(self)@ == #[trigger] old(self)@.with_bz_total(now, (old(self)@.bz_total + profit) as i64),
            final(self)@.wf(),
    {
        let now = now_unix();
        self.record_bz_profit_at(now, profit);
    }

    /// Replace the Bazaar total with `total` and record a point for it at `now`.
    pub fn set_bz_total_at(&mut self, now: u64, total: i64)
        requires
            old(self)@.wf(),
        ensures
            final(self)@ == old(self)@.with_bz_total(now, total),
            final(self)@.wf(),
    {
        self.bz_total = total;
        self.bz_points.push((now, total));
    }

    /// Replace the BZ total with an authoritative value (e.g. from `/cofl bz l`
    /// accumulated profit) and record a new data-point so the chart updates.
    pub fn set_bz_total(&mut self, total: i64)
        requires
            old(self)@.wf(),
        ensures
            exists|now: u64| final(self)@ == #[trigger] old(self)@.with_bz_total(now, total),
            final(self)@.wf(),
    {
        let now = now_unix();
        self.set_bz_total_at(now, total);
    }

    /// Get all AH profit data points.
    pub fn ah_points(&self) -> (r: Vec<ProfitPoint>)
        ensures
            r@ == self@.ah_points,
    {
        copy_points(&self.ah_points)
    }

    /// Get all Bazaar profit data points.
    pub fn bz_points(&self) -> (r: Vec<ProfitPoint>)
        ensures
            r@ == self@.bz_points,
    {
        copy_points(&self.bz_points)
    }

    /// Get totals: (ah_total, bz_total)
    pub fn totals(&self) -> (r: (i64, i64))
        ensures
            r == (self@.ah_total, self@.bz_total),
    {
        (self.ah_total, self.bz_total)
    }
}

// ---------------------------------------------------------------------------
// Short numbers such as `82.7M`, `1.5B`, `250K`, `-768K` or `1,500,000`
// ---------------------------------------------------------------------------

/// The power of ten that a magnitude suffix stands for: `B`/`b` nine,
/// `M`/`m` six, `K`/`k` three.
pub open spec fn suffix_scale(c: char) -> Option<nat> {
    if c == 'B' || c == 'b' {
        Some(9)
    } else if c == 'M' || c == 'm' {
        Some(6)
    } else if c == 'K' || c == 'k' {
        Some(3)
    } else {
        None
    }
}

/// The value of a short number: commas are dropped, then a trailing
/// `B`, `M` or `K` (either case) scales the exact value of the numeral
/// before it (see [`spec_parse_scaled`]).
pub open spec fn spec_parse_short_number(s: Seq<char>) -> Option<i64> {
    let t = remove_char(s, ',');
    if t.len() > 0 && suffix_scale(t.last()) is Some {
        spec_parse_scaled(t.drop_last(), suffix_scale(t.last())->0)
    } else {
        spec_parse_scaled(t, 0)
    }
}

/// Parse a human-readable short number like `82.7M`, `1.5B`, `250K`, or `500`.
///
/// Commas are ignored; the numeral (in the form `f64::from_str` accepts:
/// sign, digits with at most one `.`, an exponent, or `inf`/`infinity`/`nan`)
/// is read exactly and scaled by the suffix, the value truncated toward zero
/// and saturated at the bounds of `i64` (an infinity saturates, `nan` is zero).
pub fn parse_short_number(s: &str) -> (r: Option<i64>)
    ensures
        r == spec_parse_short_number(s@),
{
    let chars = chars_of(s);
    let t = remove_char_chars(&chars, ',');
    if t.len() > 0 {
        let last = t[t.len() - 1];
        let k: usize = if last == 'B' || last == 'b' {
            9
        } else if last == 'M' || last == 'm' {
            6
        } else if last == 'K' || last == 'k' {
            3
        } else {
            0
        };
        if k > 0 {
            let body = slice_chars(&t, 0, t.len() - 1);
            assert(body@ =~= t@.drop_last());
            return parse_scaled(&body, k as u32);
        }
    }
    parse_scaled(&t, 0)
}


// ---------------------------------------------------------------------------
// Coflnet profit reports
// ---------------------------------------------------------------------------

/// The profit in a `/cofl profit` response:
/// `According to our data <ign> made <amount> in the last <days> days across <N> auctions`.
pub open spec fn spec_parse_cofl_profit_response(msg: Seq<char>) -> Option<i64> {
    match spec_strip_prefix(msg, "According to our data "@) {
        None => None,
        Some(rest) => match spec_find(rest, " made "@) {
            None => None,
            Some(made_idx) => {
                let after_made = rest.skip(made_idx + " made "@.len());
                match spec_find(after_made, " in the last "@) {
                    None => None,
                    Some(end) => spec_parse_short_number(spec_trim(after_made.take(end))),
                }
            },
        },
    }
}

/// The profit of one `/cofl bz l` flip line: the short number between the
/// first `=> ` and the first `(` after it.
pub open spec fn spec_parse_bz_list_flip_profit(line: Seq<char>) -> Option<i64> {
    match spec_find(line, "=> "@) {
        None => None,
        Some(arrow_idx) => {
            let after_arrow = line.skip(arrow_idx + "=> "@.len());
            match spec_find(after_arrow, "("@) {
                None => None,
                Some(paren_idx) => spec_parse_short_number(spec_trim(after_arrow.take(paren_idx))),
            }
        },
    }
}

/// Item name, profit and flip count of one `/cofl bz l` flip line:
/// `<amount>x<item name>: <buy> -> <sell> => <profit>(<count>)`.
pub open spec fn spec_parse_bz_list_flip_detail(line: Seq<char>) -> Option<(Seq<char>, i64, u32)> {
    match spec_find(line, "x"@) {
        None => None,
        Some(x_idx) => {
            let amount = spec_trim(line.take(x_idx));
            let rest = line.skip(x_idx + 1);
            if amount.len() == 0 || !all_digits(amount) {
                None
            } else {
                match spec_find(rest, ":"@) {
                    None => None,
                    Some(colon_idx) => {
                        let item_name = spec_trim(rest.take(colon_idx));
                        if item_name.len() == 0 {
                            None
                        } else {
                            flip_detail_tail(rest, item_name)
                        }
                    },
                }
            }
        },
    }
}

/// The part of [`spec_parse_bz_list_flip_detail`] after the item name.
pub open spec fn flip_detail_tail(rest: Seq<char>, item_name: Seq<char>) -> Option<
    (Seq<char>, i64, u32),
> {
    match spec_find(rest, "=> "@) {
        None => None,
        Some(arrow_idx) => {
            let after_arrow = rest.skip(arrow_idx + "=> "@.len());
            match spec_find(after_arrow, "("@) {
                None => None,
                Some(paren_idx) => match spec_parse_short_number(
                    spec_trim(after_arrow.take(paren_idx)),
                ) {
                    None => None,
                    Some(profit) => {
                        let after_paren = after_arrow.skip(paren_idx + 1);
                        match spec_find(after_paren, ")"@) {
                            None => None,
                            Some(close_paren) => match spec_parse_u32(
                                spec_trim(after_paren.take(close_paren)),
                            ) {
                                None => None,
                                Some(count) => Some((item_name, profit, count)),
                            },
                        }
                    },
                },
            }
        },
    }
}

/// The total in a `/cofl bz h` response: the word after the first `Total Profit: `.
pub open spec fn spec_parse_cofl_bz_h_total_profit(msg: Seq<char>) -> Option<i64> {
    match spec_find(msg, "Total Profit: "@) {
        None => None,
        Some(idx) => spec_parse_short_number(take_non_ws(msg.skip(idx + "Total Profit: "@.len()))),
    }
}

/// Parses a short number held as characters.
fn parse_short_number_chars(s: &Vec<char>) -> (r: Option<i64>)
    ensures
        r == spec_parse_short_number(s@),
{
    let st = string_of(s);
    parse_short_number(st.as_str())
}

/// Parse a Coflnet `/cofl profit` response and return the total profit in coins.
///
/// Expected format (color-stripped):
/// `"According to our data <ign> made <amount> in the last <days> days across <N> auctions"`
pub fn parse_cofl_profit_response(clean_msg: &str) -> (r: Option<i64>)
    ensures
        r == spec_parse_cofl_profit_response(clean_msg@),
{
    let msg = chars_of(clean_msg);
    let prefix = chars_of("According to our data ");
    let made = chars_of(" made ");
    let in_the_last = chars_of(" in the last ");
    let rest = match strip_prefix_chars(&msg, &prefix) {
        Some(r) => r,
        None => return None,
    };
    let made_idx = match find_chars(&rest, &made) {
        Some(i) => i,
        None => return None,
    };
    let after_made = slice_chars(&rest, made_idx + made.len(), rest.len());
    assert(after_made@ =~= rest@.skip(made_idx + " made "@.len()));
    let end = match find_chars(&after_made, &in_the_last) {
        Some(e) => e,
        None => return None,
    };
    let amount = slice_chars(&after_made, 0, end);
    assert(amount@ =~= after_made@.take(end as int));
    let amount = trim_chars(&amount);
    parse_short_number_chars(&amount)
}

/// Parse a single flip line from `/cofl bz l` output and return the profit.
///
/// Expected format: `"2xJungle Key: 1.05M -> 287K => -768K(1)"`
pub fn parse_bz_list_flip_profit(line: &str) -> (r: Option<i64>)
    ensures
        r == spec_parse_bz_list_flip_profit(line@),
{
    let l = chars_of(line);
    let arrow = chars_of("=> ");
    let paren = chars_of("(");
    let arrow_idx = match find_chars(&l, &arrow) {
        Some(i) => i,
        None => return None,
    };
    let after_arrow = slice_chars(&l, arrow_idx + arrow.len(), l.len());
    assert(after_arrow@ =~= l@.skip(arrow_idx + "=> "@.len()));
    let paren_idx = match find_chars(&after_arrow, &paren) {
        Some(i) => i,
        None => return None,
    };
    let profit = slice_chars(&after_arrow, 0, paren_idx);
    assert(profit@ =~= after_arrow@.take(paren_idx as int));
    let profit = trim_chars(&profit);
    parse_short_number_chars(&profit)
}

/// The tail of [`parse_bz_list_flip_detail`], after the item name.
fn flip_detail_tail_exec(rest: &Vec<char>, item_name: Vec<char>) -> (r: Option<(String, i64, u32)>)
    ensures
        match r {
            Some((n, p, c)) => flip_detail_tail(rest@, item_name@) == Some((n@, p, c)),
            None => flip_detail_tail(rest@, item_name@) is None,
        },
{
    let arrow = chars_of("=> ");
    let open_paren = chars_of("(");
    let close = chars_of(")");
    proof {
        reveal_strlit("(");
    }
    let arrow_idx = match find_chars(rest, &arrow) {
        Some(i) => i,
        None => return None,
    };
    let n = rest.len();
    let after_arrow = slice_chars(rest, arrow_idx + arrow.len(), n);
    assert(after_arrow@ =~= rest@.skip(arrow_idx + "=> "@.len()));
    let paren_idx = match find_chars(&after_arrow, &open_paren) {
        Some(i) => i,
        None => return None,
    };
    let profit_str = slice_chars(&after_arrow, 0, paren_idx);
    assert(profit_str@ =~= after_arrow@.take(paren_idx as int));
    let profit_str = trim_chars(&profit_str);
    let profit = match parse_short_number_chars(&profit_str) {
        Some(p) => p,
        None => return None,
    };
    let after_paren = slice_chars(&after_arrow, paren_idx + 1, after_arrow.len());
    assert(after_paren@ =~= after_arrow@.skip(paren_idx + 1));
    let close_paren = match find_chars(&after_paren, &close) {
        Some(i) => i,
        None => return None,
    };
    let count_str = slice_chars(&after_paren, 0, close_paren);
    assert(count_str@ =~= after_paren@.take(close_paren as int));
    let count_str = trim_chars(&count_str);
    let count = match parse_u32_chars(&count_str) {
        Some(c) => c,
        None => return None,
    };
    Some((string_of(&item_name), profit, count))
}

/// Parse a single flip line from `/cofl bz l` and return `(item_name, profit, flip_count)`.
///
/// Expected format: `"128xWorm Membrane: 7.16M -> 7.91M => 741K(7)"`
pub fn parse_bz_list_flip_detail(line: &str) -> (r: Option<(String, i64, u32)>)
    ensures
        match r {
            Some((n, p, c)) => spec_parse_bz_list_flip_detail(line@) == Some((n@, p, c)),
            None => spec_parse_bz_list_flip_detail(line@) is None,
        },
{
    let l = chars_of(line);
    let x = chars_of("x");
    let colon = chars_of(":");
    let x_idx = match find_chars(&l, &x) {
        Some(i) => i,
        None => return None,
    };
    let amount = slice_chars(&l, 0, x_idx);
    assert(amount@ =~= l@.take(x_idx as int));
    let amount = trim_chars(&amount);
    if amount.len() == 0 || !all_digits_exec(&amount) {
        return None;
    }
    proof {
        reveal_strlit("x");
    }
    let rest = slice_chars(&l, x_idx + 1, l.len());
    assert(rest@ =~= l@.skip(x_idx + 1));
    let colon_idx = match find_chars(&rest, &colon) {
        Some(i) => i,
        None => return None,
    };
    let item_name = slice_chars(&rest, 0, colon_idx);
    assert(item_name@ =~= rest@.take(colon_idx as int));
    let item_name = trim_chars(&item_name);
    if item_name.len() == 0 {
        return None;
    }
    flip_detail_tail_exec(&rest, item_name)
}

/// Parse a Coflnet `/cofl bz h` response and return the total profit in coins.
///
/// Looks for `"Total Profit: "` in the message and parses the value after it.
pub fn parse_cofl_bz_h_total_profit(clean_msg: &str) -> (r: Option<i64>)
    ensures
        r == spec_parse_cofl_bz_h_total_profit(clean_msg@),
{
    let msg = chars_of(clean_msg);
    let prefix = chars_of("Total Profit: ");
    let idx = match find_chars(&msg, &prefix) {
        Some(i) => i,
        None => return None,
    };
    let after = slice_chars(&msg, idx + prefix.len(), msg.len());
    assert(after@ =~= msg@.skip(idx + "Total Profit: "@.len()));
    let value = take_non_ws_chars(&after);
    parse_short_number_chars(&value)
}


// ---------------------------------------------------------------------------
// Laws
// ---------------------------------------------------------------------------

/// Commas do not matter to a short number: dropping them first gives the
/// same value (`1,500,000` reads as `1500000`).
pub proof fn law_short_number_ignores_commas(s: Seq<char>)
    ensures
        spec_parse_short_number(remove_char(s, ',')) == spec_parse_short_number(s),
{
    lemma_remove_char_idempotent(s, ',');
}

/// An all-digit numeral has no decimal point.
proof fn lemma_digits_have_no_point(d: Seq<char>)
    requires
        all_digits(d),
    ensures
        spec_find(d, seq!['.']) is None,
{
    assert forall|i: int| 0 <= i < d.len() implies d[i] != seq!['.'][0] by {
        assert(is_digit(d[i]));
    }
    lemma_no_occurrence(d, seq!['.'], 0);
}

/// A plain whole number in decimal digits reads as itself, and with a `K`,
/// `M` or `B` after it as itself times a thousand, a million or a billion,
/// up to the bounds of `i64`.
pub proof fn law_short_number_of_whole_number(n: nat, suffix: Option<char>)
    requires
        match suffix {
            None => true,
            Some(c) => suffix_scale(c) is Some,
        },
        n * pow10(
            match suffix {
                None => 0,
                Some(c) => suffix_scale(c)->0,
            },
        ) <= i64::MAX,
    ensures
        spec_parse_short_number(
            match suffix {
                None => decimal_digits(n),
                Some(c) => decimal_digits(n).push(c),
            },
        ) == Some(
            (n * pow10(
                match suffix {
                    None => 0,
                    Some(c) => suffix_scale(c)->0,
                },
            )) as i64,
        ),
{
    lemma_decimal_digits(n);
    lemma_pow10_values();
    let d = decimal_digits(n);
    assert forall|i: int| 0 <= i < d.len() implies d[i] != ',' by {
        assert(is_digit(d[i]));
    }
    let k: nat = match suffix {
        None => 0,
        Some(c) => suffix_scale(c)->0,
    };
    lemma_whole_number_scaled(d, k);
    lemma_remove_char_absent(d, ',');
    match suffix {
        None => {
            assert(is_digit(d.last()));
            assert(suffix_scale(d.last()) is None);
        },
        Some(c) => {
            let t = d.push(c);
            lemma_remove_char_concat(d, seq![c], ',');
            lemma_remove_char_absent(seq![c], ',');
            assert(d + seq![c] =~= t);
            assert(t.drop_last() =~= d);
        },
    }
}

/// An all-digit numeral is no infinity, no NaN and holds no exponent; scaled
/// by `10^k` it reads as its value times `10^k`.
proof fn lemma_whole_number_scaled(d: Seq<char>, k: nat)
    requires
        all_digits(d),
        d.len() > 0,
        digits_value(d) * pow10(k) <= i64::MAX,
    ensures
        spec_parse_scaled(d, k) == Some((digits_value(d) * pow10(k)) as i64),
{
    reveal_strlit("inf");
    reveal_strlit("infinity");
    reveal_strlit("nan");
    assert(is_digit(d[0]));
    assert(!(d[0] == '+' || d[0] == '-'));
    assert(ascii_lower(d[0]) == d[0]);
    assert(!eq_ignore_ascii_case(d, "inf"@));
    assert(!eq_ignore_ascii_case(d, "infinity"@));
    assert(!eq_ignore_ascii_case(d, "nan"@));
    lemma_no_exponent_mark(d, 0);
    lemma_digits_have_no_point(d);
    assert(decimal_parts(d) == Some((d, Seq::<char>::empty())));
    assert(d + Seq::<char>::empty() =~= d);
    assert(shift_magnitude(d, 0 + k - 0) == digits_value(d) * pow10(k));
}

/// Digits hold no exponent mark.
proof fn lemma_no_exponent_mark(d: Seq<char>, k: int)
    requires
        all_digits(d),
        0 <= k,
    ensures
        exponent_mark_from(d, k) is None,
    decreases d.len() - k,
{
    if k < d.len() {
        assert(is_digit(d[k]));
        lemma_no_exponent_mark(d, k + 1);
    }
}

/// Negating a short number: a `-` before an unsigned numeral negates its
/// value, wherever the value stays below `i64::MAX` (at the bound the two
/// sides saturate differently).
pub proof fn law_short_number_negation(s: Seq<char>, v: i64)
    requires
        s.len() > 0,
        s[0] != '+' && s[0] != '-' && s[0] != ',',
        spec_parse_short_number(s) == Some(v),
        v < i64::MAX,
    ensures
        spec_parse_short_number(seq!['-'] + s) == Some((-v) as i64),
{
    lemma_remove_char_concat(seq!['-'], s, ',');
    lemma_remove_char_absent(seq!['-'], ',');
    let t = remove_char(s, ',');
    let t2 = remove_char(seq!['-'] + s, ',');
    assert(t2 == seq!['-'] + t);
    lemma_remove_char_first(s);
    if t.len() > 0 && suffix_scale(t.last()) is Some {
        assert(t2.last() == t.last());
        assert(t2.drop_last() =~= seq!['-'] + t.drop_last());
        assert((seq!['-'] + t.drop_last()).drop_first() =~= t.drop_last());
    } else if t.len() > 0 {
        assert(t2.last() == t.last());
        assert(t2.drop_first() =~= t);
    } else {
        assert(t2 =~= seq!['-']);
        assert(t2.drop_first() =~= Seq::<char>::empty());
    }
}

/// Dropping commas keeps a first character that is no comma.
proof fn lemma_remove_char_first(s: Seq<char>)
    requires
        s.len() > 0,
        s[0] != ',',
    ensures
        remove_char(s, ',').len() > 0,
        remove_char(s, ',')[0] == s[0],
{
    lemma_remove_char_concat(seq![s[0]], s.drop_first(), ',');
    assert(seq![s[0]] + s.drop_first() =~= s);
    lemma_remove_char_absent(seq![s[0]], ',');
}

/// The AH history after recording the realized profits `events` (each at
/// its time), one after another.
pub open spec fn record_ah_all(h: ProfitHistory, events: Seq<(u64, i64)>) -> ProfitHistory
    decreases events.len(),
{
    if events.len() == 0 {
        h
    } else {
        let before = record_ah_all(h, events.drop_last());
        before.with_ah_total(events.last().0, (before.ah_total + events.last().1) as i64)
    }
}

/// The sum of the profits in `events`.
pub open spec fn profit_sum(events: Seq<(u64, i64)>) -> int
    decreases events.len(),
{
    if events.len() == 0 {
        0
    } else {
        profit_sum(events.drop_last()) + events.last().1
    }
}

/// Recording profits into a fresh tracker: the AH total is their sum, the
/// chart holds one point per recording after its starting point (each
/// showing the running total), and the Bazaar side stays at zero — provided
/// no running total leaves the range of `i64`.
pub proof fn law_recorded_profits_sum(now: u64, events: Seq<(u64, i64)>)
    requires
        forall|k: int| 0 <= k <= events.len() ==> i64::MIN <= #[trigger] profit_sum(events.take(k)) <= i64::MAX,
    ensures
        record_ah_all(ProfitHistory::started_at(now), events).ah_total == profit_sum(events),
        record_ah_all(ProfitHistory::started_at(now), events).ah_points.len() == events.len() + 1,
        record_ah_all(ProfitHistory::started_at(now), events).wf(),
        record_ah_all(ProfitHistory::started_at(now), events).bz_points == seq![(now, 0i64)],
        record_ah_all(ProfitHistory::started_at(now), events).bz_total == 0,
    decreases events.len(),
{
    assert(events.take(events.len() as int) =~= events);
    if events.len() > 0 {
        let prev = events.drop_last();
        assert forall|k: int| 0 <= k <= prev.len() implies i64::MIN <= #[trigger] profit_sum(prev.take(k)) <= i64::MAX by {
            assert(prev.take(k) =~= events.take(k));
        }
        law_recorded_profits_sum(now, prev);
        assert(prev.take(prev.len() as int) =~= prev);
    }
}

/// Every change of a total keeps the earlier points of its chart, adds one
/// point that shows the new total, and leaves the other chart alone.
pub proof fn law_history_only_grows(h: ProfitHistory, now: u64, total: i64)
    requires
        h.wf(),
    ensures
        h.with_ah_total(now, total).wf(),
        h.with_ah_total(now, total).ah_points.take(h.ah_points.len() as int) == h.ah_points,
        h.with_ah_total(now, total).ah_points.last() == (now, total),
        h.with_ah_total(now, total).bz_points == h.bz_points,
        h.with_ah_total(now, total).bz_total == h.bz_total,
        h.with_bz_total(now, total).wf(),
        h.with_bz_total(now, total).bz_points.take(h.bz_points.len() as int) == h.bz_points,
        h.with_bz_total(now, total).bz_points.last() == (now, total),
        h.with_bz_total(now, total).ah_points == h.ah_points,
        h.with_bz_total(now, total).ah_total == h.ah_total,
{
    assert(h.ah_points.push((now, total)).take(h.ah_points.len() as int) =~= h.ah_points);
    assert(h.bz_points.push((now, total)).take(h.bz_points.len() as int) =~= h.bz_points);
}


/// A `/cofl profit` response in its documented form reads as the short
/// number in it, wherever the player's name holds no earlier " made " and
/// the amount no earlier " in the last ".
pub proof fn law_cofl_profit_response_format(ign: Seq<char>, amount: Seq<char>, tail: Seq<char>)
    requires
        spec_find(ign + " made "@, " made "@) == Some(ign.len() as int),
        spec_find(amount + " in the last "@, " in the last "@) == Some(amount.len() as int),
    ensures
        spec_parse_cofl_profit_response(
            "According to our data "@ + ign + " made "@ + amount + " in the last "@ + tail,
        ) == spec_parse_short_number(spec_trim(amount)),
{
    let p = "According to our data "@;
    let m = " made "@;
    let l = " in the last "@;
    let msg = p + ign + m + amount + l + tail;
    let rest = ign + m + (amount + l + tail);
    assert(msg.subrange(0, p.len() as int) =~= p);
    assert(msg.subrange(p.len() as int, msg.len() as int) =~= rest);
    lemma_find_extend(ign, m, amount + l + tail);
    let after = amount + l + tail;
    assert(rest.skip((ign.len() + m.len()) as int) =~= after);
    lemma_find_extend(amount, l, tail);
    assert(after =~= amount + l + tail);
    assert(after.take(amount.len() as int) =~= amount);
}

/// A `/cofl bz h` response reads as the word after its first
/// "Total Profit: " (up to whitespace or the end).
pub proof fn law_cofl_bz_h_total_format(pre: Seq<char>, word: Seq<char>, rest: Seq<char>)
    requires
        spec_find(pre + "Total Profit: "@, "Total Profit: "@) == Some(pre.len() as int),
        forall|i: int| 0 <= i < word.len() ==> !is_ws(#[trigger] word[i]),
        rest.len() == 0 || is_ws(rest[0]),
    ensures
        spec_parse_cofl_bz_h_total_profit(pre + "Total Profit: "@ + word + rest)
            == spec_parse_short_number(word),
{
    let t = "Total Profit: "@;
    let msg = pre + t + word + rest;
    assert(msg =~= pre + t + (word + rest));
    lemma_find_extend(pre, t, word + rest);
    assert(msg.skip((pre.len() + t.len()) as int) =~= word + rest);
    lemma_take_non_ws_word(word, rest);
}

/// The profit that the detail parser reads from a flip line is the one that
/// the profit parser reads from it.
pub proof fn law_flip_detail_profit_agrees(line: Seq<char>)
    requires
        spec_parse_bz_list_flip_detail(line) is Some,
    ensures
        match spec_parse_bz_list_flip_detail(line) {
            Some((_name, profit, _count)) => spec_parse_bz_list_flip_profit(line) == Some(profit),
            None => false,
        },
{
    let x_idx = spec_find(line, "x"@)->0;
    lemma_find_from(line, "x"@, 0);
    reveal_strlit("x");
    reveal_strlit("=> ");
    let prefix = line.take(x_idx);
    lemma_trimmed_digits(prefix);
    let arrow = "=> "@;
    let j = x_idx + 1;
    assert forall|i: int| 0 <= i < j implies !#[trigger] occurs_at(line, arrow, i) by {
        if occurs_at(line, arrow, i) {
            assert(line[i + 0] == arrow[0]);
            if i < x_idx {
                assert(prefix[i] == line[i]);
            } else {
                assert(line[x_idx + 0] == "x"@[0]);
            }
        }
    }
    let rest = line.skip(j);
    let colon = spec_find(rest, ":"@)->0;
    let item = spec_trim(rest.take(colon));
    assert(flip_detail_tail(rest, item) is Some);
    assert(spec_parse_bz_list_flip_detail(line) == flip_detail_tail(rest, item));
    assert(spec_find(rest, arrow) is Some);
    lemma_find_skip(line, arrow, j);
    let arrow_idx = spec_find(rest, arrow)->0;
    assert(spec_find(line, arrow) == Some(arrow_idx + j));
    lemma_find_from(rest, arrow, 0);
    assert(arrow.len() == 3);
    assert(line.skip(spec_find(line, arrow)->0 + arrow.len()) =~= rest.skip(arrow_idx + arrow.len()));
}

/// One call that changes a [`ProfitTracker`], with the time it happens at.
pub ghost enum ProfitOp {
    RecordAh { now: u64, profit: i64 },
    SetAh { now: u64, total: i64 },
    RecordBz { now: u64, profit: i64 },
    SetBz { now: u64, total: i64 },
}

impl ProfitOp {
    /// The call changes the AH side.
    pub open spec fn is_ah(self) -> bool {
        self is RecordAh || self is SetAh
    }

    /// The call keeps its running total within `i64` on `h`.
    pub open spec fn fits(self, h: ProfitHistory) -> bool {
        match self {
            ProfitOp::RecordAh { profit, .. } => i64::MIN <= h.ah_total + profit <= i64::MAX,
            ProfitOp::RecordBz { profit, .. } => i64::MIN <= h.bz_total + profit <= i64::MAX,
            _ => true,
        }
    }

    /// The history after the call: what the `_at` methods' contracts state.
    pub open spec fn apply(self, h: ProfitHistory) -> ProfitHistory {
        match self {
            ProfitOp::RecordAh { now, profit } => h.with_ah_total(now, (h.ah_total + profit) as i64),
            ProfitOp::SetAh { now, total } => h.with_ah_total(now, total),
            ProfitOp::RecordBz { now, profit } => h.with_bz_total(now, (h.bz_total + profit) as i64),
            ProfitOp::SetBz { now, total } => h.with_bz_total(now, total),
        }
    }
}

/// The history after the calls `ops`, one after another.
pub open spec fn apply_ops(h: ProfitHistory, ops: Seq<ProfitOp>) -> ProfitHistory
    decreases ops.len(),
{
    if ops.len() == 0 {
        h
    } else {
        ops.last().apply(apply_ops(h, ops.drop_last()))
    }
}

/// Every call of `ops` keeps its running total within `i64`.
pub open spec fn ops_fit(h: ProfitHistory, ops: Seq<ProfitOp>) -> bool
    decreases ops.len(),
{
    if ops.len() == 0 {
        true
    } else {
        ops_fit(h, ops.drop_last()) && ops.last().fits(apply_ops(h, ops.drop_last()))
    }
}

/// The AH total right after each AH call of `ops`, in order.
pub open spec fn ah_totals_after(h: ProfitHistory, ops: Seq<ProfitOp>) -> Seq<i64>
    decreases ops.len(),
{
    if ops.len() == 0 {
        Seq::empty()
    } else if ops.last().is_ah() {
        ah_totals_after(h, ops.drop_last()).push(apply_ops(h, ops).ah_total)
    } else {
        ah_totals_after(h, ops.drop_last())
    }
}

/// The Bazaar total right after each Bazaar call of `ops`, in order.
pub open spec fn bz_totals_after(h: ProfitHistory, ops: Seq<ProfitOp>) -> Seq<i64>
    decreases ops.len(),
{
    if ops.len() == 0 {
        Seq::empty()
    } else if !ops.last().is_ah() {
        bz_totals_after(h, ops.drop_last()).push(apply_ops(h, ops).bz_total)
    } else {
        bz_totals_after(h, ops.drop_last())
    }
}

/// The values of a chart's points.
pub open spec fn point_values(points: Seq<ProfitPoint>) -> Seq<i64> {
    points.map_values(|p: ProfitPoint| p.1)
}

/// Each call appends the new total to its own chart only.
proof fn lemma_apply_ops(h: ProfitHistory, ops: Seq<ProfitOp>)
    requires
        h.wf(),
    ensures
        apply_ops(h, ops).wf(),
        point_values(apply_ops(h, ops).ah_points) == point_values(h.ah_points) + ah_totals_after(h, ops),
        point_values(apply_ops(h, ops).bz_points) == point_values(h.bz_points) + bz_totals_after(h, ops),
    decreases ops.len(),
{
    if ops.len() == 0 {
        assert(point_values(h.ah_points) + Seq::<i64>::empty() =~= point_values(h.ah_points));
        assert(point_values(h.bz_points) + Seq::<i64>::empty() =~= point_values(h.bz_points));
    } else {
        let prev = apply_ops(h, ops.drop_last());
        lemma_apply_ops(h, ops.drop_last());
        let next = apply_ops(h, ops);
        let ea = ah_totals_after(h, ops.drop_last());
        let eb = bz_totals_after(h, ops.drop_last());
        if ops.last().is_ah() {
            assert(next.ah_points == prev.ah_points.push((next.ah_points.last().0, next.ah_total)));
            assert(point_values(next.ah_points) =~= point_values(prev.ah_points).push(next.ah_total));
            assert(point_values(h.ah_points) + ea.push(next.ah_total) =~= (point_values(h.ah_points) + ea).push(next.ah_total));
            assert(next.bz_points == prev.bz_points);
        } else {
            assert(next.bz_points == prev.bz_points.push((next.bz_points.last().0, next.bz_total)));
            assert(point_values(next.bz_points) =~= point_values(prev.bz_points).push(next.bz_total));
            assert(point_values(h.bz_points) + eb.push(next.bz_total) =~= (point_values(h.bz_points) + eb).push(next.bz_total));
            assert(next.ah_points == prev.ah_points);
        }
    }
}

/// The charts after any mix of recordings and settings on a fresh tracker
/// (none leaving the range of `i64`): each chart holds one point per call on
/// its side after its starting point of value zero; point `i` holds that
/// side's total right after its `i`-th call; and the last point holds the
/// current total. Reading the charts takes `&self` and changes nothing.
pub proof fn law_charts_follow_the_calls(now: u64, ops: Seq<ProfitOp>)
    requires
        ops_fit(ProfitHistory::started_at(now), ops),
    ensures
        ({
            let h0 = ProfitHistory::started_at(now);
            let h = apply_ops(h0, ops);
            &&& h.wf()
            &&& point_values(h.ah_points) == seq![0i64] + ah_totals_after(h0, ops)
            &&& point_values(h.bz_points) == seq![0i64] + bz_totals_after(h0, ops)
            &&& h.ah_points.len() == ah_totals_after(h0, ops).len() + 1
            &&& h.bz_points.len() == bz_totals_after(h0, ops).len() + 1
            &&& h.ah_points.last().1 == h.ah_total
            &&& h.bz_points.last().1 == h.bz_total
        }),
{
    let h0 = ProfitHistory::started_at(now);
    lemma_apply_ops(h0, ops);
    assert(point_values(h0.ah_points) =~= seq![0i64]);
    assert(point_values(h0.bz_points) =~= seq![0i64]);
    let h = apply_ops(h0, ops);
    assert(point_values(h.ah_points).len() == h.ah_points.len());
    assert(point_values(h.bz_points).len() == h.bz_points.len());
}

} // verus!
