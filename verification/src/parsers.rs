//! Pure string parsers for chat messages and item lore (no bot state dependencies).

use vstd::prelude::*;
use crate::text::{
    all_digits, decimal_digits, digits_value, is_digit, lemma_decimal_digits, lemma_find_after,
    lemma_find_extend, lemma_remove_char_absent, lemma_rfind_after, occurs_at, chars_of, find_chars, is_ws, is_ws_exec, join_strings, lowercase, lowercase_chars,
    parse_u64_chars, remove_char, remove_char_chars, rfind_chars, slice_chars, spec_contains,
    contains_chars, spec_find, spec_join, spec_parse_u64, spec_rfind, spec_strip_prefix, spec_trim,
    string_of, strip_prefix_chars, trim_chars,
};

verus! {

// ---------------------------------------------------------------------------
// Specifications
// ---------------------------------------------------------------------------

/// The price in the text `<price> coins...`: the text before the first
/// ` coins`, without commas and surrounding whitespace, read as a `u64`.
pub open spec fn spec_price_before_coins(rest: Seq<char>) -> Option<u64> {
    match spec_find(rest, " coins"@) {
        None => None,
        Some(coins_idx) => spec_parse_u64(spec_trim(remove_char(rest.take(coins_idx), ','))),
    }
}

/// `You purchased <item> for <price> coins!` read as `(item, price)`; the
/// item is everything up to the last ` for `.
pub open spec fn spec_parse_purchased_message(msg: Seq<char>) -> Option<(Seq<char>, u64)> {
    match spec_strip_prefix(msg, "You purchased "@) {
        None => None,
        Some(after) => match spec_rfind(after, " for "@) {
            None => None,
            Some(for_idx) => match spec_price_before_coins(after.skip(for_idx + " for "@.len())) {
                None => None,
                Some(price) => Some((after.take(for_idx), price)),
            },
        },
    }
}

/// `[Auction] <buyer> bought <item> for <price> coins` read as
/// `(buyer, item, price)`; the buyer ends at the first ` bought `, the item at
/// the last ` for ` after it.
pub open spec fn spec_parse_sold_message(msg: Seq<char>) -> Option<(Seq<char>, Seq<char>, u64)> {
    match spec_strip_prefix(msg, "[Auction] "@) {
        None => None,
        Some(after) => match spec_find(after, " bought "@) {
            None => None,
            Some(bought_idx) => {
                let rest = after.skip(bought_idx + " bought "@.len());
                match spec_rfind(rest, " for "@) {
                    None => None,
                    Some(for_idx) => match spec_price_before_coins(
                        rest.skip(for_idx + " for "@.len()),
                    ) {
                        None => None,
                        Some(price) => Some((after.take(bought_idx), rest.take(for_idx), price)),
                    },
                }
            },
        },
    }
}

/// A character that ends an auction id: whitespace or `"`.
pub open spec fn ends_uuid(c: char) -> bool {
    is_ws(c) || c == '"'
}

/// The longest prefix of `s` in which no character ends an auction id.
pub open spec fn uuid_prefix(s: Seq<char>) -> Seq<char>
    decreases s.len(),
{
    if s.len() == 0 || ends_uuid(s[0]) {
        Seq::empty()
    } else {
        seq![s[0]].add(uuid_prefix(s.drop_first()))
    }
}

/// The auction id after the first `/viewauction `, if it is not empty.
pub open spec fn spec_extract_viewauction_uuid(msg: Seq<char>) -> Option<Seq<char>> {
    match spec_find(msg, "/viewauction "@) {
        None => None,
        Some(idx) => {
            let uuid = spec_trim(uuid_prefix(msg.skip(idx + "/viewauction "@.len())));
            if uuid.len() == 0 {
                None
            } else {
                Some(uuid)
            }
        },
    }
}

// ---------------------------------------------------------------------------
// Parsers
// ---------------------------------------------------------------------------

/// The price in `<price> coins...`.
fn price_before_coins(rest: &Vec<char>) -> (r: Option<u64>)
    ensures
        r == spec_price_before_coins(rest@),
{
    let coins = chars_of(" coins");
    let coins_idx = match find_chars(rest, &coins) {
        Some(i) => i,
        None => return None,
    };
    let price = slice_chars(rest, 0, coins_idx);
    assert(price@ =~= rest@.take(coins_idx as int));
    let price = remove_char_chars(&price, ',');
    let price = trim_chars(&price);
    parse_u64_chars(&price)
}

/// Parse "You purchased <item> for <price> coins!" → (item_name, price)
pub fn parse_purchased_message(msg: &str) -> (r: Option<(String, u64)>)
    ensures
        match r {
            Some((item, price)) => spec_parse_purchased_message(msg@) == Some((item@, price)),
            None => spec_parse_purchased_message(msg@) is None,
        },
{
    let m = chars_of(msg);
    let prefix = chars_of("You purchased ");
    let for_pat = chars_of(" for ");
    let after = match strip_prefix_chars(&m, &prefix) {
        Some(a) => a,
        None => return None,
    };
    let for_idx = match rfind_chars(&after, &for_pat) {
        Some(i) => i,
        None => return None,
    };
    let n = after.len();
    let item = slice_chars(&after, 0, for_idx);
    let rest = slice_chars(&after, for_idx + for_pat.len(), n);
    assert(item@ =~= after@.take(for_idx as int));
    assert(rest@ =~= after@.skip(for_idx + " for "@.len()));
    match price_before_coins(&rest) {
        Some(price) => Some((string_of(&item), price)),
        None => None,
    }
}

/// Parse "[Auction] <buyer> bought <item> for <price> coins" → (buyer, item_name, price)
pub fn parse_sold_message(msg: &str) -> (r: Option<(String, String, u64)>)
    ensures
        match r {
            Some((buyer, item, price)) => spec_parse_sold_message(msg@) == Some(
                (buyer@, item@, price),
            ),
            None => spec_parse_sold_message(msg@) is None,
        },
{
    let m = chars_of(msg);
    let prefix = chars_of("[Auction] ");
    let bought = chars_of(" bought ");
    let for_pat = chars_of(" for ");
    let after = match strip_prefix_chars(&m, &prefix) {
        Some(a) => a,
        None => return None,
    };
    let bought_idx = match find_chars(&after, &bought) {
        Some(i) => i,
        None => return None,
    };
    let n = after.len();
    let buyer = slice_chars(&after, 0, bought_idx);
    let rest = slice_chars(&after, bought_idx + bought.len(), n);
    assert(buyer@ =~= after@.take(bought_idx as int));
    assert(rest@ =~= after@.skip(bought_idx + " bought "@.len()));
    let for_idx = match rfind_chars(&rest, &for_pat) {
        Some(i) => i,
        None => return None,
    };
    let n2 = rest.len();
    let item = slice_chars(&rest, 0, for_idx);
    let rest2 = slice_chars(&rest, for_idx + for_pat.len(), n2);
    assert(item@ =~= rest@.take(for_idx as int));
    assert(rest2@ =~= rest@.skip(for_idx + " for "@.len()));
    match price_before_coins(&rest2) {
        Some(price) => Some((string_of(&buyer), string_of(&item), price)),
        None => None,
    }
}

/// The longest prefix of `s` in which no character ends an auction id.
fn uuid_prefix_chars(s: &Vec<char>) -> (r: Vec<char>)
    ensures
        r@ == uuid_prefix(s@),
{
    let mut i: usize = 0;
    assert(s@.skip(0) =~= s@);
    assert(s@.take(0) + uuid_prefix(s@) =~= uuid_prefix(s@));
    while i < s.len() && !(is_ws_exec(s[i]) || s[i] == '"')
        invariant
            i <= s.len(),
            uuid_prefix(s@) == s@.take(i as int) + uuid_prefix(s@.skip(i as int)),
        decreases s.len() - i,
    {
        assert(s@.skip(i as int).drop_first() =~= s@.skip(i + 1));
        assert(uuid_prefix(s@.skip(i as int)) == seq![s@[i as int]].add(
            uuid_prefix(s@.skip(i + 1)),
        ));
        assert(s@.take(i as int) + (seq![s@[i as int]] + uuid_prefix(s@.skip(i + 1)))
            =~= s@.take(i + 1) + uuid_prefix(s@.skip(i + 1)));
        i = i + 1;
    }
    assert(uuid_prefix(s@.skip(i as int)) =~= Seq::<char>::empty());
    assert(s@.take(i as int) + Seq::<char>::empty() =~= s@.take(i as int));
    assert(s@.take(i as int) =~= s@.subrange(0, i as int));
    slice_chars(s, 0, i)
}

/// Extract UUID from a message that might contain "/viewauction <UUID>".
/// Works in both plain-text context (UUID ends at whitespace) and JSON context
/// (UUID ends at `"` after the value string, e.g. from a serialized clickEvent).
/// Minecraft UUIDs consist only of hex digits and dashes, so `"` is never a valid
/// UUID character — using it as a terminator is unconditionally safe.
pub fn extract_viewauction_uuid(msg: &str) -> (r: Option<String>)
    ensures
        match r {
            Some(u) => spec_extract_viewauction_uuid(msg@) == Some(u@),
            None => spec_extract_viewauction_uuid(msg@) is None,
        },
{
    let m = chars_of(msg);
    let pat = chars_of("/viewauction ");
    let idx = match find_chars(&m, &pat) {
        Some(i) => i,
        None => return None,
    };
    let n = m.len();
    let rest = slice_chars(&m, idx + pat.len(), n);
    assert(rest@ =~= m@.skip(idx + "/viewauction "@.len()));
    let uuid = uuid_prefix_chars(&rest);
    let uuid = trim_chars(&uuid);
    if uuid.len() == 0 {
        None
    } else {
        Some(string_of(&uuid))
    }
}


// ---------------------------------------------------------------------------
// Sold auctions read from item lore
// ---------------------------------------------------------------------------

/// The text matched by capture group 1 of the leftmost match of the regular
/// expression `pattern` in `haystack`, as the `regex` crate finds it; `None`
/// where the pattern does not compile, nothing matches, or group 1 took no
/// part in the match.
pub uninterp spec fn regex_first_group(pattern: Seq<char>, haystack: Seq<char>) -> Option<Seq<char>>;

/// `regex::Regex::new(pattern)`, then `captures(haystack)`, then group 1.
///
/// The contract claims only that the result is `regex_first_group` of the
/// pattern and the haystack: the regex crate's matching is not restated.
#[verifier::external_body]
fn capture_first_group(pattern: &str, haystack: &str) -> (r: Option<String>)
    ensures
        match r {
            Some(g) => regex_first_group(pattern@, haystack@) == Some(g@),
            None => regex_first_group(pattern@, haystack@) is None,
        },
{
    match regex::Regex::new(pattern) {
        Ok(re) => match re.captures(haystack) {
            Some(caps) => match caps.get(1) {
                Some(m) => Some(m.as_str().to_string()),
                None => None,
            },
            None => None,
        },
        Err(_) => None,
    }
}

/// The pattern that finds the sale price in the lore of a sold auction.
pub open spec fn sold_for_price_pattern() -> Seq<char> {
    "(?i)sold\\s*for[: ]+\\s*([0-9,]+)\\s*coins"@
}

/// The pattern that finds the buyer in the lore of a sold auction.
pub open spec fn sold_buyer_pattern() -> Seq<char> {
    "(?i)buyer[: ]+\\s*([^\\n]+)"@
}

/// The lines of `lore` as character sequences.
pub open spec fn lore_view(lore: Seq<String>) -> Seq<Seq<char>> {
    lore.map_values(|l: String| l@)
}

/// The lore shows a sold auction: it mentions a status and "sold", or "sold for"
/// (case-insensitively).
pub open spec fn lore_shows_sold(combined: Seq<char>) -> bool {
    let lower = lowercase(combined);
    (spec_contains(lower, "status:"@) && spec_contains(lower, "sold"@)) || spec_contains(
        lower,
        "sold for"@,
    )
}

/// The buyer that a capture names, trimmed, or `Unknown` where there is none
/// or it is blank.
pub open spec fn buyer_or_unknown(group: Option<Seq<char>>) -> Seq<char> {
    match group {
        Some(b) => if spec_trim(b).len() > 0 {
            spec_trim(b)
        } else {
            "Unknown"@
        },
        None => "Unknown"@,
    }
}

/// `(item_name, price, buyer)` from the texts that the price and buyer
/// patterns captured: the price without commas and surrounding whitespace,
/// read as a `u64`; the buyer as [`buyer_or_unknown`] gives it.
pub open spec fn spec_sold_event_from_groups(
    item_name: Seq<char>,
    price_group: Option<Seq<char>>,
    buyer_group: Option<Seq<char>>,
) -> Option<(Seq<char>, u64, Seq<char>)> {
    match price_group {
        None => None,
        Some(p) => match spec_parse_u64(spec_trim(remove_char(p, ','))) {
            None => None,
            Some(price) => Some((item_name, price, buyer_or_unknown(buyer_group))),
        },
    }
}

/// `(item_name, price, buyer)` of a sold auction read from its lore lines.
pub open spec fn spec_parse_claimed_sold_event_from_lore(
    item_name: Seq<char>,
    lore: Seq<Seq<char>>,
) -> Option<(Seq<char>, u64, Seq<char>)> {
    if lore.len() == 0 {
        None
    } else {
        let combined = spec_join(lore, "\n"@);
        if !lore_shows_sold(combined) {
            None
        } else {
            spec_sold_event_from_groups(
                item_name,
                regex_first_group(sold_for_price_pattern(), combined),
                regex_first_group(sold_buyer_pattern(), combined),
            )
        }
    }
}

/// The text of an optional capture as characters.
pub open spec fn group_view(g: Option<String>) -> Option<Seq<char>> {
    match g {
        Some(s) => Some(s@),
        None => None,
    }
}

/// Builds the sold event from what the price and buyer patterns captured in
/// the lore: `None` where the price capture is missing or is no `u64`; the
/// buyer is `Unknown` where its capture is missing or blank.
pub fn sold_event_from_groups(
    item_name: &str,
    price_group: Option<String>,
    buyer_group: Option<String>,
) -> (r: Option<(String, u64, String)>)
    ensures
        match r {
            Some((item, price, buyer)) => spec_sold_event_from_groups(
                item_name@,
                group_view(price_group),
                group_view(buyer_group),
            ) == Some((item@, price, buyer@)),
            None => spec_sold_event_from_groups(
                item_name@,
                group_view(price_group),
                group_view(buyer_group),
            ) is None,
        },
{
    let price_match = match price_group {
        Some(p) => p,
        None => return None,
    };
    let price_chars = chars_of(price_match.as_str());
    let price_chars = remove_char_chars(&price_chars, ',');
    let price_chars = trim_chars(&price_chars);
    let price = match parse_u64_chars(&price_chars) {
        Some(p) => p,
        None => return None,
    };
    let buyer = match buyer_group {
        Some(b) => {
            let bc = chars_of(b.as_str());
            let bt = trim_chars(&bc);
            if bt.len() > 0 {
                string_of(&bt)
            } else {
                "Unknown".to_string()
            }
        },
        None => "Unknown".to_string(),
    };
    Some((item_name.to_string(), price, buyer))
}

/// Reads a sold auction `(item_name, price, buyer)` from the lore of its slot;
/// the buyer is `Unknown` where the lore names none.
pub fn parse_claimed_sold_event_from_lore(item_name: &str, lore: &[String]) -> (r: Option<
    (String, u64, String),
>)
    ensures
        match r {
            Some((item, price, buyer)) => spec_parse_claimed_sold_event_from_lore(
                item_name@,
                lore_view(lore@),
            ) == Some((item@, price, buyer@)),
            None => spec_parse_claimed_sold_event_from_lore(item_name@, lore_view(lore@)) is None,
        },
{
    if lore.len() == 0 {
        return None;
    }
    let newline = chars_of("\n");
    let combined = join_strings(lore, &newline);
    let lower = lowercase_chars(&combined);
    let status = chars_of("status:");
    let sold = chars_of("sold");
    let sold_for = chars_of("sold for");
    let sold_status = (contains_chars(&lower, &status) && contains_chars(&lower, &sold))
        || contains_chars(&lower, &sold_for);
    if !sold_status {
        return None;
    }
    let combined_str = string_of(&combined);
    let price_group = capture_first_group(
        "(?i)sold\\s*for[: ]+\\s*([0-9,]+)\\s*coins",
        combined_str.as_str(),
    );
    if price_group.is_none() {
        return None;
    }
    let buyer_group = capture_first_group("(?i)buyer[: ]+\\s*([^\\n]+)", combined_str.as_str());
    sold_event_from_groups(item_name, price_group, buyer_group)
}


// ---------------------------------------------------------------------------
// Laws
// ---------------------------------------------------------------------------

/// The price text `<digits> coins...` reads as the number of the digits.
proof fn lemma_price_before_coins(price: u64, tail: Seq<char>)
    ensures
        spec_price_before_coins(decimal_digits(price as nat) + " coins"@ + tail) == Some(price),
{
    reveal_strlit(" coins");
    let d = decimal_digits(price as nat);
    let c = " coins"@;
    lemma_decimal_digits(price as nat);
    assert forall|i: int| 0 <= i < d.len() implies !#[trigger] occurs_at(d + c + tail, c, i) by {
        assert(is_digit(d[i]));
        assert((d + c + tail)[i + 0] == d[i]);
    }
    lemma_find_after(d, c, tail);
    assert((d + c + tail).take(d.len() as int) =~= d);
    assert forall|i: int| 0 <= i < d.len() implies d[i] != ',' by {
        assert(is_digit(d[i]));
    }
    lemma_remove_char_absent(d, ',');
    assert(is_digit(d[0]) && is_digit(d.last()));
    assert(spec_trim(d) == d);
    assert(d[0] != '+');
}

/// The purchase message that the server sends reads back as the item and
/// its price, for every item name (even one that holds " for ") and price.
pub proof fn law_purchased_message_round_trip(item: Seq<char>, price: u64)
    ensures
        spec_parse_purchased_message(
            "You purchased "@ + item + " for "@ + decimal_digits(price as nat) + " coins!"@,
        ) == Some((item, price)),
{
    reveal_strlit(" for ");
    reveal_strlit(" coins!");
    reveal_strlit(" coins");
    let p = "You purchased "@;
    let f = " for "@;
    let d = decimal_digits(price as nat);
    let c = " coins!"@;
    lemma_decimal_digits(price as nat);
    let msg = p + item + f + d + c;
    let after = item + f + (d + c);
    assert(msg.subrange(0, p.len() as int) =~= p);
    assert(msg.subrange(p.len() as int, msg.len() as int) =~= after);
    assert forall|i: int| item.len() < i implies !#[trigger] occurs_at(after, f, i) by {
        if occurs_at(after, f, i) {
            let k = i + 1;
            assert(after[k] == f[1]);
            if k < item.len() + f.len() {
                assert(after[k] == f[k - item.len()]);
            } else if k < item.len() + f.len() + d.len() {
                assert(after[k] == d[k - item.len() - f.len()]);
                assert(is_digit(d[k - item.len() - f.len()]));
            } else {
                assert(after[k] == c[k - item.len() - f.len() - d.len()]);
            }
        }
    }
    lemma_rfind_after(item, f, d + c);
    reveal_strlit("!");
    assert(c =~= " coins"@ + "!"@);
    assert(after.skip((item.len() + f.len()) as int) =~= d + " coins"@ + "!"@);
    lemma_price_before_coins(price, "!"@);
    assert(after.take(item.len() as int) =~= item);
}


/// The sale message that the server sends reads back as buyer, item and
/// price, for every buyer name without an earlier " bought ", every item
/// name (even one that holds " for "), every price and any text after
/// "coins" that holds no " for ".
pub proof fn law_sold_message_round_trip(buyer: Seq<char>, item: Seq<char>, price: u64, tail: Seq<char>)
    requires
        spec_find(buyer + " bought "@, " bought "@) == Some(buyer.len() as int),
        forall|i: int| !#[trigger] occurs_at(tail, " for "@, i),
    ensures
        spec_parse_sold_message(
            "[Auction] "@ + buyer + " bought "@ + item + " for "@ + decimal_digits(price as nat)
                + " coins"@ + tail,
        ) == Some((buyer, item, price)),
{
    reveal_strlit(" for ");
    reveal_strlit(" coins");
    let p = "[Auction] "@;
    let bo = " bought "@;
    let f = " for "@;
    let d = decimal_digits(price as nat);
    let c = " coins"@;
    lemma_decimal_digits(price as nat);
    let msg = p + buyer + bo + item + f + d + c + tail;
    let after = buyer + bo + (item + f + d + c + tail);
    assert(msg.subrange(0, p.len() as int) =~= p);
    assert(msg.subrange(p.len() as int, msg.len() as int) =~= after);
    lemma_find_extend(buyer, bo, item + f + d + c + tail);
    let rest = item + f + (d + c + tail);
    assert(after.skip((buyer.len() + bo.len()) as int) =~= rest);
    assert(after.take(buyer.len() as int) =~= buyer);
    assert forall|i: int| item.len() < i implies !#[trigger] occurs_at(rest, f, i) by {
        if occurs_at(rest, f, i) {
            let k = i + 1;
            assert(rest[k] == f[1]);
            if k < item.len() + f.len() {
                assert(rest[k] == f[k - item.len()]);
            } else if k < item.len() + f.len() + d.len() {
                assert(rest[k] == d[k - item.len() - f.len()]);
                assert(is_digit(d[k - item.len() - f.len()]));
            } else if k < item.len() + f.len() + d.len() + c.len() {
                assert(rest[k] == c[k - item.len() - f.len() - d.len()]);
            } else {
                let t0 = item.len() + f.len() + d.len() + c.len();
                if i < t0 {
                    assert(rest[i + 0] == f[0]);
                    assert(rest[i] == c[c.len() - 1]);
                } else {
                    assert(rest =~= (item + f + d + c) + tail);
                    assert forall|j: int| 0 <= j < f.len() implies #[trigger] tail[i - t0 + j] == f[j] by {
                        assert(rest[i + j] == f[j]);
                        assert(rest[i + j] == tail[i + j - t0]);
                    }
                    assert(occurs_at(tail, f, i - t0));
                }
            }
        }
    }
    lemma_rfind_after(item, f, d + c + tail);
    assert(rest.skip((item.len() + f.len()) as int) =~= d + c + tail);
    lemma_price_before_coins(price, tail);
    assert(rest.take(item.len() as int) =~= item);
}

/// The auction id of a `/viewauction <id>` command: an id without
/// whitespace or `"` that ends the text or is followed by whitespace or `"`
/// is read back, wherever no earlier "/viewauction " occurs.
pub proof fn law_viewauction_uuid_round_trip(pre: Seq<char>, uuid: Seq<char>, rest: Seq<char>)
    requires
        spec_find(pre + "/viewauction "@, "/viewauction "@) == Some(pre.len() as int),
        uuid.len() > 0,
        forall|i: int| 0 <= i < uuid.len() ==> !ends_uuid(#[trigger] uuid[i]),
        rest.len() == 0 || ends_uuid(rest[0]),
    ensures
        spec_extract_viewauction_uuid(pre + "/viewauction "@ + uuid + rest) == Some(uuid),
{
    let v = "/viewauction "@;
    let msg = pre + v + uuid + rest;
    assert(msg =~= pre + v + (uuid + rest));
    lemma_find_extend(pre, v, uuid + rest);
    assert(msg.skip((pre.len() + v.len()) as int) =~= uuid + rest);
    lemma_uuid_prefix_word(uuid, rest);
    assert(!is_ws(uuid[0]) && !is_ws(uuid.last()));
}

/// The id at the start of `uuid + rest`, where `uuid` holds no character
/// that ends an id and `rest` is empty or starts with one, is `uuid`.
proof fn lemma_uuid_prefix_word(uuid: Seq<char>, rest: Seq<char>)
    requires
        rest.len() == 0 || ends_uuid(rest[0]),
        forall|i: int| 0 <= i < uuid.len() ==> !ends_uuid(#[trigger] uuid[i]),
    ensures
        uuid_prefix(uuid + rest) == uuid,
    decreases uuid.len(),
{
    let s = uuid + rest;
    if uuid.len() == 0 {
        assert(s =~= rest);
    } else {
        let u2 = uuid.drop_first();
        assert forall|i: int| 0 <= i < u2.len() implies !ends_uuid(#[trigger] u2[i]) by {
            assert(u2[i] == uuid[i + 1]);
        }
        lemma_uuid_prefix_word(u2, rest);
        assert(s.drop_first() =~= u2 + rest);
        assert(s[0] == uuid[0]);
        assert(seq![uuid[0]] + u2 =~= uuid);
    }
}

} // verus!
