//! Character-sequence utilities over which the chat and lore parsers are written.
//!
//! Every searching or slicing operation here works on `Vec<char>` and is
//! specified over `Seq<char>`; a character index of a string stands for the
//! byte index that the corresponding `str` method would use.

use vstd::prelude::*;

verus! {

// ---------------------------------------------------------------------------
// Specifications
// ---------------------------------------------------------------------------

/// `pat` occurs in `s` starting at index `i`.
pub open spec fn occurs_at(s: Seq<char>, pat: Seq<char>, i: int) -> bool {
    &&& 0 <= i
    &&& i + pat.len() <= s.len()
    &&& forall|j: int| 0 <= j < pat.len() ==> #[trigger] s[i + j] == pat[j]
}

/// The first index at or after `k` where `pat` occurs in `s`.
pub open spec fn find_from(s: Seq<char>, pat: Seq<char>, k: int) -> Option<int>
    decreases s.len() - k,
{
    if k < 0 || k + pat.len() > s.len() {
        None
    } else if occurs_at(s, pat, k) {
        Some(k)
    } else {
        find_from(s, pat, k + 1)
    }
}

/// What `find_from` finds: the first occurrence at or after `k`, or none.
pub proof fn lemma_find_from(s: Seq<char>, pat: Seq<char>, k: int)
    requires
        0 <= k,
    ensures
        match find_from(s, pat, k) {
            Some(i) => k <= i && occurs_at(s, pat, i) && forall|j: int|
                k <= j < i ==> !#[trigger] occurs_at(s, pat, j),
            None => forall|j: int| k <= j ==> !#[trigger] occurs_at(s, pat, j),
        },
    decreases s.len() - k,
{
    if k + pat.len() > s.len() {
    } else if occurs_at(s, pat, k) {
    } else {
        lemma_find_from(s, pat, k + 1);
    }
}

/// What `rfind_from` finds: the last occurrence at or before `k`, or none.
pub proof fn lemma_rfind_from(s: Seq<char>, pat: Seq<char>, k: int)
    ensures
        match rfind_from(s, pat, k) {
            Some(i) => 0 <= i <= k && occurs_at(s, pat, i) && forall|j: int|
                i < j <= k ==> !#[trigger] occurs_at(s, pat, j),
            None => forall|j: int| j <= k ==> !#[trigger] occurs_at(s, pat, j),
        },
    decreases k + 1,
{
    if k < 0 {
    } else if occurs_at(s, pat, k) {
    } else {
        lemma_rfind_from(s, pat, k - 1);
    }
}

/// The first index where `pat` occurs in `s` (what `str::find` gives).
pub open spec fn spec_find(s: Seq<char>, pat: Seq<char>) -> Option<int> {
    find_from(s, pat, 0)
}

/// The last index at or before `k` where `pat` occurs in `s`.
pub open spec fn rfind_from(s: Seq<char>, pat: Seq<char>, k: int) -> Option<int>
    decreases k + 1,
{
    if k < 0 {
        None
    } else if occurs_at(s, pat, k) {
        Some(k)
    } else {
        rfind_from(s, pat, k - 1)
    }
}

/// The last index where `pat` occurs in `s` (what `str::rfind` gives).
pub open spec fn spec_rfind(s: Seq<char>, pat: Seq<char>) -> Option<int> {
    rfind_from(s, pat, s.len() - pat.len())
}

/// `pat` occurs somewhere in `s` (what `str::contains` gives).
pub open spec fn spec_contains(s: Seq<char>, pat: Seq<char>) -> bool {
    spec_find(s, pat) is Some
}

/// `s` with its prefix `pre` removed, if it starts with it (what `str::strip_prefix` gives).
pub open spec fn spec_strip_prefix(s: Seq<char>, pre: Seq<char>) -> Option<Seq<char>> {
    if pre.len() <= s.len() && s.subrange(0, pre.len() as int) == pre {
        Some(s.subrange(pre.len() as int, s.len() as int))
    } else {
        None
    }
}

/// Unicode `White_Space`, the property that `char::is_whitespace` tests.
pub open spec fn is_ws(c: char) -> bool {
    let u = c as u32;
    ||| 9 <= u <= 13
    ||| u == 32
    ||| u == 0x85
    ||| u == 0xA0
    ||| u == 0x1680
    ||| 0x2000 <= u <= 0x200A
    ||| u == 0x2028
    ||| u == 0x2029
    ||| u == 0x202F
    ||| u == 0x205F
    ||| u == 0x3000
}

/// `s` without its leading whitespace.
pub open spec fn trim_start(s: Seq<char>) -> Seq<char>
    decreases s.len(),
{
    if s.len() > 0 && is_ws(s[0]) {
        trim_start(s.drop_first())
    } else {
        s
    }
}

/// `s` without its trailing whitespace.
pub open spec fn trim_end(s: Seq<char>) -> Seq<char>
    decreases s.len(),
{
    if s.len() > 0 && is_ws(s.last()) {
        trim_end(s.drop_last())
    } else {
        s
    }
}

/// `s` without leading and trailing whitespace (what `str::trim` gives).
pub open spec fn spec_trim(s: Seq<char>) -> Seq<char> {
    trim_end(trim_start(s))
}

/// `s` with every occurrence of `c` removed (what `str::replace(c, "")` gives).
pub open spec fn remove_char(s: Seq<char>, c: char) -> Seq<char>
    decreases s.len(),
{
    if s.len() == 0 {
        s
    } else if s.last() == c {
        remove_char(s.drop_last(), c)
    } else {
        remove_char(s.drop_last(), c).push(s.last())
    }
}

/// `c` is one of `0`..=`9`.
pub open spec fn is_digit(c: char) -> bool {
    '0' <= c && c <= '9'
}

/// Every character of `s` is an ASCII digit.
pub open spec fn all_digits(s: Seq<char>) -> bool {
    forall|i: int| 0 <= i < s.len() ==> is_digit(#[trigger] s[i])
}

/// The number that the decimal digits `s` denote (most significant first).
pub open spec fn digits_value(s: Seq<char>) -> nat
    decreases s.len(),
{
    if s.len() == 0 {
        0
    } else {
        digits_value(s.drop_last()) * 10 + ((s.last() as u32) - ('0' as u32)) as nat
    }
}

/// What `str::parse::<u64>` gives: an optional `+`, then one or more decimal
/// digits denoting a value that fits in 64 bits.
pub open spec fn spec_parse_u64(s: Seq<char>) -> Option<u64> {
    let body = if s.len() > 0 && s[0] == '+' { s.drop_first() } else { s };
    if body.len() == 0 || !all_digits(body) || digits_value(body) > u64::MAX {
        None
    } else {
        Some(digits_value(body) as u64)
    }
}

/// What `str::parse::<u32>` gives, in the same grammar as [`spec_parse_u64`].
pub open spec fn spec_parse_u32(s: Seq<char>) -> Option<u32> {
    let body = if s.len() > 0 && s[0] == '+' { s.drop_first() } else { s };
    if body.len() == 0 || !all_digits(body) || digits_value(body) > u32::MAX {
        None
    } else {
        Some(digits_value(body) as u32)
    }
}

/// The elements of `parts` joined by `sep` (what `[String]::join` gives).
pub open spec fn spec_join(parts: Seq<Seq<char>>, sep: Seq<char>) -> Seq<char>
    decreases parts.len(),
{
    if parts.len() == 0 {
        Seq::empty()
    } else if parts.len() == 1 {
        parts[0]
    } else {
        spec_join(parts.drop_last(), sep) + sep + parts.last()
    }
}

/// The longest prefix of `s` that holds no whitespace (what
/// `chars().take_while(|c| !c.is_whitespace())` collects).
pub open spec fn take_non_ws(s: Seq<char>) -> Seq<char>
    decreases s.len(),
{
    if s.len() == 0 || is_ws(s[0]) {
        Seq::empty()
    } else {
        seq![s[0]].add(take_non_ws(s.drop_first()))
    }
}

// ---------------------------------------------------------------------------
// Conversions
// ---------------------------------------------------------------------------

/// The characters of `s`, in order.
pub fn chars_of(s: &str) -> (v: Vec<char>)
    ensures
        v@ == s@,
{
    let mut v: Vec<char> = Vec::new();
    for c in it: s.chars()
        invariant
            it.seq() == s@,
            v@ == it.seq().take(it.index() as int),
    {
        v.push(c);
    }
    v
}

/// Appends one character to a string (`String::push`).
#[verifier::external_body]
fn push_char(s: &mut String, c: char)
    ensures
        final(s)@ == old(s)@.push(c),
{
    s.push(c);
}

/// The string made of the characters `v`.
pub fn string_of(v: &Vec<char>) -> (s: String)
    ensures
        s@ == v@,
{
    let mut s = String::new();
    let mut i: usize = 0;
    while i < v.len()
        invariant
            i <= v.len(),
            s@ == v@.take(i as int),
        decreases v.len() - i,
    {
        push_char(&mut s, v[i]);
        i = i + 1;
        assert(s@ =~= v@.take(i as int));
    }
    assert(v@.take(v.len() as int) =~= v@);
    s
}

/// The characters of `v` from `lo` up to (not including) `hi`.
pub fn slice_chars(v: &Vec<char>, lo: usize, hi: usize) -> (r: Vec<char>)
    requires
        lo <= hi <= v.len(),
    ensures
        r@ == v@.subrange(lo as int, hi as int),
{
    let mut r: Vec<char> = Vec::new();
    let mut i: usize = lo;
    while i < hi
        invariant
            lo <= i <= hi <= v.len(),
            r@ == v@.subrange(lo as int, i as int),
        decreases hi - i,
    {
        r.push(v[i]);
        i = i + 1;
        assert(r@ =~= v@.subrange(lo as int, i as int));
    }
    r
}

// ---------------------------------------------------------------------------
// Searching
// ---------------------------------------------------------------------------

/// Whether `pat` occurs in `s` at index `i`.
pub fn occurs_at_exec(s: &Vec<char>, pat: &Vec<char>, i: usize) -> (b: bool)
    ensures
        b == occurs_at(s@, pat@, i as int),
{
    if pat.len() > s.len() || i > s.len() - pat.len() {
        return false;
    }
    let mut j: usize = 0;
    while j < pat.len()
        invariant
            j <= pat.len(),
            i + pat.len() <= s.len(),
            forall|k: int| 0 <= k < j ==> #[trigger] s@[i + k] == pat@[k],
        decreases pat.len() - j,
    {
        if s[i + j] != pat[j] {
            assert(!(s@[i + j as int] == pat@[j as int]));
            return false;
        }
        j = j + 1;
    }
    true
}

/// The first index where `pat` occurs in `s`.
pub fn find_chars(s: &Vec<char>, pat: &Vec<char>) -> (r: Option<usize>)
    ensures
        match r {
            Some(i) => spec_find(s@, pat@) == Some(i as int) && i + pat@.len() <= s@.len(),
            None => spec_find(s@, pat@) is None,
        },
{
    proof {
        lemma_find_from(s@, pat@, 0);
    }
    if pat.len() > s.len() {
        return None;
    }
    let last = s.len() - pat.len();
    let mut k: usize = 0;
    while k <= last
        invariant
            last == s.len() - pat.len(),
            k <= last + 1,
            find_from(s@, pat@, 0) == find_from(s@, pat@, k as int),
        decreases last + 1 - k,
    {
        if occurs_at_exec(s, pat, k) {
            return Some(k);
        }
        k = k + 1;
    }
    None
}

/// The last index where `pat` occurs in `s`.
pub fn rfind_chars(s: &Vec<char>, pat: &Vec<char>) -> (r: Option<usize>)
    ensures
        match r {
            Some(i) => spec_rfind(s@, pat@) == Some(i as int) && i + pat@.len() <= s@.len(),
            None => spec_rfind(s@, pat@) is None,
        },
{
    proof {
        lemma_rfind_from(s@, pat@, s@.len() - pat@.len());
    }
    if pat.len() > s.len() {
        return None;
    }
    let mut k: usize = s.len() - pat.len();
    loop
        invariant
            k + pat.len() <= s.len(),
            spec_rfind(s@, pat@) == rfind_from(s@, pat@, k as int),
        decreases k,
    {
        if occurs_at_exec(s, pat, k) {
            return Some(k);
        }
        if k == 0 {
            assert(rfind_from(s@, pat@, -1) is None);
            return None;
        }
        k = k - 1;
    }
}

/// Whether `pat` occurs anywhere in `s`.
pub fn contains_chars(s: &Vec<char>, pat: &Vec<char>) -> (b: bool)
    ensures
        b == spec_contains(s@, pat@),
{
    find_chars(s, pat).is_some()
}

/// `s` without the prefix `pre`, if `s` starts with it.
pub fn strip_prefix_chars(s: &Vec<char>, pre: &Vec<char>) -> (r: Option<Vec<char>>)
    ensures
        match r {
            Some(v) => spec_strip_prefix(s@, pre@) == Some(v@),
            None => spec_strip_prefix(s@, pre@) is None,
        },
{
    if occurs_at_exec(s, pre, 0) {
        assert forall|j: int| 0 <= j < pre@.len() implies s@.subrange(0, pre@.len() as int)[j]
            == pre@[j] by {
            assert(s@[0 + j] == pre@[j]);
        }
        assert(s@.subrange(0, pre@.len() as int) =~= pre@);
        Some(slice_chars(s, pre.len(), s.len()))
    } else {
        proof {
            if pre@.len() <= s@.len() && s@.subrange(0, pre@.len() as int) == pre@ {
                assert forall|j: int| 0 <= j < pre@.len() implies #[trigger] s@[0 + j] == pre@[j] by {
                    assert(s@.subrange(0, pre@.len() as int)[j] == s@[j]);
                }
            }
        }
        None
    }
}

// ---------------------------------------------------------------------------
// Whitespace, digits and numbers
// ---------------------------------------------------------------------------

/// Whether `c` is Unicode whitespace (`char::is_whitespace`).
pub fn is_ws_exec(c: char) -> (b: bool)
    ensures
        b == is_ws(c),
{
    let u = c as u32;
    (9 <= u && u <= 13) || u == 32 || u == 0x85 || u == 0xA0 || u == 0x1680 || (0x2000 <= u
        && u <= 0x200A) || u == 0x2028 || u == 0x2029 || u == 0x202F || u == 0x205F || u == 0x3000
}


/// `s` without leading and trailing whitespace.
pub fn trim_chars(s: &Vec<char>) -> (r: Vec<char>)
    ensures
        r@ == spec_trim(s@),
{
    let mut i: usize = 0;
    assert(s@.subrange(0, s.len() as int) =~= s@);
    while i < s.len() && is_ws_exec(s[i])
        invariant
            i <= s.len(),
            trim_start(s@) == trim_start(s@.subrange(i as int, s.len() as int)),
        decreases s.len() - i,
    {
        assert(s@.subrange(i as int, s.len() as int).drop_first() =~= s@.subrange(
            i + 1,
            s.len() as int,
        ));
        i = i + 1;
    }
    let ghost front = s@.subrange(i as int, s.len() as int);
    assert(trim_start(front) == front);
    let mut j: usize = s.len();
    while j > i && is_ws_exec(s[j - 1])
        invariant
            i <= j <= s.len(),
            front == s@.subrange(i as int, s.len() as int),
            trim_end(front) == trim_end(s@.subrange(i as int, j as int)),
        decreases j,
    {
        assert(s@.subrange(i as int, j as int).drop_last() =~= s@.subrange(i as int, j - 1));
        j = j - 1;
    }
    slice_chars(s, i, j)
}

/// `s` with every occurrence of `c` removed.
pub fn remove_char_chars(s: &Vec<char>, c: char) -> (r: Vec<char>)
    ensures
        r@ == remove_char(s@, c),
{
    let mut r: Vec<char> = Vec::new();
    let mut i: usize = 0;
    while i < s.len()
        invariant
            i <= s.len(),
            r@ == remove_char(s@.take(i as int), c),
        decreases s.len() - i,
    {
        assert(s@.take(i + 1).drop_last() =~= s@.take(i as int));
        if s[i] != c {
            r.push(s[i]);
        }
        i = i + 1;
    }
    assert(s@.take(s.len() as int) =~= s@);
    r
}

/// Whether every character of `s` is an ASCII digit.
pub fn all_digits_exec(s: &Vec<char>) -> (b: bool)
    ensures
        b == all_digits(s@),
{
    let mut i: usize = 0;
    while i < s.len()
        invariant
            i <= s.len(),
            forall|k: int| 0 <= k < i ==> is_digit(#[trigger] s@[k]),
        decreases s.len() - i,
    {
        if !('0' <= s[i] && s[i] <= '9') {
            return false;
        }
        i = i + 1;
    }
    true
}

/// The value of the digits `s`, or `cap` where that value reaches `cap`.
pub fn digits_value_capped(s: &Vec<char>, cap: u128) -> (r: u128)
    requires
        all_digits(s@),
        cap <= 0x1_0000_0000_0000_0000_0000_0000u128,
    ensures
        r == if digits_value(s@) < cap { digits_value(s@) } else { cap as nat },
{
    let mut acc: u128 = 0;
    let mut i: usize = 0;
    while i < s.len()
        invariant
            i <= s.len(),
            all_digits(s@),
            cap <= 0x1_0000_0000_0000_0000_0000_0000u128,
            acc == if digits_value(s@.take(i as int)) < cap {
                digits_value(s@.take(i as int))
            } else {
                cap as nat
            },
        decreases s.len() - i,
    {
        assert(s@.take(i + 1).drop_last() =~= s@.take(i as int));
        assert(is_digit(s@[i as int]));
        let d: u128 = ((s[i] as u32) - ('0' as u32)) as u128;
        let next: u128 = acc * 10 + d;
        if next < cap {
            acc = next;
        } else {
            acc = cap;
        }
        i = i + 1;
    }
    assert(s@.take(s.len() as int) =~= s@);
    acc
}

/// Parses a `u64` as `str::parse::<u64>` does.
pub fn parse_u64_chars(s: &Vec<char>) -> (r: Option<u64>)
    ensures
        r == spec_parse_u64(s@),
{
    let body = if s.len() > 0 && s[0] == '+' {
        slice_chars(s, 1, s.len())
    } else {
        slice_chars(s, 0, s.len())
    };
    assert(s@.subrange(0, s.len() as int) =~= s@);
    assert(s@.len() > 0 ==> s@.subrange(1, s.len() as int) =~= s@.drop_first());
    if body.len() == 0 || !all_digits_exec(&body) {
        return None;
    }
    let v = digits_value_capped(&body, 0x1_0000_0000_0000_0000u128);
    if v > 0xffff_ffff_ffff_ffffu128 {
        None
    } else {
        Some(v as u64)
    }
}

/// Parses a `u32` as `str::parse::<u32>` does.
pub fn parse_u32_chars(s: &Vec<char>) -> (r: Option<u32>)
    ensures
        r == spec_parse_u32(s@),
{
    let body = if s.len() > 0 && s[0] == '+' {
        slice_chars(s, 1, s.len())
    } else {
        slice_chars(s, 0, s.len())
    };
    assert(s@.subrange(0, s.len() as int) =~= s@);
    assert(s@.len() > 0 ==> s@.subrange(1, s.len() as int) =~= s@.drop_first());
    if body.len() == 0 || !all_digits_exec(&body) {
        return None;
    }
    let v = digits_value_capped(&body, 0x1_0000_0000u128);
    if v > 0xffff_ffffu128 {
        None
    } else {
        Some(v as u32)
    }
}

/// The longest prefix of `s` that holds no whitespace.
pub fn take_non_ws_chars(s: &Vec<char>) -> (r: Vec<char>)
    ensures
        r@ == take_non_ws(s@),
{
    let mut i: usize = 0;
    assert(s@.skip(0) =~= s@);
    assert(s@.take(0) + take_non_ws(s@) =~= take_non_ws(s@));
    while i < s.len() && !is_ws_exec(s[i])
        invariant
            i <= s.len(),
            take_non_ws(s@) == s@.take(i as int) + take_non_ws(s@.skip(i as int)),
        decreases s.len() - i,
    {
        assert(s@.skip(i as int).drop_first() =~= s@.skip(i + 1));
        assert(s@.take(i as int) + seq![s@[i as int]] =~= s@.take(i + 1));
        assert(take_non_ws(s@.skip(i as int)) == seq![s@[i as int]].add(
            take_non_ws(s@.skip(i + 1)),
        ));
        assert(s@.take(i as int) + (seq![s@[i as int]] + take_non_ws(s@.skip(i + 1)))
            =~= s@.take(i + 1) + take_non_ws(s@.skip(i + 1)));
        i = i + 1;
    }
    assert(take_non_ws(s@.skip(i as int)) =~= Seq::<char>::empty());
    assert(s@.take(i as int) + Seq::<char>::empty() =~= s@.take(i as int));
    assert(s@.take(i as int) =~= s@.subrange(0, i as int));
    slice_chars(s, 0, i)
}

/// The characters of `parts` joined by `sep`.
pub fn join_strings(parts: &[String], sep: &Vec<char>) -> (r: Vec<char>)
    ensures
        r@ == spec_join(parts@.map_values(|p: String| p@), sep@),
{
    let ghost views = parts@.map_values(|p: String| p@);
    let mut r: Vec<char> = Vec::new();
    let mut i: usize = 0;
    while i < parts.len()
        invariant
            i <= parts.len(),
            views == parts@.map_values(|p: String| p@),
            r@ == spec_join(views.take(i as int), sep@),
        decreases parts.len() - i,
    {
        let part = chars_of(parts[i].as_str());
        assert(views.take(i + 1).drop_last() =~= views.take(i as int));
        assert(views.take(i + 1).last() == parts@[i as int]@);
        if i > 0 {
            let mut k: usize = 0;
            let ghost before = r@;
            while k < sep.len()
                invariant
                    k <= sep.len(),
                    r@ == before + sep@.take(k as int),
                decreases sep.len() - k,
            {
                r.push(sep[k]);
                k = k + 1;
                assert(r@ =~= before + sep@.take(k as int));
            }
            assert(sep@.take(sep.len() as int) =~= sep@);
        } else {
            assert(views.take(1) =~= seq![views[0]]);
        }
        let mut k: usize = 0;
        let ghost before2 = r@;
        while k < part.len()
            invariant
                k <= part.len(),
                r@ == before2 + part@.take(k as int),
            decreases part.len() - k,
        {
            r.push(part[k]);
            k = k + 1;
            assert(r@ =~= before2 + part@.take(k as int));
        }
        assert(part@.take(part.len() as int) =~= part@);
        proof {
            if i == 0 {
                assert(before2 =~= Seq::<char>::empty());
                assert(r@ =~= views.take(1)[0]);
            }
        }
        i = i + 1;
    }
    assert(views.take(parts.len() as int) =~= views);
    r
}


// ---------------------------------------------------------------------------
// Case mapping
// ---------------------------------------------------------------------------

/// The Unicode lowercase form of `s` as `str::to_lowercase` computes it:
/// a character may map to several, and a capital sigma maps by its context
/// (to the final form at the end of a word).
pub uninterp spec fn lowercase(s: Seq<char>) -> Seq<char>;

/// `str::to_lowercase`: the lowercase form of `s`.
///
/// The result is claimed to be `lowercase(s@)`, a name for what the standard
/// library computes from its Unicode tables; nothing more is stated of it.
#[verifier::external_body]
fn to_lowercase_string(s: &str) -> (r: String)
    ensures
        r@ == lowercase(s@),
{
    s.to_lowercase()
}

/// The lowercase form of the characters `s`.
pub fn lowercase_chars(s: &Vec<char>) -> (r: Vec<char>)
    ensures
        r@ == lowercase(s@),
{
    let st = string_of(s);
    let low = to_lowercase_string(st.as_str());
    chars_of(low.as_str())
}


// ---------------------------------------------------------------------------
// Facts about the specifications
// ---------------------------------------------------------------------------

/// Removing a character that does not occur changes nothing.
pub proof fn lemma_remove_char_absent(s: Seq<char>, c: char)
    requires
        forall|i: int| 0 <= i < s.len() ==> s[i] != c,
    ensures
        remove_char(s, c) == s,
    decreases s.len(),
{
    if s.len() > 0 {
        lemma_remove_char_absent(s.drop_last(), c);
        assert(s.drop_last().push(s.last()) =~= s);
    }
}

/// Removing a character distributes over concatenation.
pub proof fn lemma_remove_char_concat(a: Seq<char>, b: Seq<char>, c: char)
    ensures
        remove_char(a + b, c) == remove_char(a, c) + remove_char(b, c),
    decreases b.len(),
{
    if b.len() == 0 {
        assert(a + b =~= a);
        assert(remove_char(a, c) + remove_char(b, c) =~= remove_char(a, c));
    } else {
        lemma_remove_char_concat(a, b.drop_last(), c);
        assert((a + b).drop_last() =~= a + b.drop_last());
        assert((a + b).last() == b.last());
        if b.last() != c {
            assert(remove_char(a, c) + remove_char(b.drop_last(), c).push(b.last()) =~= (
            remove_char(a, c) + remove_char(b.drop_last(), c)).push(b.last()));
        }
    }
}

/// What remains after removing a character holds none of it.
pub proof fn lemma_remove_char_removes(s: Seq<char>, c: char)
    ensures
        forall|i: int| 0 <= i < remove_char(s, c).len() ==> remove_char(s, c)[i] != c,
    decreases s.len(),
{
    if s.len() > 0 {
        lemma_remove_char_removes(s.drop_last(), c);
        let r = remove_char(s.drop_last(), c);
        if s.last() != c {
            assert forall|i: int| 0 <= i < r.push(s.last()).len() implies r.push(s.last())[i]
                != c by {
                if i < r.len() {
                    assert(r.push(s.last())[i] == r[i]);
                }
            }
        }
    }
}

/// Removing a character twice is removing it once.
pub proof fn lemma_remove_char_idempotent(s: Seq<char>, c: char)
    ensures
        remove_char(remove_char(s, c), c) == remove_char(s, c),
{
    lemma_remove_char_removes(s, c);
    lemma_remove_char_absent(remove_char(s, c), c);
}

/// A pattern that holds a character which `s` lacks does not occur in `s`.
pub proof fn lemma_no_occurrence(s: Seq<char>, pat: Seq<char>, j: int)
    requires
        0 <= j < pat.len(),
        forall|i: int| 0 <= i < s.len() ==> s[i] != pat[j],
    ensures
        spec_find(s, pat) is None,
{
    lemma_find_from(s, pat, 0);
    if spec_find(s, pat) is Some {
        let i = spec_find(s, pat)->0;
        assert(s[i + j] == pat[j]);
    }
}

/// The decimal digits of `n`, most significant first, without leading zeros
/// (`0` for zero).
pub open spec fn decimal_digits(n: nat) -> Seq<char>
    decreases n,
{
    if n < 10 {
        seq![digit_char(n)]
    } else {
        decimal_digits(n / 10).push(digit_char(n % 10))
    }
}

/// The character of the digit `d` (below ten).
pub open spec fn digit_char(d: nat) -> char {
    (('0' as u32) + d) as char
}

/// The character of a digit is a digit of that value.
pub proof fn lemma_digit_char(d: nat)
    requires
        d < 10,
    ensures
        is_digit(digit_char(d)),
        (digit_char(d) as u32) - ('0' as u32) == d,
{
    assert(((('0' as u32) + d) as char) as u32 == ('0' as u32) + d);
}

/// The decimal digits of `n` are digits and denote `n`.
pub proof fn lemma_decimal_digits(n: nat)
    ensures
        all_digits(decimal_digits(n)),
        digits_value(decimal_digits(n)) == n,
        decimal_digits(n).len() >= 1,
    decreases n,
{
    lemma_digit_char(n % 10);
    if n < 10 {
        lemma_digit_char(n);
        assert(decimal_digits(n).drop_last() =~= Seq::<char>::empty());
        assert(digits_value(Seq::<char>::empty()) == 0);
    } else {
        lemma_decimal_digits(n / 10);
        let d = decimal_digits(n);
        assert(d.drop_last() =~= decimal_digits(n / 10));
        assert forall|i: int| 0 <= i < d.len() implies is_digit(#[trigger] d[i]) by {
            if i < d.len() - 1 {
                assert(d[i] == decimal_digits(n / 10)[i]);
            }
        }
    }
}


/// Where `pat` follows `a` and occurs at no index before, the first
/// occurrence of `pat` is right after `a`.
pub proof fn lemma_find_after(a: Seq<char>, pat: Seq<char>, b: Seq<char>)
    requires
        forall|i: int| 0 <= i < a.len() ==> !#[trigger] occurs_at(a + pat + b, pat, i),
    ensures
        spec_find(a + pat + b, pat) == Some(a.len() as int),
{
    let s = a + pat + b;
    assert(occurs_at(s, pat, a.len() as int)) by {
        assert forall|j: int| 0 <= j < pat.len() implies #[trigger] s[a.len() + j] == pat[j] by {
            assert(s[a.len() + j] == (a + pat)[a.len() + j]);
        }
    }
    lemma_find_from(s, pat, 0);
}

/// The first occurrence of `pat` in `a + pat` is its first occurrence in
/// anything that starts with `a + pat`.
pub proof fn lemma_find_extend(a: Seq<char>, pat: Seq<char>, b: Seq<char>)
    requires
        spec_find(a + pat, pat) == Some(a.len() as int),
    ensures
        spec_find(a + pat + b, pat) == Some(a.len() as int),
{
    lemma_find_from(a + pat, pat, 0);
    assert forall|i: int| 0 <= i < a.len() implies !#[trigger] occurs_at(a + pat + b, pat, i) by {
        if occurs_at(a + pat + b, pat, i) {
            assert forall|j: int| 0 <= j < pat.len() implies #[trigger] (a + pat)[i + j] == pat[j] by {
                assert((a + pat + b)[i + j] == pat[j]);
                assert((a + pat + b)[i + j] == (a + pat)[i + j]);
            }
            assert(occurs_at(a + pat, pat, i));
        }
    }
    lemma_find_after(a, pat, b);
}

/// Where `pat` follows `a` and occurs at no later index, its last
/// occurrence is right after `a`.
pub proof fn lemma_rfind_after(a: Seq<char>, pat: Seq<char>, b: Seq<char>)
    requires
        forall|i: int| a.len() < i ==> !#[trigger] occurs_at(a + pat + b, pat, i),
    ensures
        spec_rfind(a + pat + b, pat) == Some(a.len() as int),
{
    let s = a + pat + b;
    assert(occurs_at(s, pat, a.len() as int)) by {
        assert forall|j: int| 0 <= j < pat.len() implies #[trigger] s[a.len() + j] == pat[j] by {
            assert(s[a.len() + j] == (a + pat)[a.len() + j]);
        }
    }
    lemma_rfind_from(s, pat, s.len() - pat.len());
}

/// The non-whitespace word at the start of `word + rest`, where `word`
/// holds no whitespace and `rest` is empty or starts with whitespace, is `word`.
pub proof fn lemma_take_non_ws_word(word: Seq<char>, rest: Seq<char>)
    requires
        rest.len() == 0 || is_ws(rest[0]),
        forall|i: int| 0 <= i < word.len() ==> !is_ws(#[trigger] word[i]),
    ensures
        take_non_ws(word + rest) == word,
    decreases word.len(),
{
    let s = word + rest;
    if word.len() == 0 {
        assert(s =~= rest);
    } else {
        let w2 = word.drop_first();
        assert forall|i: int| 0 <= i < w2.len() implies !is_ws(#[trigger] w2[i]) by {
            assert(w2[i] == word[i + 1]);
        }
        lemma_take_non_ws_word(w2, rest);
        assert(s.drop_first() =~= w2 + rest);
        assert(s[0] == word[0]);
        assert(seq![word[0]] + w2 =~= word);
    }
}

/// Where `pat` occurs at no index before `j`, its first occurrence in `s` is
/// its first occurrence in `s.skip(j)`, moved by `j`.
pub proof fn lemma_find_skip(s: Seq<char>, pat: Seq<char>, j: int)
    requires
        0 <= j <= s.len(),
        forall|i: int| 0 <= i < j ==> !#[trigger] occurs_at(s, pat, i),
    ensures
        match spec_find(s.skip(j), pat) {
            Some(i) => spec_find(s, pat) == Some(i + j),
            None => spec_find(s, pat) is None,
        },
{
    let t = s.skip(j);
    assert forall|i: int| 0 <= i implies #[trigger] occurs_at(t, pat, i) == occurs_at(s, pat, i + j) by {
        if occurs_at(t, pat, i) {
            assert forall|k: int| 0 <= k < pat.len() implies #[trigger] s[i + j + k] == pat[k] by {
                assert(t[i + k] == pat[k]);
                assert(t[i + k] == s[i + k + j]);
            }
        }
        if occurs_at(s, pat, i + j) {
            assert forall|k: int| 0 <= k < pat.len() implies #[trigger] t[i + k] == pat[k] by {
                assert(s[i + j + k] == pat[k]);
                assert(t[i + k] == s[i + k + j]);
            }
        }
    }
    lemma_find_from(s, pat, 0);
    lemma_find_from(t, pat, 0);
    match spec_find(t, pat) {
        Some(i) => {
            assert(occurs_at(s, pat, i + j));
            match spec_find(s, pat) {
                Some(k) => {
                    if k < i + j {
                        assert(k >= j);
                        assert(occurs_at(t, pat, k - j));
                    }
                },
                None => {},
            }
        },
        None => {
            match spec_find(s, pat) {
                Some(k) => {
                    assert(k >= j);
                    assert(occurs_at(t, pat, k - j));
                },
                None => {},
            }
        },
    }
}

/// `trim_start` drops a whitespace prefix.
pub proof fn lemma_trim_start_shape(s: Seq<char>) -> (a: int)
    ensures
        0 <= a <= s.len(),
        trim_start(s) == s.skip(a),
        forall|i: int| 0 <= i < a ==> is_ws(#[trigger] s[i]),
    decreases s.len(),
{
    if s.len() > 0 && is_ws(s[0]) {
        let a1 = lemma_trim_start_shape(s.drop_first());
        assert(s.drop_first().skip(a1) =~= s.skip(a1 + 1));
        assert forall|i: int| 0 <= i < a1 + 1 implies is_ws(#[trigger] s[i]) by {
            if i > 0 {
                assert(s[i] == s.drop_first()[i - 1]);
            }
        }
        a1 + 1
    } else {
        assert(s.skip(0) =~= s);
        0
    }
}

/// `trim_end` drops a whitespace suffix.
pub proof fn lemma_trim_end_shape(s: Seq<char>) -> (b: int)
    ensures
        0 <= b <= s.len(),
        trim_end(s) == s.take(b),
        forall|i: int| b <= i < s.len() ==> is_ws(#[trigger] s[i]),
    decreases s.len(),
{
    if s.len() > 0 && is_ws(s.last()) {
        let b1 = lemma_trim_end_shape(s.drop_last());
        assert(s.drop_last().take(b1) =~= s.take(b1));
        assert forall|i: int| b1 <= i < s.len() implies is_ws(#[trigger] s[i]) by {
            if i < s.len() - 1 {
                assert(s[i] == s.drop_last()[i]);
            }
        }
        b1
    } else {
        assert(s.take(s.len() as int) =~= s);
        s.len() as int
    }
}

/// A text whose trimmed form is all digits holds only whitespace and digits.
pub proof fn lemma_trimmed_digits(s: Seq<char>)
    requires
        all_digits(spec_trim(s)),
    ensures
        forall|i: int| 0 <= i < s.len() ==> is_ws(#[trigger] s[i]) || is_digit(s[i]),
{
    let a = lemma_trim_start_shape(s);
    let u = s.skip(a);
    let b = lemma_trim_end_shape(u);
    assert forall|i: int| 0 <= i < s.len() implies is_ws(#[trigger] s[i]) || is_digit(s[i]) by {
        if i >= a {
            assert(u[i - a] == s[i]);
            if i - a < b {
                assert(spec_trim(s)[i - a] == u[i - a]);
            }
        }
    }
}

} // verus!
