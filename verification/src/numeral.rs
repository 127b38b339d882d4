//! Decimal numerals as `f64::from_str` accepts them, read exactly: the
//! value is scaled by a power of ten, truncated toward zero and saturated
//! to the range of `i64`.
//!
//! Grammar (letters in either case): `Sign? ( "inf" | "infinity" | "nan" |
//! Number )` where `Number ::= ( Digit+ | Digit+ "." Digit* | Digit* "." Digit+ ) Exp?`
//! and `Exp ::= "e" Sign? Digit+`. Infinities saturate; `nan` reads as zero.

use vstd::prelude::*;
use crate::text::{
    all_digits, all_digits_exec, digits_value, digits_value_capped, find_chars, is_digit,
    slice_chars, spec_find,
};

verus! {

// ---------------------------------------------------------------------------
// Specifications
// ---------------------------------------------------------------------------

/// `10` raised to `k`.
pub open spec fn pow10(k: nat) -> nat
    decreases k,
{
    if k == 0 {
        1
    } else {
        10 * pow10((k - 1) as nat)
    }
}

/// `v` saturated to the range of `i64`.
pub open spec fn clamp_i64(v: int) -> i64 {
    if v > i64::MAX {
        i64::MAX
    } else if v < i64::MIN {
        i64::MIN
    } else {
        v as i64
    }
}

/// `c` with an ASCII capital letter made small.
pub open spec fn ascii_lower(c: char) -> char {
    if 'A' <= c && c <= 'Z' {
        ((c as u32) + 32) as char
    } else {
        c
    }
}

/// `s` is `word` (given in small letters) up to ASCII case.
pub open spec fn eq_ignore_ascii_case(s: Seq<char>, word: Seq<char>) -> bool {
    s.len() == word.len() && forall|i: int| 0 <= i < s.len() ==> ascii_lower(#[trigger] s[i]) == word[i]
}

/// The integer and fraction digits of an unsigned decimal mantissa: one or
/// more digits with at most one `.` among them (`12`, `12.5`, `12.`, `.5`).
pub open spec fn decimal_parts(body: Seq<char>) -> Option<(Seq<char>, Seq<char>)> {
    match spec_find(body, seq!['.']) {
        None => if body.len() > 0 && all_digits(body) {
            Some((body, Seq::empty()))
        } else {
            None
        },
        Some(d) => {
            let int_digits = body.take(d);
            let frac_digits = body.skip(d + 1);
            if all_digits(int_digits) && all_digits(frac_digits) && int_digits.len()
                + frac_digits.len() > 0 {
                Some((int_digits, frac_digits))
            } else {
                None
            }
        },
    }
}

/// The number that the digits `d` denote times `10^q`, truncated toward zero.
pub open spec fn shift_magnitude(d: Seq<char>, q: int) -> nat {
    if q >= 0 {
        digits_value(d) * pow10(q as nat)
    } else {
        digits_value(d) / pow10((-q) as nat)
    }
}

/// The first index at or after `k` of an exponent mark (`e` or `E`).
pub open spec fn exponent_mark_from(s: Seq<char>, k: int) -> Option<int>
    decreases s.len() - k,
{
    if k < 0 || k >= s.len() {
        None
    } else if s[k] == 'e' || s[k] == 'E' {
        Some(k)
    } else {
        exponent_mark_from(s, k + 1)
    }
}

/// The value of an exponent: an optional sign, then one or more digits.
pub open spec fn spec_exponent(t: Seq<char>) -> Option<int> {
    let neg = t.len() > 0 && t[0] == '-';
    let digits = if t.len() > 0 && (t[0] == '+' || t[0] == '-') {
        t.drop_first()
    } else {
        t
    };
    if digits.len() > 0 && all_digits(digits) {
        Some(if neg { -(digits_value(digits) as int) } else { digits_value(digits) as int })
    } else {
        None
    }
}

/// The exact magnitude of an unsigned finite numeral times `10^k`, truncated
/// toward zero; `None` where `body` is no such numeral.
pub open spec fn spec_finite_magnitude(body: Seq<char>, k: nat) -> Option<nat> {
    let (mantissa, exponent) = match exponent_mark_from(body, 0) {
        None => (body, Some(0int)),
        Some(e) => (body.take(e), spec_exponent(body.skip(e + 1))),
    };
    match (decimal_parts(mantissa), exponent) {
        (Some((int_digits, frac_digits)), Some(x)) => Some(
            shift_magnitude(int_digits + frac_digits, x + k - frac_digits.len()),
        ),
        _ => None,
    }
}

/// The exact value of a signed numeral times `10^k`, truncated toward zero
/// and saturated to `i64` (an infinity saturates, `nan` is zero); `None`
/// where `s` is no numeral.
pub open spec fn spec_parse_scaled(s: Seq<char>, k: nat) -> Option<i64> {
    let neg = s.len() > 0 && s[0] == '-';
    let body = if s.len() > 0 && (s[0] == '+' || s[0] == '-') {
        s.drop_first()
    } else {
        s
    };
    if eq_ignore_ascii_case(body, "inf"@) || eq_ignore_ascii_case(body, "infinity"@) {
        Some(if neg { i64::MIN } else { i64::MAX })
    } else if eq_ignore_ascii_case(body, "nan"@) {
        Some(0)
    } else {
        match spec_finite_magnitude(body, k) {
            None => None,
            Some(mag) => Some(clamp_i64(if neg { -(mag as int) } else { mag as int })),
        }
    }
}

// ---------------------------------------------------------------------------
// Facts
// ---------------------------------------------------------------------------

/// Powers of ten are positive.
pub proof fn lemma_pow10_positive(a: nat)
    ensures
        1 <= pow10(a),
    decreases a,
{
    if a > 0 {
        lemma_pow10_positive((a - 1) as nat);
    }
}

/// Powers of ten are positive and grow with the exponent.
pub proof fn lemma_pow10_monotone(a: nat, b: nat)
    requires
        a <= b,
    ensures
        1 <= pow10(a) <= pow10(b),
    decreases b,
{
    lemma_pow10_positive(a);
    if a < b {
        lemma_pow10_monotone(a, (b - 1) as nat);
    }
}

/// The first powers of ten.
pub proof fn lemma_pow10_values()
    ensures
        pow10(0) == 1,
        pow10(1) == 10,
        pow10(2) == 100,
        pow10(3) == 1000,
        pow10(6) == 1_000_000,
        pow10(9) == 1_000_000_000,
        pow10(19) == 10_000_000_000_000_000_000,
        pow10(20) == 100_000_000_000_000_000_000,
{
    reveal_with_fuel(pow10, 21);
}

/// `n` digits denote less than `10^n`.
pub proof fn lemma_digits_value_bound(d: Seq<char>)
    requires
        all_digits(d),
    ensures
        digits_value(d) < pow10(d.len()),
    decreases d.len(),
{
    if d.len() > 0 {
        let p = d.drop_last();
        assert(all_digits(p)) by {
            assert forall|i: int| 0 <= i < p.len() implies is_digit(#[trigger] p[i]) by {
                assert(p[i] == d[i]);
            }
        }
        lemma_digits_value_bound(p);
        assert(is_digit(d.last()));
    }
}

/// Dropping the last `j` digits divides by `10^j`, rounding down.
pub proof fn lemma_digits_value_shift_right(d: Seq<char>, j: nat)
    requires
        all_digits(d),
        j <= d.len(),
    ensures
        digits_value(d) / pow10(j) == digits_value(d.take(d.len() - j)),
    decreases j,
{
    if j == 0 {
        assert(d.take(d.len() as int) =~= d);
        assert(pow10(0) == 1);
        assert(digits_value(d) / 1 == digits_value(d));
    } else {
        let p = d.drop_last();
        assert(all_digits(p)) by {
            assert forall|i: int| 0 <= i < p.len() implies is_digit(#[trigger] p[i]) by {
                assert(p[i] == d[i]);
            }
        }
        lemma_digits_value_shift_right(p, (j - 1) as nat);
        assert(is_digit(d.last()));
        let x = digits_value(d) as int;
        let r = ((d.last() as u32) - ('0' as u32)) as int;
        assert(x == digits_value(p) * 10 + r);
        vstd::arithmetic::div_mod::lemma_fundamental_div_mod_converse(x, 10, digits_value(p) as int, r);
        lemma_pow10_monotone(0, (j - 1) as nat);
        vstd::arithmetic::div_mod::lemma_div_denominator(x, 10, pow10((j - 1) as nat) as int);
        assert(p.take(p.len() - (j - 1)) =~= d.take(d.len() - j));
        assert(0 <= r < 10);
        assert(x / 10 == digits_value(p));
        assert(pow10(j) == 10 * pow10((j - 1) as nat));
        assert(x / pow10(j) as int == (x / 10) / (pow10((j - 1) as nat) as int));
    }
}

// ---------------------------------------------------------------------------
// Parsing
// ---------------------------------------------------------------------------

/// The saturation bound of the magnitude: `2^63`.
pub const MAGNITUDE_CAP: u128 = 0x8000_0000_0000_0000;

/// Bound on the exponent, beyond which the value saturates or vanishes anyway.
pub const EXPONENT_CAP: u128 = 0x2_0000_0000_0000_0000;

/// `10^k` for small `k`.
pub fn pow10_exec(k: u32) -> (r: u128)
    requires
        k <= 19,
    ensures
        r == pow10(k as nat),
        r <= 10_000_000_000_000_000_000,
{
    proof {
        lemma_pow10_monotone(k as nat, 19);
        lemma_pow10_values();
    }
    let mut r: u128 = 1;
    let mut i: u32 = 0;
    while i < k
        invariant
            i <= k <= 19,
            r == pow10(i as nat),
            pow10(k as nat) <= 10_000_000_000_000_000_000,
        decreases k - i,
    {
        proof {
            lemma_pow10_monotone((i + 1) as nat, k as nat);
        }
        r = r * 10;
        i = i + 1;
    }
    r
}

/// Whether `s` is `word` (in small letters) up to ASCII case.
fn eq_ignore_ascii_case_exec(s: &Vec<char>, word: &Vec<char>) -> (b: bool)
    ensures
        b == eq_ignore_ascii_case(s@, word@),
{
    if s.len() != word.len() {
        return false;
    }
    let mut i: usize = 0;
    while i < s.len()
        invariant
            i <= s.len() == word.len(),
            forall|j: int| 0 <= j < i ==> ascii_lower(#[trigger] s@[j]) == word@[j],
        decreases s.len() - i,
    {
        let c = s[i];
        let low = if 'A' <= c && c <= 'Z' {
            char_plus_32(c)
        } else {
            c
        };
        if low != word[i] {
            return false;
        }
        i = i + 1;
    }
    true
}

/// An ASCII capital letter made small.
fn char_plus_32(c: char) -> (r: char)
    requires
        'A' <= c <= 'Z',
    ensures
        r == ((c as u32) + 32) as char,
{
    let u = c as u32 + 32;
    assert(u <= 0x7f);
    let b = u as u8;
    b as char
}

/// Splits an unsigned decimal mantissa into its integer and fraction digits.
fn split_decimal(body: &Vec<char>) -> (r: Option<(Vec<char>, Vec<char>)>)
    ensures
        match r {
            Some((i, f)) => decimal_parts(body@) == Some((i@, f@)),
            None => decimal_parts(body@) is None,
        },
{
    let dot = vec!['.'];
    assert(dot@ =~= seq!['.']);
    match find_chars(body, &dot) {
        None => {
            if body.len() > 0 && all_digits_exec(body) {
                assert(body@.subrange(0, body.len() as int) =~= body@);
                Some((slice_chars(body, 0, body.len()), Vec::new()))
            } else {
                None
            }
        },
        Some(d) => {
            let i = slice_chars(body, 0, d);
            let f = slice_chars(body, d + 1, body.len());
            assert(i@ =~= body@.take(d as int));
            assert(f@ =~= body@.skip(d + 1));
            if all_digits_exec(&i) && all_digits_exec(&f) && i.len() + f.len() > 0 {
                Some((i, f))
            } else {
                None
            }
        },
    }
}

/// The first index of an exponent mark.
fn exponent_mark(s: &Vec<char>) -> (r: Option<usize>)
    ensures
        match r {
            Some(i) => exponent_mark_from(s@, 0) == Some(i as int) && i < s@.len(),
            None => exponent_mark_from(s@, 0) is None,
        },
{
    let mut k: usize = 0;
    while k < s.len()
        invariant
            k <= s.len(),
            exponent_mark_from(s@, 0) == exponent_mark_from(s@, k as int),
        decreases s.len() - k,
    {
        if s[k] == 'e' || s[k] == 'E' {
            return Some(k);
        }
        k = k + 1;
    }
    None
}

/// The exponent's value, its magnitude capped at [`EXPONENT_CAP`].
fn parse_exponent(t: &Vec<char>) -> (r: Option<i128>)
    ensures
        match r {
            Some(x) => spec_exponent(t@) is Some && (if spec_exponent(t@)->0 >= EXPONENT_CAP {
                x == EXPONENT_CAP
            } else if spec_exponent(t@)->0 <= -EXPONENT_CAP {
                x == -EXPONENT_CAP
            } else {
                x == spec_exponent(t@)->0
            }),
            None => spec_exponent(t@) is None,
        },
{
    let neg = t.len() > 0 && t[0] == '-';
    let digits = if t.len() > 0 && (t[0] == '+' || t[0] == '-') {
        slice_chars(t, 1, t.len())
    } else {
        slice_chars(t, 0, t.len())
    };
    assert(t@.subrange(0, t.len() as int) =~= t@);
    assert(t@.len() > 0 ==> t@.subrange(1, t.len() as int) =~= t@.drop_first());
    if digits.len() == 0 || !all_digits_exec(&digits) {
        return None;
    }
    let v = digits_value_capped(&digits, EXPONENT_CAP);
    if neg {
        Some(-(v as i128))
    } else {
        Some(v as i128)
    }
}

/// `shift_magnitude(d, q)`, or [`MAGNITUDE_CAP`] where it reaches that.
fn shift_magnitude_capped(d: &Vec<char>, q: i128) -> (r: u128)
    requires
        all_digits(d@),
        q > i128::MIN,
    ensures
        r == if shift_magnitude(d@, q as int) < MAGNITUDE_CAP {
            shift_magnitude(d@, q as int)
        } else {
            MAGNITUDE_CAP as nat
        },
{
    let nonzero = digits_value_capped(d, 1) == 1;
    if q >= 0 {
        if !nonzero {
            assert(digits_value(d@) == 0);
            assert(0 * pow10(q as nat) == 0);
            return 0;
        }
        if q > 19 {
            proof {
                lemma_pow10_monotone(20, q as nat);
                lemma_pow10_values();
                assert(digits_value(d@) * pow10(q as nat) >= 1 * pow10(q as nat)) by (nonlinear_arith)
                    requires
                        digits_value(d@) >= 1,
                ;
            }
            return MAGNITUDE_CAP;
        }
        let v = digits_value_capped(d, MAGNITUDE_CAP);
        let p = pow10_exec(q as u32);
        proof {
            assert(v * p <= MAGNITUDE_CAP * 10_000_000_000_000_000_000u128) by (nonlinear_arith)
                requires
                    v <= MAGNITUDE_CAP,
                    p <= 10_000_000_000_000_000_000u128,
            ;
            lemma_pow10_monotone(0, q as nat);
            if digits_value(d@) >= MAGNITUDE_CAP {
                assert(digits_value(d@) * p >= MAGNITUDE_CAP * 1) by (nonlinear_arith)
                    requires
                        digits_value(d@) >= MAGNITUDE_CAP,
                        p >= 1,
                ;
                assert(v * p >= MAGNITUDE_CAP * 1) by (nonlinear_arith)
                    requires
                        v == MAGNITUDE_CAP,
                        p >= 1,
                ;
            }
        }
        let raw = v * p;
        if raw < MAGNITUDE_CAP {
            raw
        } else {
            MAGNITUDE_CAP
        }
    } else {
        let j = -q;
        if j > d.len() as i128 {
            proof {
                lemma_digits_value_bound(d@);
                lemma_pow10_monotone(d@.len(), j as nat);
                vstd::arithmetic::div_mod::lemma_basic_div(
                    digits_value(d@) as int,
                    pow10(j as nat) as int,
                );
            }
            return 0;
        }
        let keep = d.len() - (j as usize);
        let head = slice_chars(d, 0, keep);
        proof {
            lemma_digits_value_shift_right(d@, j as nat);
            assert(head@ =~= d@.take(d@.len() - j));
            assert(all_digits(head@)) by {
                assert forall|i: int| 0 <= i < head@.len() implies is_digit(#[trigger] head@[i]) by {
                    assert(head@[i] == d@[i]);
                }
            }
        }
        digits_value_capped(&head, MAGNITUDE_CAP)
    }
}

/// The magnitude of an unsigned finite numeral times `10^k`, capped at
/// [`MAGNITUDE_CAP`].
fn finite_magnitude(body: &Vec<char>, k: u32) -> (r: Option<u128>)
    requires
        k <= 9,
    ensures
        match r {
            Some(m) => spec_finite_magnitude(body@, k as nat) is Some && m == if spec_finite_magnitude(
                body@,
                k as nat,
            )->0 < MAGNITUDE_CAP {
                spec_finite_magnitude(body@, k as nat)->0
            } else {
                MAGNITUDE_CAP as nat
            },
            None => spec_finite_magnitude(body@, k as nat) is None,
        },
{
    let (mantissa, exponent) = match exponent_mark(body) {
        None => {
            assert(body@.subrange(0, body.len() as int) =~= body@);
            (slice_chars(body, 0, body.len()), Some(0i128))
        },
        Some(e) => {
            let n = body.len();
            let m = slice_chars(body, 0, e);
            let t = slice_chars(body, e + 1, n);
            assert(m@ =~= body@.take(e as int));
            assert(t@ =~= body@.skip(e + 1));
            (m, parse_exponent(&t))
        },
    };
    let x = match exponent {
        Some(x) => x,
        None => return None,
    };
    let (int_digits, frac_digits) = match split_decimal(&mantissa) {
        Some(p) => p,
        None => return None,
    };
    let mut digits = int_digits;
    let ghost before = digits@;
    let mut i: usize = 0;
    while i < frac_digits.len()
        invariant
            i <= frac_digits.len(),
            digits@ == before + frac_digits@.take(i as int),
        decreases frac_digits.len() - i,
    {
        digits.push(frac_digits[i]);
        i = i + 1;
        assert(digits@ =~= before + frac_digits@.take(i as int));
    }
    assert(frac_digits@.take(frac_digits.len() as int) =~= frac_digits@);
    assert(all_digits(digits@)) by {
        assert forall|j: int| 0 <= j < digits@.len() implies is_digit(#[trigger] digits@[j]) by {
            if j < before.len() {
                assert(digits@[j] == before[j]);
            } else {
                assert(digits@[j] == frac_digits@[j - before.len()]);
            }
        }
    }
    let ghost x_true: int = match exponent_mark_from(body@, 0) {
        None => 0int,
        Some(e) => spec_exponent(body@.skip(e + 1))->0,
    };
    let flen = frac_digits.len() as i128;
    let dlen = digits.len();
    let q = x + (k as i128) - flen;
    let ghost q_true = x_true + k - frac_digits@.len();
    proof {
        if q != q_true {
            // the exponent was capped: both shifts saturate or both vanish
            lemma_pow10_values();
            if x_true >= EXPONENT_CAP {
                assert(q >= 20 && q_true >= 20);
                if digits_value(digits@) >= 1 {
                    lemma_pow10_monotone(20, q as nat);
                    lemma_pow10_monotone(20, q_true as nat);
                    assert(digits_value(digits@) * pow10(q as nat) >= 1 * pow10(q as nat)) by (nonlinear_arith)
                        requires
                            digits_value(digits@) >= 1,
                    ;
                    assert(digits_value(digits@) * pow10(q_true as nat) >= 1 * pow10(
                        q_true as nat,
                    )) by (nonlinear_arith)
                        requires
                            digits_value(digits@) >= 1,
                    ;
                } else {
                    assert(0 * pow10(q as nat) == 0);
                    assert(0 * pow10(q_true as nat) == 0);
                }
            } else {
                assert(dlen == digits@.len());
                assert(digits@.len() == before.len() + frac_digits@.len());
                assert(-q > digits@.len() && -q_true > digits@.len());
                lemma_digits_value_bound(digits@);
                lemma_pow10_monotone(digits@.len(), (-q) as nat);
                lemma_pow10_monotone(digits@.len(), (-q_true) as nat);
                vstd::arithmetic::div_mod::lemma_basic_div(
                    digits_value(digits@) as int,
                    pow10((-q) as nat) as int,
                );
                vstd::arithmetic::div_mod::lemma_basic_div(
                    digits_value(digits@) as int,
                    pow10((-q_true) as nat) as int,
                );
            }
        }
    }
    Some(shift_magnitude_capped(&digits, q))
}

/// Parses a signed numeral and scales it by `10^k`, truncating toward zero
/// and saturating to `i64`.
pub fn parse_scaled(s: &Vec<char>, k: u32) -> (r: Option<i64>)
    requires
        k <= 9,
    ensures
        r == spec_parse_scaled(s@, k as nat),
{
    let neg = s.len() > 0 && s[0] == '-';
    let body = if s.len() > 0 && (s[0] == '+' || s[0] == '-') {
        slice_chars(s, 1, s.len())
    } else {
        slice_chars(s, 0, s.len())
    };
    assert(s@.subrange(0, s.len() as int) =~= s@);
    assert(s@.len() > 0 ==> s@.subrange(1, s.len() as int) =~= s@.drop_first());
    let inf = crate::text::chars_of("inf");
    let infinity = crate::text::chars_of("infinity");
    let nan = crate::text::chars_of("nan");
    if eq_ignore_ascii_case_exec(&body, &inf) || eq_ignore_ascii_case_exec(&body, &infinity) {
        return Some(if neg { i64::MIN } else { i64::MAX });
    }
    if eq_ignore_ascii_case_exec(&body, &nan) {
        return Some(0);
    }
    match finite_magnitude(&body, k) {
        None => None,
        Some(mag) => {
            if neg {
                let v: i128 = -(mag as i128);
                Some(v as i64)
            } else if mag > 0x7fff_ffff_ffff_ffffu128 {
                Some(i64::MAX)
            } else {
                Some(mag as i64)
            }
        },
    }
}

} // verus!
