use vstd::prelude::*;

use crate::text::{
    all_digits, bounded_digits, chars_of, contains, contains_chars, copy_range, digit_val,
    digits_only, digits_value, filter_digits, find, find_chars, first_digit_run, is_ascii_digit,
    is_digit, leading_digits, parse_digits_i32, parse_digits_u32, parse_digits_u64,
    skip_non_digits, split_char, split_chars, trim, trim_chars,
};

verus! {

/// The digits of `text` read as one `u32`, when there is at least one digit and the number fits.
pub open spec fn u32_digits_spec(text: Seq<char>) -> Option<nat> {
    bounded_digits(digits_only(text), u32::MAX as nat)
}

pub fn parse_u32_digits(text: &str) -> (r: Option<u32>)
    ensures
        r matches Some(x) ==> u32_digits_spec(text@) == Some(x as nat),
        r is None <==> u32_digits_spec(text@) is None,
{
    let v = chars_of(text);
    let digits = filter_digits(v.as_slice());
    parse_digits_u32(digits.as_slice())
}

/// The first run of digits after the first occurrence of `needle`, read as a `u32`.
pub open spec fn number_after_spec(haystack: Seq<char>, needle: Seq<char>) -> Option<nat> {
    match find(haystack, needle) {
        Some(i) => bounded_digits(
            leading_digits(skip_non_digits(haystack.skip(i + needle.len()))),
            u32::MAX as nat,
        ),
        None => None,
    }
}

pub fn extract_number_after(haystack: &str, needle: &str) -> (r: Option<u32>)
    ensures
        r matches Some(x) ==> number_after_spec(haystack@, needle@) == Some(x as nat),
        r is None <==> number_after_spec(haystack@, needle@) is None,
{
    let h = chars_of(haystack);
    let n = chars_of(needle);
    let start = match find_chars(h.as_slice(), n.as_slice()) {
        Some(i) => i + n.len(),
        None => {
            return None;
        },
    };
    let after = copy_range(h.as_slice(), start, h.len());
    assert(after@ == h@.skip(start as int));
    let digits = first_digit_run(after.as_slice());
    parse_digits_u32(digits.as_slice())
}

/// The two numbers of a `current / max` DX score text.
pub open spec fn dx_score_pair_spec(text: Seq<char>) -> Option<(nat, nat)> {
    if !contains(text, seq!['/']) {
        None
    } else {
        let parts = split_char(text, '/');
        let left = digits_only(trim(parts[0]));
        let right = digits_only(trim(parts[1]));
        if left.len() == 0 || right.len() == 0 {
            None
        } else {
            match (bounded_digits(left, i32::MAX as nat), bounded_digits(right, i32::MAX as nat)) {
                (Some(a), Some(b)) => Some((a, b)),
                _ => None,
            }
        }
    }
}

proof fn lemma_split_has_two_pieces(s: Seq<char>, c: char)
    requires
        contains(s, seq![c]),
    ensures
        split_char(s, c).len() >= 2,
    decreases s.len(),
{
    let k = find(s, seq![c])->0;
    crate::text::lemma_find_matches(s, seq![c]);
    assert(s.subrange(k, k + 1) == seq![c]);
    assert(s.subrange(k, k + 1)[0] == s[k]);
    assert(s[k] == c);
    lemma_split_count_ge(s, c, k);
}

/// After an occurrence of `c` at `k`, the split has at least two pieces.
proof fn lemma_split_count_ge(s: Seq<char>, c: char, k: int)
    requires
        0 <= k < s.len(),
        s[k] == c,
    ensures
        split_char(s, c).len() >= 2,
    decreases s.len(),
{
    crate::text::lemma_split_char_nonempty(s.drop_last(), c);
    if k == s.len() - 1 {
    } else {
        assert(s.drop_last()[k] == c);
        lemma_split_count_ge(s.drop_last(), c, k);
    }
}

pub fn parse_dx_score_pair(text: &str) -> (r: Option<(i32, i32)>)
    ensures
        r matches Some((a, b)) ==> a >= 0 && b >= 0 && dx_score_pair_spec(text@) == Some(
            (a as nat, b as nat),
        ),
        r is None <==> dx_score_pair_spec(text@) is None,
{
    let v = chars_of(text);
    let mut slash: Vec<char> = Vec::new();
    slash.push('/');
    assert(slash@ =~= seq!['/']);
    if !contains_chars(v.as_slice(), slash.as_slice()) {
        return None;
    }
    let parts = split_chars(v.as_slice(), '/');
    proof {
        lemma_split_has_two_pieces(v@, '/');
    }
    let left = trim_chars(parts[0].as_slice());
    let right = trim_chars(parts[1].as_slice());
    let left_digits = filter_digits(left.as_slice());
    let right_digits = filter_digits(right.as_slice());
    if left_digits.len() == 0 || right_digits.len() == 0 {
        return None;
    }
    let a = match parse_digits_i32(left_digits.as_slice()) {
        Some(a) => a,
        None => {
            return None;
        },
    };
    let b = match parse_digits_i32(right_digits.as_slice()) {
        Some(b) => b,
        None => {
            return None;
        },
    };
    Some((a, b))
}

/// A decimal number `digits[.digits]` (at least one digit in all) scaled by 10000, the fifth
/// fractional digit rounding half up and later ones dropped.
pub open spec fn decimal_x10000(s: Seq<char>) -> Option<nat> {
    let (int_part, frac) = match find(s, seq!['.']) {
        Some(k) => (s.take(k), s.skip(k + 1)),
        None => (s, Seq::<char>::empty()),
    };
    if !all_digits(int_part) || !all_digits(frac) || int_part.len() + frac.len() == 0 {
        None
    } else {
        let scaled = digits_value(int_part) * 10000 + frac_x10000(frac);
        if scaled <= i64::MAX {
            Some(scaled)
        } else {
            None
        }
    }
}

/// The first four fractional digits as a number of ten-thousandths, rounded by the fifth.
pub open spec fn frac_x10000(frac: Seq<char>) -> nat {
    let d = |i: int| if i < frac.len() {
        digit_val(frac[i])
    } else {
        0nat
    };
    d(0) * 1000 + d(1) * 100 + d(2) * 10 + d(3) + (if d(4) >= 5 {
        1nat
    } else {
        0nat
    })
}

fn frac_digit(frac: &[char], i: usize) -> (d: u64)
    requires
        all_digits(frac@),
    ensures
        d == (if i < frac.len() {
            digit_val(frac@[i as int])
        } else {
            0nat
        }),
        d <= 9,
{
    if i < frac.len() {
        assert(is_digit(frac@[i as int]));
        ((frac[i] as u32) - ('0' as u32)) as u64
    } else {
        0
    }
}

fn all_ascii_digits(v: &[char]) -> (b: bool)
    ensures
        b == all_digits(v@),
{
    let mut i: usize = 0;
    while i < v.len()
        invariant
            i <= v.len(),
            forall|k: int| 0 <= k < i ==> is_digit(#[trigger] v@[k]),
        decreases v.len() - i,
    {
        if !is_ascii_digit(v[i]) {
            assert(!is_digit(v@[i as int]));
            return false;
        }
        i += 1;
    }
    true
}

pub fn parse_decimal_x10000(s: &[char]) -> (r: Option<i64>)
    ensures
        r matches Some(x) ==> x >= 0 && decimal_x10000(s@) == Some(x as nat),
        r is None <==> decimal_x10000(s@) is None,
{
    let mut dot: Vec<char> = Vec::new();
    dot.push('.');
    assert(dot@ =~= seq!['.']);
    let (int_part, frac) = match find_chars(s, dot.as_slice()) {
        Some(k) => {
            let a = copy_range(s, 0, k);
            let b = copy_range(s, k + 1, s.len());
            assert(a@ =~= s@.take(k as int));
            assert(b@ =~= s@.skip(k + 1));
            (a, b)
        },
        None => {
            let a = copy_range(s, 0, s.len());
            assert(a@ =~= s@);
            (a, Vec::new())
        },
    };
    if !all_ascii_digits(int_part.as_slice()) || !all_ascii_digits(frac.as_slice()) || int_part.len()
        + frac.len() == 0 {
        return None;
    }
    let iv = match parse_digits_u64(int_part.as_slice()) {
        Some(v) => v,
        None => {
            return None;
        },
    };
    let f = frac.as_slice();
    let d0 = frac_digit(f, 0);
    let d1 = frac_digit(f, 1);
    let d2 = frac_digit(f, 2);
    let d3 = frac_digit(f, 3);
    let d4 = frac_digit(f, 4);
    let fx: u64 = d0 * 1000 + d1 * 100 + d2 * 10 + d3 + if d4 >= 5 {
        1
    } else {
        0
    };
    assert(fx == frac_x10000(frac@));
    assert(fx <= 10000);
    if iv > (9223372036854775807u64 - fx) / 10000 {
        assert(iv * 10000 + fx > 9223372036854775807u64) by (nonlinear_arith)
            requires
                iv > (9223372036854775807u64 - fx) / 10000,
                fx <= 10000,
        ;
        return None;
    }
    assert(iv * 10000 + fx <= 9223372036854775807u64) by (nonlinear_arith)
        requires
            iv <= (9223372036854775807u64 - fx) / 10000,
            fx <= 10000,
    ;
    Some((iv * 10000 + fx) as i64)
}


/// `s` without the characters `%`, space and newline.
pub open spec fn strip_percent_noise(s: Seq<char>) -> Seq<char>
    decreases s.len(),
{
    if s.len() == 0 {
        s
    } else {
        let prev = strip_percent_noise(s.drop_last());
        let c = s.last();
        if c == '%' || c == ' ' || c == '\n' {
            prev
        } else {
            prev.push(c)
        }
    }
}

/// The decimal digits and dots of `s`, in order.
pub open spec fn digits_and_dots(s: Seq<char>) -> Seq<char>
    decreases s.len(),
{
    if s.len() == 0 {
        s
    } else {
        let prev = digits_and_dots(s.drop_last());
        let c = s.last();
        if is_digit(c) || c == '.' {
            prev.push(c)
        } else {
            prev
        }
    }
}

/// An achievement text of the score list (`100.5000%`), scaled by 10000.
pub open spec fn score_percent_spec(text: Seq<char>) -> Option<nat> {
    let t = trim(text);
    if !contains(t, seq!['%']) {
        None
    } else {
        decimal_x10000(strip_percent_noise(t))
    }
}

/// An achievement text of the rating-target list, scaled by 10000: only its digits and dots count.
pub open spec fn rating_percent_spec(text: Seq<char>) -> Option<nat> {
    let t = trim(text);
    if !contains(t, seq!['%']) {
        None
    } else {
        decimal_x10000(digits_and_dots(t))
    }
}

fn strip_percent_noise_chars(v: &[char]) -> (r: Vec<char>)
    ensures
        r@ == strip_percent_noise(v@),
{
    let mut r: Vec<char> = Vec::new();
    let mut i: usize = 0;
    assert(v@.take(0) =~= Seq::<char>::empty());
    while i < v.len()
        invariant
            i <= v.len(),
            r@ == strip_percent_noise(v@.take(i as int)),
        decreases v.len() - i,
    {
        assert(v@.take(i + 1).drop_last() =~= v@.take(i as int));
        let c = v[i];
        if !(c == '%' || c == ' ' || c == '\n') {
            r.push(c);
        }
        i += 1;
    }
    assert(v@.take(v.len() as int) =~= v@);
    r
}

fn digits_and_dots_chars(v: &[char]) -> (r: Vec<char>)
    ensures
        r@ == digits_and_dots(v@),
{
    let mut r: Vec<char> = Vec::new();
    let mut i: usize = 0;
    assert(v@.take(0) =~= Seq::<char>::empty());
    while i < v.len()
        invariant
            i <= v.len(),
            r@ == digits_and_dots(v@.take(i as int)),
        decreases v.len() - i,
    {
        assert(v@.take(i + 1).drop_last() =~= v@.take(i as int));
        let c = v[i];
        if is_ascii_digit(c) || c == '.' {
            r.push(c);
        }
        i += 1;
    }
    assert(v@.take(v.len() as int) =~= v@);
    r
}

/// Reads the achievement of a score-list entry, in ten-thousandths of a percent.
pub fn parse_score_percent(text: &str) -> (r: Option<i64>)
    ensures
        r matches Some(x) ==> x >= 0 && score_percent_spec(text@) == Some(x as nat),
        r is None <==> score_percent_spec(text@) is None,
{
    let v = chars_of(text);
    let t = trim_chars(v.as_slice());
    let mut pct: Vec<char> = Vec::new();
    pct.push('%');
    assert(pct@ =~= seq!['%']);
    if !contains_chars(t.as_slice(), pct.as_slice()) {
        return None;
    }
    let n = strip_percent_noise_chars(t.as_slice());
    parse_decimal_x10000(n.as_slice())
}

/// Reads the achievement of a rating-target entry, in ten-thousandths of a percent.
pub fn parse_rating_percent(text: &str) -> (r: Option<i64>)
    ensures
        r matches Some(x) ==> x >= 0 && rating_percent_spec(text@) == Some(x as nat),
        r is None <==> rating_percent_spec(text@) is None,
{
    let v = chars_of(text);
    let t = trim_chars(v.as_slice());
    let mut pct: Vec<char> = Vec::new();
    pct.push('%');
    assert(pct@ =~= seq!['%']);
    if !contains_chars(t.as_slice(), pct.as_slice()) {
        return None;
    }
    let n = digits_and_dots_chars(t.as_slice());
    parse_decimal_x10000(n.as_slice())
}

} // verus!
