//! Numbers of the script format. A numeral such as `-12.5` is read into a
//! fixed-point value counted in thousandths (`-12500`); digits past the
//! third decimal place are dropped.
use vstd::prelude::*;
use crate::text::{split, split_spec, lemma_split_nonempty, views};

verus! {

/// The most digits that an integer part may have.
pub const MAX_DIGITS: usize = 12;

pub open spec fn is_digit(c: char) -> bool {
    '0' <= c && c <= '9'
}

pub open spec fn all_digits(s: Seq<char>) -> bool {
    forall|i: int| 0 <= i < s.len() ==> is_digit(#[trigger] s[i])
}

/// The value of a string of decimal digits, most significant first.
pub open spec fn digits_val(s: Seq<char>) -> int
    decreases s.len(),
{
    if s.len() == 0 {
        0
    } else {
        digits_val(s.drop_last()) * 10 + (s.last() as int - '0' as int)
    }
}

pub open spec fn pow10(n: nat) -> int
    decreases n,
{
    if n == 0 {
        1
    } else {
        10 * pow10((n - 1) as nat)
    }
}

/// A digit string of at most `max` digits, read as a natural number.
pub open spec fn natural_spec(s: Seq<char>, max: nat) -> Option<int> {
    if all_digits(s) && s.len() <= max {
        Some(digits_val(s))
    } else {
        None
    }
}

/// The first three fraction digits, padded with zeros.
pub open spec fn frac3(f: Seq<char>) -> Seq<char> {
    Seq::new(3, |j: int| if j < f.len() { f[j] } else { '0' })
}

/// The value, in thousandths, of a numeral `[+|-]digits[.digits]` that has at
/// least one digit and at most `MAX_DIGITS` digits before the point.
pub open spec fn milli_spec(s: Seq<char>) -> Option<int> {
    let neg = s.len() > 0 && s[0] == '-';
    let signed = s.len() > 0 && (s[0] == '-' || s[0] == '+');
    let body = if signed { s.drop_first() } else { s };
    let parts = split_spec(body, '.');
    let ip = parts[0];
    let fp = if parts.len() == 2 { parts[1] } else { Seq::<char>::empty() };
    if parts.len() <= 2 && all_digits(ip) && all_digits(fp) && ip.len() + fp.len() > 0
        && ip.len() <= MAX_DIGITS {
        let v = digits_val(ip) * 1000 + digits_val(frac3(fp));
        Some(if neg { -v } else { v })
    } else {
        None
    }
}

pub proof fn lemma_digits_bound(s: Seq<char>)
    requires
        all_digits(s),
    ensures
        0 <= digits_val(s) < pow10(s.len()),
    decreases s.len(),
{
    if s.len() > 0 {
        let t = s.drop_last();
        assert(all_digits(t)) by {
            assert forall|i: int| 0 <= i < t.len() implies is_digit(#[trigger] t[i]) by {
                assert(t[i] == s[i]);
            }
        }
        lemma_digits_bound(t);
        assert(is_digit(s[s.len() - 1]));
    }
}

pub proof fn lemma_pow10_mono(a: nat, b: nat)
    requires
        a <= b,
    ensures
        0 < pow10(a) <= pow10(b),
    decreases b,
{
    if b > a {
        lemma_pow10_mono(a, (b - 1) as nat);
    } else if a > 0 {
        lemma_pow10_mono((a - 1) as nat, (a - 1) as nat);
    }
}

pub proof fn lemma_pow10_9()
    ensures
        pow10(9) == 1_000_000_000,
{
    reveal_with_fuel(pow10, 10);
}

proof fn lemma_pow10_12(n: nat)
    requires
        n <= 12,
    ensures
        0 < pow10(n) <= 1_000_000_000_000,
    decreases 12 - n,
{
    if n < 12 {
        lemma_pow10_12(n + 1);
        assert(pow10(n + 1) == 10 * pow10(n));
    } else {
        reveal_with_fuel(pow10, 13);
    }
}

/// Reads a digit string of at most `max` digits.
pub fn parse_natural(s: &Vec<char>, max: usize) -> (r: Option<u64>)
    requires
        max <= MAX_DIGITS,
    ensures
        r matches Some(v) ==> natural_spec(s@, max as nat) == Some(v as int),
        r is None ==> natural_spec(s@, max as nat) is None,
        r matches Some(v) ==> v < pow10(max as nat),
{
    if s.len() > max {
        return None;
    }
    let mut acc: u64 = 0;
    let mut i: usize = 0;
    while i < s.len()
        invariant
            s.len() <= max <= MAX_DIGITS,
            i <= s.len(),
            all_digits(s@.subrange(0, i as int)),
            acc as int == digits_val(s@.subrange(0, i as int)),
        decreases s.len() - i,
    {
        let c = s[i];
        if !('0' <= c && c <= '9') {
            assert(!all_digits(s@));
            return None;
        }
        let ghost t = s@.subrange(0, i as int + 1);
        proof {
            assert(t.drop_last() =~= s@.subrange(0, i as int));
            assert(all_digits(t)) by {
                assert forall|j: int| 0 <= j < t.len() implies is_digit(#[trigger] t[j]) by {
                    if j < i {
                        assert(t[j] == s@.subrange(0, i as int)[j]);
                    }
                }
            }
            lemma_digits_bound(t);
            lemma_pow10_12(t.len());
        }
        let d = (c as u32 - '0' as u32) as u64;
        acc = acc * 10 + d;
        i = i + 1;
    }
    assert(s@.subrange(0, s.len() as int) =~= s@);
    proof {
        lemma_digits_bound(s@);
        lemma_pow10_mono(s.len() as nat, max as nat);
    }
    Some(acc)
}

/// Reads a numeral into thousandths (see `milli_spec`).
pub fn parse_milli(s: &Vec<char>) -> (r: Option<i64>)
    ensures
        r matches Some(v) ==> milli_spec(s@) == Some(v as int),
        r is None ==> milli_spec(s@) is None,
{
    let neg = s.len() > 0 && s[0] == '-';
    let signed = s.len() > 0 && (s[0] == '-' || s[0] == '+');
    let mut body: Vec<char> = Vec::new();
    let mut k: usize = if signed { 1 } else { 0 };
    let ghost start = k;
    while k < s.len()
        invariant
            start <= k <= s.len(),
            start == (if signed { 1int } else { 0int }),
            signed == (s@.len() > 0 && (s@[0] == '-' || s@[0] == '+')),
            neg == (s@.len() > 0 && s@[0] == '-'),
            body@ == s@.subrange(start as int, k as int),
        decreases s.len() - k,
    {
        body.push(s[k]);
        k = k + 1;
        assert(body@ =~= s@.subrange(start as int, k as int));
    }
    proof {
        if signed {
            assert(body@ =~= s@.drop_first());
        } else {
            assert(body@ =~= s@);
        }
        lemma_split_nonempty(body@, '.');
    }
    let parts = split(&body, '.');
    if parts.len() > 2 {
        return None;
    }
    let ip = &parts[0];
    let empty: Vec<char> = Vec::new();
    let fp = if parts.len() == 2 { &parts[1] } else { &empty };
    assert(ip@ == split_spec(body@, '.')[0]);
    assert(fp@ == (if parts.len() == 2 { split_spec(body@, '.')[1] } else { Seq::<char>::empty() }));
    if ip.len() == 0 && fp.len() == 0 {
        return None;
    }
    let whole = parse_natural(ip, MAX_DIGITS);
    let whole = match whole {
        Some(w) => w,
        None => return None,
    };
    let mut j: usize = 0;
    while j < fp.len()
        invariant
            j <= fp.len(),
            forall|m: int| 0 <= m < j ==> is_digit(#[trigger] fp@[m]),
            neg == (s@.len() > 0 && s@[0] == '-'),
            signed == (s@.len() > 0 && (s@[0] == '-' || s@[0] == '+')),
            body@ == (if signed { s@.drop_first() } else { s@ }),
            fp@ == (if parts.len() == 2 { split_spec(body@, '.')[1] } else { Seq::<char>::empty() }),
            parts.len() <= 2,
            ip@ == split_spec(body@, '.')[0],
            views(parts@) == split_spec(body@, '.'),
        decreases fp.len() - j,
    {
        if !('0' <= fp[j] && fp[j] <= '9') {
            assert(!is_digit(fp@[j as int]));
            assert(!all_digits(fp@));
            return None;
        }
        j = j + 1;
    }
    let ghost f3 = frac3(fp@);
    let mut frac: u64 = 0;
    let mut m: usize = 0;
    while m < 3
        invariant
            m <= 3,
            all_digits(fp@),
            f3 == frac3(fp@),
            frac as int == digits_val(f3.subrange(0, m as int)),
            frac < 1000,
            frac < pow10(m as nat),
        decreases 3 - m,
    {
        let c = if m < fp.len() { fp[m] } else { '0' };
        proof {
            let t = f3.subrange(0, m as int + 1);
            assert(t.drop_last() =~= f3.subrange(0, m as int));
            assert(t.last() == c);
            assert(is_digit(c));
        }
        frac = frac * 10 + (c as u32 - '0' as u32) as u64;
        m = m + 1;
        assert(pow10(m as nat) == 10 * pow10((m - 1) as nat));
        assert(pow10(1) == 10 && pow10(2) == 100 && pow10(3) == 1000) by {
            reveal_with_fuel(pow10, 4);
        }
    }
    assert(f3.subrange(0, 3) =~= f3);
    proof {
        lemma_digits_bound(ip@);
        lemma_pow10_12(ip@.len());
    }
    let v: i64 = (whole * 1000 + frac) as i64;
    if neg {
        Some(-v)
    } else {
        Some(v)
    }
}

} // verus!
