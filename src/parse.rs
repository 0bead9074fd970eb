//! Parsing of decimal text: raw on-chain integers, fixed-point values and
//! signed timestamps.
use vstd::prelude::*;
use crate::fixed::{CAP, ONE, pow10, lemma_pow10_values, lemma_pow10_add, lemma_pow10_positive, lemma_pow10_monotone, pow10_u128};
use crate::numtext::is_digit_char;

verus! {

pub open spec fn digit_value(c: char) -> nat {
    (c as u32 - '0' as u32) as nat
}

pub open spec fn all_digits(s: Seq<char>) -> bool {
    forall|i: int| 0 <= i < s.len() ==> is_digit_char(#[trigger] s[i])
}

/// The number that a string of decimal digits denotes.
pub open spec fn digits_value(s: Seq<char>) -> nat
    decreases s.len(),
{
    if s.len() == 0 {
        0
    } else {
        digits_value(s.drop_last()) * 10 + digit_value(s.last())
    }
}

/// A non-empty run of decimal digits that fits `limit`, and its value.
pub open spec fn digits_within(s: Seq<char>, limit: int) -> Option<nat> {
    if s.len() > 0 && all_digits(s) && digits_value(s) <= limit {
        Some(digits_value(s))
    } else {
        None
    }
}

/// A raw on-chain integer: decimal digits only, at most `u128::MAX`.
pub open spec fn raw_integer(s: Seq<char>) -> Option<nat> {
    digits_within(s, u128::MAX as int)
}

/// Index of the first '.' at or after `from`, or the length when there is none.
pub open spec fn dot_index(s: Seq<char>, from: int) -> int
    decreases s.len() - from,
{
    if from >= s.len() || from < 0 {
        s.len() as int
    } else if s[from] == '.' {
        from
    } else {
        dot_index(s, from + 1)
    }
}

pub open spec fn lead_sign_len(s: Seq<char>) -> int {
    if s.len() > 0 && s[0] == '-' {
        1
    } else {
        0
    }
}

/// Whole numbers below this bound are accepted by `parse_decimal` (10^27).
pub const WHOLE_BOUND: u128 = 1_000_000_000_000_000_000_000_000_000;

/// The first nine decimals of `f` as units: "5" is 500000000, "1234567891" is 123456789.
pub open spec fn fraction_units(f: Seq<char>) -> nat {
    if f.len() >= 9 {
        digits_value(f.subrange(0, 9))
    } else {
        digits_value(f) * pow10((9 - f.len()) as nat)
    }
}

/// A decimal number `[-]digits[.digits]` in units; decimals beyond the ninth
/// are dropped. `None` when the text has another shape, or when the whole
/// part reaches `WHOLE_BOUND`.
pub open spec fn decimal_units(s: Seq<char>) -> Option<int> {
    let st = lead_sign_len(s);
    let d = dot_index(s, st);
    let ip = s.subrange(st, d);
    let fp = if d < s.len() {
        s.subrange(d + 1, s.len() as int)
    } else {
        Seq::<char>::empty()
    };
    let shaped = ip.len() > 0 && all_digits(ip) && (d < s.len() ==> fp.len() > 0 && all_digits(fp));
    let mag = digits_value(ip) * ONE + fraction_units(fp);
    if shaped && digits_value(ip) < WHOLE_BOUND {
        Some(
            if st == 1 {
                -mag
            } else {
                mag
            },
        )
    } else {
        None
    }
}

/// A signed integer `[+|-]digits` that fits `i64`.
pub open spec fn i64_text(s: Seq<char>) -> Option<int> {
    if s.len() > 0 && s[0] == '-' {
        match digits_within(s.subrange(1, s.len() as int), i64::MAX + 1) {
            Some(v) => Some(-v),
            None => None,
        }
    } else if s.len() > 0 && s[0] == '+' {
        match digits_within(s.subrange(1, s.len() as int), i64::MAX as int) {
            Some(v) => Some(v as int),
            None => None,
        }
    } else {
        match digits_within(s, i64::MAX as int) {
            Some(v) => Some(v as int),
            None => None,
        }
    }
}

proof fn lemma_digits_value_grows(s: Seq<char>, t: Seq<char>)
    ensures
        digits_value(s + t) >= digits_value(s),
    decreases t.len(),
{
    if t.len() > 0 {
        lemma_digits_value_grows(s, t.drop_last());
        assert((s + t).drop_last() =~= s + t.drop_last());
    }
}

proof fn lemma_digits_value_below(s: Seq<char>)
    requires
        all_digits(s),
    ensures
        digits_value(s) < pow10(s.len()),
    decreases s.len(),
{
    if s.len() > 0 {
        let p = s.drop_last();
        assert(all_digits(p)) by {
            assert forall|i: int| 0 <= i < p.len() implies is_digit_char(#[trigger] p[i]) by {
                assert(p[i] == s[i]);
            }
        }
        lemma_digits_value_below(p);
        assert(is_digit_char(s[s.len() - 1]));
        assert(digit_value(s.last()) <= 9);
        assert(pow10(s.len()) == 10 * pow10(p.len()));
    }
}

/// The value of the digits `s[from..to]`, when they are all digits, there is
/// at least one, and the value is at most `limit`.
fn parse_digits(s: &str, from: usize, to: usize, limit: u128) -> (r: Option<u128>)
    requires
        from <= to <= s@.len(),
    ensures
        r == match digits_within(s@.subrange(from as int, to as int), limit as int) {
            Some(v) => Some(v as u128),
            None => None::<u128>,
        },
{
    let ghost sub = s@.subrange(from as int, to as int);
    if from == to {
        return None;
    }
    let mut acc: u128 = 0;
    let mut i: usize = from;
    while i < to
        invariant
            from <= i <= to <= s@.len(),
            sub == s@.subrange(from as int, to as int),
            all_digits(s@.subrange(from as int, i as int)),
            acc == digits_value(s@.subrange(from as int, i as int)),
            acc <= limit,
        decreases to - i,
    {
        let c = s.get_char(i);
        let ghost pre = s@.subrange(from as int, i as int);
        let ghost next = s@.subrange(from as int, i + 1);
        assert(next.drop_last() =~= pre);
        if !('0' <= c && c <= '9') {
            assert(!all_digits(sub)) by {
                assert(sub[i - from] == c);
            }
            return None;
        }
        let d = (c as u32 - '0' as u32) as u128;
        if acc > limit / 10 || d > limit - acc * 10 {
            proof {
                assert(digits_value(next) == acc * 10 + d);
                assert(sub =~= next + s@.subrange(i + 1, to as int));
                lemma_digits_value_grows(next, s@.subrange(i + 1, to as int));
            }
            return None;
        }
        acc = acc * 10 + d;
        i = i + 1;
        proof {
            assert(all_digits(next)) by {
                assert forall|j: int| 0 <= j < next.len() implies is_digit_char(#[trigger] next[j]) by {
                    if j < pre.len() {
                        assert(next[j] == pre[j]);
                    }
                }
            }
        }
    }
    Some(acc)
}

fn all_digits_between(s: &str, from: usize, to: usize) -> (r: bool)
    requires
        from <= to <= s@.len(),
    ensures
        r == all_digits(s@.subrange(from as int, to as int)),
{
    let ghost sub = s@.subrange(from as int, to as int);
    let mut i: usize = from;
    while i < to
        invariant
            from <= i <= to <= s@.len(),
            sub == s@.subrange(from as int, to as int),
            forall|j: int| from <= j < i ==> is_digit_char(#[trigger] s@[j]),
        decreases to - i,
    {
        let c = s.get_char(i);
        if !('0' <= c && c <= '9') {
            assert(sub[i - from] == c);
            return false;
        }
        i = i + 1;
    }
    assert forall|j: int| 0 <= j < sub.len() implies is_digit_char(#[trigger] sub[j]) by {
        assert(sub[j] == s@[from + j]);
    }
    true
}

/// Parses a raw on-chain integer (such as a balance or a supply).
pub fn parse_raw_integer(s: &str) -> (r: Option<u128>)
    ensures
        r == match raw_integer(s@) {
            Some(v) => Some(v as u128),
            None => None::<u128>,
        },
{
    let n = s.unicode_len();
    assert(s@.subrange(0, n as int) =~= s@);
    parse_digits(s, 0, n, u128::MAX)
}

/// Parses a decimal number into fixed-point units; see `decimal_units`.
pub fn parse_decimal(s: &str) -> (r: Option<i128>)
    ensures
        r == match decimal_units(s@) {
            Some(v) => Some(v as i128),
            None => None::<i128>,
        },
        r matches Some(v) ==> -CAP <= v <= CAP,
        decimal_units(s@) matches Some(v) ==> -CAP <= v <= CAP,
{
    let n = s.unicode_len();
    let st: usize = if n > 0 && s.get_char(0) == '-' {
        1
    } else {
        0
    };
    let mut d: usize = st;
    while d < n && s.get_char(d) != '.'
        invariant
            st <= d <= n == s@.len(),
            st <= 1,
            dot_index(s@, st as int) == dot_index(s@, d as int),
        decreases n - d,
    {
        d = d + 1;
    }
    assert(dot_index(s@, d as int) == d);
    proof {
        lemma_pow10_values();
    }
    let whole = match parse_digits(s, st, d, WHOLE_BOUND - 1) {
        Some(w) => w,
        None => {
            return None;
        },
    };
    let mut frac: u128 = 0;
    let ghost fp = if d < n {
        s@.subrange(d + 1, n as int)
    } else {
        Seq::<char>::empty()
    };
    if d < n {
        if d + 1 == n || !all_digits_between(s, d + 1, n) {
            return None;
        }
        let fl: usize = if n - (d + 1) >= 9 {
            9
        } else {
            n - (d + 1)
        };
        let ghost head = s@.subrange(d + 1, d + 1 + fl);
        assert(all_digits(head)) by {
            assert forall|j: int| 0 <= j < head.len() implies is_digit_char(#[trigger] head[j]) by {
                assert(head[j] == fp[j]);
            }
        }
        proof {
            lemma_digits_value_below(head);
            lemma_pow10_monotone(fl as nat, 9);
            if fl == 9 {
                assert(fp.subrange(0, 9) =~= head);
            } else {
                assert(fp =~= head);
            }
        }
        let v = match parse_digits(s, d + 1, d + 1 + fl, 999_999_999) {
            Some(v) => v,
            None => {
                return None;
            },
        };
        proof {
            lemma_pow10_add(fl as nat, (9 - fl) as nat);
            lemma_pow10_positive((9 - fl) as nat);
            assert(v * pow10((9 - fl) as nat) < pow10(fl as nat) * pow10((9 - fl) as nat)) by (nonlinear_arith)
                requires
                    v < pow10(fl as nat),
                    pow10((9 - fl) as nat) >= 1,
            ;
        }
        frac = v * pow10_u128(9 - fl as u32);
        proof {
            if fl == 9 {
                assert(pow10(0) == 1);
                assert(fp.len() >= 9);
                assert(digits_value(fp.subrange(0, 9)) == v);
            } else {
                assert(fp.len() == fl);
                assert(digits_value(fp) == v);
            }
        }
    } else {
        assert(fp.len() == 0);
        assert(digits_value(fp) == 0);
        assert(fraction_units(fp) == 0 * pow10(9));
    }
    assert(frac == fraction_units(fp));
    assert(frac < 1_000_000_000);
    let mag = (whole as i128) * ONE + frac as i128;
    if st == 1 {
        Some(-mag)
    } else {
        Some(mag)
    }
}

/// Parses a signed integer that fits `i64`; see `i64_text`.
pub fn parse_i64(s: &str) -> (r: Option<i64>)
    ensures
        r == match i64_text(s@) {
            Some(v) => Some(v as i64),
            None => None::<i64>,
        },
{
    let n = s.unicode_len();
    if n > 0 && s.get_char(0) == '-' {
        match parse_digits(s, 1, n, 9_223_372_036_854_775_808) {
            Some(v) => Some((-(v as i128)) as i64),
            None => None,
        }
    } else if n > 0 && s.get_char(0) == '+' {
        match parse_digits(s, 1, n, 9_223_372_036_854_775_807) {
            Some(v) => Some(v as i64),
            None => None,
        }
    } else {
        assert(s@.subrange(0, n as int) =~= s@);
        match parse_digits(s, 0, n, 9_223_372_036_854_775_807) {
            Some(v) => Some(v as i64),
            None => None,
        }
    }
}

} // verus!
