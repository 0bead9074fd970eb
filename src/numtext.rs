//! Decimal text of integers and fixed-point values.
use vstd::prelude::*;
use vstd::arithmetic::div_mod::*;
use crate::fixed::{ONE, pow10, lemma_pow10_values, round_div};

verus! {

pub open spec fn digit_char(d: nat) -> char {
    if d == 0 {
        '0'
    } else if d == 1 {
        '1'
    } else if d == 2 {
        '2'
    } else if d == 3 {
        '3'
    } else if d == 4 {
        '4'
    } else if d == 5 {
        '5'
    } else if d == 6 {
        '6'
    } else if d == 7 {
        '7'
    } else if d == 8 {
        '8'
    } else {
        '9'
    }
}

pub open spec fn is_digit_char(c: char) -> bool {
    '0' <= c && c <= '9'
}

/// Decimal digits of `n`, without leading zeros ("0" for zero).
pub open spec fn nat_digits(n: nat) -> Seq<char>
    decreases n,
{
    if n < 10 {
        seq![digit_char(n)]
    } else {
        nat_digits(n / 10).push(digit_char(n % 10))
    }
}

/// The last `w` decimal digits of `n`, with leading zeros.
pub open spec fn pad_digits(n: nat, w: nat) -> Seq<char>
    decreases w,
{
    if w == 0 {
        seq![]
    } else {
        pad_digits(n / 10, (w - 1) as nat).push(digit_char(n % 10))
    }
}

/// `t / 10^f` written with exactly `f` decimals.
pub open spec fn fixed_text(t: nat, f: nat) -> Seq<char> {
    nat_digits(t / pow10(f)) + seq!['.'] + pad_digits(t % pow10(f), f)
}

/// `s` without its trailing zeros.
pub open spec fn trim_zeros(s: Seq<char>) -> Seq<char>
    decreases s.len(),
{
    if s.len() > 0 && s.last() == '0' {
        trim_zeros(s.drop_last())
    } else {
        s
    }
}

pub open spec fn magnitude(v: int) -> int {
    if v < 0 {
        -v
    } else {
        v
    }
}

pub open spec fn minus_if(neg: bool) -> Seq<char> {
    if neg {
        seq!['-']
    } else {
        seq![]
    }
}

/// A signed integer in decimal.
pub open spec fn int_text(v: int) -> Seq<char> {
    minus_if(v < 0) + nat_digits(magnitude(v) as nat)
}

/// A fixed-point value (in units) in its shortest exact decimal form: no
/// decimal point for a whole number, no trailing zeros after it otherwise.
pub open spec fn decimal_text(v: int) -> Seq<char> {
    let a = magnitude(v);
    let whole = a / ONE as int;
    let frac = a % ONE as int;
    minus_if(v < 0) + nat_digits(whole as nat) + if frac == 0 {
        seq![]
    } else {
        seq!['.'] + trim_zeros(pad_digits(frac as nat, 9))
    }
}

/// `t / 10^f` with exactly `f` decimals, signed when negative and not zero.
pub open spec fn signed_fixed_text(neg: bool, t: nat, f: nat) -> Seq<char> {
    minus_if(neg && t > 0) + fixed_text(t, f)
}

pub const MILLION_UNITS: u128 = 1_000_000_000_000_000;

pub const THOUSAND_UNITS: u128 = 1_000_000_000_000;

/// Text of a large amount: millions with one decimal and "M" above one million,
/// thousands with two decimals and "K" above one thousand, else three decimals.
pub open spec fn abbreviate_text(v: int) -> Seq<char> {
    let a = magnitude(v);
    if a > MILLION_UNITS {
        signed_fixed_text(v < 0, round_div(a, 100_000_000_000_000) as nat, 1) + seq!['M']
    } else if a > THOUSAND_UNITS {
        signed_fixed_text(v < 0, round_div(a, 10_000_000_000) as nat, 2) + seq!['K']
    } else {
        signed_fixed_text(v < 0, round_div(a, 1_000_000) as nat, 3)
    }
}

pub proof fn lemma_digit_char_is_digit(d: nat)
    ensures
        is_digit_char(digit_char(d)),
{
}

pub proof fn lemma_pad_digits_shape(n: nat, w: nat)
    ensures
        pad_digits(n, w).len() == w,
        forall|i: int| 0 <= i < w ==> is_digit_char(#[trigger] pad_digits(n, w)[i]),
    decreases w,
{
    if w > 0 {
        lemma_pad_digits_shape(n / 10, (w - 1) as nat);
        lemma_digit_char_is_digit(n % 10);
    }
}

fn digit_str(d: u128) -> (r: &'static str)
    requires
        d < 10,
    ensures
        r@ == seq![digit_char(d as nat)],
{
    proof {
        reveal_strlit("0");
        reveal_strlit("1");
        reveal_strlit("2");
        reveal_strlit("3");
        reveal_strlit("4");
        reveal_strlit("5");
        reveal_strlit("6");
        reveal_strlit("7");
        reveal_strlit("8");
        reveal_strlit("9");
    }
    if d == 0 {
        "0"
    } else if d == 1 {
        "1"
    } else if d == 2 {
        "2"
    } else if d == 3 {
        "3"
    } else if d == 4 {
        "4"
    } else if d == 5 {
        "5"
    } else if d == 6 {
        "6"
    } else if d == 7 {
        "7"
    } else if d == 8 {
        "8"
    } else {
        "9"
    }
}

/// Appends the decimal digits of `n`.
pub fn push_digits(s: &mut String, n: u128)
    ensures
        final(s)@ == old(s)@ + nat_digits(n as nat),
    decreases n,
{
    if n >= 10 {
        push_digits(s, n / 10);
    }
    s.append(digit_str(n % 10));
    assert(s@ =~= old(s)@ + nat_digits(n as nat));
}

/// Appends the last `w` decimal digits of `n`, with leading zeros.
pub fn push_padded(s: &mut String, n: u128, w: u32)
    ensures
        final(s)@ == old(s)@ + pad_digits(n as nat, w as nat),
    decreases w,
{
    if w > 0 {
        push_padded(s, n / 10, w - 1);
        s.append(digit_str(n % 10));
    }
    assert(s@ =~= old(s)@ + pad_digits(n as nat, w as nat));
}

/// Appends `t / 10^f` with exactly `f` decimals.
fn push_fixed(s: &mut String, t: u128, f: u32, unit: u128)
    requires
        unit == pow10(f as nat),
        unit > 0,
    ensures
        final(s)@ == old(s)@ + fixed_text(t as nat, f as nat),
{
    push_digits(s, t / unit);
    proof {
        reveal_strlit(".");
    }
    s.append(".");
    push_padded(s, t % unit, f);
    assert(s@ =~= old(s)@ + fixed_text(t as nat, f as nat));
}

/// The magnitude of `v` as an unsigned integer.
pub fn unsigned_magnitude(v: i128) -> (r: u128)
    ensures
        r == magnitude(v as int),
{
    if v < 0 {
        ((-(v + 1)) as u128) + 1
    } else {
        v as u128
    }
}

fn push_minus_if(s: &mut String, neg: bool)
    ensures
        final(s)@ == old(s)@ + minus_if(neg),
{
    if neg {
        proof {
            reveal_strlit("-");
        }
        s.append("-");
    }
    assert(s@ =~= old(s)@ + minus_if(neg));
}

/// A signed integer in decimal.
pub fn int_to_text(v: i128) -> (r: String)
    ensures
        r@ == int_text(v as int),
{
    let mut s = String::new();
    push_minus_if(&mut s, v < 0);
    push_digits(&mut s, unsigned_magnitude(v));
    assert(s@ =~= int_text(v as int));
    s
}

proof fn lemma_trim_step(n: nat, w: nat)
    requires
        w > 0,
        n % 10 == 0,
    ensures
        trim_zeros(pad_digits(n, w)) == trim_zeros(pad_digits(n / 10, (w - 1) as nat)),
{
    let p = pad_digits(n, w);
    assert(p.last() == '0');
    assert(p.drop_last() =~= pad_digits(n / 10, (w - 1) as nat));
}

proof fn lemma_trim_stop(n: nat, w: nat)
    requires
        w > 0,
        n % 10 != 0,
    ensures
        trim_zeros(pad_digits(n, w)) == pad_digits(n, w),
{
    let p = pad_digits(n, w);
    assert(p.last() == digit_char(n % 10));
}

/// A fixed-point value (in units) in its shortest exact decimal form.
pub fn decimal_to_text(v: i128) -> (r: String)
    ensures
        r@ == decimal_text(v as int),
{
    let a = unsigned_magnitude(v);
    let mut s = String::new();
    push_minus_if(&mut s, v < 0);
    push_digits(&mut s, a / (ONE as u128));
    let frac = a % (ONE as u128);
    if frac != 0 {
        proof {
            reveal_strlit(".");
        }
        s.append(".");
        let mut f: u128 = frac;
        let mut w: u32 = 9;
        proof {
            lemma_pow10_values();
        }
        while f % 10 == 0
            invariant
                1 <= w <= 9,
                f > 0,
                f < pow10(w as nat),
                trim_zeros(pad_digits(frac as nat, 9)) == trim_zeros(pad_digits(f as nat, w as nat)),
            decreases w,
        {
            proof {
                lemma_trim_step(f as nat, w as nat);
                if w == 1 {
                    assert(pow10(1) == 10) by {
                        reveal_with_fuel(pow10, 2);
                    }
                }
                assert(pow10(w as nat) == 10 * pow10((w - 1) as nat));
            }
            f = f / 10;
            w = w - 1;
        }
        proof {
            lemma_trim_stop(f as nat, w as nat);
        }
        push_padded(&mut s, f, w);
    }
    assert(s@ =~= decimal_text(v as int));
    s
}

/// Text of a large amount; see `abbreviate_text`.
pub fn abbreviate(v: i128) -> (r: String)
    ensures
        r@ == abbreviate_text(v as int),
        (r@.last() == 'M') <==> magnitude(v as int) > MILLION_UNITS,
        (r@.last() == 'K') <==> THOUSAND_UNITS < magnitude(v as int) <= MILLION_UNITS,
        magnitude(v as int) <= THOUSAND_UNITS ==> {
            &&& r@.len() >= 4
            &&& r@[r@.len() - 4] == '.'
            &&& forall|i: int| r@.len() - 3 <= i < r@.len() ==> is_digit_char(#[trigger] r@[i])
        },
{
    let a = unsigned_magnitude(v);
    let mut s = String::new();
    proof {
        lemma_pow10_values();
        reveal_strlit("M");
        reveal_strlit("K");
    }
    if a > MILLION_UNITS {
        let t = (a + 50_000_000_000_000) / 100_000_000_000_000;
        push_minus_if(&mut s, v < 0 && t > 0);
        push_fixed(&mut s, t, 1, 10);
        s.append("M");
    } else if a > THOUSAND_UNITS {
        let t = (a + 5_000_000_000) / 10_000_000_000;
        push_minus_if(&mut s, v < 0 && t > 0);
        push_fixed(&mut s, t, 2, 100);
        s.append("K");
    } else {
        let t = (a + 500_000) / 1_000_000;
        push_minus_if(&mut s, v < 0 && t > 0);
        push_fixed(&mut s, t, 3, 1000);
        proof {
            lemma_pad_digits_shape((t % 1000) as nat, 3);
        }
    }
    assert(s@ =~= abbreviate_text(v as int));
    s
}

} // verus!
