//! Fixed-point decimal numbers and their text forms.
//!
//! A value `v` is held as the integer `v * 10^9` ("units"). Amounts of money,
//! prices and percentages all use this one scale, so that arithmetic and
//! rounding are exact integer operations.
use vstd::prelude::*;
use vstd::arithmetic::div_mod::*;
use vstd::arithmetic::mul::*;

verus! {

/// Digits after the decimal point that a fixed-point value keeps.
pub const SCALE_DIGITS: u32 = 9;

/// Units in one whole.
pub const ONE: i128 = 1_000_000_000;

/// Largest magnitude, in units, that parsing and multiplication produce (10^36).
pub const CAP: i128 = 1_000_000_000_000_000_000_000_000_000_000_000_000;

pub open spec fn pow10(n: nat) -> nat
    decreases n,
{
    if n == 0 {
        1
    } else {
        10 * pow10((n - 1) as nat)
    }
}

pub proof fn lemma_pow10_positive(n: nat)
    ensures
        pow10(n) >= 1,
    decreases n,
{
    if n > 0 {
        lemma_pow10_positive((n - 1) as nat);
    }
}

pub proof fn lemma_pow10_add(a: nat, b: nat)
    ensures
        pow10(a + b) == pow10(a) * pow10(b),
    decreases b,
{
    if b > 0 {
        lemma_pow10_add(a, (b - 1) as nat);
        assert(pow10(a + b) == 10 * pow10((a + b - 1) as nat));
        assert((a + b - 1) as nat == a + (b - 1) as nat);
        let pa = pow10(a) as int;
        let pb = pow10((b - 1) as nat) as int;
        assert(10 * (pa * pb) == pa * (10 * pb)) by (nonlinear_arith);
        assert(pow10(b) == 10 * pb);
    } else {
        assert(pow10(a) * 1 == pow10(a));
    }
}

pub proof fn lemma_pow10_monotone(a: nat, b: nat)
    requires
        a <= b,
    ensures
        pow10(a) <= pow10(b),
    decreases b - a,
{
    if a < b {
        lemma_pow10_monotone(a, (b - 1) as nat);
    }
}

pub proof fn lemma_pow10_values()
    ensures
        pow10(3) == 1000,
        pow10(6) == 1_000_000,
        pow10(8) == 100_000_000,
        pow10(9) == 1_000_000_000,
        pow10(10) == 10_000_000_000,
        pow10(14) == 100_000_000_000_000,
        pow10(19) == 10_000_000_000_000_000_000,
        pow10(36) == CAP,
        pow10(38) == 100_000_000_000_000_000_000_000_000_000_000_000_000,
{
    reveal_with_fuel(pow10, 39);
}

/// `10^n` as a machine integer.
pub fn pow10_u128(n: u32) -> (r: u128)
    requires
        n <= 38,
    ensures
        r == pow10(n as nat),
{
    let mut r: u128 = 1;
    let mut i: u32 = 0;
    while i < n
        invariant
            i <= n <= 38,
            r == pow10(i as nat),
        decreases n - i,
    {
        proof {
            lemma_pow10_values();
            lemma_pow10_monotone(i as nat, 37);
            reveal_with_fuel(pow10, 38);
        }
        r = r * 10;
        i = i + 1;
    }
    r
}

// ---------------------------------------------------------------------------
// Rounding

/// `x / k` rounded to the nearest integer, halves away from zero, for `x >= 0`.
pub open spec fn round_div(x: int, k: int) -> int {
    (x + k / 2) / k
}

/// The value `x` (in units) rounded to `n` decimals, halves away from zero,
/// in units again: `round(v * 10^n) / 10^n`.
pub open spec fn round_units(x: int, n: nat) -> int {
    let k = pow10((SCALE_DIGITS - n) as nat) as int;
    if x >= 0 {
        round_div(x, k) * k
    } else {
        -(round_div(-x, k) * k)
    }
}

proof fn lemma_round_nonneg_bounds(x: int, k: int, c: int)
    requires
        0 <= x <= c * k,
        k >= 1,
        c >= 0,
    ensures
        0 <= round_div(x, k) * k <= c * k,
        round_div(x, k) * k <= x + k / 2,
        round_div(x, k) >= 0,
{
    let h = k / 2;
    assert(0 <= h < k);
    lemma_div_pos_is_pos(x + h, k);
    lemma_div_is_ordered(x + h, c * k + h, k);
    lemma_div_multiples_vanish_fancy(c, h, k);
    lemma_mul_is_commutative(c, k);
    lemma_fundamental_div_mod(x + h, k);
    lemma_mod_pos_bound(x + h, k);
    lemma_mul_is_commutative(k, (x + h) / k);
    lemma_mul_inequality((x + h) / k, c, k);
    lemma_mul_nonnegative((x + h) / k, k);
}

proof fn lemma_round_of_multiple(q: int, k: int)
    requires
        q >= 0,
        k >= 1,
    ensures
        round_div(q * k, k) == q,
{
    lemma_mul_is_commutative(q, k);
    lemma_div_multiples_vanish_fancy(q, k / 2, k);
}

/// Rounds `x` (in units) to `n` decimals, halves away from zero.
pub fn round_decimal(x: i128, n: u32) -> (r: i128)
    requires
        n <= SCALE_DIGITS,
        -CAP <= x <= CAP,
    ensures
        r == round_units(x as int, n as nat),
        -CAP <= r <= CAP,
        x >= 0 ==> r >= 0,
{
    let ghost e = (SCALE_DIGITS - n) as nat;
    let ghost c = pow10((27 + n) as nat) as int;
    proof {
        lemma_pow10_values();
        lemma_pow10_positive(e);
        lemma_pow10_monotone(e, 9);
        lemma_pow10_add(e, (27 + n) as nat);
        assert(e + (27 + n) as nat == 36);
        lemma_mul_is_commutative(c, pow10(e) as int);
        assert(c * pow10(e) == CAP);
    }
    let k = pow10_u128(SCALE_DIGITS - n) as i128;
    if x >= 0 {
        proof {
            lemma_round_nonneg_bounds(x as int, k as int, c);
        }
        ((x + k / 2) / k) * k
    } else {
        proof {
            lemma_round_nonneg_bounds(-x as int, k as int, c);
        }
        -(((-x + k / 2) / k) * k)
    }
}

/// Rounding is idempotent: rounding an already rounded value changes nothing.
pub proof fn lemma_round_decimal_idempotent(x: int, n: nat)
    requires
        n <= SCALE_DIGITS,
        -CAP <= x <= CAP,
    ensures
        round_units(round_units(x, n), n) == round_units(x, n),
{
    let k = pow10((SCALE_DIGITS - n) as nat) as int;
    lemma_pow10_positive((SCALE_DIGITS - n) as nat);
    if x >= 0 {
        let q = round_div(x, k);
        lemma_div_pos_is_pos(x + k / 2, k);
        lemma_mul_nonnegative(q, k);
        lemma_round_of_multiple(q, k);
    } else {
        let q = round_div(-x, k);
        lemma_div_pos_is_pos(-x + k / 2, k);
        lemma_mul_nonnegative(q, k);
        lemma_round_of_multiple(q, k);
        if q * k == 0 {
            assert(round_div(0, k) == 0) by {
                lemma_div_multiples_vanish_fancy(0, k / 2, k);
            }
        }
    }
}

// ---------------------------------------------------------------------------
// Decimal shift

/// `raw * price / 10^decimals`, rounded down, and at most `CAP`: the value in
/// units of `raw` base units of a token with `decimals` decimals, at `price`
/// units per whole token.
pub open spec fn shifted_units(raw: nat, decimals: nat, price: nat) -> int {
    let exact = (raw * price / pow10(decimals)) as int;
    if exact > CAP {
        CAP as int
    } else {
        exact
    }
}

proof fn lemma_shift_identity(raw: int, p: int, dd: int)
    requires
        raw >= 0,
        p >= 0,
        dd >= 1,
    ensures
        raw * p / dd == (raw / dd) * p + (raw % dd) * (p / dd) + ((raw % dd) * (p % dd)) / dd,
{
    let q = raw / dd;
    let rm = raw % dd;
    let ph = p / dd;
    let pl = p % dd;
    lemma_fundamental_div_mod(raw, dd);
    lemma_fundamental_div_mod(p, dd);
    let b = rm * pl;
    let x = q * p + rm * ph;
    lemma_fundamental_div_mod(b, dd);
    lemma_mod_pos_bound(b, dd);
    assert(raw * p == dd * x + b) by (nonlinear_arith)
        requires
            raw == dd * q + rm,
            p == dd * ph + pl,
            x == q * p + rm * ph,
            b == rm * pl,
    ;
    assert(dd * x + b == (x + b / dd) * dd + b % dd) by (nonlinear_arith)
        requires
            b == dd * (b / dd) + b % dd,
    ;
    lemma_fundamental_div_mod_converse(raw * p, dd, x + b / dd, b % dd);
}

/// Applies the decimal shift to a raw on-chain amount and prices it; see
/// `shifted_units`.
pub fn shift_mul(raw: u128, decimals: u32, price: i128) -> (r: i128)
    requires
        decimals <= 19,
        0 <= price <= CAP,
    ensures
        r == shifted_units(raw as nat, decimals as nat, price as nat),
        0 <= r <= CAP,
{
    proof {
        lemma_pow10_values();
        lemma_pow10_monotone(decimals as nat, 19);
        lemma_pow10_positive(decimals as nat);
    }
    let dd = pow10_u128(decimals);
    let p = price as u128;
    let q = raw / dd;
    let rm = raw % dd;
    let ph = p / dd;
    let pl = p % dd;
    proof {
        lemma_shift_identity(raw as int, p as int, dd as int);
        lemma_fundamental_div_mod(p as int, dd as int);
        assert(rm * pl < dd * dd) by (nonlinear_arith)
            requires
                rm < dd,
                pl < dd,
        ;
        assert(dd * dd <= 10_000_000_000_000_000_000 * 10_000_000_000_000_000_000) by (nonlinear_arith)
            requires
                dd <= 10_000_000_000_000_000_000,
        ;
        assert(rm * ph <= p) by (nonlinear_arith)
            requires
                rm < dd,
                p == dd * ph + pl,
                pl >= 0,
                ph >= 0,
        ;
    }
    let low = rm * pl / dd;
    let mid = rm * ph;
    proof {
        lemma_div_pos_is_pos((rm * pl) as int, dd as int);
        lemma_div_is_ordered((rm * pl) as int, (dd * dd) as int, dd as int);
        lemma_div_multiples_vanish(dd as int, dd as int);
        assert(low <= dd);
    }
    let cap = CAP as u128;
    if q > 0 && p > cap / q {
        proof {
            lemma_fundamental_div_mod(cap as int, q as int);
            lemma_mod_pos_bound(cap as int, q as int);
            assert(q * p > cap) by (nonlinear_arith)
                requires
                    q > 0,
                    p >= cap / q + 1,
                    cap == q * (cap / q) + cap % q,
                    cap % q < q,
            ;
        }
        return CAP;
    }
    proof {
        if q > 0 {
            lemma_fundamental_div_mod(cap as int, q as int);
            lemma_mod_pos_bound(cap as int, q as int);
            assert(q * p <= cap) by (nonlinear_arith)
                requires
                    q > 0,
                    p <= cap / q,
                    cap == q * (cap / q) + cap % q,
                    cap % q >= 0,
            ;
        }
    }
    let hi = q * p;
    let sum = hi + mid + low;
    if sum > cap {
        CAP
    } else {
        sum as i128
    }
}

} // verus!
