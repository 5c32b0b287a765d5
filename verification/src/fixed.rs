//! Fixed-point arithmetic for the simulation's physical quantities.
//!
//! A `u64` value of [`SCALE`] stands for the real number 1.0; levels such as
//! coolant or steam fill therefore live in `0..=SCALE`. Multiplication and
//! division rescale their result and saturate at `u64::MAX`; subtraction
//! saturates at zero. The module also provides an exact integer `d`-th root,
//! used for the pressure curve's fractional exponent.

use vstd::prelude::*;
use vstd::arithmetic::power::{
    pow, lemma_pow0, lemma_pow1, lemma0_pow, lemma_pow_positive, lemma_pow_adds,
    lemma_pow_increases,
};
use vstd::arithmetic::div_mod::{lemma_fundamental_div_mod, lemma_mod_bound};

verus! {

/// Fixed-point unit: this many raw steps stand for the real value 1.0.
pub const SCALE: u64 = 1000;

/// Angle unit: this many raw steps stand for one full turn.
pub const TURN: u64 = 1_000_000;

/// Saturation bound: clamp an unbounded integer into the `u64` range.
pub open spec fn sat64(x: int) -> int {
    if x > u64::MAX {
        u64::MAX as int
    } else if x < 0 {
        0
    } else {
        x
    }
}

/// Fixed-point product `a * b`, rescaled and saturated.
pub open spec fn fp_mul_spec(a: int, b: int) -> int {
    sat64(a * b / (SCALE as int))
}

/// Fixed-point quotient `a / b`, rescaled and saturated.
pub open spec fn fp_div_spec(a: int, b: int) -> int {
    sat64(a * (SCALE as int) / b)
}

/// Saturating sum.
pub open spec fn sat_add_spec(a: int, b: int) -> int {
    sat64(a + b)
}

/// Subtraction floored at zero.
pub open spec fn sat_sub_spec(a: int, b: int) -> int {
    if a >= b {
        a - b
    } else {
        0
    }
}

/// The smaller of two values.
pub open spec fn min_spec(a: int, b: int) -> int {
    if a <= b {
        a
    } else {
        b
    }
}

/// Fixed-point multiplication: `(a * b) / SCALE`, saturating at `u64::MAX`.
pub fn fp_mul(a: u64, b: u64) -> (r: u64)
    ensures
        r == fp_mul_spec(a as int, b as int),
{
    proof {
        assert((a as int) * (b as int) <= (u64::MAX as int) * (u64::MAX as int))
            by (nonlinear_arith)
            requires
                0 <= a <= u64::MAX,
                0 <= b <= u64::MAX,
        ;
    }
    let p: u128 = (a as u128) * (b as u128) / (SCALE as u128);
    if p > u64::MAX as u128 {
        u64::MAX
    } else {
        p as u64
    }
}

/// Fixed-point division: `(a * SCALE) / b`, saturating at `u64::MAX`.
pub fn fp_div(a: u64, b: u64) -> (r: u64)
    requires
        b >= 1,
    ensures
        r == fp_div_spec(a as int, b as int),
{
    proof {
        assert((a as int) * (SCALE as int) <= (u64::MAX as int) * (SCALE as int))
            by (nonlinear_arith)
            requires
                0 <= a <= u64::MAX,
        ;
    }
    let p: u128 = (a as u128) * (SCALE as u128) / (b as u128);
    if p > u64::MAX as u128 {
        u64::MAX
    } else {
        p as u64
    }
}

/// Saturating addition.
pub fn sat_add(a: u64, b: u64) -> (r: u64)
    ensures
        r == sat_add_spec(a as int, b as int),
{
    if a > u64::MAX - b {
        u64::MAX
    } else {
        a + b
    }
}

/// Subtraction floored at zero.
pub fn sat_sub(a: u64, b: u64) -> (r: u64)
    ensures
        r == sat_sub_spec(a as int, b as int),
{
    if a >= b {
        a - b
    } else {
        0
    }
}

/// The smaller of two values.
pub fn min64(a: u64, b: u64) -> (r: u64)
    ensures
        r == min_spec(a as int, b as int),
{
    if a <= b {
        a
    } else {
        b
    }
}

/// For a positive divisor, `acc * b <= x` exactly when `acc <= x / b`.
proof fn lemma_mul_le_iff_le_div(acc: int, b: int, x: int)
    requires
        b >= 1,
        x >= 0,
        acc >= 0,
    ensures
        (acc * b <= x) <==> (acc <= x / b),
{
    lemma_fundamental_div_mod(x, b);
    lemma_mod_bound(x, b);
    let q = x / b;
    let r = x % b;
    if acc <= q {
        assert(acc * b <= x) by (nonlinear_arith)
            requires
                acc <= q,
                b >= 1,
                x == b * q + r,
                r >= 0,
        ;
    } else {
        assert(x < acc * b) by (nonlinear_arith)
            requires
                acc >= q + 1,
                b >= 1,
                x == b * q + r,
                r < b,
        ;
    }
}

/// A power with a smaller base is no larger.
proof fn lemma_pow_base_le(a: int, b: int, e: nat)
    requires
        0 <= a <= b,
    ensures
        pow(a, e) <= pow(b, e),
    decreases e,
{
    if e == 0 {
        lemma_pow0(a);
        lemma_pow0(b);
    } else if b == 0 {
        lemma0_pow(e);
    } else if a == 0 {
        lemma0_pow(e);
        lemma_pow_positive(b, e);
    } else {
        let e1 = (e - 1) as nat;
        lemma_pow_base_le(a, b, e1);
        lemma_pow_positive(a, e1);
        lemma_pow_adds(a, e1, 1);
        lemma_pow_adds(b, e1, 1);
        lemma_pow1(a);
        lemma_pow1(b);
        assert(pow(a, e1) * a <= pow(b, e1) * b) by (nonlinear_arith)
            requires
                0 < a <= b,
                0 < pow(a, e1) <= pow(b, e1),
        ;
    }
}

/// Decides whether `b` to the power `e` is at most `x`, without ever
/// computing a product that overflows.
pub fn pow_le(b: u64, e: u64, x: u128) -> (r: bool)
    requires
        e >= 1,
    ensures
        r == (pow(b as int, e as nat) <= x as int),
{
    if b == 0 {
        proof {
            lemma0_pow(e as nat);
        }
        return true;
    }
    if x == 0 {
        proof {
            lemma_pow_positive(b as int, e as nat);
        }
        return false;
    }
    let mut acc: u128 = 1;
    let mut i: u64 = 0;
    proof {
        lemma_pow0(b as int);
    }
    while i < e
        invariant
            1 <= b,
            1 <= x,
            i <= e,
            acc == pow(b as int, i as nat),
            acc <= x,
        decreases e - i,
    {
        proof {
            lemma_mul_le_iff_le_div(acc as int, b as int, x as int);
            lemma_pow_adds(b as int, i as nat, 1);
            lemma_pow1(b as int);
        }
        if acc > x / (b as u128) {
            proof {
                lemma_pow_increases(b as nat, (i + 1) as nat, e as nat);
            }
            return false;
        }
        acc = acc * (b as u128);
        i = i + 1;
    }
    true
}

/// `b` to the power `e`, computed exactly; small bounds keep the result
/// inside `u128`.
pub fn pow_small(b: u64, e: u64) -> (r: u128)
    requires
        b <= 1_000_000,
        e <= 6,
    ensures
        r as int == pow(b as int, e as nat),
{
    proof {
        lemma_pow0(b as int);
        lemma_pow0(1_000_000);
    }
    let mut acc: u128 = 1;
    let mut i: u64 = 0;
    while i < e
        invariant
            i <= e,
            e <= 6,
            b <= 1_000_000,
            acc as int == pow(b as int, i as nat),
            acc as int <= pow(1_000_000, i as nat),
        decreases e - i,
    {
        proof {
            lemma_pow_adds(b as int, i as nat, 1);
            lemma_pow1(b as int);
            lemma_pow_adds(1_000_000, i as nat, 1);
            lemma_pow1(1_000_000);
            assert(acc as int * b as int <= pow(1_000_000, i as nat) * 1_000_000)
                by (nonlinear_arith)
                requires
                    0 <= acc as int <= pow(1_000_000, i as nat),
                    0 <= b <= 1_000_000,
            ;
            lemma_pow_increases(1_000_000, (i + 1) as nat, 6);
            assert(pow(1_000_000, 6) == 1_000_000_000_000_000_000_000_000_000_000_000_000) by {
                reveal_with_fuel(pow, 7);
            }
        }
        acc = acc * (b as u128);
        i = i + 1;
    }
    acc
}

/// Largest `r <= cap` with `r^d <= x`: the floor of the `d`-th root of `x`,
/// capped at `cap`.
pub fn nth_root(x: u128, d: u64, cap: u64) -> (r: u64)
    requires
        d >= 1,
    ensures
        r <= cap,
        pow(r as int, d as nat) <= x as int,
        r == cap || (x as int) < pow(r as int + 1, d as nat),
{
    let mut lo: u64 = 0;
    let mut hi: u64 = cap;
    proof {
        lemma0_pow(d as nat);
    }
    while lo < hi
        invariant
            d >= 1,
            lo <= hi <= cap,
            pow(lo as int, d as nat) <= x as int,
            hi == cap || (x as int) < pow(hi as int + 1, d as nat),
        decreases hi - lo,
    {
        let mid = hi - (hi - lo) / 2;
        if pow_le(mid, d, x) {
            lo = mid;
        } else {
            hi = mid - 1;
        }
    }
    lo
}

} // verus!
