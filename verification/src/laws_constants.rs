//! Laws of the constants: each is the number nearest to what it is named after.
use crate::arkode_codes::{
    FUZZ_FACTOR, H0_BIAS, H0_LBFACTOR, H0_UBFACTOR, NINE_TENTHS, ONEPSM, ONE_FIFTH, THREE_QUARTERS,
};
use crate::binary64::{
    gap_exponent, nearest, signed, sunrealtype, units_of, EXP_STEP, INF_BITS,
};
use crate::laws_stop::lemma_units_by_parts;
use crate::laws_text::nearest_fraction;
use crate::rounding::lemma_bit_length;
use crate::sundials_types::{
    FOUR, HALF, HUNDRED, ONE, ONE_AND_HALF, SUN_BIG_REAL, SUN_SMALL_REAL, SUN_UNIT_ROUNDOFF, TEN,
    TENTH, TWO, ZERO,
};
use vstd::arithmetic::div_mod::{
    lemma_fundamental_div_mod, lemma_fundamental_div_mod_converse,
};
use vstd::arithmetic::power2::{
    lemma2_to64, lemma2_to64_rest, lemma_pow2_adds, lemma_pow2_pos, lemma_pow2_unfold, pow2,
};
use vstd::prelude::*;

verus! {

/// What is less than half a gap from a count of gaps rounds to it.
proof fn lemma_rounds_to(f: nat, inexact: bool, k: nat, w: nat)
    requires
        EXP_STEP <= w < 2 * EXP_STEP,
        k < 2045,
        (EXP_STEP as nat) * pow2(k + 1) <= f < (2 * EXP_STEP as nat) * pow2(k + 1),
        (2 * w - 1) * pow2(k) <= f < (2 * w + 1) * pow2(k),
        f > (2 * w - 1) * pow2(k) || inexact,
    ensures
        nearest(f, inexact) == k * (EXP_STEP as nat) + w,
{
    reveal(nearest);
    lemma2_to64();
    lemma2_to64_rest();
    let s = EXP_STEP as nat;
    let q = f / 2;
    lemma_pow2_pos(k);
    lemma_pow2_unfold(k + 1);
    lemma_pow2_adds(52, k);
    lemma_pow2_adds(53, k);
    let g = pow2(k);
    assert(s * g <= q < (2 * s) * g) by (nonlinear_arith)
        requires
            s * (2 * g) <= f < (2 * s) * (2 * g),
            2 * q <= f < 2 * q + 2,
    ;
    lemma_bit_length(q, 53 + k);
    assert(gap_exponent(q) == k);
    let gap = pow2(k + 1);
    let n = f / gap;
    let r = f % gap;
    lemma_fundamental_div_mod(f as int, gap as int);
    if f >= w * gap {
        let r1 = f - gap * w;
        assert(0 <= r1 < g) by (nonlinear_arith)
            requires
                r1 == f - gap * w,
                f >= w * gap,
                f < (2 * w + 1) * g,
                gap == 2 * g,
        ;
        lemma_fundamental_div_mod_converse(f as int, gap as int, w as int, r1);
    } else {
        let r1 = f - gap * (w - 1);
        assert(g <= r1 < gap && (r1 > g || inexact)) by (nonlinear_arith)
            requires
                r1 == f - gap * (w - 1),
                f < w * gap,
                (2 * w - 1) * g <= f,
                f > (2 * w - 1) * g || inexact,
                gap == 2 * g,
        ;
        lemma_fundamental_div_mod_converse(f as int, gap as int, (w - 1) as int, r1);
    }
    assert(k * s + w <= INF_BITS) by (nonlinear_arith)
        requires
            k < 2045,
            s == 0x10_0000_0000_0000,
            w < 0x20_0000_0000_0000,
            INF_BITS == 0x7ff0_0000_0000_0000,
    ;
}

proof fn lemma_fraction(n: nat, d: nat, k: nat, e: nat, w: nat)
    requires
        d > 0,
        k + e == 1075,
        EXP_STEP <= w < 2 * EXP_STEP,
        (2 * w - 1) * d < n * pow2(e) < (2 * w + 1) * d,
        (2 * EXP_STEP as nat) * d <= n * pow2(e) < (4 * EXP_STEP as nat) * d,
    ensures
        nearest_fraction(n, d) == signed(false, k * (EXP_STEP as nat) + w),
{
    lemma_pow2_adds(k, e);
    lemma_pow2_pos(k);
    lemma_pow2_unfold(k + 1);
    let s = EXP_STEP as nat;
    let g = pow2(k);
    let x = n * pow2(1075);
    let m = n * pow2(e);
    assert(x == m * g) by (nonlinear_arith)
        requires
            x == n * pow2(1075),
            pow2(1075) == g * pow2(e),
            m == n * pow2(e),
    ;
    let f = x / d;
    let r = x % d;
    lemma_fundamental_div_mod(x as int, d as int);
    let lo = (2 * w - 1) * g;
    let hi = (2 * w + 1) * g;
    assert(lo * d < x < hi * d) by (nonlinear_arith)
        requires
            lo == (2 * w - 1) * g,
            hi == (2 * w + 1) * g,
            (2 * w - 1) * d < m < (2 * w + 1) * d,
            x == m * g,
            g > 0,
    ;
    assert(lo <= f < hi && (f > lo || r != 0)) by (nonlinear_arith)
        requires
            lo * d < x < hi * d,
            x == d * f + r,
            0 <= r < d,
    ;
    let a = s * (2 * g);
    let b = (2 * s) * (2 * g);
    assert(a * d <= x < b * d) by (nonlinear_arith)
        requires
            a == s * (2 * g),
            b == (2 * s) * (2 * g),
            (2 * s) * d <= m < (4 * s) * d,
            x == m * g,
            g > 0,
    ;
    assert(a <= f < b) by (nonlinear_arith)
        requires
            a * d <= x < b * d,
            x == d * f + r,
            0 <= r < d,
    ;
    lemma_rounds_to(f, r != 0, k, w);
}

/// The small numbers and fractions.
pub proof fn law_small_numbers()
    ensures
        ZERO().value() == 0,
        ONE() == nearest_fraction(1, 1),
        TWO() == nearest_fraction(2, 1),
        FOUR() == nearest_fraction(4, 1),
        TEN() == nearest_fraction(10, 1),
        HUNDRED() == nearest_fraction(100, 1),
        HALF() == nearest_fraction(1, 2),
        ONE_AND_HALF() == nearest_fraction(3, 2),
        TENTH() == nearest_fraction(1, 10),
{
    lemma2_to64();
    lemma2_to64_rest();
    assert(units_of(0) == 0) by {
        reveal(units_of);
    }
    lemma_fraction(1, 1, 1022, 53, 0x10_0000_0000_0000);
    lemma_fraction(2, 1, 1023, 52, 0x10_0000_0000_0000);
    lemma_fraction(4, 1, 1024, 51, 0x10_0000_0000_0000);
    lemma_fraction(10, 1, 1025, 50, 0x14_0000_0000_0000);
    lemma_fraction(100, 1, 1028, 47, 0x19_0000_0000_0000);
    lemma_fraction(1, 2, 1021, 54, 0x10_0000_0000_0000);
    lemma_fraction(3, 2, 1022, 53, 0x18_0000_0000_0000);
    lemma_fraction(1, 10, 1018, 57, 0x19_9999_9999_999a);
}

/// The factors of step sizes: what a first step is bounded and biased by, how
/// much time is roundoff, and how a step is cut.
pub proof fn law_step_factors()
    ensures
        H0_LBFACTOR() == nearest_fraction(100, 1),
        H0_UBFACTOR() == nearest_fraction(1, 10),
        H0_BIAS() == nearest_fraction(1, 2),
        FUZZ_FACTOR() == nearest_fraction(100, 1),
        ONEPSM() == nearest_fraction(1000001, 1000000),
        ONE_FIFTH() == nearest_fraction(1, 5),
        THREE_QUARTERS() == nearest_fraction(3, 4),
        NINE_TENTHS() == nearest_fraction(9, 10),
{
    lemma2_to64();
    lemma2_to64_rest();
    law_small_numbers();
    lemma_fraction(1000001, 1000000, 1022, 53, 0x10_0001_0c6f_7a0b);
    lemma_fraction(1, 5, 1019, 56, 0x19_9999_9999_999a);
    lemma_fraction(3, 4, 1021, 54, 0x18_0000_0000_0000);
    lemma_fraction(9, 10, 1021, 54, 0x1c_cccc_cccc_cccd);
}

/// The limits of the numbers: one gap above one; the largest finite number; the
/// smallest one with all its digits.
pub proof fn law_number_limits(x: sunrealtype)
    ensures
        SUN_UNIT_ROUNDOFF().units() * pow2(52) == ONE().units(),
        !SUN_UNIT_ROUNDOFF().neg(),
        SUN_BIG_REAL().is_finite(),
        !SUN_BIG_REAL().neg(),
        x.is_finite() ==> x.key() <= SUN_BIG_REAL().key(),
        SUN_SMALL_REAL().units() == pow2(52),
        !SUN_SMALL_REAL().neg(),
{
    lemma2_to64_rest();
    lemma_units_by_parts(0x3cb0_0000_0000_0000, 0x3cb, 0);
    lemma_units_by_parts(0x3ff0_0000_0000_0000, 0x3ff, 0);
    lemma_units_by_parts(0x0010_0000_0000_0000, 1, 0);
    lemma2_to64();
    lemma_pow2_adds(52, 970);
    lemma_pow2_adds(1022, 52);
    lemma_pow2_adds(52, 1022);
}

} // verus!
