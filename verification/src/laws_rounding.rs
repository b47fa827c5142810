//! Laws of rounding: how far the result of an operation may be from the exact
//! one, and what order it keeps.
use crate::arith::{lemma_int_sqrt, lemma_nearest_self, lemma_signed};
use crate::binary64::{
    bit_length, gap_exponent, int_sqrt, nearest, r_abs, r_add, r_div, r_eq, r_int, r_le, r_lt,
    r_mul, r_neg, r_sqrt, r_sub, signed, sunrealtype, units_of, EXP_STEP, INF_BITS,
};
use crate::rounding::lemma_bit_length;
use crate::sundials_math::{
    r_ceil, r_differ, r_guarded_sqrt, r_max, r_min, r_pow, r_round,
};
use crate::sundials_types::{ONE, SUN_BIG_REAL, SUN_UNIT_ROUNDOFF, TEN, ZERO};
use vstd::arithmetic::div_mod::{
    lemma_fundamental_div_mod, lemma_fundamental_div_mod_converse,
};
use vstd::arithmetic::power2::{
    lemma2_to64, lemma2_to64_rest, lemma_pow2_adds, lemma_pow2_pos, lemma_pow2_strictly_increases,
    lemma_pow2_unfold, pow2,
};
use vstd::prelude::*;

verus! {

/// A number of `b` binary digits lies between powers of two.
proof fn lemma_length_range(n: nat)
    ensures
        n < pow2(bit_length(n)),
        n > 0 ==> bit_length(n) > 0 && pow2((bit_length(n) - 1) as nat) <= n,
    decreases n,
{
    lemma2_to64();
    if n > 0 {
        lemma_length_range(n / 2);
        let b = bit_length(n / 2);
        lemma_pow2_unfold(b + 1);
        if n / 2 > 0 {
            lemma_pow2_unfold(b);
        }
    }
}

/// Units of a number from its gap and its count of gaps.
proof fn lemma_units_at(k: nat, w: nat)
    requires
        w <= 2 * EXP_STEP,
        k > 0 ==> w >= EXP_STEP,
    ensures
        units_of((k * (EXP_STEP as nat) + w) as nat) == w * pow2(k),
{
    reveal(units_of);
    lemma2_to64();
    let s = EXP_STEP as nat;
    let b = k * s + w;
    if w < s {
        assert(k == 0);
        assert(b == w) by (nonlinear_arith)
            requires
                b == k * s + w,
                k == 0,
        ;
        lemma_fundamental_div_mod_converse(b as int, s as int, 0, w as int);
        assert(w * 1 == w);
    } else if w < 2 * s {
        assert(b == s * (k + 1) + (w - s)) by (nonlinear_arith)
            requires
                b == k * s + w,
        ;
        lemma_fundamental_div_mod_converse(b as int, s as int, (k + 1) as int, (w - s) as int);
    } else {
        assert(b == s * (k + 2) + 0) by (nonlinear_arith)
            requires
                b == k * s + w,
                w == 2 * s,
        ;
        lemma_fundamental_div_mod_converse(b as int, s as int, (k + 2) as int, 0);
        lemma_pow2_unfold(k + 1);
        assert(s * pow2(k + 1) == w * pow2(k)) by (nonlinear_arith)
            requires
                pow2(k + 1) == 2 * pow2(k),
                w == 2 * s,
        ;
    }
}

/// Twice the units of a rounded number are within half a gap of what was
/// rounded, and the gap is small against it once the number has all its digits.
proof fn lemma_close(f: nat, inexact: bool)
    requires
        nearest(f, inexact) < INF_BITS,
    ensures
        ({
            let u = units_of(nearest(f, inexact));
            let g = pow2(gap_exponent(f / 2));
            &&& 2 * u <= f + g
            &&& 2 * u >= f - g
            &&& inexact ==> 2 * u >= f + 1 - g
            &&& g == 1 || g * pow2(53) <= f
            &&& g == 1 ==> u <= pow2(53)
            &&& g == 1 && !inexact && f % 2 == 0 ==> 2 * u == f
            &&& !inexact && f % (2 * g) == 0 ==> 2 * u == f
            &&& f > 0 && g == 1 ==> f < pow2(54)
        }),
{
    reveal(nearest);
    lemma2_to64();
    lemma2_to64_rest();
    let s = EXP_STEP as nat;
    let q = f / 2;
    let k = gap_exponent(q);
    let gap = pow2(k + 1);
    let n = f / gap;
    let r = f % gap;
    let up = r > pow2(k) || (r == pow2(k) && (inexact || n % 2 == 1));
    lemma_pow2_pos(k);
    lemma_pow2_unfold(k + 1);
    lemma_fundamental_div_mod(f as int, gap as int);
    lemma_length_range(q);
    if k == 0 {
        if bit_length(q) < 53 {
            lemma_pow2_strictly_increases(bit_length(q), 53);
        }
        assert(q < pow2(53));
        assert(gap == 2);
        assert(n == q);
        assert(n < 2 * s);
    } else {
        assert(bit_length(q) == 53 + k);
        lemma_pow2_adds(52, k);
        lemma_pow2_adds(53, k);
        assert(pow2(52 + k) <= q < pow2(53 + k));
        assert(s * gap <= f < (2 * s) * gap) by (nonlinear_arith)
            requires
                2 * q <= f < 2 * q + 2,
                s * pow2(k) <= q,
                q < (2 * s) * pow2(k),
                gap == 2 * pow2(k),
        ;
        assert(s <= n < 2 * s) by (nonlinear_arith)
            requires
                f == gap * n + r,
                0 <= r < gap,
                s * gap <= f < (2 * s) * gap,
        ;
        assert(pow2(k) > 1) by {
            lemma_pow2_strictly_increases(0, k);
        }
        assert(pow2(k) * pow2(53) <= f) by (nonlinear_arith)
            requires
                s * gap <= f,
                gap == 2 * pow2(k),
                pow2(53) == 2 * s,
        ;
    }
    let w = if up {
        n + 1
    } else {
        n
    };
    lemma_units_at(k, w);
    assert(nearest(f, inexact) == k * s + w);
    let u = w * pow2(k);
    assert(2 * u == gap * w) by (nonlinear_arith)
        requires
            u == w * pow2(k),
            gap == 2 * pow2(k),
    ;
    if up {
        assert(gap * w == gap * n + gap) by (nonlinear_arith)
            requires
                w == n + 1,
        ;
    }
    if k == 0 {
        assert(u == w) by (nonlinear_arith)
            requires
                u == w * pow2(k),
                pow2(k) == 1,
        ;
    }
}

/// What is larger before rounding is not smaller after it.
pub proof fn lemma_monotone(f1: nat, x1: bool, f2: nat, x2: bool)
    requires
        f1 < f2 || (f1 == f2 && (x1 ==> x2)),
    ensures
        nearest(f1, x1) <= nearest(f2, x2),
{
    reveal(nearest);
    lemma2_to64();
    lemma2_to64_rest();
    let s = EXP_STEP as nat;
    let q1 = f1 / 2;
    let q2 = f2 / 2;
    let k1 = gap_exponent(q1);
    let k2 = gap_exponent(q2);
    lemma_length_range(q1);
    lemma_length_range(q2);
    if bit_length(q1) > bit_length(q2) {
        let b2 = bit_length(q2);
        let b1 = (bit_length(q1) - 1) as nat;
        if b2 < b1 {
            lemma_pow2_strictly_increases(b2, b1);
        }
        assert(q2 < q1);
    }
    let g1 = pow2(k1 + 1);
    let g2 = pow2(k2 + 1);
    lemma_pow2_pos(k1);
    lemma_pow2_pos(k2);
    lemma_pow2_unfold(k1 + 1);
    lemma_pow2_unfold(k2 + 1);
    let n1 = f1 / g1;
    let n2 = f2 / g2;
    let r1 = f1 % g1;
    let r2 = f2 % g2;
    lemma_fundamental_div_mod(f1 as int, g1 as int);
    lemma_fundamental_div_mod(f2 as int, g2 as int);
    if k1 == k2 {
        assert(n1 <= n2) by (nonlinear_arith)
            requires
                f1 == g1 * n1 + r1,
                f2 == g1 * n2 + r2,
                0 <= r1 < g1,
                0 <= r2 < g1,
                f1 <= f2,
        ;
        if n1 == n2 {
            assert(r1 <= r2);
        }
    } else {
        assert(k1 < k2);
        assert(n1 < 2 * s) by {
            if k1 == 0 {
                if bit_length(q1) < 53 {
                    lemma_pow2_strictly_increases(bit_length(q1), 53);
                }
                assert(g1 == 2);
            } else {
                lemma_pow2_adds(53, k1);
                assert(n1 < 2 * s) by (nonlinear_arith)
                    requires
                        f1 == g1 * n1 + r1,
                        0 <= r1,
                        f1 < 2 * q1 + 2,
                        q1 < (2 * s) * pow2(k1),
                        g1 == 2 * pow2(k1),
                        g1 > 0,
                ;
            }
        }
        lemma_pow2_adds(52, k2);
        assert(n2 >= s) by (nonlinear_arith)
            requires
                f2 == g2 * n2 + r2,
                r2 < g2,
                2 * q2 <= f2,
                s * pow2(k2) <= q2,
                g2 == 2 * pow2(k2),
                g2 > 0,
        ;
        assert(k1 * s + 2 * s <= k2 * s + s) by (nonlinear_arith)
            requires
                k1 + 1 <= k2,
        ;
    }
}

/// A sum of finite numbers is as close to the exact one as a number of its size
/// can be: within one part in `2^53`.
pub proof fn law_sum_close(a: sunrealtype, b: sunrealtype)
    requires
        a.is_finite(),
        b.is_finite(),
        r_add(a, b).is_finite(),
    ensures
        ({
            let exact = a.value() + b.value();
            let d = r_add(a, b).value() - exact;
            let size = if exact < 0 {
                -exact
            } else {
                exact
            };
            -size <= d * pow2(53) <= size
        }),
{
    reveal(r_add);
    let x = a.value() + b.value();
    assert(units_of(0) == 0) by {
        reveal(units_of);
    }
    lemma_pow2_pos(53);
    if x == 0 {
        lemma_signed(a.neg() && b.neg(), 0);
        assert(0 * pow2(53) == 0);
    } else {
        let y: nat = if x > 0 {
            x as nat
        } else {
            (-x) as nat
        };
        let f = (2 * y) as nat;
        assert(nearest(f, false) <= INF_BITS) by {
            reveal(nearest);
        }
        lemma_signed(x < 0, nearest(f, false));
        lemma_close(f, false);
        let u = units_of(nearest(f, false));
        let g = pow2(gap_exponent(f / 2));
        let e = u - y;
        assert(-(y as int) <= e * pow2(53) <= y) by (nonlinear_arith)
            requires
                2 * e <= g,
                2 * e >= -g,
                g * pow2(53) <= 2 * y || e == 0,
                pow2(53) > 0,
                y >= 0,
                g >= 0,
        ;
        assert((-e) * pow2(53) == -(e * pow2(53))) by (nonlinear_arith);
    }
}

/// The product of two numbers is as close to the exact one, once it has all its
/// digits: within one part in `2^53`. Its sign is that of the exact one.
pub proof fn law_product_close(a: sunrealtype, b: sunrealtype)
    requires
        a.is_finite(),
        b.is_finite(),
        r_mul(a, b).is_finite(),
        r_mul(a, b).units() > pow2(53),
    ensures
        ({
            let exact = (a.units() * b.units()) as int;
            let d = r_mul(a, b).units() * pow2(1074) - exact;
            -exact <= d * pow2(53) <= exact
        }),
        r_mul(a, b).neg() == (a.neg() != b.neg()),
{
    reveal(r_mul);
    let n = (a.units() * b.units()) as nat;
    let c = pow2(1073);
    lemma_pow2_pos(1073);
    lemma_pow2_unfold(1074);
    lemma_pow2_pos(53);
    let f = n / c;
    let x = n % c != 0;
    lemma_fundamental_div_mod(n as int, c as int);
    assert(nearest(f, x) <= INF_BITS) by {
        reveal(nearest);
    }
    lemma_signed(a.neg() != b.neg(), nearest(f, x));
    lemma_close(f, x);
    let u = units_of(nearest(f, x));
    let g = pow2(gap_exponent(f / 2));
    let r = n % c;
    let d = u * pow2(1074) - n;
    assert(u * pow2(1074) == (2 * u) * c) by (nonlinear_arith)
        requires
            pow2(1074) == 2 * c,
    ;
    assert(d <= g * c && -(g * c) <= d) by (nonlinear_arith)
        requires
            d == (2 * u) * c - n,
            n == c * f + r,
            0 <= r < c,
            2 * u <= f + g,
            2 * u >= f - g,
            r > 0 ==> 2 * u >= f + 1 - g,
    ;
    assert((g * c) * pow2(53) <= n) by (nonlinear_arith)
        requires
            g * pow2(53) <= f,
            n == c * f + r,
            0 <= r,
            c > 0,
    ;
    assert(-(n as int) <= d * pow2(53) <= n) by (nonlinear_arith)
        requires
            d <= g * c,
            -(g * c) <= d,
            (g * c) * pow2(53) <= n,
            pow2(53) > 0,
    ;
}

/// The quotient of two numbers is as close to the exact one, once it has all its
/// digits: times the divisor it is within one part in `2^53` of the dividend.
pub proof fn law_quotient_close(a: sunrealtype, b: sunrealtype)
    requires
        a.is_finite(),
        b.is_finite(),
        b.mag() > 0,
        r_div(a, b).is_finite(),
        r_div(a, b).units() > pow2(53),
    ensures
        ({
            let exact = (a.units() * pow2(1074)) as int;
            let d = r_div(a, b).units() * b.units() - exact;
            -exact <= d * pow2(53) <= exact
        }),
        r_div(a, b).neg() == (a.neg() != b.neg()),
{
    reveal(r_div);
    let n = (a.units() * pow2(1075)) as nat;
    let c = b.units();
    crate::laws_numbers::lemma_units_range(b.mag());
    lemma_pow2_pos(53);
    lemma_pow2_unfold(1075);
    let f = n / c;
    let r = n % c;
    let x = r != 0;
    lemma_fundamental_div_mod(n as int, c as int);
    assert(nearest(f, x) <= INF_BITS) by {
        reveal(nearest);
    }
    lemma_signed(a.neg() != b.neg(), nearest(f, x));
    lemma_close(f, x);
    let u = units_of(nearest(f, x));
    let g = pow2(gap_exponent(f / 2));
    let d = (2 * u) * c - n;
    assert(d <= g * c && -(g * c) <= d) by (nonlinear_arith)
        requires
            d == (2 * u) * c - n,
            n == c * f + r,
            0 <= r < c,
            2 * u <= f + g,
            2 * u >= f - g,
            r > 0 ==> 2 * u >= f + 1 - g,
    ;
    assert((g * c) * pow2(53) <= n) by (nonlinear_arith)
        requires
            g * pow2(53) <= f,
            n == c * f + r,
            0 <= r,
            c > 0,
    ;
    assert(-(n as int) <= d * pow2(53) <= n) by (nonlinear_arith)
        requires
            d <= g * c,
            -(g * c) <= d,
            (g * c) * pow2(53) <= n,
            pow2(53) > 0,
    ;
    let exact = a.units() * pow2(1074);
    let h = u * c - exact;
    assert(d == 2 * h) by (nonlinear_arith)
        requires
            d == (2 * u) * c - n,
            n == a.units() * pow2(1075),
            pow2(1075) == 2 * pow2(1074),
            exact == a.units() * pow2(1074),
            h == u * c - exact,
    ;
    assert(n == 2 * exact) by (nonlinear_arith)
        requires
            n == a.units() * pow2(1075),
            pow2(1075) == 2 * pow2(1074),
            exact == a.units() * pow2(1074),
    ;
    assert(-(exact as int) <= h * pow2(53) <= exact) by (nonlinear_arith)
        requires
            d == 2 * h,
            n == 2 * exact,
            -(n as int) <= d * pow2(53) <= n,
    ;
}

/// The sum of two numbers that are not negative is not below either of them.
pub proof fn law_sum_not_below(a: sunrealtype, b: sunrealtype)
    requires
        r_le(ZERO(), a),
        r_le(ZERO(), b),
    ensures
        r_le(a, r_add(a, b)),
        r_le(b, r_add(a, b)),
{
    reveal(r_add);
    reveal(r_lt);
    reveal(r_eq);
    assert(units_of(0) == 0) by {
        reveal(units_of);
    }
    if a.is_finite() && b.is_finite() {
        let x = a.value() + b.value();
        let f = (2 * x) as nat;
        if x > 0 {
            assert(nearest(f, false) <= INF_BITS) by {
                reveal(nearest);
            }
            lemma_signed(false, nearest(f, false));
            lemma_nearest_self(a.mag());
            lemma_nearest_self(b.mag());
            lemma_monotone((2 * a.units()) as nat, false, f, false);
            lemma_monotone((2 * b.units()) as nat, false, f, false);
        } else {
            if a.mag() > 0 {
                crate::laws_numbers::lemma_units_range(a.mag());
            }
            if b.mag() > 0 {
                crate::laws_numbers::lemma_units_range(b.mag());
            }
            lemma_signed(a.neg() && b.neg(), 0);
        }
    }
}

/// The square root of a positive number is as close to the exact one: squared it
/// is within the square of one part in `2^53`.
pub proof fn law_root_close(a: sunrealtype)
    requires
        a.is_finite(),
        !a.neg(),
        a.mag() > 0,
        r_sqrt(a).is_finite(),
    ensures
        ({
            let exact = a.units() * pow2(1074);
            let u = r_sqrt(a).units() * pow2(53);
            let one = pow2(53);
            exact * ((one - 1) * (one - 1)) <= u * u <= exact * ((one + 1) * (one + 1))
        }),
        !r_sqrt(a).neg(),
{
    reveal(r_sqrt);
    lemma2_to64();
    lemma2_to64_rest();
    let n = (a.units() * pow2(1076)) as nat;
    lemma_int_sqrt(n);
    let f = int_sqrt(n);
    let x = f * f != n;
    crate::laws_numbers::lemma_units_range(a.mag());
    lemma_pow2_pos(1076);
    lemma_pow2_adds(538, 538);
    lemma_pow2_strictly_increases(60, 538);
    let w = pow2(538);
    assert(f + 1 > w) by (nonlinear_arith)
        requires
            n < (f + 1) * (f + 1),
            n == a.units() * pow2(1076),
            a.units() >= 1,
            pow2(1076) == w * w,
            w > 0,
            f >= 0,
    ;
    assert(nearest(f, x) <= INF_BITS) by {
        reveal(nearest);
    }
    lemma_signed(false, nearest(f, x));
    lemma_close(f, x);
    let u = units_of(nearest(f, x));
    let g = pow2(gap_exponent(f / 2));
    let one = pow2(53);
    lemma_pow2_adds(1, 53);
    assert(g != 1) by {
        lemma_pow2_strictly_increases(54, 60);
    }
    assert(g * one <= f);
    let v = 2 * u;
    assert(v * one <= f * (one + 1)) by (nonlinear_arith)
        requires
            v <= f + g,
            g * one <= f,
    ;
    let fl: nat = if x {
        f + 1
    } else {
        f
    };
    assert(v * one >= fl * (one - 1)) by (nonlinear_arith)
        requires
            v >= fl - g,
            g * one <= f,
            f <= fl,
            one > 0,
    ;
    assert(n <= fl * fl);
    let exact = a.units() * pow2(1074);
    lemma_pow2_adds(2, 1074);
    assert(n == 4 * exact) by (nonlinear_arith)
        requires
            n == a.units() * pow2(1076),
            pow2(1076) == 4 * pow2(1074),
            exact == a.units() * pow2(1074),
    ;
    let t = u * one;
    assert(v * one == 2 * t) by (nonlinear_arith)
        requires
            v == 2 * u,
            t == u * one,
    ;
    assert(4 * (t * t) <= n * ((one + 1) * (one + 1))) by (nonlinear_arith)
        requires
            2 * t <= f * (one + 1),
            f * f <= n,
            t >= 0,
            f >= 0,
            one > 0,
    ;
    assert(4 * (t * t) >= n * ((one - 1) * (one - 1))) by (nonlinear_arith)
        requires
            2 * t >= fl * (one - 1),
            n <= fl * fl,
            fl >= 0,
            one > 1,
    ;
    assert(exact * ((one - 1) * (one - 1)) <= t * t <= exact * ((one + 1) * (one + 1))) by (
        nonlinear_arith)
        requires
            n == 4 * exact,
            4 * (t * t) <= n * ((one + 1) * (one + 1)),
            4 * (t * t) >= n * ((one - 1) * (one - 1)),
    ;
}

/// Integers up to `2^53` are numbers.
proof fn lemma_whole(n: nat)
    requires
        n <= pow2(53),
    ensures
        nearest(n * pow2(1075), false) < INF_BITS,
        units_of(nearest(n * pow2(1075), false)) == n * pow2(1074),
{
    lemma2_to64();
    lemma2_to64_rest();
    let f = n * pow2(1075);
    let q = n * pow2(1074);
    lemma_pow2_unfold(1075);
    lemma_pow2_pos(1074);
    assert(f == 2 * q) by (nonlinear_arith)
        requires
            f == n * pow2(1075),
            q == n * pow2(1074),
            pow2(1075) == 2 * pow2(1074),
    ;
    assert(f / 2 == q);
    lemma_length_range(n);
    let b = bit_length(n);
    if n == 0 {
        assert(q == 0 && f == 0) by (nonlinear_arith)
            requires
                n == 0,
                q == n * pow2(1074),
                f == n * pow2(1075),
        ;
        crate::arith::lemma_nearest_zero();
        assert(units_of(0) == 0) by {
            reveal(units_of);
        }
    } else {
        if b > 54 {
            lemma_pow2_strictly_increases(53, (b - 1) as nat);
        }
        assert(b <= 54);
        lemma_pow2_adds((b - 1) as nat, 1074);
        lemma_pow2_adds(b, 1074);
        assert(pow2((b + 1073) as nat) <= q < pow2(b + 1074)) by (nonlinear_arith)
            requires
                q == n * pow2(1074),
                pow2((b + 1073) as nat) == pow2((b - 1) as nat) * pow2(1074),
                pow2(b + 1074) == pow2(b) * pow2(1074),
                pow2((b - 1) as nat) <= n < pow2(b),
                pow2(1074) > 0,
        ;
        lemma_bit_length(q, b + 1074);
        let k = (b + 1021) as nat;
        assert(gap_exponent(q) == k);
        lemma_pow2_unfold(k + 1);
        lemma_pow2_pos(k);
        let gap = pow2(k + 1);
        let m: nat = if b <= 53 {
            n * pow2((53 - b) as nat)
        } else {
            pow2(52)
        };
        assert(f == gap * m) by {
            if b <= 53 {
                lemma_pow2_adds(k + 1, (53 - b) as nat);
                assert(f == gap * m) by (nonlinear_arith)
                    requires
                        f == n * pow2(1075),
                        pow2(1075) == gap * pow2((53 - b) as nat),
                        m == n * pow2((53 - b) as nat),
                ;
            } else {
                assert(n == pow2(53));
                lemma_pow2_adds(53, 1075);
                lemma_pow2_adds(1076, 52);
            }
        }
        lemma_fundamental_div_mod_converse(f as int, gap as int, m as int, 0);
        assert(nearest(f, false) < INF_BITS) by {
            reveal(nearest);
            assert(m <= 0x20_0000_0000_0000) by {
                if b <= 53 {
                    lemma_pow2_adds(b, (53 - b) as nat);
                    lemma_pow2_pos((53 - b) as nat);
                    assert(m <= pow2(53)) by (nonlinear_arith)
                        requires
                            m == n * pow2((53 - b) as nat),
                            n <= pow2(b),
                            pow2(53) == pow2(b) * pow2((53 - b) as nat),
                            pow2((53 - b) as nat) > 0,
                    ;
                }
            }
        }
        lemma_close(f, false);
    }
}

/// The value of a number with a sign.
proof fn lemma_signed_value(neg: bool, mag: nat)
    requires
        mag < INF_BITS,
    ensures
        signed(neg, mag).value() == if neg {
            -(units_of(mag) as int)
        } else {
            units_of(mag) as int
        },
{
    lemma_signed(neg, mag);
}

/// The ceiling of a number is the integer that is not below it by less than one.
pub proof fn law_ceiling(x: sunrealtype)
    requires
        x.is_finite(),
        x.units() < pow2(53) * pow2(1074),
    ensures
        ({
            let one = pow2(1074);
            let r = r_ceil(x);
            &&& r.value() % (one as int) == 0
            &&& x.value() <= r.value() < x.value() + one
        }),
{
    let w = pow2(1074);
    lemma_pow2_pos(1074);
    let u = x.units();
    let whole = u / w;
    let rest = u % w;
    lemma_fundamental_div_mod(u as int, w as int);
    assert(whole < pow2(53)) by (nonlinear_arith)
        requires
            u == w * whole + rest,
            rest >= 0,
            u < pow2(53) * w,
            w > 0,
    ;
    lemma_whole(whole);
    lemma_whole(whole + 1);
    let a = nearest(whole * pow2(1075), false);
    let b = nearest((whole + 1) * pow2(1075), false);
    lemma_signed_value(x.neg(), a);
    lemma_signed_value(false, b);
    assert(w * whole == whole * w && (whole + 1) * w == whole * w + w) by (nonlinear_arith);
    assert((whole * w) % w == 0 && ((whole + 1) * w) % w == 0 && (-(whole * w)) % (w as int) == 0) by {
        lemma_fundamental_div_mod_converse((whole * w) as int, w as int, whole as int, 0);
        lemma_fundamental_div_mod_converse(
            ((whole + 1) * w) as int,
            w as int,
            (whole + 1) as int,
            0,
        );
        assert(-(whole * w) == w * (-(whole as int))) by (nonlinear_arith);
        lemma_fundamental_div_mod_converse(-(whole * w), w as int, -(whole as int), 0);
    }
}

/// A rounded number is the integer within a half of it; one that is a half away
/// goes to the side further from zero.
pub proof fn law_nearest_integer(x: sunrealtype)
    requires
        x.is_finite(),
        x.units() < pow2(53) * pow2(1074),
    ensures
        ({
            let one = pow2(1074);
            let r = r_round(x);
            &&& r.units() % one == 0
            &&& r.neg() == x.neg()
            &&& 2 * r.units() <= 2 * x.units() + one
            &&& 2 * r.units() > 2 * x.units() - one
        }),
{
    let w = pow2(1074);
    lemma_pow2_pos(1074);
    let u = x.units();
    let whole = u / w;
    let rest = u % w;
    lemma_fundamental_div_mod(u as int, w as int);
    assert(whole < pow2(53)) by (nonlinear_arith)
        requires
            u == w * whole + rest,
            rest >= 0,
            u < pow2(53) * w,
            w > 0,
    ;
    lemma_whole(whole);
    lemma_whole(whole + 1);
    lemma_signed(x.neg(), nearest(whole * pow2(1075), false));
    lemma_signed(x.neg(), nearest((whole + 1) * pow2(1075), false));
    assert(w * whole == whole * w && (whole + 1) * w == whole * w + w) by (nonlinear_arith);
    lemma_fundamental_div_mod_converse((whole * w) as int, w as int, whole as int, 0);
    lemma_fundamental_div_mod_converse(((whole + 1) * w) as int, w as int, (whole + 1) as int, 0);
}

/// Powers multiply up from one.
pub proof fn law_powers(b: sunrealtype, n: nat)
    ensures
        r_pow(b, 0) == ONE(),
        r_pow(b, n + 1) == r_mul(r_pow(b, n), b),
        !b.is_nan() ==> r_pow(b, 1) == b,
{
    assert(r_pow(b, 1) == r_mul(r_pow(b, 0), b));
    if !b.is_nan() {
        crate::laws_numbers::law_times_one(b);
    }
}

/// The order of finite numbers is that of their values; a NaN is in no order.
pub proof fn law_order(a: sunrealtype, b: sunrealtype)
    ensures
        a.is_finite() && b.is_finite() ==> {
            &&& r_lt(a, b) == (a.value() < b.value())
            &&& r_eq(a, b) == (a.value() == b.value())
            &&& r_le(a, b) == (a.value() <= b.value())
        },
        a.is_nan() || b.is_nan() ==> !r_lt(a, b) && !r_eq(a, b) && !r_le(a, b),
        b.is_inf() && !b.neg() && a.is_finite() ==> r_lt(a, b),
        a.is_inf() && a.neg() && b.is_finite() ==> r_lt(a, b),
{
    reveal(r_lt);
    reveal(r_eq);
    if a.is_finite() && b.is_finite() {
        let p = a.units();
        let q = b.units();
        lemma_nearest_self(a.mag());
        lemma_nearest_self(b.mag());
        if p <= q {
            lemma_monotone((2 * p) as nat, false, (2 * q) as nat, false);
        }
        if q <= p {
            lemma_monotone((2 * q) as nat, false, (2 * p) as nat, false);
        }
        assert(units_of(0) == 0) by {
            reveal(units_of);
        }
        if a.mag() > 0 {
            crate::laws_numbers::lemma_units_range(a.mag());
        }
        if b.mag() > 0 {
            crate::laws_numbers::lemma_units_range(b.mag());
        }
    }
}

/// The negative and the magnitude of a number are exact.
pub proof fn law_sign_exact(a: sunrealtype)
    requires
        a.is_finite(),
    ensures
        r_neg(a).is_finite(),
        r_neg(a).value() == -a.value(),
        r_abs(a).is_finite(),
        r_abs(a).value() == if a.value() < 0 {
            -a.value()
        } else {
            a.value()
        },
{
    reveal(r_neg);
    reveal(r_abs);
    lemma_signed(!a.neg(), a.mag());
    lemma_signed(false, a.mag());
}

/// A difference of finite numbers is within one part in `2^53` of the exact one.
pub proof fn law_difference_close(a: sunrealtype, b: sunrealtype)
    requires
        a.is_finite(),
        b.is_finite(),
        r_sub(a, b).is_finite(),
    ensures
        ({
            let exact = a.value() - b.value();
            let d = r_sub(a, b).value() - exact;
            let size = if exact < 0 {
                -exact
            } else {
                exact
            };
            -size <= d * pow2(53) <= size
        }),
{
    reveal(r_sub);
    law_sign_exact(b);
    law_sum_close(a, r_neg(b));
}

/// Integers of up to `2^53` are exact.
pub proof fn law_integers_exact(i: int)
    requires
        -pow2(53) <= i <= pow2(53),
    ensures
        r_int(i).is_finite(),
        r_int(i).value() == i * pow2(1074),
{
    reveal(r_int);
    let n: nat = if i < 0 {
        (-i) as nat
    } else {
        i as nat
    };
    lemma_whole(n);
    lemma_signed(i < 0, nearest(n * pow2(1075), false));
    assert((-i) * pow2(1074) == -(i * pow2(1074))) by (nonlinear_arith);
}

/// The root that is guarded is zero for arguments that are not above zero, and
/// else the root.
pub proof fn law_guarded_root(x: sunrealtype)
    ensures
        r_le(x, ZERO()) ==> r_guarded_sqrt(x) == ZERO(),
        !r_le(x, ZERO()) ==> r_guarded_sqrt(x) == r_sqrt(x),
{
    reveal(r_guarded_sqrt);
}

/// Two numbers differ where their distance is not below the tolerance times the
/// size of their sum, nor below ten units of roundoff; equal ones never do.
pub proof fn law_differ(a: sunrealtype, b: sunrealtype, tol: sunrealtype)
    ensures
        r_eq(a, b) ==> !r_differ(a, b, tol),
        !r_eq(a, b) ==> ({
            let d = r_abs(r_sub(a, b));
            let sum = r_abs(r_add(a, b));
            let size = if r_lt(sum, SUN_BIG_REAL()) {
                sum
            } else {
                SUN_BIG_REAL()
            };
            let least = r_mul(TEN(), SUN_UNIT_ROUNDOFF());
            let rel = r_mul(tol, size);
            let bound = if r_lt(rel, least) {
                least
            } else {
                rel
            };
            r_differ(a, b, tol) == !r_lt(d, bound)
        }),
{
}

/// The smaller and the larger of two numbers: one of them, and not above, or not
/// below, either.
pub proof fn law_min_max(a: sunrealtype, b: sunrealtype)
    requires
        !a.is_nan(),
        !b.is_nan(),
    ensures
        r_min(a, b) == a || r_min(a, b) == b,
        r_le(r_min(a, b), a) && r_le(r_min(a, b), b),
        r_max(a, b) == a || r_max(a, b) == b,
        r_le(a, r_max(a, b)) && r_le(b, r_max(a, b)),
{
    reveal(r_lt);
    reveal(r_eq);
}

} // verus!
