//! Scalar helper functions.
use crate::arith::{from_int, lemma_nearest_self, magnitude, sign_bit, square_root, with_sign};
use crate::binary64::{
    nearest, r_abs, r_add, r_div, r_eq, r_int, r_le, r_lt, r_mul, r_sqrt, r_sub, signed,
    sunrealtype, units_of, EXP_STEP, INF_BITS,
};
use crate::order::{is_greater, is_less, ordered};
use crate::rounding::power_of_two;
use crate::sundials_types::{
    sunbooleantype, ONE, SUNFALSE, SUN_BIG_REAL, SUN_UNIT_ROUNDOFF, TEN, ZERO,
};
use vstd::arithmetic::div_mod::{
    lemma_fundamental_div_mod, lemma_fundamental_div_mod_converse, lemma_mod_bound,
};
use vstd::arithmetic::power::{lemma_pow0, pow};
use vstd::arithmetic::power2::{
    lemma2_to64, lemma2_to64_rest, lemma_pow2_adds, lemma_pow2_pos, lemma_pow2_strictly_increases,
    lemma_pow2_unfold, pow2,
};
use vstd::prelude::*;

verus! {

broadcast use crate::order::group_order;

/// The smaller of two numbers; the second one when they are unordered.
pub open spec fn r_min(a: sunrealtype, b: sunrealtype) -> sunrealtype {
    if r_lt(a, b) {
        a
    } else {
        b
    }
}

/// The larger of two numbers; the second one when they are unordered.
pub open spec fn r_max(a: sunrealtype, b: sunrealtype) -> sunrealtype {
    if r_lt(b, a) {
        a
    } else {
        b
    }
}

/// The first argument if it is less than the second, else the second.
pub fn SUNMIN<T: PartialOrd>(a: T, b: T) -> (r: T)
    ensures
        ordered::<T>() ==> r == (if is_less(a, b) {
            a
        } else {
            b
        }),
{
    if a < b {
        a
    } else {
        b
    }
}

/// The first argument if it is greater than the second, else the second.
pub fn SUNMAX<T: PartialOrd>(a: T, b: T) -> (r: T)
    ensures
        ordered::<T>() ==> r == (if is_greater(a, b) {
            a
        } else {
            b
        }),
{
    if a > b {
        a
    } else {
        b
    }
}

/// The smaller of two numbers.
pub fn real_min(a: sunrealtype, b: sunrealtype) -> (r: sunrealtype)
    ensures
        r == r_min(a, b),
{
    SUNMIN(a, b)
}

/// The larger of two numbers.
pub fn real_max(a: sunrealtype, b: sunrealtype) -> (r: sunrealtype)
    ensures
        r == r_max(a, b),
{
    SUNMAX(a, b)
}

/// `a * a`.
pub fn SUNSQR(a: sunrealtype) -> (r: sunrealtype)
    ensures
        r == r_mul(a, a),
{
    a * a
}

/// Square root; zero for arguments that are not above zero. NaN stays NaN.
#[verifier::opaque]
pub open spec fn r_guarded_sqrt(x: sunrealtype) -> sunrealtype {
    if r_le(x, ZERO()) {
        ZERO()
    } else {
        r_sqrt(x)
    }
}

pub fn SUNRsqrt(x: sunrealtype) -> (r: sunrealtype)
    ensures
        r == r_guarded_sqrt(x),
{
    reveal(r_guarded_sqrt);
        if x <= ZERO() {
        ZERO()
    } else {
        square_root(x)
    }
}

/// `|x|`.
pub fn SUNRabs(x: sunrealtype) -> (r: sunrealtype)
    ensures
        r == r_abs(x),
{
    reveal(r_abs);
    with_sign(false, magnitude(x))
}

/// Smallest integer not below `x`; a zero result keeps the sign of `x`.
pub open spec fn r_ceil(x: sunrealtype) -> sunrealtype {
    if x.mag() >= INF_BITS {
        x
    } else {
        let w = pow2(1074);
        let whole = x.units() / w;
        if x.neg() || x.units() % w == 0 {
            signed(x.neg(), nearest(whole * pow2(1075), false))
        } else {
            signed(false, nearest((whole + 1) * pow2(1075), false))
        }
    }
}

/// Integer nearest to `x`, halfway cases away from zero; a zero result keeps
/// the sign of `x`.
pub open spec fn r_round(x: sunrealtype) -> sunrealtype {
    if x.mag() >= INF_BITS {
        x
    } else {
        let w = pow2(1074);
        let whole = x.units() / w;
        if 2 * (x.units() % w) >= w {
            signed(x.neg(), nearest((whole + 1) * pow2(1075), false))
        } else {
            signed(x.neg(), nearest(whole * pow2(1075), false))
        }
    }
}

/// Integer part of a finite magnitude below `2^53`, and how the rest
/// compares with zero and with one half.
struct WholePart {
    whole: u64,
    exact: bool,
    half_up: bool,
}

/// Magnitude bits from which on every finite number is an integer (`2^52`).
const ALL_INTEGERS: u64 = 0x4330_0000_0000_0000;

proof fn lemma_pow2_zero_rem(m: nat, e: nat)
    requires
        e >= 1074,
    ensures
        (m * pow2(e)) % pow2(1074) == 0,
        ((m * pow2(e)) / pow2(1074)) * pow2(1075) == 2 * (m * pow2(e)),
{
    let g = (e - 1074) as nat;
    lemma_pow2_adds(g, 1074);
    lemma_pow2_pos(1074);
    lemma_pow2_unfold(1075);
    let s = pow2(g);
    let w = pow2(1074);
    assert(m * (s * w) == (m * s) * w) by (nonlinear_arith);
    lemma_fundamental_div_mod_converse((m * (s * w)) as int, w as int, (m * s) as int, 0);
    assert((m * s) * (2 * w) == 2 * (m * (s * w))) by (nonlinear_arith);
}

/// An integer-valued number is its own integer part.
proof fn lemma_large_is_integer(x: sunrealtype)
    requires
        ALL_INTEGERS <= x.mag() < INF_BITS,
    ensures
        x.units() % pow2(1074) == 0,
        nearest((x.units() / pow2(1074)) * pow2(1075), false) == x.mag(),
{
    reveal(units_of);
    reveal(nearest);
    let step = EXP_STEP as nat;
    lemma_fundamental_div_mod(x.mag() as int, step as int);
    let e = x.mag() / step;
    let m = x.mag() % step;
    assert(e >= 1075);
    lemma_pow2_zero_rem(step + m, (e - 1) as nat);
    lemma_nearest_self(x.mag());
}

/// Splits off the integer part.
fn whole_part(x: sunrealtype) -> (r: WholePart)
    requires
        x.mag() < ALL_INTEGERS,
    ensures
        r.whole < 0x20_0000_0000_0000,
        r.whole == x.units() / pow2(1074),
        r.exact == (x.units() % pow2(1074) == 0),
        r.half_up == (2 * (x.units() % pow2(1074)) >= pow2(1074)),
{
    reveal(units_of);
    let mag: u64 = magnitude(x);
    let field: u64 = mag / EXP_STEP;
    let frac: u64 = mag % EXP_STEP;
    let m: u64 = if field == 0 {
        frac
    } else {
        EXP_STEP + frac
    };
    let e: u64 = if field == 0 {
        0
    } else {
        field - 1
    };
    let ghost u = x.units();
    let ghost w = pow2(1074);
    proof {
        lemma2_to64();
        lemma2_to64_rest();
        lemma_fundamental_div_mod(mag as int, EXP_STEP as int);
        lemma_pow2_pos(1074);
        assert(m * 1 == m) by (nonlinear_arith);
        assert(u == m * pow2(e as nat));
        assert(e < 1074);
    }
    let d: u64 = 1074 - e;
    let ghost s = pow2(e as nat);
    let ghost dv = pow2(d as nat);
    proof {
        lemma_pow2_adds(d as nat, e as nat);
        lemma_pow2_pos(e as nat);
        lemma_pow2_pos(d as nat);
        lemma_pow2_unfold(d as nat);
    }
    if d < 64 {
        let div: u128 = power_of_two(d as u32);
        let half: u128 = power_of_two((d - 1) as u32);
        let q: u128 = (m as u128) / div;
        let t: u128 = (m as u128) % div;
        proof {
            lemma_fundamental_div_mod(m as int, dv as int);
            lemma_mod_bound(m as int, dv as int);
            assert(u == q * w + t * s) by (nonlinear_arith)
                requires
                    u == m * s,
                    m == dv * q + t,
                    w == dv * s,
            ;
            assert(0 <= t * s < w) by (nonlinear_arith)
                requires
                    0 <= t < dv,
                    w == dv * s,
                    s > 0,
            ;
            lemma_fundamental_div_mod_converse(u as int, w as int, q as int, (t * s) as int);
            assert(t * s == 0 <==> t == 0) by (nonlinear_arith)
                requires
                    s > 0,
            ;
            assert(2 * (t * s) >= w <==> t >= half) by (nonlinear_arith)
                requires
                    w == (2 * half) * s,
                    s > 0,
            ;
            assert(q <= m) by (nonlinear_arith)
                requires
                    m == dv * q + t,
                    t >= 0,
                    dv >= 1,
                    q >= 0,
            ;
        }
        WholePart { whole: q as u64, exact: t == 0, half_up: t >= half }
    } else {
        proof {
            if d > 64 {
                lemma_pow2_strictly_increases(64, d as nat);
            }
            assert(u < w && (u == 0 <==> m == 0) && 2 * u < w) by (nonlinear_arith)
                requires
                    u == m * s,
                    2 * m < dv,
                    w == dv * s,
                    s > 0,
                    m >= 0,
            ;
            lemma_fundamental_div_mod_converse(u as int, w as int, 0, u as int);
        }
        WholePart { whole: 0, exact: m == 0, half_up: false }
    }
}

/// The integer `n` with the given sign.
fn signed_int(neg: bool, n: u64) -> (r: sunrealtype)
    requires
        n <= 0x20_0000_0000_0000,
    ensures
        r == signed(neg, nearest((n as nat) * pow2(1075), false)),
{
    reveal(nearest);
    reveal(r_int);
    let m: sunrealtype = from_int(n as i64);
    proof {
        crate::arith::lemma_signed(false, nearest((n as nat) * pow2(1075), false));
    }
    with_sign(neg, magnitude(m))
}

/// Smallest integer not below `x`.
pub fn SUNRceil(x: sunrealtype) -> (r: sunrealtype)
    ensures
        r == r_ceil(x),
{
    reveal(nearest);
    let mag: u64 = magnitude(x);
    if mag >= INF_BITS {
        x
    } else if mag >= ALL_INTEGERS {
        proof {
            lemma_large_is_integer(x);
        }
        x
    } else {
        let p: WholePart = whole_part(x);
        if sign_bit(x) || p.exact {
            signed_int(sign_bit(x), p.whole)
        } else {
            signed_int(false, p.whole + 1)
        }
    }
}

/// Integer nearest to `x`, halfway cases away from zero.
pub fn SUNRround(x: sunrealtype) -> (r: sunrealtype)
    ensures
        r == r_round(x),
{
    reveal(nearest);
    let mag: u64 = magnitude(x);
    if mag >= INF_BITS {
        x
    } else if mag >= ALL_INTEGERS {
        proof {
            lemma_pow2_pos(1074);
            lemma_large_is_integer(x);
        }
        x
    } else {
        let p: WholePart = whole_part(x);
        if p.half_up {
            signed_int(sign_bit(x), p.whole + 1)
        } else {
            signed_int(sign_bit(x), p.whole)
        }
    }
}

/// Magnitude of `x` with the sign of `y`.
pub fn SUNRcopysign(x: sunrealtype, y: sunrealtype) -> (r: sunrealtype)
    ensures
        r == signed(y.neg(), x.mag()),
{
    with_sign(sign_bit(y), magnitude(x))
}

/// Whether the sign bits agree.
pub fn SUNRsamesign(x: sunrealtype, y: sunrealtype) -> (r: sunbooleantype)
    ensures
        r == (x.neg() == y.neg()),
{
    sign_bit(x) == sign_bit(y)
}

/// Whether the sign bits differ.
pub fn SUNRdifferentsign(x: sunrealtype, y: sunrealtype) -> (r: sunbooleantype)
    ensures
        r == (x.neg() != y.neg()),
{
    !SUNRsamesign(x, y)
}

proof fn lemma_pow_minus_one(i: nat)
    ensures
        pow(-1, i) == 1 || pow(-1, i) == -1,
    decreases i,
{
    reveal(pow);
    if i > 0 {
        lemma_pow_minus_one((i - 1) as nat);
    }
}

/// `|pow(b, i)|` never shrinks as the exponent of an integer base grows, except to zero.
proof fn lemma_pow_prefix(b: int, i: nat, n: nat)
    requires
        i <= n,
        i32::MIN <= pow(b, n) <= i32::MAX,
        i32::MIN <= b <= i32::MAX,
    ensures
        i32::MIN <= pow(b, i) <= i32::MAX,
    decreases n - i,
{
    if i < n {
        reveal(pow);
        if b == 0 {
            if i == 0 {
            } else {
                assert(pow(0, i) == 0 * pow(0, (i - 1) as nat));
                assert(0 * pow(0, (i - 1) as nat) == 0) by (nonlinear_arith);
            }
        } else {
            lemma_pow_prefix(b, i + 1, n);
            let x = pow(b, i);
            assert(pow(b, i + 1) == b * x);
            if b == -1 {
                lemma_pow_minus_one(i);
            } else {
                assert(i32::MIN <= x <= i32::MAX) by (nonlinear_arith)
                    requires
                        i32::MIN <= b * x <= i32::MAX,
                        b >= 1 || b <= -2,
                ;
            }
        }
    }
}

/// `base` to the power `exponent`; one for exponents that are not positive.
pub fn SUNIpowerI(base: i32, exponent: i32) -> (r: i32)
    requires
        exponent > 0 ==> i32::MIN <= pow(base as int, exponent as nat) <= i32::MAX,
    ensures
        r == if exponent > 0 {
            pow(base as int, exponent as nat)
        } else {
            1
        },
{
    let mut prod: i32 = 1;
    let mut i: i32 = 0;
    proof {
        lemma_pow0(base as int);
    }
    while i < exponent
        invariant
            0 <= i,
            i <= exponent || i == 0,
            exponent > 0 ==> i32::MIN <= pow(base as int, exponent as nat) <= i32::MAX,
            prod == pow(base as int, i as nat),
        decreases exponent - i,
    {
        proof {
            lemma_pow_prefix(base as int, (i + 1) as nat, exponent as nat);
            reveal(pow);
            assert(pow(base as int, (i + 1) as nat) == base * pow(base as int, i as nat));
            assert(base * prod == prod * base) by (nonlinear_arith);
        }
        prod = prod * base;
        i = i + 1;
    }
    prod
}

/// `base` multiplied into one `n` times, each product rounded.
pub open spec fn r_pow(base: sunrealtype, n: nat) -> sunrealtype
    decreases n,
{
    if n == 0 {
        ONE()
    } else {
        r_mul(r_pow(base, (n - 1) as nat), base)
    }
}

/// `base` to an integer power; a negative power is the reciprocal of the
/// positive one.
pub fn SUNRpowerI(base: sunrealtype, exponent: i32) -> (r: sunrealtype)
    ensures
        exponent >= 0 ==> r == r_pow(base, exponent as nat),
        exponent < 0 ==> r == r_div(ONE(), r_pow(base, (-exponent) as nat)),
{
    let mut prod: sunrealtype = ONE();
    let expt: i64 = if exponent < 0 {
        -(exponent as i64)
    } else {
        exponent as i64
    };
    let mut i: i64 = 0;
    while i < expt
        invariant
            0 <= i <= expt,
            prod == r_pow(base, i as nat),
        decreases expt - i,
    {
        prod = prod * base;
        i = i + 1;
    }
    if exponent < 0 {
        prod = ONE() / prod;
    }
    prod
}

/// Whether `a` and `b` differ by more than a tolerance: `tol` relative to the
/// size of their sum, and never less than ten roundoffs.
pub open spec fn r_differ(a: sunrealtype, b: sunrealtype, tol: sunrealtype) -> bool {
    if r_eq(a, b) {
        false
    } else {
        let diff = r_abs(r_sub(a, b));
        let norm = r_min(r_abs(r_add(a, b)), SUN_BIG_REAL());
        !r_lt(diff, r_max(r_mul(TEN(), SUN_UNIT_ROUNDOFF()), r_mul(tol, norm)))
    }
}

/// True when `a` and `b` differ by more than ten roundoffs, or either is NaN.
pub fn SUNRCompare(a: sunrealtype, b: sunrealtype) -> (r: sunbooleantype)
    ensures
        r == r_differ(a, b, r_mul(TEN(), SUN_UNIT_ROUNDOFF())),
{
    SUNRCompareTol(a, b, TEN() * SUN_UNIT_ROUNDOFF())
}

/// True when `a` and `b` differ by more than the tolerance, or either is NaN.
pub fn SUNRCompareTol(a: sunrealtype, b: sunrealtype, tol: sunrealtype) -> (r: sunbooleantype)
    ensures
        r == r_differ(a, b, tol),
{
    // Equal infinities are equal too.
    if a == b {
        return SUNFALSE;
    }
    let diff: sunrealtype = SUNRabs(a - b);
    let norm: sunrealtype = SUNMIN(SUNRabs(a + b), SUN_BIG_REAL());
    !(diff < SUNMAX(TEN() * SUN_UNIT_ROUNDOFF(), tol * norm))
}

} // verus!
