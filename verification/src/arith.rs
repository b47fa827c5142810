//! Arithmetic and comparison of `sunrealtype`.
use crate::binary64::{
    gap_exponent, int_sqrt, nan, nearest, r_add, r_div, r_eq, r_int, r_lt, r_mul, r_neg, r_sqrt,
    r_sub, signed, sunrealtype, units_of, EXP_STEP, INF_BITS, NAN_BITS, SIGN_BIT,
};
use crate::rounding::{
    digits, lemma_below_128, lemma_bit_length, lemma_bit_length_upper, power_of_two, round_scaled,
    scaled,
};
use vstd::arithmetic::div_mod::{
    lemma_fundamental_div_mod, lemma_fundamental_div_mod_converse, lemma_mod_bound,
};
use vstd::arithmetic::power2::{
    lemma2_to64, lemma2_to64_rest, lemma_pow2_adds, lemma_pow2_pos, lemma_pow2_strictly_increases,
    lemma_pow2_unfold, pow2,
};
use vstd::prelude::*;

verus! {

/// An integer times a power of two, scaled down by `2^d`.
proof fn lemma_scale_exact(p: nat, e: nat, d: nat, n: nat)
    requires
        n == p * pow2(e),
    ensures
        scaled(p, e - d, false, n / pow2(d), n % pow2(d) != 0),
{
    lemma_pow2_pos(d);
    lemma_pow2_pos(e);
    if e >= d {
        let g = (e - d) as nat;
        lemma_pow2_adds(g, d);
        lemma_pow2_pos(g);
        let s = pow2(g);
        let w = pow2(d);
        assert(n == w * (p * s) && n == (p * s) * w) by (nonlinear_arith)
            requires
                n == p * (s * w),
        ;
        lemma_fundamental_div_mod_converse(n as int, w as int, (p * s) as int, 0);
        assert(p * s < (p + 1) * s) by (nonlinear_arith)
            requires
                s > 0,
        ;
    } else {
        let g = (d - e) as nat;
        lemma_pow2_adds(g, e);
        lemma_pow2_pos(g);
        let w = pow2(g);
        let s = pow2(e);
        let q = p / w;
        let r = p % w;
        lemma_fundamental_div_mod(p as int, w as int);
        lemma_mod_bound(p as int, w as int);
        assert(n == (w * s) * q + r * s) by (nonlinear_arith)
            requires
                n == p * s,
                p == w * q + r,
        ;
        assert(0 <= r * s < w * s) by (nonlinear_arith)
            requires
                0 <= r < w,
                s > 0,
        ;
        lemma_fundamental_div_mod_converse(n as int, (w * s) as int, q as int, (r * s) as int);
        assert(r * s == 0 <==> r == 0) by (nonlinear_arith)
            requires
                s > 0,
        ;
    }
}

/// The quotient of two scaled integers.
pub(crate) proof fn lemma_scale_quotient(
    a: nat,
    b: nat,
    n: nat,
    d: nat,
    x: nat,
    eb: nat,
    g: int,
)
    requires
        b > 0,
        d == b * pow2(eb),
        n == a * pow2(x),
        x == g + eb,
    ensures
        scaled(a / b, g, a % b != 0, n / d, n % d != 0),
{
    let p = a / b;
    let r = a % b;
    lemma_fundamental_div_mod(a as int, b as int);
    lemma_mod_bound(a as int, b as int);
    lemma_pow2_pos(eb);
    let w = pow2(eb);
    assert(d > 0) by (nonlinear_arith)
        requires
            d == b * w,
            b > 0,
            w > 0,
    ;
    if g >= 0 {
        let gg = g as nat;
        let s = pow2(gg);
        lemma_pow2_adds(gg, eb);
        lemma_pow2_pos(gg);
        let q = (r * s) / b;
        let t = (r * s) % b;
        lemma_fundamental_div_mod((r * s) as int, b as int);
        lemma_mod_bound((r * s) as int, b as int);
        assert(q >= 0) by (nonlinear_arith)
            requires
                r * s == b * q + t,
                t < b,
                b > 0,
                r >= 0,
                s > 0,
        ;
        let ps = p * s;
        assert(a * s == b * ps + r * s) by (nonlinear_arith)
            requires
                a == b * p + r,
                ps == p * s,
        ;
        assert(a * s == b * (ps + q) + t) by (nonlinear_arith)
            requires
                a * s == b * ps + r * s,
                r * s == b * q + t,
        ;
        assert(n == (a * s) * w) by (nonlinear_arith)
            requires
                n == a * (s * w),
        ;
        let z = ps + q;
        assert((b * z + t) * w == (b * w) * z + t * w) by (nonlinear_arith);
        assert(n == d * (p * s + q) + t * w);
        assert(0 <= t * w < d) by (nonlinear_arith)
            requires
                0 <= t < b,
                d == b * w,
                w > 0,
        ;
        lemma_fundamental_div_mod_converse(n as int, d as int, (p * s + q) as int, (t * w) as int);
        assert(q < s) by (nonlinear_arith)
            requires
                r * s == b * q + t,
                t >= 0,
                r < b,
                s > 0,
        ;
        assert((p + 1) * s == p * s + s) by (nonlinear_arith);
        assert(t * w == 0 <==> t == 0) by (nonlinear_arith)
            requires
                w > 0,
        ;
        if r == 0 {
            assert(r * s == 0) by (nonlinear_arith)
                requires
                    r == 0,
            ;
            assert(q == 0 && t == 0) by {
                lemma_fundamental_div_mod_converse(0, b as int, 0, 0);
            }
        } else {
            assert(r * s > 0) by (nonlinear_arith)
                requires
                    r > 0,
                    s > 0,
            ;
            if q == 0 {
                assert(b * q == 0) by (nonlinear_arith)
                    requires
                        q == 0,
                ;
            }
        }
    } else {
        let gg = (-g) as nat;
        let s = pow2(gg);
        lemma_pow2_adds(x, gg);
        lemma_pow2_pos(gg);
        lemma_pow2_pos(x);
        let y = pow2(x);
        let q = p / s;
        let t = p % s;
        lemma_fundamental_div_mod(p as int, s as int);
        lemma_mod_bound(p as int, s as int);
        let rem = t * b + r;
        assert(n == d * q + rem * y) by (nonlinear_arith)
            requires
                n == a * y,
                d == b * w,
                w == y * s,
                a == b * p + r,
                p == s * q + t,
                rem == t * b + r,
        ;
        assert(0 <= rem * y < d) by (nonlinear_arith)
            requires
                rem == t * b + r,
                0 <= r < b,
                0 <= t < s,
                d == b * w,
                w == y * s,
                y > 0,
        ;
        lemma_fundamental_div_mod_converse(n as int, d as int, q as int, (rem * y) as int);
        assert(rem * y == 0 <==> (r == 0 && t == 0)) by (nonlinear_arith)
            requires
                rem == t * b + r,
                0 <= r < b,
                0 <= t,
                y > 0,
        ;
    }
}

/// Zero rounds to zero.
pub(crate) proof fn lemma_nearest_zero()
    ensures
        nearest(0, false) == 0,
{
    reveal(nearest);
    lemma2_to64();
    lemma_bit_length_upper(0, 0);
    lemma_fundamental_div_mod_converse(0, 2, 0, 0);
}

/// Sign and magnitude of an assembled number.
pub proof fn lemma_signed(neg: bool, mag: nat)
    requires
        mag < SIGN_BIT,
    ensures
        signed(neg, mag).neg() == neg,
        signed(neg, mag).mag() == mag,
{
}

/// A representable number rounds to itself.
pub proof fn lemma_nearest_self(mag: nat)
    requires
        mag < INF_BITS,
    ensures
        nearest(2 * units_of(mag), false) == mag,
{
    reveal(nearest);
    reveal(units_of);
    let step = EXP_STEP as nat;
    let e = mag / step;
    let m = mag % step;
    lemma_fundamental_div_mod(mag as int, step as int);
    lemma2_to64();
    lemma2_to64_rest();
    let u = units_of(mag);
    if e == 0 {
        lemma_bit_length_upper(u, 53);
        assert((2 * u) / 2 == u);
        lemma_fundamental_div_mod_converse((2 * u) as int, 2, u as int, 0);
    } else {
        let k = (e - 1) as nat;
        let s = pow2(k);
        let p = step + m;
        lemma_pow2_pos(k);
        lemma_pow2_adds(52, k);
        lemma_pow2_adds(53, k);
        assert(pow2(52 + k) <= u) by (nonlinear_arith)
            requires
                u == p * s,
                pow2(52 + k) == step * s,
                p >= step,
        ;
        assert(u < pow2(53 + k)) by (nonlinear_arith)
            requires
                u == p * s,
                pow2(53 + k) == (2 * step) * s,
                p < 2 * step,
                s > 0,
        ;
        lemma_bit_length(u, 53 + k);
        assert((2 * u) / 2 == u);
        assert(gap_exponent(u) == k);
        lemma_pow2_unfold(k + 1);
        assert(2 * u == (2 * s) * p) by (nonlinear_arith)
            requires
                u == p * s,
        ;
        lemma_fundamental_div_mod_converse((2 * u) as int, (2 * s) as int, p as int, 0);
    }
}

/// Whether the sign bit is set.
pub fn sign_bit(x: sunrealtype) -> (r: bool)
    ensures
        r == x.neg(),
{
    x.bits >= SIGN_BIT
}

/// The bit pattern without its sign.
pub fn magnitude(x: sunrealtype) -> (r: u64)
    ensures
        r as nat == x.mag(),
        r < SIGN_BIT,
{
    if x.bits >= SIGN_BIT {
        x.bits - SIGN_BIT
    } else {
        x.bits
    }
}

/// The number with the given sign and magnitude bits.
pub fn with_sign(neg: bool, mag: u64) -> (r: sunrealtype)
    requires
        mag < SIGN_BIT,
    ensures
        r == signed(neg, mag as nat),
{
    if neg {
        sunrealtype { bits: mag + SIGN_BIT }
    } else {
        sunrealtype { bits: mag }
    }
}

/// Significand and exponent of a finite number.
fn split(x: sunrealtype) -> (r: (u64, u32))
    requires
        x.is_finite(),
    ensures
        x.units() == (r.0 as nat) * pow2(r.1 as nat),
        r.0 < 0x20_0000_0000_0000,
        r.1 <= 2045,
        r.1 > 0 ==> r.0 >= EXP_STEP,
        r.0 == 0 <==> x.mag() == 0,
{
    reveal(units_of);
    let mag: u64 = magnitude(x);
    let e: u64 = mag / EXP_STEP;
    let m: u64 = mag % EXP_STEP;
    proof {
        lemma2_to64();
        lemma_fundamental_div_mod(mag as int, EXP_STEP as int);
        assert(m * 1 == m) by (nonlinear_arith);
    }
    if e == 0 {
        (m, 0)
    } else {
        (EXP_STEP + m, (e - 1) as u32)
    }
}

fn nan_value() -> (r: sunrealtype)
    ensures
        r == nan(),
{
    sunrealtype { bits: NAN_BITS }
}

/// Sum of two finite numbers, the first with the larger exponent.
fn add_ordered(a: sunrealtype, b: sunrealtype, ma: u64, ea: u32, mb: u64, eb: u32) -> (r: sunrealtype)
    requires
        a.is_finite(),
        b.is_finite(),
        a.units() == (ma as nat) * pow2(ea as nat),
        b.units() == (mb as nat) * pow2(eb as nat),
        ma < 0x20_0000_0000_0000,
        mb < 0x20_0000_0000_0000,
        eb <= ea <= 2045,
        ea > 0 ==> ma >= EXP_STEP,
    ensures
        r == r_add(a, b),
{
    reveal(r_add);
    let na: bool = sign_bit(a);
    let nb: bool = sign_bit(b);
    let d: u32 = ea - eb;
    let ghost s = a.value() + b.value();
    let ghost w = pow2(eb as nat);
    proof {
        lemma_pow2_pos(eb as nat);
        lemma2_to64();
        lemma2_to64_rest();
    }
    if d <= 64 {
        let sh: u128 = power_of_two(d);
        proof {
            lemma_pow2_adds(d as nat, eb as nat);
            if d < 64 {
                lemma_pow2_strictly_increases(d as nat, 64);
            }
            assert(ma * sh <= 0x20_0000_0000_0000 * 0x1_0000_0000_0000_0000) by (nonlinear_arith)
                requires
                    ma <= 0x20_0000_0000_0000,
                    sh <= 0x1_0000_0000_0000_0000,
            ;
        }
        let big: u128 = (ma as u128) * sh;
        let small: u128 = mb as u128;
        proof {
            assert(a.units() == big * w) by (nonlinear_arith)
                requires
                    a.units() == ma * (sh * w),
                    big == ma * sh,
            ;
        }
        let neg: bool;
        let p: u128;
        if na == nb {
            neg = na;
            p = big + small;
        } else if big >= small {
            neg = na;
            p = big - small;
        } else {
            neg = nb;
            p = small - big;
        }
        proof {
            assert(big * w + small * w == (big + small) * w) by (nonlinear_arith);
            assert(big * w - small * w == (big - small) * w) by (nonlinear_arith);
            assert(small * w - big * w == (small - big) * w) by (nonlinear_arith);
            assert(p * w >= 0 && (p * w == 0 <==> p == 0)) by (nonlinear_arith)
                requires
                    w > 0,
                    p >= 0,
            ;
            assert(p == 0 || s == if neg {
                -(p * w)
            } else {
                p * w
            });
        }
        if p == 0 {
            with_sign(na && nb, 0)
        } else {
            let ghost f = (2 * (p * w)) as nat;
            proof {
                lemma_pow2_unfold((eb + 1) as nat);
                assert(f == p * (2 * w)) by (nonlinear_arith)
                    requires
                        f == 2 * (p * w),
                ;
                lemma_scale_exact(p as nat, (eb + 1) as nat, 0, f);
                assert(f / 1 == f && f % 1 == 0);
            }
            round_scaled(neg, p, eb as i32 + 1, false, Ghost(f), Ghost(false))
        }
    } else {
        let drop: u32 = d - 64;
        let q: u64;
        let rem: bool;
        let ghost r: nat;
        let ghost u = pow2((ea - 64) as nat);
        proof {
            lemma_pow2_adds(64, (ea - 64) as nat);
            lemma_pow2_adds(drop as nat, eb as nat);
            lemma_pow2_pos((ea - 64) as nat);
            lemma_pow2_pos(drop as nat);
        }
        if drop < 64 {
            let dv: u128 = power_of_two(drop);
            let qq: u128 = (mb as u128) / dv;
            proof {
                r = (mb as nat) % (dv as nat);
                lemma_fundamental_div_mod(mb as int, dv as int);
                lemma_mod_bound(mb as int, dv as int);
                assert(qq <= mb) by (nonlinear_arith)
                    requires
                        mb == dv * qq + r,
                        r >= 0,
                        dv >= 1,
                        qq >= 0,
                ;
            }
            q = qq as u64;
            rem = (mb as u128) % dv != 0;
        } else {
            q = 0;
            rem = mb != 0;
            proof {
                r = mb as nat;
                if drop > 64 {
                    lemma_pow2_strictly_increases(64, drop as nat);
                }
                assert(pow2(drop as nat) * 0 == 0) by (nonlinear_arith);
            }
        }
        let ghost dv = pow2(drop as nat);
        assert(mb == dv * q + r && r < dv && rem == (r != 0) && q <= mb);
        let big: u128 = (ma as u128) * 0x1_0000_0000_0000_0000;
        let ghost x = r * w;
        proof {
            assert(a.units() == big * u) by (nonlinear_arith)
                requires
                    a.units() == ma * (0x1_0000_0000_0000_0000 * u),
                    big == ma * 0x1_0000_0000_0000_0000,
            ;
            assert(u == dv * w);
            assert(b.units() == q * u + x) by (nonlinear_arith)
                requires
                    b.units() == mb * w,
                    mb == dv * q + r,
                    u == dv * w,
                    x == r * w,
            ;
            assert(x < u) by (nonlinear_arith)
                requires
                    x == r * w,
                    r < dv,
                    u == dv * w,
                    w > 0,
            ;
            assert(x == 0 <==> r == 0) by (nonlinear_arith)
                requires
                    x == r * w,
                    w > 0,
            ;
        }
        let p: u128 = if na == nb {
            big + (q as u128)
        } else if rem {
            big - (q as u128) - 1
        } else {
            big - (q as u128)
        };
        // The distance from `p * u` up to the exact sum.
        let ghost y: nat = if na == nb || x == 0 {
            x
        } else {
            (u - x) as nat
        };
        let ghost f = (2 * (p * u + y)) as nat;
        proof {
            assert(big * u + q * u == (big + q) * u) by (nonlinear_arith);
            assert(big * u - q * u == (big - q) * u) by (nonlinear_arith);
            assert((big - q - 1) * u == (big - q) * u - u) by (nonlinear_arith);
            assert(s == if na {
                -(p * u + y)
            } else {
                p * u + y
            });
            assert(p * u + y > 0) by (nonlinear_arith)
                requires
                    p > 0,
                    u > 0,
                    y >= 0,
            ;
            lemma_pow2_unfold((ea - 63) as nat);
            assert(p * (2 * u) == 2 * (p * u)) by (nonlinear_arith);
            assert((p + 1) * (2 * u) == 2 * (p * u) + 2 * u) by (nonlinear_arith);
        }
        round_scaled(na, p, ea as i32 - 63, rem, Ghost(f), Ghost(false))
    }
}

/// `a + b`.
fn add_values(a: sunrealtype, b: sunrealtype) -> (r: sunrealtype)
    ensures
        r == r_add(a, b),
{
    reveal(r_add);
    let ma: u64 = magnitude(a);
    let mb: u64 = magnitude(b);
    if ma > INF_BITS || mb > INF_BITS {
        nan_value()
    } else if ma == INF_BITS {
        if mb == INF_BITS && sign_bit(a) != sign_bit(b) {
            nan_value()
        } else {
            a
        }
    } else if mb == INF_BITS {
        b
    } else {
        let (pa, ea) = split(a);
        let (pb, eb) = split(b);
        if ea >= eb {
            add_ordered(a, b, pa, ea, pb, eb)
        } else {
            add_ordered(b, a, pb, eb, pa, ea)
        }
    }
}

/// `-a`.
pub fn negate(a: sunrealtype) -> (r: sunrealtype)
    ensures
        r == r_neg(a),
{
    reveal(r_neg);
    with_sign(!sign_bit(a), magnitude(a))
}

/// `a * b`.
fn multiply(a: sunrealtype, b: sunrealtype) -> (r: sunrealtype)
    ensures
        r == r_mul(a, b),
{
    reveal(r_mul);
    let ma: u64 = magnitude(a);
    let mb: u64 = magnitude(b);
    let neg: bool = sign_bit(a) != sign_bit(b);
    if ma > INF_BITS || mb > INF_BITS {
        nan_value()
    } else if ma == INF_BITS || mb == INF_BITS {
        if ma == 0 || mb == 0 {
            nan_value()
        } else {
            with_sign(neg, INF_BITS)
        }
    } else {
        let (pa, ea) = split(a);
        let (pb, eb) = split(b);
        let ghost n = a.units() * b.units();
        proof {
            lemma_pow2_pos(1073);
            assert(pa * pb <= 0x20_0000_0000_0000 * 0x20_0000_0000_0000) by (nonlinear_arith)
                requires
                    pa <= 0x20_0000_0000_0000,
                    pb <= 0x20_0000_0000_0000,
            ;
        }
        if pa == 0 || pb == 0 {
            proof {
                assert(n == 0) by (nonlinear_arith)
                    requires
                        n == (pa * pow2(ea as nat)) * (pb * pow2(eb as nat)),
                        pa == 0 || pb == 0,
                ;
                lemma_fundamental_div_mod_converse(0, pow2(1073) as int, 0, 0);
                lemma_nearest_zero();
            }
            with_sign(neg, 0)
        } else {
            let p: u128 = (pa as u128) * (pb as u128);
            proof {
                lemma_pow2_adds(ea as nat, eb as nat);
                let x = pow2(ea as nat);
                let y = pow2(eb as nat);
                assert(n == p * (x * y)) by (nonlinear_arith)
                    requires
                        n == (pa * x) * (pb * y),
                        p == pa * pb,
                ;
                assert(p > 0) by (nonlinear_arith)
                    requires
                        p == pa * pb,
                        pa > 0,
                        pb > 0,
                ;
                lemma_scale_exact(p as nat, (ea + eb) as nat, 1073, n);
            }
            round_scaled(
                neg,
                p,
                ea as i32 + eb as i32 - 1073,
                false,
                Ghost(n / pow2(1073)),
                Ghost(n % pow2(1073) != 0),
            )
        }
    }
}

/// `a / b`.
fn divide(a: sunrealtype, b: sunrealtype) -> (r: sunrealtype)
    ensures
        r == r_div(a, b),
{
    reveal(r_div);
    let ma: u64 = magnitude(a);
    let mb: u64 = magnitude(b);
    let neg: bool = sign_bit(a) != sign_bit(b);
    if ma > INF_BITS || mb > INF_BITS || (ma == INF_BITS && mb == INF_BITS) || (ma == 0 && mb == 0) {
        nan_value()
    } else if ma == INF_BITS || mb == 0 {
        with_sign(neg, INF_BITS)
    } else if mb == INF_BITS {
        with_sign(neg, 0)
    } else {
        let (pa, ea) = split(a);
        let (pb, eb) = split(b);
        let ghost n = a.units() * pow2(1075);
        let ghost d = b.units();
        proof {
            lemma_pow2_pos(eb as nat);
            assert(d > 0) by (nonlinear_arith)
                requires
                    d == pb * pow2(eb as nat),
                    pb > 0,
                    pow2(eb as nat) > 0,
            ;
        }
        if pa == 0 {
            proof {
                assert(n == 0) by (nonlinear_arith)
                    requires
                        n == (pa * pow2(ea as nat)) * pow2(1075),
                        pa == 0,
                ;
                lemma_fundamental_div_mod_converse(0, d as int, 0, 0);
                lemma_nearest_zero();
            }
            with_sign(neg, 0)
        } else {
            let l: u32 = digits(pa as u128);
            proof {
                lemma2_to64_rest();
                if l > 54 {
                    lemma_pow2_strictly_increases(53, (l - 1) as nat);
                }
            }
            let s: u32 = 127 - l;
            let sc: u128 = power_of_two(s);
            proof {
                lemma_pow2_adds(l as nat, s as nat);
                lemma_pow2_adds((l - 1) as nat, s as nat);
                lemma_below_128(127);
                let hi = pow2(l as nat);
                let lo = pow2((l - 1) as nat);
                lemma_pow2_pos(s as nat);
                assert(pa * sc < hi * sc) by (nonlinear_arith)
                    requires
                        pa < hi,
                        sc > 0,
                ;
                assert(pa * sc >= lo * sc) by (nonlinear_arith)
                    requires
                        pa >= lo,
                        sc > 0,
                ;
            }
            let num: u128 = (pa as u128) * sc;
            let p: u128 = num / (pb as u128);
            let rem: bool = num % (pb as u128) != 0;
            let g: i32 = ea as i32 + 1075 - s as i32 - eb as i32;
            proof {
                let x = (ea + 1075 - s) as nat;
                lemma_pow2_adds(ea as nat, 1075);
                lemma_pow2_adds(s as nat, x);
                assert(s + x == ea + 1075);
                assert(n == num * pow2(x)) by (nonlinear_arith)
                    requires
                        n == (pa * pow2(ea as nat)) * pow2(1075),
                        pow2((ea + 1075) as nat) == pow2(ea as nat) * pow2(1075),
                        pow2((ea + 1075) as nat) == sc * pow2(x),
                        num == pa * sc,
                ;
                lemma_scale_quotient(num as nat, pb as nat, n, d, x, eb as nat, g as int);
                lemma_pow2_adds(73, 53);
                lemma_pow2_adds(9, 64);
                lemma2_to64();
                lemma_fundamental_div_mod(num as int, pb as int);
                lemma_mod_bound(num as int, pb as int);
                assert(p >= pow2(73)) by (nonlinear_arith)
                    requires
                        num >= pow2(73) * 0x20_0000_0000_0000,
                        num == pb * p + num % (pb as u128),
                        num % (pb as u128) < pb,
                        pb < 0x20_0000_0000_0000,
                        p >= 0,
                ;
            }
            round_scaled(neg, p, g, rem, Ghost(n / d), Ghost(n % d != 0))
        }
    }
}

proof fn lemma_int_sqrt_exists(n: nat)
    ensures
        exists|s: nat| s * s <= n && n < #[trigger] ((s + 1) * (s + 1)),
    decreases n,
{
    if n == 0 {
        assert(0nat * 0nat <= n && n < (0nat + 1) * (0nat + 1)) by (nonlinear_arith)
            requires
                n == 0,
        ;
    } else {
        lemma_int_sqrt_exists((n - 1) as nat);
        let s = choose|s: nat| s * s <= n - 1 && n - 1 < #[trigger] ((s + 1) * (s + 1));
        if n < (s + 1) * (s + 1) {
            assert(s * s <= n);
        } else {
            let t = s + 1;
            assert(t * t <= n);
            assert(n < (t + 1) * (t + 1)) by (nonlinear_arith)
                requires
                    n - 1 < t * t,
                    t >= 0,
            ;
        }
    }
}

/// What fixes the integer square root.
pub proof fn lemma_int_sqrt(n: nat)
    ensures
        int_sqrt(n) * int_sqrt(n) <= n < (int_sqrt(n) + 1) * (int_sqrt(n) + 1),
{
    reveal(int_sqrt);
    lemma_int_sqrt_exists(n);
}

/// Integer square root by bisection.
fn floor_root(m: u128) -> (r: u128)
    ensures
        r * r <= m < (r + 1) * (r + 1),
        r < 0x1_0000_0000_0000_0000,
{
    let mut lo: u128 = 0;
    let mut hi: u128 = 0x1_0000_0000_0000_0000;
    assert(m < hi * hi) by (nonlinear_arith)
        requires
            hi == 0x1_0000_0000_0000_0000,
            m <= 0xffff_ffff_ffff_ffff_ffff_ffff_ffff_ffff,
    ;
    assert(lo * lo <= m) by (nonlinear_arith)
        requires
            lo == 0,
            m >= 0,
    ;
    while hi - lo > 1
        invariant
            lo < hi <= 0x1_0000_0000_0000_0000,
            lo * lo <= m < hi * hi,
        decreases hi - lo,
    {
        let mid: u128 = lo + (hi - lo) / 2;
        assert(mid * mid <= 0xffff_ffff_ffff_ffff * 0xffff_ffff_ffff_ffff) by (nonlinear_arith)
            requires
                0 <= mid <= 0xffff_ffff_ffff_ffff,
        ;
        if mid * mid <= m {
            lo = mid;
        } else {
            hi = mid;
        }
    }
    lo
}

/// Square root of a finite positive number.
fn root_finite(a: sunrealtype) -> (r: sunrealtype)
    requires
        a.is_finite(),
        a.mag() != 0,
        !a.neg(),
    ensures
        r == r_sqrt(a),
{
    reveal(r_sqrt);
    let (m, e) = split(a);
    let l: u32 = digits(m as u128);
    proof {
        lemma2_to64_rest();
        if l > 54 {
            lemma_pow2_strictly_increases(53, (l - 1) as nat);
        }
    }
    // Bring the significand close to 2^127 and leave an even exponent.
    let s: u32 = if (e + 1076 + l) % 2 == 1 {
        127 - l
    } else {
        126 - l
    };
    let h: u32 = (e + 1076 - s) / 2;
    let sc: u128 = power_of_two(s);
    let ghost n = a.units() * pow2(1076);
    proof {
        assert((e + 1076 - s) % 2 == 0);
        lemma_pow2_adds(l as nat, s as nat);
        lemma_pow2_adds((l - 1) as nat, s as nat);
        lemma_below_128((l + s) as nat);
        lemma_pow2_pos(s as nat);
        let hi = pow2(l as nat);
        let lo = pow2((l - 1) as nat);
        assert(m * sc < hi * sc) by (nonlinear_arith)
            requires
                m < hi,
                sc > 0,
        ;
        assert(m * sc >= lo * sc) by (nonlinear_arith)
            requires
                m >= lo,
                sc > 0,
        ;
    }
    let num: u128 = (m as u128) * sc;
    let p: u128 = floor_root(num);
    let rem: bool = p * p != num;
    let ghost f = int_sqrt(n);
    proof {
        let w = pow2(h as nat);
        lemma_pow2_pos(h as nat);
        lemma_pow2_adds(h as nat, h as nat);
        lemma_pow2_adds(s as nat, (2 * h) as nat);
        lemma_pow2_adds(e as nat, 1076);
        assert(s + 2 * h == e + 1076);
        assert(n == num * (w * w)) by (nonlinear_arith)
            requires
                n == (m * pow2(e as nat)) * pow2(1076),
                pow2((e + 1076) as nat) == pow2(e as nat) * pow2(1076),
                pow2((e + 1076) as nat) == sc * (w * w),
                num == m * sc,
        ;
        lemma_int_sqrt(n);
        let lo = p * w;
        let hi = (p + 1) * w;
        assert(lo * lo == (p * p) * (w * w)) by (nonlinear_arith)
            requires
                lo == p * w,
        ;
        assert(hi * hi == ((p + 1) * (p + 1)) * (w * w)) by (nonlinear_arith)
            requires
                hi == (p + 1) * w,
        ;
        assert(lo * lo <= n) by (nonlinear_arith)
            requires
                lo * lo == (p * p) * (w * w),
                n == num * (w * w),
                p * p <= num,
        ;
        assert(n < hi * hi) by (nonlinear_arith)
            requires
                hi * hi == ((p + 1) * (p + 1)) * (w * w),
                n == num * (w * w),
                num < (p + 1) * (p + 1),
                w > 0,
        ;
        assert(lo < f + 1) by (nonlinear_arith)
            requires
                lo * lo <= n,
                n < (f + 1) * (f + 1),
                f >= 0,
        ;
        assert(f < hi) by (nonlinear_arith)
            requires
                f * f <= n,
                n < hi * hi,
                hi >= 0,
        ;
        if p * p == num {
            assert(lo * lo == n);
            assert(f <= lo) by (nonlinear_arith)
                requires
                    f * f <= lo * lo,
                    lo >= 0,
            ;
        } else {
            assert(lo * lo < n) by (nonlinear_arith)
                requires
                    lo * lo == (p * p) * (w * w),
                    n == num * (w * w),
                    p * p < num,
                    w > 0,
            ;
        }
        // The root keeps more than 54 digits.
        lemma_pow2_adds(54, 54);
        if l + s > 109 {
            lemma_pow2_strictly_increases(108, (l + s - 1) as nat);
        }
        assert(p >= 0x40_0000_0000_0000) by (nonlinear_arith)
            requires
                num >= 0x40_0000_0000_0000 * 0x40_0000_0000_0000,
                num < (p + 1) * (p + 1),
                p >= 0,
        ;
    }
    round_scaled(false, p, h as i32, rem, Ghost(f), Ghost(f * f != n))
}

/// Square root.
pub fn square_root(a: sunrealtype) -> (r: sunrealtype)
    ensures
        r == r_sqrt(a),
{
    reveal(r_sqrt);
    let ma: u64 = magnitude(a);
    if ma > INF_BITS {
        nan_value()
    } else if ma == 0 {
        a
    } else if sign_bit(a) {
        nan_value()
    } else if ma == INF_BITS {
        a
    } else {
        root_finite(a)
    }
}

/// The number nearest to an integer.
pub fn from_int(i: i64) -> (r: sunrealtype)
    ensures
        r == r_int(i as int),
{
    reveal(r_int);
    let p: u128 = if i < 0 {
        (-(i as i128)) as u128
    } else {
        i as u128
    };
    let ghost f = (p as nat) * pow2(1075);
    if p == 0 {
        proof {
            assert(f == 0) by (nonlinear_arith)
                requires
                    f == p * pow2(1075),
                    p == 0,
            ;
            lemma_nearest_zero();
        }
        with_sign(false, 0)
    } else {
        proof {
            lemma2_to64();
            lemma_scale_exact(p as nat, 1075, 0, f);
            assert(f / 1 == f && f % 1 == 0);
        }
        round_scaled(i < 0, p, 1075, false, Ghost(f), Ghost(false))
    }
}

/// Place in the order of the extended reals.
fn order_key(a: sunrealtype) -> (r: i64)
    ensures
        r as int == a.key(),
{
    let m: i64 = magnitude(a) as i64;
    if sign_bit(a) {
        -m
    } else {
        m
    }
}

/// `a == b`.
pub fn equal(a: sunrealtype, b: sunrealtype) -> (r: bool)
    ensures
        r == r_eq(a, b),
{
    reveal(r_eq);
    magnitude(a) <= INF_BITS && magnitude(b) <= INF_BITS && order_key(a) == order_key(b)
}

/// `a < b`.
pub fn less(a: sunrealtype, b: sunrealtype) -> (r: bool)
    ensures
        r == r_lt(a, b),
{
    reveal(r_lt);
    magnitude(a) <= INF_BITS && magnitude(b) <= INF_BITS && order_key(a) < order_key(b)
}

impl core::ops::Add for sunrealtype {
    type Output = sunrealtype;

    fn add(self, rhs: sunrealtype) -> (r: sunrealtype) {
        add_values(self, rhs)
    }
}

impl vstd::std_specs::ops::AddSpecImpl for sunrealtype {
    open spec fn obeys_add_spec() -> bool {
        true
    }

    open spec fn add_req(self, rhs: sunrealtype) -> bool {
        true
    }

    open spec fn add_spec(self, rhs: sunrealtype) -> sunrealtype {
        r_add(self, rhs)
    }
}

impl core::ops::Sub for sunrealtype {
    type Output = sunrealtype;

    fn sub(self, rhs: sunrealtype) -> (r: sunrealtype) {
        reveal(r_sub);
        add_values(self, negate(rhs))
    }
}

impl vstd::std_specs::ops::SubSpecImpl for sunrealtype {
    open spec fn obeys_sub_spec() -> bool {
        true
    }

    open spec fn sub_req(self, rhs: sunrealtype) -> bool {
        true
    }

    open spec fn sub_spec(self, rhs: sunrealtype) -> sunrealtype {
        r_sub(self, rhs)
    }
}

impl core::ops::Mul for sunrealtype {
    type Output = sunrealtype;

    fn mul(self, rhs: sunrealtype) -> (r: sunrealtype) {
        multiply(self, rhs)
    }
}

impl vstd::std_specs::ops::MulSpecImpl for sunrealtype {
    open spec fn obeys_mul_spec() -> bool {
        true
    }

    open spec fn mul_req(self, rhs: sunrealtype) -> bool {
        true
    }

    open spec fn mul_spec(self, rhs: sunrealtype) -> sunrealtype {
        r_mul(self, rhs)
    }
}

impl core::ops::Div for sunrealtype {
    type Output = sunrealtype;

    fn div(self, rhs: sunrealtype) -> (r: sunrealtype) {
        divide(self, rhs)
    }
}

impl vstd::std_specs::ops::DivSpecImpl for sunrealtype {
    open spec fn obeys_div_spec() -> bool {
        true
    }

    open spec fn div_req(self, rhs: sunrealtype) -> bool {
        true
    }

    open spec fn div_spec(self, rhs: sunrealtype) -> sunrealtype {
        r_div(self, rhs)
    }
}

} // verus!
