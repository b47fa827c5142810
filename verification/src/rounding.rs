//! Rounding of a scaled integer to the nearest binary64 magnitude.
use crate::binary64::{
    bit_length, gap_exponent, nearest, signed, sunrealtype, EXP_STEP, INF_BITS, SIGN_BIT,
};
use vstd::arithmetic::div_mod::{
    lemma_fundamental_div_mod, lemma_fundamental_div_mod_converse, lemma_mod_bound,
};
use vstd::arithmetic::power2::{
    lemma2_to64, lemma2_to64_rest, lemma_pow2_adds, lemma_pow2_pos, lemma_pow2_strictly_increases,
    lemma_pow2_unfold, pow2,
};
use vstd::prelude::*;

verus! {

/// `2 v` lies in `[p, p + 1) * 2^g`, strictly inside when `sticky`; `f` is its
/// integer part and `inexact` says whether it has a fractional part.
pub open spec fn scaled(p: nat, g: int, sticky: bool, f: nat, inexact: bool) -> bool {
    if g >= 0 {
        &&& p * pow2(g as nat) <= f < (p + 1) * pow2(g as nat)
        &&& sticky <==> (f != p * pow2(g as nat) || inexact)
    } else {
        &&& f == p / pow2((-g) as nat)
        &&& inexact <==> (sticky || p % pow2((-g) as nat) != 0)
    }
}

pub proof fn lemma_bit_length(n: nat, b: nat)
    requires
        b > 0,
        pow2((b - 1) as nat) <= n < pow2(b),
    ensures
        bit_length(n) == b,
    decreases b,
{
    lemma2_to64();
    lemma_pow2_unfold(b);
    if b == 1 {
        assert(n == 1);
        assert(bit_length(0) == 0);
        assert(bit_length(1) == 1 + bit_length(0));
    } else {
        lemma_pow2_unfold((b - 1) as nat);
        lemma_bit_length(n / 2, (b - 1) as nat);
    }
}

/// A number below `2^b` has at most `b` digits.
pub proof fn lemma_bit_length_upper(n: nat, b: nat)
    requires
        n < pow2(b),
    ensures
        bit_length(n) <= b,
    decreases b,
{
    lemma2_to64();
    if n > 0 && b > 0 {
        lemma_pow2_unfold(b);
        lemma_bit_length_upper(n / 2, (b - 1) as nat);
    }
}

proof fn lemma_gap(p: nat, l: nat, g: int, sticky: bool, f: nat, inexact: bool)
    requires
        l > 0,
        pow2((l - 1) as nat) <= p < pow2(l),
        scaled(p, g, sticky, f, inexact),
    ensures
        gap_exponent(f / 2) == if l + g > 54 {
            (l + g - 54) as nat
        } else {
            0nat
        },
{
    lemma2_to64();
    lemma2_to64_rest();
    let q = f / 2;
    if g >= 0 {
        let gg = g as nat;
        let lo = pow2((l - 1) as nat);
        let hi = pow2(l);
        let s = pow2(gg);
        lemma_pow2_pos(gg);
        lemma_pow2_adds((l - 1) as nat, gg);
        lemma_pow2_adds(l, gg);
        assert(lo * s <= p * s) by (nonlinear_arith)
            requires
                lo <= p,
                s > 0,
        ;
        assert((p + 1) * s <= hi * s) by (nonlinear_arith)
            requires
                p + 1 <= hi,
                s > 0,
        ;
        assert(pow2((l - 1 + gg) as nat) <= f < pow2(l + gg));
        if l + gg >= 2 {
            lemma_pow2_unfold((l - 1 + gg) as nat);
            lemma_pow2_unfold(l + gg);
            lemma_bit_length(q, (l + gg - 1) as nat);
        } else {
            lemma_bit_length_upper(q, 0);
        }
    } else {
        let gg = (-g) as nat;
        lemma_pow2_pos(gg);
        let d = pow2(gg);
        lemma_fundamental_div_mod(p as int, d as int);
        if l > gg {
            lemma_pow2_adds((l - 1 - gg) as nat, gg);
            lemma_pow2_adds((l - gg) as nat, gg);
            let lo = pow2((l - 1 - gg) as nat);
            let hi = pow2((l - gg) as nat);
            assert(lo <= f) by (nonlinear_arith)
                requires
                    lo * d <= p,
                    p == d * f + p % d,
                    p % d < d,
                    d > 0,
            ;
            assert(f < hi) by (nonlinear_arith)
                requires
                    p < hi * d,
                    p == d * f + p % d,
                    0 <= p % d,
                    d > 0,
            ;
            if l - gg >= 2 {
                lemma_pow2_unfold((l - 1 - gg) as nat);
                lemma_pow2_unfold((l - gg) as nat);
                lemma_bit_length(q, (l - gg - 1) as nat);
            } else {
                assert(q == 0);
                lemma_bit_length_upper(q, 0);
            }
        } else {
            if l < gg {
                lemma_pow2_strictly_increases(l, gg);
            }
            assert(f == 0) by (nonlinear_arith)
                requires
                    p < d,
                    p == d * f + p % d,
                    0 <= p % d,
                    d > 0,
            ;
            lemma_bit_length_upper(q, 0);
        }
    }
}

/// How quotient, remainder and half-way test of `p` by `2^sh` carry over to `f`.
proof fn lemma_cut(p: nat, g: int, sticky: bool, f: nat, inexact: bool, k: nat, sh: nat, n: nat, low: nat)
    requires
        scaled(p, g, sticky, f, inexact),
        sh >= 1,
        sh == k + 1 - g,
        p == n * pow2(sh) + low,
        low < pow2(sh),
    ensures
        f / pow2(k + 1) == n,
        ({
            let r = f % pow2(k + 1);
            let half = pow2((sh - 1) as nat);
            (r > pow2(k) || (r == pow2(k) && (inexact || n % 2 == 1))) <==> (low > half || (low == half
                && (sticky || n % 2 == 1)))
        }),
{
    let half = pow2((sh - 1) as nat);
    lemma_pow2_unfold(sh);
    lemma_pow2_pos((sh - 1) as nat);
    lemma_pow2_pos(k);
    lemma_pow2_unfold(k + 1);
    if g >= 0 {
        let gg = g as nat;
        let s = pow2(gg);
        let d = f - p * s;
        lemma_pow2_pos(gg);
        lemma_pow2_adds(sh, gg);
        lemma_pow2_adds((sh - 1) as nat, gg);
        assert(sh + gg == k + 1);
        assert((p + 1) * s == p * s + s) by (nonlinear_arith);
        let r = low * s + d;
        let ps = pow2(sh);
        assert(f == n * (ps * s) + r) by (nonlinear_arith)
            requires
                f == p * s + d,
                p == n * ps + low,
                r == low * s + d,
        ;
        assert(r < ps * s) by (nonlinear_arith)
            requires
                r == low * s + d,
                d < s,
                low + 1 <= ps,
                s > 0,
        ;
        assert(0 <= r) by (nonlinear_arith)
            requires
                r == low * s + d,
                d >= 0,
                s > 0,
                low >= 0,
        ;
        assert(n * (ps * s) == (ps * s) * n) by (nonlinear_arith);
        lemma_fundamental_div_mod_converse(f as int, (ps * s) as int, n as int, r);
        assert(pow2(k) == half * s);
        if low < half {
            assert(r < half * s) by (nonlinear_arith)
                requires
                    r == low * s + d,
                    d < s,
                    low + 1 <= half,
                    s > 0,
            ;
        } else if low > half {
            assert(r > half * s) by (nonlinear_arith)
                requires
                    r == low * s + d,
                    d >= 0,
                    low >= half + 1,
                    s > 0,
            ;
        }
    } else {
        let gg = (-g) as nat;
        let d = pow2(gg);
        lemma_pow2_pos(gg);
        lemma_pow2_adds(k + 1, gg);
        lemma_pow2_adds(k, gg);
        assert(sh == k + 1 + gg);
        let gap = pow2(k + 1);
        let q = low / d;
        let t = low % d;
        lemma_fundamental_div_mod(low as int, d as int);
        lemma_mod_bound(low as int, d as int);
        assert(p == (n * gap + q) * d + t) by (nonlinear_arith)
            requires
                p == n * (gap * d) + low,
                low == d * q + t,
        ;
        assert((n * gap + q) * d == d * (n * gap + q)) by (nonlinear_arith);
        lemma_fundamental_div_mod_converse(p as int, d as int, (n * gap + q) as int, t as int);
        assert(q < gap) by (nonlinear_arith)
            requires
                low < gap * d,
                low == d * q + t,
                t >= 0,
                d > 0,
        ;
        assert(n * gap == gap * n) by (nonlinear_arith);
        lemma_fundamental_div_mod_converse(f as int, gap as int, n as int, q as int);
        let h = pow2(k);
        assert(half == h * d);
        if low > half {
            assert(q >= h) by (nonlinear_arith)
                requires
                    low > h * d,
                    low == d * q + t,
                    t < d,
                    d > 0,
            ;
            if q == h {
                assert(d * q == h * d) by (nonlinear_arith)
                    requires
                        q == h,
                ;
                assert(t != 0);
            }
        } else if low == half {
            assert(q == h && t == 0) by {
                assert(low == d * h) by (nonlinear_arith)
                    requires
                        low == h * d,
                ;
                lemma_fundamental_div_mod_converse(low as int, d as int, h as int, 0);
            }
        } else {
            assert(q < h) by (nonlinear_arith)
                requires
                    low < h * d,
                    low == d * q + t,
                    t >= 0,
                    d > 0,
            ;
        }
    }
}

/// `2^s`.
pub(crate) fn power_of_two(s: u32) -> (r: u128)
    requires
        s < 128,
    ensures
        r == pow2(s as nat),
{
    proof {
        lemma2_to64();
    }
    let mut r: u128 = 1;
    let mut i: u32 = 0;
    while i < s
        invariant
            i <= s < 128,
            r == pow2(i as nat),
        decreases s - i,
    {
        proof {
            lemma_pow2_unfold((i + 1) as nat);
            lemma_below_128((i + 1) as nat);
        }
        r = r * 2;
        i = i + 1;
    }
    r
}

pub(crate) proof fn lemma_below_128(e: nat)
    requires
        e < 128,
    ensures
        pow2(e) <= 0x8000_0000_0000_0000_0000_0000_0000_0000,
{
    lemma2_to64();
    lemma2_to64_rest();
    lemma_pow2_adds(64, 63);
    assert(0x1_0000_0000_0000_0000 * 0x8000_0000_0000_0000
        == 0x8000_0000_0000_0000_0000_0000_0000_0000) by (nonlinear_arith);
    if e < 127 {
        lemma_pow2_strictly_increases(e, 127);
    }
}

/// Number of binary digits of a positive integer.
pub(crate) fn digits(p: u128) -> (l: u32)
    requires
        p > 0,
    ensures
        1 <= l <= 128,
        pow2((l - 1) as nat) <= p < pow2(l as nat),
{
    proof {
        lemma2_to64();
        lemma_pow2_adds(64, 64);
        assert(0x1_0000_0000_0000_0000 * 0x1_0000_0000_0000_0000
            == 0x1_0000_0000_0000_0000_0000_0000_0000_0000) by (nonlinear_arith);
    }
    let mut q: u128 = p / 2;
    let mut l: u32 = 1;
    assert(pow2(0) == 1);
    while q > 0
        invariant
            1 <= l <= 128,
            p > 0,
            pow2(128) == 0x1_0000_0000_0000_0000_0000_0000_0000_0000,
            pow2((l - 1) as nat) <= p,
            q * pow2(l as nat) <= p < (q + 1) * pow2(l as nat),
        decreases q,
    {
        let ghost s = pow2(l as nat);
        proof {
            lemma_pow2_pos(l as nat);
            assert(s <= p) by (nonlinear_arith)
                requires
                    q * s <= p,
                    q >= 1,
                    s > 0,
            ;
            if l == 128 {
                assert(false);
            }
            lemma_pow2_unfold((l + 1) as nat);
            assert((q / 2) * (2 * s) <= q * s) by (nonlinear_arith)
                requires
                    2 * (q / 2) <= q,
                    s > 0,
            ;
            assert((q + 1) * s <= (q / 2 + 1) * (2 * s)) by (nonlinear_arith)
                requires
                    q + 1 <= 2 * (q / 2) + 2,
                    s > 0,
            ;
        }
        q = q / 2;
        l = l + 1;
    }
    assert((q + 1) * pow2(l as nat) == pow2(l as nat)) by (nonlinear_arith)
        requires
            q == 0,
    ;
    l
}

proof fn lemma_up_to_53(e: nat)
    requires
        e <= 53,
    ensures
        pow2(e) <= 0x20_0000_0000_0000,
{
    lemma2_to64_rest();
    if e < 53 {
        lemma_pow2_strictly_increases(e, 53);
    }
}

/// Rounds to nearest, ties to even.
pub(crate) fn round_scaled(
    neg: bool,
    p: u128,
    g: i32,
    sticky: bool,
    Ghost(f): Ghost<nat>,
    Ghost(inexact): Ghost<bool>,
) -> (r: sunrealtype)
    requires
        p > 0,
        sticky ==> p >= 0x40_0000_0000_0000,
        -4000 <= g <= 4000,
        scaled(p as nat, g as int, sticky, f, inexact),
    ensures
        r == signed(neg, nearest(f, inexact)),
{
    reveal(nearest);
    let l: u32 = digits(p);
    let top: i32 = l as i32 + g;
    let k: u32 = if top > 54 {
        (top - 54) as u32
    } else {
        0
    };
    proof {
        lemma_gap(p as nat, l as nat, g as int, sticky, f, inexact);
        lemma2_to64();
        lemma2_to64_rest();
    }
    let sh: i32 = k as i32 + 1 - g;
    let n: u64;
    let up: bool;
    if sh <= 0 {
        proof {
            // No digit is dropped: the number is a whole multiple of the gap.
            if l >= 55 {
                assert(top - 54 >= g + 1);
            }
            assert(l <= 53);
            if sticky {
                lemma_pow2_strictly_increases(l as nat, 54);
            }
            let t = (-sh) as nat;
            lemma_pow2_adds(t, (k + 1) as nat);
            lemma_pow2_pos((k + 1) as nat);
            lemma_pow2_pos(k as nat);
            let a = pow2(t);
            let b = pow2((k + 1) as nat);
            assert(p * (a * b) == b * (p * a)) by (nonlinear_arith);
            lemma_fundamental_div_mod_converse(f as int, b as int, (p * a) as int, 0);
            lemma_pow2_adds(l as nat, t);
            lemma_up_to_53((l + t) as nat);
            lemma_pow2_pos(t);
            assert(p * a < pow2(l as nat) * a) by (nonlinear_arith)
                requires
                    p < pow2(l as nat),
                    a > 0,
            ;
            assert(a <= p * a) by (nonlinear_arith)
                requires
                    p >= 1,
            ;
        }
        n = (p * power_of_two((-sh) as u32)) as u64;
        up = false;
    } else {
        let low: u128;
        if sh < 128 {
            let d: u128 = power_of_two(sh as u32);
            let half: u128 = power_of_two((sh - 1) as u32);
            proof {
                lemma_pow2_pos(sh as nat);
            }
            low = p % d;
            proof {
                lemma_fundamental_div_mod(p as int, d as int);
                let m = p / d;
                assert(d * m == m * d) by (nonlinear_arith);
                lemma_cut(p as nat, g as int, sticky, f, inexact, k as nat, sh as nat, m as nat, low as nat);
                // The quotient fits in 53 digits.
                assert(l - sh <= 53);
                if l >= sh {
                    lemma_pow2_adds((l - sh) as nat, sh as nat);
                    lemma_up_to_53((l - sh) as nat);
                    let a = pow2((l - sh) as nat);
                    assert(m < a) by (nonlinear_arith)
                        requires
                            p < a * d,
                            p == d * m + p % d,
                            p % d >= 0,
                            d > 0,
                    ;
                } else {
                    lemma_pow2_strictly_increases(l as nat, sh as nat);
                    assert(m == 0) by (nonlinear_arith)
                        requires
                            p < d,
                            p == d * m + p % d,
                            p % d >= 0,
                            m >= 0,
                            d > 0,
                    ;
                }
            }
            n = (p / d) as u64;
            up = low > half || (low == half && (sticky || n % 2 == 1));
        } else {
            proof {
                if sh > 128 {
                    lemma_pow2_strictly_increases(128, sh as nat);
                }
                if l < 128 {
                    lemma_pow2_strictly_increases(l as nat, 128);
                }
                lemma_cut(p as nat, g as int, sticky, f, inexact, k as nat, sh as nat, 0, p as nat);
                if sh > 129 {
                    lemma_pow2_strictly_increases(128, (sh - 1) as nat);
                }
            }
            n = 0;
            if sh == 128 {
                let half: u128 = power_of_two(127);
                up = p > half || (p == half && sticky);
            } else {
                up = false;
            }
        }
    }
    let mag: u64 = if k >= 2047 {
        INF_BITS
    } else {
        let b: u64 = (k as u64) * EXP_STEP + n + if up {
            1u64
        } else {
            0u64
        };
        if b > INF_BITS {
            INF_BITS
        } else {
            b
        }
    };
    if neg {
        sunrealtype { bits: mag + SIGN_BIT }
    } else {
        sunrealtype { bits: mag }
    }
}

} // verus!
