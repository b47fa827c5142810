//! Laws of the stop time: no attempt reaches past it.
use crate::arith::{lemma_nearest_self, lemma_signed};
use crate::arkode_codes::FUZZ_FACTOR;
use crate::arkode_evolve::{after_tstop, make_step};
use crate::arkode_impl::MemView;
use crate::binary64::{
    r_abs, r_add, r_div, r_eq, r_le, r_lt, r_mul, r_neg, r_sub, sunrealtype, units_of, EXP_STEP,
};
use crate::env::ArkEnv;
use crate::laws_pace::{law_attempt_before_tstop, law_fixed_size, step_made};
use crate::laws_rounding::{law_product_close, law_quotient_close, lemma_monotone};
use crate::sundials_types::{FOUR, ONE, SUN_UNIT_ROUNDOFF, ZERO};
use vstd::arithmetic::div_mod::lemma_fundamental_div_mod_converse;
use vstd::arithmetic::power2::{
    lemma2_to64, lemma2_to64_rest, lemma_pow2_adds, lemma_pow2_pos, lemma_pow2_unfold, pow2,
};
use vstd::prelude::*;

verus! {

/// What the distance to a stop time is multiplied by: one less four units of
/// roundoff.
pub open spec fn stop_margin() -> sunrealtype {
    r_sub(ONE(), r_mul(FOUR(), SUN_UNIT_ROUNDOFF()))
}

/// The size of a step cut at a stop time.
pub open spec fn cut_size(tcur: sunrealtype, tstop: sunrealtype) -> sunrealtype {
    r_mul(r_sub(tstop, tcur), stop_margin())
}

pub(crate) proof fn lemma_units_by_parts(mag: nat, e: nat, m: nat)
    requires
        mag == e * (EXP_STEP as nat) + m,
        m < EXP_STEP,
        e > 0,
    ensures
        units_of(mag) == (EXP_STEP as nat + m) * pow2((e - 1) as nat),
{
    reveal(units_of);
    assert(mag == (EXP_STEP as nat) * e + m) by (nonlinear_arith)
        requires
            mag == e * (EXP_STEP as nat) + m,
    ;
    lemma_fundamental_div_mod_converse(mag as int, EXP_STEP as int, e as int, m as int);
}

/// The margin is exactly `1 - 2^-50`.
proof fn lemma_margin()
    ensures
        stop_margin().is_finite(),
        !stop_margin().neg(),
        stop_margin().units() * pow2(50) == (pow2(50) - 1) * pow2(1074),
{
    lemma2_to64();
    lemma2_to64_rest();
    let four: nat = 0x4010_0000_0000_0000;
    let u: nat = 0x3cb0_0000_0000_0000;
    let p: nat = 0x3cd0_0000_0000_0000;
    let one: nat = 0x3ff0_0000_0000_0000;
    let w: nat = 0x3fef_ffff_ffff_fff8;
    lemma_units_by_parts(four, 0x401, 0);
    lemma_units_by_parts(u, 0x3cb, 0);
    lemma_units_by_parts(p, 0x3cd, 0);
    lemma_units_by_parts(one, 0x3ff, 0);
    lemma_units_by_parts(w, 0x3fe, 0xf_ffff_ffff_fff8);
    lemma_pow2_adds(52, 1024);
    lemma_pow2_adds(52, 970);
    lemma_pow2_adds(52, 972);
    lemma_pow2_adds(52, 1022);
    lemma_pow2_adds(1076, 1022);
    lemma_pow2_adds(1025, 1073);
    lemma_pow2_pos(1073);
    lemma_pow2_pos(1024);
    lemma_pow2_unfold(1025);
    let n = pow2(1076) * pow2(1022);
    assert(n == pow2(1073) * pow2(1025)) by (nonlinear_arith)
        requires
            n == pow2(2098),
            pow2(1025) * pow2(1073) == pow2(2098),
    ;
    lemma_fundamental_div_mod_converse(n as int, pow2(1073) as int, pow2(1025) as int, 0);
    lemma_nearest_self(p);
    let q = r_mul(FOUR(), SUN_UNIT_ROUNDOFF());
    assert(q.mag() == p && !q.neg()) by {
        reveal(r_mul);
        lemma_signed(false, p);
    }
    let v = r_neg(q);
    assert(v.mag() == p && v.neg()) by {
        reveal(r_neg);
        lemma_signed(true, p);
    }
    lemma_pow2_adds(50, 1024);
    lemma_pow2_adds(3, 1021);
    let s = pow2(1074) - pow2(1024);
    assert(units_of(w) == s) by (nonlinear_arith)
        requires
            units_of(w) == (0x10_0000_0000_0000nat + 0xf_ffff_ffff_fff8nat) * pow2(1021),
            s == pow2(1074) - pow2(1024),
            pow2(50) * pow2(1024) == pow2(1074),
            pow2(50) == 0x4_0000_0000_0000,
            pow2(3) * pow2(1021) == pow2(1024),
            pow2(3) == 8,
    ;
    assert(s > 0) by (nonlinear_arith)
        requires
            s == pow2(1074) - pow2(1024),
            pow2(50) * pow2(1024) == pow2(1074),
            pow2(50) == 0x4_0000_0000_0000,
            pow2(1024) > 0,
    ;
    lemma_nearest_self(w);
    assert(stop_margin().mag() == w && !stop_margin().neg()) by {
        reveal(r_sub);
        reveal(r_add);
        lemma_signed(false, w);
        assert(ONE().value() == pow2(1074));
        assert(v.value() == -(pow2(1024) as int));
    }
    assert(s * pow2(50) == (pow2(50) - 1) * pow2(1074)) by (nonlinear_arith)
        requires
            s == pow2(1074) - pow2(1024),
            pow2(50) * pow2(1024) == pow2(1074),
    ;
}

proof fn lemma_order(a: sunrealtype, b: sunrealtype)
    requires
        a.is_finite(),
        b.is_finite(),
        a.units() <= b.units(),
    ensures
        r_le(r_abs(a), r_abs(b)),
{
    lemma_nearest_self(a.mag());
    lemma_nearest_self(b.mag());
    lemma_monotone((2 * a.units()) as nat, false, (2 * b.units()) as nat, false);
    reveal(r_abs);
    reveal(r_lt);
    reveal(r_eq);
    lemma_signed(false, a.mag());
    lemma_signed(false, b.mag());
}

/// A step cut at a stop time is not longer than the distance to it, and has its
/// direction; nor is it after it has gone through the factor that leads to it,
/// divided by the last size and multiplied by it again. No intermediate result
/// may leave the range in which numbers have all their digits.
pub proof fn law_cut_within(tcur: sunrealtype, tstop: sunrealtype, h: sunrealtype)
    requires
        h.is_finite(),
        h.mag() > 0,
        r_sub(tstop, tcur).is_finite(),
        ({
            let l = cut_size(tcur, tstop);
            let q = r_div(l, h);
            let z = r_mul(h, q);
            &&& l.is_finite() && l.units() > pow2(53)
            &&& q.is_finite() && q.units() > pow2(53)
            &&& z.is_finite() && z.units() > pow2(53)
        }),
    ensures
        ({
            let d = r_sub(tstop, tcur);
            let l = cut_size(tcur, tstop);
            let z = r_mul(h, r_div(l, h));
            &&& r_le(r_abs(l), r_abs(d))
            &&& r_le(r_abs(z), r_abs(d))
            &&& l.neg() == d.neg()
            &&& z.neg() == d.neg()
        }),
{
    let dd = r_sub(tstop, tcur);
    let w = stop_margin();
    let ll = cut_size(tcur, tstop);
    let qq = r_div(ll, h);
    let zz = r_mul(h, qq);
    lemma_margin();
    law_product_close(dd, w);
    law_quotient_close(ll, h);
    law_product_close(h, qq);
    lemma2_to64();
    lemma2_to64_rest();
    let d = dd.units() as int;
    let f = w.units() as int;
    let l = ll.units() as int;
    let q = qq.units() as int;
    let z = zz.units() as int;
    let x = h.units() as int;
    let p = pow2(1074) as int;
    let a = pow2(53) as int;
    let b = pow2(50) as int;
    lemma_pow2_pos(1074);
    assert(a == 0x20_0000_0000_0000 && b == 0x4_0000_0000_0000);
    assert(d >= 0 && l >= 0 && q >= 0 && z >= 0 && x >= 0);
    let df = d * f;
    assert((l * p) * a <= df * a + df) by (nonlinear_arith)
        requires
            (l * p - df) * a <= df,
    ;
    assert(df * b == (d * (b - 1)) * p) by (nonlinear_arith)
        requires
            df == d * f,
            f * b == (b - 1) * p,
    ;
    assert((l * a * b) * p <= (d * (b - 1) * (a + 1)) * p) by (nonlinear_arith)
        requires
            (l * p) * a <= df * a + df,
            df * b == (d * (b - 1)) * p,
            b > 0,
    ;
    assert(l * a * b <= d * (b - 1) * (a + 1)) by (nonlinear_arith)
        requires
            (l * a * b) * p <= (d * (b - 1) * (a + 1)) * p,
            p > 0,
    ;
    let lp = l * p;
    assert(q * x * a <= lp * a + lp) by (nonlinear_arith)
        requires
            (q * x - lp) * a <= lp,
    ;
    let hq = x * q;
    assert((z * p) * a <= hq * a + hq) by (nonlinear_arith)
        requires
            (z * p - hq) * a <= hq,
    ;
    assert((z * a * a) * p <= (l * (a + 1) * (a + 1)) * p) by (nonlinear_arith)
        requires
            (z * p) * a <= hq * a + hq,
            hq == x * q,
            q * x * a <= lp * a + lp,
            lp == l * p,
            a > 0,
    ;
    assert(z * a * a <= l * (a + 1) * (a + 1)) by (nonlinear_arith)
        requires
            (z * a * a) * p <= (l * (a + 1) * (a + 1)) * p,
            p > 0,
    ;
    assert((b - 1) * (a + 1) <= a * b) by (nonlinear_arith)
        requires
            a == 0x20_0000_0000_0000,
            b == 0x4_0000_0000_0000,
    ;
    assert(l <= d) by (nonlinear_arith)
        requires
            l * a * b <= d * (b - 1) * (a + 1),
            (b - 1) * (a + 1) <= a * b,
            a * b > 0,
            d >= 0,
    ;
    let t = (a + 1) * (a + 1) * (a + 1) * (b - 1);
    let m = a * a * a * b;
    assert(t <= m) by (nonlinear_arith)
        requires
            t == (a + 1) * (a + 1) * (a + 1) * (b - 1),
            m == a * a * a * b,
            a == 0x20_0000_0000_0000,
            b == 0x4_0000_0000_0000,
    ;
    assert(z * m <= (l * a * b) * ((a + 1) * (a + 1))) by (nonlinear_arith)
        requires
            z * a * a <= l * (a + 1) * (a + 1),
            m == a * a * a * b,
            a > 0,
            b > 0,
    ;
    assert((l * a * b) * ((a + 1) * (a + 1)) <= d * t) by (nonlinear_arith)
        requires
            l * a * b <= d * (b - 1) * (a + 1),
            t == (a + 1) * (a + 1) * (a + 1) * (b - 1),
            a > 0,
    ;
    assert(m > 0) by (nonlinear_arith)
        requires
            m == a * a * a * b,
            a == 0x20_0000_0000_0000,
            b == 0x4_0000_0000_0000,
    ;
    assert(z <= d) by (nonlinear_arith)
        requires
            z * m <= d * t,
            t <= m,
            m > 0,
            d >= 0,
    ;
    lemma_order(ll, dd);
    lemma_order(zz, dd);
}

/// With a stop time ahead that the proposal would overtake, the next attempt is
/// not longer than the distance to the stop time, and goes towards it. Sizes and
/// distances may not leave the range in which numbers have all their digits.
pub proof fn law_no_attempt_past_tstop<E: ArkEnv>(
    m: MemView,
    e: E,
    tout: sunrealtype,
    tret: sunrealtype,
)
    requires
        !m.lim().fixedstep,
        m.lim().uround == SUN_UNIT_ROUNDOFF(),
        m.stp().tstopset,
        !r_le(
            r_abs(r_sub(m.stp().tcur, m.stp().tstop)),
            r_mul(
                r_mul(FUZZ_FACTOR(), m.lim().uround),
                r_add(r_abs(m.stp().tcur), r_abs(m.stp().h)),
            ),
        ),
        r_lt(
            ZERO(),
            r_mul(r_sub(r_add(m.stp().tcur, m.stp().hprime), m.stp().tstop), m.stp().h),
        ),
        ({
            let s = m.stp();
            let l = cut_size(s.tcur, s.tstop);
            let q = r_div(l, s.h);
            let z = r_mul(s.h, q);
            &&& s.h.is_finite()
            &&& s.h.mag() > 0
            &&& r_sub(s.tstop, s.tcur).is_finite()
            &&& l.is_finite() && l.units() > pow2(53)
            &&& q.is_finite() && q.units() > pow2(53)
            &&& z.is_finite() && z.units() > pow2(53)
        }),
    ensures
        ({
            let b = after_tstop(m, e, tout, tret).m;
            let d = r_sub(m.stp().tstop, m.stp().tcur);
            exists|z: MemView|
                {
                    &&& #[trigger] step_made(z, e, tret, make_step(b, e, tret))
                    &&& z.stp().tcur == m.stp().tcur
                    &&& r_le(r_abs(z.stp().h), r_abs(d))
                    &&& z.stp().h.neg() == d.neg()
                }
        }),
{
    let s = m.stp();
    law_attempt_before_tstop(m, e, tout, tret);
    law_cut_within(s.tcur, s.tstop, s.h);
    let b = after_tstop(m, e, tout, tret).m;
    let l = cut_size(s.tcur, s.tstop);
    let z = choose|z: MemView|
        {
            &&& #[trigger] step_made(z, e, tret, make_step(b, e, tret))
            &&& z.stp().tcur == s.tcur
            &&& z.stp().h == r_mul(s.h, r_div(l, s.h)) || (z.stp().h == s.h && r_eq(l, s.h))
        };
    if z.stp().h != r_mul(s.h, r_div(l, s.h)) {
        assert(s.h.mag() == l.mag() && s.h.neg() == l.neg()) by {
            reveal(r_eq);
        }
        assert(r_abs(s.h) == r_abs(l)) by {
            reveal(r_abs);
        }
    }
}

/// A fixed step that would overtake the stop time is cut to no more than the
/// distance to it, in its direction.
pub proof fn law_no_fixed_step_past_tstop<E: ArkEnv>(m: MemView, e: E, tret: sunrealtype)
    requires
        m.lim().fixedstep,
        m.lim().uround == SUN_UNIT_ROUNDOFF(),
        m.stp().tstopset,
        r_lt(
            ZERO(),
            r_mul(r_sub(r_add(m.stp().tcur, m.stp().hin), m.stp().tstop), m.stp().hin),
        ),
        r_sub(m.stp().tstop, m.stp().tcur).is_finite(),
        cut_size(m.stp().tcur, m.stp().tstop).is_finite(),
        cut_size(m.stp().tcur, m.stp().tstop).units() > pow2(53),
    ensures
        exists|z: MemView|
            {
                let d = r_sub(m.stp().tstop, m.stp().tcur);
                &&& #[trigger] step_made(z, e, tret, make_step(m, e, tret))
                &&& z.stp().tcur == m.stp().tcur
                &&& r_le(r_abs(z.stp().h), r_abs(d))
                &&& z.stp().h.neg() == d.neg()
            },
{
    law_fixed_size(m, e, tret);
    let d = r_sub(m.stp().tstop, m.stp().tcur);
    let l = cut_size(m.stp().tcur, m.stp().tstop);
    lemma_margin();
    law_product_close(d, stop_margin());
    lemma2_to64();
    lemma2_to64_rest();
    lemma_pow2_pos(1074);
    let u = d.units() as int;
    let f = stop_margin().units() as int;
    let x = l.units() as int;
    let p = pow2(1074) as int;
    let a = pow2(53) as int;
    let b = pow2(50) as int;
    let uf = u * f;
    assert((x * p) * a <= uf * a + uf) by (nonlinear_arith)
        requires
            (x * p - uf) * a <= uf,
    ;
    assert(uf * b == (u * (b - 1)) * p) by (nonlinear_arith)
        requires
            uf == u * f,
            f * b == (b - 1) * p,
    ;
    assert((x * a * b) * p <= (u * (b - 1) * (a + 1)) * p) by (nonlinear_arith)
        requires
            (x * p) * a <= uf * a + uf,
            uf * b == (u * (b - 1)) * p,
            b > 0,
    ;
    assert(x * a * b <= u * (b - 1) * (a + 1)) by (nonlinear_arith)
        requires
            (x * a * b) * p <= (u * (b - 1) * (a + 1)) * p,
            p > 0,
    ;
    assert((b - 1) * (a + 1) <= a * b) by (nonlinear_arith)
        requires
            a == 0x20_0000_0000_0000,
            b == 0x4_0000_0000_0000,
    ;
    assert(x <= u) by (nonlinear_arith)
        requires
            x * a * b <= u * (b - 1) * (a + 1),
            (b - 1) * (a + 1) <= a * b,
            a * b > 0,
            u >= 0,
    ;
    lemma_order(l, d);
}

} // verus!
