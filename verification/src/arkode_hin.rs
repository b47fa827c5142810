//! Estimation of the first step.
use crate::arith::negate;
use crate::arkode_codes::{
    ARK_FULLRHS_OTHER, ARK_FULLRHS_START, ARK_ILL_INPUT, ARK_REPTD_RHSFUNC_ERR, ARK_RHSFUNC_FAIL,
    ARK_SUCCESS, H0_BIAS, H0_ITERS, H0_LBFACTOR, H0_UBFACTOR, ONE_FIFTH, RHSFUNC_RECVR,
};
use crate::arkode_impl::{ARKodeMemRec, ArkFlags, ArkStep, EwtFn, MemView};
use crate::arkode_mem::{put_flg, put_fn_, put_stp, put_tempv1, put_tempv2, put_ycur, put_yn};
use crate::arkode_tol::{ark_call_efun, call_efun};
use crate::binary64::{r_abs, r_div, r_lt, r_mul, r_neg, r_sub, sunrealtype};
use crate::env::ArkEnv;
use crate::mristep_rhs::{full_rhs, mriStep_FullRHS};
use crate::nvector::{
    copy_vector, max_abs, v_abs, v_div, v_inv, v_lin, v_scale, v_wrms, NVec, N_VAbs, N_VDiv, N_VInv,
    N_VLinearSum, N_VMaxNorm, N_VScale, N_VWrmsNorm, N_Vector,
};
use crate::outcome::{Run, RunYF};
use crate::sundials_math::{r_guarded_sqrt, r_max, real_max, SUNRabs, SUNRsqrt};
use crate::sundials_types::{HALF, ONE, TWO, ZERO};
use vstd::prelude::*;

verus! {

broadcast use crate::order::group_order;

/// The stepper's full right-hand side; refused where it has none.
#[verifier::opaque]
pub open spec fn step_fullrhs<E: ArkEnv>(
    m: MemView,
    e: E,
    t: sunrealtype,
    y: NVec,
    f: NVec,
    mode: i32,
) -> RunYF<E> {
    if m.ops().fullrhs {
        full_rhs(m, e, t, y, f, mode)
    } else {
        RunYF { m, e, y, f, flag: ARK_ILL_INPUT }
    }
}

/// Calls the stepper's full right-hand side.
pub fn ark_step_fullrhs<E: ArkEnv>(
    ark_mem: &mut ARKodeMemRec,
    env: &mut E,
    t: sunrealtype,
    y: &mut N_Vector,
    f: &mut N_Vector,
    mode: i32,
) -> (flag: i32)
    ensures
        ({
            let o = step_fullrhs(old(ark_mem)@, *old(env), t, old(y)@, old(f)@, mode);
            &&& final(ark_mem)@ == o.m
            &&& *final(env) == o.e
            &&& final(y)@ == o.y
            &&& final(f)@ == o.f
            &&& flag == o.flag
        }),
{
    reveal(step_fullrhs);
    if ark_mem.get_ops().fullrhs {
        mriStep_FullRHS(ark_mem, env, t, y, f, mode)
    } else {
        ARK_ILL_INPUT
    }
}

/// The stored right-hand side at the last solution brought up to date where
/// it is stale.
#[verifier::opaque]
pub open spec fn refresh_fn<E: ArkEnv>(m: MemView, e: E, mode: i32) -> Run<E> {
    if m.flg().fn_is_current {
        Run { m, e, flag: ARK_SUCCESS }
    } else {
        let r = step_fullrhs(m, e, m.stp().tn, m.yn(), m.fn_(), mode);
        let m1 = put_fn_(put_yn(r.m, r.y), r.f);
        if r.flag != 0 {
            Run { m: m1, e: r.e, flag: ARK_RHSFUNC_FAIL }
        } else {
            Run {
                m: put_flg(m1, ArkFlags { fn_is_current: true, ..m1.flg() }),
                e: r.e,
                flag: ARK_SUCCESS,
            }
        }
    }
}

/// Brings the stored right-hand side up to date.
pub fn ark_refresh_fn<E: ArkEnv>(ark_mem: &mut ARKodeMemRec, env: &mut E, mode: i32) -> (flag: i32)
    ensures
        final(ark_mem)@ == refresh_fn(old(ark_mem)@, *old(env), mode).m,
        *final(env) == refresh_fn(old(ark_mem)@, *old(env), mode).e,
        flag == refresh_fn(old(ark_mem)@, *old(env), mode).flag,
{
    reveal(refresh_fn);
    if ark_mem.get_flg().fn_is_current {
        return ARK_SUCCESS;
    }
    let t: sunrealtype = ark_mem.get_stp().tn;
    let mut y: N_Vector = ark_mem.get_yn();
    let mut f: N_Vector = ark_mem.get_fn_();
    let retval: i32 = ark_step_fullrhs(ark_mem, env, t, &mut y, &mut f, mode);
    ark_mem.set_yn(y);
    ark_mem.set_fn_(f);
    if retval != 0 {
        return ARK_RHSFUNC_FAIL;
    }
    let g: ArkFlags = ark_mem.get_flg();
    ark_mem.set_flg(ArkFlags { fn_is_current: true, ..g });
    ARK_SUCCESS
}

/// Memory, environment and a number.
pub struct NumOut<E> {
    pub m: MemView,
    pub e: E,
    pub x: sunrealtype,
}

/// The weights that bound the first step: those of the error weight function
/// at the last solution, or what a built-in function that fails leaves in the
/// scratch vector.
#[verifier::opaque]
pub open spec fn bound_weights<E: ArkEnv>(m: MemView, e: E) -> Run<E> {
    let r = call_efun(m, e, m.yn(), m.tempv1());
    let user = m.tol().efun matches Some(EwtFn::User(_)) || m.tol().efun is None;
    if r.flag == 0 || user {
        Run { m: put_tempv1(r.m, r.w), e: r.e, flag: r.flag }
    } else {
        Run { m: r.m, e: r.e, flag: r.flag }
    }
}

fn ark_bound_weights<E: ArkEnv>(ark_mem: &mut ARKodeMemRec, env: &mut E)
    ensures
        final(ark_mem)@ == bound_weights(old(ark_mem)@, *old(env)).m,
        *final(env) == bound_weights(old(ark_mem)@, *old(env)).e,
{
    reveal(bound_weights);
    let user: bool = match ark_mem.get_tol().efun {
        Some(EwtFn::User(_)) => true,
        None => true,
        _ => false,
    };
    let y: N_Vector = ark_mem.get_yn();
    let mut w: N_Vector = ark_mem.get_tempv1();
    let flag: i32 = ark_call_efun(ark_mem, env, &y, &mut w);
    if flag == 0 || user {
        ark_mem.set_tempv1(w);
    }
}

/// The largest relative change per unit of time that the last solution shows.
#[verifier::opaque]
pub open spec fn change_rate(m: MemView) -> (MemView, sunrealtype) {
    let inv = v_inv(m.tempv1(), m.tempv1());
    let a = v_lin(H0_UBFACTOR(), m.tempv2(), ONE(), inv, inv);
    let b = v_abs(m.fn_(), m.tempv2());
    let c = v_div(b, a, a);
    (put_tempv1(put_tempv2(m, b), c), max_abs(c, c.data.len()))
}

fn ark_change_rate(ark_mem: &mut ARKodeMemRec) -> (x: sunrealtype)
    ensures
        final(ark_mem)@ == change_rate(old(ark_mem)@).0,
        x == change_rate(old(ark_mem)@).1,
{
    reveal(change_rate);
    let t1: N_Vector = ark_mem.get_tempv1();
    let t2: N_Vector = ark_mem.get_tempv2();
    let inv: N_Vector = N_VInv(&t1, &t1);
    let a: N_Vector = N_VLinearSum(H0_UBFACTOR(), &t2, ONE(), &inv, &inv);
    let b: N_Vector = N_VAbs(&ark_mem.get_fn_(), &t2);
    let c: N_Vector = N_VDiv(&b, &a, &a);
    let x: sunrealtype = N_VMaxNorm(&c);
    ark_mem.set_tempv2(b);
    ark_mem.set_tempv1(c);
    x
}

/// Upper bound on the first step: a tenth of the interval, and no more than
/// changes the solution by a tenth.
#[verifier::opaque]
pub open spec fn upper_bound_h0<E: ArkEnv>(m: MemView, e: E, tdist: sunrealtype) -> NumOut<E> {
    let w = bound_weights(put_tempv2(m, v_abs(m.yn(), m.tempv2())), e);
    let r = change_rate(w.m);
    let hub = r_mul(H0_UBFACTOR(), tdist);
    NumOut {
        m: r.0,
        e: w.e,
        x: if r_lt(ONE(), r_mul(hub, r.1)) {
            r_div(ONE(), r.1)
        } else {
            hub
        },
    }
}

/// Bounds the first step from above.
pub fn arkUpperBoundH0<E: ArkEnv>(ark_mem: &mut ARKodeMemRec, env: &mut E, tdist: sunrealtype) -> (hub:
    sunrealtype)
    ensures
        final(ark_mem)@ == upper_bound_h0(old(ark_mem)@, *old(env), tdist).m,
        *final(env) == upper_bound_h0(old(ark_mem)@, *old(env), tdist).e,
        hub == upper_bound_h0(old(ark_mem)@, *old(env), tdist).x,
{
    reveal(upper_bound_h0);
    let a: N_Vector = N_VAbs(&ark_mem.get_yn(), &ark_mem.get_tempv2());
    ark_mem.set_tempv2(a);
    ark_bound_weights(ark_mem, env);
    let rate: sunrealtype = ark_change_rate(ark_mem);
    let hub: sunrealtype = H0_UBFACTOR() * tdist;
    if hub * rate > ONE() {
        ONE() / rate
    } else {
        hub
    }
}

/// Memory, environment, second derivative norm and flag.
pub struct YddOut<E> {
    pub m: MemView,
    pub e: E,
    pub x: sunrealtype,
    pub flag: i32,
}

/// The norm of the second derivative, from a difference quotient over a trial
/// step `hg`. A failing right-hand side ends it: for good when the failure is
/// negative, recoverably when it is positive.
#[verifier::opaque]
pub open spec fn ydd_norm<E: ArkEnv>(m: MemView, e: E, hg: sunrealtype, x: sunrealtype) -> YddOut<E> {
    let y1 = v_lin(hg, m.fn_(), ONE(), m.yn(), m.ycur());
    let r = step_fullrhs(
        put_ycur(m, y1),
        e,
        crate::binary64::r_add(m.stp().tcur, hg),
        y1,
        m.tempv1(),
        ARK_FULLRHS_OTHER,
    );
    let m1 = put_tempv1(put_ycur(r.m, r.y), r.f);
    if r.flag < 0 {
        YddOut { m: m1, e: r.e, x, flag: ARK_RHSFUNC_FAIL }
    } else if r.flag > 0 {
        YddOut { m: m1, e: r.e, x, flag: RHSFUNC_RECVR }
    } else {
        let d = v_lin(
            r_div(ONE(), hg),
            m1.tempv1(),
            r_div(r_neg(ONE()), hg),
            m1.fn_(),
            m1.tempv1(),
        );
        let m2 = put_tempv1(m1, d);
        YddOut {
            m: put_ycur(m2, v_scale(ONE(), m2.yn(), m2.ycur())),
            e: r.e,
            x: v_wrms(d, m2.ewt()),
            flag: ARK_SUCCESS,
        }
    }
}

/// Estimates the norm of the second derivative.
pub fn arkYddNorm<E: ArkEnv>(
    ark_mem: &mut ARKodeMemRec,
    env: &mut E,
    hg: sunrealtype,
    yddnrm: &mut sunrealtype,
) -> (flag: i32)
    ensures
        ({
            let o = ydd_norm(old(ark_mem)@, *old(env), hg, *old(yddnrm));
            &&& final(ark_mem)@ == o.m
            &&& *final(env) == o.e
            &&& *final(yddnrm) == o.x
            &&& flag == o.flag
        }),
{
    reveal(ydd_norm);
    let mut f: N_Vector = ark_mem.get_tempv1();
    let t: sunrealtype = ark_mem.get_stp().tcur + hg;
    let mut y: N_Vector = N_VLinearSum(
        hg,
        &ark_mem.get_fn_(),
        ONE(),
        &ark_mem.get_yn(),
        &ark_mem.get_ycur(),
    );
    ark_mem.set_ycur(copy_vector(&y));
    let retval: i32 = ark_step_fullrhs(ark_mem, env, t, &mut y, &mut f, ARK_FULLRHS_OTHER);
    ark_mem.set_ycur(y);
    ark_mem.set_tempv1(f);
    if retval < 0 {
        return ARK_RHSFUNC_FAIL;
    }
    if retval > 0 {
        return RHSFUNC_RECVR;
    }
    let t1: N_Vector = ark_mem.get_tempv1();
    let d: N_Vector = N_VLinearSum(
        ONE() / hg,
        &t1,
        negate(ONE()) / hg,
        &ark_mem.get_fn_(),
        &t1,
    );
    ark_mem.set_tempv1(copy_vector(&d));
    *yddnrm = N_VWrmsNorm(&d, &ark_mem.get_ewt());
    let y: N_Vector = N_VScale(ONE(), &ark_mem.get_yn(), &ark_mem.get_ycur());
    ark_mem.set_ycur(y);
    ARK_SUCCESS
}

/// Outcome of the attempts at one trial step.
pub struct TryOut<E> {
    pub m: MemView,
    pub e: E,
    pub hg: sunrealtype,
    pub x: sunrealtype,
    pub flag: i32,
}

/// A trial step is shortened to a fifth after each recoverable failure, up to
/// `left` attempts; the flag is positive when all failed.
pub open spec fn try_hg<E: ArkEnv>(
    m: MemView,
    e: E,
    hg: sunrealtype,
    x: sunrealtype,
    sign: sunrealtype,
    left: nat,
) -> TryOut<E>
    decreases left,
{
    if left == 0 {
        TryOut { m, e, hg, x, flag: RHSFUNC_RECVR }
    } else {
        let r = ydd_norm(m, e, r_mul(hg, sign), x);
        if r.flag <= 0 {
            TryOut { m: r.m, e: r.e, hg, x: r.x, flag: r.flag }
        } else {
            try_hg(r.m, r.e, r_mul(hg, ONE_FIFTH()), r.x, sign, (left - 1) as nat)
        }
    }
}

fn ark_try_hg<E: ArkEnv>(
    ark_mem: &mut ARKodeMemRec,
    env: &mut E,
    hg: &mut sunrealtype,
    yddnrm: &mut sunrealtype,
    sign: sunrealtype,
) -> (flag: i32)
    ensures
        ({
            let o = try_hg(
                old(ark_mem)@,
                *old(env),
                *old(hg),
                *old(yddnrm),
                sign,
                H0_ITERS as nat,
            );
            &&& final(ark_mem)@ == o.m
            &&& *final(env) == o.e
            &&& *final(hg) == o.hg
            &&& *final(yddnrm) == o.x
            &&& flag == o.flag
        }),
{
    let mut left: i32 = H0_ITERS;
    while left > 0
        invariant
            0 <= left <= H0_ITERS,
            try_hg(
                old(ark_mem)@,
                *old(env),
                *old(hg),
                *old(yddnrm),
                sign,
                H0_ITERS as nat,
            ) == try_hg(ark_mem@, *env, *hg, *yddnrm, sign, left as nat),
        decreases left,
    {
        let retval: i32 = arkYddNorm(ark_mem, env, *hg * sign, yddnrm);
        if retval <= 0 {
            return retval;
        }
        *hg = *hg * ONE_FIFTH();
        left = left - 1;
    }
    RHSFUNC_RECVR
}

/// Outcome of the search for the first step.
pub struct SearchOut<E> {
    pub m: MemView,
    pub e: E,
    pub hnew: sunrealtype,
    pub flag: i32,
}

/// The next proposal for the first step.
#[verifier::opaque]
pub open spec fn propose(hg: sunrealtype, hub: sunrealtype, ydd: sunrealtype) -> sunrealtype {
    if r_lt(TWO(), r_mul(r_mul(ydd, hub), hub)) {
        r_guarded_sqrt(r_div(TWO(), ydd))
    } else {
        r_guarded_sqrt(r_mul(hg, hub))
    }
}

fn propose_step(hg: sunrealtype, hub: sunrealtype, ydd: sunrealtype) -> (r: sunrealtype)
    ensures
        r == propose(hg, hub, ydd),
{
    reveal(propose);
    if ydd * hub * hub > TWO() {
        SUNRsqrt(TWO() / ydd)
    } else {
        SUNRsqrt(hg * hub)
    }
}

/// Passes `count` to the last of the search: a proposal is taken on the last
/// pass, when it is within a factor of two of the trial step, and dropped for
/// the trial step when it more than doubles after the first pass. When the
/// right-hand side keeps failing the last good step is taken, if there was one.
pub open spec fn search_h0<E: ArkEnv>(
    m: MemView,
    e: E,
    hg: sunrealtype,
    hs: sunrealtype,
    x: sunrealtype,
    hub: sunrealtype,
    sign: sunrealtype,
    count: int,
) -> SearchOut<E>
    decreases H0_ITERS - count,
{
    let r = try_hg(m, e, hg, x, sign, H0_ITERS as nat);
    let hnew = propose(r.hg, hub, r.x);
    let hrat = r_div(hnew, r.hg);
    if r.flag < 0 {
        SearchOut { m: r.m, e: r.e, hnew: hs, flag: ARK_RHSFUNC_FAIL }
    } else if r.flag > 0 && count <= 2 {
        SearchOut { m: r.m, e: r.e, hnew: hs, flag: ARK_REPTD_RHSFUNC_ERR }
    } else if r.flag > 0 {
        SearchOut { m: r.m, e: r.e, hnew: hs, flag: ARK_SUCCESS }
    } else if count >= H0_ITERS || (r_lt(HALF(), hrat) && r_lt(hrat, TWO())) {
        SearchOut { m: r.m, e: r.e, hnew, flag: ARK_SUCCESS }
    } else if count > 1 && r_lt(TWO(), hrat) {
        SearchOut { m: r.m, e: r.e, hnew: r.hg, flag: ARK_SUCCESS }
    } else {
        search_h0(r.m, r.e, hnew, r.hg, r.x, hub, sign, count + 1)
    }
}

fn ark_search_h0<E: ArkEnv>(
    ark_mem: &mut ARKodeMemRec,
    env: &mut E,
    hg0: sunrealtype,
    hub: sunrealtype,
    sign: sunrealtype,
    hout: &mut sunrealtype,
) -> (flag: i32)
    ensures
        ({
            let o = search_h0(old(ark_mem)@, *old(env), hg0, hg0, ZERO(), hub, sign, 1);
            &&& final(ark_mem)@ == o.m
            &&& *final(env) == o.e
            &&& *final(hout) == o.hnew
            &&& flag == o.flag
        }),
{
    let ghost goal = search_h0(ark_mem@, *env, hg0, hg0, ZERO(), hub, sign, 1);
    let mut hg: sunrealtype = hg0;
    let mut hs: sunrealtype = hg0;
    let mut x: sunrealtype = ZERO();
    let mut count: i32 = 1;
    loop
        invariant
            1 <= count <= H0_ITERS,
            goal == search_h0(ark_mem@, *env, hg, hs, x, hub, sign, count as int),
            goal == search_h0(old(ark_mem)@, *old(env), hg0, hg0, ZERO(), hub, sign, 1),
        decreases H0_ITERS - count,
    {
        let retval: i32 = ark_try_hg(ark_mem, env, &mut hg, &mut x, sign);
        if retval < 0 {
            *hout = hs;
            return ARK_RHSFUNC_FAIL;
        }
        if retval > 0 {
            *hout = hs;
            if count <= 2 {
                return ARK_REPTD_RHSFUNC_ERR;
            }
            return ARK_SUCCESS;
        }
        let hnew: sunrealtype = propose_step(hg, hub, x);
        let hrat: sunrealtype = hnew / hg;
        if count >= H0_ITERS || (hrat > HALF() && hrat < TWO()) {
            *hout = hnew;
            return ARK_SUCCESS;
        }
        if count > 1 && hrat > TWO() {
            *hout = hg;
            return ARK_SUCCESS;
        }
        hs = hg;
        hg = hnew;
        count = count + 1;
    }
}

/// The memory with a new step size.
#[verifier::opaque]
pub open spec fn with_h(m: MemView, h: sunrealtype) -> MemView {
    put_stp(m, ArkStep { h, ..m.stp() })
}

pub fn set_h(ark_mem: &mut ARKodeMemRec, h: sunrealtype)
    ensures
        final(ark_mem)@ == with_h(old(ark_mem)@, h),
{
    reveal(with_h);
    let s: ArkStep = ark_mem.get_stp();
    ark_mem.set_stp(ArkStep { h, ..s });
}

/// The biased step between its bounds, with the direction of integration.
#[verifier::opaque]
pub open spec fn finish_h0(hnew: sunrealtype, hlb: sunrealtype, hub: sunrealtype, forward: bool) -> sunrealtype {
    let a = r_mul(H0_BIAS(), hnew);
    let b = if r_lt(a, hlb) {
        hlb
    } else {
        a
    };
    let c = if r_lt(hub, b) {
        hub
    } else {
        b
    };
    if forward {
        c
    } else {
        r_neg(c)
    }
}

fn finish_step(hnew: sunrealtype, hlb: sunrealtype, hub: sunrealtype, forward: bool) -> (r: sunrealtype)
    ensures
        r == finish_h0(hnew, hlb, hub, forward),
{
    reveal(finish_h0);
    let mut h0: sunrealtype = H0_BIAS() * hnew;
    if h0 < hlb {
        h0 = hlb;
    }
    if h0 > hub {
        h0 = hub;
    }
    if forward {
        h0
    } else {
        negate(h0)
    }
}

/// The first step: the stored right-hand side is brought up to date, bounds
/// are set, their geometric mean starts the search, and the result is biased
/// and kept between the bounds. Bounds that cross give their mean at once.
#[verifier::opaque]
pub open spec fn hin<E: ArkEnv>(m: MemView, e: E, tout: sunrealtype) -> Run<E> {
    let tcur = m.stp().tcur;
    let tdiff = r_sub(tout, tcur);
    let forward = r_lt(ZERO(), tdiff);
    let sign = if forward {
        ONE()
    } else {
        r_neg(ONE())
    };
    let tround = r_mul(m.lim().uround, r_max(r_abs(tcur), r_abs(tout)));
    let hlb = r_mul(H0_LBFACTOR(), tround);
    let f = refresh_fn(m, e, ARK_FULLRHS_START);
    let b = upper_bound_h0(f.m, f.e, r_abs(tdiff));
    let hg = r_guarded_sqrt(r_mul(hlb, b.x));
    if f.flag != 0 {
        Run { m: f.m, e: f.e, flag: ARK_RHSFUNC_FAIL }
    } else if r_lt(b.x, hlb) {
        Run {
            m: with_h(
                b.m,
                if forward {
                    hg
                } else {
                    r_neg(hg)
                },
            ),
            e: b.e,
            flag: ARK_SUCCESS,
        }
    } else {
        let s = search_h0(b.m, b.e, hg, hg, ZERO(), b.x, sign, 1);
        if s.flag != ARK_SUCCESS {
            Run { m: s.m, e: s.e, flag: s.flag }
        } else {
            Run {
                m: with_h(s.m, finish_h0(s.hnew, hlb, b.x, forward)),
                e: s.e,
                flag: ARK_SUCCESS,
            }
        }
    }
}

/// Chooses the first step towards `tout`.
pub fn arkHin<E: ArkEnv>(ark_mem: &mut ARKodeMemRec, env: &mut E, tout: sunrealtype) -> (flag: i32)
    ensures
        final(ark_mem)@ == hin(old(ark_mem)@, *old(env), tout).m,
        *final(env) == hin(old(ark_mem)@, *old(env), tout).e,
        flag == hin(old(ark_mem)@, *old(env), tout).flag,
{
    reveal(hin);
    let tcur: sunrealtype = ark_mem.get_stp().tcur;
    let tdiff: sunrealtype = tout - tcur;
    let forward: bool = tdiff > ZERO();
    let sign: sunrealtype = if forward {
        ONE()
    } else {
        negate(ONE())
    };
    let tround: sunrealtype = ark_mem.get_lim().uround * real_max(SUNRabs(tcur), SUNRabs(tout));
    let retval: i32 = ark_refresh_fn(ark_mem, env, ARK_FULLRHS_START);
    if retval != 0 {
        return ARK_RHSFUNC_FAIL;
    }
    let hlb: sunrealtype = H0_LBFACTOR() * tround;
    let hub: sunrealtype = arkUpperBoundH0(ark_mem, env, SUNRabs(tdiff));
    let hg: sunrealtype = SUNRsqrt(hlb * hub);
    if hub < hlb {
        if forward {
            set_h(ark_mem, hg);
        } else {
            set_h(ark_mem, negate(hg));
        }
        return ARK_SUCCESS;
    }
    let mut hnew: sunrealtype = ZERO();
    let retval: i32 = ark_search_h0(ark_mem, env, hg, hub, sign, &mut hnew);
    if retval != ARK_SUCCESS {
        return retval;
    }
    set_h(ark_mem, finish_step(hnew, hlb, hub, forward));
    ARK_SUCCESS
}

} // verus!
