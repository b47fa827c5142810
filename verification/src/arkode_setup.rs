//! What the integrator prepares before its first step.
use crate::arkode_checks::{arkCheckNvectorOptional, arkHandleFailure, handle_failure, vector_suits};
use crate::arkode_codes::{
    ARK_ILL_INPUT, ARK_INTERP_LAGRANGE, ARK_INTERP_NONE, ARK_MEM_FAIL, ARK_STEP_H0_FAIL,
    ARK_SUCCESS, ARK_TOO_CLOSE,
};
use crate::arkode_hin::{arkHin, hin, set_h, with_h};
use crate::arkode_impl::{ARKodeMemRec, ArkFlags, ArkLimits, ArkParts, ArkStep, HAdaptMem, MemView};
use crate::arkode_mem::{put_ewt, put_flg, put_fn_, put_hadapt, put_rwt, put_stp, put_tempv1};
use crate::arkode_step::{set_usual_growth, usual_growth};
use crate::arkode_stop::{ark_root_count, limit_to_tstop, limited_to_tstop, root_count};
use crate::arkode_tol::{ark_call_efun, ark_call_rfun, call_efun, call_rfun};
use crate::arkode_vectors::{alloc_vec, arkAllocVec, arkFreeVec, free_vec};
use crate::binary64::{r_abs, r_add, r_div, r_eq, r_le, r_lt, r_mul, r_sub, sunrealtype};
use crate::env::{ArkEnv, ModuleCall};
use crate::mristep_init::{mriStep_Init, mri_init};
use crate::mristep_ops::{compute_h0, mriStep_ComputeH0};
use crate::nvector::{all_hold, v_mask, N_VConstrMask, N_Vector};
use crate::outcome::{call_module, module_run, Run};
use crate::sundials_math::{r_max, SUNMAX, SUNRabs};
use crate::sundials_types::{FOUR, ONE, TWO, ZERO};
use vstd::prelude::*;

verus! {

broadcast use crate::order::group_order;

/// Whether `tout` is too close to the current time to start an integration.
#[verifier::opaque]
pub open spec fn too_close(tcur: sunrealtype, tout: sunrealtype, uround: sunrealtype) -> bool {
    let tdist = r_abs(r_sub(tout, tcur));
    let tround = r_mul(uround, r_max(r_abs(tcur), r_abs(tout)));
    r_eq(tdist, ZERO()) || r_lt(tdist, r_mul(TWO(), tround))
}

fn is_too_close(tcur: sunrealtype, tout: sunrealtype, uround: sunrealtype) -> (r: bool)
    ensures
        r == too_close(tcur, tout, uround),
{
    reveal(too_close);
    let tdist: sunrealtype = SUNRabs(tout - tcur);
    let tround: sunrealtype = uround * SUNMAX(SUNRabs(tcur), SUNRabs(tout));
    tdist == ZERO() || tdist < TWO() * tround
}

/// Whether the stop time, where there is one, lies behind the direction of
/// integration.
#[verifier::opaque]
pub open spec fn tstop_behind(s: ArkStep, tout: sunrealtype) -> bool {
    let h = if r_eq(s.h, ZERO()) {
        r_sub(tout, s.tcur)
    } else {
        s.h
    };
    s.tstopset && r_le(r_mul(r_sub(s.tstop, s.tcur), h), ZERO())
}

fn is_tstop_behind(s: ArkStep, tout: sunrealtype) -> (r: bool)
    ensures
        r == tstop_behind(s, tout),
{
    reveal(tstop_behind);
    let h: sunrealtype = if s.h == ZERO() {
        tout - s.tcur
    } else {
        s.h
    };
    s.tstopset && (s.tstop - s.tcur) * h <= ZERO()
}

/// The input tests of the setup: distance to `tout`, step of a fixed-step
/// run, vector operations, stop time.
#[verifier::opaque]
pub open spec fn check_inputs(m: MemView, tout: sunrealtype) -> i32 {
    if too_close(m.stp().tcur, tout, m.lim().uround) {
        ARK_TOO_CLOSE
    } else if (m.lim().fixedstep && r_eq(m.stp().hin, ZERO())) || !vector_suits(m) || tstop_behind(
        m.stp(),
        tout,
    ) {
        ARK_ILL_INPUT
    } else {
        ARK_SUCCESS
    }
}

fn ark_check_inputs(ark_mem: &ARKodeMemRec, tout: sunrealtype) -> (flag: i32)
    ensures
        flag == check_inputs(ark_mem@, tout),
{
    reveal(check_inputs);
    let s: ArkStep = ark_mem.get_stp();
    let l: ArkLimits = ark_mem.get_lim();
    if is_too_close(s.tcur, tout, l.uround) {
        return ARK_TOO_CLOSE;
    }
    if l.fixedstep && s.hin == ZERO() {
        return ARK_ILL_INPUT;
    }
    if !arkCheckNvectorOptional(ark_mem) {
        return ARK_ILL_INPUT;
    }
    if is_tstop_behind(s, tout) {
        return ARK_ILL_INPUT;
    }
    ARK_SUCCESS
}

/// The initial state held against the constraints, where there are any.
#[verifier::opaque]
pub open spec fn check_start(m: MemView) -> (MemView, bool) {
    if m.constraints().live {
        (
            put_tempv1(m, v_mask(m.constraints(), m.yn(), m.tempv1())),
            all_hold(m.constraints(), m.yn(), m.tempv1().data.len()),
        )
    } else {
        (m, true)
    }
}

fn ark_check_start(ark_mem: &mut ARKodeMemRec) -> (ok: bool)
    ensures
        final(ark_mem)@ == check_start(old(ark_mem)@).0,
        ok == check_start(old(ark_mem)@).1,
{
    reveal(check_start);
    let c: N_Vector = ark_mem.get_constraints();
    if c.live {
        let r: (N_Vector, bool) = N_VConstrMask(&c, &ark_mem.get_yn(), &ark_mem.get_tempv1());
        ark_mem.set_tempv1(r.0);
        return r.1;
    }
    true
}

/// Error weights at the last solution; residual weights that are the error
/// weights change with them.
#[verifier::opaque]
pub open spec fn load_ewt<E: ArkEnv>(m: MemView, e: E) -> Run<E> {
    let o = call_efun(m, e, m.yn(), m.ewt());
    let m1 = put_ewt(o.m, o.w);
    if m1.tol().rwt_is_ewt {
        Run { m: put_rwt(m1, m1.ewt()), e: o.e, flag: o.flag }
    } else {
        Run { m: m1, e: o.e, flag: o.flag }
    }
}

/// Sets the error weights at the last solution.
pub fn ark_load_ewt<E: ArkEnv>(ark_mem: &mut ARKodeMemRec, env: &mut E) -> (flag: i32)
    ensures
        final(ark_mem)@ == load_ewt(old(ark_mem)@, *old(env)).m,
        *final(env) == load_ewt(old(ark_mem)@, *old(env)).e,
        flag == load_ewt(old(ark_mem)@, *old(env)).flag,
{
    reveal(load_ewt);
    let yn: N_Vector = ark_mem.get_yn();
    let mut w: N_Vector = ark_mem.get_ewt();
    let flag: i32 = ark_call_efun(ark_mem, env, &yn, &mut w);
    ark_mem.set_ewt(w);
    if ark_mem.get_tol().rwt_is_ewt {
        ark_mem.set_rwt(ark_mem.get_ewt());
    }
    flag
}

/// Residual weights at the last solution: the error weights, or a vector of
/// their own.
#[verifier::opaque]
pub open spec fn load_rwt<E: ArkEnv>(m: MemView, e: E) -> Run<E> {
    if m.tol().rwt_is_ewt {
        Run { m: put_rwt(m, m.ewt()), e, flag: ARK_SUCCESS }
    } else {
        let o = call_rfun(m, e, m.yn(), m.rwt());
        Run { m: put_rwt(o.m, o.w), e: o.e, flag: o.flag }
    }
}

/// Sets the residual weights at the last solution.
pub fn ark_load_rwt<E: ArkEnv>(ark_mem: &mut ARKodeMemRec, env: &mut E) -> (flag: i32)
    ensures
        final(ark_mem)@ == load_rwt(old(ark_mem)@, *old(env)).m,
        *final(env) == load_rwt(old(ark_mem)@, *old(env)).e,
        flag == load_rwt(old(ark_mem)@, *old(env)).flag,
{
    reveal(load_rwt);
    if ark_mem.get_tol().rwt_is_ewt {
        ark_mem.set_rwt(ark_mem.get_ewt());
        return ARK_SUCCESS;
    }
    let yn: N_Vector = ark_mem.get_yn();
    let mut w: N_Vector = ark_mem.get_rwt();
    let flag: i32 = ark_call_rfun(ark_mem, env, &yn, &mut w);
    ark_mem.set_rwt(w);
    flag
}

/// Weights and time stepper.
#[verifier::opaque]
pub open spec fn setup_stepper<E: ArkEnv>(m: MemView, e: E) -> Run<E> {
    let a = load_ewt(m, e);
    let b = if a.m.flg().preallocated {
        Run { m: a.m, e: a.e, flag: ARK_SUCCESS }
    } else if !a.m.ops().init {
        Run { m: a.m, e: a.e, flag: ARK_ILL_INPUT }
    } else {
        mri_init(a.m, a.e, a.m.flg().init_type)
    };
    let c = load_rwt(b.m, b.e);
    if a.flag != 0 {
        Run { m: a.m, e: a.e, flag: ARK_ILL_INPUT }
    } else if b.flag != ARK_SUCCESS {
        b
    } else if c.flag != 0 {
        Run { m: c.m, e: c.e, flag: ARK_ILL_INPUT }
    } else {
        Run { m: c.m, e: c.e, flag: ARK_SUCCESS }
    }
}

fn ark_setup_stepper<E: ArkEnv>(ark_mem: &mut ARKodeMemRec, env: &mut E) -> (flag: i32)
    ensures
        final(ark_mem)@ == setup_stepper(old(ark_mem)@, *old(env)).m,
        *final(env) == setup_stepper(old(ark_mem)@, *old(env)).e,
        flag == setup_stepper(old(ark_mem)@, *old(env)).flag,
{
    reveal(setup_stepper);
    if ark_load_ewt(ark_mem, env) != 0 {
        return ARK_ILL_INPUT;
    }
    if !ark_mem.get_flg().preallocated {
        if !ark_mem.get_ops().init {
            return ARK_ILL_INPUT;
        }
        let init_type: i32 = ark_mem.get_flg().init_type;
        let retval: i32 = mriStep_Init(ark_mem, env, init_type);
        if retval != ARK_SUCCESS {
            return retval;
        }
    }
    if ark_load_rwt(ark_mem, env) != 0 {
        return ARK_ILL_INPUT;
    }
    ARK_SUCCESS
}

/// The interpolation module made where it is wanted and not there.
#[verifier::opaque]
pub open spec fn make_interp<E: ArkEnv>(m: MemView, e: E) -> Run<E> {
    let a = m.att();
    if a.interp_type != ARK_INTERP_NONE && !a.interp {
        let r = module_run(
            m,
            e,
            ModuleCall::InterpCreate {
                lagrange: a.interp_type == ARK_INTERP_LAGRANGE,
                degree: a.interp_degree,
            },
        );
        Run {
            m: r.m,
            e: r.e,
            flag: if r.m.att().interp {
                ARK_SUCCESS
            } else {
                ARK_MEM_FAIL
            },
        }
    } else {
        Run { m, e, flag: ARK_SUCCESS }
    }
}

fn ark_make_interp<E: ArkEnv>(ark_mem: &mut ARKodeMemRec, env: &mut E) -> (flag: i32)
    ensures
        final(ark_mem)@ == make_interp(old(ark_mem)@, *old(env)).m,
        *final(env) == make_interp(old(ark_mem)@, *old(env)).e,
        flag == make_interp(old(ark_mem)@, *old(env)).flag,
{
    reveal(make_interp);
    let a: ArkParts = ark_mem.get_att();
    if a.interp_type != ARK_INTERP_NONE && !a.interp {
        call_module(
            ark_mem,
            env,
            ModuleCall::InterpCreate {
                lagrange: a.interp_type == ARK_INTERP_LAGRANGE,
                degree: a.interp_degree,
            },
        );
        if !ark_mem.get_att().interp {
            return ARK_MEM_FAIL;
        }
    }
    ARK_SUCCESS
}

/// The degree and the first data of the interpolation module.
#[verifier::opaque]
pub open spec fn fill_interp<E: ArkEnv>(m: MemView, e: E) -> Run<E> {
    let d = module_run(m, e, ModuleCall::InterpSetDegree { degree: m.att().interp_degree });
    let i = module_run(d.m, d.e, ModuleCall::InterpInit { t: d.m.stp().tcur });
    if !m.att().interp {
        Run { m, e, flag: ARK_SUCCESS }
    } else if d.flag != 0 {
        Run { m: d.m, e: d.e, flag: ARK_ILL_INPUT }
    } else if i.flag != 0 {
        Run { m: i.m, e: i.e, flag: ARK_ILL_INPUT }
    } else {
        Run { m: i.m, e: i.e, flag: ARK_SUCCESS }
    }
}

fn ark_fill_interp<E: ArkEnv>(ark_mem: &mut ARKodeMemRec, env: &mut E) -> (flag: i32)
    ensures
        final(ark_mem)@ == fill_interp(old(ark_mem)@, *old(env)).m,
        *final(env) == fill_interp(old(ark_mem)@, *old(env)).e,
        flag == fill_interp(old(ark_mem)@, *old(env)).flag,
{
    reveal(fill_interp);
    if ark_mem.get_att().interp {
        let degree: i32 = ark_mem.get_att().interp_degree;
        if call_module(ark_mem, env, ModuleCall::InterpSetDegree { degree }) != 0 {
            return ARK_ILL_INPUT;
        }
        let t: sunrealtype = ark_mem.get_stp().tcur;
        if call_module(ark_mem, env, ModuleCall::InterpInit { t }) != 0 {
            return ARK_ILL_INPUT;
        }
    }
    ARK_SUCCESS
}

/// Interpolation, which root finding and an interpolated stop time need.
#[verifier::opaque]
pub open spec fn setup_interp<E: ArkEnv>(m: MemView, e: E) -> Run<E> {
    let a = make_interp(m, e);
    let b = fill_interp(a.m, a.e);
    if a.flag != ARK_SUCCESS {
        a
    } else if b.flag != ARK_SUCCESS {
        b
    } else if (b.m.root() is Some || b.m.lim().tstopinterp) && !b.m.att().interp {
        Run { m: b.m, e: b.e, flag: ARK_ILL_INPUT }
    } else {
        b
    }
}

fn ark_setup_interp<E: ArkEnv>(ark_mem: &mut ARKodeMemRec, env: &mut E) -> (flag: i32)
    ensures
        final(ark_mem)@ == setup_interp(old(ark_mem)@, *old(env)).m,
        *final(env) == setup_interp(old(ark_mem)@, *old(env)).e,
        flag == setup_interp(old(ark_mem)@, *old(env)).flag,
{
    reveal(setup_interp);
    let retval: i32 = ark_make_interp(ark_mem, env);
    if retval != ARK_SUCCESS {
        return retval;
    }
    let retval: i32 = ark_fill_interp(ark_mem, env);
    if retval != ARK_SUCCESS {
        return retval;
    }
    let interp: bool = ark_mem.get_att().interp;
    if ark_mem.get_root().is_some() && !interp {
        return ARK_ILL_INPUT;
    }
    if ark_mem.get_lim().tstopinterp && !interp {
        return ARK_ILL_INPUT;
    }
    retval
}

/// The first step size proposed by the time stepper, where it can.
#[verifier::opaque]
pub open spec fn stepper_h0<E: ArkEnv>(m: MemView, e: E, tout: sunrealtype) -> Run<E> {
    let s = m.stp();
    if r_eq(s.h0u, ZERO()) && r_eq(s.hin, ZERO()) && !m.lim().fixedstep && m.ops().H0 {
        let o = compute_h0(m, e, tout, s.hin);
        Run {
            m: put_stp(o.m, ArkStep { hin: o.h, ..o.m.stp() }),
            e: o.e,
            flag: if o.flag != 0 {
                ARK_STEP_H0_FAIL
            } else {
                ARK_SUCCESS
            },
        }
    } else {
        Run { m, e, flag: ARK_SUCCESS }
    }
}

fn ark_stepper_h0<E: ArkEnv>(ark_mem: &mut ARKodeMemRec, env: &mut E, tout: sunrealtype) -> (flag:
    i32)
    ensures
        final(ark_mem)@ == stepper_h0(old(ark_mem)@, *old(env), tout).m,
        *final(env) == stepper_h0(old(ark_mem)@, *old(env), tout).e,
        flag == stepper_h0(old(ark_mem)@, *old(env), tout).flag,
{
    reveal(stepper_h0);
    let s: ArkStep = ark_mem.get_stp();
    if s.h0u == ZERO() && s.hin == ZERO() && !ark_mem.get_lim().fixedstep && ark_mem.get_ops().H0 {
        let mut h: sunrealtype = s.hin;
        let retval: i32 = mriStep_ComputeH0(ark_mem, env, tout, &mut h);
        let s1: ArkStep = ark_mem.get_stp();
        ark_mem.set_stp(ArkStep { hin: h, ..s1 });
        if retval != 0 {
            return ARK_STEP_H0_FAIL;
        }
    }
    ARK_SUCCESS
}

/// The vector for the full right-hand side: there exactly where something
/// will need it.
#[verifier::opaque]
pub open spec fn fit_fn(m: MemView) -> (MemView, i32) {
    let s = m.stp();
    if m.flg().call_fullrhs || (r_eq(s.h0u, ZERO()) && r_eq(s.hin, ZERO())) || m.root() is Some {
        let a = alloc_vec(m, m.yn(), m.fn_());
        if !m.ops().fullrhs {
            (m, ARK_ILL_INPUT)
        } else if !a.2 {
            (put_fn_(a.0, a.1), ARK_MEM_FAIL)
        } else {
            (put_fn_(a.0, a.1), ARK_SUCCESS)
        }
    } else if m.fn_().live {
        let a = free_vec(m, m.fn_());
        (put_fn_(a.0, a.1), ARK_SUCCESS)
    } else {
        (m, ARK_SUCCESS)
    }
}

fn ark_fit_fn(ark_mem: &mut ARKodeMemRec) -> (flag: i32)
    ensures
        final(ark_mem)@ == fit_fn(old(ark_mem)@).0,
        flag == fit_fn(old(ark_mem)@).1,
{
    reveal(fit_fn);
    let s: ArkStep = ark_mem.get_stp();
    let mut f: N_Vector = ark_mem.get_fn_();
    if ark_mem.get_flg().call_fullrhs || (s.h0u == ZERO() && s.hin == ZERO())
        || ark_mem.get_root().is_some() {
        if !ark_mem.get_ops().fullrhs {
            return ARK_ILL_INPUT;
        }
        let yn: N_Vector = ark_mem.get_yn();
        let ok: bool = arkAllocVec(ark_mem, &yn, &mut f);
        ark_mem.set_fn_(f);
        if !ok {
            return ARK_MEM_FAIL;
        }
    } else if f.live {
        arkFreeVec(ark_mem, &mut f);
        ark_mem.set_fn_(f);
    }
    ARK_SUCCESS
}

/// The largest step growth set to that of the first step.
#[verifier::opaque]
pub open spec fn first_growth(m: MemView) -> MemView {
    match m.hadapt() {
        None => m,
        Some(a) => put_hadapt(m, Some(HAdaptMem { etamax: a.etamx1, ..a })),
    }
}

fn set_first_growth(ark_mem: &mut ARKodeMemRec)
    ensures
        final(ark_mem)@ == first_growth(old(ark_mem)@),
{
    reveal(first_growth);
    match ark_mem.get_hadapt() {
        None => {},
        Some(a) => {
            ark_mem.set_hadapt(Some(HAdaptMem { etamax: a.etamx1, ..a }));
        },
    }
}

/// The time towards which the first step size is estimated: the stop time
/// where it comes before `tout`.
pub open spec fn hin_target(s: ArkStep, tout: sunrealtype) -> sunrealtype {
    if s.tstopset && r_lt(ZERO(), r_mul(r_sub(tout, s.tcur), r_sub(tout, s.tstop))) {
        s.tstop
    } else {
        tout
    }
}

/// The first step size estimated from the right-hand side.
#[verifier::opaque]
pub open spec fn estimate_h<E: ArkEnv>(m: MemView, e: E, tout: sunrealtype) -> Run<E> {
    let d = r_abs(r_sub(tout, m.stp().tcur));
    let m1 = with_h(
        m,
        if r_eq(d, ZERO()) {
            ONE()
        } else {
            d
        },
    );
    let a = hin(m1, e, hin_target(m1.stp(), tout));
    if a.flag != ARK_SUCCESS {
        Run { m: a.m, e: a.e, flag: handle_failure(a.flag) }
    } else {
        Run { m: first_growth(a.m), e: a.e, flag: ARK_SUCCESS }
    }
}

fn ark_estimate_h<E: ArkEnv>(ark_mem: &mut ARKodeMemRec, env: &mut E, tout: sunrealtype) -> (flag:
    i32)
    ensures
        final(ark_mem)@ == estimate_h(old(ark_mem)@, *old(env), tout).m,
        *final(env) == estimate_h(old(ark_mem)@, *old(env), tout).e,
        flag == estimate_h(old(ark_mem)@, *old(env), tout).flag,
{
    reveal(estimate_h);
    let d: sunrealtype = SUNRabs(tout - ark_mem.get_stp().tcur);
    set_h(
        ark_mem,
        if d == ZERO() {
            ONE()
        } else {
            d
        },
    );
    let s: ArkStep = ark_mem.get_stp();
    let target: sunrealtype = if s.tstopset && (tout - s.tcur) * (tout - s.tstop) > ZERO() {
        s.tstop
    } else {
        tout
    };
    let hflag: i32 = arkHin(ark_mem, env, target);
    if hflag != ARK_SUCCESS {
        return arkHandleFailure(hflag);
    }
    set_first_growth(ark_mem);
    ARK_SUCCESS
}

/// The first step kept within the step size bounds and from overtaking the
/// stop time.
#[verifier::opaque]
pub open spec fn bound_first_h(s: ArkStep, l: ArkLimits) -> sunrealtype {
    let rh = r_mul(r_abs(s.h), l.hmax_inv);
    let h1 = if r_lt(ONE(), rh) {
        r_div(s.h, rh)
    } else {
        s.h
    };
    let h2 = if r_lt(r_abs(h1), l.hmin) {
        r_mul(h1, r_div(l.hmin, r_abs(h1)))
    } else {
        h1
    };
    if s.tstopset && r_lt(ZERO(), r_mul(r_sub(r_add(s.tcur, h2), s.tstop), h2)) {
        r_mul(r_sub(s.tstop, s.tcur), r_sub(ONE(), r_mul(FOUR(), l.uround)))
    } else {
        h2
    }
}

fn bounded_first_h(s: ArkStep, l: ArkLimits) -> (h: sunrealtype)
    ensures
        h == bound_first_h(s, l),
{
    reveal(bound_first_h);
    let mut h: sunrealtype = s.h;
    let rh: sunrealtype = SUNRabs(h) * l.hmax_inv;
    if rh > ONE() {
        h = h / rh;
    }
    let habs: sunrealtype = SUNRabs(h);
    if habs < l.hmin {
        h = h * (l.hmin / habs);
    }
    if s.tstopset && (s.tcur + h - s.tstop) * h > ZERO() {
        h = (s.tstop - s.tcur) * (ONE() - FOUR() * l.uround);
    }
    h
}

/// The first step size of a new problem: the one that was given, where it
/// leads towards `tout`, or an estimate.
#[verifier::opaque]
pub open spec fn first_step<E: ArkEnv>(m: MemView, e: E, tout: sunrealtype) -> Run<E> {
    let m1 = with_h(m, m.stp().hin);
    let s = m1.stp();
    let a = if r_eq(s.h, ZERO()) {
        estimate_h(m1, e, tout)
    } else if m1.cnt().nst == 0 {
        Run { m: first_growth(m1), e, flag: ARK_SUCCESS }
    } else {
        Run { m: usual_growth(m1), e, flag: ARK_SUCCESS }
    };
    let h = bound_first_h(a.m.stp(), a.m.lim());
    if !r_eq(s.h, ZERO()) && r_lt(r_mul(r_sub(tout, s.tcur), s.h), ZERO()) {
        Run { m: m1, e, flag: ARK_ILL_INPUT }
    } else if a.flag != ARK_SUCCESS {
        a
    } else {
        Run {
            m: put_stp(a.m, ArkStep { h, h0u: h, eta: ONE(), hprime: h, ..a.m.stp() }),
            e: a.e,
            flag: ARK_SUCCESS,
        }
    }
}

fn ark_first_step<E: ArkEnv>(ark_mem: &mut ARKodeMemRec, env: &mut E, tout: sunrealtype) -> (flag:
    i32)
    ensures
        final(ark_mem)@ == first_step(old(ark_mem)@, *old(env), tout).m,
        *final(env) == first_step(old(ark_mem)@, *old(env), tout).e,
        flag == first_step(old(ark_mem)@, *old(env), tout).flag,
{
    reveal(first_step);
    let h0: sunrealtype = ark_mem.get_stp().hin;
    set_h(ark_mem, h0);
    let s: ArkStep = ark_mem.get_stp();
    if !(s.h == ZERO()) && (tout - s.tcur) * s.h < ZERO() {
        return ARK_ILL_INPUT;
    }
    if s.h == ZERO() {
        let retval: i32 = ark_estimate_h(ark_mem, env, tout);
        if retval != ARK_SUCCESS {
            return retval;
        }
    } else if ark_mem.get_cnt().nst == 0 {
        set_first_growth(ark_mem);
    } else {
        set_usual_growth(ark_mem);
    }
    let s1: ArkStep = ark_mem.get_stp();
    let h: sunrealtype = bounded_first_h(s1, ark_mem.get_lim());
    ark_mem.set_stp(ArkStep { h, h0u: h, eta: ONE(), hprime: h, ..s1 });
    ARK_SUCCESS
}

/// The step size of the next step: that of a first step, or the one carried
/// over, kept from overtaking the stop time.
#[verifier::opaque]
pub open spec fn setup_h<E: ArkEnv>(m: MemView, e: E, tout: sunrealtype) -> Run<E> {
    let m1 = put_flg(m, ArkFlags { initialized: true, ..m.flg() });
    if r_eq(m1.stp().h0u, ZERO()) {
        first_step(m1, e, tout)
    } else {
        Run { m: put_stp(m1, limit_to_tstop(m1.stp(), m1.lim().uround)), e, flag: ARK_SUCCESS }
    }
}

fn ark_setup_h<E: ArkEnv>(ark_mem: &mut ARKodeMemRec, env: &mut E, tout: sunrealtype) -> (flag: i32)
    ensures
        final(ark_mem)@ == setup_h(old(ark_mem)@, *old(env), tout).m,
        *final(env) == setup_h(old(ark_mem)@, *old(env), tout).e,
        flag == setup_h(old(ark_mem)@, *old(env), tout).flag,
{
    reveal(setup_h);
    let g: ArkFlags = ark_mem.get_flg();
    ark_mem.set_flg(ArkFlags { initialized: true, ..g });
    let s: ArkStep = ark_mem.get_stp();
    if s.h0u == ZERO() {
        return ark_first_step(ark_mem, env, tout);
    }
    let u: sunrealtype = ark_mem.get_lim().uround;
    ark_mem.set_stp(limited_to_tstop(s, u));
    ARK_SUCCESS
}

/// Roots at and near the initial time.
#[verifier::opaque]
pub open spec fn setup_roots<E: ArkEnv>(m: MemView, e: E) -> Run<E> {
    if root_count(m) > 0 {
        module_run(m, e, ModuleCall::RootCheck1)
    } else {
        Run { m, e, flag: ARK_SUCCESS }
    }
}

fn ark_setup_roots<E: ArkEnv>(ark_mem: &mut ARKodeMemRec, env: &mut E) -> (flag: i32)
    ensures
        final(ark_mem)@ == setup_roots(old(ark_mem)@, *old(env)).m,
        *final(env) == setup_roots(old(ark_mem)@, *old(env)).e,
        flag == setup_roots(old(ark_mem)@, *old(env)).flag,
{
    reveal(setup_roots);
    if ark_root_count(ark_mem) > 0 {
        return call_module(ark_mem, env, ModuleCall::RootCheck1);
    }
    ARK_SUCCESS
}

/// The two halves of the setup before a step size is chosen.
#[verifier::opaque]
pub open spec fn setup_parts<E: ArkEnv>(m: MemView, e: E) -> Run<E> {
    let c = check_start(m);
    let a = setup_stepper(c.0, e);
    if !c.1 {
        Run { m: c.0, e, flag: ARK_ILL_INPUT }
    } else if a.flag != ARK_SUCCESS {
        a
    } else {
        setup_interp(a.m, a.e)
    }
}

fn ark_setup_parts<E: ArkEnv>(ark_mem: &mut ARKodeMemRec, env: &mut E) -> (flag: i32)
    ensures
        final(ark_mem)@ == setup_parts(old(ark_mem)@, *old(env)).m,
        *final(env) == setup_parts(old(ark_mem)@, *old(env)).e,
        flag == setup_parts(old(ark_mem)@, *old(env)).flag,
{
    reveal(setup_parts);
    if !ark_check_start(ark_mem) {
        return ARK_ILL_INPUT;
    }
    let retval: i32 = ark_setup_stepper(ark_mem, env);
    if retval != ARK_SUCCESS {
        return retval;
    }
    ark_setup_interp(ark_mem, env)
}

/// Everything that an integration towards `tout` needs before its first step;
/// the first part that fails ends it.
#[verifier::opaque]
pub open spec fn initial_setup<E: ArkEnv>(m: MemView, e: E, tout: sunrealtype) -> Run<E> {
    let a = setup_parts(m, e);
    let b = stepper_h0(a.m, a.e, tout);
    let f = fit_fn(b.m);
    let h = setup_h(f.0, b.e, tout);
    if check_inputs(m, tout) != ARK_SUCCESS {
        Run { m, e, flag: check_inputs(m, tout) }
    } else if a.flag != ARK_SUCCESS {
        a
    } else if b.flag != ARK_SUCCESS {
        b
    } else if f.1 != ARK_SUCCESS {
        Run { m: f.0, e: b.e, flag: f.1 }
    } else if h.flag != ARK_SUCCESS {
        h
    } else {
        setup_roots(h.m, h.e)
    }
}

/// Prepares everything that an integration towards `tout` needs before its
/// first step.
pub fn arkInitialSetup<E: ArkEnv>(
    ark_mem: &mut ARKodeMemRec,
    env: &mut E,
    tout: sunrealtype,
) -> (flag: i32)
    ensures
        final(ark_mem)@ == initial_setup(old(ark_mem)@, *old(env), tout).m,
        *final(env) == initial_setup(old(ark_mem)@, *old(env), tout).e,
        flag == initial_setup(old(ark_mem)@, *old(env), tout).flag,
{
    reveal(initial_setup);
    let retval: i32 = ark_check_inputs(ark_mem, tout);
    if retval != ARK_SUCCESS {
        return retval;
    }
    let retval: i32 = ark_setup_parts(ark_mem, env);
    if retval != ARK_SUCCESS {
        return retval;
    }
    let retval: i32 = ark_stepper_h0(ark_mem, env, tout);
    if retval != ARK_SUCCESS {
        return retval;
    }
    let retval: i32 = ark_fit_fn(ark_mem);
    if retval != ARK_SUCCESS {
        return retval;
    }
    let retval: i32 = ark_setup_h(ark_mem, env, tout);
    if retval != ARK_SUCCESS {
        return retval;
    }
    ark_setup_roots(ark_mem, env)
}

} // verus!
