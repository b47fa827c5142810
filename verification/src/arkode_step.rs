//! Completion of a successful step.
use crate::arkode_codes::{
    ARK_ACCUMERROR_MAX, ARK_ACCUMERROR_NONE, ARK_ACCUMERROR_SUM, ARK_CONTROLLER_ERR,
    ARK_POSTSTEPFN_FAIL, ARK_SUCCESS, FUZZ_FACTOR, SUN_SUCCESS,
};
use crate::arkode_impl::{ARKodeMemRec, ArkCounts, ArkFlags, ArkStep, FnId, HAdaptMem, MemView};
use crate::arkode_mem::{put_cnt, put_flg, put_hadapt, put_stp, put_ycur, put_yn};
use crate::binary64::{r_abs, r_add, r_le, r_mul, r_sub, sunrealtype};
use crate::env::{ArkEnv, ModuleCall, UserCall, UserFn};
use crate::nvector::{v_scale, N_VScale, N_Vector};
use crate::outcome::{call_module, module_run, Run};
use crate::sundials_math::{r_max, real_max, SUNRabs};
use crate::sundials_types::ONE;
use vstd::prelude::*;

verus! {

broadcast use crate::order::group_order;

/// An interval that counts as roundoff at the current time and step size.
#[verifier::opaque]
pub open spec fn time_roundoff(uround: sunrealtype, tcur: sunrealtype, h: sunrealtype) -> sunrealtype {
    r_mul(r_mul(FUZZ_FACTOR(), uround), r_add(r_abs(tcur), r_abs(h)))
}

/// The roundoff in time at the current time and step size.
pub fn ark_time_roundoff(uround: sunrealtype, tcur: sunrealtype, h: sunrealtype) -> (r: sunrealtype)
    ensures
        r == time_roundoff(uround, tcur, h),
{
    reveal(time_roundoff);
    FUZZ_FACTOR() * uround * (SUNRabs(tcur) + SUNRabs(h))
}

/// Current time and summation error at the end of the step; with compensated
/// sums the error of the last sum is taken off the step.
#[verifier::opaque]
pub open spec fn end_of_step(s: ArkStep, compensated: bool) -> ArkStep {
    if compensated {
        let inc = r_sub(s.h, s.terr);
        let sum = r_add(s.tn, inc);
        ArkStep { tcur: sum, terr: r_sub(r_sub(sum, s.tn), inc), ..s }
    } else {
        ArkStep { tcur: r_add(s.tn, s.h), ..s }
    }
}

fn at_end_of_step(s: ArkStep, compensated: bool) -> (r: ArkStep)
    ensures
        r == end_of_step(s, compensated),
{
    reveal(end_of_step);
    if compensated {
        let inc: sunrealtype = s.h - s.terr;
        let sum: sunrealtype = s.tn + inc;
        let terr: sunrealtype = sum - s.tn - inc;
        ArkStep { tcur: sum, terr, ..s }
    } else {
        ArkStep { tcur: s.tn + s.h, ..s }
    }
}

/// The step with the current time set to the stop time where the two differ
/// by roundoff.
#[verifier::opaque]
pub open spec fn snap_to_tstop(s: ArkStep, uround: sunrealtype) -> ArkStep {
    if s.tstopset && r_le(r_abs(r_sub(s.tcur, s.tstop)), time_roundoff(uround, s.tcur, s.h)) {
        ArkStep { tcur: s.tstop, ..s }
    } else {
        s
    }
}

fn snapped_to_tstop(s: ArkStep, uround: sunrealtype) -> (r: ArkStep)
    ensures
        r == snap_to_tstop(s, uround),
{
    reveal(snap_to_tstop);
    if s.tstopset && SUNRabs(s.tcur - s.tstop) <= ark_time_roundoff(uround, s.tcur, s.h) {
        ArkStep { tcur: s.tstop, ..s }
    } else {
        s
    }
}

/// The accumulated temporal error with the contribution `dsm` of a step.
#[verifier::opaque]
pub open spec fn accumulate(kind: i32, total: sunrealtype, dsm: sunrealtype, h: sunrealtype) -> sunrealtype {
    if kind == ARK_ACCUMERROR_NONE {
        total
    } else if kind == ARK_ACCUMERROR_MAX {
        r_max(dsm, total)
    } else if kind == ARK_ACCUMERROR_SUM {
        r_add(total, dsm)
    } else {
        r_add(total, r_mul(dsm, h))
    }
}

fn accumulated(kind: i32, total: sunrealtype, dsm: sunrealtype, h: sunrealtype) -> (r: sunrealtype)
    ensures
        r == accumulate(kind, total, dsm, h),
{
    reveal(accumulate);
    if kind == ARK_ACCUMERROR_NONE {
        total
    } else if kind == ARK_ACCUMERROR_MAX {
        real_max(dsm, total)
    } else if kind == ARK_ACCUMERROR_SUM {
        total + dsm
    } else {
        total + dsm * h
    }
}

/// Time advanced and error accumulated.
#[verifier::opaque]
pub open spec fn advance_time(m: MemView, dsm: sunrealtype) -> MemView {
    let s = snap_to_tstop(end_of_step(m.stp(), m.lim().use_compensated_sums), m.lim().uround);
    put_cnt(
        put_stp(m, s),
        ArkCounts {
            AccumError: accumulate(m.lim().AccumErrorType, m.cnt().AccumError, dsm, s.h),
            ..m.cnt()
        },
    )
}

fn ark_advance_time(ark_mem: &mut ARKodeMemRec, dsm: sunrealtype)
    ensures
        final(ark_mem)@ == advance_time(old(ark_mem)@, dsm),
{
    reveal(advance_time);
    let l = ark_mem.get_lim();
    let c: ArkCounts = ark_mem.get_cnt();
    let s: ArkStep = snapped_to_tstop(
        at_end_of_step(ark_mem.get_stp(), l.use_compensated_sums),
        l.uround,
    );
    ark_mem.set_stp(s);
    let e: sunrealtype = accumulated(l.AccumErrorType, c.AccumError, dsm, s.h);
    ark_mem.set_cnt(ArkCounts { AccumError: e, ..c });
}

/// A call around a step.
#[verifier::allow_in_spec]
pub fn step_call(role: UserFn, f: FnId, t: sunrealtype, step: i64, attempt: i32) -> UserCall
    returns
        (UserCall { role, f, t, step, attempt, user_data: true }),
{
    UserCall { role, f, t, step, attempt, user_data: true }
}

/// The user's function after a step, on the new solution.
#[verifier::opaque]
pub open spec fn post_step<E: ArkEnv>(m: MemView, e: E) -> Run<E> {
    match m.att().PostStepFn {
        None => Run { m, e, flag: ARK_SUCCESS },
        Some(f) => {
            let r = e.user_reply(
                step_call(UserFn::PostStep, f, m.stp().tcur, m.cnt().nst, 0),
                m.ycur(),
                m.ycur(),
            );
            Run {
                m: put_ycur(m, r.out),
                e: r.env,
                flag: if r.flag != 0 {
                    ARK_POSTSTEPFN_FAIL
                } else {
                    ARK_SUCCESS
                },
            }
        },
    }
}

fn ark_post_step<E: ArkEnv>(ark_mem: &mut ARKodeMemRec, env: &mut E) -> (flag: i32)
    ensures
        final(ark_mem)@ == post_step(old(ark_mem)@, *old(env)).m,
        *final(env) == post_step(old(ark_mem)@, *old(env)).e,
        flag == post_step(old(ark_mem)@, *old(env)).flag,
{
    reveal(post_step);
    match ark_mem.get_att().PostStepFn {
        None => ARK_SUCCESS,
        Some(f) => {
            let y: N_Vector = ark_mem.get_ycur();
            let mut out: N_Vector = ark_mem.get_ycur();
            let c: UserCall = step_call(
                UserFn::PostStep,
                f,
                ark_mem.get_stp().tcur,
                ark_mem.get_cnt().nst,
                0,
            );
            let retval: i32 = env.user(c, &y, &mut out);
            ark_mem.set_ycur(out);
            if retval != 0 {
                ARK_POSTSTEPFN_FAIL
            } else {
                ARK_SUCCESS
            }
        },
    }
}

/// The interpolation module told of the step, where there is one.
#[verifier::opaque]
pub open spec fn update_interp<E: ArkEnv>(m: MemView, e: E) -> Run<E> {
    if m.att().interp {
        module_run(m, e, ModuleCall::InterpUpdate { t: m.stp().tcur })
    } else {
        Run { m, e, flag: ARK_SUCCESS }
    }
}

fn ark_update_interp<E: ArkEnv>(ark_mem: &mut ARKodeMemRec, env: &mut E) -> (flag: i32)
    ensures
        final(ark_mem)@ == update_interp(old(ark_mem)@, *old(env)).m,
        *final(env) == update_interp(old(ark_mem)@, *old(env)).e,
        flag == update_interp(old(ark_mem)@, *old(env)).flag,
{
    reveal(update_interp);
    if ark_mem.get_att().interp {
        let t: sunrealtype = ark_mem.get_stp().tcur;
        call_module(ark_mem, env, ModuleCall::InterpUpdate { t })
    } else {
        ARK_SUCCESS
    }
}

/// The new solution stored as the last one.
#[verifier::opaque]
pub open spec fn accept_solution(m: MemView) -> MemView {
    let m1 = put_yn(m, v_scale(ONE(), m.ycur(), m.yn()));
    put_flg(m1, ArkFlags { fn_is_current: false, ..m1.flg() })
}

fn ark_accept_solution(ark_mem: &mut ARKodeMemRec)
    ensures
        final(ark_mem)@ == accept_solution(old(ark_mem)@),
{
    reveal(accept_solution);
    let y: N_Vector = N_VScale(ONE(), &ark_mem.get_ycur(), &ark_mem.get_yn());
    ark_mem.set_yn(y);
    let g: ArkFlags = ark_mem.get_flg();
    ark_mem.set_flg(ArkFlags { fn_is_current: false, ..g });
}

/// The step controller of the integrator.
pub open spec fn controller(m: MemView) -> Option<u64> {
    match m.hadapt() {
        None => None,
        Some(a) => a.hcontroller,
    }
}

/// The step controller of the integrator.
pub fn ark_controller(ark_mem: &ARKodeMemRec) -> (r: Option<u64>)
    ensures
        r == controller(ark_mem@),
{
    match ark_mem.get_hadapt() {
        None => None,
        Some(a) => a.hcontroller,
    }
}

/// The step controller told of a successful step, where there is one.
#[verifier::opaque]
pub open spec fn update_controller<E: ArkEnv>(m: MemView, e: E, dsm: sunrealtype) -> Run<E> {
    match controller(m) {
        None => Run { m, e, flag: ARK_SUCCESS },
        Some(id) => {
            let r = module_run(m, e, ModuleCall::ControllerUpdateH { id, h: m.stp().h, dsm });
            Run {
                m: r.m,
                e: r.e,
                flag: if r.flag != SUN_SUCCESS {
                    ARK_CONTROLLER_ERR
                } else {
                    ARK_SUCCESS
                },
            }
        },
    }
}

fn ark_update_controller<E: ArkEnv>(ark_mem: &mut ARKodeMemRec, env: &mut E, dsm: sunrealtype) -> (flag:
    i32)
    ensures
        final(ark_mem)@ == update_controller(old(ark_mem)@, *old(env), dsm).m,
        *final(env) == update_controller(old(ark_mem)@, *old(env), dsm).e,
        flag == update_controller(old(ark_mem)@, *old(env), dsm).flag,
{
    reveal(update_controller);
    match ark_controller(ark_mem) {
        None => ARK_SUCCESS,
        Some(id) => {
            let h: sunrealtype = ark_mem.get_stp().h;
            let retval: i32 = call_module(
                ark_mem,
                env,
                ModuleCall::ControllerUpdateH { id, h, dsm },
            );
            if retval != SUN_SUCCESS {
                ARK_CONTROLLER_ERR
            } else {
                ARK_SUCCESS
            }
        },
    }
}

/// The memory with the largest step growth set to that of an ordinary step.
#[verifier::opaque]
pub open spec fn usual_growth(m: MemView) -> MemView {
    match m.hadapt() {
        None => m,
        Some(a) => put_hadapt(m, Some(HAdaptMem { etamax: a.growth, ..a })),
    }
}

/// Sets the largest step growth to that of an ordinary step.
pub fn set_usual_growth(ark_mem: &mut ARKodeMemRec)
    ensures
        final(ark_mem)@ == usual_growth(old(ark_mem)@),
{
    reveal(usual_growth);
    match ark_mem.get_hadapt() {
        None => {},
        Some(a) => {
            ark_mem.set_hadapt(Some(HAdaptMem { etamax: a.growth, ..a }));
        },
    }
}

/// Counters, step sizes and flags of a step that is done.
#[verifier::opaque]
pub open spec fn close_step(m: MemView) -> MemView {
    let m1 = put_cnt(
        m,
        ArkCounts {
            nst: m.cnt().nst.wrapping_add(1),
            checkpoint_step_idx: m.cnt().checkpoint_step_idx.wrapping_add(1),
            ..m.cnt()
        },
    );
    let s = m1.stp();
    let m2 = usual_growth(
        put_stp(m1, ArkStep { hold: s.h, tn: s.tcur, hprime: r_mul(s.h, s.eta), ..s }),
    );
    put_flg(m2, ArkFlags { initsetup: false, firststage: false, ..m2.flg() })
}

fn ark_close_step(ark_mem: &mut ARKodeMemRec)
    ensures
        final(ark_mem)@ == close_step(old(ark_mem)@),
{
    reveal(close_step);
    let c: ArkCounts = ark_mem.get_cnt();
    ark_mem.set_cnt(
        ArkCounts {
            nst: c.nst.wrapping_add(1),
            checkpoint_step_idx: c.checkpoint_step_idx.wrapping_add(1),
            ..c
        },
    );
    let s: ArkStep = ark_mem.get_stp();
    ark_mem.set_stp(ArkStep { hold: s.h, tn: s.tcur, hprime: s.h * s.eta, ..s });
    set_usual_growth(ark_mem);
    let g: ArkFlags = ark_mem.get_flg();
    ark_mem.set_flg(ArkFlags { initsetup: false, firststage: false, ..g });
}

/// A successful step completed: time and accumulated error advance, the
/// user's function, the interpolation module and the step controller are
/// told, the solution is stored and the counters move on. The first failure
/// ends it.
#[verifier::opaque]
pub open spec fn complete_step<E: ArkEnv>(m: MemView, e: E, dsm: sunrealtype) -> Run<E> {
    let a = post_step(advance_time(m, dsm), e);
    let b = update_interp(a.m, a.e);
    let c = update_controller(accept_solution(b.m), b.e, dsm);
    if a.flag != ARK_SUCCESS {
        a
    } else if b.flag != ARK_SUCCESS {
        b
    } else if c.flag != ARK_SUCCESS {
        c
    } else {
        Run { m: close_step(c.m), e: c.e, flag: ARK_SUCCESS }
    }
}

/// Completes a successful step whose local error estimate is `dsm`.
pub fn arkCompleteStep<E: ArkEnv>(ark_mem: &mut ARKodeMemRec, env: &mut E, dsm: sunrealtype) -> (flag:
    i32)
    ensures
        final(ark_mem)@ == complete_step(old(ark_mem)@, *old(env), dsm).m,
        *final(env) == complete_step(old(ark_mem)@, *old(env), dsm).e,
        flag == complete_step(old(ark_mem)@, *old(env), dsm).flag,
{
    reveal(complete_step);
    ark_advance_time(ark_mem, dsm);
    let retval: i32 = ark_post_step(ark_mem, env);
    if retval != ARK_SUCCESS {
        return retval;
    }
    let retval: i32 = ark_update_interp(ark_mem, env);
    if retval != ARK_SUCCESS {
        return retval;
    }
    ark_accept_solution(ark_mem);
    let retval: i32 = ark_update_controller(ark_mem, env, dsm);
    if retval != ARK_SUCCESS {
        return retval;
    }
    ark_close_step(ark_mem);
    ARK_SUCCESS
}

} // verus!
