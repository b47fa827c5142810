//! The integration loop.
use crate::arkode_attempt::{ark_attempt_all, attempt_all, first_attempt, Attempt, Verdict};
use crate::arkode_checks::{arkHandleFailure, handle_failure};
use crate::arkode_codes::{
    ARK_ILL_INPUT, ARK_NORMAL, ARK_NO_MALLOC, ARK_ONE_STEP, ARK_ROOT_RETURN, ARK_RTFUNC_FAIL,
    ARK_SUCCESS, ARK_TOO_MUCH_ACC, ARK_TOO_MUCH_WORK, ARK_TSTOP_RETURN, RTFOUND,
};
use crate::arkode_impl::{ARKodeMemRec, ArkCounts, ArkLimits, ArkStep, ArkTol, MemView};
use crate::arkode_mem::{put_cnt, put_stp, put_tol, put_ycur};
use crate::arkode_setup::{
    arkInitialSetup, ark_load_ewt, ark_load_rwt, initial_setup, load_ewt, load_rwt,
};
use crate::arkode_step::{arkCompleteStep, ark_time_roundoff, complete_step, time_roundoff};
use crate::arkode_stop::{
    ark_root_count, ark_root_tlo, ark_show_at, ark_show_yn, ark_stop_tests, limit_to_tstop,
    limited_to_tstop, root_count, root_tlo, set_irfnd, set_tretlast, show_at, show_yn, stop_tests,
    with_irfnd, with_tretlast,
};
use crate::binary64::{r_abs, r_add, r_eq, r_le, r_lt, r_mul, r_sub, sunrealtype};
use crate::env::{ArkEnv, ModuleCall};
use crate::mristep_begin::{set_tcur, with_tcur};
use crate::nvector::{copy_vector, v_wrms, NVec, N_VWrmsNorm, N_Vector};
use crate::outcome::{call_module, module_run, Run};
use crate::sundials_math::SUNRabs;
use crate::sundials_types::{FOUR, ONE, TWO, ZERO};
use vstd::prelude::*;

verus! {

broadcast use crate::order::group_order;

/// The memory when an integration ends early: the last solution is handed out
/// at the current time.
#[verifier::opaque]
pub open spec fn leave(m: MemView) -> MemView {
    show_yn(with_tretlast(m, m.stp().tcur))
}

fn ark_leave(ark_mem: &mut ARKodeMemRec) -> (t: sunrealtype)
    ensures
        final(ark_mem)@ == leave(old(ark_mem)@),
        t == old(ark_mem)@.stp().tcur,
{
    reveal(leave);
    let t: sunrealtype = ark_mem.get_stp().tcur;
    set_tretlast(ark_mem, t);
    ark_show_yn(ark_mem);
    t
}

/// Weights for the upcoming step; the setup has already made those of the
/// first one.
#[verifier::opaque]
pub open spec fn weights_now<E: ArkEnv>(m: MemView, e: E) -> Run<E> {
    let m1 = put_stp(m, ArkStep { next_h: m.stp().h, ..m.stp() });
    let a = load_ewt(m1, e);
    if m1.flg().initsetup {
        Run { m: m1, e, flag: 0 }
    } else if a.flag != 0 {
        a
    } else {
        load_rwt(a.m, a.e)
    }
}

fn ark_weights_now<E: ArkEnv>(ark_mem: &mut ARKodeMemRec, env: &mut E) -> (flag: i32)
    ensures
        final(ark_mem)@ == weights_now(old(ark_mem)@, *old(env)).m,
        *final(env) == weights_now(old(ark_mem)@, *old(env)).e,
        flag == weights_now(old(ark_mem)@, *old(env)).flag,
{
    reveal(weights_now);
    let s: ArkStep = ark_mem.get_stp();
    ark_mem.set_stp(ArkStep { next_h: s.h, ..s });
    if ark_mem.get_flg().initsetup {
        return 0;
    }
    let flag: i32 = ark_load_ewt(ark_mem, env);
    if flag != 0 {
        return flag;
    }
    ark_load_rwt(ark_mem, env)
}

/// How far the tolerances are below what the arithmetic can resolve.
#[verifier::opaque]
pub open spec fn with_tolsf(m: MemView, x: sunrealtype) -> MemView {
    put_tol(m, ArkTol { tolsf: x, ..m.tol() })
}

fn set_tolsf(ark_mem: &mut ARKodeMemRec, x: sunrealtype)
    ensures
        final(ark_mem)@ == with_tolsf(old(ark_mem)@, x),
{
    reveal(with_tolsf);
    let t: ArkTol = ark_mem.get_tol();
    ark_mem.set_tol(ArkTol { tolsf: x, ..t });
}

/// Outcome of a part of the loop: where `more` is false the integration ends
/// with `flag` at time `tret`.
pub struct LoopOut<E> {
    pub m: MemView,
    pub e: E,
    pub tret: sunrealtype,
    pub flag: i32,
    pub more: bool,
}

/// Largest number of steps in one call: `mxstep` where it is positive,
/// otherwise what a 64-bit counter can count.
pub open spec fn step_limit(mxstep: i64) -> i64 {
    if mxstep > 0 {
        mxstep
    } else {
        i64::MAX
    }
}

/// The tests before a step: weights, number of steps, accuracy.
#[verifier::opaque]
pub open spec fn before_step<E: ArkEnv>(
    m: MemView,
    e: E,
    tret: sunrealtype,
    nstloc: i64,
) -> LoopOut<E> {
    let w = weights_now(m, e);
    let t = w.m.stp().tcur;
    let x = r_mul(w.m.lim().uround, v_wrms(w.m.yn(), w.m.ewt()));
    if w.flag != 0 {
        LoopOut { m: leave(w.m), e: w.e, tret: t, flag: ARK_ILL_INPUT, more: false }
    } else if nstloc >= step_limit(w.m.lim().mxstep) {
        LoopOut { m: leave(w.m), e: w.e, tret: t, flag: ARK_TOO_MUCH_WORK, more: false }
    } else if r_lt(ONE(), x) && !w.m.lim().fixedstep {
        LoopOut {
            m: with_tolsf(leave(w.m), r_mul(x, TWO())),
            e: w.e,
            tret: t,
            flag: ARK_TOO_MUCH_ACC,
            more: false,
        }
    } else {
        LoopOut { m: with_tolsf(w.m, ONE()), e: w.e, tret, flag: ARK_SUCCESS, more: true }
    }
}

fn ark_before_step<E: ArkEnv>(
    ark_mem: &mut ARKodeMemRec,
    env: &mut E,
    tret: &mut sunrealtype,
    nstloc: i64,
    flag: &mut i32,
) -> (more: bool)
    ensures
        ({
            let o = before_step(old(ark_mem)@, *old(env), *old(tret), nstloc);
            &&& final(ark_mem)@ == o.m
            &&& *final(env) == o.e
            &&& *final(tret) == o.tret
            &&& *final(flag) == o.flag
            &&& more == o.more
        }),
{
    reveal(before_step);
    let ewtsetOK: i32 = ark_weights_now(ark_mem, env);
    if ewtsetOK != 0 {
        *flag = ARK_ILL_INPUT;
        *tret = ark_leave(ark_mem);
        return false;
    }
    let l: ArkLimits = ark_mem.get_lim();
    let limit: i64 = if l.mxstep > 0 {
        l.mxstep
    } else {
        i64::MAX
    };
    if nstloc >= limit {
        *flag = ARK_TOO_MUCH_WORK;
        *tret = ark_leave(ark_mem);
        return false;
    }
    let x: sunrealtype = l.uround * N_VWrmsNorm(&ark_mem.get_yn(), &ark_mem.get_ewt());
    if x > ONE() && !l.fixedstep {
        *flag = ARK_TOO_MUCH_ACC;
        *tret = ark_leave(ark_mem);
        set_tolsf(ark_mem, x * TWO());
        return false;
    }
    set_tolsf(ark_mem, ONE());
    *flag = ARK_SUCCESS;
    true
}

/// Steps that do not move the time counted.
#[verifier::opaque]
pub open spec fn count_hnil(m: MemView) -> MemView {
    if r_eq(r_add(m.stp().tcur, m.stp().h), m.stp().tcur) {
        put_cnt(m, ArkCounts { nhnil: m.cnt().nhnil.wrapping_add(1), ..m.cnt() })
    } else {
        m
    }
}

fn ark_count_hnil(ark_mem: &mut ARKodeMemRec)
    ensures
        final(ark_mem)@ == count_hnil(old(ark_mem)@),
{
    reveal(count_hnil);
    let s: ArkStep = ark_mem.get_stp();
    if s.tcur + s.h == s.tcur {
        let c: ArkCounts = ark_mem.get_cnt();
        ark_mem.set_cnt(ArkCounts { nhnil: c.nhnil.wrapping_add(1), ..c });
    }
}

/// Size of the upcoming step: the proposed one, or the fixed one, which is
/// kept from overtaking the stop time.
#[verifier::opaque]
pub open spec fn next_step(s: ArkStep, l: ArkLimits) -> ArkStep {
    let h = r_mul(s.h, s.eta);
    let a = if !r_eq(s.hprime, s.h) {
        ArkStep { h, next_h: h, ..s }
    } else {
        s
    };
    let b = ArkStep { h: a.hin, next_h: a.hin, ..a };
    if !l.fixedstep {
        a
    } else if b.tstopset && r_lt(ZERO(), r_mul(r_sub(r_add(b.tcur, b.h), b.tstop), b.h)) {
        ArkStep {
            h: r_mul(r_sub(b.tstop, b.tcur), r_sub(ONE(), r_mul(FOUR(), l.uround))),
            ..b
        }
    } else {
        b
    }
}

fn with_next_step(s: ArkStep, l: ArkLimits) -> (r: ArkStep)
    ensures
        r == next_step(s, l),
{
    reveal(next_step);
    let a: ArkStep = if !(s.hprime == s.h) {
        let h: sunrealtype = s.h * s.eta;
        ArkStep { h, next_h: h, ..s }
    } else {
        s
    };
    if !l.fixedstep {
        return a;
    }
    let b: ArkStep = ArkStep { h: a.hin, next_h: a.hin, ..a };
    if b.tstopset && (b.tcur + b.h - b.tstop) * b.h > ZERO() {
        let h: sunrealtype = (b.tstop - b.tcur) * (ONE() - FOUR() * l.uround);
        ArkStep { h, ..b }
    } else {
        b
    }
}

/// One step: its size, the attempts at it, its completion. Where the attempts
/// fail, the integration ends with the last solution.
#[verifier::opaque]
pub open spec fn make_step<E: ArkEnv>(m: MemView, e: E, tret: sunrealtype) -> LoopOut<E> {
    let m1 = count_hnil(m);
    let m2 = put_stp(m1, next_step(m1.stp(), m1.lim()));
    let a = attempt_all(m2, e);
    let c = if a.a.kflag == ARK_SUCCESS {
        complete_step(a.m, a.e, a.a.dsm)
    } else {
        Run { m: a.m, e: a.e, flag: a.a.kflag }
    };
    if a.v == Verdict::Quit {
        LoopOut { m: a.m, e: a.e, tret, flag: a.a.kflag, more: false }
    } else if c.flag != ARK_SUCCESS {
        LoopOut {
            m: leave(c.m),
            e: c.e,
            tret: c.m.stp().tcur,
            flag: handle_failure(c.flag),
            more: false,
        }
    } else {
        LoopOut { m: c.m, e: c.e, tret, flag: ARK_SUCCESS, more: true }
    }
}

fn ark_make_step<E: ArkEnv>(
    ark_mem: &mut ARKodeMemRec,
    env: &mut E,
    tret: &mut sunrealtype,
    flag: &mut i32,
) -> (more: bool)
    ensures
        ({
            let o = make_step(old(ark_mem)@, *old(env), *old(tret));
            &&& final(ark_mem)@ == o.m
            &&& *final(env) == o.e
            &&& *final(tret) == o.tret
            &&& *final(flag) == o.flag
            &&& more == o.more
        }),
{
    reveal(make_step);
    ark_count_hnil(ark_mem);
    let s: ArkStep = ark_mem.get_stp();
    let l: ArkLimits = ark_mem.get_lim();
    ark_mem.set_stp(with_next_step(s, l));
    let mut a: Attempt = first_attempt();
    let v: Verdict = ark_attempt_all(ark_mem, env, &mut a);
    if v == Verdict::Quit {
        *flag = a.kflag;
        return false;
    }
    let mut kflag: i32 = a.kflag;
    if kflag == ARK_SUCCESS {
        kflag = arkCompleteStep(ark_mem, env, a.dsm);
    }
    if kflag != ARK_SUCCESS {
        *flag = arkHandleFailure(kflag);
        *tret = ark_leave(ark_mem);
        return false;
    }
    *flag = ARK_SUCCESS;
    true
}

/// A root in the step just taken.
#[verifier::opaque]
pub open spec fn after_roots<E: ArkEnv>(
    m: MemView,
    e: E,
    tout: sunrealtype,
    itask: i32,
    tret: sunrealtype,
) -> LoopOut<E> {
    let r = module_run(m, e, ModuleCall::RootCheck3 { tout, itask });
    if root_count(m) <= 0 {
        LoopOut { m, e, tret, flag: ARK_SUCCESS, more: true }
    } else if r.flag == RTFOUND {
        let m1 = with_irfnd(r.m, 1);
        let t = root_tlo(m1);
        LoopOut { m: with_tretlast(m1, t), e: r.e, tret: t, flag: ARK_ROOT_RETURN, more: false }
    } else if r.flag == ARK_RTFUNC_FAIL {
        LoopOut { m: r.m, e: r.e, tret, flag: ARK_RTFUNC_FAIL, more: false }
    } else {
        LoopOut { m: r.m, e: r.e, tret, flag: ARK_SUCCESS, more: true }
    }
}

fn ark_after_roots<E: ArkEnv>(
    ark_mem: &mut ARKodeMemRec,
    env: &mut E,
    tout: sunrealtype,
    itask: i32,
    tret: &mut sunrealtype,
    flag: &mut i32,
) -> (more: bool)
    ensures
        ({
            let o = after_roots(old(ark_mem)@, *old(env), tout, itask, *old(tret));
            &&& final(ark_mem)@ == o.m
            &&& *final(env) == o.e
            &&& *final(tret) == o.tret
            &&& *final(flag) == o.flag
            &&& more == o.more
        }),
{
    reveal(after_roots);
    *flag = ARK_SUCCESS;
    if ark_root_count(ark_mem) <= 0 {
        return true;
    }
    let retval: i32 = call_module(ark_mem, env, ModuleCall::RootCheck3 { tout, itask });
    if retval == RTFOUND {
        set_irfnd(ark_mem, 1);
        let t: sunrealtype = ark_root_tlo(ark_mem);
        set_tretlast(ark_mem, t);
        *tret = t;
        *flag = ARK_ROOT_RETURN;
        return false;
    }
    if retval == ARK_RTFUNC_FAIL {
        *flag = ARK_RTFUNC_FAIL;
        return false;
    }
    true
}

/// The stop time reached, unless the output time comes first; otherwise the
/// next step is kept from overtaking it.
#[verifier::opaque]
pub open spec fn after_tstop<E: ArkEnv>(
    m: MemView,
    e: E,
    tout: sunrealtype,
    tret: sunrealtype,
) -> LoopOut<E> {
    let s = m.stp();
    let tround = time_roundoff(m.lim().uround, s.tcur, s.h);
    let past = r_sub(tout, s.tstop);
    let go = LoopOut { m, e, tret, flag: ARK_SUCCESS, more: true };
    if !s.tstopset {
        go
    } else if r_le(r_abs(r_sub(s.tcur, s.tstop)), tround) {
        if r_le(ZERO(), r_mul(past, s.h)) || r_le(r_abs(past), tround) {
            let d = if m.lim().tstopinterp && m.att().interp {
                show_at(m, e, s.tstop)
            } else {
                Run { m: show_yn(m), e, flag: ARK_SUCCESS }
            };
            if d.flag != ARK_SUCCESS {
                LoopOut { m: d.m, e: d.e, tret, flag: d.flag, more: false }
            } else {
                LoopOut {
                    m: put_stp(
                        d.m,
                        ArkStep { tretlast: s.tstop, tstopset: false, ..d.m.stp() },
                    ),
                    e: d.e,
                    tret: s.tstop,
                    flag: ARK_TSTOP_RETURN,
                    more: false,
                }
            }
        } else {
            go
        }
    } else {
        LoopOut { m: put_stp(m, limit_to_tstop(s, m.lim().uround)), ..go }
    }
}

fn ark_after_tstop<E: ArkEnv>(
    ark_mem: &mut ARKodeMemRec,
    env: &mut E,
    tout: sunrealtype,
    tret: &mut sunrealtype,
    flag: &mut i32,
) -> (more: bool)
    ensures
        ({
            let o = after_tstop(old(ark_mem)@, *old(env), tout, *old(tret));
            &&& final(ark_mem)@ == o.m
            &&& *final(env) == o.e
            &&& *final(tret) == o.tret
            &&& *final(flag) == o.flag
            &&& more == o.more
        }),
{
    reveal(after_tstop);
    *flag = ARK_SUCCESS;
    let s: ArkStep = ark_mem.get_stp();
    if !s.tstopset {
        return true;
    }
    let u: sunrealtype = ark_mem.get_lim().uround;
    let tround: sunrealtype = ark_time_roundoff(u, s.tcur, s.h);
    if SUNRabs(s.tcur - s.tstop) <= tround {
        let past: sunrealtype = tout - s.tstop;
        if past * s.h >= ZERO() || SUNRabs(past) <= tround {
            if ark_mem.get_lim().tstopinterp && ark_mem.get_att().interp {
                let retval: i32 = ark_show_at(ark_mem, env, s.tstop);
                if retval != ARK_SUCCESS {
                    *flag = retval;
                    return false;
                }
            } else {
                ark_show_yn(ark_mem);
            }
            let s1: ArkStep = ark_mem.get_stp();
            ark_mem.set_stp(ArkStep { tretlast: s.tstop, tstopset: false, ..s1 });
            *tret = s.tstop;
            *flag = ARK_TSTOP_RETURN;
            return false;
        }
    } else {
        ark_mem.set_stp(limited_to_tstop(s, u));
    }
    true
}

/// The memory with the next step size reported to the user.
#[verifier::opaque]
pub open spec fn report_step(m: MemView, t: sunrealtype) -> MemView {
    put_stp(m, ArkStep { tretlast: t, next_h: m.stp().hprime, ..m.stp() })
}

fn ark_report_step(ark_mem: &mut ARKodeMemRec, t: sunrealtype)
    ensures
        final(ark_mem)@ == report_step(old(ark_mem)@, t),
{
    reveal(report_step);
    let s: ArkStep = ark_mem.get_stp();
    ark_mem.set_stp(ArkStep { tretlast: t, next_h: s.hprime, ..s });
}

/// The output time reached, or the end of a single step.
#[verifier::opaque]
pub open spec fn after_tout<E: ArkEnv>(
    m: MemView,
    e: E,
    tout: sunrealtype,
    itask: i32,
    tret: sunrealtype,
) -> LoopOut<E> {
    let s = m.stp();
    if itask == ARK_NORMAL && r_le(ZERO(), r_mul(r_sub(s.tcur, tout), s.h)) {
        if m.att().interp {
            let d = show_at(m, e, tout);
            if d.flag != ARK_SUCCESS {
                LoopOut { m: d.m, e: d.e, tret, flag: d.flag, more: false }
            } else {
                LoopOut {
                    m: report_step(d.m, tout),
                    e: d.e,
                    tret: tout,
                    flag: ARK_SUCCESS,
                    more: false,
                }
            }
        } else {
            LoopOut {
                m: report_step(show_yn(m), s.tcur),
                e,
                tret: s.tcur,
                flag: ARK_SUCCESS,
                more: false,
            }
        }
    } else if itask == ARK_ONE_STEP {
        LoopOut { m: report_step(m, s.tcur), e, tret: s.tcur, flag: ARK_SUCCESS, more: false }
    } else {
        LoopOut { m, e, tret, flag: ARK_SUCCESS, more: true }
    }
}

fn ark_after_tout<E: ArkEnv>(
    ark_mem: &mut ARKodeMemRec,
    env: &mut E,
    tout: sunrealtype,
    itask: i32,
    tret: &mut sunrealtype,
    flag: &mut i32,
) -> (more: bool)
    ensures
        ({
            let o = after_tout(old(ark_mem)@, *old(env), tout, itask, *old(tret));
            &&& final(ark_mem)@ == o.m
            &&& *final(env) == o.e
            &&& *final(tret) == o.tret
            &&& *final(flag) == o.flag
            &&& more == o.more
        }),
{
    reveal(after_tout);
    *flag = ARK_SUCCESS;
    let s: ArkStep = ark_mem.get_stp();
    if itask == ARK_NORMAL && (s.tcur - tout) * s.h >= ZERO() {
        if ark_mem.get_att().interp {
            let retval: i32 = ark_show_at(ark_mem, env, tout);
            if retval != ARK_SUCCESS {
                *flag = retval;
                return false;
            }
            *tret = tout;
            ark_report_step(ark_mem, tout);
        } else {
            ark_show_yn(ark_mem);
            *tret = s.tcur;
            ark_report_step(ark_mem, s.tcur);
        }
        return false;
    }
    if itask == ARK_ONE_STEP {
        *tret = s.tcur;
        ark_report_step(ark_mem, s.tcur);
        return false;
    }
    true
}

/// The reasons to return after a step, in order: roots, stop time, output
/// time.
#[verifier::opaque]
pub open spec fn after_step<E: ArkEnv>(
    m: MemView,
    e: E,
    tout: sunrealtype,
    itask: i32,
    tret: sunrealtype,
) -> LoopOut<E> {
    let r = after_roots(m, e, tout, itask, tret);
    let s = after_tstop(r.m, r.e, tout, r.tret);
    if !r.more {
        r
    } else if !s.more {
        s
    } else {
        after_tout(s.m, s.e, tout, itask, s.tret)
    }
}

fn ark_after_step<E: ArkEnv>(
    ark_mem: &mut ARKodeMemRec,
    env: &mut E,
    tout: sunrealtype,
    itask: i32,
    tret: &mut sunrealtype,
    flag: &mut i32,
) -> (more: bool)
    ensures
        ({
            let o = after_step(old(ark_mem)@, *old(env), tout, itask, *old(tret));
            &&& final(ark_mem)@ == o.m
            &&& *final(env) == o.e
            &&& *final(tret) == o.tret
            &&& *final(flag) == o.flag
            &&& more == o.more
        }),
{
    reveal(after_step);
    if !ark_after_roots(ark_mem, env, tout, itask, tret, flag) {
        return false;
    }
    if !ark_after_tstop(ark_mem, env, tout, tret, flag) {
        return false;
    }
    ark_after_tout(ark_mem, env, tout, itask, tret, flag)
}

/// One pass of the loop: the tests before a step, the step, the reasons to
/// return after it.
#[verifier::opaque]
pub open spec fn one_pass<E: ArkEnv>(
    m: MemView,
    e: E,
    tout: sunrealtype,
    itask: i32,
    tret: sunrealtype,
    nstloc: i64,
) -> LoopOut<E> {
    let b = before_step(m, e, tret, nstloc);
    let s = make_step(b.m, b.e, b.tret);
    if !b.more {
        b
    } else if !s.more {
        s
    } else {
        after_step(s.m, s.e, tout, itask, s.tret)
    }
}

fn ark_one_pass<E: ArkEnv>(
    ark_mem: &mut ARKodeMemRec,
    env: &mut E,
    tout: sunrealtype,
    itask: i32,
    tret: &mut sunrealtype,
    nstloc: i64,
    flag: &mut i32,
) -> (more: bool)
    ensures
        ({
            let o = one_pass(old(ark_mem)@, *old(env), tout, itask, *old(tret), nstloc);
            &&& final(ark_mem)@ == o.m
            &&& *final(env) == o.e
            &&& *final(tret) == o.tret
            &&& *final(flag) == o.flag
            &&& more == o.more
        }),
{
    reveal(one_pass);
    if !ark_before_step(ark_mem, env, tret, nstloc, flag) {
        return false;
    }
    if !ark_make_step(ark_mem, env, tret, flag) {
        return false;
    }
    ark_after_step(ark_mem, env, tout, itask, tret, flag)
}

/// Outcome of an integration: it ends with `flag` at time `tret`.
pub struct EvolveOut<E> {
    pub m: MemView,
    pub e: E,
    pub tret: sunrealtype,
    pub flag: i32,
}

/// A pass at the largest step number never asks for another one.
pub proof fn lemma_pass_limit<E: ArkEnv>(
    m: MemView,
    e: E,
    tout: sunrealtype,
    itask: i32,
    tret: sunrealtype,
)
    ensures
        !one_pass(m, e, tout, itask, tret, i64::MAX).more,
{
    reveal(one_pass);
    reveal(before_step);
}

/// Passes until one ends the integration; `nstloc` steps have been taken.
pub open spec fn evolve_from<E: ArkEnv>(
    m: MemView,
    e: E,
    tout: sunrealtype,
    itask: i32,
    tret: sunrealtype,
    nstloc: i64,
) -> EvolveOut<E>
    decreases i64::MAX - nstloc,
{
    let o = one_pass(m, e, tout, itask, tret, nstloc);
    if !o.more || nstloc == i64::MAX {
        EvolveOut { m: o.m, e: o.e, tret: o.tret, flag: o.flag }
    } else {
        evolve_from(o.m, o.e, tout, itask, o.tret, (nstloc + 1) as i64)
    }
}

fn ark_evolve_loop<E: ArkEnv>(
    ark_mem: &mut ARKodeMemRec,
    env: &mut E,
    tout: sunrealtype,
    itask: i32,
    tret: &mut sunrealtype,
) -> (flag: i32)
    ensures
        ({
            let o = evolve_from(old(ark_mem)@, *old(env), tout, itask, *old(tret), 0);
            &&& final(ark_mem)@ == o.m
            &&& *final(env) == o.e
            &&& *final(tret) == o.tret
            &&& flag == o.flag
        }),
{
    let mut nstloc: i64 = 0;
    loop
        invariant
            nstloc >= 0,
            evolve_from(ark_mem@, *env, tout, itask, *tret, nstloc) == evolve_from(
                old(ark_mem)@,
                *old(env),
                tout,
                itask,
                *old(tret),
                0,
            ),
        decreases i64::MAX - nstloc,
    {
        let mut flag: i32 = ARK_SUCCESS;
        let ghost m0 = ark_mem@;
        let ghost e0 = *env;
        let ghost t0 = *tret;
        let more: bool = ark_one_pass(ark_mem, env, tout, itask, tret, nstloc, &mut flag);
        if !more {
            return flag;
        }
        proof {
            if nstloc == i64::MAX {
                lemma_pass_limit(m0, e0, tout, itask, t0);
            }
        }
        nstloc = nstloc + 1;
    }
}

/// What precedes the loop: the setup of a first call, and the reasons to
/// return before any step.
#[verifier::opaque]
pub open spec fn start_evolve<E: ArkEnv>(
    m: MemView,
    e: E,
    tout: sunrealtype,
    itask: i32,
    tret: sunrealtype,
) -> LoopOut<E> {
    let first = m.flg().initsetup;
    let m0 = with_tretlast(m, m.stp().tcur);
    let i = initial_setup(m0, e, tout);
    let a = if first {
        LoopOut {
            m: i.m,
            e: i.e,
            tret: m.stp().tcur,
            flag: i.flag,
            more: i.flag == ARK_SUCCESS,
        }
    } else {
        LoopOut { m, e, tret, flag: ARK_SUCCESS, more: true }
    };
    let s = stop_tests(a.m, a.e, None, tout, a.tret, itask, ARK_SUCCESS);
    let b = if a.m.flg().initsetup {
        a
    } else {
        LoopOut { m: s.m, e: s.e, tret: s.tret, flag: s.ier, more: s.stop == 0 }
    };
    let m1 = with_tcur(b.m, b.m.stp().tn);
    if !a.more {
        a
    } else if !b.more {
        b
    } else {
        LoopOut {
            m: if m1.lim().ensure_ycur {
                show_yn(m1)
            } else {
                m1
            },
            ..b
        }
    }
}

fn ark_start_evolve<E: ArkEnv>(
    ark_mem: &mut ARKodeMemRec,
    env: &mut E,
    tout: sunrealtype,
    itask: i32,
    tret: &mut sunrealtype,
    flag: &mut i32,
) -> (more: bool)
    ensures
        ({
            let o = start_evolve(old(ark_mem)@, *old(env), tout, itask, *old(tret));
            &&& final(ark_mem)@ == o.m
            &&& *final(env) == o.e
            &&& *final(tret) == o.tret
            &&& *final(flag) == o.flag
            &&& more == o.more
        }),
{
    reveal(start_evolve);
    *flag = ARK_SUCCESS;
    if ark_mem.get_flg().initsetup {
        let t: sunrealtype = ark_mem.get_stp().tcur;
        set_tretlast(ark_mem, t);
        *tret = t;
        let retval: i32 = arkInitialSetup(ark_mem, env, tout);
        if retval != ARK_SUCCESS {
            *flag = retval;
            return false;
        }
    }
    if !ark_mem.get_flg().initsetup {
        let mut own: Option<N_Vector> = None;
        let stop: i32 = ark_stop_tests(ark_mem, env, &mut own, tout, tret, itask, flag);
        if stop != 0 {
            return false;
        }
    }
    let tn: sunrealtype = ark_mem.get_stp().tn;
    set_tcur(ark_mem, tn);
    if ark_mem.get_lim().ensure_ycur {
        ark_show_yn(ark_mem);
    }
    true
}

/// An integration towards `tout` from the state of the memory, with the
/// current solution in `yout`.
#[verifier::opaque]
pub open spec fn evolve<E: ArkEnv>(
    m: MemView,
    e: E,
    tout: sunrealtype,
    yout: NVec,
    tret: sunrealtype,
    itask: i32,
) -> EvolveOut<E> {
    let m0 = put_ycur(m, yout);
    let a = start_evolve(m0, e, tout, itask, tret);
    if !m.flg().MallocDone {
        EvolveOut { m, e, tret, flag: ARK_NO_MALLOC }
    } else if itask != ARK_NORMAL && itask != ARK_ONE_STEP {
        EvolveOut { m: m0, e, tret, flag: ARK_ILL_INPUT }
    } else if !a.more {
        EvolveOut { m: a.m, e: a.e, tret: a.tret, flag: a.flag }
    } else {
        evolve_from(a.m, a.e, tout, itask, a.tret, 0)
    }
}

/// Integrates towards `tout`; the solution at `tret` is handed out in `yout`,
/// which shares its components with the current solution of the memory.
///
/// One call takes as many steps as a 64-bit counter can count, or `mxstep`
/// where that is positive.
pub fn ARKodeEvolve<E: ArkEnv>(
    ark_mem: &mut ARKodeMemRec,
    env: &mut E,
    tout: sunrealtype,
    yout: &mut N_Vector,
    tret: &mut sunrealtype,
    itask: i32,
) -> (flag: i32)
    ensures
        ({
            let o = evolve(old(ark_mem)@, *old(env), tout, old(yout)@, *old(tret), itask);
            &&& final(ark_mem)@ == o.m
            &&& *final(env) == o.e
            &&& *final(tret) == o.tret
            &&& flag == o.flag
            &&& final(yout)@ == if old(ark_mem)@.flg().MallocDone {
                o.m.ycur()
            } else {
                old(yout)@
            }
        }),
{
    reveal(evolve);
    if !ark_mem.get_flg().MallocDone {
        return ARK_NO_MALLOC;
    }
    ark_mem.set_ycur(copy_vector(yout));
    if itask != ARK_NORMAL && itask != ARK_ONE_STEP {
        *yout = ark_mem.get_ycur();
        return ARK_ILL_INPUT;
    }
    let mut flag: i32 = ARK_SUCCESS;
    if ark_start_evolve(ark_mem, env, tout, itask, tret, &mut flag) {
        flag = ark_evolve_loop(ark_mem, env, tout, itask, tret);
    }
    *yout = ark_mem.get_ycur();
    flag
}

} // verus!
