//! Tests for stopping before a step is taken.
use crate::arkode_codes::{
    ARK_FULLRHS_END, ARK_ILL_INPUT, ARK_NORMAL, ARK_ONE_STEP, ARK_RHSFUNC_FAIL, ARK_ROOT_RETURN,
    ARK_RTFUNC_FAIL, ARK_SUCCESS, ARK_TSTOP_RETURN, CLOSERT, RTFOUND,
};
use crate::arkode_hin::{ark_refresh_fn, refresh_fn};
use crate::arkode_impl::{ARKodeMemRec, ArkStep, MemView, RootMem};
use crate::arkode_mem::{put_root, put_stp, put_ycur};
use crate::arkode_predict::{get_dky, ARKodeGetDky};
use crate::arkode_step::{ark_time_roundoff, time_roundoff};
use crate::binary64::{r_abs, r_add, r_div, r_le, r_lt, r_mul, r_sub, sunrealtype};
use crate::env::{ArkEnv, ModuleCall};
use crate::nvector::{copy_vector, v_scale, NVec, N_VScale, N_Vector};
use crate::outcome::{call_module, module_run, Run};
use crate::sundials_math::SUNRabs;
use crate::sundials_types::{FOUR, ONE, ZERO};
use vstd::prelude::*;

verus! {

broadcast use crate::order::group_order;

/// Outcome of a test for stopping: `stop` is one when the integrator has to
/// return `ier` at time `tret`. A solution to return is in `y`, or, where that
/// is none, in the current solution of the memory.
pub struct StopOut<E> {
    pub m: MemView,
    pub e: E,
    pub y: Option<NVec>,
    pub tret: sunrealtype,
    pub ier: i32,
    pub stop: i32,
}

/// The memory with the time of the last return replaced.
#[verifier::opaque]
pub open spec fn with_tretlast(m: MemView, t: sunrealtype) -> MemView {
    put_stp(m, ArkStep { tretlast: t, ..m.stp() })
}

/// Sets the time of the last return.
pub fn set_tretlast(ark_mem: &mut ARKodeMemRec, t: sunrealtype)
    ensures
        final(ark_mem)@ == with_tretlast(old(ark_mem)@, t),
{
    reveal(with_tretlast);
    let s: ArkStep = ark_mem.get_stp();
    ark_mem.set_stp(ArkStep { tretlast: t, ..s });
}

/// The memory with the record of roots found in the last step replaced.
#[verifier::opaque]
pub open spec fn with_irfnd(m: MemView, n: i32) -> MemView {
    match m.root() {
        None => m,
        Some(r) => put_root(m, Some(RootMem { irfnd: n, ..r })),
    }
}

/// Records whether roots were found in the last step.
pub fn set_irfnd(ark_mem: &mut ARKodeMemRec, n: i32)
    ensures
        final(ark_mem)@ == with_irfnd(old(ark_mem)@, n),
{
    reveal(with_irfnd);
    match ark_mem.get_root() {
        None => {},
        Some(r) => {
            ark_mem.set_root(Some(RootMem { irfnd: n, ..r }));
        },
    }
}

/// Left end of the interval that was searched for roots.
pub open spec fn root_tlo(m: MemView) -> sunrealtype {
    match m.root() {
        None => ZERO(),
        Some(r) => r.tlo,
    }
}

/// Left end of the interval that was searched for roots.
pub fn ark_root_tlo(ark_mem: &ARKodeMemRec) -> (r: sunrealtype)
    ensures
        r == root_tlo(ark_mem@),
{
    match ark_mem.get_root() {
        None => ZERO(),
        Some(r) => r.tlo,
    }
}

/// Number of root functions.
pub open spec fn root_count(m: MemView) -> i32 {
    match m.root() {
        None => 0,
        Some(r) => r.nrtfn,
    }
}

/// Number of root functions.
pub fn ark_root_count(ark_mem: &ARKodeMemRec) -> (r: i32)
    ensures
        r == root_count(ark_mem@),
{
    match ark_mem.get_root() {
        None => 0,
        Some(r) => r.nrtfn,
    }
}

/// Whether roots were found in the last step.
pub open spec fn root_irfnd(m: MemView) -> i32 {
    match m.root() {
        None => 0,
        Some(r) => r.irfnd,
    }
}

/// Whether roots were found in the last step.
pub fn ark_root_irfnd(ark_mem: &ARKodeMemRec) -> (r: i32)
    ensures
        r == root_irfnd(ark_mem@),
{
    match ark_mem.get_root() {
        None => 0,
        Some(r) => r.irfnd,
    }
}

/// The last solution handed out as the current one.
#[verifier::opaque]
pub open spec fn show_yn(m: MemView) -> MemView {
    put_ycur(m, v_scale(ONE(), m.yn(), m.ycur()))
}

/// Hands out the last solution as the current one.
pub fn ark_show_yn(ark_mem: &mut ARKodeMemRec)
    ensures
        final(ark_mem)@ == show_yn(old(ark_mem)@),
{
    reveal(show_yn);
    let y: N_Vector = N_VScale(ONE(), &ark_mem.get_yn(), &ark_mem.get_ycur());
    ark_mem.set_ycur(y);
}

/// The interpolated solution at `t` handed out as the current one.
#[verifier::opaque]
pub open spec fn show_at<E: ArkEnv>(m: MemView, e: E, t: sunrealtype) -> Run<E> {
    let r = get_dky(m, e, t, 0, m.ycur());
    Run { m: put_ycur(r.m, r.v), e: r.e, flag: r.flag }
}

/// Hands out the interpolated solution at `t` as the current one.
pub fn ark_show_at<E: ArkEnv>(ark_mem: &mut ARKodeMemRec, env: &mut E, t: sunrealtype) -> (flag: i32)
    ensures
        final(ark_mem)@ == show_at(old(ark_mem)@, *old(env), t).m,
        *final(env) == show_at(old(ark_mem)@, *old(env), t).e,
        flag == show_at(old(ark_mem)@, *old(env), t).flag,
{
    reveal(show_at);
    let mut y: N_Vector = ark_mem.get_ycur();
    let flag: i32 = ARKodeGetDky(ark_mem, env, t, 0, &mut y);
    ark_mem.set_ycur(y);
    flag
}

/// What a buffer holds, where there is one.
pub open spec fn buffered(y: Option<N_Vector>) -> Option<NVec> {
    match y {
        None => None,
        Some(v) => Some(v@),
    }
}

/// The last solution handed out in a buffer, or, without one, as the current
/// solution.
#[verifier::opaque]
pub open spec fn give_yn(m: MemView, y: Option<NVec>) -> (MemView, Option<NVec>) {
    match y {
        None => (show_yn(m), None),
        Some(v) => (m, Some(v_scale(ONE(), m.yn(), v))),
    }
}

fn ark_give_yn(ark_mem: &mut ARKodeMemRec, y: &mut Option<N_Vector>)
    ensures
        final(ark_mem)@ == give_yn(old(ark_mem)@, buffered(*old(y))).0,
        buffered(*final(y)) == give_yn(old(ark_mem)@, buffered(*old(y))).1,
{
    reveal(give_yn);
    match y.take() {
        None => {
            ark_show_yn(ark_mem);
            *y = None;
        },
        Some(v) => {
            *y = Some(N_VScale(ONE(), &ark_mem.get_yn(), &v));
        },
    }
}

/// Memory, environment, buffer and flag.
pub struct GiveOut<E> {
    pub m: MemView,
    pub e: E,
    pub y: Option<NVec>,
    pub flag: i32,
}

/// The interpolated solution at `t` handed out in a buffer, or, without one,
/// as the current solution.
#[verifier::opaque]
pub open spec fn give_at<E: ArkEnv>(m: MemView, e: E, t: sunrealtype, y: Option<NVec>) -> GiveOut<E> {
    match y {
        None => {
            let r = show_at(m, e, t);
            GiveOut { m: r.m, e: r.e, y: None, flag: r.flag }
        },
        Some(v) => {
            let r = get_dky(m, e, t, 0, v);
            GiveOut { m: r.m, e: r.e, y: Some(r.v), flag: r.flag }
        },
    }
}

fn ark_give_at<E: ArkEnv>(
    ark_mem: &mut ARKodeMemRec,
    env: &mut E,
    t: sunrealtype,
    y: &mut Option<N_Vector>,
) -> (flag: i32)
    ensures
        ({
            let o = give_at(old(ark_mem)@, *old(env), t, buffered(*old(y)));
            &&& final(ark_mem)@ == o.m
            &&& *final(env) == o.e
            &&& buffered(*final(y)) == o.y
            &&& flag == o.flag
        }),
{
    reveal(give_at);
    match y.take() {
        None => {
            *y = None;
            ark_show_at(ark_mem, env, t)
        },
        Some(v0) => {
            let mut v: N_Vector = v0;
            let flag: i32 = ARKodeGetDky(ark_mem, env, t, 0, &mut v);
            *y = Some(v);
            flag
        },
    }
}

/// The step with the next step size cut back where it would overtake the stop
/// time.
#[verifier::opaque]
pub open spec fn limit_to_tstop(s: ArkStep, uround: sunrealtype) -> ArkStep {
    if s.tstopset && r_lt(ZERO(), r_mul(r_sub(r_add(s.tcur, s.hprime), s.tstop), s.h)) {
        let hprime = r_mul(r_sub(s.tstop, s.tcur), r_sub(ONE(), r_mul(FOUR(), uround)));
        ArkStep { hprime, eta: r_div(hprime, s.h), ..s }
    } else {
        s
    }
}

/// Cuts the next step size back where it would overtake the stop time.
pub fn limited_to_tstop(s: ArkStep, uround: sunrealtype) -> (r: ArkStep)
    ensures
        r == limit_to_tstop(s, uround),
{
    reveal(limit_to_tstop);
    if s.tstopset && (s.tcur + s.hprime - s.tstop) * s.h > ZERO() {
        let hprime: sunrealtype = (s.tstop - s.tcur) * (ONE() - FOUR() * uround);
        ArkStep { hprime, eta: hprime / s.h, ..s }
    } else {
        s
    }
}

/// A root close to the last one: the right-hand side is brought up to date
/// where the last step ended at a root, and the neighbourhood of that root is
/// searched.
#[verifier::opaque]
pub open spec fn near_root<E: ArkEnv>(
    m: MemView,
    e: E,
    y: Option<NVec>,
    tret: sunrealtype,
    ier: i32,
) -> StopOut<E> {
    let f = if root_irfnd(m) != 0 {
        refresh_fn(m, e, ARK_FULLRHS_END)
    } else {
        Run { m, e, flag: ARK_SUCCESS }
    };
    let r = module_run(f.m, f.e, ModuleCall::RootCheck2);
    if f.flag != 0 {
        StopOut { m: f.m, e: f.e, y, tret, ier: ARK_RHSFUNC_FAIL, stop: 1 }
    } else if r.flag == CLOSERT {
        StopOut { m: r.m, e: r.e, y, tret, ier: ARK_ILL_INPUT, stop: 1 }
    } else if r.flag == ARK_RTFUNC_FAIL {
        StopOut { m: r.m, e: r.e, y, tret, ier: ARK_RTFUNC_FAIL, stop: 1 }
    } else if r.flag == RTFOUND {
        let t = root_tlo(r.m);
        StopOut { m: with_tretlast(r.m, t), e: r.e, y, tret: t, ier: ARK_ROOT_RETURN, stop: 1 }
    } else {
        StopOut { m: r.m, e: r.e, y, tret, ier, stop: 0 }
    }
}

fn ark_near_root<E: ArkEnv>(
    ark_mem: &mut ARKodeMemRec,
    env: &mut E,
    y: &mut Option<N_Vector>,
    tret: &mut sunrealtype,
    ier: &mut i32,
) -> (stop: i32)
    ensures
        ({
            let o = near_root(old(ark_mem)@, *old(env), buffered(*old(y)), *old(tret), *old(ier));
            &&& final(ark_mem)@ == o.m
            &&& *final(env) == o.e
            &&& buffered(*final(y)) == o.y
            &&& *final(tret) == o.tret
            &&& *final(ier) == o.ier
            &&& stop == o.stop
        }),
{
    reveal(near_root);
    if ark_root_irfnd(ark_mem) != 0 {
        let retval: i32 = ark_refresh_fn(ark_mem, env, ARK_FULLRHS_END);
        if retval != 0 {
            *ier = ARK_RHSFUNC_FAIL;
            return 1;
        }
    }
    let retval: i32 = call_module(ark_mem, env, ModuleCall::RootCheck2);
    if retval == CLOSERT {
        *ier = ARK_ILL_INPUT;
        return 1;
    } else if retval == ARK_RTFUNC_FAIL {
        *ier = ARK_RTFUNC_FAIL;
        return 1;
    } else if retval == RTFOUND {
        let t: sunrealtype = ark_root_tlo(ark_mem);
        set_tretlast(ark_mem, t);
        *tret = t;
        *ier = ARK_ROOT_RETURN;
        return 1;
    }
    0
}

/// A root in the rest of the last step. Without one the last solution is
/// returned where it was held back by a root.
#[verifier::opaque]
pub open spec fn later_root<E: ArkEnv>(
    m: MemView,
    e: E,
    y: Option<NVec>,
    tout: sunrealtype,
    itask: i32,
    irfndp: i32,
    tret: sunrealtype,
    ier: i32,
) -> StopOut<E> {
    let r = module_run(m, e, ModuleCall::RootCheck3 { tout, itask });
    if r.flag == ARK_SUCCESS {
        let m1 = with_irfnd(r.m, 0);
        if irfndp == 1 && itask == ARK_ONE_STEP {
            let t = m1.stp().tcur;
            let d = give_yn(with_tretlast(m1, t), y);
            StopOut {
                m: d.0,
                e: r.e,
                y: d.1,
                tret: t,
                ier: ARK_SUCCESS,
                stop: 1,
            }
        } else {
            StopOut { m: m1, e: r.e, y, tret, ier, stop: 0 }
        }
    } else if r.flag == RTFOUND {
        let m1 = with_irfnd(r.m, 1);
        let t = root_tlo(m1);
        StopOut { m: with_tretlast(m1, t), e: r.e, y, tret: t, ier: ARK_ROOT_RETURN, stop: 1 }
    } else if r.flag == ARK_RTFUNC_FAIL {
        StopOut { m: r.m, e: r.e, y, tret, ier: ARK_RTFUNC_FAIL, stop: 1 }
    } else {
        StopOut { m: r.m, e: r.e, y, tret, ier, stop: 0 }
    }
}

fn ark_later_root<E: ArkEnv>(
    ark_mem: &mut ARKodeMemRec,
    env: &mut E,
    y: &mut Option<N_Vector>,
    tout: sunrealtype,
    itask: i32,
    irfndp: i32,
    tret: &mut sunrealtype,
    ier: &mut i32,
) -> (stop: i32)
    ensures
        ({
            let o = later_root(
                old(ark_mem)@,
                *old(env),
                buffered(*old(y)),
                tout,
                itask,
                irfndp,
                *old(tret),
                *old(ier),
            );
            &&& final(ark_mem)@ == o.m
            &&& *final(env) == o.e
            &&& buffered(*final(y)) == o.y
            &&& *final(tret) == o.tret
            &&& *final(ier) == o.ier
            &&& stop == o.stop
        }),
{
    reveal(later_root);
    let retval: i32 = call_module(ark_mem, env, ModuleCall::RootCheck3 { tout, itask });
    if retval == ARK_SUCCESS {
        set_irfnd(ark_mem, 0);
        if irfndp == 1 && itask == ARK_ONE_STEP {
            let t: sunrealtype = ark_mem.get_stp().tcur;
            set_tretlast(ark_mem, t);
            *tret = t;
            ark_give_yn(ark_mem, y);
            *ier = ARK_SUCCESS;
            return 1;
        }
    } else if retval == RTFOUND {
        set_irfnd(ark_mem, 1);
        let t: sunrealtype = ark_root_tlo(ark_mem);
        set_tretlast(ark_mem, t);
        *tret = t;
        *ier = ARK_ROOT_RETURN;
        return 1;
    } else if retval == ARK_RTFUNC_FAIL {
        *ier = ARK_RTFUNC_FAIL;
        return 1;
    }
    0
}

/// Roots in the last step other than the one that was returned last.
#[verifier::opaque]
pub open spec fn root_stop<E: ArkEnv>(
    m: MemView,
    e: E,
    y: Option<NVec>,
    tout: sunrealtype,
    itask: i32,
    tround: sunrealtype,
    tret: sunrealtype,
    ier: i32,
) -> StopOut<E> {
    let a = near_root(m, e, y, tret, ier);
    if root_count(m) <= 0 {
        StopOut { m, e, y, tret, ier, stop: 0 }
    } else if a.stop != 0 {
        a
    } else if r_lt(tround, r_abs(r_sub(a.m.stp().tcur, a.m.stp().tretlast))) {
        later_root(a.m, a.e, a.y, tout, itask, root_irfnd(m), a.tret, a.ier)
    } else {
        a
    }
}

fn ark_root_stop<E: ArkEnv>(
    ark_mem: &mut ARKodeMemRec,
    env: &mut E,
    y: &mut Option<N_Vector>,
    tout: sunrealtype,
    itask: i32,
    tround: sunrealtype,
    tret: &mut sunrealtype,
    ier: &mut i32,
) -> (stop: i32)
    ensures
        ({
            let o = root_stop(
                old(ark_mem)@,
                *old(env),
                buffered(*old(y)),
                tout,
                itask,
                tround,
                *old(tret),
                *old(ier),
            );
            &&& final(ark_mem)@ == o.m
            &&& *final(env) == o.e
            &&& buffered(*final(y)) == o.y
            &&& *final(tret) == o.tret
            &&& *final(ier) == o.ier
            &&& stop == o.stop
        }),
{
    reveal(root_stop);
    if ark_root_count(ark_mem) <= 0 {
        return 0;
    }
    let irfndp: i32 = ark_root_irfnd(ark_mem);
    let stop: i32 = ark_near_root(ark_mem, env, y, tret, ier);
    if stop != 0 {
        return stop;
    }
    let s: ArkStep = ark_mem.get_stp();
    if SUNRabs(s.tcur - s.tretlast) > tround {
        return ark_later_root(ark_mem, env, y, tout, itask, irfndp, tret, ier);
    }
    stop
}

/// The stop time reached, unless the output time comes first; otherwise the
/// next step is kept from overtaking it.
#[verifier::opaque]
pub open spec fn tstop_stop<E: ArkEnv>(
    m: MemView,
    e: E,
    y: Option<NVec>,
    tout: sunrealtype,
    tround: sunrealtype,
    tret: sunrealtype,
    ier: i32,
) -> StopOut<E> {
    let s = m.stp();
    let past = r_sub(tout, s.tstop);
    if !s.tstopset {
        StopOut { m, e, y, tret, ier, stop: 0 }
    } else if r_le(r_abs(r_sub(s.tcur, s.tstop)), tround) {
        if r_le(ZERO(), r_mul(past, s.h)) || r_le(r_abs(past), tround) {
            let g = give_yn(m, y);
            let d = if m.lim().tstopinterp && m.att().interp {
                give_at(m, e, s.tstop, y)
            } else {
                GiveOut { m: g.0, e, y: g.1, flag: ARK_SUCCESS }
            };
            if d.flag != ARK_SUCCESS {
                StopOut { m: d.m, e: d.e, y: d.y, tret, ier: ARK_ILL_INPUT, stop: 1 }
            } else {
                StopOut {
                    m: put_stp(
                        d.m,
                        ArkStep { tretlast: s.tstop, tstopset: false, ..d.m.stp() },
                    ),
                    e: d.e,
                    y: d.y,
                    tret: s.tstop,
                    ier: ARK_TSTOP_RETURN,
                    stop: 1,
                }
            }
        } else {
            StopOut { m, e, y, tret, ier, stop: 0 }
        }
    } else {
        StopOut { m: put_stp(m, limit_to_tstop(s, m.lim().uround)), e, y, tret, ier, stop: 0 }
    }
}

fn ark_tstop_stop<E: ArkEnv>(
    ark_mem: &mut ARKodeMemRec,
    env: &mut E,
    y: &mut Option<N_Vector>,
    tout: sunrealtype,
    tround: sunrealtype,
    tret: &mut sunrealtype,
    ier: &mut i32,
) -> (stop: i32)
    ensures
        ({
            let o = tstop_stop(old(ark_mem)@, *old(env), buffered(*old(y)), tout, tround, *old(tret), *old(ier));
            &&& final(ark_mem)@ == o.m
            &&& *final(env) == o.e
            &&& buffered(*final(y)) == o.y
            &&& *final(tret) == o.tret
            &&& *final(ier) == o.ier
            &&& stop == o.stop
        }),
{
    reveal(tstop_stop);
    let s: ArkStep = ark_mem.get_stp();
    if !s.tstopset {
        return 0;
    }
    if SUNRabs(s.tcur - s.tstop) <= tround {
        let past: sunrealtype = tout - s.tstop;
        if past * s.h >= ZERO() || SUNRabs(past) <= tround {
            if ark_mem.get_lim().tstopinterp && ark_mem.get_att().interp {
                let retval: i32 = ark_give_at(ark_mem, env, s.tstop, y);
                if retval != ARK_SUCCESS {
                    *ier = ARK_ILL_INPUT;
                    return 1;
                }
            } else {
                ark_give_yn(ark_mem, y);
            }
            let s1: ArkStep = ark_mem.get_stp();
            ark_mem.set_stp(ArkStep { tretlast: s.tstop, tstopset: false, ..s1 });
            *tret = s.tstop;
            *ier = ARK_TSTOP_RETURN;
            return 1;
        }
    } else {
        let l: sunrealtype = ark_mem.get_lim().uround;
        ark_mem.set_stp(limited_to_tstop(s, l));
    }
    0
}

/// The output time reached, or, one step at a time, a solution that was not
/// returned yet.
#[verifier::opaque]
pub open spec fn tout_stop<E: ArkEnv>(
    m: MemView,
    e: E,
    y: Option<NVec>,
    tout: sunrealtype,
    itask: i32,
    tround: sunrealtype,
    tret: sunrealtype,
    ier: i32,
) -> StopOut<E> {
    let s = m.stp();
    let g = give_yn(m, y);
    if itask == ARK_NORMAL && r_le(ZERO(), r_mul(r_sub(s.tcur, tout), s.h)) {
        if m.att().interp {
            let d = give_at(m, e, tout, y);
            if d.flag != ARK_SUCCESS {
                StopOut { m: d.m, e: d.e, y: d.y, tret, ier: ARK_ILL_INPUT, stop: 1 }
            } else {
                StopOut {
                    m: with_tretlast(d.m, tout),
                    e: d.e,
                    y: d.y,
                    tret: tout,
                    ier: ARK_SUCCESS,
                    stop: 1,
                }
            }
        } else {
            StopOut {
                m: with_tretlast(g.0, s.tcur),
                e,
                y: g.1,
                tret: s.tcur,
                ier: ARK_SUCCESS,
                stop: 1,
            }
        }
    } else if itask == ARK_ONE_STEP && r_lt(tround, r_abs(r_sub(s.tcur, s.tretlast))) {
        StopOut {
            m: with_tretlast(g.0, s.tcur),
            e,
            y: g.1,
            tret: s.tcur,
            ier: ARK_SUCCESS,
            stop: 1,
        }
    } else {
        StopOut { m, e, y, tret, ier, stop: 0 }
    }
}

fn ark_tout_stop<E: ArkEnv>(
    ark_mem: &mut ARKodeMemRec,
    env: &mut E,
    y: &mut Option<N_Vector>,
    tout: sunrealtype,
    itask: i32,
    tround: sunrealtype,
    tret: &mut sunrealtype,
    ier: &mut i32,
) -> (stop: i32)
    ensures
        ({
            let o = tout_stop(
                old(ark_mem)@,
                *old(env),
                buffered(*old(y)),
                tout,
                itask,
                tround,
                *old(tret),
                *old(ier),
            );
            &&& final(ark_mem)@ == o.m
            &&& *final(env) == o.e
            &&& buffered(*final(y)) == o.y
            &&& *final(tret) == o.tret
            &&& *final(ier) == o.ier
            &&& stop == o.stop
        }),
{
    reveal(tout_stop);
    let s: ArkStep = ark_mem.get_stp();
    if itask == ARK_NORMAL && (s.tcur - tout) * s.h >= ZERO() {
        if ark_mem.get_att().interp {
            let retval: i32 = ark_give_at(ark_mem, env, tout, y);
            if retval != ARK_SUCCESS {
                *ier = ARK_ILL_INPUT;
                return 1;
            }
            set_tretlast(ark_mem, tout);
            *tret = tout;
        } else {
            ark_give_yn(ark_mem, y);
            set_tretlast(ark_mem, s.tcur);
            *tret = s.tcur;
        }
        *ier = ARK_SUCCESS;
        return 1;
    }
    if itask == ARK_ONE_STEP && SUNRabs(s.tcur - s.tretlast) > tround {
        ark_give_yn(ark_mem, y);
        set_tretlast(ark_mem, s.tcur);
        *tret = s.tcur;
        *ier = ARK_SUCCESS;
        return 1;
    }
    0
}

/// The tests in order: roots, stop time, output time.
#[verifier::opaque]
pub open spec fn stop_tests<E: ArkEnv>(
    m: MemView,
    e: E,
    y: Option<NVec>,
    tout: sunrealtype,
    tret: sunrealtype,
    itask: i32,
    ier: i32,
) -> StopOut<E> {
    let tround = time_roundoff(m.lim().uround, m.stp().tcur, m.stp().h);
    let a = root_stop(m, e, y, tout, itask, tround, tret, ier);
    let b = tstop_stop(a.m, a.e, a.y, tout, tround, a.tret, a.ier);
    if a.stop != 0 {
        a
    } else if b.stop != 0 {
        b
    } else {
        tout_stop(b.m, b.e, b.y, tout, itask, tround, b.tret, b.ier)
    }
}

/// The tests keep a buffer a buffer.
proof fn lemma_buffer_kept<E: ArkEnv>(
    m: MemView,
    e: E,
    y: Option<NVec>,
    tout: sunrealtype,
    tret: sunrealtype,
    itask: i32,
    ier: i32,
)
    ensures
        stop_tests(m, e, y, tout, tret, itask, ier).y is Some == (y is Some),
{
    reveal(stop_tests);
    reveal(root_stop);
    reveal(near_root);
    reveal(later_root);
    reveal(tstop_stop);
    reveal(tout_stop);
    reveal(give_yn);
    reveal(give_at);
}

/// Whether the integrator has to return before it takes a step. A solution to
/// return is handed out in `yout`, a buffer apart from the current solution of
/// the memory.
pub fn arkStopTests<E: ArkEnv>(
    ark_mem: &mut ARKodeMemRec,
    env: &mut E,
    tout: sunrealtype,
    yout: &mut N_Vector,
    tret: &mut sunrealtype,
    itask: i32,
    ier: &mut i32,
) -> (stop: i32)
    ensures
        ({
            let o = stop_tests(
                old(ark_mem)@,
                *old(env),
                Some(old(yout)@),
                tout,
                *old(tret),
                itask,
                *old(ier),
            );
            &&& final(ark_mem)@ == o.m
            &&& Some(final(yout)@) == o.y
            &&& *final(env) == o.e
            &&& *final(tret) == o.tret
            &&& *final(ier) == o.ier
            &&& stop == o.stop
        }),
{
    proof {
        lemma_buffer_kept(ark_mem@, *env, Some(yout@), tout, *tret, itask, *ier);
    }
    let mut y: Option<N_Vector> = Some(copy_vector(yout));
    let stop: i32 = ark_stop_tests(ark_mem, env, &mut y, tout, tret, itask, ier);
    if let Some(v) = y {
        *yout = v;
    }
    stop
}

/// The tests; a solution to return is handed out in `y`, or, where that is
/// none, as the current solution of the memory.
pub fn ark_stop_tests<E: ArkEnv>(
    ark_mem: &mut ARKodeMemRec,
    env: &mut E,
    y: &mut Option<N_Vector>,
    tout: sunrealtype,
    tret: &mut sunrealtype,
    itask: i32,
    ier: &mut i32,
) -> (stop: i32)
    ensures
        ({
            let o = stop_tests(
                old(ark_mem)@,
                *old(env),
                buffered(*old(y)),
                tout,
                *old(tret),
                itask,
                *old(ier),
            );
            &&& final(ark_mem)@ == o.m
            &&& *final(env) == o.e
            &&& buffered(*final(y)) == o.y
            &&& *final(tret) == o.tret
            &&& *final(ier) == o.ier
            &&& stop == o.stop
        }),
{
    reveal(stop_tests);
    let s: ArkStep = ark_mem.get_stp();
    let tround: sunrealtype = ark_time_roundoff(ark_mem.get_lim().uround, s.tcur, s.h);
    let stop: i32 = ark_root_stop(ark_mem, env, y, tout, itask, tround, tret, ier);
    if stop != 0 {
        return stop;
    }
    let stop: i32 = ark_tstop_stop(ark_mem, env, y, tout, tround, tret, ier);
    if stop != 0 {
        return stop;
    }
    ark_tout_stop(ark_mem, env, y, tout, itask, tround, tret, ier)
}

} // verus!
