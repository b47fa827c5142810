//! What the slow steps of all methods have in common.
use crate::arith::negate;
use crate::arkode_codes::{
    ARK_ACCUMERROR_NONE, ARK_FULLRHS_START, ARK_INNERSTEP_FAIL, ARK_NLS_SETUP_FAIL,
    ARK_NLS_SETUP_RECVR, ARK_PRERHSFN_FAIL, ARK_RHSFUNC_FAIL, ARK_SUCCESS, ARK_UNREC_RHSFUNC_ERR,
    SUN_ADAPTCONTROLLER_MRI_H_TOL,
};
use crate::arkode_impl::{
    ARKodeMemRec, ArkFlags, ArkStep, FnId, MemView, MriAdapt, MriMethod, MriNls,
};
use crate::arkode_mem::{
    mput_adp, mput_mth, mri, put_flg, put_fn_, put_stp, put_tempv1, put_tempv3, put_ycur,
};
use crate::binary64::{r_div, r_mul, r_neg, sunrealtype};
use crate::env::{ArkEnv, ModuleCall, UserFn};
use crate::mristep_fast::{
    adapt_kind, fast_clear, fast_reset, fast_rtol, mriStep_AdaptKind, mriStep_FastClear,
    mriStep_FastRTol, mriStep_FastReset,
};
use crate::mristep_rhs::{
    call_fse, call_fsi, call_process, count_fse, count_fsi, forced, full_rhs, mriStep_AddForcing,
    mriStep_CallFse, mriStep_CallFsi, mriStep_CountFse, mriStep_CountFsi, mriStep_FullRHS,
    mriStep_UpdateF0, mriStep_WriteFse, mriStep_WriteFsi, process, update_f0, write_fse, write_fsi,
};
use crate::nvector::{
    entry, nth, v_const, v_lin, v_scale, v_wrms, NVec, N_VConst, N_VLinearSum, N_VScale,
    N_VWrmsNorm, N_Vector,
};
use crate::outcome::{call_module, module_run, Run};
use crate::sundials_types::{ONE, ZERO};
use vstd::prelude::*;

verus! {

/// Outcome of a slow step: error estimate, solver flag and flag.
pub struct StepOut<E> {
    pub m: MemView,
    pub e: E,
    pub dsm: sunrealtype,
    pub nflag: i32,
    pub flag: i32,
}

/// Whether a step estimates its temporal error.
pub open spec fn wants_error(m: MemView) -> bool {
    !m.lim().fixedstep || m.lim().AccumErrorType != ARK_ACCUMERROR_NONE
}

/// Whether a step estimates its temporal error.
pub fn mriStep_WantsError(ark_mem: &ARKodeMemRec) -> (r: bool)
    ensures
        r == wants_error(ark_mem@),
{
    let l = ark_mem.get_lim();
    !l.fixedstep || l.AccumErrorType != ARK_ACCUMERROR_NONE
}

/// The memory with the current stage replaced.
#[verifier::opaque]
pub open spec fn at_stage(m: MemView, is: i32) -> MemView {
    mput_mth(m, MriMethod { istage: is, cur_stage: is, ..mri(m).mth() })
}

/// Sets the current stage.
pub fn mriStep_AtStage(ark_mem: &mut ARKodeMemRec, is: i32)
    ensures
        final(ark_mem)@ == at_stage(old(ark_mem)@, is),
{
    reveal(at_stage);
    let t: MriMethod = ark_mem.get_mri_mth();
    ark_mem.set_mri_mth(MriMethod { istage: is, cur_stage: is, ..t });
}

/// The memory with the current time replaced.
#[verifier::opaque]
pub open spec fn with_tcur(m: MemView, t: sunrealtype) -> MemView {
    put_stp(m, ArkStep { tcur: t, ..m.stp() })
}

/// Sets the current time.
pub fn set_tcur(ark_mem: &mut ARKodeMemRec, t: sunrealtype)
    ensures
        final(ark_mem)@ == with_tcur(old(ark_mem)@, t),
{
    reveal(with_tcur);
    let s: ArkStep = ark_mem.get_stp();
    ark_mem.set_stp(ArkStep { tcur: t, ..s });
}

/// The fast integrator reset to the current solution at `t`.
#[verifier::opaque]
pub open spec fn restart_fast<E: ArkEnv>(m: MemView, e: E, t: sunrealtype) -> Run<E> {
    let r = fast_reset(m, e, t, m.ycur());
    Run {
        m: r.m,
        e: r.e,
        flag: if r.flag != ARK_SUCCESS {
            ARK_INNERSTEP_FAIL
        } else {
            ARK_SUCCESS
        },
    }
}

/// Resets the fast integrator to the current solution at `t`.
pub fn mriStep_RestartFast<E: ArkEnv>(ark_mem: &mut ARKodeMemRec, env: &mut E, t: sunrealtype) -> (flag:
    i32)
    ensures
        final(ark_mem)@ == restart_fast(old(ark_mem)@, *old(env), t).m,
        *final(env) == restart_fast(old(ark_mem)@, *old(env), t).e,
        flag == restart_fast(old(ark_mem)@, *old(env), t).flag,
{
    reveal(restart_fast);
    let y: N_Vector = ark_mem.get_ycur();
    let retval: i32 = mriStep_FastReset(ark_mem, env, t, &y);
    if retval != ARK_SUCCESS {
        ARK_INNERSTEP_FAIL
    } else {
        ARK_SUCCESS
    }
}

/// The fast error estimate cleared and the fast tolerance set, where the step
/// controller adapts it.
#[verifier::opaque]
pub open spec fn tune_fast<E: ArkEnv>(m: MemView, e: E, need: bool) -> Run<E> {
    if !need {
        Run { m, e, flag: ARK_SUCCESS }
    } else {
        let m1 = mput_adp(m, MriAdapt { inner_dsm: ZERO(), ..mri(m).adp() });
        let a = fast_clear(m1, e);
        let b = fast_rtol(
            a.m,
            a.e,
            r_mul(mri(a.m).adp().inner_rtol_factor, a.m.tol().reltol),
        );
        if a.flag != ARK_SUCCESS {
            Run { m: a.m, e: a.e, flag: ARK_INNERSTEP_FAIL }
        } else if b.flag != ARK_SUCCESS {
            Run { m: b.m, e: b.e, flag: ARK_INNERSTEP_FAIL }
        } else {
            Run { m: b.m, e: b.e, flag: ARK_SUCCESS }
        }
    }
}

fn mriStep_TuneFast<E: ArkEnv>(ark_mem: &mut ARKodeMemRec, env: &mut E, need: bool) -> (flag: i32)
    ensures
        final(ark_mem)@ == tune_fast(old(ark_mem)@, *old(env), need).m,
        *final(env) == tune_fast(old(ark_mem)@, *old(env), need).e,
        flag == tune_fast(old(ark_mem)@, *old(env), need).flag,
{
    reveal(tune_fast);
    if need {
        let a: MriAdapt = ark_mem.get_mri_adp();
        ark_mem.set_mri_adp(MriAdapt { inner_dsm: ZERO(), ..a });
        let retval: i32 = mriStep_FastClear(ark_mem, env);
        if retval != ARK_SUCCESS {
            return ARK_INNERSTEP_FAIL;
        }
        let rtol: sunrealtype = ark_mem.get_mri_adp().inner_rtol_factor * ark_mem.get_tol().reltol;
        let retval: i32 = mriStep_FastRTol(ark_mem, env, rtol);
        if retval != ARK_SUCCESS {
            return ARK_INNERSTEP_FAIL;
        }
    }
    ARK_SUCCESS
}

/// Outcome of the start of a step; `need` tells whether stages report a fast
/// error.
pub struct BeginOut<E> {
    pub m: MemView,
    pub e: E,
    pub need: bool,
    pub flag: i32,
}

/// The start of a step: first stage, fast error and tolerance, and for steps
/// of variable size the fast integrator reset to the start of the step.
#[verifier::opaque]
pub open spec fn begin_fast<E: ArkEnv>(m: MemView, e: E) -> BeginOut<E> {
    let k = adapt_kind(at_stage(m, 0), e, true);
    let need = k.flag == SUN_ADAPTCONTROLLER_MRI_H_TOL;
    let a = tune_fast(k.m, k.e, need);
    let b = restart_fast(a.m, a.e, a.m.stp().tcur);
    if a.flag != ARK_SUCCESS || a.m.lim().fixedstep {
        BeginOut { m: a.m, e: a.e, need, flag: a.flag }
    } else {
        BeginOut { m: b.m, e: b.e, need, flag: b.flag }
    }
}

/// Starts a step.
pub fn mriStep_BeginFast<E: ArkEnv>(ark_mem: &mut ARKodeMemRec, env: &mut E, need: &mut bool) -> (flag:
    i32)
    ensures
        ({
            let o = begin_fast(old(ark_mem)@, *old(env));
            &&& final(ark_mem)@ == o.m
            &&& *final(env) == o.e
            &&& *final(need) == o.need
            &&& flag == o.flag
        }),
{
    reveal(begin_fast);
    mriStep_AtStage(ark_mem, 0);
    let kind: i32 = mriStep_AdaptKind(ark_mem, env, true);
    *need = kind == SUN_ADAPTCONTROLLER_MRI_H_TOL;
    let retval: i32 = mriStep_TuneFast(ark_mem, env, *need);
    if retval != ARK_SUCCESS || ark_mem.get_lim().fixedstep {
        return retval;
    }
    let t: sunrealtype = ark_mem.get_stp().tcur;
    mriStep_RestartFast(ark_mem, env, t)
}

/// The nonlinear solver set up, where it has a setup: its guess is zero.
#[verifier::opaque]
pub open spec fn setup_nls<E: ArkEnv>(m: MemView, e: E) -> Run<E> {
    if mri(m).nls().attached && mri(m).nls().has_setup {
        let m1 = put_tempv3(m, v_const(ZERO(), m.tempv3()));
        let r = module_run(m1, e, ModuleCall::NlsSetup);
        Run {
            m: r.m,
            e: r.e,
            flag: if r.flag < 0 {
                ARK_NLS_SETUP_FAIL
            } else if r.flag > 0 {
                ARK_NLS_SETUP_RECVR
            } else {
                ARK_SUCCESS
            },
        }
    } else {
        Run { m, e, flag: ARK_SUCCESS }
    }
}

/// Sets up the nonlinear solver.
pub fn mriStep_SetupNls<E: ArkEnv>(ark_mem: &mut ARKodeMemRec, env: &mut E) -> (flag: i32)
    ensures
        final(ark_mem)@ == setup_nls(old(ark_mem)@, *old(env)).m,
        *final(env) == setup_nls(old(ark_mem)@, *old(env)).e,
        flag == setup_nls(old(ark_mem)@, *old(env)).flag,
{
    reveal(setup_nls);
    let n: MriNls = ark_mem.get_mri_nls();
    if n.attached && n.has_setup {
        let z: N_Vector = N_VConst(ZERO(), &ark_mem.get_tempv3());
        ark_mem.set_tempv3(z);
        let retval: i32 = call_module(ark_mem, env, ModuleCall::NlsSetup);
        if retval < 0 {
            return ARK_NLS_SETUP_FAIL;
        }
        if retval > 0 {
            return ARK_NLS_SETUP_RECVR;
        }
    }
    ARK_SUCCESS
}

/// Whether the integrator is itself the fast one of an outer integrator.
pub open spec fn nested(m: MemView) -> bool {
    mri(m).frc().expforcing || mri(m).frc().impforcing
}

/// The slow right-hand side of this level alone, from the first stage.
#[verifier::opaque]
pub open spec fn level_rhs(m: MemView) -> NVec {
    let fsi = nth(mri(m).Fsi(), 0);
    if mri(m).prb().explicit_rhs {
        v_lin(ONE(), fsi, ONE(), nth(mri(m).Fse(), 0), m.fn_())
    } else {
        v_scale(ONE(), fsi, m.fn_())
    }
}

fn mriStep_LevelRHS(ark_mem: &ARKodeMemRec) -> (r: N_Vector)
    ensures
        r@ == level_rhs(ark_mem@),
{
    reveal(level_rhs);
    let fsi: N_Vector = entry(&ark_mem.get_Fsi(), 0);
    if ark_mem.get_mri_prb().explicit_rhs {
        N_VLinearSum(ONE(), &fsi, ONE(), &entry(&ark_mem.get_Fse(), 0), &ark_mem.get_fn_())
    } else {
        N_VScale(ONE(), &fsi, &ark_mem.get_fn_())
    }
}

/// The slow right-hand sides of the first stage brought up to date; a nested
/// integrator keeps the right-hand side of its own level for predictions.
#[verifier::opaque]
pub open spec fn start_parts<E: ArkEnv>(m: MemView, e: E, keep: bool) -> Run<E> {
    let r = update_f0(m, e, m.stp().tcur, m.ycur(), ARK_FULLRHS_START);
    let m1 = put_ycur(r.m, r.v);
    if r.flag != 0 {
        Run { m: m1, e: r.e, flag: ARK_RHSFUNC_FAIL }
    } else if keep && m1.fn_().live && nested(m1) && mri(m1).prb().implicit_rhs {
        Run { m: put_fn_(m1, level_rhs(m1)), e: r.e, flag: ARK_SUCCESS }
    } else {
        Run { m: m1, e: r.e, flag: ARK_SUCCESS }
    }
}

fn mriStep_StartParts<E: ArkEnv>(ark_mem: &mut ARKodeMemRec, env: &mut E, keep: bool) -> (flag: i32)
    ensures
        final(ark_mem)@ == start_parts(old(ark_mem)@, *old(env), keep).m,
        *final(env) == start_parts(old(ark_mem)@, *old(env), keep).e,
        flag == start_parts(old(ark_mem)@, *old(env), keep).flag,
{
    reveal(start_parts);
    let t: sunrealtype = ark_mem.get_stp().tcur;
    let mut y: N_Vector = ark_mem.get_ycur();
    let retval: i32 = mriStep_UpdateF0(ark_mem, env, t, &mut y, ARK_FULLRHS_START);
    ark_mem.set_ycur(y);
    if retval != 0 {
        return ARK_RHSFUNC_FAIL;
    }
    let f = ark_mem.get_mri_frc();
    if keep && ark_mem.get_fn_().live && (f.expforcing || f.impforcing)
        && ark_mem.get_mri_prb().implicit_rhs {
        let v: N_Vector = mriStep_LevelRHS(ark_mem);
        ark_mem.set_fn_(v);
    }
    ARK_SUCCESS
}

/// The full right-hand side at the start of the step.
#[verifier::opaque]
pub open spec fn start_full<E: ArkEnv>(m: MemView, e: E) -> Run<E> {
    let r = full_rhs(m, e, m.stp().tcur, m.ycur(), m.fn_(), ARK_FULLRHS_START);
    Run {
        m: put_fn_(put_ycur(r.m, r.y), r.f),
        e: r.e,
        flag: if r.flag != 0 {
            ARK_RHSFUNC_FAIL
        } else {
            ARK_SUCCESS
        },
    }
}

fn mriStep_StartFull<E: ArkEnv>(ark_mem: &mut ARKodeMemRec, env: &mut E) -> (flag: i32)
    ensures
        final(ark_mem)@ == start_full(old(ark_mem)@, *old(env)).m,
        *final(env) == start_full(old(ark_mem)@, *old(env)).e,
        flag == start_full(old(ark_mem)@, *old(env)).flag,
{
    reveal(start_full);
    let t: sunrealtype = ark_mem.get_stp().tcur;
    let mut y: N_Vector = ark_mem.get_ycur();
    let mut f: N_Vector = ark_mem.get_fn_();
    let retval: i32 = mriStep_FullRHS(ark_mem, env, t, &mut y, &mut f, ARK_FULLRHS_START);
    ark_mem.set_ycur(y);
    ark_mem.set_fn_(f);
    if retval != 0 {
        ARK_RHSFUNC_FAIL
    } else {
        ARK_SUCCESS
    }
}

/// The memory with the stored right-hand side marked as current.
#[verifier::opaque]
pub open spec fn fn_current(m: MemView) -> MemView {
    put_flg(m, ArkFlags { fn_is_current: true, ..m.flg() })
}

fn set_fn_current(ark_mem: &mut ARKodeMemRec)
    ensures
        final(ark_mem)@ == fn_current(old(ark_mem)@),
{
    reveal(fn_current);
    let g: ArkFlags = ark_mem.get_flg();
    ark_mem.set_flg(ArkFlags { fn_is_current: true, ..g });
}

/// The right-hand sides that the step starts from. Without storage for the
/// full one, and on nested levels, the slow parts are brought up to date;
/// otherwise (`both`: in any case) the full one, where it is stale.
#[verifier::opaque]
pub open spec fn start_rhs<E: ArkEnv>(m: MemView, e: E, keep: bool, both: bool) -> Run<E> {
    let parts = !m.fn_().live || nested(m);
    let a = if parts {
        start_parts(m, e, keep)
    } else {
        Run { m, e, flag: ARK_SUCCESS }
    };
    let b = if m.fn_().live && !a.m.flg().fn_is_current && (both || !parts) {
        start_full(a.m, a.e)
    } else {
        a
    };
    if a.flag != ARK_SUCCESS {
        a
    } else if b.flag != ARK_SUCCESS {
        b
    } else {
        Run { m: fn_current(b.m), e: b.e, flag: ARK_SUCCESS }
    }
}

/// Brings the right-hand sides that the step starts from up to date.
pub fn mriStep_StartRHS<E: ArkEnv>(ark_mem: &mut ARKodeMemRec, env: &mut E, keep: bool, both: bool) -> (flag:
    i32)
    ensures
        final(ark_mem)@ == start_rhs(old(ark_mem)@, *old(env), keep, both).m,
        *final(env) == start_rhs(old(ark_mem)@, *old(env), keep, both).e,
        flag == start_rhs(old(ark_mem)@, *old(env), keep, both).flag,
{
    reveal(start_rhs);
    let f = ark_mem.get_mri_frc();
    let live: bool = ark_mem.get_fn_().live;
    let parts: bool = !live || f.expforcing || f.impforcing;
    if parts {
        let retval: i32 = mriStep_StartParts(ark_mem, env, keep);
        if retval != ARK_SUCCESS {
            return retval;
        }
    }
    if live && !ark_mem.get_flg().fn_is_current && (both || !parts) {
        let retval: i32 = mriStep_StartFull(ark_mem, env);
        if retval != ARK_SUCCESS {
            return retval;
        }
    }
    set_fn_current(ark_mem);
    ARK_SUCCESS
}

/// The flag for a slow right-hand side that fails within a step.
pub open spec fn rhs_failure(flag: i32) -> i32 {
    if flag < 0 {
        ARK_RHSFUNC_FAIL
    } else if flag > 0 {
        ARK_UNREC_RHSFUNC_ERR
    } else {
        ARK_SUCCESS
    }
}

/// The implicit right-hand side of the current stage stored in `slot`:
/// evaluated, or deduced from the solution of the stage equation.
#[verifier::opaque]
pub open spec fn store_fsi<E: ArkEnv>(m: MemView, e: E, slot: i32, deduce: bool) -> Run<E> {
    if deduce {
        let g = mri(m).nls().gamma;
        Run {
            m: write_fsi(
                m,
                slot as int,
                v_lin(
                    r_div(ONE(), g),
                    mri(m).zcor(),
                    r_div(r_neg(ONE()), g),
                    mri(m).sdata(),
                    nth(mri(m).Fsi(), slot as int),
                ),
            ),
            e,
            flag: ARK_SUCCESS,
        }
    } else {
        let t = m.stp().tcur;
        let r = call_fsi(m, e, t, m.ycur(), nth(mri(m).Fsi(), slot as int));
        let m1 = count_fsi(write_fsi(m, slot as int, r.out));
        Run {
            m: if r.flag == 0 && mri(m1).frc().impforcing {
                write_fsi(m1, slot as int, forced(m1, t, nth(mri(m1).Fsi(), slot as int)))
            } else {
                m1
            },
            e: r.env,
            flag: rhs_failure(r.flag),
        }
    }
}

fn mriStep_StoreFsi<E: ArkEnv>(ark_mem: &mut ARKodeMemRec, env: &mut E, slot: i32, deduce: bool) -> (flag:
    i32)
    ensures
        final(ark_mem)@ == store_fsi(old(ark_mem)@, *old(env), slot, deduce).m,
        *final(env) == store_fsi(old(ark_mem)@, *old(env), slot, deduce).e,
        flag == store_fsi(old(ark_mem)@, *old(env), slot, deduce).flag,
{
    reveal(store_fsi);
    let mut v: N_Vector = entry(&ark_mem.get_Fsi(), slot);
    if deduce {
        let g: sunrealtype = ark_mem.get_mri_nls().gamma;
        let w: N_Vector = N_VLinearSum(
            ONE() / g,
            &ark_mem.get_zcor(),
            negate(ONE()) / g,
            &ark_mem.get_sdata(),
            &v,
        );
        mriStep_WriteFsi(ark_mem, slot, w);
        return ARK_SUCCESS;
    }
    let t: sunrealtype = ark_mem.get_stp().tcur;
    let y: N_Vector = ark_mem.get_ycur();
    let retval: i32 = mriStep_CallFsi(ark_mem, env, t, &y, &mut v);
    mriStep_WriteFsi(ark_mem, slot, v);
    mriStep_CountFsi(ark_mem);
    if retval < 0 {
        return ARK_RHSFUNC_FAIL;
    }
    if retval > 0 {
        return ARK_UNREC_RHSFUNC_ERR;
    }
    if ark_mem.get_mri_frc().impforcing {
        let w: N_Vector = mriStep_AddForcing(ark_mem, t, &entry(&ark_mem.get_Fsi(), slot));
        mriStep_WriteFsi(ark_mem, slot, w);
    }
    ARK_SUCCESS
}

/// The explicit right-hand side of the current stage stored in `slot`.
#[verifier::opaque]
pub open spec fn store_fse<E: ArkEnv>(m: MemView, e: E, slot: i32) -> Run<E> {
    let t = m.stp().tcur;
    let r = call_fse(m, e, t, m.ycur(), nth(mri(m).Fse(), slot as int));
    let m1 = count_fse(write_fse(m, slot as int, r.out));
    Run {
        m: if r.flag == 0 && mri(m1).frc().expforcing {
            write_fse(m1, slot as int, forced(m1, t, nth(mri(m1).Fse(), slot as int)))
        } else {
            m1
        },
        e: r.env,
        flag: rhs_failure(r.flag),
    }
}

fn mriStep_StoreFse<E: ArkEnv>(ark_mem: &mut ARKodeMemRec, env: &mut E, slot: i32) -> (flag: i32)
    ensures
        final(ark_mem)@ == store_fse(old(ark_mem)@, *old(env), slot).m,
        *final(env) == store_fse(old(ark_mem)@, *old(env), slot).e,
        flag == store_fse(old(ark_mem)@, *old(env), slot).flag,
{
    reveal(store_fse);
    let mut v: N_Vector = entry(&ark_mem.get_Fse(), slot);
    let t: sunrealtype = ark_mem.get_stp().tcur;
    let y: N_Vector = ark_mem.get_ycur();
    let retval: i32 = mriStep_CallFse(ark_mem, env, t, &y, &mut v);
    mriStep_WriteFse(ark_mem, slot, v);
    mriStep_CountFse(ark_mem);
    if retval < 0 {
        return ARK_RHSFUNC_FAIL;
    }
    if retval > 0 {
        return ARK_UNREC_RHSFUNC_ERR;
    }
    if ark_mem.get_mri_frc().expforcing {
        let w: N_Vector = mriStep_AddForcing(ark_mem, t, &entry(&ark_mem.get_Fse(), slot));
        mriStep_WriteFse(ark_mem, slot, w);
    }
    ARK_SUCCESS
}

/// The user's function before a right-hand side, on the current solution.
#[verifier::opaque]
pub open spec fn pre_rhs<E: ArkEnv>(m: MemView, e: E, wanted: bool) -> Run<E> {
    match m.att().PreRhsFn {
        Some(f) if wanted => {
            let r = process(e, UserFn::PreRhs, Some(f), m.stp().tcur, m.ycur());
            Run {
                m: put_ycur(m, r.out),
                e: r.env,
                flag: if r.flag != 0 {
                    ARK_PRERHSFN_FAIL
                } else {
                    ARK_SUCCESS
                },
            }
        },
        _ => Run { m, e, flag: ARK_SUCCESS },
    }
}

fn mriStep_PreRHS<E: ArkEnv>(ark_mem: &mut ARKodeMemRec, env: &mut E, wanted: bool) -> (flag: i32)
    ensures
        final(ark_mem)@ == pre_rhs(old(ark_mem)@, *old(env), wanted).m,
        *final(env) == pre_rhs(old(ark_mem)@, *old(env), wanted).e,
        flag == pre_rhs(old(ark_mem)@, *old(env), wanted).flag,
{
    reveal(pre_rhs);
    let f: Option<FnId> = ark_mem.get_att().PreRhsFn;
    if f.is_none() || !wanted {
        return ARK_SUCCESS;
    }
    let t: sunrealtype = ark_mem.get_stp().tcur;
    let mut y: N_Vector = ark_mem.get_ycur();
    let retval: i32 = call_process(env, UserFn::PreRhs, f, t, &mut y);
    ark_mem.set_ycur(y);
    if retval != 0 {
        return ARK_PRERHSFN_FAIL;
    }
    ARK_SUCCESS
}

/// The slow right-hand sides of the current stage stored in `slot`, the
/// implicit one first.
#[verifier::opaque]
pub open spec fn store_slow<E: ArkEnv>(
    m: MemView,
    e: E,
    slot: i32,
    ex: bool,
    im: bool,
    deduce: bool,
) -> Run<E> {
    let p = pre_rhs(m, e, ex || (im && !deduce));
    let a = if im {
        store_fsi(p.m, p.e, slot, deduce)
    } else {
        p
    };
    if p.flag != ARK_SUCCESS {
        p
    } else if a.flag != ARK_SUCCESS || !ex {
        a
    } else {
        store_fse(a.m, a.e, slot)
    }
}

/// Stores the slow right-hand sides of the current stage.
pub fn mriStep_StoreSlow<E: ArkEnv>(
    ark_mem: &mut ARKodeMemRec,
    env: &mut E,
    slot: i32,
    ex: bool,
    im: bool,
    deduce: bool,
) -> (flag: i32)
    ensures
        final(ark_mem)@ == store_slow(old(ark_mem)@, *old(env), slot, ex, im, deduce).m,
        *final(env) == store_slow(old(ark_mem)@, *old(env), slot, ex, im, deduce).e,
        flag == store_slow(old(ark_mem)@, *old(env), slot, ex, im, deduce).flag,
{
    reveal(store_slow);
    let retval: i32 = mriStep_PreRHS(ark_mem, env, ex || (im && !deduce));
    if retval != ARK_SUCCESS {
        return retval;
    }
    let mut retval: i32 = ARK_SUCCESS;
    if im {
        retval = mriStep_StoreFsi(ark_mem, env, slot, deduce);
    }
    if retval != ARK_SUCCESS || !ex {
        return retval;
    }
    mriStep_StoreFse(ark_mem, env, slot)
}

/// The user's function on the solution of a stage or of a step.
#[verifier::opaque]
pub open spec fn post_process<E: ArkEnv>(
    m: MemView,
    e: E,
    role: UserFn,
    f: Option<FnId>,
    fail: i32,
) -> Run<E> {
    match f {
        None => Run { m, e, flag: ARK_SUCCESS },
        Some(_) => {
            let r = process(e, role, f, m.stp().tcur, m.ycur());
            Run {
                m: put_ycur(m, r.out),
                e: r.env,
                flag: if r.flag != 0 {
                    fail
                } else {
                    ARK_SUCCESS
                },
            }
        },
    }
}

/// Calls the user's function on the solution of a stage or of a step.
pub fn mriStep_PostProcess<E: ArkEnv>(
    ark_mem: &mut ARKodeMemRec,
    env: &mut E,
    role: UserFn,
    f: Option<FnId>,
    fail: i32,
) -> (flag: i32)
    ensures
        final(ark_mem)@ == post_process(old(ark_mem)@, *old(env), role, f, fail).m,
        *final(env) == post_process(old(ark_mem)@, *old(env), role, f, fail).e,
        flag == post_process(old(ark_mem)@, *old(env), role, f, fail).flag,
{
    reveal(post_process);
    if f.is_none() {
        return ARK_SUCCESS;
    }
    let t: sunrealtype = ark_mem.get_stp().tcur;
    let mut y: N_Vector = ark_mem.get_ycur();
    let retval: i32 = call_process(env, role, f, t, &mut y);
    ark_mem.set_ycur(y);
    if retval != 0 {
        return fail;
    }
    ARK_SUCCESS
}

/// The solution `y` less the embedded solution `z`, and the norm of that
/// difference: the estimate of the temporal error.
#[verifier::opaque]
pub open spec fn error_estimate(m: MemView, y: NVec, z: NVec) -> (MemView, sunrealtype) {
    let d = v_lin(ONE(), y, r_neg(ONE()), z, m.tempv1());
    (put_tempv1(m, d), v_wrms(d, m.ewt()))
}

/// Estimates the temporal error of the solution `y` with the embedded solution
/// `z`.
pub fn mriStep_ErrorEstimate(ark_mem: &mut ARKodeMemRec, y: &N_Vector, z: &N_Vector) -> (dsm:
    sunrealtype)
    ensures
        final(ark_mem)@ == error_estimate(old(ark_mem)@, y@, z@).0,
        dsm == error_estimate(old(ark_mem)@, y@, z@).1,
{
    reveal(error_estimate);
    let d: N_Vector = N_VLinearSum(ONE(), y, negate(ONE()), z, &ark_mem.get_tempv1());
    let dsm: sunrealtype = N_VWrmsNorm(&d, &ark_mem.get_ewt());
    ark_mem.set_tempv1(d);
    dsm
}

/// Everything that comes before the first stage: the fast integrator, the
/// nonlinear solver (`solver`: where the method can be implicit), and the
/// right-hand sides at the start of the step.
#[verifier::opaque]
pub open spec fn prepare<E: ArkEnv>(m: MemView, e: E, solver: bool, both: bool) -> BeginOut<E> {
    let a = begin_fast(m, e);
    let b = if solver {
        setup_nls(a.m, a.e)
    } else {
        Run { m: a.m, e: a.e, flag: ARK_SUCCESS }
    };
    let c = start_rhs(b.m, b.e, solver, both);
    if a.flag != ARK_SUCCESS {
        a
    } else if b.flag != ARK_SUCCESS {
        BeginOut { m: b.m, e: b.e, need: a.need, flag: b.flag }
    } else {
        BeginOut { m: c.m, e: c.e, need: a.need, flag: c.flag }
    }
}

/// Prepares a step.
pub fn mriStep_Prepare<E: ArkEnv>(
    ark_mem: &mut ARKodeMemRec,
    env: &mut E,
    solver: bool,
    both: bool,
    need: &mut bool,
) -> (flag: i32)
    ensures
        ({
            let o = prepare(old(ark_mem)@, *old(env), solver, both);
            &&& final(ark_mem)@ == o.m
            &&& *final(env) == o.e
            &&& *final(need) == o.need
            &&& flag == o.flag
        }),
{
    reveal(prepare);
    let retval: i32 = mriStep_BeginFast(ark_mem, env, need);
    if retval != ARK_SUCCESS {
        return retval;
    }
    if solver {
        let retval: i32 = mriStep_SetupNls(ark_mem, env);
        if retval != ARK_SUCCESS {
            return retval;
        }
    }
    mriStep_StartRHS(ark_mem, env, solver, both)
}

/// The user's function on the solution of a stage or of a step, and the fast
/// integrator reset to what it leaves; nothing where there is no function.
#[verifier::opaque]
pub open spec fn post_and_restart<E: ArkEnv>(
    m: MemView,
    e: E,
    role: UserFn,
    f: Option<FnId>,
    fail: i32,
) -> Run<E> {
    let p = post_process(m, e, role, f, fail);
    if p.flag != ARK_SUCCESS || f is None {
        p
    } else {
        restart_fast(p.m, p.e, p.m.stp().tcur)
    }
}

/// Calls the user's function on the solution of a stage or of a step and
/// resets the fast integrator to what it leaves.
pub fn mriStep_PostAndRestart<E: ArkEnv>(
    ark_mem: &mut ARKodeMemRec,
    env: &mut E,
    role: UserFn,
    f: Option<FnId>,
    fail: i32,
) -> (flag: i32)
    ensures
        final(ark_mem)@ == post_and_restart(old(ark_mem)@, *old(env), role, f, fail).m,
        *final(env) == post_and_restart(old(ark_mem)@, *old(env), role, f, fail).e,
        flag == post_and_restart(old(ark_mem)@, *old(env), role, f, fail).flag,
{
    reveal(post_and_restart);
    let retval: i32 = mriStep_PostProcess(ark_mem, env, role, f, fail);
    if retval != ARK_SUCCESS || f.is_none() {
        return retval;
    }
    let t: sunrealtype = ark_mem.get_stp().tcur;
    mriStep_RestartFast(ark_mem, env, t)
}

} // verus!
