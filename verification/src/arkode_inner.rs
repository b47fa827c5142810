//! An integrator in the role of the fast integrator of a multirate step.
use crate::arkode_codes::{
    ARK_CONV_FAILURE, ARK_ERR_FAILURE, ARK_NORMAL, ARK_SUCCESS, ARK_TOO_MUCH_WORK,
};
use crate::arkode_core::{reset, ARKodeReset};
use crate::arkode_evolve::{evolve, ARKodeEvolve};
use crate::arkode_hin::{ark_step_fullrhs, step_fullrhs};
use crate::arkode_impl::{ARKodeMemRec, ArkTol, InnerView, MRIStepInnerStepper, MemView};
use crate::arkode_mem::put_tol;
use crate::binary64::{r_lt, sunrealtype};
use crate::env::{ArkEnv, ModuleCall};
use crate::inner_stepper::MRIStepInnerStepper_GetForcingData;
use crate::mristep_ops::{mriStep_SetInnerForcing, set_inner_forcing};
use crate::mristep_rhs::access_step_mem;
use crate::nvector::{nvecs, NVec, N_Vector};
use crate::outcome::{call_module, call_module_numbers, module_numbers, module_run, RunV};
use crate::sundials_types::{ONE, ZERO};
use vstd::prelude::*;

verus! {

broadcast use crate::order::group_order;

/// Whether the inner stepper names an integrator.
fn has_content(stepper: &MRIStepInnerStepper) -> (r: bool)
    ensures
        r == (stepper@.ops().content is Some),
{
    reveal(MRIStepInnerStepper::view);
    stepper.ops.content.is_some()
}

/// The forcing of the time stepper replaced; refused where it takes none.
#[verifier::opaque]
pub open spec fn force(
    m: MemView,
    tshift: sunrealtype,
    tscale: sunrealtype,
    forcing: Seq<NVec>,
    n: i32,
) -> (MemView, bool) {
    if !m.ops().setforcing {
        (m, false)
    } else {
        (
            set_inner_forcing(m, tshift, tscale, forcing, n),
            access_step_mem(m) == ARK_SUCCESS,
        )
    }
}

fn ark_force(
    ark_mem: &mut ARKodeMemRec,
    tshift: sunrealtype,
    tscale: sunrealtype,
    forcing: &Vec<N_Vector>,
    n: i32,
) -> (ok: bool)
    ensures
        final(ark_mem)@ == force(old(ark_mem)@, tshift, tscale, nvecs(forcing@), n).0,
        ok == force(old(ark_mem)@, tshift, tscale, nvecs(forcing@), n).1,
{
    reveal(force);
    if !ark_mem.get_ops().setforcing {
        return false;
    }
    mriStep_SetInnerForcing(ark_mem, tshift, tscale, forcing, n) == ARK_SUCCESS
}

/// How the end of an integration is reported to the slow integrator: zero for
/// success and for every return without an error, one for a failure that a
/// smaller slow step may cure, minus one for the others.
pub open spec fn inner_flag(flag: i32) -> i32 {
    if flag >= 0 {
        0
    } else if flag == ARK_TOO_MUCH_WORK || flag == ARK_CONV_FAILURE || flag == ARK_ERR_FAILURE {
        1
    } else {
        -1i32 as i32
    }
}

fn report_flag(flag: i32) -> (r: i32)
    ensures
        r == inner_flag(flag),
{
    if flag >= 0 {
        0
    } else if flag == ARK_TOO_MUCH_WORK || flag == ARK_CONV_FAILURE || flag == ARK_ERR_FAILURE {
        1
    } else {
        -1
    }
}

/// The integration to `tout` under the forcing of the inner stepper, with
/// `tout` as its stop time. The forcing is taken away again unless the
/// integration failed beyond recovery.
#[verifier::opaque]
pub open spec fn inner_run<E: ArkEnv>(
    s: InnerView,
    m: MemView,
    e: E,
    tout: sunrealtype,
    y: NVec,
) -> RunV<E> {
    let a = force(m, s.sc().tshift, s.sc().tscale, s.forcing(), s.sc().nforcing);
    let t = module_run(a.0, e, ModuleCall::SetStopTime { t: tout });
    let o = evolve(t.m, t.e, tout, y, ZERO(), ARK_NORMAL);
    let v = if t.m.flg().MallocDone {
        o.m.ycur()
    } else {
        y
    };
    let b = force(o.m, ZERO(), ONE(), Seq::empty(), 0);
    if s.ops().content is None {
        RunV { m, e, v: y, flag: -1i32 as i32 }
    } else if !a.1 {
        RunV { m: a.0, e, v: y, flag: -1i32 as i32 }
    } else if t.flag != ARK_SUCCESS {
        RunV { m: t.m, e: t.e, v: y, flag: -1i32 as i32 }
    } else if inner_flag(o.flag) < 0 {
        RunV { m: o.m, e: o.e, v, flag: -1i32 as i32 }
    } else {
        RunV {
            m: b.0,
            e: o.e,
            v,
            flag: if b.1 {
                inner_flag(o.flag)
            } else {
                -1i32 as i32
            },
        }
    }
}

/// Integrates the fast problem from where it stands to `tout`.
pub fn ark_MRIStepInnerEvolve<E: ArkEnv>(
    stepper: &MRIStepInnerStepper,
    ark_mem: &mut ARKodeMemRec,
    env: &mut E,
    t0: sunrealtype,
    tout: sunrealtype,
    y: &mut N_Vector,
) -> (flag: i32)
    ensures
        ({
            let o = inner_run(stepper@, old(ark_mem)@, *old(env), tout, old(y)@);
            &&& final(ark_mem)@ == o.m
            &&& *final(env) == o.e
            &&& final(y)@ == o.v
            &&& flag == o.flag
        }),
{
    reveal(inner_run);
    if !has_content(stepper) {
        return -1;
    }
    let mut tshift: sunrealtype = ZERO();
    let mut tscale: sunrealtype = ZERO();
    let mut forcing: Vec<N_Vector> = Vec::new();
    let mut nforcing: i32 = 0;
    MRIStepInnerStepper_GetForcingData(
        stepper,
        &mut tshift,
        &mut tscale,
        &mut forcing,
        &mut nforcing,
    );
    if !ark_force(ark_mem, tshift, tscale, &forcing, nforcing) {
        return -1;
    }
    if call_module(ark_mem, env, ModuleCall::SetStopTime { t: tout }) != ARK_SUCCESS {
        return -1;
    }
    let mut tret: sunrealtype = ZERO();
    let retval: i32 = ARKodeEvolve(ark_mem, env, tout, y, &mut tret, ARK_NORMAL);
    let flag: i32 = report_flag(retval);
    if flag < 0 {
        return -1;
    }
    let none: Vec<N_Vector> = Vec::new();
    proof {
        assert(nvecs(none@) =~= Seq::empty());
    }
    if !ark_force(ark_mem, ZERO(), ONE(), &none, 0) {
        return -1;
    }
    flag
}

/// Evaluates the right-hand side of the fast problem: zero on success, minus
/// one otherwise.
pub fn ark_MRIStepInnerFullRhs<E: ArkEnv>(
    stepper: &MRIStepInnerStepper,
    ark_mem: &mut ARKodeMemRec,
    env: &mut E,
    t: sunrealtype,
    y: &mut N_Vector,
    f: &mut N_Vector,
    mode: i32,
) -> (flag: i32)
    ensures
        stepper@.ops().content is None ==> final(ark_mem)@ == old(ark_mem)@ && *final(env) == *old(
            env,
        ) && final(y)@ == old(y)@ && final(f)@ == old(f)@ && flag == -1,
        stepper@.ops().content is Some ==> ({
            let o = step_fullrhs(old(ark_mem)@, *old(env), t, old(y)@, old(f)@, mode);
            &&& final(ark_mem)@ == o.m
            &&& *final(env) == o.e
            &&& final(y)@ == o.y
            &&& final(f)@ == o.f
            &&& flag == if o.flag == ARK_SUCCESS {
                0int
            } else {
                -1int
            }
        }),
{
    if !has_content(stepper) {
        return -1;
    }
    let retval: i32 = ark_step_fullrhs(ark_mem, env, t, y, f, mode);
    if retval == ARK_SUCCESS {
        0
    } else {
        -1
    }
}

/// Resets the fast problem to a state: zero on success, minus one otherwise.
pub fn ark_MRIStepInnerReset<E: ArkEnv>(
    stepper: &MRIStepInnerStepper,
    ark_mem: &mut ARKodeMemRec,
    env: &mut E,
    tR: sunrealtype,
    yR: &N_Vector,
) -> (flag: i32)
    ensures
        stepper@.ops().content is None ==> final(ark_mem)@ == old(ark_mem)@ && *final(env) == *old(
            env,
        ) && flag == -1,
        stepper@.ops().content is Some ==> ({
            let o = reset(old(ark_mem)@, *old(env), tR, yR@);
            &&& final(ark_mem)@ == o.m
            &&& *final(env) == o.e
            &&& flag == if o.flag == ARK_SUCCESS {
                0int
            } else {
                -1int
            }
        }),
{
    if !has_content(stepper) {
        return -1;
    }
    let retval: i32 = ARKodeReset(ark_mem, env, tR, yR);
    if retval == ARK_SUCCESS {
        0
    } else {
        -1
    }
}

/// Reads the error that the fast problem has accumulated: zero on success, one
/// where it can be tried again, minus one otherwise.
pub fn ark_MRIStepInnerGetAccumulatedError<E: ArkEnv>(
    stepper: &MRIStepInnerStepper,
    ark_mem: &mut ARKodeMemRec,
    env: &mut E,
    accum_error: &mut sunrealtype,
) -> (flag: i32)
    ensures
        stepper@.ops().content is None ==> final(ark_mem)@ == old(ark_mem)@ && *final(env) == *old(
            env,
        ) && *final(accum_error) == *old(accum_error) && flag == -1,
        stepper@.ops().content is Some ==> ({
            let o = module_numbers(
                old(ark_mem)@,
                *old(env),
                ModuleCall::GetAccumulatedError,
                *old(accum_error),
                0,
            );
            &&& final(ark_mem)@ == o.m
            &&& *final(env) == o.e
            &&& *final(accum_error) == o.x
            &&& flag == if o.flag == ARK_SUCCESS {
                0int
            } else if o.flag > 0 {
                1int
            } else {
                -1int
            }
        }),
{
    if !has_content(stepper) {
        return -1;
    }
    let mut n: i32 = 0;
    let retval: i32 = call_module_numbers(
        ark_mem,
        env,
        ModuleCall::GetAccumulatedError,
        accum_error,
        &mut n,
    );
    if retval == ARK_SUCCESS {
        0
    } else if retval > 0 {
        1
    } else {
        -1
    }
}

/// Clears the error that the fast problem has accumulated: zero on success,
/// minus one otherwise.
pub fn ark_MRIStepInnerResetAccumulatedError<E: ArkEnv>(
    stepper: &MRIStepInnerStepper,
    ark_mem: &mut ARKodeMemRec,
    env: &mut E,
) -> (flag: i32)
    ensures
        stepper@.ops().content is None ==> final(ark_mem)@ == old(ark_mem)@ && *final(env) == *old(
            env,
        ) && flag == -1,
        stepper@.ops().content is Some ==> ({
            let o = module_run(old(ark_mem)@, *old(env), ModuleCall::ResetAccumulatedError);
            &&& final(ark_mem)@ == o.m
            &&& *final(env) == o.e
            &&& flag == if o.flag == ARK_SUCCESS {
                0int
            } else {
                -1int
            }
        }),
{
    if !has_content(stepper) {
        return -1;
    }
    let retval: i32 = call_module(ark_mem, env, ModuleCall::ResetAccumulatedError);
    if retval == ARK_SUCCESS {
        0
    } else {
        -1
    }
}

/// Sets the relative tolerance of the fast problem: zero where it is positive,
/// minus one and no change otherwise.
pub fn ark_MRIStepInnerSetRTol(
    stepper: &MRIStepInnerStepper,
    ark_mem: &mut ARKodeMemRec,
    rtol: sunrealtype,
) -> (flag: i32)
    ensures
        ({
            let ok = stepper@.ops().content is Some && r_lt(ZERO(), rtol);
            &&& ok ==> flag == 0 && final(ark_mem)@ == put_tol(
                old(ark_mem)@,
                (ArkTol { reltol: rtol, ..old(ark_mem)@.tol() }),
            )
            &&& !ok ==> flag == -1 && final(ark_mem)@ == old(ark_mem)@
        }),
{
    if !has_content(stepper) {
        return -1;
    }
    if rtol > ZERO() {
        let t: ArkTol = ark_mem.get_tol();
        ark_mem.set_tol(ArkTol { reltol: rtol, ..t });
        0
    } else {
        -1
    }
}

} // verus!
