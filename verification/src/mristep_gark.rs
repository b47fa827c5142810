//! A slow step of a generalised additive method: each stage starts from the
//! one before it.
use crate::arkode_codes::{
    ARK_INVALID_TABLE, ARK_POSTPROCESS_STAGE_FAIL, ARK_POSTPROCESS_STEP_FAIL, ARK_SUCCESS,
    CONV_FAIL, MRISTAGE_DIRK_FAST, MRISTAGE_DIRK_NOFAST, MRISTAGE_ERK_FAST, MRISTAGE_ERK_NOFAST,
    MRISTAGE_STIFF_ACC,
};
use crate::arkode_impl::{ARKodeMemRec, FnId, MemView, MriProblem};
use crate::arkode_mem::{mri, put_tempv4, put_ycur};
use crate::binary64::{r_add, r_mul, sunrealtype};
use crate::coupling::{index_at, index_entry};
use crate::env::{ArkEnv, UserFn};
use crate::mristep_begin::{
    at_stage, error_estimate, mriStep_AtStage, mriStep_ErrorEstimate, mriStep_PostProcess,
    mriStep_Prepare, mriStep_RestartFast, mriStep_StoreSlow, mriStep_WantsError, post_process,
    prepare, restart_fast, set_tcur, store_slow, wants_error, with_tcur, StepOut,
};
use crate::mristep_fast::{
    inner_forcing, mriStep_ComputeInnerForcing, mriStep_StageERKFast, stage_erk_fast,
};
use crate::mristep_rhs::{access_step_mem, mriStep_AccessStepMem};
use crate::mristep_stage::{
    abscissa, mriStep_Abscissa, mriStep_SlotOf, mriStep_StageDIRKFast, mriStep_StageDIRKNoFast,
    mriStep_StageERKNoFast, slot_of, stage_dirk_nofast, stage_erk_nofast, SolveOut,
};
use crate::nvector::{v_scale, N_VScale, N_Vector};
use crate::outcome::Run;
use crate::sundials_types::{ONE, ZERO};
use vstd::prelude::*;

verus! {

/// Kind of stage `i`.
pub open spec fn stage_kind(m: MemView, i: int) -> i32 {
    index_at(mri(m).stagetypes(), i)
}

/// Kind of stage `i`.
pub fn mriStep_StageKind(ark_mem: &ARKodeMemRec, i: i32) -> (r: i32)
    ensures
        r == stage_kind(ark_mem@, i as int),
{
    index_entry(&ark_mem.get_stagetypes(), i)
}

/// A stage that evolves the fast problem from the current solution; its
/// failure counts as a solver failure.
#[verifier::opaque]
pub open spec fn evolve_stage<E: ArkEnv>(
    m: MemView,
    e: E,
    is: i32,
    t0: sunrealtype,
    tf: sunrealtype,
    need: bool,
    nflag: i32,
) -> SolveOut<E> {
    let f = inner_forcing(m, is, t0, tf);
    let r = stage_erk_fast(f.0, e, t0, tf, f.0.ycur(), need);
    if f.1 != ARK_SUCCESS {
        SolveOut { m: f.0, e, nflag, flag: f.1 }
    } else {
        SolveOut {
            m: put_ycur(r.m, r.v),
            e: r.e,
            nflag: if r.flag != ARK_SUCCESS {
                CONV_FAIL
            } else {
                nflag
            },
            flag: r.flag,
        }
    }
}

fn mriStep_EvolveStage<E: ArkEnv>(
    ark_mem: &mut ARKodeMemRec,
    env: &mut E,
    is: i32,
    t0: sunrealtype,
    tf: sunrealtype,
    need: bool,
    nflag: &mut i32,
) -> (flag: i32)
    ensures
        ({
            let o = evolve_stage(old(ark_mem)@, *old(env), is, t0, tf, need, *old(nflag));
            &&& final(ark_mem)@ == o.m
            &&& *final(env) == o.e
            &&& *final(nflag) == o.nflag
            &&& flag == o.flag
        }),
{
    reveal(evolve_stage);
    let retval: i32 = mriStep_ComputeInnerForcing(ark_mem, is, t0, tf);
    if retval != ARK_SUCCESS {
        return retval;
    }
    let mut y: N_Vector = ark_mem.get_ycur();
    let retval: i32 = mriStep_StageERKFast(ark_mem, env, t0, tf, &mut y, need);
    ark_mem.set_ycur(y);
    if retval != ARK_SUCCESS {
        *nflag = CONV_FAIL;
    }
    retval
}

/// A stage of any kind, on the current solution.
#[verifier::opaque]
pub open spec fn solve_stage<E: ArkEnv>(
    m: MemView,
    e: E,
    is: i32,
    t0: sunrealtype,
    tf: sunrealtype,
    need: bool,
    nflag: i32,
) -> SolveOut<E> {
    let kind = stage_kind(m, is as int);
    if kind == MRISTAGE_ERK_FAST {
        evolve_stage(m, e, is, t0, tf, need, nflag)
    } else if kind == MRISTAGE_ERK_NOFAST {
        let r = stage_erk_nofast(m, is);
        SolveOut { m: r.0, e, nflag, flag: r.1 }
    } else if kind == MRISTAGE_DIRK_NOFAST {
        stage_dirk_nofast(m, e, is, nflag)
    } else if kind == MRISTAGE_DIRK_FAST {
        SolveOut { m, e, nflag, flag: ARK_INVALID_TABLE }
    } else {
        SolveOut { m, e, nflag, flag: ARK_SUCCESS }
    }
}

fn mriStep_SolveStage<E: ArkEnv>(
    ark_mem: &mut ARKodeMemRec,
    env: &mut E,
    is: i32,
    t0: sunrealtype,
    tf: sunrealtype,
    need: bool,
    nflag: &mut i32,
) -> (flag: i32)
    ensures
        ({
            let o = solve_stage(old(ark_mem)@, *old(env), is, t0, tf, need, *old(nflag));
            &&& final(ark_mem)@ == o.m
            &&& *final(env) == o.e
            &&& *final(nflag) == o.nflag
            &&& flag == o.flag
        }),
{
    reveal(solve_stage);
    let kind: i32 = mriStep_StageKind(ark_mem, is);
    if kind == MRISTAGE_ERK_FAST {
        mriStep_EvolveStage(ark_mem, env, is, t0, tf, need, nflag)
    } else if kind == MRISTAGE_ERK_NOFAST {
        mriStep_StageERKNoFast(ark_mem, is)
    } else if kind == MRISTAGE_DIRK_NOFAST {
        mriStep_StageDIRKNoFast(ark_mem, env, is, nflag)
    } else if kind == MRISTAGE_DIRK_FAST {
        mriStep_StageDIRKFast(ark_mem, is, nflag)
    } else {
        ARK_SUCCESS
    }
}

/// After a stage of kind `kind` that ends at `tf`: the user's function, and
/// the fast integrator reset where the stage or the function moved the
/// solution. A stage that repeats the one before it needs neither.
#[verifier::opaque]
pub open spec fn settle_stage<E: ArkEnv>(
    m: MemView,
    e: E,
    kind: i32,
    tf: sunrealtype,
    role: UserFn,
    f: Option<FnId>,
    fail: i32,
) -> Run<E> {
    let p = post_process(m, e, role, f, fail);
    if kind == MRISTAGE_STIFF_ACC {
        Run { m, e, flag: ARK_SUCCESS }
    } else if p.flag != ARK_SUCCESS {
        p
    } else if kind != MRISTAGE_ERK_FAST || f is Some {
        restart_fast(p.m, p.e, tf)
    } else {
        p
    }
}

fn mriStep_SettleStage<E: ArkEnv>(
    ark_mem: &mut ARKodeMemRec,
    env: &mut E,
    kind: i32,
    tf: sunrealtype,
    role: UserFn,
    f: Option<FnId>,
    fail: i32,
) -> (flag: i32)
    ensures
        final(ark_mem)@ == settle_stage(old(ark_mem)@, *old(env), kind, tf, role, f, fail).m,
        *final(env) == settle_stage(old(ark_mem)@, *old(env), kind, tf, role, f, fail).e,
        flag == settle_stage(old(ark_mem)@, *old(env), kind, tf, role, f, fail).flag,
{
    reveal(settle_stage);
    if kind == MRISTAGE_STIFF_ACC {
        return ARK_SUCCESS;
    }
    let retval: i32 = mriStep_PostProcess(ark_mem, env, role, f, fail);
    if retval != ARK_SUCCESS {
        return retval;
    }
    if kind != MRISTAGE_ERK_FAST || f.is_some() {
        return mriStep_RestartFast(ark_mem, env, tf);
    }
    ARK_SUCCESS
}

/// The slow right-hand sides after stage `is`, unless no later stage needs
/// them: the stage is not stored, or the next one repeats it and no error is
/// estimated.
#[verifier::opaque]
pub open spec fn store_stage<E: ArkEnv>(m: MemView, e: E, is: i32, kind: i32, embed: bool) -> Run<E> {
    let slot = slot_of(m, is as int);
    let p = mri(m).prb();
    if slot == -1 || (!embed && stage_kind(m, is + 1) == MRISTAGE_STIFF_ACC) {
        Run { m, e, flag: ARK_SUCCESS }
    } else {
        store_slow(
            m,
            e,
            slot,
            p.explicit_rhs,
            p.implicit_rhs,
            p.deduce_rhs && kind == MRISTAGE_DIRK_NOFAST,
        )
    }
}

fn mriStep_StoreStage<E: ArkEnv>(
    ark_mem: &mut ARKodeMemRec,
    env: &mut E,
    is: i32,
    kind: i32,
    embed: bool,
) -> (flag: i32)
    requires
        is < i32::MAX,
    ensures
        final(ark_mem)@ == store_stage(old(ark_mem)@, *old(env), is, kind, embed).m,
        *final(env) == store_stage(old(ark_mem)@, *old(env), is, kind, embed).e,
        flag == store_stage(old(ark_mem)@, *old(env), is, kind, embed).flag,
{
    reveal(store_stage);
    let slot: i32 = mriStep_SlotOf(ark_mem, is);
    if slot == -1 || (!embed && mriStep_StageKind(ark_mem, is + 1) == MRISTAGE_STIFF_ACC) {
        return ARK_SUCCESS;
    }
    let p: MriProblem = ark_mem.get_mri_prb();
    mriStep_StoreSlow(
        ark_mem,
        env,
        slot,
        p.explicit_rhs,
        p.implicit_rhs,
        p.deduce_rhs && kind == MRISTAGE_DIRK_NOFAST,
    )
}

/// The time of abscissa `c` in the step.
#[verifier::opaque]
pub open spec fn time_at(m: MemView, c: sunrealtype) -> sunrealtype {
    r_add(m.stp().tn, r_mul(c, m.stp().h))
}

/// The time of abscissa `c` in the step.
pub fn mriStep_TimeAt(ark_mem: &ARKodeMemRec, c: sunrealtype) -> (r: sunrealtype)
    ensures
        r == time_at(ark_mem@, c),
{
    reveal(time_at);
    let s = ark_mem.get_stp();
    s.tn + c * s.h
}

/// The time at the end of the step.
#[verifier::opaque]
pub open spec fn step_end(m: MemView) -> sunrealtype {
    r_add(m.stp().tn, m.stp().h)
}

/// The time at the end of the step.
pub fn mriStep_StepEnd(ark_mem: &ARKodeMemRec) -> (r: sunrealtype)
    ensures
        r == step_end(ark_mem@),
{
    reveal(step_end);
    let s = ark_mem.get_stp();
    s.tn + s.h
}

/// An internal stage, from the stage before it to its right-hand sides.
#[verifier::opaque]
pub open spec fn inner_stage<E: ArkEnv>(
    m: MemView,
    e: E,
    is: i32,
    need: bool,
    embed: bool,
    nflag: i32,
) -> SolveOut<E> {
    let t0 = time_at(m, abscissa(m, is - 1));
    let tf = time_at(m, abscissa(m, is as int));
    let m1 = at_stage(with_tcur(m, tf), is);
    let kind = stage_kind(m1, is as int);
    let a = solve_stage(m1, e, is, t0, tf, need, nflag);
    let b = settle_stage(
        a.m,
        a.e,
        kind,
        tf,
        UserFn::PostProcessStage,
        a.m.att().PostProcessStageFn,
        ARK_POSTPROCESS_STAGE_FAIL,
    );
    let c = store_stage(b.m, b.e, is, kind, embed);
    if a.flag != ARK_SUCCESS {
        a
    } else if b.flag != ARK_SUCCESS {
        SolveOut { m: b.m, e: b.e, nflag: a.nflag, flag: b.flag }
    } else {
        SolveOut { m: c.m, e: c.e, nflag: a.nflag, flag: c.flag }
    }
}

fn mriStep_InnerStage<E: ArkEnv>(
    ark_mem: &mut ARKodeMemRec,
    env: &mut E,
    is: i32,
    need: bool,
    embed: bool,
    nflag: &mut i32,
) -> (flag: i32)
    requires
        1 <= is < i32::MAX,
    ensures
        ({
            let o = inner_stage(old(ark_mem)@, *old(env), is, need, embed, *old(nflag));
            &&& final(ark_mem)@ == o.m
            &&& *final(env) == o.e
            &&& *final(nflag) == o.nflag
            &&& flag == o.flag
        }),
{
    reveal(inner_stage);
    let t0: sunrealtype = mriStep_TimeAt(ark_mem, mriStep_Abscissa(ark_mem, is - 1));
    let tf: sunrealtype = mriStep_TimeAt(ark_mem, mriStep_Abscissa(ark_mem, is));
    set_tcur(ark_mem, tf);
    mriStep_AtStage(ark_mem, is);
    let kind: i32 = mriStep_StageKind(ark_mem, is);
    let retval: i32 = mriStep_SolveStage(ark_mem, env, is, t0, tf, need, nflag);
    if retval != ARK_SUCCESS {
        return retval;
    }
    let f: Option<FnId> = ark_mem.get_att().PostProcessStageFn;
    let retval: i32 = mriStep_SettleStage(
        ark_mem,
        env,
        kind,
        tf,
        UserFn::PostProcessStage,
        f,
        ARK_POSTPROCESS_STAGE_FAIL,
    );
    if retval != ARK_SUCCESS {
        return retval;
    }
    mriStep_StoreStage(ark_mem, env, is, kind, embed)
}

/// The internal stages from `is` to the last but one.
pub open spec fn inner_stages<E: ArkEnv>(
    m: MemView,
    e: E,
    is: int,
    stages: int,
    need: bool,
    embed: bool,
    nflag: i32,
) -> SolveOut<E>
    decreases stages - is,
{
    if is >= stages - 1 {
        SolveOut { m, e, nflag, flag: ARK_SUCCESS }
    } else {
        let r = inner_stage(m, e, is as i32, need, embed, nflag);
        if r.flag != ARK_SUCCESS {
            r
        } else {
            inner_stages(r.m, r.e, is + 1, stages, need, embed, r.nflag)
        }
    }
}

fn mriStep_InnerStages<E: ArkEnv>(
    ark_mem: &mut ARKodeMemRec,
    env: &mut E,
    stages: i32,
    need: bool,
    embed: bool,
    nflag: &mut i32,
) -> (flag: i32)
    ensures
        ({
            let o = inner_stages(
                old(ark_mem)@,
                *old(env),
                1,
                stages as int,
                need,
                embed,
                *old(nflag),
            );
            &&& final(ark_mem)@ == o.m
            &&& *final(env) == o.e
            &&& *final(nflag) == o.nflag
            &&& flag == o.flag
        }),
{
    let mut is: i32 = 1;
    while is < stages && is + 1 < stages
        invariant
            1 <= is,
            is <= stages || is == 1,
            inner_stages(
                old(ark_mem)@,
                *old(env),
                1,
                stages as int,
                need,
                embed,
                *old(nflag),
            ) == inner_stages(
                ark_mem@,
                *env,
                is as int,
                stages as int,
                need,
                embed,
                *nflag,
            ),
        decreases stages - is,
    {
        let retval: i32 = mriStep_InnerStage(ark_mem, env, is, need, embed, nflag);
        if retval != ARK_SUCCESS {
            return retval;
        }
        is = is + 1;
    }
    ARK_SUCCESS
}

/// The current solution and the embedded one exchanged.
#[verifier::opaque]
pub open spec fn exchange(m: MemView) -> MemView {
    put_tempv4(put_ycur(m, m.tempv4()), m.ycur())
}

fn mriStep_Exchange(ark_mem: &mut ARKodeMemRec)
    ensures
        final(ark_mem)@ == exchange(old(ark_mem)@),
{
    reveal(exchange);
    let y: N_Vector = ark_mem.get_ycur();
    let z: N_Vector = ark_mem.get_tempv4();
    ark_mem.set_ycur(z);
    ark_mem.set_tempv4(y);
}

/// The embedded solution: the stage after the last one, from the current
/// solution, which is kept. The fast integrator returns to the start of the
/// last stage.
#[verifier::opaque]
pub open spec fn embedded_stage<E: ArkEnv>(m: MemView, e: E, stages: i32, nflag: i32) -> SolveOut<E> {
    let m1 = at_stage(m, stages);
    let m2 = exchange(put_tempv4(m1, v_scale(ONE(), m1.ycur(), m1.tempv4())));
    let t0 = time_at(m2, abscissa(m2, stages - 2));
    let tf = step_end(m2);
    let a = solve_stage(with_tcur(m2, tf), e, stages, t0, tf, false, nflag);
    let b = restart_fast(exchange(a.m), a.e, t0);
    if a.flag != ARK_SUCCESS {
        a
    } else {
        SolveOut { m: b.m, e: b.e, nflag: a.nflag, flag: b.flag }
    }
}

fn mriStep_EmbeddedStage<E: ArkEnv>(
    ark_mem: &mut ARKodeMemRec,
    env: &mut E,
    stages: i32,
    nflag: &mut i32,
) -> (flag: i32)
    requires
        stages >= i32::MIN + 2,
    ensures
        ({
            let o = embedded_stage(old(ark_mem)@, *old(env), stages, *old(nflag));
            &&& final(ark_mem)@ == o.m
            &&& *final(env) == o.e
            &&& *final(nflag) == o.nflag
            &&& flag == o.flag
        }),
{
    reveal(embedded_stage);
    mriStep_AtStage(ark_mem, stages);
    let z: N_Vector = N_VScale(ONE(), &ark_mem.get_ycur(), &ark_mem.get_tempv4());
    ark_mem.set_tempv4(z);
    mriStep_Exchange(ark_mem);
    let t0: sunrealtype = mriStep_TimeAt(ark_mem, mriStep_Abscissa(ark_mem, stages - 2));
    let tf: sunrealtype = mriStep_StepEnd(ark_mem);
    set_tcur(ark_mem, tf);
    let retval: i32 = mriStep_SolveStage(ark_mem, env, stages, t0, tf, false, nflag);
    if retval != ARK_SUCCESS {
        return retval;
    }
    mriStep_Exchange(ark_mem);
    mriStep_RestartFast(ark_mem, env, t0)
}

/// The last stage, which gives the solution of the step.
#[verifier::opaque]
pub open spec fn last_stage<E: ArkEnv>(m: MemView, e: E, is: i32, need: bool, nflag: i32) -> SolveOut<E> {
    let m1 = at_stage(m, is);
    let t0 = time_at(m1, abscissa(m1, is - 1));
    let tf = step_end(m1);
    let m2 = with_tcur(m1, tf);
    let kind = stage_kind(m2, is as int);
    let a = solve_stage(m2, e, is, t0, tf, need, nflag);
    let b = settle_stage(
        a.m,
        a.e,
        kind,
        tf,
        UserFn::PostProcessStep,
        a.m.att().PostProcessStepFn,
        ARK_POSTPROCESS_STEP_FAIL,
    );
    if a.flag != ARK_SUCCESS {
        a
    } else {
        SolveOut { m: b.m, e: b.e, nflag: a.nflag, flag: b.flag }
    }
}

fn mriStep_LastStage<E: ArkEnv>(
    ark_mem: &mut ARKodeMemRec,
    env: &mut E,
    is: i32,
    need: bool,
    nflag: &mut i32,
) -> (flag: i32)
    requires
        is > i32::MIN,
    ensures
        ({
            let o = last_stage(old(ark_mem)@, *old(env), is, need, *old(nflag));
            &&& final(ark_mem)@ == o.m
            &&& *final(env) == o.e
            &&& *final(nflag) == o.nflag
            &&& flag == o.flag
        }),
{
    reveal(last_stage);
    mriStep_AtStage(ark_mem, is);
    let t0: sunrealtype = mriStep_TimeAt(ark_mem, mriStep_Abscissa(ark_mem, is - 1));
    let tf: sunrealtype = mriStep_StepEnd(ark_mem);
    set_tcur(ark_mem, tf);
    let kind: i32 = mriStep_StageKind(ark_mem, is);
    let retval: i32 = mriStep_SolveStage(ark_mem, env, is, t0, tf, need, nflag);
    if retval != ARK_SUCCESS {
        return retval;
    }
    let f: Option<FnId> = ark_mem.get_att().PostProcessStepFn;
    mriStep_SettleStage(
        ark_mem,
        env,
        kind,
        tf,
        UserFn::PostProcessStep,
        f,
        ARK_POSTPROCESS_STEP_FAIL,
    )
}

/// The stages of a step: the internal ones, the embedded one where the error
/// is estimated, and the last one.
#[verifier::opaque]
pub open spec fn gark_stages<E: ArkEnv>(m: MemView, e: E, need: bool, embed: bool) -> StepOut<E> {
    let stages = mri(m).mth().stages;
    let a = inner_stages(m, e, 1, stages as int, need, embed, ARK_SUCCESS);
    let b = if embed {
        embedded_stage(a.m, a.e, stages, a.nflag)
    } else {
        a
    };
    let c = last_stage(b.m, b.e, (stages - 1) as i32, need, b.nflag);
    let d = error_estimate(c.m, c.m.ycur(), c.m.tempv4());
    if stages < 1 {
        StepOut { m, e, dsm: ZERO(), nflag: ARK_SUCCESS, flag: ARK_INVALID_TABLE }
    } else if a.flag != ARK_SUCCESS {
        StepOut { m: a.m, e: a.e, dsm: ZERO(), nflag: a.nflag, flag: a.flag }
    } else if b.flag != ARK_SUCCESS {
        StepOut { m: b.m, e: b.e, dsm: ZERO(), nflag: b.nflag, flag: b.flag }
    } else if c.flag != ARK_SUCCESS || !embed {
        StepOut { m: c.m, e: c.e, dsm: ZERO(), nflag: c.nflag, flag: c.flag }
    } else {
        StepOut { m: d.0, e: c.e, dsm: d.1, nflag: c.nflag, flag: ARK_SUCCESS }
    }
}

fn mriStep_GarkStages<E: ArkEnv>(
    ark_mem: &mut ARKodeMemRec,
    env: &mut E,
    need: bool,
    embed: bool,
    dsm: &mut sunrealtype,
    nflag: &mut i32,
) -> (flag: i32)
    requires
        *old(dsm) == ZERO(),
        *old(nflag) == ARK_SUCCESS,
    ensures
        ({
            let o = gark_stages(old(ark_mem)@, *old(env), need, embed);
            &&& final(ark_mem)@ == o.m
            &&& *final(env) == o.e
            &&& *final(dsm) == o.dsm
            &&& *final(nflag) == o.nflag
            &&& flag == o.flag
        }),
{
    reveal(gark_stages);
    let stages: i32 = ark_mem.get_mri_mth().stages;
    if stages < 1 {
        return ARK_INVALID_TABLE;
    }
    let retval: i32 = mriStep_InnerStages(ark_mem, env, stages, need, embed, nflag);
    if retval != ARK_SUCCESS {
        return retval;
    }
    if embed {
        let retval: i32 = mriStep_EmbeddedStage(ark_mem, env, stages, nflag);
        if retval != ARK_SUCCESS {
            return retval;
        }
    }
    let retval: i32 = mriStep_LastStage(ark_mem, env, stages - 1, need, nflag);
    if retval != ARK_SUCCESS || !embed {
        return retval;
    }
    let y: N_Vector = ark_mem.get_ycur();
    let z: N_Vector = ark_mem.get_tempv4();
    *dsm = mriStep_ErrorEstimate(ark_mem, &y, &z);
    ARK_SUCCESS
}

/// A step of a generalised additive method. Without a stepper memory nothing
/// happens.
#[verifier::opaque]
pub open spec fn take_step_gark<E: ArkEnv>(m: MemView, e: E, dsm: sunrealtype, nflag: i32) -> StepOut<
    E,
> {
    let p = prepare(m, e, true, false);
    if access_step_mem(m) != ARK_SUCCESS {
        StepOut { m, e, dsm, nflag, flag: access_step_mem(m) }
    } else if p.flag != ARK_SUCCESS {
        StepOut { m: p.m, e: p.e, dsm: ZERO(), nflag: ARK_SUCCESS, flag: p.flag }
    } else {
        gark_stages(p.m, p.e, p.need, wants_error(m))
    }
}

/// Takes a step of a generalised additive method: the solution is the current
/// one of the memory, `dsmPtr` the estimate of its temporal error, `nflagPtr`
/// the flag of the solvers. A positive flag asks for another attempt with a
/// smaller step, a negative one ends the integration.
pub fn mriStep_TakeStepMRIGARK<E: ArkEnv>(
    ark_mem: &mut ARKodeMemRec,
    env: &mut E,
    dsmPtr: &mut sunrealtype,
    nflagPtr: &mut i32,
) -> (flag: i32)
    ensures
        ({
            let o = take_step_gark(old(ark_mem)@, *old(env), *old(dsmPtr), *old(nflagPtr));
            &&& final(ark_mem)@ == o.m
            &&& *final(env) == o.e
            &&& *final(dsmPtr) == o.dsm
            &&& *final(nflagPtr) == o.nflag
            &&& flag == o.flag
        }),
{
    reveal(take_step_gark);
    let retval: i32 = mriStep_AccessStepMem(ark_mem);
    if retval != ARK_SUCCESS {
        return retval;
    }
    *nflagPtr = ARK_SUCCESS;
    *dsmPtr = ZERO();
    let embed: bool = mriStep_WantsError(ark_mem);
    let mut need: bool = false;
    let retval: i32 = mriStep_Prepare(ark_mem, env, true, false, &mut need);
    if retval != ARK_SUCCESS {
        return retval;
    }
    mriStep_GarkStages(ark_mem, env, need, embed, dsmPtr, nflagPtr)
}

} // verus!
