//! A slow step of an exponential method: stages come in groups that share one
//! fast evolution from the solution at the start of the step.
use crate::arkode_codes::{
    ARK_POSTPROCESS_STAGE_FAIL, ARK_POSTPROCESS_STEP_FAIL, ARK_SUCCESS, CONV_FAIL,
};
use crate::arkode_impl::{ARKodeMemRec, MemView};
use crate::arkode_mem::{mri, put_tempv4, put_ycur};
use crate::binary64::sunrealtype;
use crate::coupling::{group_at, group_entry};
use crate::env::{ArkEnv, UserFn};
use crate::mristep_begin::{
    at_stage, error_estimate, mriStep_AtStage, mriStep_ErrorEstimate, mriStep_PostAndRestart,
    mriStep_Prepare, mriStep_RestartFast, mriStep_StoreSlow, mriStep_WantsError, post_and_restart,
    prepare, restart_fast, set_tcur, store_slow, wants_error, with_tcur, StepOut,
};
use crate::mristep_fast::{
    inner_forcing, mriStep_ComputeInnerForcing, mriStep_StageERKFast, stage_erk_fast,
};
use crate::mristep_gark::{mriStep_StepEnd, mriStep_TimeAt, step_end, time_at};
use crate::mristep_rhs::{access_step_mem, mriStep_AccessStepMem};
use crate::mristep_stage::{abscissa, mriStep_Abscissa, SolveOut};
use crate::nvector::{v_scale, N_VScale, N_Vector};
use crate::outcome::Run;
use crate::sundials_types::{ONE, ZERO};
use vstd::prelude::*;

verus! {

/// Number of stage groups.
pub open spec fn group_count(m: MemView) -> i32 {
    match mri(m).MRIC() {
        None => 0,
        Some(t) => t.ngroup,
    }
}

fn mriStep_GroupCount(ark_mem: &ARKodeMemRec) -> (r: i32)
    ensures
        r == group_count(ark_mem@),
{
    match ark_mem.table() {
        None => 0,
        Some(t) => t.ngroup,
    }
}

/// Member `i` of group `ig`; negative past the end of the group.
#[verifier::opaque]
pub open spec fn member(m: MemView, ig: int, i: int) -> i32 {
    match mri(m).MRIC() {
        None => (-1) as i32,
        Some(t) => group_at(t.group@, ig, i),
    }
}

fn mriStep_Member(ark_mem: &ARKodeMemRec, ig: i32, i: i32) -> (r: i32)
    ensures
        r == member(ark_mem@, ig as int, i as int),
{
    reveal(member);
    match ark_mem.table() {
        None => -1,
        Some(t) => group_entry(&t.group, ig, i),
    }
}

/// The smaller of `low` and the members of a group from `i` on.
#[verifier::opaque]
pub open spec fn lowest_from(m: MemView, ig: int, i: int, stages: int, low: i32) -> i32
    decreases stages - i,
{
    if i >= stages || member(m, ig, i) < 0 {
        low
    } else {
        lowest_from(
            m,
            ig,
            i + 1,
            stages,
            if low < member(m, ig, i) {
                low
            } else {
                member(m, ig, i)
            },
        )
    }
}

/// The lowest stage of a group: its forcing may only use the stages before.
fn mriStep_LowestStage(ark_mem: &ARKodeMemRec, ig: i32, stages: i32) -> (r: i32)
    ensures
        r == lowest_from(
            ark_mem@,
            ig as int,
            1,
            stages as int,
            member(ark_mem@, ig as int, 0),
        ),
{
    let mut low: i32 = mriStep_Member(ark_mem, ig, 0);
    let mut i: i32 = 1;
    while i < stages
        invariant
            1 <= i,
            lowest_from(
                ark_mem@,
                ig as int,
                1,
                stages as int,
                member(ark_mem@, ig as int, 0),
            ) == lowest_from(ark_mem@, ig as int, i as int, stages as int, low),
        decreases stages - i,
    {
        reveal(lowest_from);
        let s: i32 = mriStep_Member(ark_mem, ig, i);
        if s < 0 {
            return low;
        }
        if !(low < s) {
            low = s;
        }
        i = i + 1;
    }
    proof {
        reveal(lowest_from);
    }
    low
}

/// Fast evolution of one member of a group: `first` tells that it opens the
/// group.
#[verifier::opaque]
pub open spec fn evolve_member<E: ArkEnv>(
    m: MemView,
    e: E,
    stage: i32,
    first: bool,
    t0: sunrealtype,
    tf: sunrealtype,
    need: bool,
    nflag: i32,
) -> SolveOut<E> {
    let a = if stage > 1 && first {
        restart_fast(m, e, t0)
    } else {
        Run { m, e, flag: ARK_SUCCESS }
    };
    let r = stage_erk_fast(a.m, a.e, t0, tf, a.m.ycur(), need);
    let m1 = put_ycur(r.m, r.v);
    if a.flag != ARK_SUCCESS {
        SolveOut { m: a.m, e: a.e, nflag, flag: a.flag }
    } else if r.flag != ARK_SUCCESS {
        SolveOut { m: m1, e: r.e, nflag: CONV_FAIL, flag: r.flag }
    } else {
        SolveOut { m: with_tcur(m1, tf), e: r.e, nflag, flag: ARK_SUCCESS }
    }
}

fn mriStep_EvolveMember<E: ArkEnv>(
    ark_mem: &mut ARKodeMemRec,
    env: &mut E,
    stage: i32,
    first: bool,
    t0: sunrealtype,
    tf: sunrealtype,
    need: bool,
    nflag: &mut i32,
) -> (flag: i32)
    ensures
        ({
            let o = evolve_member(
                old(ark_mem)@,
                *old(env),
                stage,
                first,
                t0,
                tf,
                need,
                *old(nflag),
            );
            &&& final(ark_mem)@ == o.m
            &&& *final(env) == o.e
            &&& *final(nflag) == o.nflag
            &&& flag == o.flag
        }),
{
    reveal(evolve_member);
    if stage > 1 && first {
        let retval: i32 = mriStep_RestartFast(ark_mem, env, t0);
        if retval != ARK_SUCCESS {
            return retval;
        }
    }
    let mut y: N_Vector = ark_mem.get_ycur();
    let retval: i32 = mriStep_StageERKFast(ark_mem, env, t0, tf, &mut y, need);
    ark_mem.set_ycur(y);
    if retval != ARK_SUCCESS {
        *nflag = CONV_FAIL;
        return retval;
    }
    set_tcur(ark_mem, tf);
    ARK_SUCCESS
}

/// What follows the evolution of a member: the user's function and the slow
/// right-hand side of an internal stage, the user's function on the solution,
/// or a copy of the embedded solution.
#[verifier::opaque]
pub open spec fn finish_member<E: ArkEnv>(
    m: MemView,
    e: E,
    stage: i32,
    solution: bool,
    embedding: bool,
) -> Run<E> {
    if embedding {
        Run { m: put_tempv4(m, v_scale(ONE(), m.ycur(), m.tempv4())), e, flag: ARK_SUCCESS }
    } else if solution {
        post_and_restart(
            m,
            e,
            UserFn::PostProcessStep,
            m.att().PostProcessStepFn,
            ARK_POSTPROCESS_STEP_FAIL,
        )
    } else {
        let p = post_and_restart(
            m,
            e,
            UserFn::PostProcessStage,
            m.att().PostProcessStageFn,
            ARK_POSTPROCESS_STAGE_FAIL,
        );
        if p.flag != ARK_SUCCESS {
            p
        } else {
            store_slow(p.m, p.e, stage, true, false, false)
        }
    }
}

fn mriStep_FinishMember<E: ArkEnv>(
    ark_mem: &mut ARKodeMemRec,
    env: &mut E,
    stage: i32,
    solution: bool,
    embedding: bool,
) -> (flag: i32)
    ensures
        ({
            let o = finish_member(old(ark_mem)@, *old(env), stage, solution, embedding);
            &&& final(ark_mem)@ == o.m
            &&& *final(env) == o.e
            &&& flag == o.flag
        }),
{
    reveal(finish_member);
    if embedding {
        let z: N_Vector = N_VScale(ONE(), &ark_mem.get_ycur(), &ark_mem.get_tempv4());
        ark_mem.set_tempv4(z);
        return ARK_SUCCESS;
    }
    let a = ark_mem.get_att();
    if solution {
        return mriStep_PostAndRestart(
            ark_mem,
            env,
            UserFn::PostProcessStep,
            a.PostProcessStepFn,
            ARK_POSTPROCESS_STEP_FAIL,
        );
    }
    let retval: i32 = mriStep_PostAndRestart(
        ark_mem,
        env,
        UserFn::PostProcessStage,
        a.PostProcessStageFn,
        ARK_POSTPROCESS_STAGE_FAIL,
    );
    if retval != ARK_SUCCESS {
        return retval;
    }
    mriStep_StoreSlow(ark_mem, env, stage, true, false, false)
}

/// Outcome of a member or of a group: `t` is the time reached, `more` tells
/// whether the group goes on.
pub struct MemberOut<E> {
    pub m: MemView,
    pub e: E,
    pub t: sunrealtype,
    pub nflag: i32,
    pub flag: i32,
    pub more: bool,
}

/// Member `i` of group `ig`. The last member of the last group gives the
/// solution, that of the group before it the embedded solution, which is left
/// out where no error is estimated.
#[verifier::opaque]
pub open spec fn merk_member<E: ArkEnv>(
    m: MemView,
    e: E,
    ig: i32,
    ngroup: i32,
    i: i32,
    stages: i32,
    t0: sunrealtype,
    need: bool,
    embed: bool,
    nflag: i32,
) -> MemberOut<E> {
    let stage = member(m, ig as int, i as int);
    let m1 = at_stage(m, stage);
    let next = if stage < stages {
        member(m1, ig as int, i + 1)
    } else {
        (-1) as i32
    };
    let embedding = ig == ngroup - 2 && next < 0;
    let solution = ig == ngroup - 1 && next < 0;
    let c = if stage >= stages {
        ONE()
    } else {
        abscissa(m1, stage as int)
    };
    let tf = time_at(m1, c);
    let a = evolve_member(m1, e, stage, i == 0, t0, tf, need && !embedding, nflag);
    let b = finish_member(a.m, a.e, stage, solution, embedding);
    if stage < 0 || (embedding && !embed) {
        MemberOut { m: m1, e, t: t0, nflag, flag: ARK_SUCCESS, more: false }
    } else if a.flag != ARK_SUCCESS {
        MemberOut { m: a.m, e: a.e, t: t0, nflag: a.nflag, flag: a.flag, more: false }
    } else {
        MemberOut {
            m: b.m,
            e: b.e,
            t: tf,
            nflag: a.nflag,
            flag: b.flag,
            more: b.flag == ARK_SUCCESS,
        }
    }
}

fn mriStep_MerkMember<E: ArkEnv>(
    ark_mem: &mut ARKodeMemRec,
    env: &mut E,
    ig: i32,
    ngroup: i32,
    i: i32,
    stages: i32,
    t0: &mut sunrealtype,
    need: bool,
    embed: bool,
    nflag: &mut i32,
    more: &mut bool,
) -> (flag: i32)
    requires
        0 <= ig < ngroup,
        0 <= i < stages,
    ensures
        ({
            let o = merk_member(
                old(ark_mem)@,
                *old(env),
                ig,
                ngroup,
                i,
                stages,
                *old(t0),
                need,
                embed,
                *old(nflag),
            );
            &&& final(ark_mem)@ == o.m
            &&& *final(env) == o.e
            &&& *final(t0) == o.t
            &&& *final(nflag) == o.nflag
            &&& *final(more) == o.more
            &&& flag == o.flag
        }),
{
    reveal(merk_member);
    *more = false;
    let stage: i32 = mriStep_Member(ark_mem, ig, i);
    mriStep_AtStage(ark_mem, stage);
    if stage < 0 {
        return ARK_SUCCESS;
    }
    let next: i32 = if stage < stages {
        mriStep_Member(ark_mem, ig, i + 1)
    } else {
        -1
    };
    let embedding: bool = ig == ngroup - 2 && next < 0;
    let solution: bool = ig == ngroup - 1 && next < 0;
    if embedding && !embed {
        return ARK_SUCCESS;
    }
    let c: sunrealtype = if stage >= stages {
        ONE()
    } else {
        mriStep_Abscissa(ark_mem, stage)
    };
    let tf: sunrealtype = mriStep_TimeAt(ark_mem, c);
    let retval: i32 = mriStep_EvolveMember(
        ark_mem,
        env,
        stage,
        i == 0,
        *t0,
        tf,
        need && !embedding,
        nflag,
    );
    if retval != ARK_SUCCESS {
        return retval;
    }
    *t0 = tf;
    let retval: i32 = mriStep_FinishMember(ark_mem, env, stage, solution, embedding);
    *more = retval == ARK_SUCCESS;
    retval
}

/// The members of a group from `i` on.
pub open spec fn merk_members<E: ArkEnv>(
    m: MemView,
    e: E,
    ig: i32,
    ngroup: i32,
    i: int,
    stages: i32,
    t0: sunrealtype,
    need: bool,
    embed: bool,
    nflag: i32,
) -> SolveOut<E>
    decreases stages - i,
{
    if i >= stages {
        SolveOut { m, e, nflag, flag: ARK_SUCCESS }
    } else {
        let r = merk_member(m, e, ig, ngroup, i as i32, stages, t0, need, embed, nflag);
        if !r.more {
            SolveOut { m: r.m, e: r.e, nflag: r.nflag, flag: r.flag }
        } else {
            merk_members(r.m, r.e, ig, ngroup, i + 1, stages, r.t, need, embed, r.nflag)
        }
    }
}

fn mriStep_MerkMembers<E: ArkEnv>(
    ark_mem: &mut ARKodeMemRec,
    env: &mut E,
    ig: i32,
    ngroup: i32,
    stages: i32,
    t: sunrealtype,
    need: bool,
    embed: bool,
    nflag: &mut i32,
) -> (flag: i32)
    requires
        0 <= ig < ngroup,
    ensures
        ({
            let o = merk_members(
                old(ark_mem)@,
                *old(env),
                ig,
                ngroup,
                0,
                stages,
                t,
                need,
                embed,
                *old(nflag),
            );
            &&& final(ark_mem)@ == o.m
            &&& *final(env) == o.e
            &&& *final(nflag) == o.nflag
            &&& flag == o.flag
        }),
{
    let ghost goal = merk_members(
        ark_mem@,
        *env,
        ig,
        ngroup,
        0,
        stages,
        t,
        need,
        embed,
        *nflag,
    );
    let mut t0: sunrealtype = t;
    let mut i: i32 = 0;
    let mut more: bool = true;
    while i < stages
        invariant
            0 <= i,
            0 <= ig < ngroup,
            goal == merk_members(
                old(ark_mem)@,
                *old(env),
                ig,
                ngroup,
                0,
                stages,
                t,
                need,
                embed,
                *old(nflag),
            ),
            goal == merk_members(
                ark_mem@,
                *env,
                ig,
                ngroup,
                i as int,
                stages,
                t0,
                need,
                embed,
                *nflag,
            ),
        decreases stages - i,
    {
        let retval: i32 = mriStep_MerkMember(
            ark_mem,
            env,
            ig,
            ngroup,
            i,
            stages,
            &mut t0,
            need,
            embed,
            nflag,
            &mut more,
        );
        if !more {
            return retval;
        }
        i = i + 1;
    }
    ARK_SUCCESS
}

/// A group of stages: forcing, the solution at the start of the step, and the
/// members.
#[verifier::opaque]
pub open spec fn merk_group<E: ArkEnv>(
    m: MemView,
    e: E,
    ig: i32,
    ngroup: i32,
    stages: i32,
    need: bool,
    embed: bool,
    nflag: i32,
) -> SolveOut<E> {
    let low = lowest_from(m, ig as int, 1, stages as int, member(m, ig as int, 0));
    let f = inner_forcing(m, low, m.stp().tn, step_end(m));
    let m1 = if ig > 0 {
        put_ycur(f.0, v_scale(ONE(), f.0.yn(), f.0.ycur()))
    } else {
        f.0
    };
    if f.1 != ARK_SUCCESS {
        SolveOut { m: f.0, e, nflag, flag: f.1 }
    } else {
        merk_members(m1, e, ig, ngroup, 0, stages, m1.stp().tn, need, embed, nflag)
    }
}

fn mriStep_MerkGroup<E: ArkEnv>(
    ark_mem: &mut ARKodeMemRec,
    env: &mut E,
    ig: i32,
    ngroup: i32,
    stages: i32,
    need: bool,
    embed: bool,
    nflag: &mut i32,
) -> (flag: i32)
    requires
        0 <= ig < ngroup,
    ensures
        ({
            let o = merk_group(
                old(ark_mem)@,
                *old(env),
                ig,
                ngroup,
                stages,
                need,
                embed,
                *old(nflag),
            );
            &&& final(ark_mem)@ == o.m
            &&& *final(env) == o.e
            &&& *final(nflag) == o.nflag
            &&& flag == o.flag
        }),
{
    reveal(merk_group);
    let low: i32 = mriStep_LowestStage(ark_mem, ig, stages);
    let tn: sunrealtype = ark_mem.get_stp().tn;
    let tf: sunrealtype = mriStep_StepEnd(ark_mem);
    let retval: i32 = mriStep_ComputeInnerForcing(ark_mem, low, tn, tf);
    if retval != ARK_SUCCESS {
        return retval;
    }
    if ig > 0 {
        let y: N_Vector = N_VScale(ONE(), &ark_mem.get_yn(), &ark_mem.get_ycur());
        ark_mem.set_ycur(y);
    }
    let t0: sunrealtype = ark_mem.get_stp().tn;
    mriStep_MerkMembers(ark_mem, env, ig, ngroup, stages, t0, need, embed, nflag)
}

/// The groups from `ig` on.
pub open spec fn merk_groups<E: ArkEnv>(
    m: MemView,
    e: E,
    ig: int,
    ngroup: i32,
    stages: i32,
    need: bool,
    embed: bool,
    nflag: i32,
) -> SolveOut<E>
    decreases ngroup - ig,
{
    if ig >= ngroup {
        SolveOut { m, e, nflag, flag: ARK_SUCCESS }
    } else {
        let r = merk_group(m, e, ig as i32, ngroup, stages, need, embed, nflag);
        if r.flag != ARK_SUCCESS {
            r
        } else {
            merk_groups(r.m, r.e, ig + 1, ngroup, stages, need, embed, r.nflag)
        }
    }
}

fn mriStep_MerkGroups<E: ArkEnv>(
    ark_mem: &mut ARKodeMemRec,
    env: &mut E,
    ngroup: i32,
    stages: i32,
    need: bool,
    embed: bool,
    nflag: &mut i32,
) -> (flag: i32)
    ensures
        ({
            let o = merk_groups(
                old(ark_mem)@,
                *old(env),
                0,
                ngroup,
                stages,
                need,
                embed,
                *old(nflag),
            );
            &&& final(ark_mem)@ == o.m
            &&& *final(env) == o.e
            &&& *final(nflag) == o.nflag
            &&& flag == o.flag
        }),
{
    let mut ig: i32 = 0;
    while ig < ngroup
        invariant
            0 <= ig,
            merk_groups(
                old(ark_mem)@,
                *old(env),
                0,
                ngroup,
                stages,
                need,
                embed,
                *old(nflag),
            ) == merk_groups(
                ark_mem@,
                *env,
                ig as int,
                ngroup,
                stages,
                need,
                embed,
                *nflag,
            ),
        decreases ngroup - ig,
    {
        let retval: i32 = mriStep_MerkGroup(
            ark_mem,
            env,
            ig,
            ngroup,
            stages,
            need,
            embed,
            nflag,
        );
        if retval != ARK_SUCCESS {
            return retval;
        }
        ig = ig + 1;
    }
    ARK_SUCCESS
}

/// A step of an exponential method. Without a stepper memory nothing happens.
#[verifier::opaque]
pub open spec fn take_step_merk<E: ArkEnv>(m: MemView, e: E, dsm: sunrealtype, nflag: i32) -> StepOut<
    E,
> {
    let p = prepare(m, e, false, false);
    let embed = wants_error(m);
    let g = merk_groups(
        p.m,
        p.e,
        0,
        group_count(p.m),
        mri(p.m).mth().stages,
        p.need,
        embed,
        ARK_SUCCESS,
    );
    let d = error_estimate(g.m, g.m.ycur(), g.m.tempv4());
    if access_step_mem(m) != ARK_SUCCESS {
        StepOut { m, e, dsm, nflag, flag: access_step_mem(m) }
    } else if p.flag != ARK_SUCCESS {
        StepOut { m: p.m, e: p.e, dsm: ZERO(), nflag: ARK_SUCCESS, flag: p.flag }
    } else if g.flag != ARK_SUCCESS || !embed {
        StepOut { m: g.m, e: g.e, dsm: ZERO(), nflag: g.nflag, flag: g.flag }
    } else {
        StepOut { m: d.0, e: g.e, dsm: d.1, nflag: g.nflag, flag: ARK_SUCCESS }
    }
}

/// Takes a step of an exponential method: the solution is the current one of
/// the memory, `dsmPtr` the estimate of its temporal error, `nflagPtr` the
/// flag of the solvers. A positive flag asks for another attempt with a
/// smaller step, a negative one ends the integration.
pub fn mriStep_TakeStepMERK<E: ArkEnv>(
    ark_mem: &mut ARKodeMemRec,
    env: &mut E,
    dsmPtr: &mut sunrealtype,
    nflagPtr: &mut i32,
) -> (flag: i32)
    ensures
        ({
            let o = take_step_merk(old(ark_mem)@, *old(env), *old(dsmPtr), *old(nflagPtr));
            &&& final(ark_mem)@ == o.m
            &&& *final(env) == o.e
            &&& *final(dsmPtr) == o.dsm
            &&& *final(nflagPtr) == o.nflag
            &&& flag == o.flag
        }),
{
    reveal(take_step_merk);
    let retval: i32 = mriStep_AccessStepMem(ark_mem);
    if retval != ARK_SUCCESS {
        return retval;
    }
    *nflagPtr = ARK_SUCCESS;
    *dsmPtr = ZERO();
    let embed: bool = mriStep_WantsError(ark_mem);
    let mut need: bool = false;
    let retval: i32 = mriStep_Prepare(ark_mem, env, false, false, &mut need);
    if retval != ARK_SUCCESS {
        return retval;
    }
    let ngroup: i32 = mriStep_GroupCount(ark_mem);
    let stages: i32 = ark_mem.get_mri_mth().stages;
    let retval: i32 = mriStep_MerkGroups(ark_mem, env, ngroup, stages, need, embed, nflagPtr);
    if retval != ARK_SUCCESS || !embed {
        return retval;
    }
    let y: N_Vector = ark_mem.get_ycur();
    let z: N_Vector = ark_mem.get_tempv4();
    *dsmPtr = mriStep_ErrorEstimate(ark_mem, &y, &z);
    ARK_SUCCESS
}

} // verus!
