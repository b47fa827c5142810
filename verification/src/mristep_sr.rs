//! A slow step of a stage-restart method: each stage starts from the solution
//! at the start of the step, evolves the fast problem, and corrects the result
//! with the implicit right-hand sides.
use crate::arith::negate;
use crate::arkode_codes::{
    ARK_POSTPROCESS_STAGE_FAIL, ARK_POSTPROCESS_STEP_FAIL, ARK_SUCCESS, ARK_VECTOROP_ERR, CONV_FAIL,
    TRY_AGAIN,
};
use crate::arkode_impl::{ARKodeMemRec, MemView, MriMethod, MriNls, MriProblem};
use crate::arkode_mem::{mput_mth, mput_nls, mput_sdata, mri, put_tempv4, put_ycur};
use crate::binary64::{r_abs, r_div, r_lt, r_mul, r_neg, sunrealtype};
use crate::coupling::{coeff, coeff_entry, count};
use crate::env::{ArkEnv, ModuleCall, UserFn};
use crate::mristep_begin::{
    at_stage, error_estimate, mriStep_AtStage, mriStep_ErrorEstimate, mriStep_PostAndRestart,
    mriStep_Prepare, mriStep_RestartFast, mriStep_StoreSlow, mriStep_WantsError, post_and_restart,
    prepare, restart_fast, set_tcur, store_slow, wants_error, with_tcur, StepOut,
};
use crate::mristep_fast::{
    inner_forcing, mriStep_ComputeInnerForcing, mriStep_StageERKFast, stage_erk_fast,
};
use crate::mristep_gark::{mriStep_TimeAt, time_at};
use crate::mristep_rhs::{access_step_mem, mriStep_AccessStepMem, mriStep_WriteFse, write_fse};
use crate::mristep_stage::{
    abscissa, mriStep_Abscissa, mriStep_PredictCurrent, predict_current, SolveOut,
};
use crate::nvector::{
    entry, no_vectors, nth, nvecs, push_vector, v_comb, v_lin, v_scale, NVec, N_VLinearCombination,
    N_VLinearSum, N_VScale, N_Vector,
};
use crate::outcome::{call_module, module_run, Run};
use crate::sundials_math::SUNRabs;
use crate::sundials_types::{HUNDRED, ONE, SUN_UNIT_ROUNDOFF, ZERO};
use vstd::prelude::*;

verus! {

broadcast use crate::order::group_order;

/// Implicit coefficient `j` of stage `i`, zero without a table.
#[verifier::opaque]
pub open spec fn correction(m: MemView, i: int, j: int) -> sunrealtype {
    match mri(m).MRIC() {
        None => ZERO(),
        Some(t) => coeff(t.G@, 0, i, j),
    }
}

fn mriStep_Correction(ark_mem: &ARKodeMemRec, i: i32, j: i32) -> (r: sunrealtype)
    ensures
        r == correction(ark_mem@, i as int, j as int),
{
    reveal(correction);
    match ark_mem.table() {
        None => ZERO(),
        Some(t) => coeff_entry(&t.G, 0, i, j),
    }
}

/// What the implicit right-hand sides of the first `n` stages are scaled by in
/// the correction of `stage`.
#[verifier::opaque]
pub open spec fn correction_coeffs(m: MemView, stage: int, n: nat) -> Seq<sunrealtype> {
    Seq::new(n, |j: int| r_mul(m.stp().h, correction(m, stage, j)))
}

/// The implicit right-hand sides of the first `n` stages.
#[verifier::opaque]
pub open spec fn correction_vectors(m: MemView, n: nat) -> Seq<NVec> {
    Seq::new(n, |j: int| nth(mri(m).Fsi(), j))
}

fn mriStep_PushCorrection(
    ark_mem: &ARKodeMemRec,
    stage: i32,
    c: &mut Vec<sunrealtype>,
    x: &mut Vec<N_Vector>,
)
    ensures
        final(c)@ == old(c)@ + correction_coeffs(ark_mem@, stage as int, count(stage)),
        nvecs(final(x)@) == nvecs(old(x)@) + correction_vectors(ark_mem@, count(stage)),
{
    let ghost c0 = c@;
    let ghost x0 = nvecs(x@);
    let h: sunrealtype = ark_mem.get_stp().h;
    let fsi: Vec<N_Vector> = ark_mem.get_Fsi();
    let mut j: i32 = 0;
    while j < stage
        invariant
            0 <= j <= count(stage),
            h == ark_mem@.stp().h,
            nvecs(fsi@) == mri(ark_mem@).Fsi(),
            c@.len() == c0.len() + j,
            nvecs(x@).len() == x0.len() + j,
            forall|i: int| 0 <= i < c0.len() ==> #[trigger] c@[i] == c0[i],
            forall|i: int| 0 <= i < x0.len() ==> #[trigger] nvecs(x@)[i] == x0[i],
            forall|i: int|
                c0.len() <= i < c0.len() + j ==> #[trigger] c@[i] == r_mul(
                    h,
                    correction(ark_mem@, stage as int, i - c0.len()),
                ),
            forall|i: int|
                x0.len() <= i < x0.len() + j ==> #[trigger] nvecs(x@)[i] == nth(
                    nvecs(fsi@),
                    i - x0.len(),
                ),
        decreases stage - j,
    {
        c.push(h * mriStep_Correction(ark_mem, stage, j));
        push_vector(x, entry(&fsi, j));
        j = j + 1;
    }
    proof {
        reveal(correction_coeffs);
        reveal(correction_vectors);
        assert(c@ =~= c0 + correction_coeffs(ark_mem@, stage as int, count(stage)));
        assert(nvecs(x@) =~= x0 + correction_vectors(ark_mem@, count(stage)));
    }
}

/// The current solution corrected explicitly.
#[verifier::opaque]
pub open spec fn correct_explicit(m: MemView, stage: i32) -> MemView {
    put_ycur(
        m,
        v_comb(
            seq![ONE()] + correction_coeffs(m, stage as int, count(stage)),
            seq![m.ycur()] + correction_vectors(m, count(stage)),
            m.ycur(),
        ),
    )
}

fn mriStep_CorrectExplicit(ark_mem: &mut ARKodeMemRec, stage: i32) -> (flag: i32)
    ensures
        final(ark_mem)@ == correct_explicit(old(ark_mem)@, stage),
        flag == ARK_SUCCESS,
{
    reveal(correct_explicit);
    let mut c: Vec<sunrealtype> = Vec::new();
    let mut x: Vec<N_Vector> = no_vectors();
    c.push(ONE());
    push_vector(&mut x, ark_mem.get_ycur());
    let ghost m = ark_mem@;
    assert(c@ =~= seq![ONE()]);
    assert(nvecs(x@) =~= seq![m.ycur()]);
    mriStep_PushCorrection(ark_mem, stage, &mut c, &mut x);
    let (r, retval) = N_VLinearCombination(&c, &x, &ark_mem.get_ycur());
    ark_mem.set_ycur(r);
    if retval != 0 {
        return ARK_VECTOROP_ERR;
    }
    ARK_SUCCESS
}

/// The known part of the corrector equation.
#[verifier::opaque]
pub open spec fn correct_data(m: MemView, stage: i32) -> MemView {
    mput_sdata(
        m,
        v_comb(
            seq![ONE(), r_neg(ONE())] + correction_coeffs(m, stage as int, count(stage)),
            seq![m.ycur(), mri(m).zpred()] + correction_vectors(m, count(stage)),
            mri(m).sdata(),
        ),
    )
}

fn mriStep_CorrectData(ark_mem: &mut ARKodeMemRec, stage: i32) -> (flag: i32)
    ensures
        final(ark_mem)@ == correct_data(old(ark_mem)@, stage),
        flag == ARK_SUCCESS,
{
    reveal(correct_data);
    let mut c: Vec<sunrealtype> = Vec::new();
    let mut x: Vec<N_Vector> = no_vectors();
    c.push(ONE());
    push_vector(&mut x, ark_mem.get_ycur());
    c.push(negate(ONE()));
    push_vector(&mut x, ark_mem.get_zpred());
    let ghost m = ark_mem@;
    assert(c@ =~= seq![ONE(), r_neg(ONE())]);
    assert(nvecs(x@) =~= seq![m.ycur(), mri(m).zpred()]);
    mriStep_PushCorrection(ark_mem, stage, &mut c, &mut x);
    let (r, retval) = N_VLinearCombination(&c, &x, &ark_mem.get_sdata());
    ark_mem.set_sdata(r);
    if retval != 0 {
        return ARK_VECTOROP_ERR;
    }
    ARK_SUCCESS
}

/// The factors that go with the implicit coefficient `g`.
#[verifier::opaque]
pub open spec fn correct_gamma(m: MemView, g: sunrealtype) -> MemView {
    let gamma = r_mul(m.stp().h, g);
    let n = mri(m).nls();
    if m.flg().firststage {
        mput_nls(m, MriNls { gamma, gammap: gamma, gamrat: ONE(), ..n })
    } else {
        mput_nls(m, MriNls { gamma, gamrat: r_div(gamma, n.gammap), ..n })
    }
}

fn mriStep_CorrectGamma(ark_mem: &mut ARKodeMemRec, g: sunrealtype)
    ensures
        final(ark_mem)@ == correct_gamma(old(ark_mem)@, g),
{
    reveal(correct_gamma);
    let gamma: sunrealtype = ark_mem.get_stp().h * g;
    let n: MriNls = ark_mem.get_mri_nls();
    if ark_mem.get_flg().firststage {
        ark_mem.set_mri_nls(MriNls { gamma, gammap: gamma, gamrat: ONE(), ..n });
    } else {
        let gamrat: sunrealtype = gamma / n.gammap;
        ark_mem.set_mri_nls(MriNls { gamma, gamrat, ..n });
    }
}

/// The memory with the stage of predictor and solver set: the embedding
/// counts as the last stage.
#[verifier::opaque]
pub open spec fn solver_stage(m: MemView, stage: i32, embedding: bool) -> MemView {
    if embedding {
        mput_mth(m, MriMethod { istage: (stage - 1) as i32, ..mri(m).mth() })
    } else {
        m
    }
}

fn mriStep_SolverStage(ark_mem: &mut ARKodeMemRec, stage: i32, embedding: bool)
    requires
        stage > i32::MIN,
    ensures
        final(ark_mem)@ == solver_stage(old(ark_mem)@, stage, embedding),
{
    reveal(solver_stage);
    if embedding {
        let t: MriMethod = ark_mem.get_mri_mth();
        ark_mem.set_mri_mth(MriMethod { istage: stage - 1, ..t });
    }
}

/// The current solution corrected implicitly: prediction, known part of the
/// equation, factors, and the nonlinear solve.
#[verifier::opaque]
pub open spec fn correct_implicit<E: ArkEnv>(
    m: MemView,
    e: E,
    stage: i32,
    embedding: bool,
    g: sunrealtype,
    nflag: i32,
) -> SolveOut<E> {
    let p = predict_current(solver_stage(m, stage, embedding), e);
    let n = module_run(
        correct_gamma(correct_data(p.m, stage), g),
        p.e,
        ModuleCall::Nls { nflag },
    );
    if p.flag != ARK_SUCCESS {
        SolveOut { m: p.m, e: p.e, nflag, flag: p.flag }
    } else {
        SolveOut {
            m: n.m,
            e: n.e,
            nflag: n.flag,
            flag: if n.flag != ARK_SUCCESS {
                TRY_AGAIN
            } else {
                ARK_SUCCESS
            },
        }
    }
}

fn mriStep_CorrectImplicit<E: ArkEnv>(
    ark_mem: &mut ARKodeMemRec,
    env: &mut E,
    stage: i32,
    embedding: bool,
    g: sunrealtype,
    nflag: &mut i32,
) -> (flag: i32)
    requires
        stage > i32::MIN,
    ensures
        ({
            let o = correct_implicit(old(ark_mem)@, *old(env), stage, embedding, g, *old(nflag));
            &&& final(ark_mem)@ == o.m
            &&& *final(env) == o.e
            &&& *final(nflag) == o.nflag
            &&& flag == o.flag
        }),
{
    reveal(correct_implicit);
    mriStep_SolverStage(ark_mem, stage, embedding);
    let retval: i32 = mriStep_PredictCurrent(ark_mem, env);
    if retval != ARK_SUCCESS {
        return retval;
    }
    let retval: i32 = mriStep_CorrectData(ark_mem, stage);
    if retval != ARK_SUCCESS {
        return retval;
    }
    mriStep_CorrectGamma(ark_mem, g);
    *nflag = call_module(ark_mem, env, ModuleCall::Nls { nflag: *nflag });
    if *nflag != ARK_SUCCESS {
        return TRY_AGAIN;
    }
    ARK_SUCCESS
}

/// Whether the correction of a stage needs a solve.
#[verifier::opaque]
pub open spec fn needs_solve(m: MemView, stage: i32) -> bool {
    mri(m).prb().implicit_rhs && r_lt(
        r_mul(HUNDRED(), SUN_UNIT_ROUNDOFF()),
        r_abs(correction(m, stage as int, stage as int)),
    )
}

fn mriStep_NeedsSolve(ark_mem: &ARKodeMemRec, stage: i32) -> (r: bool)
    ensures
        r == needs_solve(ark_mem@, stage),
{
    reveal(needs_solve);
    ark_mem.get_mri_prb().implicit_rhs && SUNRabs(mriStep_Correction(ark_mem, stage, stage))
        > HUNDRED() * SUN_UNIT_ROUNDOFF()
}

/// The correction of a stage: none without an implicit right-hand side.
#[verifier::opaque]
pub open spec fn correct_stage<E: ArkEnv>(
    m: MemView,
    e: E,
    stage: i32,
    embedding: bool,
    nflag: i32,
) -> SolveOut<E> {
    if needs_solve(m, stage) {
        correct_implicit(
            m,
            e,
            stage,
            embedding,
            correction(m, stage as int, stage as int),
            nflag,
        )
    } else if mri(m).prb().implicit_rhs {
        SolveOut { m: correct_explicit(m, stage), e, nflag, flag: ARK_SUCCESS }
    } else {
        SolveOut { m, e, nflag, flag: ARK_SUCCESS }
    }
}

fn mriStep_CorrectStage<E: ArkEnv>(
    ark_mem: &mut ARKodeMemRec,
    env: &mut E,
    stage: i32,
    embedding: bool,
    nflag: &mut i32,
) -> (flag: i32)
    requires
        stage > i32::MIN,
    ensures
        ({
            let o = correct_stage(old(ark_mem)@, *old(env), stage, embedding, *old(nflag));
            &&& final(ark_mem)@ == o.m
            &&& *final(env) == o.e
            &&& *final(nflag) == o.nflag
            &&& flag == o.flag
        }),
{
    reveal(correct_stage);
    if mriStep_NeedsSolve(ark_mem, stage) {
        let g: sunrealtype = mriStep_Correction(ark_mem, stage, stage);
        mriStep_CorrectImplicit(ark_mem, env, stage, embedding, g, nflag)
    } else if ark_mem.get_mri_prb().implicit_rhs {
        mriStep_CorrectExplicit(ark_mem, stage)
    } else {
        ARK_SUCCESS
    }
}

/// The sum of both right-hand sides of `slot` stored as the explicit one,
/// where the problem has both.
#[verifier::opaque]
pub open spec fn merge_slow(m: MemView, slot: i32) -> MemView {
    if mri(m).prb().implicit_rhs && mri(m).prb().explicit_rhs {
        let a = nth(mri(m).Fse(), slot as int);
        write_fse(m, slot as int, v_lin(ONE(), a, ONE(), nth(mri(m).Fsi(), slot as int), a))
    } else {
        m
    }
}

fn mriStep_MergeSlow(ark_mem: &mut ARKodeMemRec, slot: i32)
    ensures
        final(ark_mem)@ == merge_slow(old(ark_mem)@, slot),
{
    reveal(merge_slow);
    let p: MriProblem = ark_mem.get_mri_prb();
    if p.implicit_rhs && p.explicit_rhs {
        let a: N_Vector = entry(&ark_mem.get_Fse(), slot);
        let v: N_Vector = N_VLinearSum(ONE(), &a, ONE(), &entry(&ark_mem.get_Fsi(), slot), &a);
        mriStep_WriteFse(ark_mem, slot, v);
    }
}

/// The fast evolution of a stage from the solution at the start of the step.
#[verifier::opaque]
pub open spec fn evolve_from_start<E: ArkEnv>(
    m: MemView,
    e: E,
    stage: i32,
    embedding: bool,
    need: bool,
    nflag: i32,
) -> SolveOut<E> {
    let m0 = if stage > 1 {
        put_ycur(m, v_scale(ONE(), m.yn(), m.ycur()))
    } else {
        m
    };
    let c = if embedding {
        ONE()
    } else {
        abscissa(m0, stage as int)
    };
    let tn = m0.stp().tn;
    let tf = time_at(m0, c);
    let f = inner_forcing(at_stage(with_tcur(m0, tf), stage), stage, tn, tf);
    let a = if stage > 1 {
        restart_fast(f.0, e, tn)
    } else {
        Run { m: f.0, e, flag: ARK_SUCCESS }
    };
    let r = stage_erk_fast(a.m, a.e, tn, tf, a.m.ycur(), need && !embedding);
    if f.1 != ARK_SUCCESS {
        SolveOut { m: f.0, e, nflag, flag: f.1 }
    } else if a.flag != ARK_SUCCESS {
        SolveOut { m: a.m, e: a.e, nflag, flag: a.flag }
    } else {
        SolveOut {
            m: put_ycur(r.m, r.v),
            e: r.e,
            nflag: if r.flag != ARK_SUCCESS {
                CONV_FAIL
            } else {
                nflag
            },
            flag: r.flag,
        }
    }
}

fn mriStep_EvolveFromStart<E: ArkEnv>(
    ark_mem: &mut ARKodeMemRec,
    env: &mut E,
    stage: i32,
    embedding: bool,
    need: bool,
    nflag: &mut i32,
) -> (flag: i32)
    ensures
        ({
            let o = evolve_from_start(
                old(ark_mem)@,
                *old(env),
                stage,
                embedding,
                need,
                *old(nflag),
            );
            &&& final(ark_mem)@ == o.m
            &&& *final(env) == o.e
            &&& *final(nflag) == o.nflag
            &&& flag == o.flag
        }),
{
    reveal(evolve_from_start);
    if stage > 1 {
        let y: N_Vector = N_VScale(ONE(), &ark_mem.get_yn(), &ark_mem.get_ycur());
        ark_mem.set_ycur(y);
    }
    let c: sunrealtype = if embedding {
        ONE()
    } else {
        mriStep_Abscissa(ark_mem, stage)
    };
    let tn: sunrealtype = ark_mem.get_stp().tn;
    let tf: sunrealtype = mriStep_TimeAt(ark_mem, c);
    set_tcur(ark_mem, tf);
    mriStep_AtStage(ark_mem, stage);
    let retval: i32 = mriStep_ComputeInnerForcing(ark_mem, stage, tn, tf);
    if retval != ARK_SUCCESS {
        return retval;
    }
    if stage > 1 {
        let retval: i32 = mriStep_RestartFast(ark_mem, env, tn);
        if retval != ARK_SUCCESS {
            return retval;
        }
    }
    let mut y: N_Vector = ark_mem.get_ycur();
    let retval: i32 = mriStep_StageERKFast(ark_mem, env, tn, tf, &mut y, need && !embedding);
    ark_mem.set_ycur(y);
    if retval != ARK_SUCCESS {
        *nflag = CONV_FAIL;
    }
    retval
}

/// What follows the correction of a stage: the user's function; for the
/// solution a copy of it, for an internal stage its right-hand sides.
#[verifier::opaque]
pub open spec fn finish_stage<E: ArkEnv>(
    m: MemView,
    e: E,
    stage: i32,
    solution: bool,
    embedding: bool,
    solved: bool,
) -> Run<E> {
    let p = if embedding {
        Run { m, e, flag: ARK_SUCCESS }
    } else if solution {
        post_and_restart(
            m,
            e,
            UserFn::PostProcessStep,
            m.att().PostProcessStepFn,
            ARK_POSTPROCESS_STEP_FAIL,
        )
    } else {
        post_and_restart(
            m,
            e,
            UserFn::PostProcessStage,
            m.att().PostProcessStageFn,
            ARK_POSTPROCESS_STAGE_FAIL,
        )
    };
    let b = mri(p.m).prb();
    let s = store_slow(
        p.m,
        p.e,
        stage,
        b.explicit_rhs,
        b.implicit_rhs,
        b.deduce_rhs && solved,
    );
    if p.flag != ARK_SUCCESS || embedding {
        p
    } else if solution {
        Run {
            m: put_tempv4(p.m, v_scale(ONE(), p.m.ycur(), p.m.tempv4())),
            e: p.e,
            flag: ARK_SUCCESS,
        }
    } else if s.flag != ARK_SUCCESS {
        s
    } else {
        Run { m: merge_slow(s.m, stage), e: s.e, flag: ARK_SUCCESS }
    }
}

fn mriStep_FinishStage<E: ArkEnv>(
    ark_mem: &mut ARKodeMemRec,
    env: &mut E,
    stage: i32,
    solution: bool,
    embedding: bool,
    solved: bool,
) -> (flag: i32)
    requires
        !(solution && embedding),
    ensures
        ({
            let o = finish_stage(old(ark_mem)@, *old(env), stage, solution, embedding, solved);
            &&& final(ark_mem)@ == o.m
            &&& *final(env) == o.e
            &&& flag == o.flag
        }),
{
    reveal(finish_stage);
    if embedding {
        return ARK_SUCCESS;
    }
    let a = ark_mem.get_att();
    if solution {
        let retval: i32 = mriStep_PostAndRestart(
            ark_mem,
            env,
            UserFn::PostProcessStep,
            a.PostProcessStepFn,
            ARK_POSTPROCESS_STEP_FAIL,
        );
        if retval != ARK_SUCCESS {
            return retval;
        }
        let z: N_Vector = N_VScale(ONE(), &ark_mem.get_ycur(), &ark_mem.get_tempv4());
        ark_mem.set_tempv4(z);
        return ARK_SUCCESS;
    }
    let retval: i32 = mriStep_PostAndRestart(
        ark_mem,
        env,
        UserFn::PostProcessStage,
        a.PostProcessStageFn,
        ARK_POSTPROCESS_STAGE_FAIL,
    );
    if retval != ARK_SUCCESS {
        return retval;
    }
    let p: MriProblem = ark_mem.get_mri_prb();
    let retval: i32 = mriStep_StoreSlow(
        ark_mem,
        env,
        stage,
        p.explicit_rhs,
        p.implicit_rhs,
        p.deduce_rhs && solved,
    );
    if retval != ARK_SUCCESS {
        return retval;
    }
    mriStep_MergeSlow(ark_mem, stage);
    ARK_SUCCESS
}

/// A stage: fast evolution, correction, and what follows.
#[verifier::opaque]
pub open spec fn sr_stage<E: ArkEnv>(
    m: MemView,
    e: E,
    stage: i32,
    stages: i32,
    need: bool,
    nflag: i32,
) -> SolveOut<E> {
    let embedding = stage == stages;
    let solution = stage == stages - 1;
    let a = evolve_from_start(m, e, stage, embedding, need, nflag);
    let solved = needs_solve(a.m, stage);
    let b = correct_stage(a.m, a.e, stage, embedding, a.nflag);
    let c = finish_stage(b.m, b.e, stage, solution, embedding, solved);
    if a.flag != ARK_SUCCESS {
        a
    } else if b.flag != ARK_SUCCESS {
        b
    } else {
        SolveOut { m: c.m, e: c.e, nflag: b.nflag, flag: c.flag }
    }
}

fn mriStep_SrStage<E: ArkEnv>(
    ark_mem: &mut ARKodeMemRec,
    env: &mut E,
    stage: i32,
    stages: i32,
    need: bool,
    nflag: &mut i32,
) -> (flag: i32)
    requires
        1 <= stage <= stages,
    ensures
        ({
            let o = sr_stage(old(ark_mem)@, *old(env), stage, stages, need, *old(nflag));
            &&& final(ark_mem)@ == o.m
            &&& *final(env) == o.e
            &&& *final(nflag) == o.nflag
            &&& flag == o.flag
        }),
{
    reveal(sr_stage);
    let embedding: bool = stage == stages;
    let solution: bool = stage == stages - 1;
    let retval: i32 = mriStep_EvolveFromStart(ark_mem, env, stage, embedding, need, nflag);
    if retval != ARK_SUCCESS {
        return retval;
    }
    let solved: bool = mriStep_NeedsSolve(ark_mem, stage);
    let retval: i32 = mriStep_CorrectStage(ark_mem, env, stage, embedding, nflag);
    if retval != ARK_SUCCESS {
        return retval;
    }
    mriStep_FinishStage(ark_mem, env, stage, solution, embedding, solved)
}

/// The stages from `stage` to the one that gives the solution.
pub open spec fn sr_stages<E: ArkEnv>(
    m: MemView,
    e: E,
    stage: int,
    stages: i32,
    need: bool,
    nflag: i32,
) -> SolveOut<E>
    decreases stages - stage,
{
    if stage >= stages {
        SolveOut { m, e, nflag, flag: ARK_SUCCESS }
    } else {
        let r = sr_stage(m, e, stage as i32, stages, need, nflag);
        if r.flag != ARK_SUCCESS {
            r
        } else {
            sr_stages(r.m, r.e, stage + 1, stages, need, r.nflag)
        }
    }
}

fn mriStep_SrStages<E: ArkEnv>(
    ark_mem: &mut ARKodeMemRec,
    env: &mut E,
    stages: i32,
    need: bool,
    nflag: &mut i32,
) -> (flag: i32)
    ensures
        ({
            let o = sr_stages(old(ark_mem)@, *old(env), 1, stages, need, *old(nflag));
            &&& final(ark_mem)@ == o.m
            &&& *final(env) == o.e
            &&& *final(nflag) == o.nflag
            &&& flag == o.flag
        }),
{
    let mut stage: i32 = 1;
    while stage < stages
        invariant
            1 <= stage,
            sr_stages(old(ark_mem)@, *old(env), 1, stages, need, *old(nflag)) == sr_stages(
                ark_mem@,
                *env,
                stage as int,
                stages,
                need,
                *nflag,
            ),
        decreases stages - stage,
    {
        let retval: i32 = mriStep_SrStage(ark_mem, env, stage, stages, need, nflag);
        if retval != ARK_SUCCESS {
            return retval;
        }
        stage = stage + 1;
    }
    ARK_SUCCESS
}

/// All stages of a step. Where the error is estimated the embedded solution
/// follows the solution, which is then restored.
#[verifier::opaque]
pub open spec fn sr_step<E: ArkEnv>(m: MemView, e: E, need: bool, embed: bool) -> StepOut<E> {
    let stages = mri(m).mth().stages;
    let a = sr_stages(m, e, 1, stages, need, ARK_SUCCESS);
    let b = if embed && stages >= 1 {
        sr_stage(a.m, a.e, stages, stages, need, a.nflag)
    } else {
        a
    };
    let d = error_estimate(b.m, b.m.tempv4(), b.m.ycur());
    if a.flag != ARK_SUCCESS {
        StepOut { m: a.m, e: a.e, dsm: ZERO(), nflag: a.nflag, flag: a.flag }
    } else if b.flag != ARK_SUCCESS || !embed {
        StepOut { m: b.m, e: b.e, dsm: ZERO(), nflag: b.nflag, flag: b.flag }
    } else {
        StepOut {
            m: put_ycur(d.0, v_scale(ONE(), d.0.tempv4(), d.0.ycur())),
            e: b.e,
            dsm: d.1,
            nflag: b.nflag,
            flag: ARK_SUCCESS,
        }
    }
}

fn mriStep_SrStep<E: ArkEnv>(
    ark_mem: &mut ARKodeMemRec,
    env: &mut E,
    need: bool,
    embed: bool,
    dsm: &mut sunrealtype,
    nflag: &mut i32,
) -> (flag: i32)
    requires
        *old(dsm) == ZERO(),
        *old(nflag) == ARK_SUCCESS,
    ensures
        ({
            let o = sr_step(old(ark_mem)@, *old(env), need, embed);
            &&& final(ark_mem)@ == o.m
            &&& *final(env) == o.e
            &&& *final(dsm) == o.dsm
            &&& *final(nflag) == o.nflag
            &&& flag == o.flag
        }),
{
    reveal(sr_step);
    let stages: i32 = ark_mem.get_mri_mth().stages;
    let retval: i32 = mriStep_SrStages(ark_mem, env, stages, need, nflag);
    if retval != ARK_SUCCESS || !embed {
        return retval;
    }
    if stages >= 1 {
        let retval: i32 = mriStep_SrStage(ark_mem, env, stages, stages, need, nflag);
        if retval != ARK_SUCCESS {
            return retval;
        }
    }
    let y: N_Vector = ark_mem.get_tempv4();
    let z: N_Vector = ark_mem.get_ycur();
    *dsm = mriStep_ErrorEstimate(ark_mem, &y, &z);
    let y: N_Vector = N_VScale(ONE(), &ark_mem.get_tempv4(), &ark_mem.get_ycur());
    ark_mem.set_ycur(y);
    ARK_SUCCESS
}

/// A step of a stage-restart method. Without a stepper memory nothing happens.
#[verifier::opaque]
pub open spec fn take_step_sr<E: ArkEnv>(m: MemView, e: E, dsm: sunrealtype, nflag: i32) -> StepOut<E> {
    let p = prepare(m, e, true, true);
    if access_step_mem(m) != ARK_SUCCESS {
        StepOut { m, e, dsm, nflag, flag: access_step_mem(m) }
    } else if p.flag != ARK_SUCCESS {
        StepOut { m: p.m, e: p.e, dsm: ZERO(), nflag: ARK_SUCCESS, flag: p.flag }
    } else {
        sr_step(merge_slow(p.m, 0), p.e, p.need, wants_error(m))
    }
}

/// Takes a step of a stage-restart method: the solution is the current one of
/// the memory, `dsmPtr` the estimate of its temporal error, `nflagPtr` the
/// flag of the solvers. A positive flag asks for another attempt with a
/// smaller step, a negative one ends the integration.
pub fn mriStep_TakeStepMRISR<E: ArkEnv>(
    ark_mem: &mut ARKodeMemRec,
    env: &mut E,
    dsmPtr: &mut sunrealtype,
    nflagPtr: &mut i32,
) -> (flag: i32)
    ensures
        ({
            let o = take_step_sr(old(ark_mem)@, *old(env), *old(dsmPtr), *old(nflagPtr));
            &&& final(ark_mem)@ == o.m
            &&& *final(env) == o.e
            &&& *final(dsmPtr) == o.dsm
            &&& *final(nflagPtr) == o.nflag
            &&& flag == o.flag
        }),
{
    reveal(take_step_sr);
    let retval: i32 = mriStep_AccessStepMem(ark_mem);
    if retval != ARK_SUCCESS {
        return retval;
    }
    *nflagPtr = ARK_SUCCESS;
    *dsmPtr = ZERO();
    let embed: bool = mriStep_WantsError(ark_mem);
    let mut need: bool = false;
    let retval: i32 = mriStep_Prepare(ark_mem, env, true, true, &mut need);
    if retval != ARK_SUCCESS {
        return retval;
    }
    mriStep_MergeSlow(ark_mem, 0);
    mriStep_SrStep(ark_mem, env, need, embed, dsmPtr, nflagPtr)
}

} // verus!
