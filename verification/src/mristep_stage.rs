//! Slow stages without fast evolution.
use crate::arith::negate;
use crate::arkode_codes::{
    ARK_ILL_INPUT, ARK_INTERP_MAX_DEGREE, ARK_INVALID_TABLE, ARK_MEM_NULL, ARK_SUCCESS,
    ARK_USER_PREDICT_FAIL, ARK_VECTOROP_ERR, TRY_AGAIN,
};
use crate::arkode_impl::{ARKodeMemRec, ArkStep, MemView, MriMethod, MriNls, MriProblem};
use crate::arkode_mem::{mput_mth, mput_nls, mput_sdata, mput_zpred, mri, put_ycur};
use crate::arkode_predict::{
    arkPredict_Bootstrap, arkPredict_CutoffOrder, arkPredict_MaximumOrder, arkPredict_VariableOrder,
    bootstrap, cutoff_degree, predict, variable_degree,
};
use crate::binary64::{r_div, r_eq, r_lt, r_mul, r_neg, sunrealtype};
use crate::coupling::{count, index_at, index_entry, real_at, real_entry};
use crate::env::{ArkEnv, ModuleCall, UserFn};
use crate::mristep_coeffs::{
    min_of_two, mriStep_SetRows, push_stage_coeffs, push_stage_vectors, set_rows, stage_coeffs,
    stage_vectors,
};
use crate::mristep_rhs::{call_process, process};
use crate::nvector::{
    entry, no_vectors, nth, nvecs, push_vector, v_comb, v_scale, NVec, N_VLinearCombination,
    N_VScale, N_Vector,
};
use crate::outcome::{call_module, module_run, Run, RunV};
use crate::sundials_types::{ONE, ZERO};
use vstd::prelude::*;

verus! {

broadcast use crate::order::group_order;

/// Abscissa of stage `i`.
#[verifier::opaque]
pub open spec fn abscissa(m: MemView, i: int) -> sunrealtype {
    match mri(m).MRIC() {
        None => ZERO(),
        Some(t) => real_at(t.c@, i),
    }
}

/// Abscissa of stage `i`.
pub fn mriStep_Abscissa(ark_mem: &ARKodeMemRec, i: i32) -> (r: sunrealtype)
    ensures
        r == abscissa(ark_mem@, i as int),
{
    reveal(abscissa);
    match ark_mem.table() {
        None => ZERO(),
        Some(t) => real_entry(&t.c, i),
    }
}

/// Slot in which the right-hand side of stage `i` is stored.
pub open spec fn slot_of(m: MemView, i: int) -> i32 {
    index_at(mri(m).stage_map(), i)
}

/// Slot in which the right-hand side of stage `i` is stored.
pub fn mriStep_SlotOf(ark_mem: &ARKodeMemRec, i: i32) -> (r: i32)
    ensures
        r == slot_of(ark_mem@, i as int),
{
    index_entry(&ark_mem.get_stage_map(), i)
}

/// What is added to the solution by the first `n` stages: coefficients.
#[verifier::opaque]
pub open spec fn update_coeffs(m: MemView, n: nat) -> Seq<sunrealtype> {
    let p = mri(m).prb();
    stage_coeffs(
        m.stp().h,
        p.explicit_rhs,
        p.implicit_rhs,
        mri(m).stage_map(),
        mri(m).Ae_row(),
        mri(m).Ai_row(),
        n,
    )
}

/// What is added to the solution by the first `n` stages: vectors.
#[verifier::opaque]
pub open spec fn update_vectors(m: MemView, n: nat) -> Seq<NVec> {
    let p = mri(m).prb();
    stage_vectors(
        p.explicit_rhs,
        p.implicit_rhs,
        mri(m).stage_map(),
        mri(m).Fse(),
        mri(m).Fsi(),
        n,
    )
}

fn mriStep_PushUpdate(
    ark_mem: &ARKodeMemRec,
    n: i32,
    c: &mut Vec<sunrealtype>,
    x: &mut Vec<N_Vector>,
)
    ensures
        final(c)@ == old(c)@ + update_coeffs(ark_mem@, count(n)),
        nvecs(final(x)@) == nvecs(old(x)@) + update_vectors(ark_mem@, count(n)),
{
    reveal(update_coeffs);
    reveal(update_vectors);
    let p: MriProblem = ark_mem.get_mri_prb();
    let map: Vec<i32> = ark_mem.get_stage_map();
    push_stage_coeffs(
        ark_mem.get_stp().h,
        p.explicit_rhs,
        p.implicit_rhs,
        &map,
        &ark_mem.get_Ae_row(),
        &ark_mem.get_Ai_row(),
        n,
        c,
    );
    push_stage_vectors(
        p.explicit_rhs,
        p.implicit_rhs,
        &map,
        &ark_mem.get_Fse(),
        &ark_mem.get_Fsi(),
        n,
        x,
    );
}

/// The current solution with the contributions of the stages before `is`
/// added.
#[verifier::opaque]
pub open spec fn erk_update(m: MemView, is: i32) -> MemView {
    let n = count(min_of_two(is as int, mri(m).mth().stages as int) as i32);
    put_ycur(
        m,
        v_comb(
            seq![ONE()] + update_coeffs(m, n),
            seq![m.ycur()] + update_vectors(m, n),
            m.ycur(),
        ),
    )
}

/// An explicit stage: effective coefficients, then the update of the current
/// solution.
#[verifier::opaque]
pub open spec fn stage_erk_nofast(m: MemView, is: i32) -> (MemView, i32) {
    let r = set_rows(m, is);
    if r.1 != ARK_SUCCESS {
        r
    } else {
        (erk_update(r.0, is), ARK_SUCCESS)
    }
}

/// Performs an explicit stage without fast evolution.
pub fn mriStep_StageERKNoFast(ark_mem: &mut ARKodeMemRec, is: i32) -> (flag: i32)
    ensures
        final(ark_mem)@ == stage_erk_nofast(old(ark_mem)@, is).0,
        flag == stage_erk_nofast(old(ark_mem)@, is).1,
{
    reveal(stage_erk_nofast);
    reveal(erk_update);
    let retval: i32 = mriStep_SetRows(ark_mem, is);
    if retval != ARK_SUCCESS {
        return retval;
    }
    let stages: i32 = ark_mem.get_mri_mth().stages;
    let n: i32 = if is < stages {
        is
    } else {
        stages
    };
    let mut c: Vec<sunrealtype> = Vec::new();
    let mut x: Vec<N_Vector> = no_vectors();
    c.push(ONE());
    push_vector(&mut x, ark_mem.get_ycur());
    let ghost m = ark_mem@;
    assert(c@ =~= seq![ONE()]);
    assert(nvecs(x@) =~= seq![m.ycur()]);
    mriStep_PushUpdate(ark_mem, n, &mut c, &mut x);
    let (r, retval) = N_VLinearCombination(&c, &x, &ark_mem.get_ycur());
    ark_mem.set_ycur(r);
    if retval != 0 {
        return ARK_VECTOROP_ERR;
    }
    ARK_SUCCESS
}

/// A stage that couples an implicit slow solve with a fast evolution: there is
/// no such method, so every table that asks for one is invalid.
pub fn mriStep_StageDIRKFast(ark_mem: &ARKodeMemRec, is: i32, nflagPtr: &mut i32) -> (flag: i32)
    ensures
        flag == ARK_INVALID_TABLE,
        *final(nflagPtr) == *old(nflagPtr),
{
    ARK_INVALID_TABLE
}

/// The last of the first `n` stages whose abscissa is not zero, or minus one.
#[verifier::opaque]
pub open spec fn last_moved(m: MemView, n: nat) -> int
    decreases n,
{
    if n == 0 {
        -1
    } else if !r_eq(abscissa(m, n - 1), ZERO()) {
        n - 1
    } else {
        last_moved(m, (n - 1) as nat)
    }
}

fn mriStep_LastMoved(ark_mem: &ARKodeMemRec, n: i32) -> (r: i32)
    ensures
        r == last_moved(ark_mem@, count(n)),
        -1 <= r < count(n),
{
    let mut j: i32 = -1;
    let mut i: i32 = 0;
    proof {
        reveal(last_moved);
    }
    while i < n
        invariant
            0 <= i <= count(n),
            -1 <= j < i,
            j == last_moved(ark_mem@, i as nat),
        decreases n - i,
    {
        reveal(last_moved);
        if !(mriStep_Abscissa(ark_mem, i) == ZERO()) {
            j = i;
        }
        i = i + 1;
    }
    j
}

/// The stage with a stored right-hand side, among the first `n` and `j0`,
/// that reaches furthest into the step.
#[verifier::opaque]
pub open spec fn furthest(m: MemView, j0: int, n: nat) -> int
    decreases n,
{
    if n == 0 {
        j0
    } else {
        let j = furthest(m, j0, (n - 1) as nat);
        if r_lt(abscissa(m, j), abscissa(m, n - 1)) && !r_eq(abscissa(m, n - 1), ZERO()) && slot_of(
            m,
            n - 1,
        ) > -1 {
            n - 1
        } else {
            j
        }
    }
}

fn mriStep_Furthest(ark_mem: &ARKodeMemRec, j0: i32, n: i32) -> (r: i32)
    requires
        -1 <= j0 < i32::MAX,
    ensures
        r == furthest(ark_mem@, j0 as int, count(n)),
{
    let mut j: i32 = j0;
    let mut i: i32 = 0;
    proof {
        reveal(furthest);
    }
    while i < n
        invariant
            0 <= i <= count(n),
            j == furthest(ark_mem@, j0 as int, i as nat),
        decreases n - i,
    {
        reveal(furthest);
        let c: sunrealtype = mriStep_Abscissa(ark_mem, i);
        if c > mriStep_Abscissa(ark_mem, j) && !(c == ZERO()) && mriStep_SlotOf(ark_mem, i) > -1 {
            j = i;
        }
        i = i + 1;
    }
    j
}

/// The right-hand sides of one stage: coefficients.
pub open spec fn pair_coeffs(m: MemView) -> Seq<sunrealtype> {
    let p = mri(m).prb();
    let a = if p.implicit_rhs {
        seq![ONE()]
    } else {
        Seq::empty()
    };
    if p.explicit_rhs {
        a.push(ONE())
    } else {
        a
    }
}

/// The right-hand sides of stage `j`, the implicit one first.
pub open spec fn pair_vectors(m: MemView, j: int) -> Seq<NVec> {
    let p = mri(m).prb();
    let a = if p.implicit_rhs {
        seq![nth(mri(m).Fsi(), slot_of(m, j) as int)]
    } else {
        Seq::empty()
    };
    if p.explicit_rhs {
        a.push(nth(mri(m).Fse(), slot_of(m, j) as int))
    } else {
        a
    }
}

/// A prediction from an earlier stage of the step; `None` where every earlier
/// stage stands at the start of the step.
#[verifier::opaque]
pub open spec fn predict_within(m: MemView, istage: i32, y: NVec) -> Option<(NVec, i32)> {
    let j0 = last_moved(m, count(istage));
    if j0 == -1 {
        None
    } else {
        let j = furthest(m, j0, count(istage));
        let h = m.stp().h;
        Some(
            (
                bootstrap(
                    m,
                    r_mul(h, abscissa(m, j)),
                    r_mul(h, abscissa(m, istage as int)),
                    pair_coeffs(m).len(),
                    pair_coeffs(m).push(ZERO()).push(ZERO()),
                    pair_vectors(m, j),
                    y,
                ),
                if m.att().interp {
                    ARK_SUCCESS
                } else {
                    ARK_MEM_NULL
                },
            ),
        )
    }
}

fn mriStep_PredictWithin(ark_mem: &ARKodeMemRec, istage: i32, yguess: &mut N_Vector) -> (r: Option<
    i32,
>)
    ensures
        match predict_within(ark_mem@, istage, old(yguess)@) {
            None => r is None && final(yguess)@ == old(yguess)@,
            Some(o) => r == Some(o.1) && final(yguess)@ == o.0,
        },
{
    reveal(predict_within);
    let j0: i32 = mriStep_LastMoved(ark_mem, istage);
    if j0 == -1 {
        return None;
    }
    let j: i32 = mriStep_Furthest(ark_mem, j0, istage);
    let h: sunrealtype = ark_mem.get_stp().h;
    let hj: sunrealtype = h * mriStep_Abscissa(ark_mem, j);
    let tau: sunrealtype = h * mriStep_Abscissa(ark_mem, istage);
    let p: MriProblem = ark_mem.get_mri_prb();
    let s: i32 = mriStep_SlotOf(ark_mem, j);
    let mut c: Vec<sunrealtype> = Vec::new();
    let mut x: Vec<N_Vector> = no_vectors();
    if p.implicit_rhs {
        c.push(ONE());
        push_vector(&mut x, entry(&ark_mem.get_Fsi(), s));
    }
    if p.explicit_rhs {
        c.push(ONE());
        push_vector(&mut x, entry(&ark_mem.get_Fse(), s));
    }
    assert(c@ =~= pair_coeffs(ark_mem@));
    assert(nvecs(x@) =~= pair_vectors(ark_mem@, j as int));
    let nvec: i32 = c.len() as i32;
    // Room for the solution and the slope at the start of the step.
    c.push(ZERO());
    c.push(ZERO());
    Some(arkPredict_Bootstrap(ark_mem, hj, tau, nvec, &mut c, &mut x, yguess))
}

/// The prediction with the formula that was asked for; a flag that says the
/// formula does not apply falls back on the last solution.
#[verifier::opaque]
pub open spec fn predict_by<E: ArkEnv>(m: MemView, e: E, istage: i32, y: NVec) -> RunV<E> {
    let s = m.stp();
    let tau = r_div(r_mul(abscissa(m, istage as int), s.h), s.hold);
    let p = mri(m).prb().predictor;
    let none = RunV { m, e, v: y, flag: ARK_ILL_INPUT };
    if p == 1 {
        predict(m, e, tau, ARK_INTERP_MAX_DEGREE, y)
    } else if p == 2 {
        predict(m, e, tau, variable_degree(tau), y)
    } else if p == 3 {
        predict(m, e, tau, cutoff_degree(tau), y)
    } else if p == 4 {
        match predict_within(m, istage, y) {
            None => none,
            Some(o) => RunV { m, e, v: o.0, flag: o.1 },
        }
    } else {
        none
    }
}

fn mriStep_PredictBy<E: ArkEnv>(
    ark_mem: &mut ARKodeMemRec,
    env: &mut E,
    istage: i32,
    yguess: &mut N_Vector,
) -> (flag: i32)
    ensures
        ({
            let o = predict_by(old(ark_mem)@, *old(env), istage, old(yguess)@);
            &&& final(ark_mem)@ == o.m
            &&& *final(env) == o.e
            &&& final(yguess)@ == o.v
            &&& flag == o.flag
        }),
{
    reveal(predict_by);
    let s: ArkStep = ark_mem.get_stp();
    let tau: sunrealtype = mriStep_Abscissa(ark_mem, istage) * s.h / s.hold;
    let p: i32 = ark_mem.get_mri_prb().predictor;
    if p == 1 {
        arkPredict_MaximumOrder(ark_mem, env, tau, yguess)
    } else if p == 2 {
        arkPredict_VariableOrder(ark_mem, env, tau, yguess)
    } else if p == 3 {
        arkPredict_CutoffOrder(ark_mem, env, tau, yguess)
    } else if p == 4 {
        match mriStep_PredictWithin(ark_mem, istage, yguess) {
            None => ARK_ILL_INPUT,
            Some(flag) => flag,
        }
    } else {
        ARK_ILL_INPUT
    }
}

/// The prediction of a stage: on a first step, and where no formula applies,
/// the last solution.
#[verifier::opaque]
pub open spec fn predict_stage<E: ArkEnv>(m: MemView, e: E, istage: i32, y: NVec) -> RunV<E> {
    let r = predict_by(m, e, istage, y);
    if m.step_mem() is None {
        RunV { m, e, v: y, flag: ARK_MEM_NULL }
    } else if !m.att().interp && mri(m).prb().predictor > 0 {
        RunV { m, e, v: y, flag: ARK_MEM_NULL }
    } else if m.flg().initsetup {
        RunV { m, e, v: v_scale(ONE(), m.yn(), y), flag: ARK_SUCCESS }
    } else if r.flag != ARK_ILL_INPUT {
        r
    } else {
        RunV { m: r.m, e: r.e, v: v_scale(ONE(), r.m.yn(), r.v), flag: ARK_SUCCESS }
    }
}

/// Predicts the solution of a stage.
pub fn mriStep_Predict<E: ArkEnv>(
    ark_mem: &mut ARKodeMemRec,
    env: &mut E,
    istage: i32,
    yguess: &mut N_Vector,
) -> (flag: i32)
    ensures
        ({
            let o = predict_stage(old(ark_mem)@, *old(env), istage, old(yguess)@);
            &&& final(ark_mem)@ == o.m
            &&& *final(env) == o.e
            &&& final(yguess)@ == o.v
            &&& flag == o.flag
        }),
{
    reveal(predict_stage);
    if !ark_mem.has_step_mem() {
        return ARK_MEM_NULL;
    }
    if !ark_mem.get_att().interp && ark_mem.get_mri_prb().predictor > 0 {
        return ARK_MEM_NULL;
    }
    if ark_mem.get_flg().initsetup {
        *yguess = N_VScale(ONE(), &ark_mem.get_yn(), yguess);
        return ARK_SUCCESS;
    }
    let retval: i32 = mriStep_PredictBy(ark_mem, env, istage, yguess);
    if retval != ARK_ILL_INPUT {
        return retval;
    }
    *yguess = N_VScale(ONE(), &ark_mem.get_yn(), yguess);
    ARK_SUCCESS
}

/// The factors that go with the implicit coefficient of the current stage.
#[verifier::opaque]
pub open spec fn with_gamma(m: MemView) -> MemView {
    let first = m.flg().firststage;
    let s = slot_of(m, mri(m).mth().istage as int);
    let gamma = r_mul(m.stp().h, real_at(mri(m).Ai_row(), s as int));
    let n = mri(m).nls();
    mput_nls(
        m,
        MriNls {
            gamma,
            gammap: if first {
                gamma
            } else {
                n.gammap
            },
            gamrat: if first {
                ONE()
            } else {
                r_div(gamma, n.gammap)
            },
            ..n
        },
    )
}

fn mriStep_SetGamma(ark_mem: &mut ARKodeMemRec)
    ensures
        final(ark_mem)@ == with_gamma(old(ark_mem)@),
{
    reveal(with_gamma);
    let first: bool = ark_mem.get_flg().firststage;
    let s: i32 = mriStep_SlotOf(ark_mem, ark_mem.get_mri_mth().istage);
    let gamma: sunrealtype = ark_mem.get_stp().h * real_entry(&ark_mem.get_Ai_row(), s);
    let n: MriNls = ark_mem.get_mri_nls();
    if first {
        ark_mem.set_mri_nls(MriNls { gamma, gammap: gamma, gamrat: ONE(), ..n });
    } else {
        let gamrat: sunrealtype = gamma / n.gammap;
        ark_mem.set_mri_nls(MriNls { gamma, gamrat, ..n });
    }
}

/// The known part of the stage equation: last stage minus prediction plus the
/// contributions of the earlier stages.
#[verifier::opaque]
pub open spec fn with_sdata(m: MemView) -> MemView {
    let n = count(mri(m).mth().istage);
    mput_sdata(
        m,
        v_comb(
            seq![ONE(), r_neg(ONE())] + update_coeffs(m, n),
            seq![m.ycur(), mri(m).zpred()] + update_vectors(m, n),
            mri(m).sdata(),
        ),
    )
}

/// The data of an implicit stage.
#[verifier::opaque]
pub open spec fn stage_setup(m: MemView) -> (MemView, i32) {
    if m.step_mem() is None {
        (m, ARK_MEM_NULL)
    } else {
        (with_sdata(with_gamma(m)), ARK_SUCCESS)
    }
}

/// Sets up the data of an implicit stage.
pub fn mriStep_StageSetup(ark_mem: &mut ARKodeMemRec) -> (flag: i32)
    ensures
        final(ark_mem)@ == stage_setup(old(ark_mem)@).0,
        flag == stage_setup(old(ark_mem)@).1,
{
    reveal(stage_setup);
    reveal(with_sdata);
    if !ark_mem.has_step_mem() {
        return ARK_MEM_NULL;
    }
    mriStep_SetGamma(ark_mem);
    let mut c: Vec<sunrealtype> = Vec::new();
    let mut x: Vec<N_Vector> = no_vectors();
    c.push(ONE());
    push_vector(&mut x, ark_mem.get_ycur());
    c.push(negate(ONE()));
    push_vector(&mut x, ark_mem.get_zpred());
    let ghost m = ark_mem@;
    assert(c@ =~= seq![ONE(), r_neg(ONE())]);
    assert(nvecs(x@) =~= seq![m.ycur(), mri(m).zpred()]);
    let n: i32 = ark_mem.get_mri_mth().istage;
    mriStep_PushUpdate(ark_mem, n, &mut c, &mut x);
    let (r, retval) = N_VLinearCombination(&c, &x, &ark_mem.get_sdata());
    ark_mem.set_sdata(r);
    if retval != 0 {
        return ARK_VECTOROP_ERR;
    }
    ARK_SUCCESS
}

/// The memory with the stage that is being solved; the embedding counts as
/// the last stage.
#[verifier::opaque]
pub open spec fn with_istage(m: MemView, is: i32) -> MemView {
    let t = mri(m).mth();
    mput_mth(
        m,
        MriMethod {
            istage: if is == t.stages {
                is.wrapping_sub(1)
            } else {
                is
            },
            ..t
        },
    )
}

fn mriStep_SetIstage(ark_mem: &mut ARKodeMemRec, is: i32)
    ensures
        final(ark_mem)@ == with_istage(old(ark_mem)@, is),
{
    reveal(with_istage);
    let t: MriMethod = ark_mem.get_mri_mth();
    let istage: i32 = if is == t.stages {
        is.wrapping_sub(1)
    } else {
        is
    };
    ark_mem.set_mri_mth(MriMethod { istage, ..t });
}

/// The prediction of the current stage, by formula and then by the user's
/// function; a positive flag of the latter asks for another attempt.
#[verifier::opaque]
pub open spec fn predict_current<E: ArkEnv>(m: MemView, e: E) -> Run<E> {
    let r = predict_stage(m, e, mri(m).mth().istage, mri(m).zpred());
    let m1 = mput_zpred(r.m, r.v);
    let u = process(
        r.e,
        UserFn::StagePredict,
        mri(m1).prb().stage_predict,
        m1.stp().tcur,
        mri(m1).zpred(),
    );
    if r.flag != ARK_SUCCESS {
        Run { m: m1, e: r.e, flag: r.flag }
    } else {
        Run {
            m: mput_zpred(m1, u.out),
            e: u.env,
            flag: if u.flag < 0 {
                ARK_USER_PREDICT_FAIL
            } else if u.flag > 0 {
                TRY_AGAIN
            } else {
                ARK_SUCCESS
            },
        }
    }
}

pub fn mriStep_PredictCurrent<E: ArkEnv>(ark_mem: &mut ARKodeMemRec, env: &mut E) -> (flag: i32)
    ensures
        final(ark_mem)@ == predict_current(old(ark_mem)@, *old(env)).m,
        *final(env) == predict_current(old(ark_mem)@, *old(env)).e,
        flag == predict_current(old(ark_mem)@, *old(env)).flag,
{
    reveal(predict_current);
    let istage: i32 = ark_mem.get_mri_mth().istage;
    let mut z: N_Vector = ark_mem.get_zpred();
    let retval: i32 = mriStep_Predict(ark_mem, env, istage, &mut z);
    ark_mem.set_zpred(z);
    if retval != ARK_SUCCESS {
        return retval;
    }
    let f = ark_mem.get_mri_prb().stage_predict;
    let t: sunrealtype = ark_mem.get_stp().tcur;
    let mut z: N_Vector = ark_mem.get_zpred();
    let retval: i32 = call_process(env, UserFn::StagePredict, f, t, &mut z);
    ark_mem.set_zpred(z);
    if retval < 0 {
        return ARK_USER_PREDICT_FAIL;
    }
    if retval > 0 {
        return TRY_AGAIN;
    }
    ARK_SUCCESS
}

/// Outcome of an implicit stage; `nflag` is the flag of the solver.
pub struct SolveOut<E> {
    pub m: MemView,
    pub e: E,
    pub nflag: i32,
    pub flag: i32,
}

/// An implicit stage: prediction, effective coefficients, stage data, and the
/// nonlinear solve. Any failure of the solve asks for another attempt.
#[verifier::opaque]
pub open spec fn stage_dirk_nofast<E: ArkEnv>(m: MemView, e: E, is: i32, nflag: i32) -> SolveOut<E> {
    let p = predict_current(with_istage(m, is), e);
    let r = set_rows(p.m, is);
    let d = stage_setup(r.0);
    let n = module_run(d.0, p.e, ModuleCall::Nls { nflag });
    if p.flag != ARK_SUCCESS {
        SolveOut { m: p.m, e: p.e, nflag, flag: p.flag }
    } else if r.1 != ARK_SUCCESS {
        SolveOut { m: r.0, e: p.e, nflag, flag: r.1 }
    } else if d.1 != ARK_SUCCESS {
        SolveOut { m: d.0, e: p.e, nflag, flag: d.1 }
    } else {
        SolveOut {
            m: n.m,
            e: n.e,
            nflag: n.flag,
            flag: if n.flag != ARK_SUCCESS {
                TRY_AGAIN
            } else {
                ARK_SUCCESS
            },
        }
    }
}

/// Performs an implicit stage without fast evolution.
pub fn mriStep_StageDIRKNoFast<E: ArkEnv>(
    ark_mem: &mut ARKodeMemRec,
    env: &mut E,
    is: i32,
    nflagPtr: &mut i32,
) -> (flag: i32)
    ensures
        ({
            let o = stage_dirk_nofast(old(ark_mem)@, *old(env), is, *old(nflagPtr));
            &&& final(ark_mem)@ == o.m
            &&& *final(env) == o.e
            &&& *final(nflagPtr) == o.nflag
            &&& flag == o.flag
        }),
{
    reveal(stage_dirk_nofast);
    mriStep_SetIstage(ark_mem, is);
    let retval: i32 = mriStep_PredictCurrent(ark_mem, env);
    if retval != ARK_SUCCESS {
        return retval;
    }
    let retval: i32 = mriStep_SetRows(ark_mem, is);
    if retval != ARK_SUCCESS {
        return retval;
    }
    let retval: i32 = mriStep_StageSetup(ark_mem);
    if retval != ARK_SUCCESS {
        return retval;
    }
    *nflagPtr = call_module(ark_mem, env, ModuleCall::Nls { nflag: *nflagPtr });
    if *nflagPtr != ARK_SUCCESS {
        return TRY_AGAIN;
    }
    ARK_SUCCESS
}

} // verus!
