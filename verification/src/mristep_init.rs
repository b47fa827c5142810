//! Initialisation, resizing and release of the MRI stepper.
use crate::arkode_codes::{
    ARK_ACCUMERROR_NONE, ARK_ILL_INPUT, ARK_INTERP_NONE, ARK_LINIT_FAIL, ARK_MEM_FAIL, ARK_MEM_NULL,
    ARK_NLS_INIT_FAIL, ARK_SUCCESS, FIRST_INIT, RESET_INIT, SUN_ADAPTCONTROLLER_H,
    SUN_ADAPTCONTROLLER_MRI_H_TOL,
};
use crate::arkode_impl::{
    ARKodeMemRec, ArkAccounts, ArkLimits, ArkParts, ArkTol, EwtFn, FnId, HAdaptMem,
    MRIStepInnerStepper, MemView, MriAdapt, MriCounts, MriMethod, MriNls, MriProblem, StepFn,
};
use crate::arkode_mem::{
    lemma_swap_stepper, mput_MRIC, mput_adp, mput_cnt, mput_mth, mput_nls, mput_stagetypes,
    mput_stepper, mri, put_acc, put_att, put_hadapt, put_lim, put_step_mem, put_tol,
};
use crate::binary64::{r_eq, sunrealtype};
use crate::coupling::MRISTEP_METHOD_TYPE;
use crate::env::{ArkEnv, ModuleCall};
use crate::inner_stepper::{
    inner_allocvecs, inner_resize, mriStepInnerStepper_AllocVecs, mriStepInnerStepper_Resize,
    supports_rtol, vector_words, words,
};
use crate::mristep_begin::{mriStep_WantsError, wants_error};
use crate::mristep_fast::{adapt_kind, mriStep_AdaptKind};
use crate::mristep_ops::{fused_size, mriStep_RefitFused, refit_fused, set_lmem, with_lmem};
use crate::mristep_rhs::{access_step_mem, mriStep_AccessStepMem};
use crate::mristep_storage::{
    drop_all_stages, drop_derived, drop_solver_vectors, fit_stages, make_solver_vectors,
    mriStep_DropAllStages, mriStep_DropDerived, mriStep_DropSolverVectors, mriStep_FitStages,
    mriStep_MakeSolverVectors, mriStep_NewRows, mriStep_NewStageKinds, mriStep_NewStageMap,
    mriStep_ResizeSolverVectors, mriStep_ResizeStages, new_rows, new_stage_kinds, new_stage_map,
    resize_solver_vectors, resize_stages,
};
use crate::mristep_table::{
    account_table, adopt_table, check_coupling, mriStep_AccountTable, mriStep_AdoptTable,
    mriStep_CheckCoupling, mriStep_SetCoupling, mriStep_TableStages, set_coupling, table_stages,
};
use crate::nvector::{copy_vector, NVec, N_Vector};
use crate::outcome::{call_module, call_module_vec, module_run, module_vec, Run};
use crate::sundials_types::{ONE, ZERO};
use vstd::prelude::*;

verus! {

/// The error weights of explicit methods with fixed steps: nothing measures an
/// error, so built-in weights are replaced by the ones that never fail.
#[verifier::opaque]
pub open spec fn relax_weights(m: MemView) -> MemView {
    if mri(m).prb().implicit_rhs || !m.lim().fixedstep || m.tol().user_efun
        || m.lim().AccumErrorType != ARK_ACCUMERROR_NONE {
        m
    } else {
        put_tol(m, ArkTol { user_efun: false, efun: Some(EwtFn::SetSmallReal), ..m.tol() })
    }
}

fn mriStep_RelaxWeights(ark_mem: &mut ARKodeMemRec)
    ensures
        final(ark_mem)@ == relax_weights(old(ark_mem)@),
{
    reveal(relax_weights);
    let l: ArkLimits = ark_mem.get_lim();
    let t: ArkTol = ark_mem.get_tol();
    if ark_mem.get_mri_prb().implicit_rhs || !l.fixedstep || t.user_efun || l.AccumErrorType
        != ARK_ACCUMERROR_NONE {
        return;
    }
    ark_mem.set_tol(ArkTol { user_efun: false, efun: Some(EwtFn::SetSmallReal), ..t });
}

/// The step routine of a kind of table.
pub open spec fn step_of(k: MRISTEP_METHOD_TYPE) -> StepFn {
    match k {
        MRISTEP_METHOD_TYPE::MRISTEP_EXPLICIT => StepFn::MRIGARK,
        MRISTEP_METHOD_TYPE::MRISTEP_IMPLICIT => StepFn::MRIGARK,
        MRISTEP_METHOD_TYPE::MRISTEP_IMEX => StepFn::MRIGARK,
        MRISTEP_METHOD_TYPE::MRISTEP_MERK => StepFn::MERK,
        MRISTEP_METHOD_TYPE::MRISTEP_SR => StepFn::MRISR,
    }
}

fn choose_step(k: MRISTEP_METHOD_TYPE) -> (r: StepFn)
    ensures
        r == step_of(k),
{
    match k {
        MRISTEP_METHOD_TYPE::MRISTEP_EXPLICIT => StepFn::MRIGARK,
        MRISTEP_METHOD_TYPE::MRISTEP_IMPLICIT => StepFn::MRIGARK,
        MRISTEP_METHOD_TYPE::MRISTEP_IMEX => StepFn::MRIGARK,
        MRISTEP_METHOD_TYPE::MRISTEP_MERK => StepFn::MERK,
        MRISTEP_METHOD_TYPE::MRISTEP_SR => StepFn::MRISR,
    }
}

/// Kind of the table; explicit where there is none.
pub open spec fn table_kind(m: MemView) -> MRISTEP_METHOD_TYPE {
    match mri(m).MRIC() {
        None => MRISTEP_METHOD_TYPE::MRISTEP_EXPLICIT,
        Some(t) => t.type_,
    }
}

fn mriStep_TableKind(ark_mem: &ARKodeMemRec) -> (r: MRISTEP_METHOD_TYPE)
    ensures
        r == table_kind(ark_mem@),
{
    match ark_mem.table() {
        None => MRISTEP_METHOD_TYPE::MRISTEP_EXPLICIT,
        Some(t) => t.type_,
    }
}

/// Number of matrices in the table.
pub open spec fn table_nmat(m: MemView) -> i32 {
    match mri(m).MRIC() {
        None => 0,
        Some(t) => t.nmat,
    }
}

fn mriStep_TableNmat(ark_mem: &ARKodeMemRec) -> (r: i32)
    ensures
        r == table_nmat(ark_mem@),
{
    match ark_mem.table() {
        None => 0,
        Some(t) => t.nmat,
    }
}

/// Order of the embedding in the table.
pub open spec fn table_p(m: MemView) -> i32 {
    match mri(m).MRIC() {
        None => 0,
        Some(t) => t.p,
    }
}

fn mriStep_TableP(ark_mem: &ARKodeMemRec) -> (r: i32)
    ensures
        r == table_p(ark_mem@),
{
    match ark_mem.table() {
        None => 0,
        Some(t) => t.p,
    }
}

/// The step routine chosen, and the orders handed to the step controller.
#[verifier::opaque]
pub open spec fn adopt_method(m: MemView) -> MemView {
    let m1 = put_att(m, ArkParts { step: Some(step_of(table_kind(m))), ..m.att() });
    let m2 = adopt_table(put_lim(m1, ArkLimits { ensure_ycur: true, ..m1.lim() }));
    let h = mri(m2).mth();
    match m2.hadapt() {
        None => m2,
        Some(a) => put_hadapt(m2, Some(HAdaptMem { q: h.q, p: h.p, ..a })),
    }
}

fn mriStep_AdoptMethod(ark_mem: &mut ARKodeMemRec)
    ensures
        final(ark_mem)@ == adopt_method(old(ark_mem)@),
{
    reveal(adopt_method);
    let step: StepFn = choose_step(mriStep_TableKind(ark_mem));
    let a: ArkParts = ark_mem.get_att();
    ark_mem.set_att(ArkParts { step: Some(step), ..a });
    let l: ArkLimits = ark_mem.get_lim();
    ark_mem.set_lim(ArkLimits { ensure_ycur: true, ..l });
    mriStep_AdoptTable(ark_mem);
    let h: MriMethod = ark_mem.get_mri_mth();
    match ark_mem.get_hadapt() {
        None => {},
        Some(x) => {
            ark_mem.set_hadapt(Some(HAdaptMem { q: h.q, p: h.p, ..x }));
        },
    }
}

/// The kinds of the stages from `j` to the embedding asked for and stored.
pub open spec fn fill_kinds<E: ArkEnv>(m: MemView, e: E, j: int, n: int) -> Run<E>
    decreases n + 1 - j,
{
    if j > n {
        Run { m, e, flag: ARK_SUCCESS }
    } else {
        let r = module_run(m, e, ModuleCall::StageType { stage: j as i32 });
        let k = mri(r.m).stagetypes();
        fill_kinds(
            mput_stagetypes(
                r.m,
                if 0 <= j < k.len() {
                    k.update(j, r.flag)
                } else {
                    k
                },
            ),
            r.e,
            j + 1,
            n,
        )
    }
}

fn mriStep_FillKinds<E: ArkEnv>(ark_mem: &mut ARKodeMemRec, env: &mut E, n: i32)
    ensures
        final(ark_mem)@ == fill_kinds(old(ark_mem)@, *old(env), 0, n as int).m,
        *final(env) == fill_kinds(old(ark_mem)@, *old(env), 0, n as int).e,
{
    let mut j: i64 = 0;
    while j <= n as i64
        invariant
            0 <= j <= i32::MAX + 1,
            fill_kinds(old(ark_mem)@, *old(env), 0, n as int) == fill_kinds(
                ark_mem@,
                *env,
                j as int,
                n as int,
            ),
        decreases n + 1 - j,
    {
        let kind: i32 = call_module(ark_mem, env, ModuleCall::StageType { stage: j as i32 });
        let mut k: Vec<i32> = ark_mem.get_stagetypes();
        if (j as u64) < k.len() as u64 {
            k.set(j as usize, kind);
        }
        ark_mem.set_stagetypes(k);
        j = j + 1;
    }
}

/// The arrays derived from the table: stage map, stage kinds, rows of
/// effective coefficients, and the workspace for fused operations.
#[verifier::opaque]
pub open spec fn derive_arrays<E: ArkEnv>(m: MemView, e: E) -> Run<E> {
    let n = table_stages(m);
    let a = module_run(new_stage_map(m, n), e, ModuleCall::StageMap);
    let b = fill_kinds(new_stage_kinds(a.m, n), a.e, 0, n as int);
    let m1 = new_rows(b.m, n);
    let size = fused_size(n, mri(m1).frc().nforcing);
    let need = if size > 3 {
        size
    } else {
        3
    };
    if a.flag != ARK_SUCCESS {
        Run { m: a.m, e: a.e, flag: ARK_ILL_INPUT }
    } else if mri(m1).mth().nfusedopvecs < need {
        Run { m: refit_fused(m1, need as i32), e: b.e, flag: ARK_SUCCESS }
    } else {
        Run { m: m1, e: b.e, flag: ARK_SUCCESS }
    }
}

fn mriStep_DeriveArrays<E: ArkEnv>(ark_mem: &mut ARKodeMemRec, env: &mut E) -> (flag: i32)
    ensures
        final(ark_mem)@ == derive_arrays(old(ark_mem)@, *old(env)).m,
        *final(env) == derive_arrays(old(ark_mem)@, *old(env)).e,
        flag == derive_arrays(old(ark_mem)@, *old(env)).flag,
{
    reveal(derive_arrays);
    let n: i32 = mriStep_TableStages(ark_mem);
    mriStep_NewStageMap(ark_mem, n);
    let retval: i32 = call_module(ark_mem, env, ModuleCall::StageMap);
    if retval != ARK_SUCCESS {
        return ARK_ILL_INPUT;
    }
    mriStep_NewStageKinds(ark_mem, n);
    mriStep_FillKinds(ark_mem, env, n);
    mriStep_NewRows(ark_mem, n);
    let size: i64 = 2 * (n as i64) + 2 + ark_mem.get_mri_frc().nforcing as i64;
    let need: i64 = if size > 3 {
        size
    } else {
        3
    };
    if (ark_mem.get_mri_mth().nfusedopvecs as i64) < need {
        mriStep_RefitFused(ark_mem, need as i32);
    }
    ARK_SUCCESS
}

/// Whether both kinds of stage vectors share their storage: stage-restart
/// methods on problems of one kind.
#[verifier::opaque]
pub open spec fn unify(m: MemView) -> MemView {
    let m1 = adopt_table(m);
    let p = mri(m1).prb();
    mput_mth(
        m1,
        MriMethod {
            unify_Fs: table_kind(m1) == MRISTEP_METHOD_TYPE::MRISTEP_SR && p.explicit_rhs
                != p.implicit_rhs,
            ..mri(m1).mth()
        },
    )
}

fn mriStep_Unify(ark_mem: &mut ARKodeMemRec)
    ensures
        final(ark_mem)@ == unify(old(ark_mem)@),
{
    reveal(unify);
    mriStep_AdoptTable(ark_mem);
    let p: MriProblem = ark_mem.get_mri_prb();
    let h: MriMethod = ark_mem.get_mri_mth();
    let one: bool = mriStep_TableKind(ark_mem) == MRISTEP_METHOD_TYPE::MRISTEP_SR && p.explicit_rhs
        != p.implicit_rhs;
    ark_mem.set_mri_mth(MriMethod { unify_Fs: one, ..h });
}

/// The nonlinear solver taken out, to be released.
#[verifier::opaque]
pub open spec fn taken_nls(m: MemView) -> MemView {
    mput_nls(m, MriNls { attached: false, ..mri(m).nls() })
}

fn mriStep_TakeNls(ark_mem: &mut ARKodeMemRec)
    ensures
        final(ark_mem)@ == taken_nls(old(ark_mem)@),
{
    reveal(taken_nls);
    let n: MriNls = ark_mem.get_mri_nls();
    ark_mem.set_mri_nls(MriNls { attached: false, ..n });
}

/// The nonlinear solver detached.
#[verifier::opaque]
pub open spec fn without_nls(m: MemView) -> MemView {
    mput_nls(m, MriNls { attached: false, ownNLS: false, ..mri(m).nls() })
}

fn mriStep_DetachNls(ark_mem: &mut ARKodeMemRec)
    ensures
        final(ark_mem)@ == without_nls(old(ark_mem)@),
{
    reveal(without_nls);
    let n: MriNls = ark_mem.get_mri_nls();
    ark_mem.set_mri_nls(MriNls { attached: false, ownNLS: false, ..n });
}

/// The solvers of an explicit problem: the default nonlinear solver released,
/// the linear one detached.
#[verifier::opaque]
pub open spec fn drop_solvers<E: ArkEnv>(m: MemView, e: E) -> Run<E> {
    let a = if mri(m).nls().attached && mri(m).nls().ownNLS {
        let r = module_run(taken_nls(m), e, ModuleCall::NonlinSolFree);
        Run { m: without_nls(r.m), e: r.e, flag: ARK_SUCCESS }
    } else {
        Run { m, e, flag: ARK_SUCCESS }
    };
    let m1 = mput_nls(
        a.m,
        MriNls { linit: None, lsetup: None, lsolve: None, lfree: None, ..mri(a.m).nls() },
    );
    Run { m: with_lmem(m1, false), e: a.e, flag: ARK_SUCCESS }
}

fn mriStep_DropSolvers<E: ArkEnv>(ark_mem: &mut ARKodeMemRec, env: &mut E)
    ensures
        final(ark_mem)@ == drop_solvers(old(ark_mem)@, *old(env)).m,
        *final(env) == drop_solvers(old(ark_mem)@, *old(env)).e,
{
    reveal(drop_solvers);
    let n: MriNls = ark_mem.get_mri_nls();
    if n.attached && n.ownNLS {
        mriStep_TakeNls(ark_mem);
        call_module(ark_mem, env, ModuleCall::NonlinSolFree);
        mriStep_DetachNls(ark_mem);
    }
    let n: MriNls = ark_mem.get_mri_nls();
    ark_mem.set_mri_nls(MriNls { linit: None, lsetup: None, lsolve: None, lfree: None, ..n });
    set_lmem(ark_mem, false);
}

/// Room for the forcing of the fast integrator; refused where none is
/// attached.
#[verifier::opaque]
pub open spec fn make_inner(m: MemView) -> (MemView, i32) {
    match mri(m).stepper() {
        None => (m, ARK_MEM_FAIL),
        Some(s) => {
            let r = inner_allocvecs(s, table_nmat(m), m.ewt());
            (
                mput_stepper(m, Some(r.0)),
                if r.1 != ARK_SUCCESS {
                    ARK_MEM_FAIL
                } else {
                    ARK_SUCCESS
                },
            )
        },
    }
}

fn mriStep_MakeInner(ark_mem: &mut ARKodeMemRec) -> (flag: i32)
    ensures
        final(ark_mem)@ == make_inner(old(ark_mem)@).0,
        flag == make_inner(old(ark_mem)@).1,
{
    reveal(make_inner);
    if !ark_mem.has_stepper() {
        return ARK_MEM_FAIL;
    }
    let ghost m0 = ark_mem@;
    let nmat: i32 = mriStep_TableNmat(ark_mem);
    let tmpl: N_Vector = ark_mem.get_ewt();
    match ark_mem.take_stepper() {
        None => ARK_MEM_FAIL,
        Some(s0) => {
            let mut s: MRIStepInnerStepper = s0;
            let flag: i32 = mriStepInnerStepper_AllocVecs(&mut s, nmat, &tmpl);
            proof {
                lemma_swap_stepper(m0, None, Some(s@));
            }
            ark_mem.set_stepper(Some(s));
            if flag != ARK_SUCCESS {
                ARK_MEM_FAIL
            } else {
                ARK_SUCCESS
            }
        },
    }
}

/// The degree of interpolation kept below the order of the method, linear
/// interpolation always allowed.
#[verifier::opaque]
pub open spec fn limit_degree(m: MemView) -> MemView {
    let q = mri(m).mth().q;
    let d = m.att().interp_degree;
    if q > 1 && d > q - 1 {
        put_att(m, ArkParts { interp_degree: (q - 1) as i32, ..m.att() })
    } else if q == 1 && d > 1 {
        put_att(m, ArkParts { interp_degree: 1, ..m.att() })
    } else {
        m
    }
}

fn mriStep_LimitDegree(ark_mem: &mut ARKodeMemRec)
    ensures
        final(ark_mem)@ == limit_degree(old(ark_mem)@),
{
    reveal(limit_degree);
    let q: i32 = ark_mem.get_mri_mth().q;
    let a: ArkParts = ark_mem.get_att();
    if q > 1 && a.interp_degree > q - 1 {
        ark_mem.set_att(ArkParts { interp_degree: q - 1, ..a });
    } else if q == 1 && a.interp_degree > 1 {
        ark_mem.set_att(ArkParts { interp_degree: 1, ..a });
    }
}

/// The table chosen, checked and adopted; an error estimate needs an
/// embedding.
#[verifier::opaque]
pub open spec fn init_table<E: ArkEnv>(m: MemView, e: E) -> Run<E> {
    let a = set_coupling(relax_weights(m), e);
    let b = check_coupling(a.m, a.e);
    let m1 = adopt_method(b.m);
    if a.flag != ARK_SUCCESS {
        Run { m: a.m, e: a.e, flag: ARK_ILL_INPUT }
    } else if b.flag != ARK_SUCCESS {
        Run { m: b.m, e: b.e, flag: ARK_ILL_INPUT }
    } else if wants_error(m1) && mri(m1).mth().p <= 0 {
        Run { m: m1, e: b.e, flag: ARK_ILL_INPUT }
    } else {
        derive_arrays(m1, b.e)
    }
}

fn mriStep_InitTable<E: ArkEnv>(ark_mem: &mut ARKodeMemRec, env: &mut E) -> (flag: i32)
    ensures
        final(ark_mem)@ == init_table(old(ark_mem)@, *old(env)).m,
        *final(env) == init_table(old(ark_mem)@, *old(env)).e,
        flag == init_table(old(ark_mem)@, *old(env)).flag,
{
    reveal(init_table);
    mriStep_RelaxWeights(ark_mem);
    let retval: i32 = mriStep_SetCoupling(ark_mem, env);
    if retval != ARK_SUCCESS {
        return ARK_ILL_INPUT;
    }
    let retval: i32 = mriStep_CheckCoupling(ark_mem, env);
    if retval != ARK_SUCCESS {
        return ARK_ILL_INPUT;
    }
    mriStep_AdoptMethod(ark_mem);
    if mriStep_WantsError(ark_mem) && ark_mem.get_mri_mth().p <= 0 {
        return ARK_ILL_INPUT;
    }
    mriStep_DeriveArrays(ark_mem, env)
}

/// Vectors for the table and the problem: stages, solver, fast forcing.
#[verifier::opaque]
pub open spec fn init_vectors<E: ArkEnv>(m: MemView, e: E) -> Run<E> {
    let a = fit_stages(unify(m));
    let b = if mri(a.0).prb().implicit_rhs {
        let s = make_solver_vectors(a.0);
        Run { m: s.0, e, flag: s.1 }
    } else {
        drop_solvers(a.0, e)
    };
    let c = make_inner(b.m);
    if a.1 != ARK_SUCCESS {
        Run { m: a.0, e, flag: a.1 }
    } else if b.flag != ARK_SUCCESS {
        b
    } else {
        Run { m: c.0, e: b.e, flag: c.1 }
    }
}

fn mriStep_InitVectors<E: ArkEnv>(ark_mem: &mut ARKodeMemRec, env: &mut E) -> (flag: i32)
    ensures
        final(ark_mem)@ == init_vectors(old(ark_mem)@, *old(env)).m,
        *final(env) == init_vectors(old(ark_mem)@, *old(env)).e,
        flag == init_vectors(old(ark_mem)@, *old(env)).flag,
{
    reveal(init_vectors);
    reveal(drop_solvers);
    mriStep_Unify(ark_mem);
    let retval: i32 = mriStep_FitStages(ark_mem);
    if retval != ARK_SUCCESS {
        return retval;
    }
    if ark_mem.get_mri_prb().implicit_rhs {
        let retval: i32 = mriStep_MakeSolverVectors(ark_mem);
        if retval != ARK_SUCCESS {
            return retval;
        }
    } else {
        mriStep_DropSolvers(ark_mem, env);
    }
    mriStep_MakeInner(ark_mem)
}

/// A first initialisation: table, vectors, interpolation. Predictors other
/// than the last solution need an interpolation module.
#[verifier::opaque]
pub open spec fn init_first<E: ArkEnv>(m: MemView, e: E) -> Run<E> {
    let a = init_table(m, e);
    let b = init_vectors(a.m, a.e);
    let m1 = limit_degree(b.m);
    if a.flag != ARK_SUCCESS {
        a
    } else if b.flag != ARK_SUCCESS {
        b
    } else if m1.att().interp_type == ARK_INTERP_NONE && mri(m1).prb().predictor != 0 {
        Run { m: m1, e: b.e, flag: ARK_ILL_INPUT }
    } else {
        Run { m: m1, e: b.e, flag: ARK_SUCCESS }
    }
}

fn mriStep_InitFirst<E: ArkEnv>(ark_mem: &mut ARKodeMemRec, env: &mut E) -> (flag: i32)
    ensures
        final(ark_mem)@ == init_first(old(ark_mem)@, *old(env)).m,
        *final(env) == init_first(old(ark_mem)@, *old(env)).e,
        flag == init_first(old(ark_mem)@, *old(env)).flag,
{
    reveal(init_first);
    let retval: i32 = mriStep_InitTable(ark_mem, env);
    if retval != ARK_SUCCESS {
        return retval;
    }
    let retval: i32 = mriStep_InitVectors(ark_mem, env);
    if retval != ARK_SUCCESS {
        return retval;
    }
    mriStep_LimitDegree(ark_mem);
    if ark_mem.get_att().interp_type == ARK_INTERP_NONE && ark_mem.get_mri_prb().predictor != 0 {
        return ARK_ILL_INPUT;
    }
    ARK_SUCCESS
}

/// The linear and the nonlinear solver initialised, where they are attached.
#[verifier::opaque]
pub open spec fn init_solvers<E: ArkEnv>(m: MemView, e: E) -> Run<E> {
    let a = match mri(m).nls().linit {
        None => Run { m, e, flag: 0 },
        Some(f) => module_run(m, e, ModuleCall::LinearInit { f }),
    };
    let b = if mri(a.m).nls().attached {
        module_run(a.m, a.e, ModuleCall::NlsInit)
    } else {
        Run { m: a.m, e: a.e, flag: ARK_SUCCESS }
    };
    if a.flag != 0 {
        Run { m: a.m, e: a.e, flag: ARK_LINIT_FAIL }
    } else if b.flag != ARK_SUCCESS {
        Run { m: b.m, e: b.e, flag: ARK_NLS_INIT_FAIL }
    } else {
        b
    }
}

fn mriStep_InitSolvers<E: ArkEnv>(ark_mem: &mut ARKodeMemRec, env: &mut E) -> (flag: i32)
    ensures
        final(ark_mem)@ == init_solvers(old(ark_mem)@, *old(env)).m,
        *final(env) == init_solvers(old(ark_mem)@, *old(env)).e,
        flag == init_solvers(old(ark_mem)@, *old(env)).flag,
{
    reveal(init_solvers);
    match ark_mem.get_mri_nls().linit {
        None => {},
        Some(f) => {
            let retval: i32 = call_module(ark_mem, env, ModuleCall::LinearInit { f });
            if retval != 0 {
                return ARK_LINIT_FAIL;
            }
        },
    }
    if ark_mem.get_mri_nls().attached {
        let retval: i32 = call_module(ark_mem, env, ModuleCall::NlsInit);
        if retval != ARK_SUCCESS {
            return ARK_NLS_INIT_FAIL;
        }
    }
    ARK_SUCCESS
}

/// Whether the fast integrator can have its tolerance adapted.
pub open spec fn inner_supports_rtol(m: MemView) -> bool {
    mri(m).stepper() matches Some(s) && supports_rtol(s.ops())
}

fn mriStep_InnerSupportsRTol(ark_mem: &ARKodeMemRec) -> (r: bool)
    ensures
        r == inner_supports_rtol(ark_mem@),
{
    let o = ark_mem.stepper_ops();
    ark_mem.has_stepper() && o.setrtol.is_some() && o.geterror.is_some() && o.reseterror.is_some()
}

/// What step size control asks for: fixed steps a step size, variable steps a
/// controller of a known kind and an embedding, control of the fast tolerance
/// a fast integrator that supports it.
#[verifier::opaque]
pub open spec fn init_adapt<E: ArkEnv>(m: MemView, e: E) -> Run<E> {
    let k = adapt_kind(m, e, true);
    let fixed = k.m.lim().fixedstep;
    let known = k.flag == SUN_ADAPTCONTROLLER_MRI_H_TOL || k.flag == SUN_ADAPTCONTROLLER_H;
    let htol = k.flag == SUN_ADAPTCONTROLLER_MRI_H_TOL;
    if fixed && r_eq(k.m.stp().hin, ZERO()) {
        Run { m: k.m, e: k.e, flag: ARK_ILL_INPUT }
    } else if !fixed && (!known || table_p(k.m) <= 0) {
        Run { m: k.m, e: k.e, flag: ARK_ILL_INPUT }
    } else if htol && !inner_supports_rtol(k.m) {
        Run { m: k.m, e: k.e, flag: ARK_ILL_INPUT }
    } else if htol {
        Run {
            m: mput_adp(k.m, MriAdapt { inner_rtol_factor: ONE(), ..mri(k.m).adp() }),
            e: k.e,
            flag: ARK_SUCCESS,
        }
    } else {
        Run { m: k.m, e: k.e, flag: ARK_SUCCESS }
    }
}

fn mriStep_InitAdapt<E: ArkEnv>(ark_mem: &mut ARKodeMemRec, env: &mut E) -> (flag: i32)
    ensures
        final(ark_mem)@ == init_adapt(old(ark_mem)@, *old(env)).m,
        *final(env) == init_adapt(old(ark_mem)@, *old(env)).e,
        flag == init_adapt(old(ark_mem)@, *old(env)).flag,
{
    reveal(init_adapt);
    let kind: i32 = mriStep_AdaptKind(ark_mem, env, true);
    if ark_mem.get_lim().fixedstep {
        if ark_mem.get_stp().hin == ZERO() {
            return ARK_ILL_INPUT;
        }
    } else {
        if kind != SUN_ADAPTCONTROLLER_MRI_H_TOL && kind != SUN_ADAPTCONTROLLER_H {
            return ARK_ILL_INPUT;
        }
        if mriStep_TableP(ark_mem) <= 0 {
            return ARK_ILL_INPUT;
        }
    }
    if kind == SUN_ADAPTCONTROLLER_MRI_H_TOL {
        if !mriStep_InnerSupportsRTol(ark_mem) {
            return ARK_ILL_INPUT;
        }
        let a: MriAdapt = ark_mem.get_mri_adp();
        ark_mem.set_mri_adp(MriAdapt { inner_rtol_factor: ONE(), ..a });
    }
    ARK_SUCCESS
}

/// The stepper initialised: nothing on a reset; table and vectors on a first
/// initialisation; solvers and step size control on every other.
#[verifier::opaque]
pub open spec fn mri_init<E: ArkEnv>(m: MemView, e: E, init_type: i32) -> Run<E> {
    let a = if init_type == FIRST_INIT {
        init_first(m, e)
    } else {
        Run { m, e, flag: ARK_SUCCESS }
    };
    let b = init_solvers(a.m, a.e);
    if access_step_mem(m) != ARK_SUCCESS {
        Run { m, e, flag: ARK_MEM_NULL }
    } else if init_type == RESET_INIT {
        Run { m, e, flag: ARK_SUCCESS }
    } else if a.flag != ARK_SUCCESS {
        a
    } else if b.flag != ARK_SUCCESS {
        b
    } else {
        init_adapt(b.m, b.e)
    }
}

/// Initialises the stepper.
pub fn mriStep_Init<E: ArkEnv>(ark_mem: &mut ARKodeMemRec, env: &mut E, init_type: i32) -> (flag: i32)
    ensures
        final(ark_mem)@ == mri_init(old(ark_mem)@, *old(env), init_type).m,
        *final(env) == mri_init(old(ark_mem)@, *old(env), init_type).e,
        flag == mri_init(old(ark_mem)@, *old(env), init_type).flag,
{
    reveal(mri_init);
    let retval: i32 = mriStep_AccessStepMem(ark_mem);
    if retval != ARK_SUCCESS {
        return retval;
    }
    if init_type == RESET_INIT {
        return ARK_SUCCESS;
    }
    if init_type == FIRST_INIT {
        let retval: i32 = mriStep_InitFirst(ark_mem, env);
        if retval != ARK_SUCCESS {
            return retval;
        }
    }
    let retval: i32 = mriStep_InitSolvers(ark_mem, env);
    if retval != ARK_SUCCESS {
        return retval;
    }
    mriStep_InitAdapt(ark_mem, env)
}

/// The words of one vector set from a template, and by how much they changed.
#[verifier::opaque]
pub open spec fn measure(m: MemView, tmpl: NVec) -> (MemView, i64, i64) {
    let w = words(tmpl);
    let a = m.acc();
    (
        put_acc(m, ArkAccounts { lrw1: w.0, liw1: w.1, ..a }),
        w.0.wrapping_sub(a.lrw1),
        w.1.wrapping_sub(a.liw1),
    )
}

/// Sets the words of one vector from a template; returns by how much they
/// changed.
pub fn ark_measure(ark_mem: &mut ARKodeMemRec, tmpl: &N_Vector) -> (r: (i64, i64))
    ensures
        final(ark_mem)@ == measure(old(ark_mem)@, tmpl@).0,
        r.0 == measure(old(ark_mem)@, tmpl@).1,
        r.1 == measure(old(ark_mem)@, tmpl@).2,
{
    reveal(measure);
    let w: (i64, i64) = vector_words(tmpl);
    let a: ArkAccounts = ark_mem.get_acc();
    ark_mem.set_acc(ArkAccounts { lrw1: w.0, liw1: w.1, ..a });
    (w.0.wrapping_sub(a.lrw1), w.1.wrapping_sub(a.liw1))
}

/// A default nonlinear solver made for vectors like `y0` and attached.
#[verifier::opaque]
pub open spec fn attach_newton<E: ArkEnv>(m: MemView, e: E, y0: NVec) -> Run<E> {
    let a = module_vec(m, e, ModuleCall::NewtonCreate, y0);
    let b = module_run(a.m, a.e, ModuleCall::SetNonlinearSolver);
    if a.flag != ARK_SUCCESS {
        Run { m: a.m, e: a.e, flag: ARK_MEM_FAIL }
    } else if b.flag != ARK_SUCCESS {
        Run { m: b.m, e: b.e, flag: ARK_MEM_FAIL }
    } else {
        Run {
            m: mput_nls(b.m, MriNls { ownNLS: true, ..mri(b.m).nls() }),
            e: b.e,
            flag: ARK_SUCCESS,
        }
    }
}

/// Makes a default nonlinear solver for vectors like `y0` and attaches it.
pub fn mriStep_AttachNewton<E: ArkEnv>(
    ark_mem: &mut ARKodeMemRec,
    env: &mut E,
    y0: &N_Vector,
) -> (flag: i32)
    ensures
        final(ark_mem)@ == attach_newton(old(ark_mem)@, *old(env), y0@).m,
        *final(env) == attach_newton(old(ark_mem)@, *old(env), y0@).e,
        flag == attach_newton(old(ark_mem)@, *old(env), y0@).flag,
{
    reveal(attach_newton);
    let mut tmpl: N_Vector = copy_vector(y0);
    let retval: i32 = call_module_vec(ark_mem, env, ModuleCall::NewtonCreate, &mut tmpl);
    if retval != ARK_SUCCESS {
        return ARK_MEM_FAIL;
    }
    let retval: i32 = call_module(ark_mem, env, ModuleCall::SetNonlinearSolver);
    if retval != ARK_SUCCESS {
        return ARK_MEM_FAIL;
    }
    let n: MriNls = ark_mem.get_mri_nls();
    ark_mem.set_mri_nls(MriNls { ownNLS: true, ..n });
    ARK_SUCCESS
}

/// The default nonlinear solver replaced by a new one for vectors like `y0`; a
/// solver of the user stays. One that cannot be released is gone all the same.
#[verifier::opaque]
pub open spec fn renew_newton<E: ArkEnv>(m: MemView, e: E, y0: NVec) -> Run<E> {
    if mri(m).nls().attached && mri(m).nls().ownNLS {
        let r = module_run(taken_nls(m), e, ModuleCall::NonlinSolFree);
        if r.flag != ARK_SUCCESS {
            r
        } else {
            attach_newton(without_nls(r.m), r.e, y0)
        }
    } else {
        Run { m, e, flag: ARK_SUCCESS }
    }
}

fn mriStep_RenewNewton<E: ArkEnv>(ark_mem: &mut ARKodeMemRec, env: &mut E, y0: &N_Vector) -> (flag:
    i32)
    ensures
        final(ark_mem)@ == renew_newton(old(ark_mem)@, *old(env), y0@).m,
        *final(env) == renew_newton(old(ark_mem)@, *old(env), y0@).e,
        flag == renew_newton(old(ark_mem)@, *old(env), y0@).flag,
{
    reveal(renew_newton);
    let n: MriNls = ark_mem.get_mri_nls();
    if n.attached && n.ownNLS {
        mriStep_TakeNls(ark_mem);
        let retval: i32 = call_module(ark_mem, env, ModuleCall::NonlinSolFree);
        if retval != ARK_SUCCESS {
            return retval;
        }
        mriStep_DetachNls(ark_mem);
        return mriStep_AttachNewton(ark_mem, env, y0);
    }
    ARK_SUCCESS
}

/// The forcing of the fast integrator resized; refused where none is attached.
#[verifier::opaque]
pub open spec fn resize_inner<E: ArkEnv>(
    m: MemView,
    e: E,
    resize: Option<FnId>,
    lrw_diff: i64,
    liw_diff: i64,
    tmpl: NVec,
) -> Run<E> {
    match mri(m).stepper() {
        None => Run { m, e, flag: ARK_MEM_FAIL },
        Some(s) => {
            let r = inner_resize(s, e, resize, lrw_diff, liw_diff, tmpl);
            Run {
                m: mput_stepper(m, Some(r.0)),
                e: r.1,
                flag: if r.2 != ARK_SUCCESS {
                    ARK_MEM_FAIL
                } else {
                    ARK_SUCCESS
                },
            }
        },
    }
}

fn mriStep_ResizeInner<E: ArkEnv>(
    ark_mem: &mut ARKodeMemRec,
    env: &mut E,
    resize: Option<FnId>,
    lrw_diff: i64,
    liw_diff: i64,
    tmpl: &N_Vector,
) -> (flag: i32)
    ensures
        ({
            let o = resize_inner(old(ark_mem)@, *old(env), resize, lrw_diff, liw_diff, tmpl@);
            &&& final(ark_mem)@ == o.m
            &&& *final(env) == o.e
            &&& flag == o.flag
        }),
{
    reveal(resize_inner);
    if !ark_mem.has_stepper() {
        return ARK_MEM_FAIL;
    }
    let ghost m0 = ark_mem@;
    match ark_mem.take_stepper() {
        None => ARK_MEM_FAIL,
        Some(s0) => {
            let mut s: MRIStepInnerStepper = s0;
            let flag: i32 = mriStepInnerStepper_Resize(
                &mut s,
                env,
                resize,
                lrw_diff,
                liw_diff,
                tmpl,
            );
            proof {
                lemma_swap_stepper(m0, None, Some(s@));
            }
            ark_mem.set_stepper(Some(s));
            if flag != ARK_SUCCESS {
                ARK_MEM_FAIL
            } else {
                ARK_SUCCESS
            }
        },
    }
}

/// Everything that the stepper holds fitted to vectors like `y0`.
#[verifier::opaque]
pub open spec fn mri_resize<E: ArkEnv>(m: MemView, e: E, y0: NVec, resize: Option<FnId>) -> Run<E> {
    let d = measure(m, y0);
    let a = resize_stages(d.0, e, resize, d.1, d.2, y0);
    let b = resize_solver_vectors(a.m, a.e, resize, d.1, d.2, y0);
    let c = renew_newton(b.m, b.e, y0);
    let i = resize_inner(c.m, c.e, resize, d.1, d.2, y0);
    if access_step_mem(m) != ARK_SUCCESS {
        Run { m, e, flag: ARK_MEM_NULL }
    } else if a.flag != ARK_SUCCESS {
        a
    } else if b.flag != ARK_SUCCESS {
        b
    } else if c.flag != ARK_SUCCESS {
        c
    } else if i.flag != ARK_SUCCESS {
        i
    } else if mri(i.m).nls().attached {
        Run {
            m: mput_cnt(i.m, MriCounts { nsetups: 0, ..mri(i.m).cnt() }),
            e: i.e,
            flag: ARK_SUCCESS,
        }
    } else {
        i
    }
}

/// Fits the stepper to vectors like `y0`.
pub fn mriStep_Resize<E: ArkEnv>(
    ark_mem: &mut ARKodeMemRec,
    env: &mut E,
    y0: &N_Vector,
    hscale: sunrealtype,
    t0: sunrealtype,
    resize: Option<FnId>,
) -> (flag: i32)
    ensures
        final(ark_mem)@ == mri_resize(old(ark_mem)@, *old(env), y0@, resize).m,
        *final(env) == mri_resize(old(ark_mem)@, *old(env), y0@, resize).e,
        flag == mri_resize(old(ark_mem)@, *old(env), y0@, resize).flag,
{
    reveal(mri_resize);
    let retval: i32 = mriStep_AccessStepMem(ark_mem);
    if retval != ARK_SUCCESS {
        return retval;
    }
    let d: (i64, i64) = ark_measure(ark_mem, y0);
    let retval: i32 = mriStep_ResizeStages(ark_mem, env, resize, d.0, d.1, y0);
    if retval != ARK_SUCCESS {
        return retval;
    }
    let retval: i32 = mriStep_ResizeSolverVectors(ark_mem, env, resize, d.0, d.1, y0);
    if retval != ARK_SUCCESS {
        return retval;
    }
    let retval: i32 = mriStep_RenewNewton(ark_mem, env, y0);
    if retval != ARK_SUCCESS {
        return retval;
    }
    let retval: i32 = mriStep_ResizeInner(ark_mem, env, resize, d.0, d.1, y0);
    if retval != ARK_SUCCESS {
        return retval;
    }
    if ark_mem.get_mri_nls().attached {
        let c: MriCounts = ark_mem.get_mri_cnt();
        ark_mem.set_mri_cnt(MriCounts { nsetups: 0, ..c });
    }
    ARK_SUCCESS
}

/// The table and what is derived from it released. The words of the table are
/// asked for while it is still there.
#[verifier::opaque]
pub open spec fn free_table<E: ArkEnv>(m: MemView, e: E) -> Run<E> {
    if mri(m).MRIC() is None {
        Run { m, e, flag: ARK_SUCCESS }
    } else {
        let a = account_table(m, e, false);
        let m1 = mput_MRIC(a.m, None);
        Run { m: drop_derived(m1, mri(m1).mth().stages), e: a.e, flag: ARK_SUCCESS }
    }
}

fn mriStep_FreeTable<E: ArkEnv>(ark_mem: &mut ARKodeMemRec, env: &mut E)
    ensures
        final(ark_mem)@ == free_table(old(ark_mem)@, *old(env)).m,
        *final(env) == free_table(old(ark_mem)@, *old(env)).e,
{
    reveal(free_table);
    if ark_mem.table().is_none() {
        return;
    }
    mriStep_AccountTable(ark_mem, env, false);
    ark_mem.set_MRIC(None);
    let n: i32 = ark_mem.get_mri_mth().stages;
    mriStep_DropDerived(ark_mem, n);
}

/// The solvers released: a nonlinear solver that the stepper made, and the
/// linear solver.
#[verifier::opaque]
pub open spec fn free_solvers<E: ArkEnv>(m: MemView, e: E) -> Run<E> {
    let a = if mri(m).nls().attached && mri(m).nls().ownNLS {
        module_run(m, e, ModuleCall::NonlinSolFree)
    } else {
        Run { m, e, flag: ARK_SUCCESS }
    };
    let n = mri(a.m).nls();
    let m1 = mput_nls(
        a.m,
        MriNls {
            attached: false,
            ownNLS: if mri(m).nls().attached && mri(m).nls().ownNLS {
                false
            } else {
                n.ownNLS
            },
            ..n
        },
    );
    match mri(m1).nls().lfree {
        None => Run { m: m1, e: a.e, flag: ARK_SUCCESS },
        Some(f) => {
            let r = module_run(m1, a.e, ModuleCall::LinearFree { f });
            Run { m: with_lmem(r.m, false), e: r.e, flag: ARK_SUCCESS }
        },
    }
}

fn mriStep_FreeSolvers<E: ArkEnv>(ark_mem: &mut ARKodeMemRec, env: &mut E)
    ensures
        final(ark_mem)@ == free_solvers(old(ark_mem)@, *old(env)).m,
        *final(env) == free_solvers(old(ark_mem)@, *old(env)).e,
{
    reveal(free_solvers);
    let n: MriNls = ark_mem.get_mri_nls();
    let own: bool = n.attached && n.ownNLS;
    if own {
        call_module(ark_mem, env, ModuleCall::NonlinSolFree);
    }
    let n: MriNls = ark_mem.get_mri_nls();
    let still: bool = !own && n.ownNLS;
    ark_mem.set_mri_nls(MriNls { attached: false, ownNLS: still, ..n });
    match ark_mem.get_mri_nls().lfree {
        None => {},
        Some(f) => {
            call_module(ark_mem, env, ModuleCall::LinearFree { f });
            set_lmem(ark_mem, false);
        },
    }
}

/// The workspace for fused operations released.
#[verifier::opaque]
pub open spec fn free_fused(m: MemView) -> MemView {
    let h = mri(m).mth();
    let a = m.acc();
    let m1 = if h.fused_allocated {
        put_acc(
            m,
            ArkAccounts {
                lrw: a.lrw.wrapping_sub(h.nfusedopvecs as i64),
                liw: a.liw.wrapping_sub(h.nfusedopvecs as i64),
                ..a
            },
        )
    } else {
        m
    };
    mput_mth(m1, MriMethod { nfusedopvecs: 0, fused_allocated: false, ..mri(m1).mth() })
}

fn mriStep_FreeFused(ark_mem: &mut ARKodeMemRec)
    ensures
        final(ark_mem)@ == free_fused(old(ark_mem)@),
{
    reveal(free_fused);
    let h: MriMethod = ark_mem.get_mri_mth();
    let a: ArkAccounts = ark_mem.get_acc();
    if h.fused_allocated {
        ark_mem.set_acc(
            ArkAccounts {
                lrw: a.lrw.wrapping_sub(h.nfusedopvecs as i64),
                liw: a.liw.wrapping_sub(h.nfusedopvecs as i64),
                ..a
            },
        );
    }
    let h: MriMethod = ark_mem.get_mri_mth();
    ark_mem.set_mri_mth(MriMethod { nfusedopvecs: 0, fused_allocated: false, ..h });
}

/// Everything that the stepper holds released, and the stepper with it.
#[verifier::opaque]
pub open spec fn mri_free<E: ArkEnv>(m: MemView, e: E) -> Run<E> {
    if m.step_mem() is None {
        Run { m, e, flag: ARK_SUCCESS }
    } else {
        let a = free_table(m, e);
        let b = free_solvers(a.m, a.e);
        Run {
            m: put_step_mem(free_fused(drop_all_stages(drop_solver_vectors(b.m))), None),
            e: b.e,
            flag: ARK_SUCCESS,
        }
    }
}

/// Releases the stepper.
pub fn mriStep_Free<E: ArkEnv>(ark_mem: &mut ARKodeMemRec, env: &mut E)
    ensures
        final(ark_mem)@ == mri_free(old(ark_mem)@, *old(env)).m,
        *final(env) == mri_free(old(ark_mem)@, *old(env)).e,
{
    reveal(mri_free);
    if !ark_mem.has_step_mem() {
        return;
    }
    mriStep_FreeTable(ark_mem, env);
    mriStep_FreeSolvers(ark_mem, env);
    mriStep_DropSolverVectors(ark_mem);
    mriStep_DropAllStages(ark_mem);
    mriStep_FreeFused(ark_mem);
    ark_mem.set_step_mem(None);
}

} // verus!
