//! Creation and renewed initialisation of a multirate integrator.
use crate::arkode_codes::{
    ARK_ILL_INPUT, ARK_MEM_FAIL, ARK_MEM_NULL, ARK_NO_MALLOC, ARK_SUCCESS, FIRST_INIT,
};
use crate::arkode_core::{arkCreate, arkInit, ark_free_all, create, free_all, init, CreateOut};
use crate::arkode_impl::{
    no_step_ops, zero_mri_counts, zero_mri_mem, ARKodeMRIStepMemRec, ARKodeMemRec, ArkAccounts,
    ArkParts, FnId, InnerView, MRIStepInnerStepper, MemView, MriAdapt, MriForcing, MriMethod,
    MriNls, MriProblem, StepFn, StepOps,
};
use crate::arkode_mem::{
    mput_adp, mput_cnt, mput_forcing, mput_frc, mput_mth, mput_nls, mput_prb, mput_stepper, mri,
    put_acc, put_att, put_ops, put_step_mem,
};
use crate::binary64::sunrealtype;
use crate::env::{ArkEnv, ModuleCall};
use crate::inner_stepper::mriStepInnerStepper_HasRequiredOps;
use crate::mristep_init::{attach_newton, mriStep_AttachNewton};
use crate::mristep_ops::{set_lmem, with_lmem};
use crate::mristep_rhs::{access_step_mem, mriStep_AccessStepMem};
use crate::nvector::{nvecs, NVec, N_Vector};
use crate::outcome::{call_module, module_run, Run};
use crate::sundials_types::ONE;
use vstd::prelude::*;

verus! {

/// The routines that the MRI stepper offers.
#[verifier::allow_in_spec]
pub fn mri_step_ops() -> StepOps
    returns
        (StepOps {
            attachlinsol: true,
            disablelsetup: true,
            getlinmem: true,
            getimplicitrhs: true,
            getgammas: true,
            init: true,
            fullrhs: true,
            resize: true,
            reset: true,
            free: true,
            printmem: true,
            setdefaults: true,
            computestate: true,
            setforcing: true,
            options: true,
            ..no_step_ops()
        }),
{
    StepOps {
        attachlinsol: true,
        disablelsetup: true,
        getlinmem: true,
        getimplicitrhs: true,
        getgammas: true,
        init: true,
        fullrhs: true,
        resize: true,
        reset: true,
        free: true,
        printmem: true,
        setdefaults: true,
        computestate: true,
        setforcing: true,
        options: true,
        ..no_step_ops()
    }
}

/// The MRI stepper attached to an integrator, with empty memory.
#[verifier::opaque]
pub open spec fn attach_stepper(m: MemView) -> MemView {
    let m1 = put_ops(m, mri_step_ops());
    let m2 = put_att(
        m1,
        ArkParts {
            step: Some(StepFn::MRIGARK),
            step_supports_adaptive: true,
            step_supports_implicit: true,
            ..m1.att()
        },
    );
    put_step_mem(m2, Some(zero_mri_mem()))
}

fn mriStep_Attach(ark_mem: &mut ARKodeMemRec)
    ensures
        final(ark_mem)@ == attach_stepper(old(ark_mem)@),
{
    reveal(attach_stepper);
    ark_mem.set_ops(mri_step_ops());
    let a: ArkParts = ark_mem.get_att();
    ark_mem.set_att(
        ArkParts {
            step: Some(StepFn::MRIGARK),
            step_supports_adaptive: true,
            step_supports_implicit: true,
            ..a
        },
    );
    ark_mem.set_step_mem(Some(ARKodeMRIStepMemRec::zeroed()));
}

/// The slow right-hand sides set, the work space of the record accounted for,
/// and no nonlinear solver.
#[verifier::opaque]
pub open spec fn set_problem(m: MemView, fse: Option<FnId>, fsi: Option<FnId>) -> MemView {
    let m1 = mput_prb(
        m,
        MriProblem {
            fse,
            fsi,
            fse_is_current: false,
            fsi_is_current: false,
            explicit_rhs: fse is Some,
            implicit_rhs: fsi is Some,
            ..mri(m).prb()
        },
    );
    let a = m1.acc();
    let m2 = put_acc(
        m1,
        ArkAccounts { liw: a.liw.wrapping_add(49), lrw: a.lrw.wrapping_add(14), ..a },
    );
    mput_nls(m2, MriNls { attached: false, ownNLS: false, ..mri(m2).nls() })
}

fn mriStep_SetProblem(ark_mem: &mut ARKodeMemRec, fse: Option<FnId>, fsi: Option<FnId>)
    ensures
        final(ark_mem)@ == set_problem(old(ark_mem)@, fse, fsi),
{
    reveal(set_problem);
    let p: MriProblem = ark_mem.get_mri_prb();
    ark_mem.set_mri_prb(
        MriProblem {
            fse,
            fsi,
            fse_is_current: false,
            fsi_is_current: false,
            explicit_rhs: fse.is_some(),
            implicit_rhs: fsi.is_some(),
            ..p
        },
    );
    let a: ArkAccounts = ark_mem.get_acc();
    ark_mem.set_acc(
        ArkAccounts { liw: a.liw.wrapping_add(49), lrw: a.lrw.wrapping_add(14), ..a },
    );
    let n: MriNls = ark_mem.get_mri_nls();
    ark_mem.set_mri_nls(MriNls { attached: false, ownNLS: false, ..n });
}

/// Counters of the stepper cleared.
#[verifier::opaque]
pub open spec fn clear_counts(m: MemView) -> MemView {
    let m1 = mput_cnt(m, zero_mri_counts());
    mput_nls(m1, MriNls { nstlp: 0, ..mri(m1).nls() })
}

fn mriStep_ClearCounts(ark_mem: &mut ARKodeMemRec)
    ensures
        final(ark_mem)@ == clear_counts(old(ark_mem)@),
{
    reveal(clear_counts);
    ark_mem.set_mri_cnt(zero_mri_counts());
    let n: MriNls = ark_mem.get_mri_nls();
    ark_mem.set_mri_nls(MriNls { nstlp: 0, ..n });
}

/// No linear solver, no step taken yet.
#[verifier::opaque]
pub open spec fn start_solvers(m: MemView) -> MemView {
    let m1 = mput_nls(
        m,
        MriNls {
            linit: None,
            lsetup: None,
            lsolve: None,
            lfree: None,
            eRNrm: ONE(),
            ..mri(m).nls()
        },
    );
    with_lmem(clear_counts(m1), false)
}

fn mriStep_StartSolvers(ark_mem: &mut ARKodeMemRec)
    ensures
        final(ark_mem)@ == start_solvers(old(ark_mem)@),
{
    reveal(start_solvers);
    let n: MriNls = ark_mem.get_mri_nls();
    ark_mem.set_mri_nls(
        MriNls { linit: None, lsetup: None, lsolve: None, lfree: None, eRNrm: ONE(), ..n },
    );
    mriStep_ClearCounts(ark_mem);
    set_lmem(ark_mem, false);
}

/// Vectors of a fused operation that the full right-hand side needs.
pub const RHS_FUSED: i32 = 3;

/// Work space for the full right-hand side, neutral tolerance factors, no
/// functions around the fast integration, no outer forcing.
#[verifier::opaque]
pub open spec fn start_fast(m: MemView) -> MemView {
    let m1 = mput_mth(
        m,
        MriMethod { nfusedopvecs: RHS_FUSED, fused_allocated: true, ..mri(m).mth() },
    );
    let a = m1.acc();
    let m2 = put_acc(
        m1,
        ArkAccounts {
            lrw: a.lrw.wrapping_add(RHS_FUSED as i64),
            liw: a.liw.wrapping_add(RHS_FUSED as i64),
            ..a
        },
    );
    let m3 = mput_adp(
        m2,
        MriAdapt { inner_rtol_factor: ONE(), inner_dsm: ONE(), inner_rtol_factor_new: ONE() },
    );
    let m4 = mput_prb(
        m3,
        MriProblem { pre_inner_evolve: None, post_inner_evolve: None, ..mri(m3).prb() },
    );
    let m5 = mput_frc(
        m4,
        MriForcing { expforcing: false, impforcing: false, nforcing: 0, ..mri(m4).frc() },
    );
    mput_forcing(m5, Seq::empty())
}

fn mriStep_StartFast(ark_mem: &mut ARKodeMemRec)
    ensures
        final(ark_mem)@ == start_fast(old(ark_mem)@),
{
    reveal(start_fast);
    let h: MriMethod = ark_mem.get_mri_mth();
    ark_mem.set_mri_mth(MriMethod { nfusedopvecs: RHS_FUSED, fused_allocated: true, ..h });
    let a: ArkAccounts = ark_mem.get_acc();
    ark_mem.set_acc(
        ArkAccounts {
            lrw: a.lrw.wrapping_add(RHS_FUSED as i64),
            liw: a.liw.wrapping_add(RHS_FUSED as i64),
            ..a
        },
    );
    ark_mem.set_mri_adp(
        MriAdapt { inner_rtol_factor: ONE(), inner_dsm: ONE(), inner_rtol_factor_new: ONE() },
    );
    let p: MriProblem = ark_mem.get_mri_prb();
    ark_mem.set_mri_prb(MriProblem { pre_inner_evolve: None, post_inner_evolve: None, ..p });
    let f: MriForcing = ark_mem.get_mri_frc();
    ark_mem.set_mri_frc(MriForcing { expforcing: false, impforcing: false, nforcing: 0, ..f });
    let none: Vec<N_Vector> = Vec::new();
    proof {
        assert(nvecs(none@) =~= Seq::empty());
    }
    ark_mem.set_forcing(none);
}

/// A Newton solver where one is needed.
#[verifier::opaque]
pub open spec fn need_newton<E: ArkEnv>(m: MemView, e: E, y0: NVec) -> Run<E> {
    if mri(m).prb().implicit_rhs && !mri(m).nls().attached {
        attach_newton(m, e, y0)
    } else {
        Run { m, e, flag: ARK_SUCCESS }
    }
}

fn mriStep_NeedNewton<E: ArkEnv>(ark_mem: &mut ARKodeMemRec, env: &mut E, y0: &N_Vector) -> (flag:
    i32)
    ensures
        final(ark_mem)@ == need_newton(old(ark_mem)@, *old(env), y0@).m,
        *final(env) == need_newton(old(ark_mem)@, *old(env), y0@).e,
        flag == need_newton(old(ark_mem)@, *old(env), y0@).flag,
{
    reveal(need_newton);
    if ark_mem.get_mri_prb().implicit_rhs && !ark_mem.get_mri_nls().attached {
        return mriStep_AttachNewton(ark_mem, env, y0);
    }
    ARK_SUCCESS
}

/// The MRI stepper of a new integrator, up to the solvers and the work space.
#[verifier::opaque]
pub open spec fn prepare_stepper<E: ArkEnv>(
    m: MemView,
    e: E,
    fse: Option<FnId>,
    fsi: Option<FnId>,
    y0: NVec,
) -> Run<E> {
    let d = module_run(attach_stepper(m), e, ModuleCall::StepSetDefaults);
    let n = need_newton(set_problem(d.m, fse, fsi), d.e, y0);
    if d.flag != ARK_SUCCESS {
        d
    } else if n.flag != ARK_SUCCESS {
        n
    } else {
        Run { m: start_fast(start_solvers(n.m)), e: n.e, flag: ARK_SUCCESS }
    }
}

fn mriStep_Prepare<E: ArkEnv>(
    ark_mem: &mut ARKodeMemRec,
    env: &mut E,
    fse: Option<FnId>,
    fsi: Option<FnId>,
    y0: &N_Vector,
) -> (flag: i32)
    ensures
        final(ark_mem)@ == prepare_stepper(old(ark_mem)@, *old(env), fse, fsi, y0@).m,
        *final(env) == prepare_stepper(old(ark_mem)@, *old(env), fse, fsi, y0@).e,
        flag == prepare_stepper(old(ark_mem)@, *old(env), fse, fsi, y0@).flag,
{
    reveal(prepare_stepper);
    mriStep_Attach(ark_mem);
    let retval: i32 = call_module(ark_mem, env, ModuleCall::StepSetDefaults);
    if retval != ARK_SUCCESS {
        return retval;
    }
    mriStep_SetProblem(ark_mem, fse, fsi);
    let retval: i32 = mriStep_NeedNewton(ark_mem, env, y0);
    if retval != ARK_SUCCESS {
        return retval;
    }
    mriStep_StartSolvers(ark_mem);
    mriStep_StartFast(ark_mem);
    ARK_SUCCESS
}

/// A multirate integrator for the slow right-hand sides `fse` and `fsi`, at
/// least one of which is needed, with the state `y0` at `t0` and the fast
/// integrator behind `stepper`, which has to be able to evolve. Where any part
/// fails, everything is released again.
#[verifier::opaque]
pub open spec fn mri_create<E: ArkEnv>(
    e: E,
    fse: Option<FnId>,
    fsi: Option<FnId>,
    t0: sunrealtype,
    y0: NVec,
    stepper: InnerView,
) -> CreateOut<E> {
    let c = create(e);
    if fse is None && fsi is None {
        CreateOut { m: None, e }
    } else {
        match c.m {
            None => CreateOut { m: None, e: c.e },
            Some(m0) => {
                let a = prepare_stepper(m0, c.e, fse, fsi, y0);
                let b = init(a.m, a.e, t0, y0, FIRST_INIT);
                let m2 = mput_stepper(b.m, Some(stepper));
                if a.flag != ARK_SUCCESS {
                    CreateOut { m: None, e: free_all(a.m, a.e).e }
                } else if b.flag != ARK_SUCCESS {
                    CreateOut { m: None, e: free_all(b.m, b.e).e }
                } else if stepper.ops().evolve is None {
                    CreateOut { m: None, e: free_all(m2, b.e).e }
                } else {
                    CreateOut { m: Some(m2), e: b.e }
                }
            },
        }
    }
}

/// Makes a multirate integrator.
pub fn MRIStepCreate<E: ArkEnv>(
    env: &mut E,
    fse: Option<FnId>,
    fsi: Option<FnId>,
    t0: sunrealtype,
    y0: &N_Vector,
    stepper: MRIStepInnerStepper,
) -> (r: Option<ARKodeMemRec>)
    ensures
        *final(env) == mri_create(*old(env), fse, fsi, t0, y0@, stepper@).e,
        match r {
            None => mri_create(*old(env), fse, fsi, t0, y0@, stepper@).m is None,
            Some(x) => mri_create(*old(env), fse, fsi, t0, y0@, stepper@).m == Some(x@),
        },
{
    reveal(mri_create);
    if fse.is_none() && fsi.is_none() {
        return None;
    }
    match arkCreate(env) {
        None => None,
        Some(m0) => {
            let mut m: ARKodeMemRec = m0;
            if mriStep_Prepare(&mut m, env, fse, fsi, y0) != ARK_SUCCESS {
                ark_free_all(&mut m, env);
                return None;
            }
            if arkInit(&mut m, env, t0, y0, FIRST_INIT) != ARK_SUCCESS {
                ark_free_all(&mut m, env);
                return None;
            }
            let retval: i32 = mriStepInnerStepper_HasRequiredOps(&stepper);
            m.set_stepper(Some(stepper));
            if retval != ARK_SUCCESS {
                ark_free_all(&mut m, env);
                return None;
            }
            Some(m)
        },
    }
}

/// The slow right-hand sides of a new problem, not evaluated yet, and cleared
/// counters.
#[verifier::opaque]
pub open spec fn renew_problem(m: MemView, fse: Option<FnId>, fsi: Option<FnId>) -> MemView {
    clear_counts(
        mput_prb(
            m,
            MriProblem {
                fse,
                fsi,
                fse_is_current: false,
                fsi_is_current: false,
                ..mri(m).prb()
            },
        ),
    )
}

fn mriStep_RenewProblem(ark_mem: &mut ARKodeMemRec, fse: Option<FnId>, fsi: Option<FnId>)
    ensures
        final(ark_mem)@ == renew_problem(old(ark_mem)@, fse, fsi),
{
    reveal(renew_problem);
    let p: MriProblem = ark_mem.get_mri_prb();
    ark_mem.set_mri_prb(
        MriProblem { fse, fsi, fse_is_current: false, fsi_is_current: false, ..p },
    );
    mriStep_ClearCounts(ark_mem);
}

/// A multirate integrator made ready for a new problem of the same size.
/// Where no Newton solver can be had, the integrator is released.
#[verifier::opaque]
pub open spec fn mri_reinit<E: ArkEnv>(
    m: MemView,
    e: E,
    fse: Option<FnId>,
    fsi: Option<FnId>,
    t0: sunrealtype,
    y0: NVec,
) -> Run<E> {
    let m1 = mput_prb(
        m,
        MriProblem { explicit_rhs: fse is Some, implicit_rhs: fsi is Some, ..mri(m).prb() },
    );
    let n = need_newton(m1, e, y0);
    let b = init(n.m, n.e, t0, y0, FIRST_INIT);
    let m2 = renew_problem(b.m, fse, fsi);
    if access_step_mem(m) != ARK_SUCCESS {
        Run { m, e, flag: ARK_MEM_NULL }
    } else if !m.flg().MallocDone {
        Run { m, e, flag: ARK_NO_MALLOC }
    } else if fse is None && fsi is None {
        Run { m, e, flag: ARK_ILL_INPUT }
    } else if n.flag != ARK_SUCCESS {
        Run { m: free_all(n.m, n.e).m, e: free_all(n.m, n.e).e, flag: ARK_MEM_FAIL }
    } else if b.flag != ARK_SUCCESS {
        b
    } else if m2.att().ark_lmem {
        let c = module_run(m2, b.e, ModuleCall::LinearInitCounters);
        Run { m: c.m, e: c.e, flag: ARK_SUCCESS }
    } else {
        Run { m: m2, e: b.e, flag: ARK_SUCCESS }
    }
}

/// Makes a multirate integrator ready for a new problem of the same size.
pub fn MRIStepReInit<E: ArkEnv>(
    ark_mem: &mut ARKodeMemRec,
    env: &mut E,
    fse: Option<FnId>,
    fsi: Option<FnId>,
    t0: sunrealtype,
    y0: &N_Vector,
) -> (flag: i32)
    ensures
        final(ark_mem)@ == mri_reinit(old(ark_mem)@, *old(env), fse, fsi, t0, y0@).m,
        *final(env) == mri_reinit(old(ark_mem)@, *old(env), fse, fsi, t0, y0@).e,
        flag == mri_reinit(old(ark_mem)@, *old(env), fse, fsi, t0, y0@).flag,
{
    reveal(mri_reinit);
    let retval: i32 = mriStep_AccessStepMem(ark_mem);
    if retval != ARK_SUCCESS {
        return retval;
    }
    if !ark_mem.get_flg().MallocDone {
        return ARK_NO_MALLOC;
    }
    if fse.is_none() && fsi.is_none() {
        return ARK_ILL_INPUT;
    }
    let p: MriProblem = ark_mem.get_mri_prb();
    ark_mem.set_mri_prb(
        MriProblem { explicit_rhs: fse.is_some(), implicit_rhs: fsi.is_some(), ..p },
    );
    if mriStep_NeedNewton(ark_mem, env, y0) != ARK_SUCCESS {
        ark_free_all(ark_mem, env);
        return ARK_MEM_FAIL;
    }
    let retval: i32 = arkInit(ark_mem, env, t0, y0, FIRST_INIT);
    if retval != ARK_SUCCESS {
        return retval;
    }
    mriStep_RenewProblem(ark_mem, fse, fsi);
    if ark_mem.get_att().ark_lmem {
        call_module(ark_mem, env, ModuleCall::LinearInitCounters);
    }
    ARK_SUCCESS
}

} // verus!
