//! Creation, initialisation, reset, resizing and release of an integrator.
use crate::arkode_checks::{
    arkCheckNvectorRequired, arkCheckTimestepper, stepper_complete, vector_complete,
};
use crate::arkode_codes::{
    ARK_ACCUMERROR_NONE, ARK_ADAPT_LIW, ARK_ADAPT_LRW, ARK_CONTROLLER_ERR, ARK_ILL_INPUT,
    ARK_INTERP_HERMITE, ARK_INTERP_MAX_DEGREE, ARK_MEM_FAIL, ARK_NO_MALLOC, ARK_STEPPER_UNSUPPORTED,
    ARK_SUCCESS, FIRST_INIT, RESET_INIT, RESIZE_INIT, SUN_SUCCESS,
};
use crate::arkode_impl::{
    zero_inner_ops, zero_mem, zero_stepper, ARKodeMemRec, ArkAccounts, ArkCounts, ArkFlags,
    ArkLimits, ArkParts, ArkStep, ArkTol, FnId, HAdaptMem, InnerOps, InnerView, MRIStepInnerStepper,
    MemView, RootMem,
};
use crate::arkode_mem::{
    put_acc, put_att, put_cnt, put_constraints, put_flg, put_hadapt, put_lim, put_root, put_stp,
    put_tol, put_ycur, put_yn,
};
use crate::arkode_step::{ark_controller, controller};
use crate::arkode_vectors::{
    alloc_vectors, arkAllocVectors, arkFreeVec, arkFreeVectors, arkResizeVectors, free_from,
    free_vec, resize_from,
};
use crate::binary64::{r_add, r_div, r_eq, r_le, r_lt, r_mul, r_sub, sunrealtype};
use crate::env::{ArkEnv, ModuleCall};
use crate::inner_stepper::{
    with_ops, MRIStepInnerStepper_SetAccumulatedErrorGetFn,
    MRIStepInnerStepper_SetAccumulatedErrorResetFn, MRIStepInnerStepper_SetContent,
    MRIStepInnerStepper_SetEvolveFn, MRIStepInnerStepper_SetFullRhsFn,
    MRIStepInnerStepper_SetRTolFn, MRIStepInnerStepper_SetResetFn,
};
use crate::mristep_init::{ark_measure, measure, mriStep_Free, mriStep_Resize, mri_free, mri_resize};
use crate::mristep_ops::{lists_stepper, mriStep_PrintMem, mriStep_Reset, mri_reset, MRIStepReport};
use crate::nvector::{copy_vector, v_scale, NVec, N_VScale, N_Vector};
use crate::outcome::{call_module, module_run, Run};
use crate::sundials_types::{FOUR, ONE, SUN_UNIT_ROUNDOFF, ZERO};
use vstd::prelude::*;

verus! {

broadcast use crate::order::group_order;

/// The step controller destroyed where the integrator owns it, and the step
/// adaptivity data released.
#[verifier::opaque]
pub open spec fn free_adapt<E: ArkEnv>(m: MemView, e: E) -> Run<E> {
    match m.hadapt() {
        None => Run { m, e, flag: ARK_SUCCESS },
        Some(a) => match a.hcontroller {
            Some(id) if a.owncontroller => {
                let m1 = put_hadapt(m, Some(HAdaptMem { hcontroller: None, ..a }));
                let r = module_run(m1, e, ModuleCall::ControllerDestroy { id });
                Run { m: put_hadapt(r.m, None), e: r.e, flag: ARK_SUCCESS }
            },
            _ => Run { m: put_hadapt(m, None), e, flag: ARK_SUCCESS },
        },
    }
}

fn ark_free_adapt<E: ArkEnv>(ark_mem: &mut ARKodeMemRec, env: &mut E)
    ensures
        final(ark_mem)@ == free_adapt(old(ark_mem)@, *old(env)).m,
        *final(env) == free_adapt(old(ark_mem)@, *old(env)).e,
{
    reveal(free_adapt);
    match ark_mem.get_hadapt() {
        None => {},
        Some(a) => {
            if a.owncontroller {
                match a.hcontroller {
                    None => {},
                    Some(id) => {
                        ark_mem.set_hadapt(Some(HAdaptMem { hcontroller: None, ..a }));
                        call_module(ark_mem, env, ModuleCall::ControllerDestroy { id });
                    },
                }
            }
            ark_mem.set_hadapt(None);
        },
    }
}

/// Interpolation, root finding and relaxation released, where they are there.
#[verifier::opaque]
pub open spec fn free_modules<E: ArkEnv>(m: MemView, e: E) -> Run<E> {
    let a = if m.att().interp {
        let r = module_run(m, e, ModuleCall::InterpFree);
        Run {
            m: put_att(r.m, ArkParts { interp: false, ..r.m.att() }),
            e: r.e,
            flag: ARK_SUCCESS,
        }
    } else {
        Run { m, e, flag: ARK_SUCCESS }
    };
    let b = if a.m.root() is Some {
        let r = module_run(a.m, a.e, ModuleCall::RootFree);
        Run { m: put_root(r.m, None), e: r.e, flag: ARK_SUCCESS }
    } else {
        a
    };
    if b.m.att().relax_mem {
        let m1 = put_att(b.m, ArkParts { relax_mem: false, ..b.m.att() });
        let r = module_run(m1, b.e, ModuleCall::RelaxFree);
        Run { m: r.m, e: r.e, flag: ARK_SUCCESS }
    } else {
        b
    }
}

fn ark_free_modules<E: ArkEnv>(ark_mem: &mut ARKodeMemRec, env: &mut E)
    ensures
        final(ark_mem)@ == free_modules(old(ark_mem)@, *old(env)).m,
        *final(env) == free_modules(old(ark_mem)@, *old(env)).e,
{
    reveal(free_modules);
    if ark_mem.get_att().interp {
        call_module(ark_mem, env, ModuleCall::InterpFree);
        let a: ArkParts = ark_mem.get_att();
        ark_mem.set_att(ArkParts { interp: false, ..a });
    }
    if ark_mem.get_root().is_some() {
        call_module(ark_mem, env, ModuleCall::RootFree);
        ark_mem.set_root(None);
    }
    if ark_mem.get_att().relax_mem {
        let a: ArkParts = ark_mem.get_att();
        ark_mem.set_att(ArkParts { relax_mem: false, ..a });
        call_module(ark_mem, env, ModuleCall::RelaxFree);
    }
}

/// Everything that an integrator holds released: time stepper, vectors, step
/// adaptivity, companion modules.
#[verifier::opaque]
pub open spec fn free_all<E: ArkEnv>(m: MemView, e: E) -> Run<E> {
    let a = if m.ops().free {
        mri_free(m, e)
    } else {
        Run { m, e, flag: ARK_SUCCESS }
    };
    let b = free_adapt(free_from(a.m, 0), a.e);
    free_modules(b.m, b.e)
}

/// Releases everything that an integrator holds.
pub fn ark_free_all<E: ArkEnv>(ark_mem: &mut ARKodeMemRec, env: &mut E)
    ensures
        final(ark_mem)@ == free_all(old(ark_mem)@, *old(env)).m,
        *final(env) == free_all(old(ark_mem)@, *old(env)).e,
{
    reveal(free_all);
    if ark_mem.get_ops().free {
        mriStep_Free(ark_mem, env);
    }
    arkFreeVectors(ark_mem);
    ark_free_adapt(ark_mem, env);
    ark_free_modules(ark_mem, env);
}

/// The environment after an integrator is released; unchanged where there is
/// none.
pub open spec fn free_handle<E: ArkEnv>(m: Option<MemView>, e: E) -> E {
    match m {
        None => e,
        Some(x) => free_all(x, e).e,
    }
}

/// Releases an integrator; nothing where there is none.
pub fn ARKodeFree<E: ArkEnv>(arkode_mem: &mut Option<ARKodeMemRec>, env: &mut E)
    ensures
        *final(arkode_mem) is None,
        *final(env) == free_handle(
            match *old(arkode_mem) {
                None => None,
                Some(m) => Some(m@),
            },
            *old(env),
        ),
{
    match arkode_mem.take() {
        None => {},
        Some(m0) => {
            let mut m: ARKodeMemRec = m0;
            ark_free_all(&mut m, env);
        },
    }
    *arkode_mem = None;
}

/// What a listing of an integrator shows.
#[derive(Debug)]
pub struct ARKodeReport {
    pub tol: ArkTol,
    pub stp: ArkStep,
    pub lim: ArkLimits,
    pub cnt: ArkCounts,
    pub acc: ArkAccounts,
    pub flg: ArkFlags,
    pub hadapt: Option<HAdaptMem>,
    pub root: Option<RootMem>,
    pub interp: bool,
    pub step: Option<MRIStepReport>,
}

/// Lists an integrator; its time stepper is listed too where it offers that.
pub fn ARKodePrintMem(ark_mem: &ARKodeMemRec) -> (r: ARKodeReport)
    ensures
        r.tol == ark_mem@.tol(),
        r.stp == ark_mem@.stp(),
        r.lim == ark_mem@.lim(),
        r.cnt == ark_mem@.cnt(),
        r.acc == ark_mem@.acc(),
        r.flg == ark_mem@.flg(),
        r.hadapt == ark_mem@.hadapt(),
        r.root == ark_mem@.root(),
        r.interp == ark_mem@.att().interp,
        r.step is Some == (ark_mem@.ops().printmem && ark_mem@.step_mem() is Some),
        r.step matches Some(l) ==> lists_stepper(l, ark_mem@),
{
    ARKodeReport {
        tol: ark_mem.get_tol(),
        stp: ark_mem.get_stp(),
        lim: ark_mem.get_lim(),
        cnt: ark_mem.get_cnt(),
        acc: ark_mem.get_acc(),
        flg: ark_mem.get_flg(),
        hadapt: ark_mem.get_hadapt(),
        root: ark_mem.get_root(),
        interp: ark_mem.get_att().interp,
        step: if ark_mem.get_ops().printmem {
            mriStep_PrintMem(ark_mem)
        } else {
            None
        },
    }
}

/// Function names of the routines that let an integrator serve as the fast
/// one.
pub const ARK_INNER_EVOLVE: FnId = 4;

pub const ARK_INNER_FULLRHS: FnId = 5;

pub const ARK_INNER_RESET: FnId = 6;

pub const ARK_INNER_GETERROR: FnId = 7;

pub const ARK_INNER_RESETERROR: FnId = 8;

pub const ARK_INNER_SETRTOL: FnId = 9;

/// An inner stepper that drives the integrator named `content`.
pub open spec fn from_arkode(content: u64) -> InnerView {
    with_ops(
        zero_stepper(),
        InnerOps {
            content: Some(content),
            evolve: Some(ARK_INNER_EVOLVE),
            fullrhs: Some(ARK_INNER_FULLRHS),
            reset: Some(ARK_INNER_RESET),
            geterror: Some(ARK_INNER_GETERROR),
            reseterror: Some(ARK_INNER_RESETERROR),
            setrtol: Some(ARK_INNER_SETRTOL),
            ..zero_inner_ops()
        },
    )
}

/// Makes an inner stepper that drives an integrator, named by `content`;
/// refused where its time stepper does not take forcing.
pub fn ARKodeCreateMRIStepInnerStepper(
    inner_arkode_mem: &ARKodeMemRec,
    content: u64,
    stepper: &mut Option<MRIStepInnerStepper>,
) -> (flag: i32)
    ensures
        !inner_arkode_mem@.ops().setforcing ==> flag == ARK_STEPPER_UNSUPPORTED && *final(stepper)
            == *old(stepper),
        inner_arkode_mem@.ops().setforcing ==> flag == ARK_SUCCESS && (*final(stepper) matches Some(
            s,
        ) && s@ == from_arkode(content)),
{
    reveal(zero_stepper);
    if !inner_arkode_mem.get_ops().setforcing {
        return ARK_STEPPER_UNSUPPORTED;
    }
    let mut s: MRIStepInnerStepper = MRIStepInnerStepper::zeroed();
    MRIStepInnerStepper_SetContent(&mut s, Some(content));
    MRIStepInnerStepper_SetEvolveFn(&mut s, Some(ARK_INNER_EVOLVE));
    MRIStepInnerStepper_SetFullRhsFn(&mut s, Some(ARK_INNER_FULLRHS));
    MRIStepInnerStepper_SetResetFn(&mut s, Some(ARK_INNER_RESET));
    MRIStepInnerStepper_SetAccumulatedErrorGetFn(&mut s, Some(ARK_INNER_GETERROR));
    MRIStepInnerStepper_SetAccumulatedErrorResetFn(&mut s, Some(ARK_INNER_RESETERROR));
    MRIStepInnerStepper_SetRTolFn(&mut s, Some(ARK_INNER_SETRTOL));
    *stepper = Some(s);
    ARK_SUCCESS
}

/// An integrator record before its step adaptivity data are there.
#[verifier::opaque]
pub open spec fn bare_mem() -> MemView {
    let m0 = zero_mem();
    let m1 = put_lim(m0, ArkLimits { uround: SUN_UNIT_ROUNDOFF(), ..m0.lim() });
    put_acc(m1, ArkAccounts { lrw: 18, liw: 53, ..m1.acc() })
}

fn bare_record() -> (r: ARKodeMemRec)
    ensures
        r@ == bare_mem(),
{
    reveal(bare_mem);
    let mut m: ARKodeMemRec = ARKodeMemRec::zeroed();
    let l: ArkLimits = m.get_lim();
    m.set_lim(ArkLimits { uround: SUN_UNIT_ROUNDOFF(), ..l });
    let a: ArkAccounts = m.get_acc();
    m.set_acc(ArkAccounts { lrw: 18, liw: 53, ..a });
    m
}

/// The record with everything that does not come from a companion module.
#[verifier::opaque]
pub open spec fn basic_settings(m: MemView) -> MemView {
    let a = m.acc();
    let m1 = put_acc(
        m,
        ArkAccounts {
            lrw: a.lrw.wrapping_add(ARK_ADAPT_LRW),
            liw: a.liw.wrapping_add(ARK_ADAPT_LIW),
            ..a
        },
    );
    let m2 = put_att(
        m1,
        ArkParts {
            interp: false,
            interp_type: ARK_INTERP_HERMITE,
            interp_degree: ARK_INTERP_MAX_DEGREE,
            ..m1.att()
        },
    );
    let m3 = put_tol(m2, ArkTol { rwt_is_ewt: true, ..m2.tol() });
    let m4 = put_flg(
        m3,
        ArkFlags {
            call_fullrhs: false,
            initsetup: true,
            init_type: FIRST_INIT,
            firststage: true,
            initialized: false,
            ..m3.flg()
        },
    );
    let m5 = put_stp(m4, ArkStep { h: ZERO(), h0u: ZERO(), ..m4.stp() });
    let m6 = put_lim(
        m5,
        ArkLimits { AccumErrorType: ARK_ACCUMERROR_NONE, ensure_ycur: false, ..m5.lim() },
    );
    put_cnt(m6, ArkCounts { AccumError: ZERO(), ..m6.cnt() })
}

fn ark_basic_settings(m: &mut ARKodeMemRec)
    ensures
        final(m)@ == basic_settings(old(m)@),
{
    reveal(basic_settings);
    let a: ArkAccounts = m.get_acc();
    m.set_acc(
        ArkAccounts {
            lrw: a.lrw.wrapping_add(ARK_ADAPT_LRW),
            liw: a.liw.wrapping_add(ARK_ADAPT_LIW),
            ..a
        },
    );
    let t: ArkParts = m.get_att();
    m.set_att(
        ArkParts {
            interp: false,
            interp_type: ARK_INTERP_HERMITE,
            interp_degree: ARK_INTERP_MAX_DEGREE,
            ..t
        },
    );
    let t: ArkTol = m.get_tol();
    m.set_tol(ArkTol { rwt_is_ewt: true, ..t });
    let g: ArkFlags = m.get_flg();
    m.set_flg(
        ArkFlags {
            call_fullrhs: false,
            initsetup: true,
            init_type: FIRST_INIT,
            firststage: true,
            initialized: false,
            ..g
        },
    );
    let s: ArkStep = m.get_stp();
    m.set_stp(ArkStep { h: ZERO(), h0u: ZERO(), ..s });
    let l: ArkLimits = m.get_lim();
    m.set_lim(ArkLimits { AccumErrorType: ARK_ACCUMERROR_NONE, ensure_ycur: false, ..l });
    let c: ArkCounts = m.get_cnt();
    m.set_cnt(ArkCounts { AccumError: ZERO(), ..c });
}

/// Outcome of a creation.
pub struct CreateOut<E> {
    pub m: Option<MemView>,
    pub e: E,
}

/// A new integrator without a time stepper; none where the step adaptivity
/// data or the defaults cannot be had, and then everything is released again.
#[verifier::opaque]
pub open spec fn create<E: ArkEnv>(e: E) -> CreateOut<E> {
    let a = module_run(bare_mem(), e, ModuleCall::AdaptInit);
    let d = module_run(basic_settings(a.m), a.e, ModuleCall::SetDefaults);
    if a.m.hadapt() is None {
        CreateOut { m: None, e: free_all(a.m, a.e).e }
    } else if d.flag != ARK_SUCCESS {
        CreateOut { m: None, e: free_all(d.m, d.e).e }
    } else {
        CreateOut {
            m: Some(
                put_flg(
                    d.m,
                    ArkFlags { load_checkpoint_fail: false, do_adjoint: false, ..d.m.flg() },
                ),
            ),
            e: d.e,
        }
    }
}

/// Makes an integrator without a time stepper.
pub fn arkCreate<E: ArkEnv>(env: &mut E) -> (r: Option<ARKodeMemRec>)
    ensures
        *final(env) == create(*old(env)).e,
        match r {
            None => create(*old(env)).m is None,
            Some(x) => create(*old(env)).m == Some(x@),
        },
{
    reveal(create);
    let mut m: ARKodeMemRec = bare_record();
    call_module(&mut m, env, ModuleCall::AdaptInit);
    if m.get_hadapt().is_none() {
        ark_free_all(&mut m, env);
        return None;
    }
    ark_basic_settings(&mut m);
    let iret: i32 = call_module(&mut m, env, ModuleCall::SetDefaults);
    if iret != ARK_SUCCESS {
        ark_free_all(&mut m, env);
        return None;
    }
    let g: ArkFlags = m.get_flg();
    m.set_flg(ArkFlags { load_checkpoint_fail: false, do_adjoint: false, ..g });
    Some(m)
}

/// The vectors of a first initialisation: the time stepper and the template
/// have to be complete.
#[verifier::opaque]
pub open spec fn init_alloc(m: MemView, y0: NVec) -> (MemView, i32) {
    let d = measure(m, y0);
    let v = alloc_vectors(d.0, y0);
    if m.flg().MallocDone {
        (m, ARK_SUCCESS)
    } else if !stepper_complete(m) || !vector_complete(y0.ops()) {
        (m, ARK_ILL_INPUT)
    } else if !v.1 {
        (v.0, ARK_MEM_FAIL)
    } else {
        (put_flg(v.0, ArkFlags { MallocDone: true, ..v.0.flg() }), ARK_SUCCESS)
    }
}

fn ark_init_alloc(ark_mem: &mut ARKodeMemRec, y0: &N_Vector) -> (flag: i32)
    ensures
        final(ark_mem)@ == init_alloc(old(ark_mem)@, y0@).0,
        flag == init_alloc(old(ark_mem)@, y0@).1,
{
    reveal(init_alloc);
    if ark_mem.get_flg().MallocDone {
        return ARK_SUCCESS;
    }
    if !arkCheckTimestepper(ark_mem) {
        return ARK_ILL_INPUT;
    }
    if !arkCheckNvectorRequired(y0) {
        return ARK_ILL_INPUT;
    }
    ark_measure(ark_mem, y0);
    if !arkAllocVectors(ark_mem, y0) {
        return ARK_MEM_FAIL;
    }
    let g: ArkFlags = ark_mem.get_flg();
    ark_mem.set_flg(ArkFlags { MallocDone: true, ..g });
    ARK_SUCCESS
}

/// The state of the problem set to `y0` at `t0`, without a stop time.
#[verifier::opaque]
pub open spec fn init_state(m: MemView, t0: sunrealtype, y0: NVec) -> MemView {
    let m1 = put_stp(m, ArkStep { tcur: t0, tn: t0, tstopset: false, ..m.stp() });
    let m2 = put_yn(m1, v_scale(ONE(), y0, m1.yn()));
    put_flg(m2, ArkFlags { fn_is_current: false, ..m2.flg() })
}

fn ark_init_state(ark_mem: &mut ARKodeMemRec, t0: sunrealtype, y0: &N_Vector)
    ensures
        final(ark_mem)@ == init_state(old(ark_mem)@, t0, y0@),
{
    reveal(init_state);
    let s: ArkStep = ark_mem.get_stp();
    ark_mem.set_stp(ArkStep { tcur: t0, tn: t0, tstopset: false, ..s });
    let y: N_Vector = N_VScale(ONE(), y0, &ark_mem.get_yn());
    ark_mem.set_yn(y);
    let g: ArkFlags = ark_mem.get_flg();
    ark_mem.set_flg(ArkFlags { fn_is_current: false, ..g });
}

/// Counters and step sizes at the start of a new problem.
#[verifier::opaque]
pub open spec fn init_counters(m: MemView) -> MemView {
    let m1 = put_cnt(
        m,
        ArkCounts {
            nst_attempts: 0,
            nst: 0,
            nhnil: 0,
            ncfn: 0,
            netf: 0,
            nconstrfails: 0,
            ..m.cnt()
        },
    );
    let m2 = put_stp(m1, ArkStep { h0u: ZERO(), hold: ZERO(), next_h: ZERO(), ..m1.stp() });
    put_tol(m2, ArkTol { tolsf: ONE(), ..m2.tol() })
}

fn ark_init_counters(ark_mem: &mut ARKodeMemRec)
    ensures
        final(ark_mem)@ == init_counters(old(ark_mem)@),
{
    reveal(init_counters);
    let c: ArkCounts = ark_mem.get_cnt();
    ark_mem.set_cnt(
        ArkCounts {
            nst_attempts: 0,
            nst: 0,
            nhnil: 0,
            ncfn: 0,
            netf: 0,
            nconstrfails: 0,
            ..c
        },
    );
    let s: ArkStep = ark_mem.get_stp();
    ark_mem.set_stp(ArkStep { h0u: ZERO(), hold: ZERO(), next_h: ZERO(), ..s });
    let t: ArkTol = ark_mem.get_tol();
    ark_mem.set_tol(ArkTol { tolsf: ONE(), ..t });
}

/// The rest of what a new problem starts with: adaptivity counters,
/// accumulated error, flags.
#[verifier::opaque]
pub open spec fn init_rest(m: MemView) -> MemView {
    let m1 = match m.hadapt() {
        None => m,
        Some(a) => put_hadapt(m, Some(HAdaptMem { nst_acc: 0, nst_exp: 0, ..a })),
    };
    let m2 = put_cnt(
        m1,
        ArkCounts { AccumError: ZERO(), checkpoint_step_idx: 0, ..m1.cnt() },
    );
    put_flg(m2, ArkFlags { call_fullrhs: false, initialized: false, ..m2.flg() })
}

fn ark_init_rest(ark_mem: &mut ARKodeMemRec)
    ensures
        final(ark_mem)@ == init_rest(old(ark_mem)@),
{
    reveal(init_rest);
    match ark_mem.get_hadapt() {
        None => {},
        Some(a) => {
            ark_mem.set_hadapt(Some(HAdaptMem { nst_acc: 0, nst_exp: 0, ..a }));
        },
    }
    let c: ArkCounts = ark_mem.get_cnt();
    ark_mem.set_cnt(ArkCounts { AccumError: ZERO(), checkpoint_step_idx: 0, ..c });
    let g: ArkFlags = ark_mem.get_flg();
    ark_mem.set_flg(ArkFlags { call_fullrhs: false, initialized: false, ..g });
}

/// Everything that a new problem starts with; the step controller is reset.
#[verifier::opaque]
pub open spec fn init_fresh<E: ArkEnv>(m: MemView, e: E) -> Run<E> {
    let m1 = init_counters(m);
    let a = match controller(m1) {
        None => Run { m: m1, e, flag: SUN_SUCCESS },
        Some(id) => module_run(m1, e, ModuleCall::ControllerReset { id }),
    };
    if a.flag != SUN_SUCCESS {
        Run { m: a.m, e: a.e, flag: ARK_CONTROLLER_ERR }
    } else {
        Run { m: init_rest(a.m), e: a.e, flag: ARK_SUCCESS }
    }
}

fn ark_init_fresh<E: ArkEnv>(ark_mem: &mut ARKodeMemRec, env: &mut E) -> (flag: i32)
    ensures
        final(ark_mem)@ == init_fresh(old(ark_mem)@, *old(env)).m,
        *final(env) == init_fresh(old(ark_mem)@, *old(env)).e,
        flag == init_fresh(old(ark_mem)@, *old(env)).flag,
{
    reveal(init_fresh);
    ark_init_counters(ark_mem);
    match ark_controller(ark_mem) {
        None => {},
        Some(id) => {
            let retval: i32 = call_module(ark_mem, env, ModuleCall::ControllerReset { id });
            if retval != SUN_SUCCESS {
                return ARK_CONTROLLER_ERR;
            }
        },
    }
    ark_init_rest(ark_mem);
    ARK_SUCCESS
}

/// The flags that ask for an initialisation of the given type.
#[verifier::opaque]
pub open spec fn ask_init(m: MemView, init_type: i32) -> MemView {
    put_flg(m, ArkFlags { initsetup: true, init_type, firststage: true, ..m.flg() })
}

fn ark_ask_init(ark_mem: &mut ARKodeMemRec, init_type: i32)
    ensures
        final(ark_mem)@ == ask_init(old(ark_mem)@, init_type),
{
    reveal(ask_init);
    let g: ArkFlags = ark_mem.get_flg();
    ark_mem.set_flg(ArkFlags { initsetup: true, init_type, firststage: true, ..g });
}

/// The initialisation that takes place: a reset before the first evolution is
/// a first initialisation.
pub open spec fn real_init_type(m: MemView, init_type: i32) -> i32 {
    if init_type == RESET_INIT && !m.flg().initialized {
        FIRST_INIT
    } else {
        init_type
    }
}

/// An integrator initialised with a state. Counters start from zero on a first
/// initialisation and are kept on a reset.
#[verifier::opaque]
pub open spec fn init<E: ArkEnv>(m: MemView, e: E, t0: sunrealtype, y0: NVec, init_type: i32) -> Run<E> {
    let m0 = put_ycur(m, y0);
    let kind = real_init_type(m0, init_type);
    let a = init_alloc(m0, y0);
    let m1 = init_state(a.0, t0, y0);
    let b = if kind == FIRST_INIT {
        init_fresh(m1, e)
    } else {
        Run { m: m1, e, flag: ARK_SUCCESS }
    };
    if a.1 != ARK_SUCCESS {
        Run { m: a.0, e, flag: a.1 }
    } else if b.flag != ARK_SUCCESS {
        b
    } else {
        Run { m: ask_init(b.m, kind), e: b.e, flag: ARK_SUCCESS }
    }
}

/// Initialises an integrator with a state.
pub fn arkInit<E: ArkEnv>(
    ark_mem: &mut ARKodeMemRec,
    env: &mut E,
    t0: sunrealtype,
    y0: &N_Vector,
    init_type: i32,
) -> (flag: i32)
    ensures
        final(ark_mem)@ == init(old(ark_mem)@, *old(env), t0, y0@, init_type).m,
        *final(env) == init(old(ark_mem)@, *old(env), t0, y0@, init_type).e,
        flag == init(old(ark_mem)@, *old(env), t0, y0@, init_type).flag,
{
    reveal(init);
    ark_mem.set_ycur(copy_vector(y0));
    let kind: i32 = if init_type == RESET_INIT && !ark_mem.get_flg().initialized {
        FIRST_INIT
    } else {
        init_type
    };
    let retval: i32 = ark_init_alloc(ark_mem, y0);
    if retval != ARK_SUCCESS {
        return retval;
    }
    ark_init_state(ark_mem, t0, y0);
    if kind == FIRST_INIT {
        let retval: i32 = ark_init_fresh(ark_mem, env);
        if retval != ARK_SUCCESS {
            return retval;
        }
    }
    ark_ask_init(ark_mem, kind);
    ARK_SUCCESS
}

/// An integrator reset to a state; counters are kept once it has evolved.
#[verifier::opaque]
pub open spec fn reset<E: ArkEnv>(m: MemView, e: E, t: sunrealtype, y: NVec) -> Run<E> {
    let a = init(m, e, t, y, RESET_INIT);
    if a.flag != ARK_SUCCESS || !a.m.ops().reset {
        a
    } else {
        mri_reset(a.m, a.e, t, y)
    }
}

/// Resets an integrator to a state.
pub fn ARKodeReset<E: ArkEnv>(
    ark_mem: &mut ARKodeMemRec,
    env: &mut E,
    tR: sunrealtype,
    yR: &N_Vector,
) -> (flag: i32)
    ensures
        final(ark_mem)@ == reset(old(ark_mem)@, *old(env), tR, yR@).m,
        *final(env) == reset(old(ark_mem)@, *old(env), tR, yR@).e,
        flag == reset(old(ark_mem)@, *old(env), tR, yR@).flag,
{
    reveal(reset);
    let retval: i32 = arkInit(ark_mem, env, tR, yR, RESET_INIT);
    if retval != ARK_SUCCESS || !ark_mem.get_ops().reset {
        return retval;
    }
    mriStep_Reset(ark_mem, env, tR, yR)
}

/// The upcoming step rescaled; it is kept from overtaking the stop time.
#[verifier::opaque]
pub open spec fn rescale(s: ArkStep, hscale: sunrealtype, uround: sunrealtype) -> ArkStep {
    if r_eq(hscale, ONE()) {
        s
    } else {
        let hprime = r_mul(s.hprime, hscale);
        if s.tstopset && r_lt(ZERO(), r_mul(r_sub(r_add(s.tcur, hprime), s.tstop), hprime)) {
            let h = r_mul(r_sub(s.tstop, s.tcur), r_sub(ONE(), r_mul(FOUR(), uround)));
            ArkStep { hprime: h, eta: r_div(h, s.h), ..s }
        } else {
            ArkStep { hprime, eta: hscale, ..s }
        }
    }
}

fn rescaled(s: ArkStep, hscale: sunrealtype, uround: sunrealtype) -> (r: ArkStep)
    ensures
        r == rescale(s, hscale, uround),
{
    reveal(rescale);
    if hscale == ONE() {
        return s;
    }
    let hprime: sunrealtype = s.hprime * hscale;
    if s.tstopset && (s.tcur + hprime - s.tstop) * hprime > ZERO() {
        let h: sunrealtype = (s.tstop - s.tcur) * (ONE() - FOUR() * uround);
        ArkStep { hprime: h, eta: h / s.h, ..s }
    } else {
        ArkStep { hprime, eta: hscale, ..s }
    }
}

/// The factor that a rescaling uses: one for factors that are not positive.
pub open spec fn real_hscale(hscale: sunrealtype) -> sunrealtype {
    if r_le(hscale, ZERO()) {
        ONE()
    } else {
        hscale
    }
}

fn used_hscale(hscale: sunrealtype) -> (r: sunrealtype)
    ensures
        r == real_hscale(hscale),
{
    if hscale <= ZERO() {
        ONE()
    } else {
        hscale
    }
}

/// The state at `t0` and the rescaled step.
#[verifier::opaque]
pub open spec fn resize_state(m: MemView, y0: NVec, hscale: sunrealtype, t0: sunrealtype) -> MemView {
    let m1 = put_ycur(m, y0);
    let s = ArkStep { tcur: t0, tn: t0, ..m1.stp() };
    put_stp(m1, rescale(s, real_hscale(hscale), m1.lim().uround))
}

fn ark_resize_state(ark_mem: &mut ARKodeMemRec, y0: &N_Vector, hscale: sunrealtype, t0: sunrealtype)
    ensures
        final(ark_mem)@ == resize_state(old(ark_mem)@, y0@, hscale, t0),
{
    reveal(resize_state);
    ark_mem.set_ycur(copy_vector(y0));
    let s: ArkStep = ark_mem.get_stp();
    let u: sunrealtype = ark_mem.get_lim().uround;
    ark_mem.set_stp(rescaled(ArkStep { tcur: t0, tn: t0, ..s }, used_hscale(hscale), u));
}

/// Vectors and interpolation fitted to vectors like `y0`; constraints are
/// dropped.
#[verifier::opaque]
pub open spec fn resize_vectors<E: ArkEnv>(m: MemView, e: E, y0: NVec, resize: Option<FnId>) -> Run<E> {
    let d = measure(m, y0);
    let c = free_vec(d.0, d.0.constraints());
    let v = resize_from(put_constraints(c.0, c.1), e, resize, d.1, d.2, y0, 0);
    if !v.2 {
        Run { m: v.0, e: v.1, flag: ARK_MEM_FAIL }
    } else if v.0.att().interp {
        module_run(
            v.0,
            v.1,
            ModuleCall::InterpResize { resize, lrw_diff: d.1, liw_diff: d.2 },
        )
    } else {
        Run { m: v.0, e: v.1, flag: ARK_SUCCESS }
    }
}

fn ark_resize_vectors<E: ArkEnv>(
    ark_mem: &mut ARKodeMemRec,
    env: &mut E,
    y0: &N_Vector,
    resize: Option<FnId>,
) -> (flag: i32)
    ensures
        final(ark_mem)@ == resize_vectors(old(ark_mem)@, *old(env), y0@, resize).m,
        *final(env) == resize_vectors(old(ark_mem)@, *old(env), y0@, resize).e,
        flag == resize_vectors(old(ark_mem)@, *old(env), y0@, resize).flag,
{
    reveal(resize_vectors);
    let d: (i64, i64) = ark_measure(ark_mem, y0);
    let mut c: N_Vector = ark_mem.get_constraints();
    arkFreeVec(ark_mem, &mut c);
    ark_mem.set_constraints(c);
    if !arkResizeVectors(ark_mem, env, resize, d.0, d.1, y0) {
        return ARK_MEM_FAIL;
    }
    if ark_mem.get_att().interp {
        return call_module(
            ark_mem,
            env,
            ModuleCall::InterpResize { resize, lrw_diff: d.0, liw_diff: d.1 },
        );
    }
    ARK_SUCCESS
}

/// The new state stored and an initialisation asked for.
#[verifier::opaque]
pub open spec fn resize_finish(m: MemView, y0: NVec) -> MemView {
    let m1 = put_yn(m, v_scale(ONE(), y0, m.yn()));
    ask_init(put_flg(m1, ArkFlags { fn_is_current: false, ..m1.flg() }), RESIZE_INIT)
}

fn ark_resize_finish(ark_mem: &mut ARKodeMemRec, y0: &N_Vector)
    ensures
        final(ark_mem)@ == resize_finish(old(ark_mem)@, y0@),
{
    reveal(resize_finish);
    let y: N_Vector = N_VScale(ONE(), y0, &ark_mem.get_yn());
    ark_mem.set_yn(y);
    let g: ArkFlags = ark_mem.get_flg();
    ark_mem.set_flg(ArkFlags { fn_is_current: false, ..g });
    ark_ask_init(ark_mem, RESIZE_INIT);
}

/// An integrator fitted to a problem of another size, with state `y0` at `t0`;
/// the upcoming step is scaled by `hscale`, by one where it is not positive.
#[verifier::opaque]
pub open spec fn resize_all<E: ArkEnv>(
    m: MemView,
    e: E,
    y0: NVec,
    hscale: sunrealtype,
    t0: sunrealtype,
    resize: Option<FnId>,
) -> Run<E> {
    let a = resize_vectors(resize_state(m, y0, hscale, t0), e, y0, resize);
    let m1 = resize_finish(a.m, y0);
    if !m.flg().MallocDone {
        Run { m, e, flag: ARK_NO_MALLOC }
    } else if a.flag != ARK_SUCCESS {
        a
    } else if m1.ops().resize {
        mri_resize(m1, a.e, y0, resize)
    } else {
        Run { m: m1, e: a.e, flag: ARK_SUCCESS }
    }
}

/// Fits an integrator to a problem of another size.
pub fn ARKodeResize<E: ArkEnv>(
    ark_mem: &mut ARKodeMemRec,
    env: &mut E,
    y0: &N_Vector,
    hscale: sunrealtype,
    t0: sunrealtype,
    resize: Option<FnId>,
) -> (flag: i32)
    ensures
        final(ark_mem)@ == resize_all(old(ark_mem)@, *old(env), y0@, hscale, t0, resize).m,
        *final(env) == resize_all(old(ark_mem)@, *old(env), y0@, hscale, t0, resize).e,
        flag == resize_all(old(ark_mem)@, *old(env), y0@, hscale, t0, resize).flag,
{
    reveal(resize_all);
    if !ark_mem.get_flg().MallocDone {
        return ARK_NO_MALLOC;
    }
    ark_resize_state(ark_mem, y0, hscale, t0);
    let retval: i32 = ark_resize_vectors(ark_mem, env, y0, resize);
    if retval != ARK_SUCCESS {
        return retval;
    }
    ark_resize_finish(ark_mem, y0);
    if ark_mem.get_ops().resize {
        return mriStep_Resize(ark_mem, env, y0, used_hscale(hscale), t0, resize);
    }
    ARK_SUCCESS
}

} // verus!
