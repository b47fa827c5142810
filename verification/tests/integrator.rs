use arkode::arkode_checks::arkHandleFailure;
use arkode::arkode_codes::{
    ARK_BAD_T, ARK_ERR_FAILURE, ARK_ILL_INPUT, ARK_INTERP_NONE, ARK_INVALID_TABLE, ARK_MEM_FAIL, ARK_MEM_NULL,
    ARK_NORMAL, ARK_NO_MALLOC, ARK_ONE_STEP, ARK_STEPPER_UNSUPPORTED, ARK_SUCCESS, ARK_TOO_CLOSE,
    ARK_TOO_MUCH_WORK, ARK_TSTOP_RETURN, ARK_UNRECOGNIZED_ERROR, RESIZE_INIT,
    TRY_AGAIN,
};
use arkode::arkode_core::{
    arkCreate, ark_free_all, ARKodeCreateMRIStepInnerStepper, ARKodeFree, ARKodePrintMem, ARKodeReset,
    ARKodeResize, ARK_INNER_EVOLVE,
};
use arkode::arkode_evolve::ARKodeEvolve;
use arkode::arkode_impl::{no_hadapt, ARKodeMemRec, HAdaptMem, MRIStepInnerStepper};
use arkode::arkode_inner::{
    ark_MRIStepInnerEvolve, ark_MRIStepInnerFullRhs, ark_MRIStepInnerGetAccumulatedError,
    ark_MRIStepInnerReset, ark_MRIStepInnerResetAccumulatedError, ark_MRIStepInnerSetRTol,
};
use arkode::arkode_predict::ARKodeGetDky;
use arkode::arkode_setup::arkInitialSetup;
use arkode::arkode_stop::arkStopTests;
use arkode::arkode_tol::{ARKodeSStolerances, ARKodeSVtolerances, ARKodeWFtolerances};
use arkode::binary64::sunrealtype;
use arkode::coupling::{MRIStepCoupling, MRISTEP_METHOD_TYPE};
use arkode::inner_stepper::{
    MRIStepInnerStepper_Create, MRIStepInnerStepper_SetContent, MRIStepInnerStepper_SetEvolveFn,
};
use arkode::linear_env::LinearEnv;
use arkode::mristep_create::{MRIStepCreate, MRIStepReInit};
use arkode::mristep_gark::mriStep_TakeStepMRIGARK;
use arkode::mristep_merk::mriStep_TakeStepMERK;
use arkode::mristep_ops::mriStep_SetInnerForcing;
use arkode::mristep_sr::mriStep_TakeStepMRISR;
use arkode::mristep_table::mriStep_CheckCoupling;
use arkode::nvector::{make_vector, N_Vector};

fn r(x: f64) -> sunrealtype {
    sunrealtype { bits: x.to_bits() }
}

fn f(x: sunrealtype) -> f64 {
    f64::from_bits(x.bits)
}

fn vector(x: &[f64]) -> N_Vector {
    make_vector(x.iter().map(|v| r(*v)).collect())
}

fn values(v: &N_Vector) -> Vec<f64> {
    v.data.iter().map(|x| f(*x)).collect()
}

fn linear() -> LinearEnv {
    LinearEnv {
        rates: vec![r(3.0), r(-2.0)],
        user_flag: 0,
        flow: r(0.5),
        flow_flag: 0,
        error: r(0.0),
        hadapt: Some(no_hadapt()),
        defaults_flag: 0,
        newton_flag: 0,
        controller_flag: 0,
        mass_flag: 0,
        free_flag: 0,
        solver_size: 0,
    }
}

fn fast() -> MRIStepInnerStepper {
    let mut s: Option<MRIStepInnerStepper> = None;
    assert_eq!(MRIStepInnerStepper_Create(&mut s), ARK_SUCCESS);
    let mut s = s.expect("a stepper");
    assert_eq!(MRIStepInnerStepper_SetEvolveFn(&mut s, Some(1)), ARK_SUCCESS);
    s
}

/// One slow stage over the whole step.
fn euler() -> MRIStepCoupling {
    MRIStepCoupling {
        type_: MRISTEP_METHOD_TYPE::MRISTEP_EXPLICIT,
        nmat: 1,
        stages: 2,
        q: 1,
        p: 0,
        c: vec![r(0.0), r(1.0)],
        W: vec![vec![
            vec![r(0.0), r(0.0)],
            vec![r(1.0), r(0.0)],
            vec![r(0.0), r(0.0)],
        ]],
        G: vec![],
        ngroup: 0,
        group: vec![],
    }
}

fn integrator(env: &mut LinearEnv, y0: &[f64]) -> ARKodeMemRec {
    let mut m = MRIStepCreate(env, Some(0), None, r(0.0), &vector(y0), fast()).expect("created");
    m.step_mem.as_mut().expect("stepper memory").MRIC = Some(euler());
    m.lim.fixedstep = true;
    m.stp.hin = r(0.25);
    m.att.interp_type = ARK_INTERP_NONE;
    assert_eq!(ARKodeSStolerances(&mut m, r(1e-4), r(1e-9)), ARK_SUCCESS);
    m
}

#[test]
fn creation_fails_without_step_adaptivity() {
    let mut env = linear();
    env.hadapt = None;
    assert!(arkCreate(&mut env).is_none());
    let mut env = linear();
    env.defaults_flag = -1;
    assert!(arkCreate(&mut env).is_none());
}

#[test]
fn creation_needs_a_right_hand_side_and_a_fast_integrator() {
    let mut env = linear();
    let y = vector(&[1.0]);
    assert!(MRIStepCreate(&mut env, None, None, r(0.0), &y, fast()).is_none());
    let mut s: Option<MRIStepInnerStepper> = None;
    MRIStepInnerStepper_Create(&mut s);
    assert!(MRIStepCreate(&mut env, Some(0), None, r(0.0), &y, s.expect("a stepper")).is_none());
    env.newton_flag = -1;
    assert!(MRIStepCreate(&mut env, None, Some(0), r(0.0), &y, fast()).is_none());
}

#[test]
fn created_integrator_accounts_for_its_work_space() {
    let mut env = linear();
    let m = MRIStepCreate(&mut env, Some(0), None, r(2.0), &vector(&[1.0, 2.0]), fast())
        .expect("created");
    assert!(m.flg.MallocDone);
    assert!(m.flg.initsetup);
    assert_eq!(f(m.stp.tcur), 2.0);
    assert_eq!(f(m.stp.tn), 2.0);
    assert_eq!(values(&m.yn), vec![1.0, 2.0]);
    assert_eq!(m.cnt.nst, 0);
    assert!(m.ops.setforcing);
    assert!(m.ops.fullrhs);
    assert!(!m.ops.H0);
    assert_eq!(m.acc.lrw1, 2);
    assert_eq!(m.acc.liw1, 1);
    let s = m.step_mem.as_ref().expect("stepper memory");
    assert_eq!(s.mth.nfusedopvecs, 3);
    assert!(s.prb.explicit_rhs);
    assert!(!s.prb.implicit_rhs);
    assert_eq!(f(s.nls.eRNrm), 1.0);
}

#[test]
fn freeing_leaves_no_integrator() {
    let mut env = linear();
    let mut m = Some(integrator(&mut env, &[1.0]));
    ARKodeFree(&mut m, &mut env);
    assert!(m.is_none());
    ARKodeFree(&mut m, &mut env);
    assert!(m.is_none());
}

#[test]
fn releasing_leaves_nothing_attached() {
    let mut env = linear();
    let mut m = integrator(&mut env, &[1.0]);
    m.att.interp = true;
    m.att.relax_mem = true;
    m.hadapt = Some(HAdaptMem { hcontroller: Some(4), owncontroller: true, ..no_hadapt() });
    ark_free_all(&mut m, &mut env);
    assert!(m.hadapt.is_none());
    assert!(m.root.is_none());
    assert!(!m.att.interp);
    assert!(!m.att.relax_mem);
    assert!(m.step_mem.is_none());
    assert!(!m.yn.live);
}

/// An exponential method: the group of the embedding, then that of the
/// solution.
fn exponential() -> MRIStepCoupling {
    MRIStepCoupling {
        type_: MRISTEP_METHOD_TYPE::MRISTEP_MERK,
        ngroup: 2,
        group: vec![vec![2, -1, -1], vec![1, -1, -1]],
        ..euler()
    }
}

/// A stage-restart method.
fn stage_restart() -> MRIStepCoupling {
    MRIStepCoupling {
        type_: MRISTEP_METHOD_TYPE::MRISTEP_SR,
        G: vec![vec![vec![r(0.0), r(0.0)]; 3]],
        ..euler()
    }
}

/// An integrator with the given table whose solution of a step, unlike the
/// embedded one, is tripled at its end.
fn with_estimate(env: &mut LinearEnv, t: MRIStepCoupling) -> ARKodeMemRec {
    let mut m = integrator(env, &[16.0, -4.0]);
    m.step_mem.as_mut().expect("stepper memory").MRIC = Some(t);
    let mut y = vector(&[0.0, 0.0]);
    let mut t = r(0.0);
    let flag = ARKodeEvolve(&mut m, env, r(0.25), &mut y, &mut t, ARK_ONE_STEP);
    assert_eq!(flag, ARK_SUCCESS);
    assert_eq!(values(&y), vec![8.0, -2.0]);
    m.lim.fixedstep = false;
    m.att.PostProcessStepFn = Some(0);
    m.ewt = vector(&[1.0, 1.0]);
    m
}

#[test]
fn error_estimate_is_the_solution_less_the_embedding() {
    let wrms = ((8.0 * 8.0 + 2.0 * 2.0) / 2.0f64).sqrt();
    let mut env = linear();
    let (mut dsm, mut nflag) = (r(9.0), 7);
    let mut m = with_estimate(&mut env, euler());
    let flag = mriStep_TakeStepMRIGARK(&mut m, &mut env, &mut dsm, &mut nflag);
    assert_eq!((flag, nflag), (ARK_SUCCESS, 0));
    assert_eq!(values(&m.ycur), vec![12.0, -3.0]);
    assert_eq!(values(&m.tempv4), vec![4.0, -1.0]);
    assert_eq!(values(&m.tempv1), vec![8.0, -2.0]);
    assert_eq!(f(dsm), wrms);

    let mut m = with_estimate(&mut env, exponential());
    let flag = mriStep_TakeStepMERK(&mut m, &mut env, &mut dsm, &mut nflag);
    assert_eq!((flag, nflag), (ARK_SUCCESS, 0));
    assert_eq!(values(&m.ycur), vec![12.0, -3.0]);
    assert_eq!(values(&m.tempv4), vec![4.0, -1.0]);
    assert_eq!(values(&m.tempv1), vec![8.0, -2.0]);
    assert_eq!(f(dsm), wrms);

    let mut m = with_estimate(&mut env, stage_restart());
    let flag = mriStep_TakeStepMRISR(&mut m, &mut env, &mut dsm, &mut nflag);
    assert_eq!((flag, nflag), (ARK_SUCCESS, 0));
    assert_eq!(values(&m.ycur), vec![12.0, -3.0]);
    assert_eq!(values(&m.tempv1), vec![8.0, -2.0]);
    assert_eq!(f(dsm), wrms);
}

#[test]
fn step_at_the_smallest_size_can_be_forced_to_pass() {
    let mut env = linear();
    let mut m = with_estimate(&mut env, euler());
    ARKodeSStolerances(&mut m, r(1e-4), r(1e-9));
    m.lim.maxnef = 3;
    m.lim.hmin = r(0.25);
    m.lim.force_pass = true;
    let mut y = vector(&[0.0, 0.0]);
    let mut t = r(7.0);
    let flag = ARKodeEvolve(&mut m, &mut env, r(9.0), &mut y, &mut t, ARK_ONE_STEP);
    assert_eq!((flag, f(t)), (ARK_SUCCESS, 0.5));
    assert_eq!((m.cnt.netf, m.flg.last_kflag), (1, TRY_AGAIN));
    assert_eq!(values(&y), vec![12.0, -3.0]);
    assert_eq!(values(&m.yn), vec![12.0, -3.0]);
    assert_eq!(f(m.stp.eta), 1.0);

    // Without that the integration ends, and no time is returned.
    let mut m = with_estimate(&mut env, euler());
    ARKodeSStolerances(&mut m, r(1e-4), r(1e-9));
    m.lim.maxnef = 3;
    m.lim.hmin = r(0.25);
    let mut t = r(7.0);
    let flag = ARKodeEvolve(&mut m, &mut env, r(9.0), &mut y, &mut t, ARK_ONE_STEP);
    assert_eq!((flag, f(t)), (ARK_ERR_FAILURE, 7.0));
    assert_eq!((m.cnt.netf, m.flg.last_kflag), (1, 0));
    assert_eq!(values(&m.yn), vec![8.0, -2.0]);

    // The last attempt allowed is final also where the step is forced.
    let mut m = with_estimate(&mut env, euler());
    ARKodeSStolerances(&mut m, r(1e-4), r(1e-9));
    m.lim.maxnef = 1;
    m.lim.force_pass = true;
    let flag = ARKodeEvolve(&mut m, &mut env, r(9.0), &mut y, &mut t, ARK_ONE_STEP);
    assert_eq!((flag, f(t)), (ARK_ERR_FAILURE, 0.5));
}

#[test]
fn default_solver_is_made_for_the_given_vector() {
    let mut env = linear();
    let y0 = vector(&[16.0, 1.0]);
    let mut m = MRIStepCreate(&mut env, None, Some(1), r(0.0), &y0, fast()).expect("created");
    assert_eq!(env.solver_size, 2);
    let flag = MRIStepReInit(&mut m, &mut env, None, Some(1), r(0.0), &vector(&[8.0]));
    assert_eq!((flag, env.solver_size), (ARK_SUCCESS, 1));
    let y2 = vector(&[1.0, 2.0, 3.0]);
    m.step_mem.as_mut().expect("stepper memory").nls.attached = true;
    let flag = ARKodeResize(&mut m, &mut env, &y2, r(1.0), r(0.0), None);
    assert_eq!((flag, env.solver_size), (ARK_SUCCESS, 3));
    assert!(m.step_mem.as_ref().expect("stepper memory").nls.ownNLS);

    // One that cannot be released is gone all the same.
    m.step_mem.as_mut().expect("stepper memory").nls.attached = true;
    env.free_flag = -5;
    env.solver_size = 0;
    let flag = ARKodeResize(&mut m, &mut env, &y2, r(1.0), r(0.0), None);
    assert_eq!((flag, env.solver_size), (-5, 0));
    let s = m.step_mem.as_ref().expect("stepper memory");
    assert!(!s.nls.attached);
    assert!(s.nls.ownNLS);
}

#[test]
fn stop_tests_write_the_buffer_alone() {
    let mut env = linear();
    let mut m = integrator(&mut env, &[16.0]);
    let mut y = vector(&[0.0]);
    let mut t = r(0.0);
    ARKodeEvolve(&mut m, &mut env, r(0.5), &mut y, &mut t, ARK_NORMAL);
    m.ycur = vector(&[99.0]);
    let mut out = vector(&[5.0]);
    let mut ier = 0;
    let stop = arkStopTests(&mut m, &mut env, r(0.5), &mut out, &mut t, ARK_NORMAL, &mut ier);
    assert_eq!((stop, ier, f(t)), (1, ARK_SUCCESS, 0.5));
    assert_eq!(values(&out), vec![4.0]);
    assert_eq!(values(&m.ycur), vec![99.0]);
    let mut out = vector(&[5.0]);
    let stop = arkStopTests(&mut m, &mut env, r(0.75), &mut out, &mut t, ARK_NORMAL, &mut ier);
    assert_eq!(stop, 0);
    assert_eq!(values(&out), vec![5.0]);
}

#[test]
fn first_step_sizes_agree() {
    let mut env = linear();
    let mut m = integrator(&mut env, &[16.0]);
    m.stp.tstop = r(0.125);
    m.stp.tstopset = true;
    assert_eq!(arkInitialSetup(&mut m, &mut env, r(1.0)), ARK_SUCCESS);
    assert_eq!(f(m.stp.h), 0.125 * (1.0 - 4.0 * f64::EPSILON));
    assert_eq!(f(m.stp.h0u), f(m.stp.h));
    assert_eq!(f(m.stp.hprime), f(m.stp.h));
    assert_eq!(f(m.stp.eta), 1.0);
}

#[test]
fn evolution_in_normal_mode_reaches_the_output_time() {
    let mut env = linear();
    let mut m = integrator(&mut env, &[16.0, -32.0]);
    let mut y = vector(&[0.0, 0.0]);
    let mut t = r(0.0);
    let flag = ARKodeEvolve(&mut m, &mut env, r(1.0), &mut y, &mut t, ARK_NORMAL);
    assert_eq!(flag, ARK_SUCCESS);
    assert_eq!(f(t), 1.0);
    assert_eq!(m.cnt.nst, 4);
    assert_eq!(m.cnt.nst_attempts, 4);
    assert_eq!(values(&y), vec![1.0, -2.0]);
    assert_eq!(values(&m.yn), vec![1.0, -2.0]);
    assert_eq!(f(m.stp.tn), 1.0);
    // One slow evaluation for each step; it forces the next fast evolution.
    assert_eq!(m.step_mem.as_ref().expect("stepper memory").cnt.nfse, 4);
}

#[test]
fn evolution_in_one_step_mode_takes_one_step() {
    let mut env = linear();
    let mut m = integrator(&mut env, &[16.0]);
    let mut y = vector(&[0.0]);
    let mut t = r(0.0);
    let flag = ARKodeEvolve(&mut m, &mut env, r(1.0), &mut y, &mut t, ARK_ONE_STEP);
    assert_eq!(flag, ARK_SUCCESS);
    assert_eq!(f(t), 0.25);
    assert_eq!(m.cnt.nst, 1);
    assert_eq!(values(&y), vec![8.0]);
    // The slow derivative at the start of the step drives the fast problem.
    let s = m.step_mem.as_ref().expect("stepper memory");
    let inner = s.stepper.as_ref().expect("inner stepper");
    assert_eq!(values(&inner.forcing[0]), vec![48.0]);
}

#[test]
fn evolution_stops_exactly_at_the_stop_time() {
    let mut env = linear();
    let mut m = integrator(&mut env, &[16.0]);
    m.stp.tstop = r(0.6);
    m.stp.tstopset = true;
    let mut y = vector(&[0.0]);
    let mut t = r(0.0);
    let flag = ARKodeEvolve(&mut m, &mut env, r(1.0), &mut y, &mut t, ARK_NORMAL);
    assert_eq!(flag, ARK_TSTOP_RETURN);
    assert_eq!(f(t), 0.6);
    assert_eq!(f(m.stp.tretlast), 0.6);
    assert_eq!(m.cnt.nst, 3);
    assert!(!m.stp.tstopset);
    assert_eq!(values(&y), vec![2.0]);
}

#[test]
fn evolution_ends_after_the_largest_number_of_steps() {
    let mut env = linear();
    let mut m = integrator(&mut env, &[16.0]);
    m.lim.mxstep = 2;
    let mut y = vector(&[0.0]);
    let mut t = r(0.0);
    let flag = ARKodeEvolve(&mut m, &mut env, r(1.0), &mut y, &mut t, ARK_NORMAL);
    assert_eq!(flag, ARK_TOO_MUCH_WORK);
    assert_eq!(f(t), 0.5);
    assert_eq!(m.cnt.nst, 2);
    assert_eq!(values(&y), vec![4.0]);
}

#[test]
fn evolution_refuses_bad_calls() {
    let mut env = linear();
    let mut m = integrator(&mut env, &[16.0]);
    let mut y = vector(&[7.0]);
    let mut t = r(9.0);
    assert_eq!(ARKodeEvolve(&mut m, &mut env, r(1.0), &mut y, &mut t, 5), ARK_ILL_INPUT);
    assert_eq!(f(t), 9.0);
    assert_eq!(values(&y), vec![7.0]);
    assert_eq!(
        ARKodeEvolve(&mut m, &mut env, r(0.0), &mut y, &mut t, ARK_NORMAL),
        ARK_TOO_CLOSE
    );
    m.flg.MallocDone = false;
    assert_eq!(
        ARKodeEvolve(&mut m, &mut env, r(1.0), &mut y, &mut t, ARK_NORMAL),
        ARK_NO_MALLOC
    );
}

#[test]
fn setup_refuses_bad_inputs() {
    let mut env = linear();
    let mut y = vector(&[0.0]);
    let mut t = r(0.0);
    // No step size.
    let mut m = integrator(&mut env, &[16.0]);
    m.stp.hin = r(0.0);
    assert_eq!(
        ARKodeEvolve(&mut m, &mut env, r(1.0), &mut y, &mut t, ARK_NORMAL),
        ARK_ILL_INPUT
    );
    // A stop time behind the start.
    let mut m = integrator(&mut env, &[16.0]);
    m.stp.tstop = r(-1.0);
    m.stp.tstopset = true;
    assert_eq!(
        ARKodeEvolve(&mut m, &mut env, r(1.0), &mut y, &mut t, ARK_NORMAL),
        ARK_ILL_INPUT
    );
    // A step that leads away from the output time.
    let mut m = integrator(&mut env, &[16.0]);
    m.stp.hin = r(-0.25);
    assert_eq!(
        ARKodeEvolve(&mut m, &mut env, r(1.0), &mut y, &mut t, ARK_NORMAL),
        ARK_ILL_INPUT
    );
    // An initial state that breaks a constraint.
    let mut m = integrator(&mut env, &[-16.0]);
    m.constraints = vector(&[1.0]);
    assert_eq!(
        ARKodeEvolve(&mut m, &mut env, r(1.0), &mut y, &mut t, ARK_NORMAL),
        ARK_ILL_INPUT
    );
    // No coupling table.
    let mut m = integrator(&mut env, &[16.0]);
    m.step_mem.as_mut().expect("stepper memory").MRIC = None;
    assert_eq!(
        ARKodeEvolve(&mut m, &mut env, r(1.0), &mut y, &mut t, ARK_NORMAL),
        ARK_ILL_INPUT
    );
}

#[test]
fn reset_keeps_the_counters() {
    let mut env = linear();
    let mut m = integrator(&mut env, &[16.0]);
    let mut y = vector(&[0.0]);
    let mut t = r(0.0);
    ARKodeEvolve(&mut m, &mut env, r(1.0), &mut y, &mut t, ARK_NORMAL);
    assert_eq!(ARKodeReset(&mut m, &mut env, r(5.0), &vector(&[3.0])), ARK_SUCCESS);
    assert_eq!(m.cnt.nst, 4);
    assert_eq!(f(m.stp.tcur), 5.0);
    assert_eq!(values(&m.yn), vec![3.0]);
    assert!(m.flg.initsetup);
    let flag = ARKodeEvolve(&mut m, &mut env, r(5.5), &mut y, &mut t, ARK_NORMAL);
    assert_eq!(flag, ARK_SUCCESS);
    assert_eq!(m.cnt.nst, 6);
    assert_eq!(values(&y), vec![0.75]);
}

#[test]
fn renewed_initialisation_clears_the_counters() {
    let mut env = linear();
    let mut m = integrator(&mut env, &[16.0]);
    let mut y = vector(&[0.0]);
    let mut t = r(0.0);
    ARKodeEvolve(&mut m, &mut env, r(1.0), &mut y, &mut t, ARK_NORMAL);
    assert_eq!(
        MRIStepReInit(&mut m, &mut env, Some(1), None, r(0.0), &vector(&[8.0])),
        ARK_SUCCESS
    );
    assert_eq!(m.cnt.nst, 0);
    let s = m.step_mem.as_ref().expect("stepper memory");
    assert_eq!(s.cnt.nfse, 0);
    assert_eq!(s.prb.fse, Some(1));
    assert_eq!(
        MRIStepReInit(&mut m, &mut env, None, None, r(0.0), &vector(&[8.0])),
        ARK_ILL_INPUT
    );
    env.newton_flag = -1;
    assert_eq!(
        MRIStepReInit(&mut m, &mut env, None, Some(1), r(0.0), &vector(&[8.0])),
        ARK_MEM_FAIL
    );
    let mut m = integrator(&mut env, &[16.0]);
    m.flg.MallocDone = false;
    assert_eq!(
        MRIStepReInit(&mut m, &mut env, Some(1), None, r(0.0), &vector(&[8.0])),
        ARK_NO_MALLOC
    );
    m.step_mem = None;
    assert_eq!(
        MRIStepReInit(&mut m, &mut env, Some(1), None, r(0.0), &vector(&[8.0])),
        ARK_MEM_NULL
    );
}

#[test]
fn resizing_fits_the_vectors() {
    let mut env = linear();
    let mut m = integrator(&mut env, &[16.0]);
    let mut y = vector(&[0.0]);
    let mut t = r(0.0);
    ARKodeEvolve(&mut m, &mut env, r(1.0), &mut y, &mut t, ARK_NORMAL);
    let before = m.acc.lrw;
    let hprime = f(m.stp.hprime);
    let y2 = vector(&[1.0, 2.0, 3.0]);
    let flag = ARKodeResize(&mut m, &mut env, &y2, r(0.5), r(1.0), None);
    assert_eq!(flag, ARK_SUCCESS);
    assert_eq!(values(&m.yn), vec![1.0, 2.0, 3.0]);
    assert_eq!(m.tempv1.data.len(), 3);
    assert_eq!(m.ewt.data.len(), 3);
    assert_eq!(m.acc.lrw1, 3);
    assert!(m.acc.lrw > before);
    assert_eq!(f(m.stp.hprime), hprime * 0.5);
    assert_eq!(f(m.stp.eta), 0.5);
    assert_eq!((f(m.stp.tn), f(m.stp.tcur)), (1.0, 1.0));
    assert!(!m.constraints.live);
    assert!(!m.flg.fn_is_current);
    assert_eq!(m.flg.init_type, RESIZE_INIT);
    assert!(m.flg.initsetup);
    let flag = ARKodeResize(&mut m, &mut env, &y2, r(-1.0), r(1.0), None);
    assert_eq!(flag, ARK_SUCCESS);
    assert_eq!(f(m.stp.hprime), hprime * 0.5);
    m.flg.MallocDone = false;
    assert_eq!(ARKodeResize(&mut m, &mut env, &y2, r(1.0), r(1.0), None), ARK_NO_MALLOC);
}

#[test]
fn interpolation_needs_its_module() {
    let mut env = linear();
    let mut m = integrator(&mut env, &[16.0]);
    let mut d = vector(&[0.0]);
    assert_eq!(ARKodeGetDky(&mut m, &mut env, r(0.0), 0, &mut d), ARK_MEM_NULL);
    m.att.interp = true;
    assert_eq!(ARKodeGetDky(&mut m, &mut env, r(50.0), 0, &mut d), ARK_BAD_T);
}

#[test]
fn tolerances_are_checked() {
    let mut env = linear();
    let mut m = integrator(&mut env, &[16.0]);
    assert_eq!(ARKodeSStolerances(&mut m, r(-1.0), r(1.0)), ARK_ILL_INPUT);
    assert_eq!(ARKodeSStolerances(&mut m, r(1.0), r(-1.0)), ARK_ILL_INPUT);
    assert_eq!(ARKodeSVtolerances(&mut m, r(0.5), &vector(&[-1.0])), ARK_ILL_INPUT);
    assert_eq!(ARKodeSVtolerances(&mut m, r(0.5), &vector(&[2.0])), ARK_SUCCESS);
    assert_eq!(values(&m.Vabstol), vec![2.0]);
    assert_eq!(ARKodeWFtolerances(&mut m, 1), ARK_SUCCESS);
    assert!(m.tol.user_efun);
}

#[test]
fn scalar_weights_follow_their_formula() {
    let mut env = linear();
    let mut m = integrator(&mut env, &[16.0, 0.0]);
    ARKodeSStolerances(&mut m, r(0.25), r(1.0));
    let mut w = vector(&[0.0, 0.0]);
    let y = vector(&[-12.0, 0.0]);
    assert_eq!(arkode::arkode_tol::arkEwtSetSS(&y, &mut w, &mut m), 0);
    assert_eq!(values(&w), vec![0.25, 1.0]);
    ARKodeSStolerances(&mut m, r(0.25), r(0.0));
    assert_eq!(arkode::arkode_tol::arkEwtSetSS(&y, &mut w, &mut m), -1);
    let y = vector(&[-12.0, 1e308]);
    assert_eq!(arkode::arkode_tol::arkEwtSetSS(&y, &mut w, &mut m), 0);
    assert!(values(&w).iter().all(|x| *x > 0.0));
}

#[test]
fn failures_are_reported() {
    assert_eq!(arkHandleFailure(ARK_INVALID_TABLE), ARK_INVALID_TABLE);
    assert_eq!(arkHandleFailure(ARK_TOO_CLOSE), ARK_TOO_CLOSE);
    assert_eq!(arkHandleFailure(1234), ARK_UNRECOGNIZED_ERROR);
}

#[test]
fn coupling_tables_are_checked() {
    let mut env = linear();
    let mut m = integrator(&mut env, &[16.0]);
    assert_eq!(mriStep_CheckCoupling(&mut m, &mut env), ARK_SUCCESS);
    // Stage times that do not end at one.
    let mut t = euler();
    t.c = vec![r(0.0), r(0.5)];
    m.step_mem.as_mut().expect("stepper memory").MRIC = Some(t);
    assert_eq!(mriStep_CheckCoupling(&mut m, &mut env), ARK_INVALID_TABLE);
    // An implicit table for an explicit problem.
    let mut t = euler();
    t.type_ = MRISTEP_METHOD_TYPE::MRISTEP_IMPLICIT;
    m.step_mem.as_mut().expect("stepper memory").MRIC = Some(t);
    assert_eq!(mriStep_CheckCoupling(&mut m, &mut env), ARK_INVALID_TABLE);
    m.step_mem = None;
    assert_eq!(mriStep_CheckCoupling(&mut m, &mut env), ARK_MEM_NULL);
}

#[test]
fn listing_shows_the_groups() {
    let mut env = linear();
    let mut m = integrator(&mut env, &[16.0]);
    let report = ARKodePrintMem(&m);
    assert_eq!(f(report.stp.hin), 0.25);
    assert!(report.step.is_some());
    assert_eq!(report.cnt.nst, 0);
    m.ops.printmem = false;
    assert!(ARKodePrintMem(&m).step.is_none());
}

#[test]
fn integrator_serves_as_inner_stepper() {
    let mut env = linear();
    let mut inner = integrator(&mut env, &[16.0]);
    let mut s: Option<MRIStepInnerStepper> = None;
    assert_eq!(ARKodeCreateMRIStepInnerStepper(&inner, 7, &mut s), ARK_SUCCESS);
    let mut s = s.expect("a stepper");
    assert_eq!(s.ops.content, Some(7));
    assert_eq!(s.ops.evolve, Some(ARK_INNER_EVOLVE));
    let mut y = vector(&[16.0]);
    let flag = ark_MRIStepInnerEvolve(&s, &mut inner, &mut env, r(0.0), r(0.5), &mut y);
    assert_eq!(flag, 0);
    assert_eq!(values(&y), vec![4.0]);
    assert_eq!(inner.step_mem.as_ref().expect("stepper memory").frc.nforcing, 0);
    assert!(!inner.step_mem.as_ref().expect("stepper memory").frc.expforcing);

    assert_eq!(ark_MRIStepInnerReset(&s, &mut inner, &mut env, r(0.0), &vector(&[2.0])), 0);
    assert_eq!(values(&inner.yn), vec![2.0]);
    inner.cnt.AccumError = r(0.125);
    let mut e = r(0.0);
    assert_eq!(ark_MRIStepInnerGetAccumulatedError(&s, &mut inner, &mut env, &mut e), 0);
    assert_eq!(f(e), 0.125);
    assert_eq!(ark_MRIStepInnerResetAccumulatedError(&s, &mut inner, &mut env), 0);
    assert_eq!(ark_MRIStepInnerSetRTol(&s, &mut inner, r(0.5)), 0);
    assert_eq!(f(inner.tol.reltol), 0.5);
    assert_eq!(ark_MRIStepInnerSetRTol(&s, &mut inner, r(0.0)), -1);
    assert_eq!(f(inner.tol.reltol), 0.5);

    // A recoverable failure.
    inner.lim.mxstep = 1;
    let flag = ark_MRIStepInnerEvolve(&s, &mut inner, &mut env, r(0.0), r(0.75), &mut y);
    assert_eq!(flag, 1);
    // No content.
    assert_eq!(MRIStepInnerStepper_SetContent(&mut s, None), ARK_SUCCESS);
    assert_eq!(ark_MRIStepInnerSetRTol(&s, &mut inner, r(0.25)), -1);
    let mut g = vector(&[0.0]);
    assert_eq!(ark_MRIStepInnerFullRhs(&s, &mut inner, &mut env, r(0.0), &mut y, &mut g, 0), -1);

    inner.ops.setforcing = false;
    let mut none: Option<MRIStepInnerStepper> = None;
    assert_eq!(
        ARKodeCreateMRIStepInnerStepper(&inner, 7, &mut none),
        ARK_STEPPER_UNSUPPORTED
    );
    assert!(none.is_none());
}

#[test]
fn forcing_is_set_and_taken_away() {
    let mut env = linear();
    let mut m = integrator(&mut env, &[16.0]);
    let force = vec![vector(&[1.0]), vector(&[2.0])];
    assert_eq!(mriStep_SetInnerForcing(&mut m, r(0.5), r(2.0), &force, 2), ARK_SUCCESS);
    let s = m.step_mem.as_ref().expect("stepper memory");
    assert!(s.frc.expforcing);
    assert!(!s.frc.impforcing);
    assert_eq!(s.frc.nforcing, 2);
    assert_eq!(f(s.frc.tscale), 2.0);
    assert_eq!(mriStep_SetInnerForcing(&mut m, r(0.0), r(1.0), &vec![], 0), ARK_SUCCESS);
    let s = m.step_mem.as_ref().expect("stepper memory");
    assert!(!s.frc.expforcing);
    assert_eq!(s.frc.nforcing, 0);
    assert!(s.forcing.is_empty());
}
