use arkode::arkode_checks::{
    arkAccessHAdaptMem, arkCheckConstraints, arkCheckConvergence, arkCheckNvectorOptional,
    arkCheckNvectorRequired, arkCheckTemporalError, arkCheckTimestepper,
};
use arkode::arkode_codes::{
    ARK_CONSTR_FAIL, ARK_CONV_FAILURE, ARK_ERR_FAILURE, ARK_FULLRHS_START, ARK_ILL_INPUT,
    ARK_INNERSTEP_FAIL, ARK_INVALID_TABLE, ARK_LSETUP_FAIL, ARK_MEM_NULL, ARK_NLS_OP_ERR,
    ARK_REPTD_RHSFUNC_ERR, ARK_RETRY_STEP, ARK_RHSFUNC_FAIL, ARK_STEPPER_UNSUPPORTED, ARK_SUCCESS,
    CONSTR_RECVR, CONV_FAIL, PREDICT_AGAIN, PREV_CONV_FAIL, PREV_ERR_FAIL, RHSFUNC_RECVR, TRY_AGAIN,
};
use arkode::arkode_hin::{arkHin, arkUpperBoundH0, arkYddNorm};
use arkode::arkode_impl::{no_hadapt, ARKodeMemRec, HAdaptMem, MRIStepInnerStepper};
use arkode::arkode_predict::{
    arkPredict_Bootstrap, arkPredict_CutoffOrder, arkPredict_MaximumOrder, arkPredict_VariableOrder,
};
use arkode::arkode_tol::{
    arkEwtSetSV, arkEwtSetSmallReal, arkRwtSet, ARKodeResFtolerance, ARKodeResStolerance,
    ARKodeResVtolerance, ARKodeSStolerances, ARKodeSVtolerances,
};
use arkode::arkode_vectors::{
    arkAllocVec, arkAllocVecArray, arkAllocVectors, arkFreeVec, arkFreeVecArray, arkResizeVec, arkResizeVecArray,
    arkResizeVectors,
};
use arkode::binary64::sunrealtype;
use arkode::coupling::{MRIStepCoupling, MRISTEP_METHOD_TYPE};
use arkode::inner_stepper::{
    mriStepInnerStepper_AllocVecs, mriStepInnerStepper_Evolve, mriStepInnerStepper_EvolveSUNStepper,
    mriStepInnerStepper_FreeVecs, mriStepInnerStepper_FullRhs,
    mriStepInnerStepper_FullRhsSUNStepper, mriStepInnerStepper_GetAccumulatedError,
    mriStepInnerStepper_HasRequiredOps, mriStepInnerStepper_Reset,
    mriStepInnerStepper_ResetAccumulatedError, mriStepInnerStepper_ResetSUNStepper,
    mriStepInnerStepper_SetRTol, mriStepInnerStepper_SupportsRTolAdaptivity,
    MRIStepInnerStepper_AddForcing, MRIStepInnerStepper_Create,
    MRIStepInnerStepper_CreateFromSUNStepper, MRIStepInnerStepper_Free,
    MRIStepInnerStepper_GetContent, MRIStepInnerStepper_GetContentAs,
    MRIStepInnerStepper_GetForcingData, MRIStepInnerStepper_SetAccumulatedErrorGetFn,
    MRIStepInnerStepper_SetAccumulatedErrorResetFn, MRIStepInnerStepper_SetContent,
    MRIStepInnerStepper_SetEvolveFn, MRIStepInnerStepper_SetFullRhsFn,
    MRIStepInnerStepper_SetRTolFn, MRIStepInnerStepper_SetResetFn, StillStepper,
};
use arkode::linear_env::LinearEnv;
use arkode::mristep_coeffs::mriStep_RKCoeffs;
use arkode::mristep_create::MRIStepCreate;
use arkode::mristep_ops::{
    mriStep_AttachLinsol, mriStep_ComputeState, mriStep_DisableLSetup, mriStep_GetGammas,
    mriStep_GetImplicitRHS, mriStep_GetLmem, mriStep_Hin, mriStep_step_mem_ok,
};
use arkode::mristep_rhs::mriStep_FullRHS;
use arkode::nvector::{make_vector, null_vector, N_Vector};

fn r(x: f64) -> sunrealtype {
    sunrealtype { bits: x.to_bits() }
}

fn f(x: sunrealtype) -> f64 {
    f64::from_bits(x.bits)
}

fn vector(x: &[f64]) -> N_Vector {
    make_vector(x.iter().map(|v| r(*v)).collect())
}

fn values(v: &N_Vector) -> Vec<f64> {
    v.data.iter().map(|x| f(*x)).collect()
}

fn linear() -> LinearEnv {
    LinearEnv {
        rates: vec![r(3.0), r(-2.0)],
        user_flag: 0,
        flow: r(0.5),
        flow_flag: 0,
        error: r(0.25),
        hadapt: Some(HAdaptMem {
            etamax: r(2.0),
            etamx1: r(10.0),
            etamxf: r(0.3),
            etacf: r(0.25),
            growth: r(20.0),
            small_nef: 2,
            ..no_hadapt()
        }),
        defaults_flag: 0,
        newton_flag: 0,
        controller_flag: 0,
        mass_flag: 0,
        free_flag: 0,
        solver_size: 0,
    }
}

fn fast() -> MRIStepInnerStepper {
    let mut s: Option<MRIStepInnerStepper> = None;
    MRIStepInnerStepper_Create(&mut s);
    let mut s = s.expect("a stepper");
    MRIStepInnerStepper_SetEvolveFn(&mut s, Some(1));
    s
}

fn integrator(y0: &[f64]) -> (ARKodeMemRec, LinearEnv) {
    let mut env = linear();
    let mut m =
        MRIStepCreate(&mut env, Some(0), None, r(0.0), &vector(y0), fast()).expect("created");
    assert_eq!(ARKodeSStolerances(&mut m, r(0.0), r(1.0)), ARK_SUCCESS);
    m.lim.maxncf = 3;
    m.lim.maxnef = 3;
    m.lim.maxconstrfails = 2;
    m.stp.h = r(1.0);
    (m, env)
}

#[test]
fn convergence_failures() {
    let (mut m, _) = integrator(&[1.0]);
    let mut nflag = ARK_SUCCESS;
    let mut ncf = 0;
    assert_eq!(arkCheckConvergence(&mut m, &mut nflag, &mut ncf), ARK_SUCCESS);
    assert_eq!(m.cnt.ncfn, 0);
    nflag = ARK_RETRY_STEP;
    assert_eq!(arkCheckConvergence(&mut m, &mut nflag, &mut ncf), ARK_RETRY_STEP);
    nflag = CONV_FAIL;
    assert_eq!(arkCheckConvergence(&mut m, &mut nflag, &mut ncf), PREDICT_AGAIN);
    assert_eq!((nflag, ncf, m.cnt.ncfn), (PREV_CONV_FAIL, 1, 1));
    assert_eq!(f(m.stp.eta), 0.25);
    assert_eq!(f(m.hadapt.expect("adaptivity").etamax), 1.0);
    nflag = CONV_FAIL;
    ncf = 2;
    assert_eq!(arkCheckConvergence(&mut m, &mut nflag, &mut ncf), ARK_CONV_FAILURE);
    nflag = RHSFUNC_RECVR;
    ncf = 2;
    assert_eq!(arkCheckConvergence(&mut m, &mut nflag, &mut ncf), ARK_REPTD_RHSFUNC_ERR);
    nflag = ARK_LSETUP_FAIL;
    ncf = 0;
    assert_eq!(arkCheckConvergence(&mut m, &mut nflag, &mut ncf), ARK_LSETUP_FAIL);
    nflag = -77;
    assert_eq!(arkCheckConvergence(&mut m, &mut nflag, &mut ncf), ARK_NLS_OP_ERR);
    m.hadapt = None;
    nflag = CONV_FAIL;
    assert_eq!(arkCheckConvergence(&mut m, &mut nflag, &mut ncf), ARK_MEM_NULL);
    m.lim.fixedstep = true;
    assert_eq!(arkCheckConvergence(&mut m, &mut nflag, &mut ncf), ARK_CONV_FAILURE);
}

#[test]
fn constraint_failures() {
    let (mut m, _) = integrator(&[4.0]);
    m.constraints = vector(&[1.0]);
    m.ycur = vector(&[0.0]);
    let mut n = 0;
    let mut nflag = 0;
    assert_eq!(arkCheckConstraints(&mut m, &mut n, &mut nflag), ARK_SUCCESS);
    m.ycur = vector(&[-4.0]);
    assert_eq!(arkCheckConstraints(&mut m, &mut n, &mut nflag), CONSTR_RECVR);
    assert_eq!((n, nflag, m.cnt.nconstrfails), (1, PREV_CONV_FAIL, 1));
    // Nine tenths of the way to the boundary: 0.9 * 4 / 8.
    assert_eq!(f(m.stp.eta), 0.9 * 0.5);
    assert_eq!(arkCheckConstraints(&mut m, &mut n, &mut nflag), ARK_CONSTR_FAIL);
    n = 0;
    m.lim.fixedstep = true;
    assert_eq!(arkCheckConstraints(&mut m, &mut n, &mut nflag), ARK_CONSTR_FAIL);
}

#[test]
fn error_test() {
    let (mut m, mut env) = integrator(&[4.0]);
    m.stp.eta = r(5.0);
    let mut nflag = 0;
    let mut nef = 0;
    let flag = arkCheckTemporalError(&mut m, &mut env, &mut nflag, &mut nef, r(1.0));
    assert_eq!((flag, nef), (ARK_SUCCESS, 0));
    // Growth is limited.
    assert_eq!(f(m.stp.eta), 2.0);
    let flag = arkCheckTemporalError(&mut m, &mut env, &mut nflag, &mut nef, r(1.5));
    assert_eq!((flag, nef, nflag, m.cnt.netf), (TRY_AGAIN, 1, PREV_ERR_FAIL, 1));
    assert_eq!(f(m.stp.eta), 1.0);
    let flag = arkCheckTemporalError(&mut m, &mut env, &mut nflag, &mut nef, r(1.5));
    assert_eq!((flag, nef), (TRY_AGAIN, 2));
    // Repeated failures cut the step.
    assert_eq!(f(m.stp.eta), 0.3);
    let flag = arkCheckTemporalError(&mut m, &mut env, &mut nflag, &mut nef, r(f64::NAN));
    assert_eq!((flag, nef), (ARK_ERR_FAILURE, 3));
    m.hadapt = None;
    let flag = arkCheckTemporalError(&mut m, &mut env, &mut nflag, &mut nef, r(0.5));
    assert_eq!(flag, ARK_MEM_NULL);
    assert_eq!(arkAccessHAdaptMem(&m), ARK_MEM_NULL);
}

#[test]
fn error_test_at_the_smallest_step_is_final() {
    let (mut m, mut env) = integrator(&[4.0]);
    m.stp.h = r(-0.5);
    m.lim.hmin = r(0.5);
    m.stp.eta = r(5.0);
    let mut nflag = 0;
    let mut nef = 0;
    let flag = arkCheckTemporalError(&mut m, &mut env, &mut nflag, &mut nef, r(1.5));
    assert_eq!((flag, nef, nflag, m.cnt.netf), (ARK_ERR_FAILURE, 1, PREV_ERR_FAIL, 1));
    // A step that passes is not affected, nor is one above the smallest.
    let flag = arkCheckTemporalError(&mut m, &mut env, &mut nflag, &mut nef, r(1.0));
    assert_eq!((flag, nef), (ARK_SUCCESS, 1));
    m.lim.hmin = r(0.25);
    let flag = arkCheckTemporalError(&mut m, &mut env, &mut nflag, &mut nef, r(1.5));
    assert_eq!((flag, nef), (TRY_AGAIN, 2));
}

#[test]
fn completeness_checks() {
    let (mut m, _) = integrator(&[4.0]);
    assert!(arkCheckTimestepper(&m));
    assert!(arkCheckNvectorOptional(&m));
    assert_eq!(arkAccessHAdaptMem(&m), ARK_SUCCESS);
    assert_eq!(mriStep_step_mem_ok(&m), ARK_SUCCESS);
    m.tempv1.ops.nvaddconst = false;
    assert!(!arkCheckNvectorOptional(&m));
    m.step_mem = None;
    assert!(!arkCheckTimestepper(&m));
    assert_eq!(mriStep_step_mem_ok(&m), ARK_MEM_NULL);
    let mut v = vector(&[1.0]);
    assert!(arkCheckNvectorRequired(&v));
    v.ops.nvinv = false;
    assert!(!arkCheckNvectorRequired(&v));
}

#[test]
fn single_vectors() {
    let (mut m, mut env) = integrator(&[1.0, 2.0]);
    let lrw = m.acc.lrw;
    let mut v = null_vector();
    let tmpl = vector(&[1.0, 2.0]);
    assert!(arkAllocVec(&mut m, &tmpl, &mut v));
    assert!(v.live);
    assert_eq!(m.acc.lrw, lrw + 2);
    assert!(arkAllocVec(&mut m, &tmpl, &mut v));
    assert_eq!(m.acc.lrw, lrw + 2);
    assert!(arkResizeVec(&mut m, &mut env, None, 1, 0, &vector(&[0.0, 0.0, 0.0]), &mut v));
    assert_eq!(v.data.len(), 3);
    assert_eq!(m.acc.lrw, lrw + 3);
    // A resize function gets the vector.
    v.data[0] = r(5.0);
    assert!(arkResizeVec(&mut m, &mut env, Some(0), 0, 0, &vector(&[1.0, 1.0, 1.0]), &mut v));
    env.user_flag = 1;
    assert!(!arkResizeVec(&mut m, &mut env, Some(0), 0, 0, &vector(&[1.0, 1.0, 1.0]), &mut v));
    m.acc.lrw -= 1;
    arkFreeVec(&mut m, &mut v);
    assert!(!v.live);
    assert_eq!(m.acc.lrw, lrw);
    arkFreeVec(&mut m, &mut v);
    assert_eq!(m.acc.lrw, lrw);
    let mut bad = vector(&[1.0]);
    bad.ops.nvclone = false;
    assert!(!arkAllocVec(&mut m, &bad, &mut v));
    assert!(!v.live);
    // A vector that exists is kept, whatever the template.
    let mut there = vector(&[7.0]);
    assert!(arkAllocVec(&mut m, &bad, &mut there));
    assert_eq!(values(&there), vec![7.0]);
    bad.ops.nvdestroy = false;
    assert!(arkAllocVec(&mut m, &bad, &mut there));
    assert_eq!(m.acc.lrw, lrw);
}

#[test]
fn work_vectors_that_exist_are_kept() {
    let (mut m, _) = integrator(&[1.0, 2.0]);
    let lrw = m.acc.lrw;
    let mut bad = vector(&[1.0]);
    bad.ops.nvclone = false;
    assert!(arkAllocVectors(&mut m, &bad));
    assert_eq!((m.yn.data.len(), m.acc.lrw), (2, lrw));
    m.tempv2 = null_vector();
    assert!(!arkAllocVectors(&mut m, &bad));
    assert!(!m.tempv2.live);
    assert!(arkAllocVectors(&mut m, &vector(&[0.0, 0.0])));
    assert_eq!((m.tempv2.data.len(), m.acc.lrw), (2, lrw + 2));
}

#[test]
fn resizing_accounts_for_each_vector() {
    let (mut m, mut env) = integrator(&[1.0, 2.0]);
    let (lrw, liw) = (m.acc.lrw, m.acc.liw);
    // Error weights, solution and four temporary vectors.
    let wide = vector(&[0.0; 5]);
    assert!(arkResizeVectors(&mut m, &mut env, None, 3, 1, &wide));
    assert_eq!((m.acc.lrw, m.acc.liw), (lrw + 18, liw + 6));
    assert_eq!((m.yn.data.len(), m.rwt.data.len(), m.tempv4.data.len()), (5, 5, 5));
    env.user_flag = 1;
    assert!(!arkResizeVectors(&mut m, &mut env, Some(0), 3, 1, &wide));
}

#[test]
fn vector_arrays() {
    let tmpl = vector(&[1.0, 2.0]);
    let mut a: Vec<N_Vector> = vec![];
    let (mut lrw, mut liw) = (100, 10);
    assert!(arkAllocVecArray(3, &tmpl, &mut a, 2, &mut lrw, 1, &mut liw));
    assert_eq!((a.len(), lrw, liw), (3, 106, 13));
    let mut env = linear();
    let wide = vector(&[0.0; 5]);
    assert!(arkResizeVecArray(&mut env, None, 3, &wide, &mut a, 3, &mut lrw, 0, &mut liw));
    assert_eq!((a[2].data.len(), lrw, liw), (5, 115, 13));
    arkFreeVecArray(3, &mut a, 5, &mut lrw, 1, &mut liw);
    assert_eq!((a.len(), lrw, liw), (0, 100, 10));
}

#[test]
fn other_weights() {
    let (mut m, mut env) = integrator(&[3.0, 0.0]);
    let y = vector(&[-4.0, 0.0]);
    let mut w = vector(&[0.0, 0.0]);
    assert_eq!(ARKodeSVtolerances(&mut m, r(0.5), &vector(&[2.0, 0.5])), ARK_SUCCESS);
    assert_eq!(arkEwtSetSV(&y, &mut w, &mut m), 0);
    assert_eq!(values(&w), vec![0.25, 2.0]);
    assert_eq!(ARKodeSVtolerances(&mut m, r(0.5), &vector(&[2.0, 0.0])), ARK_SUCCESS);
    assert_eq!(arkEwtSetSV(&y, &mut w, &mut m), -1);
    assert_eq!(arkEwtSetSmallReal(&mut w), 0);
    assert_eq!(values(&w), vec![f64::MIN_POSITIVE, f64::MIN_POSITIVE]);

    // Residual weights: the error weights until they are set apart.
    let mut q = vector(&[9.0, 9.0]);
    assert_eq!(arkRwtSet(&y, &mut q, &mut m, &mut env), 0);
    assert_eq!(values(&q), vec![9.0, 9.0]);
    assert_eq!(ARKodeResStolerance(&mut m, r(2.0)), ARK_STEPPER_UNSUPPORTED);
    assert_eq!(ARKodeResVtolerance(&mut m, &vector(&[2.0, 0.25])), ARK_STEPPER_UNSUPPORTED);
    assert_eq!(ARKodeResFtolerance(&mut m, 1), ARK_STEPPER_UNSUPPORTED);
    m.att.step_supports_massmatrix = true;
    assert_eq!(ARKodeResStolerance(&mut m, r(-1.0)), ARK_ILL_INPUT);
    assert_eq!(ARKodeResStolerance(&mut m, r(2.0)), ARK_SUCCESS);
    assert!(!m.tol.rwt_is_ewt);
    assert_eq!(arkRwtSet(&y, &mut q, &mut m, &mut env), 0);
    assert_eq!(values(&q), vec![0.25, 0.5]);
    assert_eq!(ARKodeResVtolerance(&mut m, &vector(&[2.0, 0.25])), ARK_SUCCESS);
    assert_eq!(arkRwtSet(&y, &mut q, &mut m, &mut env), 0);
    assert_eq!(values(&q), vec![0.25, 4.0]);
    // The mass matrix product is applied first; without it there are none.
    m.ops.mmult = true;
    assert_eq!(arkRwtSet(&y, &mut q, &mut m, &mut env), 0);
    assert_eq!(values(&q), vec![0.25, 4.0]);
    env.mass_flag = 3;
    assert_eq!(arkRwtSet(&y, &mut q, &mut m, &mut env), -1);
    assert_eq!(ARKodeResFtolerance(&mut m, 1), ARK_SUCCESS);
    assert!(m.tol.user_rfun);
}

#[test]
fn full_right_hand_side_needs_the_fast_one() {
    let (mut m, mut env) = integrator(&[3.0]);
    let mut y = vector(&[3.0]);
    let mut g = vector(&[0.0]);
    // Storage for the slow derivative is only there once a step was set up.
    m.step_mem.as_mut().expect("stepper memory").Fse = vec![vector(&[0.0])];
    let s = m.step_mem.as_mut().expect("stepper memory").stepper.as_mut().expect("inner stepper");
    MRIStepInnerStepper_SetFullRhsFn(s, Some(1));
    let flag = mriStep_FullRHS(&mut m, &mut env, r(0.0), &mut y, &mut g, ARK_FULLRHS_START);
    assert_eq!(flag, ARK_SUCCESS);
    // Slow rate 3, fast rate -2.
    assert_eq!(values(&g), vec![3.0]);
    env.user_flag = -1;
    m.step_mem.as_mut().expect("stepper memory").prb.fse_is_current = false;
    let flag = mriStep_FullRHS(&mut m, &mut env, r(0.0), &mut y, &mut g, ARK_FULLRHS_START);
    assert_eq!(flag, ARK_RHSFUNC_FAIL);
}

#[test]
fn first_step_estimate() {
    let (mut m, mut env) = integrator(&[1.0]);
    m.fn_ = vector(&[2.0]);
    m.flg.fn_is_current = true;
    m.ewt = vector(&[1.0]);
    // |y'| / (0.1 |y| + 1) = 2 / 1.1 limits the step below 0.1 * 100.
    let hub = arkUpperBoundH0(&mut m, &mut env, r(100.0));
    let rate = 2.0 / (0.1 * 1.0 + 1.0 / 1.0);
    assert_eq!(f(hub), 1.0 / rate);
    assert_eq!(f(arkUpperBoundH0(&mut m, &mut env, r(1.0))), 0.1 * 1.0);
    // The right-hand side at y + h y' against that at y.
    m.step_mem.as_mut().expect("stepper memory").Fse = vec![vector(&[0.0])];
    let s = m.step_mem.as_mut().expect("stepper memory").stepper.as_mut().expect("inner stepper");
    MRIStepInnerStepper_SetFullRhsFn(s, Some(1));
    let mut ydd = r(0.0);
    assert_eq!(arkYddNorm(&mut m, &mut env, r(0.5), &mut ydd), ARK_SUCCESS);
    // y1 = 2, f(y1) = (3 - 2) * 2 = 2: no change, no second derivative.
    assert_eq!(f(ydd), 0.0);
    assert_eq!(arkHin(&mut m, &mut env, r(1.0)), ARK_SUCCESS);
    // Without curvature the upper bound is approached, then halved.
    assert!(f(m.stp.h) > 0.0 && f(m.stp.h) <= 0.1);
    m.stp.h = r(1.0);
    assert_eq!(arkHin(&mut m, &mut env, r(-1.0)), ARK_SUCCESS);
    assert!(f(m.stp.h) < 0.0);
    env.user_flag = -1;
    m.flg.fn_is_current = false;
    m.step_mem.as_mut().expect("stepper memory").prb.fse_is_current = false;
    assert_eq!(arkHin(&mut m, &mut env, r(1.0)), ARK_RHSFUNC_FAIL);
    let mut h = r(0.0);
    m.ewt = vector(&[1.0]);
    assert_eq!(mriStep_Hin(&m, r(0.0), r(8.0), &vector(&[4.0]), &mut h), ARK_SUCCESS);
    assert!(f(h) > 0.0);
    assert!(mriStep_Hin(&m, r(0.0), r(0.0), &vector(&[4.0]), &mut h) < 0);
}

#[test]
fn predictions() {
    let (mut m, mut env) = integrator(&[1.0]);
    let mut y = vector(&[0.0]);
    assert_eq!(arkPredict_MaximumOrder(&mut m, &mut env, r(0.1), &mut y), ARK_MEM_NULL);
    assert_eq!(arkPredict_VariableOrder(&mut m, &mut env, r(0.1), &mut y), ARK_MEM_NULL);
    assert_eq!(arkPredict_CutoffOrder(&mut m, &mut env, r(0.1), &mut y), ARK_MEM_NULL);
    let (mut c, mut x) = (vec![r(1.0), r(9.0), r(9.0)], vec![vector(&[6.0])]);
    let flag = arkPredict_Bootstrap(&m, r(2.0), r(1.0), 1, &mut c, &mut x, &mut y);
    assert_eq!((flag, x.len(), f(c[0])), (ARK_MEM_NULL, 1, 1.0));
    m.att.interp = true;
    assert_eq!(arkPredict_MaximumOrder(&mut m, &mut env, r(0.1), &mut y), ARK_SUCCESS);
    m.fn_ = vector(&[4.0]);
    m.yn = vector(&[10.0]);
    // 10 + (1 - 1/4) 4 + (1/4) 6.
    let flag = arkPredict_Bootstrap(&m, r(2.0), r(1.0), 1, &mut c, &mut x, &mut y);
    assert_eq!(flag, ARK_SUCCESS);
    assert_eq!(values(&y), vec![14.5]);
    assert_eq!(c.iter().map(|v| f(*v)).collect::<Vec<f64>>(), vec![1.0, 0.75, 0.25]);
    assert_eq!(x.iter().map(|v| f(v.data[0])).collect::<Vec<f64>>(), vec![10.0, 4.0, 6.0]);

    // Two vectors, each with its own coefficient.
    let mut c = vec![r(1.0), r(2.0), r(0.0), r(0.0), r(5.0)];
    let mut x = vec![vector(&[4.0]), vector(&[8.0])];
    let flag = arkPredict_Bootstrap(&m, r(2.0), r(1.0), 2, &mut c, &mut x, &mut y);
    assert_eq!(flag, ARK_SUCCESS);
    assert_eq!(values(&y), vec![10.0 + 3.0 + 0.25 * 4.0 + 0.5 * 8.0]);
    assert_eq!((x.len(), f(c[4])), (4, 5.0));

    // The lists are moved in place: a third vector is the first one again.
    let mut c = vec![r(1.0), r(2.0), r(4.0), r(0.0), r(0.0)];
    let mut x = vec![vector(&[4.0]), vector(&[8.0]), vector(&[16.0])];
    let flag = arkPredict_Bootstrap(&m, r(2.0), r(1.0), 3, &mut c, &mut x, &mut y);
    assert_eq!(flag, ARK_SUCCESS);
    assert_eq!(values(&y), vec![10.0 + 3.0 + 0.25 * 4.0 + 0.5 * 8.0 + 0.0625 * 4.0]);
    assert_eq!(f(c[4]), 0.0625);
    assert_eq!(f(x[4].data[0]), 4.0);
}

#[test]
fn inner_stepper_interface() {
    let mut env = linear();
    let mut none: Option<MRIStepInnerStepper> = None;
    assert_eq!(MRIStepInnerStepper_Create(&mut none), ARK_SUCCESS);
    let mut s = none.take().expect("a stepper");
    assert_eq!(mriStepInnerStepper_HasRequiredOps(&s), ARK_ILL_INPUT);
    let mut y = vector(&[8.0]);
    let mut g = vector(&[0.0]);
    // What is missing is an error where it is needed, and nothing where not.
    assert!(mriStepInnerStepper_Evolve(&mut s, &mut env, r(0.0), r(1.0), &mut y) != ARK_SUCCESS);
    assert!(
        mriStepInnerStepper_FullRhs(&mut s, &mut env, r(0.0), &y, &mut g, 0) != ARK_SUCCESS
    );
    assert_eq!(mriStepInnerStepper_Reset(&mut s, &mut env, r(0.0), &y), ARK_SUCCESS);
    let mut e = r(0.0);
    assert!(
        mriStepInnerStepper_GetAccumulatedError(&mut s, &mut env, &mut e) != ARK_SUCCESS
    );
    assert_eq!(mriStepInnerStepper_ResetAccumulatedError(&mut s, &mut env), ARK_SUCCESS);
    assert!(!mriStepInnerStepper_SupportsRTolAdaptivity(&s));
    MRIStepInnerStepper_SetEvolveFn(&mut s, Some(0));
    MRIStepInnerStepper_SetFullRhsFn(&mut s, Some(1));
    MRIStepInnerStepper_SetResetFn(&mut s, Some(0));
    MRIStepInnerStepper_SetAccumulatedErrorGetFn(&mut s, Some(0));
    assert_eq!(
        mriStepInnerStepper_ResetAccumulatedError(&mut s, &mut env),
        ARK_INNERSTEP_FAIL
    );
    MRIStepInnerStepper_SetAccumulatedErrorResetFn(&mut s, Some(0));
    MRIStepInnerStepper_SetRTolFn(&mut s, Some(0));
    assert!(mriStepInnerStepper_SupportsRTolAdaptivity(&s));
    assert_eq!(mriStepInnerStepper_HasRequiredOps(&s), ARK_SUCCESS);
    assert_eq!(mriStepInnerStepper_Evolve(&mut s, &mut env, r(0.0), r(1.0), &mut y), 0);
    assert_eq!(values(&y), vec![4.0]);
    assert_eq!(mriStepInnerStepper_FullRhs(&mut s, &mut env, r(0.0), &y, &mut g, 0), 0);
    assert_eq!(values(&g), vec![-8.0]);
    assert_eq!(mriStepInnerStepper_GetAccumulatedError(&mut s, &mut env, &mut e), 0);
    assert_eq!(f(e), 0.25);
    assert_eq!(mriStepInnerStepper_ResetAccumulatedError(&mut s, &mut env), 0);
    assert_eq!(mriStepInnerStepper_SetRTol(&mut s, &mut env, r(0.5)), 0);
    env.flow_flag = 3;
    assert_eq!(mriStepInnerStepper_Evolve(&mut s, &mut env, r(0.0), r(1.0), &mut y), 3);
    assert_eq!(s.sc.last_flag, 3);

    MRIStepInnerStepper_SetContent(&mut s, Some(42));
    let mut c: Option<u64> = None;
    assert_eq!(MRIStepInnerStepper_GetContentAs(&s, &mut c), ARK_SUCCESS);
    assert_eq!(c, Some(42));
    let mut c: Option<u64> = None;
    assert_eq!(MRIStepInnerStepper_GetContent(&mut s, &mut c), ARK_SUCCESS);
    assert_eq!(c, Some(42));
    let mut owned = Some(s);
    assert_eq!(MRIStepInnerStepper_Free(&mut owned), ARK_SUCCESS);
    assert!(owned.is_none());
}

#[test]
fn inner_forcing_polynomial() {
    let mut s = fast();
    assert_eq!(mriStepInnerStepper_AllocVecs(&mut s, 2, &vector(&[0.0])), ARK_SUCCESS);
    s.forcing[0] = vector(&[10.0]);
    s.forcing[1] = vector(&[4.0]);
    s.sc.nforcing = 2;
    s.sc.tshift = r(1.0);
    s.sc.tscale = r(2.0);
    let mut g = vector(&[1.0]);
    // 1 + 10 + 4 (2 - 1) / 2.
    assert_eq!(MRIStepInnerStepper_AddForcing(&s, r(2.0), &mut g), ARK_SUCCESS);
    assert_eq!(values(&g), vec![13.0]);
    let (mut a, mut b, mut v, mut n) = (r(0.0), r(0.0), vec![], 0);
    MRIStepInnerStepper_GetForcingData(&s, &mut a, &mut b, &mut v, &mut n);
    assert_eq!((f(a), f(b), n, v.len()), (1.0, 2.0, 2, 2));
    assert_eq!(values(&v[1]), vec![4.0]);
    assert_eq!(mriStepInnerStepper_FreeVecs(&mut s), ARK_SUCCESS);
    assert!(s.forcing.is_empty());
}

#[test]
fn generic_stepper_as_inner_stepper() {
    let mut s: Option<MRIStepInnerStepper> = None;
    assert_eq!(MRIStepInnerStepper_CreateFromSUNStepper(5, &mut s), ARK_SUCCESS);
    let mut s = s.expect("a stepper");
    assert_eq!(s.ops.content, Some(5));
    assert!(s.ops.evolve.is_some());
    let mut sun = StillStepper {};
    let mut y = vector(&[2.0]);
    let mut g = vector(&[1.0]);
    assert_eq!(mriStepInnerStepper_EvolveSUNStepper(&mut s, &mut sun, r(1.0), &mut y), 0);
    assert_eq!(values(&y), vec![2.0]);
    assert_eq!(mriStepInnerStepper_FullRhsSUNStepper(&mut s, &mut sun, r(0.0), &y, &mut g, 0), 0);
    assert_eq!(mriStepInnerStepper_ResetSUNStepper(&mut s, &mut sun, r(0.0), &y), 0);
}

fn two_matrices() -> MRIStepCoupling {
    MRIStepCoupling {
        type_: MRISTEP_METHOD_TYPE::MRISTEP_EXPLICIT,
        nmat: 2,
        stages: 3,
        q: 2,
        p: 1,
        c: vec![r(0.0), r(0.5), r(1.0)],
        W: vec![
            vec![
                vec![r(0.0), r(0.0), r(0.0)],
                vec![r(0.5), r(0.0), r(0.0)],
                vec![r(-0.5), r(1.0), r(0.0)],
                vec![r(0.0), r(0.0), r(0.0)],
            ],
            vec![
                vec![r(0.0), r(0.0), r(0.0)],
                vec![r(4.0), r(0.0), r(0.0)],
                vec![r(8.0), r(2.0), r(0.0)],
                vec![r(0.0), r(0.0), r(0.0)],
            ],
        ],
        G: vec![],
        ngroup: 0,
        group: vec![],
    }
}

#[test]
fn stage_coefficients_integrate_the_matrices() {
    let t = two_matrices();
    let map = vec![0, 1, 2];
    let mut ae = vec![r(9.0); 3];
    let mut ai = vec![r(9.0); 3];
    // Each matrix k contributes its entry divided by k + 1.
    assert_eq!(mriStep_RKCoeffs(&t, 2, &map, &mut ae, &mut ai), ARK_SUCCESS);
    let got: Vec<f64> = ae.iter().map(|x| f(*x)).collect();
    assert_eq!(got, vec![-0.5 + 8.0 / 2.0, 1.0 + 2.0 / 2.0, 0.0]);
    assert!(ai.iter().all(|x| f(*x) == 0.0));
    assert_eq!(mriStep_RKCoeffs(&t, 0, &map, &mut ae, &mut ai), ARK_INVALID_TABLE);
    assert_eq!(mriStep_RKCoeffs(&t, 9, &map, &mut ae, &mut ai), ARK_INVALID_TABLE);
}

#[test]
fn solver_access() {
    let (mut m, mut env) = integrator(&[1.0]);
    assert!(!mriStep_GetLmem(&m));
    let flag =
        mriStep_AttachLinsol(&mut m, &mut env, Some(1), Some(2), Some(3), Some(4), true);
    assert_eq!(flag, ARK_SUCCESS);
    assert!(mriStep_GetLmem(&m));
    assert_eq!(m.step_mem.as_ref().expect("stepper memory").nls.lsetup, Some(2));
    mriStep_DisableLSetup(&mut m);
    assert_eq!(m.step_mem.as_ref().expect("stepper memory").nls.lsetup, None);
    assert_eq!(mriStep_GetImplicitRHS(&m), None);
    let s = m.step_mem.as_mut().expect("stepper memory");
    s.prb.implicit_rhs = true;
    s.prb.fsi = Some(1);
    s.nls.gamma = r(0.5);
    s.nls.gamrat = r(1.5);
    s.nls.dgmax = r(0.25);
    assert_eq!(mriStep_GetImplicitRHS(&m), Some(1));
    let (mut g, mut q, mut j, mut fail) = (r(0.0), r(0.0), false, false);
    assert_eq!(mriStep_GetGammas(&m, &mut g, &mut q, &mut j, &mut fail), ARK_SUCCESS);
    assert_eq!((f(g), f(q), fail), (0.5, 1.5, true));
    m.step_mem.as_mut().expect("stepper memory").zpred = vector(&[3.0]);
    let mut z = vector(&[0.0]);
    assert_eq!(mriStep_ComputeState(&m, &vector(&[4.0]), &mut z), ARK_SUCCESS);
    assert_eq!(values(&z), vec![7.0]);
    m.step_mem = None;
    assert_eq!(mriStep_ComputeState(&m, &vector(&[4.0]), &mut z), ARK_MEM_NULL);
    assert_eq!(mriStep_GetGammas(&m, &mut g, &mut q, &mut j, &mut fail), ARK_MEM_NULL);
}
