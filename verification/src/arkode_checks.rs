//! Checks on configuration, algebraic solvers, constraints and temporal error.
use crate::arith::negate;
use crate::arkode_codes::{
    ARK_ADJ_CHECKPOINT_FAIL, ARK_ADJ_RECOMPUTE_FAIL, ARK_CONSTR_FAIL, ARK_CONV_FAILURE,
    ARK_DOMEIG_FAIL, ARK_ERR_FAILURE, ARK_INNERSTEP_FAIL, ARK_INTERP_FAIL, ARK_INVALID_TABLE,
    ARK_LSETUP_FAIL, ARK_LSOLVE_FAIL, ARK_MASSSOLVE_FAIL, ARK_MAX_STAGE_LIMIT_FAIL, ARK_MEM_NULL,
    ARK_NLS_OP_ERR, ARK_NLS_SETUP_FAIL, ARK_POSTPROCESS_STAGE_FAIL, ARK_POSTPROCESS_STEP_FAIL,
    ARK_POSTSTEPFN_FAIL, ARK_PRERHSFN_FAIL, ARK_PRESTEPFN_FAIL, ARK_RELAX_FAIL, ARK_RELAX_FUNC_FAIL,
    ARK_RELAX_JAC_FAIL, ARK_RELAX_MEM_NULL, ARK_REPTD_RHSFUNC_ERR, ARK_RETRY_STEP, ARK_RHSFUNC_FAIL,
    ARK_RTFUNC_FAIL, ARK_SS, ARK_SUCCESS, ARK_SUNADJSTEPPER_ERR, ARK_SUNSTEPPER_ERR, ARK_TOO_CLOSE,
    ARK_UNRECOGNIZED_ERROR, ARK_UNREC_RHSFUNC_ERR, ARK_USER_PREDICT_FAIL, ARK_VECTOROP_ERR,
    CONSTR_RECVR, CONV_FAIL, NINE_TENTHS, ONEPSM, PREDICT_AGAIN, PREV_CONV_FAIL, PREV_ERR_FAIL,
    RHSFUNC_RECVR, TRY_AGAIN,
};
use crate::arkode_impl::{ARKodeMemRec, ArkCounts, ArkStep, HAdaptMem, MemView};
use crate::arkode_mem::{put_cnt, put_hadapt, put_stp, put_tempv3, put_tempv4};
use crate::binary64::{r_abs, r_add, r_div, r_eq, r_le, r_mul, r_neg, sunrealtype};
use crate::env::{ArkEnv, ModuleCall};
use crate::nvector::{
    all_hold, min_quotient, v_lin, v_mask, v_prod, NVec, NVectorOps, N_VConstrMask, N_VLinearSum,
    N_VMinQuotient, N_VProd, N_Vector,
};
use crate::outcome::{call_module, module_run};
use crate::sundials_math::{r_max, r_min, real_max, real_min, SUNRabs};
use crate::sundials_types::{sunbooleantype, ONE, SUNFALSE, SUNTRUE, TENTH, ZERO};
use vstd::prelude::*;

verus! {

broadcast use crate::order::group_order;

/// Whether the time stepper has what the integrator cannot do without.
pub open spec fn stepper_complete(m: MemView) -> bool {
    m.ops().init && m.att().step is Some && m.step_mem() is Some
}

pub fn arkCheckTimestepper(ark_mem: &ARKodeMemRec) -> (r: sunbooleantype)
    ensures
        r == stepper_complete(ark_mem@),
{
    if !ark_mem.get_ops().init || ark_mem.get_att().step.is_none() || !ark_mem.has_step_mem() {
        return SUNFALSE;
    }
    SUNTRUE
}

/// Whether a vector has the operations that the integrator cannot do without.
pub open spec fn vector_complete(o: NVectorOps) -> bool {
    o.nvclone && o.nvdestroy && o.nvlinearsum && o.nvconst && o.nvdiv && o.nvscale && o.nvabs
        && o.nvinv && o.nvwrmsnorm
}

pub fn arkCheckNvectorRequired(tmpl: &N_Vector) -> (r: sunbooleantype)
    ensures
        r == vector_complete(tmpl@.ops()),
{
    let o: NVectorOps = tmpl.ops;
    if !o.nvclone || !o.nvdestroy || !o.nvlinearsum || !o.nvconst || !o.nvdiv || !o.nvscale || !o.nvabs
        || !o.nvinv || !o.nvwrmsnorm {
        SUNFALSE
    } else {
        SUNTRUE
    }
}

/// Whether a vector has the operations that the configuration asks for:
/// minima where built-in weights may divide by zero, quotients and maxima
/// where the first step is estimated, added constants where an absolute
/// tolerance is scalar.
pub open spec fn vector_suits(m: MemView) -> bool {
    let o = m.tempv1().ops();
    let t = m.tol();
    let estimate = r_eq(m.stp().h0u, ZERO()) && r_eq(m.stp().hin, ZERO());
    &&& !t.user_efun && t.atolmin0 ==> o.nvmin
    &&& !t.user_rfun && !t.rwt_is_ewt && t.Ratolmin0 ==> o.nvmin
    &&& estimate ==> o.nvdiv && o.nvmaxnorm
    &&& t.itol == ARK_SS ==> o.nvaddconst
    &&& !t.rwt_is_ewt && t.ritol == ARK_SS ==> o.nvaddconst
}

pub fn arkCheckNvectorOptional(ark_mem: &ARKodeMemRec) -> (r: sunbooleantype)
    ensures
        r == vector_suits(ark_mem@),
{
    let t = ark_mem.get_tol();
    let s = ark_mem.get_stp();
    let v: N_Vector = ark_mem.get_tempv1();
    let o: NVectorOps = v.ops;
    if !t.user_efun && t.atolmin0 && !o.nvmin {
        return SUNFALSE;
    }
    if !t.user_rfun && !t.rwt_is_ewt && t.Ratolmin0 && !o.nvmin {
        return SUNFALSE;
    }
    let estimate: bool = s.h0u == ZERO() && s.hin == ZERO();
    if estimate && !o.nvdiv {
        return SUNFALSE;
    }
    if estimate && !o.nvmaxnorm {
        return SUNFALSE;
    }
    if t.itol == ARK_SS && !o.nvaddconst {
        return SUNFALSE;
    }
    if !t.rwt_is_ewt && t.ritol == ARK_SS && !o.nvaddconst {
        return SUNFALSE;
    }
    SUNTRUE
}

/// Presence of the step adaptivity data.
pub fn arkAccessHAdaptMem(ark_mem: &ARKodeMemRec) -> (flag: i32)
    ensures
        flag == if ark_mem@.hadapt() is None {
            ARK_MEM_NULL
        } else {
            ARK_SUCCESS
        },
{
    if ark_mem.get_hadapt().is_none() {
        return ARK_MEM_NULL;
    }
    ARK_SUCCESS
}

/// The failures that a step or the choice of the first step can end with.
pub open spec fn known_failure(flag: i32) -> bool {
    ||| flag == ARK_ERR_FAILURE
    ||| flag == ARK_CONV_FAILURE
    ||| flag == ARK_LSETUP_FAIL
    ||| flag == ARK_LSOLVE_FAIL
    ||| flag == ARK_RHSFUNC_FAIL
    ||| flag == ARK_UNREC_RHSFUNC_ERR
    ||| flag == ARK_REPTD_RHSFUNC_ERR
    ||| flag == ARK_RTFUNC_FAIL
    ||| flag == ARK_TOO_CLOSE
    ||| flag == ARK_CONSTR_FAIL
    ||| flag == ARK_MASSSOLVE_FAIL
    ||| flag == ARK_NLS_SETUP_FAIL
    ||| flag == ARK_VECTOROP_ERR
    ||| flag == ARK_INNERSTEP_FAIL
    ||| flag == ARK_NLS_OP_ERR
    ||| flag == ARK_USER_PREDICT_FAIL
    ||| flag == ARK_POSTPROCESS_STEP_FAIL
    ||| flag == ARK_POSTPROCESS_STAGE_FAIL
    ||| flag == ARK_PRESTEPFN_FAIL
    ||| flag == ARK_POSTSTEPFN_FAIL
    ||| flag == ARK_PRERHSFN_FAIL
    ||| flag == ARK_INTERP_FAIL
    ||| flag == ARK_INVALID_TABLE
    ||| flag == ARK_RELAX_FAIL
    ||| flag == ARK_RELAX_MEM_NULL
    ||| flag == ARK_RELAX_FUNC_FAIL
    ||| flag == ARK_RELAX_JAC_FAIL
    ||| flag == ARK_ADJ_RECOMPUTE_FAIL
    ||| flag == ARK_ADJ_CHECKPOINT_FAIL
    ||| flag == ARK_SUNADJSTEPPER_ERR
    ||| flag == ARK_DOMEIG_FAIL
    ||| flag == ARK_MAX_STAGE_LIMIT_FAIL
    ||| flag == ARK_SUNSTEPPER_ERR
}

/// What the user is told of a failure.
pub open spec fn handle_failure(flag: i32) -> i32 {
    if known_failure(flag) {
        flag
    } else {
        ARK_UNRECOGNIZED_ERROR
    }
}

/// Turns a failure into what the user is told: itself where it is known,
/// otherwise the one flag for failures that should not happen.
pub fn arkHandleFailure(flag: i32) -> (r: i32)
    ensures
        r == handle_failure(flag),
{
    if flag == ARK_ERR_FAILURE || flag == ARK_CONV_FAILURE || flag == ARK_LSETUP_FAIL || flag
        == ARK_LSOLVE_FAIL || flag == ARK_RHSFUNC_FAIL || flag == ARK_UNREC_RHSFUNC_ERR || flag
        == ARK_REPTD_RHSFUNC_ERR || flag == ARK_RTFUNC_FAIL || flag == ARK_TOO_CLOSE || flag
        == ARK_CONSTR_FAIL || flag == ARK_MASSSOLVE_FAIL || flag == ARK_NLS_SETUP_FAIL || flag
        == ARK_VECTOROP_ERR || flag == ARK_INNERSTEP_FAIL || flag == ARK_NLS_OP_ERR || flag
        == ARK_USER_PREDICT_FAIL || flag == ARK_POSTPROCESS_STEP_FAIL || flag
        == ARK_POSTPROCESS_STAGE_FAIL || flag == ARK_PRESTEPFN_FAIL || flag == ARK_POSTSTEPFN_FAIL
        || flag == ARK_PRERHSFN_FAIL || flag == ARK_INTERP_FAIL || flag == ARK_INVALID_TABLE || flag
        == ARK_RELAX_FAIL || flag == ARK_RELAX_MEM_NULL || flag == ARK_RELAX_FUNC_FAIL || flag
        == ARK_RELAX_JAC_FAIL || flag == ARK_ADJ_RECOMPUTE_FAIL || flag == ARK_ADJ_CHECKPOINT_FAIL
        || flag == ARK_SUNADJSTEPPER_ERR || flag == ARK_DOMEIG_FAIL || flag
        == ARK_MAX_STAGE_LIMIT_FAIL || flag == ARK_SUNSTEPPER_ERR {
        flag
    } else {
        ARK_UNRECOGNIZED_ERROR
    }
}

/// Memory, solver flag, failure count and outcome of a check.
pub struct CheckOut {
    pub m: MemView,
    pub nflag: i32,
    pub n: i32,
    pub flag: i32,
}

/// The memory with the largest step growth set to one.
#[verifier::opaque]
pub open spec fn no_growth(m: MemView) -> MemView {
    match m.hadapt() {
        None => m,
        Some(a) => put_hadapt(m, Some(HAdaptMem { etamax: ONE(), ..a })),
    }
}

fn stop_growth(ark_mem: &mut ARKodeMemRec)
    ensures
        final(ark_mem)@ == no_growth(old(ark_mem)@),
{
    reveal(no_growth);
    match ark_mem.get_hadapt() {
        None => {},
        Some(a) => {
            ark_mem.set_hadapt(Some(HAdaptMem { etamax: ONE(), ..a }));
        },
    }
}

/// The memory with a new step size ratio.
#[verifier::opaque]
pub open spec fn with_eta(m: MemView, eta: sunrealtype) -> MemView {
    put_stp(m, ArkStep { eta, ..m.stp() })
}

pub fn set_eta(ark_mem: &mut ARKodeMemRec, eta: sunrealtype)
    ensures
        final(ark_mem)@ == with_eta(old(ark_mem)@, eta),
{
    reveal(with_eta);
    let s: ArkStep = ark_mem.get_stp();
    ark_mem.set_stp(ArkStep { eta, ..s });
}

/// Whether the step size is at its lower bound.
pub open spec fn at_hmin(m: MemView) -> bool {
    r_le(r_abs(m.stp().h), r_mul(m.lim().hmin, ONEPSM()))
}

pub fn is_at_hmin(ark_mem: &ARKodeMemRec) -> (r: bool)
    ensures
        r == at_hmin(ark_mem@),
{
    SUNRabs(ark_mem.get_stp().h) <= ark_mem.get_lim().hmin * ONEPSM()
}

/// The flag for an unrecoverable solver failure.
pub open spec fn solver_failure(nflag: i32) -> i32 {
    if nflag == ARK_LSETUP_FAIL || nflag == ARK_LSOLVE_FAIL || nflag == ARK_RHSFUNC_FAIL {
        nflag
    } else {
        ARK_NLS_OP_ERR
    }
}

/// Algebraic solver outcome. Success and retries pass; other outcomes count as
/// a failure, final with a fixed step, without adaptivity data, when negative,
/// and at the failure limit or the smallest step; else the step is cut.
#[verifier::opaque]
pub open spec fn check_convergence(m: MemView, nflag: i32, ncf: i32) -> CheckOut {
    let m1 = put_cnt(m, ArkCounts { ncfn: m.cnt().ncfn.wrapping_add(1), ..m.cnt() });
    let m2 = no_growth(m1);
    let ncf1 = ncf.wrapping_add(1);
    let last = ncf1 == m2.lim().maxncf || at_hmin(m2);
    let keep = CheckOut { m: m1, nflag, n: ncf, flag: ARK_SUCCESS };
    if nflag == ARK_SUCCESS {
        CheckOut { m, ..keep }
    } else if nflag == ARK_RETRY_STEP {
        CheckOut { m, flag: ARK_RETRY_STEP, ..keep }
    } else if m1.lim().fixedstep {
        CheckOut { flag: ARK_CONV_FAILURE, ..keep }
    } else if m1.hadapt() is None {
        CheckOut { flag: ARK_MEM_NULL, ..keep }
    } else if nflag < 0 {
        CheckOut { flag: solver_failure(nflag), ..keep }
    } else if last && nflag == CONV_FAIL {
        CheckOut { m: m2, nflag, n: ncf1, flag: ARK_CONV_FAILURE }
    } else if last && nflag == RHSFUNC_RECVR {
        CheckOut { m: m2, nflag, n: ncf1, flag: ARK_REPTD_RHSFUNC_ERR }
    } else {
        CheckOut {
            m: with_eta(m2, cut_factor(m2)),
            nflag: PREV_CONV_FAIL,
            n: ncf1,
            flag: PREDICT_AGAIN,
        }
    }
}

/// The factor that a step is cut by after a solver failure.
pub open spec fn cut_factor(m: MemView) -> sunrealtype {
    match m.hadapt() {
        Some(a) => a.etacf,
        None => ZERO(),
    }
}

/// Judges the outcome of the algebraic solvers.
pub fn arkCheckConvergence(ark_mem: &mut ARKodeMemRec, nflagPtr: &mut i32, ncfPtr: &mut i32) -> (flag:
    i32)
    ensures
        ({
            let o = check_convergence(old(ark_mem)@, *old(nflagPtr), *old(ncfPtr));
            &&& final(ark_mem)@ == o.m
            &&& *final(nflagPtr) == o.nflag
            &&& *final(ncfPtr) == o.n
            &&& flag == o.flag
        }),
{
    reveal(check_convergence);
    let nflag: i32 = *nflagPtr;
    if nflag == ARK_SUCCESS {
        return ARK_SUCCESS;
    }
    if nflag == ARK_RETRY_STEP {
        return ARK_RETRY_STEP;
    }
    let c: ArkCounts = ark_mem.get_cnt();
    ark_mem.set_cnt(ArkCounts { ncfn: c.ncfn.wrapping_add(1), ..c });
    if ark_mem.get_lim().fixedstep {
        return ARK_CONV_FAILURE;
    }
    if ark_mem.get_hadapt().is_none() {
        return ARK_MEM_NULL;
    }
    if nflag < 0 {
        if nflag == ARK_LSETUP_FAIL || nflag == ARK_LSOLVE_FAIL || nflag == ARK_RHSFUNC_FAIL {
            return nflag;
        }
        return ARK_NLS_OP_ERR;
    }
    *ncfPtr = ncfPtr.wrapping_add(1);
    stop_growth(ark_mem);
    if *ncfPtr == ark_mem.get_lim().maxncf || is_at_hmin(ark_mem) {
        if nflag == CONV_FAIL {
            return ARK_CONV_FAILURE;
        }
        if nflag == RHSFUNC_RECVR {
            return ARK_REPTD_RHSFUNC_ERR;
        }
    }
    let etacf: sunrealtype = match ark_mem.get_hadapt() {
        Some(a) => a.etacf,
        None => ZERO(),
    };
    set_eta(ark_mem, etacf);
    *nflagPtr = PREV_CONV_FAIL;
    PREDICT_AGAIN
}

/// The step size ratio that brings the violating components back.
#[verifier::opaque]
pub open spec fn constraint_eta(yn: NVec, tmp: NVec) -> sunrealtype {
    r_max(r_mul(NINE_TENTHS(), min_quotient(yn, tmp, yn.data.len())), TENTH())
}

/// Constraints on the proposed solution. A violation counts as a failure,
/// final at the failure limit, with a fixed step and at the smallest step;
/// else the step is cut.
#[verifier::opaque]
pub open spec fn check_constraints(m: MemView, constrfails: i32, nflag: i32) -> CheckOut {
    let ok = all_hold(m.constraints(), m.ycur(), m.tempv4().data.len());
    let m1 = put_tempv4(m, v_mask(m.constraints(), m.ycur(), m.tempv4()));
    let m2 = put_cnt(
        m1,
        ArkCounts { nconstrfails: m1.cnt().nconstrfails.wrapping_add(1), ..m1.cnt() },
    );
    let n1 = constrfails.wrapping_add(1);
    let d = v_lin(ONE(), m2.yn(), r_neg(ONE()), m2.ycur(), m2.tempv3());
    let p = v_prod(m2.tempv4(), d, d);
    let m3 = put_tempv3(m2, p);
    if ok {
        CheckOut { m: m1, nflag, n: constrfails, flag: ARK_SUCCESS }
    } else if n1 == m2.lim().maxconstrfails || m2.lim().fixedstep || at_hmin(m2) {
        CheckOut { m: m2, nflag, n: n1, flag: ARK_CONSTR_FAIL }
    } else {
        CheckOut {
            m: with_eta(m3, constraint_eta(m3.yn(), p)),
            nflag: PREV_CONV_FAIL,
            n: n1,
            flag: CONSTR_RECVR,
        }
    }
}

/// Checks the inequality constraints on the proposed solution.
pub fn arkCheckConstraints(ark_mem: &mut ARKodeMemRec, constrfails: &mut i32, nflag: &mut i32) -> (flag:
    i32)
    ensures
        ({
            let o = check_constraints(old(ark_mem)@, *old(constrfails), *old(nflag));
            &&& final(ark_mem)@ == o.m
            &&& *final(nflag) == o.nflag
            &&& *final(constrfails) == o.n
            &&& flag == o.flag
        }),
{
    reveal(check_constraints);
    let (mm, ok) = N_VConstrMask(
        &ark_mem.get_constraints(),
        &ark_mem.get_ycur(),
        &ark_mem.get_tempv4(),
    );
    ark_mem.set_tempv4(mm);
    if ok {
        return ARK_SUCCESS;
    }
    let c: ArkCounts = ark_mem.get_cnt();
    ark_mem.set_cnt(ArkCounts { nconstrfails: c.nconstrfails.wrapping_add(1), ..c });
    *constrfails = constrfails.wrapping_add(1);
    if *constrfails == ark_mem.get_lim().maxconstrfails {
        return ARK_CONSTR_FAIL;
    }
    if ark_mem.get_lim().fixedstep {
        return ARK_CONSTR_FAIL;
    }
    if is_at_hmin(ark_mem) {
        return ARK_CONSTR_FAIL;
    }
    let d: N_Vector = N_VLinearSum(
        ONE(),
        &ark_mem.get_yn(),
        negate(ONE()),
        &ark_mem.get_ycur(),
        &ark_mem.get_tempv3(),
    );
    let p: N_Vector = N_VProd(&ark_mem.get_tempv4(), &d, &d);
    let q: N_Vector = crate::nvector::copy_vector(&p);
    ark_mem.set_tempv3(p);
    reveal(constraint_eta);
    let eta: sunrealtype = real_max(
        NINE_TENTHS() * N_VMinQuotient(&ark_mem.get_yn(), &q),
        TENTH(),
    );
    set_eta(ark_mem, eta);
    *nflag = PREV_CONV_FAIL;
    CONSTR_RECVR
}

/// A step size ratio kept between the bounds that the growth limit and the
/// step size limits give.
#[verifier::opaque]
pub open spec fn bounded_eta(m: MemView) -> sunrealtype {
    let h = r_abs(m.stp().h);
    let etamax = match m.hadapt() {
        Some(a) => a.etamax,
        None => ZERO(),
    };
    let a = r_min(m.stp().eta, etamax);
    let b = r_max(a, r_div(m.lim().hmin, h));
    r_div(b, r_max(ONE(), r_mul(r_mul(h, m.lim().hmax_inv), b)))
}

fn bound_eta(ark_mem: &mut ARKodeMemRec)
    ensures
        final(ark_mem)@ == with_eta(old(ark_mem)@, bounded_eta(old(ark_mem)@)),
{
    reveal(bounded_eta);
    let s: ArkStep = ark_mem.get_stp();
    let l = ark_mem.get_lim();
    let h: sunrealtype = SUNRabs(s.h);
    let etamax: sunrealtype = match ark_mem.get_hadapt() {
        Some(a) => a.etamax,
        None => ZERO(),
    };
    let a: sunrealtype = real_min(s.eta, etamax);
    let b: sunrealtype = real_max(a, l.hmin / h);
    let d: sunrealtype = real_max(ONE(), h * l.hmax_inv * b);
    set_eta(ark_mem, b / d);
}

/// The memory after the failure bound on the step size ratio.
#[verifier::opaque]
pub open spec fn failure_eta(m: MemView, nef: i32) -> MemView {
    match m.hadapt() {
        Some(a) => if nef >= a.small_nef {
            with_eta(m, r_min(m.stp().eta, a.etamxf))
        } else {
            m
        },
        None => m,
    }
}

fn bound_failure_eta(ark_mem: &mut ARKodeMemRec, nef: i32)
    ensures
        final(ark_mem)@ == failure_eta(old(ark_mem)@, nef),
{
    reveal(failure_eta);
    match ark_mem.get_hadapt() {
        Some(a) => {
            if nef >= a.small_nef {
                let eta: sunrealtype = real_min(ark_mem.get_stp().eta, a.etamxf);
                set_eta(ark_mem, eta);
            }
        },
        None => {},
    }
}

/// Memory, environment, solver flag, failure count and outcome.
pub struct TemporalOut<E> {
    pub m: MemView,
    pub e: E,
    pub nflag: i32,
    pub n: i32,
    pub flag: i32,
}

/// Local error test: a new step size ratio is always proposed and bounded; the
/// step passes where the error norm is at most one, else it counts as a
/// failure, final at the failure limit and at the smallest step size.
#[verifier::opaque]
pub open spec fn check_temporal<E: ArkEnv>(m: MemView, e: E, nflag: i32, nef: i32, dsm: sunrealtype) -> TemporalOut<
    E,
> {
    let s = m.stp();
    let pass = r_le(dsm, ONE());
    let t = if pass {
        r_add(s.tn, s.h)
    } else {
        s.tn
    };
    let r = module_run(m, e, ModuleCall::Adapt { t, h: s.h, dsm });
    let m1 = with_eta(r.m, bounded_eta(r.m));
    let n1 = nef.wrapping_add(1);
    let m2 = put_cnt(m1, ArkCounts { netf: m1.cnt().netf.wrapping_add(1), ..m1.cnt() });
    if m.hadapt() is None {
        TemporalOut { m, e, nflag, n: nef, flag: ARK_MEM_NULL }
    } else if r.flag != ARK_SUCCESS {
        TemporalOut { m: r.m, e: r.e, nflag, n: nef, flag: ARK_ERR_FAILURE }
    } else if pass {
        TemporalOut { m: m1, e: r.e, nflag, n: nef, flag: ARK_SUCCESS }
    } else if n1 == m2.lim().maxnef {
        TemporalOut { m: m2, e: r.e, nflag: PREV_ERR_FAIL, n: n1, flag: ARK_ERR_FAILURE }
    } else {
        let m3 = failure_eta(no_growth(m2), n1);
        TemporalOut {
            m: with_eta(m3, bounded_eta(m3)),
            e: r.e,
            nflag: PREV_ERR_FAIL,
            n: n1,
            flag: if r_eq(r_abs(s.h), m.lim().hmin) {
                ARK_ERR_FAILURE
            } else {
                TRY_AGAIN
            },
        }
    }
}

/// Performs the local error test.
pub fn arkCheckTemporalError<E: ArkEnv>(
    ark_mem: &mut ARKodeMemRec,
    env: &mut E,
    nflagPtr: &mut i32,
    nefPtr: &mut i32,
    dsm: sunrealtype,
) -> (flag: i32)
    ensures
        ({
            let o = check_temporal(old(ark_mem)@, *old(env), *old(nflagPtr), *old(nefPtr), dsm);
            &&& final(ark_mem)@ == o.m
            &&& *final(env) == o.e
            &&& *final(nflagPtr) == o.nflag
            &&& *final(nefPtr) == o.n
            &&& flag == o.flag
        }),
{
    reveal(check_temporal);
    if ark_mem.get_hadapt().is_none() {
        return ARK_MEM_NULL;
    }
    let s: ArkStep = ark_mem.get_stp();
    let hmin: sunrealtype = ark_mem.get_lim().hmin;
    let pass: bool = dsm <= ONE();
    let t: sunrealtype = if pass {
        s.tn + s.h
    } else {
        s.tn
    };
    let retval: i32 = call_module(ark_mem, env, ModuleCall::Adapt { t, h: s.h, dsm });
    if retval != ARK_SUCCESS {
        return ARK_ERR_FAILURE;
    }
    bound_eta(ark_mem);
    if pass {
        return ARK_SUCCESS;
    }
    *nefPtr = nefPtr.wrapping_add(1);
    let c: ArkCounts = ark_mem.get_cnt();
    ark_mem.set_cnt(ArkCounts { netf: c.netf.wrapping_add(1), ..c });
    *nflagPtr = PREV_ERR_FAIL;
    if *nefPtr == ark_mem.get_lim().maxnef {
        return ARK_ERR_FAILURE;
    }
    stop_growth(ark_mem);
    bound_failure_eta(ark_mem, *nefPtr);
    bound_eta(ark_mem);
    // No smaller step is allowed.
    if SUNRabs(s.h) == hmin {
        return ARK_ERR_FAILURE;
    }
    TRY_AGAIN
}

} // verus!
