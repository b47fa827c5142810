//! Laws of the integrator.
use crate::arkode_attempt::{try_error, Attempt, Verdict};
use crate::arkode_checks::{
    at_hmin, check_constraints, check_convergence, check_temporal, failure_eta, handle_failure,
    known_failure, no_growth, with_eta,
};
use crate::arkode_codes::{
    ARK_CONTROLLER_ERR, ARK_ERR_FAILURE, ARK_ILL_INPUT, ARK_NORMAL, ARK_NO_MALLOC, ARK_ONE_STEP,
    ARK_RETRY_STEP, ARK_SUCCESS, ARK_TOO_CLOSE, ARK_TOO_MUCH_WORK, ARK_TSTOP_RETURN, CONV_FAIL,
    FIRST_INIT, PREDICT_AGAIN, PREV_CONV_FAIL, PREV_ERR_FAIL, RESET_INIT, RHSFUNC_RECVR, TRY_AGAIN,
};
use crate::arkode_core::{
    ask_init, init, init_alloc, init_counters, init_fresh, init_rest, init_state, reset, resize_all,
    resize_state,
};
use crate::arkode_evolve::{
    after_step, after_tout, after_tstop, before_step, evolve, evolve_from, one_pass, weights_now,
};
use crate::arkode_hin::finish_h0;
use crate::arkode_impl::{ArkCounts, ArkStep, FnId, MemView};
use crate::arkode_mem::{
    mput_stepper, mri, put_acc, put_cnt, put_ewt, put_flg, put_hadapt, put_rwt, put_stp, put_tol,
    put_ycur, put_yn, with_mri,
};
use crate::arkode_setup::{check_inputs, initial_setup, load_ewt};
use crate::arkode_step::{
    accept_solution, advance_time, close_step, complete_step, controller, end_of_step, post_step,
    snap_to_tstop, time_roundoff, update_controller, update_interp, usual_growth,
};
use crate::arkode_stop::{
    later_root, near_root, root_stop, show_at, stop_tests, tout_stop, tstop_stop,
};
use crate::arkode_tol::{
    denominators_s, denominators_v, ewt_ss, ewt_sv, invert, rwt_ss, rwt_sv,
};
use crate::arkode_vectors::{account, alloc_vec, charge, free_vec, refund, unaccount};
use crate::binary64::{r_abs, r_add, r_div, r_eq, r_le, r_lt, r_mul, r_sub, sunrealtype};
use crate::env::{ArkEnv, ModuleCall};
use crate::mristep_fast::fast_reset;
use crate::mristep_ops::mri_reset;
use crate::nvector::{
    all_hold, at, lin, scaled_by, v_abs, v_addconst, v_clone, v_fill, v_inv, v_lin, v_null, v_scale,
    NVec,
};
use crate::outcome::{leaves_memory, lemma_unseen_memory, module_run};
use crate::sundials_types::{ONE, ZERO};
use vstd::prelude::*;

verus! {

/// A reset keeps every counter of an integrator that has evolved, succeeds,
/// and puts the new state in place.
pub proof fn law_reset_keeps_counters<E: ArkEnv>(m: MemView, e: E, t: sunrealtype, y: NVec)
    requires
        m.flg().MallocDone,
        m.flg().initialized,
    ensures
        ({
            let r = init(m, e, t, y, RESET_INIT);
            &&& r.flag == ARK_SUCCESS
            &&& r.e == e
            &&& r.m.cnt() == m.cnt()
            &&& mri(r.m) == mri(m)
            &&& r.m.stp().tcur == t
            &&& r.m.stp().tn == t
            &&& r.m.yn() == v_scale(ONE(), y, m.yn())
            &&& r.m.ycur() == y
            &&& r.m.stp().h == m.stp().h
            &&& !r.m.stp().tstopset
            &&& !r.m.flg().fn_is_current
            &&& r.m.flg().init_type == RESET_INIT
        }),
        reset(m, e, t, y).m.cnt() == m.cnt(),
        mri(reset(m, e, t, y).m).cnt() == mri(m).cnt(),
{
    reveal(init);
    reveal(init_alloc);
    reveal(init_state);
    reveal(ask_init);
    reveal(reset);
    reveal(mri_reset);
    reveal(fast_reset);
    reveal(put_ycur);
    reveal(put_stp);
    reveal(put_yn);
    reveal(put_flg);
    reveal(mput_stepper);
    reveal(with_mri);
    reveal(mri);
}

/// A first initialisation that succeeds clears every counter; it fails only
/// with the step controller.
pub proof fn law_first_init_clears_counters<E: ArkEnv>(m: MemView, e: E, t: sunrealtype, y: NVec)
    requires
        m.flg().MallocDone,
    ensures
        ({
            let r = init(m, e, t, y, FIRST_INIT);
            &&& r.flag == ARK_SUCCESS || r.flag == ARK_CONTROLLER_ERR
            &&& controller(m) is None ==> r.flag == ARK_SUCCESS
            &&& r.flag == ARK_SUCCESS ==> r.m.cnt() == (ArkCounts {
                nst: 0,
                nst_attempts: 0,
                nhnil: 0,
                ncfn: 0,
                netf: 0,
                nconstrfails: 0,
                checkpoint_step_idx: 0,
                AccumError: ZERO(),
            })
            &&& r.m.stp().h0u == ZERO()
            &&& r.m.stp().hold == ZERO()
            &&& r.m.stp().tcur == t
            &&& r.m.yn() == v_scale(ONE(), y, m.yn())
            &&& r.m.tol().tolsf == ONE()
        }),
{
    reveal(init);
    reveal(init_alloc);
    reveal(init_state);
    reveal(init_fresh);
    reveal(init_counters);
    reveal(init_rest);
    reveal(ask_init);
    reveal(put_ycur);
    reveal(put_stp);
    reveal(put_yn);
    reveal(put_flg);
    reveal(put_cnt);
    reveal(put_tol);
    reveal(put_hadapt);
    if let Some(id) = controller(m) {
        lemma_unseen_memory::<E>(ModuleCall::ControllerReset { id });
    }
}

/// A reset before the first evolution is a first initialisation.
pub proof fn law_early_reset_is_first_init<E: ArkEnv>(m: MemView, e: E, t: sunrealtype, y: NVec)
    requires
        !m.flg().initialized,
    ensures
        init(m, e, t, y, RESET_INIT) == init(m, e, t, y, FIRST_INIT),
{
    reveal(init);
    reveal(put_ycur);
}

/// A factor that is not positive rescales the step by one.
pub proof fn law_resize_factor<E: ArkEnv>(
    m: MemView,
    e: E,
    y0: NVec,
    hscale: sunrealtype,
    t0: sunrealtype,
    resize: Option<FnId>,
)
    requires
        r_le(hscale, ZERO()),
    ensures
        resize_all(m, e, y0, hscale, t0, resize) == resize_all(m, e, y0, ONE(), t0, resize),
{
    reveal(resize_all);
    reveal(resize_state);
    reveal(r_lt);
    reveal(r_eq);
}

/// A step that ends within roundoff of the stop time ends at it exactly.
pub proof fn law_step_ends_at_tstop(s: ArkStep, uround: sunrealtype)
    requires
        s.tstopset,
        r_le(r_abs(r_sub(s.tcur, s.tstop)), time_roundoff(uround, s.tcur, s.h)),
    ensures
        snap_to_tstop(s, uround).tcur == s.tstop,
{
    reveal(snap_to_tstop);
}

/// Only one internal step is taken in one-step mode.
pub proof fn law_one_step_mode<E: ArkEnv>(m: MemView, e: E, tout: sunrealtype, tret: sunrealtype)
    ensures
        ({
            let o = one_pass(m, e, tout, ARK_ONE_STEP, tret, 0);
            let r = evolve_from(m, e, tout, ARK_ONE_STEP, tret, 0);
            &&& !o.more
            &&& r.m == o.m
            &&& r.e == o.e
            &&& r.tret == o.tret
            &&& r.flag == o.flag
        }),
{
    reveal(one_pass);
    reveal(after_step);
    reveal(after_tout);
}

/// A return at the stop time returns exactly that time and clears it, where
/// the solution there could be interpolated if that was asked for.
pub proof fn law_tstop_return<E: ArkEnv>(m: MemView, e: E, tout: sunrealtype, tret: sunrealtype)
    requires
        !after_tstop(m, e, tout, tret).more,
        after_tstop(m, e, tout, tret).flag == ARK_TSTOP_RETURN,
        m.lim().tstopinterp && m.att().interp ==> show_at(m, e, m.stp().tstop).flag == ARK_SUCCESS,
    ensures
        after_tstop(m, e, tout, tret).tret == m.stp().tstop,
        !after_tstop(m, e, tout, tret).m.stp().tstopset,
        after_tstop(m, e, tout, tret).m.stp().tretlast == m.stp().tstop,
{
    reveal(after_tstop);
    reveal(put_stp);
}

/// In normal mode a successful return without interpolation is at the current
/// time, which has reached or passed `tout`.
pub proof fn law_normal_return<E: ArkEnv>(m: MemView, e: E, tout: sunrealtype, tret: sunrealtype)
    requires
        !after_tout(m, e, tout, ARK_NORMAL, tret).more,
    ensures
        r_le(ZERO(), r_mul(r_sub(m.stp().tcur, tout), m.stp().h)),
        !m.att().interp ==> after_tout(m, e, tout, ARK_NORMAL, tret).tret == m.stp().tcur,
        m.att().interp && after_tout(m, e, tout, ARK_NORMAL, tret).flag == ARK_SUCCESS
            ==> after_tout(m, e, tout, ARK_NORMAL, tret).tret == tout,
{
    reveal(after_tout);
}

/// Without allocated memory, or with an unknown task, nothing is integrated.
pub proof fn law_evolve_refuses<E: ArkEnv>(
    m: MemView,
    e: E,
    tout: sunrealtype,
    yout: NVec,
    tret: sunrealtype,
    itask: i32,
)
    ensures
        !m.flg().MallocDone ==> ({
            let r = evolve(m, e, tout, yout, tret, itask);
            r.m == m && r.e == e && r.tret == tret && r.flag == ARK_NO_MALLOC
        }),
        m.flg().MallocDone && itask != ARK_NORMAL && itask != ARK_ONE_STEP ==> ({
            let r = evolve(m, e, tout, yout, tret, itask);
            r.m == put_ycur(m, yout) && r.e == e && r.tret == tret && r.flag == ARK_ILL_INPUT
        }),
{
    reveal(evolve);
}

/// A call that has used up its steps takes no further one, where the weights
/// can be computed.
pub proof fn law_step_limit<E: ArkEnv>(m: MemView, e: E, tret: sunrealtype, nstloc: i64)
    requires
        weights_now(m, e).flag == 0,
        0 < weights_now(m, e).m.lim().mxstep <= nstloc,
    ensures
        !before_step(m, e, tret, nstloc).more,
        before_step(m, e, tret, nstloc).flag == ARK_TOO_MUCH_WORK,
        before_step(m, e, tret, nstloc).e == weights_now(m, e).e,
{
    reveal(before_step);
}

/// A known failure is reported as it is, every other one as unrecognised; a
/// report is final.
pub proof fn law_failures_reported(flag: i32)
    ensures
        known_failure(flag) ==> handle_failure(flag) == flag,
        handle_failure(handle_failure(flag)) == handle_failure(flag),
        handle_failure(flag) < 0,
{
}

/// A vector that exists is left alone, whatever the template, and counts as
/// allocated; one that does not is allocated exactly where the template can be
/// cloned and destroyed, and once freed again it leaves the work space accounts
/// as they were.
pub proof fn law_alloc_free(m: MemView, tmpl: NVec, v: NVec)
    ensures
        v.live ==> alloc_vec(m, tmpl, v) == (m, v, true),
        !v.live && !(tmpl.ops().nvclone && tmpl.ops().nvdestroy) ==> alloc_vec(m, tmpl, v) == (
            m,
            v,
            false,
        ),
        !v.live && tmpl.ops().nvclone && tmpl.ops().nvdestroy ==> ({
            let a = alloc_vec(m, tmpl, v);
            let f = free_vec(a.0, a.1);
            &&& a.2
            &&& a.1.live
            &&& f.0.acc() == m.acc()
            &&& f.0 == m
            &&& !f.1.live
        }),
{
    reveal(alloc_vec);
    reveal(free_vec);
    reveal(charge);
    reveal(refund);
    reveal(put_acc);
    reveal(v_clone);
    reveal(v_null);
}

/// An array of vectors that was accounted for and freed again leaves the
/// accounts as they were.
pub proof fn law_array_accounts(a: i64, count: i32, each: i64)
    ensures
        unaccount(account(a, count, each), count, each) == a,
{
}

/// Weights from scalar tolerances: where they are found, component `i` is
/// `1 / (reltol |y_i| + abstol)`.
pub proof fn law_scalar_weights(m: MemView, y: NVec, w: NVec, i: int)
    requires
        ewt_ss(m, y, w).flag == 0,
        0 <= i < w.data.len(),
        i < m.tempv1().data.len(),
    ensures
        ewt_ss(m, y, w).w.data[i] == r_div(
            ONE(),
            r_add(
                scaled_by(m.tol().reltol, r_abs(at(y, i))),
                m.tol().Sabstol,
            ),
        ),
{
    reveal(ewt_ss);
    reveal(invert);
    reveal(denominators_s);
    reveal(v_inv);
    reveal(v_addconst);
    reveal(v_scale);
    reveal(v_abs);
    reveal(v_fill);
}

/// Weights from a relative tolerance and a vector of absolute ones: where they
/// are found, component `i` is `1 / (reltol |y_i| + abstol_i)`.
pub proof fn law_vector_weights(m: MemView, y: NVec, w: NVec, i: int)
    requires
        ewt_sv(m, y, w).flag == 0,
        0 <= i < w.data.len(),
        i < m.tempv1().data.len(),
    ensures
        ewt_sv(m, y, w).w.data[i] == r_div(
            ONE(),
            lin(m.tol().reltol, r_abs(at(y, i)), ONE(), at(m.Vabstol(), i)),
        ),
{
    reveal(ewt_sv);
    reveal(invert);
    reveal(denominators_v);
    reveal(v_inv);
    reveal(v_lin);
    reveal(v_abs);
    reveal(v_fill);
}

/// Residual weights of their own follow the same formulas with the residual
/// tolerances.
pub proof fn law_residual_weights(m: MemView, y: NVec, w: NVec, i: int)
    requires
        0 <= i < w.data.len(),
        i < m.tempv1().data.len(),
    ensures
        rwt_ss(m, y, w).flag == 0 ==> rwt_ss(m, y, w).w.data[i] == r_div(
            ONE(),
            r_add(scaled_by(m.tol().reltol, r_abs(at(y, i))), m.tol().SRabstol),
        ),
        rwt_sv(m, y, w).flag == 0 ==> rwt_sv(m, y, w).w.data[i] == r_div(
            ONE(),
            lin(m.tol().reltol, r_abs(at(y, i)), ONE(), at(m.VRabstol(), i)),
        ),
{
    reveal(rwt_ss);
    reveal(rwt_sv);
    reveal(invert);
    reveal(denominators_s);
    reveal(denominators_v);
    reveal(v_inv);
    reveal(v_addconst);
    reveal(v_scale);
    reveal(v_lin);
    reveal(v_abs);
    reveal(v_fill);
}

/// The local error test passes exactly where the error norm is at most one,
/// given that the step controller answers. A failure counts, and asks for
/// another attempt, unless it was the last one allowed or the step size is
/// already the smallest one: then it is final.
pub proof fn law_error_test<E: ArkEnv>(m: MemView, e: E, nflag: i32, nef: i32, dsm: sunrealtype)
    requires
        m.hadapt() is Some,
        module_run(
            m,
            e,
            ModuleCall::Adapt {
                t: if r_le(dsm, ONE()) {
                    r_add(m.stp().tn, m.stp().h)
                } else {
                    m.stp().tn
                },
                h: m.stp().h,
                dsm,
            },
        ).flag == ARK_SUCCESS,
    ensures
        (check_temporal(m, e, nflag, nef, dsm).flag == ARK_SUCCESS) == r_le(dsm, ONE()),
        check_temporal(m, e, nflag, nef, dsm).n == if r_le(dsm, ONE()) {
            nef
        } else {
            nef.wrapping_add(1)
        },
        !r_le(dsm, ONE()) ==> ({
            let r = module_run(m, e, ModuleCall::Adapt { t: m.stp().tn, h: m.stp().h, dsm });
            let o = check_temporal(m, e, nflag, nef, dsm);
            let last = nef.wrapping_add(1) == r.m.lim().maxnef;
            let smallest = r_eq(r_abs(m.stp().h), m.lim().hmin);
            &&& o.flag == if last || smallest {
                ARK_ERR_FAILURE
            } else {
                TRY_AGAIN
            }
            &&& o.nflag == PREV_ERR_FAIL
            &&& o.m.cnt().netf == r.m.cnt().netf.wrapping_add(1)
        }),
{
    reveal(check_temporal);
    reveal(with_eta);
    reveal(failure_eta);
    reveal(no_growth);
    reveal(put_cnt);
    reveal(put_stp);
    reveal(put_hadapt);
}

/// A step that fails the local error test, with attempts left, passes all the
/// same where it is forced to, also at the smallest step size; that it failed is
/// recorded. Where it is not forced, it is up to the step size whether another
/// attempt follows.
pub proof fn law_forced_pass<E: ArkEnv>(m: MemView, e: E, a: Attempt)
    requires
        !m.lim().fixedstep,
        m.hadapt() is Some,
        a.kflag == ARK_SUCCESS,
        !r_le(a.dsm, ONE()),
        ({
            let r = module_run(m, e, ModuleCall::Adapt { t: m.stp().tn, h: m.stp().h, dsm: a.dsm });
            r.flag == ARK_SUCCESS && a.nef.wrapping_add(1) != r.m.lim().maxnef
        }),
    ensures
        ({
            let r = module_run(m, e, ModuleCall::Adapt { t: m.stp().tn, h: m.stp().h, dsm: a.dsm });
            let o = try_error(m, e, a);
            &&& r.m.lim().force_pass ==> {
                &&& o.v == Verdict::Done
                &&& o.a.kflag == ARK_SUCCESS
                &&& o.m.flg().last_kflag == TRY_AGAIN
            }
            &&& !r.m.lim().force_pass ==> o.v == Verdict::Again && o.a.kflag == TRY_AGAIN
            &&& o.a.nef == a.nef.wrapping_add(1)
            &&& o.m.cnt().netf == r.m.cnt().netf.wrapping_add(1)
        }),
{
    reveal(try_error);
    reveal(check_temporal);
    reveal(with_eta);
    reveal(failure_eta);
    reveal(no_growth);
    reveal(put_cnt);
    reveal(put_stp);
    reveal(put_flg);
    reveal(put_hadapt);
}

/// A step whose solver succeeded passes the convergence check unchanged.
pub proof fn law_convergence_passes(m: MemView, ncf: i32)
    ensures
        ({
            let o = check_convergence(m, ARK_SUCCESS, ncf);
            o.m == m && o.n == ncf && o.flag == ARK_SUCCESS && o.nflag == ARK_SUCCESS
        }),
{
    reveal(check_convergence);
}

/// With steps of variable size a solver failure counts. A negative one is
/// fatal; a positive one asks for another attempt with a smaller step, unless
/// it was the last one allowed or the step is already at its smallest size.
pub proof fn law_solver_failures(m: MemView, nflag: i32, ncf: i32)
    requires
        !m.lim().fixedstep,
        m.hadapt() is Some,
        nflag != ARK_SUCCESS,
        nflag != ARK_RETRY_STEP,
    ensures
        ({
            let o = check_convergence(m, nflag, ncf);
            let last = ncf.wrapping_add(1) == m.lim().maxncf || at_hmin(m);
            &&& o.m.cnt().ncfn == m.cnt().ncfn.wrapping_add(1)
            &&& nflag < 0 ==> o.flag < 0 && o.n == ncf
            &&& nflag > 0 ==> o.n == ncf.wrapping_add(1)
            &&& nflag > 0 && !last ==> {
                &&& o.flag == PREDICT_AGAIN
                &&& o.nflag == PREV_CONV_FAIL
                &&& o.m.stp().eta == m.hadapt()->Some_0.etacf
            }
            &&& last && (nflag == CONV_FAIL || nflag == RHSFUNC_RECVR) ==> o.flag < 0
        }),
{
    reveal(check_convergence);
    reveal(no_growth);
    reveal(with_eta);
    reveal(put_cnt);
    reveal(put_stp);
    reveal(put_hadapt);
}

/// Residual weights that are the error weights stay equal to them.
pub proof fn law_shared_weights<E: ArkEnv>(m: MemView, e: E)
    requires
        load_ewt(m, e).m.tol().rwt_is_ewt,
    ensures
        load_ewt(m, e).m.rwt() == load_ewt(m, e).m.ewt(),
{
    reveal(load_ewt);
    reveal(put_ewt);
    reveal(put_rwt);
}

/// A first step estimate lies between its bounds, in the direction of
/// integration.
pub proof fn law_first_step_bounds(hnew: sunrealtype, hlb: sunrealtype, hub: sunrealtype)
    requires
        !hnew.is_nan(),
        !r_mul(crate::arkode_codes::H0_BIAS(), hnew).is_nan(),
        !hlb.is_nan(),
        !hub.is_nan(),
        r_le(hlb, hub),
    ensures
        r_le(hlb, finish_h0(hnew, hlb, hub, true)),
        r_le(finish_h0(hnew, hlb, hub, true), hub),
        finish_h0(hnew, hlb, hub, false) == crate::binary64::r_neg(
            finish_h0(hnew, hlb, hub, true),
        ),
{
    reveal(finish_h0);
    reveal(r_lt);
    reveal(r_eq);
}

/// A setup that is refused for its inputs changes nothing.
pub proof fn law_setup_refuses<E: ArkEnv>(m: MemView, e: E, tout: sunrealtype)
    requires
        check_inputs(m, tout) != ARK_SUCCESS,
    ensures
        initial_setup(m, e, tout).m == m,
        initial_setup(m, e, tout).e == e,
        initial_setup(m, e, tout).flag == check_inputs(m, tout),
        check_inputs(m, tout) == ARK_TOO_CLOSE || check_inputs(m, tout) == ARK_ILL_INPUT,
{
    reveal(initial_setup);
    reveal(check_inputs);
}

/// The call that hands a completed step to the interpolation module.
pub open spec fn interp_update(t: sunrealtype) -> ModuleCall {
    ModuleCall::InterpUpdate { t }
}

/// A completed step moves the last time and the last solution to the current
/// ones, counts the step, and records its size, where the interpolation module,
/// if it is there, leaves the memory alone.
pub proof fn law_completed_step<E: ArkEnv>(m: MemView, e: E, dsm: sunrealtype)
    requires
        m.att().interp ==> forall|t: sunrealtype|
            leaves_memory::<E>(#[trigger] interp_update(t)),
        complete_step(m, e, dsm).flag == ARK_SUCCESS,
    ensures
        ({
            let r = complete_step(m, e, dsm).m;
            &&& r.cnt().nst == m.cnt().nst.wrapping_add(1)
            &&& r.stp().tn == r.stp().tcur
            &&& r.stp().hold == m.stp().h
            &&& r.stp().h == m.stp().h
            &&& r.stp().hprime == r_mul(m.stp().h, m.stp().eta)
            &&& r.yn() == v_scale(ONE(), r.ycur(), m.yn())
            &&& !r.flg().fn_is_current
            &&& !r.flg().initsetup
        }),
        m.att().PostStepFn is None ==> complete_step(m, e, dsm).m.ycur() == m.ycur(),
{
    reveal(complete_step);
    reveal(advance_time);
    reveal(end_of_step);
    reveal(snap_to_tstop);
    reveal(post_step);
    reveal(update_interp);
    reveal(accept_solution);
    reveal(update_controller);
    reveal(close_step);
    reveal(usual_growth);
    reveal(put_ycur);
    reveal(put_stp);
    reveal(put_yn);
    reveal(put_flg);
    reveal(put_cnt);
    reveal(put_hadapt);
    let t = post_step(advance_time(m, dsm), e).m.stp().tcur;
    assert(m.att().interp ==> leaves_memory::<E>(interp_update(t)));
    if let Some(id) = controller(m) {
        lemma_unseen_memory::<E>(ModuleCall::ControllerUpdateH { id, h: m.stp().h, dsm });
    }
}

/// The constraints pass exactly where none of them is broken.
pub proof fn law_constraints(m: MemView, constrfails: i32, nflag: i32)
    ensures
        (check_constraints(m, constrfails, nflag).flag == ARK_SUCCESS) == all_hold(
            m.constraints(),
            m.ycur(),
            m.tempv4().data.len(),
        ),
{
    reveal(check_constraints);
}

/// Where no test for stopping applies, what would be returned is untouched, the
/// buffer for the solution included.
pub proof fn law_no_stop<E: ArkEnv>(
    m: MemView,
    e: E,
    y: Option<NVec>,
    tout: sunrealtype,
    tret: sunrealtype,
    itask: i32,
    ier: i32,
)
    requires
        stop_tests(m, e, y, tout, tret, itask, ier).stop == 0,
    ensures
        stop_tests(m, e, y, tout, tret, itask, ier).tret == tret,
        stop_tests(m, e, y, tout, tret, itask, ier).ier == ier,
        stop_tests(m, e, y, tout, tret, itask, ier).y == y,
{
    reveal(stop_tests);
    reveal(root_stop);
    reveal(near_root);
    reveal(later_root);
    reveal(tstop_stop);
    reveal(tout_stop);
}

} // verus!
