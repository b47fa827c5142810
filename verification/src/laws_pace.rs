//! Laws of the step sizes: how large each attempt is, what a failure makes of
//! it, and how time advances.
use crate::arkode_attempt::{
    attempt, attempt_all, count_attempt, first_attempt, pre_step, shrink_step, take_step,
    try_checks, try_step, Attempt, Verdict,
};
use crate::arkode_checks::{
    bounded_eta, check_convergence, check_temporal, failure_eta, handle_failure, no_growth,
    with_eta,
};
use crate::arkode_codes::{
    ARK_ACCUMERROR_MAX, ARK_ACCUMERROR_NONE, ARK_ACCUMERROR_SUM, ARK_CONV_FAILURE, ARK_ERR_FAILURE,
    ARK_REPTD_RHSFUNC_ERR, ARK_SUCCESS, ARK_TOO_MUCH_ACC, ARK_TOO_MUCH_WORK, CONV_FAIL, FIRST_CALL,
    FUZZ_FACTOR, ONEPSM, RHSFUNC_RECVR,
};
use crate::arkode_evolve::{
    after_tstop, before_step, count_hnil, leave, make_step, next_step, report_step, weights_now,
    with_tolsf,
};
use crate::arkode_impl::{ArkStep, MemView};
use crate::arkode_mem::{put_cnt, put_flg, put_hadapt, put_stp, put_tol, put_ycur, put_yn};
use crate::arkode_step::{
    accept_solution, accumulate, advance_time, close_step, complete_step, controller, end_of_step,
    post_step, snap_to_tstop, time_roundoff, update_controller, update_interp, usual_growth,
};
use crate::arkode_stop::{limit_to_tstop, show_yn, with_tretlast};
use crate::binary64::{r_abs, r_add, r_div, r_eq, r_le, r_lt, r_mul, r_sub, sunrealtype};
use crate::env::{ArkEnv, ModuleCall};
use crate::mristep_begin::with_tcur;
use crate::nvector::{v_scale, v_wrms};
use crate::outcome::module_run;
use crate::sundials_math::{r_max, r_min};
use crate::sundials_types::{FOUR, ONE, TWO, ZERO};
use vstd::prelude::*;

verus! {

/// Whether all but the step and the count of empty steps is as it was.
pub open spec fn same_but_step(a: MemView, b: MemView) -> bool {
    put_cnt(put_stp(b, a.stp()), a.cnt()) == a
}

/// How a step that was attempted from memory `z` ends: it is completed, or the
/// integration ends with its failure.
pub open spec fn step_made<E: ArkEnv>(
    z: MemView,
    e: E,
    tret: sunrealtype,
    o: crate::arkode_evolve::LoopOut<E>,
) -> bool {
    let a = attempt_all(z, e);
    let c = complete_step(a.m, a.e, a.a.dsm);
    &&& a.v == Verdict::Quit ==> o.m == a.m && o.e == a.e && o.flag == a.a.kflag && !o.more
    &&& a.v != Verdict::Quit && a.a.kflag == ARK_SUCCESS && c.flag == ARK_SUCCESS ==> o.m == c.m
        && o.e == c.e && o.tret == tret && o.flag == ARK_SUCCESS && o.more
    &&& a.v != Verdict::Quit && a.a.kflag == ARK_SUCCESS && c.flag != ARK_SUCCESS ==> o.m == leave(
        c.m,
    ) && o.e == c.e && o.tret == c.m.stp().tcur && o.flag == handle_failure(c.flag) && !o.more
    &&& a.v != Verdict::Quit && a.a.kflag != ARK_SUCCESS ==> o.m == leave(a.m) && o.e == a.e
        && o.tret == a.m.stp().tcur && o.flag == handle_failure(a.a.kflag) && !o.more
}

/// With steps of variable size the first attempt at a step has the size
/// `h eta`, where the proposal differs from the last size at all; else it has
/// the last size. Nothing else of the step changes before it.
pub proof fn law_attempted_size<E: ArkEnv>(m: MemView, e: E, tret: sunrealtype)
    requires
        !m.lim().fixedstep,
    ensures
        exists|z: MemView|
            {
                let s = m.stp();
                let h = if r_eq(s.hprime, s.h) {
                    s.h
                } else {
                    r_mul(s.h, s.eta)
                };
                &&& #[trigger] step_made(z, e, tret, make_step(m, e, tret))
                &&& z.stp().h == h
                &&& !r_eq(s.hprime, s.h) ==> z.stp().next_h == h
                &&& z.stp().eta == s.eta
                &&& z.stp().hprime == s.hprime
                &&& z.stp().tn == s.tn
                &&& z.stp().tcur == s.tcur
                &&& z.stp().tstop == s.tstop
                &&& z.stp().tstopset == s.tstopset
                &&& z.cnt().nhnil == if r_eq(r_add(s.tcur, s.h), s.tcur) {
                    m.cnt().nhnil.wrapping_add(1)
                } else {
                    m.cnt().nhnil
                }
                &&& same_but_step(m, z)
            },
{
    reveal(make_step);
    reveal(count_hnil);
    reveal(next_step);
    reveal(put_stp);
    reveal(put_cnt);
    let m1 = count_hnil(m);
    let z = put_stp(m1, next_step(m1.stp(), m1.lim()));
    assert(step_made(z, e, tret, make_step(m, e, tret)));
}

/// With steps of a fixed size the first attempt has that size, unless it would
/// overtake the stop time: then it has the distance to it, less four units of
/// roundoff.
pub proof fn law_fixed_size<E: ArkEnv>(m: MemView, e: E, tret: sunrealtype)
    requires
        m.lim().fixedstep,
    ensures
        exists|z: MemView|
            {
                let s = m.stp();
                let over = s.tstopset && r_lt(
                    ZERO(),
                    r_mul(r_sub(r_add(s.tcur, s.hin), s.tstop), s.hin),
                );
                &&& #[trigger] step_made(z, e, tret, make_step(m, e, tret))
                &&& !over ==> z.stp().h == s.hin
                &&& over ==> z.stp().h == r_mul(
                    r_sub(s.tstop, s.tcur),
                    r_sub(ONE(), r_mul(FOUR(), m.lim().uround)),
                )
                &&& z.stp().next_h == s.hin
                &&& z.stp().tn == s.tn
                &&& z.stp().tcur == s.tcur
                &&& same_but_step(m, z)
            },
{
    reveal(make_step);
    reveal(count_hnil);
    reveal(next_step);
    reveal(put_stp);
    reveal(put_cnt);
    let m1 = count_hnil(m);
    let z = put_stp(m1, next_step(m1.stp(), m1.lim()));
    assert(step_made(z, e, tret, make_step(m, e, tret)));
}

/// The first attempt after a completed step has the size that step proposed:
/// `hprime`, which is `h eta` of the completed step.
pub proof fn law_size_after_step<E: ArkEnv>(m: MemView, e: E, dsm: sunrealtype, tret: sunrealtype)
    requires
        complete_step(m, e, dsm).flag == ARK_SUCCESS,
        !complete_step(m, e, dsm).m.lim().fixedstep,
    ensures
        ({
            let c = complete_step(m, e, dsm);
            let s = c.m.stp();
            &&& s.hprime == r_mul(s.h, s.eta)
            &&& s.tn == s.tcur
            &&& exists|z: MemView|
                {
                    &&& #[trigger] step_made(z, c.e, tret, make_step(c.m, c.e, tret))
                    &&& z.stp().h == s.hprime || (z.stp().h == s.h && r_eq(s.hprime, s.h))
                    &&& z.stp().tn == s.tn
                    &&& z.stp().tcur == s.tn
                }
        }),
{
    let c = complete_step(m, e, dsm);
    assert(c.m.stp().hprime == r_mul(c.m.stp().h, c.m.stp().eta) && c.m.stp().tn
        == c.m.stp().tcur) by {
        reveal(complete_step);
        reveal(close_step);
        reveal(usual_growth);
        reveal(put_stp);
        reveal(put_cnt);
        reveal(put_flg);
        reveal(put_hadapt);
    }
    law_attempted_size(c.m, c.e, tret);
}

/// Before a stop time that is not yet reached, the size of the next step is cut
/// where it would overtake it: to the distance to the stop time, less four units
/// of roundoff, with the factor that leads there. Where it would not, it stays.
pub proof fn law_cut_at_tstop<E: ArkEnv>(
    m: MemView,
    e: E,
    tout: sunrealtype,
    tret: sunrealtype,
)
    requires
        m.stp().tstopset,
        !r_le(
            r_abs(r_sub(m.stp().tcur, m.stp().tstop)),
            r_mul(
                r_mul(FUZZ_FACTOR(), m.lim().uround),
                r_add(r_abs(m.stp().tcur), r_abs(m.stp().h)),
            ),
        ),
    ensures
        ({
            let s = m.stp();
            let o = after_tstop(m, e, tout, tret);
            let r = o.m.stp();
            let over = r_lt(ZERO(), r_mul(r_sub(r_add(s.tcur, s.hprime), s.tstop), s.h));
            let left = r_mul(
                r_sub(s.tstop, s.tcur),
                r_sub(ONE(), r_mul(FOUR(), m.lim().uround)),
            );
            &&& o.more
            &&& o.e == e
            &&& o.tret == tret
            &&& over ==> r.hprime == left && r.eta == r_div(left, s.h)
            &&& !over ==> r == s
            &&& r.h == s.h
            &&& r.tcur == s.tcur
            &&& r.tn == s.tn
            &&& put_stp(o.m, s) == m
        }),
{
    reveal(after_tstop);
    reveal(time_roundoff);
    reveal(limit_to_tstop);
    reveal(put_stp);
}

/// With a stop time ahead the next attempt has, where the proposal would
/// overtake the stop time, the distance to it less four units of roundoff, as
/// far as a quotient and a product by the last size restore it.
pub proof fn law_attempt_before_tstop<E: ArkEnv>(
    m: MemView,
    e: E,
    tout: sunrealtype,
    tret: sunrealtype,
)
    requires
        !m.lim().fixedstep,
        m.stp().tstopset,
        !r_le(
            r_abs(r_sub(m.stp().tcur, m.stp().tstop)),
            r_mul(
                r_mul(FUZZ_FACTOR(), m.lim().uround),
                r_add(r_abs(m.stp().tcur), r_abs(m.stp().h)),
            ),
        ),
        r_lt(
            ZERO(),
            r_mul(r_sub(r_add(m.stp().tcur, m.stp().hprime), m.stp().tstop), m.stp().h),
        ),
    ensures
        ({
            let s = m.stp();
            let b = after_tstop(m, e, tout, tret).m;
            let left = r_mul(
                r_sub(s.tstop, s.tcur),
                r_sub(ONE(), r_mul(FOUR(), m.lim().uround)),
            );
            exists|z: MemView|
                {
                    &&& #[trigger] step_made(z, e, tret, make_step(b, e, tret))
                    &&& z.stp().tcur == s.tcur
                    &&& z.stp().h == r_mul(s.h, r_div(left, s.h)) || (z.stp().h == s.h && r_eq(
                        left,
                        s.h,
                    ))
                }
        }),
{
    law_cut_at_tstop(m, e, tout, tret);
    reveal(put_stp);
    let b = after_tstop(m, e, tout, tret).m;
    law_attempted_size(b, e, tret);
}

/// An attempt starts at the last time with the size that was set, and counts.
/// Without a function of the user before it, the stepper is handed the memory
/// with nothing else changed, the flag of a first call and no error yet.
pub proof fn law_attempt_starts<E: ArkEnv>(m: MemView, e: E)
    requires
        m.att().PreStepFn is None,
    ensures
        ({
            let o = try_step(m, e, first_attempt());
            exists|z: MemView|
                {
                    let r = #[trigger] take_step(z, e, ZERO(), FIRST_CALL);
                    let c = check_convergence(r.m, r.nflag, 0);
                    &&& z.stp() == (ArkStep { tcur: m.stp().tn, ..m.stp() })
                    &&& z.cnt().nst_attempts == m.cnt().nst_attempts.wrapping_add(1)
                    &&& z.cnt().nst == m.cnt().nst
                    &&& same_but_step(m, z)
                    &&& r.flag < 0 ==> o.m == r.m && o.e == r.e && o.a.kflag == r.flag && o.v
                        == Verdict::Done
                    &&& r.flag >= 0 ==> o.m == c.m && o.e == r.e && o.a.kflag == c.flag
                        && o.a.nflag == c.nflag && o.a.ncf == c.n && o.a.dsm == r.dsm && (o.v
                        == Verdict::Done <==> c.flag < 0)
                    &&& o.a.attempts == 1
                }
        }),
{
    reveal(try_step);
    reveal(count_attempt);
    reveal(pre_step);
    reveal(with_tcur);
    reveal(put_stp);
    reveal(put_cnt);
    let a = count_attempt(m, first_attempt());
    let z = with_tcur(a.0, a.0.stp().tn);
    let r = take_step(z, e, ZERO(), FIRST_CALL);
    assert(0i32.wrapping_add(1) == 1);
}

/// After a failed attempt that leaves room for another, the next one has the
/// size `h eta` and starts from the last time again; the proposal follows. It
/// starts from the last solution where the current one is kept up to date.
pub proof fn law_next_attempt<E: ArkEnv>(m: MemView, e: E, a: Attempt)
    requires
        attempt(m, e, a).v == Verdict::Again,
    ensures
        ({
            let t = try_step(m, e, a);
            let c = try_checks(t.m, t.e, t.a);
            let o = attempt(m, e, a);
            let s = c.m.stp();
            let r = o.m.stp();
            &&& t.v == Verdict::Again
            &&& c.v == Verdict::Again
            &&& !r_le(r_abs(s.h), r_mul(c.m.lim().hmin, ONEPSM()))
            &&& r.h == r_mul(s.h, s.eta)
            &&& r.hprime == r.h
            &&& r.next_h == r.h
            &&& r.tcur == s.tn
            &&& r.tn == s.tn
            &&& r.eta == s.eta
            &&& o.a == c.a
            &&& o.e == c.e
            &&& o.m.yn() == c.m.yn()
            &&& c.m.lim().ensure_ycur ==> o.m.ycur() == v_scale(ONE(), c.m.yn(), c.m.ycur())
            &&& !c.m.lim().ensure_ycur ==> o.m.ycur() == c.m.ycur()
        }),
{
    reveal(attempt);
    reveal(shrink_step);
    reveal(show_yn);
    reveal(put_stp);
    reveal(put_ycur);
}

/// A recoverable failure of the solvers, with steps of variable size, attempts
/// left and a step above the smallest: the factor is the one for convergence
/// failures, and the next step may not grow.
pub proof fn law_convergence_cut(m: MemView, nflag: i32, ncf: i32)
    requires
        !m.lim().fixedstep,
        m.hadapt() is Some,
        nflag > 0,
        nflag != crate::arkode_codes::ARK_RETRY_STEP,
    ensures
        ({
            let a = m.hadapt()->Some_0;
            let o = check_convergence(m, nflag, ncf);
            let last = ncf.wrapping_add(1) == m.lim().maxncf || r_le(
                r_abs(m.stp().h),
                r_mul(m.lim().hmin, ONEPSM()),
            );
            &&& o.m.hadapt() is Some
            &&& o.m.hadapt()->Some_0.etamax == ONE()
            &&& o.m.cnt().ncfn == m.cnt().ncfn.wrapping_add(1)
            &&& o.n == ncf.wrapping_add(1)
            &&& !last ==> o.m.stp() == (ArkStep { eta: a.etacf, ..m.stp() })
            &&& last && nflag == CONV_FAIL ==> o.flag == ARK_CONV_FAILURE
            &&& last && nflag == RHSFUNC_RECVR ==> o.flag == ARK_REPTD_RHSFUNC_ERR
        }),
{
    reveal(check_convergence);
    reveal(no_growth);
    reveal(with_eta);
    reveal(put_cnt);
    reveal(put_stp);
    reveal(put_hadapt);
}

/// The bounds on a proposed factor: at most the largest growth, then at least
/// what keeps the step at the smallest size, then no more than what keeps it at
/// the largest one.
pub open spec fn within_bounds(
    eta: sunrealtype,
    h: sunrealtype,
    etamax: sunrealtype,
    hmin: sunrealtype,
    hmax_inv: sunrealtype,
) -> sunrealtype {
    let b = r_max(r_min(eta, etamax), r_div(hmin, r_abs(h)));
    r_div(b, r_max(ONE(), r_mul(r_mul(r_abs(h), hmax_inv), b)))
}

/// A passed error test proposes the factor of the step controller, which is
/// handed the end of the step, kept within its bounds. Nothing is counted as a
/// failure.
pub proof fn law_passed_proposal<E: ArkEnv>(
    m: MemView,
    e: E,
    nflag: i32,
    nef: i32,
    dsm: sunrealtype,
)
    requires
        m.hadapt() is Some,
        r_le(dsm, ONE()),
    ensures
        ({
            let s = m.stp();
            let r = module_run(
                m,
                e,
                ModuleCall::Adapt { t: r_add(s.tn, s.h), h: s.h, dsm },
            );
            let o = check_temporal(m, e, nflag, nef, dsm);
            let etamax = match r.m.hadapt() {
                Some(a) => a.etamax,
                None => ZERO(),
            };
            &&& r.flag == ARK_SUCCESS ==> {
                &&& o.flag == ARK_SUCCESS
                &&& o.n == nef
                &&& o.m.stp() == (ArkStep {
                    eta: within_bounds(
                        r.m.stp().eta,
                        r.m.stp().h,
                        etamax,
                        r.m.lim().hmin,
                        r.m.lim().hmax_inv,
                    ),
                    ..r.m.stp()
                })
                &&& o.m.cnt() == r.m.cnt()
            }
            &&& r.flag != ARK_SUCCESS ==> o.flag == ARK_ERR_FAILURE && o.m == r.m
            &&& o.e == r.e
        }),
{
    reveal(check_temporal);
    reveal(with_eta);
    reveal(bounded_eta);
    reveal(put_stp);
}

/// A failed error test with attempts left: the controller is handed the start of
/// the step; its factor is kept within the bounds, at most one, and from the
/// given number of failures on at most the factor for repeated ones; the next
/// step may not grow.
pub proof fn law_failed_proposal<E: ArkEnv>(
    m: MemView,
    e: E,
    nflag: i32,
    nef: i32,
    dsm: sunrealtype,
)
    requires
        m.hadapt() is Some,
        !r_le(dsm, ONE()),
        ({
            let s = m.stp();
            let r = module_run(m, e, ModuleCall::Adapt { t: s.tn, h: s.h, dsm });
            &&& r.flag == ARK_SUCCESS
            &&& r.m.hadapt() is Some
            &&& nef.wrapping_add(1) != r.m.lim().maxnef
        }),
    ensures
        ({
            let s = m.stp();
            let r = module_run(m, e, ModuleCall::Adapt { t: s.tn, h: s.h, dsm });
            let o = check_temporal(m, e, nflag, nef, dsm);
            let a = r.m.hadapt()->Some_0;
            let l = r.m.lim();
            let first = within_bounds(r.m.stp().eta, r.m.stp().h, a.etamax, l.hmin, l.hmax_inv);
            let cut = if nef.wrapping_add(1) >= a.small_nef {
                r_min(first, a.etamxf)
            } else {
                first
            };
            &&& o.m.stp() == (ArkStep {
                eta: within_bounds(cut, r.m.stp().h, ONE(), l.hmin, l.hmax_inv),
                ..r.m.stp()
            })
            &&& o.m.hadapt() is Some
            &&& o.m.hadapt()->Some_0.etamax == ONE()
            &&& o.m.cnt().netf == r.m.cnt().netf.wrapping_add(1)
            &&& o.n == nef.wrapping_add(1)
            &&& o.e == r.e
        }),
{
    reveal(check_temporal);
    reveal(failure_eta);
    reveal(no_growth);
    reveal(with_eta);
    reveal(bounded_eta);
    reveal(put_cnt);
    reveal(put_stp);
    reveal(put_hadapt);
}

/// The end of a step in time: `tn + h`; with compensated sums the error of the
/// sums so far is taken off the step, and the new one is kept.
pub proof fn law_time_advances(m: MemView, dsm: sunrealtype)
    ensures
        ({
            let s = m.stp();
            let r = advance_time(m, dsm);
            let inc = r_sub(s.h, s.terr);
            let t = if m.lim().use_compensated_sums {
                r_add(s.tn, inc)
            } else {
                r_add(s.tn, s.h)
            };
            let terr = if m.lim().use_compensated_sums {
                r_sub(r_sub(t, s.tn), inc)
            } else {
                s.terr
            };
            let near = s.tstopset && r_le(
                r_abs(r_sub(t, s.tstop)),
                r_mul(r_mul(FUZZ_FACTOR(), m.lim().uround), r_add(r_abs(t), r_abs(s.h))),
            );
            let kind = m.lim().AccumErrorType;
            let sum = m.cnt().AccumError;
            &&& r.stp() == (ArkStep {
                tcur: if near {
                    s.tstop
                } else {
                    t
                },
                terr,
                ..s
            })
            &&& r.cnt().AccumError == if kind == ARK_ACCUMERROR_NONE {
                sum
            } else if kind == ARK_ACCUMERROR_MAX {
                r_max(dsm, sum)
            } else if kind == ARK_ACCUMERROR_SUM {
                r_add(sum, dsm)
            } else {
                r_add(sum, r_mul(dsm, s.h))
            }
            &&& same_but_step(m, r)
        }),
{
    reveal(advance_time);
    reveal(end_of_step);
    reveal(snap_to_tstop);
    reveal(time_roundoff);
    reveal(accumulate);
    reveal(put_stp);
    reveal(put_cnt);
}

/// A completed step, with no function of the user, no interpolation and no
/// controller to tell of it: the last time and solution are the current ones,
/// the step counts, its size is recorded, the next one is `h eta` and may grow
/// as usual.
pub proof fn law_plain_completion<E: ArkEnv>(m: MemView, e: E, dsm: sunrealtype)
    requires
        m.att().PostStepFn is None,
        !m.att().interp,
        controller(m) is None,
    ensures
        ({
            let s = m.stp();
            let o = complete_step(m, e, dsm);
            let t = advance_time(m, dsm).stp();
            &&& o.flag == ARK_SUCCESS
            &&& o.e == e
            &&& o.m.stp() == (ArkStep {
                tn: t.tcur,
                tcur: t.tcur,
                terr: t.terr,
                hold: s.h,
                hprime: r_mul(s.h, s.eta),
                ..s
            })
            &&& o.m.yn() == v_scale(ONE(), m.ycur(), m.yn())
            &&& o.m.ycur() == m.ycur()
            &&& o.m.cnt().nst == m.cnt().nst.wrapping_add(1)
            &&& o.m.cnt().checkpoint_step_idx == m.cnt().checkpoint_step_idx.wrapping_add(1)
            &&& m.hadapt() is Some ==> o.m.hadapt() is Some && o.m.hadapt()->Some_0.etamax
                == m.hadapt()->Some_0.growth
            &&& !o.m.flg().fn_is_current
            &&& !o.m.flg().initsetup
            &&& !o.m.flg().firststage
        }),
{
    law_time_advances(m, dsm);
    reveal(complete_step);
    reveal(advance_time);
    reveal(end_of_step);
    reveal(snap_to_tstop);
    reveal(post_step);
    reveal(update_interp);
    reveal(accept_solution);
    reveal(update_controller);
    reveal(close_step);
    reveal(usual_growth);
    reveal(put_ycur);
    reveal(put_stp);
    reveal(put_yn);
    reveal(put_flg);
    reveal(put_cnt);
    reveal(put_hadapt);
}

/// The tests before a step, given weights: the number of steps may not reach
/// its limit, and the tolerances must be above what the arithmetic can resolve,
/// which is measured by the unit roundoff times the norm of the last solution.
/// An integration that ends here hands out the last solution at the current
/// time.
pub proof fn law_before_step<E: ArkEnv>(m: MemView, e: E, tret: sunrealtype, nstloc: i64)
    requires
        weights_now(m, e).flag == 0,
    ensures
        ({
            let w = weights_now(m, e);
            let o = before_step(m, e, tret, nstloc);
            let x = r_mul(w.m.lim().uround, v_wrms(w.m.yn(), w.m.ewt()));
            let worked = if w.m.lim().mxstep > 0 {
                nstloc >= w.m.lim().mxstep
            } else {
                nstloc == i64::MAX
            };
            let fine = w.m.lim().fixedstep || !r_lt(ONE(), x);
            &&& o.e == w.e
            &&& o.more == (!worked && fine)
            &&& worked ==> o.flag == ARK_TOO_MUCH_WORK
            &&& !worked && !fine ==> o.flag == ARK_TOO_MUCH_ACC && o.m.tol().tolsf == r_mul(
                x,
                TWO(),
            )
            &&& o.more ==> o.flag == ARK_SUCCESS && o.tret == tret && o.m.tol().tolsf == ONE()
                && o.m.stp() == w.m.stp() && o.m.ycur() == w.m.ycur()
            &&& !o.more ==> {
                &&& o.tret == w.m.stp().tcur
                &&& o.m.stp().tretlast == w.m.stp().tcur
                &&& o.m.ycur() == v_scale(ONE(), w.m.yn(), w.m.ycur())
            }
            &&& o.m.yn() == w.m.yn()
        }),
{
    reveal(before_step);
    reveal(leave);
    reveal(show_yn);
    reveal(with_tretlast);
    reveal(with_tolsf);
    reveal(put_stp);
    reveal(put_tol);
    reveal(put_ycur);
}

/// What a return reports: the time of the solution, and the size proposed for
/// the next step.
pub proof fn law_reported_step(m: MemView, t: sunrealtype)
    ensures
        report_step(m, t).stp() == (ArkStep { tretlast: t, next_h: m.stp().hprime, ..m.stp() }),
        put_stp(report_step(m, t), m.stp()) == m,
{
    reveal(report_step);
    reveal(put_stp);
}

} // verus!
