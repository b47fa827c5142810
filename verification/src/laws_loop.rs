//! Laws of the loops and of the order of things within a step: which stage
//! follows which, what an attempt consists of, and who is told of a step.
use crate::arkode_attempt::{
    attempt, attempt_all, attempts_from, count_attempt, first_attempt, pre_step, take_step,
    try_checks, try_constraints, try_error, try_relax, try_step, Attempt, Verdict,
};
use crate::arkode_checks::{check_constraints, check_temporal, with_eta};
use crate::arkode_codes::{
    ARK_CONTROLLER_ERR, ARK_ERR_FAILURE, ARK_ILL_INPUT, ARK_INNERSTEP_FAIL, ARK_NORMAL,
    ARK_ONE_STEP, ARK_POSTSTEPFN_FAIL, ARK_PRESTEPFN_FAIL, ARK_RETRY_STEP, ARK_SUCCESS, FIRST_CALL,
    SUN_SUCCESS,
};
use crate::arkode_evolve::{
    after_step, before_step, evolve, evolve_from, make_step, one_pass, start_evolve, weights_now,
};
use crate::arkode_impl::{ArkStep, FnId, InnerView, MemView, StepFn};
use crate::arkode_mem::{mput_stepper, mri, put_cnt, put_flg, put_stp, put_ycur, put_yn, with_mri};
use crate::arkode_setup::{initial_setup, load_ewt, load_rwt};
use crate::arkode_step::{
    accept_solution, advance_time, close_step, complete_step, controller, post_step,
    update_controller, update_interp,
};
use crate::arkode_stop::{show_yn, stop_tests, with_tretlast};
use crate::binary64::{r_abs, r_le, r_mul, sunrealtype};
use crate::env::{ArkEnv, InnerCall, InnerFn, ModuleCall, UserCall, UserFn};
use crate::mristep_begin::{begin_fast, error_estimate, prepare, setup_nls, start_rhs, with_tcur};
use crate::mristep_fast::fast_reset;
use crate::mristep_gark::{inner_stage, inner_stages, take_step_gark};
use crate::mristep_merk::{merk_group, merk_groups, merk_member, merk_members, take_step_merk};
use crate::mristep_ops::mri_reset;
use crate::mristep_rhs::eval_slow;
use crate::mristep_sr::{sr_stage, sr_stages, take_step_sr};
use crate::nvector::{v_null, v_scale, NVec};
use crate::outcome::{module_numbers, module_run};
use crate::sundials_types::{ONE, ZERO};
use vstd::prelude::*;

verus! {

/// The internal stages of a step run one after the other up to the last but one,
/// each from where the one before it ended; the first failure ends them.
pub proof fn law_stages_in_turn<E: ArkEnv>(
    m: MemView,
    e: E,
    is: i32,
    stages: i32,
    need: bool,
    embed: bool,
    nflag: i32,
)
    requires
        1 <= is < stages,
    ensures
        ({
            let a = inner_stage(m, e, is, need, embed, nflag);
            let o = inner_stages(m, e, is as int, stages as int, need, embed, nflag);
            &&& is == stages - 1 ==> o.m == m && o.e == e && o.nflag == nflag && o.flag
                == ARK_SUCCESS
            &&& is < stages - 1 && a.flag != ARK_SUCCESS ==> o == a
            &&& is < stages - 1 && a.flag == ARK_SUCCESS ==> o == inner_stages(
                a.m,
                a.e,
                is + 1,
                stages as int,
                need,
                embed,
                a.nflag,
            )
        }),
{
}

/// The stages of a stage-restart step run one after the other up to the one that
/// gives the solution.
pub proof fn law_restarts_in_turn<E: ArkEnv>(
    m: MemView,
    e: E,
    stage: i32,
    stages: i32,
    need: bool,
    nflag: i32,
)
    requires
        1 <= stage <= stages,
    ensures
        ({
            let a = sr_stage(m, e, stage, stages, need, nflag);
            let o = sr_stages(m, e, stage as int, stages, need, nflag);
            &&& stage == stages ==> o.m == m && o.e == e && o.nflag == nflag && o.flag
                == ARK_SUCCESS
            &&& stage < stages && a.flag != ARK_SUCCESS ==> o == a
            &&& stage < stages && a.flag == ARK_SUCCESS ==> o == sr_stages(
                a.m,
                a.e,
                stage + 1,
                stages,
                need,
                a.nflag,
            )
        }),
{
}

/// The members of a group run one after the other, each from the time that the
/// one before it reached, and the groups one after the other.
pub proof fn law_groups_in_turn<E: ArkEnv>(
    m: MemView,
    e: E,
    ig: i32,
    ngroup: i32,
    i: i32,
    stages: i32,
    t0: sunrealtype,
    need: bool,
    embed: bool,
    nflag: i32,
)
    requires
        0 <= ig < ngroup,
        0 <= i < stages,
    ensures
        ({
            let a = merk_member(m, e, ig, ngroup, i, stages, t0, need, embed, nflag);
            let o = merk_members(m, e, ig, ngroup, i as int, stages, t0, need, embed, nflag);
            &&& a.more ==> o == merk_members(
                a.m,
                a.e,
                ig,
                ngroup,
                i + 1,
                stages,
                a.t,
                need,
                embed,
                a.nflag,
            )
            &&& !a.more ==> o.m == a.m && o.e == a.e && o.nflag == a.nflag && o.flag == a.flag
        }),
        ({
            let a = merk_group(m, e, ig, ngroup, stages, need, embed, nflag);
            let o = merk_groups(m, e, ig as int, ngroup, stages, need, embed, nflag);
            &&& a.flag == ARK_SUCCESS ==> o == merk_groups(
                a.m,
                a.e,
                ig + 1,
                ngroup,
                stages,
                need,
                embed,
                a.nflag,
            )
            &&& a.flag != ARK_SUCCESS ==> o == a
        }),
        merk_groups(m, e, ngroup as int, ngroup, stages, need, embed, nflag).m == m,
{
}

/// A step of an exponential method prepares without a solver, runs all groups of
/// the table, and compares the solution with the embedding where an error is
/// wanted.
pub proof fn law_merk_step<E: ArkEnv>(
    m: MemView,
    e: E,
    dsm: sunrealtype,
    nflag: i32,
    t: crate::coupling::MRIStepCoupling,
)
    requires
        m.step_mem() is Some,
        mri(prepare(m, e, false, false).m).MRIC() == Some(t),
    ensures
        ({
            let p = prepare(m, e, false, false);
            let wants = !m.lim().fixedstep || m.lim().AccumErrorType
                != crate::arkode_codes::ARK_ACCUMERROR_NONE;
            let g = merk_groups(
                p.m,
                p.e,
                0,
                t.ngroup,
                mri(p.m).mth().stages,
                p.need,
                wants,
                ARK_SUCCESS,
            );
            let d = error_estimate(g.m, g.m.ycur(), g.m.tempv4());
            let o = take_step_merk(m, e, dsm, nflag);
            &&& p.flag != ARK_SUCCESS ==> o.m == p.m && o.e == p.e && o.flag == p.flag
            &&& p.flag == ARK_SUCCESS && g.flag != ARK_SUCCESS ==> o.m == g.m && o.e == g.e
                && o.flag == g.flag
            &&& p.flag == ARK_SUCCESS && g.flag == ARK_SUCCESS && !wants ==> o.m == g.m && o.dsm
                == ZERO() && o.flag == ARK_SUCCESS
            &&& p.flag == ARK_SUCCESS && g.flag == ARK_SUCCESS && wants ==> o.m == d.0 && o.dsm
                == d.1 && o.flag == ARK_SUCCESS
        }),
{
    reveal(take_step_merk);
}

/// The step that is taken is the one of the method; without one it is refused.
pub proof fn law_step_of_method<E: ArkEnv>(m: MemView, e: E, dsm: sunrealtype, nflag: i32)
    ensures
        ({
            let o = take_step(m, e, dsm, nflag);
            let k = m.att().step;
            &&& k is None ==> o.m == m && o.e == e && o.flag == ARK_ILL_INPUT
            &&& k == Some(StepFn::MRIGARK) ==> o == take_step_gark(m, e, dsm, nflag)
            &&& k == Some(StepFn::MERK) ==> o == take_step_merk(m, e, dsm, nflag)
            &&& k == Some(StepFn::MRISR) ==> o == take_step_sr(m, e, dsm, nflag)
        }),
{
    reveal(take_step);
}

/// The call of the user's function before the first attempt at a step.
pub open spec fn attempt_call(f: FnId, m: MemView) -> UserCall {
    UserCall {
        role: UserFn::PreStep,
        f,
        t: m.stp().tn,
        step: m.cnt().nst,
        attempt: 1,
        user_data: true,
    }
}

/// The function of the user before an attempt is told the last time, the step
/// and the attempt, and may change the solution: the current one where that is
/// kept up to date, else the last one. Its refusal ends the integration.
pub proof fn law_before_attempt<E: ArkEnv>(m: MemView, e: E, f: FnId, y: NVec)
    requires
        m.att().PreStepFn == Some(f),
        m.lim().ensure_ycur ==> y == m.ycur(),
        !m.lim().ensure_ycur ==> y == m.yn(),
    ensures
        ({
            let u = e.user_reply(attempt_call(f, m), y, y);
            let o = try_step(m, e, first_attempt());
            &&& u.flag != 0 ==> {
                &&& o.v == Verdict::Quit
                &&& o.a.kflag == ARK_PRESTEPFN_FAIL
                &&& o.e == u.env
                &&& m.lim().ensure_ycur ==> o.m.ycur() == u.out
                &&& !m.lim().ensure_ycur ==> o.m.yn() == u.out
            }
            &&& u.flag == 0 ==> exists|z: MemView|
                {
                    let r = #[trigger] take_step(z, u.env, ZERO(), FIRST_CALL);
                    &&& z.stp() == (ArkStep { tcur: m.stp().tn, ..m.stp() })
                    &&& m.lim().ensure_ycur ==> z.ycur() == u.out && z.yn() == m.yn()
                    &&& !m.lim().ensure_ycur ==> z.yn() == u.out && z.ycur() == m.ycur()
                    &&& o.e == r.e
                }
        }),
{
    reveal(try_step);
    reveal(count_attempt);
    reveal(pre_step);
    reveal(with_tcur);
    reveal(put_stp);
    reveal(put_cnt);
    reveal(put_ycur);
    reveal(put_yn);
    assert(0i32.wrapping_add(1) == 1);
    let u = e.user_reply(attempt_call(f, m), y, y);
    let b = count_attempt(m, first_attempt());
    let m1 = with_tcur(b.0, b.0.stp().tn);
    let p = pre_step(m1, e, 1);
    assert(p.e == u.env && p.flag == u.flag);
    let r = take_step(p.m, u.env, ZERO(), FIRST_CALL);
    assert(u.flag == 0 ==> try_step(m, e, first_attempt()).e == r.e);
}

/// The checks on an attempted step: relaxation first, where it is on, then the
/// constraints, where there are any, each only where the step has passed so far;
/// then the error test.
pub proof fn law_checks_in_turn<E: ArkEnv>(m: MemView, e: E, a: Attempt)
    requires
        a.kflag == ARK_SUCCESS,
        !m.att().relax_enabled,
    ensures
        ({
            let c = check_constraints(m, a.constrfails, a.nflag);
            let b = Attempt { constrfails: c.n, nflag: c.nflag, kflag: c.flag, ..a };
            let o = try_checks(m, e, a);
            &&& !m.constraints().live ==> o == try_error(m, e, a)
            &&& m.constraints().live && c.flag < 0 ==> o.v == Verdict::Done && o.m == c.m && o.a
                == b && o.e == e
            &&& m.constraints().live && c.flag >= 0 ==> o == try_error(c.m, e, b)
        }),
{
    reveal(try_checks);
    reveal(try_relax);
    reveal(try_constraints);
}

/// Relaxation is handed the error and its failures so far, and may change both;
/// a negative flag ends the attempts.
pub proof fn law_relaxation<E: ArkEnv>(m: MemView, e: E, a: Attempt)
    ensures
        ({
            let r = module_numbers(m, e, ModuleCall::Relax, a.dsm, a.relax_fails);
            let on = m.att().relax_enabled && a.kflag == ARK_SUCCESS;
            let o = try_relax(m, e, a);
            &&& !on ==> o.m == m && o.e == e && o.a == a && o.v == Verdict::Again
            &&& on ==> {
                &&& o.m == r.m
                &&& o.e == r.e
                &&& o.a == (Attempt { dsm: r.x, relax_fails: r.n, kflag: r.flag, ..a })
                &&& (o.v == Verdict::Done) == (r.flag < 0)
            }
        }),
{
    reveal(try_relax);
}

/// With steps of a fixed size there is no error test: the attempts end, and the
/// next step has the same size.
pub proof fn law_fixed_attempt<E: ArkEnv>(m: MemView, e: E, a: Attempt)
    requires
        m.lim().fixedstep,
    ensures
        ({
            let o = try_error(m, e, a);
            &&& o.v == Verdict::Done
            &&& o.a == a
            &&& o.e == e
            &&& o.m.stp() == (ArkStep { eta: ONE(), ..m.stp() })
        }),
{
    reveal(try_error);
    reveal(with_eta);
    reveal(put_stp);
}

/// A step that passes its error test ends the attempts with success.
pub proof fn law_passed_attempt<E: ArkEnv>(m: MemView, e: E, a: Attempt)
    requires
        !m.lim().fixedstep,
        a.kflag == ARK_SUCCESS,
        check_temporal(m, e, a.nflag, a.nef, a.dsm).flag == ARK_SUCCESS,
    ensures
        ({
            let t = check_temporal(m, e, a.nflag, a.nef, a.dsm);
            let o = try_error(m, e, a);
            &&& o.v == Verdict::Done
            &&& o.a.kflag == ARK_SUCCESS
            &&& o.e == t.e
            &&& o.m.stp() == t.m.stp()
            &&& o.m.ycur() == t.m.ycur()
        }),
{
    reveal(try_error);
    reveal(put_flg);
}

/// Attempts follow each other while one asks for the next, and a failure at the
/// smallest step ends them.
pub proof fn law_attempts_in_turn<E: ArkEnv>(m: MemView, e: E, a: Attempt, left: nat)
    ensures
        ({
            let o = attempt(m, e, a);
            let r = attempts_from(m, e, a, left);
            &&& o.v != Verdict::Again ==> r == o
            &&& o.v == Verdict::Again && left > 0 ==> r == attempts_from(
                o.m,
                o.e,
                o.a,
                (left - 1) as nat,
            )
        }),
        ({
            let t = try_step(m, e, a);
            let c = try_checks(t.m, t.e, t.a);
            let o = attempt(m, e, a);
            let least = r_le(
                r_abs(c.m.stp().h),
                r_mul(c.m.lim().hmin, crate::arkode_codes::ONEPSM()),
            );
            &&& t.v != Verdict::Again ==> o == t
            &&& t.v == Verdict::Again && c.v != Verdict::Again ==> o == c
            &&& t.v == Verdict::Again && c.v == Verdict::Again && least ==> o.v == Verdict::Quit
                && o.a.kflag == ARK_ERR_FAILURE && o.m == c.m
            &&& t.v == Verdict::Again && c.v == Verdict::Again && !least ==> o.v == Verdict::Again
        }),
        ({
            let z = put_flg(m, crate::arkode_impl::ArkFlags { last_kflag: 0, ..m.flg() });
            attempt_all(m, e) == attempts_from(z, e, first_attempt(), u64::MAX as nat)
        }),
{
    reveal(attempt);
    reveal(attempt_all);
}

/// Who is told of a completed step, and when: time advances; the user's function
/// sees the new time and solution and may change the solution; interpolation is
/// handed the new time; the solution is accepted; the controller is handed the
/// size and the error. The first failure ends the step.
pub proof fn law_completion_in_turn<E: ArkEnv>(m: MemView, e: E, dsm: sunrealtype, f: FnId, id: u64)
    requires
        m.att().PostStepFn == Some(f),
        m.att().interp,
    ensures
        ({
            let t = advance_time(m, dsm);
            let u = e.user_reply(
                UserCall {
                    role: UserFn::PostStep,
                    f,
                    t: t.stp().tcur,
                    step: m.cnt().nst,
                    attempt: 0,
                    user_data: true,
                },
                t.ycur(),
                t.ycur(),
            );
            let z = put_ycur(t, u.out);
            let i = module_run(z, u.env, ModuleCall::InterpUpdate { t: t.stp().tcur });
            let w = accept_solution(i.m);
            let c = module_run(
                w,
                i.e,
                ModuleCall::ControllerUpdateH { id, h: w.stp().h, dsm },
            );
            let o = complete_step(m, e, dsm);
            &&& u.flag != 0 ==> o.flag == ARK_POSTSTEPFN_FAIL && o.m == z && o.e == u.env
            &&& u.flag == 0 && i.flag != ARK_SUCCESS ==> o.flag == i.flag && o.m == i.m && o.e
                == i.e
            &&& u.flag == 0 && i.flag == ARK_SUCCESS && controller(w) is None ==> o.flag
                == ARK_SUCCESS && o.m == close_step(w) && o.e == i.e
            &&& u.flag == 0 && i.flag == ARK_SUCCESS && controller(w) == Some(id) && c.flag
                != SUN_SUCCESS ==> o.flag == ARK_CONTROLLER_ERR && o.m == c.m && o.e == c.e
            &&& u.flag == 0 && i.flag == ARK_SUCCESS && controller(w) == Some(id) && c.flag
                == SUN_SUCCESS ==> o.flag == ARK_SUCCESS && o.m == close_step(c.m) && o.e == c.e
            &&& w.yn() == v_scale(ONE(), i.m.ycur(), i.m.yn())
            &&& !w.flg().fn_is_current
        }),
{
    reveal(complete_step);
    reveal(advance_time);
    reveal(post_step);
    reveal(update_interp);
    reveal(update_controller);
    reveal(accept_solution);
    reveal(put_stp);
    reveal(put_cnt);
    reveal(put_ycur);
    reveal(put_yn);
    reveal(put_flg);
}

/// A pass of the integration: the tests before a step, the step, the reasons to
/// return after it; passes follow each other while one asks for the next.
pub proof fn law_passes_in_turn<E: ArkEnv>(
    m: MemView,
    e: E,
    tout: sunrealtype,
    itask: i32,
    tret: sunrealtype,
    nstloc: i64,
)
    requires
        nstloc < i64::MAX,
    ensures
        ({
            let b = before_step(m, e, tret, nstloc);
            let s = make_step(b.m, b.e, b.tret);
            let o = one_pass(m, e, tout, itask, tret, nstloc);
            &&& !b.more ==> o == b
            &&& b.more && !s.more ==> o == s
            &&& b.more && s.more ==> o == after_step(s.m, s.e, tout, itask, s.tret)
        }),
        ({
            let o = one_pass(m, e, tout, itask, tret, nstloc);
            let r = evolve_from(m, e, tout, itask, tret, nstloc);
            &&& o.more ==> r == evolve_from(o.m, o.e, tout, itask, o.tret, (nstloc + 1) as i64)
            &&& !o.more ==> r.m == o.m && r.e == o.e && r.tret == o.tret && r.flag == o.flag
        }),
{
    reveal(one_pass);
}

/// The weights of a step are loaded before it, except before the first one,
/// whose weights the setup has loaded; the size that would be reported is the
/// upcoming one.
pub proof fn law_weights_before_step<E: ArkEnv>(m: MemView, e: E)
    ensures
        ({
            let z = put_stp(m, ArkStep { next_h: m.stp().h, ..m.stp() });
            let a = load_ewt(z, e);
            let o = weights_now(m, e);
            &&& z.yn() == m.yn()
            &&& m.flg().initsetup ==> o.m == z && o.e == e && o.flag == 0
            &&& !m.flg().initsetup && a.flag != 0 ==> o == a
            &&& !m.flg().initsetup && a.flag == 0 ==> o == load_rwt(a.m, a.e)
        }),
{
    reveal(weights_now);
    reveal(put_stp);
    reveal(load_ewt);
}

/// An integration starts with the setup on a first call, at the current time,
/// and with the tests for returning at once on every other; the current time is
/// then the last one, with the last solution where the current one is kept up to
/// date.
pub proof fn law_evolution_starts<E: ArkEnv>(
    m: MemView,
    e: E,
    tout: sunrealtype,
    itask: i32,
    tret: sunrealtype,
)
    requires
        !m.flg().initsetup,
    ensures
        ({
            let s = stop_tests(m, e, None, tout, tret, itask, ARK_SUCCESS);
            let o = start_evolve(m, e, tout, itask, tret);
            &&& s.stop != 0 ==> o.m == s.m && o.e == s.e && o.tret == s.tret && o.flag == s.ier
                && !o.more
            &&& s.stop == 0 ==> {
                &&& o.more
                &&& o.e == s.e
                &&& o.m.stp() == (ArkStep { tcur: s.m.stp().tn, ..s.m.stp() })
                &&& o.m.yn() == s.m.yn()
                &&& s.m.lim().ensure_ycur ==> o.m.ycur() == v_scale(ONE(), s.m.yn(), s.m.ycur())
                &&& !s.m.lim().ensure_ycur ==> o.m.ycur() == s.m.ycur()
            }
        }),
{
    reveal(start_evolve);
    reveal(with_tcur);
    reveal(show_yn);
    reveal(put_stp);
    reveal(put_ycur);
}

/// A first call is set up towards the output time; a failure of the setup ends
/// it at the current time.
pub proof fn law_first_call<E: ArkEnv>(
    m: MemView,
    e: E,
    tout: sunrealtype,
    itask: i32,
    tret: sunrealtype,
)
    requires
        m.flg().initsetup,
    ensures
        ({
            let z = put_stp(m, ArkStep { tretlast: m.stp().tcur, ..m.stp() });
            let i = initial_setup(z, e, tout);
            let o = start_evolve(m, e, tout, itask, tret);
            &&& i.flag != ARK_SUCCESS ==> o.m == i.m && o.e == i.e && o.flag == i.flag && o.tret
                == m.stp().tcur && !o.more
            &&& i.flag == ARK_SUCCESS && i.m.flg().initsetup ==> {
                &&& o.more
                &&& o.e == i.e
                &&& o.tret == m.stp().tcur
                &&& o.m.stp() == (ArkStep { tcur: i.m.stp().tn, ..i.m.stp() })
            }
        }),
{
    reveal(start_evolve);
    reveal(with_tretlast);
    reveal(with_tcur);
    reveal(show_yn);
    reveal(put_stp);
    reveal(put_ycur);
}

/// A call to integrate: the buffer of the caller is the current solution; what
/// starts well goes through the passes from none.
pub proof fn law_evolution<E: ArkEnv>(
    m: MemView,
    e: E,
    tout: sunrealtype,
    y: NVec,
    tret: sunrealtype,
    itask: i32,
)
    requires
        m.flg().MallocDone,
        itask == ARK_NORMAL || itask == ARK_ONE_STEP,
    ensures
        ({
            let z = put_ycur(m, y);
            let a = start_evolve(z, e, tout, itask, tret);
            let o = evolve(m, e, tout, y, tret, itask);
            &&& z.ycur() == y
            &&& a.more ==> o == evolve_from(a.m, a.e, tout, itask, a.tret, 0)
            &&& !a.more ==> o.m == a.m && o.e == a.e && o.tret == a.tret && o.flag == a.flag
        }),
{
    reveal(evolve);
    reveal(put_ycur);
}

/// A step prepares in turn: the fast integrator, the nonlinear solver where the
/// method can be implicit, the right-hand sides. The first failure ends it;
/// whether the fast error is needed is known from the first part.
pub proof fn law_prepared<E: ArkEnv>(m: MemView, e: E, both: bool)
    ensures
        ({
            let a = begin_fast(m, e);
            let b = setup_nls(a.m, a.e);
            let c = start_rhs(b.m, b.e, true, both);
            let o = prepare(m, e, true, both);
            &&& o.need == a.need
            &&& a.flag != ARK_SUCCESS ==> o == a
            &&& a.flag == ARK_SUCCESS && b.flag != ARK_SUCCESS ==> o.m == b.m && o.e == b.e
                && o.flag == b.flag
            &&& a.flag == ARK_SUCCESS && b.flag == ARK_SUCCESS ==> o.m == c.m && o.e == c.e
                && o.flag == c.flag
        }),
        ({
            let a = begin_fast(m, e);
            let c = start_rhs(a.m, a.e, false, both);
            let o = prepare(m, e, false, both);
            &&& o.need == a.need
            &&& a.flag != ARK_SUCCESS ==> o == a
            &&& a.flag == ARK_SUCCESS ==> o.m == c.m && o.e == c.e && o.flag == c.flag
        }),
{
    reveal(prepare);
}

/// Every attempt counts, for the step and for the integration, except one that
/// the stepper asked to repeat.
pub proof fn law_attempts_counted(m: MemView, a: Attempt)
    ensures
        a.kflag == ARK_RETRY_STEP ==> count_attempt(m, a) == (m, a),
        a.kflag != ARK_RETRY_STEP ==> ({
            let o = count_attempt(m, a);
            &&& o.1 == (Attempt { attempts: a.attempts.wrapping_add(1), ..a })
            &&& o.0.cnt().nst_attempts == m.cnt().nst_attempts.wrapping_add(1)
            &&& o.0.cnt().nst == m.cnt().nst
            &&& put_cnt(o.0, m.cnt()) == m
        }),
{
    reveal(count_attempt);
    reveal(put_cnt);
}

/// A reset of the stepper resets the fast integrator to the state at the time,
/// and leaves the counters alone; a refusal is a failure of the fast
/// integration.
pub proof fn law_stepper_reset<E: ArkEnv>(
    m: MemView,
    e: E,
    t: sunrealtype,
    y: NVec,
    s: InnerView,
    f: FnId,
)
    requires
        m.step_mem() is Some,
        mri(m).stepper() == Some(s),
        s.ops().reset == Some(f),
    ensures
        ({
            let u = e.inner_reply(
                InnerCall { op: InnerFn::Reset, f, t0: t, t1: t, mode: 0, x: ZERO() },
                s,
                y,
                v_null(),
                ZERO(),
            );
            let o = mri_reset(m, e, t, y);
            &&& o.e == u.env
            &&& o.flag == if u.flag == ARK_SUCCESS {
                ARK_SUCCESS
            } else {
                ARK_INNERSTEP_FAIL
            }
            &&& mput_stepper(o.m, Some(s)) == m
        }),
{
    reveal(mri_reset);
    reveal(fast_reset);
    reveal(mput_stepper);
    reveal(with_mri);
    reveal(mri);
}

/// A problem with both slow right-hand sides evaluates the implicit one first,
/// then the explicit one at the same time and state; a failure of the first ends
/// it.
pub proof fn law_both_parts<E: ArkEnv>(m: MemView, e: E, t: sunrealtype, y: NVec, early: bool)
    ensures
        ({
            let a = eval_slow(m, e, t, y, true, false, early);
            let b = eval_slow(a.m, a.e, t, y, false, true, early);
            let o = eval_slow(m, e, t, y, true, true, early);
            &&& a.flag != ARK_SUCCESS ==> o == a
            &&& a.flag == ARK_SUCCESS ==> o == b
        }),
        ({
            let o = eval_slow(m, e, t, y, false, false, early);
            o.m == m && o.e == e && o.flag == ARK_SUCCESS
        }),
{
    reveal(eval_slow);
}

} // verus!
