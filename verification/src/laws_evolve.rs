//! Laws of an integration: where it returns, and with what.
use crate::arkode_attempt::{
    attempt, attempt_all, attempts_from, first_attempt, try_checks, try_constraints, try_error,
    try_relax, try_step, Attempt, Verdict,
};
use crate::arkode_codes::{
    ARK_NORMAL, ARK_ONE_STEP, ARK_ROOT_RETURN, ARK_SUCCESS, ARK_TSTOP_RETURN,
};
use crate::arkode_evolve::{
    after_roots, after_step, after_tout, after_tstop, before_step, evolve, evolve_from, make_step,
    one_pass, report_step, start_evolve,
};
use crate::arkode_impl::{ArkFlags, MemView};
use crate::arkode_mem::{put_cnt, put_flg, put_hadapt, put_stp, put_ycur, put_yn};
use crate::arkode_predict::{get_dky, interpolate};
use crate::arkode_setup::initial_setup;
use crate::arkode_step::{
    accept_solution, advance_time, close_step, complete_step, controller, post_step, time_roundoff,
    update_controller, update_interp, usual_growth,
};
use crate::arkode_stop::{
    give_at, give_yn, later_root, near_root, root_stop, root_tlo, show_at, show_yn, stop_tests,
    tout_stop, tstop_stop, with_tretlast,
};
use crate::binary64::{r_eq, r_le, r_mul, r_sub, sunrealtype};
use crate::env::{ArkEnv, ModuleCall};
use crate::nvector::{at, scaled_by, v_fill, v_scale, NVec};
use crate::outcome::{lemma_unseen_memory, module_run, module_vec};
use crate::sundials_types::{ONE, ZERO};
use vstd::prelude::*;

verus! {

/// The call that evaluates the interpolated solution.
pub open spec fn interp_evaluate(tau: sunrealtype, k: i32, degree: i32) -> ModuleCall {
    ModuleCall::InterpEvaluate { tau, k, degree }
}

/// Whether evaluating the interpolated solution answers with zero or a
/// negative flag, and leaves times, step sizes and attached modules alone.
pub open spec fn plain_interpolation<E: ArkEnv>() -> bool {
    forall|m: MemView, e: E, tau: sunrealtype, k: i32, degree: i32, v: NVec|
        {
            let r = #[trigger] module_vec(m, e, interp_evaluate(tau, k, degree), v);
            r.flag <= 0 && r.m.stp() == m.stp() && r.m.att() == m.att()
        }
}

/// Whether evaluating the interpolated solution leaves the limits alone.
pub open spec fn limits_kept<E: ArkEnv>() -> bool {
    forall|m: MemView, e: E, tau: sunrealtype, k: i32, degree: i32, v: NVec|
        (#[trigger] module_vec(m, e, interp_evaluate(tau, k, degree), v)).m.lim() == m.lim()
}

/// Whether the search for roots in a step leaves the solutions alone.
pub open spec fn solutions_kept<E: ArkEnv>(tout: sunrealtype, itask: i32) -> bool {
    forall|m: MemView, e: E|
        {
            let r = (#[trigger] module_run(m, e, ModuleCall::RootCheck3 { tout, itask })).m;
            r.ycur() == m.ycur() && r.yn() == m.yn()
        }
}

/// Whether `a` is `b` written into some vector.
pub open spec fn copies(a: NVec, b: NVec) -> bool {
    exists|z: NVec| a == #[trigger] v_scale(ONE(), b, z)
}

/// A copy has the components of what was copied.
pub proof fn law_copies(a: NVec, b: NVec)
    requires
        copies(a, b),
    ensures
        forall|i: int| 0 <= i < a.data.len() ==> (#[trigger] a.data[i]) == at(b, i),
{
    reveal(v_scale);
    reveal(v_fill);
    reveal(scaled_by);
    reveal(r_eq);
}

/// Whether the memory `m` and environment `e` came from `x` and `y` by writing
/// the interpolated solution at `t` into the current one.
pub open spec fn interpolated<E: ArkEnv>(
    x: MemView,
    y: E,
    m: MemView,
    e: E,
    t: sunrealtype,
) -> bool {
    let d = get_dky(x, y, t, 0, x.ycur());
    &&& d.flag == ARK_SUCCESS
    &&& m.ycur() == d.v
    &&& e == d.e
    &&& m.att() == x.att()
    &&& m.stp().tcur == x.stp().tcur
    &&& m.stp().tn == x.stp().tn
    &&& m.stp().h == x.stp().h
    &&& limits_kept::<E>() ==> m.lim() == x.lim()
}

/// What holds of a return with `flag` at time `tret` from an integration
/// towards `tout` that leaves the memory `m` and the environment `e`.
pub open spec fn fair_return<E: ArkEnv>(
    m: MemView,
    e: E,
    tret: sunrealtype,
    flag: i32,
    tout: sunrealtype,
    itask: i32,
) -> bool {
    // The stop time: cleared, with the last solution or the interpolated one.
    &&& flag == ARK_TSTOP_RETURN ==> {
        &&& tret == m.stp().tstop
        &&& m.stp().tretlast == tret
        &&& !m.stp().tstopset
        &&& copies(m.ycur(), m.yn()) || exists|x: MemView, y: E|
            #[trigger] interpolated(x, y, m, e, tret) && x.att().interp && x.lim().tstopinterp
    }
    // A root.
    &&& flag == ARK_ROOT_RETURN ==> {
        &&& tret == root_tlo(m)
        &&& m.stp().tretlast == tret
    }
    &&& flag == ARK_SUCCESS ==> m.stp().tretlast == tret
    // The output time, reached or passed.
    &&& flag == ARK_SUCCESS && itask == ARK_NORMAL ==> r_le(
        ZERO(),
        r_mul(r_sub(m.stp().tcur, tout), m.stp().h),
    )
    &&& flag == ARK_SUCCESS && itask == ARK_NORMAL && m.att().interp ==> {
        &&& tret == tout
        &&& exists|x: MemView, y: E| #[trigger] interpolated(x, y, m, e, tout)
    }
    &&& flag == ARK_SUCCESS && itask == ARK_NORMAL && !m.att().interp ==> {
        &&& tret == m.stp().tcur
        &&& copies(m.ycur(), m.yn())
    }
    // A single step: the current and the last solution are the same.
    &&& flag == ARK_SUCCESS && itask == ARK_ONE_STEP ==> {
        &&& tret == m.stp().tcur
        &&& solutions_kept::<E>(tout, itask) ==> copies(m.ycur(), m.yn()) || copies(
            m.yn(),
            m.ycur(),
        )
    }
}

proof fn lemma_show<E: ArkEnv>(m: MemView, e: E, t: sunrealtype)
    requires
        plain_interpolation::<E>(),
    ensures
        show_at(m, e, t).flag <= 0,
        show_at(m, e, t).m.stp() == m.stp(),
        show_at(m, e, t).m.att() == m.att(),
        limits_kept::<E>() ==> show_at(m, e, t).m.lim() == m.lim(),
        show_at(m, e, t).flag == get_dky(m, e, t, 0, m.ycur()).flag,
        show_at(m, e, t).m.ycur() == get_dky(m, e, t, 0, m.ycur()).v,
        show_at(m, e, t).e == get_dky(m, e, t, 0, m.ycur()).e,
        show_yn(m).stp() == m.stp(),
        show_yn(m).att() == m.att(),
        show_yn(m).yn() == m.yn(),
        copies(show_yn(m).ycur(), m.yn()),
{
    reveal(show_at);
    reveal(show_yn);
    reveal(get_dky);
    reveal(put_ycur);
    assert forall|x: MemView, y: E, tau: sunrealtype, k: i32, degree: i32, v: NVec| #![trigger
        interpolate(x, y, tau, k, degree, v)]
        ({
            let r = interpolate(x, y, tau, k, degree, v);
            &&& r.flag <= 0
            &&& r.m.stp() == x.stp()
            &&& r.m.att() == x.att()
            &&& limits_kept::<E>() ==> r.m.lim() == x.lim()
        }) by {
        reveal(interpolate);
        let r = module_vec(x, y, interp_evaluate(tau, k, degree), v);
        assert(r.flag <= 0 && r.m.stp() == x.stp() && r.m.att() == x.att());
    }
    assert(show_yn(m).ycur() == v_scale(ONE(), m.yn(), m.ycur()));
}

proof fn lemma_attempt_quits<E: ArkEnv>(m: MemView, e: E, a: Attempt)
    ensures
        attempt(m, e, a).v == Verdict::Quit ==> attempt(m, e, a).a.kflag < 0,
{
    reveal(attempt);
    let s = try_step(m, e, a);
    assert(s.v == Verdict::Quit ==> s.a.kflag < 0) by {
        reveal(try_step);
    }
    let c = try_checks(s.m, s.e, s.a);
    assert(c.v != Verdict::Quit) by {
        reveal(try_checks);
        reveal(try_relax);
        reveal(try_constraints);
        reveal(try_error);
    }
}

proof fn lemma_attempts_quit<E: ArkEnv>(m: MemView, e: E, a: Attempt, left: nat)
    ensures
        attempts_from(m, e, a, left).v == Verdict::Quit ==> attempts_from(m, e, a, left).a.kflag
            < 0,
    decreases left,
{
    lemma_attempt_quits(m, e, a);
    let o = attempt(m, e, a);
    if o.v == Verdict::Again && left > 0 {
        lemma_attempts_quit(o.m, o.e, o.a, (left - 1) as nat);
    }
}

proof fn lemma_completed<E: ArkEnv>(m: MemView, e: E, dsm: sunrealtype)
    ensures
        ({
            let c = complete_step(m, e, dsm);
            c.flag == ARK_SUCCESS ==> copies(c.m.yn(), c.m.ycur())
        }),
{
    reveal(complete_step);
    let a = post_step(advance_time(m, dsm), e);
    let b = update_interp(a.m, a.e);
    let n = accept_solution(b.m);
    assert(n.ycur() == b.m.ycur() && n.yn() == v_scale(ONE(), b.m.ycur(), b.m.yn())) by {
        reveal(accept_solution);
        reveal(put_yn);
        reveal(put_flg);
    }
    let c = update_controller(n, b.e, dsm);
    assert(c.m == n) by {
        reveal(update_controller);
        if let Some(id) = controller(n) {
            lemma_unseen_memory::<E>(
                ModuleCall::ControllerUpdateH { id, h: n.stp().h, dsm },
            );
        }
    }
    assert(close_step(n).ycur() == n.ycur() && close_step(n).yn() == n.yn()) by {
        reveal(close_step);
        reveal(usual_growth);
        reveal(put_cnt);
        reveal(put_stp);
        reveal(put_hadapt);
        reveal(put_flg);
    }
}

proof fn lemma_make_step<E: ArkEnv>(m: MemView, e: E, tret: sunrealtype)
    ensures
        !make_step(m, e, tret).more ==> make_step(m, e, tret).flag < 0,
        make_step(m, e, tret).more ==> copies(
            make_step(m, e, tret).m.yn(),
            make_step(m, e, tret).m.ycur(),
        ),
{
    reveal(make_step);
    assert forall|x: MemView, y: E, dsm: sunrealtype|
        (#[trigger] complete_step(x, y, dsm)).flag == ARK_SUCCESS implies copies(
        complete_step(x, y, dsm).m.yn(),
        complete_step(x, y, dsm).m.ycur(),
    ) by {
        lemma_completed(x, y, dsm);
    }
    assert forall|x: MemView, y: E|
        (#[trigger] attempt_all(x, y)).v == Verdict::Quit implies attempt_all(x, y).a.kflag < 0 by {
        reveal(attempt_all);
        lemma_attempts_quit(
            put_flg(x, ArkFlags { last_kflag: 0, ..x.flg() }),
            y,
            first_attempt(),
            u64::MAX as nat,
        );
    }
}

proof fn lemma_after_step<E: ArkEnv>(
    m: MemView,
    e: E,
    tout: sunrealtype,
    itask: i32,
    tret: sunrealtype,
)
    requires
        plain_interpolation::<E>(),
        itask == ARK_NORMAL || itask == ARK_ONE_STEP,
        copies(m.yn(), m.ycur()),
    ensures
        ({
            let o = after_step(m, e, tout, itask, tret);
            !o.more ==> fair_return(o.m, o.e, o.tret, o.flag, tout, itask)
        }),
{
    reveal(after_step);
    let r = after_roots(m, e, tout, itask, tret);
    assert(!r.more ==> fair_return(r.m, r.e, r.tret, r.flag, tout, itask)) by {
        reveal(after_roots);
        reveal(with_tretlast);
        reveal(put_stp);
    }
    assert(r.more && solutions_kept::<E>(tout, itask) ==> copies(r.m.yn(), r.m.ycur())) by {
        reveal(after_roots);
    }
    let s = after_tstop(r.m, r.e, tout, r.tret);
    lemma_tstop_return(r.m, r.e, tout, itask, r.tret);
    assert(s.more ==> s.m.ycur() == r.m.ycur() && s.m.yn() == r.m.yn()) by {
        reveal(after_tstop);
        reveal(put_stp);
    }
    let t = after_tout(s.m, s.e, tout, itask, s.tret);
    if r.more && s.more && !t.more {
        reveal(after_tout);
        reveal(report_step);
        reveal(put_stp);
        lemma_show(s.m, s.e, tout);
        if t.flag == ARK_SUCCESS && itask == ARK_NORMAL && s.m.att().interp {
            assert(interpolated(s.m, s.e, t.m, t.e, tout));
        }
    }
}

proof fn lemma_tstop_return<E: ArkEnv>(
    m: MemView,
    e: E,
    tout: sunrealtype,
    itask: i32,
    tret: sunrealtype,
)
    requires
        plain_interpolation::<E>(),
    ensures
        ({
            let o = after_tstop(m, e, tout, tret);
            !o.more ==> fair_return(o.m, o.e, o.tret, o.flag, tout, itask)
        }),
{
    reveal(after_tstop);
    reveal(put_stp);
    let t = m.stp().tstop;
    lemma_show(m, e, t);
    let o = after_tstop(m, e, tout, tret);
    if !o.more && o.flag == ARK_TSTOP_RETURN {
        if m.lim().tstopinterp && m.att().interp {
            assert(interpolated(m, e, o.m, o.e, t));
        } else {
            assert(o.m.ycur() == show_yn(m).ycur() && o.m.yn() == m.yn());
        }
    }
}

proof fn lemma_one_pass<E: ArkEnv>(
    m: MemView,
    e: E,
    tout: sunrealtype,
    itask: i32,
    tret: sunrealtype,
    nstloc: i64,
)
    requires
        plain_interpolation::<E>(),
        itask == ARK_NORMAL || itask == ARK_ONE_STEP,
    ensures
        ({
            let o = one_pass(m, e, tout, itask, tret, nstloc);
            &&& !o.more ==> fair_return(o.m, o.e, o.tret, o.flag, tout, itask)
            &&& nstloc == i64::MAX ==> !o.more
        }),
{
    reveal(one_pass);
    let b = before_step(m, e, tret, nstloc);
    assert((!b.more ==> b.flag < 0) && (nstloc == i64::MAX ==> !b.more)) by {
        reveal(before_step);
    }
    let s = make_step(b.m, b.e, b.tret);
    lemma_make_step(b.m, b.e, b.tret);
    if s.more {
        lemma_after_step(s.m, s.e, tout, itask, s.tret);
    }
}

proof fn lemma_evolve_from<E: ArkEnv>(
    m: MemView,
    e: E,
    tout: sunrealtype,
    itask: i32,
    tret: sunrealtype,
    nstloc: i64,
)
    requires
        plain_interpolation::<E>(),
        itask == ARK_NORMAL || itask == ARK_ONE_STEP,
    ensures
        ({
            let o = evolve_from(m, e, tout, itask, tret, nstloc);
            fair_return(o.m, o.e, o.tret, o.flag, tout, itask)
        }),
    decreases i64::MAX - nstloc,
{
    lemma_one_pass(m, e, tout, itask, tret, nstloc);
    let o = one_pass(m, e, tout, itask, tret, nstloc);
    if o.more && nstloc < i64::MAX {
        lemma_evolve_from(o.m, o.e, tout, itask, o.tret, (nstloc + 1) as i64);
    }
}

proof fn lemma_stop_tests<E: ArkEnv>(
    m: MemView,
    e: E,
    tout: sunrealtype,
    tret: sunrealtype,
    itask: i32,
)
    requires
        plain_interpolation::<E>(),
        itask == ARK_NORMAL || itask == ARK_ONE_STEP,
    ensures
        ({
            let o = stop_tests(m, e, None, tout, tret, itask, ARK_SUCCESS);
            o.stop != 0 ==> fair_return(o.m, o.e, o.tret, o.ier, tout, itask)
        }),
{
    reveal(stop_tests);
    let tround = time_roundoff(m.lim().uround, m.stp().tcur, m.stp().h);
    let a = root_stop(m, e, None, tout, itask, tround, tret, ARK_SUCCESS);
    assert((a.stop != 0 ==> fair_return(a.m, a.e, a.tret, a.ier, tout, itask)) && a.y is None) by {
        reveal(root_stop);
        reveal(near_root);
        reveal(later_root);
        reveal(with_tretlast);
        reveal(put_stp);
        reveal(give_yn);
        assert forall|x: MemView|
            (#[trigger] show_yn(x)).stp() == x.stp() && copies(show_yn(x).ycur(), show_yn(x).yn()) by {
            lemma_show(x, e, tout);
        }
    }
    let b = tstop_stop(a.m, a.e, None, tout, tround, a.tret, a.ier);
    assert((b.stop != 0 ==> fair_return(b.m, b.e, b.tret, b.ier, tout, itask)) && b.y is None) by {
        reveal(tstop_stop);
        reveal(give_yn);
        reveal(give_at);
        reveal(put_stp);
        let t = a.m.stp().tstop;
        lemma_show(a.m, a.e, t);
        if b.stop != 0 && b.ier == ARK_TSTOP_RETURN {
            if a.m.lim().tstopinterp && a.m.att().interp {
                assert(interpolated(a.m, a.e, b.m, b.e, t));
            } else {
                assert(b.m.ycur() == show_yn(a.m).ycur() && b.m.yn() == a.m.yn());
            }
        }
    }
    let c = tout_stop(b.m, b.e, None, tout, itask, tround, b.tret, b.ier);
    assert(c.stop != 0 ==> fair_return(c.m, c.e, c.tret, c.ier, tout, itask)) by {
        reveal(tout_stop);
        reveal(give_yn);
        reveal(give_at);
        reveal(with_tretlast);
        reveal(put_stp);
        lemma_show(b.m, b.e, tout);
        if c.stop != 0 && c.ier == ARK_SUCCESS {
            if itask == ARK_NORMAL && b.m.att().interp {
                assert(interpolated(b.m, b.e, c.m, c.e, tout));
            } else {
                assert(c.m.ycur() == show_yn(b.m).ycur() && c.m.yn() == b.m.yn());
            }
        }
    }
}

/// The returns of an integration.
///
/// At the stop time it returns exactly that time and clears it; the solution is
/// the last one, or the interpolated one where that is asked for. At a root it
/// returns the time of the root. Otherwise a successful return in normal mode
/// has reached or passed the output time; with interpolation it is at the output
/// time, with the interpolated solution there, without it at the current time,
/// with the last solution. A single step returns at the current time, with the
/// solution of that step. Each time is recorded as the last one returned.
///
/// This is where evaluating the interpolated solution, and the setup of a first
/// call, report their failures by negative flags.
pub proof fn law_evolve_returns<E: ArkEnv>(
    m: MemView,
    e: E,
    tout: sunrealtype,
    yout: NVec,
    tret: sunrealtype,
    itask: i32,
)
    requires
        m.flg().MallocDone,
        itask == ARK_NORMAL || itask == ARK_ONE_STEP,
        plain_interpolation::<E>(),
        m.flg().initsetup ==> initial_setup(
            with_tretlast(put_ycur(m, yout), m.stp().tcur),
            e,
            tout,
        ).flag <= 0,
    ensures
        ({
            let r = evolve(m, e, tout, yout, tret, itask);
            &&& fair_return(r.m, r.e, r.tret, r.flag, tout, itask)
            &&& r.flag == ARK_TSTOP_RETURN && !r.m.att().interp ==> copies(r.m.ycur(), r.m.yn())
            &&& r.flag == ARK_TSTOP_RETURN && limits_kept::<E>() && !r.m.lim().tstopinterp
                ==> copies(r.m.ycur(), r.m.yn())
        }),
{
    reveal(evolve);
    let m0 = put_ycur(m, yout);
    assert(m0.flg() == m.flg() && m0.stp() == m.stp()) by {
        reveal(put_ycur);
    }
    let a = start_evolve(m0, e, tout, itask, tret);
    if a.more {
        lemma_evolve_from(a.m, a.e, tout, itask, a.tret, 0);
    } else {
        reveal(start_evolve);
        if m.flg().initsetup {
            let i = initial_setup(with_tretlast(m0, m0.stp().tcur), e, tout);
            lemma_stop_tests(i.m, i.e, tout, m0.stp().tcur, itask);
        } else {
            lemma_stop_tests(m0, e, tout, tret, itask);
        }
    }
}

} // verus!
