//! Laws of an integrator as a whole: how it is made, what a new size or a new
//! state does to it, and how it runs as the fast integrator of another.
use crate::arkode_checks::{stepper_complete, vector_complete};
use crate::arkode_codes::{
    ARK_ILL_INPUT, ARK_INNERSTEP_FAIL, ARK_INVALID_TABLE, ARK_LINIT_FAIL, ARK_NLS_INIT_FAIL,
    ARK_NORMAL, ARK_SUCCESS, RESIZE_INIT, SUN_ADAPTCONTROLLER_MRI_H_TOL,
};
use crate::arkode_core::{
    ask_init, bare_mem, basic_settings, init_alloc, rescale, resize_finish, resize_state,
};
use crate::arkode_evolve::evolve;
use crate::arkode_impl::{ArkStep, EwtFn, FnId, InnerView, MemView, RwtFn};
use crate::arkode_inner::{force, inner_flag, inner_run};
use crate::arkode_mem::{
    mput_adp, mput_cnt, mput_nls, mput_prb, mput_stagetypes, mput_stepper, mri, put_acc, put_att,
    put_cnt, put_flg, put_lim, put_stp, put_tol, put_ycur, put_yn, with_mri,
};
use crate::arkode_setup::{load_ewt, load_rwt};
use crate::arkode_tol::{call_efun, call_rfun, ewt_ss, ewt_sv, rwt_set};
use crate::binary64::{r_add, r_div, r_eq, r_le, r_lt, r_mul, r_sub, sunrealtype};
use crate::env::{ArkEnv, InnerCall, InnerFn, ModuleCall, UserCall, UserFn};
use crate::inner_stepper::{inner_geterror, inner_op};
use crate::mristep_create::set_problem;
use crate::mristep_fast::{fast_error, read_fast_error};
use crate::mristep_init::{fill_kinds, init_solvers};
use crate::mristep_ops::{attach_linsol, set_inner_forcing, with_lmem};
use crate::mristep_table::{account_table, adopt_table, default_table, set_coupling};
use crate::nvector::{v_const, v_null, v_scale, NVec};
use crate::outcome::module_run;
use crate::sundials_types::{FOUR, ONE, SUN_SMALL_REAL, SUN_UNIT_ROUNDOFF, ZERO};
use vstd::prelude::*;

verus! {

/// A new size scales the upcoming step: its size becomes `hprime` times the
/// factor, with the factor as the ratio, unless that would overtake the stop
/// time; then it is the distance to it less four units of roundoff, with the
/// ratio that leads there. A factor that is not positive counts as one, which
/// changes nothing. State and time are the new ones.
pub proof fn law_rescaled_step(m: MemView, y0: NVec, hscale: sunrealtype, t0: sunrealtype)
    ensures
        ({
            let s = m.stp();
            let f = if r_le(hscale, ZERO()) {
                ONE()
            } else {
                hscale
            };
            let h = r_mul(s.hprime, f);
            let over = s.tstopset && r_lt(ZERO(), r_mul(r_sub(r_add(t0, h), s.tstop), h));
            let left = r_mul(
                r_sub(s.tstop, t0),
                r_sub(ONE(), r_mul(FOUR(), m.lim().uround)),
            );
            let r = resize_state(m, y0, hscale, t0);
            let n = r.stp();
            &&& r.ycur() == y0
            &&& n.tcur == t0
            &&& n.tn == t0
            &&& n.h == s.h
            &&& r_eq(f, ONE()) ==> n.hprime == s.hprime && n.eta == s.eta
            &&& !r_eq(f, ONE()) && !over ==> n.hprime == h && n.eta == f
            &&& !r_eq(f, ONE()) && over ==> n.hprime == left && n.eta == r_div(left, s.h)
            &&& n.tstop == s.tstop
            &&& n.tstopset == s.tstopset
        }),
{
    reveal(resize_state);
    reveal(rescale);
    reveal(put_stp);
    reveal(put_ycur);
}

/// After a new size the last solution is the new state, no right-hand side is
/// current, and the next call sets up again for that size.
pub proof fn law_resized_state(m: MemView, y0: NVec)
    ensures
        ({
            let r = resize_finish(m, y0);
            &&& r.yn() == v_scale(ONE(), y0, m.yn())
            &&& !r.flg().fn_is_current
            &&& r.flg().initsetup
            &&& r.flg().firststage
            &&& r.flg().init_type == RESIZE_INIT
            &&& r.stp() == m.stp()
        }),
{
    reveal(resize_finish);
    reveal(ask_init);
    reveal(put_yn);
    reveal(put_flg);
}

/// A first initialisation needs a complete stepper and complete vectors; once
/// the vectors are there it allocates none.
pub proof fn law_vectors_once(m: MemView, y0: NVec)
    ensures
        m.flg().MallocDone ==> init_alloc(m, y0) == (m, ARK_SUCCESS),
        !m.flg().MallocDone && (!stepper_complete(m) || !vector_complete(y0.ops())) ==> init_alloc(
            m,
            y0,
        ) == (m, ARK_ILL_INPUT),
        init_alloc(m, y0).1 == ARK_SUCCESS ==> init_alloc(m, y0).0.flg().MallocDone,
{
    reveal(init_alloc);
    reveal(put_flg);
}

/// The record of a new integrator: the arithmetic's unit roundoff, no step yet,
/// a setup asked for, weights shared, nothing accumulated.
pub proof fn law_new_record(m: MemView)
    ensures
        bare_mem().lim().uround == SUN_UNIT_ROUNDOFF(),
        bare_mem().acc().lrw == 18,
        bare_mem().acc().liw == 53,
        ({
            let r = basic_settings(m);
            &&& r.stp() == (ArkStep { h: ZERO(), h0u: ZERO(), ..m.stp() })
            &&& r.tol().rwt_is_ewt
            &&& r.flg().initsetup
            &&& r.flg().firststage
            &&& !r.flg().initialized
            &&& !r.flg().call_fullrhs
            &&& r.cnt().AccumError == ZERO()
            &&& r.lim().uround == m.lim().uround
            &&& !r.lim().ensure_ycur
            &&& !r.att().interp
            &&& r.att().interp_type == crate::arkode_codes::ARK_INTERP_HERMITE
            &&& r.att().interp_degree == crate::arkode_codes::ARK_INTERP_MAX_DEGREE
        }),
{
    reveal(bare_mem);
    reveal(basic_settings);
    reveal(put_lim);
    reveal(put_acc);
    reveal(put_att);
    reveal(put_tol);
    reveal(put_flg);
    reveal(put_stp);
    reveal(put_cnt);
}

/// An integrator run as the fast one of another: its stepper gets the forcing
/// over its interval, the stop time is the time to reach, and it integrates
/// there from the given state in normal mode; the forcing is taken away again.
/// Success and recoverable failures are told apart from the others.
pub proof fn law_inner_run<E: ArkEnv>(s: InnerView, m: MemView, e: E, tout: sunrealtype, y: NVec)
    requires
        s.ops().content is Some,
        m.ops().setforcing,
        m.step_mem() is Some,
    ensures
        ({
            let f = set_inner_forcing(
                m,
                s.sc().tshift,
                s.sc().tscale,
                s.forcing(),
                s.sc().nforcing,
            );
            let t = module_run(f, e, ModuleCall::SetStopTime { t: tout });
            let x = evolve(t.m, t.e, tout, y, ZERO(), ARK_NORMAL);
            let o = inner_run(s, m, e, tout, y);
            &&& t.flag != ARK_SUCCESS ==> o.flag == -1 && o.m == t.m && o.e == t.e && o.v == y
            &&& t.flag == ARK_SUCCESS ==> o.e == x.e
            &&& t.flag == ARK_SUCCESS && t.m.flg().MallocDone ==> o.v == x.m.ycur()
            &&& t.flag == ARK_SUCCESS && inner_flag(x.flag) < 0 ==> o.flag == -1 && o.m == x.m
            &&& t.flag == ARK_SUCCESS && inner_flag(x.flag) >= 0 && x.m.ops().setforcing
                && x.m.step_mem() is Some ==> {
                &&& o.flag == inner_flag(x.flag)
                &&& o.m == set_inner_forcing(x.m, ZERO(), ONE(), Seq::empty(), 0)
            }
        }),
{
    reveal(inner_run);
    reveal(force);
}

/// The error of the fast integrator that a stage reads: what the fast integrator
/// reports, relative to the slow tolerance, where the controller adapts the fast
/// tolerance; elsewhere nothing is read.
pub proof fn law_fast_error<E: ArkEnv>(m: MemView, e: E, kind: i32, s: InnerView, f: FnId)
    requires
        m.step_mem() is Some,
        mri(m).stepper() == Some(s),
        s.ops().geterror == Some(f),
    ensures
        ({
            let u = e.inner_reply(
                InnerCall {
                    op: InnerFn::GetError,
                    f,
                    t0: ZERO(),
                    t1: ZERO(),
                    mode: 0,
                    x: ZERO(),
                },
                s,
                v_null(),
                v_null(),
                mri(m).adp().inner_dsm,
            );
            let o = read_fast_error(m, e, kind);
            let read = kind == SUN_ADAPTCONTROLLER_MRI_H_TOL;
            &&& !read ==> o.m == m && o.e == e && o.flag == ARK_SUCCESS
            &&& read ==> o.e == u.env
            &&& read && u.flag != ARK_SUCCESS ==> o.flag == ARK_INNERSTEP_FAIL
            &&& read && u.flag == ARK_SUCCESS ==> {
                &&& o.flag == ARK_SUCCESS
                &&& mri(o.m).adp().inner_dsm == r_div(u.x, m.tol().reltol)
                &&& o.m.ycur() == m.ycur()
                &&& o.m.stp() == m.stp()
            }
        }),
{
    reveal(read_fast_error);
    reveal(fast_error);
    reveal(inner_geterror);
    reveal(inner_op);
    reveal(mput_adp);
    reveal(mput_stepper);
    reveal(with_mri);
    reveal(mri);
}

/// The slow right-hand sides of a problem: those that are given, none evaluated
/// yet, and no nonlinear solver.
pub proof fn law_problem_set(m: MemView, fse: Option<FnId>, fsi: Option<FnId>)
    requires
        m.step_mem() is Some,
    ensures
        ({
            let r = mri(set_problem(m, fse, fsi));
            &&& r.prb().fse == fse
            &&& r.prb().fsi == fsi
            &&& r.prb().explicit_rhs == (fse is Some)
            &&& r.prb().implicit_rhs == (fsi is Some)
            &&& !r.prb().fse_is_current
            &&& !r.prb().fsi_is_current
            &&& !r.nls().attached
            &&& !r.nls().ownNLS
        }),
        set_problem(m, fse, fsi).acc().liw == m.acc().liw.wrapping_add(49),
        set_problem(m, fse, fsi).acc().lrw == m.acc().lrw.wrapping_add(14),
{
    reveal(set_problem);
    reveal(mput_prb);
    reveal(mput_nls);
    reveal(put_acc);
    reveal(with_mri);
    reveal(mri);
}

/// A linear solver replaces the one before it, which is released first; its
/// counters start from zero.
pub proof fn law_linear_solver<E: ArkEnv>(
    m: MemView,
    e: E,
    linit: Option<FnId>,
    lsetup: Option<FnId>,
    lsolve: Option<FnId>,
    lfree: Option<FnId>,
    lmem: bool,
    f: FnId,
)
    requires
        m.step_mem() is Some,
        mri(m).nls().lfree == Some(f),
        module_run(m, e, ModuleCall::LinearFree { f }).m == m,
    ensures
        ({
            let o = attach_linsol(m, e, linit, lsetup, lsolve, lfree, lmem);
            let n = mri(o.m).nls();
            &&& o.flag == ARK_SUCCESS
            &&& o.e == module_run(m, e, ModuleCall::LinearFree { f }).e
            &&& n.linit == linit
            &&& n.lsetup == lsetup
            &&& n.lsolve == lsolve
            &&& n.lfree == lfree
            &&& n.nstlp == 0
            &&& mri(o.m).cnt().nsetups == 0
            &&& o.m.att().ark_lmem == lmem
        }),
{
    reveal(attach_linsol);
    reveal(with_lmem);
    reveal(put_att);
    reveal(mput_nls);
    reveal(mput_cnt);
    reveal(with_mri);
    reveal(mri);
}

/// The solvers that are attached are initialised, the linear one first; a
/// failure of either has its own flag.
pub proof fn law_solvers_initialised<E: ArkEnv>(m: MemView, e: E, f: FnId)
    requires
        mri(m).nls().linit == Some(f),
    ensures
        ({
            let a = module_run(m, e, ModuleCall::LinearInit { f });
            let b = module_run(a.m, a.e, ModuleCall::NlsInit);
            let o = init_solvers(m, e);
            &&& a.flag != 0 ==> o.flag == ARK_LINIT_FAIL && o.m == a.m && o.e == a.e
            &&& a.flag == 0 && !mri(a.m).nls().attached ==> o.flag == ARK_SUCCESS && o.m == a.m
                && o.e == a.e
            &&& a.flag == 0 && mri(a.m).nls().attached ==> o.m == b.m && o.e == b.e && o.flag
                == if b.flag == ARK_SUCCESS {
                ARK_SUCCESS
            } else {
                ARK_NLS_INIT_FAIL
            }
        }),
{
    reveal(init_solvers);
}

/// A table that the user chose stays; otherwise the default one for the order,
/// the problem and the kind of steps is loaded, and gives the stages and orders.
pub proof fn law_table_chosen<E: ArkEnv>(m: MemView, e: E)
    requires
        m.step_mem() is Some,
    ensures
        ({
            let p = mri(m).prb();
            let d = default_table(
                m.lim().fixedstep,
                p.implicit_rhs,
                p.explicit_rhs,
                mri(m).mth().q,
            );
            let o = set_coupling(m, e);
            &&& mri(m).MRIC() is Some ==> o.m == m && o.e == e && o.flag == ARK_SUCCESS
            &&& mri(m).MRIC() is None && d is None ==> o.m == m && o.e == e && o.flag
                == ARK_ILL_INPUT
            &&& mri(m).MRIC() is None && d is Some ==> {
                let r = module_run(m, e, ModuleCall::LoadTable { table: d->Some_0 });
                let a = account_table(r.m, r.e, true);
                &&& mri(r.m).MRIC() is None ==> o.flag == ARK_INVALID_TABLE && o.m == r.m
                &&& mri(r.m).MRIC() is Some ==> o.flag == ARK_SUCCESS && o.m == adopt_table(a.m)
                    && o.e == a.e
            }
        }),
{
    reveal(set_coupling);
}

/// Which orders have a default table: one to four for fixed steps, and five for
/// explicit problems; two to four for steps of variable size, and five for
/// explicit problems.
pub proof fn law_default_orders(fixed: bool, im: bool, ex: bool, q: i32)
    ensures
        (default_table(fixed, im, ex, q) is Some) == ({
            let lowest: i32 = if fixed {
                1
            } else {
                2
            };
            let highest: i32 = if im {
                4
            } else {
                5
            };
            lowest <= q <= highest
        }),
{
}

/// Error weights by the function in use: built-in ones from the tolerances, one
/// that never fails, or the user's, which is handed the state.
pub proof fn law_weight_function<E: ArkEnv>(m: MemView, e: E, y: NVec, w: NVec)
    ensures
        ({
            let o = call_efun(m, e, y, w);
            let f = m.tol().efun;
            &&& f is None ==> o.flag == -1 && o.w == w && o.m == m && o.e == e
            &&& f == Some(EwtFn::SetSS) ==> o.w == ewt_ss(m, y, w).w && o.flag == ewt_ss(
                m,
                y,
                w,
            ).flag && o.e == e
            &&& f == Some(EwtFn::SetSV) ==> o.w == ewt_sv(m, y, w).w && o.flag == ewt_sv(
                m,
                y,
                w,
            ).flag && o.e == e
            &&& f == Some(EwtFn::SetSmallReal) ==> o.w == v_const(SUN_SMALL_REAL(), w) && o.flag
                == 0 && o.m == m && o.e == e
            &&& f matches Some(EwtFn::User(id)) ==> {
                let u = e.user_reply(
                    UserCall {
                        role: UserFn::ErrorWeight,
                        f: id,
                        t: ZERO(),
                        step: 0,
                        attempt: 0,
                        user_data: m.tol().user_efun,
                    },
                    y,
                    w,
                );
                o.w == u.out && o.flag == u.flag && o.e == u.env && o.m == m
            }
        }),
{
    reveal(call_efun);
}

/// Residual weights by the function in use: those of the tolerances, or the
/// user's, which is handed the state.
pub proof fn law_residual_function<E: ArkEnv>(m: MemView, e: E, y: NVec, w: NVec)
    ensures
        ({
            let o = call_rfun(m, e, y, w);
            let f = m.tol().rfun;
            &&& f is None ==> o.flag == -1 && o.w == w && o.m == m && o.e == e
            &&& f == Some(RwtFn::RwtSet) ==> o == rwt_set(m, e, y, w)
            &&& f matches Some(RwtFn::User(id)) ==> {
                let u = e.user_reply(
                    UserCall {
                        role: UserFn::ResidualWeight,
                        f: id,
                        t: ZERO(),
                        step: 0,
                        attempt: 0,
                        user_data: m.tol().user_rfun,
                    },
                    y,
                    w,
                );
                o.w == u.out && o.flag == u.flag && o.e == u.env && o.m == m
            }
        }),
{
    reveal(call_rfun);
}

/// The weights of an integration are those at the last solution; residual
/// weights that are shared are the error weights.
pub proof fn law_weights_loaded<E: ArkEnv>(m: MemView, e: E)
    ensures
        ({
            let a = call_efun(m, e, m.yn(), m.ewt());
            let o = load_ewt(m, e);
            &&& o.m.ewt() == a.w
            &&& o.e == a.e
            &&& o.flag == a.flag
            &&& a.m.tol().rwt_is_ewt ==> o.m.rwt() == a.w
            &&& !a.m.tol().rwt_is_ewt ==> o.m.rwt() == a.m.rwt()
        }),
        ({
            let b = call_rfun(m, e, m.yn(), m.rwt());
            let o = load_rwt(m, e);
            &&& m.tol().rwt_is_ewt ==> o.m.rwt() == m.ewt() && o.e == e && o.flag == ARK_SUCCESS
            &&& !m.tol().rwt_is_ewt ==> o.m.rwt() == b.w && o.e == b.e && o.flag == b.flag
        }),
{
    reveal(load_ewt);
    reveal(load_rwt);
    reveal(crate::arkode_mem::put_ewt);
    reveal(crate::arkode_mem::put_rwt);
}

/// The kind that is stored for a stage is the answer to the question for it;
/// those of the stages before it stay.
pub proof fn law_kinds_stored<E: ArkEnv>(m: MemView, e: E, j: int, n: int)
    requires
        0 <= j <= n,
        module_run(m, e, ModuleCall::StageType { stage: j as i32 }).m.step_mem() is Some,
        j < mri(
            module_run(m, e, ModuleCall::StageType { stage: j as i32 }).m,
        ).stagetypes().len(),
    ensures
        ({
            let r = module_run(m, e, ModuleCall::StageType { stage: j as i32 });
            let k = mri(r.m).stagetypes();
            exists|z: MemView|
                {
                    let l = mri(z).stagetypes();
                    &&& fill_kinds(m, e, j, n) == #[trigger] fill_kinds(z, r.e, j + 1, n)
                    &&& l.len() == k.len()
                    &&& l[j] == r.flag
                    &&& forall|i: int| 0 <= i < l.len() && i != j ==> (#[trigger] l[i]) == k[i]
                    &&& mput_stagetypes(z, k) == r.m
                }
        }),
{
    let r = module_run(m, e, ModuleCall::StageType { stage: j as i32 });
    let k = mri(r.m).stagetypes();
    let z = mput_stagetypes(r.m, k.update(j, r.flag));
    reveal(mput_stagetypes);
    reveal(with_mri);
    reveal(mri);
    assert(fill_kinds(m, e, j, n) == fill_kinds(z, r.e, j + 1, n));
}

} // verus!
