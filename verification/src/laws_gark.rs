//! Laws of the stages of a step: the interval of each, how it is solved, and
//! what it leaves behind.
use crate::arkode_codes::{
    ARK_ACCUMERROR_NONE, ARK_FULLRHS_START, ARK_INNERSTEP_FAIL, ARK_INVALID_TABLE,
    ARK_NLS_SETUP_FAIL, ARK_NLS_SETUP_RECVR, ARK_POSTPROCESS_STAGE_FAIL, ARK_POSTPROCESS_STEP_FAIL,
    ARK_RHSFUNC_FAIL, ARK_SUCCESS, CONV_FAIL, MRISTAGE_DIRK_FAST, MRISTAGE_DIRK_NOFAST,
    MRISTAGE_ERK_FAST, MRISTAGE_ERK_NOFAST, MRISTAGE_STIFF_ACC,
};
use crate::arkode_impl::{FnId, InnerView, MemView};
use crate::arkode_mem::{
    mput_adp, mput_mth, mput_stepper, mri, put_flg, put_fn_, put_stp, put_tempv3, put_tempv4,
    put_ycur, with_mri,
};
use crate::binary64::{r_add, r_mul, sunrealtype};
use crate::coupling::{index_at, real_at, MRIStepCoupling};
use crate::env::{ArkEnv, InnerCall, InnerFn, ModuleCall, UserFn};
use crate::inner_stepper::{inner_op, inner_reseterror, inner_setrtol};
use crate::laws_forcing::row_entry;
use crate::laws_rhs::{law_store_explicit, reported, user_call, vector_of};
use crate::laws_sums::{component_of, law_linear_sum, pair_sum};
use crate::mristep_begin::{
    at_stage, begin_fast, error_estimate, fn_current, level_rhs, post_process, prepare,
    restart_fast, setup_nls, start_full, start_parts, start_rhs, store_slow, tune_fast, with_tcur,
};
use crate::mristep_fast::{
    adapt_kind, fast_clear, fast_rtol, inner_forcing, stage_erk_fast,
};
use crate::mristep_gark::{
    embedded_stage, evolve_stage, exchange, gark_stages, inner_stage, inner_stages, last_stage,
    settle_stage, solve_stage, step_end, store_stage, take_step_gark, time_at,
};
use crate::mristep_rhs::{full_rhs, process, update_f0};
use crate::mristep_sr::{
    correct_stage, evolve_from_start, finish_stage, merge_slow, sr_stage, sr_stages, sr_step,
    take_step_sr,
};
use crate::mristep_stage::{abscissa, stage_dirk_nofast, stage_erk_nofast};
use crate::nvector::{v_const, v_null, v_scale};
use crate::outcome::module_run;
use crate::sundials_types::{ONE, ZERO};
use vstd::prelude::*;

verus! {

/// An integer of a list, minus one where there is none.
pub open spec fn listed_index(s: Seq<i32>, i: int) -> i32 {
    if 0 <= i < s.len() {
        s[i]
    } else {
        (-1) as i32
    }
}

/// The time at an abscissa of the step.
pub open spec fn stage_time(m: MemView, c: sunrealtype) -> sunrealtype {
    r_add(m.stp().tn, r_mul(c, m.stp().h))
}

/// An internal stage goes from the time of the stage before it,
/// `tn + c[is - 1] h`, to its own, `tn + c[is] h`, at which the current time
/// stands; it is solved, settled, and its right-hand sides are stored. The first
/// failure ends it.
pub proof fn law_inner_stage<E: ArkEnv>(
    m: MemView,
    e: E,
    is: i32,
    need: bool,
    embed: bool,
    nflag: i32,
    t: MRIStepCoupling,
)
    requires
        m.step_mem() is Some,
        mri(m).MRIC() == Some(t),
    ensures
        ({
            let t0 = stage_time(m, row_entry(t.c@, is - 1));
            let tf = stage_time(m, row_entry(t.c@, is as int));
            let z = at_stage(with_tcur(m, tf), is);
            let kind = listed_index(mri(m).stagetypes(), is as int);
            let a = solve_stage(z, e, is, t0, tf, need, nflag);
            let b = settle_stage(
                a.m,
                a.e,
                kind,
                tf,
                UserFn::PostProcessStage,
                a.m.att().PostProcessStageFn,
                ARK_POSTPROCESS_STAGE_FAIL,
            );
            let c = store_stage(b.m, b.e, is, kind, embed);
            let o = inner_stage(m, e, is, need, embed, nflag);
            &&& z.stp().tcur == tf
            &&& z.ycur() == m.ycur()
            &&& mri(z).mth().istage == is
            &&& mri(z).mth().cur_stage == is
            &&& a.flag != ARK_SUCCESS ==> o == a
            &&& a.flag == ARK_SUCCESS && b.flag != ARK_SUCCESS ==> o.m == b.m && o.e == b.e
                && o.flag == b.flag
            &&& a.flag == ARK_SUCCESS && b.flag == ARK_SUCCESS ==> o.m == c.m && o.e == c.e
                && o.flag == c.flag && o.nflag == a.nflag
        }),
{
    reveal(inner_stage);
    reveal(index_at);
    reveal(time_at);
    reveal(abscissa);
    reveal(real_at);
    reveal(at_stage);
    reveal(with_tcur);
    reveal(put_stp);
    reveal(mput_mth);
    reveal(with_mri);
    reveal(mri);
}

/// How a stage is solved, by its kind: explicit with fast evolution over its
/// interval, with the forcing of the stage; explicit without; implicit without;
/// implicit with, which no table here may have; or as a copy of the stage before
/// it.
pub proof fn law_stage_solved<E: ArkEnv>(
    m: MemView,
    e: E,
    is: i32,
    t0: sunrealtype,
    tf: sunrealtype,
    need: bool,
    nflag: i32,
)
    requires
        0 <= is < mri(m).stagetypes().len(),
    ensures
        ({
            let kind = mri(m).stagetypes()[is as int];
            let o = solve_stage(m, e, is, t0, tf, need, nflag);
            let f = inner_forcing(m, is, t0, tf);
            let r = stage_erk_fast(f.0, e, t0, tf, f.0.ycur(), need);
            let n = stage_erk_nofast(m, is);
            &&& kind == MRISTAGE_ERK_FAST && f.1 != ARK_SUCCESS ==> o.m == f.0
                && o.e == e && o.flag == f.1
            &&& kind == MRISTAGE_ERK_FAST && f.1 == ARK_SUCCESS ==> {
                &&& o.m == put_ycur(r.m, r.v)
                &&& o.m.ycur() == r.v
                &&& o.e == r.e
                &&& o.flag == r.flag
                &&& r.flag != ARK_SUCCESS ==> o.nflag == CONV_FAIL
                &&& r.flag == ARK_SUCCESS ==> o.nflag == nflag
            }
            &&& kind == MRISTAGE_ERK_NOFAST ==> o.m == n.0 && o.flag == n.1
                && o.e == e && o.nflag == nflag
            &&& kind == MRISTAGE_DIRK_NOFAST ==> o == stage_dirk_nofast(
                m,
                e,
                is,
                nflag,
            )
            &&& kind == MRISTAGE_DIRK_FAST ==> o.m == m && o.e == e && o.flag
                == ARK_INVALID_TABLE
            &&& kind == MRISTAGE_STIFF_ACC ==> o.m == m && o.e == e && o.flag
                == ARK_SUCCESS && o.nflag == nflag
        }),
{
    reveal(solve_stage);
    reveal(index_at);
    reveal(evolve_stage);
    reveal(put_ycur);
}

/// After a stage that is no copy the user's function is handed the solution, and
/// the fast integrator is reset to what it leaves at the end of the stage. A
/// stage with fast evolution and no such function needs neither; a stage without
/// fast evolution needs the reset in any case.
pub proof fn law_stage_settled<E: ArkEnv>(
    m: MemView,
    e: E,
    kind: i32,
    tf: sunrealtype,
    role: UserFn,
    f: FnId,
    fail: i32,
)
    requires
        fail != ARK_SUCCESS,
    ensures
        ({
            let u = e.user_reply(user_call(role, f, m.stp().tcur), m.ycur(), m.ycur());
            let z = put_ycur(m, u.out);
            let o = settle_stage(m, e, kind, tf, role, Some(f), fail);
            let n = settle_stage(m, e, kind, tf, role, None, fail);
            let copy = kind == MRISTAGE_STIFF_ACC;
            &&& z.ycur() == u.out
            &&& copy ==> o.m == m && o.e == e && o.flag == ARK_SUCCESS && n == o
            &&& !copy && u.flag == 0 ==> o == restart_fast(z, u.env, tf)
            &&& !copy && u.flag != 0 ==> o.m == z && o.e == u.env && o.flag == fail
            &&& !copy && kind != MRISTAGE_ERK_FAST ==> n == restart_fast(
                m,
                e,
                tf,
            )
            &&& kind == MRISTAGE_ERK_FAST ==> n.m == m && n.e == e && n.flag
                == ARK_SUCCESS
        }),
{
    reveal(settle_stage);
    reveal(post_process);
    reveal(process);
    reveal(put_ycur);
}

/// The slow right-hand sides of a stage go to the slot that the table gives it,
/// those that the problem has; of an implicit stage the implicit one is deduced
/// where that is asked for. A stage without a slot, and one that is copied where
/// no error is wanted, has none.
pub proof fn law_stage_stored<E: ArkEnv>(m: MemView, e: E, is: i32, kind: i32, embed: bool)
    ensures
        ({
            let p = mri(m).prb();
            let slot = listed_index(mri(m).stage_map(), is as int);
            let copied = listed_index(mri(m).stagetypes(), is + 1)
                == MRISTAGE_STIFF_ACC;
            let o = store_stage(m, e, is, kind, embed);
            &&& slot == -1 || (copied && !embed) ==> o.m == m && o.e == e && o.flag == ARK_SUCCESS
            &&& slot != -1 && (!copied || embed) ==> o == store_slow(
                m,
                e,
                slot,
                p.explicit_rhs,
                p.implicit_rhs,
                p.deduce_rhs && kind == MRISTAGE_DIRK_NOFAST,
            )
        }),
{
    reveal(store_stage);
    reveal(index_at);
}

/// The explicit slow right-hand side that a stage of an explicit problem leaves:
/// the slot of the stage holds the user's function at the current time and
/// solution, and the evaluation counts.
pub proof fn law_stage_explicit_rhs<E: ArkEnv>(
    m: MemView,
    e: E,
    is: i32,
    kind: i32,
    f: FnId,
    slot: i32,
)
    requires
        m.step_mem() is Some,
        m.att().PreRhsFn is None,
        mri(m).prb().fse == Some(f),
        mri(m).prb().explicit_rhs,
        !mri(m).prb().implicit_rhs,
        0 <= is < mri(m).stage_map().len(),
        mri(m).stage_map()[is as int] == slot,
        0 <= slot < mri(m).Fse().len(),
        !mri(m).frc().expforcing,
    ensures
        ({
            let o = store_stage(m, e, is, kind, true);
            let u = e.user_reply(
                user_call(UserFn::ExplicitRhs, f, m.stp().tcur),
                m.ycur(),
                mri(m).Fse()[slot as int],
            );
            &&& o.flag == reported(u.flag)
            &&& o.e == u.env
            &&& u.flag == 0 ==> mri(o.m).Fse()[slot as int] == u.out
            &&& mri(o.m).cnt().nfse == mri(m).cnt().nfse.wrapping_add(1)
        }),
{
    reveal(store_stage);
    reveal(index_at);
    reveal(store_slow);
    law_store_explicit(m, e, slot, f);
    assert(store_stage(m, e, is, kind, true) == store_slow(m, e, slot, true, false, false));
}

/// The last stage goes from `tn + c[is - 1] h` to the end of the step, `tn + h`,
/// and ends with the user's function on the step; no right-hand side follows.
pub proof fn law_last_stage<E: ArkEnv>(
    m: MemView,
    e: E,
    is: i32,
    need: bool,
    nflag: i32,
    t: MRIStepCoupling,
)
    requires
        m.step_mem() is Some,
        mri(m).MRIC() == Some(t),
    ensures
        ({
            let t0 = stage_time(m, row_entry(t.c@, is - 1));
            let tf = r_add(m.stp().tn, m.stp().h);
            let z = with_tcur(at_stage(m, is), tf);
            let kind = listed_index(mri(m).stagetypes(), is as int);
            let a = solve_stage(z, e, is, t0, tf, need, nflag);
            let b = settle_stage(
                a.m,
                a.e,
                kind,
                tf,
                UserFn::PostProcessStep,
                a.m.att().PostProcessStepFn,
                ARK_POSTPROCESS_STEP_FAIL,
            );
            let o = last_stage(m, e, is, need, nflag);
            &&& z.stp().tcur == tf
            &&& z.ycur() == m.ycur()
            &&& mri(z).mth().istage == is
            &&& a.flag != ARK_SUCCESS ==> o == a
            &&& a.flag == ARK_SUCCESS ==> o.m == b.m && o.e == b.e && o.flag == b.flag && o.nflag
                == a.nflag
        }),
{
    reveal(last_stage);
    reveal(index_at);
    reveal(time_at);
    reveal(step_end);
    reveal(abscissa);
    reveal(real_at);
    reveal(at_stage);
    reveal(with_tcur);
    reveal(put_stp);
    reveal(mput_mth);
    reveal(with_mri);
    reveal(mri);
}

/// The embedded stage starts from the same solution as the last one, at
/// `tn + c[stages - 2] h`, and goes to the end of the step. What it reaches is
/// kept as the embedded solution, the solution before it is the current one
/// again, and the fast integrator goes back to the start of the stage.
pub proof fn law_embedded_stage<E: ArkEnv>(
    m: MemView,
    e: E,
    stages: i32,
    nflag: i32,
    t: MRIStepCoupling,
)
    requires
        m.step_mem() is Some,
        mri(m).MRIC() == Some(t),
    ensures
        ({
            let t0 = stage_time(m, row_entry(t.c@, stages - 2));
            let tf = r_add(m.stp().tn, m.stp().h);
            let copy = v_scale(ONE(), m.ycur(), m.tempv4());
            let z = with_tcur(
                put_ycur(put_tempv4(at_stage(m, stages), m.ycur()), copy),
                tf,
            );
            let a = solve_stage(z, e, stages, t0, tf, false, nflag);
            let x = put_tempv4(put_ycur(a.m, a.m.tempv4()), a.m.ycur());
            let b = restart_fast(x, a.e, t0);
            let o = embedded_stage(m, e, stages, nflag);
            &&& z.stp().tcur == tf
            &&& z.ycur() == copy
            &&& z.tempv4() == m.ycur()
            &&& x.ycur() == a.m.tempv4()
            &&& x.tempv4() == a.m.ycur()
            &&& a.flag != ARK_SUCCESS ==> o == a
            &&& a.flag == ARK_SUCCESS ==> o.m == b.m && o.e == b.e && o.flag == b.flag && o.nflag
                == a.nflag
        }),
{
    reveal(embedded_stage);
    reveal(exchange);
    reveal(time_at);
    reveal(step_end);
    reveal(abscissa);
    reveal(real_at);
    reveal(at_stage);
    reveal(with_tcur);
    reveal(put_stp);
    reveal(put_ycur);
    reveal(put_tempv4);
    reveal(mput_mth);
    reveal(with_mri);
    reveal(mri);
    let copy = v_scale(ONE(), m.ycur(), m.tempv4());
    let m1 = at_stage(m, stages);
    assert(exchange(put_tempv4(m1, v_scale(ONE(), m1.ycur(), m1.tempv4()))) == put_ycur(
        put_tempv4(at_stage(m, stages), m.ycur()),
        copy,
    ));
}

/// The stages of a step: the internal ones from the second on, the embedded one
/// where an error is wanted, and the last one; the error is that between the
/// solution and the embedded one.
pub proof fn law_all_stages<E: ArkEnv>(m: MemView, e: E, need: bool)
    requires
        mri(m).mth().stages >= 1,
    ensures
        ({
            let n = mri(m).mth().stages;
            let a = inner_stages(m, e, 1, n as int, need, false, ARK_SUCCESS);
            let c = last_stage(a.m, a.e, (n - 1) as i32, need, a.nflag);
            let o = gark_stages(m, e, need, false);
            &&& a.flag != ARK_SUCCESS ==> o.m == a.m && o.e == a.e && o.flag == a.flag
            &&& a.flag == ARK_SUCCESS ==> o.m == c.m && o.e == c.e && o.flag == c.flag && o.dsm
                == ZERO()
        }),
        ({
            let n = mri(m).mth().stages;
            let a = inner_stages(m, e, 1, n as int, need, true, ARK_SUCCESS);
            let b = embedded_stage(a.m, a.e, n, a.nflag);
            let c = last_stage(b.m, b.e, (n - 1) as i32, need, b.nflag);
            let d = error_estimate(c.m, c.m.ycur(), c.m.tempv4());
            let o = gark_stages(m, e, need, true);
            &&& a.flag != ARK_SUCCESS ==> o.m == a.m && o.e == a.e && o.flag == a.flag
            &&& a.flag == ARK_SUCCESS && b.flag != ARK_SUCCESS ==> o.m == b.m && o.e == b.e
                && o.flag == b.flag
            &&& a.flag == ARK_SUCCESS && b.flag == ARK_SUCCESS && c.flag != ARK_SUCCESS ==> o.m
                == c.m && o.e == c.e && o.flag == c.flag
            &&& a.flag == ARK_SUCCESS && b.flag == ARK_SUCCESS && c.flag == ARK_SUCCESS ==> o.m
                == d.0 && o.dsm == d.1 && o.e == c.e && o.flag == ARK_SUCCESS
        }),
{
    reveal(gark_stages);
}

/// A step wants an error where its size is variable or errors are accumulated.
/// It begins by preparing, with a solver but not both right-hand sides.
pub proof fn law_gark_step<E: ArkEnv>(m: MemView, e: E, dsm: sunrealtype, nflag: i32)
    requires
        m.step_mem() is Some,
    ensures
        ({
            let p = prepare(m, e, true, false);
            let wants = !m.lim().fixedstep || m.lim().AccumErrorType
                != ARK_ACCUMERROR_NONE;
            let o = take_step_gark(m, e, dsm, nflag);
            &&& p.flag != ARK_SUCCESS ==> o.m == p.m && o.e == p.e && o.flag == p.flag && o.dsm
                == ZERO()
            &&& p.flag == ARK_SUCCESS ==> o == gark_stages(p.m, p.e, p.need, wants)
        }),
{
    reveal(take_step_gark);
    reveal(crate::mristep_rhs::access_step_mem);
}

/// A stage of a stage-restart step is evolved from the start of the step,
/// corrected, and finished: the last but one of the `stages + 1` is the
/// solution, the last one the embedding.
pub proof fn law_restart_stage<E: ArkEnv>(
    m: MemView,
    e: E,
    stage: i32,
    stages: i32,
    need: bool,
    nflag: i32,
)
    ensures
        ({
            let a = evolve_from_start(m, e, stage, stage == stages, need, nflag);
            let b = correct_stage(a.m, a.e, stage, stage == stages, a.nflag);
            let c = finish_stage(
                b.m,
                b.e,
                stage,
                stage == stages - 1,
                stage == stages,
                crate::mristep_sr::needs_solve(a.m, stage),
            );
            let o = sr_stage(m, e, stage, stages, need, nflag);
            &&& a.flag != ARK_SUCCESS ==> o == a
            &&& a.flag == ARK_SUCCESS && b.flag != ARK_SUCCESS ==> o == b
            &&& a.flag == ARK_SUCCESS && b.flag == ARK_SUCCESS ==> o.m == c.m && o.e == c.e
                && o.flag == c.flag && o.nflag == b.nflag
        }),
{
    reveal(sr_stage);
}

/// All stages of a stage-restart step: those up to the solution, and the
/// embedding where an error is wanted; the error is that between the solution
/// and the embedding, and the solution is then the current one again.
pub proof fn law_restart_step<E: ArkEnv>(m: MemView, e: E, need: bool)
    requires
        mri(m).mth().stages >= 1,
    ensures
        ({
            let n = mri(m).mth().stages;
            let a = sr_stages(m, e, 1, n, need, ARK_SUCCESS);
            let o = sr_step(m, e, need, false);
            o.m == a.m && o.e == a.e && o.flag == a.flag && o.dsm == ZERO()
        }),
        ({
            let n = mri(m).mth().stages;
            let a = sr_stages(m, e, 1, n, need, ARK_SUCCESS);
            let b = sr_stage(a.m, a.e, n, n, need, a.nflag);
            let d = error_estimate(b.m, b.m.tempv4(), b.m.ycur());
            let o = sr_step(m, e, need, true);
            &&& a.flag != ARK_SUCCESS ==> o.m == a.m && o.e == a.e && o.flag == a.flag
            &&& a.flag == ARK_SUCCESS && b.flag != ARK_SUCCESS ==> o.m == b.m && o.e == b.e
                && o.flag == b.flag
            &&& a.flag == ARK_SUCCESS && b.flag == ARK_SUCCESS ==> {
                &&& o.flag == ARK_SUCCESS
                &&& o.dsm == d.1
                &&& o.e == b.e
                &&& o.m.ycur() == v_scale(ONE(), d.0.tempv4(), d.0.ycur())
                &&& put_ycur(o.m, d.0.ycur()) == d.0
            }
        }),
{
    reveal(sr_step);
    reveal(put_ycur);
}

/// A stage-restart step prepares with a solver and both right-hand sides; the
/// slow right-hand sides at the start of the step are merged before the first
/// stage.
pub proof fn law_restart_begins<E: ArkEnv>(m: MemView, e: E, dsm: sunrealtype, nflag: i32)
    requires
        m.step_mem() is Some,
    ensures
        ({
            let p = prepare(m, e, true, true);
            let wants = !m.lim().fixedstep || m.lim().AccumErrorType
                != ARK_ACCUMERROR_NONE;
            let o = take_step_sr(m, e, dsm, nflag);
            &&& p.flag != ARK_SUCCESS ==> o.m == p.m && o.e == p.e && o.flag == p.flag
            &&& p.flag == ARK_SUCCESS ==> o == sr_step(merge_slow(p.m, 0), p.e, p.need, wants)
        }),
{
    reveal(take_step_sr);
    reveal(crate::mristep_rhs::access_step_mem);
}

/// A step begins at its first stage; with steps of variable size the fast
/// integrator is reset to the current solution at the current time, with steps
/// of a fixed size it goes on from where it is. Without a controller that adapts
/// the fast tolerance, that is left alone.
pub proof fn law_step_begins<E: ArkEnv>(m: MemView, e: E)
    requires
        m.step_mem() is Some,
        crate::arkode_step::controller(m) is None,
    ensures
        ({
            let z = at_stage(m, 0);
            let b = restart_fast(z, e, m.stp().tcur);
            let o = begin_fast(m, e);
            &&& mri(z).mth().istage == 0
            &&& mri(z).mth().cur_stage == 0
            &&& z.ycur() == m.ycur()
            &&& z.stp() == m.stp()
            &&& !o.need
            &&& m.lim().fixedstep ==> o.m == z && o.e == e && o.flag == ARK_SUCCESS
            &&& !m.lim().fixedstep ==> o.m == b.m && o.e == b.e && o.flag == b.flag
        }),
{
    reveal(begin_fast);
    reveal(adapt_kind);
    reveal(tune_fast);
    reveal(at_stage);
    reveal(mput_mth);
    reveal(with_mri);
    reveal(mri);
}

/// Where the controller adapts the fast tolerance, the accumulated fast error is
/// cleared and the fast integrator is told the slow relative tolerance times the
/// factor of the controller. A refusal of either is a failure of the fast
/// integration.
pub proof fn law_fast_tolerance<E: ArkEnv>(
    m: MemView,
    e: E,
    s: InnerView,
    g: FnId,
    f: FnId,
    r: FnId,
)
    requires
        m.step_mem() is Some,
        mri(m).stepper() == Some(s),
        s.ops().geterror == Some(g),
        s.ops().reseterror == Some(f),
        s.ops().setrtol == Some(r),
    ensures
        ({
            let o = tune_fast(m, e, true);
            let a = e.inner_reply(
                InnerCall {
                    op: InnerFn::ResetError,
                    f,
                    t0: ZERO(),
                    t1: ZERO(),
                    mode: 0,
                    x: ZERO(),
                },
                s,
                v_null(),
                v_null(),
                ZERO(),
            );
            &&& a.flag != 0 ==> o.flag == ARK_INNERSTEP_FAIL && o.e == a.env
            &&& a.flag == 0 ==> exists|s1: InnerView|
                {
                    let b = #[trigger] a.env.inner_reply(
                        InnerCall {
                            op: InnerFn::SetRTol,
                            f: r,
                            t0: ZERO(),
                            t1: ZERO(),
                            mode: 0,
                            x: r_mul(mri(m).adp().inner_rtol_factor, m.tol().reltol),
                        },
                        s1,
                        v_null(),
                        v_null(),
                        ZERO(),
                    );
                    &&& s1.ops() == s.ops()
                    &&& s1.forcing() == s.forcing()
                    &&& o.e == b.env
                    &&& o.flag == if b.flag == 0 {
                        ARK_SUCCESS
                    } else {
                        ARK_INNERSTEP_FAIL
                    }
                }
            &&& mri(o.m).adp().inner_dsm == ZERO()
            &&& o.m.ycur() == m.ycur()
            &&& o.m.stp() == m.stp()
        }),
        ({
            let o = tune_fast(m, e, false);
            o.m == m && o.e == e && o.flag == ARK_SUCCESS
        }),
{
    reveal(tune_fast);
    reveal(fast_clear);
    reveal(fast_rtol);
    reveal(inner_reseterror);
    reveal(inner_setrtol);
    reveal(inner_op);
    reveal(mput_adp);
    reveal(mput_stepper);
    reveal(with_mri);
    reveal(mri);
}

/// A nonlinear solver with a setup is handed the guess zero; its failures are
/// told apart by their sign. Without one nothing happens.
pub proof fn law_solver_setup<E: ArkEnv>(m: MemView, e: E)
    ensures
        ({
            let n = mri(m).nls();
            let z = put_tempv3(m, v_const(ZERO(), m.tempv3()));
            let r = module_run(z, e, ModuleCall::NlsSetup);
            let o = setup_nls(m, e);
            &&& n.attached && n.has_setup ==> {
                &&& o.m == r.m
                &&& o.e == r.e
                &&& r.flag == 0 ==> o.flag == ARK_SUCCESS
                &&& r.flag < 0 ==> o.flag == ARK_NLS_SETUP_FAIL
                &&& r.flag > 0 ==> o.flag == ARK_NLS_SETUP_RECVR
            }
            &&& !(n.attached && n.has_setup) ==> o.m == m && o.e == e && o.flag == ARK_SUCCESS
        }),
{
    reveal(setup_nls);
}

/// The right-hand side that an integrator keeps for predictions where it is
/// itself the fast one of another: the slow parts of its own level, added in
/// every component.
pub proof fn law_own_level(m: MemView)
    requires
        mri(m).prb().explicit_rhs,
    ensures
        ({
            let r = level_rhs(m);
            &&& r.data.len() == m.fn_().data.len()
            &&& forall|i: int|
                0 <= i < r.data.len() ==> (#[trigger] r.data[i]) == pair_sum(
                    ONE(),
                    component_of(vector_of(mri(m).Fsi(), 0), i),
                    ONE(),
                    component_of(vector_of(mri(m).Fse(), 0), i),
                )
        }),
{
    reveal(level_rhs);
    law_linear_sum(
        ONE(),
        vector_of(mri(m).Fsi(), 0),
        ONE(),
        vector_of(mri(m).Fse(), 0),
        m.fn_(),
    );
}

/// The right-hand sides at the start of a step. An integrator that is not nested
/// in another and has storage for the full one evaluates that, at the current
/// time and solution, where it is stale; one without storage brings its slow
/// parts up to date. Either is then current.
pub proof fn law_start_rhs<E: ArkEnv>(m: MemView, e: E, keep: bool, both: bool)
    requires
        !mri(m).frc().expforcing,
        !mri(m).frc().impforcing,
    ensures
        ({
            let t = m.stp().tcur;
            let f = full_rhs(m, e, t, m.ycur(), m.fn_(), ARK_FULLRHS_START);
            let u = update_f0(m, e, t, m.ycur(), ARK_FULLRHS_START);
            let o = start_rhs(m, e, keep, both);
            &&& m.fn_().live && m.flg().fn_is_current ==> o.m == m && o.e == e && o.flag
                == ARK_SUCCESS
            &&& m.fn_().live && !m.flg().fn_is_current ==> {
                &&& o.e == f.e
                &&& o.flag == if f.flag == 0 {
                    ARK_SUCCESS
                } else {
                    ARK_RHSFUNC_FAIL
                }
                &&& o.m.fn_() == f.f
                &&& o.m.ycur() == f.y
                &&& f.flag == 0 ==> o.m.flg().fn_is_current
            }
            &&& !m.fn_().live ==> {
                &&& o.e == u.e
                &&& o.flag == if u.flag == 0 {
                    ARK_SUCCESS
                } else {
                    ARK_RHSFUNC_FAIL
                }
                &&& o.m.ycur() == u.v
                &&& u.flag == 0 ==> o.m.flg().fn_is_current
            }
        }),
{
    reveal(start_rhs);
    reveal(start_full);
    reveal(start_parts);
    reveal(fn_current);
    reveal(put_flg);
    reveal(put_fn_);
    reveal(put_ycur);
    assert(m.flg().fn_is_current ==> put_flg(
        m,
        crate::arkode_impl::ArkFlags { fn_is_current: true, ..m.flg() },
    ) == m);
    assert(mri(put_ycur(
        update_f0(m, e, m.stp().tcur, m.ycur(), ARK_FULLRHS_START).m,
        update_f0(m, e, m.stp().tcur, m.ycur(), ARK_FULLRHS_START).v,
    )) == mri(update_f0(m, e, m.stp().tcur, m.ycur(), ARK_FULLRHS_START).m)) by {
        reveal(mri);
    }
}

} // verus!
