//! Laws of a step of an exponential method, and of the fast evolution that all
//! methods share.
use crate::arkode_codes::{
    ARK_INNERSTEP_FAIL, ARK_INNERTOOUTER_FAIL, ARK_OUTERTOINNER_FAIL, ARK_POSTPROCESS_STAGE_FAIL,
    ARK_POSTPROCESS_STEP_FAIL, ARK_SUCCESS, CONV_FAIL, TRY_AGAIN,
};
use crate::arkode_impl::{FnId, InnerView, MemView};
use crate::arkode_mem::{
    mput_cnt, mput_mth, mput_stepper, mri, put_cnt, put_stp, put_tempv1, put_tempv4, put_ycur,
    with_mri, mput_Fse, mput_Fsi,
};
use crate::binary64::{r_add, r_mul, r_neg, sunrealtype};
use crate::coupling::{group_at, index_at, real_at, MRIStepCoupling};
use crate::env::{ArkEnv, InnerCall, InnerFn, ModuleCall, UserFn};
use crate::inner_stepper::{inner_evolve, inner_op, inner_reset};
use crate::laws_forcing::row_entry;
use crate::laws_rhs::{law_store_explicit, reported, user_call};
use crate::laws_sums::{component_of, law_linear_sum, pair_sum};
use crate::mristep_begin::{
    at_stage, error_estimate, post_and_restart, post_process, pre_rhs, restart_fast, store_fse,
    store_slow, with_tcur,
};
use crate::mristep_fast::{
    adapt_kind, before_fast, count_fast_failure, fast_evolve, fast_reset, inner_forcing,
    read_fast_error, stage_erk_fast,
};
use crate::mristep_gark::{step_end, time_at};
use crate::mristep_merk::{
    evolve_member, finish_member, lowest_from, member, merk_group, merk_member, merk_members,
};
use crate::mristep_rhs::{count_fse, forced, process, write_fse};
use crate::mristep_stage::abscissa;
use crate::nvector::{v_null, v_scale, v_wrms, NVec};
use crate::outcome::module_run;
use crate::sundials_types::{ONE, ZERO};
use vstd::prelude::*;

verus! {

/// A reset of the fast integrator hands it the current solution at the time
/// asked for; only the fast integrator changes, and its refusal is a failure of
/// the fast integration.
pub proof fn law_fast_restart<E: ArkEnv>(m: MemView, e: E, t: sunrealtype, s: InnerView, f: FnId)
    requires
        m.step_mem() is Some,
        mri(m).stepper() == Some(s),
        s.ops().reset == Some(f),
    ensures
        ({
            let r = restart_fast(m, e, t);
            let u = e.inner_reply(
                InnerCall { op: InnerFn::Reset, f, t0: t, t1: t, mode: 0, x: ZERO() },
                s,
                m.ycur(),
                v_null(),
                ZERO(),
            );
            &&& r.e == u.env
            &&& r.flag == if u.flag == ARK_SUCCESS {
                ARK_SUCCESS
            } else {
                ARK_INNERSTEP_FAIL
            }
            &&& mput_stepper(r.m, Some(s)) == m
        }),
{
    reveal(restart_fast);
    reveal(fast_reset);
    reveal(inner_reset);
    reveal(inner_op);
    reveal(mput_stepper);
    reveal(with_mri);
    reveal(mri);
}

proof fn lemma_restart_keeps<E: ArkEnv>(m: MemView, e: E, t: sunrealtype)
    requires
        m.step_mem() is Some,
    ensures
        ({
            let r = restart_fast(m, e, t).m;
            &&& r.step_mem() is Some
            &&& r.ycur() == m.ycur()
            &&& r.stp() == m.stp()
            &&& r.att() == m.att()
            &&& r.cnt() == m.cnt()
            &&& mri(r).Fse() == mri(m).Fse()
            &&& mri(r).Fsi() == mri(m).Fsi()
            &&& mri(r).prb() == mri(m).prb()
            &&& mri(r).cnt() == mri(m).cnt()
            &&& mri(r).frc() == mri(m).frc()
            &&& mri(r).mth() == mri(m).mth()
            &&& mri(r).forcing() == mri(m).forcing()
        }),
{
    reveal(restart_fast);
    reveal(fast_reset);
    reveal(inner_reset);
    reveal(inner_op);
    reveal(mput_stepper);
    reveal(with_mri);
    reveal(mri);
}

/// A fast evolution with no function of the user around it and no use for its
/// error: the fast integrator is asked once, to go from the solution at `t0` to
/// `tf`, and what it gives back is the solution. Its unrecoverable failure ends
/// the step; a recoverable one is counted as one of the fast integrator, not of
/// the solvers, and asks for another attempt.
pub proof fn law_fast_evolution<E: ArkEnv>(
    m: MemView,
    e: E,
    t0: sunrealtype,
    tf: sunrealtype,
    y: NVec,
    s: InnerView,
    f: FnId,
)
    requires
        m.step_mem() is Some,
        mri(m).stepper() == Some(s),
        s.ops().evolve == Some(f),
        mri(m).prb().pre_inner_evolve is None,
        mri(m).prb().post_inner_evolve is None,
    ensures
        ({
            let r = stage_erk_fast(m, e, t0, tf, y, false);
            let u = e.inner_reply(
                InnerCall { op: InnerFn::Evolve, f, t0, t1: tf, mode: 0, x: ZERO() },
                s,
                y,
                y,
                ZERO(),
            );
            &&& r.e == u.env
            &&& r.v == u.out
            &&& r.flag == if u.flag == 0 {
                ARK_SUCCESS
            } else if u.flag < 0 {
                ARK_INNERSTEP_FAIL
            } else {
                TRY_AGAIN
            }
            &&& u.flag <= 0 ==> mput_stepper(r.m, Some(s)) == m
            &&& u.flag > 0 ==> {
                &&& mri(r.m).cnt().inner_fails == mri(m).cnt().inner_fails.wrapping_add(1)
                &&& r.m.cnt().ncfn == m.cnt().ncfn.wrapping_sub(1)
                &&& r.m.cnt().nst == m.cnt().nst
                &&& r.m.stp() == m.stp()
                &&& r.m.ycur() == m.ycur()
            }
        }),
{
    reveal(stage_erk_fast);
    reveal(before_fast);
    reveal(adapt_kind);
    reveal(fast_evolve);
    reveal(inner_evolve);
    reveal(inner_op);
    reveal(read_fast_error);
    reveal(count_fast_failure);
    reveal(process);
    reveal(mput_stepper);
    reveal(mput_cnt);
    reveal(put_cnt);
    reveal(with_mri);
    reveal(mri);
}

/// The functions of the user around a fast evolution: the one before it is
/// handed the forcing at `t0`, and what it leaves is the forcing of the fast
/// integrator; the one after it is handed the solution at `tf`, and what it
/// leaves is the solution. A refusal of either ends the step.
pub proof fn law_around_evolution<E: ArkEnv>(
    m: MemView,
    e: E,
    t0: sunrealtype,
    tf: sunrealtype,
    y: NVec,
    s: InnerView,
    f: FnId,
    before: FnId,
    after: FnId,
)
    requires
        m.step_mem() is Some,
        mri(m).stepper() == Some(s),
        s.ops().evolve == Some(f),
        mri(m).prb().pre_inner_evolve == Some(before),
        mri(m).prb().post_inner_evolve == Some(after),
    ensures
        ({
            let r = stage_erk_fast(m, e, t0, tf, y, false);
            let b = e.forcing_reply(before, t0, s.sc().nforcing, s.forcing());
            exists|s1: InnerView|
                {
                    let u = #[trigger] b.env.inner_reply(
                        InnerCall { op: InnerFn::Evolve, f, t0, t1: tf, mode: 0, x: ZERO() },
                        s1,
                        y,
                        y,
                        ZERO(),
                    );
                    let p = u.env.user_reply(
                        user_call(UserFn::PostInnerEvolve, after, tf),
                        u.out,
                        u.out,
                    );
                    &&& s1.forcing() == b.out
                    &&& s1.sc() == s.sc()
                    &&& s1.ops() == s.ops()
                    &&& b.flag != 0 ==> r.flag == ARK_OUTERTOINNER_FAIL && r.e == b.env && r.v == y
                    &&& b.flag == 0 && u.flag < 0 ==> r.flag == ARK_INNERSTEP_FAIL && r.e == u.env
                        && r.v == u.out
                    &&& b.flag == 0 && u.flag > 0 ==> r.flag == TRY_AGAIN && r.e == u.env && r.v
                        == u.out
                    &&& b.flag == 0 && u.flag == 0 ==> r.e == p.env && r.v == p.out && r.flag
                        == if p.flag == 0 {
                        ARK_SUCCESS
                    } else {
                        ARK_INNERTOOUTER_FAIL
                    }
                }
        }),
{
    reveal(stage_erk_fast);
    reveal(before_fast);
    reveal(adapt_kind);
    reveal(fast_evolve);
    reveal(inner_evolve);
    reveal(inner_op);
    reveal(read_fast_error);
    reveal(process);
    reveal(mput_stepper);
    reveal(mput_cnt);
    reveal(put_cnt);
    reveal(with_mri);
    reveal(mri);
    let b = e.forcing_reply(before, t0, s.sc().nforcing, s.forcing());
    let s1 = InnerView { forcing: crate::nvector::part(b.out), ..s };
    let u = b.env.inner_reply(
        InnerCall { op: InnerFn::Evolve, f, t0, t1: tf, mode: 0, x: ZERO() },
        s1,
        y,
        y,
        ZERO(),
    );
    assert(s1.forcing() == b.out);
}

/// An explicit right-hand side evaluated into the slot of a stage.
proof fn lemma_store<E: ArkEnv>(m: MemView, e: E, slot: i32, f: FnId)
    requires
        m.step_mem() is Some,
        mri(m).prb().fse == Some(f),
        0 <= slot < mri(m).Fse().len(),
    ensures
        ({
            let r = store_fse(m, e, slot);
            let u = e.user_reply(
                user_call(UserFn::ExplicitRhs, f, m.stp().tcur),
                m.ycur(),
                mri(m).Fse()[slot as int],
            );
            let g = mri(r.m).Fse();
            &&& r.flag == reported(u.flag)
            &&& r.e == u.env
            &&& g.len() == mri(m).Fse().len()
            &&& u.flag == 0 && !mri(m).frc().expforcing ==> g[slot as int] == u.out
            &&& u.flag == 0 && mri(m).frc().expforcing ==> g[slot as int] == forced(
                m,
                m.stp().tcur,
                u.out,
            )
            &&& forall|j: int| 0 <= j < g.len() && j != slot ==> (#[trigger] g[j]) == mri(m).Fse()[j]
            &&& mri(r.m).cnt().nfse == mri(m).cnt().nfse.wrapping_add(1)
            &&& mri(r.m).cnt().nfsi == mri(m).cnt().nfsi
            &&& r.m.ycur() == m.ycur()
            &&& r.m.stp() == m.stp()
        }),
{
    reveal(store_fse);
    reveal(write_fse);
    reveal(count_fse);
    reveal(mput_Fse);
    reveal(mput_Fsi);
    reveal(mput_cnt);
    reveal(with_mri);
    reveal(mri);
    reveal(forced);
}

/// An internal member, neither the solution nor the embedding, ends with its
/// slow right-hand side. Wherever it succeeds, whatever functions the user has
/// set, the slot of its stage holds the user's explicit right-hand side at the
/// current time and the solution that the stage was left with, with the forcing
/// of an outer integrator where that is carried. The evaluation counts once.
pub proof fn law_member_rhs<E: ArkEnv>(m: MemView, e: E, stage: i32, f: FnId)
    requires
        m.step_mem() is Some,
        mri(m).prb().fse == Some(f),
        0 <= stage < mri(m).Fse().len(),
        finish_member(m, e, stage, false, false).flag == ARK_SUCCESS,
    ensures
        ({
            let r = finish_member(m, e, stage, false, false);
            let g = mri(r.m).Fse();
            &&& exists|e1: E|
                {
                    let u = #[trigger] e1.user_reply(
                        user_call(UserFn::ExplicitRhs, f, m.stp().tcur),
                        r.m.ycur(),
                        mri(m).Fse()[stage as int],
                    );
                    &&& u.flag == 0
                    &&& r.e == u.env
                    &&& !mri(m).frc().expforcing ==> g[stage as int] == u.out
                    &&& mri(m).frc().expforcing ==> g[stage as int] == forced(
                        m,
                        m.stp().tcur,
                        u.out,
                    )
                }
            &&& g.len() == mri(m).Fse().len()
            &&& forall|j: int|
                0 <= j < g.len() && j != stage ==> (#[trigger] g[j]) == mri(m).Fse()[j]
            &&& mri(r.m).cnt().nfse == mri(m).cnt().nfse.wrapping_add(1)
            &&& mri(r.m).cnt().nfsi == mri(m).cnt().nfsi
            &&& r.m.stp() == m.stp()
        }),
{
    reveal(finish_member);
    reveal(post_and_restart);
    reveal(post_process);
    reveal(store_slow);
    reveal(pre_rhs);
    reveal(put_ycur);
    let p = post_process(
        m,
        e,
        UserFn::PostProcessStage,
        m.att().PostProcessStageFn,
        ARK_POSTPROCESS_STAGE_FAIL,
    );
    assert(p.m.step_mem() is Some && mri(p.m) == mri(m)) by {
        reveal(mri);
    }
    lemma_restart_keeps(p.m, p.e, p.m.stp().tcur);
    let q = post_and_restart(
        m,
        e,
        UserFn::PostProcessStage,
        m.att().PostProcessStageFn,
        ARK_POSTPROCESS_STAGE_FAIL,
    );
    let w = pre_rhs(q.m, q.e, true);
    assert(w.m.step_mem() is Some && mri(w.m) == mri(q.m)) by {
        reveal(mri);
    }
    lemma_store(w.m, w.e, stage, f);
    assert(finish_member(m, e, stage, false, false) == store_fse(w.m, w.e, stage));
    assert(forall|v: NVec|
        forced(w.m, m.stp().tcur, v) == #[trigger] forced(m, m.stp().tcur, v)) by {
        reveal(forced);
    }
}

/// An internal member of a problem whose user has set no function on stages or
/// before right-hand sides: the user's explicit right-hand side at the current
/// time and solution decides, and is what the slot of the stage then holds.
pub proof fn law_plain_member_rhs<E: ArkEnv>(m: MemView, e: E, stage: i32, f: FnId)
    requires
        m.step_mem() is Some,
        mri(m).prb().fse == Some(f),
        0 <= stage < mri(m).Fse().len(),
        m.att().PostProcessStageFn is None,
        m.att().PreRhsFn is None,
    ensures
        ({
            let r = finish_member(m, e, stage, false, false);
            let u = e.user_reply(
                user_call(UserFn::ExplicitRhs, f, m.stp().tcur),
                m.ycur(),
                mri(m).Fse()[stage as int],
            );
            let g = mri(r.m).Fse();
            &&& r.flag == reported(u.flag)
            &&& r.e == u.env
            &&& u.flag == 0 && !mri(m).frc().expforcing ==> g[stage as int] == u.out
            &&& u.flag == 0 && mri(m).frc().expforcing ==> g[stage as int] == forced(
                m,
                m.stp().tcur,
                u.out,
            )
            &&& mri(r.m).cnt().nfse == mri(m).cnt().nfse.wrapping_add(1)
            &&& r.m.ycur() == m.ycur()
        }),
{
    reveal(finish_member);
    reveal(post_and_restart);
    reveal(post_process);
    law_store_explicit(m, e, stage, f);
}

/// The function of the user on a solution: it is handed the current time and
/// solution; what it leaves is the solution, and the fast integrator is reset to
/// it at the current time. A refusal gives the failure of its kind. Without such
/// a function nothing happens.
pub proof fn law_after_solution<E: ArkEnv>(
    m: MemView,
    e: E,
    role: UserFn,
    f: FnId,
    fail: i32,
)
    ensures
        ({
            let u = e.user_reply(user_call(role, f, m.stp().tcur), m.ycur(), m.ycur());
            let z = put_ycur(m, u.out);
            let r = post_and_restart(m, e, role, Some(f), fail);
            &&& z.ycur() == u.out
            &&& put_ycur(z, m.ycur()) == m
            &&& u.flag == 0 ==> r == restart_fast(z, u.env, m.stp().tcur)
            &&& u.flag != 0 && fail != ARK_SUCCESS ==> r.m == z && r.e == u.env && r.flag == fail
        }),
        ({
            let r = post_and_restart(m, e, role, None, fail);
            r.m == m && r.e == e && r.flag == ARK_SUCCESS
        }),
{
    reveal(post_and_restart);
    reveal(post_process);
    reveal(process);
    reveal(put_ycur);
}

/// The member that gives the solution ends with the user's function on the
/// step, and has no slow right-hand side; the embedding is kept aside, with
/// nothing evaluated.
pub proof fn law_last_members<E: ArkEnv>(m: MemView, e: E, stage: i32, solution: bool)
    ensures
        finish_member(m, e, stage, true, false) == post_and_restart(
            m,
            e,
            UserFn::PostProcessStep,
            m.att().PostProcessStepFn,
            ARK_POSTPROCESS_STEP_FAIL,
        ),
        ({
            let r = finish_member(m, e, stage, solution, true);
            &&& r.flag == ARK_SUCCESS
            &&& r.e == e
            &&& r.m.tempv4() == v_scale(ONE(), m.ycur(), m.tempv4())
            &&& put_tempv4(r.m, m.tempv4()) == m
        }),
{
    reveal(finish_member);
    reveal(put_tempv4);
}

/// The fast evolution of a member goes from `t0` to `tf`; the fast integrator is
/// first reset to the current solution at `t0` where the member opens a group
/// other than that of the first stage. The solution it reaches is the current
/// one at `tf`; a failure is one of convergence.
pub proof fn law_member_evolution<E: ArkEnv>(
    m: MemView,
    e: E,
    stage: i32,
    first: bool,
    t0: sunrealtype,
    tf: sunrealtype,
    need: bool,
    nflag: i32,
)
    ensures
        ({
            let o = evolve_member(m, e, stage, first, t0, tf, need, nflag);
            let a = restart_fast(m, e, t0);
            let b = stage_erk_fast(m, e, t0, tf, m.ycur(), need);
            let c = stage_erk_fast(a.m, a.e, t0, tf, a.m.ycur(), need);
            let again = stage > 1 && first;
            let r = if again {
                c
            } else {
                b
            };
            &&& again && a.flag != ARK_SUCCESS ==> o.m == a.m && o.e == a.e && o.flag == a.flag
                && o.nflag == nflag
            &&& !again || a.flag == ARK_SUCCESS ==> {
                &&& o.e == r.e
                &&& o.flag == r.flag
                &&& o.m.ycur() == r.v
                &&& r.flag == ARK_SUCCESS ==> o.m.stp().tcur == tf && o.nflag == nflag
                &&& r.flag != ARK_SUCCESS ==> o.m.stp() == r.m.stp() && o.nflag == CONV_FAIL
                &&& put_stp(put_ycur(o.m, r.m.ycur()), r.m.stp()) == r.m
            }
        }),
{
    reveal(evolve_member);
    reveal(with_tcur);
    reveal(put_ycur);
    reveal(put_stp);
}

/// A member of a group is evolved from where the member before it ended to
/// `tn + c h`, with the abscissa of its stage, or to the end of the step for the
/// solution and the embedding. The last member of the last group is the
/// solution, that of the group before it the embedding, which is passed over
/// where no error is wanted.
pub proof fn law_member<E: ArkEnv>(
    m: MemView,
    e: E,
    ig: i32,
    ngroup: i32,
    i: i32,
    stages: i32,
    t0: sunrealtype,
    need: bool,
    embed: bool,
    nflag: i32,
    t: MRIStepCoupling,
    stage: i32,
)
    requires
        m.step_mem() is Some,
        mri(m).MRIC() == Some(t),
        0 <= ig < t.group@.len(),
        0 <= i < t.group@[ig as int]@.len(),
        t.group@[ig as int]@[i as int] == stage,
        stage >= 0,
    ensures
        ({
            let o = merk_member(m, e, ig, ngroup, i, stages, t0, need, embed, nflag);
            let row = t.group@[ig as int]@;
            let last = stage >= stages || i + 1 >= row.len() || row[i + 1] < 0;
            let embedding = ig == ngroup - 2 && last;
            let solution = ig == ngroup - 1 && last;
            let c = if stage >= stages {
                ONE()
            } else {
                row_entry(t.c@, stage as int)
            };
            let tf = r_add(m.stp().tn, r_mul(c, m.stp().h));
            let z = at_stage(m, stage);
            let a = evolve_member(z, e, stage, i == 0, t0, tf, need && !embedding, nflag);
            let b = finish_member(a.m, a.e, stage, solution, embedding);
            &&& mri(z).mth().istage == stage
            &&& mri(z).mth().cur_stage == stage
            &&& embedding && !embed ==> o.m == z && o.e == e && o.flag == ARK_SUCCESS && !o.more
            &&& !(embedding && !embed) && a.flag != ARK_SUCCESS ==> o.m == a.m && o.e == a.e
                && o.flag == a.flag && o.nflag == a.nflag && !o.more
            &&& !(embedding && !embed) && a.flag == ARK_SUCCESS ==> {
                &&& o.m == b.m
                &&& o.e == b.e
                &&& o.flag == b.flag
                &&& o.t == tf
                &&& o.more == (b.flag == ARK_SUCCESS)
            }
        }),
{
    reveal(merk_member);
    reveal(member);
    reveal(group_at);
    reveal(index_at);
    reveal(time_at);
    reveal(abscissa);
    reveal(real_at);
    reveal(at_stage);
    reveal(mput_mth);
    reveal(with_mri);
    reveal(mri);
}

proof fn lemma_lowest(m: MemView, ig: int, i: int, stages: int, low: i32, n: int)
    requires
        0 <= i <= n <= stages,
        forall|j: int| i <= j < n ==> #[trigger] member(m, ig, j) >= 0,
        n == stages || member(m, ig, n) < 0,
    ensures
        ({
            let r = lowest_from(m, ig, i, stages, low);
            &&& r <= low
            &&& forall|j: int| i <= j < n ==> r <= #[trigger] member(m, ig, j)
            &&& r == low || exists|j: int| i <= j < n && #[trigger] member(m, ig, j) == r
        }),
    decreases n - i,
{
    reveal(lowest_from);
    if i < n {
        let low1 = if low < member(m, ig, i) {
            low
        } else {
            member(m, ig, i)
        };
        lemma_lowest(m, ig, i + 1, stages, low1, n);
    }
}

/// The forcing of a group is that of its lowest stage over the whole step, from
/// `tn` to `tn + h`. Every group but the first starts again from the last
/// solution, and all of them from the start of the step.
pub proof fn law_group<E: ArkEnv>(
    m: MemView,
    e: E,
    ig: i32,
    ngroup: i32,
    stages: i32,
    need: bool,
    embed: bool,
    nflag: i32,
    t: MRIStepCoupling,
    n: int,
    low: i32,
)
    requires
        mri(m).MRIC() == Some(t),
        0 <= ig < t.group@.len(),
        1 <= n <= stages,
        n <= t.group@[ig as int]@.len(),
        forall|j: int| 0 <= j < n ==> #[trigger] t.group@[ig as int]@[j] >= low,
        exists|j: int| 0 <= j < n && #[trigger] t.group@[ig as int]@[j] == low,
        low >= 0,
        n == stages || n == t.group@[ig as int]@.len() || t.group@[ig as int]@[n] < 0,
    ensures
        ({
            let o = merk_group(m, e, ig, ngroup, stages, need, embed, nflag);
            let f = inner_forcing(m, low, m.stp().tn, r_add(m.stp().tn, m.stp().h));
            let z = put_ycur(f.0, v_scale(ONE(), f.0.yn(), f.0.ycur()));
            &&& f.1 != ARK_SUCCESS ==> o.m == f.0 && o.e == e && o.flag == f.1
            &&& f.1 == ARK_SUCCESS && ig == 0 ==> o == merk_members(
                f.0,
                e,
                ig,
                ngroup,
                0,
                stages,
                f.0.stp().tn,
                need,
                embed,
                nflag,
            )
            &&& f.1 == ARK_SUCCESS && ig > 0 ==> o == merk_members(
                z,
                e,
                ig,
                ngroup,
                0,
                stages,
                f.0.stp().tn,
                need,
                embed,
                nflag,
            )
        }),
{
    reveal(merk_group);
    reveal(step_end);
    reveal(put_ycur);
    assert forall|j: int| 0 <= j < n implies #[trigger] member(m, ig as int, j) == t.group@[ig as int]@[j] by {
        reveal(member);
        reveal(group_at);
        reveal(index_at);
    }
    assert(n == stages || member(m, ig as int, n) < 0) by {
        reveal(member);
        reveal(group_at);
        reveal(index_at);
    }
    let r = lowest_from(m, ig as int, 1, stages as int, member(m, ig as int, 0));
    lemma_lowest(m, ig as int, 1, stages as int, member(m, ig as int, 0), n);
    let j0 = choose|j: int| 0 <= j < n && #[trigger] t.group@[ig as int]@[j] == low;
    assert(member(m, ig as int, j0) == low);
    assert(member(m, ig as int, 0) == t.group@[ig as int]@[0]);
    assert(r == low);
}

/// The error of a step is the weighted norm of the difference, in every
/// component, between the solution and the embedded one.
pub proof fn law_step_error(m: MemView, y: NVec, z: NVec)
    ensures
        ({
            let r = error_estimate(m, y, z);
            let d = r.0.tempv1();
            &&& d.data.len() == m.tempv1().data.len()
            &&& forall|i: int|
                0 <= i < d.data.len() ==> (#[trigger] d.data[i]) == pair_sum(
                    ONE(),
                    component_of(y, i),
                    r_neg(ONE()),
                    component_of(z, i),
                )
            &&& r.1 == v_wrms(d, m.ewt())
            &&& put_tempv1(r.0, m.tempv1()) == m
        }),
{
    reveal(error_estimate);
    reveal(put_tempv1);
    law_linear_sum(ONE(), y, r_neg(ONE()), z, m.tempv1());
}

/// A fast evolution whose error may count, with no function of the user around
/// it: the controller is asked for its kind, the fast integrator evolves from
/// the solution at `t0` to `tf`, and a successful evolution has its error read
/// as that kind asks.
pub proof fn law_counted_evolution<E: ArkEnv>(
    m: MemView,
    e: E,
    t0: sunrealtype,
    tf: sunrealtype,
    y: NVec,
    id: u64,
    s: InnerView,
    f: FnId,
)
    requires
        crate::arkode_step::controller(m) == Some(id),
        mri(m).prb().pre_inner_evolve is None,
        ({
            let k = module_run(m, e, ModuleCall::ControllerType { id });
            &&& k.m == m
            &&& m.step_mem() is Some
            &&& mri(m).stepper() == Some(s)
            &&& s.ops().evolve == Some(f)
        }),
    ensures
        ({
            let k = module_run(m, e, ModuleCall::ControllerType { id });
            let u = k.e.inner_reply(
                InnerCall { op: InnerFn::Evolve, f, t0, t1: tf, mode: 0, x: ZERO() },
                s,
                y,
                y,
                ZERO(),
            );
            let r = stage_erk_fast(m, e, t0, tf, y, true);
            &&& u.flag < 0 ==> r.flag == ARK_INNERSTEP_FAIL && r.e == u.env && r.v == u.out
            &&& u.flag > 0 ==> r.flag == TRY_AGAIN && r.e == u.env && r.v == u.out
            &&& u.flag == 0 ==> exists|z: MemView|
                {
                    let d = #[trigger] read_fast_error(z, u.env, k.flag);
                    &&& mput_stepper(z, Some(s)) == m
                    &&& d.flag != ARK_SUCCESS ==> r.flag == d.flag && r.e == d.e && r.m == d.m
                        && r.v == u.out
                    &&& d.flag == ARK_SUCCESS && mri(d.m).prb().post_inner_evolve is None ==> r.flag
                        == ARK_SUCCESS && r.e == d.e && r.m == d.m && r.v == u.out
                }
        }),
{
    reveal(stage_erk_fast);
    reveal(before_fast);
    reveal(adapt_kind);
    reveal(fast_evolve);
    reveal(inner_evolve);
    reveal(inner_op);
    reveal(process);
    let k = module_run(m, e, ModuleCall::ControllerType { id });
    let v = fast_evolve(k.m, k.e, t0, tf, y);
    assert(mput_stepper(v.m, Some(s)) == m) by {
        reveal(mput_stepper);
        reveal(with_mri);
        reveal(mri);
    }
    let d = read_fast_error(v.m, v.e, k.flag);
}

} // verus!
