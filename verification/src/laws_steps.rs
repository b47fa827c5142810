//! Laws of a step of the multirate methods.
use crate::arkode_codes::ARK_SUCCESS;
use crate::arkode_impl::MemView;
use crate::arkode_mem::{mri, put_tempv1, put_ycur};
use crate::binary64::{r_eq, r_neg, r_sub, sunrealtype};
use crate::env::ArkEnv;
use crate::laws_numbers::{law_difference_times_one, law_negate_twice};
use crate::mristep_begin::{error_estimate, prepare, wants_error};
use crate::mristep_gark::{
    embedded_stage, evolve_stage, gark_stages, inner_stage, inner_stages, last_stage, solve_stage,
    take_step_gark,
};
use crate::mristep_merk::{
    evolve_member, group_count, merk_group, merk_groups, merk_member, merk_members, take_step_merk,
};
use crate::mristep_sr::{
    correct_implicit, correct_stage, evolve_from_start, merge_slow, sr_stage, sr_stages, sr_step,
    take_step_sr,
};
use crate::mristep_stage::{stage_dirk_nofast, SolveOut};
use crate::nvector::{at, lin, v_fill, v_lin, v_scale, v_wrms, NVec};
use crate::sundials_types::ONE;
use vstd::prelude::*;

verus! {

/// Whether `d` is the solution `y` less the embedded solution `z`, component
/// by component.
pub open spec fn is_difference(d: NVec, y: NVec, z: NVec) -> bool {
    forall|i: int| 0 <= i < d.data.len() ==> (#[trigger] d.data[i]) == r_sub(at(y, i), at(z, i))
}

proof fn lemma_difference(y: NVec, z: NVec, t: NVec)
    ensures
        is_difference(v_lin(ONE(), y, r_neg(ONE()), z, t), y, z),
{
    reveal(v_lin);
    reveal(v_fill);
    let d = v_lin(ONE(), y, r_neg(ONE()), z, t);
    assert forall|i: int| 0 <= i < d.data.len() implies (#[trigger] d.data[i]) == r_sub(
        at(y, i),
        at(z, i),
    ) by {
        law_negate_twice(ONE());
        law_difference_times_one(at(y, i), at(z, i));
        reveal(lin);
        reveal(r_eq);
        reveal(r_neg);
    }
}

proof fn lemma_estimate(m: MemView, y: NVec, z: NVec)
    ensures
        ({
            let d = error_estimate(m, y, z);
            &&& d.1 == v_wrms(d.0.tempv1(), m.ewt())
            &&& is_difference(d.0.tempv1(), y, z)
            &&& d.0.ewt() == m.ewt()
            &&& d.0.ycur() == m.ycur()
            &&& d.0.tempv4() == m.tempv4()
        }),
{
    reveal(error_estimate);
    reveal(put_tempv1);
    lemma_difference(y, z, m.tempv1());
}

/// A successful step of a generalised additive method whose error is wanted
/// leaves behind the solution, in the current solution, the embedded solution,
/// in the fourth temporary vector, and the first less the second, in the first
/// temporary vector; the error is the weighted norm of that difference.
pub proof fn law_gark_error_estimate<E: ArkEnv>(m: MemView, e: E, dsm: sunrealtype, nflag: i32)
    requires
        m.step_mem() is Some,
        wants_error(m),
        take_step_gark(m, e, dsm, nflag).flag == ARK_SUCCESS,
    ensures
        ({
            let o = take_step_gark(m, e, dsm, nflag);
            &&& is_difference(o.m.tempv1(), o.m.ycur(), o.m.tempv4())
            &&& o.dsm == v_wrms(o.m.tempv1(), o.m.ewt())
        }),
{
    reveal(take_step_gark);
    reveal(gark_stages);
    let p = prepare(m, e, true, false);
    let stages = mri(p.m).mth().stages;
    let a = inner_stages(p.m, p.e, 1, stages as int, p.need, true, ARK_SUCCESS);
    let b = embedded_stage(a.m, a.e, stages, a.nflag);
    let c = last_stage(b.m, b.e, (stages - 1) as i32, p.need, b.nflag);
    lemma_estimate(c.m, c.m.ycur(), c.m.tempv4());
}

/// A successful step of an exponential method whose error is wanted leaves
/// behind the solution, in the current solution, the embedded solution, in the
/// fourth temporary vector, and the first less the second, in the first
/// temporary vector; the error is the weighted norm of that difference.
pub proof fn law_merk_error_estimate<E: ArkEnv>(m: MemView, e: E, dsm: sunrealtype, nflag: i32)
    requires
        m.step_mem() is Some,
        wants_error(m),
        take_step_merk(m, e, dsm, nflag).flag == ARK_SUCCESS,
    ensures
        ({
            let o = take_step_merk(m, e, dsm, nflag);
            &&& is_difference(o.m.tempv1(), o.m.ycur(), o.m.tempv4())
            &&& o.dsm == v_wrms(o.m.tempv1(), o.m.ewt())
        }),
{
    reveal(take_step_merk);
    let p = prepare(m, e, false, false);
    let g = merk_groups(
        p.m,
        p.e,
        0,
        group_count(p.m),
        mri(p.m).mth().stages,
        p.need,
        true,
        ARK_SUCCESS,
    );
    lemma_estimate(g.m, g.m.ycur(), g.m.tempv4());
}

/// What the stages of a stage-restart method leave: the solution in the fourth
/// temporary vector, the embedded solution in the current one.
pub open spec fn sr_solutions<E: ArkEnv>(m: MemView, e: E) -> MemView {
    let p = prepare(m, e, true, true);
    let m0 = merge_slow(p.m, 0);
    let stages = mri(m0).mth().stages;
    let a = sr_stages(m0, p.e, 1, stages, p.need, ARK_SUCCESS);
    if stages >= 1 {
        sr_stage(a.m, a.e, stages, stages, p.need, a.nflag).m
    } else {
        a.m
    }
}

/// A successful step of a stage-restart method whose error is wanted leaves
/// behind the solution and, in the first temporary vector, the solution less
/// the embedded solution; the error is the weighted norm of that difference.
pub proof fn law_sr_error_estimate<E: ArkEnv>(m: MemView, e: E, dsm: sunrealtype, nflag: i32)
    requires
        m.step_mem() is Some,
        wants_error(m),
        take_step_sr(m, e, dsm, nflag).flag == ARK_SUCCESS,
    ensures
        ({
            let o = take_step_sr(m, e, dsm, nflag);
            let s = sr_solutions(m, e);
            &&& is_difference(o.m.tempv1(), s.tempv4(), s.ycur())
            &&& o.m.tempv4() == s.tempv4()
            &&& o.m.ycur() == v_scale(ONE(), s.tempv4(), s.ycur())
            &&& o.dsm == v_wrms(o.m.tempv1(), o.m.ewt())
        }),
{
    reveal(take_step_sr);
    reveal(sr_step);
    reveal(put_ycur);
    let s = sr_solutions(m, e);
    lemma_estimate(s, s.tempv4(), s.ycur());
}

/// Whether a stage that succeeded left the solver flag at success.
pub open spec fn solver_quiet<E>(o: SolveOut<E>) -> bool {
    o.flag == ARK_SUCCESS ==> o.nflag == ARK_SUCCESS
}

proof fn lemma_gark_stage<E: ArkEnv>()
    ensures
        forall|m: MemView, e: E, is: i32, t0: sunrealtype, tf: sunrealtype, need: bool|
            solver_quiet(#[trigger] solve_stage(m, e, is, t0, tf, need, ARK_SUCCESS)),
{
    reveal(solve_stage);
    reveal(evolve_stage);
    reveal(stage_dirk_nofast);
}

proof fn lemma_inner_stages<E: ArkEnv>(
    m: MemView,
    e: E,
    is: int,
    stages: int,
    need: bool,
    embed: bool,
)
    ensures
        solver_quiet(inner_stages(m, e, is, stages, need, embed, ARK_SUCCESS)),
    decreases stages - is,
{
    if is < stages - 1 {
        let r = inner_stage(m, e, is as i32, need, embed, ARK_SUCCESS);
        assert(solver_quiet(r)) by {
            reveal(inner_stage);
            lemma_gark_stage::<E>();
        }
        if r.flag == ARK_SUCCESS {
            lemma_inner_stages(r.m, r.e, is + 1, stages, need, embed);
        }
    }
}

proof fn lemma_sr_stage<E: ArkEnv>()
    ensures
        forall|m: MemView, e: E, stage: i32, stages: i32, need: bool|
            solver_quiet(#[trigger] sr_stage(m, e, stage, stages, need, ARK_SUCCESS)),
{
    reveal(sr_stage);
    reveal(evolve_from_start);
    reveal(correct_stage);
    reveal(correct_implicit);
}

proof fn lemma_sr_stages<E: ArkEnv>(m: MemView, e: E, stage: int, stages: i32, need: bool)
    ensures
        solver_quiet(sr_stages(m, e, stage, stages, need, ARK_SUCCESS)),
    decreases stages - stage,
{
    if stage < stages {
        let r = sr_stage(m, e, stage as i32, stages, need, ARK_SUCCESS);
        lemma_sr_stage::<E>();
        assert(solver_quiet(r));
        if r.flag == ARK_SUCCESS {
            lemma_sr_stages(r.m, r.e, stage + 1, stages, need);
        }
    }
}

proof fn lemma_merk_members<E: ArkEnv>(
    m: MemView,
    e: E,
    ig: i32,
    ngroup: i32,
    i: int,
    stages: i32,
    t0: sunrealtype,
    need: bool,
    embed: bool,
)
    ensures
        solver_quiet(merk_members(m, e, ig, ngroup, i, stages, t0, need, embed, ARK_SUCCESS)),
    decreases stages - i,
{
    if i < stages {
        let r = merk_member(m, e, ig, ngroup, i as i32, stages, t0, need, embed, ARK_SUCCESS);
        assert(r.flag == ARK_SUCCESS ==> r.nflag == ARK_SUCCESS) by {
            reveal(merk_member);
            reveal(evolve_member);
        }
        if r.more {
            assert(r.flag == ARK_SUCCESS) by {
                reveal(merk_member);
            }
            lemma_merk_members(r.m, r.e, ig, ngroup, i + 1, stages, r.t, need, embed);
        }
    }
}

proof fn lemma_merk_groups<E: ArkEnv>(
    m: MemView,
    e: E,
    ig: int,
    ngroup: i32,
    stages: i32,
    need: bool,
    embed: bool,
)
    ensures
        solver_quiet(merk_groups(m, e, ig, ngroup, stages, need, embed, ARK_SUCCESS)),
    decreases ngroup - ig,
{
    if ig < ngroup {
        let r = merk_group(m, e, ig as i32, ngroup, stages, need, embed, ARK_SUCCESS);
        assert(solver_quiet(r)) by {
            reveal(merk_group);
            assert forall|x: MemView, t0: sunrealtype|
                solver_quiet(
                    #[trigger] merk_members(
                        x,
                        e,
                        ig as i32,
                        ngroup,
                        0,
                        stages,
                        t0,
                        need,
                        embed,
                        ARK_SUCCESS,
                    ),
                ) by {
                lemma_merk_members(x, e, ig as i32, ngroup, 0, stages, t0, need, embed);
            }
        }
        if r.flag == ARK_SUCCESS {
            lemma_merk_groups(r.m, r.e, ig + 1, ngroup, stages, need, embed);
        }
    }
}

/// A successful step reports that its solvers succeeded.
pub proof fn law_solver_flag<E: ArkEnv>(m: MemView, e: E, dsm: sunrealtype, nflag: i32)
    requires
        m.step_mem() is Some,
    ensures
        ({
            let o = take_step_gark(m, e, dsm, nflag);
            o.flag == ARK_SUCCESS ==> o.nflag == ARK_SUCCESS
        }),
        ({
            let o = take_step_sr(m, e, dsm, nflag);
            o.flag == ARK_SUCCESS ==> o.nflag == ARK_SUCCESS
        }),
        ({
            let o = take_step_merk(m, e, dsm, nflag);
            o.flag == ARK_SUCCESS ==> o.nflag == ARK_SUCCESS
        }),
{
    let embed = wants_error(m);
    assert({
        let o = take_step_gark(m, e, dsm, nflag);
        o.flag == ARK_SUCCESS ==> o.nflag == ARK_SUCCESS
    }) by {
        reveal(take_step_gark);
        reveal(gark_stages);
        reveal(embedded_stage);
        reveal(last_stage);
        lemma_gark_stage::<E>();
        let p = prepare(m, e, true, false);
        lemma_inner_stages(p.m, p.e, 1, mri(p.m).mth().stages as int, p.need, embed);
    }
    assert({
        let o = take_step_sr(m, e, dsm, nflag);
        o.flag == ARK_SUCCESS ==> o.nflag == ARK_SUCCESS
    }) by {
        reveal(take_step_sr);
        reveal(sr_step);
        let p = prepare(m, e, true, true);
        let m0 = merge_slow(p.m, 0);
        let stages = mri(m0).mth().stages;
        lemma_sr_stages(m0, p.e, 1, stages, p.need);
        let a = sr_stages(m0, p.e, 1, stages, p.need, ARK_SUCCESS);
        lemma_sr_stage::<E>();
        assert(solver_quiet(sr_stage(a.m, a.e, stages, stages, p.need, ARK_SUCCESS)));
    }
    assert({
        let o = take_step_merk(m, e, dsm, nflag);
        o.flag == ARK_SUCCESS ==> o.nflag == ARK_SUCCESS
    }) by {
        reveal(take_step_merk);
        let p = prepare(m, e, false, false);
        lemma_merk_groups(p.m, p.e, 0, group_count(p.m), mri(p.m).mth().stages, p.need, embed);
    }
}

} // verus!
