//! Laws of a step of a stage-restart method: where each stage starts, what its
//! correction adds, and what it leaves for the later ones.
use crate::arith::{lemma_nearest_self, lemma_signed};
use crate::arkode_codes::{
    ARK_POSTPROCESS_STAGE_FAIL, ARK_POSTPROCESS_STEP_FAIL, ARK_SUCCESS, TRY_AGAIN,
};
use crate::arkode_impl::MemView;
use crate::arkode_mem::{
    mput_mth, mput_nls, mput_sdata, mri, put_stp, put_tempv4, put_ycur, with_mri, mput_Fse,
    mput_Fsi,
};
use crate::binary64::{
    nearest, r_abs, r_add, r_div, r_eq, r_lt, r_mul, r_neg, r_sub, sunrealtype, units_of, INF_BITS,
};
use crate::coupling::{coeff, count, real_at, MRIStepCoupling};
use crate::env::{ArkEnv, ModuleCall, UserFn};
use crate::laws_forcing::{row_entry, table_entry};
use crate::laws_numbers::{law_times_one, lemma_units_range};
use crate::laws_rhs::vector_of;
use crate::laws_sums::{component_of, law_combination, law_linear_sum, pair_sum, total};
use crate::mristep_begin::{at_stage, post_and_restart, restart_fast, store_slow, with_tcur};
use crate::mristep_fast::{inner_forcing, stage_erk_fast};
use crate::mristep_gark::time_at;
use crate::mristep_rhs::write_fse;
use crate::mristep_sr::{
    correct_data, correct_explicit, correct_gamma, correct_implicit, correct_stage, correction,
    correction_coeffs, correction_vectors, evolve_from_start, finish_stage, merge_slow, needs_solve,
    solver_stage,
};
use crate::mristep_stage::{abscissa, predict_current};
use crate::nvector::{v_scale, NVec};
use crate::outcome::module_run;
use crate::sundials_types::{HUNDRED, ONE, SUN_UNIT_ROUNDOFF, ZERO};
use vstd::arithmetic::power2::pow2;
use vstd::prelude::*;

verus! {

/// The factors of a correction: the step size times row `stage`, column `j` of
/// the first implicit matrix of the table, for each earlier stage `j`.
pub open spec fn correction_factors(
    h: sunrealtype,
    t: MRIStepCoupling,
    stage: i32,
) -> Seq<sunrealtype> {
    Seq::new(
        stage as nat,
        |j: int| r_mul(h, table_entry(t.G@, 0, stage as int, j)),
    )
}

/// The implicit right-hand sides of the stages before `stage`.
pub open spec fn implicit_rhs(f: Seq<NVec>, stage: i32) -> Seq<NVec> {
    Seq::new(stage as nat, |j: int| vector_of(f, j))
}

proof fn lemma_corrections(m: MemView, stage: i32, t: MRIStepCoupling)
    requires
        stage > 0,
        mri(m).MRIC() == Some(t),
    ensures
        correction_coeffs(m, stage as int, count(stage)) == correction_factors(
            m.stp().h,
            t,
            stage,
        ),
        correction_vectors(m, count(stage)) == implicit_rhs(mri(m).Fsi(), stage),
        forall|i: int, j: int| #[trigger] correction(m, i, j) == table_entry(t.G@, 0, i, j),
{
    reveal(correction);
    reveal(coeff);
    reveal(correction_coeffs);
    reveal(correction_vectors);
    assert(correction_coeffs(m, stage as int, count(stage)) =~= correction_factors(
        m.stp().h,
        t,
        stage,
    ));
    assert(correction_vectors(m, count(stage)) =~= implicit_rhs(mri(m).Fsi(), stage));
}

/// Whether the diagonal entry of a stage is large enough to need a solve.
pub open spec fn has_diagonal(t: MRIStepCoupling, stage: i32) -> bool {
    r_lt(
        r_mul(HUNDRED(), SUN_UNIT_ROUNDOFF()),
        r_abs(table_entry(t.G@, 0, stage as int, stage as int)),
    )
}

/// The correction of a stage with no diagonal entry: to the evolved solution is
/// added, in every component, the step size times row `stage`, column `j` of the
/// first implicit matrix times the implicit right-hand side of each earlier
/// stage `j`. Nothing else changes.
pub proof fn law_explicit_correction<E: ArkEnv>(
    m: MemView,
    e: E,
    stage: i32,
    embedding: bool,
    nflag: i32,
    t: MRIStepCoupling,
)
    requires
        stage > 0,
        mri(m).MRIC() == Some(t),
        mri(m).prb().implicit_rhs,
        !has_diagonal(t, stage),
    ensures
        ({
            let o = correct_stage(m, e, stage, embedding, nflag);
            let c = seq![ONE()] + correction_factors(m.stp().h, t, stage);
            let x = seq![m.ycur()] + implicit_rhs(mri(m).Fsi(), stage);
            &&& o.flag == ARK_SUCCESS
            &&& o.nflag == nflag
            &&& o.e == e
            &&& o.m.ycur().data.len() == m.ycur().data.len()
            &&& forall|i: int|
                0 <= i < m.ycur().data.len() ==> (#[trigger] o.m.ycur().data[i]) == total(c, x, i)
            &&& put_ycur(o.m, m.ycur()) == m
        }),
{
    reveal(correct_stage);
    reveal(needs_solve);
    reveal(correct_explicit);
    reveal(put_ycur);
    lemma_corrections(m, stage, t);
    assert(correction(m, stage as int, stage as int) == table_entry(
        t.G@,
        0,
        stage as int,
        stage as int,
    ));
    law_combination(
        seq![ONE()] + correction_factors(m.stp().h, t, stage),
        seq![m.ycur()] + implicit_rhs(mri(m).Fsi(), stage),
        m.ycur(),
    );
}

/// Zero plus a number is the number.
proof fn lemma_zero_plus(y: sunrealtype, p: sunrealtype)
    requires
        y.mag() == 0,
        p.is_finite(),
        p.mag() > 0,
    ensures
        r_add(y, p) == p,
        r_sub(y, p) == r_neg(p),
{
    reveal(r_add);
    reveal(r_sub);
    reveal(r_neg);
    assert(units_of(0) == 0) by {
        reveal(units_of);
    }
    lemma_units_range(p.mag());
    lemma_nearest_self(p.mag());
    lemma_signed(!p.neg(), p.mag());
}

/// Minus one times a number is the number with the other sign.
proof fn lemma_times_minus_one(x: sunrealtype)
    requires
        x.is_finite(),
    ensures
        r_mul(r_neg(ONE()), x) == r_neg(x),
{
    law_times_one(x);
    assert(r_neg(ONE()).mag() == ONE().mag() && r_neg(ONE()).neg() && !ONE().neg()) by {
        reveal(r_neg);
        lemma_signed(true, ONE().mag());
    }
    reveal(r_mul);
    reveal(r_neg);
    let n = ONE().units() * x.units();
    let k = nearest(n / pow2(1073), n % pow2(1073) != 0);
    assert(k <= INF_BITS) by {
        reveal(nearest);
    }
    lemma_signed(x.neg(), k);
    assert(k == x.mag());
}

/// An entry of the table below the diagonal is felt: where the evolved solution
/// of the second stage is zero in a component, its correction makes that
/// component the step size times the entry times the implicit right-hand side of
/// the first stage there, and so no longer zero where that product is not.
pub proof fn law_correction_felt<E: ArkEnv>(
    m: MemView,
    e: E,
    embedding: bool,
    nflag: i32,
    t: MRIStepCoupling,
    i: int,
)
    requires
        mri(m).MRIC() == Some(t),
        mri(m).prb().implicit_rhs,
        !has_diagonal(t, 1),
        0 <= i < m.ycur().data.len(),
        r_eq(m.ycur().data[i], ZERO()),
        ({
            let g = r_mul(m.stp().h, table_entry(t.G@, 0, 1, 0));
            let f = component_of(vector_of(mri(m).Fsi(), 0), i);
            &&& f.is_finite()
            &&& r_mul(g, f).is_finite()
            &&& r_mul(g, f).mag() > 0
        }),
    ensures
        ({
            let o = correct_stage(m, e, 1, embedding, nflag);
            let g = r_mul(m.stp().h, table_entry(t.G@, 0, 1, 0));
            let f = component_of(vector_of(mri(m).Fsi(), 0), i);
            &&& o.m.ycur().data[i] == r_mul(g, f)
            &&& !r_eq(o.m.ycur().data[i], m.ycur().data[i])
        }),
{
    law_explicit_correction(m, e, 1, embedding, nflag, t);
    let y = m.ycur().data[i];
    let g = r_mul(m.stp().h, table_entry(t.G@, 0, 1, 0));
    let f = component_of(vector_of(mri(m).Fsi(), 0), i);
    let c = seq![ONE()] + correction_factors(m.stp().h, t, 1);
    let x = seq![m.ycur()] + implicit_rhs(mri(m).Fsi(), 1);
    assert(c.len() == 2 && c[0] == ONE() && c[1] == g);
    assert(x.len() == 2 && x[0] == m.ycur() && x[1] == vector_of(mri(m).Fsi(), 0));
    assert(total(c, x, i) == pair_sum(ONE(), y, g, f));
    assert(y.mag() == 0) by {
        reveal(r_eq);
    }
    law_times_one(y);
    law_times_one(f);
    lemma_zero_plus(y, r_mul(g, f));
    if r_eq(ONE(), g) {
        assert(g == ONE()) by {
            reveal(r_eq);
        }
        lemma_zero_plus(y, f);
    } else if r_eq(ONE(), r_neg(g)) {
        lemma_times_minus_one(f);
        assert(g == r_neg(ONE())) by {
            reveal(r_eq);
            reveal(r_neg);
        }
        assert(f.mag() > 0) by {
            reveal(r_neg);
        }
        lemma_zero_plus(y, f);
        assert(r_neg(f).is_finite()) by {
            reveal(r_neg);
        }
        law_times_one(r_neg(f));
    }
    assert(!r_eq(r_mul(g, f), y)) by {
        reveal(r_eq);
    }
}

/// The correction of a stage with a diagonal entry.
///
/// The stage is predicted; the nonlinear solver is then handed a memory in which
/// the known part of the equation is, in every component, the evolved solution
/// less the prediction plus the step size times row `stage`, column `j` of the
/// first implicit matrix times the implicit right-hand side of each earlier
/// stage `j`, and the factor of the implicit right-hand side is the step size
/// times the diagonal entry. A failure of the solver asks for another attempt.
pub proof fn law_implicit_correction<E: ArkEnv>(
    m: MemView,
    e: E,
    stage: i32,
    embedding: bool,
    nflag: i32,
    t: MRIStepCoupling,
)
    requires
        stage > 0,
        m.step_mem() is Some,
        mri(m).MRIC() == Some(t),
        mri(m).prb().implicit_rhs,
        has_diagonal(t, stage),
        ({
            let p = predict_current(solver_stage(m, stage, embedding), e);
            &&& p.flag == ARK_SUCCESS
            &&& p.m.step_mem() is Some
            &&& mri(p.m).MRIC() == Some(t)
        }),
    ensures
        ({
            let p = predict_current(solver_stage(m, stage, embedding), e);
            let o = correct_stage(m, e, stage, embedding, nflag);
            let c = seq![ONE(), r_neg(ONE())] + correction_factors(p.m.stp().h, t, stage);
            let x = seq![p.m.ycur(), mri(p.m).zpred()] + implicit_rhs(mri(p.m).Fsi(), stage);
            exists|z: MemView|
                {
                    let n = #[trigger] module_run(z, p.e, ModuleCall::Nls { nflag });
                    let g = mri(z).nls();
                    &&& mri(z).sdata().data.len() == mri(p.m).sdata().data.len()
                    &&& forall|i: int|
                        0 <= i < mri(z).sdata().data.len() ==> (#[trigger] mri(z).sdata().data[i])
                            == total(c, x, i)
                    &&& g.gamma == r_mul(
                        p.m.stp().h,
                        table_entry(t.G@, 0, stage as int, stage as int),
                    )
                    &&& p.m.flg().firststage ==> g.gammap == g.gamma && g.gamrat == ONE()
                    &&& !p.m.flg().firststage ==> g.gammap == mri(p.m).nls().gammap && g.gamrat
                        == r_div(g.gamma, g.gammap)
                    &&& z.ycur() == p.m.ycur()
                    &&& z.stp() == p.m.stp()
                    &&& mri(z).zpred() == mri(p.m).zpred()
                    &&& mri(z).Fsi() == mri(p.m).Fsi()
                    &&& o.m == n.m
                    &&& o.e == n.e
                    &&& o.nflag == n.flag
                    &&& o.flag == if n.flag == ARK_SUCCESS {
                        ARK_SUCCESS
                    } else {
                        TRY_AGAIN
                    }
                }
        }),
{
    reveal(correct_stage);
    reveal(needs_solve);
    reveal(correct_implicit);
    lemma_corrections(m, stage, t);
    assert(correction(m, stage as int, stage as int) == table_entry(
        t.G@,
        0,
        stage as int,
        stage as int,
    ));
    let p = predict_current(solver_stage(m, stage, embedding), e);
    lemma_corrections(p.m, stage, t);
    let z = correct_gamma(
        correct_data(p.m, stage),
        table_entry(t.G@, 0, stage as int, stage as int),
    );
    let n = module_run(z, p.e, ModuleCall::Nls { nflag });
    law_combination(
        seq![ONE(), r_neg(ONE())] + correction_factors(p.m.stp().h, t, stage),
        seq![p.m.ycur(), mri(p.m).zpred()] + implicit_rhs(mri(p.m).Fsi(), stage),
        mri(p.m).sdata(),
    );
    reveal(correct_gamma);
    reveal(correct_data);
    reveal(mput_nls);
    reveal(mput_sdata);
    reveal(with_mri);
    reveal(mri);
    assert(correct_stage(m, e, stage, embedding, nflag).m == n.m);
}

/// Without an implicit right-hand side no stage is corrected.
pub proof fn law_no_correction<E: ArkEnv>(
    m: MemView,
    e: E,
    stage: i32,
    embedding: bool,
    nflag: i32,
)
    requires
        !mri(m).prb().implicit_rhs,
    ensures
        ({
            let o = correct_stage(m, e, stage, embedding, nflag);
            o.m == m && o.e == e && o.nflag == nflag && o.flag == ARK_SUCCESS
        }),
{
    reveal(correct_stage);
    reveal(needs_solve);
}

/// The predictor and the solver of the embedding work in the place of the last
/// stage.
pub proof fn law_solver_place(m: MemView, stage: i32)
    requires
        m.step_mem() is Some,
        stage > 0,
    ensures
        mri(solver_stage(m, stage, true)).mth().istage == stage - 1,
        mput_mth(solver_stage(m, stage, true), mri(m).mth()) == m,
        solver_stage(m, stage, false) == m,
{
    reveal(solver_stage);
    reveal(mput_mth);
    reveal(with_mri);
    reveal(mri);
}

/// Where the problem has both slow right-hand sides, that of a finished stage
/// that drives the fast integrator is their sum, in every component. The
/// implicit one stays.
pub proof fn law_merged_rhs(m: MemView, slot: i32)
    requires
        m.step_mem() is Some,
        0 <= slot < mri(m).Fse().len(),
        !mri(m).mth().unify_Fs,
    ensures
        ({
            let r = merge_slow(m, slot);
            let both = mri(m).prb().implicit_rhs && mri(m).prb().explicit_rhs;
            let g = mri(r).Fse();
            &&& !both ==> r == m
            &&& both ==> {
                &&& g.len() == mri(m).Fse().len()
                &&& g[slot as int].data.len() == mri(m).Fse()[slot as int].data.len()
                &&& forall|i: int|
                    0 <= i < g[slot as int].data.len() ==> (#[trigger] g[slot as int].data[i])
                        == pair_sum(
                        ONE(),
                        component_of(mri(m).Fse()[slot as int], i),
                        ONE(),
                        component_of(vector_of(mri(m).Fsi(), slot as int), i),
                    )
                &&& forall|j: int|
                    0 <= j < g.len() && j != slot ==> (#[trigger] g[j]) == mri(m).Fse()[j]
                &&& mri(r).Fsi() == mri(m).Fsi()
                &&& r.ycur() == m.ycur()
            }
        }),
{
    reveal(merge_slow);
    reveal(write_fse);
    reveal(mput_Fse);
    reveal(mput_Fsi);
    reveal(with_mri);
    reveal(mri);
    let a = mri(m).Fse()[slot as int];
    law_linear_sum(ONE(), a, ONE(), vector_of(mri(m).Fsi(), slot as int), a);
}

/// The fast evolution of a stage: from the last solution at the start of the
/// step, to which the fast integrator returns after the first stage, to the time
/// of the stage, `tn + c h`; the embedding goes to the end of the step.
pub proof fn law_restarted_evolution<E: ArkEnv>(
    m: MemView,
    e: E,
    stage: i32,
    embedding: bool,
    need: bool,
    nflag: i32,
    t: MRIStepCoupling,
)
    requires
        m.step_mem() is Some,
        mri(m).MRIC() == Some(t),
        stage >= 1,
    ensures
        ({
            let y = if stage > 1 {
                v_scale(ONE(), m.yn(), m.ycur())
            } else {
                m.ycur()
            };
            let c = if embedding {
                ONE()
            } else {
                row_entry(t.c@, stage as int)
            };
            let tn = m.stp().tn;
            let tf = r_add(tn, r_mul(c, m.stp().h));
            let z = at_stage(with_tcur(put_ycur(m, y), tf), stage);
            let f = inner_forcing(z, stage, tn, tf);
            let a = restart_fast(f.0, e, tn);
            let o = evolve_from_start(m, e, stage, embedding, need, nflag);
            &&& z.ycur() == y
            &&& z.stp().tcur == tf
            &&& mri(z).mth().istage == stage
            &&& mri(z).mth().cur_stage == stage
            &&& f.1 != ARK_SUCCESS ==> o.m == f.0 && o.flag == f.1
            &&& f.1 == ARK_SUCCESS && stage == 1 ==> {
                let r = stage_erk_fast(f.0, e, tn, tf, f.0.ycur(), need && !embedding);
                o.m == put_ycur(r.m, r.v) && o.e == r.e && o.flag == r.flag
            }
            &&& f.1 == ARK_SUCCESS && stage > 1 && a.flag != ARK_SUCCESS ==> o.m == a.m && o.flag
                == a.flag
            &&& f.1 == ARK_SUCCESS && stage > 1 && a.flag == ARK_SUCCESS ==> {
                let r = stage_erk_fast(a.m, a.e, tn, tf, a.m.ycur(), need && !embedding);
                o.m == put_ycur(r.m, r.v) && o.e == r.e && o.flag == r.flag
            }
        }),
{
    reveal(evolve_from_start);
    reveal(time_at);
    reveal(abscissa);
    reveal(real_at);
    reveal(at_stage);
    reveal(with_tcur);
    reveal(put_ycur);
    reveal(put_stp);
    reveal(mput_mth);
    reveal(with_mri);
    reveal(mri);
    assert(put_ycur(m, m.ycur()) == m);
}

/// What follows the correction of a stage. The solution of the step is kept
/// while the embedded one is found; an internal stage has its slow right-hand
/// sides stored, and their sum in the place of the explicit one; for the
/// embedding nothing follows.
pub proof fn law_finished_stage<E: ArkEnv>(
    m: MemView,
    e: E,
    stage: i32,
    solution: bool,
    embedding: bool,
    solved: bool,
)
    requires
        m.att().PostProcessStageFn is None,
        m.att().PostProcessStepFn is None,
    ensures
        ({
            let p = mri(m).prb();
            let o = finish_stage(m, e, stage, solution, embedding, solved);
            let s = store_slow(
                m,
                e,
                stage,
                p.explicit_rhs,
                p.implicit_rhs,
                p.deduce_rhs && solved,
            );
            &&& embedding ==> o.m == m && o.e == e && o.flag == ARK_SUCCESS
            &&& !embedding && solution ==> {
                &&& o.m.tempv4() == v_scale(ONE(), m.ycur(), m.tempv4())
                &&& put_tempv4(o.m, m.tempv4()) == m
                &&& o.e == e
                &&& o.flag == ARK_SUCCESS
            }
            &&& !embedding && !solution && s.flag != ARK_SUCCESS ==> o == s
            &&& !embedding && !solution && s.flag == ARK_SUCCESS ==> {
                &&& o.m == merge_slow(s.m, stage)
                &&& o.e == s.e
                &&& o.flag == ARK_SUCCESS
            }
        }),
{
    reveal(finish_stage);
    reveal(post_and_restart);
    reveal(crate::mristep_begin::post_process);
    reveal(put_tempv4);
}

/// The function of the user on a corrected solution comes first: the one on
/// stages for an internal stage, the one on steps for the solution, none for the
/// embedding. What it leaves is what is kept or what the right-hand sides are
/// evaluated at; its failure ends the stage.
pub proof fn law_functions_on_stage<E: ArkEnv>(
    m: MemView,
    e: E,
    stage: i32,
    solved: bool,
)
    ensures
        ({
            let p = post_and_restart(
                m,
                e,
                UserFn::PostProcessStep,
                m.att().PostProcessStepFn,
                ARK_POSTPROCESS_STEP_FAIL,
            );
            let o = finish_stage(m, e, stage, true, false, solved);
            &&& p.flag != ARK_SUCCESS ==> o == p
            &&& p.flag == ARK_SUCCESS ==> o.flag == ARK_SUCCESS && o.e == p.e && o.m.tempv4()
                == v_scale(ONE(), p.m.ycur(), p.m.tempv4()) && put_tempv4(o.m, p.m.tempv4()) == p.m
        }),
        ({
            let p = post_and_restart(
                m,
                e,
                UserFn::PostProcessStage,
                m.att().PostProcessStageFn,
                ARK_POSTPROCESS_STAGE_FAIL,
            );
            let b = mri(p.m).prb();
            let s = store_slow(
                p.m,
                p.e,
                stage,
                b.explicit_rhs,
                b.implicit_rhs,
                b.deduce_rhs && solved,
            );
            let o = finish_stage(m, e, stage, false, false, solved);
            &&& p.flag != ARK_SUCCESS ==> o == p
            &&& p.flag == ARK_SUCCESS && s.flag != ARK_SUCCESS ==> o == s
            &&& p.flag == ARK_SUCCESS && s.flag == ARK_SUCCESS ==> o.m == merge_slow(s.m, stage)
                && o.e == s.e && o.flag == ARK_SUCCESS
        }),
{
    reveal(finish_stage);
    reveal(put_tempv4);
}

} // verus!
