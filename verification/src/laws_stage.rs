//! Laws of the slow stages without fast evolution, stated by index from the
//! coupling table.
use crate::arkode_codes::{ARK_INVALID_TABLE, ARK_SUCCESS, TRY_AGAIN};
use crate::arkode_impl::MemView;
use crate::arkode_mem::{
    mput_Ae_row, mput_Ai_row, mput_mth, mput_nls, mput_sdata, mri, put_ycur, with_mri,
};
use crate::binary64::{r_add, r_div, r_int, r_mul, r_neg, sunrealtype};
use crate::coupling::{coeff, count, index_at, real_at, MRIStepCoupling};
use crate::env::{ArkEnv, ModuleCall};
use crate::laws_forcing::{lemma_stage_lists, lists_stages, row_entry, table_entry};
use crate::laws_sums::{law_combination, total};
use crate::mristep_coeffs::{rk_coeffs, rk_row, set_rows, slot_sum, slot_terms};
use crate::mristep_stage::{
    erk_update, predict_current, stage_dirk_nofast, stage_erk_nofast, stage_setup, update_coeffs,
    update_vectors, with_gamma, with_istage, with_sdata,
};
use crate::nvector::NVec;
use crate::outcome::module_run;
use crate::sundials_types::{ONE, ZERO};
use vstd::prelude::*;

verus! {

/// `acc` with row `is`, column `j` of the first `n` matrices added, each over
/// one more than its index: the integral over the unit interval of the
/// polynomial that they make up.
pub open spec fn integrated_entry(
    acc: sunrealtype,
    a: Seq<Vec<Vec<sunrealtype>>>,
    is: int,
    j: int,
    n: nat,
) -> sunrealtype
    decreases n,
{
    if n == 0 {
        acc
    } else {
        r_add(
            integrated_entry(acc, a, is, j, (n - 1) as nat),
            r_mul(
                table_entry(a, n - 1, is, j),
                r_div(ONE(), r_add(r_int(n - 1), ONE())),
            ),
        )
    }
}

/// Whether stage `j` is the only one before `n` that is stored in slot `r`.
pub open spec fn only_stage(map: Seq<i32>, r: int, n: nat, j: int) -> bool {
    &&& 0 <= j < n
    &&& forall|i: int| 0 <= i < n ==> (#[trigger] stage_slot(map, i) == r) == (i == j)
}

/// Slot of stage `i`, minus one where it has none.
pub open spec fn stage_slot(map: Seq<i32>, i: int) -> int {
    if 0 <= i < map.len() {
        map[i] as int
    } else {
        -1
    }
}

proof fn lemma_only_terms(
    acc: sunrealtype,
    a: Seq<Vec<Vec<sunrealtype>>>,
    is: int,
    map: Seq<i32>,
    r: int,
    k: int,
    n: nat,
    j: int,
)
    requires
        forall|i: int| 0 <= i < n ==> (#[trigger] stage_slot(map, i) == r) == (i == j),
    ensures
        slot_terms(acc, a, is, map, r, k, n) == if 0 <= j < n {
            r_add(acc, r_mul(table_entry(a, k, is, j), r_div(ONE(), r_add(r_int(k), ONE()))))
        } else {
            acc
        },
    decreases n,
{
    reveal(slot_terms);
    reveal(index_at);
    reveal(coeff);
    if n > 0 {
        lemma_only_terms(acc, a, is, map, r, k, (n - 1) as nat, j);
        assert((stage_slot(map, n - 1) == r) == (n - 1 == j));
        assert(index_at(map, n - 1) as int == stage_slot(map, n - 1));
    }
}

proof fn lemma_only_sum(
    acc: sunrealtype,
    a: Seq<Vec<Vec<sunrealtype>>>,
    is: int,
    map: Seq<i32>,
    r: int,
    n: nat,
    q: nat,
    j: int,
)
    requires
        only_stage(map, r, n, j),
    ensures
        slot_sum(acc, a, is, map, r, n, q) == integrated_entry(acc, a, is, j, q),
    decreases q,
{
    reveal(slot_sum);
    if q > 0 {
        lemma_only_sum(acc, a, is, map, r, n, (q - 1) as nat, j);
        lemma_only_terms(
            slot_sum(acc, a, is, map, r, n, (q - 1) as nat),
            a,
            is,
            map,
            r,
            q - 1,
            n,
            j,
        );
    }
}

/// `acc` with the entries of row `is` for the first `n` stages that are stored
/// in slot `r` added, from matrix `k`, over `k + 1`.
pub open spec fn slot_entries(
    acc: sunrealtype,
    a: Seq<Vec<Vec<sunrealtype>>>,
    is: int,
    map: Seq<i32>,
    r: int,
    k: int,
    n: nat,
) -> sunrealtype
    decreases n,
{
    if n == 0 {
        acc
    } else {
        let p = slot_entries(acc, a, is, map, r, k, (n - 1) as nat);
        if stage_slot(map, n - 1) == r {
            r_add(
                p,
                r_mul(table_entry(a, k, is, n - 1), r_div(ONE(), r_add(r_int(k), ONE()))),
            )
        } else {
            p
        }
    }
}

/// The entries of row `is` for the stages that are stored in slot `r`, of the
/// first `q` matrices, each over one more than the index of its matrix.
pub open spec fn slot_total(
    acc: sunrealtype,
    a: Seq<Vec<Vec<sunrealtype>>>,
    is: int,
    map: Seq<i32>,
    r: int,
    n: nat,
    q: nat,
) -> sunrealtype
    decreases q,
{
    if q == 0 {
        acc
    } else {
        slot_entries(slot_total(acc, a, is, map, r, n, (q - 1) as nat), a, is, map, r, q - 1, n)
    }
}

proof fn lemma_slot_entries(
    acc: sunrealtype,
    a: Seq<Vec<Vec<sunrealtype>>>,
    is: int,
    map: Seq<i32>,
    r: int,
    k: int,
    n: nat,
)
    requires
        r >= 0,
    ensures
        slot_terms(acc, a, is, map, r, k, n) == slot_entries(acc, a, is, map, r, k, n),
    decreases n,
{
    reveal(slot_terms);
    reveal(index_at);
    reveal(coeff);
    if n > 0 {
        lemma_slot_entries(acc, a, is, map, r, k, (n - 1) as nat);
    }
}

proof fn lemma_slot_total(
    acc: sunrealtype,
    a: Seq<Vec<Vec<sunrealtype>>>,
    is: int,
    map: Seq<i32>,
    r: int,
    n: nat,
    q: nat,
)
    requires
        r >= 0,
    ensures
        slot_sum(acc, a, is, map, r, n, q) == slot_total(acc, a, is, map, r, n, q),
    decreases q,
{
    reveal(slot_sum);
    if q > 0 {
        lemma_slot_total(acc, a, is, map, r, n, (q - 1) as nat);
        lemma_slot_entries(
            slot_sum(acc, a, is, map, r, n, (q - 1) as nat),
            a,
            is,
            map,
            r,
            q - 1,
            n,
        );
    }
}

/// Number of matrices that count: none of an empty list.
pub open spec fn matrices(a: Seq<Vec<Vec<sunrealtype>>>, nmat: i32) -> nat {
    if a.len() == 0 || nmat <= 0 {
        0
    } else {
        nmat as nat
    }
}

/// Number of earlier stages that a stage builds on explicitly: those before it;
/// the embedding builds on what the last stage does.
pub open spec fn earlier_stages(is: i32, stages: i32) -> nat {
    if is < stages - 1 {
        is as nat
    } else {
        (stages - 1) as nat
    }
}

/// The effective coefficients of a stage without fast evolution.
///
/// Slot `r` of the explicit row is the sum, over the matrices `k` of the table
/// and the earlier stages `j` that are stored in that slot, of row `is`, column
/// `j` of explicit matrix `k` over `k + 1`. The implicit row is the same with
/// the implicit matrices, and with the stage itself. Where a single stage is
/// stored in the slot, that is the integral of its polynomial over the step.
pub proof fn law_effective_coefficients(
    t: MRIStepCoupling,
    is: i32,
    map: Seq<i32>,
    ae: Seq<sunrealtype>,
    ai: Seq<sunrealtype>,
)
    requires
        1 <= is <= t.stages,
        map.len() > 0,
        ae.len() > 0,
        ai.len() > 0,
    ensures
        ({
            let o = rk_coeffs(t, is, map, ae, ai);
            let n = earlier_stages(is, t.stages);
            &&& o.flag == ARK_SUCCESS
            &&& o.ae.len() == ae.len()
            &&& o.ai.len() == ai.len()
            &&& forall|r: int|
                0 <= r < ae.len() && r < t.stages ==> (#[trigger] o.ae[r]) == slot_total(
                    ZERO(),
                    t.W@,
                    is as int,
                    map,
                    r,
                    n,
                    matrices(t.W@, t.nmat),
                )
            &&& forall|r: int|
                0 <= r < ai.len() && r < t.stages ==> (#[trigger] o.ai[r]) == slot_total(
                    ZERO(),
                    t.G@,
                    is as int,
                    map,
                    r,
                    n + 1,
                    matrices(t.G@, t.nmat),
                )
            &&& forall|r: int, j: int|
                0 <= r < ae.len() && r < t.stages && #[trigger] only_stage(map, r, n, j)
                    ==> o.ae[r] == integrated_entry(
                    ZERO(),
                    t.W@,
                    is as int,
                    j,
                    matrices(t.W@, t.nmat),
                )
            &&& forall|r: int, j: int|
                0 <= r < ai.len() && r < t.stages && #[trigger] only_stage(map, r, n + 1, j)
                    ==> o.ai[r] == integrated_entry(
                    ZERO(),
                    t.G@,
                    is as int,
                    j,
                    matrices(t.G@, t.nmat),
                )
        }),
{
    reveal(rk_coeffs);
    reveal(rk_row);
    let o = rk_coeffs(t, is, map, ae, ai);
    let n = earlier_stages(is, t.stages);
    let qe = matrices(t.W@, t.nmat);
    let qi = matrices(t.G@, t.nmat);
    assert forall|r: int| 0 <= r < ae.len() && r < t.stages implies (#[trigger] o.ae[r])
        == slot_total(ZERO(), t.W@, is as int, map, r, n, qe) by {
        lemma_slot_total(ZERO(), t.W@, is as int, map, r, n, qe);
    }
    assert forall|r: int| 0 <= r < ai.len() && r < t.stages implies (#[trigger] o.ai[r])
        == slot_total(ZERO(), t.G@, is as int, map, r, n + 1, qi) by {
        lemma_slot_total(ZERO(), t.G@, is as int, map, r, n + 1, qi);
    }
    assert forall|r: int, j: int|
        0 <= r < ae.len() && r < t.stages && #[trigger] only_stage(map, r, n, j) implies o.ae[r]
        == integrated_entry(ZERO(), t.W@, is as int, j, qe) by {
        lemma_only_sum(ZERO(), t.W@, is as int, map, r, n, qe, j);
    }
    assert forall|r: int, j: int|
        0 <= r < ai.len() && r < t.stages && #[trigger] only_stage(map, r, n + 1, j) implies o.ai[r]
        == integrated_entry(ZERO(), t.G@, is as int, j, qi) by {
        lemma_only_sum(ZERO(), t.G@, is as int, map, r, n + 1, qi, j);
    }
}

/// The rows of effective coefficients come from the table in use; nothing else
/// changes. A stage outside the table is refused.
pub proof fn law_rows_set(m: MemView, is: i32, t: MRIStepCoupling)
    requires
        m.step_mem() is Some,
        mri(m).MRIC() == Some(t),
    ensures
        ({
            let r = set_rows(m, is);
            let o = rk_coeffs(t, is, mri(m).stage_map(), mri(m).Ae_row(), mri(m).Ai_row());
            &&& mri(r.0).Ae_row() == o.ae
            &&& mri(r.0).Ai_row() == o.ai
            &&& r.1 == o.flag
            &&& r.0.step_mem() is Some
            &&& mput_Ai_row(mput_Ae_row(r.0, mri(m).Ae_row()), mri(m).Ai_row()) == m
            &&& is < 1 || is > t.stages ==> r.1 == ARK_INVALID_TABLE
        }),
{
    reveal(set_rows);
    reveal(rk_coeffs);
    reveal(mput_Ae_row);
    reveal(mput_Ai_row);
    reveal(with_mri);
    reveal(mri);
}

/// An explicit stage without fast evolution adds to the current solution, in
/// every component, the step size times the effective coefficient of each
/// earlier stage times its right-hand sides.
pub proof fn law_explicit_stage(m: MemView, is: i32, c: Seq<sunrealtype>, x: Seq<NVec>)
    requires
        m.step_mem() is Some,
        stage_erk_nofast(m, is).1 == ARK_SUCCESS,
        mri(m).prb().explicit_rhs || mri(m).prb().implicit_rhs,
        ({
            let r = stage_erk_nofast(m, is).0;
            lists_stages(
                c,
                x,
                mri(m).prb().explicit_rhs,
                mri(m).prb().implicit_rhs,
                mri(m).stage_map(),
                mri(m).Fse(),
                mri(m).Fsi(),
                crate::laws_forcing::forcing_stages(is, mri(m).mth().stages),
                |j: int|
                    r_mul(
                        m.stp().h,
                        row_entry(mri(r).Ae_row(), mri(m).stage_map()[j] as int),
                    ),
                |j: int|
                    r_mul(
                        m.stp().h,
                        row_entry(mri(r).Ai_row(), mri(m).stage_map()[j] as int),
                    ),
            )
        }),
    ensures
        ({
            let r = stage_erk_nofast(m, is).0;
            &&& r.ycur().data.len() == m.ycur().data.len()
            &&& forall|i: int|
                0 <= i < m.ycur().data.len() ==> (#[trigger] r.ycur().data[i]) == total(
                    seq![ONE()] + c,
                    seq![m.ycur()] + x,
                    i,
                )
            &&& mri(r).Ae_row() == mri(set_rows(m, is).0).Ae_row()
            &&& mri(r).Ai_row() == mri(set_rows(m, is).0).Ai_row()
            &&& set_rows(m, is).1 == ARK_SUCCESS
        }),
{
    reveal(stage_erk_nofast);
    reveal(set_rows);
    reveal(erk_update);
    reveal(update_coeffs);
    reveal(update_vectors);
    reveal(mput_Ae_row);
    reveal(mput_Ai_row);
    reveal(with_mri);
    reveal(mri);
    reveal(put_ycur);
    let r = stage_erk_nofast(m, is).0;
    lemma_stage_lists(
        c,
        x,
        mri(m).prb().explicit_rhs,
        mri(m).prb().implicit_rhs,
        mri(m).stage_map(),
        mri(m).Fse(),
        mri(m).Fsi(),
        crate::laws_forcing::forcing_stages(is, mri(m).mth().stages),
        m.stp().h,
        mri(r).Ae_row(),
        mri(r).Ai_row(),
    );
    law_combination(seq![ONE()] + c, seq![m.ycur()] + x, m.ycur());
}

/// The data of an implicit stage: the factor of the implicit right-hand side is
/// the step size times the implicit effective coefficient of the stage itself.
/// Its ratio to the factor that was in use before is one on a first stage, which
/// puts it in use.
pub proof fn law_stage_factor(m: MemView)
    requires
        m.step_mem() is Some,
    ensures
        ({
            let r = stage_setup(m);
            let n = mri(r.0).nls();
            let slot = stage_slot(mri(m).stage_map(), mri(m).mth().istage as int);
            &&& r.1 == ARK_SUCCESS
            &&& n.gamma == r_mul(m.stp().h, row_entry(mri(m).Ai_row(), slot))
            &&& m.flg().firststage ==> n.gammap == n.gamma && n.gamrat == ONE()
            &&& !m.flg().firststage ==> n.gammap == mri(m).nls().gammap && n.gamrat == r_div(
                n.gamma,
                mri(m).nls().gammap,
            )
        }),
{
    reveal(stage_setup);
    reveal(with_gamma);
    reveal(with_sdata);
    reveal(index_at);
    reveal(real_at);
    reveal(mput_nls);
    reveal(mput_sdata);
    reveal(with_mri);
    reveal(mri);
}

/// The known part of the equation of an implicit stage, in every component: the
/// solution so far less the prediction, plus the step size times the effective
/// coefficient of each earlier stage times its right-hand sides.
pub proof fn law_stage_data(m: MemView, c: Seq<sunrealtype>, x: Seq<NVec>)
    requires
        m.step_mem() is Some,
        mri(m).prb().explicit_rhs || mri(m).prb().implicit_rhs,
        lists_stages(
            c,
            x,
            mri(m).prb().explicit_rhs,
            mri(m).prb().implicit_rhs,
            mri(m).stage_map(),
            mri(m).Fse(),
            mri(m).Fsi(),
            count(mri(m).mth().istage),
            |j: int|
                r_mul(m.stp().h, row_entry(mri(m).Ae_row(), mri(m).stage_map()[j] as int)),
            |j: int|
                r_mul(m.stp().h, row_entry(mri(m).Ai_row(), mri(m).stage_map()[j] as int)),
        ),
    ensures
        ({
            let d = mri(stage_setup(m).0).sdata();
            &&& d.data.len() == mri(m).sdata().data.len()
            &&& forall|i: int|
                0 <= i < d.data.len() ==> (#[trigger] d.data[i]) == total(
                    seq![ONE(), r_neg(ONE())] + c,
                    seq![m.ycur(), mri(m).zpred()] + x,
                    i,
                )
        }),
{
    reveal(stage_setup);
    reveal(with_gamma);
    reveal(with_sdata);
    reveal(update_coeffs);
    reveal(update_vectors);
    reveal(mput_nls);
    reveal(mput_sdata);
    reveal(with_mri);
    reveal(mri);
    lemma_stage_lists(
        c,
        x,
        mri(m).prb().explicit_rhs,
        mri(m).prb().implicit_rhs,
        mri(m).stage_map(),
        mri(m).Fse(),
        mri(m).Fsi(),
        count(mri(m).mth().istage),
        m.stp().h,
        mri(m).Ae_row(),
        mri(m).Ai_row(),
    );
    law_combination(
        seq![ONE(), r_neg(ONE())] + c,
        seq![m.ycur(), mri(m).zpred()] + x,
        mri(m).sdata(),
    );
}

/// An implicit stage.
///
/// The stage is predicted and its effective coefficients are found; the
/// nonlinear solver is then handed a memory in which the factor of the implicit
/// right-hand side is the step size times the implicit coefficient of the stage:
/// where no other stage is stored in its slot, the step size times the sum over
/// the matrices `k` of the diagonal entry of row `is` over `k + 1`. The embedding
/// is solved in the slot of the last stage. A failure of the solver asks for
/// another attempt.
pub proof fn law_implicit_stage<E: ArkEnv>(
    m: MemView,
    e: E,
    is: i32,
    nflag: i32,
    t: MRIStepCoupling,
)
    requires
        m.step_mem() is Some,
        ({
            let p = predict_current(with_istage(m, is), e);
            let last = if is == mri(m).mth().stages {
                is - 1
            } else {
                is as int
            };
            let map = mri(p.m).stage_map();
            let slot = stage_slot(map, last);
            &&& p.flag == ARK_SUCCESS
            &&& p.m.step_mem() is Some
            &&& mri(p.m).mth().istage == last
            &&& mri(p.m).MRIC() == Some(t)
            &&& 1 <= is <= t.stages
            &&& map.len() > 0
            &&& 0 <= slot < mri(p.m).Ai_row().len()
            &&& slot < t.stages
            &&& mri(p.m).Ae_row().len() > 0
            &&& only_stage(map, slot, earlier_stages(is, t.stages) + 1, last)
        }),
    ensures
        ({
            let p = predict_current(with_istage(m, is), e);
            let o = stage_dirk_nofast(m, e, is, nflag);
            let last = if is == mri(m).mth().stages {
                is - 1
            } else {
                is as int
            };
            exists|z: MemView|
                {
                    let n = #[trigger] module_run(z, p.e, ModuleCall::Nls { nflag });
                    &&& mri(z).nls().gamma == r_mul(
                        p.m.stp().h,
                        integrated_entry(
                            ZERO(),
                            t.G@,
                            is as int,
                            last,
                            matrices(t.G@, t.nmat),
                        ),
                    )
                    &&& z == stage_setup(set_rows(p.m, is).0).0
                    &&& z.ycur() == p.m.ycur()
                    &&& z.stp() == p.m.stp()
                    &&& mri(z).zpred() == mri(p.m).zpred()
                    &&& o.m == n.m
                    &&& o.e == n.e
                    &&& o.nflag == n.flag
                    &&& o.flag == if n.flag == ARK_SUCCESS {
                        ARK_SUCCESS
                    } else {
                        TRY_AGAIN
                    }
                }
        }),
{
    let p = predict_current(with_istage(m, is), e);
    let last = if is == mri(m).mth().stages {
        is - 1
    } else {
        is as int
    };
    let map = mri(p.m).stage_map();
    let slot = stage_slot(map, last);
    let r = set_rows(p.m, is);
    law_rows_set(p.m, is, t);
    law_effective_coefficients(t, is, map, mri(p.m).Ae_row(), mri(p.m).Ai_row());
    assert(r.0.stp() == p.m.stp() && r.0.ycur() == p.m.ycur() && mri(r.0).mth() == mri(p.m).mth()
        && mri(r.0).stage_map() == map && mri(r.0).zpred() == mri(p.m).zpred()) by {
        reveal(set_rows);
        reveal(mput_Ae_row);
        reveal(mput_Ai_row);
        reveal(with_mri);
        reveal(mri);
    }
    law_stage_factor(r.0);
    let z = stage_setup(r.0).0;
    assert(z.stp() == r.0.stp() && z.ycur() == r.0.ycur() && mri(z).zpred() == mri(r.0).zpred()) by {
        reveal(stage_setup);
        reveal(with_gamma);
        reveal(with_sdata);
        reveal(mput_nls);
        reveal(mput_sdata);
        reveal(with_mri);
        reveal(mri);
    }
    assert(mri(z).nls().gamma == r_mul(
        p.m.stp().h,
        integrated_entry(ZERO(), t.G@, is as int, last, matrices(t.G@, t.nmat)),
    ));
    reveal(stage_dirk_nofast);
    let n = module_run(z, p.e, ModuleCall::Nls { nflag });
    assert(stage_dirk_nofast(m, e, is, nflag).m == n.m);
}

/// The stage that is solved; the embedding counts as the last stage.
pub proof fn law_solved_stage(m: MemView, is: i32)
    requires
        m.step_mem() is Some,
        is > i32::MIN,
    ensures
        mri(with_istage(m, is)).mth().istage == if is == mri(m).mth().stages {
            is - 1
        } else {
            is as int
        },
        with_istage(m, is).stp() == m.stp(),
        with_istage(m, is).ycur() == m.ycur(),
        mput_mth(with_istage(m, is), mri(m).mth()) == m,
{
    reveal(with_istage);
    reveal(mput_mth);
    reveal(with_mri);
    reveal(mri);
}

} // verus!
