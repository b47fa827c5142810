//! Laws of predictions and of interpolated output, and of the constraints that a
//! solution is held against.
use crate::arkode_checks::{check_constraints, constraint_eta, with_eta};
use crate::arkode_codes::{
    ARK_BAD_T, ARK_CONSTR_FAIL, ARK_ILL_INPUT, ARK_INTERP_MAX_DEGREE, ARK_MEM_NULL, ARK_SUCCESS,
    ARK_USER_PREDICT_FAIL, CONSTR_RECVR, FUZZ_FACTOR, NINE_TENTHS, ONEPSM, PREV_CONV_FAIL,
    THREE_QUARTERS, TRY_AGAIN,
};
use crate::arkode_impl::{ArkStep, FnId, MemView};
use crate::arkode_mem::{
    mput_zpred, mri, put_cnt, put_stp, put_tempv3, put_tempv4, with_mri,
};
use crate::arkode_predict::{bootstrap, bootstrap_coeffs, bootstrap_vectors, get_dky, moved_coeff};
use crate::binary64::{
    r_abs, r_add, r_div, r_eq, r_le, r_lt, r_mul, r_neg, r_sub, sunrealtype,
};
use crate::coupling::{index_at, real_at, MRIStepCoupling};
use crate::env::{ArkEnv, ModuleCall, UserFn};
use crate::laws_forcing::row_entry;
use crate::laws_gark::listed_index;
use crate::laws_rhs::{user_call, vector_of};
use crate::laws_sums::{
    component_of, law_combination, law_componentwise, law_linear_sum, pair_sum, total,
};
use crate::mristep_rhs::process;
use crate::mristep_stage::{
    abscissa, furthest, last_moved, pair_coeffs, pair_vectors, predict_by, predict_current,
    predict_stage, predict_within,
};
use crate::nvector::{
    all_hold, at, min_quotient, v_fill, v_lin, v_mask, v_prod, v_scale, violates, NVec,
};
use crate::outcome::module_vec;
use crate::sundials_math::r_max;
use crate::sundials_types::{HALF, ONE, ONE_AND_HALF, SUN_BIG_REAL, TENTH, TWO, ZERO};
use vstd::prelude::*;

verus! {

/// Output can be interpolated over the last step, with a slack of roundoff at
/// either end: there the interpolation module is asked at the time since the
/// current one over the step size, with the highest degree. Elsewhere the time
/// is refused.
pub proof fn law_output<E: ArkEnv>(m: MemView, e: E, t: sunrealtype, k: i32, y: NVec)
    ensures
        ({
            let s = m.stp();
            let fuzz = r_mul(
                r_mul(FUZZ_FACTOR(), m.lim().uround),
                r_add(r_abs(s.tcur), r_abs(s.hold)),
            );
            let slack = if r_lt(s.hold, ZERO()) {
                r_neg(fuzz)
            } else {
                fuzz
            };
            let first = r_sub(r_sub(s.tcur, s.hold), slack);
            let last = r_add(s.tcur, slack);
            let outside = r_lt(ZERO(), r_mul(r_sub(t, first), r_sub(t, last)));
            let r = get_dky(m, e, t, k, y);
            &&& !m.att().interp ==> r.flag == ARK_MEM_NULL && r.m == m && r.e == e && r.v == y
            &&& m.att().interp && outside ==> r.flag == ARK_BAD_T && r.m == m && r.e == e && r.v
                == y
            &&& m.att().interp && !outside ==> r == module_vec(
                m,
                e,
                ModuleCall::InterpEvaluate {
                    tau: r_div(r_sub(t, s.tcur), s.h),
                    k,
                    degree: ARK_INTERP_MAX_DEGREE,
                },
                y,
            )
        }),
{
    reveal(get_dky);
}

/// The time at which a stage is predicted: its place in the step, in units of
/// the last step.
pub open spec fn prediction_time(m: MemView, c: sunrealtype) -> sunrealtype {
    r_div(r_mul(c, m.stp().h), m.stp().hold)
}

/// The predictions by an interpolant, at the place of the stage in units of the
/// last step: of the highest degree; of a degree that falls from three to two
/// past a half and to one past three quarters; of the highest degree up to a
/// half and of degree one past it.
pub proof fn law_interpolated_prediction<E: ArkEnv>(
    m: MemView,
    e: E,
    istage: i32,
    y: NVec,
    t: MRIStepCoupling,
)
    requires
        mri(m).MRIC() == Some(t),
        m.att().interp,
        1 <= mri(m).prb().predictor <= 3,
    ensures
        ({
            let p = mri(m).prb().predictor;
            let tau = prediction_time(m, row_entry(t.c@, istage as int));
            let near = r_le(tau, HALF());
            let degree: i32 = if p == 1 {
                ARK_INTERP_MAX_DEGREE
            } else if p == 2 && near {
                3
            } else if p == 2 && r_le(tau, THREE_QUARTERS()) {
                2
            } else if p == 2 {
                1
            } else if near {
                ARK_INTERP_MAX_DEGREE
            } else {
                1
            };
            predict_by(m, e, istage, y) == module_vec(
                m,
                e,
                ModuleCall::InterpEvaluate { tau, k: 0, degree },
                y,
            )
        }),
{
    reveal(predict_by);
    reveal(abscissa);
    reveal(real_at);
}

/// The quadratic through the last solution, its slope, and the slope of a later
/// stage at `hj` into the step, in every component: with
/// `a = tau^2 / 2 / hj`, the solution plus `tau - a` times its slope plus `a`
/// times the later one.
pub proof fn law_quadratic(
    m: MemView,
    hj: sunrealtype,
    tau: sunrealtype,
    c: Seq<sunrealtype>,
    x: Seq<NVec>,
    y: NVec,
)
    requires
        m.att().interp,
        1 <= x.len() <= 2,
        c.len() == x.len() + 2,
    ensures
        ({
            let a = r_div(r_div(r_mul(tau, tau), TWO()), hj);
            let f = seq![ONE(), r_sub(tau, a)] + Seq::new(
                x.len(),
                |i: int| r_mul(a, c[i]),
            );
            let v = seq![m.yn(), m.fn_()] + x;
            let r = bootstrap(m, hj, tau, x.len(), c, x, y);
            &&& r.data.len() == y.data.len()
            &&& forall|i: int| 0 <= i < r.data.len() ==> (#[trigger] r.data[i]) == total(f, v, i)
        }),
{
    reveal(bootstrap);
    reveal_with_fuel(moved_coeff, 3);
    let a = r_div(r_div(r_mul(tau, tau), TWO()), hj);
    let f = seq![ONE(), r_sub(tau, a)] + Seq::new(x.len(), |i: int| r_mul(a, c[i]));
    let v = seq![m.yn(), m.fn_()] + x;
    assert(bootstrap_coeffs(hj, tau, c, x.len()).take((x.len() + 2) as int) =~= f);
    assert(bootstrap_vectors(m, x, x.len()) =~= v);
    law_combination(f, v, y);
}

proof fn lemma_last_moved(m: MemView, n: nat)
    ensures
        ({
            let j = last_moved(m, n);
            &&& -1 <= j < n
            &&& j >= 0 ==> !r_eq(abscissa(m, j), ZERO())
            &&& forall|i: int| j < i < n ==> r_eq(#[trigger] abscissa(m, i), ZERO())
        }),
    decreases n,
{
    reveal(last_moved);
    if n > 0 && r_eq(abscissa(m, n - 1), ZERO()) {
        lemma_last_moved(m, (n - 1) as nat);
    }
}

proof fn lemma_furthest(m: MemView, j0: int, n: nat)
    requires
        !abscissa(m, j0).is_nan(),
        forall|i: int| 0 <= i < n ==> !(#[trigger] abscissa(m, i)).is_nan(),
    ensures
        ({
            let j = furthest(m, j0, n);
            &&& j == j0 || (0 <= j < n && index_at(mri(m).stage_map(), j) > -1 && !r_eq(
                abscissa(m, j),
                ZERO(),
            ))
            &&& forall|i: int|
                0 <= i < n && index_at(mri(m).stage_map(), i) > -1 && !r_eq(
                    #[trigger] abscissa(m, i),
                    ZERO(),
                ) ==> !r_lt(abscissa(m, j), abscissa(m, i))
            &&& !r_lt(abscissa(m, j), abscissa(m, j0))
        }),
    decreases n,
{
    reveal(furthest);
    reveal(r_lt);
    if n > 0 {
        lemma_furthest(m, j0, (n - 1) as nat);
    }
}

/// A prediction from within the step goes out from the stage before that reaches
/// furthest into it, among those whose right-hand side is stored and the last
/// one that has left its start; it is the quadratic with the slow right-hand
/// sides of that stage. Where no stage has left the start there is none.
pub proof fn law_prediction_within(m: MemView, istage: i32, y: NVec, t: MRIStepCoupling)
    requires
        mri(m).MRIC() == Some(t),
        istage >= 0,
        istage <= t.c@.len(),
        forall|i: int| 0 <= i < t.c@.len() ==> !(#[trigger] t.c@[i]).is_nan(),
        mri(m).prb().implicit_rhs || mri(m).prb().explicit_rhs,
    ensures
        ({
            let moved = |i: int| 0 <= i < istage && !r_eq(t.c@[i], ZERO());
            let p = mri(m).prb();
            let o = predict_within(m, istage, y);
            &&& o is None <==> forall|i: int| #![trigger t.c@[i]] !moved(i)
            &&& o is Some ==> exists|j: int|
                #![trigger row_entry(t.c@, j)]
                {
                    let slot = listed_index(mri(m).stage_map(), j) as int;
                    let im = if p.implicit_rhs {
                        seq![vector_of(mri(m).Fsi(), slot)]
                    } else {
                        Seq::empty()
                    };
                    let x = if p.explicit_rhs {
                        im.push(vector_of(mri(m).Fse(), slot))
                    } else {
                        im
                    };
                    let ones = Seq::new(x.len(), |i: int| ONE());
                    &&& moved(j)
                    &&& forall|i: int|
                        #![trigger t.c@[i]]
                        moved(i) && listed_index(mri(m).stage_map(), i) > -1 ==> !r_lt(
                            t.c@[j],
                            t.c@[i],
                        )
                    &&& o->Some_0.0 == bootstrap(
                        m,
                        r_mul(m.stp().h, row_entry(t.c@, j)),
                        r_mul(m.stp().h, row_entry(t.c@, istage as int)),
                        x.len(),
                        ones.push(ZERO()).push(ZERO()),
                        x,
                        y,
                    )
                    &&& o->Some_0.1 == if m.att().interp {
                        ARK_SUCCESS
                    } else {
                        ARK_MEM_NULL
                    }
                }
        }),
{
    reveal(predict_within);
    assert forall|i: int| 0 <= i < t.c@.len() implies #[trigger] abscissa(m, i) == t.c@[i] by {
        reveal(abscissa);
        reveal(real_at);
    }
    assert(abscissa(m, istage as int) == row_entry(t.c@, istage as int)) by {
        reveal(abscissa);
        reveal(real_at);
    }
    let n = crate::coupling::count(istage);
    assert(n == istage);
    lemma_last_moved(m, n);
    let j0 = last_moved(m, n);
    if j0 == -1 {
        assert forall|i: int| 0 <= i < istage implies r_eq(#[trigger] t.c@[i], ZERO()) by {
            assert(r_eq(abscissa(m, i), ZERO()));
        }
    } else {
        assert(!r_eq(t.c@[j0], ZERO()));
        assert(abscissa(m, j0) == t.c@[j0]);
        assert forall|i: int| 0 <= i < n implies !(#[trigger] abscissa(m, i)).is_nan() by {
            assert(abscissa(m, i) == t.c@[i]);
        }
        lemma_furthest(m, j0, n);
        let j = furthest(m, j0, n);
        assert(abscissa(m, j) == t.c@[j]);
        let p = mri(m).prb();
        let slot = listed_index(mri(m).stage_map(), j) as int;
        let im = if p.implicit_rhs {
            seq![vector_of(mri(m).Fsi(), slot)]
        } else {
            Seq::empty()
        };
        let x = if p.explicit_rhs {
            im.push(vector_of(mri(m).Fse(), slot))
        } else {
            im
        };
        let ones = Seq::new(x.len(), |i: int| ONE());
        assert(index_at(mri(m).stage_map(), j) == slot) by {
            reveal(index_at);
        }
        assert(pair_vectors(m, j) =~= x);
        assert(pair_coeffs(m) =~= ones);
        assert forall|i: int|
            #![trigger t.c@[i]]
            0 <= i < istage && !r_eq(t.c@[i], ZERO()) && listed_index(mri(m).stage_map(), i)
                > -1 implies !r_lt(t.c@[j], t.c@[i]) by {
            reveal(index_at);
            assert(abscissa(m, i) == t.c@[i]);
        }
        assert(predict_within(m, istage, y)->Some_0.0 == bootstrap(
            m,
            r_mul(m.stp().h, row_entry(t.c@, j)),
            r_mul(m.stp().h, row_entry(t.c@, istage as int)),
            x.len(),
            ones.push(ZERO()).push(ZERO()),
            x,
            y,
        ));
    }
}

/// The prediction of a stage on a first step, and where no formula was asked
/// for, is the last solution. A formula needs the interpolation module.
pub proof fn law_plain_prediction<E: ArkEnv>(m: MemView, e: E, istage: i32, y: NVec)
    requires
        m.step_mem() is Some,
    ensures
        ({
            let r = predict_stage(m, e, istage, y);
            let p = mri(m).prb().predictor;
            let last = v_scale(ONE(), m.yn(), y);
            let by = predict_by(m, e, istage, y);
            &&& p > 0 && !m.att().interp ==> r.flag == ARK_MEM_NULL && r.v == y
            &&& (p <= 0 || m.att().interp) && (m.flg().initsetup || p < 1 || p > 4) ==> r.m == m
                && r.e == e && r.v == last && r.flag == ARK_SUCCESS
            &&& m.att().interp && !m.flg().initsetup && 1 <= p <= 4 && by.flag != ARK_ILL_INPUT
                ==> r == by
            &&& m.att().interp && !m.flg().initsetup && 1 <= p <= 4 && by.flag == ARK_ILL_INPUT
                ==> r.v == v_scale(ONE(), by.m.yn(), by.v) && r.flag == ARK_SUCCESS
        }),
{
    reveal(predict_stage);
    reveal(predict_by);
}

/// A function of the user on predictions is handed the prediction at the current
/// time, and what it leaves is the prediction. Its unrecoverable failure ends
/// the step, a recoverable one asks for another attempt.
pub proof fn law_user_prediction<E: ArkEnv>(m: MemView, e: E, f: FnId)
    requires
        m.step_mem() is Some,
        m.flg().initsetup,
        mri(m).prb().predictor == 0,
        mri(m).prb().stage_predict == Some(f),
    ensures
        ({
            let y = v_scale(ONE(), m.yn(), mri(m).zpred());
            let u = e.user_reply(user_call(UserFn::StagePredict, f, m.stp().tcur), y, y);
            let o = predict_current(m, e);
            &&& o.e == u.env
            &&& mri(o.m).zpred() == u.out
            &&& o.m.ycur() == m.ycur()
            &&& o.m.stp() == m.stp()
            &&& o.flag == if u.flag == 0 {
                ARK_SUCCESS
            } else if u.flag < 0 {
                ARK_USER_PREDICT_FAIL
            } else {
                TRY_AGAIN
            }
        }),
{
    reveal(predict_current);
    reveal(predict_stage);
    reveal(process);
    reveal(mput_zpred);
    reveal(with_mri);
    reveal(mri);
}

/// Whether a constraint is broken: one above one and a half in magnitude asks
/// for its sign, one above a half for its sign or zero, and zero for nothing.
pub open spec fn broken(c: sunrealtype, x: sunrealtype) -> bool {
    let strict = r_lt(ONE_AND_HALF(), r_abs(c));
    let weak = r_lt(HALF(), r_abs(c));
    &&& !r_eq(c, ZERO())
    &&& (strict && r_le(r_mul(x, c), ZERO())) || (weak && r_lt(r_mul(x, c), ZERO()))
}

pub(crate) proof fn lemma_all_hold(c: NVec, x: NVec, n: nat)
    ensures
        all_hold(c, x, n) <==> forall|i: int|
            0 <= i < n ==> !#[trigger] broken(component_of(c, i), component_of(x, i)),
    decreases n,
{
    reveal(all_hold);
    if n > 0 {
        lemma_all_hold(c, x, (n - 1) as nat);
        lemma_broken(c, x, n - 1);
        let a = forall|i: int|
            0 <= i < n - 1 ==> !#[trigger] broken(component_of(c, i), component_of(x, i));
        if a && !broken(component_of(c, n - 1), component_of(x, n - 1)) {
            assert forall|i: int| 0 <= i < n implies !#[trigger] broken(
                component_of(c, i),
                component_of(x, i),
            ) by {
                assert(i == n - 1 || i < n - 1);
            }
        }
    }
}

proof fn lemma_broken(c: NVec, x: NVec, i: int)
    ensures
        violates(at(c, i), at(x, i)) == broken(component_of(c, i), component_of(x, i)),
{
    reveal(violates);
}

/// Constraints pass exactly where none is broken, in any component. A violation
/// counts; it is final at the failure limit, with a fixed step and at the
/// smallest step. Else the factor is nine tenths of the smallest quotient of the
/// last solution and its change over the components that break a constraint, and
/// a tenth at least.
pub proof fn law_constraint_failures(m: MemView, constrfails: i32, nflag: i32)
    ensures
        ({
            let n = m.tempv4().data.len();
            let ok = forall|i: int|
                0 <= i < n ==> !#[trigger] broken(
                    component_of(m.constraints(), i),
                    component_of(m.ycur(), i),
                );
            let n1 = constrfails.wrapping_add(1);
            let last = n1 == m.lim().maxconstrfails || m.lim().fixedstep || r_le(
                r_abs(m.stp().h),
                r_mul(m.lim().hmin, ONEPSM()),
            );
            let o = check_constraints(m, constrfails, nflag);
            let d = o.m.tempv3();
            &&& ok ==> o.flag == ARK_SUCCESS && o.n == constrfails && o.nflag == nflag && o.m.cnt()
                == m.cnt() && o.m.stp() == m.stp()
            &&& !ok ==> o.n == n1 && o.m.cnt().nconstrfails == m.cnt().nconstrfails.wrapping_add(1)
            &&& !ok && last ==> o.flag == ARK_CONSTR_FAIL && o.m.stp() == m.stp()
            &&& !ok && !last ==> {
                &&& o.flag == CONSTR_RECVR
                &&& o.nflag == PREV_CONV_FAIL
                &&& d.data.len() == m.tempv3().data.len()
                &&& forall|i: int|
                    0 <= i < d.data.len() && i < n ==> (#[trigger] d.data[i]) == r_mul(
                        if broken(component_of(m.constraints(), i), component_of(m.ycur(), i)) {
                            ONE()
                        } else {
                            ZERO()
                        },
                        pair_sum(
                            ONE(),
                            component_of(m.yn(), i),
                            r_neg(ONE()),
                            component_of(m.ycur(), i),
                        ),
                    )
                &&& o.m.stp() == (ArkStep {
                    eta: r_max(
                        r_mul(NINE_TENTHS(), min_quotient(m.yn(), d, m.yn().data.len())),
                        TENTH(),
                    ),
                    ..m.stp()
                })
            }
        }),
{
    reveal(check_constraints);
    reveal(constraint_eta);
    reveal(with_eta);
    reveal(put_cnt);
    reveal(put_stp);
    reveal(put_tempv3);
    reveal(put_tempv4);
    let n = m.tempv4().data.len();
    lemma_all_hold(m.constraints(), m.ycur(), n);
    let mask = v_mask(m.constraints(), m.ycur(), m.tempv4());
    let d = v_lin(ONE(), m.yn(), r_neg(ONE()), m.ycur(), m.tempv3());
    law_linear_sum(ONE(), m.yn(), r_neg(ONE()), m.ycur(), m.tempv3());
    law_componentwise(ONE(), mask, d, d);
    assert forall|i: int| 0 <= i < n implies (#[trigger] mask.data[i]) == if broken(
        component_of(m.constraints(), i),
        component_of(m.ycur(), i),
    ) {
        ONE()
    } else {
        ZERO()
    } by {
        lemma_broken(m.constraints(), m.ycur(), i);
        reveal(v_mask);
        reveal(v_fill);
    }
    assert(mask.data.len() == n) by {
        reveal(v_mask);
        reveal(v_fill);
    }
    let p = v_prod(mask, d, d);
    assert forall|i: int| 0 <= i < p.data.len() && i < n implies (#[trigger] p.data[i]) == r_mul(
        if broken(component_of(m.constraints(), i), component_of(m.ycur(), i)) {
            ONE()
        } else {
            ZERO()
        },
        pair_sum(ONE(), component_of(m.yn(), i), r_neg(ONE()), component_of(m.ycur(), i)),
    ) by {
        assert(component_of(mask, i) == mask.data[i]);
        assert(component_of(d, i) == d.data[i]);
    }
}

proof fn lemma_quotient(x: NVec, y: NVec, n: nat)
    requires
        forall|i: int|
            0 <= i < n && !r_eq(component_of(y, i), ZERO()) ==> !(#[trigger] r_div(
                component_of(x, i),
                component_of(y, i),
            )).is_nan(),
    ensures
        ({
            let q = min_quotient(x, y, n);
            &&& forall|i: int|
                0 <= i < n && !r_eq(component_of(y, i), ZERO()) ==> !r_lt(
                    #[trigger] r_div(component_of(x, i), component_of(y, i)),
                    q,
                )
            &&& !q.is_nan()
            &&& q == SUN_BIG_REAL() || exists|i: int|
                0 <= i < n && !r_eq(component_of(y, i), ZERO()) && q == #[trigger] r_div(
                    component_of(x, i),
                    component_of(y, i),
                )
        }),
    decreases n,
{
    reveal(min_quotient);
    reveal(r_lt);
    if n > 0 {
        lemma_quotient(x, y, (n - 1) as nat);
        let k = n - 1;
        assert(at(x, k) == component_of(x, k) && at(y, k) == component_of(y, k));
        let q0 = min_quotient(x, y, (n - 1) as nat);
        let q = min_quotient(x, y, n);
        assert(q == q0 || (!r_eq(component_of(y, k), ZERO()) && q == r_div(
            component_of(x, k),
            component_of(y, k),
        )));
        assert forall|i: int| 0 <= i < n && !r_eq(component_of(y, i), ZERO()) implies !r_lt(
            #[trigger] r_div(component_of(x, i), component_of(y, i)),
            q,
        ) by {
            if i < k {
                assert(!r_lt(r_div(component_of(x, i), component_of(y, i)), q0));
            }
        }
    } else {
        assert(!SUN_BIG_REAL().is_nan());
    }
}

/// The smallest quotient of two vectors, over the components that can be divided
/// by: none is smaller, and one of them is it, unless there is none or all are
/// as large as the largest number.
pub proof fn law_smallest_quotient(x: NVec, y: NVec)
    requires
        forall|i: int|
            0 <= i < x.data.len() && !r_eq(component_of(y, i), ZERO()) ==> !(#[trigger] r_div(
                component_of(x, i),
                component_of(y, i),
            )).is_nan(),
    ensures
        ({
            let n = x.data.len();
            let q = min_quotient(x, y, n);
            &&& forall|i: int|
                0 <= i < n && !r_eq(component_of(y, i), ZERO()) ==> !r_lt(
                    #[trigger] r_div(component_of(x, i), component_of(y, i)),
                    q,
                )
            &&& q == SUN_BIG_REAL() || exists|i: int|
                0 <= i < n && !r_eq(component_of(y, i), ZERO()) && q == #[trigger] r_div(
                    component_of(x, i),
                    component_of(y, i),
                )
        }),
{
    lemma_quotient(x, y, x.data.len());
}

} // verus!
