//! Laws of the weight vectors: when they are found, and that they are positive.
use crate::arkode_codes::ARK_SUCCESS;
use crate::arkode_impl::{ArkTol, MemView};
use crate::arkode_mem::{put_Vabstol, put_acc, put_tempv1, put_tol};
use crate::arkode_tol::{
    denominators_s, denominators_v, ewt_ss, ewt_sv, invert, own_vabstol, rwt_set, ss_tolerances,
    sv_tolerances,
};
use crate::arkode_vectors::alloc_vec;
use crate::binary64::{r_abs, r_add, r_div, r_eq, r_le, r_lt, r_mul, r_neg, sunrealtype};
use crate::env::ArkEnv;
use crate::laws_numbers::{
    law_negate_twice, law_product_of_positive, law_reciprocal_positive, law_sum_of_positive,
    law_times_one,
};
use crate::nvector::{
    at, lin, min_of, scaled_by, v_abs, v_addconst, v_fill, v_inv, v_lin, v_scale, NVec,
};
use crate::sundials_types::{ONE, ZERO};
use vstd::prelude::*;

verus! {

/// Whether every component of a vector is a number.
pub open spec fn all_numbers(d: NVec) -> bool {
    forall|i: int| 0 <= i < d.data.len() ==> !(#[trigger] d.data[i]).is_nan()
}

/// Whether some component of a vector is not positive.
pub open spec fn some_not_positive(d: NVec) -> bool {
    exists|i: int| 0 <= i < d.data.len() && r_le(#[trigger] d.data[i], ZERO())
}

proof fn lemma_min(d: NVec, n: nat)
    requires
        0 < n <= d.data.len(),
        all_numbers(d),
    ensures
        exists|i: int| 0 <= i < n && min_of(d, n) == #[trigger] d.data[i],
        forall|i: int| 0 <= i < n ==> r_le(min_of(d, n), #[trigger] d.data[i]),
    decreases n,
{
    reveal(min_of);
    reveal(r_lt);
    reveal(r_eq);
    if n > 1 {
        lemma_min(d, (n - 1) as nat);
        assert(at(d, n - 1) == d.data[n - 1]);
    } else {
        assert(at(d, 0) == d.data[0]);
    }
}

/// Weights are refused exactly where they are checked and some denominator is
/// not positive; nothing but the first temporary vector, which holds the
/// denominators, changes in the memory, and refused weights stay.
pub proof fn law_weights_refused(m: MemView, d: NVec, w: NVec, check: bool)
    requires
        d.data.len() > 0,
        all_numbers(d),
    ensures
        invert(m, d, w, check).flag == if check && some_not_positive(d) {
            -1i32
        } else {
            0
        },
        invert(m, d, w, check).m == put_tempv1(m, d),
        invert(m, d, w, check).flag != 0 ==> invert(m, d, w, check).w == w,
{
    lemma_min(d, d.data.len());
    reveal(r_lt);
    reveal(r_eq);
    let low = min_of(d, d.data.len());
    if some_not_positive(d) {
        let i = choose|i: int| 0 <= i < d.data.len() && r_le(#[trigger] d.data[i], ZERO());
        assert(r_le(low, d.data[i]));
        assert(r_le(low, ZERO()));
    }
}

/// Whether `x` is a weight with denominator `d`: the reciprocal of it, where it
/// is positive. The weight is then positive too, if the denominator is finite.
pub open spec fn is_weight(x: sunrealtype, d: sunrealtype) -> bool {
    &&& x == r_div(ONE(), d)
    &&& r_lt(ZERO(), d)
    &&& d.is_finite() ==> r_lt(ZERO(), x)
}

/// The denominator of component `i` with a scalar absolute tolerance.
pub open spec fn scalar_denominator(
    reltol: sunrealtype,
    abstol: sunrealtype,
    y: NVec,
    i: int,
) -> sunrealtype {
    r_add(scaled_by(reltol, r_abs(at(y, i))), abstol)
}

proof fn lemma_scalar_denominators(
    reltol: sunrealtype,
    abstol: sunrealtype,
    y: NVec,
    t: NVec,
)
    ensures
        ({
            let d = denominators_s(reltol, abstol, y, t);
            &&& d.data.len() == t.data.len()
            &&& forall|i: int|
                0 <= i < d.data.len() ==> (#[trigger] d.data[i]) == scalar_denominator(
                    reltol,
                    abstol,
                    y,
                    i,
                )
        }),
{
    reveal(v_addconst);
    reveal(v_scale);
    reveal(v_abs);
    reveal(v_fill);
}

proof fn lemma_magnitude_not_negative(x: sunrealtype)
    requires
        !x.is_nan(),
    ensures
        r_le(ZERO(), r_abs(x)),
{
    reveal(r_abs);
    reveal(r_lt);
    reveal(r_eq);
}

proof fn lemma_sum_is_number(a: sunrealtype, b: sunrealtype)
    requires
        !r_add(a, b).is_nan(),
    ensures
        !a.is_nan(),
        !b.is_nan(),
{
    reveal(r_add);
}

proof fn lemma_scalar_denominator_positive(
    reltol: sunrealtype,
    abstol: sunrealtype,
    y: NVec,
    i: int,
)
    requires
        !r_lt(reltol, ZERO()),
        !r_lt(abstol, ZERO()),
        !r_eq(abstol, ZERO()),
        !scalar_denominator(reltol, abstol, y, i).is_nan(),
    ensures
        r_lt(ZERO(), scalar_denominator(reltol, abstol, y, i)),
{
    let v = r_abs(at(y, i));
    let p = scaled_by(reltol, v);
    lemma_sum_is_number(p, abstol);
    assert(r_lt(ZERO(), abstol)) by {
        reveal(r_lt);
        reveal(r_eq);
    }
    assert(r_le(ZERO(), p)) by {
        reveal(scaled_by);
        assert(!v.is_nan() && !reltol.is_nan()) by {
            reveal(r_mul);
            reveal(r_neg);
            reveal(r_eq);
        }
        assert(!at(y, i).is_nan()) by {
            reveal(r_abs);
        }
        lemma_magnitude_not_negative(at(y, i));
        assert(r_le(ZERO(), reltol) && !r_eq(reltol, r_neg(ONE()))) by {
            reveal(r_lt);
            reveal(r_eq);
            reveal(r_neg);
        }
        if !r_eq(reltol, ONE()) {
            law_product_of_positive(reltol, v);
        }
    }
    law_sum_of_positive(p, abstol);
}

/// Error weights from the scalar tolerances that were set last, where every
/// denominator `reltol |y_i| + abstol` is a number: they are refused exactly
/// where the absolute tolerance is zero and some denominator is not positive.
/// Otherwise component `i` is the reciprocal of its denominator, which is
/// positive, and so is the weight where the denominator is finite.
pub proof fn law_scalar_weights_positive(
    before: MemView,
    m: MemView,
    reltol: sunrealtype,
    abstol: sunrealtype,
    y: NVec,
    w: NVec,
)
    requires
        ss_tolerances(before, reltol, abstol).1 == ARK_SUCCESS,
        m.tol() == ss_tolerances(before, reltol, abstol).0.tol(),
        m.tempv1().data.len() > 0,
        w.data.len() == m.tempv1().data.len(),
        forall|i: int|
            0 <= i < w.data.len() ==> !(#[trigger] scalar_denominator(
                reltol,
                abstol,
                y,
                i,
            )).is_nan(),
    ensures
        ({
            let o = ewt_ss(m, y, w);
            let refused = r_eq(abstol, ZERO()) && exists|i: int|
                0 <= i < w.data.len() && r_le(
                    #[trigger] scalar_denominator(reltol, abstol, y, i),
                    ZERO(),
                );
            &&& o.flag == if refused {
                -1i32
            } else {
                0
            }
            &&& !refused ==> forall|i: int|
                0 <= i < w.data.len() ==> is_weight(
                    #[trigger] o.w.data[i],
                    scalar_denominator(reltol, abstol, y, i),
                )
        }),
{
    reveal(put_tol);
    let d = denominators_s(reltol, abstol, y, m.tempv1());
    lemma_scalar_denominators(reltol, abstol, y, m.tempv1());
    law_weights_refused(m, d, w, m.tol().atolmin0);
    let o = ewt_ss(m, y, w);
    if some_not_positive(d) {
        let i = choose|i: int| 0 <= i < d.data.len() && r_le(#[trigger] d.data[i], ZERO());
        assert(r_le(scalar_denominator(reltol, abstol, y, i), ZERO()));
    } else {
        assert forall|i: int| 0 <= i < w.data.len() implies !r_le(
            #[trigger] scalar_denominator(reltol, abstol, y, i),
            ZERO(),
        ) by {
            assert(d.data[i] == scalar_denominator(reltol, abstol, y, i));
        }
    }
    if o.flag == 0 {
        assert forall|i: int| 0 <= i < w.data.len() implies is_weight(
            #[trigger] o.w.data[i],
            scalar_denominator(reltol, abstol, y, i),
        ) by {
            let x = scalar_denominator(reltol, abstol, y, i);
            assert(d.data[i] == x);
            assert(o.w.data[i] == r_div(ONE(), x)) by {
                reveal(v_inv);
                reveal(v_fill);
            }
            if r_eq(abstol, ZERO()) {
                assert(!r_le(x, ZERO()));
                assert(r_lt(ZERO(), x)) by {
                    reveal(r_lt);
                    reveal(r_eq);
                }
            } else {
                lemma_scalar_denominator_positive(reltol, abstol, y, i);
            }
            if x.is_finite() {
                law_reciprocal_positive(x);
            }
        }
    }
}

/// The denominator of component `i` with a vector of absolute tolerances.
pub open spec fn vector_denominator(
    reltol: sunrealtype,
    abstol: NVec,
    y: NVec,
    i: int,
) -> sunrealtype {
    lin(reltol, r_abs(at(y, i)), ONE(), at(abstol, i))
}

proof fn lemma_vector_denominators(reltol: sunrealtype, abstol: NVec, y: NVec, t: NVec)
    ensures
        ({
            let d = denominators_v(reltol, abstol, y, t);
            &&& d.data.len() == t.data.len()
            &&& forall|i: int|
                0 <= i < d.data.len() ==> (#[trigger] d.data[i]) == vector_denominator(
                    reltol,
                    abstol,
                    y,
                    i,
                )
        }),
{
    reveal(v_lin);
    reveal(v_abs);
    reveal(v_fill);
}

proof fn lemma_vector_denominator_positive(reltol: sunrealtype, abstol: NVec, y: NVec, i: int)
    requires
        !r_lt(reltol, ZERO()),
        r_lt(ZERO(), at(abstol, i)),
        !vector_denominator(reltol, abstol, y, i).is_nan(),
    ensures
        r_lt(ZERO(), vector_denominator(reltol, abstol, y, i)),
{
    let v = r_abs(at(y, i));
    let a = at(abstol, i);
    assert(!a.is_nan()) by {
        reveal(r_lt);
    }
    law_times_one(a);
    assert(!r_eq(reltol, r_neg(r_neg(ONE()))) ==> !r_eq(reltol, ONE())) by {
        law_negate_twice(ONE());
    }
    assert(!r_eq(reltol, r_neg(ONE()))) by {
        reveal(r_lt);
        reveal(r_eq);
        reveal(r_neg);
    }
    if r_eq(reltol, ONE()) {
        assert(reltol == ONE()) by {
            reveal(r_eq);
        }
        let t = r_add(v, a);
        assert(lin(reltol, v, ONE(), a) == r_mul(ONE(), t)) by {
            reveal(lin);
        }
        assert(!t.is_nan()) by {
            reveal(r_mul);
        }
        law_times_one(t);
        lemma_sum_is_number(v, a);
        assert(!at(y, i).is_nan()) by {
            reveal(r_abs);
        }
        lemma_magnitude_not_negative(at(y, i));
        law_sum_of_positive(v, a);
    } else {
        let p = r_mul(reltol, v);
        assert(lin(reltol, v, ONE(), a) == r_add(p, a)) by {
            reveal(lin);
        }
        lemma_sum_is_number(p, a);
        assert(!v.is_nan() && !reltol.is_nan()) by {
            reveal(r_mul);
        }
        assert(!at(y, i).is_nan()) by {
            reveal(r_abs);
        }
        lemma_magnitude_not_negative(at(y, i));
        assert(r_le(ZERO(), reltol)) by {
            reveal(r_lt);
            reveal(r_eq);
        }
        law_product_of_positive(reltol, v);
        law_sum_of_positive(p, a);
    }
}

/// Error weights from a vector of absolute tolerances, where every denominator
/// `reltol |y_i| + abstol_i` is a number and the absolute tolerances are
/// positive unless one of them is marked as zero: they are refused exactly
/// where one is and some denominator is not positive. Otherwise component `i`
/// is the reciprocal of its denominator, which is positive, and so is the
/// weight where the denominator is finite.
pub proof fn law_vector_weights_positive(m: MemView, y: NVec, w: NVec)
    requires
        m.tempv1().data.len() > 0,
        w.data.len() == m.tempv1().data.len(),
        !r_lt(m.tol().reltol, ZERO()),
        m.tol().atolmin0 || forall|i: int|
            0 <= i < w.data.len() ==> r_lt(ZERO(), #[trigger] at(m.Vabstol(), i)),
        forall|i: int|
            0 <= i < w.data.len() ==> !(#[trigger] vector_denominator(
                m.tol().reltol,
                m.Vabstol(),
                y,
                i,
            )).is_nan(),
    ensures
        ({
            let o = ewt_sv(m, y, w);
            let refused = m.tol().atolmin0 && exists|i: int|
                0 <= i < w.data.len() && r_le(
                    #[trigger] vector_denominator(m.tol().reltol, m.Vabstol(), y, i),
                    ZERO(),
                );
            &&& o.flag == if refused {
                -1i32
            } else {
                0
            }
            &&& !refused ==> forall|i: int|
                0 <= i < w.data.len() ==> is_weight(
                    #[trigger] o.w.data[i],
                    vector_denominator(m.tol().reltol, m.Vabstol(), y, i),
                )
        }),
{
    let reltol = m.tol().reltol;
    let abstol = m.Vabstol();
    let d = denominators_v(reltol, abstol, y, m.tempv1());
    lemma_vector_denominators(reltol, abstol, y, m.tempv1());
    law_weights_refused(m, d, w, m.tol().atolmin0);
    let o = ewt_sv(m, y, w);
    let refused = m.tol().atolmin0 && exists|i: int|
        0 <= i < w.data.len() && r_le(
            #[trigger] vector_denominator(m.tol().reltol, m.Vabstol(), y, i),
            ZERO(),
        );
    if some_not_positive(d) {
        let i = choose|i: int| 0 <= i < d.data.len() && r_le(#[trigger] d.data[i], ZERO());
        assert(r_le(vector_denominator(reltol, abstol, y, i), ZERO()));
    } else {
        assert forall|i: int| 0 <= i < w.data.len() implies !r_le(
            #[trigger] vector_denominator(reltol, abstol, y, i),
            ZERO(),
        ) by {
            assert(d.data[i] == vector_denominator(reltol, abstol, y, i));
        }
    }
    assert(o.flag == if refused {
        -1i32
    } else {
        0
    });
    if o.flag == 0 {
        assert forall|i: int| 0 <= i < w.data.len() implies is_weight(
            #[trigger] o.w.data[i],
            vector_denominator(reltol, abstol, y, i),
        ) by {
            let x = vector_denominator(reltol, abstol, y, i);
            assert(d.data[i] == x);
            assert(o.w.data[i] == r_div(ONE(), x)) by {
                reveal(v_inv);
                reveal(v_fill);
            }
            if m.tol().atolmin0 {
                assert(!r_le(x, ZERO()));
                assert(r_lt(ZERO(), x)) by {
                    reveal(r_lt);
                    reveal(r_eq);
                }
            } else {
                assert(r_lt(ZERO(), at(abstol, i)));
                lemma_vector_denominator_positive(reltol, abstol, y, i);
            }
            if x.is_finite() {
                law_reciprocal_positive(x);
            }
        }
    }
}

/// Absolute tolerances that were accepted as a vector are copied; they are
/// positive, unless one of them is marked as zero, and the relative tolerance
/// is not negative.
pub proof fn law_vector_tolerances(m: MemView, reltol: sunrealtype, abstol: NVec)
    requires
        sv_tolerances(m, reltol, abstol).1 == ARK_SUCCESS,
        abstol.data.len() > 0,
        all_numbers(abstol),
    ensures
        ({
            let r = sv_tolerances(m, reltol, abstol).0;
            &&& r.tol().reltol == reltol
            &&& !r_lt(reltol, ZERO())
            &&& forall|i: int|
                0 <= i < r.Vabstol().data.len() ==> (#[trigger] r.Vabstol().data[i]) == at(
                    abstol,
                    i,
                )
            &&& r.tol().atolmin0 == exists|i: int|
                0 <= i < abstol.data.len() && r_eq(#[trigger] abstol.data[i], ZERO())
            &&& r.tol().atolmin0 || forall|i: int|
                0 <= i < abstol.data.len() ==> r_lt(ZERO(), #[trigger] abstol.data[i])
        }),
{
    let low = min_of(abstol, abstol.data.len());
    lemma_min(abstol, abstol.data.len());
    let m1 = put_tol(m, ArkTol { atolmin0: r_eq(low, ZERO()), ..m.tol() });
    let o = own_vabstol(m1);
    assert(o.0.tol().atolmin0 == r_eq(low, ZERO())) by {
        reveal(own_vabstol);
        reveal(alloc_vec);
        reveal(put_tol);
        reveal(put_acc);
        reveal(put_Vabstol);
    }
    let r = sv_tolerances(m, reltol, abstol).0;
    assert(r.tol().atolmin0 == r_eq(low, ZERO()) && r.tol().reltol == reltol && r.Vabstol()
        == v_scale(ONE(), abstol, o.0.Vabstol())) by {
        reveal(put_tol);
        reveal(put_Vabstol);
    }
    reveal(v_scale);
    reveal(v_fill);
    reveal(scaled_by);
    reveal(r_lt);
    reveal(r_eq);
    assert forall|i: int| 0 <= i < abstol.data.len() implies r_le(ZERO(), #[trigger] abstol.data[i]) by {
        assert(r_le(low, abstol.data[i]));
    }
}

/// Setting the residual weights gives zero or minus one.
pub proof fn law_residual_weights_flag<E: ArkEnv>(m: MemView, e: E, y: NVec, w: NVec)
    ensures
        rwt_set(m, e, y, w).flag == 0 || rwt_set(m, e, y, w).flag == -1,
{
}

} // verus!
