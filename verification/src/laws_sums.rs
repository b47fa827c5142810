//! Laws of the vector operations, component by component.
use crate::binary64::{r_abs, r_add, r_div, r_eq, r_int, r_lt, r_mul, r_neg, r_sub, sunrealtype};
use crate::nvector::{
    at, comb_at, lin, max_abs, scaled_by, sum_squares, v_abs, v_comb, v_const, v_div, v_fill, v_lin,
    v_prod, v_scale, v_wrms, NVec,
};
use crate::sundials_math::r_guarded_sqrt;
use crate::sundials_types::{ONE, ZERO};
use vstd::prelude::*;

verus! {

/// Component `i` of a vector, zero past its end.
pub open spec fn component_of(v: NVec, i: int) -> sunrealtype {
    if 0 <= i < v.data.len() {
        v.data[i]
    } else {
        ZERO()
    }
}

/// Component `i` of vector `j` of a list, zero where there is none.
pub open spec fn listed(x: Seq<NVec>, j: int, i: int) -> sunrealtype {
    if 0 <= j < x.len() {
        component_of(x[j], i)
    } else {
        ZERO()
    }
}

/// `c v`, exactly `v` or `-v` for a factor of one or minus one.
pub open spec fn product(c: sunrealtype, v: sunrealtype) -> sunrealtype {
    if r_eq(c, ONE()) {
        v
    } else if r_eq(c, r_neg(ONE())) {
        r_neg(v)
    } else {
        r_mul(c, v)
    }
}

/// `a x + b y`; factors that agree up to their sign multiply the sum or the
/// difference.
pub open spec fn pair_sum(
    a: sunrealtype,
    x: sunrealtype,
    b: sunrealtype,
    y: sunrealtype,
) -> sunrealtype {
    if r_eq(a, b) {
        r_mul(a, r_add(x, y))
    } else if r_eq(a, r_neg(b)) {
        r_mul(a, r_sub(x, y))
    } else {
        r_add(r_mul(a, x), r_mul(b, y))
    }
}

/// Component `i` of the first `n` vectors of a list, each times its factor,
/// added from the left.
pub open spec fn running_sum(c: Seq<sunrealtype>, x: Seq<NVec>, n: nat, i: int) -> sunrealtype
    decreases n,
{
    if n <= 1 {
        product(c[0], listed(x, 0, i))
    } else {
        r_add(running_sum(c, x, (n - 1) as nat, i), r_mul(c[n - 1], listed(x, n - 1, i)))
    }
}

/// Component `i` of the vectors of a list, each times its factor.
pub open spec fn total(c: Seq<sunrealtype>, x: Seq<NVec>, i: int) -> sunrealtype {
    if c.len() == 2 {
        pair_sum(c[0], listed(x, 0, i), c[1], listed(x, 1, i))
    } else {
        running_sum(c, x, c.len(), i)
    }
}

proof fn lemma_running(c: Seq<sunrealtype>, x: Seq<NVec>, n: nat, i: int)
    requires
        1 <= n <= c.len(),
        c.len() != 2,
    ensures
        comb_at(c, x, n, i) == running_sum(c, x, n, i),
    decreases n,
{
    reveal(comb_at);
    reveal(scaled_by);
    if n > 1 {
        lemma_running(c, x, (n - 1) as nat, i);
    }
}

/// A linear combination of vectors: in every component the sum of the vectors,
/// each times its own factor, from the left.
pub proof fn law_combination(c: Seq<sunrealtype>, x: Seq<NVec>, z: NVec)
    requires
        c.len() > 0,
    ensures
        v_comb(c, x, z).data.len() == z.data.len(),
        v_comb(c, x, z).live == z.live,
        forall|i: int|
            0 <= i < z.data.len() ==> (#[trigger] v_comb(c, x, z).data[i]) == total(c, x, i),
{
    reveal(v_comb);
    reveal(v_fill);
    assert forall|i: int| 0 <= i < z.data.len() implies (#[trigger] v_comb(c, x, z).data[i])
        == total(c, x, i) by {
        if c.len() == 2 {
            reveal(comb_at);
            reveal(lin);
        } else {
            lemma_running(c, x, c.len(), i);
        }
    }
}

/// A linear sum of two vectors, in every component.
pub proof fn law_linear_sum(a: sunrealtype, x: NVec, b: sunrealtype, y: NVec, z: NVec)
    ensures
        v_lin(a, x, b, y, z).data.len() == z.data.len(),
        forall|i: int|
            0 <= i < z.data.len() ==> (#[trigger] v_lin(a, x, b, y, z).data[i]) == pair_sum(
                a,
                component_of(x, i),
                b,
                component_of(y, i),
            ),
{
    reveal(v_lin);
    reveal(v_fill);
    reveal(lin);
}

/// A scaled vector, a vector of one number, magnitudes, products and quotients,
/// in every component.
pub proof fn law_componentwise(c: sunrealtype, x: NVec, y: NVec, z: NVec)
    ensures
        forall|i: int|
            0 <= i < z.data.len() ==> (#[trigger] v_scale(c, x, z).data[i]) == product(
                c,
                component_of(x, i),
            ),
        forall|i: int| 0 <= i < z.data.len() ==> (#[trigger] v_const(c, z).data[i]) == c,
        forall|i: int|
            0 <= i < z.data.len() ==> (#[trigger] v_abs(x, z).data[i]) == r_abs(
                component_of(x, i),
            ),
        forall|i: int|
            0 <= i < z.data.len() ==> (#[trigger] v_prod(x, y, z).data[i]) == r_mul(
                component_of(x, i),
                component_of(y, i),
            ),
        forall|i: int|
            0 <= i < z.data.len() ==> (#[trigger] v_div(x, y, z).data[i]) == r_div(
                component_of(x, i),
                component_of(y, i),
            ),
        v_scale(c, x, z).data.len() == z.data.len(),
        v_const(c, z).data.len() == z.data.len(),
        v_abs(x, z).data.len() == z.data.len(),
        v_prod(x, y, z).data.len() == z.data.len(),
        v_div(x, y, z).data.len() == z.data.len(),
{
    reveal(v_scale);
    reveal(v_const);
    reveal(v_abs);
    reveal(v_prod);
    reveal(v_div);
    reveal(v_fill);
    reveal(scaled_by);
}

/// The squares of the first `n` components, each times its weight, added up.
pub open spec fn weighted_squares(x: NVec, w: NVec, n: nat) -> sunrealtype
    decreases n,
{
    if n == 0 {
        ZERO()
    } else {
        let p = r_mul(component_of(x, n - 1), component_of(w, n - 1));
        r_add(weighted_squares(x, w, (n - 1) as nat), r_mul(p, p))
    }
}

proof fn lemma_squares(x: NVec, w: NVec, n: nat)
    ensures
        sum_squares(x, w, n) == weighted_squares(x, w, n),
    decreases n,
{
    reveal(sum_squares);
    if n > 0 {
        lemma_squares(x, w, (n - 1) as nat);
    }
}

/// The norm of a vector: the root of the mean of its weighted squares.
pub proof fn law_norm(x: NVec, w: NVec)
    requires
        x.data.len() <= i64::MAX,
    ensures
        v_wrms(x, w) == r_guarded_sqrt(
            r_div(weighted_squares(x, w, x.data.len()), r_int(x.data.len() as int)),
        ),
{
    reveal(v_wrms);
    lemma_squares(x, w, x.data.len());
}

proof fn lemma_largest(x: NVec, n: nat)
    requires
        n <= x.data.len(),
        forall|i: int| 0 <= i < x.data.len() ==> !(#[trigger] x.data[i]).is_nan(),
    ensures
        forall|i: int|
            0 <= i < n ==> !r_lt(max_abs(x, n), #[trigger] r_abs(x.data[i])),
        max_abs(x, n) == ZERO() || exists|i: int|
            0 <= i < n && max_abs(x, n) == #[trigger] r_abs(x.data[i]),
    decreases n,
{
    reveal(max_abs);
    reveal(r_lt);
    reveal(r_abs);
    if n > 0 {
        lemma_largest(x, (n - 1) as nat);
        assert(at(x, n - 1) == x.data[n - 1]);
        assert(r_abs(x.data[n - 1]) == r_abs(at(x, n - 1)));
    }
}

/// The largest magnitude: none of the components exceeds it, and one of them
/// has it.
pub proof fn law_largest_magnitude(x: NVec)
    requires
        forall|i: int| 0 <= i < x.data.len() ==> !(#[trigger] x.data[i]).is_nan(),
    ensures
        ({
            let r = max_abs(x, x.data.len());
            &&& forall|i: int| 0 <= i < x.data.len() ==> !r_lt(r, #[trigger] r_abs(x.data[i]))
            &&& r == ZERO() || exists|i: int|
                0 <= i < x.data.len() && r == #[trigger] r_abs(x.data[i])
        }),
{
    lemma_largest(x, x.data.len());
}

} // verus!
