//! Laws of the coupling table: which tables are accepted, and what the stepper
//! takes from one.
use crate::arith::lemma_signed;
use crate::arkode_codes::{
    ARK_ACCUMERROR_NONE, ARK_ILL_INPUT, ARK_INTERP_NONE, ARK_INVALID_TABLE, ARK_SUCCESS,
    MRISTAGE_DIRK_FAST, SUN_ADAPTCONTROLLER_H, SUN_ADAPTCONTROLLER_MRI_H_TOL,
};
use crate::arkode_impl::{EwtFn, MemView, StepFn};
use crate::arkode_mem::{mput_adp, mput_mth, mri, put_att, put_hadapt, put_lim, put_tol, with_mri};
use crate::arkode_step::controller;
use crate::binary64::{
    r_abs, r_add, r_eq, r_le, r_lt, r_mul, r_neg, r_sub, sunrealtype, units_of,
};
use crate::coupling::{coeff, group_at, index_at, real_at, MRIStepCoupling, MRISTEP_METHOD_TYPE};
use crate::env::{ArkEnv, ModuleCall};
use crate::laws_forcing::{row_entry, table_entry};
use crate::laws_rounding::law_sum_not_below;
use crate::mristep_fast::adapt_kind;
use crate::mristep_init::{
    adopt_method, init_adapt, init_first, init_table, init_vectors, limit_degree, relax_weights,
    unify,
};
use crate::mristep_table::{
    adopt_table, check_coupling, decoupled, excess, first_row, first_rows, groups_complete,
    groups_valid, lower_triangular, members_valid, row_abs, shape_ok, sorted_from,
    table_shape_ok, table_times_ok, times, times_in_group, times_ok, upper_abs,
};
use crate::outcome::{leaves_memory, module_run};
use crate::sundials_types::{HUNDRED, ONE, SUN_UNIT_ROUNDOFF, ZERO};
use vstd::prelude::*;

verus! {

/// The size up to which an entry of a table counts as zero.
pub open spec fn negligible() -> sunrealtype {
    r_mul(HUNDRED(), SUN_UNIT_ROUNDOFF())
}

proof fn lemma_magnitude(x: sunrealtype)
    requires
        !x.is_nan(),
    ensures
        r_le(ZERO(), r_abs(x)),
        !r_abs(x).is_nan(),
        x.mag() == 0 ==> r_abs(x) == ZERO(),
{
    reveal(r_abs);
    reveal(r_lt);
    reveal(r_eq);
    lemma_signed(false, x.mag());
}

proof fn lemma_zero_sum()
    ensures
        r_add(ZERO(), ZERO()) == ZERO(),
{
    reveal(r_add);
    assert(units_of(0) == 0) by {
        reveal(units_of);
    }
}

proof fn lemma_le_trans(a: sunrealtype, b: sunrealtype, c: sunrealtype)
    requires
        r_le(a, b),
        r_le(b, c),
    ensures
        r_le(a, c),
        !c.is_nan(),
{
    reveal(r_lt);
    reveal(r_eq);
}

proof fn lemma_row(
    acc: sunrealtype,
    a: Seq<Vec<Vec<sunrealtype>>>,
    k: int,
    i: int,
    j: int,
    n: int,
)
    requires
        r_le(ZERO(), acc),
        forall|c: int| j <= c < n ==> !(#[trigger] coeff(a, k, i, c)).is_nan(),
    ensures
        r_le(acc, row_abs(acc, a, k, i, j, n)),
        r_le(ZERO(), row_abs(acc, a, k, i, j, n)),
        forall|c: int|
            j <= c < n ==> r_le(r_abs(#[trigger] coeff(a, k, i, c)), row_abs(acc, a, k, i, j, n)),
        acc == ZERO() && (forall|c: int| j <= c < n ==> (#[trigger] coeff(a, k, i, c)).mag() == 0)
            ==> row_abs(acc, a, k, i, j, n) == ZERO(),
    decreases n - j,
{
    reveal(row_abs);
    if j < n {
        let x = coeff(a, k, i, j);
        lemma_magnitude(x);
        law_sum_not_below(acc, r_abs(x));
        lemma_le_trans(ZERO(), acc, r_add(acc, r_abs(x)));
        lemma_zero_sum();
        let acc1 = r_add(acc, r_abs(x));
        lemma_row(acc1, a, k, i, j + 1, n);
        let r = row_abs(acc, a, k, i, j, n);
        lemma_le_trans(acc, acc1, r);
        lemma_le_trans(r_abs(x), acc1, r);
    } else {
        reveal(r_lt);
        reveal(r_eq);
    }
}

proof fn lemma_upper(
    acc: sunrealtype,
    a: Seq<Vec<Vec<sunrealtype>>>,
    k: int,
    i: int,
    n: int,
    off: int,
)
    requires
        r_le(ZERO(), acc),
        forall|b: int, c: int| !(#[trigger] coeff(a, k, b, c)).is_nan(),
    ensures
        ({
            let r = upper_abs(acc, a, k, i, n, off);
            &&& r_le(acc, r)
            &&& r_le(ZERO(), r)
            &&& forall|b: int, c: int|
                i <= b < n && b + off <= c < n ==> r_le(r_abs(#[trigger] coeff(a, k, b, c)), r)
            &&& acc == ZERO() && (forall|b: int, c: int|
                i <= b < n && b + off <= c < n ==> (#[trigger] coeff(a, k, b, c)).mag() == 0)
                ==> r == ZERO()
        }),
    decreases n - i,
{
    reveal(upper_abs);
    if i < n {
        lemma_row(acc, a, k, i, i + off, n);
        let acc1 = row_abs(acc, a, k, i, i + off, n);
        lemma_upper(acc1, a, k, i + 1, n, off);
        let r = upper_abs(acc, a, k, i, n, off);
        lemma_le_trans(acc, acc1, r);
        assert forall|b: int, c: int| i <= b < n && b + off <= c < n implies r_le(
            r_abs(#[trigger] coeff(a, k, b, c)),
            r,
        ) by {
            if b == i {
                lemma_le_trans(r_abs(coeff(a, k, b, c)), acc1, r);
            }
        }
    } else {
        reveal(r_lt);
        reveal(r_eq);
    }
}

proof fn lemma_excess(
    acc: sunrealtype,
    a: Seq<Vec<Vec<sunrealtype>>>,
    k: int,
    nmat: int,
    n: int,
    off: int,
)
    requires
        r_le(ZERO(), acc),
        forall|d: int, b: int, c: int| !(#[trigger] coeff(a, d, b, c)).is_nan(),
    ensures
        ({
            let r = excess(acc, a, k, nmat, n, off);
            &&& r_le(acc, r)
            &&& r_le(ZERO(), r)
            &&& forall|d: int, b: int, c: int|
                k <= d < nmat && 0 <= b < n && b + off <= c < n ==> r_le(
                    r_abs(#[trigger] coeff(a, d, b, c)),
                    r,
                )
            &&& acc == ZERO() && (forall|d: int, b: int, c: int|
                k <= d < nmat && 0 <= b < n && b + off <= c < n ==> (#[trigger] coeff(
                    a,
                    d,
                    b,
                    c,
                )).mag() == 0) ==> r == ZERO()
        }),
    decreases nmat - k,
{
    reveal(excess);
    if k < nmat {
        lemma_upper(acc, a, k, 0, n, off);
        let acc1 = upper_abs(acc, a, k, 0, n, off);
        lemma_excess(acc1, a, k + 1, nmat, n, off);
        let r = excess(acc, a, k, nmat, n, off);
        lemma_le_trans(acc, acc1, r);
        assert forall|d: int, b: int, c: int|
            k <= d < nmat && 0 <= b < n && b + off <= c < n implies r_le(
            r_abs(#[trigger] coeff(a, d, b, c)),
            r,
        ) by {
            if d == k {
                lemma_le_trans(r_abs(coeff(a, d, b, c)), acc1, r);
            }
        }
    } else {
        reveal(r_lt);
        reveal(r_eq);
    }
}

/// Matrices of numbers count as lower triangular where all entries right of the
/// diagonal (`off` one), or on and right of it (`off` zero), are zero; they do
/// not where one of these is more than negligible.
pub proof fn law_triangular(a: Seq<Vec<Vec<sunrealtype>>>, nmat: i32, n: i32, off: int)
    requires
        a.len() > 0,
        forall|d: int, b: int, c: int| !(#[trigger] table_entry(a, d, b, c)).is_nan(),
        off == 0 || off == 1,
    ensures
        (forall|d: int, b: int, c: int|
            0 <= d < nmat && 0 <= b < n && b + off <= c < n ==> (#[trigger] table_entry(
                a,
                d,
                b,
                c,
            )).mag() == 0) ==> lower_triangular(a, nmat, n, off),
        (exists|d: int, b: int, c: int|
            0 <= d < nmat && 0 <= b < n && b + off <= c < n && r_lt(
                negligible(),
                r_abs(#[trigger] table_entry(a, d, b, c)),
            )) ==> !lower_triangular(a, nmat, n, off),
{
    assert forall|d: int, b: int, c: int| #[trigger] coeff(a, d, b, c) == table_entry(
        a,
        d,
        b,
        c,
    ) by {
        reveal(coeff);
    }
    assert forall|d: int, b: int, c: int| !(#[trigger] coeff(a, d, b, c)).is_nan() by {
        assert(!table_entry(a, d, b, c).is_nan());
    }
    assert(r_le(ZERO(), ZERO())) by {
        reveal(r_lt);
        reveal(r_eq);
    }
    lemma_excess(ZERO(), a, 0, nmat as int, n as int, off);
    let r = excess(ZERO(), a, 0, nmat as int, n as int, off);
    if forall|d: int, b: int, c: int|
        0 <= d < nmat && 0 <= b < n && b + off <= c < n ==> (#[trigger] table_entry(
            a,
            d,
            b,
            c,
        )).mag() == 0 {
        assert forall|d: int, b: int, c: int|
            0 <= d < nmat && 0 <= b < n && b + off <= c < n implies (#[trigger] coeff(
            a,
            d,
            b,
            c,
        )).mag() == 0 by {
            assert(table_entry(a, d, b, c).mag() == 0);
        }
        assert(r == ZERO());
        assert(!r_lt(negligible(), ZERO())) by {
            reveal(r_lt);
            reveal(r_mul);
            reveal(crate::binary64::nearest);
        }
    }
    if exists|d: int, b: int, c: int|
        0 <= d < nmat && 0 <= b < n && b + off <= c < n && r_lt(
            negligible(),
            r_abs(#[trigger] table_entry(a, d, b, c)),
        ) {
        let (d, b, c) = choose|d: int, b: int, c: int|
            0 <= d < nmat && 0 <= b < n && b + off <= c < n && r_lt(
                negligible(),
                r_abs(#[trigger] table_entry(a, d, b, c)),
            );
        assert(r_le(r_abs(coeff(a, d, b, c)), r));
        reveal(r_lt);
        reveal(r_eq);
    }
}

proof fn lemma_sorted(c: Seq<sunrealtype>, i: int, n: int)
    ensures
        sorted_from(c, i, n) <==> forall|j: int|
            i <= j < n ==> !r_lt(
                r_sub(#[trigger] row_entry(c, j), row_entry(c, j - 1)),
                r_neg(negligible()),
            ),
    decreases n - i,
{
    reveal(sorted_from);
    assert forall|j: int| #[trigger] real_at(c, j) == row_entry(c, j) by {
        reveal(real_at);
    }
    if i < n {
        lemma_sorted(c, i + 1, n);
        assert(real_at(c, i) == row_entry(c, i) && real_at(c, i - 1) == row_entry(c, i - 1));
        let a = forall|j: int|
            i + 1 <= j < n ==> !r_lt(
                r_sub(#[trigger] row_entry(c, j), row_entry(c, j - 1)),
                r_neg(negligible()),
            );
        if a && !r_lt(r_sub(row_entry(c, i), row_entry(c, i - 1)), r_neg(negligible())) {
            assert forall|j: int| i <= j < n implies !r_lt(
                r_sub(#[trigger] row_entry(c, j), row_entry(c, j - 1)),
                r_neg(negligible()),
            ) by {
                assert(j == i || j >= i + 1);
            }
        }
    }
}

/// The times of an accepted table: those of methods whose stages follow each
/// other do not fall by more than is negligible; the last stage stands at the
/// end of the step.
pub proof fn law_stage_times(t: MRIStepCoupling)
    requires
        times_ok(t),
    ensures
        t.type_ != MRISTEP_METHOD_TYPE::MRISTEP_MERK && t.type_ != MRISTEP_METHOD_TYPE::MRISTEP_SR
            ==> forall|i: int|
            1 <= i < t.stages ==> !r_lt(
                r_sub(#[trigger] row_entry(t.c@, i), row_entry(t.c@, i - 1)),
                r_neg(negligible()),
            ),
        !r_lt(negligible(), r_abs(r_sub(ONE(), row_entry(t.c@, t.stages - 1)))),
{
    reveal(times_ok);
    reveal(real_at);
    lemma_sorted(t.c@, 1, t.stages as int);
}

proof fn lemma_first_row(acc: sunrealtype, t: MRIStepCoupling, k: int, j: int)
    requires
        r_le(ZERO(), acc),
        forall|d: int, b: int, c: int| !(#[trigger] coeff(t.W@, d, b, c)).is_nan(),
        forall|d: int, b: int, c: int| !(#[trigger] coeff(t.G@, d, b, c)).is_nan(),
    ensures
        ({
            let r = first_row(acc, t, k, j);
            &&& r_le(acc, r)
            &&& r_le(ZERO(), r)
            &&& forall|c: int|
                j <= c < t.stages && t.W@.len() > 0 ==> r_le(
                    r_abs(#[trigger] coeff(t.W@, k, 0, c)),
                    r,
                )
            &&& forall|c: int|
                j <= c < t.stages && t.G@.len() > 0 ==> r_le(
                    r_abs(#[trigger] coeff(t.G@, k, 0, c)),
                    r,
                )
        }),
    decreases t.stages - j,
{
    reveal(first_row);
    if j < t.stages {
        let w = coeff(t.W@, k, 0, j);
        let g = coeff(t.G@, k, 0, j);
        lemma_magnitude(w);
        lemma_magnitude(g);
        law_sum_not_below(acc, r_abs(w));
        lemma_le_trans(ZERO(), acc, r_add(acc, r_abs(w)));
        let a = if t.W@.len() > 0 {
            r_add(acc, r_abs(w))
        } else {
            acc
        };
        assert(r_le(acc, a)) by {
            reveal(r_lt);
            reveal(r_eq);
        }
        law_sum_not_below(a, r_abs(g));
        lemma_le_trans(ZERO(), a, r_add(a, r_abs(g)));
        let b = if t.G@.len() > 0 {
            r_add(a, r_abs(g))
        } else {
            a
        };
        assert(r_le(a, b)) by {
            reveal(r_lt);
            reveal(r_eq);
        }
        lemma_first_row(b, t, k, j + 1);
        let r = first_row(acc, t, k, j);
        lemma_le_trans(acc, a, b);
        lemma_le_trans(acc, b, r);
        if t.W@.len() > 0 {
            lemma_le_trans(r_abs(w), a, b);
            lemma_le_trans(r_abs(w), b, r);
        }
        if t.G@.len() > 0 {
            lemma_le_trans(r_abs(g), b, r);
        }
    } else {
        reveal(r_lt);
        reveal(r_eq);
    }
}

proof fn lemma_first_rows(acc: sunrealtype, t: MRIStepCoupling, k: int)
    requires
        r_le(ZERO(), acc),
        forall|d: int, b: int, c: int| !(#[trigger] coeff(t.W@, d, b, c)).is_nan(),
        forall|d: int, b: int, c: int| !(#[trigger] coeff(t.G@, d, b, c)).is_nan(),
    ensures
        ({
            let r = first_rows(acc, t, k);
            &&& r_le(acc, r)
            &&& forall|d: int, c: int|
                k <= d < t.nmat && 0 <= c < t.stages && t.W@.len() > 0 ==> r_le(
                    r_abs(#[trigger] coeff(t.W@, d, 0, c)),
                    r,
                )
            &&& forall|d: int, c: int|
                k <= d < t.nmat && 0 <= c < t.stages && t.G@.len() > 0 ==> r_le(
                    r_abs(#[trigger] coeff(t.G@, d, 0, c)),
                    r,
                )
        }),
    decreases t.nmat - k,
{
    reveal(first_rows);
    if k < t.nmat {
        lemma_first_row(acc, t, k, 0);
        let acc1 = first_row(acc, t, k, 0);
        lemma_first_rows(acc1, t, k + 1);
        let r = first_rows(acc, t, k);
        lemma_le_trans(acc, acc1, r);
        assert forall|d: int, c: int|
            k <= d < t.nmat && 0 <= c < t.stages && t.W@.len() > 0 implies r_le(
            r_abs(#[trigger] coeff(t.W@, d, 0, c)),
            r,
        ) by {
            if d == k {
                lemma_le_trans(r_abs(coeff(t.W@, d, 0, c)), acc1, r);
            }
        }
        assert forall|d: int, c: int|
            k <= d < t.nmat && 0 <= c < t.stages && t.G@.len() > 0 implies r_le(
            r_abs(#[trigger] coeff(t.G@, d, 0, c)),
            r,
        ) by {
            if d == k {
                lemma_le_trans(r_abs(coeff(t.G@, d, 0, c)), acc1, r);
            }
        }
    } else {
        reveal(r_lt);
        reveal(r_eq);
    }
}

/// The first stage of an accepted table is the last solution: its time and its
/// rows are negligible. Any table of numbers that breaks this is refused.
pub proof fn law_first_stage(t: MRIStepCoupling)
    requires
        times_ok(t),
        !row_entry(t.c@, 0).is_nan(),
        forall|d: int, b: int, c: int| !(#[trigger] table_entry(t.W@, d, b, c)).is_nan(),
        forall|d: int, b: int, c: int| !(#[trigger] table_entry(t.G@, d, b, c)).is_nan(),
    ensures
        !r_lt(negligible(), r_abs(row_entry(t.c@, 0))),
        forall|d: int, c: int|
            0 <= d < t.nmat && 0 <= c < t.stages && t.W@.len() > 0 ==> !r_lt(
                negligible(),
                r_abs(#[trigger] table_entry(t.W@, d, 0, c)),
            ),
        forall|d: int, c: int|
            0 <= d < t.nmat && 0 <= c < t.stages && t.G@.len() > 0 ==> !r_lt(
                negligible(),
                r_abs(#[trigger] table_entry(t.G@, d, 0, c)),
            ),
{
    reveal(times_ok);
    assert(real_at(t.c@, 0) == row_entry(t.c@, 0)) by {
        reveal(real_at);
    }
    assert forall|d: int, b: int, c: int| #[trigger] coeff(t.W@, d, b, c) == table_entry(
        t.W@,
        d,
        b,
        c,
    ) by {
        reveal(coeff);
    }
    assert forall|d: int, b: int, c: int| #[trigger] coeff(t.G@, d, b, c) == table_entry(
        t.G@,
        d,
        b,
        c,
    ) by {
        reveal(coeff);
    }
    assert forall|d: int, b: int, c: int| !(#[trigger] coeff(t.W@, d, b, c)).is_nan() by {
        assert(!table_entry(t.W@, d, b, c).is_nan());
    }
    assert forall|d: int, b: int, c: int| !(#[trigger] coeff(t.G@, d, b, c)).is_nan() by {
        assert(!table_entry(t.G@, d, b, c).is_nan());
    }
    let c0 = r_abs(row_entry(t.c@, 0));
    lemma_magnitude(row_entry(t.c@, 0));
    lemma_first_rows(c0, t, 0);
    let r = first_rows(c0, t, 0);
    assert(forall|x: sunrealtype| #[trigger] r_le(x, r) ==> !r_lt(negligible(), x)) by {
        reveal(r_lt);
        reveal(r_eq);
    }
    assert forall|d: int, c: int|
        0 <= d < t.nmat && 0 <= c < t.stages && t.W@.len() > 0 implies !r_lt(
        negligible(),
        r_abs(#[trigger] table_entry(t.W@, d, 0, c)),
    ) by {
        assert(r_le(r_abs(coeff(t.W@, d, 0, c)), r));
    }
    assert forall|d: int, c: int|
        0 <= d < t.nmat && 0 <= c < t.stages && t.G@.len() > 0 implies !r_lt(
        negligible(),
        r_abs(#[trigger] table_entry(t.G@, d, 0, c)),
    ) by {
        assert(r_le(r_abs(coeff(t.G@, d, 0, c)), r));
    }
}

/// The shape that is asked of a table: a stage and an order at least, an
/// embedding for steps of variable size, matrices that go with its kind, a kind
/// that goes with the problem, matrices that are lower triangular, strictly so
/// the explicit ones.
pub proof fn law_table_shape(t: MRIStepCoupling, im: bool, ex: bool, fixed: bool)
    ensures
        ({
            let w = t.W@.len() > 0;
            let g = t.G@.len() > 0;
            let both = t.type_ == MRISTEP_METHOD_TYPE::MRISTEP_IMEX || t.type_
                == MRISTEP_METHOD_TYPE::MRISTEP_SR;
            let explicit = t.type_ == MRISTEP_METHOD_TYPE::MRISTEP_EXPLICIT || t.type_
                == MRISTEP_METHOD_TYPE::MRISTEP_MERK;
            let implicit = t.type_ == MRISTEP_METHOD_TYPE::MRISTEP_IMPLICIT;
            shape_ok(t, im, ex, fixed) <==> {
                &&& t.stages > 0
                &&& t.q > 0
                &&& fixed || t.p > 0
                &&& both ==> w && g
                &&& explicit ==> w && !g && !im
                &&& implicit ==> !w && g && !ex
                &&& lower_triangular(t.W@, t.nmat, t.stages, 0)
                &&& lower_triangular(t.G@, t.nmat, t.stages, 1)
                &&& t.type_ == MRISTEP_METHOD_TYPE::MRISTEP_MERK ==> groups_complete(t)
            }
        }),
{
    reveal(shape_ok);
}

proof fn lemma_in_group(g: Seq<Vec<i32>>, stages: int, i: int, j: int, s: i32)
    requires
        times_in_group(g, stages, i, j, s) > 0,
    ensures
        exists|c: int| j <= c < stages && #[trigger] group_at(g, i, c) == s,
    decreases stages - j,
{
    reveal(times_in_group);
    if group_at(g, i, j) != s {
        lemma_in_group(g, stages, i, j + 1, s);
    }
}

proof fn lemma_in_groups(g: Seq<Vec<i32>>, stages: int, i: int, n: int, s: i32)
    requires
        times(g, stages, i, n, s) > 0,
    ensures
        exists|b: int, c: int|
            i <= b < n && 0 <= c < stages && #[trigger] group_at(g, b, c) == s,
    decreases n - i,
{
    reveal(times);
    if times_in_group(g, stages, i, 0, s) > 0 {
        lemma_in_group(g, stages, i, 0, s);
    } else {
        lemma_in_groups(g, stages, i + 1, n, s);
    }
}

/// In the groups of an accepted exponential method every stage after the first,
/// and the embedding, stands somewhere.
pub proof fn law_grouped(t: MRIStepCoupling, s: i32)
    requires
        groups_complete(t),
        1 <= s <= t.stages,
    ensures
        exists|b: int, c: int|
            0 <= b < t.ngroup && 0 <= c < t.stages && b < t.group@.len() && c
                < t.group@[b]@.len() && #[trigger] t.group@[b]@[c] == s,
{
    lemma_in_groups(t.group@, t.stages as int, 0, t.ngroup as int, s);
    let (b, c) = choose|b: int, c: int|
        0 <= b < t.ngroup && 0 <= c < t.stages && #[trigger] group_at(t.group@, b, c) == s;
    reveal(group_at);
    reveal(index_at);
    assert(t.group@[b]@[c] == s);
}

proof fn lemma_members(g: Seq<Vec<i32>>, stages: int, i: int, j: int, c: int)
    requires
        members_valid(g, stages, i, j),
        j <= c < stages,
        forall|d: int| j <= d <= c ==> #[trigger] group_at(g, i, d) != -1,
    ensures
        0 <= group_at(g, i, c) <= stages,
    decreases c - j,
{
    reveal(members_valid);
    assert(group_at(g, i, j) != -1);
    if c > j {
        lemma_members(g, stages, i, j + 1, c);
    }
}

proof fn lemma_groups(g: Seq<Vec<i32>>, stages: int, i: int, n: int, b: int)
    requires
        groups_valid(g, stages, i, n),
        i <= b < n,
    ensures
        members_valid(g, stages, b, 0),
    decreases n - i,
{
    reveal(groups_valid);
    if b > i {
        lemma_groups(g, stages, i + 1, n, b);
    }
}

/// The members of the groups of an accepted exponential method, up to the end of
/// each group, are stages or the embedding.
pub proof fn law_members_are_stages(t: MRIStepCoupling, b: int, c: int)
    requires
        groups_complete(t),
        0 <= b < t.ngroup,
        b < t.group@.len(),
        0 <= c < t.stages,
        c < t.group@[b]@.len(),
        forall|d: int| 0 <= d <= c ==> #[trigger] t.group@[b]@[d] != -1,
    ensures
        0 <= t.group@[b]@[c] <= t.stages,
{
    lemma_groups(t.group@, t.stages as int, 0, t.ngroup as int, b);
    assert forall|d: int| 0 <= d <= c implies #[trigger] group_at(t.group@, b, d)
        == t.group@[b]@[d] by {
        reveal(group_at);
        reveal(index_at);
    }
    lemma_members(t.group@, t.stages as int, b, 0, c);
    assert(group_at(t.group@, b, c) == t.group@[b]@[c]);
}

/// The kind of a table chooses the step; its stages and orders are those of the
/// method, and the orders are handed to the step controller.
pub proof fn law_method(m: MemView, t: MRIStepCoupling)
    requires
        m.step_mem() is Some,
        mri(m).MRIC() == Some(t),
    ensures
        ({
            let r = adopt_method(m);
            let merk = t.type_ == MRISTEP_METHOD_TYPE::MRISTEP_MERK;
            let sr = t.type_ == MRISTEP_METHOD_TYPE::MRISTEP_SR;
            &&& merk ==> r.att().step == Some(StepFn::MERK)
            &&& sr ==> r.att().step == Some(StepFn::MRISR)
            &&& !merk && !sr ==> r.att().step == Some(StepFn::MRIGARK)
            &&& mri(r).mth().stages == t.stages
            &&& mri(r).mth().q == t.q
            &&& mri(r).mth().p == t.p
            &&& r.lim().ensure_ycur
            &&& m.hadapt() is Some ==> r.hadapt() is Some && r.hadapt()->Some_0.q == t.q
                && r.hadapt()->Some_0.p == t.p
        }),
{
    reveal(adopt_method);
    reveal(adopt_table);
    reveal(put_att);
    reveal(put_lim);
    reveal(put_hadapt);
    reveal(mput_mth);
    reveal(with_mri);
    reveal(mri);
}

/// The two kinds of stage vectors share their storage exactly for stage-restart
/// methods on problems with one right-hand side.
pub proof fn law_shared_stages(m: MemView, t: MRIStepCoupling)
    requires
        m.step_mem() is Some,
        mri(m).MRIC() == Some(t),
    ensures
        mri(unify(m)).mth().unify_Fs == (t.type_ == MRISTEP_METHOD_TYPE::MRISTEP_SR && (mri(
            m,
        ).prb().explicit_rhs && !mri(m).prb().implicit_rhs || !mri(m).prb().explicit_rhs && mri(
            m,
        ).prb().implicit_rhs)),
        mri(unify(m)).mth().stages == t.stages,
{
    reveal(unify);
    reveal(adopt_table);
    reveal(mput_mth);
    reveal(with_mri);
    reveal(mri);
}

/// The degree of interpolation is below the order of the method, except that a
/// method of order one interpolates linearly. It is never raised.
pub proof fn law_degree(m: MemView)
    requires
        mri(m).mth().q >= 1,
    ensures
        ({
            let q = mri(m).mth().q;
            let d = m.att().interp_degree;
            let r = limit_degree(m).att().interp_degree;
            &&& r <= d
            &&& q > 1 ==> r < q
            &&& q == 1 ==> r <= 1
            &&& q > 1 && d < q ==> r == d
            &&& q == 1 && d <= 1 ==> r == d
            &&& q > 1 && d >= q ==> r == q - 1
            &&& q == 1 && d > 1 ==> r == 1
        }),
{
    reveal(limit_degree);
    reveal(put_att);
}

/// Only an explicit method with fixed steps, built-in weights and no accumulated
/// errors has its weights replaced by those that never fail.
pub proof fn law_relaxed_weights(m: MemView)
    ensures
        ({
            let free = !mri(m).prb().implicit_rhs && m.lim().fixedstep && !m.tol().user_efun
                && m.lim().AccumErrorType == ARK_ACCUMERROR_NONE;
            let r = relax_weights(m);
            &&& !free ==> r == m
            &&& free ==> r.tol().efun == Some(EwtFn::SetSmallReal) && put_tol(r, m.tol()) == m
        }),
{
    reveal(relax_weights);
    reveal(put_tol);
}

/// What step size control asks for. Fixed steps need a step size. Without a
/// controller, steps of variable size are refused; with one of a known kind they
/// need an embedding, and one that adapts the fast tolerance starts from a
/// factor of one.
pub proof fn law_step_control<E: ArkEnv>(m: MemView, e: E, t: MRIStepCoupling)
    requires
        m.step_mem() is Some,
        controller(m) is None,
        mri(m).MRIC() == Some(t),
    ensures
        ({
            let o = init_adapt(m, e);
            &&& o.e == e
            &&& o.m == m
            &&& o.flag == if m.lim().fixedstep && !r_eq(m.stp().hin, ZERO()) {
                ARK_SUCCESS
            } else {
                ARK_ILL_INPUT
            }
        }),
{
    reveal(init_adapt);
    reveal(adapt_kind);
}

/// With a controller: its kind decides.
pub proof fn law_controlled_steps<E: ArkEnv>(m: MemView, e: E, id: u64, t: MRIStepCoupling)
    requires
        controller(m) == Some(id),
        ({
            let k = module_run(m, e, ModuleCall::ControllerType { id });
            &&& k.m == m
            &&& m.step_mem() is Some
            &&& mri(m).MRIC() == Some(t)
        }),
        !m.lim().fixedstep,
    ensures
        ({
            let k = module_run(m, e, ModuleCall::ControllerType { id });
            let o = init_adapt(m, e);
            let plain = k.flag == SUN_ADAPTCONTROLLER_H;
            let tol = k.flag == SUN_ADAPTCONTROLLER_MRI_H_TOL;
            let able = mri(m).stepper() is Some && ({
                let p = mri(m).stepper()->Some_0.ops();
                p.geterror is Some && p.reseterror is Some && p.setrtol is Some
            });
            &&& o.e == k.e
            &&& o.flag == if t.p > 0 && (plain || (tol && able)) {
                ARK_SUCCESS
            } else {
                ARK_ILL_INPUT
            }
            &&& o.flag == ARK_SUCCESS && tol ==> mri(o.m).adp().inner_rtol_factor == ONE()
        }),
{
    reveal(init_adapt);
    reveal(adapt_kind);
    reveal(mput_adp);
    reveal(with_mri);
    reveal(mri);
}

/// A predictor other than the last solution needs an interpolation module, and
/// an error estimate an embedding.
pub proof fn law_first_initialisation<E: ArkEnv>(m: MemView, e: E)
    ensures
        ({
            let a = init_table(m, e);
            let b = init_vectors(a.m, a.e);
            let z = limit_degree(b.m);
            let o = init_first(m, e);
            &&& a.flag != ARK_SUCCESS ==> o == a
            &&& a.flag == ARK_SUCCESS && b.flag != ARK_SUCCESS ==> o == b
            &&& a.flag == ARK_SUCCESS && b.flag == ARK_SUCCESS ==> {
                &&& o.m == z
                &&& o.e == b.e
                &&& o.flag == if z.att().interp_type == ARK_INTERP_NONE && mri(z).prb().predictor
                    != 0 {
                    ARK_ILL_INPUT
                } else {
                    ARK_SUCCESS
                }
            }
        }),
{
    reveal(init_first);
}

proof fn lemma_decoupled<E: ArkEnv>(m: MemView, e: E, i: int, n: int, okay: bool)
    requires
        forall|j: int| leaves_memory::<E>(#[trigger] stage_question(j)),
    ensures
        decoupled(m, e, i, n, okay).m == m,
        decoupled(m, e, i, n, okay).flag == ARK_SUCCESS || decoupled(m, e, i, n, okay).flag
            == ARK_INVALID_TABLE,
        !okay ==> decoupled(m, e, i, n, okay).flag == ARK_INVALID_TABLE,
    decreases n - i,
{
    if i < n {
        assert(leaves_memory::<E>(stage_question(i)));
        let r = module_run(m, e, ModuleCall::StageType { stage: i as i32 });
        lemma_decoupled(r.m, r.e, i + 1, n, okay && r.flag != MRISTAGE_DIRK_FAST);
    }
}

/// The question for the kind of a stage.
pub open spec fn stage_question(j: int) -> ModuleCall {
    ModuleCall::StageType { stage: j as i32 }
}

/// A table that passes the check has the shape and the times that are asked for;
/// one that has not is refused. The kinds of stages may be asked of a module
/// that leaves the memory alone.
pub proof fn law_checked_table<E: ArkEnv>(m: MemView, e: E, t: MRIStepCoupling)
    requires
        m.step_mem() is Some,
        mri(m).MRIC() == Some(t),
        forall|j: int| leaves_memory::<E>(#[trigger] stage_question(j)),
    ensures
        ({
            let p = mri(m).prb();
            let o = check_coupling(m, e);
            let fits = shape_ok(t, p.implicit_rhs, p.explicit_rhs, m.lim().fixedstep);
            &&& o.m == m
            &&& o.flag == ARK_SUCCESS || o.flag == ARK_INVALID_TABLE
            &&& o.flag == ARK_SUCCESS ==> fits && times_ok(t)
            &&& o.flag == ARK_SUCCESS <==> (fits && times_ok(t) && decoupled(
                m,
                e,
                0,
                t.stages as int,
                true,
            ).flag == ARK_SUCCESS)
        }),
{
    reveal(check_coupling);
    reveal(table_shape_ok);
    reveal(table_times_ok);
    reveal(shape_ok);
    lemma_decoupled(m, e, 0, t.stages as int, true);
}

/// A stage that couples a solve with a fast evolution is refused.
pub proof fn law_coupled_stage_refused<E: ArkEnv>(m: MemView, e: E, i: int, n: int)
    requires
        i < n,
        forall|j: int| leaves_memory::<E>(#[trigger] stage_question(j)),
        module_run(m, e, ModuleCall::StageType { stage: i as i32 }).flag == MRISTAGE_DIRK_FAST,
    ensures
        decoupled(m, e, i, n, true).flag == ARK_INVALID_TABLE,
{
    let r = module_run(m, e, ModuleCall::StageType { stage: i as i32 });
    lemma_decoupled(r.m, r.e, i + 1, n, false);
}

} // verus!
