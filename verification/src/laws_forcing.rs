//! Laws of the forcing that drives the fast integrator, stated by index from
//! the coupling table and the slow right-hand sides.
use crate::arkode_codes::{ARK_INVALID_TABLE, ARK_SUCCESS, ARK_VECTOROP_ERR};
use crate::arkode_impl::{InnerView, MemView};
use crate::arkode_mem::{mput_stepper, mri, with_mri};
use crate::binary64::{r_div, r_mul, r_sub, sunrealtype};
use crate::coupling::{coeff, index_at, MRIStepCoupling, MRISTEP_METHOD_TYPE};
use crate::laws_sums::{law_combination, total};
use crate::mristep_coeffs::{forcing_row, lemma_forcing_row_len, stage_coeffs, stage_vectors};
use crate::mristep_fast::{forcing_poly, inner_forcing};
use crate::nvector::{v_null, NVec};
use crate::sundials_types::ZERO;
use vstd::prelude::*;

verus! {

/// Entry `j` of row `i` of matrix `k`, zero where there is none.
pub open spec fn table_entry(
    a: Seq<Vec<Vec<sunrealtype>>>,
    k: int,
    i: int,
    j: int,
) -> sunrealtype {
    if 0 <= k < a.len() && 0 <= i < a[k]@.len() && 0 <= j < a[k]@[i]@.len() {
        a[k]@[i]@[j]
    } else {
        ZERO()
    }
}

/// Whether the right-hand sides of stage `j` are stored.
pub open spec fn is_stored(map: Seq<i32>, j: int) -> bool {
    0 <= j < map.len() && map[j] >= 0
}

/// Number of stages before `n` whose right-hand sides are stored.
pub open spec fn stored_before(map: Seq<i32>, n: nat) -> nat
    decreases n,
{
    if n == 0 {
        0
    } else {
        stored_before(map, (n - 1) as nat) + if is_stored(map, n - 1) {
            1nat
        } else {
            0nat
        }
    }
}

/// Place of stage `n` in a list of stored right-hand sides: one for each stored
/// stage before it, or two where both kinds are listed.
pub open spec fn place(ex: bool, im: bool, map: Seq<i32>, n: nat) -> nat {
    if ex && im {
        2 * stored_before(map, n)
    } else {
        stored_before(map, n)
    }
}

/// The right-hand side of stage `j` in its store.
pub open spec fn stored_rhs(f: Seq<NVec>, map: Seq<i32>, j: int) -> NVec {
    if 0 <= map[j] < f.len() {
        f[map[j] as int]
    } else {
        v_null()
    }
}

/// Whether `c` and `x` list, for each stored stage before `n` in turn, the
/// explicit right-hand side with factor `ce(j)`, then the implicit one with
/// factor `ci(j)`.
pub open spec fn lists_stages(
    c: Seq<sunrealtype>,
    x: Seq<NVec>,
    ex: bool,
    im: bool,
    map: Seq<i32>,
    fse: Seq<NVec>,
    fsi: Seq<NVec>,
    n: nat,
    ce: spec_fn(int) -> sunrealtype,
    ci: spec_fn(int) -> sunrealtype,
) -> bool {
    &&& c.len() == place(ex, im, map, n)
    &&& x.len() == c.len()
    &&& forall|j: int|
        0 <= j < n && #[trigger] is_stored(map, j) ==> {
            let p = place(ex, im, map, j as nat) as int;
            let q = if ex {
                p + 1
            } else {
                p
            };
            &&& ex ==> c[p] == ce(j) && x[p] == stored_rhs(fse, map, j)
            &&& im ==> c[q] == ci(j) && x[q] == stored_rhs(fsi, map, j)
        }
}

proof fn lemma_stored_grows(map: Seq<i32>, j: nat, n: nat)
    requires
        j <= n,
    ensures
        stored_before(map, j) <= stored_before(map, n),
        j < n && is_stored(map, j as int) ==> stored_before(map, j) < stored_before(map, n),
    decreases n,
{
    if j < n {
        lemma_stored_grows(map, j, (n - 1) as nat);
    }
}

proof fn lemma_shorter(
    c: Seq<sunrealtype>,
    x: Seq<NVec>,
    ex: bool,
    im: bool,
    map: Seq<i32>,
    fse: Seq<NVec>,
    fsi: Seq<NVec>,
    n: nat,
    ce: spec_fn(int) -> sunrealtype,
    ci: spec_fn(int) -> sunrealtype,
)
    requires
        n > 0,
        ex || im,
        lists_stages(c, x, ex, im, map, fse, fsi, n, ce, ci),
    ensures
        ({
            let k = (n - 1) as nat;
            let p = place(ex, im, map, k) as int;
            &&& p <= c.len()
            &&& lists_stages(c.take(p), x.take(p), ex, im, map, fse, fsi, k, ce, ci)
        }),
{
    let k = (n - 1) as nat;
    let p = place(ex, im, map, k) as int;
    lemma_stored_grows(map, k, n);
    assert forall|j: int| 0 <= j < k && #[trigger] is_stored(map, j) implies ({
        let a = place(ex, im, map, j as nat) as int;
        let q = if ex {
            a + 1
        } else {
            a
        };
        &&& ex ==> c.take(p)[a] == ce(j) && x.take(p)[a] == stored_rhs(fse, map, j)
        &&& im ==> c.take(p)[q] == ci(j) && x.take(p)[q] == stored_rhs(fsi, map, j)
    }) by {
        lemma_stored_grows(map, j as nat, k);
    }
}

/// The lists that a description by index fixes.
proof fn lemma_stage_vectors(
    c: Seq<sunrealtype>,
    x: Seq<NVec>,
    ex: bool,
    im: bool,
    map: Seq<i32>,
    fse: Seq<NVec>,
    fsi: Seq<NVec>,
    n: nat,
    ce: spec_fn(int) -> sunrealtype,
    ci: spec_fn(int) -> sunrealtype,
)
    requires
        ex || im,
        lists_stages(c, x, ex, im, map, fse, fsi, n, ce, ci),
    ensures
        x == stage_vectors(ex, im, map, fse, fsi, n),
    decreases n,
{
    reveal(stage_vectors);
    reveal(index_at);
    if n > 0 {
        let k = (n - 1) as nat;
        let p = place(ex, im, map, k) as int;
        lemma_shorter(c, x, ex, im, map, fse, fsi, n, ce, ci);
        lemma_stage_vectors(c.take(p), x.take(p), ex, im, map, fse, fsi, k, ce, ci);
        assert(is_stored(map, n - 1) == (index_at(map, n - 1) > -1));
        assert(x =~= stage_vectors(ex, im, map, fse, fsi, n));
    } else {
        assert(x =~= Seq::<NVec>::empty());
    }
}

proof fn lemma_forcing_row(
    c: Seq<sunrealtype>,
    x: Seq<NVec>,
    ex: bool,
    im: bool,
    map: Seq<i32>,
    fse: Seq<NVec>,
    fsi: Seq<NVec>,
    n: nat,
    scale: sunrealtype,
    t: MRIStepCoupling,
    k: int,
    is: int,
)
    requires
        ex || im,
        lists_stages(
            c,
            x,
            ex,
            im,
            map,
            fse,
            fsi,
            n,
            |j: int| r_mul(scale, table_entry(t.W@, k, is, j)),
            |j: int| r_mul(scale, table_entry(t.G@, k, is, j)),
        ),
    ensures
        c == forcing_row(scale, ex, im, map, t, k, is, n),
    decreases n,
{
    reveal(forcing_row);
    reveal(index_at);
    reveal(coeff);
    let ce = |j: int| r_mul(scale, table_entry(t.W@, k, is, j));
    let ci = |j: int| r_mul(scale, table_entry(t.G@, k, is, j));
    if n > 0 {
        let b = (n - 1) as nat;
        let p = place(ex, im, map, b) as int;
        lemma_shorter(c, x, ex, im, map, fse, fsi, n, ce, ci);
        lemma_forcing_row(c.take(p), x.take(p), ex, im, map, fse, fsi, b, scale, t, k, is);
        assert(is_stored(map, n - 1) == (index_at(map, n - 1) > -1));
        assert(c =~= forcing_row(scale, ex, im, map, t, k, is, n));
    } else {
        assert(c =~= Seq::<sunrealtype>::empty());
    }
}

/// Lists that hold the stage right-hand sides times the entries of two rows of
/// effective coefficients.
pub proof fn lemma_stage_lists(
    c: Seq<sunrealtype>,
    x: Seq<NVec>,
    ex: bool,
    im: bool,
    map: Seq<i32>,
    fse: Seq<NVec>,
    fsi: Seq<NVec>,
    n: nat,
    h: sunrealtype,
    ae: Seq<sunrealtype>,
    ai: Seq<sunrealtype>,
)
    requires
        ex || im,
        lists_stages(
            c,
            x,
            ex,
            im,
            map,
            fse,
            fsi,
            n,
            |j: int| r_mul(h, row_entry(ae, map[j] as int)),
            |j: int| r_mul(h, row_entry(ai, map[j] as int)),
        ),
    ensures
        c == stage_coeffs(h, ex, im, map, ae, ai, n),
        x == stage_vectors(ex, im, map, fse, fsi, n),
    decreases n,
{
    reveal(stage_coeffs);
    reveal(index_at);
    reveal(crate::coupling::real_at);
    let ce = |j: int| r_mul(h, row_entry(ae, map[j] as int));
    let ci = |j: int| r_mul(h, row_entry(ai, map[j] as int));
    lemma_stage_vectors(c, x, ex, im, map, fse, fsi, n, ce, ci);
    if n > 0 {
        let b = (n - 1) as nat;
        let p = place(ex, im, map, b) as int;
        lemma_shorter(c, x, ex, im, map, fse, fsi, n, ce, ci);
        lemma_stage_lists(c.take(p), x.take(p), ex, im, map, fse, fsi, b, h, ae, ai);
        assert(is_stored(map, n - 1) == (index_at(map, n - 1) > -1));
        assert(c =~= stage_coeffs(h, ex, im, map, ae, ai, n));
    } else {
        assert(c =~= Seq::<sunrealtype>::empty());
    }
}

/// Entry `i` of a row, zero where there is none.
pub open spec fn row_entry(s: Seq<sunrealtype>, i: int) -> sunrealtype {
    if 0 <= i < s.len() {
        s[i]
    } else {
        ZERO()
    }
}

/// Number of stages that force stage `stage`: those before it, and no more than
/// there are.
pub open spec fn forcing_stages(stage: i32, stages: i32) -> nat {
    if stage <= 0 || stages <= 0 {
        0
    } else if stage < stages {
        stage as nat
    } else {
        stages as nat
    }
}

/// For every table, map and store there is such a list, and so a forcing that
/// `law_forcing` describes.
pub proof fn law_stages_listed(
    ex: bool,
    im: bool,
    map: Seq<i32>,
    fse: Seq<NVec>,
    fsi: Seq<NVec>,
    n: nat,
    ce: spec_fn(int) -> sunrealtype,
    ci: spec_fn(int) -> sunrealtype,
)
    ensures
        ex || im ==> exists|c: Seq<sunrealtype>, x: Seq<NVec>|
            #[trigger] lists_stages(c, x, ex, im, map, fse, fsi, n, ce, ci),
    decreases n,
{
    if ex || im {
        if n == 0 {
            assert(lists_stages(
                Seq::<sunrealtype>::empty(),
                Seq::<NVec>::empty(),
                ex,
                im,
                map,
                fse,
                fsi,
                n,
                ce,
                ci,
            ));
        } else {
            let k = (n - 1) as nat;
            law_stages_listed(ex, im, map, fse, fsi, k, ce, ci);
            let (c, x) = choose|c: Seq<sunrealtype>, x: Seq<NVec>|
                #[trigger] lists_stages(c, x, ex, im, map, fse, fsi, k, ce, ci);
            let c1 = if !is_stored(map, k as int) {
                c
            } else if ex && im {
                c.push(ce(k as int)).push(ci(k as int))
            } else if ex {
                c.push(ce(k as int))
            } else {
                c.push(ci(k as int))
            };
            let e = stored_rhs(fse, map, k as int);
            let i = stored_rhs(fsi, map, k as int);
            let x1 = if !is_stored(map, k as int) {
                x
            } else if ex && im {
                x.push(e).push(i)
            } else if ex {
                x.push(e)
            } else {
                x.push(i)
            };
            assert forall|j: int| 0 <= j < n && #[trigger] is_stored(map, j) implies ({
                let p = place(ex, im, map, j as nat) as int;
                let q = if ex {
                    p + 1
                } else {
                    p
                };
                &&& ex ==> c1[p] == ce(j) && x1[p] == stored_rhs(fse, map, j)
                &&& im ==> c1[q] == ci(j) && x1[q] == stored_rhs(fsi, map, j)
            }) by {
                if j < k {
                    lemma_stored_grows(map, (j + 1) as nat, k);
                }
            }
            assert(lists_stages(c1, x1, ex, im, map, fse, fsi, n, ce, ci));
        }
    }
}

/// The forcing of the fast evolution of a stage over `[t0, tf]`.
///
/// The coefficient of degree `k` is, in every component, the sum over the stored
/// stages `j` before it of `h / (tf - t0)` times row `stage`, column `j` of the
/// explicit matrix `k` of the table, times the explicit right-hand side of stage
/// `j`, and likewise with the implicit matrix and the implicit right-hand side.
/// A stage-restart method has both right-hand sides in the explicit ones.
/// Coefficients of a higher degree than the table has stay. The polynomial is in
/// the time since `t0`, in units of `tf - t0`. Nothing else changes.
pub proof fn law_forcing(
    m: MemView,
    stage: i32,
    t0: sunrealtype,
    tf: sunrealtype,
    s: InnerView,
    t: MRIStepCoupling,
    k: int,
    c: Seq<sunrealtype>,
    x: Seq<NVec>,
)
    requires
        m.step_mem() is Some,
        mri(m).stepper() == Some(s),
        mri(m).MRIC() == Some(t),
        ({
            let both = t.type_ == MRISTEP_METHOD_TYPE::MRISTEP_SR;
            let ex = both || mri(m).prb().explicit_rhs;
            let im = !both && mri(m).prb().implicit_rhs;
            let scale = r_div(m.stp().h, r_sub(tf, t0));
            &&& ex || im
            &&& lists_stages(
                c,
                x,
                ex,
                im,
                mri(m).stage_map(),
                mri(m).Fse(),
                mri(m).Fsi(),
                forcing_stages(stage, mri(m).mth().stages),
                |j: int| r_mul(scale, table_entry(t.W@, k, stage as int, j)),
                |j: int| r_mul(scale, table_entry(t.G@, k, stage as int, j)),
            )
        }),
        0 <= k < s.forcing().len(),
    ensures
        ({
            let r = inner_forcing(m, stage, t0, tf);
            &&& mri(r.0).stepper() is Some
            &&& {
                let f = mri(r.0).stepper()->Some_0;
                &&& f.sc().tshift == t0
                &&& f.sc().tscale == r_sub(tf, t0)
                &&& f.ops() == s.ops()
                &&& f.sc().nforcing == s.sc().nforcing
                &&& f.forcing().len() == s.forcing().len()
                &&& k >= t.nmat ==> f.forcing()[k] == s.forcing()[k]
                &&& k < t.nmat && c.len() > 0 ==> {
                    &&& f.forcing()[k].data.len() == s.forcing()[k].data.len()
                    &&& forall|i: int|
                        0 <= i < s.forcing()[k].data.len() ==> (#[trigger] f.forcing()[k].data[i])
                            == total(c, x, i)
                }
            }
            &&& mput_stepper(r.0, Some(s)) == m
            &&& r.1 == if t.nmat > 0 && c.len() == 0 {
                ARK_VECTOROP_ERR
            } else {
                ARK_SUCCESS
            }
        }),
{
    let both = t.type_ == MRISTEP_METHOD_TYPE::MRISTEP_SR;
    let ex = both || mri(m).prb().explicit_rhs;
    let im = !both && mri(m).prb().implicit_rhs;
    let scale = r_div(m.stp().h, r_sub(tf, t0));
    let n = forcing_stages(stage, mri(m).mth().stages);
    let map = mri(m).stage_map();
    let ce = |j: int| r_mul(scale, table_entry(t.W@, k, stage as int, j));
    let ci = |j: int| r_mul(scale, table_entry(t.G@, k, stage as int, j));
    lemma_forcing_row(
        c,
        x,
        ex,
        im,
        map,
        mri(m).Fse(),
        mri(m).Fsi(),
        n,
        scale,
        t,
        k,
        stage as int,
    );
    lemma_stage_vectors(c, x, ex, im, map, mri(m).Fse(), mri(m).Fsi(), n, ce, ci);
    reveal(inner_forcing);
    reveal(forcing_poly);
    reveal(mput_stepper);
    reveal(with_mri);
    reveal(mri);
    lemma_forcing_row_len(scale, ex, im, map, t, k, stage as int, n);
    if c.len() > 0 {
        law_combination(c, x, s.forcing()[k]);
    }
}

/// Without a fast integrator or a table there is no forcing.
pub proof fn law_no_forcing(m: MemView, stage: i32, t0: sunrealtype, tf: sunrealtype)
    requires
        mri(m).stepper() is None || mri(m).MRIC() is None,
    ensures
        inner_forcing(m, stage, t0, tf) == (m, ARK_INVALID_TABLE),
{
    reveal(inner_forcing);
}

} // verus!
