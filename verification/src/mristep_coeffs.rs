//! Coefficients of a slow stage and of the forcing of a fast one.
use crate::arith::from_int;
use crate::arkode_codes::{ARK_INVALID_TABLE, ARK_SUCCESS};
use crate::arkode_impl::{ARKodeMemRec, MemView};
use crate::arkode_mem::{mput_Ae_row, mput_Ai_row, mri};
use crate::binary64::{r_add, r_div, r_int, r_mul, sunrealtype};
use crate::coupling::{
    coeff, coeff_entry, count, index_at, index_entry, real_at, real_entry, MRIStepCoupling,
};
use crate::nvector::{entry, nth, nvecs, push_vector, NVec, N_Vector};
use crate::sundials_types::{ONE, ZERO};
use vstd::prelude::*;

verus! {

/// Integral over the unit interval of the monomial that goes with matrix `k`.
pub open spec fn monomial_weight(k: int) -> sunrealtype {
    r_div(ONE(), r_add(r_int(k), ONE()))
}

/// `acc` with the terms of the first `n` stages that are stored in slot `r`
/// added from matrix `k`.
#[verifier::opaque]
pub open spec fn slot_terms(
    acc: sunrealtype,
    a: Seq<Vec<Vec<sunrealtype>>>,
    is: int,
    map: Seq<i32>,
    r: int,
    k: int,
    n: nat,
) -> sunrealtype
    decreases n,
{
    if n == 0 {
        acc
    } else {
        let p = slot_terms(acc, a, is, map, r, k, (n - 1) as nat);
        if index_at(map, n - 1) == r {
            r_add(p, r_mul(coeff(a, k, is, n - 1), monomial_weight(k)))
        } else {
            p
        }
    }
}

/// `acc` with the terms of the first `m` matrices added.
#[verifier::opaque]
pub open spec fn slot_sum(
    acc: sunrealtype,
    a: Seq<Vec<Vec<sunrealtype>>>,
    is: int,
    map: Seq<i32>,
    r: int,
    n: nat,
    m: nat,
) -> sunrealtype
    decreases m,
{
    if m == 0 {
        acc
    } else {
        slot_terms(slot_sum(acc, a, is, map, r, n, (m - 1) as nat), a, is, map, r, m - 1, n)
    }
}

/// Adds to each slot of a row what the first `n` stages contribute to it.
fn add_slot_sums(
    a: &Vec<Vec<Vec<sunrealtype>>>,
    is: i32,
    map: &Vec<i32>,
    n: i32,
    nmat: i32,
    row: &mut Vec<sunrealtype>,
)
    ensures
        final(row)@.len() == old(row)@.len(),
        forall|r: int|
            0 <= r < old(row)@.len() ==> #[trigger] final(row)@[r] == slot_sum(
                old(row)@[r],
                a@,
                is as int,
                map@,
                r,
                count(n),
                count(nmat),
            ),
{
    let ghost row0 = row@;
    let mut k: i32 = 0;
    proof {
        reveal(slot_sum);
    }
    while k < nmat
        invariant
            0 <= k <= count(nmat),
            row@.len() == row0.len(),
            forall|r: int|
                0 <= r < row0.len() ==> #[trigger] row@[r] == slot_sum(
                    row0[r],
                    a@,
                    is as int,
                    map@,
                    r,
                    count(n),
                    k as nat,
                ),
        decreases nmat - k,
    {
        let w: sunrealtype = ONE() / (from_int(k as i64) + ONE());
        let ghost row1 = row@;
        let mut j: i32 = 0;
        proof {
            reveal(slot_terms);
        }
        while j < n
            invariant
                0 <= j <= count(n),
                k >= 0,
                w == monomial_weight(k as int),
                row@.len() == row1.len(),
                forall|r: int|
                    0 <= r < row1.len() ==> #[trigger] row@[r] == slot_terms(
                        row1[r],
                        a@,
                        is as int,
                        map@,
                        r,
                        k as int,
                        j as nat,
                    ),
            decreases n - j,
        {
            reveal(slot_terms);
            let s: i32 = index_entry(map, j);
            if s > -1 && (s as usize) < row.len() {
                let x: sunrealtype = row[s as usize] + coeff_entry(a, k, is, j) * w;
                row.set(s as usize, x);
            }
            j = j + 1;
        }
        proof {
            reveal(slot_sum);
        }
        k = k + 1;
    }
}

/// Effective coefficients of a stage without fast evolution: slot `r` holds
/// the integral over the step of what the stages stored there contribute.
#[verifier::opaque]
pub open spec fn rk_row(
    t: MRIStepCoupling,
    a: Seq<Vec<Vec<sunrealtype>>>,
    is: int,
    map: Seq<i32>,
    n: nat,
    row: Seq<sunrealtype>,
) -> Seq<sunrealtype> {
    let m = if a.len() == 0 {
        0
    } else {
        count(t.nmat)
    };
    Seq::new(
        row.len(),
        |r: int|
            slot_sum(
                if r < t.stages {
                    ZERO()
                } else {
                    row[r]
                },
                a,
                is,
                map,
                r,
                n,
                m,
            ),
    )
}

/// Computes one row of effective coefficients.
fn fill_rk_row(
    t: &MRIStepCoupling,
    a: &Vec<Vec<Vec<sunrealtype>>>,
    is: i32,
    map: &Vec<i32>,
    n: i32,
    row: &mut Vec<sunrealtype>,
)
    ensures
        final(row)@ == rk_row(*t, a@, is as int, map@, count(n), old(row)@),
{
    reveal(rk_row);
    let ghost row0 = row@;
    let mut r: usize = 0;
    let len: usize = row.len();
    while r < len && (r as i64) < t.stages as i64
        invariant
            len == row0.len(),
            row@.len() == row0.len(),
            r <= len,
            forall|i: int|
                0 <= i < row0.len() ==> #[trigger] row@[i] == (if i < r {
                    ZERO()
                } else {
                    row0[i]
                }),
            r == 0 || r <= t.stages,
        decreases len - r,
    {
        row.set(r, ZERO());
        r = r + 1;
    }
    let ghost row1 = row@;
    assert(forall|i: int|
        0 <= i < row0.len() ==> #[trigger] row1[i] == (if i < t.stages {
            ZERO()
        } else {
            row0[i]
        }));
    if a.len() > 0 {
        add_slot_sums(a, is, map, n, t.nmat, row);
    } else {
        reveal(slot_sum);
    }
    assert(row@ =~= rk_row(*t, a@, is as int, map@, count(n), row0));
}

/// The explicit and the implicit row, and a flag.
pub struct RowsOut {
    pub ae: Seq<sunrealtype>,
    pub ai: Seq<sunrealtype>,
    pub flag: i32,
}

/// The smaller of two integers.
pub open spec fn min_of_two(a: int, b: int) -> int {
    if a < b {
        a
    } else {
        b
    }
}

/// Effective coefficients of stage `is`. The stage has to be in the table or
/// to be the one that holds the embedding, and no array may be empty.
#[verifier::opaque]
pub open spec fn rk_coeffs(
    t: MRIStepCoupling,
    is: i32,
    map: Seq<i32>,
    ae: Seq<sunrealtype>,
    ai: Seq<sunrealtype>,
) -> RowsOut {
    if is < 1 || is > t.stages || map.len() == 0 || ae.len() == 0 || ai.len() == 0 {
        RowsOut { ae, ai, flag: ARK_INVALID_TABLE }
    } else {
        let n = min_of_two(is as int, t.stages - 1);
        RowsOut {
            ae: rk_row(t, t.W@, is as int, map, n as nat, ae),
            ai: rk_row(t, t.G@, is as int, map, (n + 1) as nat, ai),
            flag: ARK_SUCCESS,
        }
    }
}

/// Computes the effective coefficients of stage `is`.
pub fn mriStep_RKCoeffs(
    MRIC: &MRIStepCoupling,
    is: i32,
    stage_map: &Vec<i32>,
    Ae_row: &mut Vec<sunrealtype>,
    Ai_row: &mut Vec<sunrealtype>,
) -> (flag: i32)
    ensures
        ({
            let o = rk_coeffs(*MRIC, is, stage_map@, old(Ae_row)@, old(Ai_row)@);
            &&& final(Ae_row)@ == o.ae
            &&& final(Ai_row)@ == o.ai
            &&& flag == o.flag
        }),
{
    reveal(rk_coeffs);
    if is < 1 || is > MRIC.stages || stage_map.len() == 0 || Ae_row.len() == 0 || Ai_row.len() == 0 {
        return ARK_INVALID_TABLE;
    }
    let n: i32 = if is < MRIC.stages - 1 {
        is
    } else {
        MRIC.stages - 1
    };
    fill_rk_row(MRIC, &MRIC.W, is, stage_map, n, Ae_row);
    fill_rk_row(MRIC, &MRIC.G, is, stage_map, n + 1, Ai_row);
    ARK_SUCCESS
}

/// The memory with the rows of effective coefficients of stage `is`.
#[verifier::opaque]
pub open spec fn set_rows(m: MemView, is: i32) -> (MemView, i32) {
    match mri(m).MRIC() {
        None => (m, ARK_INVALID_TABLE),
        Some(t) => {
            let o = rk_coeffs(t, is, mri(m).stage_map(), mri(m).Ae_row(), mri(m).Ai_row());
            (mput_Ai_row(mput_Ae_row(m, o.ae), o.ai), o.flag)
        },
    }
}

/// Stores the effective coefficients of stage `is`.
pub fn mriStep_SetRows(ark_mem: &mut ARKodeMemRec, is: i32) -> (flag: i32)
    ensures
        final(ark_mem)@ == set_rows(old(ark_mem)@, is).0,
        flag == set_rows(old(ark_mem)@, is).1,
{
    reveal(set_rows);
    let map: Vec<i32> = ark_mem.get_stage_map();
    let mut ae: Vec<sunrealtype> = ark_mem.get_Ae_row();
    let mut ai: Vec<sunrealtype> = ark_mem.get_Ai_row();
    let flag: i32 = match ark_mem.table() {
        None => {
            return ARK_INVALID_TABLE;
        },
        Some(t) => mriStep_RKCoeffs(t, is, &map, &mut ae, &mut ai),
    };
    ark_mem.set_Ae_row(ae);
    ark_mem.set_Ai_row(ai);
    flag
}

/// The stored right-hand sides of the first `n` stages, the explicit one of a
/// stage before its implicit one.
#[verifier::opaque]
pub open spec fn stage_vectors(
    ex: bool,
    im: bool,
    map: Seq<i32>,
    fse: Seq<NVec>,
    fsi: Seq<NVec>,
    n: nat,
) -> Seq<NVec>
    decreases n,
{
    if n == 0 {
        Seq::empty()
    } else {
        let p = stage_vectors(ex, im, map, fse, fsi, (n - 1) as nat);
        let s = index_at(map, n - 1);
        let q = if ex && s > -1 {
            p.push(nth(fse, s as int))
        } else {
            p
        };
        if im && s > -1 {
            q.push(nth(fsi, s as int))
        } else {
            q
        }
    }
}

/// Appends the stored right-hand sides of the first `n` stages.
pub fn push_stage_vectors(
    ex: bool,
    im: bool,
    map: &Vec<i32>,
    fse: &Vec<N_Vector>,
    fsi: &Vec<N_Vector>,
    n: i32,
    x: &mut Vec<N_Vector>,
)
    ensures
        nvecs(final(x)@) == nvecs(old(x)@) + stage_vectors(
            ex,
            im,
            map@,
            nvecs(fse@),
            nvecs(fsi@),
            count(n),
        ),
{
    let ghost x0 = nvecs(x@);
    let mut j: i32 = 0;
    proof {
        reveal(stage_vectors);
        assert(nvecs(x@) =~= x0 + Seq::<NVec>::empty());
    }
    while j < n
        invariant
            0 <= j <= count(n),
            nvecs(x@) == x0 + stage_vectors(ex, im, map@, nvecs(fse@), nvecs(fsi@), j as nat),
        decreases n - j,
    {
        reveal(stage_vectors);
        let ghost x1 = nvecs(x@);
        let s: i32 = index_entry(map, j);
        if ex && s > -1 {
            push_vector(x, entry(fse, s));
        }
        if im && s > -1 {
            push_vector(x, entry(fsi, s));
        }
        j = j + 1;
        assert(nvecs(x@) =~= x0 + stage_vectors(
            ex,
            im,
            map@,
            nvecs(fse@),
            nvecs(fsi@),
            j as nat,
        ));
    }
}

/// What the right-hand sides of the first `n` stages are scaled by.
#[verifier::opaque]
pub open spec fn stage_coeffs(
    h: sunrealtype,
    ex: bool,
    im: bool,
    map: Seq<i32>,
    ae: Seq<sunrealtype>,
    ai: Seq<sunrealtype>,
    n: nat,
) -> Seq<sunrealtype>
    decreases n,
{
    if n == 0 {
        Seq::empty()
    } else {
        let p = stage_coeffs(h, ex, im, map, ae, ai, (n - 1) as nat);
        let s = index_at(map, n - 1);
        let q = if ex && s > -1 {
            p.push(r_mul(h, real_at(ae, s as int)))
        } else {
            p
        };
        if im && s > -1 {
            q.push(r_mul(h, real_at(ai, s as int)))
        } else {
            q
        }
    }
}

/// Appends what the right-hand sides of the first `n` stages are scaled by.
pub fn push_stage_coeffs(
    h: sunrealtype,
    ex: bool,
    im: bool,
    map: &Vec<i32>,
    ae: &Vec<sunrealtype>,
    ai: &Vec<sunrealtype>,
    n: i32,
    c: &mut Vec<sunrealtype>,
)
    ensures
        final(c)@ == old(c)@ + stage_coeffs(h, ex, im, map@, ae@, ai@, count(n)),
{
    let ghost c0 = c@;
    let mut j: i32 = 0;
    proof {
        reveal(stage_coeffs);
        assert(c@ =~= c0 + Seq::<sunrealtype>::empty());
    }
    while j < n
        invariant
            0 <= j <= count(n),
            c@ == c0 + stage_coeffs(h, ex, im, map@, ae@, ai@, j as nat),
        decreases n - j,
    {
        reveal(stage_coeffs);
        let s: i32 = index_entry(map, j);
        if ex && s > -1 {
            c.push(h * real_entry(ae, s));
        }
        if im && s > -1 {
            c.push(h * real_entry(ai, s));
        }
        j = j + 1;
        assert(c@ =~= c0 + stage_coeffs(h, ex, im, map@, ae@, ai@, j as nat));
    }
}

/// What the right-hand sides of the first `n` stages contribute to the
/// forcing coefficient of degree `k` of stage `is`.
#[verifier::opaque]
pub open spec fn forcing_row(
    scale: sunrealtype,
    ex: bool,
    im: bool,
    map: Seq<i32>,
    t: MRIStepCoupling,
    k: int,
    is: int,
    n: nat,
) -> Seq<sunrealtype>
    decreases n,
{
    if n == 0 {
        Seq::empty()
    } else {
        let p = forcing_row(scale, ex, im, map, t, k, is, (n - 1) as nat);
        let w = r_mul(scale, coeff(t.W@, k, is, n - 1));
        let g = r_mul(scale, coeff(t.G@, k, is, n - 1));
        if index_at(map, n - 1) <= -1 {
            p
        } else if ex && im {
            p.push(w).push(g)
        } else if ex {
            p.push(w)
        } else {
            p.push(g)
        }
    }
}

/// Rows of different degrees are equally long.
pub proof fn lemma_forcing_row_len(
    scale: sunrealtype,
    ex: bool,
    im: bool,
    map: Seq<i32>,
    t: MRIStepCoupling,
    k: int,
    is: int,
    n: nat,
)
    ensures
        forcing_row(scale, ex, im, map, t, k, is, n).len() == forcing_row(
            scale,
            ex,
            im,
            map,
            t,
            0,
            is,
            n,
        ).len(),
    decreases n,
{
    reveal(forcing_row);
    if n > 0 {
        lemma_forcing_row_len(scale, ex, im, map, t, k, is, (n - 1) as nat);
    }
}

/// Computes a row of forcing coefficients.
pub fn fill_forcing_row(
    scale: sunrealtype,
    ex: bool,
    im: bool,
    map: &Vec<i32>,
    t: &MRIStepCoupling,
    k: i32,
    is: i32,
    n: i32,
) -> (c: Vec<sunrealtype>)
    ensures
        c@ == forcing_row(scale, ex, im, map@, *t, k as int, is as int, count(n)),
{
    let mut c: Vec<sunrealtype> = Vec::new();
    let mut j: i32 = 0;
    proof {
        reveal(forcing_row);
        assert(c@ =~= Seq::<sunrealtype>::empty());
    }
    while j < n
        invariant
            0 <= j <= count(n),
            c@ == forcing_row(scale, ex, im, map@, *t, k as int, is as int, j as nat),
        decreases n - j,
    {
        reveal(forcing_row);
        let s: i32 = index_entry(map, j);
        if s > -1 {
            if ex && im {
                c.push(scale * coeff_entry(&t.W, k, is, j));
                c.push(scale * coeff_entry(&t.G, k, is, j));
            } else if ex {
                c.push(scale * coeff_entry(&t.W, k, is, j));
            } else {
                c.push(scale * coeff_entry(&t.G, k, is, j));
            }
        }
        j = j + 1;
    }
    c
}

} // verus!
