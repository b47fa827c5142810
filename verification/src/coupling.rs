//! Slow-to-fast coupling tables.
use crate::binary64::sunrealtype;
use crate::sundials_types::ZERO;
use vstd::prelude::*;

verus! {

/// The kind of method that a coupling table describes.
#[derive(Clone, Copy, Debug, PartialEq, Eq, Structural)]
pub enum MRISTEP_METHOD_TYPE {
    MRISTEP_EXPLICIT,
    MRISTEP_IMPLICIT,
    MRISTEP_IMEX,
    MRISTEP_MERK,
    MRISTEP_SR,
}

/// The tables that stand for an order and a kind of problem when the user
/// chose none; those ending in `AD` are for steps of variable size.
#[derive(Clone, Copy, Debug, PartialEq, Eq, Structural)]
pub enum MRIDefaultTable {
    MRISTEP_DEFAULT_EXPL_1,
    MRISTEP_DEFAULT_EXPL_2,
    MRISTEP_DEFAULT_EXPL_3,
    MRISTEP_DEFAULT_EXPL_4,
    MRISTEP_DEFAULT_EXPL_2_AD,
    MRISTEP_DEFAULT_EXPL_3_AD,
    MRISTEP_DEFAULT_EXPL_4_AD,
    MRISTEP_DEFAULT_EXPL_5_AD,
    MRISTEP_DEFAULT_IMPL_SD_1,
    MRISTEP_DEFAULT_IMPL_SD_2,
    MRISTEP_DEFAULT_IMPL_SD_3,
    MRISTEP_DEFAULT_IMPL_SD_4,
    MRISTEP_DEFAULT_IMEX_SD_1,
    MRISTEP_DEFAULT_IMEX_SD_2,
    MRISTEP_DEFAULT_IMEX_SD_3,
    MRISTEP_DEFAULT_IMEX_SD_4,
    MRISTEP_DEFAULT_IMEX_SD_2_AD,
    MRISTEP_DEFAULT_IMEX_SD_3_AD,
    MRISTEP_DEFAULT_IMEX_SD_4_AD,
}

/// A coupling table: explicit coefficients `W`, implicit coefficients `G`
/// (empty where the method has none), abscissae `c`, and for exponential
/// methods the groups of stages that share one fast evolution.
#[derive(Debug)]
pub struct MRIStepCoupling {
    pub type_: MRISTEP_METHOD_TYPE,
    pub nmat: i32,
    pub stages: i32,
    pub q: i32,
    pub p: i32,
    pub c: Vec<sunrealtype>,
    pub W: Vec<Vec<Vec<sunrealtype>>>,
    pub G: Vec<Vec<Vec<sunrealtype>>>,
    pub ngroup: i32,
    pub group: Vec<Vec<i32>>,
}

/// Entry `i` of a list of numbers, zero where there is none.
#[verifier::opaque]
pub open spec fn real_at(s: Seq<sunrealtype>, i: int) -> sunrealtype {
    if 0 <= i < s.len() {
        s[i]
    } else {
        ZERO()
    }
}

/// Entry `i` of a list of numbers, zero where there is none.
pub fn real_entry(v: &Vec<sunrealtype>, i: i32) -> (r: sunrealtype)
    ensures
        r == real_at(v@, i as int),
{
    reveal(real_at);
    if i >= 0 && (i as usize) < v.len() {
        v[i as usize]
    } else {
        ZERO()
    }
}

/// Entry `i` of a list of indices, minus one where there is none.
#[verifier::opaque]
pub open spec fn index_at(s: Seq<i32>, i: int) -> i32 {
    if 0 <= i < s.len() {
        s[i]
    } else {
        (-1) as i32
    }
}

/// Entry `i` of a list of indices, minus one where there is none.
pub fn index_entry(v: &Vec<i32>, i: i32) -> (r: i32)
    ensures
        r == index_at(v@, i as int),
{
    reveal(index_at);
    if i >= 0 && (i as usize) < v.len() {
        v[i as usize]
    } else {
        -1
    }
}

/// Coefficient `j` of stage `i` in matrix `k`, zero where there is none.
#[verifier::opaque]
pub open spec fn coeff(a: Seq<Vec<Vec<sunrealtype>>>, k: int, i: int, j: int) -> sunrealtype {
    if 0 <= k < a.len() && 0 <= i < a[k]@.len() && 0 <= j < a[k]@[i]@.len() {
        a[k]@[i]@[j]
    } else {
        ZERO()
    }
}

/// Coefficient `j` of stage `i` in matrix `k`, zero where there is none.
pub fn coeff_entry(a: &Vec<Vec<Vec<sunrealtype>>>, k: i32, i: i32, j: i32) -> (r: sunrealtype)
    ensures
        r == coeff(a@, k as int, i as int, j as int),
{
    reveal(coeff);
    if k >= 0 && (k as usize) < a.len() {
        let b: &Vec<Vec<sunrealtype>> = &a[k as usize];
        if i >= 0 && (i as usize) < b.len() {
            let c: &Vec<sunrealtype> = &b[i as usize];
            if j >= 0 && (j as usize) < c.len() {
                return c[j as usize];
            }
        }
    }
    ZERO()
}

/// Member `j` of stage group `i`, minus one where there is none.
#[verifier::opaque]
pub open spec fn group_at(g: Seq<Vec<i32>>, i: int, j: int) -> i32 {
    if 0 <= i < g.len() {
        index_at(g[i]@, j)
    } else {
        (-1) as i32
    }
}

/// Member `j` of stage group `i`, minus one where there is none.
pub fn group_entry(g: &Vec<Vec<i32>>, i: i32, j: i32) -> (r: i32)
    ensures
        r == group_at(g@, i as int, j as int),
{
    reveal(group_at);
    if i >= 0 && (i as usize) < g.len() {
        index_entry(&g[i as usize], j)
    } else {
        -1
    }
}

/// A count, none where it is negative.
pub open spec fn count(n: i32) -> nat {
    if n > 0 {
        n as nat
    } else {
        0
    }
}

} // verus!
