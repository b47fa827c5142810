//! Vectors of real numbers and the operations on them.
//!
//! A vector slot that was never allocated is not `live` and has no
//! components. An operation writes as many components as its destination
//! has; a component that a source lacks reads as zero.
use crate::binary64::{
    r_abs, r_add, r_div, r_eq, r_int, r_le, r_lt, r_mul, r_neg, r_sub, sunrealtype,
};
use crate::arith::{from_int, negate};
use crate::sundials_math::{r_guarded_sqrt, SUNRabs, SUNRsqrt};
use crate::sundials_types::{sunindextype, HALF, ONE, ONE_AND_HALF, SUN_BIG_REAL, ZERO};
use vstd::prelude::*;

verus! {

broadcast use crate::order::group_order;

/// Which operations a vector implementation provides.
#[derive(Clone, Copy, Debug)]
pub struct NVectorOps {
    pub nvclone: bool,
    pub nvdestroy: bool,
    pub nvspace: bool,
    pub nvlinearsum: bool,
    pub nvconst: bool,
    pub nvdiv: bool,
    pub nvscale: bool,
    pub nvabs: bool,
    pub nvinv: bool,
    pub nvaddconst: bool,
    pub nvwrmsnorm: bool,
    pub nvmin: bool,
    pub nvmaxnorm: bool,
}

/// A vector slot.
#[derive(Debug)]
pub struct N_Vector {
    pub live: bool,
    pub ops: NVectorOps,
    pub data: Vec<sunrealtype>,
}

/// One part of a view.
pub struct Part<T> {
    pub v: T,
}

pub open spec fn part<T>(v: T) -> Part<T> {
    Part { v }
}

/// What a vector slot holds.
pub struct NVec {
    pub live: bool,
    pub ops: Part<NVectorOps>,
    pub data: Seq<sunrealtype>,
}

impl NVec {
    pub open spec fn ops(self) -> NVectorOps {
        self.ops.v
    }
}

impl N_Vector {
    /// What the slot holds.
    pub open spec fn view(&self) -> NVec {
        NVec { live: self.live, ops: part(self.ops), data: self.data@ }
    }
}

/// The values of an array of vectors.
pub open spec fn nvecs(v: Seq<N_Vector>) -> Seq<NVec> {
    Seq::new(v.len(), |i: int| v[i]@)
}

/// No operation provided.
#[verifier::allow_in_spec]
pub fn no_ops() -> NVectorOps
    returns
        (NVectorOps {
            nvclone: false,
            nvdestroy: false,
            nvspace: false,
            nvlinearsum: false,
            nvconst: false,
            nvdiv: false,
            nvscale: false,
            nvabs: false,
            nvinv: false,
            nvaddconst: false,
            nvwrmsnorm: false,
            nvmin: false,
            nvmaxnorm: false,
        }),
{
    NVectorOps {
        nvclone: false,
        nvdestroy: false,
        nvspace: false,
        nvlinearsum: false,
        nvconst: false,
        nvdiv: false,
        nvscale: false,
        nvabs: false,
        nvinv: false,
        nvaddconst: false,
        nvwrmsnorm: false,
        nvmin: false,
        nvmaxnorm: false,
    }
}

/// Every operation provided.
#[verifier::allow_in_spec]
pub fn all_ops() -> NVectorOps
    returns
        (NVectorOps {
            nvclone: true,
            nvdestroy: true,
            nvspace: true,
            nvlinearsum: true,
            nvconst: true,
            nvdiv: true,
            nvscale: true,
            nvabs: true,
            nvinv: true,
            nvaddconst: true,
            nvwrmsnorm: true,
            nvmin: true,
            nvmaxnorm: true,
        }),
{
    NVectorOps {
        nvclone: true,
        nvdestroy: true,
        nvspace: true,
        nvlinearsum: true,
        nvconst: true,
        nvdiv: true,
        nvscale: true,
        nvabs: true,
        nvinv: true,
        nvaddconst: true,
        nvwrmsnorm: true,
        nvmin: true,
        nvmaxnorm: true,
    }
}

/// The empty slot.
pub open spec fn v_null() -> NVec {
    NVec { live: false, ops: part(no_ops()), data: Seq::empty() }
}

/// An unallocated slot.
pub fn null_vector() -> (r: N_Vector)
    ensures
        r@ == v_null(),
{
    N_Vector { live: false, ops: no_ops(), data: Vec::new() }
}

/// A vector with the given components and every operation.
pub fn make_vector(data: Vec<sunrealtype>) -> (r: N_Vector)
    ensures
        r@ == (NVec { live: true, ops: part(all_ops()), data: data@ }),
{
    N_Vector { live: true, ops: all_ops(), data }
}

/// Component `i`, zero where there is none.
pub open spec fn at(v: NVec, i: int) -> sunrealtype {
    if 0 <= i < v.data.len() {
        v.data[i]
    } else {
        ZERO()
    }
}

pub fn component(v: &N_Vector, i: usize) -> (r: sunrealtype)
    ensures
        r == at(v@, i as int),
{
    if i < v.data.len() {
        v.data[i]
    } else {
        ZERO()
    }
}

/// `z` with its components replaced by `f`.
#[verifier::opaque]
pub open spec fn v_fill(z: NVec, f: spec_fn(int) -> sunrealtype) -> NVec {
    NVec { data: Seq::new(z.data.len(), f), ..z }
}

/// A copy.
pub fn copy_vector(x: &N_Vector) -> (r: N_Vector)
    ensures
        r@ == x@,
{
    let n: usize = x.data.len();
    let mut data: Vec<sunrealtype> = Vec::new();
    for i in 0..n
        invariant
            n == x.data@.len(),
            data@.len() == i,
            forall|j: int| 0 <= j < i ==> data@[j] == x.data@[j],
    {
        data.push(x.data[i]);
    }
    let r = N_Vector { live: x.live, ops: x.ops, data };
    assert(r@.data =~= x@.data);
    r
}

/// A copy of an array.
pub fn copy_vectors(x: &Vec<N_Vector>) -> (r: Vec<N_Vector>)
    ensures
        nvecs(r@) == nvecs(x@),
{
    let n: usize = x.len();
    let mut out: Vec<N_Vector> = Vec::new();
    for i in 0..n
        invariant
            n == x@.len(),
            out@.len() == i,
            forall|j: int| 0 <= j < i ==> out@[j]@ == x@[j]@,
    {
        out.push(copy_vector(&x[i]));
    }
    assert(nvecs(out@) =~= nvecs(x@));
    out
}

/// Entry `i` of an array of vectors, the empty slot where there is none.
pub open spec fn nth(v: Seq<NVec>, i: int) -> NVec {
    if 0 <= i < v.len() {
        v[i]
    } else {
        v_null()
    }
}

pub fn entry(v: &Vec<N_Vector>, i: i32) -> (r: N_Vector)
    ensures
        r@ == nth(nvecs(v@), i as int),
{
    if i >= 0 && (i as usize) < v.len() {
        copy_vector(&v[i as usize])
    } else {
        null_vector()
    }
}

/// The array with entry `i` replaced where it exists.
pub open spec fn put(v: Seq<NVec>, i: int, x: NVec) -> Seq<NVec> {
    if 0 <= i < v.len() {
        v.update(i, x)
    } else {
        v
    }
}

pub fn set_entry(v: &mut Vec<N_Vector>, i: i32, x: N_Vector)
    ensures
        nvecs(final(v)@) == put(nvecs(old(v)@), i as int, x@),
{
    if i >= 0 && (i as usize) < v.len() {
        v.set(i as usize, x);
        assert(nvecs(v@) =~= put(nvecs(old(v)@), i as int, x@));
    }
}

/// A vector like `tmpl`, all zero.
#[verifier::opaque]
pub open spec fn v_clone(tmpl: NVec) -> NVec {
    NVec { live: true, ..v_const(ZERO(), tmpl) }
}

pub fn N_VClone(tmpl: &N_Vector) -> (r: N_Vector)
    ensures
        r@ == v_clone(tmpl@),
{
    reveal(v_clone);
    let mut r: N_Vector = N_VConst(ZERO(), tmpl);
    r.live = true;
    r
}

/// Storage of one vector: real words, then integer words.
pub open spec fn v_space(x: NVec) -> (sunindextype, sunindextype) {
    (x.data.len() as i64, 1)
}

pub fn N_VSpace(x: &N_Vector) -> (r: (sunindextype, sunindextype))
    ensures
        r == v_space(x@),
{
    (x.data.len() as i64, 1)
}

/// `c` in every component.
#[verifier::opaque]
pub open spec fn v_const(c: sunrealtype, z: NVec) -> NVec {
    v_fill(z, |i: int| c)
}

pub fn N_VConst(c: sunrealtype, z: &N_Vector) -> (r: N_Vector)
    ensures
        r@ == v_const(c, z@),
{
    reveal(v_const);
    reveal(v_fill);
    let n: usize = z.data.len();
    let mut data: Vec<sunrealtype> = Vec::new();
    for i in 0..n
        invariant
            data@.len() == i,
            forall|j: int| 0 <= j < i ==> data@[j] == c,
    {
        data.push(c);
    }
    let r = N_Vector { live: z.live, ops: z.ops, data };
    assert(r@.data =~= v_const(c, z@).data);
    r
}

/// `c x`; a factor of one copies and of minus one negates.
#[verifier::opaque]
pub open spec fn scaled_by(c: sunrealtype, x: sunrealtype) -> sunrealtype {
    if r_eq(c, ONE()) {
        x
    } else if r_eq(c, r_neg(ONE())) {
        r_neg(x)
    } else {
        r_mul(c, x)
    }
}

pub fn scale_one(c: sunrealtype, x: sunrealtype) -> (r: sunrealtype)
    ensures
        r == scaled_by(c, x),
{
    reveal(scaled_by);
    if c == ONE() {
        x
    } else if c == negate(ONE()) {
        negate(x)
    } else {
        c * x
    }
}

/// `z = c x`.
#[verifier::opaque]
pub open spec fn v_scale(c: sunrealtype, x: NVec, z: NVec) -> NVec {
    v_fill(z, |i: int| scaled_by(c, at(x, i)))
}

pub fn N_VScale(c: sunrealtype, x: &N_Vector, z: &N_Vector) -> (r: N_Vector)
    ensures
        r@ == v_scale(c, x@, z@),
{
    reveal(v_scale);
    reveal(v_fill);
    let n: usize = z.data.len();
    let mut data: Vec<sunrealtype> = Vec::new();
    for i in 0..n
        invariant
            data@.len() == i,
            forall|j: int| 0 <= j < i ==> data@[j] == scaled_by(c, at(x@, j)),
    {
        data.push(scale_one(c, component(x, i)));
    }
    let r = N_Vector { live: z.live, ops: z.ops, data };
    assert(r@.data =~= v_scale(c, x@, z@).data);
    r
}

/// `a x + b y`; equal or opposite factors are applied to the sum or difference.
#[verifier::opaque]
pub open spec fn lin(a: sunrealtype, x: sunrealtype, b: sunrealtype, y: sunrealtype) -> sunrealtype {
    if r_eq(a, b) {
        r_mul(a, r_add(x, y))
    } else if r_eq(a, r_neg(b)) {
        r_mul(a, r_sub(x, y))
    } else {
        r_add(r_mul(a, x), r_mul(b, y))
    }
}

pub fn lin_one(a: sunrealtype, x: sunrealtype, b: sunrealtype, y: sunrealtype) -> (r: sunrealtype)
    ensures
        r == lin(a, x, b, y),
{
    reveal(lin);
    if a == b {
        a * (x + y)
    } else if a == negate(b) {
        a * (x - y)
    } else {
        a * x + b * y
    }
}

/// `z = a x + b y`.
#[verifier::opaque]
pub open spec fn v_lin(a: sunrealtype, x: NVec, b: sunrealtype, y: NVec, z: NVec) -> NVec {
    v_fill(z, |i: int| lin(a, at(x, i), b, at(y, i)))
}

pub fn N_VLinearSum(
    a: sunrealtype,
    x: &N_Vector,
    b: sunrealtype,
    y: &N_Vector,
    z: &N_Vector,
) -> (r: N_Vector)
    ensures
        r@ == v_lin(a, x@, b, y@, z@),
{
    reveal(v_lin);
    reveal(v_fill);
    let n: usize = z.data.len();
    let mut data: Vec<sunrealtype> = Vec::new();
    for i in 0..n
        invariant
            data@.len() == i,
            forall|j: int| 0 <= j < i ==> data@[j] == lin(a, at(x@, j), b, at(y@, j)),
    {
        data.push(lin_one(a, component(x, i), b, component(y, i)));
    }
    let r = N_Vector { live: z.live, ops: z.ops, data };
    assert(r@.data =~= v_lin(a, x@, b, y@, z@).data);
    r
}

/// `z = |x|`.
#[verifier::opaque]
pub open spec fn v_abs(x: NVec, z: NVec) -> NVec {
    v_fill(z, |i: int| r_abs(at(x, i)))
}

pub fn N_VAbs(x: &N_Vector, z: &N_Vector) -> (r: N_Vector)
    ensures
        r@ == v_abs(x@, z@),
{
    reveal(v_abs);
    reveal(v_fill);
    let n: usize = z.data.len();
    let mut data: Vec<sunrealtype> = Vec::new();
    for i in 0..n
        invariant
            data@.len() == i,
            forall|j: int| 0 <= j < i ==> data@[j] == r_abs(at(x@, j)),
    {
        data.push(SUNRabs(component(x, i)));
    }
    let r = N_Vector { live: z.live, ops: z.ops, data };
    assert(r@.data =~= v_abs(x@, z@).data);
    r
}

/// `z = 1 / x`.
#[verifier::opaque]
pub open spec fn v_inv(x: NVec, z: NVec) -> NVec {
    v_fill(z, |i: int| r_div(ONE(), at(x, i)))
}

pub fn N_VInv(x: &N_Vector, z: &N_Vector) -> (r: N_Vector)
    ensures
        r@ == v_inv(x@, z@),
{
    reveal(v_inv);
    reveal(v_fill);
    let n: usize = z.data.len();
    let mut data: Vec<sunrealtype> = Vec::new();
    for i in 0..n
        invariant
            data@.len() == i,
            forall|j: int| 0 <= j < i ==> data@[j] == r_div(ONE(), at(x@, j)),
    {
        data.push(ONE() / component(x, i));
    }
    let r = N_Vector { live: z.live, ops: z.ops, data };
    assert(r@.data =~= v_inv(x@, z@).data);
    r
}

/// `z = x + b`.
#[verifier::opaque]
pub open spec fn v_addconst(x: NVec, b: sunrealtype, z: NVec) -> NVec {
    v_fill(z, |i: int| r_add(at(x, i), b))
}

pub fn N_VAddConst(x: &N_Vector, b: sunrealtype, z: &N_Vector) -> (r: N_Vector)
    ensures
        r@ == v_addconst(x@, b, z@),
{
    reveal(v_addconst);
    reveal(v_fill);
    let n: usize = z.data.len();
    let mut data: Vec<sunrealtype> = Vec::new();
    for i in 0..n
        invariant
            data@.len() == i,
            forall|j: int| 0 <= j < i ==> data@[j] == r_add(at(x@, j), b),
    {
        data.push(component(x, i) + b);
    }
    let r = N_Vector { live: z.live, ops: z.ops, data };
    assert(r@.data =~= v_addconst(x@, b, z@).data);
    r
}

/// `z = x / y`.
#[verifier::opaque]
pub open spec fn v_div(x: NVec, y: NVec, z: NVec) -> NVec {
    v_fill(z, |i: int| r_div(at(x, i), at(y, i)))
}

pub fn N_VDiv(x: &N_Vector, y: &N_Vector, z: &N_Vector) -> (r: N_Vector)
    ensures
        r@ == v_div(x@, y@, z@),
{
    reveal(v_div);
    reveal(v_fill);
    let n: usize = z.data.len();
    let mut data: Vec<sunrealtype> = Vec::new();
    for i in 0..n
        invariant
            data@.len() == i,
            forall|j: int| 0 <= j < i ==> data@[j] == r_div(at(x@, j), at(y@, j)),
    {
        data.push(component(x, i) / component(y, i));
    }
    let r = N_Vector { live: z.live, ops: z.ops, data };
    assert(r@.data =~= v_div(x@, y@, z@).data);
    r
}

/// `z = x y`, component by component.
#[verifier::opaque]
pub open spec fn v_prod(x: NVec, y: NVec, z: NVec) -> NVec {
    v_fill(z, |i: int| r_mul(at(x, i), at(y, i)))
}

pub fn N_VProd(x: &N_Vector, y: &N_Vector, z: &N_Vector) -> (r: N_Vector)
    ensures
        r@ == v_prod(x@, y@, z@),
{
    reveal(v_prod);
    reveal(v_fill);
    let n: usize = z.data.len();
    let mut data: Vec<sunrealtype> = Vec::new();
    for i in 0..n
        invariant
            data@.len() == i,
            forall|j: int| 0 <= j < i ==> data@[j] == r_mul(at(x@, j), at(y@, j)),
    {
        data.push(component(x, i) * component(y, i));
    }
    let r = N_Vector { live: z.live, ops: z.ops, data };
    assert(r@.data =~= v_prod(x@, y@, z@).data);
    r
}

/// Smallest of the first `n` components, starting from component zero.
#[verifier::opaque]
pub open spec fn min_of(x: NVec, n: nat) -> sunrealtype
    decreases n,
{
    if n <= 1 {
        at(x, 0)
    } else {
        let m = min_of(x, (n - 1) as nat);
        if r_lt(at(x, n - 1), m) {
            at(x, n - 1)
        } else {
            m
        }
    }
}

/// Smallest component.
pub fn N_VMin(x: &N_Vector) -> (r: sunrealtype)
    ensures
        r == min_of(x@, x@.data.len()),
{
    reveal(min_of);
    let n: usize = x.data.len();
    let mut m: sunrealtype = component(x, 0);
    let mut i: usize = 1;
    while i < n
        invariant
            n == x@.data.len(),
            1 <= i,
            i <= n || i == 1,
            m == min_of(x@, i as nat),
        decreases n - i,
    {
        reveal(min_of);
        let c: sunrealtype = component(x, i);
        if c < m {
            m = c;
        }
        i = i + 1;
    }
    m
}

/// Largest magnitude among the first `n` components.
#[verifier::opaque]
pub open spec fn max_abs(x: NVec, n: nat) -> sunrealtype
    decreases n,
{
    if n == 0 {
        ZERO()
    } else {
        let m = max_abs(x, (n - 1) as nat);
        if r_lt(m, r_abs(at(x, n - 1))) {
            r_abs(at(x, n - 1))
        } else {
            m
        }
    }
}

/// Largest magnitude.
pub fn N_VMaxNorm(x: &N_Vector) -> (r: sunrealtype)
    ensures
        r == max_abs(x@, x@.data.len()),
{
    reveal(max_abs);
    let n: usize = x.data.len();
    let mut m: sunrealtype = ZERO();
    for i in 0..n
        invariant
            n == x@.data.len(),
            m == max_abs(x@, i as nat),
    {
        reveal(max_abs);
        let c: sunrealtype = SUNRabs(component(x, i));
        if c > m {
            m = c;
        }
    }
    m
}

/// Sum of the squared weighted components.
#[verifier::opaque]
pub open spec fn sum_squares(x: NVec, w: NVec, n: nat) -> sunrealtype
    decreases n,
{
    if n == 0 {
        ZERO()
    } else {
        let p = r_mul(at(x, n - 1), at(w, n - 1));
        r_add(sum_squares(x, w, (n - 1) as nat), r_mul(p, p))
    }
}

/// Weighted root mean square norm.
#[verifier::opaque]
pub open spec fn v_wrms(x: NVec, w: NVec) -> sunrealtype {
    r_guarded_sqrt(r_div(sum_squares(x, w, x.data.len()), r_int(x.data.len() as i64 as int)))
}

pub fn N_VWrmsNorm(x: &N_Vector, w: &N_Vector) -> (r: sunrealtype)
    ensures
        r == v_wrms(x@, w@),
{
    reveal(v_wrms);
    reveal(sum_squares);
    let n: usize = x.data.len();
    let mut s: sunrealtype = ZERO();
    for i in 0..n
        invariant
            n == x@.data.len(),
            s == sum_squares(x@, w@, i as nat),
    {
        reveal(sum_squares);
        let p: sunrealtype = component(x, i) * component(w, i);
        s = s + p * p;
    }
    SUNRsqrt(s / from_int(n as i64))
}

/// Component `i` of the sum of the first `n` scaled vectors.
#[verifier::opaque]
pub open spec fn comb_at(c: Seq<sunrealtype>, x: Seq<NVec>, n: nat, i: int) -> sunrealtype
    decreases n,
{
    if n == 0 {
        ZERO()
    } else if n == 1 {
        scaled_by(c[0], at(nth(x, 0), i))
    } else if n == 2 && c.len() == 2 {
        lin(c[0], at(nth(x, 0), i), c[1], at(nth(x, 1), i))
    } else {
        r_add(comb_at(c, x, (n - 1) as nat, i), r_mul(c[n - 1], at(nth(x, n - 1), i)))
    }
}

/// `z = sum c[j] x[j]`, added from the left.
#[verifier::opaque]
pub open spec fn v_comb(c: Seq<sunrealtype>, x: Seq<NVec>, z: NVec) -> NVec {
    if c.len() == 0 {
        z
    } else {
        v_fill(z, |i: int| comb_at(c, x, c.len(), i))
    }
}

/// Zero, or a failure when there is nothing to combine.
pub open spec fn comb_flag(c: Seq<sunrealtype>) -> i32 {
    if c.len() == 0 {
        (-1) as i32
    } else {
        0
    }
}

pub fn N_VLinearCombination(c: &Vec<sunrealtype>, x: &Vec<N_Vector>, z: &N_Vector) -> (r: (
    N_Vector,
    i32,
))
    ensures
        r.0@ == v_comb(c@, nvecs(x@), z@),
        r.1 == comb_flag(c@),
{
    reveal(v_comb);
    reveal(comb_at);
    reveal(v_fill);
    let m: usize = c.len();
    if m == 0 {
        return (copy_vector(z), -1);
    }
    let n: usize = z.data.len();
    let nv: usize = x.len();
    let mut data: Vec<sunrealtype> = Vec::new();
    for i in 0..n
        invariant
            m == c@.len(),
            m > 0,
            nv == x@.len(),
            data@.len() == i,
            forall|j: int| 0 <= j < i ==> data@[j] == comb_at(c@, nvecs(x@), m as nat, j),
    {
        reveal(comb_at);
        let x0: sunrealtype = if nv > 0 {
            component(&x[0], i)
        } else {
            ZERO()
        };
        assert(x0 == at(nth(nvecs(x@), 0), i as int));
        let mut s: sunrealtype;
        if m == 2 {
            let x1: sunrealtype = if nv > 1 {
                component(&x[1], i)
            } else {
                ZERO()
            };
            assert(x1 == at(nth(nvecs(x@), 1), i as int));
            s = lin_one(c[0], x0, c[1], x1);
        } else {
            s = scale_one(c[0], x0);
            let mut k: usize = 1;
            while k < m
                invariant
                    m == c@.len(),
                    m != 2,
                    1 <= k <= m,
                    nv == x@.len(),
                    s == comb_at(c@, nvecs(x@), k as nat, i as int),
                decreases m - k,
            {
                reveal(comb_at);
                let xk: sunrealtype = if k < nv {
                    component(&x[k], i)
                } else {
                    ZERO()
                };
                assert(xk == at(nth(nvecs(x@), k as int), i as int));
                s = s + c[k] * xk;
                k = k + 1;
            }
        }
        data.push(s);
    }
    let r = N_Vector { live: z.live, ops: z.ops, data };
    assert(r@.data =~= v_comb(c@, nvecs(x@), z@).data);
    (r, 0)
}

/// Whether component value `x` breaks the constraint `c`: two in magnitude
/// asks for a strict sign, one for a sign or zero.
#[verifier::opaque]
pub open spec fn violates(c: sunrealtype, x: sunrealtype) -> bool {
    !r_eq(c, ZERO()) && ((r_lt(ONE_AND_HALF(), r_abs(c)) && r_le(r_mul(x, c), ZERO())) || (r_lt(
        HALF(),
        r_abs(c),
    ) && r_lt(r_mul(x, c), ZERO())))
}

/// One where the constraint is broken, zero elsewhere.
#[verifier::opaque]
pub open spec fn v_mask(c: NVec, x: NVec, m: NVec) -> NVec {
    v_fill(
        m,
        |i: int|
            if violates(at(c, i), at(x, i)) {
                ONE()
            } else {
                ZERO()
            },
    )
}

/// Whether none of the first `n` constraints is broken.
#[verifier::opaque]
pub open spec fn all_hold(c: NVec, x: NVec, n: nat) -> bool
    decreases n,
{
    n == 0 || (all_hold(c, x, (n - 1) as nat) && !violates(at(c, n - 1), at(x, n - 1)))
}

pub fn N_VConstrMask(c: &N_Vector, x: &N_Vector, m: &N_Vector) -> (r: (N_Vector, bool))
    ensures
        r.0@ == v_mask(c@, x@, m@),
        r.1 == all_hold(c@, x@, m@.data.len()),
{
    reveal(v_mask);
    reveal(all_hold);
    reveal(violates);
    reveal(v_fill);
        let n: usize = m.data.len();
    let mut data: Vec<sunrealtype> = Vec::new();
    let mut ok: bool = true;
    for i in 0..n
        invariant
            data@.len() == i,
            ok == all_hold(c@, x@, i as nat),
            forall|j: int|
                0 <= j < i ==> data@[j] == if violates(at(c@, j), at(x@, j)) {
                    ONE()
                } else {
                    ZERO()
                },
    {
        reveal(all_hold);
        reveal(violates);
        let ci: sunrealtype = component(c, i);
        let xi: sunrealtype = component(x, i);
        let bad: bool = !(ci == ZERO()) && ((SUNRabs(ci) > ONE_AND_HALF() && xi * ci <= ZERO()) || (
        SUNRabs(ci) > HALF() && xi * ci < ZERO()));
        if bad {
            ok = false;
            data.push(ONE());
        } else {
            data.push(ZERO());
        }
    }
    let r = N_Vector { live: m.live, ops: m.ops, data };
    assert(r@.data =~= v_mask(c@, x@, m@).data);
    (r, ok)
}

/// Smallest quotient over the first `n` components with a nonzero
/// denominator; the largest finite number where there is none.
#[verifier::opaque]
pub open spec fn min_quotient(x: NVec, y: NVec, n: nat) -> sunrealtype
    decreases n,
{
    if n == 0 {
        SUN_BIG_REAL()
    } else {
        let m = min_quotient(x, y, (n - 1) as nat);
        let q = r_div(at(x, n - 1), at(y, n - 1));
        if r_eq(at(y, n - 1), ZERO()) {
            m
        } else if r_lt(q, m) {
            q
        } else {
            m
        }
    }
}

pub fn N_VMinQuotient(x: &N_Vector, y: &N_Vector) -> (r: sunrealtype)
    ensures
        r == min_quotient(x@, y@, x@.data.len()),
{
    reveal(min_quotient);
    let n: usize = x.data.len();
    let mut m: sunrealtype = SUN_BIG_REAL();
    for i in 0..n
        invariant
            n == x@.data.len(),
            m == min_quotient(x@, y@, i as nat),
    {
        reveal(min_quotient);
        let d: sunrealtype = component(y, i);
        if !(d == ZERO()) {
            let q: sunrealtype = component(x, i) / d;
            if q < m {
                m = q;
            }
        }
    }
    m
}

/// Appends a vector to an array.
pub fn push_vector(v: &mut Vec<N_Vector>, x: N_Vector)
    ensures
        nvecs(final(v)@) == nvecs(old(v)@).push(x@),
{
    v.push(x);
    assert(nvecs(v@) =~= nvecs(old(v)@).push(x@));
}

/// An empty array of vectors.
pub fn no_vectors() -> (r: Vec<N_Vector>)
    ensures
        nvecs(r@) == Seq::<NVec>::empty(),
{
    let v: Vec<N_Vector> = Vec::new();
    assert(nvecs(v@) =~= Seq::<NVec>::empty());
    v
}

} // verus!
