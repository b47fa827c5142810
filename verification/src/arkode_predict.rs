//! Interpolated output and predictions of implicit stages.
use crate::arith::negate;
use crate::arkode_codes::{
    ARK_BAD_T, ARK_INTERP_MAX_DEGREE, ARK_MEM_NULL, ARK_SUCCESS, ARK_VECTOROP_ERR, FUZZ_FACTOR,
    THREE_QUARTERS,
};
use crate::arkode_impl::{ARKodeMemRec, ArkStep, MemView};
use crate::binary64::{r_abs, r_add, r_div, r_le, r_lt, r_mul, r_neg, r_sub, sunrealtype};
use crate::env::{ArkEnv, ModuleCall};
use crate::nvector::{NVec, N_VLinearCombination, N_Vector, copy_vector, nvecs, v_comb};
use crate::outcome::{call_module_vec, module_vec, RunV};
use crate::sundials_math::SUNRabs;
use crate::sundials_types::{HALF, ONE, TWO, ZERO};
use vstd::prelude::*;

verus! {

broadcast use crate::order::group_order;

/// The window in which output can be interpolated: the last step, with some
/// slack for roundoff.
pub open spec fn dky_outside(s: ArkStep, uround: sunrealtype, t: sunrealtype) -> bool {
    let fuzz = r_mul(r_mul(FUZZ_FACTOR(), uround), r_add(r_abs(s.tcur), r_abs(s.hold)));
    let slack = if r_lt(s.hold, ZERO()) {
        r_neg(fuzz)
    } else {
        fuzz
    };
    let tp = r_sub(r_sub(s.tcur, s.hold), slack);
    let tn1 = r_add(s.tcur, slack);
    r_lt(ZERO(), r_mul(r_sub(t, tp), r_sub(t, tn1)))
}

fn is_outside(s: ArkStep, uround: sunrealtype, t: sunrealtype) -> (r: bool)
    ensures
        r == dky_outside(s, uround, t),
{
    let fuzz: sunrealtype = FUZZ_FACTOR() * uround * (SUNRabs(s.tcur) + SUNRabs(s.hold));
    let slack: sunrealtype = if s.hold < ZERO() {
        negate(fuzz)
    } else {
        fuzz
    };
    let tp: sunrealtype = s.tcur - s.hold - slack;
    let tn1: sunrealtype = s.tcur + slack;
    (t - tp) * (t - tn1) > ZERO()
}

/// Interpolation at scaled time `tau`.
pub open spec fn interpolate<E: ArkEnv>(
    m: MemView,
    e: E,
    tau: sunrealtype,
    k: i32,
    degree: i32,
    y: NVec,
) -> RunV<E> {
    module_vec(m, e, ModuleCall::InterpEvaluate { tau, k, degree }, y)
}

/// Derivative `k` of the interpolated solution at `t`. Fails without an
/// interpolation module and outside the last step.
#[verifier::opaque]
pub open spec fn get_dky<E: ArkEnv>(m: MemView, e: E, t: sunrealtype, k: i32, dky: NVec) -> RunV<E> {
    if !m.att().interp {
        RunV { m, e, v: dky, flag: ARK_MEM_NULL }
    } else if dky_outside(m.stp(), m.lim().uround, t) {
        RunV { m, e, v: dky, flag: ARK_BAD_T }
    } else {
        interpolate(
            m,
            e,
            r_div(r_sub(t, m.stp().tcur), m.stp().h),
            k,
            ARK_INTERP_MAX_DEGREE,
            dky,
        )
    }
}

/// Evaluates a derivative of the interpolated solution.
pub fn ARKodeGetDky<E: ArkEnv>(
    ark_mem: &mut ARKodeMemRec,
    env: &mut E,
    t: sunrealtype,
    k: i32,
    dky: &mut N_Vector,
) -> (flag: i32)
    ensures
        ({
            let o = get_dky(old(ark_mem)@, *old(env), t, k, old(dky)@);
            &&& final(ark_mem)@ == o.m
            &&& *final(env) == o.e
            &&& final(dky)@ == o.v
            &&& flag == o.flag
        }),
{
    reveal(get_dky);
    if !ark_mem.get_att().interp {
        return ARK_MEM_NULL;
    }
    let s: ArkStep = ark_mem.get_stp();
    if is_outside(s, ark_mem.get_lim().uround, t) {
        return ARK_BAD_T;
    }
    let tau: sunrealtype = (t - s.tcur) / s.h;
    call_module_vec(
        ark_mem,
        env,
        ModuleCall::InterpEvaluate { tau, k, degree: ARK_INTERP_MAX_DEGREE },
        dky,
    )
}

/// Prediction by the interpolant of a given degree.
pub open spec fn predict<E: ArkEnv>(m: MemView, e: E, tau: sunrealtype, degree: i32, y: NVec) -> RunV<
    E,
> {
    if !m.att().interp {
        RunV { m, e, v: y, flag: ARK_MEM_NULL }
    } else {
        interpolate(m, e, tau, 0, degree, y)
    }
}

fn predict_with<E: ArkEnv>(
    ark_mem: &mut ARKodeMemRec,
    env: &mut E,
    tau: sunrealtype,
    degree: i32,
    yguess: &mut N_Vector,
) -> (flag: i32)
    ensures
        ({
            let o = predict(old(ark_mem)@, *old(env), tau, degree, old(yguess)@);
            &&& final(ark_mem)@ == o.m
            &&& *final(env) == o.e
            &&& final(yguess)@ == o.v
            &&& flag == o.flag
        }),
{
    if !ark_mem.get_att().interp {
        return ARK_MEM_NULL;
    }
    call_module_vec(ark_mem, env, ModuleCall::InterpEvaluate { tau, k: 0, degree }, yguess)
}

/// Predicts with the highest degree there is.
pub fn arkPredict_MaximumOrder<E: ArkEnv>(
    ark_mem: &mut ARKodeMemRec,
    env: &mut E,
    tau: sunrealtype,
    yguess: &mut N_Vector,
) -> (flag: i32)
    ensures
        ({
            let o = predict(old(ark_mem)@, *old(env), tau, ARK_INTERP_MAX_DEGREE, old(yguess)@);
            &&& final(ark_mem)@ == o.m
            &&& *final(env) == o.e
            &&& final(yguess)@ == o.v
            &&& flag == o.flag
        }),
{
    predict_with(ark_mem, env, tau, ARK_INTERP_MAX_DEGREE, yguess)
}

/// Degree that falls as the extrapolation reaches further.
pub open spec fn variable_degree(tau: sunrealtype) -> i32 {
    if r_le(tau, HALF()) {
        3
    } else if r_le(tau, THREE_QUARTERS()) {
        2
    } else {
        1
    }
}

/// Predicts with a degree that falls as the extrapolation reaches further.
pub fn arkPredict_VariableOrder<E: ArkEnv>(
    ark_mem: &mut ARKodeMemRec,
    env: &mut E,
    tau: sunrealtype,
    yguess: &mut N_Vector,
) -> (flag: i32)
    ensures
        ({
            let o = predict(old(ark_mem)@, *old(env), tau, variable_degree(tau), old(yguess)@);
            &&& final(ark_mem)@ == o.m
            &&& *final(env) == o.e
            &&& final(yguess)@ == o.v
            &&& flag == o.flag
        }),
{
    let ord: i32 = if tau <= HALF() {
        3
    } else if tau <= THREE_QUARTERS() {
        2
    } else {
        1
    };
    predict_with(ark_mem, env, tau, ord, yguess)
}

/// Highest degree close to the last step, linear further away.
pub open spec fn cutoff_degree(tau: sunrealtype) -> i32 {
    if r_le(tau, HALF()) {
        ARK_INTERP_MAX_DEGREE
    } else {
        1
    }
}

/// Predicts with the highest degree close to the last step and linearly
/// further away.
pub fn arkPredict_CutoffOrder<E: ArkEnv>(
    ark_mem: &mut ARKodeMemRec,
    env: &mut E,
    tau: sunrealtype,
    yguess: &mut N_Vector,
) -> (flag: i32)
    ensures
        ({
            let o = predict(old(ark_mem)@, *old(env), tau, cutoff_degree(tau), old(yguess)@);
            &&& final(ark_mem)@ == o.m
            &&& *final(env) == o.e
            &&& final(yguess)@ == o.v
            &&& flag == o.flag
        }),
{
    let ord: i32 = if tau <= HALF() {
        ARK_INTERP_MAX_DEGREE
    } else {
        1
    };
    predict_with(ark_mem, env, tau, ord, yguess)
}

/// The coefficients of the slopes at the start of the step and at a later stage
/// in the quadratic through the solution and these slopes.
pub open spec fn hermite(hj: sunrealtype, tau: sunrealtype) -> (sunrealtype, sunrealtype) {
    let a2 = r_div(r_div(r_mul(tau, tau), TWO()), hj);
    (r_sub(tau, a2), a2)
}

/// Coefficient `i` after a list is moved up by two places and scaled by `a`,
/// from the front and in place: past the first four places it is a coefficient
/// that was moved before.
pub open spec fn moved_coeff(a: sunrealtype, c: Seq<sunrealtype>, i: int) -> sunrealtype
    decreases i,
{
    if i < 2 {
        c[i]
    } else {
        r_mul(a, moved_coeff(a, c, i - 2))
    }
}

/// The coefficients for solution, slope, and the `n` vectors of the later
/// slope.
pub open spec fn bootstrap_coeffs(
    hj: sunrealtype,
    tau: sunrealtype,
    c: Seq<sunrealtype>,
    n: nat,
) -> Seq<sunrealtype> {
    Seq::new(
        c.len(),
        |i: int|
            if i == 0 {
                ONE()
            } else if i == 1 {
                hermite(hj, tau).0
            } else if i < n + 2 {
                moved_coeff(hermite(hj, tau).1, c, i)
            } else {
                c[i]
            },
    )
}

/// Entry `i` of a list of vectors; the last solution where there is none.
pub open spec fn filled(m: MemView, x: Seq<NVec>, i: int) -> NVec {
    if 0 <= i < x.len() {
        x[i]
    } else {
        m.yn()
    }
}

/// The vectors that go with the coefficients: the list moved up by two places,
/// from the front and in place, so that its first two vectors alternate.
pub open spec fn bootstrap_vectors(m: MemView, x: Seq<NVec>, n: nat) -> Seq<NVec> {
    Seq::new(
        if x.len() < n + 2 {
            n + 2
        } else {
            x.len()
        },
        |i: int|
            if i == 0 {
                m.yn()
            } else if i == 1 {
                m.fn_()
            } else if i < n + 2 {
                filled(m, x, i % 2)
            } else {
                x[i]
            },
    )
}

/// Prediction by the quadratic.
#[verifier::opaque]
pub open spec fn bootstrap(
    m: MemView,
    hj: sunrealtype,
    tau: sunrealtype,
    n: nat,
    c: Seq<sunrealtype>,
    x: Seq<NVec>,
    y: NVec,
) -> NVec {
    if !m.att().interp {
        y
    } else {
        v_comb(
            bootstrap_coeffs(hj, tau, c, n).take((n + 2) as int),
            bootstrap_vectors(m, x, n),
            y,
        )
    }
}

/// For up to two vectors, each of them keeps its own coefficient, times that of
/// the later slope.
pub proof fn law_bootstrap(
    m: MemView,
    hj: sunrealtype,
    tau: sunrealtype,
    n: nat,
    c: Seq<sunrealtype>,
    x: Seq<NVec>,
)
    requires
        n <= 2,
        c.len() >= n + 2,
        x.len() >= n,
    ensures
        bootstrap_coeffs(hj, tau, c, n).take((n + 2) as int) == seq![ONE(), hermite(hj, tau).0]
            + Seq::new(n, |i: int| r_mul(hermite(hj, tau).1, c[i])),
        bootstrap_vectors(m, x, n).take((n + 2) as int) == seq![m.yn(), m.fn_()] + x.take(n as int),
{
    reveal_with_fuel(moved_coeff, 2);
    assert(bootstrap_coeffs(hj, tau, c, n).take((n + 2) as int) =~= seq![
        ONE(),
        hermite(hj, tau).0,
    ] + Seq::new(n, |i: int| r_mul(hermite(hj, tau).1, c[i])));
    assert(bootstrap_vectors(m, x, n).take((n + 2) as int) =~= seq![m.yn(), m.fn_()] + x.take(
        n as int,
    ));
}

fn move_coeffs(hj: sunrealtype, tau: sunrealtype, n: usize, cvals: &mut Vec<sunrealtype>)
    requires
        n + 2 <= usize::MAX,
        old(cvals)@.len() >= n + 2,
    ensures
        final(cvals)@ == bootstrap_coeffs(hj, tau, old(cvals)@, n as nat),
{
    let a2: sunrealtype = tau * tau / TWO() / hj;
    let a1: sunrealtype = tau - a2;
    let ghost c0 = cvals@;
    let mut i: usize = 0;
    while i < n
        invariant
            i <= n,
            n + 2 <= usize::MAX,
            n + 2 <= c0.len(),
            cvals@.len() == c0.len(),
            a2 == hermite(hj, tau).1,
            forall|j: int| 0 <= j < i + 2 ==> cvals@[j] == #[trigger] moved_coeff(a2, c0, j),
            forall|j: int| i + 2 <= j < c0.len() ==> cvals@[j] == c0[j],
        decreases n - i,
    {
        assert(cvals@[i as int] == moved_coeff(a2, c0, i as int));
        assert(moved_coeff(a2, c0, i + 2) == r_mul(a2, moved_coeff(a2, c0, i as int)));
        let x: sunrealtype = a2 * cvals[i];
        cvals.set(2 + i, x);
        i = i + 1;
    }
    cvals.set(0, ONE());
    cvals.set(1, a1);
    assert(cvals@ =~= bootstrap_coeffs(hj, tau, c0, n as nat)) by {
        assert forall|j: int| 2 <= j < n + 2 implies cvals@[j] == moved_coeff(a2, c0, j) by {}
    }
}

fn move_vectors(ark_mem: &ARKodeMemRec, n: usize, Xvecs: &mut Vec<N_Vector>)
    requires
        n + 2 <= usize::MAX,
    ensures
        nvecs(final(Xvecs)@) == bootstrap_vectors(ark_mem@, nvecs(old(Xvecs)@), n as nat),
{
    let ghost x0 = nvecs(Xvecs@);
    let ghost m = ark_mem@;
    while Xvecs.len() < n + 2
        invariant
            n + 2 <= usize::MAX,
            m == ark_mem@,
            x0.len() <= Xvecs@.len(),
            Xvecs@.len() <= n + 2 || Xvecs@.len() == x0.len(),
            forall|j: int| 0 <= j < Xvecs@.len() ==> (#[trigger] Xvecs@[j])@ == filled(m, x0, j),
        decreases n + 2 - Xvecs@.len(),
    {
        Xvecs.push(ark_mem.get_yn());
    }
    let ghost len = Xvecs@.len();
    let mut i: usize = 0;
    while i < n
        invariant
            i <= n,
            n + 2 <= usize::MAX,
            n + 2 <= len,
            len == Xvecs@.len(),
            x0.len() <= len,
            len == n + 2 || len == x0.len(),
            forall|j: int| 0 <= j < i + 2 ==> (#[trigger] Xvecs@[j])@ == filled(m, x0, j % 2),
            forall|j: int| i + 2 <= j < len ==> (#[trigger] Xvecs@[j])@ == filled(m, x0, j),
        decreases n - i,
    {
        let v: N_Vector = copy_vector(&Xvecs[i]);
        assert(v@ == filled(m, x0, i as int % 2));
        Xvecs.set(2 + i, v);
        i = i + 1;
    }
    Xvecs.set(0, ark_mem.get_yn());
    Xvecs.set(1, ark_mem.get_fn_());
    assert(nvecs(Xvecs@) =~= bootstrap_vectors(m, x0, n as nat));
}

/// The first `n` numbers of a list.
fn front(c: &Vec<sunrealtype>, n: usize) -> (r: Vec<sunrealtype>)
    requires
        n <= c@.len(),
    ensures
        r@ == c@.take(n as int),
{
    let mut r: Vec<sunrealtype> = Vec::new();
    let mut i: usize = 0;
    while i < n
        invariant
            i <= n,
            n <= c@.len(),
            r@ == c@.take(i as int),
        decreases n - i,
    {
        r.push(c[i]);
        i = i + 1;
        assert(r@ =~= c@.take(i as int));
    }
    r
}

/// Predicts with a quadratic through solution and slope at the start of the
/// step and the slope at a later stage, which is the combination of the first
/// `nvec` of `Xvecs` with the coefficients in front of `cvals`. There has to be
/// room for two more coefficients; the lists are used as work space. Fails
/// without an interpolation module.
pub fn arkPredict_Bootstrap(
    ark_mem: &ARKodeMemRec,
    hj: sunrealtype,
    tau: sunrealtype,
    nvec: i32,
    cvals: &mut Vec<sunrealtype>,
    Xvecs: &mut Vec<N_Vector>,
    yguess: &mut N_Vector,
) -> (flag: i32)
    requires
        ark_mem@.att().interp ==> 0 <= nvec <= i32::MAX - 2 && nvec + 2 <= old(cvals)@.len(),
    ensures
        flag == if ark_mem@.att().interp {
            ARK_SUCCESS
        } else {
            ARK_MEM_NULL
        },
        final(yguess)@ == bootstrap(
            ark_mem@,
            hj,
            tau,
            nvec as nat,
            old(cvals)@,
            nvecs(old(Xvecs)@),
            old(yguess)@,
        ),
        final(cvals)@ == if ark_mem@.att().interp {
            bootstrap_coeffs(hj, tau, old(cvals)@, nvec as nat)
        } else {
            old(cvals)@
        },
        nvecs(final(Xvecs)@) == if ark_mem@.att().interp {
            bootstrap_vectors(ark_mem@, nvecs(old(Xvecs)@), nvec as nat)
        } else {
            nvecs(old(Xvecs)@)
        },
{
    reveal(bootstrap);
    if !ark_mem.get_att().interp {
        return ARK_MEM_NULL;
    }
    let n: usize = nvec as usize;
    move_coeffs(hj, tau, n, cvals);
    move_vectors(ark_mem, n, Xvecs);
    let c: Vec<sunrealtype> = front(cvals, n + 2);
    let (r, retval) = N_VLinearCombination(&c, Xvecs, yguess);
    *yguess = r;
    if retval != 0 {
        return ARK_VECTOROP_ERR;
    }
    ARK_SUCCESS
}

} // verus!
