//! Tolerances and the weight vectors that follow from them.
use crate::arkode_codes::{
    ARK_ILL_INPUT, ARK_NO_MALLOC, ARK_SS, ARK_STEPPER_UNSUPPORTED, ARK_SUCCESS,
    ARK_SV, ARK_WF,
};
use crate::arkode_impl::{ARKodeMemRec, ArkTol, EwtFn, FnId, MemView, RwtFn};
use crate::arkode_mem::{put_VRabstol, put_Vabstol, put_rwt, put_tempv1, put_tol};
use crate::arkode_vectors::{alloc_vec, arkAllocVec};
use crate::binary64::{r_eq, r_le, r_lt, sunrealtype};
use crate::env::{ArkEnv, ModuleCall, UserCall, UserFn};
use crate::nvector::{
    copy_vector, min_of, v_abs, v_addconst, v_const, v_inv, v_lin, v_scale, NVec, N_VAbs,
    N_VAddConst, N_VConst, N_VInv, N_VLinearSum, N_VMin, N_VScale, N_Vector,
};
use crate::sundials_types::{ONE, SUN_SMALL_REAL, ZERO};
use vstd::prelude::*;

verus! {

broadcast use crate::order::group_order;

/// Memory, weights and flag after a weight function.
pub struct WeightOut {
    pub m: MemView,
    pub w: NVec,
    pub flag: i32,
}

/// Denominators `reltol |y| + abstol` with one absolute tolerance.
pub open spec fn denominators_s(
    reltol: sunrealtype,
    abstol: sunrealtype,
    y: NVec,
    t: NVec,
) -> NVec {
    let a = v_abs(y, t);
    let b = v_scale(reltol, a, a);
    v_addconst(b, abstol, b)
}

/// Denominators `reltol |y| + abstol` with an absolute tolerance per component.
pub open spec fn denominators_v(reltol: sunrealtype, abstol: NVec, y: NVec, t: NVec) -> NVec {
    let a = v_abs(y, t);
    v_lin(reltol, a, ONE(), abstol, a)
}

/// Weights that are the reciprocals of `d`; where `check` is set and some
/// denominator is not positive, the old weights and a failure.
pub open spec fn invert(m: MemView, d: NVec, w: NVec, check: bool) -> WeightOut {
    let m1 = put_tempv1(m, d);
    if check && r_le(min_of(d, d.data.len()), ZERO()) {
        WeightOut { m: m1, w, flag: (-1) as i32 }
    } else {
        WeightOut { m: m1, w: v_inv(d, w), flag: 0 }
    }
}

/// Error weights from a scalar absolute tolerance.
pub open spec fn ewt_ss(m: MemView, y: NVec, w: NVec) -> WeightOut {
    invert(m, denominators_s(m.tol().reltol, m.tol().Sabstol, y, m.tempv1()), w, m.tol().atolmin0)
}

pub fn arkEwtSetSS(ycur: &N_Vector, weight: &mut N_Vector, ark_mem: &mut ARKodeMemRec) -> (flag: i32)
    ensures
        final(ark_mem)@ == ewt_ss(old(ark_mem)@, ycur@, old(weight)@).m,
        final(weight)@ == ewt_ss(old(ark_mem)@, ycur@, old(weight)@).w,
        flag == ewt_ss(old(ark_mem)@, ycur@, old(weight)@).flag,
{
    let t: N_Vector = N_VAbs(ycur, &ark_mem.get_tempv1());
    let t: N_Vector = N_VScale(ark_mem.get_tol().reltol, &t, &t);
    let t: N_Vector = N_VAddConst(&t, ark_mem.get_tol().Sabstol, &t);
    if ark_mem.get_tol().atolmin0 && N_VMin(&t) <= ZERO() {
        ark_mem.set_tempv1(t);
        return -1;
    }
    *weight = N_VInv(&t, weight);
    ark_mem.set_tempv1(t);
    0
}

/// Error weights from a vector of absolute tolerances.
pub open spec fn ewt_sv(m: MemView, y: NVec, w: NVec) -> WeightOut {
    invert(m, denominators_v(m.tol().reltol, m.Vabstol(), y, m.tempv1()), w, m.tol().atolmin0)
}

pub fn arkEwtSetSV(ycur: &N_Vector, weight: &mut N_Vector, ark_mem: &mut ARKodeMemRec) -> (flag: i32)
    ensures
        final(ark_mem)@ == ewt_sv(old(ark_mem)@, ycur@, old(weight)@).m,
        final(weight)@ == ewt_sv(old(ark_mem)@, ycur@, old(weight)@).w,
        flag == ewt_sv(old(ark_mem)@, ycur@, old(weight)@).flag,
{
    let t: N_Vector = N_VAbs(ycur, &ark_mem.get_tempv1());
    let t: N_Vector = N_VLinearSum(ark_mem.get_tol().reltol, &t, ONE(), &ark_mem.get_Vabstol(), &t);
    if ark_mem.get_tol().atolmin0 && N_VMin(&t) <= ZERO() {
        ark_mem.set_tempv1(t);
        return -1;
    }
    *weight = N_VInv(&t, weight);
    ark_mem.set_tempv1(t);
    0
}

/// Fills the error weights with the smallest normal number.
pub fn arkEwtSetSmallReal(weight: &mut N_Vector) -> (flag: i32)
    ensures
        final(weight)@ == v_const(SUN_SMALL_REAL(), old(weight)@),
        flag == ARK_SUCCESS,
{
    *weight = N_VConst(SUN_SMALL_REAL(), weight);
    ARK_SUCCESS
}

/// Residual weights from a scalar absolute tolerance.
pub open spec fn rwt_ss(m: MemView, y: NVec, w: NVec) -> WeightOut {
    invert(m, denominators_s(m.tol().reltol, m.tol().SRabstol, y, m.tempv1()), w, m.tol().Ratolmin0)
}

pub fn arkRwtSetSS(ark_mem: &mut ARKodeMemRec, My: &N_Vector, weight: &mut N_Vector) -> (flag: i32)
    ensures
        final(ark_mem)@ == rwt_ss(old(ark_mem)@, My@, old(weight)@).m,
        final(weight)@ == rwt_ss(old(ark_mem)@, My@, old(weight)@).w,
        flag == rwt_ss(old(ark_mem)@, My@, old(weight)@).flag,
{
    let t: N_Vector = N_VAbs(My, &ark_mem.get_tempv1());
    let t: N_Vector = N_VScale(ark_mem.get_tol().reltol, &t, &t);
    let t: N_Vector = N_VAddConst(&t, ark_mem.get_tol().SRabstol, &t);
    if ark_mem.get_tol().Ratolmin0 && N_VMin(&t) <= ZERO() {
        ark_mem.set_tempv1(t);
        return -1;
    }
    *weight = N_VInv(&t, weight);
    ark_mem.set_tempv1(t);
    0
}

/// Residual weights from a vector of absolute tolerances.
pub open spec fn rwt_sv(m: MemView, y: NVec, w: NVec) -> WeightOut {
    invert(m, denominators_v(m.tol().reltol, m.VRabstol(), y, m.tempv1()), w, m.tol().Ratolmin0)
}

pub fn arkRwtSetSV(ark_mem: &mut ARKodeMemRec, My: &N_Vector, weight: &mut N_Vector) -> (flag: i32)
    ensures
        final(ark_mem)@ == rwt_sv(old(ark_mem)@, My@, old(weight)@).m,
        final(weight)@ == rwt_sv(old(ark_mem)@, My@, old(weight)@).w,
        flag == rwt_sv(old(ark_mem)@, My@, old(weight)@).flag,
{
    let t: N_Vector = N_VAbs(My, &ark_mem.get_tempv1());
    let t: N_Vector = N_VLinearSum(ark_mem.get_tol().reltol, &t, ONE(), &ark_mem.get_VRabstol(), &t);
    if ark_mem.get_tol().Ratolmin0 && N_VMin(&t) <= ZERO() {
        ark_mem.set_tempv1(t);
        return -1;
    }
    *weight = N_VInv(&t, weight);
    ark_mem.set_tempv1(t);
    0
}

/// Memory, environment, weights and flag after a weight function.
pub struct WeightEnvOut<E> {
    pub m: MemView,
    pub e: E,
    pub w: NVec,
    pub flag: i32,
}

/// Residual weights at `y`: nothing where they alias the error weights,
/// otherwise from the mass matrix product (or `y` itself) by tolerance type.
/// A failure is -1: the product could not be formed, or a weight would not be
/// positive.
pub open spec fn rwt_set<E: ArkEnv>(m: MemView, e: E, y: NVec, w: NVec) -> WeightEnvOut<E> {
    if m.tol().rwt_is_ewt {
        WeightEnvOut { m, e, w, flag: 0 }
    } else {
        let r = e.module_reply(ModuleCall::MassMult, m, y, ZERO(), 0);
        let (m1, e1) = if m.ops().mmult {
            (r.mem, r.env)
        } else {
            (m, e)
        };
        if m.ops().mmult && r.flag != ARK_SUCCESS {
            WeightEnvOut { m: m1, e: e1, w, flag: (-1) as i32 }
        } else {
            let my = if m.ops().mmult {
                r.out
            } else {
                v_scale(ONE(), y, m1.tempv1())
            };
            let m2 = put_tempv1(m1, my);
            if m2.tol().ritol == ARK_SS {
                let o = rwt_ss(m2, my, w);
                WeightEnvOut { m: o.m, e: e1, w: o.w, flag: o.flag }
            } else if m2.tol().ritol == ARK_SV {
                let o = rwt_sv(m2, my, w);
                WeightEnvOut { m: o.m, e: e1, w: o.w, flag: o.flag }
            } else {
                WeightEnvOut { m: m2, e: e1, w, flag: 0 }
            }
        }
    }
}

/// Sets the residual weights.
pub fn arkRwtSet<E: ArkEnv>(
    y: &N_Vector,
    weight: &mut N_Vector,
    ark_mem: &mut ARKodeMemRec,
    env: &mut E,
) -> (flag: i32)
    ensures
        flag == 0 || flag == -1,
        ({
            let o = rwt_set(old(ark_mem)@, *old(env), y@, old(weight)@);
            &&& final(ark_mem)@ == o.m
            &&& *final(env) == o.e
            &&& final(weight)@ == o.w
            &&& flag == o.flag
        }),
{
    if ark_mem.get_tol().rwt_is_ewt {
        return 0;
    }
    let my: N_Vector;
    if ark_mem.get_ops().mmult {
        let mut out: N_Vector = copy_vector(y);
        let mut x: sunrealtype = ZERO();
        let mut n: i32 = 0;
        let flag: i32 = env.module(ModuleCall::MassMult, ark_mem, &mut out, &mut x, &mut n);
        if flag != ARK_SUCCESS {
            return -1;
        }
        my = out;
    } else {
        my = N_VScale(ONE(), y, &ark_mem.get_tempv1());
    }
    ark_mem.set_tempv1(copy_vector(&my));
    let ritol: i32 = ark_mem.get_tol().ritol;
    if ritol == ARK_SS {
        arkRwtSetSS(ark_mem, &my, weight)
    } else if ritol == ARK_SV {
        arkRwtSetSV(ark_mem, &my, weight)
    } else {
        0
    }
}

/// The call of a user weight function.
#[verifier::allow_in_spec]
pub fn weight_call(role: UserFn, f: FnId, user_data: bool) -> UserCall
    returns
        (UserCall { role, f, t: ZERO(), step: 0, attempt: 0, user_data }),
{
    UserCall { role, f, t: ZERO(), step: 0, attempt: 0, user_data }
}

/// The error weight function in use, applied to `y`; a failure where none is set.
#[verifier::opaque]
pub open spec fn call_efun<E: ArkEnv>(m: MemView, e: E, y: NVec, w: NVec) -> WeightEnvOut<E> {
    match m.tol().efun {
        None => WeightEnvOut { m, e, w, flag: (-1) as i32 },
        Some(EwtFn::SetSS) => {
            let o = ewt_ss(m, y, w);
            WeightEnvOut { m: o.m, e, w: o.w, flag: o.flag }
        },
        Some(EwtFn::SetSV) => {
            let o = ewt_sv(m, y, w);
            WeightEnvOut { m: o.m, e, w: o.w, flag: o.flag }
        },
        Some(EwtFn::SetSmallReal) => WeightEnvOut {
            m,
            e,
            w: v_const(SUN_SMALL_REAL(), w),
            flag: 0,
        },
        Some(EwtFn::User(f)) => {
            let r = e.user_reply(weight_call(UserFn::ErrorWeight, f, m.tol().user_efun), y, w);
            WeightEnvOut { m, e: r.env, w: r.out, flag: r.flag }
        },
    }
}

pub fn ark_call_efun<E: ArkEnv>(
    ark_mem: &mut ARKodeMemRec,
    env: &mut E,
    y: &N_Vector,
    ewt: &mut N_Vector,
) -> (flag: i32)
    ensures
        ({
            let o = call_efun(old(ark_mem)@, *old(env), y@, old(ewt)@);
            &&& final(ark_mem)@ == o.m
            &&& *final(env) == o.e
            &&& final(ewt)@ == o.w
            &&& flag == o.flag
        }),
{
    reveal(call_efun);
    match ark_mem.get_tol().efun {
        None => -1,
        Some(EwtFn::SetSS) => arkEwtSetSS(y, ewt, ark_mem),
        Some(EwtFn::SetSV) => arkEwtSetSV(y, ewt, ark_mem),
        Some(EwtFn::SetSmallReal) => arkEwtSetSmallReal(ewt),
        Some(EwtFn::User(f)) => {
            env.user(weight_call(UserFn::ErrorWeight, f, ark_mem.get_tol().user_efun), y, ewt)
        },
    }
}

/// The residual weight function in use, applied to `y`; a failure where none is set.
#[verifier::opaque]
pub open spec fn call_rfun<E: ArkEnv>(m: MemView, e: E, y: NVec, w: NVec) -> WeightEnvOut<E> {
    match m.tol().rfun {
        None => WeightEnvOut { m, e, w, flag: (-1) as i32 },
        Some(RwtFn::RwtSet) => rwt_set(m, e, y, w),
        Some(RwtFn::User(f)) => {
            let r = e.user_reply(weight_call(UserFn::ResidualWeight, f, m.tol().user_rfun), y, w);
            WeightEnvOut { m, e: r.env, w: r.out, flag: r.flag }
        },
    }
}

pub fn ark_call_rfun<E: ArkEnv>(
    ark_mem: &mut ARKodeMemRec,
    env: &mut E,
    y: &N_Vector,
    rwt: &mut N_Vector,
) -> (flag: i32)
    ensures
        ({
            let o = call_rfun(old(ark_mem)@, *old(env), y@, old(rwt)@);
            &&& final(ark_mem)@ == o.m
            &&& *final(env) == o.e
            &&& final(rwt)@ == o.w
            &&& flag == o.flag
        }),
{
    reveal(call_rfun);
    match ark_mem.get_tol().rfun {
        None => -1,
        Some(RwtFn::RwtSet) => arkRwtSet(y, rwt, ark_mem, env),
        Some(RwtFn::User(f)) => {
            env.user(weight_call(UserFn::ResidualWeight, f, ark_mem.get_tol().user_rfun), y, rwt)
        },
    }
}

/// Memory and flag after setting a scalar relative and a scalar absolute
/// tolerance. Refused before allocation, for a negative tolerance, and for
/// vectors that cannot add a constant.
pub open spec fn ss_tolerances(m: MemView, reltol: sunrealtype, abstol: sunrealtype) -> (
    MemView,
    i32,
) {
    if !m.flg().MallocDone {
        (m, ARK_NO_MALLOC)
    } else if r_lt(reltol, ZERO()) || r_lt(abstol, ZERO()) || !m.tempv1().ops().nvaddconst {
        (m, ARK_ILL_INPUT)
    } else {
        (
            put_tol(m, ArkTol {
                    atolmin0: r_eq(abstol, ZERO()),
                    reltol,
                    Sabstol: abstol,
                    itol: ARK_SS,
                    user_efun: false,
                    efun: Some(EwtFn::SetSS),
                    ..m.tol()
                }),
            ARK_SUCCESS,
        )
    }
}

/// Sets a scalar relative and a scalar absolute tolerance.
pub fn ARKodeSStolerances(
    ark_mem: &mut ARKodeMemRec,
    reltol: sunrealtype,
    abstol: sunrealtype,
) -> (flag: i32)
    ensures
        final(ark_mem)@ == ss_tolerances(old(ark_mem)@, reltol, abstol).0,
        flag == ss_tolerances(old(ark_mem)@, reltol, abstol).1,
{
    if !ark_mem.get_flg().MallocDone {
        return ARK_NO_MALLOC;
    }
    if reltol < ZERO() {
        return ARK_ILL_INPUT;
    }
    if abstol < ZERO() {
        return ARK_ILL_INPUT;
    }
    if !ark_mem.get_tempv1().ops.nvaddconst {
        return ARK_ILL_INPUT;
    }
    ark_mem.set_tol(ArkTol {
        atolmin0: abstol == ZERO(),
        reltol,
        Sabstol: abstol,
        itol: ARK_SS,
        user_efun: false,
        efun: Some(EwtFn::SetSS),
        ..ark_mem.get_tol()
    });
    ARK_SUCCESS
}

/// Memory in which the absolute tolerances have a vector, and whether it
/// could be allocated.
#[verifier::opaque]
pub open spec fn own_vabstol(m: MemView) -> (MemView, bool) {
    if m.tol().VabstolMallocDone {
        (m, true)
    } else {
        let a = alloc_vec(m, m.ewt(), m.Vabstol());
        let m1 = put_Vabstol(a.0, a.1);
        if !a.2 {
            (m1, false)
        } else {
            (put_tol(m1, ArkTol { VabstolMallocDone: true, ..m1.tol() }), true)
        }
    }
}

/// Gives the absolute tolerances a vector.
fn ark_own_vabstol(ark_mem: &mut ARKodeMemRec) -> (ok: bool)
    ensures
        final(ark_mem)@ == own_vabstol(old(ark_mem)@).0,
        ok == own_vabstol(old(ark_mem)@).1,
{
    reveal(own_vabstol);
    if !ark_mem.get_tol().VabstolMallocDone {
        let ewt: N_Vector = ark_mem.get_ewt();
        let mut v: N_Vector = ark_mem.get_Vabstol();
        let ok: bool = arkAllocVec(ark_mem, &ewt, &mut v);
        ark_mem.set_Vabstol(v);
        if !ok {
            return false;
        }
        ark_mem.set_tol(ArkTol { VabstolMallocDone: true, ..ark_mem.get_tol() });
    }
    true
}

/// Flag and memory after setting a vector of absolute tolerances.
pub open spec fn sv_tolerances(m: MemView, reltol: sunrealtype, abstol: NVec) -> (MemView, i32) {
    let lowest = min_of(abstol, abstol.data.len());
    if !m.flg().MallocDone {
        (m, ARK_NO_MALLOC)
    } else if r_lt(reltol, ZERO()) || !abstol.ops().nvmin || r_lt(lowest, ZERO()) {
        (m, ARK_ILL_INPUT)
    } else {
        let o = own_vabstol(put_tol(m, ArkTol { atolmin0: r_eq(lowest, ZERO()), ..m.tol() }));
        if !o.1 {
            (o.0, ARK_ILL_INPUT)
        } else {
            (
                put_tol(put_Vabstol(o.0, v_scale(ONE(), abstol, o.0.Vabstol())), ArkTol {
                        reltol,
                        itol: ARK_SV,
                        user_efun: false,
                        efun: Some(EwtFn::SetSV),
                        ..o.0.tol()
                    }),
                ARK_SUCCESS,
            )
        }
    }
}

/// Sets a scalar relative tolerance and a vector of absolute tolerances.
pub fn ARKodeSVtolerances(
    ark_mem: &mut ARKodeMemRec,
    reltol: sunrealtype,
    abstol: &N_Vector,
) -> (flag: i32)
    ensures
        final(ark_mem)@ == sv_tolerances(old(ark_mem)@, reltol, abstol@).0,
        flag == sv_tolerances(old(ark_mem)@, reltol, abstol@).1,
{
    if !ark_mem.get_flg().MallocDone {
        return ARK_NO_MALLOC;
    }
    if reltol < ZERO() {
        return ARK_ILL_INPUT;
    }
    if !abstol.ops.nvmin {
        return ARK_ILL_INPUT;
    }
    let abstolmin: sunrealtype = N_VMin(abstol);
    if abstolmin < ZERO() {
        return ARK_ILL_INPUT;
    }
    ark_mem.set_tol(ArkTol { atolmin0: abstolmin == ZERO(), ..ark_mem.get_tol() });
    if !ark_own_vabstol(ark_mem) {
        return ARK_ILL_INPUT;
    }
    let tol: ArkTol = ark_mem.get_tol();
    let v: N_Vector = N_VScale(ONE(), abstol, &ark_mem.get_Vabstol());
    ark_mem.set_Vabstol(v);
    ark_mem.set_tol(
        ArkTol { reltol, itol: ARK_SV, user_efun: false, efun: Some(EwtFn::SetSV), ..tol },
    );
    ARK_SUCCESS
}

/// Has the error weights computed by a user function.
pub fn ARKodeWFtolerances(ark_mem: &mut ARKodeMemRec, efun: FnId) -> (flag: i32)
    ensures
        flag == if old(ark_mem)@.flg().MallocDone {
            ARK_SUCCESS
        } else {
            ARK_NO_MALLOC
        },
        final(ark_mem)@ == if old(ark_mem)@.flg().MallocDone {
            put_tol(old(ark_mem)@, ArkTol {
                    itol: ARK_WF,
                    user_efun: true,
                    efun: Some(EwtFn::User(efun)),
                    ..old(ark_mem)@.tol()
                })
        } else {
            old(ark_mem)@
        },
{
    if !ark_mem.get_flg().MallocDone {
        return ARK_NO_MALLOC;
    }
    ark_mem.set_tol(ArkTol {
        itol: ARK_WF,
        user_efun: true,
        efun: Some(EwtFn::User(efun)),
        ..ark_mem.get_tol()
    });
    ARK_SUCCESS
}

/// Memory in which the residual weights have a vector of their own, and
/// whether it could be allocated.
#[verifier::opaque]
pub open spec fn own_rwt(m: MemView) -> (MemView, bool) {
    if !m.tol().rwt_is_ewt {
        (m, true)
    } else {
        let a = alloc_vec(m, m.ewt(), crate::nvector::v_null());
        let m1 = put_rwt(a.0, a.1);
        if !a.2 {
            (m1, false)
        } else {
            (put_tol(m1, ArkTol { rwt_is_ewt: false, ..m1.tol() }), true)
        }
    }
}

/// Gives the residual weights a vector of their own.
fn ark_own_rwt(ark_mem: &mut ARKodeMemRec) -> (ok: bool)
    ensures
        final(ark_mem)@ == own_rwt(old(ark_mem)@).0,
        ok == own_rwt(old(ark_mem)@).1,
{
    reveal(own_rwt);
    if ark_mem.get_tol().rwt_is_ewt {
        let ewt: N_Vector = ark_mem.get_ewt();
        let mut v: N_Vector = crate::nvector::null_vector();
        let ok: bool = arkAllocVec(ark_mem, &ewt, &mut v);
        ark_mem.set_rwt(v);
        if !ok {
            return false;
        }
        ark_mem.set_tol(ArkTol { rwt_is_ewt: false, ..ark_mem.get_tol() });
    }
    true
}

/// Flag and memory after setting a scalar residual tolerance.
pub open spec fn res_s_tolerance(m: MemView, rabstol: sunrealtype) -> (MemView, i32) {
    if !m.att().step_supports_massmatrix {
        (m, ARK_STEPPER_UNSUPPORTED)
    } else if !m.flg().MallocDone {
        (m, ARK_NO_MALLOC)
    } else if r_lt(rabstol, ZERO()) || !m.tempv1().ops().nvaddconst {
        (m, ARK_ILL_INPUT)
    } else {
        let o = own_rwt(put_tol(m, ArkTol { Ratolmin0: r_eq(rabstol, ZERO()), ..m.tol() }));
        if !o.1 {
            (o.0, ARK_ILL_INPUT)
        } else {
            (
                put_tol(o.0, ArkTol {
                        SRabstol: rabstol,
                        ritol: ARK_SS,
                        user_efun: false,
                        rfun: Some(RwtFn::RwtSet),
                        ..o.0.tol()
                    }),
                ARK_SUCCESS,
            )
        }
    }
}

/// Sets a scalar absolute residual tolerance.
pub fn ARKodeResStolerance(ark_mem: &mut ARKodeMemRec, rabstol: sunrealtype) -> (flag: i32)
    ensures
        final(ark_mem)@ == res_s_tolerance(old(ark_mem)@, rabstol).0,
        flag == res_s_tolerance(old(ark_mem)@, rabstol).1,
{
    if !ark_mem.get_att().step_supports_massmatrix {
        return ARK_STEPPER_UNSUPPORTED;
    }
    if !ark_mem.get_flg().MallocDone {
        return ARK_NO_MALLOC;
    }
    if rabstol < ZERO() {
        return ARK_ILL_INPUT;
    }
    if !ark_mem.get_tempv1().ops.nvaddconst {
        return ARK_ILL_INPUT;
    }
    ark_mem.set_tol(ArkTol { Ratolmin0: rabstol == ZERO(), ..ark_mem.get_tol() });
    if !ark_own_rwt(ark_mem) {
        return ARK_ILL_INPUT;
    }
    // The flag of the error weights is the one that is cleared here.
    ark_mem.set_tol(ArkTol {
        SRabstol: rabstol,
        ritol: ARK_SS,
        user_efun: false,
        rfun: Some(RwtFn::RwtSet),
        ..ark_mem.get_tol()
    });
    ARK_SUCCESS
}

/// Memory in which the residual tolerances have a vector, and whether it
/// could be allocated.
#[verifier::opaque]
pub open spec fn own_vrabstol(m: MemView) -> (MemView, bool) {
    if m.tol().VRabstolMallocDone {
        (m, true)
    } else {
        let a = alloc_vec(m, m.rwt(), m.VRabstol());
        let m1 = put_VRabstol(a.0, a.1);
        if !a.2 {
            (m1, false)
        } else {
            (put_tol(m1, ArkTol { VRabstolMallocDone: true, ..m1.tol() }), true)
        }
    }
}

/// Gives the residual tolerances a vector.
fn ark_own_vrabstol(ark_mem: &mut ARKodeMemRec) -> (ok: bool)
    ensures
        final(ark_mem)@ == own_vrabstol(old(ark_mem)@).0,
        ok == own_vrabstol(old(ark_mem)@).1,
{
    reveal(own_vrabstol);
    if !ark_mem.get_tol().VRabstolMallocDone {
        let rwt: N_Vector = ark_mem.get_rwt();
        let mut v: N_Vector = ark_mem.get_VRabstol();
        let ok: bool = arkAllocVec(ark_mem, &rwt, &mut v);
        ark_mem.set_VRabstol(v);
        if !ok {
            return false;
        }
        ark_mem.set_tol(ArkTol { VRabstolMallocDone: true, ..ark_mem.get_tol() });
    }
    true
}

/// Flag and memory after setting a vector of residual tolerances.
pub open spec fn res_v_tolerance(m: MemView, rabstol: NVec) -> (MemView, i32) {
    let lowest = min_of(rabstol, rabstol.data.len());
    if !m.att().step_supports_massmatrix {
        (m, ARK_STEPPER_UNSUPPORTED)
    } else if !m.flg().MallocDone {
        (m, ARK_NO_MALLOC)
    } else if !rabstol.ops().nvmin || r_lt(lowest, ZERO()) {
        (m, ARK_ILL_INPUT)
    } else {
        let o = own_rwt(put_tol(m, ArkTol { Ratolmin0: r_eq(lowest, ZERO()), ..m.tol() }));
        let a = own_vrabstol(o.0);
        if !o.1 {
            (o.0, ARK_ILL_INPUT)
        } else if !a.1 {
            (a.0, ARK_ILL_INPUT)
        } else {
            (
                put_tol(put_VRabstol(a.0, v_scale(ONE(), rabstol, a.0.VRabstol())), ArkTol {
                        ritol: ARK_SV,
                        user_efun: false,
                        rfun: Some(RwtFn::RwtSet),
                        ..a.0.tol()
                    }),
                ARK_SUCCESS,
            )
        }
    }
}

/// Sets a vector of absolute residual tolerances.
pub fn ARKodeResVtolerance(ark_mem: &mut ARKodeMemRec, rabstol: &N_Vector) -> (flag: i32)
    ensures
        final(ark_mem)@ == res_v_tolerance(old(ark_mem)@, rabstol@).0,
        flag == res_v_tolerance(old(ark_mem)@, rabstol@).1,
{
    if !ark_mem.get_att().step_supports_massmatrix {
        return ARK_STEPPER_UNSUPPORTED;
    }
    if !ark_mem.get_flg().MallocDone {
        return ARK_NO_MALLOC;
    }
    if !rabstol.ops.nvmin {
        return ARK_ILL_INPUT;
    }
    let rabstolmin: sunrealtype = N_VMin(rabstol);
    if rabstolmin < ZERO() {
        return ARK_ILL_INPUT;
    }
    ark_mem.set_tol(ArkTol { Ratolmin0: rabstolmin == ZERO(), ..ark_mem.get_tol() });
    if !ark_own_rwt(ark_mem) {
        return ARK_ILL_INPUT;
    }
    if !ark_own_vrabstol(ark_mem) {
        return ARK_ILL_INPUT;
    }
    let tol: ArkTol = ark_mem.get_tol();
    let v: N_Vector = N_VScale(ONE(), rabstol, &ark_mem.get_VRabstol());
    ark_mem.set_VRabstol(v);
    ark_mem.set_tol(
        ArkTol { ritol: ARK_SV, user_efun: false, rfun: Some(RwtFn::RwtSet), ..tol },
    );
    ARK_SUCCESS
}

/// Flag and memory after attaching a residual weight function.
pub open spec fn res_f_tolerance(m: MemView, rfun: FnId) -> (MemView, i32) {
    if !m.att().step_supports_massmatrix {
        (m, ARK_STEPPER_UNSUPPORTED)
    } else if !m.flg().MallocDone {
        (m, ARK_NO_MALLOC)
    } else {
        let o = own_rwt(m);
        if !o.1 {
            (o.0, ARK_ILL_INPUT)
        } else {
            (
                put_tol(o.0, ArkTol {
                        ritol: ARK_WF,
                        user_rfun: true,
                        rfun: Some(RwtFn::User(rfun)),
                        ..o.0.tol()
                    }),
                ARK_SUCCESS,
            )
        }
    }
}

/// Has the residual weights computed by a user function.
pub fn ARKodeResFtolerance(ark_mem: &mut ARKodeMemRec, rfun: FnId) -> (flag: i32)
    ensures
        final(ark_mem)@ == res_f_tolerance(old(ark_mem)@, rfun).0,
        flag == res_f_tolerance(old(ark_mem)@, rfun).1,
{
    if !ark_mem.get_att().step_supports_massmatrix {
        return ARK_STEPPER_UNSUPPORTED;
    }
    if !ark_mem.get_flg().MallocDone {
        return ARK_NO_MALLOC;
    }
    if !ark_own_rwt(ark_mem) {
        return ARK_ILL_INPUT;
    }
    ark_mem.set_tol(ArkTol {
        ritol: ARK_WF,
        user_rfun: true,
        rfun: Some(RwtFn::User(rfun)),
        ..ark_mem.get_tol()
    });
    ARK_SUCCESS
}

} // verus!
