//! Fast evolutions within a slow step: operations on the attached inner
//! stepper, its forcing, and stages that evolve it.
use crate::arkode_codes::{
    ARK_ILL_INPUT, ARK_INNERSTEP_FAIL, ARK_INNERTOOUTER_FAIL, ARK_INVALID_TABLE,
    ARK_OUTERTOINNER_FAIL, ARK_SUCCESS, ARK_VECTOROP_ERR, SUN_ADAPTCONTROLLER_MRI_H_TOL,
    SUN_ADAPTCONTROLLER_NONE, TRY_AGAIN,
};
use crate::arkode_impl::{
    ARKodeMemRec, ArkCounts, InnerScalars, InnerView, MRIStepInnerStepper, MemView, MriAdapt,
    MriCounts,
};
use crate::arkode_mem::{lemma_swap_stepper, mput_adp, mput_cnt, mput_stepper, mri, put_cnt};
use crate::arkode_step::{ark_controller, controller};
use crate::binary64::{r_div, r_sub, sunrealtype};
use crate::coupling::{count, MRISTEP_METHOD_TYPE, MRIStepCoupling};
use crate::env::{ArkEnv, ModuleCall, UserFn};
use crate::inner_stepper::{
    inner_evolve, inner_geterror, inner_reset, inner_reseterror, inner_setrtol,
    mriStepInnerStepper_Evolve, mriStepInnerStepper_GetAccumulatedError, mriStepInnerStepper_Reset,
    mriStepInnerStepper_ResetAccumulatedError, mriStepInnerStepper_SetRTol,
};
use crate::mristep_coeffs::{
    fill_forcing_row, forcing_row, lemma_forcing_row_len, min_of_two, push_stage_vectors,
    stage_vectors,
};
use crate::mristep_rhs::{call_process, process};
use crate::nvector::{
    entry, no_vectors, nvecs, part, set_entry, v_comb, NVec, N_VLinearCombination, N_Vector,
};
use crate::outcome::{call_module, module_run, Run, RunV};
use crate::sundials_types::sunbooleantype;
use vstd::prelude::*;

verus! {

/// The fast integrator evolved from `t0` to `tf`; refused where none is
/// attached.
#[verifier::opaque]
pub open spec fn fast_evolve<E: ArkEnv>(
    m: MemView,
    e: E,
    t0: sunrealtype,
    tf: sunrealtype,
    y: NVec,
) -> RunV<E> {
    match mri(m).stepper() {
        None => RunV { m, e, v: y, flag: ARK_ILL_INPUT },
        Some(s) => {
            let r = inner_evolve(s, e, t0, tf, y);
            RunV { m: mput_stepper(m, Some(r.s)), e: r.e, v: r.v, flag: r.flag }
        },
    }
}

fn mriStep_FastEvolve<E: ArkEnv>(
    ark_mem: &mut ARKodeMemRec,
    env: &mut E,
    t0: sunrealtype,
    tf: sunrealtype,
    y: &mut N_Vector,
) -> (flag: i32)
    ensures
        ({
            let o = fast_evolve(old(ark_mem)@, *old(env), t0, tf, old(y)@);
            &&& final(ark_mem)@ == o.m
            &&& *final(env) == o.e
            &&& final(y)@ == o.v
            &&& flag == o.flag
        }),
{
    reveal(fast_evolve);
    if !ark_mem.has_stepper() {
        return ARK_ILL_INPUT;
    }
    let ghost m0 = ark_mem@;
    match ark_mem.take_stepper() {
        None => ARK_ILL_INPUT,
        Some(s0) => {
            let mut s: MRIStepInnerStepper = s0;
            let flag: i32 = mriStepInnerStepper_Evolve(&mut s, env, t0, tf, y);
            proof {
                lemma_swap_stepper(m0, None, Some(s@));
            }
            ark_mem.set_stepper(Some(s));
            flag
        },
    }
}

/// The fast integrator reset to `y` at `t`; refused where none is attached.
#[verifier::opaque]
pub open spec fn fast_reset<E: ArkEnv>(m: MemView, e: E, t: sunrealtype, y: NVec) -> Run<E> {
    match mri(m).stepper() {
        None => Run { m, e, flag: ARK_ILL_INPUT },
        Some(s) => {
            let r = inner_reset(s, e, t, y);
            Run { m: mput_stepper(m, Some(r.s)), e: r.e, flag: r.flag }
        },
    }
}

/// Resets the attached fast integrator.
pub fn mriStep_FastReset<E: ArkEnv>(
    ark_mem: &mut ARKodeMemRec,
    env: &mut E,
    t: sunrealtype,
    y: &N_Vector,
) -> (flag: i32)
    ensures
        final(ark_mem)@ == fast_reset(old(ark_mem)@, *old(env), t, y@).m,
        *final(env) == fast_reset(old(ark_mem)@, *old(env), t, y@).e,
        flag == fast_reset(old(ark_mem)@, *old(env), t, y@).flag,
{
    reveal(fast_reset);
    if !ark_mem.has_stepper() {
        return ARK_ILL_INPUT;
    }
    let ghost m0 = ark_mem@;
    match ark_mem.take_stepper() {
        None => ARK_ILL_INPUT,
        Some(s0) => {
            let mut s: MRIStepInnerStepper = s0;
            let flag: i32 = mriStepInnerStepper_Reset(&mut s, env, t, y);
            proof {
                lemma_swap_stepper(m0, None, Some(s@));
            }
            ark_mem.set_stepper(Some(s));
            flag
        },
    }
}

/// The accumulated error of the fast integrator stored; refused where none is
/// attached.
#[verifier::opaque]
pub open spec fn fast_error<E: ArkEnv>(m: MemView, e: E) -> Run<E> {
    match mri(m).stepper() {
        None => Run { m, e, flag: ARK_ILL_INPUT },
        Some(s) => {
            let r = inner_geterror(s, e, mri(m).adp().inner_dsm);
            let m1 = mput_stepper(m, Some(r.s));
            Run {
                m: mput_adp(m1, MriAdapt { inner_dsm: r.x, ..mri(m1).adp() }),
                e: r.e,
                flag: r.flag,
            }
        },
    }
}

fn mriStep_FastError<E: ArkEnv>(ark_mem: &mut ARKodeMemRec, env: &mut E) -> (flag: i32)
    ensures
        final(ark_mem)@ == fast_error(old(ark_mem)@, *old(env)).m,
        *final(env) == fast_error(old(ark_mem)@, *old(env)).e,
        flag == fast_error(old(ark_mem)@, *old(env)).flag,
{
    reveal(fast_error);
    if !ark_mem.has_stepper() {
        return ARK_ILL_INPUT;
    }
    let ghost m0 = ark_mem@;
    let mut x: sunrealtype = ark_mem.get_mri_adp().inner_dsm;
    match ark_mem.take_stepper() {
        None => ARK_ILL_INPUT,
        Some(s0) => {
            let mut s: MRIStepInnerStepper = s0;
            let flag: i32 = mriStepInnerStepper_GetAccumulatedError(&mut s, env, &mut x);
            proof {
                lemma_swap_stepper(m0, None, Some(s@));
            }
            ark_mem.set_stepper(Some(s));
            let a: MriAdapt = ark_mem.get_mri_adp();
            ark_mem.set_mri_adp(MriAdapt { inner_dsm: x, ..a });
            flag
        },
    }
}

/// The accumulated error of the fast integrator reset; refused where none is
/// attached.
#[verifier::opaque]
pub open spec fn fast_clear<E: ArkEnv>(m: MemView, e: E) -> Run<E> {
    match mri(m).stepper() {
        None => Run { m, e, flag: ARK_ILL_INPUT },
        Some(s) => {
            let r = inner_reseterror(s, e);
            Run { m: mput_stepper(m, Some(r.s)), e: r.e, flag: r.flag }
        },
    }
}

/// Resets the accumulated error of the attached fast integrator.
pub fn mriStep_FastClear<E: ArkEnv>(ark_mem: &mut ARKodeMemRec, env: &mut E) -> (flag: i32)
    ensures
        final(ark_mem)@ == fast_clear(old(ark_mem)@, *old(env)).m,
        *final(env) == fast_clear(old(ark_mem)@, *old(env)).e,
        flag == fast_clear(old(ark_mem)@, *old(env)).flag,
{
    reveal(fast_clear);
    if !ark_mem.has_stepper() {
        return ARK_ILL_INPUT;
    }
    let ghost m0 = ark_mem@;
    match ark_mem.take_stepper() {
        None => ARK_ILL_INPUT,
        Some(s0) => {
            let mut s: MRIStepInnerStepper = s0;
            let flag: i32 = mriStepInnerStepper_ResetAccumulatedError(&mut s, env);
            proof {
                lemma_swap_stepper(m0, None, Some(s@));
            }
            ark_mem.set_stepper(Some(s));
            flag
        },
    }
}

/// The relative tolerance of the fast integrator set; refused where none is
/// attached.
#[verifier::opaque]
pub open spec fn fast_rtol<E: ArkEnv>(m: MemView, e: E, rtol: sunrealtype) -> Run<E> {
    match mri(m).stepper() {
        None => Run { m, e, flag: ARK_ILL_INPUT },
        Some(s) => {
            let r = inner_setrtol(s, e, rtol);
            Run { m: mput_stepper(m, Some(r.s)), e: r.e, flag: r.flag }
        },
    }
}

/// Sets the relative tolerance of the attached fast integrator.
pub fn mriStep_FastRTol<E: ArkEnv>(ark_mem: &mut ARKodeMemRec, env: &mut E, rtol: sunrealtype) -> (flag:
    i32)
    ensures
        final(ark_mem)@ == fast_rtol(old(ark_mem)@, *old(env), rtol).m,
        *final(env) == fast_rtol(old(ark_mem)@, *old(env), rtol).e,
        flag == fast_rtol(old(ark_mem)@, *old(env), rtol).flag,
{
    reveal(fast_rtol);
    if !ark_mem.has_stepper() {
        return ARK_ILL_INPUT;
    }
    let ghost m0 = ark_mem@;
    match ark_mem.take_stepper() {
        None => ARK_ILL_INPUT,
        Some(s0) => {
            let mut s: MRIStepInnerStepper = s0;
            let flag: i32 = mriStepInnerStepper_SetRTol(&mut s, env, rtol);
            proof {
                lemma_swap_stepper(m0, None, Some(s@));
            }
            ark_mem.set_stepper(Some(s));
            flag
        },
    }
}

/// The forcing polynomial of a fast evolution: the coefficient of degree `k`
/// is the combination of the stage right-hand sides that row `k` describes.
#[verifier::opaque]
pub open spec fn forcing_poly(
    scale: sunrealtype,
    ex: bool,
    im: bool,
    map: Seq<i32>,
    t: MRIStepCoupling,
    is: int,
    n: nat,
    x: Seq<NVec>,
    old_f: Seq<NVec>,
) -> Seq<NVec> {
    Seq::new(
        old_f.len(),
        |k: int|
            if k < t.nmat {
                v_comb(forcing_row(scale, ex, im, map, t, k, is, n), x, old_f[k])
            } else {
                old_f[k]
            },
    )
}

/// Fills the coefficients of the forcing polynomial; fails where no stage
/// contributes.
fn fill_forcing_poly(
    scale: sunrealtype,
    ex: bool,
    im: bool,
    map: &Vec<i32>,
    t: &MRIStepCoupling,
    is: i32,
    n: i32,
    x: &Vec<N_Vector>,
    f: &mut Vec<N_Vector>,
) -> (flag: i32)
    ensures
        nvecs(final(f)@) == forcing_poly(
            scale,
            ex,
            im,
            map@,
            *t,
            is as int,
            count(n),
            nvecs(x@),
            nvecs(old(f)@),
        ),
        flag == if t.nmat > 0 && forcing_row(
            scale,
            ex,
            im,
            map@,
            *t,
            0,
            is as int,
            count(n),
        ).len() == 0 {
            ARK_VECTOROP_ERR
        } else {
            ARK_SUCCESS
        },
{
    let ghost f0 = nvecs(f@);
    let ghost goal = forcing_poly(
        scale,
        ex,
        im,
        map@,
        *t,
        is as int,
        count(n),
        nvecs(x@),
        f0,
    );
    let mut k: i32 = 0;
    while k < t.nmat
        invariant
            0 <= k <= count(t.nmat),
            nvecs(f@).len() == f0.len(),
            forall|i: int|
                0 <= i < f0.len() ==> #[trigger] nvecs(f@)[i] == (if i < k {
                    v_comb(
                        forcing_row(scale, ex, im, map@, *t, i, is as int, count(n)),
                        nvecs(x@),
                        f0[i],
                    )
                } else {
                    f0[i]
                }),
            k > 0 ==> forcing_row(scale, ex, im, map@, *t, 0, is as int, count(n)).len() != 0,
            f0 == nvecs(old(f)@),
            goal == forcing_poly(
                scale,
                ex,
                im,
                map@,
                *t,
                is as int,
                count(n),
                nvecs(x@),
                f0,
            ),
        decreases t.nmat - k,
    {
        let c: Vec<sunrealtype> = fill_forcing_row(scale, ex, im, map, t, k, is, n);
        proof {
            lemma_forcing_row_len(scale, ex, im, map@, *t, k as int, is as int, count(n));
        }
        let z: N_Vector = entry(f, k);
        let (r, retval) = N_VLinearCombination(&c, x, &z);
        if retval != 0 {
            proof {
                reveal(forcing_poly);
                assert forall|i: int| 0 <= i < f0.len() implies nvecs(f@)[i] == goal[i] by {
                    lemma_forcing_row_len(scale, ex, im, map@, *t, i, is as int, count(n));
                    reveal(v_comb);
                }
                assert(nvecs(f@) =~= goal);
            }
            return ARK_VECTOROP_ERR;
        }
        set_entry(f, k, r);
        k = k + 1;
    }
    proof {
        reveal(forcing_poly);
        assert(nvecs(f@) =~= goal);
    }
    ARK_SUCCESS
}

/// The inner stepper with the interval of its forcing and the polynomial
/// replaced.
pub open spec fn with_forcing(
    s: InnerView,
    tshift: sunrealtype,
    tscale: sunrealtype,
    f: Seq<NVec>,
) -> InnerView {
    InnerView {
        sc: part(InnerScalars { tshift, tscale, ..s.sc() }),
        forcing: part(f),
        ..s
    }
}

/// Whether the explicit and whether the implicit right-hand sides enter the
/// forcing: stage-restart methods keep their sum with the
/// explicit ones.
pub open spec fn forcing_parts(m: MemView, t: MRIStepCoupling) -> (bool, bool) {
    if t.type_ == MRISTEP_METHOD_TYPE::MRISTEP_SR {
        (true, false)
    } else {
        (mri(m).prb().explicit_rhs, mri(m).prb().implicit_rhs)
    }
}

/// The forcing of the fast evolution of a stage over `[t0, tf]` set up.
#[verifier::opaque]
pub open spec fn inner_forcing(m: MemView, stage: i32, t0: sunrealtype, tf: sunrealtype) -> (
    MemView,
    i32,
) {
    match (mri(m).stepper(), mri(m).MRIC()) {
        (Some(s), Some(t)) => {
            let (ex, im) = forcing_parts(m, t);
            let n = min_of_two(stage as int, mri(m).mth().stages as int);
            let map = mri(m).stage_map();
            let x = stage_vectors(ex, im, map, mri(m).Fse(), mri(m).Fsi(), count(n as i32));
            let scale = r_div(m.stp().h, r_sub(tf, t0));
            let f = forcing_poly(
                scale,
                ex,
                im,
                map,
                t,
                stage as int,
                count(n as i32),
                x,
                s.forcing(),
            );
            (
                mput_stepper(m, Some(with_forcing(s, t0, r_sub(tf, t0), f))),
                if t.nmat > 0 && forcing_row(
                    scale,
                    ex,
                    im,
                    map,
                    t,
                    0,
                    stage as int,
                    count(n as i32),
                ).len() == 0 {
                    ARK_VECTOROP_ERR
                } else {
                    ARK_SUCCESS
                },
            )
        },
        _ => (m, ARK_INVALID_TABLE),
    }
}

/// Sets up the forcing of the fast evolution of a stage.
pub fn mriStep_ComputeInnerForcing(
    ark_mem: &mut ARKodeMemRec,
    stage: i32,
    t0: sunrealtype,
    tf: sunrealtype,
) -> (flag: i32)
    ensures
        final(ark_mem)@ == inner_forcing(old(ark_mem)@, stage, t0, tf).0,
        flag == inner_forcing(old(ark_mem)@, stage, t0, tf).1,
{
    reveal(inner_forcing);
    if !ark_mem.has_stepper() || ark_mem.table().is_none() {
        return ARK_INVALID_TABLE;
    }
    let ghost m0 = ark_mem@;
    let p = ark_mem.get_mri_prb();
    let stages: i32 = ark_mem.get_mri_mth().stages;
    let n: i32 = if stage < stages {
        stage
    } else {
        stages
    };
    let h: sunrealtype = ark_mem.get_stp().h;
    let map: Vec<i32> = ark_mem.get_stage_map();
    let fse: Vec<N_Vector> = ark_mem.get_Fse();
    let fsi: Vec<N_Vector> = ark_mem.get_Fsi();
    match ark_mem.take_stepper() {
        None => ARK_INVALID_TABLE,
        Some(s) => {
            let MRIStepInnerStepper { ops, sc, forcing } = s;
            let mut f: Vec<N_Vector> = forcing;
            proof {
                reveal(MRIStepInnerStepper::view);
                lemma_take_keeps_table(m0);
            }
            let flag: i32 = match ark_mem.table() {
                None => ARK_INVALID_TABLE,
                Some(t) => {
                    let mut ex: bool = p.explicit_rhs;
                    let mut im: bool = p.implicit_rhs;
                    if t.type_ == MRISTEP_METHOD_TYPE::MRISTEP_SR {
                        im = false;
                        ex = true;
                    }
                    let mut x: Vec<N_Vector> = no_vectors();
                    push_stage_vectors(ex, im, &map, &fse, &fsi, n, &mut x);
                    assert(nvecs(x@) =~= stage_vectors(
                        ex,
                        im,
                        map@,
                        nvecs(fse@),
                        nvecs(fsi@),
                        count(n),
                    ));
                    let scale: sunrealtype = h / (tf - t0);
                    fill_forcing_poly(scale, ex, im, &map, t, stage, n, &x, &mut f)
                },
            };
            let s1: MRIStepInnerStepper = MRIStepInnerStepper {
                ops,
                sc: InnerScalars { tshift: t0, tscale: tf - t0, ..sc },
                forcing: f,
            };
            proof {
                lemma_swap_stepper(m0, None, Some(s1@));
            }
            ark_mem.set_stepper(Some(s1));
            flag
        },
    }
}

/// Taking the inner stepper out leaves the table where it is.
proof fn lemma_take_keeps_table(m: MemView)
    ensures
        mri(mput_stepper(m, None)).MRIC() == mri(m).MRIC(),
{
    reveal(mput_stepper);
    reveal(crate::arkode_mem::with_mri);
    reveal(mri);
}

/// The user's function before a fast evolution, handed the forcing.
#[verifier::opaque]
pub open spec fn before_fast<E: ArkEnv>(m: MemView, e: E, t0: sunrealtype) -> Run<E> {
    match (mri(m).prb().pre_inner_evolve, mri(m).stepper()) {
        (Some(f), Some(s)) => {
            let r = e.forcing_reply(f, t0, s.sc().nforcing, s.forcing());
            Run {
                m: mput_stepper(m, Some(InnerView { forcing: part(r.out), ..s })),
                e: r.env,
                flag: if r.flag != 0 {
                    ARK_OUTERTOINNER_FAIL
                } else {
                    ARK_SUCCESS
                },
            }
        },
        _ => Run { m, e, flag: ARK_SUCCESS },
    }
}

fn mriStep_BeforeFast<E: ArkEnv>(ark_mem: &mut ARKodeMemRec, env: &mut E, t0: sunrealtype) -> (flag:
    i32)
    ensures
        final(ark_mem)@ == before_fast(old(ark_mem)@, *old(env), t0).m,
        *final(env) == before_fast(old(ark_mem)@, *old(env), t0).e,
        flag == before_fast(old(ark_mem)@, *old(env), t0).flag,
{
    reveal(before_fast);
    let ghost m0 = ark_mem@;
    match ark_mem.get_mri_prb().pre_inner_evolve {
        None => ARK_SUCCESS,
        Some(id) => {
            if !ark_mem.has_stepper() {
                return ARK_SUCCESS;
            }
            match ark_mem.take_stepper() {
                None => ARK_SUCCESS,
                Some(s) => {
                    let MRIStepInnerStepper { ops, sc, forcing } = s;
                    let mut f: Vec<N_Vector> = forcing;
                    proof {
                        reveal(MRIStepInnerStepper::view);
                    }
                    let retval: i32 = env.pre_inner_evolve(id, t0, sc.nforcing, &mut f);
                    let s1: MRIStepInnerStepper = MRIStepInnerStepper { ops, sc, forcing: f };
                    proof {
                        lemma_swap_stepper(m0, None, Some(s1@));
                    }
                    ark_mem.set_stepper(Some(s1));
                    if retval != 0 {
                        ARK_OUTERTOINNER_FAIL
                    } else {
                        ARK_SUCCESS
                    }
                },
            }
        },
    }
}

/// The kind of the step controller: none where the stage does not count
/// towards the fast error or there is no controller.
#[verifier::opaque]
pub open spec fn adapt_kind<E: ArkEnv>(m: MemView, e: E, wanted: bool) -> Run<E> {
    match controller(m) {
        Some(id) if wanted => module_run(m, e, ModuleCall::ControllerType { id }),
        _ => Run { m, e, flag: SUN_ADAPTCONTROLLER_NONE },
    }
}

/// Asks for the kind of the step controller.
pub fn mriStep_AdaptKind<E: ArkEnv>(ark_mem: &mut ARKodeMemRec, env: &mut E, wanted: bool) -> (kind:
    i32)
    ensures
        final(ark_mem)@ == adapt_kind(old(ark_mem)@, *old(env), wanted).m,
        *final(env) == adapt_kind(old(ark_mem)@, *old(env), wanted).e,
        kind == adapt_kind(old(ark_mem)@, *old(env), wanted).flag,
{
    reveal(adapt_kind);
    if !wanted {
        return SUN_ADAPTCONTROLLER_NONE;
    }
    match ark_controller(ark_mem) {
        None => SUN_ADAPTCONTROLLER_NONE,
        Some(id) => call_module(ark_mem, env, ModuleCall::ControllerType { id }),
    }
}

/// A recoverable fast failure counted; the integrator will count a solver
/// failure for it, which is taken off here.
#[verifier::opaque]
pub open spec fn count_fast_failure(m: MemView) -> MemView {
    let c = mri(m).cnt();
    let m1 = mput_cnt(m, MriCounts { inner_fails: c.inner_fails.wrapping_add(1), ..c });
    put_cnt(m1, ArkCounts { ncfn: m1.cnt().ncfn.wrapping_sub(1), ..m1.cnt() })
}

fn mriStep_CountFastFailure(ark_mem: &mut ARKodeMemRec)
    ensures
        final(ark_mem)@ == count_fast_failure(old(ark_mem)@),
{
    reveal(count_fast_failure);
    let c: MriCounts = ark_mem.get_mri_cnt();
    ark_mem.set_mri_cnt(MriCounts { inner_fails: c.inner_fails.wrapping_add(1), ..c });
    let a: ArkCounts = ark_mem.get_cnt();
    ark_mem.set_cnt(ArkCounts { ncfn: a.ncfn.wrapping_sub(1), ..a });
}

/// The fast error estimate read where the controller adapts the fast
/// tolerance, relative to the slow tolerance.
#[verifier::opaque]
pub open spec fn read_fast_error<E: ArkEnv>(m: MemView, e: E, kind: i32) -> Run<E> {
    if kind == SUN_ADAPTCONTROLLER_MRI_H_TOL {
        let r = fast_error(m, e);
        if r.flag != ARK_SUCCESS {
            Run { m: r.m, e: r.e, flag: ARK_INNERSTEP_FAIL }
        } else {
            let a = mri(r.m).adp();
            Run {
                m: mput_adp(
                    r.m,
                    MriAdapt { inner_dsm: r_div(a.inner_dsm, r.m.tol().reltol), ..a },
                ),
                e: r.e,
                flag: ARK_SUCCESS,
            }
        }
    } else {
        Run { m, e, flag: ARK_SUCCESS }
    }
}

fn mriStep_ReadFastError<E: ArkEnv>(ark_mem: &mut ARKodeMemRec, env: &mut E, kind: i32) -> (flag: i32)
    ensures
        final(ark_mem)@ == read_fast_error(old(ark_mem)@, *old(env), kind).m,
        *final(env) == read_fast_error(old(ark_mem)@, *old(env), kind).e,
        flag == read_fast_error(old(ark_mem)@, *old(env), kind).flag,
{
    reveal(read_fast_error);
    if kind == SUN_ADAPTCONTROLLER_MRI_H_TOL {
        let retval: i32 = mriStep_FastError(ark_mem, env);
        if retval != ARK_SUCCESS {
            return ARK_INNERSTEP_FAIL;
        }
        let a: MriAdapt = ark_mem.get_mri_adp();
        let x: sunrealtype = a.inner_dsm / ark_mem.get_tol().reltol;
        ark_mem.set_mri_adp(MriAdapt { inner_dsm: x, ..a });
    }
    ARK_SUCCESS
}

/// A stage that evolves the fast problem over `[t0, tf]`: the user's
/// functions around it, and the fast error where the stage counts towards it.
/// A recoverable failure asks for another attempt at the step.
#[verifier::opaque]
pub open spec fn stage_erk_fast<E: ArkEnv>(
    m: MemView,
    e: E,
    t0: sunrealtype,
    tf: sunrealtype,
    y: NVec,
    get_inner_dsm: bool,
) -> RunV<E> {
    let a = before_fast(m, e, t0);
    let k = adapt_kind(a.m, a.e, get_inner_dsm);
    let v = fast_evolve(k.m, k.e, t0, tf, y);
    let d = read_fast_error(v.m, v.e, k.flag);
    let p = process(d.e, UserFn::PostInnerEvolve, mri(d.m).prb().post_inner_evolve, tf, v.v);
    if a.flag != ARK_SUCCESS {
        RunV { m: a.m, e: a.e, v: y, flag: a.flag }
    } else if v.flag < 0 {
        RunV { m: v.m, e: v.e, v: v.v, flag: ARK_INNERSTEP_FAIL }
    } else if v.flag > 0 {
        RunV { m: count_fast_failure(v.m), e: v.e, v: v.v, flag: TRY_AGAIN }
    } else if d.flag != ARK_SUCCESS {
        RunV { m: d.m, e: d.e, v: v.v, flag: d.flag }
    } else {
        RunV {
            m: d.m,
            e: p.env,
            v: p.out,
            flag: if p.flag != 0 {
                ARK_INNERTOOUTER_FAIL
            } else {
                ARK_SUCCESS
            },
        }
    }
}

/// Performs a stage that evolves the fast problem, from `ycur` at `t0` to
/// `ycur` at `tf`.
pub fn mriStep_StageERKFast<E: ArkEnv>(
    ark_mem: &mut ARKodeMemRec,
    env: &mut E,
    t0: sunrealtype,
    tf: sunrealtype,
    ycur: &mut N_Vector,
    get_inner_dsm: sunbooleantype,
) -> (flag: i32)
    ensures
        ({
            let o = stage_erk_fast(
                old(ark_mem)@,
                *old(env),
                t0,
                tf,
                old(ycur)@,
                get_inner_dsm,
            );
            &&& final(ark_mem)@ == o.m
            &&& *final(env) == o.e
            &&& final(ycur)@ == o.v
            &&& flag == o.flag
        }),
{
    reveal(stage_erk_fast);
    let retval: i32 = mriStep_BeforeFast(ark_mem, env, t0);
    if retval != ARK_SUCCESS {
        return retval;
    }
    let kind: i32 = mriStep_AdaptKind(ark_mem, env, get_inner_dsm);
    let retval: i32 = mriStep_FastEvolve(ark_mem, env, t0, tf, ycur);
    if retval < 0 {
        return ARK_INNERSTEP_FAIL;
    }
    if retval > 0 {
        mriStep_CountFastFailure(ark_mem);
        return TRY_AGAIN;
    }
    let retval: i32 = mriStep_ReadFastError(ark_mem, env, kind);
    if retval != ARK_SUCCESS {
        return retval;
    }
    let f = ark_mem.get_mri_prb().post_inner_evolve;
    let retval: i32 = call_process(env, UserFn::PostInnerEvolve, f, tf, ycur);
    if retval != 0 {
        return ARK_INNERTOOUTER_FAIL;
    }
    ARK_SUCCESS
}

} // verus!
