//! Right-hand sides of the MRI stepper: slow explicit and implicit parts,
//! forcing by an outer integrator, and the fast part of the inner stepper.
use crate::arkode_codes::{
    ARK_FULLRHS_END, ARK_FULLRHS_OTHER, ARK_FULLRHS_START, ARK_ILL_INPUT, ARK_MEM_NULL,
    ARK_PRERHSFN_FAIL, ARK_RHSFUNC_FAIL, ARK_SUCCESS,
};
use crate::arkode_impl::{
    ARKodeMemRec, FnId, MRIStepInnerStepper, MemView, MriCounts, MriForcing, MriProblem,
};
use crate::arkode_mem::{
    lemma_swap_stepper, mput_Fse, mput_Fsi, mput_cnt, mput_prb, mput_sdata, mput_stepper, mri,
    put_tempv2,
};
use crate::binary64::{r_div, r_mul, r_sub, sunrealtype};
use crate::env::{plain_call, ArkEnv, UserFn, UserReply};
use crate::inner_stepper::{inner_fullrhs, mriStepInnerStepper_FullRhs};
use crate::nvector::{
    copy_vector, entry, no_vectors, nth, nvecs, push_vector, put, set_entry, v_comb, v_lin, v_scale,
    NVec, N_VLinearCombination, N_VLinearSum, N_VScale, N_Vector,
};
use crate::outcome::{Run, RunV, RunYF};
use crate::sundials_types::ONE;
use vstd::prelude::*;

verus! {

/// Presence of the stepper memory.
pub fn mriStep_AccessARKODEStepMem(arkode_mem: &ARKodeMemRec) -> (flag: i32)
    ensures
        flag == access_step_mem(arkode_mem@),
{
    mriStep_AccessStepMem(arkode_mem)
}

/// Success where a time stepper is attached.
pub open spec fn access_step_mem(m: MemView) -> i32 {
    if m.step_mem() is Some {
        ARK_SUCCESS
    } else {
        ARK_MEM_NULL
    }
}

/// Presence of the stepper memory.
pub fn mriStep_AccessStepMem(ark_mem: &ARKodeMemRec) -> (flag: i32)
    ensures
        flag == access_step_mem(ark_mem@),
{
    if ark_mem.has_step_mem() {
        ARK_SUCCESS
    } else {
        ARK_MEM_NULL
    }
}

/// A user function that may change `y` in place; nothing where none is attached.
pub open spec fn process<E: ArkEnv>(
    e: E,
    role: UserFn,
    f: Option<FnId>,
    t: sunrealtype,
    y: NVec,
) -> UserReply<E> {
    match f {
        None => UserReply { env: e, out: y, flag: 0 },
        Some(id) => e.user_reply(plain_call(role, id, t), y, y),
    }
}

/// Calls a user function that may change `y` in place.
pub fn call_process<E: ArkEnv>(
    env: &mut E,
    role: UserFn,
    f: Option<FnId>,
    t: sunrealtype,
    y: &mut N_Vector,
) -> (flag: i32)
    ensures
        *final(env) == process(*old(env), role, f, t, old(y)@).env,
        final(y)@ == process(*old(env), role, f, t, old(y)@).out,
        flag == process(*old(env), role, f, t, old(y)@).flag,
{
    match f {
        None => 0,
        Some(id) => {
            let y0: N_Vector = copy_vector(y);
            env.user(plain_call(role, id, t), &y0, y)
        },
    }
}

/// A slow right-hand side; a failure where none is attached.
pub open spec fn slow_part<E: ArkEnv>(
    e: E,
    role: UserFn,
    f: Option<FnId>,
    t: sunrealtype,
    y: NVec,
    out: NVec,
) -> UserReply<E> {
    match f {
        None => UserReply { env: e, out, flag: (-1) as i32 },
        Some(id) => e.user_reply(plain_call(role, id, t), y, out),
    }
}

fn call_slow_part<E: ArkEnv>(
    env: &mut E,
    role: UserFn,
    f: Option<FnId>,
    t: sunrealtype,
    y: &N_Vector,
    ydot: &mut N_Vector,
) -> (flag: i32)
    ensures
        *final(env) == slow_part(*old(env), role, f, t, y@, old(ydot)@).env,
        final(ydot)@ == slow_part(*old(env), role, f, t, y@, old(ydot)@).out,
        flag == slow_part(*old(env), role, f, t, y@, old(ydot)@).flag,
{
    match f {
        None => -1,
        Some(id) => env.user(plain_call(role, id, t), y, ydot),
    }
}

/// The explicit slow right-hand side.
pub open spec fn call_fse<E: ArkEnv>(m: MemView, e: E, t: sunrealtype, y: NVec, out: NVec) -> UserReply<
    E,
> {
    slow_part(e, UserFn::ExplicitRhs, mri(m).prb().fse, t, y, out)
}

/// Evaluates the explicit slow right-hand side.
pub fn mriStep_CallFse<E: ArkEnv>(
    ark_mem: &ARKodeMemRec,
    env: &mut E,
    t: sunrealtype,
    y: &N_Vector,
    ydot: &mut N_Vector,
) -> (flag: i32)
    ensures
        *final(env) == call_fse(ark_mem@, *old(env), t, y@, old(ydot)@).env,
        final(ydot)@ == call_fse(ark_mem@, *old(env), t, y@, old(ydot)@).out,
        flag == call_fse(ark_mem@, *old(env), t, y@, old(ydot)@).flag,
{
    call_slow_part(env, UserFn::ExplicitRhs, ark_mem.get_mri_prb().fse, t, y, ydot)
}

/// The implicit slow right-hand side.
pub open spec fn call_fsi<E: ArkEnv>(m: MemView, e: E, t: sunrealtype, y: NVec, out: NVec) -> UserReply<
    E,
> {
    slow_part(e, UserFn::ImplicitRhs, mri(m).prb().fsi, t, y, out)
}

/// Evaluates the implicit slow right-hand side.
pub fn mriStep_CallFsi<E: ArkEnv>(
    ark_mem: &ARKodeMemRec,
    env: &mut E,
    t: sunrealtype,
    y: &N_Vector,
    ydot: &mut N_Vector,
) -> (flag: i32)
    ensures
        *final(env) == call_fsi(ark_mem@, *old(env), t, y@, old(ydot)@).env,
        final(ydot)@ == call_fsi(ark_mem@, *old(env), t, y@, old(ydot)@).out,
        flag == call_fsi(ark_mem@, *old(env), t, y@, old(ydot)@).flag,
{
    call_slow_part(env, UserFn::ImplicitRhs, ark_mem.get_mri_prb().fsi, t, y, ydot)
}

/// Calls the function that goes before right-hand sides, where one is attached.
pub fn mriStep_CallPreRhsFn<E: ArkEnv>(
    ark_mem: &ARKodeMemRec,
    env: &mut E,
    t: sunrealtype,
    y: &mut N_Vector,
) -> (flag: i32)
    ensures
        ({
            let r = process(*old(env), UserFn::PreRhs, ark_mem@.att().PreRhsFn, t, old(y)@);
            &&& *final(env) == r.env
            &&& final(y)@ == r.out
            &&& flag == r.flag
        }),
{
    call_process(env, UserFn::PreRhs, ark_mem.get_att().PreRhsFn, t, y)
}

/// Calls the stage postprocessing function, where one is attached.
pub fn mriStep_CallPostProcessStageFn<E: ArkEnv>(
    ark_mem: &ARKodeMemRec,
    env: &mut E,
    t: sunrealtype,
    y: &mut N_Vector,
) -> (flag: i32)
    ensures
        ({
            let r = process(
                *old(env),
                UserFn::PostProcessStage,
                ark_mem@.att().PostProcessStageFn,
                t,
                old(y)@,
            );
            &&& *final(env) == r.env
            &&& final(y)@ == r.out
            &&& flag == r.flag
        }),
{
    call_process(env, UserFn::PostProcessStage, ark_mem.get_att().PostProcessStageFn, t, y)
}

/// Calls the step postprocessing function, where one is attached.
pub fn mriStep_CallPostProcessStepFn<E: ArkEnv>(
    ark_mem: &ARKodeMemRec,
    env: &mut E,
    t: sunrealtype,
    y: &mut N_Vector,
) -> (flag: i32)
    ensures
        ({
            let r = process(
                *old(env),
                UserFn::PostProcessStep,
                ark_mem@.att().PostProcessStepFn,
                t,
                old(y)@,
            );
            &&& *final(env) == r.env
            &&& final(y)@ == r.out
            &&& flag == r.flag
        }),
{
    call_process(env, UserFn::PostProcessStep, ark_mem.get_att().PostProcessStepFn, t, y)
}

/// Calls the user's stage predictor, where one is attached.
pub fn mriStep_CallStagePredict<E: ArkEnv>(
    ark_mem: &ARKodeMemRec,
    env: &mut E,
    t: sunrealtype,
    zpred: &mut N_Vector,
) -> (flag: i32)
    ensures
        ({
            let r = process(
                *old(env),
                UserFn::StagePredict,
                mri(ark_mem@).prb().stage_predict,
                t,
                old(zpred)@,
            );
            &&& *final(env) == r.env
            &&& final(zpred)@ == r.out
            &&& flag == r.flag
        }),
{
    call_process(env, UserFn::StagePredict, ark_mem.get_mri_prb().stage_predict, t, zpred)
}

/// `tau^n` for positive `n`, multiplied up from `tau`.
pub open spec fn forcing_power(tau: sunrealtype, n: nat) -> sunrealtype
    decreases n,
{
    if n <= 1 {
        tau
    } else {
        r_mul(forcing_power(tau, (n - 1) as nat), tau)
    }
}

/// Number of forcing terms: the constant one is always there.
pub open spec fn forcing_terms(n: i32) -> nat {
    if n > 1 {
        n as nat
    } else {
        1
    }
}

/// Coefficients of the forcing polynomial at `t`, scaled by `s`.
pub open spec fn forcing_coeffs(frc: MriForcing, t: sunrealtype, s: sunrealtype) -> Seq<sunrealtype> {
    let tau = r_div(r_sub(t, frc.tshift), frc.tscale);
    Seq::new(
        forcing_terms(frc.nforcing),
        |i: int|
            if i == 0 {
                s
            } else {
                r_mul(s, forcing_power(tau, i as nat))
            },
    )
}

/// The forcing vectors that go with the coefficients.
pub open spec fn forcing_list(frc: MriForcing, forcing: Seq<NVec>) -> Seq<NVec> {
    Seq::new(forcing_terms(frc.nforcing), |i: int| nth(forcing, i))
}

/// Appends the terms of the forcing polynomial at `t`, scaled by `s`, to a
/// linear combination, and counts them.
pub fn mriStep_ApplyForcing(
    frc: MriForcing,
    forcing: &Vec<N_Vector>,
    t: sunrealtype,
    s: sunrealtype,
    nvec: &mut i32,
    cvals: &mut Vec<sunrealtype>,
    Xvecs: &mut Vec<N_Vector>,
)
    requires
        *old(nvec) + forcing_terms(frc.nforcing) <= i32::MAX,
    ensures
        final(cvals)@ == old(cvals)@ + forcing_coeffs(frc, t, s),
        nvecs(final(Xvecs)@) == nvecs(old(Xvecs)@) + forcing_list(frc, nvecs(forcing@)),
        *final(nvec) == *old(nvec) + forcing_terms(frc.nforcing),
{
    let ghost c0 = cvals@;
    let ghost x0 = nvecs(Xvecs@);
    let ghost n0 = *nvec;
    cvals.push(s);
    push_vector(Xvecs, entry(forcing, 0));
    *nvec = *nvec + 1;
    let tau: sunrealtype = (t - frc.tshift) / frc.tscale;
    let mut taui: sunrealtype = tau;
    let mut i: i32 = 1;
    while i < frc.nforcing
        invariant
            1 <= i,
            i <= frc.nforcing || i == 1,
            *nvec == n0 + i,
            n0 + forcing_terms(frc.nforcing) <= i32::MAX,
            tau == r_div(r_sub(t, frc.tshift), frc.tscale),
            taui == forcing_power(tau, i as nat),
            cvals@.len() == c0.len() + i,
            nvecs(Xvecs@).len() == x0.len() + i,
            forall|j: int| 0 <= j < c0.len() ==> cvals@[j] == c0[j],
            forall|j: int| 0 <= j < x0.len() ==> nvecs(Xvecs@)[j] == x0[j],
            cvals@[c0.len() as int] == s,
            forall|j: int|
                c0.len() < j < c0.len() + i ==> cvals@[j] == r_mul(
                    s,
                    forcing_power(tau, (j - c0.len()) as nat),
                ),
            forall|j: int|
                x0.len() <= j < x0.len() + i ==> nvecs(Xvecs@)[j] == nth(
                    nvecs(forcing@),
                    j - x0.len(),
                ),
        decreases frc.nforcing - i,
    {
        cvals.push(s * taui);
        push_vector(Xvecs, entry(forcing, i));
        taui = taui * tau;
        *nvec = *nvec + 1;
        i = i + 1;
    }
    assert(cvals@ =~= c0 + forcing_coeffs(frc, t, s));
    assert(nvecs(Xvecs@) =~= x0 + forcing_list(frc, nvecs(forcing@)));
}

/// `v` plus the forcing polynomial of the outer integrator at `t`.
#[verifier::opaque]
pub open spec fn forced(m: MemView, t: sunrealtype, v: NVec) -> NVec {
    let frc = mri(m).frc();
    v_comb(
        Seq::<sunrealtype>::empty().push(ONE()) + forcing_coeffs(frc, t, ONE()),
        Seq::<NVec>::empty().push(v) + forcing_list(frc, mri(m).forcing()),
        v,
    )
}

/// Adds the forcing polynomial of the outer integrator.
pub fn mriStep_AddForcing(ark_mem: &ARKodeMemRec, t: sunrealtype, v: &N_Vector) -> (r: N_Vector)
    ensures
        r@ == forced(ark_mem@, t, v@),
{
    reveal(forced);
    let frc: MriForcing = ark_mem.get_mri_frc();
    let forcing: Vec<N_Vector> = ark_mem.get_forcing();
    let mut cvals: Vec<sunrealtype> = Vec::new();
    let mut Xvecs: Vec<N_Vector> = no_vectors();
    cvals.push(ONE());
    push_vector(&mut Xvecs, copy_vector(v));
    let mut nvec: i32 = 0;
    mriStep_ApplyForcing(frc, &forcing, t, ONE(), &mut nvec, &mut cvals, &mut Xvecs);
    let (r, _) = N_VLinearCombination(&cvals, &Xvecs, v);
    r
}

/// Entry `i` of the explicit stage right-hand sides replaced; where both kinds
/// share their storage the implicit ones follow.
#[verifier::opaque]
pub open spec fn write_fse(m: MemView, i: int, v: NVec) -> MemView {
    let m1 = mput_Fse(m, put(mri(m).Fse(), i, v));
    if mri(m1).mth().unify_Fs {
        mput_Fsi(m1, mri(m1).Fse())
    } else {
        m1
    }
}

pub fn mriStep_WriteFse(ark_mem: &mut ARKodeMemRec, i: i32, v: N_Vector)
    ensures
        final(ark_mem)@ == write_fse(old(ark_mem)@, i as int, v@),
{
    reveal(write_fse);
    let mut a: Vec<N_Vector> = ark_mem.get_Fse();
    set_entry(&mut a, i, v);
    ark_mem.set_Fse(a);
    if ark_mem.get_mri_mth().unify_Fs {
        let b: Vec<N_Vector> = ark_mem.get_Fse();
        ark_mem.set_Fsi(b);
    }
}

/// Entry `i` of the implicit stage right-hand sides replaced; where both kinds
/// share their storage the explicit ones follow.
#[verifier::opaque]
pub open spec fn write_fsi(m: MemView, i: int, v: NVec) -> MemView {
    let m1 = mput_Fsi(m, put(mri(m).Fsi(), i, v));
    if mri(m1).mth().unify_Fs {
        mput_Fse(m1, mri(m1).Fsi())
    } else {
        m1
    }
}

pub fn mriStep_WriteFsi(ark_mem: &mut ARKodeMemRec, i: i32, v: N_Vector)
    ensures
        final(ark_mem)@ == write_fsi(old(ark_mem)@, i as int, v@),
{
    reveal(write_fsi);
    let mut a: Vec<N_Vector> = ark_mem.get_Fsi();
    set_entry(&mut a, i, v);
    ark_mem.set_Fsi(a);
    if ark_mem.get_mri_mth().unify_Fs {
        let b: Vec<N_Vector> = ark_mem.get_Fsi();
        ark_mem.set_Fse(b);
    }
}

/// The memory with the count of explicit evaluations raised.
#[verifier::opaque]
pub open spec fn count_fse(m: MemView) -> MemView {
    let c = mri(m).cnt();
    mput_cnt(m, MriCounts { nfse: c.nfse.wrapping_add(1), ..c })
}

pub fn mriStep_CountFse(ark_mem: &mut ARKodeMemRec)
    ensures
        final(ark_mem)@ == count_fse(old(ark_mem)@),
{
    reveal(count_fse);
    let c: MriCounts = ark_mem.get_mri_cnt();
    ark_mem.set_mri_cnt(MriCounts { nfse: c.nfse.wrapping_add(1), ..c });
}

/// The memory with the count of implicit evaluations raised.
#[verifier::opaque]
pub open spec fn count_fsi(m: MemView) -> MemView {
    let c = mri(m).cnt();
    mput_cnt(m, MriCounts { nfsi: c.nfsi.wrapping_add(1), ..c })
}

pub fn mriStep_CountFsi(ark_mem: &mut ARKodeMemRec)
    ensures
        final(ark_mem)@ == count_fsi(old(ark_mem)@),
{
    reveal(count_fsi);
    let c: MriCounts = ark_mem.get_mri_cnt();
    ark_mem.set_mri_cnt(MriCounts { nfsi: c.nfsi.wrapping_add(1), ..c });
}

/// The memory with the first explicit evaluation marked as current.
#[verifier::opaque]
pub open spec fn mark_fse(m: MemView) -> MemView {
    mput_prb(m, MriProblem { fse_is_current: true, ..mri(m).prb() })
}

fn mark_fse_current(ark_mem: &mut ARKodeMemRec)
    ensures
        final(ark_mem)@ == mark_fse(old(ark_mem)@),
{
    reveal(mark_fse);
    let p: MriProblem = ark_mem.get_mri_prb();
    ark_mem.set_mri_prb(MriProblem { fse_is_current: true, ..p });
}

/// The memory with the first implicit evaluation marked as current.
#[verifier::opaque]
pub open spec fn mark_fsi(m: MemView) -> MemView {
    mput_prb(m, MriProblem { fsi_is_current: true, ..mri(m).prb() })
}

fn mark_fsi_current(ark_mem: &mut ARKodeMemRec)
    ensures
        final(ark_mem)@ == mark_fsi(old(ark_mem)@),
{
    reveal(mark_fsi);
    let p: MriProblem = ark_mem.get_mri_prb();
    ark_mem.set_mri_prb(MriProblem { fsi_is_current: true, ..p });
}

/// Evaluation of the implicit part into the first stage: counted, marked as
/// current (`early`: even when it fails), with the forcing added where the
/// implicit part carries it.
#[verifier::opaque]
pub open spec fn eval_fsi<E: ArkEnv>(m: MemView, e: E, t: sunrealtype, y: NVec, early: bool) -> Run<
    E,
> {
    let r = call_fsi(m, e, t, y, nth(mri(m).Fsi(), 0));
    let m1 = count_fsi(write_fsi(m, 0, r.out));
    let m2 = mark_fsi(m1);
    if r.flag != 0 {
        Run {
            m: if early {
                m2
            } else {
                m1
            },
            e: r.env,
            flag: ARK_RHSFUNC_FAIL,
        }
    } else if mri(m2).frc().impforcing {
        Run {
            m: write_fsi(m2, 0, forced(m2, t, nth(mri(m2).Fsi(), 0))),
            e: r.env,
            flag: ARK_SUCCESS,
        }
    } else {
        Run { m: m2, e: r.env, flag: ARK_SUCCESS }
    }
}

fn mriStep_EvalFsi<E: ArkEnv>(
    ark_mem: &mut ARKodeMemRec,
    env: &mut E,
    t: sunrealtype,
    y: &N_Vector,
    early: bool,
) -> (flag: i32)
    ensures
        final(ark_mem)@ == eval_fsi(old(ark_mem)@, *old(env), t, y@, early).m,
        *final(env) == eval_fsi(old(ark_mem)@, *old(env), t, y@, early).e,
        flag == eval_fsi(old(ark_mem)@, *old(env), t, y@, early).flag,
{
    reveal(eval_fsi);
    let a: Vec<N_Vector> = ark_mem.get_Fsi();
    let mut v: N_Vector = entry(&a, 0);
    let retval: i32 = mriStep_CallFsi(ark_mem, env, t, y, &mut v);
    mriStep_WriteFsi(ark_mem, 0, v);
    mriStep_CountFsi(ark_mem);
    if retval != 0 {
        if early {
            mark_fsi_current(ark_mem);
        }
        return ARK_RHSFUNC_FAIL;
    }
    mark_fsi_current(ark_mem);
    if ark_mem.get_mri_frc().impforcing {
        let a: Vec<N_Vector> = ark_mem.get_Fsi();
        let w: N_Vector = mriStep_AddForcing(ark_mem, t, &entry(&a, 0));
        mriStep_WriteFsi(ark_mem, 0, w);
    }
    ARK_SUCCESS
}

/// Evaluation of the explicit part into the first stage.
#[verifier::opaque]
pub open spec fn eval_fse<E: ArkEnv>(m: MemView, e: E, t: sunrealtype, y: NVec, early: bool) -> Run<
    E,
> {
    let r = call_fse(m, e, t, y, nth(mri(m).Fse(), 0));
    let m1 = count_fse(write_fse(m, 0, r.out));
    let m2 = mark_fse(m1);
    if r.flag != 0 {
        Run {
            m: if early {
                m2
            } else {
                m1
            },
            e: r.env,
            flag: ARK_RHSFUNC_FAIL,
        }
    } else if mri(m2).frc().expforcing {
        Run {
            m: write_fse(m2, 0, forced(m2, t, nth(mri(m2).Fse(), 0))),
            e: r.env,
            flag: ARK_SUCCESS,
        }
    } else {
        Run { m: m2, e: r.env, flag: ARK_SUCCESS }
    }
}

fn mriStep_EvalFse<E: ArkEnv>(
    ark_mem: &mut ARKodeMemRec,
    env: &mut E,
    t: sunrealtype,
    y: &N_Vector,
    early: bool,
) -> (flag: i32)
    ensures
        final(ark_mem)@ == eval_fse(old(ark_mem)@, *old(env), t, y@, early).m,
        *final(env) == eval_fse(old(ark_mem)@, *old(env), t, y@, early).e,
        flag == eval_fse(old(ark_mem)@, *old(env), t, y@, early).flag,
{
    reveal(eval_fse);
    let a: Vec<N_Vector> = ark_mem.get_Fse();
    let mut v: N_Vector = entry(&a, 0);
    let retval: i32 = mriStep_CallFse(ark_mem, env, t, y, &mut v);
    mriStep_WriteFse(ark_mem, 0, v);
    mriStep_CountFse(ark_mem);
    if retval != 0 {
        if early {
            mark_fse_current(ark_mem);
        }
        return ARK_RHSFUNC_FAIL;
    }
    mark_fse_current(ark_mem);
    if ark_mem.get_mri_frc().expforcing {
        let a: Vec<N_Vector> = ark_mem.get_Fse();
        let w: N_Vector = mriStep_AddForcing(ark_mem, t, &entry(&a, 0));
        mriStep_WriteFse(ark_mem, 0, w);
    }
    ARK_SUCCESS
}

/// Implicit part, then explicit part, as `imp` and `exp` ask.
#[verifier::opaque]
pub open spec fn eval_slow<E: ArkEnv>(
    m: MemView,
    e: E,
    t: sunrealtype,
    y: NVec,
    imp: bool,
    exp: bool,
    early: bool,
) -> Run<E> {
    let a = if imp {
        eval_fsi(m, e, t, y, early)
    } else {
        Run { m, e, flag: ARK_SUCCESS }
    };
    if a.flag != ARK_SUCCESS || !exp {
        a
    } else {
        eval_fse(a.m, a.e, t, y, early)
    }
}

fn mriStep_EvalSlow<E: ArkEnv>(
    ark_mem: &mut ARKodeMemRec,
    env: &mut E,
    t: sunrealtype,
    y: &N_Vector,
    imp: bool,
    exp: bool,
    early: bool,
) -> (flag: i32)
    ensures
        final(ark_mem)@ == eval_slow(old(ark_mem)@, *old(env), t, y@, imp, exp, early).m,
        *final(env) == eval_slow(old(ark_mem)@, *old(env), t, y@, imp, exp, early).e,
        flag == eval_slow(old(ark_mem)@, *old(env), t, y@, imp, exp, early).flag,
{
    reveal(eval_slow);
    if imp {
        let retval: i32 = mriStep_EvalFsi(ark_mem, env, t, y, early);
        if retval != ARK_SUCCESS {
            return retval;
        }
    }
    if exp {
        return mriStep_EvalFse(ark_mem, env, t, y, early);
    }
    ARK_SUCCESS
}

/// The slow right-hand side at the first stage, into `f`.
#[verifier::opaque]
pub open spec fn combine_slow(m: MemView, f: NVec) -> NVec {
    let p = mri(m).prb();
    let fe = nth(mri(m).Fse(), 0);
    let fi = nth(mri(m).Fsi(), 0);
    if p.explicit_rhs && p.implicit_rhs {
        v_lin(ONE(), fe, ONE(), fi, f)
    } else if p.implicit_rhs {
        v_scale(ONE(), fi, f)
    } else {
        v_scale(ONE(), fe, f)
    }
}

fn mriStep_CombineSlow(ark_mem: &ARKodeMemRec, f: &N_Vector) -> (r: N_Vector)
    ensures
        r@ == combine_slow(ark_mem@, f@),
{
    reveal(combine_slow);
    let p: MriProblem = ark_mem.get_mri_prb();
    let fe: N_Vector = entry(&ark_mem.get_Fse(), 0);
    let fi: N_Vector = entry(&ark_mem.get_Fsi(), 0);
    if p.explicit_rhs && p.implicit_rhs {
        N_VLinearSum(ONE(), &fe, ONE(), &fi, f)
    } else if p.implicit_rhs {
        N_VScale(ONE(), &fi, f)
    } else {
        N_VScale(ONE(), &fe, f)
    }
}

/// The slow right-hand side `fse + fsi` at `(t, y)`, always evaluated.
#[verifier::opaque]
pub open spec fn slow_rhs<E: ArkEnv>(m: MemView, e: E, t: sunrealtype, y: NVec, f: NVec) -> RunYF<E> {
    let pre = process(e, UserFn::PreRhs, m.att().PreRhsFn, t, y);
    let p = mri(m).prb();
    if access_step_mem(m) != ARK_SUCCESS {
        RunYF { m, e, y, f, flag: ARK_MEM_NULL }
    } else if pre.flag != 0 {
        RunYF { m, e: pre.env, y: pre.out, f, flag: ARK_PRERHSFN_FAIL }
    } else {
        let r = eval_slow(m, pre.env, t, pre.out, p.implicit_rhs, p.explicit_rhs, true);
        if r.flag != ARK_SUCCESS {
            RunYF { m: r.m, e: r.e, y: pre.out, f, flag: r.flag }
        } else {
            RunYF { m: r.m, e: r.e, y: pre.out, f: combine_slow(r.m, f), flag: ARK_SUCCESS }
        }
    }
}

/// Evaluates the slow right-hand side.
pub fn mriStep_SlowRHS<E: ArkEnv>(
    ark_mem: &mut ARKodeMemRec,
    env: &mut E,
    t: sunrealtype,
    y: &mut N_Vector,
    f: &mut N_Vector,
) -> (flag: i32)
    ensures
        ({
            let o = slow_rhs(old(ark_mem)@, *old(env), t, old(y)@, old(f)@);
            &&& final(ark_mem)@ == o.m
            &&& *final(env) == o.e
            &&& final(y)@ == o.y
            &&& final(f)@ == o.f
            &&& flag == o.flag
        }),
{
    reveal(slow_rhs);
    let retval: i32 = mriStep_AccessStepMem(ark_mem);
    if retval != ARK_SUCCESS {
        return retval;
    }
    let retval: i32 = mriStep_CallPreRhsFn(ark_mem, env, t, y);
    if retval != 0 {
        return ARK_PRERHSFN_FAIL;
    }
    let p: MriProblem = ark_mem.get_mri_prb();
    let retval: i32 = mriStep_EvalSlow(ark_mem, env, t, y, p.implicit_rhs, p.explicit_rhs, true);
    if retval != ARK_SUCCESS {
        return retval;
    }
    *f = mriStep_CombineSlow(ark_mem, f);
    ARK_SUCCESS
}

/// Which slow parts have to be evaluated anew: (pre-RHS call, implicit, explicit).
pub open spec fn stale_parts(m: MemView, mode: i32) -> (bool, bool, bool) {
    let p = mri(m).prb();
    let current = m.flg().fn_is_current;
    if mode == ARK_FULLRHS_START {
        (
            !p.fse_is_current || !p.fsi_is_current || !current,
            p.implicit_rhs && (!p.fsi_is_current || !current),
            p.explicit_rhs && (!p.fse_is_current || !current),
        )
    } else {
        (!current, !current && p.implicit_rhs, !current && p.explicit_rhs)
    }
}

/// Stored slow right-hand sides at the first stage brought up to date: at the
/// start of a step the stale ones, at its end all of them unless the full
/// right-hand side is current.
#[verifier::opaque]
pub open spec fn update_f0<E: ArkEnv>(m: MemView, e: E, t: sunrealtype, y: NVec, mode: i32) -> RunV<
    E,
> {
    let st = stale_parts(m, mode);
    if mode != ARK_FULLRHS_START && mode != ARK_FULLRHS_END {
        RunV { m, e, v: y, flag: ARK_RHSFUNC_FAIL }
    } else {
        let pre = if st.0 {
            process(e, UserFn::PreRhs, m.att().PreRhsFn, t, y)
        } else {
            UserReply { env: e, out: y, flag: 0 }
        };
        if pre.flag != 0 {
            RunV { m, e: pre.env, v: pre.out, flag: ARK_PRERHSFN_FAIL }
        } else {
            let r = eval_slow(m, pre.env, t, pre.out, st.1, st.2, false);
            RunV { m: r.m, e: r.e, v: pre.out, flag: r.flag }
        }
    }
}

/// Updates the stored slow right-hand sides at the first stage.
pub fn mriStep_UpdateF0<E: ArkEnv>(
    ark_mem: &mut ARKodeMemRec,
    env: &mut E,
    t: sunrealtype,
    y: &mut N_Vector,
    mode: i32,
) -> (flag: i32)
    ensures
        ({
            let o = update_f0(old(ark_mem)@, *old(env), t, old(y)@, mode);
            &&& final(ark_mem)@ == o.m
            &&& *final(env) == o.e
            &&& final(y)@ == o.v
            &&& flag == o.flag
        }),
{
    reveal(update_f0);
    if mode != ARK_FULLRHS_START && mode != ARK_FULLRHS_END {
        return ARK_RHSFUNC_FAIL;
    }
    let p: MriProblem = ark_mem.get_mri_prb();
    let current: bool = ark_mem.get_flg().fn_is_current;
    let any: bool;
    let imp: bool;
    let exp: bool;
    if mode == ARK_FULLRHS_START {
        any = !p.fse_is_current || !p.fsi_is_current || !current;
        imp = p.implicit_rhs && (!p.fsi_is_current || !current);
        exp = p.explicit_rhs && (!p.fse_is_current || !current);
    } else {
        any = !current;
        imp = !current && p.implicit_rhs;
        exp = !current && p.explicit_rhs;
    }
    if any {
        let retval: i32 = mriStep_CallPreRhsFn(ark_mem, env, t, y);
        if retval != 0 {
            return ARK_PRERHSFN_FAIL;
        }
    }
    mriStep_EvalSlow(ark_mem, env, t, y, imp, exp, false)
}

/// Fast right-hand side through the attached inner stepper, into `f`; refused
/// where no stepper is attached or it has no right-hand side.
#[verifier::opaque]
pub open spec fn fast_rhs<E: ArkEnv>(m: MemView, e: E, t: sunrealtype, y: NVec, f: NVec) -> RunV<E> {
    match mri(m).stepper() {
        None => RunV { m, e, v: f, flag: ARK_ILL_INPUT },
        Some(s) => {
            let r = inner_fullrhs(s, e, t, y, f, ARK_FULLRHS_OTHER);
            RunV {
                m: mput_stepper(m, Some(r.s)),
                e: r.e,
                v: r.v,
                flag: r.flag,
            }
        },
    }
}

fn mriStep_FastRHS<E: ArkEnv>(
    ark_mem: &mut ARKodeMemRec,
    env: &mut E,
    t: sunrealtype,
    y: &N_Vector,
    f: &mut N_Vector,
) -> (flag: i32)
    ensures
        ({
            let o = fast_rhs(old(ark_mem)@, *old(env), t, y@, old(f)@);
            &&& final(ark_mem)@ == o.m
            &&& *final(env) == o.e
            &&& final(f)@ == o.v
            &&& flag == o.flag
        }),
{
    reveal(fast_rhs);
    if !ark_mem.has_stepper() {
        return ARK_ILL_INPUT;
    }
    let ghost m0 = ark_mem@;
    match ark_mem.take_stepper() {
        None => ARK_ILL_INPUT,
        Some(s0) => {
            let mut s: MRIStepInnerStepper = s0;
            let flag: i32 = mriStepInnerStepper_FullRhs(
                &mut s,
                env,
                t,
                y,
                f,
                ARK_FULLRHS_OTHER,
            );
            proof {
                lemma_swap_stepper(m0, None, Some(s@));
            }
            ark_mem.set_stepper(Some(s));
            flag
        },
    }
}

/// Whether the attached inner stepper has a right-hand side.
pub open spec fn has_fast_rhs(m: MemView) -> bool {
    mri(m).stepper() matches Some(s) && s.ops().fullrhs is Some
}

/// Slow parts of the first stage added to the fast part `f`.
#[verifier::opaque]
pub open spec fn add_slow(m: MemView, f: NVec) -> NVec {
    let p = mri(m).prb();
    let fe = nth(mri(m).Fse(), 0);
    let fi = nth(mri(m).Fsi(), 0);
    if p.explicit_rhs && p.implicit_rhs {
        v_comb(
            Seq::<sunrealtype>::empty().push(ONE()).push(ONE()).push(ONE()),
            Seq::<NVec>::empty().push(f).push(fe).push(fi),
            f,
        )
    } else if p.implicit_rhs {
        v_lin(ONE(), fi, ONE(), f, f)
    } else {
        v_lin(ONE(), fe, ONE(), f, f)
    }
}

fn mriStep_AddSlow(ark_mem: &ARKodeMemRec, f: &N_Vector) -> (r: N_Vector)
    ensures
        r@ == add_slow(ark_mem@, f@),
{
    reveal(add_slow);
    let p: MriProblem = ark_mem.get_mri_prb();
    let fe: N_Vector = entry(&ark_mem.get_Fse(), 0);
    let fi: N_Vector = entry(&ark_mem.get_Fsi(), 0);
    if p.explicit_rhs && p.implicit_rhs {
        let mut cvals: Vec<sunrealtype> = Vec::new();
        cvals.push(ONE());
        cvals.push(ONE());
        cvals.push(ONE());
        let mut Xvecs: Vec<N_Vector> = no_vectors();
        push_vector(&mut Xvecs, copy_vector(f));
        push_vector(&mut Xvecs, fe);
        push_vector(&mut Xvecs, fi);
        let (r, _) = N_VLinearCombination(&cvals, &Xvecs, f);
        r
    } else if p.implicit_rhs {
        N_VLinearSum(ONE(), &fi, ONE(), f, f)
    } else {
        N_VLinearSum(ONE(), &fe, ONE(), f, f)
    }
}

/// Full right-hand side at the start or end of a step.
#[verifier::opaque]
pub open spec fn full_rhs_stored<E: ArkEnv>(
    m: MemView,
    e: E,
    t: sunrealtype,
    y: NVec,
    f: NVec,
    mode: i32,
) -> RunYF<E> {
    let u = update_f0(m, e, t, y, mode);
    if u.flag != 0 {
        RunYF { m: u.m, e: u.e, y: u.v, f, flag: ARK_RHSFUNC_FAIL }
    } else {
        let r = fast_rhs(u.m, u.e, t, u.v, f);
        if r.flag != ARK_SUCCESS {
            RunYF { m: r.m, e: r.e, y: u.v, f: r.v, flag: ARK_RHSFUNC_FAIL }
        } else {
            RunYF { m: r.m, e: r.e, y: u.v, f: add_slow(r.m, r.v), flag: ARK_SUCCESS }
        }
    }
}

fn mriStep_FullRHSStored<E: ArkEnv>(
    ark_mem: &mut ARKodeMemRec,
    env: &mut E,
    t: sunrealtype,
    y: &mut N_Vector,
    f: &mut N_Vector,
    mode: i32,
) -> (flag: i32)
    ensures
        ({
            let o = full_rhs_stored(old(ark_mem)@, *old(env), t, old(y)@, old(f)@, mode);
            &&& final(ark_mem)@ == o.m
            &&& *final(env) == o.e
            &&& final(y)@ == o.y
            &&& final(f)@ == o.f
            &&& flag == o.flag
        }),
{
    reveal(full_rhs_stored);
    let retval: i32 = mriStep_UpdateF0(ark_mem, env, t, y, mode);
    if retval != 0 {
        return ARK_RHSFUNC_FAIL;
    }
    let retval: i32 = mriStep_FastRHS(ark_mem, env, t, y, f);
    if retval != ARK_SUCCESS {
        return ARK_RHSFUNC_FAIL;
    }
    *f = mriStep_AddSlow(ark_mem, f);
    ARK_SUCCESS
}

/// Implicit part into the solver scratch vector and explicit part into the
/// second temporary vector, each counted, up to the first failure.
#[verifier::opaque]
pub open spec fn eval_scratch<E: ArkEnv>(m: MemView, e: E, t: sunrealtype, y: NVec) -> Run<E> {
    let p = mri(m).prb();
    let a = call_fsi(m, e, t, y, mri(m).sdata());
    let m1 = if p.implicit_rhs {
        count_fsi(mput_sdata(m, a.out))
    } else {
        m
    };
    let e1 = if p.implicit_rhs {
        a.env
    } else {
        e
    };
    if p.implicit_rhs && a.flag != 0 {
        Run { m: m1, e: e1, flag: ARK_RHSFUNC_FAIL }
    } else if !p.explicit_rhs {
        Run { m: m1, e: e1, flag: ARK_SUCCESS }
    } else {
        let b = call_fse(m1, e1, t, y, m1.tempv2());
        Run {
            m: count_fse(put_tempv2(m1, b.out)),
            e: b.env,
            flag: if b.flag != 0 {
                ARK_RHSFUNC_FAIL
            } else {
                ARK_SUCCESS
            },
        }
    }
}

fn mriStep_EvalScratch<E: ArkEnv>(
    ark_mem: &mut ARKodeMemRec,
    env: &mut E,
    t: sunrealtype,
    y: &N_Vector,
) -> (flag: i32)
    ensures
        final(ark_mem)@ == eval_scratch(old(ark_mem)@, *old(env), t, y@).m,
        *final(env) == eval_scratch(old(ark_mem)@, *old(env), t, y@).e,
        flag == eval_scratch(old(ark_mem)@, *old(env), t, y@).flag,
{
    reveal(eval_scratch);
    let p: MriProblem = ark_mem.get_mri_prb();
    if p.implicit_rhs {
        let mut v: N_Vector = ark_mem.get_sdata();
        let retval: i32 = mriStep_CallFsi(ark_mem, env, t, y, &mut v);
        ark_mem.set_sdata(v);
        mriStep_CountFsi(ark_mem);
        if retval != 0 {
            return ARK_RHSFUNC_FAIL;
        }
    }
    if p.explicit_rhs {
        let mut v: N_Vector = ark_mem.get_tempv2();
        let retval: i32 = mriStep_CallFse(ark_mem, env, t, y, &mut v);
        ark_mem.set_tempv2(v);
        mriStep_CountFse(ark_mem);
        if retval != 0 {
            return ARK_RHSFUNC_FAIL;
        }
    }
    ARK_SUCCESS
}

/// Coefficients and vectors of the full right-hand side out of the scratch
/// vectors: fast part, implicit part, explicit part, forcing.
pub open spec fn scratch_terms(m: MemView, t: sunrealtype, f: NVec) -> (
    Seq<sunrealtype>,
    Seq<NVec>,
) {
    let p = mri(m).prb();
    let frc = mri(m).frc();
    let c0 = Seq::<sunrealtype>::empty().push(ONE());
    let x0 = Seq::<NVec>::empty().push(f);
    let c1 = if p.implicit_rhs {
        c0.push(ONE())
    } else {
        c0
    };
    let x1 = if p.implicit_rhs {
        x0.push(mri(m).sdata())
    } else {
        x0
    };
    let c2 = if p.explicit_rhs {
        c1.push(ONE())
    } else {
        c1
    };
    let x2 = if p.explicit_rhs {
        x1.push(m.tempv2())
    } else {
        x1
    };
    if frc.expforcing || frc.impforcing {
        (c2 + forcing_coeffs(frc, t, ONE()), x2 + forcing_list(frc, mri(m).forcing()))
    } else {
        (c2, x2)
    }
}

/// The full right-hand side out of the scratch vectors.
#[verifier::opaque]
pub open spec fn combine_scratch(m: MemView, t: sunrealtype, f: NVec) -> NVec {
    v_comb(scratch_terms(m, t, f).0, scratch_terms(m, t, f).1, f)
}

fn mriStep_CombineScratch(ark_mem: &ARKodeMemRec, t: sunrealtype, f: &N_Vector) -> (r: N_Vector)
    ensures
        r@ == combine_scratch(ark_mem@, t, f@),
{
    reveal(combine_scratch);
    let p: MriProblem = ark_mem.get_mri_prb();
    let frc: MriForcing = ark_mem.get_mri_frc();
    let mut cvals: Vec<sunrealtype> = Vec::new();
    let mut Xvecs: Vec<N_Vector> = no_vectors();
    cvals.push(ONE());
    push_vector(&mut Xvecs, copy_vector(f));
    if p.implicit_rhs {
        cvals.push(ONE());
        push_vector(&mut Xvecs, ark_mem.get_sdata());
    }
    if p.explicit_rhs {
        cvals.push(ONE());
        push_vector(&mut Xvecs, ark_mem.get_tempv2());
    }
    if frc.expforcing || frc.impforcing {
        let mut nvec: i32 = 0;
        let forcing: Vec<N_Vector> = ark_mem.get_forcing();
        mriStep_ApplyForcing(frc, &forcing, t, ONE(), &mut nvec, &mut cvals, &mut Xvecs);
    }
    let (r, _) = N_VLinearCombination(&cvals, &Xvecs, f);
    r
}

/// Full right-hand side at a point that no step is at: every part evaluated,
/// nothing stored that a step reuses.
#[verifier::opaque]
pub open spec fn full_rhs_other<E: ArkEnv>(m: MemView, e: E, t: sunrealtype, y: NVec, f: NVec) -> RunYF<
    E,
> {
    let r = fast_rhs(m, e, t, y, f);
    if r.flag != ARK_SUCCESS {
        RunYF { m: r.m, e: r.e, y, f: r.v, flag: ARK_RHSFUNC_FAIL }
    } else {
        let pre = process(r.e, UserFn::PreRhs, r.m.att().PreRhsFn, t, y);
        if pre.flag != 0 {
            RunYF { m: r.m, e: pre.env, y: pre.out, f: r.v, flag: ARK_PRERHSFN_FAIL }
        } else {
            let s = eval_scratch(r.m, pre.env, t, pre.out);
            if s.flag != ARK_SUCCESS {
                RunYF { m: s.m, e: s.e, y: pre.out, f: r.v, flag: s.flag }
            } else {
                RunYF {
                    m: s.m,
                    e: s.e,
                    y: pre.out,
                    f: combine_scratch(s.m, t, r.v),
                    flag: ARK_SUCCESS,
                }
            }
        }
    }
}

fn mriStep_FullRHSOther<E: ArkEnv>(
    ark_mem: &mut ARKodeMemRec,
    env: &mut E,
    t: sunrealtype,
    y: &mut N_Vector,
    f: &mut N_Vector,
) -> (flag: i32)
    ensures
        ({
            let o = full_rhs_other(old(ark_mem)@, *old(env), t, old(y)@, old(f)@);
            &&& final(ark_mem)@ == o.m
            &&& *final(env) == o.e
            &&& final(y)@ == o.y
            &&& final(f)@ == o.f
            &&& flag == o.flag
        }),
{
    reveal(full_rhs_other);
    let retval: i32 = mriStep_FastRHS(ark_mem, env, t, y, f);
    if retval != ARK_SUCCESS {
        return ARK_RHSFUNC_FAIL;
    }
    let retval: i32 = mriStep_CallPreRhsFn(ark_mem, env, t, y);
    if retval != 0 {
        return ARK_PRERHSFN_FAIL;
    }
    let retval: i32 = mriStep_EvalScratch(ark_mem, env, t, y);
    if retval != ARK_SUCCESS {
        return retval;
    }
    *f = mriStep_CombineScratch(ark_mem, t, f);
    ARK_SUCCESS
}

/// The full right-hand side `fse + fsi + ff`. Fails without stepper memory,
/// without a fast right-hand side, and for an unknown mode.
#[verifier::opaque]
pub open spec fn full_rhs<E: ArkEnv>(
    m: MemView,
    e: E,
    t: sunrealtype,
    y: NVec,
    f: NVec,
    mode: i32,
) -> RunYF<E> {
    if access_step_mem(m) != ARK_SUCCESS {
        RunYF { m, e, y, f, flag: ARK_MEM_NULL }
    } else if !has_fast_rhs(m) {
        RunYF { m, e, y, f, flag: ARK_RHSFUNC_FAIL }
    } else if mode == ARK_FULLRHS_START || mode == ARK_FULLRHS_END {
        full_rhs_stored(m, e, t, y, f, mode)
    } else if mode == ARK_FULLRHS_OTHER {
        full_rhs_other(m, e, t, y, f)
    } else {
        RunYF { m, e, y, f, flag: ARK_RHSFUNC_FAIL }
    }
}

/// Evaluates the full right-hand side.
pub fn mriStep_FullRHS<E: ArkEnv>(
    ark_mem: &mut ARKodeMemRec,
    env: &mut E,
    t: sunrealtype,
    y: &mut N_Vector,
    f: &mut N_Vector,
    mode: i32,
) -> (flag: i32)
    ensures
        ({
            let o = full_rhs(old(ark_mem)@, *old(env), t, old(y)@, old(f)@, mode);
            &&& final(ark_mem)@ == o.m
            &&& *final(env) == o.e
            &&& final(y)@ == o.y
            &&& final(f)@ == o.f
            &&& flag == o.flag
        }),
{
    reveal(full_rhs);
    let retval: i32 = mriStep_AccessStepMem(ark_mem);
    if retval != ARK_SUCCESS {
        return retval;
    }
    if !ark_mem.stepper_ops().fullrhs.is_some() {
        return ARK_RHSFUNC_FAIL;
    }
    if mode == ARK_FULLRHS_START || mode == ARK_FULLRHS_END {
        mriStep_FullRHSStored(ark_mem, env, t, y, f, mode)
    } else if mode == ARK_FULLRHS_OTHER {
        mriStep_FullRHSOther(ark_mem, env, t, y, f)
    } else {
        ARK_RHSFUNC_FAIL
    }
}

} // verus!
