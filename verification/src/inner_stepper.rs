//! Inner (fast) steppers: what a slow integrator needs of a fast one.
use crate::arkode_codes::{
    ARK_FULLRHS_END, ARK_FULLRHS_START, ARK_ILL_INPUT, ARK_INNERSTEP_FAIL, ARK_MEM_FAIL,
    ARK_SUCCESS, ARK_SUNSTEPPER_ERR, SUN_SUCCESS,
};
use crate::arkode_impl::{
    zero_inner_ops, zero_stepper, FnId, InnerOps, InnerScalars, InnerView, MRIStepInnerStepper,
};
use crate::arkode_vectors::{
    account, arkAllocVecArray, arkFreeVecArray, arkResizeVecArray, clones, resize_array, unaccount,
};
use crate::binary64::{r_div, r_mul, r_sub, sunrealtype};
use crate::env::{ArkEnv, InnerCall, InnerFn};
use crate::nvector::{
    copy_vector, copy_vectors, entry, null_vector, nth, nvecs, part, v_comb, v_null, v_space, NVec,
    N_VLinearCombination, N_VSpace, N_Vector,
};
use crate::sundials_types::{sunbooleantype, sunindextype, ONE, ZERO};
use vstd::prelude::*;

verus! {

/// The stepper with its scalars replaced.
pub open spec fn with_sc(s: InnerView, x: InnerScalars) -> InnerView {
    InnerView { sc: part(x), ..s }
}

/// The stepper with its operations replaced.
pub open spec fn with_ops(s: InnerView, x: InnerOps) -> InnerView {
    InnerView { ops: part(x), ..s }
}

/// The stepper with its forcing vectors replaced.
pub open spec fn with_forcing(s: InnerView, x: Seq<NVec>) -> InnerView {
    InnerView { forcing: part(x), ..s }
}

/// The stepper with its last flag replaced.
pub open spec fn with_flag(s: InnerView, flag: i32) -> InnerView {
    with_sc(s, InnerScalars { last_flag: flag, ..s.sc() })
}

/// Makes an empty stepper. Always succeeds.
pub fn MRIStepInnerStepper_Create(stepper: &mut Option<MRIStepInnerStepper>) -> (flag: i32)
    ensures
        flag == ARK_SUCCESS,
        *final(stepper) is Some,
        (*final(stepper))->0@ == zero_stepper(),
{
    *stepper = Some(MRIStepInnerStepper::zeroed());
    ARK_SUCCESS
}

/// Function names of the routines that drive a generic stepper.
pub const SUN_EVOLVE: FnId = 1;

pub const SUN_FULLRHS: FnId = 2;

pub const SUN_RESET: FnId = 3;

/// A stepper that drives a generic stepper, named by `content`.
pub open spec fn from_sunstepper(content: u64) -> InnerView {
    with_ops(
        zero_stepper(),
        InnerOps {
            content: Some(content),
            evolve: Some(SUN_EVOLVE),
            fullrhs: Some(SUN_FULLRHS),
            reset: Some(SUN_RESET),
            ..zero_inner_ops()
        },
    )
}

/// Makes a stepper that drives a generic stepper.
pub fn MRIStepInnerStepper_CreateFromSUNStepper(
    sunstepper: u64,
    stepper: &mut Option<MRIStepInnerStepper>,
) -> (flag: i32)
    ensures
        flag == ARK_SUCCESS,
        *final(stepper) is Some,
        (*final(stepper))->0@ == from_sunstepper(sunstepper),
{
    reveal(zero_stepper);
    let mut s: MRIStepInnerStepper = MRIStepInnerStepper::zeroed();
    MRIStepInnerStepper_SetContent(&mut s, Some(sunstepper));
    MRIStepInnerStepper_SetEvolveFn(&mut s, Some(SUN_EVOLVE));
    MRIStepInnerStepper_SetFullRhsFn(&mut s, Some(SUN_FULLRHS));
    MRIStepInnerStepper_SetResetFn(&mut s, Some(SUN_RESET));
    *stepper = Some(s);
    ARK_SUCCESS
}

/// Releases a stepper. Always succeeds.
pub fn MRIStepInnerStepper_Free(stepper: &mut Option<MRIStepInnerStepper>) -> (flag: i32)
    ensures
        flag == ARK_SUCCESS,
        *final(stepper) is None,
{
    *stepper = None;
    ARK_SUCCESS
}

/// Attaches content.
pub fn MRIStepInnerStepper_SetContent(stepper: &mut MRIStepInnerStepper, content: Option<u64>) -> (
    flag: i32)
    ensures
        flag == ARK_SUCCESS,
        final(stepper)@ == with_ops(old(stepper)@, InnerOps { content, ..old(stepper)@.ops() }),
{
    reveal(MRIStepInnerStepper::view);
    stepper.ops = InnerOps { content, ..stepper.ops };
    ARK_SUCCESS
}

/// Swaps the content with the caller's.
pub fn MRIStepInnerStepper_GetContent(
    stepper: &mut MRIStepInnerStepper,
    content: &mut Option<u64>,
) -> (flag: i32)
    ensures
        flag == ARK_SUCCESS,
        *final(content) == old(stepper)@.ops().content,
        final(stepper)@ == with_ops(
            old(stepper)@,
            InnerOps { content: *old(content), ..old(stepper)@.ops() },
        ),
{
    reveal(MRIStepInnerStepper::view);
    let mine: Option<u64> = stepper.ops.content;
    stepper.ops = InnerOps { content: *content, ..stepper.ops };
    *content = mine;
    ARK_SUCCESS
}

/// Copies the content out; the stepper keeps it.
pub fn MRIStepInnerStepper_GetContentAs(
    stepper: &MRIStepInnerStepper,
    content: &mut Option<u64>,
) -> (flag: i32)
    requires
        stepper@.ops().content is Some,
    ensures
        flag == ARK_SUCCESS,
        *final(content) == stepper@.ops().content,
{
    reveal(MRIStepInnerStepper::view);
    *content = stepper.ops.content;
    ARK_SUCCESS
}

/// Attaches or removes the evolve operation.
pub fn MRIStepInnerStepper_SetEvolveFn(stepper: &mut MRIStepInnerStepper, f: Option<FnId>) -> (flag:
    i32)
    ensures
        flag == ARK_SUCCESS,
        final(stepper)@ == with_ops(old(stepper)@, InnerOps { evolve: f, ..old(stepper)@.ops() }),
{
    reveal(MRIStepInnerStepper::view);
    stepper.ops = InnerOps { evolve: f, ..stepper.ops };
    ARK_SUCCESS
}

/// Attaches or removes the right-hand side operation.
pub fn MRIStepInnerStepper_SetFullRhsFn(stepper: &mut MRIStepInnerStepper, f: Option<FnId>) -> (flag:
    i32)
    ensures
        flag == ARK_SUCCESS,
        final(stepper)@ == with_ops(old(stepper)@, InnerOps { fullrhs: f, ..old(stepper)@.ops() }),
{
    reveal(MRIStepInnerStepper::view);
    stepper.ops = InnerOps { fullrhs: f, ..stepper.ops };
    ARK_SUCCESS
}

/// Attaches or removes the reset operation.
pub fn MRIStepInnerStepper_SetResetFn(stepper: &mut MRIStepInnerStepper, f: Option<FnId>) -> (flag:
    i32)
    ensures
        flag == ARK_SUCCESS,
        final(stepper)@ == with_ops(old(stepper)@, InnerOps { reset: f, ..old(stepper)@.ops() }),
{
    reveal(MRIStepInnerStepper::view);
    stepper.ops = InnerOps { reset: f, ..stepper.ops };
    ARK_SUCCESS
}

/// Attaches or removes the operation that reads the accumulated error.
pub fn MRIStepInnerStepper_SetAccumulatedErrorGetFn(
    stepper: &mut MRIStepInnerStepper,
    f: Option<FnId>,
) -> (flag: i32)
    ensures
        flag == ARK_SUCCESS,
        final(stepper)@ == with_ops(old(stepper)@, InnerOps { geterror: f, ..old(stepper)@.ops() }),
{
    reveal(MRIStepInnerStepper::view);
    stepper.ops = InnerOps { geterror: f, ..stepper.ops };
    ARK_SUCCESS
}

/// Attaches or removes the operation that resets the accumulated error.
pub fn MRIStepInnerStepper_SetAccumulatedErrorResetFn(
    stepper: &mut MRIStepInnerStepper,
    f: Option<FnId>,
) -> (flag: i32)
    ensures
        flag == ARK_SUCCESS,
        final(stepper)@ == with_ops(
            old(stepper)@,
            InnerOps { reseterror: f, ..old(stepper)@.ops() },
        ),
{
    reveal(MRIStepInnerStepper::view);
    stepper.ops = InnerOps { reseterror: f, ..stepper.ops };
    ARK_SUCCESS
}

/// Attaches or removes the operation that sets the relative tolerance.
pub fn MRIStepInnerStepper_SetRTolFn(stepper: &mut MRIStepInnerStepper, f: Option<FnId>) -> (flag:
    i32)
    ensures
        flag == ARK_SUCCESS,
        final(stepper)@ == with_ops(old(stepper)@, InnerOps { setrtol: f, ..old(stepper)@.ops() }),
{
    reveal(MRIStepInnerStepper::view);
    stepper.ops = InnerOps { setrtol: f, ..stepper.ops };
    ARK_SUCCESS
}

/// `tau^n`, multiplied up from one.
pub open spec fn tau_power(tau: sunrealtype, n: nat) -> sunrealtype
    decreases n,
{
    if n == 0 {
        ONE()
    } else {
        r_mul(tau_power(tau, (n - 1) as nat), tau)
    }
}

/// Coefficients of a vector followed by `n` forcing vectors: one, then the
/// powers of the normalised time.
pub open spec fn forcing_weights(tau: sunrealtype, n: nat) -> Seq<sunrealtype> {
    Seq::new(
        n + 1,
        |i: int|
            if i == 0 {
                ONE()
            } else {
                tau_power(tau, (i - 1) as nat)
            },
    )
}

/// A vector followed by the first `n` forcing vectors.
pub open spec fn forcing_vectors(f: NVec, forcing: Seq<NVec>, n: nat) -> Seq<NVec> {
    Seq::new(
        n + 1,
        |i: int|
            if i == 0 {
                f
            } else {
                nth(forcing, i - 1)
            },
    )
}

/// Number of active forcing vectors.
pub open spec fn active(n: i32) -> nat {
    if n > 0 {
        n as nat
    } else {
        0
    }
}

/// `f` plus the forcing polynomial of the stepper at time `t`.
pub open spec fn add_forcing(s: InnerView, t: sunrealtype, f: NVec) -> NVec {
    let tau = r_div(r_sub(t, s.sc().tshift), s.sc().tscale);
    let n = active(s.sc().nforcing);
    v_comb(forcing_weights(tau, n), forcing_vectors(f, s.forcing(), n), f)
}

/// Adds the forcing polynomial at time `t` to `f`.
pub fn MRIStepInnerStepper_AddForcing(
    stepper: &MRIStepInnerStepper,
    t: sunrealtype,
    f: &mut N_Vector,
) -> (flag: i32)
    ensures
        flag == ARK_SUCCESS,
        final(f)@ == add_forcing(stepper@, t, old(f)@),
{
    reveal(MRIStepInnerStepper::view);
    let mut vals: Vec<sunrealtype> = Vec::new();
    let mut vecs: Vec<N_Vector> = Vec::new();
    vals.push(ONE());
    vecs.push(copy_vector(f));
    let tau: sunrealtype = (t - stepper.sc.tshift) / stepper.sc.tscale;
    let mut taui: sunrealtype = ONE();
    let n: i32 = stepper.sc.nforcing;
    let mut i: i32 = 0;
    while i < n
        invariant
            0 <= i,
            i <= n || i == 0,
            n == stepper.sc.nforcing,
            taui == tau_power(tau, i as nat),
            vals@.len() == i + 1,
            vecs@.len() == i + 1,
            vals@[0] == ONE(),
            vecs@[0]@ == old(f)@,
            forall|j: int| 1 <= j <= i ==> vals@[j] == tau_power(tau, (j - 1) as nat),
            forall|j: int| 1 <= j <= i ==> vecs@[j]@ == nth(nvecs(stepper.forcing@), j - 1),
        decreases n - i,
    {
        vals.push(taui);
        vecs.push(entry(&stepper.forcing, i));
        taui = taui * tau;
        i = i + 1;
    }
    let ghost k = active(n);
    assert(vals@ =~= forcing_weights(tau, k));
    assert(nvecs(vecs@) =~= forcing_vectors(old(f)@, nvecs(stepper.forcing@), k));
    let (r, _) = N_VLinearCombination(&vals, &vecs, f);
    *f = r;
    ARK_SUCCESS
}

/// Hands out the forcing window and vectors.
pub fn MRIStepInnerStepper_GetForcingData(
    stepper: &MRIStepInnerStepper,
    tshift: &mut sunrealtype,
    tscale: &mut sunrealtype,
    forcing: &mut Vec<N_Vector>,
    nforcing: &mut i32,
) -> (flag: i32)
    ensures
        flag == ARK_SUCCESS,
        *final(tshift) == stepper@.sc().tshift,
        *final(tscale) == stepper@.sc().tscale,
        nvecs(final(forcing)@) == stepper@.forcing(),
        *final(nforcing) == stepper@.sc().nforcing,
{
    reveal(MRIStepInnerStepper::view);
    *tshift = stepper.sc.tshift;
    *tscale = stepper.sc.tscale;
    *forcing = copy_vectors(&stepper.forcing);
    *nforcing = stepper.sc.nforcing;
    ARK_SUCCESS
}

/// A stepper can be used when it can evolve.
pub fn mriStepInnerStepper_HasRequiredOps(stepper: &MRIStepInnerStepper) -> (flag: i32)
    ensures
        flag == if stepper@.ops().evolve is Some {
            ARK_SUCCESS
        } else {
            ARK_ILL_INPUT
        },
{
    reveal(MRIStepInnerStepper::view);
    if stepper.ops.evolve.is_some() {
        ARK_SUCCESS
    } else {
        ARK_ILL_INPUT
    }
}

/// Whether slow and fast tolerances can be adapted together.
pub open spec fn supports_rtol(o: InnerOps) -> bool {
    o.geterror is Some && o.reseterror is Some && o.setrtol is Some
}

pub fn mriStepInnerStepper_SupportsRTolAdaptivity(stepper: &MRIStepInnerStepper) -> (r:
    sunbooleantype)
    ensures
        r == supports_rtol(stepper@.ops()),
{
    reveal(MRIStepInnerStepper::view);
    stepper.ops.geterror.is_some() && stepper.ops.reseterror.is_some()
        && stepper.ops.setrtol.is_some()
}

/// Stepper, environment, vector, number and flag after an operation.
pub struct InnerOut<E> {
    pub s: InnerView,
    pub e: E,
    pub v: NVec,
    pub x: sunrealtype,
    pub flag: i32,
}

/// Calls operation `op` and records its flag; without the operation the flag
/// is `missing` and nothing changes.
pub open spec fn inner_op<E: ArkEnv>(
    s: InnerView,
    e: E,
    op: Option<FnId>,
    c: InnerCall,
    y: NVec,
    out: NVec,
    x: sunrealtype,
    missing: i32,
) -> InnerOut<E> {
    match op {
        None => InnerOut { s, e, v: out, x, flag: missing },
        Some(f) => {
            let r = e.inner_reply(InnerCall { f, ..c }, s, y, out, x);
            InnerOut { s: with_flag(s, r.flag), e: r.env, v: r.out, x: r.x, flag: r.flag }
        },
    }
}

/// A call with no function chosen yet.
#[verifier::allow_in_spec]
pub fn inner_call(
    op: InnerFn,
    t0: sunrealtype,
    t1: sunrealtype,
    mode: i32,
    x: sunrealtype,
) -> InnerCall
    returns
        (InnerCall { op, f: 0, t0, t1, mode, x }),
{
    InnerCall { op, f: 0, t0, t1, mode, x }
}

fn call_op<E: ArkEnv>(
    stepper: &mut MRIStepInnerStepper,
    env: &mut E,
    op: Option<FnId>,
    c: InnerCall,
    y: &N_Vector,
    out: &mut N_Vector,
    x: &mut sunrealtype,
    missing: i32,
) -> (flag: i32)
    ensures
        ({
            let o = inner_op(old(stepper)@, *old(env), op, c, y@, old(out)@, *old(x), missing);
            &&& final(stepper)@ == o.s
            &&& *final(env) == o.e
            &&& final(out)@ == o.v
            &&& *final(x) == o.x
            &&& flag == o.flag
        }),
{
    reveal(MRIStepInnerStepper::view);
    match op {
        None => missing,
        Some(f) => {
            let flag: i32 = env.inner(InnerCall { f, ..c }, stepper, y, out, x);
            stepper.sc = InnerScalars { last_flag: flag, ..stepper.sc };
            flag
        },
    }
}

/// Evolving the fast problem from `t0` to `tout`.
pub open spec fn inner_evolve<E: ArkEnv>(
    s: InnerView,
    e: E,
    t0: sunrealtype,
    tout: sunrealtype,
    y: NVec,
) -> InnerOut<E> {
    inner_op(
        s,
        e,
        s.ops().evolve,
        inner_call(InnerFn::Evolve, t0, tout, 0, ZERO()),
        y,
        y,
        ZERO(),
        ARK_ILL_INPUT,
    )
}

/// Evolves the fast problem; refused where the stepper cannot evolve.
pub fn mriStepInnerStepper_Evolve<E: ArkEnv>(
    stepper: &mut MRIStepInnerStepper,
    env: &mut E,
    t0: sunrealtype,
    tout: sunrealtype,
    y: &mut N_Vector,
) -> (flag: i32)
    ensures
        ({
            let o = inner_evolve(old(stepper)@, *old(env), t0, tout, old(y)@);
            &&& final(stepper)@ == o.s
            &&& *final(env) == o.e
            &&& final(y)@ == o.v
            &&& flag == o.flag
        }),
{
    reveal(MRIStepInnerStepper::view);
    let y0: N_Vector = copy_vector(y);
    let mut x: sunrealtype = ZERO();
    let op: Option<FnId> = stepper.ops.evolve;
    call_op(
        stepper,
        env,
        op,
        inner_call(InnerFn::Evolve, t0, tout, 0, ZERO()),
        &y0,
        y,
        &mut x,
        ARK_ILL_INPUT,
    )
}

/// Evaluating the fast right-hand side.
pub open spec fn inner_fullrhs<E: ArkEnv>(
    s: InnerView,
    e: E,
    t: sunrealtype,
    y: NVec,
    f: NVec,
    mode: i32,
) -> InnerOut<E> {
    inner_op(
        s,
        e,
        s.ops().fullrhs,
        inner_call(InnerFn::FullRhs, t, t, mode, ZERO()),
        y,
        f,
        ZERO(),
        ARK_ILL_INPUT,
    )
}

/// Evaluates the fast right-hand side; refused where the stepper cannot.
pub fn mriStepInnerStepper_FullRhs<E: ArkEnv>(
    stepper: &mut MRIStepInnerStepper,
    env: &mut E,
    t: sunrealtype,
    y: &N_Vector,
    f: &mut N_Vector,
    mode: i32,
) -> (flag: i32)
    ensures
        ({
            let o = inner_fullrhs(old(stepper)@, *old(env), t, y@, old(f)@, mode);
            &&& final(stepper)@ == o.s
            &&& *final(env) == o.e
            &&& final(f)@ == o.v
            &&& flag == o.flag
        }),
{
    reveal(MRIStepInnerStepper::view);
    let mut x: sunrealtype = ZERO();
    let op: Option<FnId> = stepper.ops.fullrhs;
    call_op(
        stepper,
        env,
        op,
        inner_call(InnerFn::FullRhs, t, t, mode, ZERO()),
        y,
        f,
        &mut x,
        ARK_ILL_INPUT,
    )
}

/// Resetting the fast integrator to a state.
pub open spec fn inner_reset<E: ArkEnv>(s: InnerView, e: E, t: sunrealtype, y: NVec) -> InnerOut<
    E,
> {
    inner_op(
        s,
        e,
        s.ops().reset,
        inner_call(InnerFn::Reset, t, t, 0, ZERO()),
        y,
        v_null(),
        ZERO(),
        ARK_SUCCESS,
    )
}

/// Resets the fast integrator; without the operation there is nothing to reset.
pub fn mriStepInnerStepper_Reset<E: ArkEnv>(
    stepper: &mut MRIStepInnerStepper,
    env: &mut E,
    tR: sunrealtype,
    yR: &N_Vector,
) -> (flag: i32)
    ensures
        ({
            let o = inner_reset(old(stepper)@, *old(env), tR, yR@);
            &&& final(stepper)@ == o.s
            &&& *final(env) == o.e
            &&& flag == o.flag
        }),
{
    reveal(MRIStepInnerStepper::view);
    let mut x: sunrealtype = ZERO();
    let mut none: N_Vector = null_vector();
    let op: Option<FnId> = stepper.ops.reset;
    call_op(
        stepper,
        env,
        op,
        inner_call(InnerFn::Reset, tR, tR, 0, ZERO()),
        yR,
        &mut none,
        &mut x,
        ARK_SUCCESS,
    )
}

/// Reading the accumulated error.
pub open spec fn inner_geterror<E: ArkEnv>(s: InnerView, e: E, x: sunrealtype) -> InnerOut<E> {
    inner_op(
        s,
        e,
        s.ops().geterror,
        inner_call(InnerFn::GetError, ZERO(), ZERO(), 0, ZERO()),
        v_null(),
        v_null(),
        x,
        ARK_INNERSTEP_FAIL,
    )
}

/// Reads the accumulated error; a failure where the stepper keeps none.
pub fn mriStepInnerStepper_GetAccumulatedError<E: ArkEnv>(
    stepper: &mut MRIStepInnerStepper,
    env: &mut E,
    accum_error: &mut sunrealtype,
) -> (flag: i32)
    ensures
        ({
            let o = inner_geterror(old(stepper)@, *old(env), *old(accum_error));
            &&& final(stepper)@ == o.s
            &&& *final(env) == o.e
            &&& *final(accum_error) == o.x
            &&& flag == o.flag
        }),
{
    reveal(MRIStepInnerStepper::view);
    let mut none: N_Vector = null_vector();
    let y: N_Vector = null_vector();
    let op: Option<FnId> = stepper.ops.geterror;
    call_op(
        stepper,
        env,
        op,
        inner_call(InnerFn::GetError, ZERO(), ZERO(), 0, ZERO()),
        &y,
        &mut none,
        accum_error,
        ARK_INNERSTEP_FAIL,
    )
}

/// Resetting the accumulated error; a stepper that keeps none needs no reset.
pub open spec fn inner_reseterror<E: ArkEnv>(s: InnerView, e: E) -> InnerOut<E> {
    if s.ops().geterror is Some {
        inner_op(
            s,
            e,
            s.ops().reseterror,
            inner_call(InnerFn::ResetError, ZERO(), ZERO(), 0, ZERO()),
            v_null(),
            v_null(),
            ZERO(),
            ARK_INNERSTEP_FAIL,
        )
    } else {
        InnerOut { s, e, v: v_null(), x: ZERO(), flag: ARK_SUCCESS }
    }
}

/// Resets the accumulated error of a stepper that can report one.
pub fn mriStepInnerStepper_ResetAccumulatedError<E: ArkEnv>(
    stepper: &mut MRIStepInnerStepper,
    env: &mut E,
) -> (flag: i32)
    ensures
        ({
            let o = inner_reseterror(old(stepper)@, *old(env));
            &&& final(stepper)@ == o.s
            &&& *final(env) == o.e
            &&& flag == o.flag
        }),
{
    reveal(MRIStepInnerStepper::view);
    if stepper.ops.geterror.is_some() {
        let mut none: N_Vector = null_vector();
        let y: N_Vector = null_vector();
        let mut x: sunrealtype = ZERO();
        let op: Option<FnId> = stepper.ops.reseterror;
        call_op(
            stepper,
            env,
            op,
            inner_call(InnerFn::ResetError, ZERO(), ZERO(), 0, ZERO()),
            &y,
            &mut none,
            &mut x,
            ARK_INNERSTEP_FAIL,
        )
    } else {
        ARK_SUCCESS
    }
}

/// Setting the relative tolerance of the fast integrator.
pub open spec fn inner_setrtol<E: ArkEnv>(s: InnerView, e: E, rtol: sunrealtype) -> InnerOut<E> {
    inner_op(
        s,
        e,
        s.ops().setrtol,
        inner_call(InnerFn::SetRTol, ZERO(), ZERO(), 0, rtol),
        v_null(),
        v_null(),
        ZERO(),
        ARK_SUCCESS,
    )
}

/// Sets the relative tolerance of the fast integrator, where it has one.
pub fn mriStepInnerStepper_SetRTol<E: ArkEnv>(
    stepper: &mut MRIStepInnerStepper,
    env: &mut E,
    rtol: sunrealtype,
) -> (flag: i32)
    ensures
        ({
            let o = inner_setrtol(old(stepper)@, *old(env), rtol);
            &&& final(stepper)@ == o.s
            &&& *final(env) == o.e
            &&& flag == o.flag
        }),
{
    reveal(MRIStepInnerStepper::view);
    let mut none: N_Vector = null_vector();
    let y: N_Vector = null_vector();
    let mut x: sunrealtype = ZERO();
    let op: Option<FnId> = stepper.ops.setrtol;
    call_op(
        stepper,
        env,
        op,
        inner_call(InnerFn::SetRTol, ZERO(), ZERO(), 0, rtol),
        &y,
        &mut none,
        &mut x,
        ARK_SUCCESS,
    )
}

/// The words that one vector like `tmpl` takes.
pub open spec fn words(tmpl: NVec) -> (i64, i64) {
    if tmpl.ops().nvspace {
        v_space(tmpl)
    } else {
        (0, 0)
    }
}

/// Words of one vector; none where the vector cannot tell.
pub fn vector_words(tmpl: &N_Vector) -> (r: (sunindextype, sunindextype))
    ensures
        r == words(tmpl@),
{
    if tmpl.ops.nvspace {
        N_VSpace(tmpl)
    } else {
        (0, 0)
    }
}

/// Release of the forcing vectors and the workspace.
pub open spec fn inner_freevecs(s: InnerView) -> InnerView {
    let sc = s.sc();
    let had = s.forcing().len() > 0;
    with_sc(
        with_forcing(s, Seq::empty()),
        InnerScalars {
            lrw: if had {
                unaccount(sc.lrw, sc.nforcing_allocated, sc.lrw1)
            } else {
                sc.lrw
            },
            liw: if had {
                unaccount(sc.liw, sc.nforcing_allocated, sc.liw1)
            } else {
                sc.liw
            },
            vals_len: 0,
            ..sc
        },
    )
}

/// Releases the forcing vectors and the workspace. Always succeeds.
pub fn mriStepInnerStepper_FreeVecs(stepper: &mut MRIStepInnerStepper) -> (flag: i32)
    ensures
        flag == ARK_SUCCESS,
        final(stepper)@ == inner_freevecs(old(stepper)@),
{
    reveal(MRIStepInnerStepper::view);
    let sc: InnerScalars = stepper.sc;
    let mut lrw: i64 = sc.lrw;
    let mut liw: i64 = sc.liw;
    let mut forcing: Vec<N_Vector> = copy_vectors(&stepper.forcing);
    arkFreeVecArray(sc.nforcing_allocated, &mut forcing, sc.lrw1, &mut lrw, sc.liw1, &mut liw);
    stepper.forcing = forcing;
    stepper.sc = InnerScalars { lrw, liw, vals_len: 0, ..sc };
    ARK_SUCCESS
}

/// The stepper with room for `count` forcing vectors like `tmpl`.
pub open spec fn inner_allocvecs(s: InnerView, count: i32, tmpl: NVec) -> (InnerView, i32) {
    let sc = s.sc();
    let w = words(tmpl);
    let base = InnerScalars { lrw1: w.0, liw1: w.1, nforcing: count, ..sc };
    let grow = sc.nforcing_allocated < count;
    let dropped = sc.nforcing_allocated != 0 && s.forcing().len() > 0;
    let kept = if sc.nforcing_allocated != 0 {
        Seq::empty()
    } else {
        s.forcing()
    };
    let lrw0 = if dropped {
        unaccount(sc.lrw, sc.nforcing_allocated, w.0)
    } else {
        sc.lrw
    };
    let liw0 = if dropped {
        unaccount(sc.liw, sc.nforcing_allocated, w.1)
    } else {
        sc.liw
    };
    let fresh = kept.len() == 0 && count > 0;
    let lrw1 = if fresh {
        account(lrw0, count, w.0)
    } else {
        lrw0
    };
    let liw1 = if fresh {
        account(liw0, count, w.1)
    } else {
        liw0
    };
    let vecs = if kept.len() > 0 {
        kept
    } else {
        clones(count, tmpl)
    };
    let grown = InnerScalars { lrw: lrw1, liw: liw1, ..base };
    let room = if sc.vals_len == 0 {
        count.wrapping_add(1)
    } else {
        sc.vals_len
    };
    if !grow {
        (with_sc(s, InnerScalars { vals_len: room, ..base }), ARK_SUCCESS)
    } else if kept.len() == 0 && count <= 0 {
        (inner_freevecs(with_sc(with_forcing(s, vecs), grown)), ARK_MEM_FAIL)
    } else {
        (
            with_sc(
                with_forcing(s, vecs),
                InnerScalars { nforcing_allocated: count, vals_len: room, ..grown },
            ),
            ARK_SUCCESS,
        )
    }
}

/// Makes room for `count` forcing vectors.
pub fn mriStepInnerStepper_AllocVecs(
    stepper: &mut MRIStepInnerStepper,
    count: i32,
    tmpl: &N_Vector,
) -> (flag: i32)
    ensures
        final(stepper)@ == inner_allocvecs(old(stepper)@, count, tmpl@).0,
        flag == inner_allocvecs(old(stepper)@, count, tmpl@).1,
{
    reveal(MRIStepInnerStepper::view);
    let w: (i64, i64) = vector_words(tmpl);
    let sc: InnerScalars = stepper.sc;
    stepper.sc = InnerScalars { lrw1: w.0, liw1: w.1, nforcing: count, ..sc };
    if sc.nforcing_allocated < count {
        let mut lrw: i64 = sc.lrw;
        let mut liw: i64 = sc.liw;
        let mut forcing: Vec<N_Vector> = copy_vectors(&stepper.forcing);
        if sc.nforcing_allocated != 0 {
            arkFreeVecArray(sc.nforcing_allocated, &mut forcing, w.0, &mut lrw, w.1, &mut liw);
        }
        let ok: bool = arkAllocVecArray(count, tmpl, &mut forcing, w.0, &mut lrw, w.1, &mut liw);
        stepper.forcing = forcing;
        stepper.sc = InnerScalars { lrw, liw, ..stepper.sc };
        if !ok {
            mriStepInnerStepper_FreeVecs(stepper);
            return ARK_MEM_FAIL;
        }
        stepper.sc = InnerScalars { nforcing_allocated: count, ..stepper.sc };
    }
    if stepper.sc.vals_len == 0 {
        stepper.sc = InnerScalars { vals_len: count.wrapping_add(1), ..stepper.sc };
    }
    ARK_SUCCESS
}

/// Stepper and environment after resizing the forcing vectors.
pub open spec fn inner_resize<E: ArkEnv>(
    s: InnerView,
    e: E,
    resize: Option<FnId>,
    lrw_diff: i64,
    liw_diff: i64,
    tmpl: NVec,
) -> (InnerView, E, i32) {
    let sc = s.sc();
    let o = resize_array(e, resize, sc.nforcing_allocated, tmpl, s.forcing());
    let charged = o.2 && s.forcing().len() > 0;
    (
        with_sc(
            with_forcing(s, o.1),
            InnerScalars {
                lrw: if charged {
                    account(sc.lrw, sc.nforcing_allocated, lrw_diff)
                } else {
                    sc.lrw
                },
                liw: if charged {
                    account(sc.liw, sc.nforcing_allocated, liw_diff)
                } else {
                    sc.liw
                },
                ..sc
            },
        ),
        o.0,
        if o.2 {
            ARK_SUCCESS
        } else {
            ARK_MEM_FAIL
        },
    )
}

/// Resizes the forcing vectors.
pub fn mriStepInnerStepper_Resize<E: ArkEnv>(
    stepper: &mut MRIStepInnerStepper,
    env: &mut E,
    resize: Option<FnId>,
    lrw_diff: sunindextype,
    liw_diff: sunindextype,
    tmpl: &N_Vector,
) -> (flag: i32)
    ensures
        ({
            let o = inner_resize(old(stepper)@, *old(env), resize, lrw_diff, liw_diff, tmpl@);
            &&& final(stepper)@ == o.0
            &&& *final(env) == o.1
            &&& flag == o.2
        }),
{
    reveal(MRIStepInnerStepper::view);
    let sc: InnerScalars = stepper.sc;
    let mut lrw: i64 = sc.lrw;
    let mut liw: i64 = sc.liw;
    let mut forcing: Vec<N_Vector> = copy_vectors(&stepper.forcing);
    let ok: bool = arkResizeVecArray(
        env,
        resize,
        sc.nforcing_allocated,
        tmpl,
        &mut forcing,
        lrw_diff,
        &mut lrw,
        liw_diff,
        &mut liw,
    );
    stepper.forcing = forcing;
    stepper.sc = InnerScalars { lrw, liw, ..sc };
    if ok {
        ARK_SUCCESS
    } else {
        ARK_MEM_FAIL
    }
}

/// The numbers that a listing of the stepper shows: the count of forcing vectors.
pub fn mriStepInnerStepper_PrintMem(stepper: &MRIStepInnerStepper) -> (nforcing: i32)
    ensures
        nforcing == stepper@.sc().nforcing,
{
    reveal(MRIStepInnerStepper::view);
    stepper.sc.nforcing
}

/// The calls that drive a generic stepper.
#[derive(Clone, Copy, Debug)]
pub enum SunCall {
    SetForcing { tshift: sunrealtype, tscale: sunrealtype, n: i32 },
    SetStopTime { t: sunrealtype },
    Evolve { t: sunrealtype },
    FullRhs { t: sunrealtype, mode: i32 },
    Reset { t: sunrealtype },
}

/// Full right-hand side modes of a generic stepper.
pub const SUN_FULLRHS_START: i32 = 0;

pub const SUN_FULLRHS_END: i32 = 1;

pub const SUN_FULLRHS_OTHER: i32 = 2;

/// Answer of a generic stepper.
pub struct SunReply<S> {
    pub s: S,
    pub out: NVec,
    pub err: i32,
}

/// A generic stepper.
pub trait SUNStepper: Sized {
    spec fn reply(self, c: SunCall, forcing: Seq<NVec>, y: NVec, out: NVec) -> SunReply<Self>;

    spec fn flag(self) -> i32;

    /// Calls an operation.
    fn call(&mut self, c: SunCall, forcing: &Vec<N_Vector>, y: &N_Vector, out: &mut N_Vector) -> (err:
        i32)
        ensures
            *final(self) == old(self).reply(c, nvecs(forcing@), y@, old(out)@).s,
            final(out)@ == old(self).reply(c, nvecs(forcing@), y@, old(out)@).out,
            err == old(self).reply(c, nvecs(forcing@), y@, old(out)@).err,
    ;

    /// The flag of the last operation.
    fn last_flag(&self) -> (flag: i32)
        ensures
            flag == self.flag(),
    ;
}

/// A generic stepper on which every operation succeeds and changes nothing.
#[derive(Clone, Copy, Debug)]
pub struct StillStepper {}

impl SUNStepper for StillStepper {
    open spec fn reply(self, c: SunCall, forcing: Seq<NVec>, y: NVec, out: NVec) -> SunReply<
        StillStepper,
    > {
        SunReply { s: self, out, err: 0 }
    }

    open spec fn flag(self) -> i32 {
        0
    }

    fn call(&mut self, c: SunCall, forcing: &Vec<N_Vector>, y: &N_Vector, out: &mut N_Vector) -> (err:
        i32) {
        0
    }

    fn last_flag(&self) -> (flag: i32) {
        0
    }
}

/// Stepper, generic stepper, vector and flag after an operation.
pub struct SunOut<S> {
    pub s: InnerView,
    pub g: S,
    pub v: NVec,
    pub flag: i32,
}

/// One call: the flag of the generic stepper is recorded, and a failure turns
/// into the one flag for such failures.
pub open spec fn sun_call<S: SUNStepper>(
    s: InnerView,
    g: S,
    c: SunCall,
    forcing: Seq<NVec>,
    y: NVec,
    out: NVec,
) -> SunOut<S> {
    let r = g.reply(c, forcing, y, out);
    SunOut {
        s: with_flag(s, r.s.flag()),
        g: r.s,
        v: r.out,
        flag: if r.err != SUN_SUCCESS {
            ARK_SUNSTEPPER_ERR
        } else {
            ARK_SUCCESS
        },
    }
}

fn drive<S: SUNStepper>(
    stepper: &mut MRIStepInnerStepper,
    sun: &mut S,
    c: SunCall,
    forcing: &Vec<N_Vector>,
    y: &N_Vector,
    out: &mut N_Vector,
) -> (flag: i32)
    ensures
        ({
            let o = sun_call(old(stepper)@, *old(sun), c, nvecs(forcing@), y@, old(out)@);
            &&& final(stepper)@ == o.s
            &&& *final(sun) == o.g
            &&& final(out)@ == o.v
            &&& flag == o.flag
        }),
{
    reveal(MRIStepInnerStepper::view);
    let err: i32 = sun.call(c, forcing, y, out);
    stepper.sc = InnerScalars { last_flag: sun.last_flag(), ..stepper.sc };
    if err != SUN_SUCCESS {
        return ARK_SUNSTEPPER_ERR;
    }
    ARK_SUCCESS
}

/// Evolution through a generic stepper: forcing on, stop time, evolve,
/// forcing off; the first failure ends it.
pub open spec fn sun_evolve<S: SUNStepper>(s: InnerView, g: S, tout: sunrealtype, y: NVec) -> SunOut<
    S,
> {
    let sc = s.sc();
    let a = sun_call(
        s,
        g,
        SunCall::SetForcing { tshift: sc.tshift, tscale: sc.tscale, n: sc.nforcing },
        s.forcing(),
        v_null(),
        v_null(),
    );
    let b = sun_call(a.s, a.g, SunCall::SetStopTime { t: tout }, Seq::empty(), v_null(), v_null());
    let c = sun_call(b.s, b.g, SunCall::Evolve { t: tout }, Seq::empty(), y, y);
    let d = sun_call(
        c.s,
        c.g,
        SunCall::SetForcing { tshift: ZERO(), tscale: ONE(), n: 0 },
        Seq::empty(),
        v_null(),
        v_null(),
    );
    if a.flag != ARK_SUCCESS {
        SunOut { v: y, ..a }
    } else if b.flag != ARK_SUCCESS {
        SunOut { v: y, ..b }
    } else if c.flag != ARK_SUCCESS {
        c
    } else {
        SunOut { v: c.v, ..d }
    }
}

/// Evolves the fast problem through a generic stepper.
pub fn mriStepInnerStepper_EvolveSUNStepper<S: SUNStepper>(
    stepper: &mut MRIStepInnerStepper,
    sun: &mut S,
    tout: sunrealtype,
    y: &mut N_Vector,
) -> (flag: i32)
    ensures
        ({
            let o = sun_evolve(old(stepper)@, *old(sun), tout, old(y)@);
            &&& final(stepper)@ == o.s
            &&& *final(sun) == o.g
            &&& final(y)@ == o.v
            &&& flag == o.flag
        }),
{
    let mut tshift: sunrealtype = ZERO();
    let mut tscale: sunrealtype = ZERO();
    let mut forcing: Vec<N_Vector> = Vec::new();
    let mut n: i32 = 0;
    MRIStepInnerStepper_GetForcingData(stepper, &mut tshift, &mut tscale, &mut forcing, &mut n);
    let none: N_Vector = null_vector();
    let empty: Vec<N_Vector> = Vec::new();
    assert(nvecs(empty@) =~= Seq::<NVec>::empty());
    let mut out: N_Vector = null_vector();
    let flag: i32 = drive(
        stepper,
        sun,
        SunCall::SetForcing { tshift, tscale, n },
        &forcing,
        &none,
        &mut out,
    );
    if flag != ARK_SUCCESS {
        return flag;
    }
    let mut out: N_Vector = null_vector();
    let flag: i32 = drive(stepper, sun, SunCall::SetStopTime { t: tout }, &empty, &none, &mut out);
    if flag != ARK_SUCCESS {
        return flag;
    }
    let y0: N_Vector = copy_vector(y);
    let flag: i32 = drive(stepper, sun, SunCall::Evolve { t: tout }, &empty, &y0, y);
    if flag != ARK_SUCCESS {
        return flag;
    }
    let mut out: N_Vector = null_vector();
    drive(
        stepper,
        sun,
        SunCall::SetForcing { tshift: ZERO(), tscale: ONE(), n: 0 },
        &empty,
        &none,
        &mut out,
    )
}

/// The mode of a generic stepper that corresponds to a mode of the integrator.
#[verifier::allow_in_spec]
pub fn sun_mode(mode: i32) -> i32
    returns
        (if mode == ARK_FULLRHS_START {
            SUN_FULLRHS_START
        } else if mode == ARK_FULLRHS_END {
            SUN_FULLRHS_END
        } else {
            SUN_FULLRHS_OTHER
        }),
{
    if mode == ARK_FULLRHS_START {
        SUN_FULLRHS_START
    } else if mode == ARK_FULLRHS_END {
        SUN_FULLRHS_END
    } else {
        SUN_FULLRHS_OTHER
    }
}

/// Evaluates the fast right-hand side through a generic stepper.
pub fn mriStepInnerStepper_FullRhsSUNStepper<S: SUNStepper>(
    stepper: &mut MRIStepInnerStepper,
    sun: &mut S,
    t: sunrealtype,
    y: &N_Vector,
    f: &mut N_Vector,
    ark_mode: i32,
) -> (flag: i32)
    ensures
        ({
            let o = sun_call(
                old(stepper)@,
                *old(sun),
                SunCall::FullRhs { t, mode: sun_mode(ark_mode) },
                Seq::empty(),
                y@,
                old(f)@,
            );
            &&& final(stepper)@ == o.s
            &&& *final(sun) == o.g
            &&& final(f)@ == o.v
            &&& flag == o.flag
        }),
{
    let empty: Vec<N_Vector> = Vec::new();
    assert(nvecs(empty@) =~= Seq::<NVec>::empty());
    drive(stepper, sun, SunCall::FullRhs { t, mode: sun_mode(ark_mode) }, &empty, y, f)
}

/// Resets the fast problem through a generic stepper.
pub fn mriStepInnerStepper_ResetSUNStepper<S: SUNStepper>(
    stepper: &mut MRIStepInnerStepper,
    sun: &mut S,
    tR: sunrealtype,
    yR: &N_Vector,
) -> (flag: i32)
    ensures
        ({
            let o = sun_call(
                old(stepper)@,
                *old(sun),
                SunCall::Reset { t: tR },
                Seq::empty(),
                yR@,
                v_null(),
            );
            &&& final(stepper)@ == o.s
            &&& *final(sun) == o.g
            &&& flag == o.flag
        }),
{
    let empty: Vec<N_Vector> = Vec::new();
    assert(nvecs(empty@) =~= Seq::<NVec>::empty());
    let mut out: N_Vector = null_vector();
    drive(stepper, sun, SunCall::Reset { t: tR }, &empty, yR, &mut out)
}

} // verus!
