//! What the integrator calls but does not contain: the functions that the
//! user attached, the fast integrator behind an inner stepper, and the
//! companion modules (interpolation, root finding, relaxation, step
//! controllers, nonlinear and linear solvers, coupling tables).
//!
//! An environment answers every call as a function of its own state and of
//! what it is handed, and moves on to a next state. The contracts of the
//! integrator are stated over these answers.
use crate::arkode_impl::{ARKodeMemRec, FnId, InnerView, MRIStepInnerStepper, MemView};
use crate::binary64::sunrealtype;
use crate::coupling::MRIDefaultTable;
use crate::nvector::{nvecs, N_Vector, NVec};
use vstd::prelude::*;

verus! {

/// The roles in which a user function is called.
#[derive(Clone, Copy, Debug, PartialEq, Eq, Structural)]
pub enum UserFn {
    ExplicitRhs,
    ImplicitRhs,
    ErrorWeight,
    ResidualWeight,
    PreStep,
    PostStep,
    PreRhs,
    PostProcessStage,
    PostProcessStep,
    StagePredict,
    PostInnerEvolve,
    Resize,
}

/// A call of a user function: its role, the function, the time, for the
/// functions around a step the step number and the attempt, and whether the
/// user's data are handed along.
#[derive(Clone, Copy, Debug)]
pub struct UserCall {
    pub role: UserFn,
    pub f: FnId,
    pub t: sunrealtype,
    pub step: i64,
    pub attempt: i32,
    pub user_data: bool,
}

/// A call that hands along the user's data, outside any step.
#[verifier::allow_in_spec]
pub fn plain_call(role: UserFn, f: FnId, t: sunrealtype) -> UserCall
    returns
        (UserCall { role, f, t, step: 0, attempt: 0, user_data: true }),
{
    UserCall { role, f, t, step: 0, attempt: 0, user_data: true }
}

/// The operations of an inner stepper.
#[derive(Clone, Copy, Debug, PartialEq, Eq, Structural)]
pub enum InnerFn {
    Evolve,
    FullRhs,
    Reset,
    GetError,
    ResetError,
    SetRTol,
}

/// A call of an inner stepper operation: from `t0` to `t1` where it evolves,
/// at `t0` where it evaluates or resets; `x` is a tolerance factor.
#[derive(Clone, Copy, Debug)]
pub struct InnerCall {
    pub op: InnerFn,
    pub f: FnId,
    pub t0: sunrealtype,
    pub t1: sunrealtype,
    pub mode: i32,
    pub x: sunrealtype,
}

/// A call into a companion module, which may change the integrator memory
/// where it sees it.
#[derive(Clone, Copy, Debug)]
pub enum ModuleCall {
    AdaptInit,
    SetDefaults,
    StepSetDefaults,
    InterpCreate { lagrange: bool, degree: i32 },
    InterpSetDegree { degree: i32 },
    InterpInit { t: sunrealtype },
    InterpResize { resize: Option<FnId>, lrw_diff: i64, liw_diff: i64 },
    InterpUpdate { t: sunrealtype },
    InterpEvaluate { tau: sunrealtype, k: i32, degree: i32 },
    InterpFree,
    RootCheck1,
    RootCheck2,
    RootCheck3 { tout: sunrealtype, itask: i32 },
    RootFree,
    Relax,
    RelaxFree,
    SetStopTime { t: sunrealtype },
    GetAccumulatedError,
    ResetAccumulatedError,
    Adapt { t: sunrealtype, h: sunrealtype, dsm: sunrealtype },
    ControllerType { id: u64 },
    ControllerReset { id: u64 },
    ControllerUpdateH { id: u64, h: sunrealtype, dsm: sunrealtype },
    ControllerDestroy { id: u64 },
    MassMult,
    NewtonCreate,
    SetNonlinearSolver,
    NonlinSolFree,
    NlsInit,
    NlsSetup,
    Nls { nflag: i32 },
    LinearInit { f: FnId },
    LinearFree { f: FnId },
    LinearInitCounters,
    LoadTable { table: MRIDefaultTable },
    TableWords { reals: bool },
    StageMap,
    StageType { stage: i32 },
}

/// Whether a call hands a companion module no part of the integrator memory: a
/// step controller, a nonlinear solver, a coupling table, or its own data is
/// all it sees.
pub open spec fn sees_no_memory(c: ModuleCall) -> bool {
    match c {
        ModuleCall::ControllerType { id: _ } => true,
        ModuleCall::ControllerReset { id: _ } => true,
        ModuleCall::ControllerUpdateH { id: _, h: _, dsm: _ } => true,
        ModuleCall::ControllerDestroy { id: _ } => true,
        ModuleCall::NewtonCreate => true,
        ModuleCall::NonlinSolFree => true,
        ModuleCall::RelaxFree => true,
        ModuleCall::TableWords { reals: _ } => true,
        ModuleCall::StageType { stage: _ } => true,
        _ => false,
    }
}

/// Answer of a user function.
pub struct UserReply<E> {
    pub env: E,
    pub out: NVec,
    pub flag: i32,
}

/// Answer of a user function that is handed an array of vectors.
pub struct VecsReply<E> {
    pub env: E,
    pub out: Seq<NVec>,
    pub flag: i32,
}

/// Answer of an inner stepper operation.
pub struct InnerReply<E> {
    pub env: E,
    pub out: NVec,
    pub x: sunrealtype,
    pub flag: i32,
}

/// Answer of a companion module; `x` and `n` carry a number in and out.
pub struct ModuleReply<E> {
    pub env: E,
    pub mem: MemView,
    pub out: NVec,
    pub x: sunrealtype,
    pub n: i32,
    pub flag: i32,
}

/// The surroundings of an integrator.
pub trait ArkEnv: Sized {
    spec fn user_reply(self, c: UserCall, y: NVec, out: NVec) -> UserReply<Self>;

    /// Calls a user function on `y`; it may write `out`.
    fn user(&mut self, c: UserCall, y: &N_Vector, out: &mut N_Vector) -> (flag: i32)
        ensures
            *final(self) == old(self).user_reply(c, y@, old(out)@).env,
            final(out)@ == old(self).user_reply(c, y@, old(out)@).out,
            flag == old(self).user_reply(c, y@, old(out)@).flag,
    ;

    spec fn forcing_reply(self, f: FnId, t: sunrealtype, n: i32, v: Seq<NVec>) -> VecsReply<Self>;

    /// Hands the forcing vectors to a user function before a fast evolution.
    fn pre_inner_evolve(
        &mut self,
        f: FnId,
        t: sunrealtype,
        n: i32,
        v: &mut Vec<N_Vector>,
    ) -> (flag: i32)
        ensures
            *final(self) == old(self).forcing_reply(f, t, n, nvecs(old(v)@)).env,
            nvecs(final(v)@) == old(self).forcing_reply(f, t, n, nvecs(old(v)@)).out,
            flag == old(self).forcing_reply(f, t, n, nvecs(old(v)@)).flag,
    ;

    spec fn inner_reply(
        self,
        c: InnerCall,
        stepper: InnerView,
        y: NVec,
        out: NVec,
        x: sunrealtype,
    ) -> InnerReply<Self>;

    /// Calls an operation of the fast integrator.
    fn inner(
        &mut self,
        c: InnerCall,
        stepper: &MRIStepInnerStepper,
        y: &N_Vector,
        out: &mut N_Vector,
        x: &mut sunrealtype,
    ) -> (flag: i32)
        ensures
            *final(self) == old(self).inner_reply(c, stepper@, y@, old(out)@, *old(x)).env,
            final(out)@ == old(self).inner_reply(c, stepper@, y@, old(out)@, *old(x)).out,
            *final(x) == old(self).inner_reply(c, stepper@, y@, old(out)@, *old(x)).x,
            flag == old(self).inner_reply(c, stepper@, y@, old(out)@, *old(x)).flag,
    ;

    spec fn module_reply(
        self,
        c: ModuleCall,
        m: MemView,
        out: NVec,
        x: sunrealtype,
        n: i32,
    ) -> ModuleReply<Self>;

    /// A companion module leaves a memory alone that it does not see.
    proof fn module_frame(self, c: ModuleCall, m: MemView, out: NVec, x: sunrealtype, n: i32)
        requires
            sees_no_memory(c),
        ensures
            self.module_reply(c, m, out, x, n).mem == m,
    ;

    /// Calls a companion module.
    fn module(
        &mut self,
        c: ModuleCall,
        mem: &mut ARKodeMemRec,
        out: &mut N_Vector,
        x: &mut sunrealtype,
        n: &mut i32,
    ) -> (flag: i32)
        ensures
            *final(self) == old(self).module_reply(c, old(mem)@, old(out)@, *old(x), *old(n)).env,
            final(mem)@ == old(self).module_reply(c, old(mem)@, old(out)@, *old(x), *old(n)).mem,
            final(out)@ == old(self).module_reply(c, old(mem)@, old(out)@, *old(x), *old(n)).out,
            *final(x) == old(self).module_reply(c, old(mem)@, old(out)@, *old(x), *old(n)).x,
            *final(n) == old(self).module_reply(c, old(mem)@, old(out)@, *old(x), *old(n)).n,
            flag == old(self).module_reply(c, old(mem)@, old(out)@, *old(x), *old(n)).flag,
    ;
}

/// An environment in which every call succeeds and changes nothing.
#[derive(Clone, Copy, Debug)]
pub struct StillEnv {}

impl ArkEnv for StillEnv {
    open spec fn user_reply(self, c: UserCall, y: NVec, out: NVec) -> UserReply<StillEnv> {
        UserReply { env: self, out, flag: 0 }
    }

    fn user(&mut self, c: UserCall, y: &N_Vector, out: &mut N_Vector) -> (flag: i32) {
        0
    }

    open spec fn forcing_reply(self, f: FnId, t: sunrealtype, n: i32, v: Seq<NVec>) -> VecsReply<
        StillEnv,
    > {
        VecsReply { env: self, out: v, flag: 0 }
    }

    fn pre_inner_evolve(
        &mut self,
        f: FnId,
        t: sunrealtype,
        n: i32,
        v: &mut Vec<N_Vector>,
    ) -> (flag: i32) {
        0
    }

    open spec fn inner_reply(
        self,
        c: InnerCall,
        stepper: InnerView,
        y: NVec,
        out: NVec,
        x: sunrealtype,
    ) -> InnerReply<StillEnv> {
        InnerReply { env: self, out, x, flag: 0 }
    }

    fn inner(
        &mut self,
        c: InnerCall,
        stepper: &MRIStepInnerStepper,
        y: &N_Vector,
        out: &mut N_Vector,
        x: &mut sunrealtype,
    ) -> (flag: i32) {
        0
    }

    open spec fn module_reply(
        self,
        c: ModuleCall,
        m: MemView,
        out: NVec,
        x: sunrealtype,
        n: i32,
    ) -> ModuleReply<StillEnv> {
        ModuleReply { env: self, mem: m, out, x, n, flag: 0 }
    }

    proof fn module_frame(self, c: ModuleCall, m: MemView, out: NVec, x: sunrealtype, n: i32) {
    }

    fn module(
        &mut self,
        c: ModuleCall,
        mem: &mut ARKodeMemRec,
        out: &mut N_Vector,
        x: &mut sunrealtype,
        n: &mut i32,
    ) -> (flag: i32) {
        0
    }
}

} // verus!
