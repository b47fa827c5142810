//! A linear problem as the surroundings of an integrator: every user function
//! multiplies its argument by a number, the fast integrator multiplies the
//! state by a number, and the companion modules do the least they can.
use crate::arkode_codes::{ARK_SUCCESS, MRISTAGE_ERK_FAST, MRISTAGE_FIRST};
use crate::arkode_impl::{
    ARKodeMemRec, ArkStep, FnId, HAdaptMem, InnerView, MRIStepInnerStepper, MemView, MriMethod,
};
use crate::arkode_mem::{mput_mth, mput_stage_map, mri, put_hadapt, put_stp};
use crate::binary64::sunrealtype;
use crate::env::{
    ArkEnv, InnerCall, InnerFn, InnerReply, ModuleCall, ModuleReply, UserCall, UserReply, VecsReply,
};
use crate::mristep_table::{mriStep_TableStages, table_stages};
use crate::nvector::{v_scale, NVec, N_VScale, N_Vector};
use crate::sundials_types::ZERO;
use vstd::prelude::*;

verus! {

/// A linear problem. User function `f` multiplies by `rates[f]`; the fast
/// integrator multiplies the state by `flow` where it evolves and reports
/// `error`; the flags say what the calls answer, and `solver_size` the length
/// of the vectors that the last nonlinear solver was made for.
#[derive(Debug)]
pub struct LinearEnv {
    pub rates: Vec<sunrealtype>,
    pub user_flag: i32,
    pub flow: sunrealtype,
    pub flow_flag: i32,
    pub error: sunrealtype,
    pub hadapt: Option<HAdaptMem>,
    pub defaults_flag: i32,
    pub newton_flag: i32,
    pub controller_flag: i32,
    pub mass_flag: i32,
    pub free_flag: i32,
    pub solver_size: usize,
}

impl LinearEnv {
    /// Factor of a user function; zero for one that is not known.
    pub open spec fn rate(self, f: FnId) -> sunrealtype {
        if f < self.rates@.len() {
            self.rates@[f as int]
        } else {
            ZERO()
        }
    }

    fn rate_of(&self, f: FnId) -> (r: sunrealtype)
        ensures
            r == self.rate(f),
    {
        if (f as usize) < self.rates.len() {
            self.rates[f as usize]
        } else {
            ZERO()
        }
    }
}

/// Each stage stored in a place of its own.
pub open spec fn own_places(n: i32) -> Seq<i32> {
    Seq::new(
        if n > 0 {
            n as nat
        } else {
            0
        },
        |i: int| i as i32,
    )
}

fn own_places_of(n: i32) -> (r: Vec<i32>)
    ensures
        r@ == own_places(n),
{
    let mut r: Vec<i32> = Vec::new();
    let mut i: i32 = 0;
    while i < n
        invariant
            0 <= i,
            i <= n || (n < 0 && i == 0),
            r@.len() == i,
            forall|j: int| 0 <= j < i ==> r@[j] == j as i32,
        decreases n - i,
    {
        r.push(i);
        i = i + 1;
    }
    assert(r@ =~= own_places(n));
    r
}

impl ArkEnv for LinearEnv {
    open spec fn user_reply(self, c: UserCall, y: NVec, out: NVec) -> UserReply<LinearEnv> {
        UserReply { env: self, out: v_scale(self.rate(c.f), y, out), flag: self.user_flag }
    }

    fn user(&mut self, c: UserCall, y: &N_Vector, out: &mut N_Vector) -> (flag: i32) {
        let r: sunrealtype = self.rate_of(c.f);
        let v: N_Vector = N_VScale(r, y, out);
        *out = v;
        self.user_flag
    }

    open spec fn forcing_reply(self, f: FnId, t: sunrealtype, n: i32, v: Seq<NVec>) -> VecsReply<
        LinearEnv,
    > {
        VecsReply { env: self, out: v, flag: self.user_flag }
    }

    fn pre_inner_evolve(
        &mut self,
        f: FnId,
        t: sunrealtype,
        n: i32,
        v: &mut Vec<N_Vector>,
    ) -> (flag: i32) {
        self.user_flag
    }

    open spec fn inner_reply(
        self,
        c: InnerCall,
        stepper: InnerView,
        y: NVec,
        out: NVec,
        x: sunrealtype,
    ) -> InnerReply<LinearEnv> {
        match c.op {
            InnerFn::Evolve => InnerReply {
                env: self,
                out: v_scale(self.flow, y, out),
                x,
                flag: self.flow_flag,
            },
            InnerFn::FullRhs => InnerReply {
                env: self,
                out: v_scale(self.rate(c.f), y, out),
                x,
                flag: self.flow_flag,
            },
            InnerFn::GetError => InnerReply {
                env: self,
                out,
                x: self.error,
                flag: self.flow_flag,
            },
            _ => InnerReply { env: self, out, x, flag: self.flow_flag },
        }
    }

    fn inner(
        &mut self,
        c: InnerCall,
        stepper: &MRIStepInnerStepper,
        y: &N_Vector,
        out: &mut N_Vector,
        x: &mut sunrealtype,
    ) -> (flag: i32) {
        match c.op {
            InnerFn::Evolve => {
                let v: N_Vector = N_VScale(self.flow, y, out);
                *out = v;
            },
            InnerFn::FullRhs => {
                let r: sunrealtype = self.rate_of(c.f);
                let v: N_Vector = N_VScale(r, y, out);
                *out = v;
            },
            InnerFn::GetError => {
                *x = self.error;
            },
            _ => {},
        }
        self.flow_flag
    }

    open spec fn module_reply(
        self,
        c: ModuleCall,
        m: MemView,
        out: NVec,
        x: sunrealtype,
        n: i32,
    ) -> ModuleReply<LinearEnv> {
        match c {
            ModuleCall::AdaptInit => ModuleReply {
                env: self,
                mem: put_hadapt(m, self.hadapt),
                out,
                x,
                n,
                flag: ARK_SUCCESS,
            },
            ModuleCall::SetDefaults | ModuleCall::StepSetDefaults => ModuleReply {
                env: self,
                mem: m,
                out,
                x,
                n,
                flag: self.defaults_flag,
            },
            ModuleCall::NonlinSolFree => ModuleReply {
                env: self,
                mem: m,
                out,
                x,
                n,
                flag: self.free_flag,
            },
            ModuleCall::NewtonCreate => ModuleReply {
                env: LinearEnv { solver_size: out.data.len() as usize, ..self },
                mem: m,
                out,
                x,
                n,
                flag: self.newton_flag,
            },
            ModuleCall::ControllerReset { id: _ } => ModuleReply {
                env: self,
                mem: m,
                out,
                x,
                n,
                flag: self.controller_flag,
            },
            ModuleCall::MassMult => ModuleReply {
                env: self,
                mem: m,
                out,
                x,
                n,
                flag: self.mass_flag,
            },
            ModuleCall::SetStopTime { t } => ModuleReply {
                env: self,
                mem: put_stp(m, ArkStep { tstop: t, tstopset: true, ..m.stp() }),
                out,
                x,
                n,
                flag: ARK_SUCCESS,
            },
            ModuleCall::GetAccumulatedError => ModuleReply {
                env: self,
                mem: m,
                out,
                x: m.cnt().AccumError,
                n,
                flag: ARK_SUCCESS,
            },
            ModuleCall::StageMap => {
                let k = table_stages(m);
                let m1 = mput_stage_map(m, own_places(k));
                ModuleReply {
                    env: self,
                    mem: mput_mth(m1, MriMethod { nstages_active: k, ..mri(m1).mth() }),
                    out,
                    x,
                    n,
                    flag: ARK_SUCCESS,
                }
            },
            ModuleCall::StageType { stage } => ModuleReply {
                env: self,
                mem: m,
                out,
                x,
                n,
                flag: if stage == 0 {
                    MRISTAGE_FIRST
                } else {
                    MRISTAGE_ERK_FAST
                },
            },
            _ => ModuleReply { env: self, mem: m, out, x, n, flag: ARK_SUCCESS },
        }
    }

    proof fn module_frame(self, c: ModuleCall, m: MemView, out: NVec, x: sunrealtype, n: i32) {
    }

    fn module(
        &mut self,
        c: ModuleCall,
        mem: &mut ARKodeMemRec,
        out: &mut N_Vector,
        x: &mut sunrealtype,
        n: &mut i32,
    ) -> (flag: i32) {
        match c {
            ModuleCall::AdaptInit => {
                mem.set_hadapt(self.hadapt);
                ARK_SUCCESS
            },
            ModuleCall::SetDefaults => self.defaults_flag,
            ModuleCall::StepSetDefaults => self.defaults_flag,
            ModuleCall::NonlinSolFree => self.free_flag,
            ModuleCall::NewtonCreate => {
                self.solver_size = out.data.len();
                self.newton_flag
            },
            ModuleCall::ControllerReset { id: _ } => self.controller_flag,
            ModuleCall::MassMult => self.mass_flag,
            ModuleCall::SetStopTime { t } => {
                let s: ArkStep = mem.get_stp();
                mem.set_stp(ArkStep { tstop: t, tstopset: true, ..s });
                ARK_SUCCESS
            },
            ModuleCall::GetAccumulatedError => {
                *x = mem.get_cnt().AccumError;
                ARK_SUCCESS
            },
            ModuleCall::StageMap => {
                let k: i32 = mriStep_TableStages(mem);
                mem.set_stage_map(own_places_of(k));
                let h: MriMethod = mem.get_mri_mth();
                mem.set_mri_mth(MriMethod { nstages_active: k, ..h });
                ARK_SUCCESS
            },
            ModuleCall::StageType { stage } => {
                if stage == 0 {
                    MRISTAGE_FIRST
                } else {
                    MRISTAGE_ERK_FAST
                }
            },
            _ => ARK_SUCCESS,
        }
    }
}

} // verus!
