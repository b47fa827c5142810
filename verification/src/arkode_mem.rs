//! Reading and writing the integrator memory part by part.
use crate::arkode_impl::{
    step_view, stepper_view, zero_inner_ops, zero_mri_adapt, zero_mri_counts, zero_mri_forcing,
    zero_mri_mem, zero_mri_method, zero_mri_nls, zero_mri_problem, ARKodeMRIStepMemRec,
    ARKodeMemRec, ArkAccounts, ArkCounts, ArkFlags, ArkLimits, ArkParts, ArkStep, ArkTol, HAdaptMem,
    InnerOps, InnerView, MRIStepInnerStepper, MemView, MriAdapt, MriCounts, MriForcing, MriMethod,
    MriNls, MriProblem, MriView, RootMem, StepOps,
};
use crate::binary64::sunrealtype;
use crate::coupling::MRIStepCoupling;
use crate::nvector::{copy_vector, copy_vectors, null_vector, nvecs, part, NVec, N_Vector};
use vstd::prelude::*;

verus! {

/// The memory with `tol` replaced.
#[verifier::opaque]
pub open spec fn put_tol(m: MemView, x: ArkTol) -> MemView {
    MemView { tol: part(x), ..m }
}

/// The memory with `att` replaced.
#[verifier::opaque]
pub open spec fn put_att(m: MemView, x: ArkParts) -> MemView {
    MemView { att: part(x), ..m }
}

/// The memory with `stp` replaced.
#[verifier::opaque]
pub open spec fn put_stp(m: MemView, x: ArkStep) -> MemView {
    MemView { stp: part(x), ..m }
}

/// The memory with `lim` replaced.
#[verifier::opaque]
pub open spec fn put_lim(m: MemView, x: ArkLimits) -> MemView {
    MemView { lim: part(x), ..m }
}

/// The memory with `cnt` replaced.
#[verifier::opaque]
pub open spec fn put_cnt(m: MemView, x: ArkCounts) -> MemView {
    MemView { cnt: part(x), ..m }
}

/// The memory with `acc` replaced.
#[verifier::opaque]
pub open spec fn put_acc(m: MemView, x: ArkAccounts) -> MemView {
    MemView { acc: part(x), ..m }
}

/// The memory with `flg` replaced.
#[verifier::opaque]
pub open spec fn put_flg(m: MemView, x: ArkFlags) -> MemView {
    MemView { flg: part(x), ..m }
}

/// The memory with `ops` replaced.
#[verifier::opaque]
pub open spec fn put_ops(m: MemView, x: StepOps) -> MemView {
    MemView { ops: part(x), ..m }
}

/// The memory with `hadapt` replaced.
#[verifier::opaque]
pub open spec fn put_hadapt(m: MemView, x: Option<HAdaptMem>) -> MemView {
    MemView { hadapt: part(x), ..m }
}

/// The memory with `root` replaced.
#[verifier::opaque]
pub open spec fn put_root(m: MemView, x: Option<RootMem>) -> MemView {
    MemView { root: part(x), ..m }
}

/// The memory with `ewt` replaced.
#[verifier::opaque]
pub open spec fn put_ewt(m: MemView, x: NVec) -> MemView {
    MemView { ewt: part(x), ..m }
}

/// The memory with `rwt` replaced.
#[verifier::opaque]
pub open spec fn put_rwt(m: MemView, x: NVec) -> MemView {
    MemView { rwt: part(x), ..m }
}

/// The memory with `ycur` replaced.
#[verifier::opaque]
pub open spec fn put_ycur(m: MemView, x: NVec) -> MemView {
    MemView { ycur: part(x), ..m }
}

/// The memory with `yn` replaced.
#[verifier::opaque]
pub open spec fn put_yn(m: MemView, x: NVec) -> MemView {
    MemView { yn: part(x), ..m }
}

/// The memory with `fn_` replaced.
#[verifier::opaque]
pub open spec fn put_fn_(m: MemView, x: NVec) -> MemView {
    MemView { fn_: part(x), ..m }
}

/// The memory with `tempv1` replaced.
#[verifier::opaque]
pub open spec fn put_tempv1(m: MemView, x: NVec) -> MemView {
    MemView { tempv1: part(x), ..m }
}

/// The memory with `tempv2` replaced.
#[verifier::opaque]
pub open spec fn put_tempv2(m: MemView, x: NVec) -> MemView {
    MemView { tempv2: part(x), ..m }
}

/// The memory with `tempv3` replaced.
#[verifier::opaque]
pub open spec fn put_tempv3(m: MemView, x: NVec) -> MemView {
    MemView { tempv3: part(x), ..m }
}

/// The memory with `tempv4` replaced.
#[verifier::opaque]
pub open spec fn put_tempv4(m: MemView, x: NVec) -> MemView {
    MemView { tempv4: part(x), ..m }
}

/// The memory with `tempv5` replaced.
#[verifier::opaque]
pub open spec fn put_tempv5(m: MemView, x: NVec) -> MemView {
    MemView { tempv5: part(x), ..m }
}

/// The memory with `Vabstol` replaced.
#[verifier::opaque]
pub open spec fn put_Vabstol(m: MemView, x: NVec) -> MemView {
    MemView { Vabstol: part(x), ..m }
}

/// The memory with `VRabstol` replaced.
#[verifier::opaque]
pub open spec fn put_VRabstol(m: MemView, x: NVec) -> MemView {
    MemView { VRabstol: part(x), ..m }
}

/// The memory with `constraints` replaced.
#[verifier::opaque]
pub open spec fn put_constraints(m: MemView, x: NVec) -> MemView {
    MemView { constraints: part(x), ..m }
}

/// The memory with `step_mem` replaced.
#[verifier::opaque]
pub open spec fn put_step_mem(m: MemView, x: Option<MriView>) -> MemView {
    MemView { step_mem: part(x), ..m }
}

impl ARKodeMemRec {
    pub fn get_tol(&self) -> (r: ArkTol)
        ensures
            r == self@.tol(),
    {
        reveal(ARKodeMemRec::view);
        self.tol
    }

    pub fn set_tol(&mut self, x: ArkTol)
        ensures
            final(self)@ == put_tol(old(self)@, x),
    {
        reveal(put_tol);
        reveal(ARKodeMemRec::view);
        self.tol = x;
    }

    pub fn get_att(&self) -> (r: ArkParts)
        ensures
            r == self@.att(),
    {
        reveal(ARKodeMemRec::view);
        self.att
    }

    pub fn set_att(&mut self, x: ArkParts)
        ensures
            final(self)@ == put_att(old(self)@, x),
    {
        reveal(put_att);
        reveal(ARKodeMemRec::view);
        self.att = x;
    }

    pub fn get_stp(&self) -> (r: ArkStep)
        ensures
            r == self@.stp(),
    {
        reveal(ARKodeMemRec::view);
        self.stp
    }

    pub fn set_stp(&mut self, x: ArkStep)
        ensures
            final(self)@ == put_stp(old(self)@, x),
    {
        reveal(put_stp);
        reveal(ARKodeMemRec::view);
        self.stp = x;
    }

    pub fn get_lim(&self) -> (r: ArkLimits)
        ensures
            r == self@.lim(),
    {
        reveal(ARKodeMemRec::view);
        self.lim
    }

    pub fn set_lim(&mut self, x: ArkLimits)
        ensures
            final(self)@ == put_lim(old(self)@, x),
    {
        reveal(put_lim);
        reveal(ARKodeMemRec::view);
        self.lim = x;
    }

    pub fn get_cnt(&self) -> (r: ArkCounts)
        ensures
            r == self@.cnt(),
    {
        reveal(ARKodeMemRec::view);
        self.cnt
    }

    pub fn set_cnt(&mut self, x: ArkCounts)
        ensures
            final(self)@ == put_cnt(old(self)@, x),
    {
        reveal(put_cnt);
        reveal(ARKodeMemRec::view);
        self.cnt = x;
    }

    pub fn get_acc(&self) -> (r: ArkAccounts)
        ensures
            r == self@.acc(),
    {
        reveal(ARKodeMemRec::view);
        self.acc
    }

    pub fn set_acc(&mut self, x: ArkAccounts)
        ensures
            final(self)@ == put_acc(old(self)@, x),
    {
        reveal(put_acc);
        reveal(ARKodeMemRec::view);
        self.acc = x;
    }

    pub fn get_flg(&self) -> (r: ArkFlags)
        ensures
            r == self@.flg(),
    {
        reveal(ARKodeMemRec::view);
        self.flg
    }

    pub fn set_flg(&mut self, x: ArkFlags)
        ensures
            final(self)@ == put_flg(old(self)@, x),
    {
        reveal(put_flg);
        reveal(ARKodeMemRec::view);
        self.flg = x;
    }

    pub fn get_ops(&self) -> (r: StepOps)
        ensures
            r == self@.ops(),
    {
        reveal(ARKodeMemRec::view);
        self.ops
    }

    pub fn set_ops(&mut self, x: StepOps)
        ensures
            final(self)@ == put_ops(old(self)@, x),
    {
        reveal(put_ops);
        reveal(ARKodeMemRec::view);
        self.ops = x;
    }

    pub fn get_hadapt(&self) -> (r: Option<HAdaptMem>)
        ensures
            r == self@.hadapt(),
    {
        reveal(ARKodeMemRec::view);
        self.hadapt
    }

    pub fn set_hadapt(&mut self, x: Option<HAdaptMem>)
        ensures
            final(self)@ == put_hadapt(old(self)@, x),
    {
        reveal(put_hadapt);
        reveal(ARKodeMemRec::view);
        self.hadapt = x;
    }

    pub fn get_root(&self) -> (r: Option<RootMem>)
        ensures
            r == self@.root(),
    {
        reveal(ARKodeMemRec::view);
        self.root
    }

    pub fn set_root(&mut self, x: Option<RootMem>)
        ensures
            final(self)@ == put_root(old(self)@, x),
    {
        reveal(put_root);
        reveal(ARKodeMemRec::view);
        self.root = x;
    }

    pub fn get_ewt(&self) -> (r: N_Vector)
        ensures
            r@ == self@.ewt(),
    {
        reveal(ARKodeMemRec::view);
        copy_vector(&self.ewt)
    }

    pub fn set_ewt(&mut self, x: N_Vector)
        ensures
            final(self)@ == put_ewt(old(self)@, x@),
    {
        reveal(put_ewt);
        reveal(ARKodeMemRec::view);
        self.ewt = x;
    }

    pub fn get_rwt(&self) -> (r: N_Vector)
        ensures
            r@ == self@.rwt(),
    {
        reveal(ARKodeMemRec::view);
        copy_vector(&self.rwt)
    }

    pub fn set_rwt(&mut self, x: N_Vector)
        ensures
            final(self)@ == put_rwt(old(self)@, x@),
    {
        reveal(put_rwt);
        reveal(ARKodeMemRec::view);
        self.rwt = x;
    }

    pub fn get_ycur(&self) -> (r: N_Vector)
        ensures
            r@ == self@.ycur(),
    {
        reveal(ARKodeMemRec::view);
        copy_vector(&self.ycur)
    }

    pub fn set_ycur(&mut self, x: N_Vector)
        ensures
            final(self)@ == put_ycur(old(self)@, x@),
    {
        reveal(put_ycur);
        reveal(ARKodeMemRec::view);
        self.ycur = x;
    }

    pub fn get_yn(&self) -> (r: N_Vector)
        ensures
            r@ == self@.yn(),
    {
        reveal(ARKodeMemRec::view);
        copy_vector(&self.yn)
    }

    pub fn set_yn(&mut self, x: N_Vector)
        ensures
            final(self)@ == put_yn(old(self)@, x@),
    {
        reveal(put_yn);
        reveal(ARKodeMemRec::view);
        self.yn = x;
    }

    pub fn get_fn_(&self) -> (r: N_Vector)
        ensures
            r@ == self@.fn_(),
    {
        reveal(ARKodeMemRec::view);
        copy_vector(&self.fn_)
    }

    pub fn set_fn_(&mut self, x: N_Vector)
        ensures
            final(self)@ == put_fn_(old(self)@, x@),
    {
        reveal(put_fn_);
        reveal(ARKodeMemRec::view);
        self.fn_ = x;
    }

    pub fn get_tempv1(&self) -> (r: N_Vector)
        ensures
            r@ == self@.tempv1(),
    {
        reveal(ARKodeMemRec::view);
        copy_vector(&self.tempv1)
    }

    pub fn set_tempv1(&mut self, x: N_Vector)
        ensures
            final(self)@ == put_tempv1(old(self)@, x@),
    {
        reveal(put_tempv1);
        reveal(ARKodeMemRec::view);
        self.tempv1 = x;
    }

    pub fn get_tempv2(&self) -> (r: N_Vector)
        ensures
            r@ == self@.tempv2(),
    {
        reveal(ARKodeMemRec::view);
        copy_vector(&self.tempv2)
    }

    pub fn set_tempv2(&mut self, x: N_Vector)
        ensures
            final(self)@ == put_tempv2(old(self)@, x@),
    {
        reveal(put_tempv2);
        reveal(ARKodeMemRec::view);
        self.tempv2 = x;
    }

    pub fn get_tempv3(&self) -> (r: N_Vector)
        ensures
            r@ == self@.tempv3(),
    {
        reveal(ARKodeMemRec::view);
        copy_vector(&self.tempv3)
    }

    pub fn set_tempv3(&mut self, x: N_Vector)
        ensures
            final(self)@ == put_tempv3(old(self)@, x@),
    {
        reveal(put_tempv3);
        reveal(ARKodeMemRec::view);
        self.tempv3 = x;
    }

    pub fn get_tempv4(&self) -> (r: N_Vector)
        ensures
            r@ == self@.tempv4(),
    {
        reveal(ARKodeMemRec::view);
        copy_vector(&self.tempv4)
    }

    pub fn set_tempv4(&mut self, x: N_Vector)
        ensures
            final(self)@ == put_tempv4(old(self)@, x@),
    {
        reveal(put_tempv4);
        reveal(ARKodeMemRec::view);
        self.tempv4 = x;
    }

    pub fn get_tempv5(&self) -> (r: N_Vector)
        ensures
            r@ == self@.tempv5(),
    {
        reveal(ARKodeMemRec::view);
        copy_vector(&self.tempv5)
    }

    pub fn set_tempv5(&mut self, x: N_Vector)
        ensures
            final(self)@ == put_tempv5(old(self)@, x@),
    {
        reveal(put_tempv5);
        reveal(ARKodeMemRec::view);
        self.tempv5 = x;
    }

    pub fn get_Vabstol(&self) -> (r: N_Vector)
        ensures
            r@ == self@.Vabstol(),
    {
        reveal(ARKodeMemRec::view);
        copy_vector(&self.Vabstol)
    }

    pub fn set_Vabstol(&mut self, x: N_Vector)
        ensures
            final(self)@ == put_Vabstol(old(self)@, x@),
    {
        reveal(put_Vabstol);
        reveal(ARKodeMemRec::view);
        self.Vabstol = x;
    }

    pub fn get_VRabstol(&self) -> (r: N_Vector)
        ensures
            r@ == self@.VRabstol(),
    {
        reveal(ARKodeMemRec::view);
        copy_vector(&self.VRabstol)
    }

    pub fn set_VRabstol(&mut self, x: N_Vector)
        ensures
            final(self)@ == put_VRabstol(old(self)@, x@),
    {
        reveal(put_VRabstol);
        reveal(ARKodeMemRec::view);
        self.VRabstol = x;
    }

    pub fn get_constraints(&self) -> (r: N_Vector)
        ensures
            r@ == self@.constraints(),
    {
        reveal(ARKodeMemRec::view);
        copy_vector(&self.constraints)
    }

    pub fn set_constraints(&mut self, x: N_Vector)
        ensures
            final(self)@ == put_constraints(old(self)@, x@),
    {
        reveal(put_constraints);
        reveal(ARKodeMemRec::view);
        self.constraints = x;
    }

    /// Whether a time stepper is attached.
    pub fn has_step_mem(&self) -> (r: bool)
        ensures
            r == self@.step_mem() is Some,
    {
        reveal(ARKodeMemRec::view);
        self.step_mem.is_some()
    }

    /// Attaches or removes a time stepper.
    pub fn set_step_mem(&mut self, x: Option<ARKodeMRIStepMemRec>)
        ensures
            final(self)@ == put_step_mem(old(self)@, step_view(x)),
    {
        reveal(put_step_mem);
        reveal(ARKodeMemRec::view);
        self.step_mem = x;
    }
}

/// The MRI stepper memory; the empty one where none is attached.
#[verifier::opaque]
pub open spec fn mri(m: MemView) -> MriView {
    match m.step_mem() {
        Some(s) => s,
        None => zero_mri_mem(),
    }
}

/// The memory with the MRI stepper memory replaced, where one is attached.
#[verifier::opaque]
pub open spec fn with_mri(m: MemView, s: MriView) -> MemView {
    match m.step_mem() {
        Some(_) => MemView { step_mem: part(Some(s)), ..m },
        None => m,
    }
}

/// The memory with `prb` of the MRI stepper replaced.
#[verifier::opaque]
pub open spec fn mput_prb(m: MemView, x: MriProblem) -> MemView {
    with_mri(m, MriView { prb: part(x), ..mri(m) })
}

/// The memory with `mth` of the MRI stepper replaced.
#[verifier::opaque]
pub open spec fn mput_mth(m: MemView, x: MriMethod) -> MemView {
    with_mri(m, MriView { mth: part(x), ..mri(m) })
}

/// The memory with `nls` of the MRI stepper replaced.
#[verifier::opaque]
pub open spec fn mput_nls(m: MemView, x: MriNls) -> MemView {
    with_mri(m, MriView { nls: part(x), ..mri(m) })
}

/// The memory with `cnt` of the MRI stepper replaced.
#[verifier::opaque]
pub open spec fn mput_cnt(m: MemView, x: MriCounts) -> MemView {
    with_mri(m, MriView { cnt: part(x), ..mri(m) })
}

/// The memory with `adp` of the MRI stepper replaced.
#[verifier::opaque]
pub open spec fn mput_adp(m: MemView, x: MriAdapt) -> MemView {
    with_mri(m, MriView { adp: part(x), ..mri(m) })
}

/// The memory with `frc` of the MRI stepper replaced.
#[verifier::opaque]
pub open spec fn mput_frc(m: MemView, x: MriForcing) -> MemView {
    with_mri(m, MriView { frc: part(x), ..mri(m) })
}

/// The memory with `MRIC` of the MRI stepper replaced.
#[verifier::opaque]
pub open spec fn mput_MRIC(m: MemView, x: Option<MRIStepCoupling>) -> MemView {
    with_mri(m, MriView { MRIC: part(x), ..mri(m) })
}

/// The memory with `Fse` of the MRI stepper replaced.
#[verifier::opaque]
pub open spec fn mput_Fse(m: MemView, x: Seq<NVec>) -> MemView {
    with_mri(m, MriView { Fse: part(x), ..mri(m) })
}

/// The memory with `Fsi` of the MRI stepper replaced.
#[verifier::opaque]
pub open spec fn mput_Fsi(m: MemView, x: Seq<NVec>) -> MemView {
    with_mri(m, MriView { Fsi: part(x), ..mri(m) })
}

/// The memory with `stage_map` of the MRI stepper replaced.
#[verifier::opaque]
pub open spec fn mput_stage_map(m: MemView, x: Seq<i32>) -> MemView {
    with_mri(m, MriView { stage_map: part(x), ..mri(m) })
}

/// The memory with `stagetypes` of the MRI stepper replaced.
#[verifier::opaque]
pub open spec fn mput_stagetypes(m: MemView, x: Seq<i32>) -> MemView {
    with_mri(m, MriView { stagetypes: part(x), ..mri(m) })
}

/// The memory with `Ae_row` of the MRI stepper replaced.
#[verifier::opaque]
pub open spec fn mput_Ae_row(m: MemView, x: Seq<sunrealtype>) -> MemView {
    with_mri(m, MriView { Ae_row: part(x), ..mri(m) })
}

/// The memory with `Ai_row` of the MRI stepper replaced.
#[verifier::opaque]
pub open spec fn mput_Ai_row(m: MemView, x: Seq<sunrealtype>) -> MemView {
    with_mri(m, MriView { Ai_row: part(x), ..mri(m) })
}

/// The memory with `sdata` of the MRI stepper replaced.
#[verifier::opaque]
pub open spec fn mput_sdata(m: MemView, x: NVec) -> MemView {
    with_mri(m, MriView { sdata: part(x), ..mri(m) })
}

/// The memory with `zpred` of the MRI stepper replaced.
#[verifier::opaque]
pub open spec fn mput_zpred(m: MemView, x: NVec) -> MemView {
    with_mri(m, MriView { zpred: part(x), ..mri(m) })
}

/// The memory with `zcor` of the MRI stepper replaced.
#[verifier::opaque]
pub open spec fn mput_zcor(m: MemView, x: NVec) -> MemView {
    with_mri(m, MriView { zcor: part(x), ..mri(m) })
}

/// The memory with `stepper` of the MRI stepper replaced.
#[verifier::opaque]
pub open spec fn mput_stepper(m: MemView, x: Option<InnerView>) -> MemView {
    with_mri(m, MriView { stepper: part(x), ..mri(m) })
}

/// The memory with `forcing` of the MRI stepper replaced.
#[verifier::opaque]
pub open spec fn mput_forcing(m: MemView, x: Seq<NVec>) -> MemView {
    with_mri(m, MriView { forcing: part(x), ..mri(m) })
}

impl ARKodeMemRec {
    pub fn get_mri_prb(&self) -> (r: MriProblem)
        ensures
            r == mri(self@).prb(),
    {
        reveal(ARKodeMemRec::view);
        reveal(ARKodeMRIStepMemRec::view);
        reveal(mri);
        reveal(zero_mri_mem);
        match &self.step_mem {
            Some(s) => s.prb,
            None => zero_mri_problem(),
        }
    }

    pub fn set_mri_prb(&mut self, x: MriProblem)
        ensures
            final(self)@ == mput_prb(old(self)@, x),
    {
        reveal(ARKodeMemRec::view);
        reveal(ARKodeMRIStepMemRec::view);
        reveal(mri);
        reveal(zero_mri_mem);
        reveal(with_mri);
        reveal(mput_prb);
        match self.step_mem.take() {
            Some(s) => {
                self.step_mem = Some(ARKodeMRIStepMemRec { prb: x, ..s });
            },
            None => {
                self.step_mem = None;
            },
        }
    }

    pub fn get_mri_mth(&self) -> (r: MriMethod)
        ensures
            r == mri(self@).mth(),
    {
        reveal(ARKodeMemRec::view);
        reveal(ARKodeMRIStepMemRec::view);
        reveal(mri);
        reveal(zero_mri_mem);
        match &self.step_mem {
            Some(s) => s.mth,
            None => zero_mri_method(),
        }
    }

    pub fn set_mri_mth(&mut self, x: MriMethod)
        ensures
            final(self)@ == mput_mth(old(self)@, x),
    {
        reveal(ARKodeMemRec::view);
        reveal(ARKodeMRIStepMemRec::view);
        reveal(mri);
        reveal(zero_mri_mem);
        reveal(with_mri);
        reveal(mput_mth);
        match self.step_mem.take() {
            Some(s) => {
                self.step_mem = Some(ARKodeMRIStepMemRec { mth: x, ..s });
            },
            None => {
                self.step_mem = None;
            },
        }
    }

    pub fn get_mri_nls(&self) -> (r: MriNls)
        ensures
            r == mri(self@).nls(),
    {
        reveal(ARKodeMemRec::view);
        reveal(ARKodeMRIStepMemRec::view);
        reveal(mri);
        reveal(zero_mri_mem);
        match &self.step_mem {
            Some(s) => s.nls,
            None => zero_mri_nls(),
        }
    }

    pub fn set_mri_nls(&mut self, x: MriNls)
        ensures
            final(self)@ == mput_nls(old(self)@, x),
    {
        reveal(ARKodeMemRec::view);
        reveal(ARKodeMRIStepMemRec::view);
        reveal(mri);
        reveal(zero_mri_mem);
        reveal(with_mri);
        reveal(mput_nls);
        match self.step_mem.take() {
            Some(s) => {
                self.step_mem = Some(ARKodeMRIStepMemRec { nls: x, ..s });
            },
            None => {
                self.step_mem = None;
            },
        }
    }

    pub fn get_mri_cnt(&self) -> (r: MriCounts)
        ensures
            r == mri(self@).cnt(),
    {
        reveal(ARKodeMemRec::view);
        reveal(ARKodeMRIStepMemRec::view);
        reveal(mri);
        reveal(zero_mri_mem);
        match &self.step_mem {
            Some(s) => s.cnt,
            None => zero_mri_counts(),
        }
    }

    pub fn set_mri_cnt(&mut self, x: MriCounts)
        ensures
            final(self)@ == mput_cnt(old(self)@, x),
    {
        reveal(ARKodeMemRec::view);
        reveal(ARKodeMRIStepMemRec::view);
        reveal(mri);
        reveal(zero_mri_mem);
        reveal(with_mri);
        reveal(mput_cnt);
        match self.step_mem.take() {
            Some(s) => {
                self.step_mem = Some(ARKodeMRIStepMemRec { cnt: x, ..s });
            },
            None => {
                self.step_mem = None;
            },
        }
    }

    pub fn get_mri_adp(&self) -> (r: MriAdapt)
        ensures
            r == mri(self@).adp(),
    {
        reveal(ARKodeMemRec::view);
        reveal(ARKodeMRIStepMemRec::view);
        reveal(mri);
        reveal(zero_mri_mem);
        match &self.step_mem {
            Some(s) => s.adp,
            None => zero_mri_adapt(),
        }
    }

    pub fn set_mri_adp(&mut self, x: MriAdapt)
        ensures
            final(self)@ == mput_adp(old(self)@, x),
    {
        reveal(ARKodeMemRec::view);
        reveal(ARKodeMRIStepMemRec::view);
        reveal(mri);
        reveal(zero_mri_mem);
        reveal(with_mri);
        reveal(mput_adp);
        match self.step_mem.take() {
            Some(s) => {
                self.step_mem = Some(ARKodeMRIStepMemRec { adp: x, ..s });
            },
            None => {
                self.step_mem = None;
            },
        }
    }

    pub fn get_mri_frc(&self) -> (r: MriForcing)
        ensures
            r == mri(self@).frc(),
    {
        reveal(ARKodeMemRec::view);
        reveal(ARKodeMRIStepMemRec::view);
        reveal(mri);
        reveal(zero_mri_mem);
        match &self.step_mem {
            Some(s) => s.frc,
            None => zero_mri_forcing(),
        }
    }

    pub fn set_mri_frc(&mut self, x: MriForcing)
        ensures
            final(self)@ == mput_frc(old(self)@, x),
    {
        reveal(ARKodeMemRec::view);
        reveal(ARKodeMRIStepMemRec::view);
        reveal(mri);
        reveal(zero_mri_mem);
        reveal(with_mri);
        reveal(mput_frc);
        match self.step_mem.take() {
            Some(s) => {
                self.step_mem = Some(ARKodeMRIStepMemRec { frc: x, ..s });
            },
            None => {
                self.step_mem = None;
            },
        }
    }

    pub fn get_Fse(&self) -> (r: Vec<N_Vector>)
        ensures
            nvecs(r@) == mri(self@).Fse(),
    {
        reveal(ARKodeMemRec::view);
        reveal(ARKodeMRIStepMemRec::view);
        reveal(mri);
        reveal(zero_mri_mem);
        match &self.step_mem {
            Some(s) => copy_vectors(&s.Fse),
            None => {
                let v: Vec<N_Vector> = Vec::new();
                assert(nvecs(v@) =~= Seq::<NVec>::empty());
                v
            },
        }
    }

    pub fn set_Fse(&mut self, x: Vec<N_Vector>)
        ensures
            final(self)@ == mput_Fse(old(self)@, nvecs(x@)),
    {
        reveal(ARKodeMemRec::view);
        reveal(ARKodeMRIStepMemRec::view);
        reveal(mri);
        reveal(zero_mri_mem);
        reveal(with_mri);
        reveal(mput_Fse);
        match self.step_mem.take() {
            Some(s) => {
                self.step_mem = Some(ARKodeMRIStepMemRec { Fse: x, ..s });
            },
            None => {
                self.step_mem = None;
            },
        }
    }

    pub fn get_Fsi(&self) -> (r: Vec<N_Vector>)
        ensures
            nvecs(r@) == mri(self@).Fsi(),
    {
        reveal(ARKodeMemRec::view);
        reveal(ARKodeMRIStepMemRec::view);
        reveal(mri);
        reveal(zero_mri_mem);
        match &self.step_mem {
            Some(s) => copy_vectors(&s.Fsi),
            None => {
                let v: Vec<N_Vector> = Vec::new();
                assert(nvecs(v@) =~= Seq::<NVec>::empty());
                v
            },
        }
    }

    pub fn set_Fsi(&mut self, x: Vec<N_Vector>)
        ensures
            final(self)@ == mput_Fsi(old(self)@, nvecs(x@)),
    {
        reveal(ARKodeMemRec::view);
        reveal(ARKodeMRIStepMemRec::view);
        reveal(mri);
        reveal(zero_mri_mem);
        reveal(with_mri);
        reveal(mput_Fsi);
        match self.step_mem.take() {
            Some(s) => {
                self.step_mem = Some(ARKodeMRIStepMemRec { Fsi: x, ..s });
            },
            None => {
                self.step_mem = None;
            },
        }
    }

    pub fn get_stage_map(&self) -> (r: Vec<i32>)
        ensures
            r@ == mri(self@).stage_map(),
    {
        reveal(ARKodeMemRec::view);
        reveal(ARKodeMRIStepMemRec::view);
        reveal(mri);
        reveal(zero_mri_mem);
        let mut out: Vec<i32> = Vec::new();
        match &self.step_mem {
            Some(s) => {
                let n: usize = s.stage_map.len();
                for i in 0..n
                    invariant
                        n == s.stage_map@.len(),
                        out@.len() == i,
                        forall|j: int| 0 <= j < i ==> out@[j] == s.stage_map@[j],
                {
                    out.push(s.stage_map[i]);
                }
                assert(out@ =~= s.stage_map@);
            },
            None => {
                assert(out@ =~= Seq::<i32>::empty());
            },
        }
        out
    }

    pub fn set_stage_map(&mut self, x: Vec<i32>)
        ensures
            final(self)@ == mput_stage_map(old(self)@, x@),
    {
        reveal(ARKodeMemRec::view);
        reveal(ARKodeMRIStepMemRec::view);
        reveal(mri);
        reveal(zero_mri_mem);
        reveal(with_mri);
        reveal(mput_stage_map);
        match self.step_mem.take() {
            Some(s) => {
                self.step_mem = Some(ARKodeMRIStepMemRec { stage_map: x, ..s });
            },
            None => {
                self.step_mem = None;
            },
        }
    }

    pub fn get_stagetypes(&self) -> (r: Vec<i32>)
        ensures
            r@ == mri(self@).stagetypes(),
    {
        reveal(ARKodeMemRec::view);
        reveal(ARKodeMRIStepMemRec::view);
        reveal(mri);
        reveal(zero_mri_mem);
        let mut out: Vec<i32> = Vec::new();
        match &self.step_mem {
            Some(s) => {
                let n: usize = s.stagetypes.len();
                for i in 0..n
                    invariant
                        n == s.stagetypes@.len(),
                        out@.len() == i,
                        forall|j: int| 0 <= j < i ==> out@[j] == s.stagetypes@[j],
                {
                    out.push(s.stagetypes[i]);
                }
                assert(out@ =~= s.stagetypes@);
            },
            None => {
                assert(out@ =~= Seq::<i32>::empty());
            },
        }
        out
    }

    pub fn set_stagetypes(&mut self, x: Vec<i32>)
        ensures
            final(self)@ == mput_stagetypes(old(self)@, x@),
    {
        reveal(ARKodeMemRec::view);
        reveal(ARKodeMRIStepMemRec::view);
        reveal(mri);
        reveal(zero_mri_mem);
        reveal(with_mri);
        reveal(mput_stagetypes);
        match self.step_mem.take() {
            Some(s) => {
                self.step_mem = Some(ARKodeMRIStepMemRec { stagetypes: x, ..s });
            },
            None => {
                self.step_mem = None;
            },
        }
    }

    pub fn get_Ae_row(&self) -> (r: Vec<sunrealtype>)
        ensures
            r@ == mri(self@).Ae_row(),
    {
        reveal(ARKodeMemRec::view);
        reveal(ARKodeMRIStepMemRec::view);
        reveal(mri);
        reveal(zero_mri_mem);
        let mut out: Vec<sunrealtype> = Vec::new();
        match &self.step_mem {
            Some(s) => {
                let n: usize = s.Ae_row.len();
                for i in 0..n
                    invariant
                        n == s.Ae_row@.len(),
                        out@.len() == i,
                        forall|j: int| 0 <= j < i ==> out@[j] == s.Ae_row@[j],
                {
                    out.push(s.Ae_row[i]);
                }
                assert(out@ =~= s.Ae_row@);
            },
            None => {
                assert(out@ =~= Seq::<sunrealtype>::empty());
            },
        }
        out
    }

    pub fn set_Ae_row(&mut self, x: Vec<sunrealtype>)
        ensures
            final(self)@ == mput_Ae_row(old(self)@, x@),
    {
        reveal(ARKodeMemRec::view);
        reveal(ARKodeMRIStepMemRec::view);
        reveal(mri);
        reveal(zero_mri_mem);
        reveal(with_mri);
        reveal(mput_Ae_row);
        match self.step_mem.take() {
            Some(s) => {
                self.step_mem = Some(ARKodeMRIStepMemRec { Ae_row: x, ..s });
            },
            None => {
                self.step_mem = None;
            },
        }
    }

    pub fn get_Ai_row(&self) -> (r: Vec<sunrealtype>)
        ensures
            r@ == mri(self@).Ai_row(),
    {
        reveal(ARKodeMemRec::view);
        reveal(ARKodeMRIStepMemRec::view);
        reveal(mri);
        reveal(zero_mri_mem);
        let mut out: Vec<sunrealtype> = Vec::new();
        match &self.step_mem {
            Some(s) => {
                let n: usize = s.Ai_row.len();
                for i in 0..n
                    invariant
                        n == s.Ai_row@.len(),
                        out@.len() == i,
                        forall|j: int| 0 <= j < i ==> out@[j] == s.Ai_row@[j],
                {
                    out.push(s.Ai_row[i]);
                }
                assert(out@ =~= s.Ai_row@);
            },
            None => {
                assert(out@ =~= Seq::<sunrealtype>::empty());
            },
        }
        out
    }

    pub fn set_Ai_row(&mut self, x: Vec<sunrealtype>)
        ensures
            final(self)@ == mput_Ai_row(old(self)@, x@),
    {
        reveal(ARKodeMemRec::view);
        reveal(ARKodeMRIStepMemRec::view);
        reveal(mri);
        reveal(zero_mri_mem);
        reveal(with_mri);
        reveal(mput_Ai_row);
        match self.step_mem.take() {
            Some(s) => {
                self.step_mem = Some(ARKodeMRIStepMemRec { Ai_row: x, ..s });
            },
            None => {
                self.step_mem = None;
            },
        }
    }

    pub fn get_sdata(&self) -> (r: N_Vector)
        ensures
            r@ == mri(self@).sdata(),
    {
        reveal(ARKodeMemRec::view);
        reveal(ARKodeMRIStepMemRec::view);
        reveal(mri);
        reveal(zero_mri_mem);
        match &self.step_mem {
            Some(s) => copy_vector(&s.sdata),
            None => null_vector(),
        }
    }

    pub fn set_sdata(&mut self, x: N_Vector)
        ensures
            final(self)@ == mput_sdata(old(self)@, x@),
    {
        reveal(ARKodeMemRec::view);
        reveal(ARKodeMRIStepMemRec::view);
        reveal(mri);
        reveal(zero_mri_mem);
        reveal(with_mri);
        reveal(mput_sdata);
        match self.step_mem.take() {
            Some(s) => {
                self.step_mem = Some(ARKodeMRIStepMemRec { sdata: x, ..s });
            },
            None => {
                self.step_mem = None;
            },
        }
    }

    pub fn get_zpred(&self) -> (r: N_Vector)
        ensures
            r@ == mri(self@).zpred(),
    {
        reveal(ARKodeMemRec::view);
        reveal(ARKodeMRIStepMemRec::view);
        reveal(mri);
        reveal(zero_mri_mem);
        match &self.step_mem {
            Some(s) => copy_vector(&s.zpred),
            None => null_vector(),
        }
    }

    pub fn set_zpred(&mut self, x: N_Vector)
        ensures
            final(self)@ == mput_zpred(old(self)@, x@),
    {
        reveal(ARKodeMemRec::view);
        reveal(ARKodeMRIStepMemRec::view);
        reveal(mri);
        reveal(zero_mri_mem);
        reveal(with_mri);
        reveal(mput_zpred);
        match self.step_mem.take() {
            Some(s) => {
                self.step_mem = Some(ARKodeMRIStepMemRec { zpred: x, ..s });
            },
            None => {
                self.step_mem = None;
            },
        }
    }

    pub fn get_zcor(&self) -> (r: N_Vector)
        ensures
            r@ == mri(self@).zcor(),
    {
        reveal(ARKodeMemRec::view);
        reveal(ARKodeMRIStepMemRec::view);
        reveal(mri);
        reveal(zero_mri_mem);
        match &self.step_mem {
            Some(s) => copy_vector(&s.zcor),
            None => null_vector(),
        }
    }

    pub fn set_zcor(&mut self, x: N_Vector)
        ensures
            final(self)@ == mput_zcor(old(self)@, x@),
    {
        reveal(ARKodeMemRec::view);
        reveal(ARKodeMRIStepMemRec::view);
        reveal(mri);
        reveal(zero_mri_mem);
        reveal(with_mri);
        reveal(mput_zcor);
        match self.step_mem.take() {
            Some(s) => {
                self.step_mem = Some(ARKodeMRIStepMemRec { zcor: x, ..s });
            },
            None => {
                self.step_mem = None;
            },
        }
    }

    pub fn get_forcing(&self) -> (r: Vec<N_Vector>)
        ensures
            nvecs(r@) == mri(self@).forcing(),
    {
        reveal(ARKodeMemRec::view);
        reveal(ARKodeMRIStepMemRec::view);
        reveal(mri);
        reveal(zero_mri_mem);
        match &self.step_mem {
            Some(s) => copy_vectors(&s.forcing),
            None => {
                let v: Vec<N_Vector> = Vec::new();
                assert(nvecs(v@) =~= Seq::<NVec>::empty());
                v
            },
        }
    }

    pub fn set_forcing(&mut self, x: Vec<N_Vector>)
        ensures
            final(self)@ == mput_forcing(old(self)@, nvecs(x@)),
    {
        reveal(ARKodeMemRec::view);
        reveal(ARKodeMRIStepMemRec::view);
        reveal(mri);
        reveal(zero_mri_mem);
        reveal(with_mri);
        reveal(mput_forcing);
        match self.step_mem.take() {
            Some(s) => {
                self.step_mem = Some(ARKodeMRIStepMemRec { forcing: x, ..s });
            },
            None => {
                self.step_mem = None;
            },
        }
    }

    /// Takes the inner stepper out.
    pub fn take_stepper(&mut self) -> (r: Option<MRIStepInnerStepper>)
        ensures
            stepper_view(r) == mri(old(self)@).stepper(),
            final(self)@ == mput_stepper(old(self)@, None),
    {
        reveal(ARKodeMemRec::view);
        reveal(ARKodeMRIStepMemRec::view);
        reveal(mri);
        reveal(zero_mri_mem);
        reveal(with_mri);
        reveal(mput_stepper);
        match self.step_mem.take() {
            Some(s) => {
                let ARKodeMRIStepMemRec {
                    prb,
                    mth,
                    nls,
                    cnt,
                    adp,
                    frc,
                    MRIC,
                    Fse,
                    Fsi,
                    stage_map,
                    stagetypes,
                    Ae_row,
                    Ai_row,
                    sdata,
                    zpred,
                    zcor,
                    stepper,
                    forcing,
                } = s;
                self.step_mem = Some(
                    ARKodeMRIStepMemRec {
                        prb,
                        mth,
                        nls,
                        cnt,
                        adp,
                        frc,
                        MRIC,
                        Fse,
                        Fsi,
                        stage_map,
                        stagetypes,
                        Ae_row,
                        Ai_row,
                        sdata,
                        zpred,
                        zcor,
                        stepper: None,
                        forcing,
                    },
                );
                stepper
            },
            None => {
                self.step_mem = None;
                None
            },
        }
    }

    pub fn set_stepper(&mut self, x: Option<MRIStepInnerStepper>)
        ensures
            final(self)@ == mput_stepper(old(self)@, stepper_view(x)),
    {
        reveal(ARKodeMemRec::view);
        reveal(ARKodeMRIStepMemRec::view);
        reveal(mri);
        reveal(zero_mri_mem);
        reveal(with_mri);
        reveal(mput_stepper);
        match self.step_mem.take() {
            Some(s) => {
                self.step_mem = Some(ARKodeMRIStepMemRec { stepper: x, ..s });
            },
            None => {
                self.step_mem = None;
            },
        }
    }

    pub fn set_MRIC(&mut self, x: Option<MRIStepCoupling>)
        ensures
            final(self)@ == mput_MRIC(old(self)@, x),
    {
        reveal(ARKodeMemRec::view);
        reveal(ARKodeMRIStepMemRec::view);
        reveal(mri);
        reveal(zero_mri_mem);
        reveal(with_mri);
        reveal(mput_MRIC);
        match self.step_mem.take() {
            Some(s) => {
                self.step_mem = Some(ARKodeMRIStepMemRec { MRIC: x, ..s });
            },
            None => {
                self.step_mem = None;
            },
        }
    }

    /// Whether an inner stepper is attached.
    pub fn has_stepper(&self) -> (r: bool)
        ensures
            r == mri(self@).stepper() is Some,
    {
        reveal(ARKodeMemRec::view);
        reveal(ARKodeMRIStepMemRec::view);
        reveal(mri);
        reveal(zero_mri_mem);
        match &self.step_mem {
            Some(s) => s.stepper.is_some(),
            None => false,
        }
    }

    /// The operations of the inner stepper; none where none is attached.
    pub fn stepper_ops(&self) -> (r: InnerOps)
        ensures
            r == match mri(self@).stepper() {
                Some(s) => s.ops(),
                None => zero_inner_ops(),
            },
    {
        reveal(ARKodeMemRec::view);
        reveal(ARKodeMRIStepMemRec::view);
        reveal(mri);
        reveal(zero_mri_mem);
        reveal(MRIStepInnerStepper::view);
        match &self.step_mem {
            Some(s) => match &s.stepper {
                Some(x) => x.ops,
                None => zero_inner_ops(),
            },
            None => zero_inner_ops(),
        }
    }

    /// The coupling table, where one is set.
    pub fn table(&self) -> (r: Option<&MRIStepCoupling>)
        ensures
            match r {
                Some(c) => mri(self@).MRIC() == Some(*c),
                None => mri(self@).MRIC() is None,
            },
    {
        reveal(ARKodeMemRec::view);
        reveal(ARKodeMRIStepMemRec::view);
        reveal(mri);
        reveal(zero_mri_mem);
        match &self.step_mem {
            Some(s) => s.MRIC.as_ref(),
            None => None,
        }
    }
}

/// The last inner stepper put in is the one that is there.
pub proof fn lemma_swap_stepper(m: MemView, a: Option<InnerView>, b: Option<InnerView>)
    ensures
        mput_stepper(mput_stepper(m, a), b) == mput_stepper(m, b),
{
    reveal(mput_stepper);
    reveal(with_mri);
    reveal(mri);
}

} // verus!
