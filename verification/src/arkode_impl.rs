//! The integrator's memory: scalar records, vector slots and their views.
use crate::binary64::sunrealtype;
use crate::coupling::MRIStepCoupling;
use crate::nvector::{null_vector, nvecs, part, v_null, N_Vector, NVec, Part};
use crate::sundials_types::ZERO;
use vstd::prelude::*;

verus! {

/// Names a function that the user attached.
pub type FnId = u32;

/// The error weight function in use.
#[derive(Clone, Copy, Debug, PartialEq, Eq, Structural)]
pub enum EwtFn {
    SetSS,
    SetSV,
    SetSmallReal,
    User(FnId),
}

/// The residual weight function in use.
#[derive(Clone, Copy, Debug, PartialEq, Eq, Structural)]
pub enum RwtFn {
    RwtSet,
    User(FnId),
}

/// The step routine in use.
#[derive(Clone, Copy, Debug, PartialEq, Eq, Structural)]
pub enum StepFn {
    MRIGARK,
    MERK,
    MRISR,
}

/// Which routines the time stepper attached; `options` stands for its optional input and output routines.
#[derive(Clone, Copy, Debug)]
pub struct StepOps {
    pub attachlinsol: bool,
    pub disablelsetup: bool,
    pub getlinmem: bool,
    pub getimplicitrhs: bool,
    pub getgammas: bool,
    pub init: bool,
    pub fullrhs: bool,
    pub mmult: bool,
    pub resize: bool,
    pub reset: bool,
    pub free: bool,
    pub printmem: bool,
    pub setdefaults: bool,
    pub computestate: bool,
    pub H0: bool,
    pub setforcing: bool,
    pub options: bool,
}

/// No routine attached.
#[verifier::allow_in_spec]
pub fn no_step_ops() -> StepOps
    returns
        (StepOps {
            attachlinsol: false,
            disablelsetup: false,
            getlinmem: false,
            getimplicitrhs: false,
            getgammas: false,
            init: false,
            fullrhs: false,
            mmult: false,
            resize: false,
            reset: false,
            free: false,
            printmem: false,
            setdefaults: false,
            computestate: false,
            H0: false,
            setforcing: false,
            options: false,
        }),
{
    StepOps {
        attachlinsol: false,
        disablelsetup: false,
        getlinmem: false,
        getimplicitrhs: false,
        getgammas: false,
        init: false,
        fullrhs: false,
        mmult: false,
        resize: false,
        reset: false,
        free: false,
        printmem: false,
        setdefaults: false,
        computestate: false,
        H0: false,
        setforcing: false,
        options: false,
    }
}

/// Step size adaptivity data.
#[derive(Clone, Copy, Debug)]
pub struct HAdaptMem {
    pub hcontroller: Option<u64>,
    pub owncontroller: bool,
    pub etamax: sunrealtype,
    pub etamx1: sunrealtype,
    pub etamxf: sunrealtype,
    pub etacf: sunrealtype,
    pub growth: sunrealtype,
    pub small_nef: i32,
    pub nst_acc: i64,
    pub nst_exp: i64,
    pub q: i32,
    pub p: i32,
}

/// All fields zero.
#[verifier::allow_in_spec]
pub fn no_hadapt() -> HAdaptMem
    returns
        (HAdaptMem {
            hcontroller: None,
            owncontroller: false,
            etamax: ZERO(),
            etamx1: ZERO(),
            etamxf: ZERO(),
            etacf: ZERO(),
            growth: ZERO(),
            small_nef: 0,
            nst_acc: 0,
            nst_exp: 0,
            q: 0,
            p: 0,
        }),
{
    HAdaptMem {
        hcontroller: None,
        owncontroller: false,
        etamax: ZERO(),
        etamx1: ZERO(),
        etamxf: ZERO(),
        etacf: ZERO(),
        growth: ZERO(),
        small_nef: 0,
        nst_acc: 0,
        nst_exp: 0,
        q: 0,
        p: 0,
    }
}

/// Root finding data that the driver reads.
#[derive(Clone, Copy, Debug)]
pub struct RootMem {
    pub nrtfn: i32,
    pub irfnd: i32,
    pub tlo: sunrealtype,
}

/// Tolerances and weight functions.
#[derive(Clone, Copy, Debug)]
pub struct ArkTol {
    pub efun: Option<EwtFn>,
    pub user_efun: bool,
    pub rfun: Option<RwtFn>,
    pub user_rfun: bool,
    pub itol: i32,
    pub ritol: i32,
    pub reltol: sunrealtype,
    pub Sabstol: sunrealtype,
    pub SRabstol: sunrealtype,
    pub atolmin0: bool,
    pub Ratolmin0: bool,
    pub rwt_is_ewt: bool,
    pub VabstolMallocDone: bool,
    pub VRabstolMallocDone: bool,
    pub tolsf: sunrealtype,
}

/// All fields zero, nothing attached.
#[verifier::allow_in_spec]
pub fn zero_ark_tol() -> ArkTol
    returns
        (ArkTol {
            efun: None,
            user_efun: false,
            rfun: None,
            user_rfun: false,
            itol: 0,
            ritol: 0,
            reltol: ZERO(),
            Sabstol: ZERO(),
            SRabstol: ZERO(),
            atolmin0: false,
            Ratolmin0: false,
            rwt_is_ewt: false,
            VabstolMallocDone: false,
            VRabstolMallocDone: false,
            tolsf: ZERO(),
        }),
{
    ArkTol {
        efun: None,
        user_efun: false,
        rfun: None,
        user_rfun: false,
        itol: 0,
        ritol: 0,
        reltol: ZERO(),
        Sabstol: ZERO(),
        SRabstol: ZERO(),
        atolmin0: false,
        Ratolmin0: false,
        rwt_is_ewt: false,
        VabstolMallocDone: false,
        VRabstolMallocDone: false,
        tolsf: ZERO(),
    }
}

/// What is attached to the integrator.
#[derive(Clone, Copy, Debug)]
pub struct ArkParts {
    pub PreStepFn: Option<FnId>,
    pub PostStepFn: Option<FnId>,
    pub PreRhsFn: Option<FnId>,
    pub PostProcessStepFn: Option<FnId>,
    pub PostProcessStageFn: Option<FnId>,
    pub step: Option<StepFn>,
    pub step_supports_adaptive: bool,
    pub step_supports_implicit: bool,
    pub step_supports_massmatrix: bool,
    pub step_supports_relaxation: bool,
    pub interp: bool,
    pub interp_type: i32,
    pub interp_degree: i32,
    pub relax_enabled: bool,
    pub relax_mem: bool,
    pub ark_lmem: bool,
}

/// All fields zero, nothing attached.
#[verifier::allow_in_spec]
pub fn zero_ark_parts() -> ArkParts
    returns
        (ArkParts {
            PreStepFn: None,
            PostStepFn: None,
            PreRhsFn: None,
            PostProcessStepFn: None,
            PostProcessStageFn: None,
            step: None,
            step_supports_adaptive: false,
            step_supports_implicit: false,
            step_supports_massmatrix: false,
            step_supports_relaxation: false,
            interp: false,
            interp_type: 0,
            interp_degree: 0,
            relax_enabled: false,
            relax_mem: false,
            ark_lmem: false,
        }),
{
    ArkParts {
        PreStepFn: None,
        PostStepFn: None,
        PreRhsFn: None,
        PostProcessStepFn: None,
        PostProcessStageFn: None,
        step: None,
        step_supports_adaptive: false,
        step_supports_implicit: false,
        step_supports_massmatrix: false,
        step_supports_relaxation: false,
        interp: false,
        interp_type: 0,
        interp_degree: 0,
        relax_enabled: false,
        relax_mem: false,
        ark_lmem: false,
    }
}

/// Time, step sizes and stop time.
#[derive(Clone, Copy, Debug)]
pub struct ArkStep {
    pub h: sunrealtype,
    pub hprime: sunrealtype,
    pub next_h: sunrealtype,
    pub eta: sunrealtype,
    pub hold: sunrealtype,
    pub h0u: sunrealtype,
    pub hin: sunrealtype,
    pub tcur: sunrealtype,
    pub tn: sunrealtype,
    pub tretlast: sunrealtype,
    pub terr: sunrealtype,
    pub tstop: sunrealtype,
    pub tstopset: bool,
}

/// All fields zero, nothing attached.
#[verifier::allow_in_spec]
pub fn zero_ark_step() -> ArkStep
    returns
        (ArkStep {
            h: ZERO(),
            hprime: ZERO(),
            next_h: ZERO(),
            eta: ZERO(),
            hold: ZERO(),
            h0u: ZERO(),
            hin: ZERO(),
            tcur: ZERO(),
            tn: ZERO(),
            tretlast: ZERO(),
            terr: ZERO(),
            tstop: ZERO(),
            tstopset: false,
        }),
{
    ArkStep {
        h: ZERO(),
        hprime: ZERO(),
        next_h: ZERO(),
        eta: ZERO(),
        hold: ZERO(),
        h0u: ZERO(),
        hin: ZERO(),
        tcur: ZERO(),
        tn: ZERO(),
        tretlast: ZERO(),
        terr: ZERO(),
        tstop: ZERO(),
        tstopset: false,
    }
}

/// Limits and modes.
#[derive(Clone, Copy, Debug)]
pub struct ArkLimits {
    pub uround: sunrealtype,
    pub fixedstep: bool,
    pub hmin: sunrealtype,
    pub hmax_inv: sunrealtype,
    pub use_compensated_sums: bool,
    pub tstopinterp: bool,
    pub mxstep: i64,
    pub mxhnil: i64,
    pub maxnef: i32,
    pub maxncf: i32,
    pub maxconstrfails: i32,
    pub AccumErrorType: i32,
    pub force_pass: bool,
    pub ensure_ycur: bool,
}

/// All fields zero, nothing attached.
#[verifier::allow_in_spec]
pub fn zero_ark_limits() -> ArkLimits
    returns
        (ArkLimits {
            uround: ZERO(),
            fixedstep: false,
            hmin: ZERO(),
            hmax_inv: ZERO(),
            use_compensated_sums: false,
            tstopinterp: false,
            mxstep: 0,
            mxhnil: 0,
            maxnef: 0,
            maxncf: 0,
            maxconstrfails: 0,
            AccumErrorType: 0,
            force_pass: false,
            ensure_ycur: false,
        }),
{
    ArkLimits {
        uround: ZERO(),
        fixedstep: false,
        hmin: ZERO(),
        hmax_inv: ZERO(),
        use_compensated_sums: false,
        tstopinterp: false,
        mxstep: 0,
        mxhnil: 0,
        maxnef: 0,
        maxncf: 0,
        maxconstrfails: 0,
        AccumErrorType: 0,
        force_pass: false,
        ensure_ycur: false,
    }
}

/// Counters and the accumulated error.
#[derive(Clone, Copy, Debug)]
pub struct ArkCounts {
    pub nst: i64,
    pub nst_attempts: i64,
    pub nhnil: i64,
    pub ncfn: i64,
    pub netf: i64,
    pub nconstrfails: i64,
    pub checkpoint_step_idx: i64,
    pub AccumError: sunrealtype,
}

/// All fields zero, nothing attached.
#[verifier::allow_in_spec]
pub fn zero_ark_counts() -> ArkCounts
    returns
        (ArkCounts {
            nst: 0,
            nst_attempts: 0,
            nhnil: 0,
            ncfn: 0,
            netf: 0,
            nconstrfails: 0,
            checkpoint_step_idx: 0,
            AccumError: ZERO(),
        }),
{
    ArkCounts {
        nst: 0,
        nst_attempts: 0,
        nhnil: 0,
        ncfn: 0,
        netf: 0,
        nconstrfails: 0,
        checkpoint_step_idx: 0,
        AccumError: ZERO(),
    }
}

/// Storage accounts in words, and the storage of one vector.
#[derive(Clone, Copy, Debug)]
pub struct ArkAccounts {
    pub lrw: i64,
    pub liw: i64,
    pub lrw1: i64,
    pub liw1: i64,
}

/// All fields zero, nothing attached.
#[verifier::allow_in_spec]
pub fn zero_ark_accounts() -> ArkAccounts
    returns
        (ArkAccounts {
            lrw: 0,
            liw: 0,
            lrw1: 0,
            liw1: 0,
        }),
{
    ArkAccounts {
        lrw: 0,
        liw: 0,
        lrw1: 0,
        liw1: 0,
    }
}

/// Progress flags.
#[derive(Clone, Copy, Debug)]
pub struct ArkFlags {
    pub MallocDone: bool,
    pub initsetup: bool,
    pub init_type: i32,
    pub firststage: bool,
    pub initialized: bool,
    pub preallocated: bool,
    pub call_fullrhs: bool,
    pub fn_is_current: bool,
    pub last_kflag: i32,
    pub do_adjoint: bool,
    pub load_checkpoint_fail: bool,
}

/// All fields zero, nothing attached.
#[verifier::allow_in_spec]
pub fn zero_ark_flags() -> ArkFlags
    returns
        (ArkFlags {
            MallocDone: false,
            initsetup: false,
            init_type: 0,
            firststage: false,
            initialized: false,
            preallocated: false,
            call_fullrhs: false,
            fn_is_current: false,
            last_kflag: 0,
            do_adjoint: false,
            load_checkpoint_fail: false,
        }),
{
    ArkFlags {
        MallocDone: false,
        initsetup: false,
        init_type: 0,
        firststage: false,
        initialized: false,
        preallocated: false,
        call_fullrhs: false,
        fn_is_current: false,
        last_kflag: 0,
        do_adjoint: false,
        load_checkpoint_fail: false,
    }
}

/// The slow problem and the user functions around it.
#[derive(Clone, Copy, Debug)]
pub struct MriProblem {
    pub fse: Option<FnId>,
    pub fsi: Option<FnId>,
    pub linear: bool,
    pub linear_timedep: bool,
    pub explicit_rhs: bool,
    pub implicit_rhs: bool,
    pub deduce_rhs: bool,
    pub fse_is_current: bool,
    pub fsi_is_current: bool,
    pub stage_predict: Option<FnId>,
    pub pre_inner_evolve: Option<FnId>,
    pub post_inner_evolve: Option<FnId>,
    pub predictor: i32,
}

/// All fields zero, nothing attached.
#[verifier::allow_in_spec]
pub fn zero_mri_problem() -> MriProblem
    returns
        (MriProblem {
            fse: None,
            fsi: None,
            linear: false,
            linear_timedep: false,
            explicit_rhs: false,
            implicit_rhs: false,
            deduce_rhs: false,
            fse_is_current: false,
            fsi_is_current: false,
            stage_predict: None,
            pre_inner_evolve: None,
            post_inner_evolve: None,
            predictor: 0,
        }),
{
    MriProblem {
        fse: None,
        fsi: None,
        linear: false,
        linear_timedep: false,
        explicit_rhs: false,
        implicit_rhs: false,
        deduce_rhs: false,
        fse_is_current: false,
        fsi_is_current: false,
        stage_predict: None,
        pre_inner_evolve: None,
        post_inner_evolve: None,
        predictor: 0,
    }
}

/// The method and the stage in progress.
#[derive(Clone, Copy, Debug)]
pub struct MriMethod {
    pub q: i32,
    pub p: i32,
    pub stages: i32,
    pub nstages_active: i32,
    pub nstages_allocated: i32,
    pub unify_Fs: bool,
    pub istage: i32,
    pub cur_stage: i32,
    pub nfusedopvecs: i32,
    pub fused_allocated: bool,
}

/// All fields zero, nothing attached.
#[verifier::allow_in_spec]
pub fn zero_mri_method() -> MriMethod
    returns
        (MriMethod {
            q: 0,
            p: 0,
            stages: 0,
            nstages_active: 0,
            nstages_allocated: 0,
            unify_Fs: false,
            istage: 0,
            cur_stage: 0,
            nfusedopvecs: 0,
            fused_allocated: false,
        }),
{
    MriMethod {
        q: 0,
        p: 0,
        stages: 0,
        nstages_active: 0,
        nstages_allocated: 0,
        unify_Fs: false,
        istage: 0,
        cur_stage: 0,
        nfusedopvecs: 0,
        fused_allocated: false,
    }
}

/// Implicit solver data.
#[derive(Clone, Copy, Debug)]
pub struct MriNls {
    pub attached: bool,
    pub ownNLS: bool,
    pub has_setup: bool,
    pub nls_fsi: Option<FnId>,
    pub gamma: sunrealtype,
    pub gammap: sunrealtype,
    pub gamrat: sunrealtype,
    pub dgmax: sunrealtype,
    pub crdown: sunrealtype,
    pub rdiv: sunrealtype,
    pub crate_: sunrealtype,
    pub delnrm_p: sunrealtype,
    pub delnrm: sunrealtype,
    pub eRNrm: sunrealtype,
    pub nlscoef: sunrealtype,
    pub msbp: i32,
    pub nstlp: i64,
    pub maxcor: i32,
    pub convfail: i32,
    pub jcur: bool,
    pub linit: Option<FnId>,
    pub lsetup: Option<FnId>,
    pub lsolve: Option<FnId>,
    pub lfree: Option<FnId>,
}

/// All fields zero, nothing attached.
#[verifier::allow_in_spec]
pub fn zero_mri_nls() -> MriNls
    returns
        (MriNls {
            attached: false,
            ownNLS: false,
            has_setup: false,
            nls_fsi: None,
            gamma: ZERO(),
            gammap: ZERO(),
            gamrat: ZERO(),
            dgmax: ZERO(),
            crdown: ZERO(),
            rdiv: ZERO(),
            crate_: ZERO(),
            delnrm_p: ZERO(),
            delnrm: ZERO(),
            eRNrm: ZERO(),
            nlscoef: ZERO(),
            msbp: 0,
            nstlp: 0,
            maxcor: 0,
            convfail: 0,
            jcur: false,
            linit: None,
            lsetup: None,
            lsolve: None,
            lfree: None,
        }),
{
    MriNls {
        attached: false,
        ownNLS: false,
        has_setup: false,
        nls_fsi: None,
        gamma: ZERO(),
        gammap: ZERO(),
        gamrat: ZERO(),
        dgmax: ZERO(),
        crdown: ZERO(),
        rdiv: ZERO(),
        crate_: ZERO(),
        delnrm_p: ZERO(),
        delnrm: ZERO(),
        eRNrm: ZERO(),
        nlscoef: ZERO(),
        msbp: 0,
        nstlp: 0,
        maxcor: 0,
        convfail: 0,
        jcur: false,
        linit: None,
        lsetup: None,
        lsolve: None,
        lfree: None,
    }
}

/// Counters.
#[derive(Clone, Copy, Debug)]
pub struct MriCounts {
    pub nfse: i64,
    pub nfsi: i64,
    pub nsetups: i64,
    pub nls_iters: i64,
    pub nls_fails: i64,
    pub inner_fails: i64,
}

/// All fields zero, nothing attached.
#[verifier::allow_in_spec]
pub fn zero_mri_counts() -> MriCounts
    returns
        (MriCounts {
            nfse: 0,
            nfsi: 0,
            nsetups: 0,
            nls_iters: 0,
            nls_fails: 0,
            inner_fails: 0,
        }),
{
    MriCounts {
        nfse: 0,
        nfsi: 0,
        nsetups: 0,
        nls_iters: 0,
        nls_fails: 0,
        inner_fails: 0,
    }
}

/// Data shared with the fast scale when it adapts.
#[derive(Clone, Copy, Debug)]
pub struct MriAdapt {
    pub inner_rtol_factor: sunrealtype,
    pub inner_dsm: sunrealtype,
    pub inner_rtol_factor_new: sunrealtype,
}

/// All fields zero, nothing attached.
#[verifier::allow_in_spec]
pub fn zero_mri_adapt() -> MriAdapt
    returns
        (MriAdapt {
            inner_rtol_factor: ZERO(),
            inner_dsm: ZERO(),
            inner_rtol_factor_new: ZERO(),
        }),
{
    MriAdapt {
        inner_rtol_factor: ZERO(),
        inner_dsm: ZERO(),
        inner_rtol_factor_new: ZERO(),
    }
}

/// Forcing by an outer integrator.
#[derive(Clone, Copy, Debug)]
pub struct MriForcing {
    pub expforcing: bool,
    pub impforcing: bool,
    pub tshift: sunrealtype,
    pub tscale: sunrealtype,
    pub nforcing: i32,
}

/// All fields zero, nothing attached.
#[verifier::allow_in_spec]
pub fn zero_mri_forcing() -> MriForcing
    returns
        (MriForcing {
            expforcing: false,
            impforcing: false,
            tshift: ZERO(),
            tscale: ZERO(),
            nforcing: 0,
        }),
{
    MriForcing {
        expforcing: false,
        impforcing: false,
        tshift: ZERO(),
        tscale: ZERO(),
        nforcing: 0,
    }
}

/// Content and operations.
#[derive(Clone, Copy, Debug)]
pub struct InnerOps {
    pub content: Option<u64>,
    pub evolve: Option<FnId>,
    pub fullrhs: Option<FnId>,
    pub reset: Option<FnId>,
    pub geterror: Option<FnId>,
    pub reseterror: Option<FnId>,
    pub setrtol: Option<FnId>,
}

/// All fields zero, nothing attached.
#[verifier::allow_in_spec]
pub fn zero_inner_ops() -> InnerOps
    returns
        (InnerOps {
            content: None,
            evolve: None,
            fullrhs: None,
            reset: None,
            geterror: None,
            reseterror: None,
            setrtol: None,
        }),
{
    InnerOps {
        content: None,
        evolve: None,
        fullrhs: None,
        reset: None,
        geterror: None,
        reseterror: None,
        setrtol: None,
    }
}

/// Forcing window, last flag and storage accounts.
#[derive(Clone, Copy, Debug)]
pub struct InnerScalars {
    pub nforcing: i32,
    pub nforcing_allocated: i32,
    pub last_flag: i32,
    pub tshift: sunrealtype,
    pub tscale: sunrealtype,
    pub vals_len: i32,
    pub lrw1: i64,
    pub liw1: i64,
    pub lrw: i64,
    pub liw: i64,
}

/// All fields zero, nothing attached.
#[verifier::allow_in_spec]
pub fn zero_inner_scalars() -> InnerScalars
    returns
        (InnerScalars {
            nforcing: 0,
            nforcing_allocated: 0,
            last_flag: 0,
            tshift: ZERO(),
            tscale: ZERO(),
            vals_len: 0,
            lrw1: 0,
            liw1: 0,
            lrw: 0,
            liw: 0,
        }),
{
    InnerScalars {
        nforcing: 0,
        nforcing_allocated: 0,
        last_flag: 0,
        tshift: ZERO(),
        tscale: ZERO(),
        vals_len: 0,
        lrw1: 0,
        liw1: 0,
        lrw: 0,
        liw: 0,
    }
}

/// A fast integrator as the slow one sees it.
#[derive(Debug)]
pub struct MRIStepInnerStepper {
    pub ops: InnerOps,
    pub sc: InnerScalars,
    pub forcing: Vec<N_Vector>,
}

/// What an inner stepper holds.
pub struct InnerView {
    pub ops: Part<InnerOps>,
    pub sc: Part<InnerScalars>,
    pub forcing: Part<Seq<NVec>>,
}

impl InnerView {
    pub open spec fn ops(self) -> InnerOps {
        self.ops.v
    }

    pub open spec fn sc(self) -> InnerScalars {
        self.sc.v
    }

    pub open spec fn forcing(self) -> Seq<NVec> {
        self.forcing.v
    }
}

impl MRIStepInnerStepper {
    /// What the record holds.
    #[verifier::opaque]
    pub open spec fn view(&self) -> InnerView {
        InnerView {
            ops: part(self.ops),
            sc: part(self.sc),
            forcing: part(nvecs(self.forcing@)),
        }
    }
}

/// An inner stepper with nothing attached.
#[verifier::opaque]
pub open spec fn zero_stepper() -> InnerView {
    InnerView {
        ops: part(zero_inner_ops()),
        sc: part(zero_inner_scalars()),
        forcing: part(Seq::empty()),
    }
}

impl MRIStepInnerStepper {
    /// An inner stepper with nothing attached.
    pub fn zeroed() -> (r: MRIStepInnerStepper)
        ensures
            r@ == zero_stepper(),
    {
        reveal(MRIStepInnerStepper::view);
        reveal(zero_stepper);
        let r: MRIStepInnerStepper = MRIStepInnerStepper {
            ops: zero_inner_ops(),
            sc: zero_inner_scalars(),
            forcing: Vec::new(),
        };
        assert(nvecs(r.forcing@) =~= Seq::<NVec>::empty());
        r
    }
}

/// What an optional inner stepper holds.
pub open spec fn stepper_view(s: Option<MRIStepInnerStepper>) -> Option<InnerView> {
    match s {
        Some(x) => Some(x@),
        None => None,
    }
}

/// The MRI time stepper's memory.
#[derive(Debug)]
pub struct ARKodeMRIStepMemRec {
    pub prb: MriProblem,
    pub mth: MriMethod,
    pub nls: MriNls,
    pub cnt: MriCounts,
    pub adp: MriAdapt,
    pub frc: MriForcing,
    pub MRIC: Option<MRIStepCoupling>,
    pub Fse: Vec<N_Vector>,
    pub Fsi: Vec<N_Vector>,
    pub stage_map: Vec<i32>,
    pub stagetypes: Vec<i32>,
    pub Ae_row: Vec<sunrealtype>,
    pub Ai_row: Vec<sunrealtype>,
    pub sdata: N_Vector,
    pub zpred: N_Vector,
    pub zcor: N_Vector,
    pub stepper: Option<MRIStepInnerStepper>,
    pub forcing: Vec<N_Vector>,
}

/// What the MRI time stepper's memory holds.
pub struct MriView {
    pub prb: Part<MriProblem>,
    pub mth: Part<MriMethod>,
    pub nls: Part<MriNls>,
    pub cnt: Part<MriCounts>,
    pub adp: Part<MriAdapt>,
    pub frc: Part<MriForcing>,
    pub MRIC: Part<Option<MRIStepCoupling>>,
    pub Fse: Part<Seq<NVec>>,
    pub Fsi: Part<Seq<NVec>>,
    pub stage_map: Part<Seq<i32>>,
    pub stagetypes: Part<Seq<i32>>,
    pub Ae_row: Part<Seq<sunrealtype>>,
    pub Ai_row: Part<Seq<sunrealtype>>,
    pub sdata: Part<NVec>,
    pub zpred: Part<NVec>,
    pub zcor: Part<NVec>,
    pub stepper: Part<Option<InnerView>>,
    pub forcing: Part<Seq<NVec>>,
}

impl MriView {
    pub open spec fn prb(self) -> MriProblem {
        self.prb.v
    }

    pub open spec fn mth(self) -> MriMethod {
        self.mth.v
    }

    pub open spec fn nls(self) -> MriNls {
        self.nls.v
    }

    pub open spec fn cnt(self) -> MriCounts {
        self.cnt.v
    }

    pub open spec fn adp(self) -> MriAdapt {
        self.adp.v
    }

    pub open spec fn frc(self) -> MriForcing {
        self.frc.v
    }

    pub open spec fn MRIC(self) -> Option<MRIStepCoupling> {
        self.MRIC.v
    }

    pub open spec fn Fse(self) -> Seq<NVec> {
        self.Fse.v
    }

    pub open spec fn Fsi(self) -> Seq<NVec> {
        self.Fsi.v
    }

    pub open spec fn stage_map(self) -> Seq<i32> {
        self.stage_map.v
    }

    pub open spec fn stagetypes(self) -> Seq<i32> {
        self.stagetypes.v
    }

    pub open spec fn Ae_row(self) -> Seq<sunrealtype> {
        self.Ae_row.v
    }

    pub open spec fn Ai_row(self) -> Seq<sunrealtype> {
        self.Ai_row.v
    }

    pub open spec fn sdata(self) -> NVec {
        self.sdata.v
    }

    pub open spec fn zpred(self) -> NVec {
        self.zpred.v
    }

    pub open spec fn zcor(self) -> NVec {
        self.zcor.v
    }

    pub open spec fn stepper(self) -> Option<InnerView> {
        self.stepper.v
    }

    pub open spec fn forcing(self) -> Seq<NVec> {
        self.forcing.v
    }
}

impl ARKodeMRIStepMemRec {
    /// What the record holds.
    #[verifier::opaque]
    pub open spec fn view(&self) -> MriView {
        MriView {
            prb: part(self.prb),
            mth: part(self.mth),
            nls: part(self.nls),
            cnt: part(self.cnt),
            adp: part(self.adp),
            frc: part(self.frc),
            MRIC: part(self.MRIC),
            Fse: part(nvecs(self.Fse@)),
            Fsi: part(nvecs(self.Fsi@)),
            stage_map: part(self.stage_map@),
            stagetypes: part(self.stagetypes@),
            Ae_row: part(self.Ae_row@),
            Ai_row: part(self.Ai_row@),
            sdata: part(self.sdata@),
            zpred: part(self.zpred@),
            zcor: part(self.zcor@),
            stepper: part(stepper_view(self.stepper)),
            forcing: part(nvecs(self.forcing@)),
        }
    }
}

/// MRI stepper memory with nothing set and nothing allocated.
#[verifier::opaque]
pub open spec fn zero_mri_mem() -> MriView {
    MriView {
        prb: part(zero_mri_problem()),
        mth: part(zero_mri_method()),
        nls: part(zero_mri_nls()),
        cnt: part(zero_mri_counts()),
        adp: part(zero_mri_adapt()),
        frc: part(zero_mri_forcing()),
        MRIC: part(None),
        Fse: part(Seq::empty()),
        Fsi: part(Seq::empty()),
        stage_map: part(Seq::empty()),
        stagetypes: part(Seq::empty()),
        Ae_row: part(Seq::empty()),
        Ai_row: part(Seq::empty()),
        sdata: part(v_null()),
        zpred: part(v_null()),
        zcor: part(v_null()),
        stepper: part(None),
        forcing: part(Seq::empty()),
    }
}

impl ARKodeMRIStepMemRec {
    /// MRI stepper memory with nothing set and nothing allocated.
    pub fn zeroed() -> (r: ARKodeMRIStepMemRec)
        ensures
            r@ == zero_mri_mem(),
    {
        reveal(ARKodeMRIStepMemRec::view);
        reveal(zero_mri_mem);
        let r: ARKodeMRIStepMemRec = ARKodeMRIStepMemRec {
            prb: zero_mri_problem(),
            mth: zero_mri_method(),
            nls: zero_mri_nls(),
            cnt: zero_mri_counts(),
            adp: zero_mri_adapt(),
            frc: zero_mri_forcing(),
            MRIC: None,
            Fse: Vec::new(),
            Fsi: Vec::new(),
            stage_map: Vec::new(),
            stagetypes: Vec::new(),
            Ae_row: Vec::new(),
            Ai_row: Vec::new(),
            sdata: null_vector(),
            zpred: null_vector(),
            zcor: null_vector(),
            stepper: None,
            forcing: Vec::new(),
        };
        assert(nvecs(r.Fse@) =~= Seq::<NVec>::empty());
        assert(r.stage_map@ =~= Seq::<i32>::empty());
        assert(r.Ae_row@ =~= Seq::<sunrealtype>::empty());
        r
    }
}

/// What an optional stepper memory holds.
pub open spec fn step_view(s: Option<ARKodeMRIStepMemRec>) -> Option<MriView> {
    match s {
        Some(x) => Some(x@),
        None => None,
    }
}

/// The integrator's memory.
#[derive(Debug)]
pub struct ARKodeMemRec {
    pub tol: ArkTol,
    pub att: ArkParts,
    pub stp: ArkStep,
    pub lim: ArkLimits,
    pub cnt: ArkCounts,
    pub acc: ArkAccounts,
    pub flg: ArkFlags,
    pub ops: StepOps,
    pub hadapt: Option<HAdaptMem>,
    pub root: Option<RootMem>,
    pub ewt: N_Vector,
    pub rwt: N_Vector,
    pub ycur: N_Vector,
    pub yn: N_Vector,
    pub fn_: N_Vector,
    pub tempv1: N_Vector,
    pub tempv2: N_Vector,
    pub tempv3: N_Vector,
    pub tempv4: N_Vector,
    pub tempv5: N_Vector,
    pub Vabstol: N_Vector,
    pub VRabstol: N_Vector,
    pub constraints: N_Vector,
    pub step_mem: Option<ARKodeMRIStepMemRec>,
}

/// What the integrator's memory holds.
pub struct MemView {
    pub tol: Part<ArkTol>,
    pub att: Part<ArkParts>,
    pub stp: Part<ArkStep>,
    pub lim: Part<ArkLimits>,
    pub cnt: Part<ArkCounts>,
    pub acc: Part<ArkAccounts>,
    pub flg: Part<ArkFlags>,
    pub ops: Part<StepOps>,
    pub hadapt: Part<Option<HAdaptMem>>,
    pub root: Part<Option<RootMem>>,
    pub ewt: Part<NVec>,
    pub rwt: Part<NVec>,
    pub ycur: Part<NVec>,
    pub yn: Part<NVec>,
    pub fn_: Part<NVec>,
    pub tempv1: Part<NVec>,
    pub tempv2: Part<NVec>,
    pub tempv3: Part<NVec>,
    pub tempv4: Part<NVec>,
    pub tempv5: Part<NVec>,
    pub Vabstol: Part<NVec>,
    pub VRabstol: Part<NVec>,
    pub constraints: Part<NVec>,
    pub step_mem: Part<Option<MriView>>,
}

impl MemView {
    pub open spec fn tol(self) -> ArkTol {
        self.tol.v
    }

    pub open spec fn att(self) -> ArkParts {
        self.att.v
    }

    pub open spec fn stp(self) -> ArkStep {
        self.stp.v
    }

    pub open spec fn lim(self) -> ArkLimits {
        self.lim.v
    }

    pub open spec fn cnt(self) -> ArkCounts {
        self.cnt.v
    }

    pub open spec fn acc(self) -> ArkAccounts {
        self.acc.v
    }

    pub open spec fn flg(self) -> ArkFlags {
        self.flg.v
    }

    pub open spec fn ops(self) -> StepOps {
        self.ops.v
    }

    pub open spec fn hadapt(self) -> Option<HAdaptMem> {
        self.hadapt.v
    }

    pub open spec fn root(self) -> Option<RootMem> {
        self.root.v
    }

    pub open spec fn ewt(self) -> NVec {
        self.ewt.v
    }

    pub open spec fn rwt(self) -> NVec {
        self.rwt.v
    }

    pub open spec fn ycur(self) -> NVec {
        self.ycur.v
    }

    pub open spec fn yn(self) -> NVec {
        self.yn.v
    }

    pub open spec fn fn_(self) -> NVec {
        self.fn_.v
    }

    pub open spec fn tempv1(self) -> NVec {
        self.tempv1.v
    }

    pub open spec fn tempv2(self) -> NVec {
        self.tempv2.v
    }

    pub open spec fn tempv3(self) -> NVec {
        self.tempv3.v
    }

    pub open spec fn tempv4(self) -> NVec {
        self.tempv4.v
    }

    pub open spec fn tempv5(self) -> NVec {
        self.tempv5.v
    }

    pub open spec fn Vabstol(self) -> NVec {
        self.Vabstol.v
    }

    pub open spec fn VRabstol(self) -> NVec {
        self.VRabstol.v
    }

    pub open spec fn constraints(self) -> NVec {
        self.constraints.v
    }

    pub open spec fn step_mem(self) -> Option<MriView> {
        self.step_mem.v
    }
}

impl ARKodeMemRec {
    /// What the record holds.
    #[verifier::opaque]
    pub open spec fn view(&self) -> MemView {
        MemView {
            tol: part(self.tol),
            att: part(self.att),
            stp: part(self.stp),
            lim: part(self.lim),
            cnt: part(self.cnt),
            acc: part(self.acc),
            flg: part(self.flg),
            ops: part(self.ops),
            hadapt: part(self.hadapt),
            root: part(self.root),
            ewt: part(self.ewt@),
            rwt: part(self.rwt@),
            ycur: part(self.ycur@),
            yn: part(self.yn@),
            fn_: part(self.fn_@),
            tempv1: part(self.tempv1@),
            tempv2: part(self.tempv2@),
            tempv3: part(self.tempv3@),
            tempv4: part(self.tempv4@),
            tempv5: part(self.tempv5@),
            Vabstol: part(self.Vabstol@),
            VRabstol: part(self.VRabstol@),
            constraints: part(self.constraints@),
            step_mem: part(step_view(self.step_mem)),
        }
    }
}

/// Memory with nothing set and nothing allocated.
#[verifier::opaque]
pub open spec fn zero_mem() -> MemView {
    MemView {
        tol: part(zero_ark_tol()),
        att: part(zero_ark_parts()),
        stp: part(zero_ark_step()),
        lim: part(zero_ark_limits()),
        cnt: part(zero_ark_counts()),
        acc: part(zero_ark_accounts()),
        flg: part(zero_ark_flags()),
        ops: part(no_step_ops()),
        hadapt: part(None),
        root: part(None),
        ewt: part(v_null()),
        rwt: part(v_null()),
        ycur: part(v_null()),
        yn: part(v_null()),
        fn_: part(v_null()),
        tempv1: part(v_null()),
        tempv2: part(v_null()),
        tempv3: part(v_null()),
        tempv4: part(v_null()),
        tempv5: part(v_null()),
        Vabstol: part(v_null()),
        VRabstol: part(v_null()),
        constraints: part(v_null()),
        step_mem: part(None),
    }
}

impl ARKodeMemRec {
    /// Memory with nothing set and nothing allocated.
    pub fn zeroed() -> (r: ARKodeMemRec)
        ensures
            r@ == zero_mem(),
    {
        reveal(ARKodeMemRec::view);
        reveal(zero_mem);
        let r: ARKodeMemRec = ARKodeMemRec {
            tol: zero_ark_tol(),
            att: zero_ark_parts(),
            stp: zero_ark_step(),
            lim: zero_ark_limits(),
            cnt: zero_ark_counts(),
            acc: zero_ark_accounts(),
            flg: zero_ark_flags(),
            ops: no_step_ops(),
            hadapt: None,
            root: None,
            ewt: null_vector(),
            rwt: null_vector(),
            ycur: null_vector(),
            yn: null_vector(),
            fn_: null_vector(),
            tempv1: null_vector(),
            tempv2: null_vector(),
            tempv3: null_vector(),
            tempv4: null_vector(),
            tempv5: null_vector(),
            Vabstol: null_vector(),
            VRabstol: null_vector(),
            constraints: null_vector(),
            step_mem: None,
        };
        r
    }
}

} // verus!
