//! Routines that the MRI stepper offers to the integrator: access, linear
//! solvers, state, reset, first step, outer forcing.
use crate::arith::negate;
use crate::arkode_checks::{arkHandleFailure, handle_failure};
use crate::arkode_codes::{
    ARK_INNERSTEP_FAIL, ARK_MEM_NULL, ARK_RHSFUNC_FAIL, ARK_SUCCESS, ARK_TOO_CLOSE, H0_BIAS,
    H0_UBFACTOR,
};
use crate::arkode_impl::{
    ARKodeMRIStepMemRec, ARKodeMemRec, ArkAccounts, ArkFlags, ArkParts, FnId, MemView, MriCounts,
    MriForcing, MriMethod, MriNls, MriProblem,
};
use crate::arkode_mem::{
    mput_cnt, mput_forcing, mput_frc, mput_mth, mput_nls, mput_prb, mri, put_acc, put_att, put_flg,
    put_tempv1, put_yn, with_mri,
};
use crate::binary64::{r_abs, r_div, r_eq, r_le, r_lt, r_mul, r_neg, r_sub, sunrealtype};
use crate::env::{ArkEnv, ModuleCall};
use crate::mristep_fast::{fast_reset, mriStep_FastReset};
use crate::mristep_rhs::{access_step_mem, mriStep_AccessStepMem, mriStep_SlowRHS, slow_rhs};
use crate::mristep_table::{mriStep_TableStages, table_stages};
use crate::nvector::{
    copy_vector, copy_vectors, no_vectors, nvecs, push_vector, v_lin, v_wrms, NVec, N_VLinearSum,
    N_VWrmsNorm, N_Vector,
};
use crate::outcome::{call_module, module_run, Run};
use crate::sundials_math::{r_max, real_max, SUNRabs};
use crate::sundials_types::{sunbooleantype, ONE, SUNFALSE, TWO, ZERO};
use vstd::prelude::*;

verus! {

broadcast use crate::order::group_order;

/// The stepper memory in place. There has to be one.
pub fn mriStep_mem_mut(ark_mem: &mut ARKodeMemRec) -> (s: &mut ARKodeMRIStepMemRec)
    requires
        old(ark_mem)@.step_mem() is Some,
    ensures
        s@ == mri(old(ark_mem)@),
        final(ark_mem)@ == with_mri(old(ark_mem)@, final(s)@),
{
    reveal(ARKodeMemRec::view);
    reveal(mri);
    reveal(with_mri);
    match &mut ark_mem.step_mem {
        Some(s) => s,
        None => vstd::pervasive::unreached(),
    }
}

/// Presence of the stepper memory.
pub fn mriStep_step_mem_ok(ark_mem: &ARKodeMemRec) -> (flag: i32)
    ensures
        flag == access_step_mem(ark_mem@),
{
    mriStep_AccessStepMem(ark_mem)
}

/// The first `nvec` vectors of a list.
pub fn mriStep_xvecs(Xvecs: &Vec<N_Vector>, nvec: i32) -> (r: Vec<N_Vector>)
    requires
        0 <= nvec <= Xvecs@.len(),
    ensures
        nvecs(r@) == nvecs(Xvecs@).take(nvec as int),
{
    let mut out: Vec<N_Vector> = no_vectors();
    let mut i: i32 = 0;
    while i < nvec
        invariant
            0 <= i <= nvec <= Xvecs@.len(),
            nvecs(out@).len() == i,
            forall|j: int| 0 <= j < i ==> #[trigger] nvecs(out@)[j] == nvecs(Xvecs@)[j],
        decreases nvec - i,
    {
        push_vector(&mut out, copy_vector(&Xvecs[i as usize]));
        i = i + 1;
    }
    assert(nvecs(out@) =~= nvecs(Xvecs@).take(nvec as int));
    out
}

/// The fast integrator reset to a state; counters stay.
#[verifier::opaque]
pub open spec fn mri_reset<E: ArkEnv>(m: MemView, e: E, t: sunrealtype, y: NVec) -> Run<E> {
    let r = fast_reset(m, e, t, y);
    if access_step_mem(m) != ARK_SUCCESS {
        Run { m, e, flag: ARK_MEM_NULL }
    } else {
        Run {
            m: r.m,
            e: r.e,
            flag: if r.flag != ARK_SUCCESS {
                ARK_INNERSTEP_FAIL
            } else {
                ARK_SUCCESS
            },
        }
    }
}

/// Resets the stepper to a state.
pub fn mriStep_Reset<E: ArkEnv>(
    ark_mem: &mut ARKodeMemRec,
    env: &mut E,
    tR: sunrealtype,
    yR: &N_Vector,
) -> (flag: i32)
    ensures
        final(ark_mem)@ == mri_reset(old(ark_mem)@, *old(env), tR, yR@).m,
        *final(env) == mri_reset(old(ark_mem)@, *old(env), tR, yR@).e,
        flag == mri_reset(old(ark_mem)@, *old(env), tR, yR@).flag,
{
    reveal(mri_reset);
    let retval: i32 = mriStep_AccessStepMem(ark_mem);
    if retval != ARK_SUCCESS {
        return retval;
    }
    let retval: i32 = mriStep_FastReset(ark_mem, env, tR, yR);
    if retval != ARK_SUCCESS {
        return ARK_INNERSTEP_FAIL;
    }
    ARK_SUCCESS
}

/// Computes a state from the current prediction and a correction.
pub fn mriStep_ComputeState(ark_mem: &ARKodeMemRec, zcor: &N_Vector, z: &mut N_Vector) -> (flag: i32)
    ensures
        flag == access_step_mem(ark_mem@),
        final(z)@ == if ark_mem@.step_mem() is Some {
            v_lin(ONE(), mri(ark_mem@).zpred(), ONE(), zcor@, old(z)@)
        } else {
            old(z)@
        },
{
    let retval: i32 = mriStep_AccessStepMem(ark_mem);
    if retval != ARK_SUCCESS {
        return retval;
    }
    *z = N_VLinearSum(ONE(), &ark_mem.get_zpred(), ONE(), zcor, z);
    ARK_SUCCESS
}

/// The memory with the presence of linear solver data replaced.
#[verifier::opaque]
pub open spec fn with_lmem(m: MemView, present: bool) -> MemView {
    put_att(m, ArkParts { ark_lmem: present, ..m.att() })
}

/// Records the presence of linear solver data.
pub fn set_lmem(ark_mem: &mut ARKodeMemRec, present: bool)
    ensures
        final(ark_mem)@ == with_lmem(old(ark_mem)@, present),
{
    reveal(with_lmem);
    let a: ArkParts = ark_mem.get_att();
    ark_mem.set_att(ArkParts { ark_lmem: present, ..a });
}

/// A linear solver attached: the one before is released, and its counters
/// start from zero.
#[verifier::opaque]
pub open spec fn attach_linsol<E: ArkEnv>(
    m: MemView,
    e: E,
    linit: Option<FnId>,
    lsetup: Option<FnId>,
    lsolve: Option<FnId>,
    lfree: Option<FnId>,
    lmem: bool,
) -> Run<E> {
    if access_step_mem(m) != ARK_SUCCESS {
        Run { m, e, flag: ARK_MEM_NULL }
    } else {
        let f = match mri(m).nls().lfree {
            None => Run { m, e, flag: ARK_SUCCESS },
            Some(f) => module_run(m, e, ModuleCall::LinearFree { f }),
        };
        let m1 = mput_nls(
            f.m,
            MriNls { linit, lsetup, lsolve, lfree, nstlp: 0, ..mri(f.m).nls() },
        );
        let m2 = mput_cnt(m1, MriCounts { nsetups: 0, ..mri(m1).cnt() });
        Run { m: with_lmem(m2, lmem), e: f.e, flag: ARK_SUCCESS }
    }
}

/// Attaches a linear solver.
pub fn mriStep_AttachLinsol<E: ArkEnv>(
    ark_mem: &mut ARKodeMemRec,
    env: &mut E,
    linit: Option<FnId>,
    lsetup: Option<FnId>,
    lsolve: Option<FnId>,
    lfree: Option<FnId>,
    lmem: bool,
) -> (flag: i32)
    ensures
        ({
            let o = attach_linsol(
                old(ark_mem)@,
                *old(env),
                linit,
                lsetup,
                lsolve,
                lfree,
                lmem,
            );
            &&& final(ark_mem)@ == o.m
            &&& *final(env) == o.e
            &&& flag == o.flag
        }),
{
    reveal(attach_linsol);
    let retval: i32 = mriStep_AccessStepMem(ark_mem);
    if retval != ARK_SUCCESS {
        return retval;
    }
    match ark_mem.get_mri_nls().lfree {
        None => {},
        Some(f) => {
            call_module(ark_mem, env, ModuleCall::LinearFree { f });
        },
    }
    let n: MriNls = ark_mem.get_mri_nls();
    ark_mem.set_mri_nls(MriNls { linit, lsetup, lsolve, lfree, nstlp: 0, ..n });
    let c: MriCounts = ark_mem.get_mri_cnt();
    ark_mem.set_mri_cnt(MriCounts { nsetups: 0, ..c });
    set_lmem(ark_mem, lmem);
    ARK_SUCCESS
}

/// Detaches the setup of the linear solver.
pub fn mriStep_DisableLSetup(ark_mem: &mut ARKodeMemRec)
    ensures
        final(ark_mem)@ == if old(ark_mem)@.step_mem() is Some {
            mput_nls(old(ark_mem)@, MriNls { lsetup: None, ..mri(old(ark_mem)@).nls() })
        } else {
            old(ark_mem)@
        },
{
    if mriStep_AccessStepMem(ark_mem) != ARK_SUCCESS {
        return;
    }
    let n: MriNls = ark_mem.get_mri_nls();
    ark_mem.set_mri_nls(MriNls { lsetup: None, ..n });
}

/// Whether linear solver data are attached.
pub fn mriStep_GetLmem(ark_mem: &ARKodeMemRec) -> (r: sunbooleantype)
    ensures
        r == (ark_mem@.step_mem() is Some && ark_mem@.att().ark_lmem),
{
    if mriStep_AccessStepMem(ark_mem) != ARK_SUCCESS {
        return SUNFALSE;
    }
    ark_mem.get_att().ark_lmem
}

/// The implicit right-hand side, where the problem has one.
pub fn mriStep_GetImplicitRHS(ark_mem: &ARKodeMemRec) -> (r: Option<FnId>)
    ensures
        r == if ark_mem@.step_mem() is Some && mri(ark_mem@).prb().implicit_rhs {
            mri(ark_mem@).prb().fsi
        } else {
            None
        },
{
    if mriStep_AccessStepMem(ark_mem) != ARK_SUCCESS {
        return None;
    }
    let p: MriProblem = ark_mem.get_mri_prb();
    if p.implicit_rhs {
        p.fsi
    } else {
        None
    }
}

/// Reads the factors of the implicit stage equation, whether the Jacobian is
/// current, and whether the factor has changed too much since it was set up.
pub fn mriStep_GetGammas(
    ark_mem: &ARKodeMemRec,
    gamma: &mut sunrealtype,
    gamrat: &mut sunrealtype,
    jcur: &mut bool,
    dgamma_fail: &mut sunbooleantype,
) -> (flag: i32)
    ensures
        flag == access_step_mem(ark_mem@),
        ark_mem@.step_mem() is Some ==> {
            let n = mri(ark_mem@).nls();
            &&& *final(gamma) == n.gamma
            &&& *final(gamrat) == n.gamrat
            &&& *final(jcur) == n.jcur
            &&& *final(dgamma_fail) == r_le(n.dgmax, r_abs(r_sub(n.gamrat, ONE())))
        },
        ark_mem@.step_mem() is None ==> {
            &&& *final(gamma) == *old(gamma)
            &&& *final(gamrat) == *old(gamrat)
            &&& *final(jcur) == *old(jcur)
            &&& *final(dgamma_fail) == *old(dgamma_fail)
        },
{
    let retval: i32 = mriStep_AccessStepMem(ark_mem);
    if retval != ARK_SUCCESS {
        return retval;
    }
    let n: MriNls = ark_mem.get_mri_nls();
    *gamma = n.gamma;
    *gamrat = n.gamrat;
    *jcur = n.jcur;
    *dgamma_fail = SUNRabs(n.gamrat - ONE()) >= n.dgmax;
    ARK_SUCCESS
}

/// What a listing of the stepper memory shows. Stage types are those of all
/// stages and the embedding, the rows those of the stored stages.
#[derive(Debug)]
pub struct MRIStepReport {
    pub prb: MriProblem,
    pub mth: MriMethod,
    pub nls: MriNls,
    pub cnt: MriCounts,
    pub stagetypes: Vec<i32>,
    pub Ae_row: Vec<sunrealtype>,
    pub Ai_row: Vec<sunrealtype>,
}

/// The first `n` entries, or all where there are fewer.
pub open spec fn prefix<T>(s: Seq<T>, n: int) -> Seq<T> {
    if n <= 0 {
        Seq::empty()
    } else if n <= s.len() {
        s.take(n)
    } else {
        s
    }
}

fn shorten<T>(v: &mut Vec<T>, n: i64)
    ensures
        final(v)@ == prefix(old(v)@, n as int),
{
    let ghost v0 = v@;
    if n <= 0 {
        v.truncate(0);
        assert(v@ =~= Seq::<T>::empty());
    } else if (n as u64) < v.len() as u64 {
        v.truncate(n as usize);
        assert(v@ =~= v0.take(n as int));
    } else {
        assert(prefix(v0, n as int) =~= v0);
    }
}

/// Whether a listing shows what the stepper memory holds.
pub open spec fn lists_stepper(l: MRIStepReport, m: MemView) -> bool {
    let s = mri(m);
    &&& l.prb == s.prb()
    &&& l.mth == s.mth()
    &&& l.nls == s.nls()
    &&& l.cnt == s.cnt()
    &&& l.stagetypes@ == prefix(s.stagetypes(), s.mth().stages + 1)
    &&& l.Ae_row@ == prefix(s.Ae_row(), s.mth().nstages_active as int)
    &&& l.Ai_row@ == prefix(s.Ai_row(), s.mth().nstages_active as int)
}

/// Lists the stepper memory; nothing where none is attached.
pub fn mriStep_PrintMem(ark_mem: &ARKodeMemRec) -> (r: Option<MRIStepReport>)
    ensures
        r is Some == ark_mem@.step_mem() is Some,
        r matches Some(l) ==> lists_stepper(l, ark_mem@),
{
    if mriStep_AccessStepMem(ark_mem) != ARK_SUCCESS {
        return None;
    }
    let mth: MriMethod = ark_mem.get_mri_mth();
    let mut stagetypes: Vec<i32> = ark_mem.get_stagetypes();
    let mut Ae_row: Vec<sunrealtype> = ark_mem.get_Ae_row();
    let mut Ai_row: Vec<sunrealtype> = ark_mem.get_Ai_row();
    shorten(&mut stagetypes, mth.stages as i64 + 1);
    shorten(&mut Ae_row, mth.nstages_active as i64);
    shorten(&mut Ai_row, mth.nstages_active as i64);
    Some(
        MRIStepReport {
            prb: ark_mem.get_mri_prb(),
            mth,
            nls: ark_mem.get_mri_nls(),
            cnt: ark_mem.get_mri_cnt(),
            stagetypes,
            Ae_row,
            Ai_row,
        },
    )
}

/// A first step with which an explicit Euler step stays within the
/// tolerances; `None` where the output time is too close.
#[verifier::opaque]
pub open spec fn slow_hin(m: MemView, tcur: sunrealtype, tout: sunrealtype, f: NVec) -> Option<
    sunrealtype,
> {
    let tdiff = r_sub(tout, tcur);
    let tdist = r_abs(tdiff);
    let tround = r_mul(m.lim().uround, r_max(r_abs(tcur), r_abs(tout)));
    let sign = if r_lt(ZERO(), tdiff) {
        ONE()
    } else {
        r_neg(ONE())
    };
    if r_eq(tdiff, ZERO()) || r_lt(tdist, r_mul(TWO(), tround)) {
        None
    } else {
        Some(
            r_div(
                sign,
                r_max(
                    r_div(r_div(ONE(), H0_UBFACTOR()), tdist),
                    r_div(v_wrms(f, m.ewt()), H0_BIAS()),
                ),
            ),
        )
    }
}

/// Chooses the first step from the slow right-hand side alone.
pub fn mriStep_Hin(
    ark_mem: &ARKodeMemRec,
    tcur: sunrealtype,
    tout: sunrealtype,
    fcur: &N_Vector,
    h: &mut sunrealtype,
) -> (flag: i32)
    ensures
        match slow_hin(ark_mem@, tcur, tout, fcur@) {
            None => flag == ARK_TOO_CLOSE && *final(h) == *old(h),
            Some(x) => flag == ARK_SUCCESS && *final(h) == x,
        },
{
    reveal(slow_hin);
    let tdiff: sunrealtype = tout - tcur;
    if tdiff == ZERO() {
        return ARK_TOO_CLOSE;
    }
    let sign: sunrealtype = if tdiff > ZERO() {
        ONE()
    } else {
        negate(ONE())
    };
    let tdist: sunrealtype = SUNRabs(tdiff);
    let tround: sunrealtype = ark_mem.get_lim().uround * real_max(SUNRabs(tcur), SUNRabs(tout));
    if tdist < TWO() * tround {
        return ARK_TOO_CLOSE;
    }
    let fnorm: sunrealtype = N_VWrmsNorm(fcur, &ark_mem.get_ewt()) / H0_BIAS();
    let h0_inv: sunrealtype = real_max(ONE() / H0_UBFACTOR() / tdist, fnorm);
    *h = sign / h0_inv;
    ARK_SUCCESS
}

/// Memory, environment, step size and flag.
pub struct H0Out<E> {
    pub m: MemView,
    pub e: E,
    pub h: sunrealtype,
    pub flag: i32,
}

/// The first slow step, from the slow right-hand side at the last solution.
#[verifier::opaque]
pub open spec fn compute_h0<E: ArkEnv>(m: MemView, e: E, tout: sunrealtype, h: sunrealtype) -> H0Out<E> {
    let t = m.stp().tn;
    let r = slow_rhs(m, e, t, m.yn(), m.tempv1());
    let m1 = put_tempv1(put_yn(r.m, r.y), r.f);
    if r.flag != ARK_SUCCESS {
        H0Out { m: m1, e: r.e, h, flag: ARK_RHSFUNC_FAIL }
    } else {
        match slow_hin(m1, t, tout, r.f) {
            None => H0Out { m: m1, e: r.e, h, flag: handle_failure(ARK_TOO_CLOSE) },
            Some(x) => H0Out { m: m1, e: r.e, h: x, flag: ARK_SUCCESS },
        }
    }
}

/// Computes the first slow step.
pub fn mriStep_ComputeH0<E: ArkEnv>(
    ark_mem: &mut ARKodeMemRec,
    env: &mut E,
    tout: sunrealtype,
    hin: &mut sunrealtype,
) -> (flag: i32)
    ensures
        ({
            let o = compute_h0(old(ark_mem)@, *old(env), tout, *old(hin));
            &&& final(ark_mem)@ == o.m
            &&& *final(env) == o.e
            &&& *final(hin) == o.h
            &&& flag == o.flag
        }),
{
    reveal(compute_h0);
    let t: sunrealtype = ark_mem.get_stp().tn;
    let mut y: N_Vector = ark_mem.get_yn();
    let mut f: N_Vector = ark_mem.get_tempv1();
    let retval: i32 = mriStep_SlowRHS(ark_mem, env, t, &mut y, &mut f);
    ark_mem.set_yn(y);
    ark_mem.set_tempv1(copy_vector(&f));
    if retval != ARK_SUCCESS {
        return ARK_RHSFUNC_FAIL;
    }
    let retval: i32 = mriStep_Hin(ark_mem, t, tout, &f, hin);
    if retval != ARK_SUCCESS {
        return arkHandleFailure(retval);
    }
    ARK_SUCCESS
}

/// The workspace for fused operations replaced by one of `size` entries; the
/// accounts follow.
#[verifier::opaque]
pub open spec fn refit_fused(m: MemView, size: i32) -> MemView {
    let h = mri(m).mth();
    let a = m.acc();
    let freed = if h.fused_allocated {
        ArkAccounts {
            lrw: a.lrw.wrapping_sub(h.nfusedopvecs as i64),
            liw: a.liw.wrapping_sub(h.nfusedopvecs as i64),
            ..a
        }
    } else {
        a
    };
    put_acc(
        mput_mth(m, MriMethod { nfusedopvecs: size, fused_allocated: true, ..h }),
        ArkAccounts {
            lrw: freed.lrw.wrapping_add(size as i64),
            liw: freed.liw.wrapping_add(size as i64),
            ..freed
        },
    )
}

/// Replaces the workspace for fused operations.
pub fn mriStep_RefitFused(ark_mem: &mut ARKodeMemRec, size: i32)
    ensures
        final(ark_mem)@ == refit_fused(old(ark_mem)@, size),
{
    reveal(refit_fused);
    let h: MriMethod = ark_mem.get_mri_mth();
    let mut a: ArkAccounts = ark_mem.get_acc();
    if h.fused_allocated {
        a = ArkAccounts {
            lrw: a.lrw.wrapping_sub(h.nfusedopvecs as i64),
            liw: a.liw.wrapping_sub(h.nfusedopvecs as i64),
            ..a
        };
    }
    ark_mem.set_mri_mth(MriMethod { nfusedopvecs: size, fused_allocated: true, ..h });
    ark_mem.set_acc(
        ArkAccounts {
            lrw: a.lrw.wrapping_add(size as i64),
            liw: a.liw.wrapping_add(size as i64),
            ..a
        },
    );
}

/// Entries that fused operations need for a number of stages and of forcing
/// vectors.
pub open spec fn fused_size(stages: i32, nforcing: i32) -> int {
    2 * stages + 2 + nforcing
}

/// The forcing of an outer integrator switched on, on the explicit right-hand
/// side where there is one.
#[verifier::opaque]
pub open spec fn force_on(
    m: MemView,
    tshift: sunrealtype,
    tscale: sunrealtype,
    forcing: Seq<NVec>,
    n: i32,
) -> MemView {
    let p = mri(m).prb();
    let ex = p.explicit_rhs;
    let m1 = if ex {
        mput_prb(m, MriProblem { fse_is_current: false, ..p })
    } else {
        mput_prb(m, MriProblem { fsi_is_current: false, ..p })
    };
    let m2 = mput_forcing(
        mput_frc(
            m1,
            MriForcing { expforcing: ex, impforcing: !ex, tshift, tscale, nforcing: n },
        ),
        forcing,
    );
    put_flg(m2, ArkFlags { fn_is_current: false, ..m2.flg() })
}

fn mriStep_ForceOn(
    ark_mem: &mut ARKodeMemRec,
    tshift: sunrealtype,
    tscale: sunrealtype,
    forcing: &Vec<N_Vector>,
    n: i32,
)
    ensures
        final(ark_mem)@ == force_on(old(ark_mem)@, tshift, tscale, nvecs(forcing@), n),
{
    reveal(force_on);
    let p: MriProblem = ark_mem.get_mri_prb();
    let ex: bool = p.explicit_rhs;
    if ex {
        ark_mem.set_mri_prb(MriProblem { fse_is_current: false, ..p });
    } else {
        ark_mem.set_mri_prb(MriProblem { fsi_is_current: false, ..p });
    }
    ark_mem.set_mri_frc(
        MriForcing { expforcing: ex, impforcing: !ex, tshift, tscale, nforcing: n },
    );
    ark_mem.set_forcing(copy_vectors(forcing));
    let g: ArkFlags = ark_mem.get_flg();
    ark_mem.set_flg(ArkFlags { fn_is_current: false, ..g });
}

/// The forcing of an outer integrator switched off.
#[verifier::opaque]
pub open spec fn force_off(m: MemView) -> MemView {
    mput_forcing(
        mput_frc(
            m,
            MriForcing {
                expforcing: false,
                impforcing: false,
                tshift: ZERO(),
                tscale: ONE(),
                nforcing: 0,
            },
        ),
        Seq::empty(),
    )
}

fn mriStep_ForceOff(ark_mem: &mut ARKodeMemRec)
    ensures
        final(ark_mem)@ == force_off(old(ark_mem)@),
{
    reveal(force_off);
    ark_mem.set_mri_frc(
        MriForcing {
            expforcing: false,
            impforcing: false,
            tshift: ZERO(),
            tscale: ONE(),
            nforcing: 0,
        },
    );
    ark_mem.set_forcing(no_vectors());
}

/// The polynomial forcing of an outer integrator set, `n` coefficient vectors
/// over `(t - tshift) / tscale`, or switched off for `n` that is not
/// positive. The workspace grows with it once the table is known.
#[verifier::opaque]
pub open spec fn set_inner_forcing(
    m: MemView,
    tshift: sunrealtype,
    tscale: sunrealtype,
    forcing: Seq<NVec>,
    n: i32,
) -> MemView {
    if access_step_mem(m) != ARK_SUCCESS {
        m
    } else if n > 0 {
        let m1 = force_on(m, tshift, tscale, forcing, n);
        if mri(m1).MRIC() is Some && mri(m1).mth().nfusedopvecs < fused_size(table_stages(m1), n) {
            refit_fused(m1, fused_size(table_stages(m1), n) as i32)
        } else {
            m1
        }
    } else {
        force_off(m)
    }
}

/// Sets or switches off the polynomial forcing of an outer integrator.
pub fn mriStep_SetInnerForcing(
    ark_mem: &mut ARKodeMemRec,
    tshift: sunrealtype,
    tscale: sunrealtype,
    forcing: &Vec<N_Vector>,
    nvecs_: i32,
) -> (flag: i32)
    ensures
        final(ark_mem)@ == set_inner_forcing(
            old(ark_mem)@,
            tshift,
            tscale,
            nvecs(forcing@),
            nvecs_,
        ),
        flag == access_step_mem(old(ark_mem)@),
{
    reveal(set_inner_forcing);
    let retval: i32 = mriStep_AccessStepMem(ark_mem);
    if retval != ARK_SUCCESS {
        return retval;
    }
    if nvecs_ > 0 {
        mriStep_ForceOn(ark_mem, tshift, tscale, forcing, nvecs_);
        if ark_mem.table().is_some() {
            let size: i64 = 2 * (mriStep_TableStages(ark_mem) as i64) + 2 + nvecs_ as i64;
            if (ark_mem.get_mri_mth().nfusedopvecs as i64) < size {
                mriStep_RefitFused(ark_mem, size as i32);
            }
        }
    } else {
        mriStep_ForceOff(ark_mem);
    }
    ARK_SUCCESS
}

} // verus!
