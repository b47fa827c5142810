//! Laws of the multirate stepper.
use crate::arkode_codes::{
    ARK_CONV_FAILURE, ARK_ERR_FAILURE, ARK_SUCCESS, ARK_TOO_MUCH_WORK, FIRST_INIT, RESET_INIT,
};
use crate::arkode_core::{
    ask_init, init, init_alloc, init_counters, init_fresh, init_rest, init_state,
};
use crate::arkode_impl::{zero_mri_counts, FnId, InnerView, MemView, MriProblem};
use crate::arkode_inner::{force, inner_flag, inner_run};
use crate::arkode_step::controller;
use crate::arkode_mem::{
    mput_cnt, mput_forcing, mput_frc, mput_mth, mput_nls, mput_prb, mri, put_acc, put_cnt, put_flg,
    put_hadapt, put_stp, put_tol, put_ycur, put_yn, with_mri,
};
use crate::binary64::sunrealtype;
use crate::env::{ArkEnv, ModuleCall};
use crate::inner_stepper::{inner_evolve, inner_op, with_flag, with_sc};
use crate::mristep_begin::wants_error;
use crate::mristep_create::{clear_counts, mri_create, mri_reinit, need_newton, renew_problem};
use crate::mristep_gark::{gark_stages, take_step_gark};
use crate::mristep_init::{mri_init, renew_newton, taken_nls};
use crate::mristep_merk::take_step_merk;
use crate::mristep_ops::{force_off, force_on, refit_fused, set_inner_forcing};
use crate::mristep_rhs::access_step_mem;
use crate::mristep_sr::{sr_step, take_step_sr};
use crate::outcome::{lemma_unseen_memory, module_run};
use crate::nvector::{v_scale, NVec};
use crate::sundials_types::{ONE, ZERO};
use vstd::prelude::*;

verus! {

/// A default nonlinear solver that cannot be released is gone all the same; the
/// failure is reported and no new solver is made.
pub proof fn law_unreleased_solver<E: ArkEnv>(m: MemView, e: E, y0: NVec)
    requires
        m.step_mem() is Some,
        mri(m).nls().attached,
        mri(m).nls().ownNLS,
        module_run(taken_nls(m), e, ModuleCall::NonlinSolFree).flag != ARK_SUCCESS,
    ensures
        ({
            let r = module_run(taken_nls(m), e, ModuleCall::NonlinSolFree);
            let o = renew_newton(m, e, y0);
            &&& o.flag == r.flag
            &&& o.e == r.e
            &&& o.m == taken_nls(m)
            &&& !mri(o.m).nls().attached
            &&& mri(o.m).nls().ownNLS
        }),
{
    reveal(renew_newton);
    lemma_unseen_memory::<E>(ModuleCall::NonlinSolFree);
    reveal(taken_nls);
    reveal(mput_nls);
    reveal(with_mri);
    reveal(mri);
}

/// An initialisation after a reset leaves the stepper as it is.
pub proof fn law_init_after_reset<E: ArkEnv>(m: MemView, e: E)
    requires
        m.step_mem() is Some,
    ensures
        mri_init(m, e, RESET_INIT).m == m,
        mri_init(m, e, RESET_INIT).e == e,
        mri_init(m, e, RESET_INIT).flag == ARK_SUCCESS,
{
    reveal(mri_init);
}

proof fn lemma_renewed(m: MemView, fse: Option<FnId>, fsi: Option<FnId>)
    requires
        m.step_mem() is Some,
    ensures
        mri(renew_problem(m, fse, fsi)).cnt() == zero_mri_counts(),
        mri(renew_problem(m, fse, fsi)).nls().nstlp == 0,
        mri(renew_problem(m, fse, fsi)).prb().fse == fse,
        mri(renew_problem(m, fse, fsi)).prb().fsi == fsi,
        !mri(renew_problem(m, fse, fsi)).prb().fse_is_current,
        !mri(renew_problem(m, fse, fsi)).prb().fsi_is_current,
        mri(renew_problem(m, fse, fsi)).prb().explicit_rhs == mri(m).prb().explicit_rhs,
        mri(renew_problem(m, fse, fsi)).prb().implicit_rhs == mri(m).prb().implicit_rhs,
        renew_problem(m, fse, fsi).cnt() == m.cnt(),
        renew_problem(m, fse, fsi).stp() == m.stp(),
        renew_problem(m, fse, fsi).yn() == m.yn(),
        renew_problem(m, fse, fsi).att() == m.att(),
{
    reveal(renew_problem);
    reveal(clear_counts);
    reveal(mput_cnt);
    reveal(mput_nls);
    reveal(mput_prb);
    reveal(with_mri);
    reveal(mri);
}

/// A renewed initialisation that succeeds starts over: cleared counters, the
/// new state, the new right-hand sides, neither of them evaluated. This is for
/// an integrator to which no linear solver is attached, and a nonlinear one
/// where it needs it.
pub proof fn law_reinit_starts_over<E: ArkEnv>(
    m: MemView,
    e: E,
    fse: Option<FnId>,
    fsi: Option<FnId>,
    t0: sunrealtype,
    y0: NVec,
)
    requires
        m.step_mem() is Some,
        m.flg().MallocDone,
        fse is Some || fsi is Some,
        fsi is Some ==> mri(m).nls().attached,
        !m.att().ark_lmem,
        mri_reinit(m, e, fse, fsi, t0, y0).flag == ARK_SUCCESS,
    ensures
        ({
            let r = mri_reinit(m, e, fse, fsi, t0, y0);
            &&& mri(r.m).cnt() == zero_mri_counts()
            &&& mri(r.m).nls().nstlp == 0
            &&& mri(r.m).prb().fse == fse
            &&& mri(r.m).prb().fsi == fsi
            &&& mri(r.m).prb().explicit_rhs == (fse is Some)
            &&& mri(r.m).prb().implicit_rhs == (fsi is Some)
            &&& !mri(r.m).prb().fse_is_current
            &&& !mri(r.m).prb().fsi_is_current
            &&& r.m.cnt().nst == 0
            &&& r.m.stp().tn == t0
            &&& r.m.yn() == v_scale(ONE(), y0, m.yn())
        }),
{
    reveal(mri_reinit);
    reveal(access_step_mem);
    reveal(need_newton);
    reveal(mput_prb);
    reveal(with_mri);
    reveal(mri);
    let m1 = mput_prb(
        m,
        MriProblem { explicit_rhs: fse is Some, implicit_rhs: fsi is Some, ..mri(m).prb() },
    );
    assert(m1.step_mem() is Some);
    lemma_first_init(m1, e, t0, y0);
    let b = init(m1, e, t0, y0, FIRST_INIT);
    lemma_renewed(b.m, fse, fsi);
}

proof fn lemma_first_init<E: ArkEnv>(m: MemView, e: E, t: sunrealtype, y: NVec)
    requires
        m.flg().MallocDone,
        init(m, e, t, y, FIRST_INIT).flag == ARK_SUCCESS,
    ensures
        ({
            let r = init(m, e, t, y, FIRST_INIT);
            &&& r.m.step_mem() == m.step_mem()
            &&& r.m.att() == m.att()
            &&& r.m.cnt().nst == 0
            &&& r.m.stp().tn == t
            &&& r.m.yn() == v_scale(ONE(), y, m.yn())
        }),
{
    reveal(init);
    reveal(init_alloc);
    reveal(init_state);
    reveal(init_fresh);
    reveal(init_counters);
    reveal(init_rest);
    reveal(ask_init);
    reveal(put_ycur);
    reveal(put_stp);
    reveal(put_yn);
    reveal(put_flg);
    reveal(put_cnt);
    reveal(put_tol);
    reveal(put_hadapt);
    if let Some(id) = controller(m) {
        lemma_unseen_memory::<E>(ModuleCall::ControllerReset { id });
    }
}

/// Neither a creation nor a renewed initialisation works without a slow
/// right-hand side; nothing is changed.
pub proof fn law_needs_right_hand_side<E: ArkEnv>(
    m: MemView,
    e: E,
    t0: sunrealtype,
    y0: NVec,
    s: InnerView,
)
    ensures
        mri_create(e, None, None, t0, y0, s).m is None,
        mri_create(e, None, None, t0, y0, s).e == e,
        mri_reinit(m, e, None, None, t0, y0).flag != ARK_SUCCESS,
        mri_reinit(m, e, None, None, t0, y0).m == m,
        mri_reinit(m, e, None, None, t0, y0).e == e,
{
    reveal(mri_create);
    reveal(mri_reinit);
}

/// An inner stepper that cannot evolve is refused.
pub proof fn law_needs_evolve<E: ArkEnv>(
    e: E,
    fse: Option<FnId>,
    fsi: Option<FnId>,
    t0: sunrealtype,
    y0: NVec,
    s: InnerView,
)
    requires
        s.ops().evolve is None,
    ensures
        mri_create(e, fse, fsi, t0, y0, s).m is None,
{
    reveal(mri_create);
}

/// Outer forcing acts on exactly one of the right-hand sides, the explicit
/// one where there is one.
pub proof fn law_forcing_on(
    m: MemView,
    tshift: sunrealtype,
    tscale: sunrealtype,
    forcing: Seq<NVec>,
    n: i32,
)
    requires
        m.step_mem() is Some,
        n > 0,
    ensures
        ({
            let r = mri(set_inner_forcing(m, tshift, tscale, forcing, n));
            &&& r.frc().expforcing == mri(m).prb().explicit_rhs
            &&& r.frc().impforcing == !mri(m).prb().explicit_rhs
            &&& r.frc().tshift == tshift
            &&& r.frc().tscale == tscale
            &&& r.frc().nforcing == n
            &&& r.forcing() == forcing
        }),
{
    reveal(set_inner_forcing);
    reveal(force_on);
    reveal(refit_fused);
    reveal(mput_prb);
    reveal(mput_frc);
    reveal(mput_forcing);
    reveal(mput_mth);
    reveal(put_flg);
    reveal(put_acc);
    reveal(with_mri);
    reveal(mri);
}

/// Forcing that is taken away again leaves none, whatever was set before.
pub proof fn law_forcing_off(
    m: MemView,
    tshift: sunrealtype,
    tscale: sunrealtype,
    forcing: Seq<NVec>,
    n: i32,
)
    requires
        m.step_mem() is Some,
    ensures
        ({
            let a = set_inner_forcing(m, tshift, tscale, forcing, n);
            let r = mri(set_inner_forcing(a, ZERO(), ONE(), Seq::empty(), 0));
            &&& !r.frc().expforcing
            &&& !r.frc().impforcing
            &&& r.frc().nforcing == 0
            &&& r.forcing() == Seq::<NVec>::empty()
        }),
{
    reveal(set_inner_forcing);
    reveal(force_on);
    reveal(force_off);
    reveal(refit_fused);
    reveal(mput_prb);
    reveal(mput_frc);
    reveal(mput_forcing);
    reveal(mput_mth);
    reveal(put_flg);
    reveal(put_acc);
    reveal(with_mri);
    reveal(mri);
}

/// The slow integrator sees a success for every return without an error, a
/// recoverable failure for exactly three errors, and otherwise a final one.
pub proof fn law_inner_flags(flag: i32)
    ensures
        (inner_flag(flag) == 0) == (flag >= 0),
        (inner_flag(flag) > 0) == (flag == ARK_TOO_MUCH_WORK || flag == ARK_CONV_FAILURE || flag
            == ARK_ERR_FAILURE),
        -1 <= inner_flag(flag) <= 1,
{
}

/// An integration of the fast problem that does not fail for good leaves no
/// forcing behind.
pub proof fn law_inner_run_unforces<E: ArkEnv>(
    s: InnerView,
    m: MemView,
    e: E,
    tout: sunrealtype,
    y: NVec,
)
    requires
        inner_run(s, m, e, tout, y).flag >= 0,
    ensures
        ({
            let r = mri(inner_run(s, m, e, tout, y).m);
            !r.frc().expforcing && !r.frc().impforcing && r.frc().nforcing == 0 && r.forcing()
                == Seq::<NVec>::empty()
        }),
{
    reveal(inner_run);
    reveal(force);
    reveal(set_inner_forcing);
    reveal(force_off);
    reveal(mput_frc);
    reveal(mput_forcing);
    reveal(with_mri);
    reveal(mri);
}

/// An operation of an inner stepper changes nothing of it but its last flag.
pub proof fn law_inner_op_keeps_stepper<E: ArkEnv>(
    s: InnerView,
    e: E,
    t0: sunrealtype,
    tout: sunrealtype,
    y: NVec,
)
    ensures
        ({
            let r = inner_evolve(s, e, t0, tout, y);
            r.s.ops() == s.ops() && r.s.forcing() == s.forcing() && r.s.sc().tshift
                == s.sc().tshift && r.s.sc().tscale == s.sc().tscale && r.s.sc().nforcing
                == s.sc().nforcing
        }),
{
    reveal(inner_evolve);
    reveal(inner_op);
    reveal(with_flag);
    reveal(with_sc);
}

/// A step of fixed size whose error nobody accumulates has no error estimate,
/// whichever method takes it.
pub proof fn law_no_error_estimate<E: ArkEnv>(m: MemView, e: E, dsm: sunrealtype, nflag: i32)
    requires
        m.step_mem() is Some,
        !wants_error(m),
    ensures
        take_step_gark(m, e, dsm, nflag).dsm == ZERO(),
        take_step_sr(m, e, dsm, nflag).dsm == ZERO(),
        take_step_merk(m, e, dsm, nflag).dsm == ZERO(),
{
    reveal(take_step_gark);
    reveal(take_step_sr);
    reveal(take_step_merk);
    reveal(gark_stages);
    reveal(sr_step);
}

} // verus!
