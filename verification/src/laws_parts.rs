//! Laws of the parts that an integrator is put together from: its stepper, its
//! solvers, its arrays, and the tolerances of its residuals.
use crate::arkode_checks::check_convergence;
use crate::arkode_codes::{
    ARK_FULLRHS_END, ARK_FULLRHS_START, ARK_ILL_INPUT, ARK_LSETUP_FAIL, ARK_LSOLVE_FAIL,
    ARK_MEM_FAIL, ARK_NLS_OP_ERR, ARK_NO_MALLOC, ARK_RHSFUNC_FAIL, ARK_SS, ARK_STEPPER_UNSUPPORTED,
    ARK_SUCCESS, ARK_SUNSTEPPER_ERR, ARK_SV, ARK_WF, SUN_SUCCESS,
};
use crate::arkode_core::{bare_mem, basic_settings, create, free_all, from_arkode};
use crate::arkode_impl::{zero_mri_mem, zero_stepper, FnId, InnerView, MemView, RwtFn, StepFn};
use crate::arkode_mem::{
    mput_adp, mput_cnt, mput_forcing, mput_frc, mput_mth, mput_nls, mput_prb, mput_stepper, mri,
    put_acc, put_att, put_cnt, put_flg, put_ops, put_rwt, put_step_mem, put_tol, with_mri,
    put_VRabstol,
};
use crate::arkode_tol::{own_rwt, own_vrabstol, res_f_tolerance, res_s_tolerance, res_v_tolerance};
use crate::arkode_vectors::{alloc_vec, clones, resize_array, resize_each};
use crate::binary64::{r_eq, r_lt, sunrealtype};
use crate::coupling::MRIStepCoupling;
use crate::env::{ArkEnv, ModuleCall, UserCall, UserFn};
use crate::inner_stepper::{
    from_sunstepper, inner_allocvecs, inner_freevecs, inner_resize, sun_call, sun_mode, SUNStepper,
    SunCall, SUN_FULLRHS_END, SUN_FULLRHS_OTHER, SUN_FULLRHS_START,
};
use crate::mristep_create::{attach_stepper, clear_counts, start_fast, start_solvers};
use crate::mristep_init::{
    derive_arrays, drop_solvers, fill_kinds, make_inner, taken_nls, without_nls,
};
use crate::mristep_ops::{lists_stepper, refit_fused, with_lmem, MRIStepReport};
use crate::mristep_storage::{new_rows, new_stage_kinds, new_stage_map};
use crate::nvector::{min_of, v_clone, v_scale, NVec};
use crate::outcome::module_run;
use crate::sundials_types::{ONE, ZERO};
use vstd::prelude::*;

verus! {

/// The stepper of a new integrator: it can adapt and solve, has all that an
/// integrator cannot do without, and its memory is empty.
pub proof fn law_stepper_attached(m: MemView)
    ensures
        ({
            let r = attach_stepper(m);
            let o = r.ops();
            &&& o.init && o.fullrhs && o.resize && o.reset && o.free && o.setforcing
            &&& r.att().step == Some(StepFn::MRIGARK)
            &&& r.att().step_supports_adaptive
            &&& r.att().step_supports_implicit
            &&& r.step_mem() is Some
            &&& mri(r).MRIC() is None
            &&& mri(r).stepper() is None
            &&& mri(r).Fse().len() == 0
            &&& mri(r).Fsi().len() == 0
            &&& r.stp() == m.stp()
            &&& r.lim() == m.lim()
        }),
{
    reveal(attach_stepper);
    reveal(put_ops);
    reveal(put_att);
    reveal(put_step_mem);
    reveal(zero_mri_mem);
    reveal(mri);
}

/// A new stepper has no linear solver, a norm factor of one, and cleared
/// counters; the factors of the fast tolerance and the fast error are one; there
/// are no functions around the fast evolution, and there is no outer forcing.
pub proof fn law_stepper_started(m: MemView)
    requires
        m.step_mem() is Some,
    ensures
        ({
            let r = start_fast(start_solvers(m));
            let s = mri(r);
            &&& s.nls().linit is None && s.nls().lsetup is None && s.nls().lsolve is None
                && s.nls().lfree is None
            &&& s.nls().eRNrm == ONE()
            &&& s.nls().nstlp == 0
            &&& s.cnt().nfse == 0 && s.cnt().nfsi == 0 && s.cnt().inner_fails == 0
                && s.cnt().nsetups == 0
            &&& s.adp().inner_rtol_factor == ONE()
            &&& s.adp().inner_rtol_factor_new == ONE()
            &&& s.adp().inner_dsm == ONE()
            &&& s.prb().pre_inner_evolve is None
            &&& s.prb().post_inner_evolve is None
            &&& !s.frc().expforcing && !s.frc().impforcing && s.frc().nforcing == 0
            &&& s.forcing().len() == 0
            &&& !r.att().ark_lmem
            &&& s.mth().nfusedopvecs == 3
            &&& s.mth().fused_allocated
            &&& r.acc().lrw == m.acc().lrw.wrapping_add(3)
            &&& r.acc().liw == m.acc().liw.wrapping_add(3)
        }),
{
    reveal(start_fast);
    reveal(start_solvers);
    reveal(clear_counts);
    reveal(with_lmem);
    reveal(put_att);
    reveal(put_acc);
    reveal(mput_nls);
    reveal(mput_cnt);
    reveal(mput_mth);
    reveal(mput_adp);
    reveal(mput_prb);
    reveal(mput_frc);
    reveal(mput_forcing);
    reveal(with_mri);
    reveal(mri);
}

/// An explicit problem keeps no solvers: a nonlinear solver that the stepper
/// made is released and detached, the linear one is detached.
pub proof fn law_solvers_dropped<E: ArkEnv>(m: MemView, e: E)
    requires
        m.step_mem() is Some,
        mri(m).nls().attached,
        mri(m).nls().ownNLS,
        module_run(taken_nls(m), e, ModuleCall::NonlinSolFree).m == taken_nls(m),
    ensures
        ({
            let o = drop_solvers(m, e);
            let n = mri(o.m).nls();
            &&& o.flag == ARK_SUCCESS
            &&& o.e == module_run(taken_nls(m), e, ModuleCall::NonlinSolFree).e
            &&& !n.attached
            &&& !n.ownNLS
            &&& n.linit is None && n.lsetup is None && n.lsolve is None && n.lfree is None
            &&& !o.m.att().ark_lmem
        }),
{
    reveal(drop_solvers);
    reveal(taken_nls);
    reveal(without_nls);
    reveal(with_lmem);
    reveal(put_att);
    reveal(mput_nls);
    reveal(with_mri);
    reveal(mri);
}

/// The forcing of the fast integrator gets room for each matrix of the table,
/// with vectors like the weights; without a fast integrator there is none.
pub proof fn law_forcing_made(m: MemView, t: MRIStepCoupling, s: InnerView)
    requires
        m.step_mem() is Some,
        mri(m).MRIC() == Some(t),
    ensures
        mri(m).stepper() is None ==> make_inner(m) == (m, ARK_MEM_FAIL),
        mri(m).stepper() == Some(s) ==> ({
            let r = inner_allocvecs(s, t.nmat, m.ewt());
            let o = make_inner(m);
            &&& mri(o.0).stepper() == Some(r.0)
            &&& o.1 == if r.1 == ARK_SUCCESS {
                ARK_SUCCESS
            } else {
                ARK_MEM_FAIL
            }
        }),
{
    reveal(make_inner);
    reveal(mput_stepper);
    reveal(with_mri);
    reveal(mri);
}

/// The arrays of a table: the map of stages is asked for once it has its room,
/// then the kinds of the stages and of the embedding; the workspace holds two
/// vectors for each stage, two more, and the forcing of an outer integrator, and
/// three at least.
pub proof fn law_arrays_derived<E: ArkEnv>(m: MemView, e: E, t: MRIStepCoupling)
    requires
        mri(m).MRIC() == Some(t),
        0 <= t.stages < 0x1000_0000,
    ensures
        ({
            let n = t.stages;
            let a = module_run(new_stage_map(m, n), e, ModuleCall::StageMap);
            let b = fill_kinds(new_stage_kinds(a.m, n), a.e, 0, n as int);
            let z = new_rows(b.m, n);
            let size = 2 * n + 2 + mri(z).frc().nforcing;
            let need = if size < 3 {
                3
            } else {
                size
            };
            let o = derive_arrays(m, e);
            &&& a.flag != ARK_SUCCESS ==> o.flag == ARK_ILL_INPUT && o.m == a.m && o.e == a.e
            &&& a.flag == ARK_SUCCESS ==> o.flag == ARK_SUCCESS && o.e == b.e
            &&& a.flag == ARK_SUCCESS && mri(z).mth().nfusedopvecs >= need ==> o.m == z
            &&& a.flag == ARK_SUCCESS && mri(z).mth().nfusedopvecs < need ==> o.m == refit_fused(
                z,
                need as i32,
            )
        }),
{
    reveal(derive_arrays);
}

/// The resize function is handed the vectors of an array one by one, with the
/// template, up to the first one it refuses.
pub proof fn law_array_resized<E: ArkEnv>(e: E, f: FnId, tmpl: NVec, v: Seq<NVec>, i: nat, n: nat)
    requires
        i < n,
        i < v.len(),
    ensures
        ({
            let r = e.user_reply(
                UserCall {
                    role: UserFn::Resize,
                    f,
                    t: ZERO(),
                    step: 0,
                    attempt: 0,
                    user_data: false,
                },
                tmpl,
                v[i as int],
            );
            let o = resize_each(e, f, tmpl, v, i, n);
            &&& r.flag != 0 ==> o == (r.env, v.update(i as int, r.out), false)
            &&& r.flag == 0 ==> o == resize_each(
                r.env,
                f,
                tmpl,
                v.update(i as int, r.out),
                i + 1,
                n,
            )
        }),
        resize_each(e, f, tmpl, v, n, n) == (e, v, true),
        resize_array(e, Some(f), n as i32, tmpl, Seq::empty()) == (e, Seq::<NVec>::empty(), true),
{
}

/// Without a resize function the vectors of an array are new ones like the
/// template.
pub proof fn law_array_renewed<E: ArkEnv>(e: E, n: i32, tmpl: NVec, v: Seq<NVec>)
    requires
        n > 0,
        v.len() > 0,
    ensures
        resize_array(e, None, n, tmpl, v) == (
            e,
            Seq::new(n as nat, |i: int| v_clone(tmpl)),
            true,
        ),
{
    assert(clones(n, tmpl) =~= Seq::new(n as nat, |i: int| v_clone(tmpl)));
}

/// A solver failure beyond recovery with steps of variable size keeps its flag
/// where it is one of setup, solve or right-hand side; any other is one of the
/// solver itself. Nothing of the step changes.
pub proof fn law_fatal_failures(m: MemView, nflag: i32, ncf: i32)
    requires
        !m.lim().fixedstep,
        m.hadapt() is Some,
        nflag < 0,
    ensures
        ({
            let o = check_convergence(m, nflag, ncf);
            let kept = nflag == ARK_LSETUP_FAIL || nflag == ARK_LSOLVE_FAIL || nflag
                == ARK_RHSFUNC_FAIL;
            &&& kept ==> o.flag == nflag
            &&& !kept ==> o.flag == ARK_NLS_OP_ERR
            &&& o.n == ncf
            &&& o.nflag == nflag
            &&& o.m.stp() == m.stp()
            &&& o.m.hadapt() == m.hadapt()
            &&& o.m.cnt().ncfn == m.cnt().ncfn.wrapping_add(1)
        }),
{
    reveal(check_convergence);
    reveal(put_cnt);
}

/// Residual weights of their own get a vector like the error weights, which they
/// shared before.
proof fn lemma_own_rwt(m: MemView)
    requires
        m.ewt().ops().nvclone,
        m.ewt().ops().nvdestroy,
    ensures
        ({
            let o = own_rwt(m);
            &&& o.1
            &&& !o.0.tol().rwt_is_ewt
            &&& m.tol().rwt_is_ewt ==> o.0.rwt() == v_clone(m.ewt())
            &&& !m.tol().rwt_is_ewt ==> o.0 == m
            &&& o.0.tol().Ratolmin0 == m.tol().Ratolmin0
            &&& o.0.tol().reltol == m.tol().reltol
            &&& o.0.tol().VRabstolMallocDone == m.tol().VRabstolMallocDone
            &&& o.0.tol().user_rfun == m.tol().user_rfun
            &&& o.0.VRabstol() == m.VRabstol()
            &&& o.0.ewt() == m.ewt()
        }),
{
    reveal(own_rwt);
    reveal(alloc_vec);
    reveal(put_acc);
    reveal(put_rwt);
    reveal(put_tol);
}

/// A scalar residual tolerance is refused by steppers without a mass matrix,
/// before allocation, and where it is negative or vectors cannot add constants;
/// otherwise it is stored, weights of residuals get a vector of their own, and
/// whether it is zero is recorded.
pub proof fn law_scalar_residual(m: MemView, tol: sunrealtype)
    requires
        m.ewt().ops().nvclone,
        m.ewt().ops().nvdestroy,
    ensures
        ({
            let o = res_s_tolerance(m, tol);
            let mass = m.att().step_supports_massmatrix;
            let good = !r_lt(tol, ZERO()) && m.tempv1().ops().nvaddconst;
            &&& !mass ==> o == (m, ARK_STEPPER_UNSUPPORTED)
            &&& mass && !m.flg().MallocDone ==> o == (m, ARK_NO_MALLOC)
            &&& mass && m.flg().MallocDone && !good ==> o == (m, ARK_ILL_INPUT)
            &&& mass && m.flg().MallocDone && good ==> {
                &&& o.1 == ARK_SUCCESS
                &&& o.0.tol().SRabstol == tol
                &&& o.0.tol().ritol == ARK_SS
                &&& o.0.tol().rfun == Some(RwtFn::RwtSet)
                &&& o.0.tol().Ratolmin0 == r_eq(tol, ZERO())
                &&& !o.0.tol().rwt_is_ewt
            }
        }),
{
    reveal(put_tol);
    lemma_own_rwt(
        put_tol(m, crate::arkode_impl::ArkTol { Ratolmin0: r_eq(tol, ZERO()), ..m.tol() }),
    );
}

/// The user's residual weights: refused by steppers without a mass matrix and
/// before allocation; otherwise they are in use, with a vector of their own.
pub proof fn law_residual_weights_of_user(m: MemView, f: FnId)
    requires
        m.ewt().ops().nvclone,
        m.ewt().ops().nvdestroy,
    ensures
        ({
            let o = res_f_tolerance(m, f);
            let mass = m.att().step_supports_massmatrix;
            &&& !mass ==> o == (m, ARK_STEPPER_UNSUPPORTED)
            &&& mass && !m.flg().MallocDone ==> o == (m, ARK_NO_MALLOC)
            &&& mass && m.flg().MallocDone ==> {
                &&& o.1 == ARK_SUCCESS
                &&& o.0.tol().ritol == ARK_WF
                &&& o.0.tol().user_rfun
                &&& o.0.tol().rfun == Some(RwtFn::User(f))
                &&& !o.0.tol().rwt_is_ewt
            }
        }),
{
    reveal(put_tol);
    lemma_own_rwt(m);
}

/// A vector of residual tolerances is refused where one of them is negative, as
/// far as its smallest component shows, and where vectors have no smallest
/// component; otherwise it is copied.
pub proof fn law_vector_residual(m: MemView, tol: NVec)
    requires
        m.ewt().ops().nvclone,
        m.ewt().ops().nvdestroy,
        m.att().step_supports_massmatrix,
        m.flg().MallocDone,
        m.tol().VRabstolMallocDone,
    ensures
        ({
            let o = res_v_tolerance(m, tol);
            let low = min_of(tol, tol.data.len());
            let good = tol.ops().nvmin && !r_lt(low, ZERO());
            &&& !good ==> o == (m, ARK_ILL_INPUT)
            &&& good ==> {
                &&& o.1 == ARK_SUCCESS
                &&& o.0.VRabstol() == v_scale(ONE(), tol, m.VRabstol())
                &&& o.0.tol().ritol == ARK_SV
                &&& o.0.tol().rfun == Some(RwtFn::RwtSet)
                &&& o.0.tol().Ratolmin0 == r_eq(low, ZERO())
                &&& !o.0.tol().rwt_is_ewt
            }
        }),
{
    reveal(put_tol);
    reveal(put_VRabstol);
    reveal(own_vrabstol);
    let low = min_of(tol, tol.data.len());
    lemma_own_rwt(
        put_tol(m, crate::arkode_impl::ArkTol { Ratolmin0: r_eq(low, ZERO()), ..m.tol() }),
    );
}

/// An inner stepper that drives an integrator names it, and has every operation;
/// no two of its operations are the same.
pub proof fn law_arkode_behind(content: u64)
    ensures
        ({
            let o = from_arkode(content).ops();
            let f = seq![o.evolve, o.fullrhs, o.reset, o.geterror, o.reseterror, o.setrtol];
            &&& o.content == Some(content)
            &&& forall|i: int| 0 <= i < 6 ==> (#[trigger] f[i]) is Some
            &&& forall|i: int, j: int|
                0 <= i < j < 6 ==> #[trigger] f[i]->Some_0 != #[trigger] f[j]->Some_0
            &&& from_arkode(content).forcing().len() == 0
        }),
{
    reveal(zero_stepper);
}

/// An inner stepper that drives a generic stepper names it, and can evolve,
/// evaluate and reset it; it reports no error.
pub proof fn law_generic_behind(content: u64)
    ensures
        ({
            let o = from_sunstepper(content).ops();
            &&& o.content == Some(content)
            &&& o.evolve is Some && o.fullrhs is Some && o.reset is Some
            &&& o.evolve != o.fullrhs && o.evolve != o.reset && o.fullrhs != o.reset
            &&& o.geterror is None && o.reseterror is None && o.setrtol is None
            &&& from_sunstepper(content).forcing().len() == 0
        }),
{
    reveal(zero_stepper);
}

/// The modes of a generic stepper keep the three places apart: the start of a
/// step, its end, and elsewhere.
pub proof fn law_generic_modes(mode: i32)
    ensures
        (sun_mode(mode) == SUN_FULLRHS_START) == (mode == ARK_FULLRHS_START),
        (sun_mode(mode) == SUN_FULLRHS_END) == (mode == ARK_FULLRHS_END),
        mode != ARK_FULLRHS_START && mode != ARK_FULLRHS_END ==> sun_mode(mode)
            == SUN_FULLRHS_OTHER,
{
}

/// A call into a generic stepper hands it the arguments, records its flag, and
/// reports any failure in the same way.
pub proof fn law_generic_call<S: SUNStepper>(
    s: InnerView,
    g: S,
    c: SunCall,
    f: Seq<NVec>,
    y: NVec,
    v: NVec,
)
    ensures
        ({
            let r = g.reply(c, f, y, v);
            let o = sun_call(s, g, c, f, y, v);
            &&& o.g == r.s
            &&& o.v == r.out
            &&& (o.flag == ARK_SUCCESS) == (r.err == SUN_SUCCESS)
            &&& r.err != SUN_SUCCESS ==> o.flag == ARK_SUNSTEPPER_ERR
            &&& o.s.sc().last_flag == r.s.flag()
            &&& o.s.forcing() == s.forcing()
            &&& o.s.ops() == s.ops()
        }),
{
}

/// The forcing of a fast integrator that is released leaves none, and takes its
/// words off the accounts.
pub proof fn law_forcing_freed(s: InnerView)
    ensures
        ({
            let r = inner_freevecs(s);
            let n = s.sc().nforcing_allocated as i64;
            &&& r.forcing().len() == 0
            &&& r.ops() == s.ops()
            &&& r.sc().vals_len == 0
            &&& s.forcing().len() == 0 ==> r.sc().lrw == s.sc().lrw && r.sc().liw == s.sc().liw
            &&& s.forcing().len() > 0 ==> r.sc().lrw == s.sc().lrw.wrapping_sub(
                n.wrapping_mul(s.sc().lrw1),
            ) && r.sc().liw == s.sc().liw.wrapping_sub(n.wrapping_mul(s.sc().liw1))
        }),
{
}

/// The forcing of a fast integrator for another size: its vectors are resized,
/// and its accounts change by the difference for each of them.
pub proof fn law_forcing_resized<E: ArkEnv>(
    s: InnerView,
    e: E,
    resize: Option<FnId>,
    lrw: i64,
    liw: i64,
    tmpl: NVec,
)
    requires
        s.forcing().len() > 0,
    ensures
        ({
            let n = s.sc().nforcing_allocated;
            let a = resize_array(e, resize, n, tmpl, s.forcing());
            let o = inner_resize(s, e, resize, lrw, liw, tmpl);
            &&& o.0.forcing() == a.1
            &&& o.1 == a.0
            &&& o.0.ops() == s.ops()
            &&& a.2 ==> {
                &&& o.2 == ARK_SUCCESS
                &&& o.0.sc().lrw == s.sc().lrw.wrapping_add((n as i64).wrapping_mul(lrw))
                &&& o.0.sc().liw == s.sc().liw.wrapping_add((n as i64).wrapping_mul(liw))
            }
            &&& !a.2 ==> o.2 == ARK_MEM_FAIL && o.0.sc() == s.sc()
        }),
{
}

/// A new integrator is made from the new record with its step adaptivity data
/// and the defaults; where either cannot be had there is none, and what was made
/// is released.
pub proof fn law_created<E: ArkEnv>(e: E)
    ensures
        ({
            let a = module_run(bare_mem(), e, ModuleCall::AdaptInit);
            let d = module_run(basic_settings(a.m), a.e, ModuleCall::SetDefaults);
            let o = create(e);
            &&& a.m.hadapt() is None ==> o.m is None && o.e == free_all(a.m, a.e).e
            &&& a.m.hadapt() is Some && d.flag != ARK_SUCCESS ==> o.m is None && o.e == free_all(
                d.m,
                d.e,
            ).e
            &&& a.m.hadapt() is Some && d.flag == ARK_SUCCESS ==> {
                &&& o.e == d.e
                &&& o.m is Some
                &&& o.m->Some_0.stp() == d.m.stp()
                &&& o.m->Some_0.lim() == d.m.lim()
                &&& o.m->Some_0.hadapt() == d.m.hadapt()
                &&& !o.m->Some_0.flg().load_checkpoint_fail
                &&& !o.m->Some_0.flg().do_adjoint
            }
        }),
{
    reveal(create);
    reveal(put_flg);
}

/// What a report lists of the stepper's arrays: the kinds of the stages and of
/// the embedding, and the rows of coefficients of the active stages.
pub proof fn law_report(l: MRIStepReport, m: MemView)
    requires
        lists_stepper(l, m),
        0 <= mri(m).mth().stages < mri(m).stagetypes().len(),
        0 <= mri(m).mth().nstages_active <= mri(m).Ae_row().len(),
        mri(m).mth().nstages_active <= mri(m).Ai_row().len(),
    ensures
        l.prb == mri(m).prb(),
        l.mth == mri(m).mth(),
        l.nls == mri(m).nls(),
        l.cnt == mri(m).cnt(),
        l.stagetypes@.len() == mri(m).mth().stages + 1,
        forall|i: int|
            0 <= i <= mri(m).mth().stages ==> (#[trigger] l.stagetypes@[i]) == mri(
                m,
            ).stagetypes()[i],
        l.Ae_row@.len() == mri(m).mth().nstages_active,
        l.Ai_row@.len() == mri(m).mth().nstages_active,
        forall|i: int|
            0 <= i < mri(m).mth().nstages_active ==> (#[trigger] l.Ae_row@[i]) == mri(
                m,
            ).Ae_row()[i],
        forall|i: int|
            0 <= i < mri(m).mth().nstages_active ==> (#[trigger] l.Ai_row@[i]) == mri(
                m,
            ).Ai_row()[i],
{
}

} // verus!
