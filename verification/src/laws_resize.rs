//! Laws of an integrator that is fitted to a problem of another size.
use crate::arkode_codes::{ARK_SUCCESS, RESIZE_INIT};
use crate::arkode_core::{
    ask_init, real_hscale, rescale, resize_all, resize_finish, resize_state, resize_vectors,
};
use crate::arkode_impl::{ArkAccounts, ArkStep, FnId, MemView};
use crate::arkode_mem::{
    mput_Fse, mput_Fsi, mput_cnt, mput_nls, mput_sdata, mput_stepper, mput_zcor, mput_zpred, mri,
    put_VRabstol, put_Vabstol, put_acc, put_constraints, put_ewt, put_flg, put_fn_, put_rwt,
    put_stp, put_tempv1, put_tempv2, put_tempv3, put_tempv4, put_tempv5, put_ycur, put_yn, with_mri,
};
use crate::arkode_vectors::{
    free_vec, resize_from, resize_vec, slot, with_slot, RESIZED_SLOTS, RWT_SLOT,
};
use crate::binary64::{r_add, r_div, r_eq, r_le, r_lt, r_mul, r_sub, sunrealtype};
use crate::env::{ArkEnv, ModuleCall};
use crate::mristep_init::{
    attach_newton, measure, mri_resize, renew_newton, resize_inner, taken_nls, without_nls,
};
use crate::mristep_storage::{
    resize_fse, resize_fsi, resize_solver_vectors, resize_stages, resize_words,
};
use crate::nvector::{at, scaled_by, v_clone, v_const, v_fill, v_null, v_scale, NVec};
use crate::outcome::{lemma_unseen_memory, lemma_unseen_memory_vec, module_run};
use crate::sundials_types::{FOUR, ONE, ZERO};
use vstd::prelude::*;

verus! {

/// Whether two memories agree on times and step sizes, flags, the current
/// solution and the constraints.
pub open spec fn same_state(a: MemView, b: MemView) -> bool {
    &&& a.stp() == b.stp()
    &&& a.flg() == b.flg()
    &&& a.ycur() == b.ycur()
    &&& a.constraints() == b.constraints()
}

/// Whether a call of a companion module never touches times and step sizes,
/// flags, solutions and constraints.
pub open spec fn keeps_problem<E: ArkEnv>(c: ModuleCall) -> bool {
    forall|m: MemView, e: E|
        {
            let r = (#[trigger] module_run(m, e, c)).m;
            same_state(r, m) && r.yn() == m.yn()
        }
}

/// Whether the time stepper has a nonlinear solver of its own.
pub open spec fn owns_solver(m: MemView) -> bool {
    mri(m).nls().attached && mri(m).nls().ownNLS
}

/// The call that fits the interpolation module.
pub open spec fn interp_resize(resize: Option<FnId>, lrw_diff: i64, liw_diff: i64) -> ModuleCall {
    ModuleCall::InterpResize { resize, lrw_diff, liw_diff }
}

proof fn lemma_with_slot_state(m: MemView, i: u32, v: NVec)
    requires
        i < RESIZED_SLOTS,
    ensures
        same_state(with_slot(m, i, v), m),
        with_slot(m, i, v).acc() == m.acc(),
        with_slot(m, i, v).tol() == m.tol(),
        with_slot(m, i, v).att() == m.att(),
        with_slot(m, i, v).ops() == m.ops(),
        with_slot(m, i, v).step_mem() == m.step_mem(),
        with_slot(m, i, v).yn() == if i == 4 {
            v
        } else {
            m.yn()
        },
        forall|j: u32| j != i ==> #[trigger] slot(with_slot(m, i, v), j) == slot(m, j),
{
    reveal(with_slot);
    reveal(slot);
    reveal(put_Vabstol);
    reveal(put_VRabstol);
    reveal(put_ewt);
    reveal(put_rwt);
    reveal(put_yn);
    reveal(put_fn_);
    reveal(put_tempv1);
    reveal(put_tempv2);
    reveal(put_tempv3);
    reveal(put_tempv4);
    reveal(put_tempv5);
}

/// The accounts of real and integer words changed `n` times.
pub open spec fn grown(a: ArkAccounts, n: nat, lrw_diff: i64, liw_diff: i64) -> ArkAccounts
    decreases n,
{
    if n == 0 {
        a
    } else {
        grown(
            ArkAccounts {
                lrw: a.lrw.wrapping_add(lrw_diff),
                liw: a.liw.wrapping_add(liw_diff),
                ..a
            },
            (n - 1) as nat,
            lrw_diff,
            liw_diff,
        )
    }
}

/// Whether the vector in place `i` is resized on its own.
pub open spec fn is_resized(m: MemView, i: u32) -> bool {
    !(i == RWT_SLOT && m.tol().rwt_is_ewt) && slot(m, i).live
}

/// Number of vectors from place `i` on that are resized.
pub open spec fn resized_from(m: MemView, i: u32) -> nat
    decreases RESIZED_SLOTS - i,
{
    if i >= RESIZED_SLOTS {
        0
    } else {
        resized_from(m, (i + 1) as u32) + if is_resized(m, i) {
            1nat
        } else {
            0nat
        }
    }
}

proof fn lemma_resized_same(a: MemView, b: MemView, i: u32)
    requires
        a.tol() == b.tol(),
        forall|j: u32| j >= i ==> #[trigger] slot(a, j) == slot(b, j),
    ensures
        resized_from(a, i) == resized_from(b, i),
    decreases RESIZED_SLOTS - i,
{
    if i < RESIZED_SLOTS {
        assert(slot(a, i) == slot(b, i));
        lemma_resized_same(a, b, (i + 1) as u32);
    }
}

proof fn lemma_resize_vec<E: ArkEnv>(
    m: MemView,
    e: E,
    resize: Option<FnId>,
    lrw_diff: i64,
    liw_diff: i64,
    tmpl: NVec,
    v: NVec,
)
    ensures
        ({
            let o = resize_vec(m, e, resize, lrw_diff, liw_diff, tmpl, v);
            &&& same_state(o.m, m)
            &&& o.m.yn() == m.yn()
            &&& o.m.tol() == m.tol()
            &&& o.m.att() == m.att()
            &&& o.m.ops() == m.ops()
            &&& o.m.step_mem() == m.step_mem()
            &&& forall|j: u32| #[trigger] slot(o.m, j) == slot(m, j)
            &&& o.ok ==> o.m.acc() == if v.live {
                grown(m.acc(), 1, lrw_diff, liw_diff)
            } else {
                m.acc()
            }
            &&& resize is None ==> o.ok && o.v == if v.live {
                v_clone(tmpl)
            } else {
                v
            }
        }),
{
    reveal(resize_vec);
    reveal(put_acc);
    reveal(slot);
    reveal_with_fuel(grown, 2);
}

proof fn lemma_resize_from<E: ArkEnv>(
    m: MemView,
    e: E,
    resize: Option<FnId>,
    lrw_diff: i64,
    liw_diff: i64,
    tmpl: NVec,
    i: u32,
)
    ensures
        ({
            let o = resize_from(m, e, resize, lrw_diff, liw_diff, tmpl, i);
            &&& same_state(o.0, m)
            &&& o.0.tol() == m.tol()
            &&& o.0.att() == m.att()
            &&& o.0.ops() == m.ops()
            &&& o.0.step_mem() == m.step_mem()
            &&& o.2 ==> o.0.acc() == grown(
                m.acc(),
                resized_from(m, i),
                lrw_diff,
                liw_diff,
            )
            &&& resize is None ==> o.2
            &&& i > 4 ==> o.0.yn() == m.yn()
            &&& i <= 4 && resize is None && m.yn().live ==> o.0.yn() == v_clone(tmpl)
        }),
    decreases RESIZED_SLOTS - i,
{
    if i < RESIZED_SLOTS {
        let k = (i + 1) as u32;
        if i == RWT_SLOT && m.tol().rwt_is_ewt {
            let m1 = put_rwt(m, m.ewt());
            assert(m1 == with_slot(m, i, m.ewt())) by {
                reveal(with_slot);
            }
            lemma_with_slot_state(m, i, m.ewt());
            lemma_resize_from(m1, e, resize, lrw_diff, liw_diff, tmpl, k);
            lemma_resized_same(m1, m, k);
        } else {
            let o = resize_vec(m, e, resize, lrw_diff, liw_diff, tmpl, slot(m, i));
            let m1 = with_slot(o.m, i, o.v);
            lemma_resize_vec(m, e, resize, lrw_diff, liw_diff, tmpl, slot(m, i));
            lemma_with_slot_state(o.m, i, o.v);
            assert(i == 4 ==> slot(m, i) == m.yn()) by {
                reveal(slot);
            }
            if o.ok {
                lemma_resize_from(m1, o.e, resize, lrw_diff, liw_diff, tmpl, k);
                lemma_resized_same(m1, m, k);
                if slot(m, i).live {
                    reveal_with_fuel(grown, 2);
                }
            }
        }
    }
}

/// Resizing the vectors of an integrator changes the accounts by the
/// differences once for each vector that is there; residual weights that are
/// the error weights count with them. Times, step sizes, flags, current
/// solution and constraints stay, and without a resize function it succeeds.
pub proof fn law_resize_accounts<E: ArkEnv>(
    m: MemView,
    e: E,
    resize: Option<FnId>,
    lrw_diff: i64,
    liw_diff: i64,
    tmpl: NVec,
)
    ensures
        ({
            let o = resize_from(m, e, resize, lrw_diff, liw_diff, tmpl, 0);
            &&& same_state(o.0, m)
            &&& o.2 ==> o.0.acc() == grown(m.acc(), resized_from(m, 0), lrw_diff, liw_diff)
            &&& resize is None ==> o.2
        }),
{
    lemma_resize_from(m, e, resize, lrw_diff, liw_diff, tmpl, 0);
}

proof fn lemma_resize_vectors<E: ArkEnv>(m: MemView, e: E, y0: NVec, resize: Option<FnId>)
    requires
        m.att().interp ==> forall|a: i64, b: i64|
            keeps_problem::<E>(#[trigger] interp_resize(resize, a, b)),
    ensures
        ({
            let o = resize_vectors(m, e, y0, resize);
            &&& o.flag == ARK_SUCCESS ==> o.m.stp() == m.stp()
            &&& o.flag == ARK_SUCCESS ==> o.m.flg() == m.flg()
            &&& o.flag == ARK_SUCCESS ==> o.m.ycur() == m.ycur()
            &&& o.flag == ARK_SUCCESS ==> !o.m.constraints().live
            &&& o.flag == ARK_SUCCESS && resize is None && m.yn().live ==> o.m.yn() == v_clone(y0)
            &&& !m.att().interp ==> o.m.ops() == m.ops() && o.m.step_mem() == m.step_mem()
        }),
{
    reveal(resize_vectors);
    let d = measure(m, y0);
    let c = free_vec(d.0, d.0.constraints());
    let m1 = put_constraints(c.0, c.1);
    assert(m1.stp() == m.stp() && m1.flg() == m.flg() && m1.ycur() == m.ycur() && m1.yn() == m.yn()
        && m1.att() == m.att() && m1.ops() == m.ops() && m1.step_mem() == m.step_mem()
        && !m1.constraints().live) by {
        reveal(measure);
        reveal(free_vec);
        reveal(put_acc);
        reveal(put_constraints);
        reveal(v_null);
    }
    lemma_resize_from(m1, e, resize, d.1, d.2, y0, 0);
    let v = resize_from(m1, e, resize, d.1, d.2, y0, 0);
    if v.0.att().interp {
        assert(keeps_problem::<E>(interp_resize(resize, d.1, d.2)));
        let r = module_run(v.0, v.1, interp_resize(resize, d.1, d.2));
        assert(same_state(r.m, v.0) && r.m.yn() == v.0.yn());
    }
}

proof fn lemma_resize_stages<E: ArkEnv>(
    m: MemView,
    e: E,
    resize: Option<FnId>,
    lrw_diff: i64,
    liw_diff: i64,
    tmpl: NVec,
)
    ensures
        ({
            let o = resize_stages(m, e, resize, lrw_diff, liw_diff, tmpl);
            same_state(o.m, m) && o.m.yn() == m.yn() && owns_solver(o.m) == owns_solver(m)
        }),
{
    reveal(resize_stages);
    reveal(resize_fse);
    reveal(resize_fsi);
    reveal(resize_words);
    reveal(put_acc);
    reveal(mput_Fse);
    reveal(mput_Fsi);
    reveal(with_mri);
    reveal(mri);
}

proof fn lemma_resize_solver_vectors<E: ArkEnv>(
    m: MemView,
    e: E,
    resize: Option<FnId>,
    lrw_diff: i64,
    liw_diff: i64,
    tmpl: NVec,
)
    ensures
        ({
            let o = resize_solver_vectors(m, e, resize, lrw_diff, liw_diff, tmpl);
            same_state(o.m, m) && o.m.yn() == m.yn() && owns_solver(o.m) == owns_solver(m)
        }),
{
    reveal(resize_solver_vectors);
    reveal(resize_vec);
    reveal(put_acc);
    reveal(mput_sdata);
    reveal(mput_zpred);
    reveal(mput_zcor);
    reveal(with_mri);
    reveal(mri);
}

proof fn lemma_renew_newton<E: ArkEnv>(m: MemView, e: E, y0: NVec)
    requires
        owns_solver(m) ==> keeps_problem::<E>(ModuleCall::SetNonlinearSolver),
    ensures
        ({
            let o = renew_newton(m, e, y0);
            same_state(o.m, m) && o.m.yn() == m.yn()
        }),
{
    reveal(renew_newton);
    reveal(attach_newton);
    reveal(taken_nls);
    reveal(without_nls);
    reveal(mput_nls);
    reveal(with_mri);
    lemma_unseen_memory::<E>(ModuleCall::NonlinSolFree);
    let r = module_run(taken_nls(m), e, ModuleCall::NonlinSolFree);
    lemma_unseen_memory_vec(without_nls(r.m), r.e, ModuleCall::NewtonCreate, y0);
}

proof fn lemma_mri_resize<E: ArkEnv>(m: MemView, e: E, y0: NVec, resize: Option<FnId>)
    requires
        owns_solver(m) ==> keeps_problem::<E>(ModuleCall::SetNonlinearSolver),
    ensures
        ({
            let o = mri_resize(m, e, y0, resize);
            same_state(o.m, m) && o.m.yn() == m.yn()
        }),
{
    reveal(mri_resize);
    let d = measure(m, y0);
    assert(same_state(d.0, m) && d.0.yn() == m.yn() && owns_solver(d.0) == owns_solver(m)) by {
        reveal(measure);
        reveal(put_acc);
        reveal(mri);
    }
    let a = resize_stages(d.0, e, resize, d.1, d.2, y0);
    lemma_resize_stages(d.0, e, resize, d.1, d.2, y0);
    let b = resize_solver_vectors(a.m, a.e, resize, d.1, d.2, y0);
    lemma_resize_solver_vectors(a.m, a.e, resize, d.1, d.2, y0);
    let c = renew_newton(b.m, b.e, y0);
    lemma_renew_newton(b.m, b.e, y0);
    let i = resize_inner(c.m, c.e, resize, d.1, d.2, y0);
    reveal(resize_inner);
    reveal(mput_stepper);
    reveal(mput_cnt);
    reveal(with_mri);
}

/// A resize that succeeds puts the new state in place: the given time and
/// solution, no constraints, an initialisation asked for, the right-hand side
/// out of date. The upcoming step is scaled by the factor and kept from
/// overtaking the stop time; a factor of one, or one that is not positive,
/// leaves it alone.
///
/// Two companion modules are handed the memory meanwhile: interpolation, if it
/// is there, and the attaching of a nonlinear solver, if the time stepper has to
/// replace its own. The law is for those that leave the problem alone; without
/// either it holds as it is.
pub proof fn law_resize<E: ArkEnv>(
    m: MemView,
    e: E,
    y0: NVec,
    hscale: sunrealtype,
    t0: sunrealtype,
    resize: Option<FnId>,
)
    requires
        m.flg().MallocDone,
        m.att().interp ==> forall|a: i64, b: i64|
            keeps_problem::<E>(#[trigger] interp_resize(resize, a, b)),
        m.att().interp || (m.ops().resize && owns_solver(m)) ==> keeps_problem::<E>(
            ModuleCall::SetNonlinearSolver,
        ),
        resize_all(m, e, y0, hscale, t0, resize).flag == ARK_SUCCESS,
    ensures
        ({
            let r = resize_all(m, e, y0, hscale, t0, resize).m;
            let s = m.stp();
            let scaled = r_mul(s.hprime, hscale);
            let overtakes = s.tstopset && r_lt(
                ZERO(),
                r_mul(r_sub(r_add(t0, scaled), s.tstop), scaled),
            );
            let rest = r_mul(
                r_sub(s.tstop, t0),
                r_sub(ONE(), r_mul(FOUR(), m.lim().uround)),
            );
            &&& r.stp().tn == t0
            &&& r.stp().tcur == t0
            &&& r.stp().h == s.h
            &&& r_le(hscale, ZERO()) || r_eq(hscale, ONE()) ==> r.stp().eta == s.eta
                && r.stp().hprime == s.hprime
            &&& !r_le(hscale, ZERO()) && !r_eq(hscale, ONE()) && !overtakes ==> r.stp().eta
                == hscale && r.stp().hprime == scaled
            &&& !r_le(hscale, ZERO()) && !r_eq(hscale, ONE()) && overtakes ==> r.stp().eta
                == r_div(rest, s.h) && r.stp().hprime == rest
            &&& r.ycur() == y0
            &&& forall|i: int| 0 <= i < r.yn().data.len() ==> (#[trigger] r.yn().data[i]) == at(y0, i)
            &&& resize is None && m.yn().live ==> r.yn().data == y0.data
            &&& !r.constraints().live
            &&& r.flg().initsetup
            &&& r.flg().init_type == RESIZE_INIT
            &&& r.flg().firststage
            &&& !r.flg().fn_is_current
        }),
{
    reveal(resize_all);
    let m0 = resize_state(m, y0, hscale, t0);
    assert(m0.att() == m.att() && m0.ops() == m.ops() && m0.step_mem() == m.step_mem() && m0.yn()
        == m.yn() && m0.ycur() == y0 && m0.stp() == rescale(
        ArkStep { tcur: t0, tn: t0, ..m.stp() },
        real_hscale(hscale),
        m.lim().uround,
    )) by {
        reveal(resize_state);
        reveal(put_ycur);
        reveal(put_stp);
    }
    lemma_resize_vectors(m0, e, y0, resize);
    let a = resize_vectors(m0, e, y0, resize);
    let m1 = resize_finish(a.m, y0);
    assert(m1.stp() == a.m.stp() && m1.ycur() == a.m.ycur() && m1.constraints()
        == a.m.constraints() && m1.ops() == a.m.ops() && m1.step_mem() == a.m.step_mem()
        && m1.yn() == v_scale(ONE(), y0, a.m.yn()) && m1.flg().initsetup
        && m1.flg().init_type == RESIZE_INIT && m1.flg().firststage && !m1.flg().fn_is_current)
        by {
        reveal(resize_finish);
        reveal(ask_init);
        reveal(put_flg);
        reveal(put_yn);
    }
    assert(!m.att().interp ==> owns_solver(m1) == owns_solver(m)) by {
        reveal(mri);
    }
    if m1.ops().resize {
        lemma_mri_resize(m1, a.e, y0, resize);
    }
    let r = resize_all(m, e, y0, hscale, t0, resize).m;
    assert(same_state(r, m1) && r.yn() == m1.yn());
    assert(forall|i: int|
        0 <= i < m1.yn().data.len() ==> (#[trigger] m1.yn().data[i]) == at(y0, i)) by {
        reveal(v_scale);
        reveal(v_fill);
        reveal(scaled_by);
        reveal(r_eq);
    }
    if resize is None && m.yn().live {
        assert(m1.yn().data.len() == y0.data.len()) by {
            reveal(v_scale);
            reveal(v_fill);
            reveal(v_clone);
            reveal(v_const);
        }
        assert(m1.yn().data =~= y0.data);
    }
    assert(m0.stp().tn == t0) by {
        reveal(rescale);
    }
    reveal(rescale);
    reveal(r_eq);
    reveal(r_lt);
}

} // verus!
