//! Laws of the right-hand sides: what is evaluated, where it is stored, and what
//! it is added to.
use crate::arkode_codes::{
    ARK_FULLRHS_END, ARK_FULLRHS_OTHER, ARK_FULLRHS_START, ARK_RHSFUNC_FAIL, ARK_SUCCESS,
    ARK_UNREC_RHSFUNC_ERR,
};
use crate::arkode_impl::{InnerView, MemView};
use crate::arkode_mem::{mput_Fse, mput_Fsi, mput_cnt, mput_prb, mri, put_ycur, with_mri};
use crate::binary64::{r_div, r_mul, r_neg, r_sub, sunrealtype};
use crate::env::{ArkEnv, InnerCall, InnerFn, UserCall, UserFn};
use crate::inner_stepper::{active, add_forcing, forcing_vectors, forcing_weights, tau_power};
use crate::laws_sums::{
    component_of, law_combination, law_componentwise, law_linear_sum, pair_sum, product, total,
};
use crate::mristep_begin::{pre_rhs, store_fse, store_fsi, store_slow};
use crate::mristep_rhs::{
    add_slow, combine_slow, count_fse, count_fsi, eval_fse, eval_fsi, eval_slow, fast_rhs, forced,
    forcing_coeffs, forcing_list, forcing_power, mark_fse, mark_fsi, update_f0, write_fse,
    write_fsi,
};
use crate::nvector::{v_null, NVec};
use crate::sundials_types::{ONE, ZERO};
use vstd::prelude::*;

verus! {

/// Vector `i` of a list, none where there is none.
pub open spec fn vector_of(x: Seq<NVec>, i: int) -> NVec {
    if 0 <= i < x.len() {
        x[i]
    } else {
        v_null()
    }
}

/// A call of a user function on the data of the user, outside any step.
pub open spec fn user_call(role: UserFn, f: crate::arkode_impl::FnId, t: sunrealtype) -> UserCall {
    UserCall { role, f, t, step: 0, attempt: 0, user_data: true }
}

/// Whether `p` holds the powers of `tau` from the first on, each the one before
/// times `tau`.
pub open spec fn are_powers(p: Seq<sunrealtype>, tau: sunrealtype) -> bool {
    &&& p.len() > 0 ==> p[0] == tau
    &&& forall|k: int| 1 <= k < p.len() ==> (#[trigger] p[k]) == r_mul(p[k - 1], tau)
}

proof fn lemma_powers(p: Seq<sunrealtype>, tau: sunrealtype, k: nat)
    requires
        are_powers(p, tau),
        1 <= k <= p.len(),
    ensures
        forcing_power(tau, k) == p[k - 1],
    decreases k,
{
    if k > 1 {
        lemma_powers(p, tau, (k - 1) as nat);
        assert(p[k - 1] == r_mul(p[k - 2], tau));
    }
}

/// A right-hand side with the forcing of an outer integrator: in every component
/// the right-hand side plus the forcing polynomial in the time since its start,
/// in its units; the constant term is always there.
pub proof fn law_outer_forcing(m: MemView, t: sunrealtype, v: NVec, p: Seq<sunrealtype>)
    requires
        ({
            let frc = mri(m).frc();
            &&& are_powers(p, r_div(r_sub(t, frc.tshift), frc.tscale))
            &&& p.len() == if frc.nforcing > 1 {
                (frc.nforcing - 1) as nat
            } else {
                0
            }
        }),
    ensures
        ({
            let c = seq![ONE(), ONE()] + p.map_values(|q: sunrealtype| r_mul(ONE(), q));
            let x = seq![v] + Seq::new(p.len() + 1, |i: int| vector_of(mri(m).forcing(), i));
            &&& forced(m, t, v).data.len() == v.data.len()
            &&& forall|i: int|
                0 <= i < v.data.len() ==> (#[trigger] forced(m, t, v).data[i]) == total(c, x, i)
        }),
{
    reveal(forced);
    let frc = mri(m).frc();
    let tau = r_div(r_sub(t, frc.tshift), frc.tscale);
    let c = seq![ONE(), ONE()] + p.map_values(|q: sunrealtype| r_mul(ONE(), q));
    let x = seq![v] + Seq::new(p.len() + 1, |i: int| vector_of(mri(m).forcing(), i));
    let c1 = Seq::<sunrealtype>::empty().push(ONE()) + forcing_coeffs(frc, t, ONE());
    assert forall|i: int| 0 <= i < c1.len() implies #[trigger] c1[i] == c[i] by {
        if i >= 2 {
            lemma_powers(p, tau, (i - 1) as nat);
        }
    }
    assert(c1 =~= c);
    assert(Seq::<NVec>::empty().push(v) + forcing_list(frc, mri(m).forcing()) =~= x);
    law_combination(c, x, v);
}

proof fn lemma_tau_powers(p: Seq<sunrealtype>, tau: sunrealtype, k: nat)
    requires
        k < p.len(),
        p[0] == ONE(),
        forall|j: int| 1 <= j < p.len() ==> (#[trigger] p[j]) == r_mul(p[j - 1], tau),
    ensures
        tau_power(tau, k) == p[k as int],
    decreases k,
{
    if k > 0 {
        lemma_tau_powers(p, tau, (k - 1) as nat);
        assert(p[k as int] == r_mul(p[k - 1], tau));
    }
}

/// The forcing added to a fast right-hand side: in every component the
/// right-hand side plus the active forcing vectors, each times a power of the
/// time since the start of the forcing in its units.
pub proof fn law_fast_forcing(s: InnerView, t: sunrealtype, f: NVec, p: Seq<sunrealtype>)
    requires
        ({
            let tau = r_div(r_sub(t, s.sc().tshift), s.sc().tscale);
            &&& p.len() == if s.sc().nforcing > 0 {
                s.sc().nforcing as nat
            } else {
                0
            }
            &&& p.len() > 0 ==> p[0] == ONE()
            &&& forall|j: int| 1 <= j < p.len() ==> (#[trigger] p[j]) == r_mul(p[j - 1], tau)
        }),
    ensures
        ({
            let x = seq![f] + Seq::new(p.len(), |i: int| vector_of(s.forcing(), i));
            &&& add_forcing(s, t, f).data.len() == f.data.len()
            &&& forall|i: int|
                0 <= i < f.data.len() ==> (#[trigger] add_forcing(s, t, f).data[i]) == total(
                    seq![ONE()] + p,
                    x,
                    i,
                )
        }),
{
    let tau = r_div(r_sub(t, s.sc().tshift), s.sc().tscale);
    let n = active(s.sc().nforcing);
    let c = seq![ONE()] + p;
    let x = seq![f] + Seq::new(p.len(), |i: int| vector_of(s.forcing(), i));
    let w = forcing_weights(tau, n);
    assert forall|i: int| 0 <= i < w.len() implies #[trigger] w[i] == c[i] by {
        if i >= 1 {
            lemma_tau_powers(p, tau, (i - 1) as nat);
        }
    }
    assert(w =~= c);
    assert(forcing_vectors(f, s.forcing(), n) =~= x);
    law_combination(c, x, f);
}

/// What is reported for the answer of a slow right-hand side within a step.
pub open spec fn reported(flag: i32) -> i32 {
    if flag == 0 {
        ARK_SUCCESS
    } else if flag < 0 {
        ARK_RHSFUNC_FAIL
    } else {
        ARK_UNREC_RHSFUNC_ERR
    }
}

/// The explicit slow right-hand side of the current stage: the user's function
/// at the current time and solution, stored in the slot of the stage, with the
/// forcing of an outer integrator where the explicit part carries it. It counts,
/// and leaves the other slots alone.
pub proof fn law_store_explicit<E: ArkEnv>(m: MemView, e: E, slot: i32, f: crate::arkode_impl::FnId)
    requires
        m.step_mem() is Some,
        mri(m).prb().fse == Some(f),
        0 <= slot < mri(m).Fse().len(),
        m.att().PreRhsFn is None,
    ensures
        ({
            let r = store_slow(m, e, slot, true, false, false);
            let u = e.user_reply(
                user_call(UserFn::ExplicitRhs, f, m.stp().tcur),
                m.ycur(),
                mri(m).Fse()[slot as int],
            );
            let g = mri(r.m).Fse();
            &&& r.flag == reported(u.flag)
            &&& r.e == u.env
            &&& g.len() == mri(m).Fse().len()
            &&& u.flag == 0 && !mri(m).frc().expforcing ==> g[slot as int] == u.out
            &&& u.flag == 0 && mri(m).frc().expforcing ==> g[slot as int] == forced(
                m,
                m.stp().tcur,
                u.out,
            )
            &&& forall|j: int| 0 <= j < g.len() && j != slot ==> (#[trigger] g[j]) == mri(m).Fse()[j]
            &&& mri(r.m).cnt().nfse == mri(m).cnt().nfse.wrapping_add(1)
            &&& mri(r.m).cnt().nfsi == mri(m).cnt().nfsi
            &&& mri(r.m).mth().unify_Fs ==> mri(r.m).Fsi() == g
            &&& !mri(r.m).mth().unify_Fs ==> mri(r.m).Fsi() == mri(m).Fsi()
            &&& r.m.ycur() == m.ycur()
            &&& r.m.stp() == m.stp()
        }),
{
    reveal(store_slow);
    reveal(pre_rhs);
    reveal(store_fse);
    reveal(write_fse);
    reveal(count_fse);
    reveal(mput_Fse);
    reveal(mput_Fsi);
    reveal(mput_cnt);
    reveal(with_mri);
    reveal(mri);
    reveal(forced);
}

/// The implicit slow right-hand side of the current stage, evaluated: as the
/// explicit one, with the implicit parts.
pub proof fn law_store_implicit<E: ArkEnv>(m: MemView, e: E, slot: i32, f: crate::arkode_impl::FnId)
    requires
        m.step_mem() is Some,
        mri(m).prb().fsi == Some(f),
        0 <= slot < mri(m).Fsi().len(),
        m.att().PreRhsFn is None,
    ensures
        ({
            let r = store_slow(m, e, slot, false, true, false);
            let u = e.user_reply(
                user_call(UserFn::ImplicitRhs, f, m.stp().tcur),
                m.ycur(),
                mri(m).Fsi()[slot as int],
            );
            let g = mri(r.m).Fsi();
            &&& r.flag == reported(u.flag)
            &&& r.e == u.env
            &&& g.len() == mri(m).Fsi().len()
            &&& u.flag == 0 && !mri(m).frc().impforcing ==> g[slot as int] == u.out
            &&& u.flag == 0 && mri(m).frc().impforcing ==> g[slot as int] == forced(
                m,
                m.stp().tcur,
                u.out,
            )
            &&& forall|j: int| 0 <= j < g.len() && j != slot ==> (#[trigger] g[j]) == mri(m).Fsi()[j]
            &&& mri(r.m).cnt().nfsi == mri(m).cnt().nfsi.wrapping_add(1)
            &&& mri(r.m).cnt().nfse == mri(m).cnt().nfse
            &&& mri(r.m).mth().unify_Fs ==> mri(r.m).Fse() == g
            &&& !mri(r.m).mth().unify_Fs ==> mri(r.m).Fse() == mri(m).Fse()
            &&& r.m.ycur() == m.ycur()
            &&& r.m.stp() == m.stp()
        }),
{
    reveal(store_slow);
    reveal(pre_rhs);
    reveal(store_fsi);
    reveal(write_fsi);
    reveal(count_fsi);
    reveal(mput_Fse);
    reveal(mput_Fsi);
    reveal(mput_cnt);
    reveal(with_mri);
    reveal(mri);
    reveal(forced);
}

/// The implicit slow right-hand side of a stage that was solved can be deduced:
/// in every component it is the correction less the known part of the stage
/// equation, over the factor of the implicit right-hand side. Nothing is
/// evaluated.
pub proof fn law_deduced_implicit<E: ArkEnv>(m: MemView, e: E, slot: i32)
    requires
        m.step_mem() is Some,
        0 <= slot < mri(m).Fsi().len(),
    ensures
        ({
            let r = store_slow(m, e, slot, false, true, true);
            let g = mri(r.m).Fsi();
            let gamma = mri(m).nls().gamma;
            &&& r.flag == ARK_SUCCESS
            &&& r.e == e
            &&& mri(r.m).cnt() == mri(m).cnt()
            &&& g.len() == mri(m).Fsi().len()
            &&& g[slot as int].data.len() == mri(m).Fsi()[slot as int].data.len()
            &&& forall|i: int|
                0 <= i < g[slot as int].data.len() ==> (#[trigger] g[slot as int].data[i])
                    == pair_sum(
                    r_div(ONE(), gamma),
                    component_of(mri(m).zcor(), i),
                    r_div(r_neg(ONE()), gamma),
                    component_of(mri(m).sdata(), i),
                )
            &&& forall|j: int| 0 <= j < g.len() && j != slot ==> (#[trigger] g[j]) == mri(m).Fsi()[j]
        }),
{
    reveal(store_slow);
    reveal(pre_rhs);
    reveal(store_fsi);
    reveal(write_fsi);
    reveal(mput_Fse);
    reveal(mput_Fsi);
    reveal(with_mri);
    reveal(mri);
    let gamma = mri(m).nls().gamma;
    law_linear_sum(
        r_div(ONE(), gamma),
        mri(m).zcor(),
        r_div(r_neg(ONE()), gamma),
        mri(m).sdata(),
        mri(m).Fsi()[slot as int],
    );
}

/// Where both slow right-hand sides of a stage are stored, the implicit one is
/// stored first, then the explicit one; a failure of the first ends it.
pub proof fn law_store_both<E: ArkEnv>(m: MemView, e: E, slot: i32, deduce: bool)
    requires
        m.att().PreRhsFn is None,
    ensures
        ({
            let a = store_slow(m, e, slot, false, true, deduce);
            let b = store_slow(a.m, a.e, slot, true, false, false);
            let r = store_slow(m, e, slot, true, true, deduce);
            r == if a.flag != ARK_SUCCESS {
                a
            } else {
                b
            }
        }),
{
    reveal(store_slow);
    reveal(pre_rhs);
    assert(store_fsi(m, e, slot, deduce).m.att() == m.att()) by {
        reveal(store_fsi);
        reveal(write_fsi);
        reveal(count_fsi);
        reveal(mput_Fse);
        reveal(mput_Fsi);
        reveal(mput_cnt);
        reveal(with_mri);
    }
}

/// Before a right-hand side is evaluated the user's function for that is called
/// on the current solution, which it may change; where it fails nothing is
/// evaluated.
pub proof fn law_before_rhs<E: ArkEnv>(m: MemView, e: E, slot: i32, f: crate::arkode_impl::FnId)
    requires
        m.att().PreRhsFn == Some(f),
        m.step_mem() is Some,
    ensures
        ({
            let u = e.user_reply(
                user_call(UserFn::PreRhs, f, m.stp().tcur),
                m.ycur(),
                m.ycur(),
            );
            let r = store_slow(m, e, slot, true, false, false);
            let z = put_ycur(m, u.out);
            &&& u.flag != 0 ==> r.m == z && r.e == u.env && r.flag
                == crate::arkode_codes::ARK_PRERHSFN_FAIL
            &&& u.flag == 0 ==> r == store_fse(z, u.env, slot)
            &&& z.ycur() == u.out
        }),
{
    reveal(store_slow);
    reveal(pre_rhs);
    reveal(put_ycur);
}

/// The slow right-hand side of the first stage that is handed out: the sum of
/// the explicit and the implicit one, or the one that the problem has.
pub proof fn law_slow_sum(m: MemView, f: NVec)
    ensures
        ({
            let p = mri(m).prb();
            let fe = vector_of(mri(m).Fse(), 0);
            let fi = vector_of(mri(m).Fsi(), 0);
            let r = combine_slow(m, f);
            &&& r.data.len() == f.data.len()
            &&& forall|i: int|
                0 <= i < f.data.len() ==> (#[trigger] r.data[i]) == if p.explicit_rhs
                    && p.implicit_rhs {
                    pair_sum(ONE(), component_of(fe, i), ONE(), component_of(fi, i))
                } else if p.implicit_rhs {
                    product(ONE(), component_of(fi, i))
                } else {
                    product(ONE(), component_of(fe, i))
                }
        }),
{
    reveal(combine_slow);
    let fe = vector_of(mri(m).Fse(), 0);
    let fi = vector_of(mri(m).Fsi(), 0);
    law_linear_sum(ONE(), fe, ONE(), fi, f);
    law_componentwise(ONE(), fi, fi, f);
    law_componentwise(ONE(), fe, fe, f);
}

/// The right-hand side of the whole problem in a step: the fast one plus the slow
/// ones that the problem has.
pub proof fn law_full_sum(m: MemView, f: NVec)
    ensures
        ({
            let p = mri(m).prb();
            let fe = vector_of(mri(m).Fse(), 0);
            let fi = vector_of(mri(m).Fsi(), 0);
            let r = add_slow(m, f);
            &&& r.data.len() == f.data.len()
            &&& forall|i: int|
                0 <= i < f.data.len() ==> (#[trigger] r.data[i]) == if p.explicit_rhs
                    && p.implicit_rhs {
                    total(seq![ONE(), ONE(), ONE()], seq![f, fe, fi], i)
                } else if p.implicit_rhs {
                    pair_sum(ONE(), component_of(fi, i), ONE(), component_of(f, i))
                } else {
                    pair_sum(ONE(), component_of(fe, i), ONE(), component_of(f, i))
                }
        }),
{
    reveal(add_slow);
    let fe = vector_of(mri(m).Fse(), 0);
    let fi = vector_of(mri(m).Fsi(), 0);
    law_linear_sum(ONE(), fe, ONE(), f, f);
    law_linear_sum(ONE(), fi, ONE(), f, f);
    assert(Seq::<sunrealtype>::empty().push(ONE()).push(ONE()).push(ONE()) =~= seq![
        ONE(),
        ONE(),
        ONE(),
    ]);
    assert(Seq::<NVec>::empty().push(f).push(fe).push(fi) =~= seq![f, fe, fi]);
    law_combination(seq![ONE(), ONE(), ONE()], seq![f, fe, fi], f);
}

/// The fast right-hand side: the operation of the fast integrator at the given
/// time and state.
pub proof fn law_fast_rhs<E: ArkEnv>(
    m: MemView,
    e: E,
    t: sunrealtype,
    y: NVec,
    f: NVec,
    s: InnerView,
    id: crate::arkode_impl::FnId,
)
    requires
        mri(m).stepper() == Some(s),
        s.ops().fullrhs == Some(id),
    ensures
        ({
            let r = fast_rhs(m, e, t, y, f);
            let u = e.inner_reply(
                InnerCall {
                    op: InnerFn::FullRhs,
                    f: id,
                    t0: t,
                    t1: t,
                    mode: ARK_FULLRHS_OTHER,
                    x: ZERO(),
                },
                s,
                y,
                f,
                ZERO(),
            );
            r.v == u.out && r.e == u.env && r.flag == u.flag
        }),
{
    reveal(fast_rhs);
}

/// The first slow right-hand side is brought up to date by the user's function
/// at the given time and state, counted and marked as current; the forcing of an
/// outer integrator is added where that part carries it.
pub proof fn law_first_explicit<E: ArkEnv>(
    m: MemView,
    e: E,
    t: sunrealtype,
    y: NVec,
    early: bool,
    f: crate::arkode_impl::FnId,
)
    requires
        m.step_mem() is Some,
        mri(m).prb().fse == Some(f),
        mri(m).Fse().len() > 0,
    ensures
        ({
            let r = eval_slow(m, e, t, y, false, true, early);
            let u = e.user_reply(
                user_call(UserFn::ExplicitRhs, f, t),
                y,
                mri(m).Fse()[0],
            );
            &&& r.e == u.env
            &&& r.flag == if u.flag == 0 {
                ARK_SUCCESS
            } else {
                ARK_RHSFUNC_FAIL
            }
            &&& mri(r.m).cnt().nfse == mri(m).cnt().nfse.wrapping_add(1)
            &&& u.flag == 0 ==> mri(r.m).prb().fse_is_current
            &&& u.flag == 0 && !mri(m).frc().expforcing ==> mri(r.m).Fse()[0] == u.out
            &&& u.flag == 0 && mri(m).frc().expforcing ==> mri(r.m).Fse()[0] == forced(
                m,
                t,
                u.out,
            )
        }),
{
    reveal(eval_slow);
    reveal(eval_fse);
    reveal(write_fse);
    reveal(count_fse);
    reveal(mark_fse);
    reveal(mput_Fse);
    reveal(mput_Fsi);
    reveal(mput_cnt);
    reveal(mput_prb);
    reveal(with_mri);
    reveal(mri);
    reveal(forced);
}

/// The first implicit right-hand side, in the same way.
pub proof fn law_first_implicit<E: ArkEnv>(
    m: MemView,
    e: E,
    t: sunrealtype,
    y: NVec,
    early: bool,
    f: crate::arkode_impl::FnId,
)
    requires
        m.step_mem() is Some,
        mri(m).prb().fsi == Some(f),
        mri(m).Fsi().len() > 0,
    ensures
        ({
            let r = eval_slow(m, e, t, y, true, false, early);
            let u = e.user_reply(
                user_call(UserFn::ImplicitRhs, f, t),
                y,
                mri(m).Fsi()[0],
            );
            &&& r.e == u.env
            &&& r.flag == if u.flag == 0 {
                ARK_SUCCESS
            } else {
                ARK_RHSFUNC_FAIL
            }
            &&& mri(r.m).cnt().nfsi == mri(m).cnt().nfsi.wrapping_add(1)
            &&& u.flag == 0 ==> mri(r.m).prb().fsi_is_current
            &&& u.flag == 0 && !mri(m).frc().impforcing ==> mri(r.m).Fsi()[0] == u.out
            &&& u.flag == 0 && mri(m).frc().impforcing ==> mri(r.m).Fsi()[0] == forced(
                m,
                t,
                u.out,
            )
        }),
{
    reveal(eval_slow);
    reveal(eval_fsi);
    reveal(write_fsi);
    reveal(count_fsi);
    reveal(mark_fsi);
    reveal(mput_Fse);
    reveal(mput_Fsi);
    reveal(mput_cnt);
    reveal(mput_prb);
    reveal(with_mri);
    reveal(mri);
    reveal(forced);
}

/// What is brought up to date at the start of a step: each slow right-hand side
/// that the problem has and that is stale, or all of them where the whole one
/// is. At the end of a step it is all of them unless the whole one is current.
pub proof fn law_stale_parts<E: ArkEnv>(m: MemView, e: E, t: sunrealtype, y: NVec)
    requires
        m.att().PreRhsFn is None,
    ensures
        ({
            let p = mri(m).prb();
            let stale = !m.flg().fn_is_current;
            let a = update_f0(m, e, t, y, ARK_FULLRHS_START);
            let b = update_f0(m, e, t, y, ARK_FULLRHS_END);
            let x = eval_slow(
                m,
                e,
                t,
                y,
                p.implicit_rhs && (stale || !p.fsi_is_current),
                p.explicit_rhs && (stale || !p.fse_is_current),
                false,
            );
            let z = eval_slow(m, e, t, y, p.implicit_rhs && stale, p.explicit_rhs && stale, false);
            &&& a.m == x.m && a.e == x.e && a.flag == x.flag && a.v == y
            &&& b.m == z.m && b.e == z.e && b.flag == z.flag && b.v == y
        }),
{
    reveal(update_f0);
}

/// A slow right-hand side that fails at the first stage counts all the same; it
/// is marked as current only where it was asked to be marked beforehand.
pub proof fn law_failed_part<E: ArkEnv>(
    m: MemView,
    e: E,
    t: sunrealtype,
    y: NVec,
    early: bool,
    fe: crate::arkode_impl::FnId,
    fi: crate::arkode_impl::FnId,
)
    requires
        m.step_mem() is Some,
        mri(m).prb().fse == Some(fe),
        mri(m).prb().fsi == Some(fi),
        mri(m).Fse().len() > 0,
        mri(m).Fsi().len() > 0,
    ensures
        ({
            let u = e.user_reply(user_call(UserFn::ExplicitRhs, fe, t), y, mri(m).Fse()[0]);
            let r = eval_slow(m, e, t, y, false, true, early);
            u.flag != 0 ==> {
                &&& r.flag == ARK_RHSFUNC_FAIL
                &&& mri(r.m).prb().fse_is_current == (early || mri(m).prb().fse_is_current)
                &&& mri(r.m).Fse()[0] == u.out
                &&& mri(r.m).cnt().nfse == mri(m).cnt().nfse.wrapping_add(1)
            }
        }),
        ({
            let u = e.user_reply(user_call(UserFn::ImplicitRhs, fi, t), y, mri(m).Fsi()[0]);
            let r = eval_slow(m, e, t, y, true, false, early);
            u.flag != 0 ==> {
                &&& r.flag == ARK_RHSFUNC_FAIL
                &&& mri(r.m).prb().fsi_is_current == (early || mri(m).prb().fsi_is_current)
                &&& mri(r.m).Fsi()[0] == u.out
                &&& mri(r.m).cnt().nfsi == mri(m).cnt().nfsi.wrapping_add(1)
            }
        }),
{
    reveal(eval_slow);
    reveal(eval_fse);
    reveal(eval_fsi);
    reveal(write_fse);
    reveal(write_fsi);
    reveal(count_fse);
    reveal(count_fsi);
    reveal(mark_fse);
    reveal(mark_fsi);
    reveal(mput_Fse);
    reveal(mput_Fsi);
    reveal(mput_cnt);
    reveal(mput_prb);
    reveal(with_mri);
    reveal(mri);
}

} // verus!
