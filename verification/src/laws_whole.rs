//! Laws of the right-hand side of the whole problem: its parts, where each is
//! evaluated, and how they are added.
use crate::arkode_codes::{
    ARK_FULLRHS_END, ARK_FULLRHS_OTHER, ARK_FULLRHS_START, ARK_MEM_NULL, ARK_PRERHSFN_FAIL,
    ARK_RHSFUNC_FAIL, ARK_SUCCESS,
};
use crate::arkode_impl::{FnId, InnerView, MemView};
use crate::arkode_mem::{
    mput_cnt, mput_sdata, mput_stepper, mri, put_tempv2, with_mri,
};
use crate::binary64::{r_div, r_mul, r_sub, sunrealtype};
use crate::env::{ArkEnv, InnerCall, InnerFn, UserFn};
use crate::inner_stepper::{inner_fullrhs, inner_op};
use crate::laws_rhs::{are_powers, user_call, vector_of};
use crate::laws_sums::{law_combination, total};
use crate::mristep_rhs::{
    add_slow, combine_scratch, combine_slow, count_fse, count_fsi, eval_scratch, eval_slow,
    fast_rhs, forcing_power, full_rhs, full_rhs_other, full_rhs_stored, scratch_terms, slow_rhs,
    update_f0,
};
use crate::nvector::NVec;
use crate::sundials_types::{ONE, ZERO};
use vstd::prelude::*;

verus! {

/// At the start and at the end of a step the slow parts of the first stage are
/// brought up to date, the fast part is evaluated at the same time and state,
/// and they are added. A failure of either is one of the whole.
pub proof fn law_whole_in_step<E: ArkEnv>(
    m: MemView,
    e: E,
    t: sunrealtype,
    y: NVec,
    f: NVec,
    mode: i32,
)
    requires
        m.step_mem() is Some,
        mri(m).stepper() is Some,
        mri(m).stepper()->Some_0.ops().fullrhs is Some,
        mode == ARK_FULLRHS_START || mode == ARK_FULLRHS_END,
    ensures
        ({
            let u = update_f0(m, e, t, y, mode);
            let g = fast_rhs(u.m, u.e, t, u.v, f);
            let o = full_rhs(m, e, t, y, f, mode);
            &&& u.flag != 0 ==> o.flag == ARK_RHSFUNC_FAIL && o.m == u.m && o.e == u.e && o.f == f
            &&& u.flag == 0 && g.flag != ARK_SUCCESS ==> o.flag == ARK_RHSFUNC_FAIL && o.e == g.e
                && o.f == g.v
            &&& u.flag == 0 && g.flag == ARK_SUCCESS ==> o.flag == ARK_SUCCESS && o.m == g.m
                && o.e == g.e && o.f == add_slow(g.m, g.v)
            &&& o.y == u.v
        }),
{
    reveal(full_rhs);
    reveal(full_rhs_stored);
}

/// Without a stepper, a fast right-hand side or a known mode there is no whole
/// right-hand side.
pub proof fn law_whole_refused<E: ArkEnv>(
    m: MemView,
    e: E,
    t: sunrealtype,
    y: NVec,
    f: NVec,
    mode: i32,
)
    ensures
        ({
            let o = full_rhs(m, e, t, y, f, mode);
            let s = mri(m).stepper();
            &&& m.step_mem() is None ==> o.flag == ARK_MEM_NULL && o.m == m && o.e == e && o.f == f
            &&& m.step_mem() is Some && (s is None || s->Some_0.ops().fullrhs is None) ==> o.flag
                == ARK_RHSFUNC_FAIL && o.m == m && o.e == e && o.f == f
            &&& m.step_mem() is Some && mode != ARK_FULLRHS_START && mode != ARK_FULLRHS_END
                && mode != ARK_FULLRHS_OTHER ==> o.flag == ARK_RHSFUNC_FAIL && o.m == m && o.e == e
                && o.f == f
        }),
{
    reveal(full_rhs);
}

proof fn lemma_powers(p: Seq<sunrealtype>, tau: sunrealtype, k: nat)
    requires
        are_powers(p, tau),
        1 <= k <= p.len(),
    ensures
        forcing_power(tau, k) == p[k - 1],
    decreases k,
{
    if k > 1 {
        lemma_powers(p, tau, (k - 1) as nat);
        assert(p[k - 1] == r_mul(p[k - 2], tau));
    }
}

/// Away from a step every part is evaluated anew at the given time and state,
/// the fast one first, then the implicit and the explicit slow one. Each slow
/// evaluation counts, and no stored right-hand side changes. The whole is, in
/// every component, the sum of the parts and of the forcing polynomial of an
/// outer integrator at that time.
pub proof fn law_whole_elsewhere<E: ArkEnv>(
    m: MemView,
    e: E,
    t: sunrealtype,
    y: NVec,
    f: NVec,
    s: InnerView,
    id: FnId,
    fi: FnId,
    fe: FnId,
    p: Seq<sunrealtype>,
)
    requires
        m.step_mem() is Some,
        m.att().PreRhsFn is None,
        mri(m).stepper() == Some(s),
        s.ops().fullrhs == Some(id),
        mri(m).prb().implicit_rhs,
        mri(m).prb().explicit_rhs,
        mri(m).prb().fsi == Some(fi),
        mri(m).prb().fse == Some(fe),
        ({
            let frc = mri(m).frc();
            let n = if frc.nforcing > 1 {
                frc.nforcing - 1
            } else {
                0
            };
            &&& are_powers(p, r_div(r_sub(t, frc.tshift), frc.tscale))
            &&& p.len() == n
        }),
    ensures
        ({
            let frc = mri(m).frc();
            let g = e.inner_reply(
                InnerCall {
                    op: InnerFn::FullRhs,
                    f: id,
                    t0: t,
                    t1: t,
                    mode: ARK_FULLRHS_OTHER,
                    x: ZERO(),
                },
                s,
                y,
                f,
                ZERO(),
            );
            let a = g.env.user_reply(
                user_call(UserFn::ImplicitRhs, fi, t),
                y,
                mri(m).sdata(),
            );
            let b = a.env.user_reply(
                user_call(UserFn::ExplicitRhs, fe, t),
                y,
                m.tempv2(),
            );
            let o = full_rhs(m, e, t, y, f, ARK_FULLRHS_OTHER);
            let forced = frc.expforcing || frc.impforcing;
            let c = if forced {
                seq![ONE(), ONE(), ONE(), ONE()] + p.map_values(|q: sunrealtype| r_mul(ONE(), q))
            } else {
                seq![ONE(), ONE(), ONE()]
            };
            let x = if forced {
                seq![g.out, a.out, b.out] + Seq::new(
                    p.len() + 1,
                    |i: int| vector_of(mri(m).forcing(), i),
                )
            } else {
                seq![g.out, a.out, b.out]
            };
            &&& o.y == y
            &&& g.flag != ARK_SUCCESS ==> o.flag == ARK_RHSFUNC_FAIL && o.e == g.env
            &&& g.flag == ARK_SUCCESS && a.flag != 0 ==> o.flag == ARK_RHSFUNC_FAIL && o.e == a.env
            &&& g.flag == ARK_SUCCESS && a.flag == 0 ==> {
                &&& o.e == b.env
                &&& o.flag == if b.flag == 0 {
                    ARK_SUCCESS
                } else {
                    ARK_RHSFUNC_FAIL
                }
                &&& mri(o.m).cnt().nfsi == mri(m).cnt().nfsi.wrapping_add(1)
                &&& mri(o.m).cnt().nfse == mri(m).cnt().nfse.wrapping_add(1)
                &&& b.flag == 0 ==> {
                    &&& o.f.data.len() == g.out.data.len()
                    &&& forall|i: int|
                        0 <= i < o.f.data.len() ==> (#[trigger] o.f.data[i]) == total(c, x, i)
                }
            }
            &&& mri(o.m).Fse() == mri(m).Fse()
            &&& mri(o.m).Fsi() == mri(m).Fsi()
            &&& o.m.ycur() == m.ycur()
            &&& o.m.fn_() == m.fn_()
        }),
{
    reveal(full_rhs);
    reveal(full_rhs_other);
    reveal(fast_rhs);
    reveal(inner_fullrhs);
    reveal(inner_op);
    reveal(eval_scratch);
    reveal(count_fse);
    reveal(count_fsi);
    reveal(put_tempv2);
    reveal(mput_sdata);
    reveal(mput_stepper);
    reveal(mput_cnt);
    reveal(with_mri);
    let frc = mri(m).frc();
    let r = fast_rhs(m, e, t, y, f);
    let z = eval_scratch(r.m, r.e, t, y).m;
    assert(mri(r.m).prb() == mri(m).prb() && mri(r.m).frc() == frc && mri(r.m).forcing() == mri(
        m,
    ).forcing() && mri(r.m).sdata() == mri(m).sdata() && r.m.tempv2() == m.tempv2() && mri(
        r.m,
    ).cnt() == mri(m).cnt() && mri(r.m).Fse() == mri(m).Fse() && mri(r.m).Fsi() == mri(m).Fsi()
        && r.m.step_mem() is Some && r.m.att() == m.att() && r.m.ycur() == m.ycur() && r.m.fn_()
        == m.fn_()) by {
        reveal(mri);
    }
    assert(mri(z).prb() == mri(m).prb() && mri(z).frc() == frc && mri(z).forcing() == mri(
        m,
    ).forcing() && mri(z).Fse() == mri(m).Fse() && mri(z).Fsi() == mri(m).Fsi()) by {
        reveal(mri);
    }
    let g = e.inner_reply(
        InnerCall {
            op: InnerFn::FullRhs,
            f: id,
            t0: t,
            t1: t,
            mode: ARK_FULLRHS_OTHER,
            x: ZERO(),
        },
        s,
        y,
        f,
        ZERO(),
    );
    let a = g.env.user_reply(user_call(UserFn::ImplicitRhs, fi, t), y, mri(m).sdata());
    let b = a.env.user_reply(user_call(UserFn::ExplicitRhs, fe, t), y, m.tempv2());
    let forced = frc.expforcing || frc.impforcing;
    let c = if forced {
        seq![ONE(), ONE(), ONE(), ONE()] + p.map_values(|q: sunrealtype| r_mul(ONE(), q))
    } else {
        seq![ONE(), ONE(), ONE()]
    };
    let x = if forced {
        seq![g.out, a.out, b.out] + Seq::new(
            p.len() + 1,
            |i: int| vector_of(mri(m).forcing(), i),
        )
    } else {
        seq![g.out, a.out, b.out]
    };
    assert(r.v == g.out && r.e == g.env && r.flag == g.flag);
    if g.flag == ARK_SUCCESS {
        assert(mri(count_fsi(mput_sdata(r.m, a.out))).prb() == mri(m).prb() && count_fsi(
            mput_sdata(r.m, a.out),
        ).tempv2() == m.tempv2()) by {
            reveal(mri);
        }
        if a.flag == 0 {
            assert(mri(z).sdata() == a.out && z.tempv2() == b.out && mri(z).cnt().nfsi == mri(
                m,
            ).cnt().nfsi.wrapping_add(1) && mri(z).cnt().nfse == mri(
                m,
            ).cnt().nfse.wrapping_add(1)) by {
                reveal(mri);
            }
            let st = scratch_terms(z, t, g.out);
            let tau = r_div(r_sub(t, frc.tshift), frc.tscale);
            assert forall|i: int| 0 <= i < st.0.len() implies #[trigger] st.0[i] == c[i] by {
                if forced && i >= 4 {
                    lemma_powers(p, tau, (i - 3) as nat);
                }
            }
            assert(st.0 =~= c);
            assert(st.1 =~= x);
            reveal(combine_scratch);
            law_combination(c, x, g.out);
        }
    }
}

/// The slow right-hand side alone, always evaluated, at the given time and
/// state: both parts that the problem has are brought up to date and added.
pub proof fn law_slow_alone<E: ArkEnv>(m: MemView, e: E, t: sunrealtype, y: NVec, f: NVec)
    requires
        m.step_mem() is Some,
        m.att().PreRhsFn is None,
    ensures
        ({
            let p = mri(m).prb();
            let r = eval_slow(m, e, t, y, p.implicit_rhs, p.explicit_rhs, true);
            let o = slow_rhs(m, e, t, y, f);
            &&& o.m == r.m
            &&& o.e == r.e
            &&& o.y == y
            &&& o.flag == r.flag
            &&& r.flag == ARK_SUCCESS ==> o.f == combine_slow(r.m, f)
            &&& r.flag != ARK_SUCCESS ==> o.f == f
        }),
{
    reveal(slow_rhs);
}

/// A function of the user before right-hand sides is handed the state first, and
/// what it leaves is where they are evaluated; its refusal ends the evaluation.
pub proof fn law_prepared_state<E: ArkEnv>(
    m: MemView,
    e: E,
    t: sunrealtype,
    y: NVec,
    f: NVec,
    id: FnId,
)
    requires
        m.step_mem() is Some,
        m.att().PreRhsFn == Some(id),
    ensures
        ({
            let u = e.user_reply(user_call(UserFn::PreRhs, id, t), y, y);
            let p = mri(m).prb();
            let r = eval_slow(m, u.env, t, u.out, p.implicit_rhs, p.explicit_rhs, true);
            let o = slow_rhs(m, e, t, y, f);
            &&& o.y == u.out
            &&& u.flag != 0 ==> o.m == m && o.e == u.env && o.f == f && o.flag == ARK_PRERHSFN_FAIL
            &&& u.flag == 0 ==> o.m == r.m && o.e == r.e && o.flag == r.flag
        }),
{
    reveal(slow_rhs);
}

} // verus!
