//! Laws of the first step: how its size is estimated, bounded and chosen.
use crate::arkode_checks::handle_failure;
use crate::arkode_codes::{
    ARK_FULLRHS_OTHER, ARK_FULLRHS_START, ARK_ILL_INPUT, ARK_REPTD_RHSFUNC_ERR, ARK_RHSFUNC_FAIL,
    ARK_STEP_H0_FAIL, ARK_SUCCESS, ARK_TOO_CLOSE, H0_BIAS, H0_LBFACTOR, H0_UBFACTOR, ONE_FIFTH,
    RHSFUNC_RECVR,
};
use crate::arkode_hin::{
    bound_weights, change_rate, finish_h0, hin, propose, refresh_fn, search_h0, step_fullrhs,
    try_hg, upper_bound_h0, with_h, ydd_norm,
};
use crate::arkode_impl::{ArkStep, MemView};
use crate::arkode_mem::{
    put_flg, put_fn_, put_hadapt, put_stp, put_tempv1, put_tempv2, put_ycur, put_yn,
};
use crate::arkode_setup::{
    bound_first_h, check_inputs, estimate_h, first_growth, first_step, setup_h, stepper_h0,
    too_close, tstop_behind,
};
use crate::arkode_step::usual_growth;
use crate::arkode_stop::limit_to_tstop;
use crate::binary64::{
    r_abs, r_add, r_div, r_eq, r_le, r_lt, r_mul, r_neg, r_sub, sunrealtype,
};
use crate::env::ArkEnv;
use crate::laws_sums::{component_of, law_componentwise, law_linear_sum, pair_sum};
use crate::mristep_ops::{compute_h0, slow_hin};
use crate::mristep_rhs::{full_rhs, slow_rhs};
use crate::nvector::{max_abs, v_abs, v_div, v_fill, v_inv, v_scale, v_wrms, NVec};
use crate::sundials_math::{r_guarded_sqrt, r_max};
use crate::sundials_types::{FOUR, HALF, ONE, TWO, ZERO};
use vstd::prelude::*;

verus! {

/// The first slow step: in the direction of the output time, at most a tenth of
/// the way there, and such that an Euler step with the slow right-hand side
/// stays within half of the tolerances. An output time within roundoff of the
/// current one is too close.
pub proof fn law_slow_first_step(m: MemView, tcur: sunrealtype, tout: sunrealtype, f: NVec)
    ensures
        ({
            let d = r_sub(tout, tcur);
            let near = r_eq(d, ZERO()) || r_lt(
                r_abs(d),
                r_mul(TWO(), r_mul(m.lim().uround, r_max(r_abs(tcur), r_abs(tout)))),
            );
            let inv = r_max(
                r_div(r_div(ONE(), H0_UBFACTOR()), r_abs(d)),
                r_div(v_wrms(f, m.ewt()), H0_BIAS()),
            );
            &&& near ==> slow_hin(m, tcur, tout, f) is None
            &&& !near && r_lt(ZERO(), d) ==> slow_hin(m, tcur, tout, f) == Some(r_div(ONE(), inv))
            &&& !near && !r_lt(ZERO(), d) ==> slow_hin(m, tcur, tout, f) == Some(
                r_div(r_neg(ONE()), inv),
            )
        }),
{
    reveal(slow_hin);
}

/// The stepper's first step comes from the slow right-hand side at the last time
/// and solution, which are what the estimate is made at.
pub proof fn law_stepper_first_step<E: ArkEnv>(m: MemView, e: E, tout: sunrealtype, h: sunrealtype)
    ensures
        ({
            let r = slow_rhs(m, e, m.stp().tn, m.yn(), m.tempv1());
            let z = put_tempv1(put_yn(r.m, r.y), r.f);
            let x = slow_hin(z, m.stp().tn, tout, r.f);
            let o = compute_h0(m, e, tout, h);
            &&& o.m == z
            &&& o.e == r.e
            &&& r.flag != ARK_SUCCESS ==> o.flag == ARK_RHSFUNC_FAIL && o.h == h
            &&& r.flag == ARK_SUCCESS && x is None ==> o.flag == handle_failure(ARK_TOO_CLOSE)
                && o.h == h
            &&& r.flag == ARK_SUCCESS && x is Some ==> o.flag == ARK_SUCCESS && Some(o.h) == x
        }),
{
    reveal(compute_h0);
}

/// A stepper that can propose a first step is asked where none was given or
/// taken and steps are of variable size; its proposal counts as given.
pub proof fn law_stepper_asked<E: ArkEnv>(m: MemView, e: E, tout: sunrealtype)
    ensures
        ({
            let s = m.stp();
            let asked = r_eq(s.h0u, ZERO()) && r_eq(s.hin, ZERO()) && !m.lim().fixedstep
                && m.ops().H0;
            let x = compute_h0(m, e, tout, s.hin);
            let o = stepper_h0(m, e, tout);
            &&& !asked ==> o.m == m && o.e == e && o.flag == ARK_SUCCESS
            &&& asked ==> {
                &&& o.e == x.e
                &&& o.m.stp() == (ArkStep { hin: x.h, ..x.m.stp() })
                &&& put_stp(o.m, x.m.stp()) == x.m
                &&& o.flag == if x.flag == 0 {
                    ARK_SUCCESS
                } else {
                    ARK_STEP_H0_FAIL
                }
            }
        }),
{
    reveal(stepper_h0);
    reveal(put_stp);
}

/// The second derivative is estimated over a trial step: an Euler step from the
/// last solution, the right-hand side at its end, the difference of that and the
/// one at its start over the trial step in every component, and the norm of
/// that. The current solution is then the last one again.
pub proof fn law_second_derivative<E: ArkEnv>(m: MemView, e: E, hg: sunrealtype, x: sunrealtype)
    requires
        m.ops().fullrhs,
    ensures
        exists|y: NVec|
            {
                let r = #[trigger] full_rhs(
                    put_ycur(m, y),
                    e,
                    r_add(m.stp().tcur, hg),
                    y,
                    m.tempv1(),
                    ARK_FULLRHS_OTHER,
                );
                let o = ydd_norm(m, e, hg, x);
                let d = o.m.tempv1();
                &&& y.data.len() == m.ycur().data.len()
                &&& forall|i: int|
                    0 <= i < y.data.len() ==> (#[trigger] y.data[i]) == pair_sum(
                        hg,
                        component_of(m.fn_(), i),
                        ONE(),
                        component_of(m.yn(), i),
                    )
                &&& o.e == r.e
                &&& r.flag < 0 ==> o.flag == ARK_RHSFUNC_FAIL && o.x == x
                &&& r.flag > 0 ==> o.flag == RHSFUNC_RECVR && o.x == x
                &&& r.flag == 0 ==> {
                    &&& o.flag == ARK_SUCCESS
                    &&& d.data.len() == r.f.data.len()
                    &&& forall|i: int|
                        0 <= i < d.data.len() ==> (#[trigger] d.data[i]) == pair_sum(
                            r_div(ONE(), hg),
                            component_of(r.f, i),
                            r_div(r_neg(ONE()), hg),
                            component_of(r.m.fn_(), i),
                        )
                    &&& o.x == v_wrms(d, r.m.ewt())
                    &&& o.m.ycur() == v_scale(ONE(), r.m.yn(), r.y)
                }
            },
{
    reveal(ydd_norm);
    reveal(step_fullrhs);
    reveal(put_ycur);
    reveal(put_tempv1);
    law_linear_sum(hg, m.fn_(), ONE(), m.yn(), m.ycur());
    let y = crate::nvector::v_lin(hg, m.fn_(), ONE(), m.yn(), m.ycur());
    let r = full_rhs(
        put_ycur(m, y),
        e,
        r_add(m.stp().tcur, hg),
        y,
        m.tempv1(),
        ARK_FULLRHS_OTHER,
    );
    law_linear_sum(r_div(ONE(), hg), r.f, r_div(r_neg(ONE()), hg), r.m.fn_(), r.f);
}

/// A trial step of a recoverable failure is followed by one of a fifth.
pub proof fn law_shorter_trial<E: ArkEnv>(
    m: MemView,
    e: E,
    hg: sunrealtype,
    x: sunrealtype,
    sign: sunrealtype,
    left: nat,
)
    requires
        left > 0,
    ensures
        ({
            let r = ydd_norm(m, e, r_mul(hg, sign), x);
            let o = try_hg(m, e, hg, x, sign, left);
            &&& r.flag <= 0 ==> o.m == r.m && o.e == r.e && o.hg == hg && o.x == r.x && o.flag
                == r.flag
            &&& r.flag > 0 ==> o == try_hg(
                r.m,
                r.e,
                r_mul(hg, ONE_FIFTH()),
                r.x,
                sign,
                (left - 1) as nat,
            )
            &&& left == 1 && r.flag > 0 ==> o.flag == RHSFUNC_RECVR
        }),
{
    reveal_with_fuel(try_hg, 2);
}

/// The proposal for the first step: the step whose second order term is within
/// the tolerances where that is below the upper bound, else the geometric mean
/// of the trial step and the bound.
pub proof fn law_proposal(hg: sunrealtype, hub: sunrealtype, ydd: sunrealtype)
    ensures
        propose(hg, hub, ydd) == if r_lt(TWO(), r_mul(r_mul(ydd, hub), hub)) {
            r_guarded_sqrt(r_div(TWO(), ydd))
        } else {
            r_guarded_sqrt(r_mul(hg, hub))
        },
{
    reveal(propose);
}

/// A pass of the search. A proposal within a factor of two of the trial step is
/// taken; one that more than doubles it after the first pass is dropped for the
/// trial step; on the last pass any is taken. Where the right-hand side keeps
/// failing, the last good trial step is taken, and the search fails where there
/// was none.
pub proof fn law_search_pass<E: ArkEnv>(
    m: MemView,
    e: E,
    hg: sunrealtype,
    hs: sunrealtype,
    x: sunrealtype,
    hub: sunrealtype,
    sign: sunrealtype,
    count: int,
)
    ensures
        ({
            let r = try_hg(m, e, hg, x, sign, 4);
            let n = propose(r.hg, hub, r.x);
            let q = r_div(n, r.hg);
            let close = r_lt(HALF(), q) && r_lt(q, TWO());
            let o = search_h0(m, e, hg, hs, x, hub, sign, count);
            &&& r.flag < 0 ==> o.flag == ARK_RHSFUNC_FAIL
            &&& r.flag > 0 && count <= 2 ==> o.flag == ARK_REPTD_RHSFUNC_ERR
            &&& r.flag > 0 && count > 2 ==> o.flag == ARK_SUCCESS && o.hnew == hs
            &&& r.flag == 0 && (count >= 4 || close) ==> o.flag == ARK_SUCCESS && o.hnew == n
            &&& r.flag == 0 && 1 < count < 4 && r_lt(TWO(), q) && !close ==> o.flag == ARK_SUCCESS
                && o.hnew == r.hg
            &&& r.flag == 0 && count < 4 && !close && !(count > 1 && r_lt(TWO(), q)) ==> o
                == search_h0(r.m, r.e, n, r.hg, r.x, hub, sign, count + 1)
        }),
{
}

/// The relative rate of change that bounds the first step, in every component:
/// the magnitude of the right-hand side over a tenth of the solution plus the
/// tolerance there.
pub proof fn law_change_rate(m: MemView)
    requires
        m.tempv1().data.len() == m.tempv2().data.len(),
    ensures
        ({
            let r = change_rate(m);
            let c = r.0.tempv1();
            &&& c.data.len() == m.tempv1().data.len()
            &&& forall|i: int|
                0 <= i < c.data.len() ==> (#[trigger] c.data[i]) == r_div(
                    r_abs(component_of(m.fn_(), i)),
                    pair_sum(
                        H0_UBFACTOR(),
                        component_of(m.tempv2(), i),
                        ONE(),
                        r_div(ONE(), m.tempv1().data[i]),
                    ),
                )
            &&& r.1 == max_abs(c, c.data.len())
        }),
{
    reveal(change_rate);
    reveal(put_tempv1);
    reveal(put_tempv2);
    reveal(v_inv);
    reveal(v_fill);
    let inv = v_inv(m.tempv1(), m.tempv1());
    let a = crate::nvector::v_lin(H0_UBFACTOR(), m.tempv2(), ONE(), inv, inv);
    let b = v_abs(m.fn_(), m.tempv2());
    law_linear_sum(H0_UBFACTOR(), m.tempv2(), ONE(), inv, inv);
    law_componentwise(ONE(), m.fn_(), m.fn_(), m.tempv2());
    law_componentwise(ONE(), b, a, a);
    let c = v_div(b, a, a);
    assert forall|i: int| 0 <= i < c.data.len() implies (#[trigger] c.data[i]) == r_div(
        r_abs(component_of(m.fn_(), i)),
        pair_sum(
            H0_UBFACTOR(),
            component_of(m.tempv2(), i),
            ONE(),
            r_div(ONE(), m.tempv1().data[i]),
        ),
    ) by {
        assert(component_of(b, i) == b.data[i]);
        assert(component_of(a, i) == a.data[i]);
        assert(component_of(inv, i) == inv.data[i]);
    }
}

/// The upper bound on the first step: a tenth of the way to the output time,
/// and no more than the reciprocal of the rate of change.
pub proof fn law_upper_bound<E: ArkEnv>(m: MemView, e: E, tdist: sunrealtype)
    ensures
        ({
            let w = bound_weights(put_tempv2(m, v_abs(m.yn(), m.tempv2())), e);
            let r = change_rate(w.m);
            let o = upper_bound_h0(m, e, tdist);
            let way = r_mul(H0_UBFACTOR(), tdist);
            &&& o.m == r.0
            &&& o.e == w.e
            &&& r_lt(ONE(), r_mul(way, r.1)) ==> o.x == r_div(ONE(), r.1)
            &&& !r_lt(ONE(), r_mul(way, r.1)) ==> o.x == way
        }),
{
    reveal(upper_bound_h0);
}

/// The estimate of a first step: the search starts from the geometric mean of
/// its bounds, of which the lower is a hundred units of roundoff in time; what
/// it finds is halved, kept between the bounds, and has the direction of the
/// output time. Bounds that cross give their mean.
pub proof fn law_estimate<E: ArkEnv>(m: MemView, e: E, tout: sunrealtype)
    ensures
        ({
            let t = m.stp().tcur;
            let d = r_sub(tout, t);
            let ahead = r_lt(ZERO(), d);
            let hlb = r_mul(
                H0_LBFACTOR(),
                r_mul(m.lim().uround, r_max(r_abs(t), r_abs(tout))),
            );
            let f = refresh_fn(m, e, ARK_FULLRHS_START);
            let b = upper_bound_h0(f.m, f.e, r_abs(d));
            let mean = r_guarded_sqrt(r_mul(hlb, b.x));
            let s = search_h0(
                b.m,
                b.e,
                mean,
                mean,
                ZERO(),
                b.x,
                if ahead {
                    ONE()
                } else {
                    r_neg(ONE())
                },
                1,
            );
            let half = r_mul(H0_BIAS(), s.hnew);
            let low = if r_lt(half, hlb) {
                hlb
            } else {
                half
            };
            let size = if r_lt(b.x, low) {
                b.x
            } else {
                low
            };
            let o = hin(m, e, tout);
            &&& f.flag != 0 ==> o.flag == ARK_RHSFUNC_FAIL && o.m == f.m && o.e == f.e
            &&& f.flag == 0 && r_lt(b.x, hlb) ==> {
                &&& o.flag == ARK_SUCCESS
                &&& o.e == b.e
                &&& ahead ==> o.m.stp().h == mean
                &&& !ahead ==> o.m.stp().h == r_neg(mean)
                &&& put_stp(o.m, b.m.stp()) == b.m
            }
            &&& f.flag == 0 && !r_lt(b.x, hlb) && s.flag != ARK_SUCCESS ==> o.flag == s.flag
                && o.m == s.m && o.e == s.e
            &&& f.flag == 0 && !r_lt(b.x, hlb) && s.flag == ARK_SUCCESS ==> {
                &&& o.flag == ARK_SUCCESS
                &&& o.e == s.e
                &&& ahead ==> o.m.stp().h == size
                &&& !ahead ==> o.m.stp().h == r_neg(size)
                &&& put_stp(o.m, s.m.stp()) == s.m
            }
        }),
{
    reveal(hin);
    reveal(with_h);
    reveal(finish_h0);
    reveal(put_stp);
}

/// The stored right-hand side that an estimate needs: evaluated at the last time
/// and solution where it is stale, and then current.
pub proof fn law_refreshed<E: ArkEnv>(m: MemView, e: E, mode: i32)
    requires
        m.ops().fullrhs,
    ensures
        ({
            let r = full_rhs(m, e, m.stp().tn, m.yn(), m.fn_(), mode);
            let o = refresh_fn(m, e, mode);
            &&& m.flg().fn_is_current ==> o.m == m && o.e == e && o.flag == ARK_SUCCESS
            &&& !m.flg().fn_is_current ==> {
                &&& o.e == r.e
                &&& o.m.fn_() == r.f
                &&& o.m.yn() == r.y
                &&& r.flag == 0 ==> o.flag == ARK_SUCCESS && o.m.flg().fn_is_current
                &&& r.flag != 0 ==> o.flag == ARK_RHSFUNC_FAIL
            }
        }),
{
    reveal(refresh_fn);
    reveal(step_fullrhs);
    reveal(put_flg);
    reveal(put_fn_);
    reveal(put_yn);
}

/// An estimate aims at the stop time where that comes before the output time.
/// The first step may then grow as first steps may.
pub proof fn law_estimated_size<E: ArkEnv>(m: MemView, e: E, tout: sunrealtype)
    ensures
        ({
            let s = m.stp();
            let d = r_abs(r_sub(tout, s.tcur));
            let h = if r_eq(d, ZERO()) {
                ONE()
            } else {
                d
            };
            let z = with_h(m, h);
            let target = if s.tstopset && r_lt(
                ZERO(),
                r_mul(r_sub(tout, s.tcur), r_sub(tout, s.tstop)),
            ) {
                s.tstop
            } else {
                tout
            };
            let a = hin(z, e, target);
            let o = estimate_h(m, e, tout);
            &&& z.stp() == (ArkStep { h, ..s })
            &&& o.e == a.e
            &&& a.flag != ARK_SUCCESS ==> o.m == a.m && o.flag == handle_failure(a.flag)
            &&& a.flag == ARK_SUCCESS ==> {
                &&& o.flag == ARK_SUCCESS
                &&& o.m.stp() == a.m.stp()
                &&& a.m.hadapt() is Some ==> o.m.hadapt() is Some && o.m.hadapt()->Some_0.etamax
                    == a.m.hadapt()->Some_0.etamx1
            }
        }),
{
    reveal(estimate_h);
    reveal(with_h);
    reveal(first_growth);
    reveal(put_stp);
    reveal(put_hadapt);
}

/// The bounds on a first step: shortened to the largest size, lengthened to the
/// smallest one, and cut where it would overtake the stop time to the distance
/// to it less four units of roundoff.
pub open spec fn within_limits(
    h: sunrealtype,
    s: ArkStep,
    hmin: sunrealtype,
    hmax_inv: sunrealtype,
    uround: sunrealtype,
) -> sunrealtype {
    let q = r_mul(r_abs(h), hmax_inv);
    let a = if r_lt(ONE(), q) {
        r_div(h, q)
    } else {
        h
    };
    let b = if r_lt(r_abs(a), hmin) {
        r_mul(a, r_div(hmin, r_abs(a)))
    } else {
        a
    };
    if s.tstopset && r_lt(ZERO(), r_mul(r_sub(r_add(s.tcur, b), s.tstop), b)) {
        r_mul(r_sub(s.tstop, s.tcur), r_sub(ONE(), r_mul(FOUR(), uround)))
    } else {
        b
    }
}

/// A first step that was given has that size, within the limits, and is refused
/// where it leads away from the output time. The upcoming, the first and the
/// proposed size agree, and their ratio is one.
pub proof fn law_given_first_step<E: ArkEnv>(m: MemView, e: E, tout: sunrealtype)
    requires
        r_eq(m.stp().h0u, ZERO()),
        !r_eq(m.stp().hin, ZERO()),
    ensures
        ({
            let s = m.stp();
            let l = m.lim();
            let away = r_lt(r_mul(r_sub(tout, s.tcur), s.hin), ZERO());
            let h = within_limits(s.hin, s, l.hmin, l.hmax_inv, l.uround);
            let o = setup_h(m, e, tout);
            &&& o.e == e
            &&& away ==> o.flag == ARK_ILL_INPUT
            &&& !away ==> {
                &&& o.flag == ARK_SUCCESS
                &&& o.m.stp() == (ArkStep { h, h0u: h, hprime: h, eta: ONE(), ..s })
                &&& o.m.flg().initialized
                &&& m.hadapt() is Some ==> o.m.hadapt() is Some && o.m.hadapt()->Some_0.etamax
                    == if m.cnt().nst == 0 {
                    m.hadapt()->Some_0.etamx1
                } else {
                    m.hadapt()->Some_0.growth
                }
            }
        }),
{
    reveal(setup_h);
    reveal(first_step);
    reveal(bound_first_h);
    reveal(with_h);
    reveal(first_growth);
    reveal(usual_growth);
    reveal(put_stp);
    reveal(put_flg);
    reveal(put_hadapt);
}

/// A first step that was not given is the estimate, within the limits.
pub proof fn law_estimated_first_step<E: ArkEnv>(m: MemView, e: E, tout: sunrealtype)
    requires
        r_eq(m.stp().h0u, ZERO()),
        r_eq(m.stp().hin, ZERO()),
    ensures
        exists|z: MemView|
            {
                let a = #[trigger] estimate_h(z, e, tout);
                let s = a.m.stp();
                let l = a.m.lim();
                let h = within_limits(s.h, s, l.hmin, l.hmax_inv, l.uround);
                let o = setup_h(m, e, tout);
                &&& z.stp() == (ArkStep { h: m.stp().hin, ..m.stp() })
                &&& z.yn() == m.yn()
                &&& o.e == a.e
                &&& o.flag == a.flag
                &&& a.flag == ARK_SUCCESS ==> o.m.stp() == (ArkStep {
                    h,
                    h0u: h,
                    hprime: h,
                    eta: ONE(),
                    ..s
                })
            },
{
    reveal(setup_h);
    reveal(first_step);
    reveal(bound_first_h);
    reveal(with_h);
    reveal(put_stp);
    reveal(put_flg);
    let f = put_flg(m, crate::arkode_impl::ArkFlags { initialized: true, ..m.flg() });
    let z = with_h(f, f.stp().hin);
    let a = estimate_h(z, e, tout);
}

/// A problem that goes on has the step size it had, cut at the stop time as the
/// next step of an integration is.
pub proof fn law_carried_step<E: ArkEnv>(m: MemView, e: E, tout: sunrealtype)
    requires
        !r_eq(m.stp().h0u, ZERO()),
    ensures
        ({
            let s = m.stp();
            let over = s.tstopset && r_lt(
                ZERO(),
                r_mul(r_sub(r_add(s.tcur, s.hprime), s.tstop), s.h),
            );
            let left = r_mul(
                r_sub(s.tstop, s.tcur),
                r_sub(ONE(), r_mul(FOUR(), m.lim().uround)),
            );
            let o = setup_h(m, e, tout);
            &&& o.e == e
            &&& o.flag == ARK_SUCCESS
            &&& !over ==> o.m.stp() == s
            &&& over ==> o.m.stp() == (ArkStep { hprime: left, eta: r_div(left, s.h), ..s })
            &&& o.m.flg().initialized
        }),
{
    reveal(setup_h);
    reveal(limit_to_tstop);
    reveal(put_stp);
    reveal(put_flg);
}

/// The inputs of a setup: the output time may not be within two units of
/// roundoff of the current time; a fixed-step run has a step size; the vectors
/// have the operations that are needed; the stop time is not behind.
pub proof fn law_inputs(m: MemView, tout: sunrealtype)
    ensures
        ({
            let s = m.stp();
            let d = r_abs(r_sub(tout, s.tcur));
            let close = r_eq(d, ZERO()) || r_lt(
                d,
                r_mul(TWO(), r_mul(m.lim().uround, r_max(r_abs(s.tcur), r_abs(tout)))),
            );
            let way = if r_eq(s.h, ZERO()) {
                r_sub(tout, s.tcur)
            } else {
                s.h
            };
            let behind = s.tstopset && r_le(r_mul(r_sub(s.tstop, s.tcur), way), ZERO());
            let stepless = m.lim().fixedstep && r_eq(s.hin, ZERO());
            let suits = crate::arkode_checks::vector_suits(m);
            &&& (check_inputs(m, tout) == ARK_TOO_CLOSE) == close
            &&& (check_inputs(m, tout) == ARK_ILL_INPUT) == (!close && (stepless || behind
                || !suits))
            &&& (check_inputs(m, tout) == ARK_SUCCESS) == (!close && !stepless && !behind && suits)
        }),
{
    reveal(check_inputs);
    reveal(too_close);
    reveal(tstop_behind);
}

} // verus!
