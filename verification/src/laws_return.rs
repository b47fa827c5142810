//! Laws of returning: when an integration hands out a solution, which one, and
//! at what time.
use crate::arkode_codes::{
    ARK_FULLRHS_END, ARK_ILL_INPUT, ARK_NORMAL, ARK_ONE_STEP, ARK_RHSFUNC_FAIL, ARK_ROOT_RETURN,
    ARK_RTFUNC_FAIL, ARK_SUCCESS, ARK_TSTOP_RETURN, CLOSERT, FUZZ_FACTOR, RTFOUND,
};
use crate::arkode_evolve::{after_roots, after_step, after_tout, after_tstop, report_step};
use crate::arkode_hin::refresh_fn;
use crate::arkode_impl::{ArkStep, MemView};
use crate::arkode_mem::{put_root, put_stp, put_ycur};
use crate::arkode_predict::get_dky;
use crate::arkode_step::time_roundoff;
use crate::arkode_stop::{
    give_at, give_yn, later_root, limit_to_tstop, near_root, root_stop, show_at, show_yn,
    stop_tests, tout_stop, tstop_stop, with_irfnd, with_tretlast,
};
use crate::binary64::{
    r_abs, r_add, r_div, r_le, r_lt, r_mul, r_sub, sunrealtype,
};
use crate::env::{ArkEnv, ModuleCall};
use crate::nvector::{v_scale, NVec};
use crate::outcome::module_run;
use crate::sundials_types::{FOUR, ONE, ZERO};
use vstd::prelude::*;

verus! {

/// What counts as roundoff in time.
pub open spec fn roundoff(m: MemView) -> sunrealtype {
    r_mul(
        r_mul(FUZZ_FACTOR(), m.lim().uround),
        r_add(r_abs(m.stp().tcur), r_abs(m.stp().h)),
    )
}

/// Whether the current time has reached or passed a time, in the direction of
/// integration.
pub open spec fn reached(s: ArkStep, t: sunrealtype) -> bool {
    r_le(ZERO(), r_mul(r_sub(s.tcur, t), s.h))
}

/// The last solution in a buffer, or as the current one where there is none.
pub proof fn law_give_last(m: MemView, v: NVec)
    ensures
        give_yn(m, Some(v)) == (m, Some(v_scale(ONE(), m.yn(), v))),
        give_yn(m, None).1 is None,
        give_yn(m, None).0.ycur() == v_scale(ONE(), m.yn(), m.ycur()),
        put_ycur(give_yn(m, None).0, m.ycur()) == m,
{
    reveal(give_yn);
    reveal(show_yn);
    reveal(put_ycur);
}

/// The interpolated solution in a buffer, or as the current one where there is
/// none.
pub proof fn law_give_interpolated<E: ArkEnv>(m: MemView, e: E, t: sunrealtype, v: NVec)
    ensures
        ({
            let r = get_dky(m, e, t, 0, v);
            let o = give_at(m, e, t, Some(v));
            o.m == r.m && o.e == r.e && o.y == Some(r.v) && o.flag == r.flag
        }),
        ({
            let r = get_dky(m, e, t, 0, m.ycur());
            let o = give_at(m, e, t, None);
            &&& o.m.ycur() == r.v
            &&& put_ycur(o.m, r.m.ycur()) == r.m
            &&& o.e == r.e
            &&& o.y is None
            &&& o.flag == r.flag
        }),
{
    reveal(give_at);
    reveal(show_at);
    reveal(put_ycur);
}

/// After a step in normal mode: once the output time is reached, the solution
/// interpolated there is returned at that time, or the last solution at its own
/// where nothing interpolates, with the size of the next step; before, the
/// integration goes on.
pub proof fn law_output_reached<E: ArkEnv>(m: MemView, e: E, tout: sunrealtype, tret: sunrealtype)
    ensures
        ({
            let s = m.stp();
            let d = show_at(m, e, tout);
            let o = after_tout(m, e, tout, ARK_NORMAL, tret);
            &&& !reached(s, tout) ==> o.more && o.m == m && o.e == e && o.tret == tret && o.flag
                == ARK_SUCCESS
            &&& reached(s, tout) && !m.att().interp ==> {
                &&& !o.more
                &&& o.flag == ARK_SUCCESS
                &&& o.e == e
                &&& o.tret == s.tcur
                &&& o.m.stp() == (ArkStep { tretlast: s.tcur, next_h: s.hprime, ..s })
                &&& o.m.ycur() == v_scale(ONE(), m.yn(), m.ycur())
            }
            &&& reached(s, tout) && m.att().interp && d.flag == ARK_SUCCESS ==> {
                &&& !o.more
                &&& o.flag == ARK_SUCCESS
                &&& o.e == d.e
                &&& o.tret == tout
                &&& o.m.stp() == (ArkStep { tretlast: tout, next_h: d.m.stp().hprime, ..d.m.stp() })
                &&& o.m.ycur() == d.m.ycur()
            }
            &&& reached(s, tout) && m.att().interp && d.flag != ARK_SUCCESS ==> !o.more && o.flag
                == d.flag && o.tret == tret
        }),
{
    reveal(after_tout);
    reveal(report_step);
    reveal(show_yn);
    reveal(put_stp);
    reveal(put_ycur);
}

/// After a step one at a time: the current solution at the current time, with
/// the size of the next step.
pub proof fn law_step_returned<E: ArkEnv>(m: MemView, e: E, tout: sunrealtype, tret: sunrealtype)
    ensures
        ({
            let s = m.stp();
            let o = after_tout(m, e, tout, ARK_ONE_STEP, tret);
            &&& !o.more
            &&& o.flag == ARK_SUCCESS
            &&& o.e == e
            &&& o.tret == s.tcur
            &&& o.m.stp() == (ArkStep { tretlast: s.tcur, next_h: s.hprime, ..s })
            &&& o.m.ycur() == m.ycur()
        }),
{
    reveal(after_tout);
    reveal(report_step);
    reveal(put_stp);
}

/// After a step that ends within roundoff of the stop time: it is returned,
/// unless the output time comes before it by more than roundoff, with the last
/// solution, or with the one interpolated there where that was asked for. The
/// stop time is then cleared.
pub proof fn law_stop_reached<E: ArkEnv>(m: MemView, e: E, tout: sunrealtype, tret: sunrealtype)
    requires
        m.stp().tstopset,
        r_le(r_abs(r_sub(m.stp().tcur, m.stp().tstop)), roundoff(m)),
    ensures
        ({
            let s = m.stp();
            let past = r_sub(tout, s.tstop);
            let due = r_le(ZERO(), r_mul(past, s.h)) || r_le(r_abs(past), roundoff(m));
            let d = show_at(m, e, s.tstop);
            let inter = m.lim().tstopinterp && m.att().interp;
            let o = after_tstop(m, e, tout, tret);
            &&& !due ==> o.more && o.m == m && o.e == e && o.tret == tret
            &&& due && !inter ==> {
                &&& !o.more
                &&& o.flag == ARK_TSTOP_RETURN
                &&& o.tret == s.tstop
                &&& o.m.stp() == (ArkStep { tretlast: s.tstop, tstopset: false, ..s })
                &&& o.m.ycur() == v_scale(ONE(), m.yn(), m.ycur())
                &&& o.e == e
            }
            &&& due && inter && d.flag == ARK_SUCCESS ==> {
                &&& !o.more
                &&& o.flag == ARK_TSTOP_RETURN
                &&& o.tret == s.tstop
                &&& o.m.stp() == (ArkStep { tretlast: s.tstop, tstopset: false, ..d.m.stp() })
                &&& o.m.ycur() == d.m.ycur()
                &&& o.e == d.e
            }
            &&& due && inter && d.flag != ARK_SUCCESS ==> !o.more && o.flag == d.flag && o.tret
                == tret
        }),
{
    reveal(after_tstop);
    reveal(time_roundoff);
    reveal(show_yn);
    reveal(put_stp);
    reveal(put_ycur);
}

/// Roots are searched in the step just taken where there are root functions. One
/// that is found is returned at the left end of its interval, and recorded.
pub proof fn law_roots_after_step<E: ArkEnv>(
    m: MemView,
    e: E,
    tout: sunrealtype,
    itask: i32,
    tret: sunrealtype,
)
    requires
        m.root() is Some,
    ensures
        ({
            let r = module_run(m, e, ModuleCall::RootCheck3 { tout, itask });
            let o = after_roots(m, e, tout, itask, tret);
            &&& m.root()->Some_0.nrtfn <= 0 ==> o.more && o.m == m && o.e == e && o.tret == tret
            &&& m.root()->Some_0.nrtfn > 0 ==> {
                &&& o.e == r.e
                &&& o.more == (r.flag != RTFOUND && r.flag != ARK_RTFUNC_FAIL)
                &&& o.more ==> o.m == r.m && o.tret == tret
                &&& r.flag == ARK_RTFUNC_FAIL ==> o.flag == ARK_RTFUNC_FAIL
                &&& r.flag == RTFOUND && r.m.root() is Some ==> {
                    &&& o.flag == ARK_ROOT_RETURN
                    &&& o.tret == r.m.root()->Some_0.tlo
                    &&& o.m.stp().tretlast == o.tret
                    &&& o.m.root() is Some
                    &&& o.m.root()->Some_0.irfnd == 1
                }
            }
        }),
{
    reveal(after_roots);
    reveal(with_irfnd);
    reveal(with_tretlast);
    reveal(put_stp);
    reveal(put_root);
}

/// After a step the roots come first, then the stop time, then the output time.
pub proof fn law_return_order<E: ArkEnv>(
    m: MemView,
    e: E,
    tout: sunrealtype,
    itask: i32,
    tret: sunrealtype,
)
    ensures
        ({
            let a = after_roots(m, e, tout, itask, tret);
            let b = after_tstop(a.m, a.e, tout, a.tret);
            let o = after_step(m, e, tout, itask, tret);
            &&& !a.more ==> o == a
            &&& a.more && !b.more ==> o == b
            &&& a.more && b.more ==> o == after_tout(b.m, b.e, tout, itask, b.tret)
        }),
{
    reveal(after_step);
}

/// Before a step in normal mode an output time that the last step has already
/// reached is returned without a step.
pub proof fn law_output_already_reached<E: ArkEnv>(
    m: MemView,
    e: E,
    v: NVec,
    tout: sunrealtype,
    tround: sunrealtype,
    tret: sunrealtype,
    ier: i32,
)
    ensures
        ({
            let s = m.stp();
            let d = get_dky(m, e, tout, 0, v);
            let o = tout_stop(m, e, Some(v), tout, ARK_NORMAL, tround, tret, ier);
            &&& !reached(s, tout) ==> o.stop == 0 && o.m == m && o.e == e && o.y == Some(v)
                && o.tret == tret && o.ier == ier
            &&& reached(s, tout) ==> o.stop == 1
            &&& reached(s, tout) && !m.att().interp ==> {
                &&& o.ier == ARK_SUCCESS
                &&& o.tret == s.tcur
                &&& o.y == Some(v_scale(ONE(), m.yn(), v))
                &&& o.m.stp() == (ArkStep { tretlast: s.tcur, ..s })
            }
            &&& reached(s, tout) && m.att().interp && d.flag == ARK_SUCCESS ==> {
                &&& o.ier == ARK_SUCCESS
                &&& o.tret == tout
                &&& o.y == Some(d.v)
                &&& o.m.stp() == (ArkStep { tretlast: tout, ..d.m.stp() })
            }
            &&& reached(s, tout) && m.att().interp && d.flag != ARK_SUCCESS ==> o.ier
                == ARK_ILL_INPUT && o.tret == tret
        }),
{
    reveal(tout_stop);
    reveal(give_at);
    reveal(give_yn);
    reveal(with_tretlast);
    reveal(put_stp);
}

/// Before a step one at a time, a solution that was not returned yet, by more
/// than roundoff, is returned first.
pub proof fn law_step_held_back<E: ArkEnv>(
    m: MemView,
    e: E,
    v: NVec,
    tout: sunrealtype,
    tround: sunrealtype,
    tret: sunrealtype,
    ier: i32,
)
    ensures
        ({
            let s = m.stp();
            let held = r_lt(tround, r_abs(r_sub(s.tcur, s.tretlast)));
            let o = tout_stop(m, e, Some(v), tout, ARK_ONE_STEP, tround, tret, ier);
            &&& !held ==> o.stop == 0 && o.m == m && o.tret == tret && o.y == Some(v)
            &&& held ==> {
                &&& o.stop == 1
                &&& o.ier == ARK_SUCCESS
                &&& o.tret == s.tcur
                &&& o.y == Some(v_scale(ONE(), m.yn(), v))
                &&& o.m.stp() == (ArkStep { tretlast: s.tcur, ..s })
            }
        }),
{
    reveal(tout_stop);
    reveal(give_yn);
    reveal(with_tretlast);
    reveal(put_stp);
}

/// Before a step: a stop time within roundoff of the current time is returned,
/// unless the output time comes before it by more than roundoff; one further
/// away cuts the next step where that would overtake it.
pub proof fn law_stop_already_reached<E: ArkEnv>(
    m: MemView,
    e: E,
    v: NVec,
    tout: sunrealtype,
    tround: sunrealtype,
    tret: sunrealtype,
    ier: i32,
)
    requires
        m.stp().tstopset,
        !m.lim().tstopinterp,
    ensures
        ({
            let s = m.stp();
            let near = r_le(r_abs(r_sub(s.tcur, s.tstop)), tround);
            let past = r_sub(tout, s.tstop);
            let due = r_le(ZERO(), r_mul(past, s.h)) || r_le(r_abs(past), tround);
            let over = r_lt(ZERO(), r_mul(r_sub(r_add(s.tcur, s.hprime), s.tstop), s.h));
            let left = r_mul(
                r_sub(s.tstop, s.tcur),
                r_sub(ONE(), r_mul(FOUR(), m.lim().uround)),
            );
            let o = tstop_stop(m, e, Some(v), tout, tround, tret, ier);
            &&& o.e == e
            &&& near && due ==> {
                &&& o.stop == 1
                &&& o.ier == ARK_TSTOP_RETURN
                &&& o.tret == s.tstop
                &&& o.y == Some(v_scale(ONE(), m.yn(), v))
                &&& o.m.stp() == (ArkStep { tretlast: s.tstop, tstopset: false, ..s })
            }
            &&& near && !due ==> o.stop == 0 && o.m == m && o.y == Some(v) && o.tret == tret
            &&& !near ==> {
                &&& o.stop == 0
                &&& o.tret == tret
                &&& o.y == Some(v)
                &&& over ==> o.m.stp() == (ArkStep { hprime: left, eta: r_div(left, s.h), ..s })
                &&& !over ==> o.m.stp() == s
            }
        }),
{
    reveal(tstop_stop);
    reveal(give_yn);
    reveal(limit_to_tstop);
    reveal(put_stp);
}

/// A root close to the one that was returned last: the right-hand side is
/// brought up to date at the end of the step where that ended at a root; a root
/// that is too close is an error, one that is found is returned.
pub proof fn law_close_root<E: ArkEnv>(
    m: MemView,
    e: E,
    y: Option<NVec>,
    tret: sunrealtype,
    ier: i32,
)
    requires
        m.root() is Some,
    ensures
        ({
            let o = near_root(m, e, y, tret, ier);
            let f = refresh_fn(m, e, ARK_FULLRHS_END);
            let a = module_run(f.m, f.e, ModuleCall::RootCheck2);
            let b = module_run(m, e, ModuleCall::RootCheck2);
            let again = m.root()->Some_0.irfnd != 0;
            let r = if again {
                a
            } else {
                b
            };
            &&& o.y == y
            &&& again && f.flag != 0 ==> o.stop == 1 && o.ier == ARK_RHSFUNC_FAIL && o.m == f.m
            &&& !again || f.flag == 0 ==> {
                &&& o.e == r.e
                &&& r.flag == CLOSERT ==> o.stop == 1 && o.ier == ARK_ILL_INPUT && o.tret == tret
                &&& r.flag == ARK_RTFUNC_FAIL ==> o.stop == 1 && o.ier == ARK_RTFUNC_FAIL
                &&& r.flag == RTFOUND && r.m.root() is Some ==> o.stop == 1 && o.ier
                    == ARK_ROOT_RETURN && o.tret == r.m.root()->Some_0.tlo && o.m.stp().tretlast
                    == o.tret
                &&& r.flag != CLOSERT && r.flag != ARK_RTFUNC_FAIL && r.flag != RTFOUND ==> o.stop
                    == 0 && o.m == r.m && o.tret == tret && o.ier == ier
            }
        }),
{
    reveal(near_root);
    reveal(with_tretlast);
    reveal(put_stp);
}

/// A root in the rest of the last step is returned and recorded; where there is
/// none the record is cleared, and one step at a time the last solution is
/// returned that the root had held back.
pub proof fn law_later_root<E: ArkEnv>(
    m: MemView,
    e: E,
    v: NVec,
    tout: sunrealtype,
    itask: i32,
    before: i32,
    tret: sunrealtype,
    ier: i32,
)
    requires
        module_run(m, e, ModuleCall::RootCheck3 { tout, itask }).m.root() is Some,
    ensures
        ({
            let r = module_run(m, e, ModuleCall::RootCheck3 { tout, itask });
            let o = later_root(m, e, Some(v), tout, itask, before, tret, ier);
            &&& o.e == r.e
            &&& r.flag == ARK_SUCCESS ==> o.m.root() is Some && o.m.root()->Some_0.irfnd == 0
            &&& r.flag == ARK_SUCCESS && before == 1 && itask == ARK_ONE_STEP ==> {
                &&& o.stop == 1
                &&& o.ier == ARK_SUCCESS
                &&& o.tret == r.m.stp().tcur
                &&& o.m.stp().tretlast == o.tret
                &&& o.y == Some(v_scale(ONE(), r.m.yn(), v))
            }
            &&& r.flag == ARK_SUCCESS && !(before == 1 && itask == ARK_ONE_STEP) ==> o.stop == 0
                && o.tret == tret && o.y == Some(v)
            &&& r.flag == RTFOUND ==> {
                &&& o.stop == 1
                &&& o.ier == ARK_ROOT_RETURN
                &&& o.tret == r.m.root()->Some_0.tlo
                &&& o.m.stp().tretlast == o.tret
                &&& o.m.root() is Some
                &&& o.m.root()->Some_0.irfnd == 1
            }
            &&& r.flag == ARK_RTFUNC_FAIL ==> o.stop == 1 && o.ier == ARK_RTFUNC_FAIL
        }),
{
    reveal(later_root);
    reveal(give_yn);
    reveal(with_irfnd);
    reveal(with_tretlast);
    reveal(put_stp);
    reveal(put_root);
}

/// Before a step the roots come first, then the stop time, then the output time;
/// all go by the same roundoff in time.
pub proof fn law_stop_order<E: ArkEnv>(
    m: MemView,
    e: E,
    y: Option<NVec>,
    tout: sunrealtype,
    tret: sunrealtype,
    itask: i32,
    ier: i32,
)
    ensures
        ({
            let x = roundoff(m);
            let a = root_stop(m, e, y, tout, itask, x, tret, ier);
            let b = tstop_stop(a.m, a.e, a.y, tout, x, a.tret, a.ier);
            let o = stop_tests(m, e, y, tout, tret, itask, ier);
            &&& a.stop != 0 ==> o == a
            &&& a.stop == 0 && b.stop != 0 ==> o == b
            &&& a.stop == 0 && b.stop == 0 ==> o == tout_stop(
                b.m,
                b.e,
                b.y,
                tout,
                itask,
                x,
                b.tret,
                b.ier,
            )
        }),
{
    reveal(stop_tests);
    reveal(time_roundoff);
}

/// Without root functions no root is searched; with them, those close to the
/// last one first, and the rest of the last step where that was not all returned
/// yet.
pub proof fn law_root_order<E: ArkEnv>(
    m: MemView,
    e: E,
    y: Option<NVec>,
    tout: sunrealtype,
    itask: i32,
    x: sunrealtype,
    tret: sunrealtype,
    ier: i32,
)
    requires
        m.root() is Some,
    ensures
        ({
            let a = near_root(m, e, y, tret, ier);
            let o = root_stop(m, e, y, tout, itask, x, tret, ier);
            let n = m.root()->Some_0.nrtfn;
            let rest = r_lt(x, r_abs(r_sub(a.m.stp().tcur, a.m.stp().tretlast)));
            &&& n <= 0 ==> o.stop == 0 && o.m == m && o.e == e && o.y == y && o.tret == tret
            &&& n > 0 && (a.stop != 0 || !rest) ==> o == a
            &&& n > 0 && a.stop == 0 && rest ==> o == later_root(
                a.m,
                a.e,
                a.y,
                tout,
                itask,
                m.root()->Some_0.irfnd,
                a.tret,
                a.ier,
            )
        }),
{
    reveal(root_stop);
}

} // verus!
