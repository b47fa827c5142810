//! Laws of the first step of an integration.
use crate::arkode_codes::ARK_SUCCESS;
use crate::arkode_hin::with_h;
use crate::arkode_impl::{ArkLimits, ArkStep, MemView};
use crate::arkode_mem::{put_flg, put_hadapt, put_stp};
use crate::arkode_setup::{
    bound_first_h, first_growth, first_step, fit_fn, initial_setup, setup_h, setup_parts,
    setup_roots, stepper_h0,
};
use crate::arkode_step::usual_growth;
use crate::arkode_stop::root_count;
use crate::binary64::{r_add, r_eq, r_lt, r_mul, r_sub, sunrealtype};
use crate::env::{ArkEnv, ModuleCall};
use crate::outcome::module_run;
use crate::sundials_types::{FOUR, ONE, ZERO};
use vstd::prelude::*;

verus! {

/// Whether a step of size `h` would overtake the stop time.
pub open spec fn overtakes(s: ArkStep, h: sunrealtype) -> bool {
    s.tstopset && r_lt(ZERO(), r_mul(r_sub(r_add(s.tcur, h), s.tstop), h))
}

/// The step size that ends just before the stop time.
pub open spec fn up_to_tstop(s: ArkStep, l: ArkLimits) -> sunrealtype {
    r_mul(r_sub(s.tstop, s.tcur), r_sub(ONE(), r_mul(FOUR(), l.uround)))
}

/// Whether the step sizes are those of a first step: the upcoming, the next
/// and the first step size agree, their ratio is one, and the step either does
/// not overtake the stop time or is cut back to end just before it.
pub open spec fn is_first_step(s: ArkStep, l: ArkLimits) -> bool {
    &&& s.h0u == s.h
    &&& s.hprime == s.h
    &&& s.eta == ONE()
    &&& !overtakes(s, s.h) || s.h == up_to_tstop(s, l)
}

/// The step size chosen for a problem that has not taken a step is that of a
/// first step. One that was given is used, within the bounds on step sizes.
pub proof fn law_first_step<E: ArkEnv>(m: MemView, e: E, tout: sunrealtype)
    requires
        r_eq(m.stp().h0u, ZERO()),
        setup_h(m, e, tout).flag == ARK_SUCCESS,
    ensures
        is_first_step(setup_h(m, e, tout).m.stp(), setup_h(m, e, tout).m.lim()),
        !r_eq(m.stp().hin, ZERO()) ==> setup_h(m, e, tout).m.stp().h == bound_first_h(
            ArkStep { h: m.stp().hin, ..m.stp() },
            m.lim(),
        ),
{
    reveal(setup_h);
    reveal(first_step);
    reveal(put_stp);
    reveal(put_flg);
    reveal(bound_first_h);
    reveal(with_h);
    reveal(first_growth);
    reveal(usual_growth);
    reveal(put_hadapt);
}

/// The memory for which a setup chooses the step size.
pub open spec fn before_step_size<E: ArkEnv>(m: MemView, e: E, tout: sunrealtype) -> MemView {
    let a = setup_parts(m, e);
    fit_fn(stepper_h0(a.m, a.e, tout).m).0
}

/// A setup that succeeds for a problem that has not taken a step leaves the
/// step sizes of a first step, where the search for roots at the initial time,
/// if there is one, leaves times, step sizes and limits alone.
pub proof fn law_setup_first_step<E: ArkEnv>(m: MemView, e: E, tout: sunrealtype)
    requires
        initial_setup(m, e, tout).flag == ARK_SUCCESS,
        r_eq(before_step_size(m, e, tout).stp().h0u, ZERO()),
        forall|x: MemView, y: E|
            root_count(x) > 0 ==> {
                let r = (#[trigger] module_run(x, y, ModuleCall::RootCheck1)).m;
                r.stp() == x.stp() && r.lim() == x.lim()
            },
    ensures
        is_first_step(initial_setup(m, e, tout).m.stp(), initial_setup(m, e, tout).m.lim()),
{
    reveal(initial_setup);
    reveal(setup_roots);
    let a = setup_parts(m, e);
    let b = stepper_h0(a.m, a.e, tout);
    let f = fit_fn(b.m);
    let h = setup_h(f.0, b.e, tout);
    law_first_step(f.0, b.e, tout);
    if root_count(h.m) > 0 {
        let r = module_run(h.m, h.e, ModuleCall::RootCheck1).m;
        assert(r.stp() == h.m.stp());
    }
}

} // verus!
