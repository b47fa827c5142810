//! Laws of storage and setup: how much room a table and a problem get, and what
//! is asked for before the first step.
use crate::arkode_checks::vector_suits;
use crate::arkode_codes::{
    ARK_ILL_INPUT, ARK_INTERP_LAGRANGE, ARK_INTERP_NONE, ARK_MEM_FAIL, ARK_SS, ARK_SUCCESS,
    ARK_SUNSTEPPER_ERR, FIRST_INIT, SUN_SUCCESS,
};
use crate::arkode_core::{create, free_all, init};
use crate::arkode_hin::bound_weights;
use crate::arkode_impl::{EwtFn, FnId, InnerView, MemView};
use crate::arkode_mem::{
    mput_Ae_row, mput_Ai_row, mput_Fse, mput_Fsi, mput_mth, mput_nls, mput_sdata, mput_stage_map,
    mput_stagetypes, mput_stepper, mput_zcor, mput_zpred, mri, put_acc, put_fn_, put_tempv1,
    with_mri,
};
use crate::arkode_setup::{
    check_start, fill_interp, fit_fn, initial_setup, load_ewt, load_rwt, make_interp, setup_h,
    setup_interp, setup_parts, setup_roots, setup_stepper, stepper_h0,
};
use crate::arkode_tol::call_efun;
use crate::arkode_vectors::{alloc_vec, clones, free_vec};
use crate::binary64::{r_eq, sunrealtype};
use crate::env::{ArkEnv, ModuleCall};
use crate::inner_stepper::{inner_allocvecs, sun_evolve, with_flag, SUNStepper, SunCall};
use crate::laws_predict::{broken, lemma_all_hold};
use crate::laws_sums::component_of;
use crate::mristep_create::{
    attach_stepper, mri_create, need_newton, prepare_stepper, set_problem, start_fast,
    start_solvers,
};
use crate::mristep_init::{attach_newton, measure, mri_init};
use crate::mristep_ops::refit_fused;
use crate::mristep_storage::{
    credit, debit, drop_fse, drop_fsi, drop_stages, fit_stages, make_fse, make_fsi,
    make_solver_vectors, make_stages, new_rows, new_stage_kinds, new_stage_map, shift_words,
    with_allocated, zero_indices, zeros,
};
use crate::mristep_table::account_table;
use crate::nvector::{v_clone, v_const, v_fill, v_null, NVec};
use crate::outcome::{module_count, module_numbers, module_run, module_vec};
use crate::sundials_types::{ONE, ZERO};
use vstd::prelude::*;

verus! {

/// A new vector is like its template, with zeros in it.
pub proof fn law_clone(tmpl: NVec)
    ensures
        v_clone(tmpl).live,
        v_clone(tmpl).data.len() == tmpl.data.len(),
        forall|i: int| 0 <= i < tmpl.data.len() ==> (#[trigger] v_clone(tmpl).data[i]) == ZERO(),
        v_clone(tmpl).ops() == tmpl.ops(),
{
    reveal(v_clone);
    reveal(v_const);
    reveal(v_fill);
}

/// An empty slot is filled with a new vector like the template, and charged;
/// what is there is kept, and not charged. Only a template that can be cloned
/// and destroyed will do.
pub proof fn law_allocation(m: MemView, tmpl: NVec, v: NVec)
    ensures
        ({
            let o = alloc_vec(m, tmpl, v);
            let able = tmpl.ops().nvclone && tmpl.ops().nvdestroy;
            &&& v.live ==> o.0 == m && o.1 == v && o.2
            &&& !v.live && !able ==> o.0 == m && o.1 == v && !o.2
            &&& !v.live && able ==> {
                &&& o.2
                &&& o.1 == v_clone(tmpl)
                &&& o.0.acc().lrw == m.acc().lrw.wrapping_add(m.acc().lrw1)
                &&& o.0.acc().liw == m.acc().liw.wrapping_add(m.acc().liw1)
                &&& put_acc(o.0, m.acc()) == m
            }
        }),
        ({
            let o = free_vec(m, v);
            &&& !v.live ==> o.0 == m && o.1 == v
            &&& v.live ==> {
                &&& o.1 == v_null()
                &&& o.0.acc().lrw == m.acc().lrw.wrapping_sub(m.acc().lrw1)
                &&& o.0.acc().liw == m.acc().liw.wrapping_sub(m.acc().liw1)
                &&& put_acc(o.0, m.acc()) == m
            }
        }),
{
    reveal(alloc_vec);
    reveal(free_vec);
    reveal(put_acc);
}

/// Room for the stages of a table on a problem that has none yet: one new vector
/// for each active stage and each right-hand side that the problem has; where
/// both kinds share their storage, one for both.
pub proof fn law_stage_vectors(m: MemView)
    requires
        m.step_mem() is Some,
        mri(m).Fse().len() == 0,
        mri(m).Fsi().len() == 0,
        mri(m).mth().nstages_active > 0,
        mri(m).mth().nstages_allocated == 0,
    ensures
        ({
            let n = mri(m).mth().nstages_active;
            let p = mri(m).prb();
            let one = mri(m).mth().unify_Fs;
            let new = Seq::new(n as nat, |i: int| v_clone(m.ewt()));
            let o = fit_stages(m);
            let s = mri(o.0);
            &&& o.1 == ARK_SUCCESS
            &&& s.mth().nstages_allocated == n
            &&& one ==> s.Fse() == new && s.Fsi() == new
            &&& !one && p.explicit_rhs ==> s.Fse() == new
            &&& !one && p.implicit_rhs ==> s.Fsi() == new
            &&& !one && !p.explicit_rhs ==> s.Fse() == mri(m).Fse()
            &&& !one && !p.implicit_rhs ==> s.Fsi() == mri(m).Fsi()
        }),
{
    reveal(fit_stages);
    reveal(make_stages);
    reveal(make_fse);
    reveal(make_fsi);
    reveal(debit);
    reveal(with_allocated);
    reveal(mput_Fse);
    reveal(mput_Fsi);
    reveal(mput_mth);
    reveal(put_acc);
    reveal(with_mri);
    reveal(mri);
    let n = mri(m).mth().nstages_active;
    assert(clones(n, m.ewt()) =~= Seq::new(n as nat, |i: int| v_clone(m.ewt())));
}

/// Stage vectors are enough once they are as many as the table needs: they are
/// then left alone.
pub proof fn law_enough_stages(m: MemView)
    requires
        mri(m).mth().nstages_allocated >= mri(m).mth().nstages_active,
    ensures
        fit_stages(m) == (m, ARK_SUCCESS),
{
    reveal(fit_stages);
}

/// The three vectors of the nonlinear solver are new ones like the weights where
/// they were not there.
pub proof fn law_solver_vectors(m: MemView)
    requires
        m.step_mem() is Some,
        m.ewt().ops().nvclone,
        m.ewt().ops().nvdestroy,
        !mri(m).sdata().live,
        !mri(m).zpred().live,
        !mri(m).zcor().live,
    ensures
        ({
            let o = make_solver_vectors(m);
            &&& o.1 == ARK_SUCCESS
            &&& mri(o.0).sdata() == v_clone(m.ewt())
            &&& mri(o.0).zpred() == v_clone(m.ewt())
            &&& mri(o.0).zcor() == v_clone(m.ewt())
        }),
{
    reveal(make_solver_vectors);
    reveal(alloc_vec);
    reveal(put_acc);
    reveal(mput_sdata);
    reveal(mput_zpred);
    reveal(mput_zcor);
    reveal(with_mri);
    reveal(mri);
}

/// A new stage map has an entry for each stage, the list of kinds one more for
/// the embedding, the rows of coefficients one for each stage.
pub proof fn law_derived_sizes(m: MemView, n: i32)
    requires
        m.step_mem() is Some,
        0 <= n < i32::MAX,
    ensures
        mri(new_stage_map(m, n)).stage_map().len() == n,
        mri(new_stage_kinds(m, n)).stagetypes().len() == n + 1,
        mri(new_rows(m, n)).Ae_row().len() == n,
        mri(new_rows(m, n)).Ai_row().len() == n,
        mri(m).stage_map().len() == 0 ==> new_stage_map(m, n).acc().liw == m.acc().liw.wrapping_add(
            n as i64,
        ),
{
    reveal(new_stage_map);
    reveal(new_stage_kinds);
    reveal(new_rows);
    reveal(shift_words);
    reveal(zero_indices);
    reveal(zeros);
    reveal(put_acc);
    reveal(mput_stage_map);
    reveal(mput_stagetypes);
    reveal(mput_Ae_row);
    reveal(mput_Ai_row);
    reveal(with_mri);
    reveal(mri);
}

/// The forcing of the fast integrator has a vector for each matrix of the table
/// where it had none, all new ones like the weights.
pub proof fn law_forcing_room(s: InnerView, n: i32, tmpl: NVec)
    requires
        n > 0,
        s.sc().nforcing_allocated == 0,
        s.forcing().len() == 0,
    ensures
        ({
            let o = inner_allocvecs(s, n, tmpl);
            &&& o.1 == ARK_SUCCESS
            &&& o.0.forcing() == Seq::new(n as nat, |i: int| v_clone(tmpl))
            &&& o.0.sc().nforcing == n
            &&& o.0.sc().nforcing_allocated == n
            &&& o.0.ops() == s.ops()
        }),
{
    assert(clones(n, tmpl) =~= Seq::new(n as nat, |i: int| v_clone(tmpl)));
}

/// The workspace for fused operations has the size asked for, and the accounts
/// change by the difference to the one before it.
pub proof fn law_fused_room(m: MemView, size: i32)
    requires
        m.step_mem() is Some,
        mri(m).mth().fused_allocated,
    ensures
        ({
            let old_size = mri(m).mth().nfusedopvecs;
            let r = refit_fused(m, size);
            &&& mri(r).mth().nfusedopvecs == size
            &&& mri(r).mth().fused_allocated
            &&& r.acc().lrw == m.acc().lrw.wrapping_sub(old_size as i64).wrapping_add(size as i64)
            &&& r.acc().liw == m.acc().liw.wrapping_sub(old_size as i64).wrapping_add(size as i64)
        }),
{
    reveal(refit_fused);
    reveal(put_acc);
    reveal(mput_mth);
    reveal(with_mri);
    reveal(mri);
}

/// The vector for the whole right-hand side is there exactly where it is asked
/// for, where the first step is estimated, or where roots are searched.
pub proof fn law_room_for_rhs(m: MemView)
    requires
        m.ops().fullrhs,
        m.yn().ops().nvclone,
        m.yn().ops().nvdestroy,
    ensures
        ({
            let s = m.stp();
            let wanted = m.flg().call_fullrhs || (r_eq(s.h0u, ZERO()) && r_eq(s.hin, ZERO()))
                || m.root() is Some;
            let o = fit_fn(m);
            &&& o.1 == ARK_SUCCESS
            &&& o.0.fn_().live == wanted
            &&& wanted && m.fn_().live ==> o.0.fn_() == m.fn_()
            &&& wanted && !m.fn_().live ==> o.0.fn_() == v_clone(m.yn())
        }),
{
    reveal(fit_fn);
    reveal(alloc_vec);
    reveal(free_vec);
    reveal(put_fn_);
    reveal(put_acc);
    reveal(v_clone);
}

/// The operations that a configuration asks of its vectors: a smallest component
/// where built-in weights may divide by zero, quotients and a largest magnitude
/// where the first step is estimated, added constants for scalar tolerances.
pub proof fn law_suitable_vectors(m: MemView)
    ensures
        ({
            let o = m.tempv1().ops();
            let t = m.tol();
            let own = !t.rwt_is_ewt;
            let small = (t.atolmin0 && !t.user_efun) || (own && t.Ratolmin0 && !t.user_rfun);
            let first = r_eq(m.stp().h0u, ZERO()) && r_eq(m.stp().hin, ZERO());
            let scalar = t.itol == ARK_SS || (own && t.ritol == ARK_SS);
            vector_suits(m) == ((small ==> o.nvmin) && (first ==> o.nvdiv && o.nvmaxnorm) && (scalar
                ==> o.nvaddconst))
        }),
{
}

/// The initial state is held against the constraints: it passes exactly where
/// none is broken in any component, and always where there are none.
pub proof fn law_start_constraints(m: MemView)
    ensures
        !m.constraints().live ==> check_start(m) == (m, true),
        m.constraints().live ==> (check_start(m).1 <==> forall|i: int|
            0 <= i < m.tempv1().data.len() ==> !#[trigger] broken(
                component_of(m.constraints(), i),
                component_of(m.yn(), i),
            )),
{
    reveal(check_start);
    lemma_all_hold(m.constraints(), m.yn(), m.tempv1().data.len());
}

/// The parts of a setup before the step size, in turn: the constraints on the
/// initial state, weights and stepper, interpolation. The first failure ends it.
pub proof fn law_setup_parts<E: ArkEnv>(m: MemView, e: E)
    ensures
        ({
            let c = check_start(m);
            let a = setup_stepper(c.0, e);
            let o = setup_parts(m, e);
            &&& !c.1 ==> o.flag == ARK_ILL_INPUT && o.m == c.0 && o.e == e
            &&& c.1 && a.flag != ARK_SUCCESS ==> o == a
            &&& c.1 && a.flag == ARK_SUCCESS ==> o == setup_interp(a.m, a.e)
        }),
{
    reveal(setup_parts);
}

/// The stepper is set up between the error weights, at the last solution, and
/// the residual weights; weights that cannot be had refuse the input.
pub proof fn law_stepper_setup<E: ArkEnv>(m: MemView, e: E)
    requires
        ({
            let a = load_ewt(m, e);
            !a.m.flg().preallocated && a.m.ops().init
        }),
    ensures
        ({
            let a = load_ewt(m, e);
            let b = mri_init(a.m, a.e, a.m.flg().init_type);
            let c = load_rwt(b.m, b.e);
            let o = setup_stepper(m, e);
            &&& a.flag != 0 ==> o.flag == ARK_ILL_INPUT && o.m == a.m && o.e == a.e
            &&& a.flag == 0 && b.flag != ARK_SUCCESS ==> o == b
            &&& a.flag == 0 && b.flag == ARK_SUCCESS ==> o.m == c.m && o.e == c.e && o.flag
                == if c.flag == 0 {
                ARK_SUCCESS
            } else {
                ARK_ILL_INPUT
            }
        }),
{
    reveal(setup_stepper);
}

/// Interpolation is made where it is wanted and not there, of the kind and the
/// degree asked for, and started at the current time; root finding and an
/// interpolated stop time are refused without it.
pub proof fn law_interpolation_setup<E: ArkEnv>(m: MemView, e: E)
    requires
        m.att().interp_type != ARK_INTERP_NONE,
        !m.att().interp,
    ensures
        ({
            let c = module_run(
                m,
                e,
                ModuleCall::InterpCreate {
                    lagrange: m.att().interp_type == ARK_INTERP_LAGRANGE,
                    degree: m.att().interp_degree,
                },
            );
            let d = module_run(
                c.m,
                c.e,
                ModuleCall::InterpSetDegree { degree: c.m.att().interp_degree },
            );
            let i = module_run(d.m, d.e, ModuleCall::InterpInit { t: d.m.stp().tcur });
            let o = setup_interp(m, e);
            &&& !c.m.att().interp ==> o.flag == ARK_MEM_FAIL && o.m == c.m && o.e == c.e
            &&& c.m.att().interp && d.flag != 0 ==> o.flag == ARK_ILL_INPUT && o.m == d.m
            &&& c.m.att().interp && d.flag == 0 && i.flag != 0 ==> o.flag == ARK_ILL_INPUT && o.m
                == i.m
            &&& c.m.att().interp && d.flag == 0 && i.flag == 0 ==> o.m == i.m && o.e == i.e
                && o.flag == if (i.m.root() is Some || i.m.lim().tstopinterp) && !i.m.att().interp {
                ARK_ILL_INPUT
            } else {
                ARK_SUCCESS
            }
        }),
{
    reveal(setup_interp);
    reveal(make_interp);
    reveal(fill_interp);
}

/// A setup, in turn: the parts before the step size, the stepper's proposal,
/// room for the right-hand side, the step size, and the roots at the start.
pub proof fn law_setup_in_turn<E: ArkEnv>(m: MemView, e: E, tout: sunrealtype)
    requires
        crate::arkode_setup::check_inputs(m, tout) == ARK_SUCCESS,
    ensures
        ({
            let a = setup_parts(m, e);
            let b = stepper_h0(a.m, a.e, tout);
            let f = fit_fn(b.m);
            let h = setup_h(f.0, b.e, tout);
            let o = initial_setup(m, e, tout);
            &&& a.flag != ARK_SUCCESS ==> o == a
            &&& a.flag == ARK_SUCCESS && b.flag != ARK_SUCCESS ==> o == b
            &&& a.flag == ARK_SUCCESS && b.flag == ARK_SUCCESS && f.1 != ARK_SUCCESS ==> o.m == f.0
                && o.e == b.e && o.flag == f.1
            &&& a.flag == ARK_SUCCESS && b.flag == ARK_SUCCESS && f.1 == ARK_SUCCESS && h.flag
                != ARK_SUCCESS ==> o == h
            &&& a.flag == ARK_SUCCESS && b.flag == ARK_SUCCESS && f.1 == ARK_SUCCESS && h.flag
                == ARK_SUCCESS ==> o == setup_roots(h.m, h.e)
        }),
{
    reveal(initial_setup);
}

/// A generic stepper is evolved under the forcing of its interval, with the time
/// to reach as its stop time, and the forcing is taken away again; the first
/// failure ends it, and gives the flag for failures of generic steppers.
pub proof fn law_generic_evolution<S: SUNStepper>(s: InnerView, g: S, tout: sunrealtype, y: NVec)
    ensures
        ({
            let a = g.reply(
                SunCall::SetForcing {
                    tshift: s.sc().tshift,
                    tscale: s.sc().tscale,
                    n: s.sc().nforcing,
                },
                s.forcing(),
                v_null(),
                v_null(),
            );
            let b = a.s.reply(SunCall::SetStopTime { t: tout }, Seq::empty(), v_null(), v_null());
            let c = b.s.reply(SunCall::Evolve { t: tout }, Seq::empty(), y, y);
            let d = c.s.reply(
                SunCall::SetForcing { tshift: ZERO(), tscale: ONE(), n: 0 },
                Seq::empty(),
                v_null(),
                v_null(),
            );
            let o = sun_evolve(s, g, tout, y);
            &&& a.err != SUN_SUCCESS ==> o.flag == ARK_SUNSTEPPER_ERR && o.g == a.s && o.v == y
            &&& a.err == SUN_SUCCESS && b.err != SUN_SUCCESS ==> o.flag == ARK_SUNSTEPPER_ERR
                && o.g == b.s && o.v == y
            &&& a.err == SUN_SUCCESS && b.err == SUN_SUCCESS && c.err != SUN_SUCCESS ==> o.flag
                == ARK_SUNSTEPPER_ERR && o.g == c.s && o.v == c.out
            &&& a.err == SUN_SUCCESS && b.err == SUN_SUCCESS && c.err == SUN_SUCCESS ==> {
                &&& o.g == d.s
                &&& o.v == c.out
                &&& o.s.sc().last_flag == d.s.flag()
                &&& o.flag == if d.err == SUN_SUCCESS {
                    ARK_SUCCESS
                } else {
                    ARK_SUNSTEPPER_ERR
                }
            }
        }),
{
    reveal(with_flag);
    reveal(crate::inner_stepper::with_sc);
}

/// Stage vectors that are too few are replaced: the old ones are released, and
/// there is a new one for each active stage and each right-hand side that the
/// problem has.
pub proof fn law_stages_replaced(m: MemView)
    requires
        m.step_mem() is Some,
        !mri(m).mth().unify_Fs,
        0 < mri(m).mth().nstages_allocated < mri(m).mth().nstages_active,
    ensures
        ({
            let n = mri(m).mth().nstages_active;
            let p = mri(m).prb();
            let new = Seq::new(n as nat, |i: int| v_clone(m.ewt()));
            let o = fit_stages(m);
            &&& o.1 == ARK_SUCCESS
            &&& mri(o.0).mth().nstages_allocated == n
            &&& p.explicit_rhs ==> mri(o.0).Fse() == new
            &&& p.implicit_rhs ==> mri(o.0).Fsi() == new
        }),
{
    reveal(fit_stages);
    reveal(drop_stages);
    reveal(drop_fse);
    reveal(drop_fsi);
    reveal(credit);
    reveal(make_stages);
    reveal(make_fse);
    reveal(make_fsi);
    reveal(debit);
    reveal(with_allocated);
    reveal(mput_Fse);
    reveal(mput_Fsi);
    reveal(mput_mth);
    reveal(put_acc);
    reveal(with_mri);
    reveal(mri);
    let n = mri(m).mth().nstages_active;
    assert(clones(n, m.ewt()) =~= Seq::new(n as nat, |i: int| v_clone(m.ewt())));
}

/// The words of one vector are those of the template: as many real ones as it
/// has components, and an integer one; none where it cannot tell. What comes
/// back is how much they changed by.
pub proof fn law_measured(m: MemView, tmpl: NVec)
    ensures
        ({
            let o = measure(m, tmpl);
            let r: i64 = if tmpl.ops().nvspace {
                tmpl.data.len() as i64
            } else {
                0
            };
            let i: i64 = if tmpl.ops().nvspace {
                1
            } else {
                0
            };
            &&& o.0.acc().lrw1 == r
            &&& o.0.acc().liw1 == i
            &&& o.1 == r.wrapping_sub(m.acc().lrw1)
            &&& o.2 == i.wrapping_sub(m.acc().liw1)
            &&& o.0.acc().lrw == m.acc().lrw
            &&& o.0.acc().liw == m.acc().liw
            &&& put_acc(o.0, m.acc()) == m
        }),
{
    reveal(measure);
    reveal(put_acc);
}

/// The words of a table are added to the accounts when it is loaded, and taken
/// off again when it is released: integer words first, then real ones.
pub proof fn law_table_words<E: ArkEnv>(m: MemView, e: E, added: bool)
    ensures
        ({
            let a = module_count(m, e, ModuleCall::TableWords { reals: false });
            let b = module_count(a.m, a.e, ModuleCall::TableWords { reals: true });
            let o = account_table(m, e, added);
            &&& o.e == b.e
            &&& o.flag == ARK_SUCCESS
            &&& added ==> o.m.acc().liw == b.m.acc().liw.wrapping_add(a.n as i64)
            &&& added ==> o.m.acc().lrw == b.m.acc().lrw.wrapping_add(b.n as i64)
            &&& !added ==> o.m.acc().liw == b.m.acc().liw.wrapping_sub(a.n as i64)
            &&& !added ==> o.m.acc().lrw == b.m.acc().lrw.wrapping_sub(b.n as i64)
            &&& put_acc(o.m, b.m.acc()) == b.m
        }),
{
    reveal(account_table);
    reveal(put_acc);
}

/// The weights that bound a first step are those of the weight function at the
/// last solution, in the scratch vector. A built-in one that fails leaves its
/// denominators there.
pub proof fn law_bounding_weights<E: ArkEnv>(m: MemView, e: E)
    ensures
        ({
            let r = call_efun(m, e, m.yn(), m.tempv1());
            let o = bound_weights(m, e);
            let own = m.tol().efun == Some(EwtFn::SetSS) || m.tol().efun == Some(EwtFn::SetSV)
                || m.tol().efun == Some(EwtFn::SetSmallReal);
            &&& o.e == r.e
            &&& o.flag == r.flag
            &&& r.flag == 0 || !own ==> o.m.tempv1() == r.w && put_tempv1(o.m, r.m.tempv1()) == r.m
            &&& r.flag != 0 && own ==> o.m == r.m
        }),
{
    reveal(bound_weights);
    reveal(put_tempv1);
}

/// A new multirate integrator needs a slow right-hand side, an integrator to
/// start from, its stepper, an initial state, and a fast integrator that can
/// evolve; the first that is missing ends it, and what was made is released.
pub proof fn law_multirate_created<E: ArkEnv>(
    e: E,
    fse: Option<FnId>,
    fsi: Option<FnId>,
    t0: sunrealtype,
    y0: NVec,
    s: InnerView,
)
    requires
        fse is Some || fsi is Some,
        s.ops().evolve is Some,
    ensures
        ({
            let c = create(e);
            let o = mri_create(e, fse, fsi, t0, y0, s);
            &&& c.m is None ==> o.m is None && o.e == c.e
            &&& c.m is Some ==> {
                let a = prepare_stepper(c.m->Some_0, c.e, fse, fsi, y0);
                let b = init(a.m, a.e, t0, y0, FIRST_INIT);
                &&& a.flag != ARK_SUCCESS ==> o.m is None && o.e == free_all(a.m, a.e).e
                &&& a.flag == ARK_SUCCESS && b.flag != ARK_SUCCESS ==> o.m is None && o.e
                    == free_all(b.m, b.e).e
                &&& a.flag == ARK_SUCCESS && b.flag == ARK_SUCCESS ==> {
                    &&& o.e == b.e
                    &&& o.m is Some
                    &&& b.m.step_mem() is Some ==> mri(o.m->Some_0).stepper() == Some(s)
                    &&& o.m->Some_0.stp() == b.m.stp()
                    &&& o.m->Some_0.yn() == b.m.yn()
                }
            }
        }),
{
    reveal(mri_create);
    reveal(mput_stepper);
    reveal(with_mri);
    reveal(mri);
}

/// The stepper of a new integrator: its defaults are set once it is attached,
/// then the problem, a nonlinear solver where one is needed, and what it starts
/// with.
pub proof fn law_stepper_prepared<E: ArkEnv>(
    m: MemView,
    e: E,
    fse: Option<FnId>,
    fsi: Option<FnId>,
    y0: NVec,
)
    ensures
        ({
            let d = module_run(attach_stepper(m), e, ModuleCall::StepSetDefaults);
            let n = need_newton(set_problem(d.m, fse, fsi), d.e, y0);
            let o = prepare_stepper(m, e, fse, fsi, y0);
            &&& d.flag != ARK_SUCCESS ==> o == d
            &&& d.flag == ARK_SUCCESS && n.flag != ARK_SUCCESS ==> o == n
            &&& d.flag == ARK_SUCCESS && n.flag == ARK_SUCCESS ==> o.flag == ARK_SUCCESS && o.e
                == n.e && o.m == start_fast(start_solvers(n.m))
        }),
{
    reveal(prepare_stepper);
}

/// A Newton solver is made where the problem is implicit and none is attached;
/// it is for vectors like the state, and the stepper owns it.
pub proof fn law_newton_made<E: ArkEnv>(m: MemView, e: E, y0: NVec)
    requires
        m.step_mem() is Some,
    ensures
        ({
            let needed = mri(m).prb().implicit_rhs && !mri(m).nls().attached;
            let a = module_vec(m, e, ModuleCall::NewtonCreate, y0);
            let b = module_run(a.m, a.e, ModuleCall::SetNonlinearSolver);
            let o = need_newton(m, e, y0);
            &&& !needed ==> o.m == m && o.e == e && o.flag == ARK_SUCCESS
            &&& needed && a.flag != ARK_SUCCESS ==> o.flag == ARK_MEM_FAIL && o.m == a.m && o.e
                == a.e
            &&& needed && a.flag == ARK_SUCCESS && b.flag != ARK_SUCCESS ==> o.flag == ARK_MEM_FAIL
                && o.m == b.m && o.e == b.e
            &&& needed && a.flag == ARK_SUCCESS && b.flag == ARK_SUCCESS ==> {
                &&& o.flag == ARK_SUCCESS
                &&& o.e == b.e
                &&& b.m.step_mem() is Some ==> mri(o.m).nls().ownNLS
                &&& b.m.step_mem() is Some ==> mput_nls(o.m, mri(b.m).nls()) == b.m
            }
        }),
{
    reveal(need_newton);
    reveal(attach_newton);
    reveal(mput_nls);
    reveal(with_mri);
    reveal(mri);
}

/// A companion module is handed the call, the memory and what goes with it, and
/// what it leaves of them is what comes back.
pub proof fn law_module_calls<E: ArkEnv>(
    m: MemView,
    e: E,
    c: ModuleCall,
    v: NVec,
    x: sunrealtype,
    n: i32,
)
    ensures
        ({
            let r = e.module_reply(c, m, v_null(), ZERO(), 0);
            let a = module_run(m, e, c);
            let b = module_count(m, e, c);
            &&& a.m == r.mem && a.e == r.env && a.flag == r.flag
            &&& b.m == r.mem && b.e == r.env && b.flag == r.flag && b.n == r.n
        }),
        ({
            let r = e.module_reply(c, m, v, ZERO(), 0);
            let a = module_vec(m, e, c, v);
            a.m == r.mem && a.e == r.env && a.v == r.out && a.flag == r.flag
        }),
        ({
            let r = e.module_reply(c, m, v_null(), x, n);
            let a = module_numbers(m, e, c, x, n);
            a.m == r.mem && a.e == r.env && a.x == r.x && a.n == r.n && a.flag == r.flag
        }),
{
    reveal(module_run);
    reveal(module_count);
    reveal(module_vec);
    reveal(module_numbers);
}

} // verus!
