//! Laws of the release of an integrator.
use crate::arkode_codes::ARK_SUCCESS;
use crate::arkode_core::{free_adapt, free_all, free_handle, free_modules};
use crate::arkode_impl::{FnId, HAdaptMem, MemView};
use crate::arkode_mem::{
    mput_Ae_row, mput_Ai_row, mput_Fse, mput_Fsi, mput_MRIC, mput_mth, mput_nls, mput_sdata,
    mput_stage_map, mput_stagetypes, mput_zcor, mput_zpred, mri, put_VRabstol, put_Vabstol, put_acc,
    put_att, put_constraints, put_ewt, put_fn_, put_hadapt, put_root, put_rwt, put_step_mem,
    put_tempv1, put_tempv2, put_tempv3, put_tempv4, put_tempv5, put_yn, with_mri,
};
use crate::arkode_vectors::{free_from, free_vec, slot, with_slot, ALL_SLOTS};
use crate::env::{ArkEnv, ModuleCall};
use crate::mristep_init::{free_fused, free_solvers, free_table, mri_free};
use crate::mristep_ops::with_lmem;
use crate::mristep_storage::{
    credit, drop_all_stages, drop_derived, drop_fse, drop_fsi, drop_solver_vectors, shift_words,
};
use crate::mristep_table::account_table;
use crate::nvector::v_null;
use crate::outcome::{lemma_unseen_memory, module_count, module_run, Run};
use crate::sundials_types::ZERO;
use vstd::prelude::*;

verus! {

/// The step controller that an integrator owns.
pub open spec fn owned_controller(m: MemView) -> Option<u64> {
    match m.hadapt() {
        None => None,
        Some(a) => if a.owncontroller {
            a.hcontroller
        } else {
            None
        },
    }
}

/// Whether two memories agree on step adaptivity, attached modules and time
/// stepper.
pub open spec fn same_parts(a: MemView, b: MemView) -> bool {
    &&& a.hadapt() == b.hadapt()
    &&& a.att() == b.att()
    &&& a.step_mem() == b.step_mem()
}

/// Whether a call of a companion module never touches step adaptivity,
/// attached modules and time stepper.
pub open spec fn keeps_parts<E: ArkEnv>(c: ModuleCall) -> bool {
    forall|m: MemView, e: E| same_parts((#[trigger] module_run(m, e, c)).m, m)
}

/// Whether a call of a companion module never touches the step adaptivity.
pub open spec fn keeps_adapt<E: ArkEnv>(c: ModuleCall) -> bool {
    forall|m: MemView, e: E| (#[trigger] module_run(m, e, c)).m.hadapt() == m.hadapt()
}

/// The call that releases the linear solver.
pub open spec fn linear_free(f: FnId) -> ModuleCall {
    ModuleCall::LinearFree { f }
}

/// Releasing the step adaptivity destroys the step controller where the
/// integrator owns it, and makes no call where it does not; nothing else in
/// the memory changes.
pub proof fn law_free_controller<E: ArkEnv>(m: MemView, e: E)
    ensures
        free_adapt(m, e).m.hadapt() is None,
        m.hadapt() is Some ==> free_adapt(m, e).m == put_hadapt(m, None),
        m.hadapt() is None ==> free_adapt(m, e).m == m,
        owned_controller(m) is None ==> free_adapt(m, e).e == e,
        owned_controller(m) matches Some(id) ==> exists|m1: MemView|
            free_adapt(m, e).e == (#[trigger] module_run(
                m1,
                e,
                ModuleCall::ControllerDestroy { id },
            )).e,
{
    reveal(free_adapt);
    reveal(put_hadapt);
    if let Some(id) = owned_controller(m) {
        lemma_unseen_memory::<E>(ModuleCall::ControllerDestroy { id });
        let a = m.hadapt()->Some_0;
        let m1 = put_hadapt(m, Some(HAdaptMem { hcontroller: None, ..a }));
        assert(free_adapt(m, e).e == module_run(m1, e, ModuleCall::ControllerDestroy { id }).e);
    }
}

proof fn lemma_free_from(m: MemView, i: u32)
    ensures
        same_parts(free_from(m, i), m),
        free_from(m, i).root() == m.root(),
    decreases ALL_SLOTS - i,
{
    if i < ALL_SLOTS {
        lemma_free_from(m, (i + 1) as u32);
        let o = free_vec(m, slot(m, i));
        let m1 = with_slot(o.0, i, o.1);
        assert(same_parts(m1, m) && m1.root() == m.root()) by {
            reveal(free_vec);
            reveal(put_acc);
            reveal(with_slot);
            reveal(put_Vabstol);
            reveal(put_VRabstol);
            reveal(put_ewt);
            reveal(put_rwt);
            reveal(put_yn);
            reveal(put_fn_);
            reveal(put_tempv1);
            reveal(put_tempv2);
            reveal(put_tempv3);
            reveal(put_tempv4);
            reveal(put_tempv5);
            reveal(put_constraints);
        }
        lemma_free_from(m1, (i + 1) as u32);
    }
}

proof fn lemma_free_table<E: ArkEnv>(m: MemView, e: E)
    ensures
        ({
            let r = free_table(m, e).m;
            &&& r.hadapt() == m.hadapt()
            &&& r.att() == m.att()
            &&& r.root() == m.root()
            &&& mri(r).nls() == mri(m).nls()
        }),
{
    reveal(free_table);
    if mri(m).MRIC() is Some {
        let a = account_table(m, e, false);
        assert(a.m.hadapt() == m.hadapt() && a.m.att() == m.att() && a.m.root() == m.root()
            && a.m.step_mem() == m.step_mem()) by {
            reveal(account_table);
            reveal(module_count);
            reveal(put_acc);
            let c1 = ModuleCall::TableWords { reals: false };
            let c2 = ModuleCall::TableWords { reals: true };
            e.module_frame(c1, m, v_null(), ZERO(), 0);
            let b = module_count(m, e, c1);
            b.e.module_frame(c2, b.m, v_null(), ZERO(), 0);
        }
        reveal(drop_derived);
        reveal(shift_words);
        reveal(put_acc);
        reveal(mput_MRIC);
        reveal(mput_stagetypes);
        reveal(mput_stage_map);
        reveal(mput_Ae_row);
        reveal(mput_Ai_row);
        reveal(with_mri);
        reveal(mri);
    }
}

proof fn lemma_free_solvers<E: ArkEnv>(m: MemView, e: E)
    requires
        mri(m).nls().lfree is Some ==> forall|f: FnId| keeps_adapt::<E>(#[trigger] linear_free(f)),
    ensures
        ({
            let r = free_solvers(m, e).m;
            &&& r.hadapt() == m.hadapt()
            &&& mri(m).nls().lfree is None ==> r.att() == m.att() && r.root() == m.root()
        }),
{
    reveal(free_solvers);
    lemma_unseen_memory::<E>(ModuleCall::NonlinSolFree);
    if mri(m).nls().lfree is Some {
        assert forall|f: FnId, x: MemView, y: E|
            (#[trigger] module_run(x, y, ModuleCall::LinearFree { f })).m.hadapt() == x.hadapt() by {
            assert(keeps_adapt::<E>(linear_free(f)));
            assert(module_run(x, y, linear_free(f)).m.hadapt() == x.hadapt());
        }
    }
    reveal(mput_nls);
    reveal(with_mri);
    reveal(mri);
    reveal(with_lmem);
    reveal(put_att);
}

proof fn lemma_mri_free<E: ArkEnv>(m: MemView, e: E)
    requires
        mri(m).nls().lfree is Some ==> forall|f: FnId| keeps_adapt::<E>(#[trigger] linear_free(f)),
    ensures
        mri_free(m, e).m.hadapt() == m.hadapt(),
        mri_free(m, e).m.step_mem() is None,
        mri(m).nls().lfree is None ==> mri_free(m, e).m.att() == m.att() && mri_free(m, e).m.root()
            == m.root(),
{
    reveal(mri_free);
    if m.step_mem() is Some {
        let a = free_table(m, e);
        lemma_free_table(m, e);
        let b = free_solvers(a.m, a.e);
        lemma_free_solvers(a.m, a.e);
        reveal(drop_solver_vectors);
        reveal(drop_all_stages);
        reveal(drop_fse);
        reveal(drop_fsi);
        reveal(credit);
        reveal(free_vec);
        reveal(free_fused);
        reveal(put_acc);
        reveal(put_step_mem);
        reveal(mput_Fse);
        reveal(mput_Fsi);
        reveal(mput_sdata);
        reveal(mput_zpred);
        reveal(mput_zcor);
        reveal(mput_mth);
        reveal(with_mri);
    }
}

/// Whether the release of an integrator releases a linear solver.
pub open spec fn frees_linear_solver(m: MemView) -> bool {
    m.ops().free && mri(m).nls().lfree is Some
}

/// The time stepper released, where it offers that.
pub open spec fn stepper_freed<E: ArkEnv>(m: MemView, e: E) -> Run<E> {
    if m.ops().free {
        mri_free(m, e)
    } else {
        Run { m, e, flag: ARK_SUCCESS }
    }
}

/// Releasing an integrator releases its time stepper once, and leaves neither
/// step adaptivity, nor interpolation, nor root finding, nor relaxation
/// behind. A step controller that the integrator does not own is not
/// destroyed: between the time stepper and the companion modules no call is
/// made.
///
/// A linear solver, interpolation and root finding are handed the memory on
/// their release, where they are there. The law is for those that leave alone
/// what is not theirs; without any of them it holds as it is.
pub proof fn law_free<E: ArkEnv>(m: MemView, e: E)
    requires
        frees_linear_solver(m) ==> forall|f: FnId| keeps_adapt::<E>(#[trigger] linear_free(f)),
        m.att().interp || frees_linear_solver(m) ==> keeps_parts::<E>(ModuleCall::InterpFree),
        m.root() is Some || m.att().interp || frees_linear_solver(m) ==> keeps_parts::<E>(
            ModuleCall::RootFree,
        ),
    ensures
        ({
            let r = free_all(m, e).m;
            &&& r.hadapt() is None
            &&& !r.att().interp
            &&& r.root() is None
            &&& !r.att().relax_mem
            &&& m.ops().free ==> r.step_mem() is None
        }),
        ({
            let a = stepper_freed(m, e);
            let v = free_from(a.m, 0);
            owned_controller(m) is None ==> free_all(m, e) == free_modules(
                put_hadapt(v, None),
                a.e,
            )
        }),
{
    reveal(free_all);
    let a = stepper_freed(m, e);
    if m.ops().free {
        lemma_mri_free(m, e);
    }
    lemma_free_from(a.m, 0);
    let v = free_from(a.m, 0);
    let b = free_adapt(v, a.e);
    law_free_controller(v, a.e);
    assert(v.hadapt() is None ==> put_hadapt(v, None) == v) by {
        reveal(put_hadapt);
    }
    assert(b.m.step_mem() == v.step_mem() && b.m.att() == v.att() && b.m.root() == v.root()) by {
        reveal(put_hadapt);
    }
    reveal(free_modules);
    reveal(put_att);
    reveal(put_root);
    lemma_unseen_memory::<E>(ModuleCall::RelaxFree);
}

/// Releasing what was released does nothing more.
pub proof fn law_free_twice<E: ArkEnv>(m: Option<MemView>, e: E)
    ensures
        free_handle(None, free_handle(m, e)) == free_handle(m, e),
{
}

} // verus!
