//! Storage of the MRI stepper: stage vectors, solver vectors, derived arrays.
use crate::arkode_codes::{ARK_MEM_FAIL, ARK_SUCCESS};
use crate::arkode_impl::{ARKodeMemRec, ArkAccounts, FnId, MemView, MriMethod, MriProblem};
use crate::arkode_mem::{
    mput_Ae_row, mput_Ai_row, mput_Fse, mput_Fsi, mput_mth, mput_sdata, mput_stage_map,
    mput_stagetypes, mput_zcor, mput_zpred, mri, put_acc,
};
use crate::arkode_vectors::{
    account, alloc_vec, arkAllocVec, arkAllocVecArray, arkFreeVec, arkFreeVecArray, arkResizeVec,
    arkResizeVecArray, clones, free_vec, resize_array, resize_vec, unaccount,
};
use crate::binary64::sunrealtype;
use crate::coupling::count;
use crate::env::ArkEnv;
use crate::nvector::{no_vectors, nvecs, NVec, N_Vector};
use crate::outcome::Run;
use crate::sundials_types::ZERO;
use vstd::prelude::*;

verus! {

/// The accounts of a release of `n` vectors of an array that is there.
#[verifier::opaque]
pub open spec fn credit(m: MemView, n: i32, there: bool) -> MemView {
    let a = m.acc();
    if there {
        put_acc(
            m,
            ArkAccounts { lrw: unaccount(a.lrw, n, a.lrw1), liw: unaccount(a.liw, n, a.liw1), ..a },
        )
    } else {
        put_acc(m, a)
    }
}

/// The accounts of `n` new vectors.
#[verifier::opaque]
pub open spec fn debit(m: MemView, n: i32, fresh: bool) -> MemView {
    let a = m.acc();
    if fresh {
        put_acc(
            m,
            ArkAccounts { lrw: account(a.lrw, n, a.lrw1), liw: account(a.liw, n, a.liw1), ..a },
        )
    } else {
        put_acc(m, a)
    }
}

/// The explicit stage vectors released.
#[verifier::opaque]
pub open spec fn drop_fse(m: MemView, n: i32) -> MemView {
    mput_Fse(credit(m, n, mri(m).Fse().len() > 0), Seq::empty())
}

fn mriStep_DropFse(ark_mem: &mut ARKodeMemRec, n: i32)
    ensures
        final(ark_mem)@ == drop_fse(old(ark_mem)@, n),
{
    reveal(drop_fse);
    reveal(credit);
    let mut v: Vec<N_Vector> = ark_mem.get_Fse();
    let a: ArkAccounts = ark_mem.get_acc();
    let mut lrw: i64 = a.lrw;
    let mut liw: i64 = a.liw;
    arkFreeVecArray(n, &mut v, a.lrw1, &mut lrw, a.liw1, &mut liw);
    ark_mem.set_acc(ArkAccounts { lrw, liw, ..a });
    ark_mem.set_Fse(v);
}

/// The implicit stage vectors released.
#[verifier::opaque]
pub open spec fn drop_fsi(m: MemView, n: i32) -> MemView {
    mput_Fsi(credit(m, n, mri(m).Fsi().len() > 0), Seq::empty())
}

fn mriStep_DropFsi(ark_mem: &mut ARKodeMemRec, n: i32)
    ensures
        final(ark_mem)@ == drop_fsi(old(ark_mem)@, n),
{
    reveal(drop_fsi);
    reveal(credit);
    let mut v: Vec<N_Vector> = ark_mem.get_Fsi();
    let a: ArkAccounts = ark_mem.get_acc();
    let mut lrw: i64 = a.lrw;
    let mut liw: i64 = a.liw;
    arkFreeVecArray(n, &mut v, a.lrw1, &mut lrw, a.liw1, &mut liw);
    ark_mem.set_acc(ArkAccounts { lrw, liw, ..a });
    ark_mem.set_Fsi(v);
}

/// Room for the explicit stage vectors; a failure for none.
#[verifier::opaque]
pub open spec fn make_fse(m: MemView, n: i32, tmpl: NVec) -> (MemView, bool) {
    let old_v = mri(m).Fse();
    (
        mput_Fse(
            debit(m, n, old_v.len() == 0 && n > 0),
            if old_v.len() > 0 {
                old_v
            } else {
                clones(n, tmpl)
            },
        ),
        old_v.len() > 0 || n > 0,
    )
}

fn mriStep_MakeFse(ark_mem: &mut ARKodeMemRec, n: i32, tmpl: &N_Vector) -> (ok: bool)
    ensures
        final(ark_mem)@ == make_fse(old(ark_mem)@, n, tmpl@).0,
        ok == make_fse(old(ark_mem)@, n, tmpl@).1,
{
    reveal(make_fse);
    reveal(debit);
    let mut v: Vec<N_Vector> = ark_mem.get_Fse();
    let a: ArkAccounts = ark_mem.get_acc();
    let mut lrw: i64 = a.lrw;
    let mut liw: i64 = a.liw;
    let ok: bool = arkAllocVecArray(n, tmpl, &mut v, a.lrw1, &mut lrw, a.liw1, &mut liw);
    ark_mem.set_acc(ArkAccounts { lrw, liw, ..a });
    ark_mem.set_Fse(v);
    ok
}

/// Room for the implicit stage vectors; a failure for none.
#[verifier::opaque]
pub open spec fn make_fsi(m: MemView, n: i32, tmpl: NVec) -> (MemView, bool) {
    let old_v = mri(m).Fsi();
    (
        mput_Fsi(
            debit(m, n, old_v.len() == 0 && n > 0),
            if old_v.len() > 0 {
                old_v
            } else {
                clones(n, tmpl)
            },
        ),
        old_v.len() > 0 || n > 0,
    )
}

fn mriStep_MakeFsi(ark_mem: &mut ARKodeMemRec, n: i32, tmpl: &N_Vector) -> (ok: bool)
    ensures
        final(ark_mem)@ == make_fsi(old(ark_mem)@, n, tmpl@).0,
        ok == make_fsi(old(ark_mem)@, n, tmpl@).1,
{
    reveal(make_fsi);
    reveal(debit);
    let mut v: Vec<N_Vector> = ark_mem.get_Fsi();
    let a: ArkAccounts = ark_mem.get_acc();
    let mut lrw: i64 = a.lrw;
    let mut liw: i64 = a.liw;
    let ok: bool = arkAllocVecArray(n, tmpl, &mut v, a.lrw1, &mut lrw, a.liw1, &mut liw);
    ark_mem.set_acc(ArkAccounts { lrw, liw, ..a });
    ark_mem.set_Fsi(v);
    ok
}

/// The stage vectors of an earlier table released.
#[verifier::opaque]
pub open spec fn drop_stages(m: MemView) -> MemView {
    let h = mri(m).mth();
    let p = mri(m).prb();
    let m1 = if p.explicit_rhs {
        let a = drop_fse(m, h.nstages_allocated);
        if h.unify_Fs {
            mput_Fsi(a, Seq::empty())
        } else {
            a
        }
    } else {
        m
    };
    if p.implicit_rhs {
        let a = drop_fsi(m1, h.nstages_allocated);
        if h.unify_Fs {
            mput_Fse(a, Seq::empty())
        } else {
            a
        }
    } else {
        m1
    }
}

fn mriStep_DropStages(ark_mem: &mut ARKodeMemRec)
    ensures
        final(ark_mem)@ == drop_stages(old(ark_mem)@),
{
    reveal(drop_stages);
    let h: MriMethod = ark_mem.get_mri_mth();
    let p: MriProblem = ark_mem.get_mri_prb();
    if p.explicit_rhs {
        mriStep_DropFse(ark_mem, h.nstages_allocated);
        if h.unify_Fs {
            ark_mem.set_Fsi(no_vectors());
        }
    }
    if p.implicit_rhs {
        mriStep_DropFsi(ark_mem, h.nstages_allocated);
        if h.unify_Fs {
            ark_mem.set_Fse(no_vectors());
        }
    }
}

/// Room for the stage vectors of the current table: one array for both kinds
/// where they share their storage.
#[verifier::opaque]
pub open spec fn make_stages(m: MemView) -> (MemView, i32) {
    let h = mri(m).mth();
    let p = mri(m).prb();
    let n = h.nstages_active;
    if h.unify_Fs {
        let a = make_fse(m, n, m.ewt());
        if a.1 {
            (mput_Fsi(a.0, mri(a.0).Fse()), ARK_SUCCESS)
        } else {
            (a.0, ARK_MEM_FAIL)
        }
    } else {
        let a = if p.explicit_rhs {
            make_fse(m, n, m.ewt())
        } else {
            (m, true)
        };
        let b = if p.implicit_rhs {
            make_fsi(a.0, n, m.ewt())
        } else {
            (a.0, true)
        };
        if !a.1 {
            (a.0, ARK_MEM_FAIL)
        } else if !b.1 {
            (b.0, ARK_MEM_FAIL)
        } else {
            (b.0, ARK_SUCCESS)
        }
    }
}

fn mriStep_MakeStages(ark_mem: &mut ARKodeMemRec) -> (flag: i32)
    ensures
        final(ark_mem)@ == make_stages(old(ark_mem)@).0,
        flag == make_stages(old(ark_mem)@).1,
{
    reveal(make_stages);
    let h: MriMethod = ark_mem.get_mri_mth();
    let p: MriProblem = ark_mem.get_mri_prb();
    let n: i32 = h.nstages_active;
    let tmpl: N_Vector = ark_mem.get_ewt();
    if h.unify_Fs {
        if !mriStep_MakeFse(ark_mem, n, &tmpl) {
            return ARK_MEM_FAIL;
        }
        let v: Vec<N_Vector> = ark_mem.get_Fse();
        ark_mem.set_Fsi(v);
        return ARK_SUCCESS;
    }
    if p.explicit_rhs {
        if !mriStep_MakeFse(ark_mem, n, &tmpl) {
            return ARK_MEM_FAIL;
        }
    }
    if p.implicit_rhs {
        if !mriStep_MakeFsi(ark_mem, n, &tmpl) {
            return ARK_MEM_FAIL;
        }
    }
    ARK_SUCCESS
}

/// The memory with the number of stage vectors that there is room for.
#[verifier::opaque]
pub open spec fn with_allocated(m: MemView, n: i32) -> MemView {
    mput_mth(m, MriMethod { nstages_allocated: n, ..mri(m).mth() })
}

fn mriStep_SetAllocated(ark_mem: &mut ARKodeMemRec, n: i32)
    ensures
        final(ark_mem)@ == with_allocated(old(ark_mem)@, n),
{
    reveal(with_allocated);
    let h: MriMethod = ark_mem.get_mri_mth();
    ark_mem.set_mri_mth(MriMethod { nstages_allocated: n, ..h });
}

/// The stage vectors fitted to the table; they never shrink.
#[verifier::opaque]
pub open spec fn fit_stages(m: MemView) -> (MemView, i32) {
    let h = mri(m).mth();
    let m1 = if h.nstages_allocated != 0 {
        drop_stages(m)
    } else {
        m
    };
    let a = make_stages(m1);
    if h.nstages_allocated >= h.nstages_active {
        (m, ARK_SUCCESS)
    } else if a.1 != ARK_SUCCESS {
        a
    } else {
        (with_allocated(a.0, h.nstages_active), ARK_SUCCESS)
    }
}

/// Fits the stage vectors to the table.
pub fn mriStep_FitStages(ark_mem: &mut ARKodeMemRec) -> (flag: i32)
    ensures
        final(ark_mem)@ == fit_stages(old(ark_mem)@).0,
        flag == fit_stages(old(ark_mem)@).1,
{
    reveal(fit_stages);
    let h: MriMethod = ark_mem.get_mri_mth();
    if h.nstages_allocated >= h.nstages_active {
        return ARK_SUCCESS;
    }
    if h.nstages_allocated != 0 {
        mriStep_DropStages(ark_mem);
    }
    let retval: i32 = mriStep_MakeStages(ark_mem);
    if retval != ARK_SUCCESS {
        return retval;
    }
    mriStep_SetAllocated(ark_mem, h.nstages_active);
    ARK_SUCCESS
}

/// Room for the vectors of the nonlinear solver.
#[verifier::opaque]
pub open spec fn make_solver_vectors(m: MemView) -> (MemView, i32) {
    let w = m.ewt();
    let a = alloc_vec(m, w, mri(m).sdata());
    let ma = mput_sdata(a.0, a.1);
    let b = alloc_vec(ma, w, mri(ma).zpred());
    let mb = mput_zpred(b.0, b.1);
    let c = alloc_vec(mb, w, mri(mb).zcor());
    let mc = mput_zcor(c.0, c.1);
    if !a.2 {
        (ma, ARK_MEM_FAIL)
    } else if !b.2 {
        (mb, ARK_MEM_FAIL)
    } else if !c.2 {
        (mc, ARK_MEM_FAIL)
    } else {
        (mc, ARK_SUCCESS)
    }
}

/// Makes room for the vectors of the nonlinear solver.
pub fn mriStep_MakeSolverVectors(ark_mem: &mut ARKodeMemRec) -> (flag: i32)
    ensures
        final(ark_mem)@ == make_solver_vectors(old(ark_mem)@).0,
        flag == make_solver_vectors(old(ark_mem)@).1,
{
    reveal(make_solver_vectors);
    let w: N_Vector = ark_mem.get_ewt();
    let mut v: N_Vector = ark_mem.get_sdata();
    let ok: bool = arkAllocVec(ark_mem, &w, &mut v);
    ark_mem.set_sdata(v);
    if !ok {
        return ARK_MEM_FAIL;
    }
    let mut v: N_Vector = ark_mem.get_zpred();
    let ok: bool = arkAllocVec(ark_mem, &w, &mut v);
    ark_mem.set_zpred(v);
    if !ok {
        return ARK_MEM_FAIL;
    }
    let mut v: N_Vector = ark_mem.get_zcor();
    let ok: bool = arkAllocVec(ark_mem, &w, &mut v);
    ark_mem.set_zcor(v);
    if !ok {
        return ARK_MEM_FAIL;
    }
    ARK_SUCCESS
}

/// The vectors of the nonlinear solver released.
#[verifier::opaque]
pub open spec fn drop_solver_vectors(m: MemView) -> MemView {
    let a = free_vec(m, mri(m).sdata());
    let ma = mput_sdata(a.0, a.1);
    let b = free_vec(ma, mri(ma).zpred());
    let mb = mput_zpred(b.0, b.1);
    let c = free_vec(mb, mri(mb).zcor());
    mput_zcor(c.0, c.1)
}

/// Releases the vectors of the nonlinear solver.
pub fn mriStep_DropSolverVectors(ark_mem: &mut ARKodeMemRec)
    ensures
        final(ark_mem)@ == drop_solver_vectors(old(ark_mem)@),
{
    reveal(drop_solver_vectors);
    let mut v: N_Vector = ark_mem.get_sdata();
    arkFreeVec(ark_mem, &mut v);
    ark_mem.set_sdata(v);
    let mut v: N_Vector = ark_mem.get_zpred();
    arkFreeVec(ark_mem, &mut v);
    ark_mem.set_zpred(v);
    let mut v: N_Vector = ark_mem.get_zcor();
    arkFreeVec(ark_mem, &mut v);
    ark_mem.set_zcor(v);
}

/// All stage vectors released.
#[verifier::opaque]
pub open spec fn drop_all_stages(m: MemView) -> MemView {
    let h = mri(m).mth();
    let m1 = if mri(m).Fse().len() > 0 {
        let a = drop_fse(m, h.nstages_allocated);
        if mri(a).mth().unify_Fs {
            mput_Fsi(a, Seq::empty())
        } else {
            a
        }
    } else {
        m
    };
    if mri(m1).Fsi().len() > 0 {
        drop_fsi(m1, h.nstages_allocated)
    } else {
        m1
    }
}

/// Releases all stage vectors.
pub fn mriStep_DropAllStages(ark_mem: &mut ARKodeMemRec)
    ensures
        final(ark_mem)@ == drop_all_stages(old(ark_mem)@),
{
    reveal(drop_all_stages);
    let h: MriMethod = ark_mem.get_mri_mth();
    let fse: Vec<N_Vector> = ark_mem.get_Fse();
    assert(nvecs(fse@).len() == fse@.len());
    if fse.len() > 0 {
        mriStep_DropFse(ark_mem, h.nstages_allocated);
        if ark_mem.get_mri_mth().unify_Fs {
            ark_mem.set_Fsi(no_vectors());
        }
    }
    let fsi: Vec<N_Vector> = ark_mem.get_Fsi();
    assert(nvecs(fsi@).len() == fsi@.len());
    if fsi.len() > 0 {
        mriStep_DropFsi(ark_mem, h.nstages_allocated);
    }
}

/// `n` zeros.
#[verifier::opaque]
pub open spec fn zeros(n: i32) -> Seq<sunrealtype> {
    Seq::new(count(n), |i: int| ZERO())
}

fn zero_row(n: i32) -> (r: Vec<sunrealtype>)
    ensures
        r@ == zeros(n),
{
    let mut v: Vec<sunrealtype> = Vec::new();
    let mut i: i32 = 0;
    while i < n
        invariant
            0 <= i <= count(n),
            v@.len() == i,
            forall|j: int| 0 <= j < i ==> #[trigger] v@[j] == ZERO(),
        decreases n - i,
    {
        v.push(ZERO());
        i = i + 1;
    }
    proof {
        reveal(zeros);
        assert(v@ =~= zeros(n));
    }
    v
}

/// `n` indices, all zero.
#[verifier::opaque]
pub open spec fn zero_indices(n: int) -> Seq<i32> {
    Seq::new(
        if n > 0 {
            n as nat
        } else {
            0
        },
        |i: int| 0i32,
    )
}

fn zero_index_list(n: i64) -> (r: Vec<i32>)
    ensures
        r@ == zero_indices(n as int),
{
    let mut v: Vec<i32> = Vec::new();
    let mut i: i64 = 0;
    while i < n
        invariant
            0 <= i,
            i <= n || i == 0,
            v@.len() == i,
            forall|j: int| 0 <= j < i ==> #[trigger] v@[j] == 0i32,
        decreases n - i,
    {
        v.push(0);
        i = i + 1;
    }
    proof {
        reveal(zero_indices);
        assert(v@ =~= zero_indices(n as int));
    }
    v
}

/// The accounts with integer and real words changed.
#[verifier::opaque]
pub open spec fn shift_words(m: MemView, liw: i64, lrw: i64) -> MemView {
    let a = m.acc();
    put_acc(m, ArkAccounts { liw: a.liw.wrapping_add(liw), lrw: a.lrw.wrapping_add(lrw), ..a })
}

/// Changes the accounts of integer and real words.
pub fn ark_shift_words(ark_mem: &mut ARKodeMemRec, liw: i64, lrw: i64)
    ensures
        final(ark_mem)@ == shift_words(old(ark_mem)@, liw, lrw),
{
    reveal(shift_words);
    let a: ArkAccounts = ark_mem.get_acc();
    ark_mem.set_acc(
        ArkAccounts { liw: a.liw.wrapping_add(liw), lrw: a.lrw.wrapping_add(lrw), ..a },
    );
}

/// A new stage map of `n` entries.
#[verifier::opaque]
pub open spec fn new_stage_map(m: MemView, n: i32) -> MemView {
    let m1 = if mri(m).stage_map().len() > 0 {
        shift_words(m, (0 - n) as i64, 0)
    } else {
        m
    };
    shift_words(mput_stage_map(m1, zero_indices(n as int)), n as i64, 0)
}

/// Makes a new stage map.
pub fn mriStep_NewStageMap(ark_mem: &mut ARKodeMemRec, n: i32)
    ensures
        final(ark_mem)@ == new_stage_map(old(ark_mem)@, n),
{
    reveal(new_stage_map);
    if ark_mem.get_stage_map().len() > 0 {
        ark_shift_words(ark_mem, 0 - n as i64, 0);
    }
    ark_mem.set_stage_map(zero_index_list(n as i64));
    ark_shift_words(ark_mem, n as i64, 0);
}

/// A new list of stage kinds, one for each of `n` stages and one for the
/// embedding; an old list is credited with one word per stage.
#[verifier::opaque]
pub open spec fn new_stage_kinds(m: MemView, n: i32) -> MemView {
    let m1 = if mri(m).stagetypes().len() > 0 {
        shift_words(m, (0 - n) as i64, 0)
    } else {
        m
    };
    shift_words(mput_stagetypes(m1, zero_indices(n + 1)), (n + 1) as i64, 0)
}

/// Makes a new list of stage kinds.
pub fn mriStep_NewStageKinds(ark_mem: &mut ARKodeMemRec, n: i32)
    ensures
        final(ark_mem)@ == new_stage_kinds(old(ark_mem)@, n),
{
    reveal(new_stage_kinds);
    if ark_mem.get_stagetypes().len() > 0 {
        ark_shift_words(ark_mem, 0 - n as i64, 0);
    }
    ark_mem.set_stagetypes(zero_index_list(n as i64 + 1));
    ark_shift_words(ark_mem, n as i64 + 1, 0);
}

/// New rows of effective coefficients of `n` entries each.
#[verifier::opaque]
pub open spec fn new_rows(m: MemView, n: i32) -> MemView {
    let m1 = if mri(m).Ae_row().len() > 0 {
        shift_words(m, 0, (0 - n) as i64)
    } else {
        m
    };
    let m2 = shift_words(mput_Ae_row(m1, zeros(n)), 0, n as i64);
    let m3 = if mri(m2).Ai_row().len() > 0 {
        shift_words(m2, 0, (0 - n) as i64)
    } else {
        m2
    };
    shift_words(mput_Ai_row(m3, zeros(n)), 0, n as i64)
}

/// Makes new rows of effective coefficients.
pub fn mriStep_NewRows(ark_mem: &mut ARKodeMemRec, n: i32)
    ensures
        final(ark_mem)@ == new_rows(old(ark_mem)@, n),
{
    reveal(new_rows);
    if ark_mem.get_Ae_row().len() > 0 {
        ark_shift_words(ark_mem, 0, 0 - n as i64);
    }
    ark_mem.set_Ae_row(zero_row(n));
    ark_shift_words(ark_mem, 0, n as i64);
    if ark_mem.get_Ai_row().len() > 0 {
        ark_shift_words(ark_mem, 0, 0 - n as i64);
    }
    ark_mem.set_Ai_row(zero_row(n));
    ark_shift_words(ark_mem, 0, n as i64);
}

/// The arrays derived from a table of `n` stages released.
#[verifier::opaque]
pub open spec fn drop_derived(m: MemView, n: i32) -> MemView {
    let m1 = if mri(m).stagetypes().len() > 0 {
        shift_words(mput_stagetypes(m, Seq::empty()), (0 - n - 1) as i64, 0)
    } else {
        m
    };
    let m2 = if mri(m1).stage_map().len() > 0 {
        shift_words(mput_stage_map(m1, Seq::empty()), (0 - n) as i64, 0)
    } else {
        m1
    };
    let m3 = if mri(m2).Ae_row().len() > 0 {
        shift_words(mput_Ae_row(m2, Seq::empty()), 0, (0 - n) as i64)
    } else {
        m2
    };
    if mri(m3).Ai_row().len() > 0 {
        shift_words(mput_Ai_row(m3, Seq::empty()), 0, (0 - n) as i64)
    } else {
        m3
    }
}

/// Releases the arrays derived from a table.
pub fn mriStep_DropDerived(ark_mem: &mut ARKodeMemRec, n: i32)
    ensures
        final(ark_mem)@ == drop_derived(old(ark_mem)@, n),
{
    reveal(drop_derived);
    if ark_mem.get_stagetypes().len() > 0 {
        ark_mem.set_stagetypes(Vec::new());
        ark_shift_words(ark_mem, 0 - n as i64 - 1, 0);
    }
    if ark_mem.get_stage_map().len() > 0 {
        ark_mem.set_stage_map(Vec::new());
        ark_shift_words(ark_mem, 0 - n as i64, 0);
    }
    if ark_mem.get_Ae_row().len() > 0 {
        ark_mem.set_Ae_row(Vec::new());
        ark_shift_words(ark_mem, 0, 0 - n as i64);
    }
    if ark_mem.get_Ai_row().len() > 0 {
        ark_mem.set_Ai_row(Vec::new());
        ark_shift_words(ark_mem, 0, 0 - n as i64);
    }
}

/// The accounts of `n` vectors that changed size.
#[verifier::opaque]
pub open spec fn resize_words(m: MemView, n: i32, lrw_diff: i64, liw_diff: i64, done: bool) -> MemView {
    let a = m.acc();
    if done {
        put_acc(
            m,
            ArkAccounts { lrw: account(a.lrw, n, lrw_diff), liw: account(a.liw, n, liw_diff), ..a },
        )
    } else {
        put_acc(m, a)
    }
}

/// The explicit stage vectors resized.
#[verifier::opaque]
pub open spec fn resize_fse<E: ArkEnv>(
    m: MemView,
    e: E,
    resize: Option<FnId>,
    lrw_diff: i64,
    liw_diff: i64,
    tmpl: NVec,
) -> Run<E> {
    let n = mri(m).mth().nstages_allocated;
    let o = resize_array(e, resize, n, tmpl, mri(m).Fse());
    let m1 = mput_Fse(
        resize_words(m, n, lrw_diff, liw_diff, o.2 && mri(m).Fse().len() > 0),
        o.1,
    );
    if !o.2 {
        Run { m: m1, e: o.0, flag: ARK_MEM_FAIL }
    } else if mri(m1).mth().unify_Fs {
        Run { m: mput_Fsi(m1, mri(m1).Fse()), e: o.0, flag: ARK_SUCCESS }
    } else {
        Run { m: m1, e: o.0, flag: ARK_SUCCESS }
    }
}

fn mriStep_ResizeFse<E: ArkEnv>(
    ark_mem: &mut ARKodeMemRec,
    env: &mut E,
    resize: Option<FnId>,
    lrw_diff: i64,
    liw_diff: i64,
    tmpl: &N_Vector,
) -> (flag: i32)
    ensures
        ({
            let o = resize_fse(old(ark_mem)@, *old(env), resize, lrw_diff, liw_diff, tmpl@);
            &&& final(ark_mem)@ == o.m
            &&& *final(env) == o.e
            &&& flag == o.flag
        }),
{
    reveal(resize_fse);
    reveal(resize_words);
    let n: i32 = ark_mem.get_mri_mth().nstages_allocated;
    let mut v: Vec<N_Vector> = ark_mem.get_Fse();
    let a: ArkAccounts = ark_mem.get_acc();
    let mut lrw: i64 = a.lrw;
    let mut liw: i64 = a.liw;
    let ok: bool = arkResizeVecArray(
        env,
        resize,
        n,
        tmpl,
        &mut v,
        lrw_diff,
        &mut lrw,
        liw_diff,
        &mut liw,
    );
    ark_mem.set_acc(ArkAccounts { lrw, liw, ..a });
    ark_mem.set_Fse(v);
    if !ok {
        return ARK_MEM_FAIL;
    }
    if ark_mem.get_mri_mth().unify_Fs {
        let w: Vec<N_Vector> = ark_mem.get_Fse();
        ark_mem.set_Fsi(w);
    }
    ARK_SUCCESS
}

/// The implicit stage vectors resized.
#[verifier::opaque]
pub open spec fn resize_fsi<E: ArkEnv>(
    m: MemView,
    e: E,
    resize: Option<FnId>,
    n: i32,
    lrw_diff: i64,
    liw_diff: i64,
    tmpl: NVec,
) -> Run<E> {
    let o = resize_array(e, resize, n, tmpl, mri(m).Fsi());
    Run {
        m: mput_Fsi(
            resize_words(m, n, lrw_diff, liw_diff, o.2 && mri(m).Fsi().len() > 0),
            o.1,
        ),
        e: o.0,
        flag: if o.2 {
            ARK_SUCCESS
        } else {
            ARK_MEM_FAIL
        },
    }
}

fn mriStep_ResizeFsi<E: ArkEnv>(
    ark_mem: &mut ARKodeMemRec,
    env: &mut E,
    resize: Option<FnId>,
    n: i32,
    lrw_diff: i64,
    liw_diff: i64,
    tmpl: &N_Vector,
) -> (flag: i32)
    ensures
        ({
            let o = resize_fsi(old(ark_mem)@, *old(env), resize, n, lrw_diff, liw_diff, tmpl@);
            &&& final(ark_mem)@ == o.m
            &&& *final(env) == o.e
            &&& flag == o.flag
        }),
{
    reveal(resize_fsi);
    reveal(resize_words);
    let mut v: Vec<N_Vector> = ark_mem.get_Fsi();
    let a: ArkAccounts = ark_mem.get_acc();
    let mut lrw: i64 = a.lrw;
    let mut liw: i64 = a.liw;
    let ok: bool = arkResizeVecArray(
        env,
        resize,
        n,
        tmpl,
        &mut v,
        lrw_diff,
        &mut lrw,
        liw_diff,
        &mut liw,
    );
    ark_mem.set_acc(ArkAccounts { lrw, liw, ..a });
    ark_mem.set_Fsi(v);
    if ok {
        ARK_SUCCESS
    } else {
        ARK_MEM_FAIL
    }
}

/// All stage vectors resized, those that are shared once.
#[verifier::opaque]
pub open spec fn resize_stages<E: ArkEnv>(
    m: MemView,
    e: E,
    resize: Option<FnId>,
    lrw_diff: i64,
    liw_diff: i64,
    tmpl: NVec,
) -> Run<E> {
    let n = mri(m).mth().nstages_allocated;
    let a = if mri(m).Fse().len() > 0 {
        resize_fse(m, e, resize, lrw_diff, liw_diff, tmpl)
    } else {
        Run { m, e, flag: ARK_SUCCESS }
    };
    if a.flag != ARK_SUCCESS {
        a
    } else if mri(a.m).Fsi().len() > 0 && !mri(a.m).mth().unify_Fs {
        resize_fsi(a.m, a.e, resize, n, lrw_diff, liw_diff, tmpl)
    } else {
        a
    }
}

/// Resizes all stage vectors.
pub fn mriStep_ResizeStages<E: ArkEnv>(
    ark_mem: &mut ARKodeMemRec,
    env: &mut E,
    resize: Option<FnId>,
    lrw_diff: i64,
    liw_diff: i64,
    tmpl: &N_Vector,
) -> (flag: i32)
    ensures
        ({
            let o = resize_stages(old(ark_mem)@, *old(env), resize, lrw_diff, liw_diff, tmpl@);
            &&& final(ark_mem)@ == o.m
            &&& *final(env) == o.e
            &&& flag == o.flag
        }),
{
    reveal(resize_stages);
    let n: i32 = ark_mem.get_mri_mth().nstages_allocated;
    let fse: Vec<N_Vector> = ark_mem.get_Fse();
    assert(nvecs(fse@).len() == fse@.len());
    if fse.len() > 0 {
        let retval: i32 = mriStep_ResizeFse(ark_mem, env, resize, lrw_diff, liw_diff, tmpl);
        if retval != ARK_SUCCESS {
            return retval;
        }
    }
    let fsi: Vec<N_Vector> = ark_mem.get_Fsi();
    assert(nvecs(fsi@).len() == fsi@.len());
    if fsi.len() > 0 && !ark_mem.get_mri_mth().unify_Fs {
        return mriStep_ResizeFsi(ark_mem, env, resize, n, lrw_diff, liw_diff, tmpl);
    }
    ARK_SUCCESS
}

/// The vectors of the nonlinear solver resized.
#[verifier::opaque]
pub open spec fn resize_solver_vectors<E: ArkEnv>(
    m: MemView,
    e: E,
    resize: Option<FnId>,
    lrw_diff: i64,
    liw_diff: i64,
    tmpl: NVec,
) -> Run<E> {
    let a = resize_vec(m, e, resize, lrw_diff, liw_diff, tmpl, mri(m).sdata());
    let ma = mput_sdata(a.m, a.v);
    let b = resize_vec(ma, a.e, resize, lrw_diff, liw_diff, tmpl, mri(ma).zpred());
    let mb = mput_zpred(b.m, b.v);
    let c = resize_vec(mb, b.e, resize, lrw_diff, liw_diff, tmpl, mri(mb).zcor());
    let mc = mput_zcor(c.m, c.v);
    if !a.ok {
        Run { m: ma, e: a.e, flag: ARK_MEM_FAIL }
    } else if !b.ok {
        Run { m: mb, e: b.e, flag: ARK_MEM_FAIL }
    } else if !c.ok {
        Run { m: mc, e: c.e, flag: ARK_MEM_FAIL }
    } else {
        Run { m: mc, e: c.e, flag: ARK_SUCCESS }
    }
}

/// Resizes the vectors of the nonlinear solver.
pub fn mriStep_ResizeSolverVectors<E: ArkEnv>(
    ark_mem: &mut ARKodeMemRec,
    env: &mut E,
    resize: Option<FnId>,
    lrw_diff: i64,
    liw_diff: i64,
    tmpl: &N_Vector,
) -> (flag: i32)
    ensures
        ({
            let o = resize_solver_vectors(
                old(ark_mem)@,
                *old(env),
                resize,
                lrw_diff,
                liw_diff,
                tmpl@,
            );
            &&& final(ark_mem)@ == o.m
            &&& *final(env) == o.e
            &&& flag == o.flag
        }),
{
    reveal(resize_solver_vectors);
    let mut v: N_Vector = ark_mem.get_sdata();
    let ok: bool = arkResizeVec(ark_mem, env, resize, lrw_diff, liw_diff, tmpl, &mut v);
    ark_mem.set_sdata(v);
    if !ok {
        return ARK_MEM_FAIL;
    }
    let mut v: N_Vector = ark_mem.get_zpred();
    let ok: bool = arkResizeVec(ark_mem, env, resize, lrw_diff, liw_diff, tmpl, &mut v);
    ark_mem.set_zpred(v);
    if !ok {
        return ARK_MEM_FAIL;
    }
    let mut v: N_Vector = ark_mem.get_zcor();
    let ok: bool = arkResizeVec(ark_mem, env, resize, lrw_diff, liw_diff, tmpl, &mut v);
    ark_mem.set_zcor(v);
    if !ok {
        return ARK_MEM_FAIL;
    }
    ARK_SUCCESS
}

} // verus!
