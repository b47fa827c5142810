//! Choice and checks of the coupling table.
use crate::arith::negate;
use crate::arkode_codes::{
    ARK_ILL_INPUT, ARK_INVALID_TABLE, ARK_MEM_NULL, ARK_SUCCESS, MRISTAGE_DIRK_FAST,
};
use crate::arkode_impl::{ARKodeMemRec, ArkAccounts, MemView, MriMethod, MriProblem};
use crate::arkode_mem::{mput_mth, mri, put_acc};
use crate::binary64::{r_abs, r_add, r_lt, r_mul, r_neg, r_sub, sunrealtype};
use crate::coupling::{
    coeff, coeff_entry, group_at, group_entry, real_at, real_entry, MRIDefaultTable,
    MRISTEP_METHOD_TYPE, MRIStepCoupling,
};
use crate::env::{ArkEnv, ModuleCall};
use crate::outcome::{call_module, call_module_count, module_count, module_run, Run};
use crate::sundials_math::SUNRabs;
use crate::sundials_types::{HUNDRED, ONE, SUN_UNIT_ROUNDOFF, ZERO};
use vstd::prelude::*;

verus! {

broadcast use crate::order::group_order;

/// The table for an order, kind of problem and kind of step; none where there
/// is no such method.
pub open spec fn default_table(fixed: bool, im: bool, ex: bool, q: i32) -> Option<MRIDefaultTable> {
    if fixed {
        if im && ex {
            match q {
                1 => Some(MRIDefaultTable::MRISTEP_DEFAULT_IMEX_SD_1),
                2 => Some(MRIDefaultTable::MRISTEP_DEFAULT_IMEX_SD_2),
                3 => Some(MRIDefaultTable::MRISTEP_DEFAULT_IMEX_SD_3),
                4 => Some(MRIDefaultTable::MRISTEP_DEFAULT_IMEX_SD_4),
                _ => None,
            }
        } else if im {
            match q {
                1 => Some(MRIDefaultTable::MRISTEP_DEFAULT_IMPL_SD_1),
                2 => Some(MRIDefaultTable::MRISTEP_DEFAULT_IMPL_SD_2),
                3 => Some(MRIDefaultTable::MRISTEP_DEFAULT_IMPL_SD_3),
                4 => Some(MRIDefaultTable::MRISTEP_DEFAULT_IMPL_SD_4),
                _ => None,
            }
        } else {
            match q {
                1 => Some(MRIDefaultTable::MRISTEP_DEFAULT_EXPL_1),
                2 => Some(MRIDefaultTable::MRISTEP_DEFAULT_EXPL_2),
                3 => Some(MRIDefaultTable::MRISTEP_DEFAULT_EXPL_3),
                4 => Some(MRIDefaultTable::MRISTEP_DEFAULT_EXPL_4),
                5 => Some(MRIDefaultTable::MRISTEP_DEFAULT_EXPL_5_AD),
                _ => None,
            }
        }
    } else if im && ex {
        match q {
            2 => Some(MRIDefaultTable::MRISTEP_DEFAULT_IMEX_SD_2_AD),
            3 => Some(MRIDefaultTable::MRISTEP_DEFAULT_IMEX_SD_3_AD),
            4 => Some(MRIDefaultTable::MRISTEP_DEFAULT_IMEX_SD_4_AD),
            _ => None,
        }
    } else if im {
        match q {
            2 => Some(MRIDefaultTable::MRISTEP_DEFAULT_IMPL_SD_2),
            3 => Some(MRIDefaultTable::MRISTEP_DEFAULT_IMPL_SD_3),
            4 => Some(MRIDefaultTable::MRISTEP_DEFAULT_IMPL_SD_4),
            _ => None,
        }
    } else {
        match q {
            2 => Some(MRIDefaultTable::MRISTEP_DEFAULT_EXPL_2_AD),
            3 => Some(MRIDefaultTable::MRISTEP_DEFAULT_EXPL_3_AD),
            4 => Some(MRIDefaultTable::MRISTEP_DEFAULT_EXPL_4_AD),
            5 => Some(MRIDefaultTable::MRISTEP_DEFAULT_EXPL_5_AD),
            _ => None,
        }
    }
}

/// Chooses the table for an order, kind of problem and kind of step.
pub fn mriStep_DefaultTable(fixed: bool, im: bool, ex: bool, q: i32) -> (r: Option<MRIDefaultTable>)
    ensures
        r == default_table(fixed, im, ex, q),
{
    if fixed {
        if im && ex {
            match q {
                1 => Some(MRIDefaultTable::MRISTEP_DEFAULT_IMEX_SD_1),
                2 => Some(MRIDefaultTable::MRISTEP_DEFAULT_IMEX_SD_2),
                3 => Some(MRIDefaultTable::MRISTEP_DEFAULT_IMEX_SD_3),
                4 => Some(MRIDefaultTable::MRISTEP_DEFAULT_IMEX_SD_4),
                _ => None,
            }
        } else if im {
            match q {
                1 => Some(MRIDefaultTable::MRISTEP_DEFAULT_IMPL_SD_1),
                2 => Some(MRIDefaultTable::MRISTEP_DEFAULT_IMPL_SD_2),
                3 => Some(MRIDefaultTable::MRISTEP_DEFAULT_IMPL_SD_3),
                4 => Some(MRIDefaultTable::MRISTEP_DEFAULT_IMPL_SD_4),
                _ => None,
            }
        } else {
            match q {
                1 => Some(MRIDefaultTable::MRISTEP_DEFAULT_EXPL_1),
                2 => Some(MRIDefaultTable::MRISTEP_DEFAULT_EXPL_2),
                3 => Some(MRIDefaultTable::MRISTEP_DEFAULT_EXPL_3),
                4 => Some(MRIDefaultTable::MRISTEP_DEFAULT_EXPL_4),
                5 => Some(MRIDefaultTable::MRISTEP_DEFAULT_EXPL_5_AD),
                _ => None,
            }
        }
    } else if im && ex {
        match q {
            2 => Some(MRIDefaultTable::MRISTEP_DEFAULT_IMEX_SD_2_AD),
            3 => Some(MRIDefaultTable::MRISTEP_DEFAULT_IMEX_SD_3_AD),
            4 => Some(MRIDefaultTable::MRISTEP_DEFAULT_IMEX_SD_4_AD),
            _ => None,
        }
    } else if im {
        match q {
            2 => Some(MRIDefaultTable::MRISTEP_DEFAULT_IMPL_SD_2),
            3 => Some(MRIDefaultTable::MRISTEP_DEFAULT_IMPL_SD_3),
            4 => Some(MRIDefaultTable::MRISTEP_DEFAULT_IMPL_SD_4),
            _ => None,
        }
    } else {
        match q {
            2 => Some(MRIDefaultTable::MRISTEP_DEFAULT_EXPL_2_AD),
            3 => Some(MRIDefaultTable::MRISTEP_DEFAULT_EXPL_3_AD),
            4 => Some(MRIDefaultTable::MRISTEP_DEFAULT_EXPL_4_AD),
            5 => Some(MRIDefaultTable::MRISTEP_DEFAULT_EXPL_5_AD),
            _ => None,
        }
    }
}

/// The accounts with the words of the coupling table added or taken off.
#[verifier::opaque]
pub open spec fn account_table<E: ArkEnv>(m: MemView, e: E, added: bool) -> Run<E> {
    let a = module_count(m, e, ModuleCall::TableWords { reals: false });
    let b = module_count(a.m, a.e, ModuleCall::TableWords { reals: true });
    let c = b.m.acc();
    Run {
        m: if added {
            put_acc(
                b.m,
                ArkAccounts {
                    liw: c.liw.wrapping_add(a.n as i64),
                    lrw: c.lrw.wrapping_add(b.n as i64),
                    ..c
                },
            )
        } else {
            put_acc(
                b.m,
                ArkAccounts {
                    liw: c.liw.wrapping_sub(a.n as i64),
                    lrw: c.lrw.wrapping_sub(b.n as i64),
                    ..c
                },
            )
        },
        e: b.e,
        flag: ARK_SUCCESS,
    }
}

/// Adds the words of the coupling table to the accounts or takes them off.
pub fn mriStep_AccountTable<E: ArkEnv>(ark_mem: &mut ARKodeMemRec, env: &mut E, added: bool)
    ensures
        final(ark_mem)@ == account_table(old(ark_mem)@, *old(env), added).m,
        *final(env) == account_table(old(ark_mem)@, *old(env), added).e,
{
    reveal(account_table);
    let mut liw: i32 = 0;
    let mut lrw: i32 = 0;
    call_module_count(ark_mem, env, ModuleCall::TableWords { reals: false }, &mut liw);
    call_module_count(ark_mem, env, ModuleCall::TableWords { reals: true }, &mut lrw);
    let c: ArkAccounts = ark_mem.get_acc();
    if added {
        ark_mem.set_acc(
            ArkAccounts {
                liw: c.liw.wrapping_add(liw as i64),
                lrw: c.lrw.wrapping_add(lrw as i64),
                ..c
            },
        );
    } else {
        ark_mem.set_acc(
            ArkAccounts {
                liw: c.liw.wrapping_sub(liw as i64),
                lrw: c.lrw.wrapping_sub(lrw as i64),
                ..c
            },
        );
    }
}

/// The memory with stages and orders taken from the table.
#[verifier::opaque]
pub open spec fn adopt_table(m: MemView) -> MemView {
    match mri(m).MRIC() {
        None => m,
        Some(t) => mput_mth(m, MriMethod { stages: t.stages, q: t.q, p: t.p, ..mri(m).mth() }),
    }
}

/// Takes stages and orders from the table.
pub fn mriStep_AdoptTable(ark_mem: &mut ARKodeMemRec)
    ensures
        final(ark_mem)@ == adopt_table(old(ark_mem)@),
{
    reveal(adopt_table);
    let h: MriMethod = ark_mem.get_mri_mth();
    let h1: MriMethod = match ark_mem.table() {
        None => {
            return;
        },
        Some(t) => MriMethod { stages: t.stages, q: t.q, p: t.p, ..h },
    };
    ark_mem.set_mri_mth(h1);
}

/// The table set: one that the user chose stays, otherwise the default is
/// loaded.
#[verifier::opaque]
pub open spec fn set_coupling<E: ArkEnv>(m: MemView, e: E) -> Run<E> {
    let p = mri(m).prb();
    if m.step_mem() is None {
        Run { m, e, flag: ARK_MEM_NULL }
    } else if mri(m).MRIC() is Some {
        Run { m, e, flag: ARK_SUCCESS }
    } else {
        match default_table(m.lim().fixedstep, p.implicit_rhs, p.explicit_rhs, mri(m).mth().q) {
            None => Run { m, e, flag: ARK_ILL_INPUT },
            Some(table) => {
                let r = module_run(m, e, ModuleCall::LoadTable { table });
                let a = account_table(r.m, r.e, true);
                if mri(r.m).MRIC() is None {
                    Run { m: r.m, e: r.e, flag: ARK_INVALID_TABLE }
                } else {
                    Run { m: adopt_table(a.m), e: a.e, flag: ARK_SUCCESS }
                }
            },
        }
    }
}

/// Sets the coupling table.
pub fn mriStep_SetCoupling<E: ArkEnv>(ark_mem: &mut ARKodeMemRec, env: &mut E) -> (flag: i32)
    ensures
        final(ark_mem)@ == set_coupling(old(ark_mem)@, *old(env)).m,
        *final(env) == set_coupling(old(ark_mem)@, *old(env)).e,
        flag == set_coupling(old(ark_mem)@, *old(env)).flag,
{
    reveal(set_coupling);
    if !ark_mem.has_step_mem() {
        return ARK_MEM_NULL;
    }
    if ark_mem.table().is_some() {
        return ARK_SUCCESS;
    }
    let p: MriProblem = ark_mem.get_mri_prb();
    match mriStep_DefaultTable(
        ark_mem.get_lim().fixedstep,
        p.implicit_rhs,
        p.explicit_rhs,
        ark_mem.get_mri_mth().q,
    ) {
        None => ARK_ILL_INPUT,
        Some(table) => {
            call_module(ark_mem, env, ModuleCall::LoadTable { table });
            if ark_mem.table().is_none() {
                return ARK_INVALID_TABLE;
            }
            mriStep_AccountTable(ark_mem, env, true);
            mriStep_AdoptTable(ark_mem);
            ARK_SUCCESS
        },
    }
}

/// Tolerance of the checks.
pub open spec fn table_tol() -> sunrealtype {
    r_mul(HUNDRED(), SUN_UNIT_ROUNDOFF())
}

/// `acc` plus the magnitudes of row `i` of matrix `k` from column `j` on.
#[verifier::opaque]
pub open spec fn row_abs(
    acc: sunrealtype,
    a: Seq<Vec<Vec<sunrealtype>>>,
    k: int,
    i: int,
    j: int,
    n: int,
) -> sunrealtype
    decreases n - j,
{
    if j >= n {
        acc
    } else {
        row_abs(r_add(acc, r_abs(coeff(a, k, i, j))), a, k, i, j + 1, n)
    }
}

fn sum_row_abs(
    acc: sunrealtype,
    a: &Vec<Vec<Vec<sunrealtype>>>,
    k: i32,
    i: i32,
    j0: i32,
    n: i32,
) -> (r: sunrealtype)
    ensures
        r == row_abs(acc, a@, k as int, i as int, j0 as int, n as int),
{
    let mut s: sunrealtype = acc;
    let mut j: i32 = j0;
    while j < n
        invariant
            row_abs(acc, a@, k as int, i as int, j0 as int, n as int) == row_abs(
                s,
                a@,
                k as int,
                i as int,
                j as int,
                n as int,
            ),
        decreases n - j,
    {
        reveal(row_abs);
        s = s + SUNRabs(coeff_entry(a, k, i, j));
        j = j + 1;
    }
    proof {
        reveal(row_abs);
    }
    s
}

/// `acc` plus the magnitudes of matrix `k` right of the diagonal, which counts
/// too where `off` is zero, in the rows from `i` on.
#[verifier::opaque]
pub open spec fn upper_abs(
    acc: sunrealtype,
    a: Seq<Vec<Vec<sunrealtype>>>,
    k: int,
    i: int,
    n: int,
    off: int,
) -> sunrealtype
    decreases n - i,
{
    if i >= n {
        acc
    } else {
        upper_abs(row_abs(acc, a, k, i, i + off, n), a, k, i + 1, n, off)
    }
}

fn sum_upper_abs(acc: sunrealtype, a: &Vec<Vec<Vec<sunrealtype>>>, k: i32, n: i32, off: i32) -> (r:
    sunrealtype)
    requires
        off == 0 || off == 1,
    ensures
        r == upper_abs(acc, a@, k as int, 0, n as int, off as int),
{
    let mut s: sunrealtype = acc;
    let mut i: i32 = 0;
    while i < n
        invariant
            0 <= i,
            off == 0 || off == 1,
            upper_abs(acc, a@, k as int, 0, n as int, off as int) == upper_abs(
                s,
                a@,
                k as int,
                i as int,
                n as int,
                off as int,
            ),
        decreases n - i,
    {
        reveal(upper_abs);
        s = sum_row_abs(s, a, k, i, i + off, n);
        i = i + 1;
    }
    proof {
        reveal(upper_abs);
    }
    s
}

/// `acc` plus the magnitudes that no lower triangular method has, in the
/// matrices from `k` on.
#[verifier::opaque]
pub open spec fn excess(
    acc: sunrealtype,
    a: Seq<Vec<Vec<sunrealtype>>>,
    k: int,
    nmat: int,
    n: int,
    off: int,
) -> sunrealtype
    decreases nmat - k,
{
    if k >= nmat {
        acc
    } else {
        excess(upper_abs(acc, a, k, 0, n, off), a, k + 1, nmat, n, off)
    }
}

fn sum_excess(a: &Vec<Vec<Vec<sunrealtype>>>, nmat: i32, n: i32, off: i32) -> (r: sunrealtype)
    requires
        off == 0 || off == 1,
    ensures
        r == excess(ZERO(), a@, 0, nmat as int, n as int, off as int),
{
    let mut s: sunrealtype = ZERO();
    let mut k: i32 = 0;
    while k < nmat
        invariant
            0 <= k,
            off == 0 || off == 1,
            excess(ZERO(), a@, 0, nmat as int, n as int, off as int) == excess(
                s,
                a@,
                k as int,
                nmat as int,
                n as int,
                off as int,
            ),
        decreases nmat - k,
    {
        reveal(excess);
        s = sum_upper_abs(s, a, k, n, off);
        k = k + 1;
    }
    proof {
        reveal(excess);
    }
    s
}

/// Whether matrices are lower triangular, strictly where `off` is zero.
pub open spec fn lower_triangular(
    a: Seq<Vec<Vec<sunrealtype>>>,
    nmat: i32,
    n: i32,
    off: int,
) -> bool {
    a.len() == 0 || !r_lt(table_tol(), excess(ZERO(), a, 0, nmat as int, n as int, off))
}

fn is_lower_triangular(a: &Vec<Vec<Vec<sunrealtype>>>, nmat: i32, n: i32, off: i32) -> (r: bool)
    requires
        off == 0 || off == 1,
    ensures
        r == lower_triangular(a@, nmat, n, off as int),
{
    a.len() == 0 || !(sum_excess(a, nmat, n, off) > HUNDRED() * SUN_UNIT_ROUNDOFF())
}

/// Whether the members of group `i` from `j` on, up to the end of the group,
/// are stages.
#[verifier::opaque]
pub open spec fn members_valid(g: Seq<Vec<i32>>, stages: int, i: int, j: int) -> bool
    decreases stages - j,
{
    let k = group_at(g, i, j);
    if j >= stages || k == -1 {
        true
    } else {
        0 <= k <= stages && members_valid(g, stages, i, j + 1)
    }
}

fn are_members_valid(g: &Vec<Vec<i32>>, stages: i32, i: i32) -> (r: bool)
    ensures
        r == members_valid(g@, stages as int, i as int, 0),
{
    let mut j: i32 = 0;
    while j < stages
        invariant
            0 <= j,
            members_valid(g@, stages as int, i as int, 0) == members_valid(
                g@,
                stages as int,
                i as int,
                j as int,
            ),
        decreases stages - j,
    {
        reveal(members_valid);
        let k: i32 = group_entry(g, i, j);
        if k == -1 {
            return true;
        }
        if k < 0 || k > stages {
            return false;
        }
        j = j + 1;
    }
    proof {
        reveal(members_valid);
    }
    true
}

/// Whether the members of the groups from `i` on are stages.
#[verifier::opaque]
pub open spec fn groups_valid(g: Seq<Vec<i32>>, stages: int, i: int, ngroup: int) -> bool
    decreases ngroup - i,
{
    i >= ngroup || (members_valid(g, stages, i, 0) && groups_valid(g, stages, i + 1, ngroup))
}

fn are_groups_valid(g: &Vec<Vec<i32>>, stages: i32, ngroup: i32) -> (r: bool)
    ensures
        r == groups_valid(g@, stages as int, 0, ngroup as int),
{
    let mut i: i32 = 0;
    while i < ngroup
        invariant
            0 <= i,
            groups_valid(g@, stages as int, 0, ngroup as int) == groups_valid(
                g@,
                stages as int,
                i as int,
                ngroup as int,
            ),
        decreases ngroup - i,
    {
        reveal(groups_valid);
        if !are_members_valid(g, stages, i) {
            return false;
        }
        i = i + 1;
    }
    proof {
        reveal(groups_valid);
    }
    true
}

/// How often stage `s` occurs in group `i` from member `j` on.
#[verifier::opaque]
pub open spec fn times_in_group(g: Seq<Vec<i32>>, stages: int, i: int, j: int, s: i32) -> nat
    decreases stages - j,
{
    let k = group_at(g, i, j);
    if j >= stages || k == -1 {
        0
    } else {
        times_in_group(g, stages, i, j + 1, s) + if k == s {
            1nat
        } else {
            0nat
        }
    }
}

/// How often stage `s` occurs in the groups from `i` on.
#[verifier::opaque]
pub open spec fn times(g: Seq<Vec<i32>>, stages: int, i: int, ngroup: int, s: i32) -> nat
    decreases ngroup - i,
{
    if i >= ngroup {
        0
    } else {
        times_in_group(g, stages, i, 0, s) + times(g, stages, i + 1, ngroup, s)
    }
}

/// A count of occurrences, two or more taken as two.
pub open spec fn at_most_two(n: nat) -> nat {
    if n > 2 {
        2
    } else {
        n
    }
}

fn add_times(g: &Vec<Vec<i32>>, stages: i32, i: i32, s: i32, seen: u8) -> (r: u8)
    requires
        seen <= 2,
    ensures
        r == at_most_two(seen as nat + times_in_group(g@, stages as int, i as int, 0, s)),
{
    let mut n: u8 = seen;
    let mut j: i32 = 0;
    while j < stages
        invariant
            0 <= j,
            n <= 2,
            at_most_two(seen as nat + times_in_group(g@, stages as int, i as int, 0, s))
                == at_most_two(
                n as nat + times_in_group(g@, stages as int, i as int, j as int, s),
            ),
        decreases stages - j,
    {
        reveal(times_in_group);
        let k: i32 = group_entry(g, i, j);
        if k == -1 {
            return n;
        }
        if k == s && n < 2 {
            n = n + 1;
        }
        j = j + 1;
    }
    proof {
        reveal(times_in_group);
    }
    n
}

fn count_times(g: &Vec<Vec<i32>>, stages: i32, ngroup: i32, s: i32) -> (r: u8)
    ensures
        r == at_most_two(times(g@, stages as int, 0, ngroup as int, s)),
{
    let mut n: u8 = 0;
    let mut i: i32 = 0;
    while i < ngroup
        invariant
            0 <= i,
            n <= 2,
            at_most_two(times(g@, stages as int, 0, ngroup as int, s)) == at_most_two(
                n as nat + times(g@, stages as int, i as int, ngroup as int, s),
            ),
        decreases ngroup - i,
    {
        reveal(times);
        n = add_times(g, stages, i, s, n);
        i = i + 1;
    }
    proof {
        reveal(times);
    }
    n
}

/// Whether the groups of an exponential method hold every stage after the
/// first, and the embedding, exactly once.
pub open spec fn groups_complete(t: MRIStepCoupling) -> bool {
    &&& groups_valid(t.group@, t.stages as int, 0, t.ngroup as int)
    &&& forall|s: i32|
        1 <= s <= t.stages ==> #[trigger] times(
            t.group@,
            t.stages as int,
            0,
            t.ngroup as int,
            s,
        ) == 1
}

fn are_groups_complete(t: &MRIStepCoupling) -> (r: bool)
    requires
        t.stages >= 1,
    ensures
        r == groups_complete(*t),
{
    if !are_groups_valid(&t.group, t.stages, t.ngroup) {
        return false;
    }
    let mut s: i32 = 0;
    while s < t.stages
        invariant
            0 <= s <= t.stages,
            groups_valid(t.group@, t.stages as int, 0, t.ngroup as int),
            forall|i: i32|
                1 <= i <= s ==> #[trigger] times(
                    t.group@,
                    t.stages as int,
                    0,
                    t.ngroup as int,
                    i,
                ) == 1,
        decreases t.stages - s,
    {
        s = s + 1;
        if count_times(&t.group, t.stages, t.ngroup, s) != 1 {
            assert(times(t.group@, t.stages as int, 0, t.ngroup as int, s) != 1);
            return false;
        }
    }
    true
}

/// Whether a table of this kind goes with the problem.
pub open spec fn kind_fits(t: MRIStepCoupling, im: bool, ex: bool) -> bool {
    match t.type_ {
        MRISTEP_METHOD_TYPE::MRISTEP_IMEX => true,
        MRISTEP_METHOD_TYPE::MRISTEP_SR => true,
        MRISTEP_METHOD_TYPE::MRISTEP_EXPLICIT => !im,
        MRISTEP_METHOD_TYPE::MRISTEP_MERK => !im,
        MRISTEP_METHOD_TYPE::MRISTEP_IMPLICIT => !ex,
    }
}

/// Whether a table has exactly the matrices that its kind needs.
pub open spec fn matrices_fit(t: MRIStepCoupling) -> bool {
    let w = t.W@.len() > 0;
    let g = t.G@.len() > 0;
    match t.type_ {
        MRISTEP_METHOD_TYPE::MRISTEP_IMEX => w && g,
        MRISTEP_METHOD_TYPE::MRISTEP_SR => w && g,
        MRISTEP_METHOD_TYPE::MRISTEP_EXPLICIT => w && !g,
        MRISTEP_METHOD_TYPE::MRISTEP_MERK => w && !g,
        MRISTEP_METHOD_TYPE::MRISTEP_IMPLICIT => !w && g,
    }
}

/// What is asked of sizes, orders, kind, shape and groups of a table.
#[verifier::opaque]
pub open spec fn shape_ok(t: MRIStepCoupling, im: bool, ex: bool, fixed: bool) -> bool {
    &&& t.stages >= 1
    &&& t.q >= 1
    &&& t.p >= 1 || fixed
    &&& kind_fits(t, im, ex)
    &&& matrices_fit(t)
    &&& lower_triangular(t.W@, t.nmat, t.stages, 0)
    &&& lower_triangular(t.G@, t.nmat, t.stages, 1)
    &&& t.type_ == MRISTEP_METHOD_TYPE::MRISTEP_MERK ==> groups_complete(t)
}

fn is_shape_ok(t: &MRIStepCoupling, im: bool, ex: bool, fixed: bool) -> (r: bool)
    ensures
        r == shape_ok(*t, im, ex, fixed),
{
    reveal(shape_ok);
    if t.stages < 1 || t.q < 1 || (t.p < 1 && !fixed) {
        return false;
    }
    let w: bool = t.W.len() > 0;
    let g: bool = t.G.len() > 0;
    let fits: bool = match t.type_ {
        MRISTEP_METHOD_TYPE::MRISTEP_IMEX => w && g,
        MRISTEP_METHOD_TYPE::MRISTEP_SR => w && g,
        MRISTEP_METHOD_TYPE::MRISTEP_EXPLICIT => !im && w && !g,
        MRISTEP_METHOD_TYPE::MRISTEP_MERK => !im && w && !g,
        MRISTEP_METHOD_TYPE::MRISTEP_IMPLICIT => !ex && !w && g,
    };
    if !fits {
        return false;
    }
    if !is_lower_triangular(&t.W, t.nmat, t.stages, 0) || !is_lower_triangular(
        &t.G,
        t.nmat,
        t.stages,
        1,
    ) {
        return false;
    }
    t.type_ != MRISTEP_METHOD_TYPE::MRISTEP_MERK || are_groups_complete(t)
}

/// Whether the abscissae from `i` on do not fall.
#[verifier::opaque]
pub open spec fn sorted_from(c: Seq<sunrealtype>, i: int, n: int) -> bool
    decreases n - i,
{
    if i >= n {
        true
    } else {
        !r_lt(r_sub(real_at(c, i), real_at(c, i - 1)), r_neg(table_tol())) && sorted_from(c, i + 1, n)
    }
}

fn is_sorted(c: &Vec<sunrealtype>, n: i32) -> (r: bool)
    ensures
        r == sorted_from(c@, 1, n as int),
{
    let mut i: i32 = 1;
    while i < n
        invariant
            1 <= i,
            sorted_from(c@, 1, n as int) == sorted_from(c@, i as int, n as int),
        decreases n - i,
    {
        reveal(sorted_from);
        if real_entry(c, i) - real_entry(c, i - 1) < negate(HUNDRED() * SUN_UNIT_ROUNDOFF()) {
            return false;
        }
        i = i + 1;
    }
    proof {
        reveal(sorted_from);
    }
    true
}

/// `acc` plus the magnitudes in the first row of matrix `k` from column `j` on.
#[verifier::opaque]
pub open spec fn first_row(acc: sunrealtype, t: MRIStepCoupling, k: int, j: int) -> sunrealtype
    decreases t.stages - j,
{
    if j >= t.stages {
        acc
    } else {
        let a = if t.W@.len() > 0 {
            r_add(acc, r_abs(coeff(t.W@, k, 0, j)))
        } else {
            acc
        };
        let b = if t.G@.len() > 0 {
            r_add(a, r_abs(coeff(t.G@, k, 0, j)))
        } else {
            a
        };
        first_row(b, t, k, j + 1)
    }
}

fn sum_first_row(acc: sunrealtype, t: &MRIStepCoupling, k: i32) -> (r: sunrealtype)
    ensures
        r == first_row(acc, *t, k as int, 0),
{
    let mut s: sunrealtype = acc;
    let mut j: i32 = 0;
    while j < t.stages
        invariant
            0 <= j,
            first_row(acc, *t, k as int, 0) == first_row(s, *t, k as int, j as int),
        decreases t.stages - j,
    {
        reveal(first_row);
        if t.W.len() > 0 {
            s = s + SUNRabs(coeff_entry(&t.W, k, 0, j));
        }
        if t.G.len() > 0 {
            s = s + SUNRabs(coeff_entry(&t.G, k, 0, j));
        }
        j = j + 1;
    }
    proof {
        reveal(first_row);
    }
    s
}

/// `acc` plus the magnitudes in the first rows of the matrices from `k` on.
#[verifier::opaque]
pub open spec fn first_rows(acc: sunrealtype, t: MRIStepCoupling, k: int) -> sunrealtype
    decreases t.nmat - k,
{
    if k >= t.nmat {
        acc
    } else {
        first_rows(first_row(acc, t, k, 0), t, k + 1)
    }
}

fn sum_first_rows(acc: sunrealtype, t: &MRIStepCoupling) -> (r: sunrealtype)
    ensures
        r == first_rows(acc, *t, 0),
{
    let mut s: sunrealtype = acc;
    let mut k: i32 = 0;
    while k < t.nmat
        invariant
            0 <= k,
            first_rows(acc, *t, 0) == first_rows(s, *t, k as int),
        decreases t.nmat - k,
    {
        reveal(first_rows);
        s = sum_first_row(s, t, k);
        k = k + 1;
    }
    proof {
        reveal(first_rows);
    }
    s
}

/// What is asked of the stage times and of the first stage: sorted times for
/// methods whose stages follow each other, a first stage that is the last
/// solution, and a last stage at the end of the step.
#[verifier::opaque]
pub open spec fn times_ok(t: MRIStepCoupling) -> bool {
    let chained = t.type_ != MRISTEP_METHOD_TYPE::MRISTEP_MERK && t.type_
        != MRISTEP_METHOD_TYPE::MRISTEP_SR;
    &&& chained ==> sorted_from(t.c@, 1, t.stages as int)
    &&& !r_lt(table_tol(), first_rows(r_abs(real_at(t.c@, 0)), t, 0))
    &&& !r_lt(table_tol(), r_abs(r_sub(ONE(), real_at(t.c@, t.stages - 1))))
}

fn are_times_ok(t: &MRIStepCoupling) -> (r: bool)
    requires
        t.stages > i32::MIN,
    ensures
        r == times_ok(*t),
{
    reveal(times_ok);
    let tol: sunrealtype = HUNDRED() * SUN_UNIT_ROUNDOFF();
    let chained: bool = t.type_ != MRISTEP_METHOD_TYPE::MRISTEP_MERK && t.type_
        != MRISTEP_METHOD_TYPE::MRISTEP_SR;
    if chained && !is_sorted(&t.c, t.stages) {
        return false;
    }
    if sum_first_rows(SUNRabs(real_entry(&t.c, 0)), t) > tol {
        return false;
    }
    !(SUNRabs(ONE() - real_entry(&t.c, t.stages - 1)) > tol)
}

/// The stages from `i` on asked for their kind; the flag tells whether none of
/// them couples a solve with a fast evolution.
pub open spec fn decoupled<E: ArkEnv>(m: MemView, e: E, i: int, stages: int, okay: bool) -> Run<E>
    decreases stages - i,
{
    if i >= stages {
        Run {
            m,
            e,
            flag: if okay {
                ARK_SUCCESS
            } else {
                ARK_INVALID_TABLE
            },
        }
    } else {
        let r = module_run(m, e, ModuleCall::StageType { stage: i as i32 });
        decoupled(r.m, r.e, i + 1, stages, okay && r.flag != MRISTAGE_DIRK_FAST)
    }
}

fn mriStep_Decoupled<E: ArkEnv>(ark_mem: &mut ARKodeMemRec, env: &mut E, stages: i32) -> (flag: i32)
    ensures
        final(ark_mem)@ == decoupled(old(ark_mem)@, *old(env), 0, stages as int, true).m,
        *final(env) == decoupled(old(ark_mem)@, *old(env), 0, stages as int, true).e,
        flag == decoupled(old(ark_mem)@, *old(env), 0, stages as int, true).flag,
{
    let mut okay: bool = true;
    let mut i: i32 = 0;
    while i < stages
        invariant
            0 <= i,
            decoupled(old(ark_mem)@, *old(env), 0, stages as int, true) == decoupled(
                ark_mem@,
                *env,
                i as int,
                stages as int,
                okay,
            ),
        decreases stages - i,
    {
        let kind: i32 = call_module(ark_mem, env, ModuleCall::StageType { stage: i });
        if kind == MRISTAGE_DIRK_FAST {
            okay = false;
        }
        i = i + 1;
    }
    if okay {
        ARK_SUCCESS
    } else {
        ARK_INVALID_TABLE
    }
}

/// Whether the memory holds a table of the right shape.
#[verifier::opaque]
pub open spec fn table_shape_ok(m: MemView) -> bool {
    match mri(m).MRIC() {
        None => false,
        Some(t) => shape_ok(
            t,
            mri(m).prb().implicit_rhs,
            mri(m).prb().explicit_rhs,
            m.lim().fixedstep,
        ),
    }
}

fn mriStep_TableShapeOk(ark_mem: &ARKodeMemRec) -> (r: bool)
    ensures
        r == table_shape_ok(ark_mem@),
        r ==> mri(ark_mem@).MRIC() is Some && mri(ark_mem@).MRIC()->Some_0.stages >= 1,
{
    reveal(table_shape_ok);
    reveal(shape_ok);
    let p: MriProblem = ark_mem.get_mri_prb();
    let fixed: bool = ark_mem.get_lim().fixedstep;
    match ark_mem.table() {
        None => false,
        Some(t) => is_shape_ok(t, p.implicit_rhs, p.explicit_rhs, fixed),
    }
}

/// Number of stages in the table.
pub open spec fn table_stages(m: MemView) -> i32 {
    match mri(m).MRIC() {
        None => 0,
        Some(t) => t.stages,
    }
}

/// Number of stages in the table.
pub fn mriStep_TableStages(ark_mem: &ARKodeMemRec) -> (r: i32)
    ensures
        r == table_stages(ark_mem@),
{
    match ark_mem.table() {
        None => 0,
        Some(t) => t.stages,
    }
}

/// Whether the memory holds a table with admissible stage times.
#[verifier::opaque]
pub open spec fn table_times_ok(m: MemView) -> bool {
    match mri(m).MRIC() {
        None => false,
        Some(t) => t.stages >= 1 && times_ok(t),
    }
}

fn mriStep_TableTimesOk(ark_mem: &ARKodeMemRec) -> (r: bool)
    ensures
        r == table_times_ok(ark_mem@),
{
    reveal(table_times_ok);
    match ark_mem.table() {
        None => false,
        Some(t) => t.stages >= 1 && are_times_ok(t),
    }
}

/// The table held against everything that is asked of it.
#[verifier::opaque]
pub open spec fn check_coupling<E: ArkEnv>(m: MemView, e: E) -> Run<E> {
    let d = decoupled(m, e, 0, table_stages(m) as int, true);
    if m.step_mem() is None {
        Run { m, e, flag: ARK_MEM_NULL }
    } else if !table_shape_ok(m) {
        Run { m, e, flag: ARK_INVALID_TABLE }
    } else if d.flag != ARK_SUCCESS {
        d
    } else if !table_times_ok(d.m) {
        Run { m: d.m, e: d.e, flag: ARK_INVALID_TABLE }
    } else {
        Run { m: d.m, e: d.e, flag: ARK_SUCCESS }
    }
}

/// Checks the coupling table: success where it meets all requirements, an
/// invalid table otherwise.
pub fn mriStep_CheckCoupling<E: ArkEnv>(ark_mem: &mut ARKodeMemRec, env: &mut E) -> (flag: i32)
    ensures
        final(ark_mem)@ == check_coupling(old(ark_mem)@, *old(env)).m,
        *final(env) == check_coupling(old(ark_mem)@, *old(env)).e,
        flag == check_coupling(old(ark_mem)@, *old(env)).flag,
{
    reveal(check_coupling);
    if !ark_mem.has_step_mem() {
        return ARK_MEM_NULL;
    }
    if !mriStep_TableShapeOk(ark_mem) {
        return ARK_INVALID_TABLE;
    }
    let stages: i32 = mriStep_TableStages(ark_mem);
    let retval: i32 = mriStep_Decoupled(ark_mem, env, stages);
    if retval != ARK_SUCCESS {
        return retval;
    }
    if !mriStep_TableTimesOk(ark_mem) {
        return ARK_INVALID_TABLE;
    }
    ARK_SUCCESS
}

} // verus!
