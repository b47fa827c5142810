//! Allocation, release and resizing of work vectors, with the accounting of
//! real and integer words (`lrw`, `liw`). Accounts wrap on overflow.
use crate::arkode_impl::{ARKodeMemRec, ArkAccounts, FnId, MemView};
use crate::arkode_mem::{
    put_VRabstol, put_Vabstol, put_acc, put_constraints, put_ewt, put_fn_, put_rwt, put_tempv1,
    put_tempv2, put_tempv3, put_tempv4, put_tempv5, put_yn,
};
use crate::env::{ArkEnv, UserCall, UserFn};
use crate::nvector::{copy_vector, null_vector, nvecs, v_clone, v_null, NVec, N_VClone, N_Vector};
use crate::sundials_types::{sunbooleantype, sunindextype, SUNFALSE, SUNTRUE, ZERO};
use vstd::prelude::*;

verus! {

/// The accounts with the storage of one vector added.
pub open spec fn charge(m: MemView) -> MemView {
    put_acc(m, ArkAccounts {
            lrw: m.acc().lrw.wrapping_add(m.acc().lrw1),
            liw: m.acc().liw.wrapping_add(m.acc().liw1),
            ..m.acc()
        })
}

/// The accounts with the storage of one vector taken off.
pub open spec fn refund(m: MemView) -> MemView {
    put_acc(m, ArkAccounts {
            lrw: m.acc().lrw.wrapping_sub(m.acc().lrw1),
            liw: m.acc().liw.wrapping_sub(m.acc().liw1),
            ..m.acc()
        })
}

/// Memory, vector and success after an allocation: a live vector is kept,
/// whatever the template; an empty slot is filled by cloning the template and
/// charged, unless the template cannot be cloned or destroyed.
#[verifier::opaque]
pub open spec fn alloc_vec(m: MemView, tmpl: NVec, v: NVec) -> (MemView, NVec, bool) {
    if v.live {
        (m, v, true)
    } else if !tmpl.ops().nvclone || !tmpl.ops().nvdestroy {
        (m, v, false)
    } else {
        (charge(m), v_clone(tmpl), true)
    }
}

/// Fills an empty slot by cloning a template.
pub fn arkAllocVec(ark_mem: &mut ARKodeMemRec, tmpl: &N_Vector, v: &mut N_Vector) -> (r:
    sunbooleantype)
    ensures
        final(ark_mem)@ == alloc_vec(old(ark_mem)@, tmpl@, old(v)@).0,
        final(v)@ == alloc_vec(old(ark_mem)@, tmpl@, old(v)@).1,
        r == alloc_vec(old(ark_mem)@, tmpl@, old(v)@).2,
{
    reveal(alloc_vec);
    if v.live {
        return SUNTRUE;
    }
    // A template that cannot be cloned or destroyed is refused.
    if !tmpl.ops.nvclone || !tmpl.ops.nvdestroy {
        return SUNFALSE;
    }
    *v = N_VClone(tmpl);
    let s: ArkAccounts = ark_mem.get_acc();
    ark_mem.set_acc(ArkAccounts {
        lrw: s.lrw.wrapping_add(s.lrw1),
        liw: s.liw.wrapping_add(s.liw1),
        ..s
    });
    SUNTRUE
}

/// Memory and vector after a release.
#[verifier::opaque]
pub open spec fn free_vec(m: MemView, v: NVec) -> (MemView, NVec) {
    if v.live {
        (refund(m), v_null())
    } else {
        (m, v)
    }
}

/// Releases a vector; an empty slot is left alone.
pub fn arkFreeVec(ark_mem: &mut ARKodeMemRec, v: &mut N_Vector)
    ensures
        final(ark_mem)@ == free_vec(old(ark_mem)@, old(v)@).0,
        final(v)@ == free_vec(old(ark_mem)@, old(v)@).1,
{
    reveal(free_vec);
    if v.live {
        *v = null_vector();
        let s: ArkAccounts = ark_mem.get_acc();
        ark_mem.set_acc(ArkAccounts { lrw: s.lrw.wrapping_sub(s.lrw1), liw: s.liw.wrapping_sub(s.liw1), ..s });
    }
}

/// An array of clones of a template.
pub open spec fn clones(count: i32, tmpl: NVec) -> Seq<NVec> {
    Seq::new(
        if count > 0 {
            count as nat
        } else {
            0
        },
        |i: int| v_clone(tmpl),
    )
}

/// `count` clones of a template; none for counts that are not positive.
pub fn clone_array(count: i32, tmpl: &N_Vector) -> (r: Vec<N_Vector>)
    ensures
        nvecs(r@) == clones(count, tmpl@),
{
    let mut out: Vec<N_Vector> = Vec::new();
    let mut i: i32 = 0;
    while i < count
        invariant
            0 <= i,
            i <= count || i == 0,
            out@.len() == i,
            forall|j: int| 0 <= j < i ==> out@[j]@ == v_clone(tmpl@),
        decreases count - i,
    {
        out.push(N_VClone(tmpl));
        i = i + 1;
    }
    assert(nvecs(out@) =~= clones(count, tmpl@));
    out
}

/// An account changed by `count` times an amount.
pub open spec fn account(a: i64, count: i32, each: i64) -> i64 {
    a.wrapping_add((count as i64).wrapping_mul(each))
}

/// An account lowered by `count` times an amount.
pub open spec fn unaccount(a: i64, count: i32, each: i64) -> i64 {
    a.wrapping_sub((count as i64).wrapping_mul(each))
}

/// Fills an empty array with clones of a template and charges the accounts;
/// an array that is there is kept. Fails where there is nothing to clone.
pub fn arkAllocVecArray(
    count: i32,
    tmpl: &N_Vector,
    v: &mut Vec<N_Vector>,
    lrw1: sunindextype,
    lrw: &mut i64,
    liw1: sunindextype,
    liw: &mut i64,
) -> (r: sunbooleantype)
    ensures
        r == (nvecs(old(v)@).len() > 0 || count > 0),
        nvecs(final(v)@) == if nvecs(old(v)@).len() > 0 {
            nvecs(old(v)@)
        } else {
            clones(count, tmpl@)
        },
        *final(lrw) == if nvecs(old(v)@).len() == 0 && count > 0 {
            account(*old(lrw), count, lrw1)
        } else {
            *old(lrw)
        },
        *final(liw) == if nvecs(old(v)@).len() == 0 && count > 0 {
            account(*old(liw), count, liw1)
        } else {
            *old(liw)
        },
{
    if v.len() == 0 {
        *v = clone_array(count, tmpl);
        assert(nvecs(v@).len() == v@.len());
        if v.len() == 0 {
            return SUNFALSE;
        }
        *lrw = lrw.wrapping_add((count as i64).wrapping_mul(lrw1));
        *liw = liw.wrapping_add((count as i64).wrapping_mul(liw1));
    }
    SUNTRUE
}

/// Releases an array of vectors and credits the accounts.
pub fn arkFreeVecArray(
    count: i32,
    v: &mut Vec<N_Vector>,
    lrw1: sunindextype,
    lrw: &mut i64,
    liw1: sunindextype,
    liw: &mut i64,
)
    ensures
        nvecs(final(v)@) == Seq::<NVec>::empty(),
        *final(lrw) == if nvecs(old(v)@).len() > 0 {
            unaccount(*old(lrw), count, lrw1)
        } else {
            *old(lrw)
        },
        *final(liw) == if nvecs(old(v)@).len() > 0 {
            unaccount(*old(liw), count, liw1)
        } else {
            *old(liw)
        },
{
    if v.len() > 0 {
        *v = Vec::new();
        *lrw = lrw.wrapping_sub((count as i64).wrapping_mul(lrw1));
        *liw = liw.wrapping_sub((count as i64).wrapping_mul(liw1));
    }
    assert(nvecs(v@) =~= Seq::<NVec>::empty());
}

/// The call that resizes one vector; it gets data of its own.
#[verifier::allow_in_spec]
pub fn resize_call(f: FnId) -> UserCall
    returns
        (UserCall { role: UserFn::Resize, f, t: ZERO(), step: 0, attempt: 0, user_data: false }),
{
    UserCall { role: UserFn::Resize, f, t: ZERO(), step: 0, attempt: 0, user_data: false }
}

/// Outcome of resizing one vector.
pub struct ResizeOut<E> {
    pub m: MemView,
    pub e: E,
    pub v: NVec,
    pub ok: bool,
}

/// A live vector is handed to the resize function, or without one replaced
/// by a clone of the template, and the accounts change by the difference; an
/// empty slot stays empty.
#[verifier::opaque]
pub open spec fn resize_vec<E: ArkEnv>(
    m: MemView,
    e: E,
    resize: Option<FnId>,
    lrw_diff: i64,
    liw_diff: i64,
    tmpl: NVec,
    v: NVec,
) -> ResizeOut<E> {
    let grown = put_acc(m, ArkAccounts {
            lrw: m.acc().lrw.wrapping_add(lrw_diff),
            liw: m.acc().liw.wrapping_add(liw_diff),
            ..m.acc()
        });
    if !v.live {
        ResizeOut { m, e, v, ok: true }
    } else {
        match resize {
            None => ResizeOut { m: grown, e, v: v_clone(tmpl), ok: true },
            Some(f) => {
                let r = e.user_reply(resize_call(f), tmpl, v);
                if r.flag != 0 {
                    ResizeOut { m, e: r.env, v: r.out, ok: false }
                } else {
                    ResizeOut { m: grown, e: r.env, v: r.out, ok: true }
                }
            },
        }
    }
}

/// Resizes one vector.
pub fn arkResizeVec<E: ArkEnv>(
    ark_mem: &mut ARKodeMemRec,
    env: &mut E,
    resize: Option<FnId>,
    lrw_diff: sunindextype,
    liw_diff: sunindextype,
    tmpl: &N_Vector,
    v: &mut N_Vector,
) -> (r: sunbooleantype)
    ensures
        ({
            let o = resize_vec(
                old(ark_mem)@,
                *old(env),
                resize,
                lrw_diff,
                liw_diff,
                tmpl@,
                old(v)@,
            );
            &&& final(ark_mem)@ == o.m
            &&& *final(env) == o.e
            &&& final(v)@ == o.v
            &&& r == o.ok
        }),
{
    reveal(resize_vec);
    if v.live {
        match resize {
            None => {
                *v = N_VClone(tmpl);
            },
            Some(f) => {
                let c: UserCall = resize_call(f);
                let flag: i32 = env.user(c, tmpl, v);
                if flag != 0 {
                    return SUNFALSE;
                }
            },
        }
        let s: ArkAccounts = ark_mem.get_acc();
        ark_mem.set_acc(ArkAccounts {
            lrw: s.lrw.wrapping_add(lrw_diff),
            liw: s.liw.wrapping_add(liw_diff),
            ..s
        });
    }
    SUNTRUE
}

/// Entries `i..n` of an array handed to the resize function one by one, up
/// to the first failure.
pub open spec fn resize_each<E: ArkEnv>(e: E, f: FnId, tmpl: NVec, v: Seq<NVec>, i: nat, n: nat) -> (
    E,
    Seq<NVec>,
    bool,
)
    decreases n - i,
{
    if i >= n || i >= v.len() {
        (e, v, true)
    } else {
        let r = e.user_reply(resize_call(f), tmpl, v[i as int]);
        let w = v.update(i as int, r.out);
        if r.flag != 0 {
            (r.env, w, false)
        } else {
            resize_each(r.env, f, tmpl, w, i + 1, n)
        }
    }
}

/// An array after resizing.
pub open spec fn resize_array<E: ArkEnv>(
    e: E,
    resize: Option<FnId>,
    count: i32,
    tmpl: NVec,
    v: Seq<NVec>,
) -> (E, Seq<NVec>, bool) {
    if v.len() == 0 {
        (e, v, true)
    } else {
        match resize {
            None => (e, clones(count, tmpl), count > 0),
            Some(f) => resize_each(
                e,
                f,
                tmpl,
                v,
                0,
                if count > 0 {
                    count as nat
                } else {
                    0
                },
            ),
        }
    }
}

/// Resizes an array of vectors; the accounts change only on success.
pub fn arkResizeVecArray<E: ArkEnv>(
    env: &mut E,
    resize: Option<FnId>,
    count: i32,
    tmpl: &N_Vector,
    v: &mut Vec<N_Vector>,
    lrw_diff: sunindextype,
    lrw: &mut i64,
    liw_diff: sunindextype,
    liw: &mut i64,
) -> (r: sunbooleantype)
    ensures
        ({
            let o = resize_array(*old(env), resize, count, tmpl@, nvecs(old(v)@));
            &&& *final(env) == o.0
            &&& nvecs(final(v)@) == o.1
            &&& r == o.2
            &&& *final(lrw) == if o.2 && nvecs(old(v)@).len() > 0 {
                account(*old(lrw), count, lrw_diff)
            } else {
                *old(lrw)
            }
            &&& *final(liw) == if o.2 && nvecs(old(v)@).len() > 0 {
                account(*old(liw), count, liw_diff)
            } else {
                *old(liw)
            }
        }),
{
    let ghost e0 = *env;
    let ghost v0 = nvecs(v@);
    if v.len() > 0 {
        match resize {
            None => {
                *v = clone_array(count, tmpl);
                assert(nvecs(v@).len() == v@.len());
                if v.len() == 0 {
                    return SUNFALSE;
                }
            },
            Some(f) => {
                let n: usize = v.len();
                let mut i: usize = 0;
                let ghost top: nat = if count > 0 {
                    count as nat
                } else {
                    0
                };
                while i < n && count > 0 && i < count as usize
                    invariant
                        n == v@.len(),
                        i <= n,
                        top == if count > 0 {
                            count as nat
                        } else {
                            0
                        },
                        resize_each(e0, f, tmpl@, v0, 0, top) == resize_each(
                            *env,
                            f,
                            tmpl@,
                            nvecs(v@),
                            i as nat,
                            top,
                        ),
                        resize == Some(f),
                        v0.len() > 0,
                        *lrw == *old(lrw),
                        *liw == *old(liw),
                        e0 == *old(env),
                        v0 == nvecs(old(v)@),
                    decreases n - i,
                {
                    let c: UserCall = resize_call(f);
                    let mut w: N_Vector = copy_vector(&v[i]);
                    let ghost before = nvecs(v@);
                    let flag: i32 = env.user(c, tmpl, &mut w);
                    v.set(i, w);
                    assert(nvecs(v@) =~= before.update(i as int, w@));
                    if flag != 0 {
                        return SUNFALSE;
                    }
                    i = i + 1;
                }
                assert(resize_each(e0, f, tmpl@, v0, 0, top) == (*env, nvecs(v@), true));
            },
        }
        *lrw = lrw.wrapping_add((count as i64).wrapping_mul(lrw_diff));
        *liw = liw.wrapping_add((count as i64).wrapping_mul(liw_diff));
    }
    SUNTRUE
}

/// Number of vector slots that are resized together.
pub const RESIZED_SLOTS: u32 = 11;

/// Number of vector slots.
pub const ALL_SLOTS: u32 = 12;

/// Position of the residual weights among the slots.
pub const RWT_SLOT: u32 = 3;

/// Position of the residual tolerances among the slots.
pub const VRABSTOL_SLOT: u32 = 1;

/// The vector in slot `i`.
#[verifier::opaque]
pub open spec fn slot(m: MemView, i: u32) -> NVec {
    if i == 0 {
        m.Vabstol()
    } else if i == 1 {
        m.VRabstol()
    } else if i == 2 {
        m.ewt()
    } else if i == 3 {
        m.rwt()
    } else if i == 4 {
        m.yn()
    } else if i == 5 {
        m.fn_()
    } else if i == 6 {
        m.tempv1()
    } else if i == 7 {
        m.tempv2()
    } else if i == 8 {
        m.tempv3()
    } else if i == 9 {
        m.tempv4()
    } else if i == 10 {
        m.tempv5()
    } else if i == 11 {
        m.constraints()
    } else {
        v_null()
    }
}

/// The memory with slot `i` replaced.
#[verifier::opaque]
pub open spec fn with_slot(m: MemView, i: u32, v: NVec) -> MemView {
    if i == 0 {
        put_Vabstol(m, v)
    } else if i == 1 {
        put_VRabstol(m, v)
    } else if i == 2 {
        put_ewt(m, v)
    } else if i == 3 {
        put_rwt(m, v)
    } else if i == 4 {
        put_yn(m, v)
    } else if i == 5 {
        put_fn_(m, v)
    } else if i == 6 {
        put_tempv1(m, v)
    } else if i == 7 {
        put_tempv2(m, v)
    } else if i == 8 {
        put_tempv3(m, v)
    } else if i == 9 {
        put_tempv4(m, v)
    } else if i == 10 {
        put_tempv5(m, v)
    } else if i == 11 {
        put_constraints(m, v)
    } else {
        m
    }
}

fn take_slot(ark_mem: &ARKodeMemRec, i: u32) -> (r: N_Vector)
    ensures
        r@ == slot(ark_mem@, i),
{
    reveal(slot);
    if i == 0 {
        ark_mem.get_Vabstol()
    } else if i == 1 {
        ark_mem.get_VRabstol()
    } else if i == 2 {
        ark_mem.get_ewt()
    } else if i == 3 {
        ark_mem.get_rwt()
    } else if i == 4 {
        ark_mem.get_yn()
    } else if i == 5 {
        ark_mem.get_fn_()
    } else if i == 6 {
        ark_mem.get_tempv1()
    } else if i == 7 {
        ark_mem.get_tempv2()
    } else if i == 8 {
        ark_mem.get_tempv3()
    } else if i == 9 {
        ark_mem.get_tempv4()
    } else if i == 10 {
        ark_mem.get_tempv5()
    } else if i == 11 {
        ark_mem.get_constraints()
    } else {
        null_vector()
    }
}

fn put_slot(ark_mem: &mut ARKodeMemRec, i: u32, v: N_Vector)
    ensures
        final(ark_mem)@ == with_slot(old(ark_mem)@, i, v@),
{
    reveal(with_slot);
    if i == 0 {
        ark_mem.set_Vabstol(v);
    } else if i == 1 {
        ark_mem.set_VRabstol(v);
    } else if i == 2 {
        ark_mem.set_ewt(v);
    } else if i == 3 {
        ark_mem.set_rwt(v);
    } else if i == 4 {
        ark_mem.set_yn(v);
    } else if i == 5 {
        ark_mem.set_fn_(v);
    } else if i == 6 {
        ark_mem.set_tempv1(v);
    } else if i == 7 {
        ark_mem.set_tempv2(v);
    } else if i == 8 {
        ark_mem.set_tempv3(v);
    } else if i == 9 {
        ark_mem.set_tempv4(v);
    } else if i == 10 {
        ark_mem.set_tempv5(v);
    } else if i == 11 {
        ark_mem.set_constraints(v);
    }
}

/// The memory with the basic work vectors allocated like `tmpl`, one after the
/// other, where they were not; false at the first that has to be allocated and
/// cannot be.
pub open spec fn alloc_vectors(m: MemView, tmpl: NVec) -> (MemView, bool) {
    let a = alloc_vec(m, tmpl, m.ewt());
    let m0 = put_ewt(a.0, a.1);
    let m1 = if m0.tol().rwt_is_ewt {
        put_rwt(m0, a.1)
    } else {
        m0
    };
    let b = alloc_vec(m1, tmpl, m1.yn());
    let m2 = put_yn(b.0, b.1);
    let c = alloc_vec(m2, tmpl, m2.tempv1());
    let m3 = put_tempv1(c.0, c.1);
    let d = alloc_vec(m3, tmpl, m3.tempv2());
    let m4 = put_tempv2(d.0, d.1);
    let e = alloc_vec(m4, tmpl, m4.tempv3());
    let m5 = put_tempv3(e.0, e.1);
    let f = alloc_vec(m5, tmpl, m5.tempv4());
    if !a.2 {
        (m, false)
    } else if !b.2 {
        (m1, false)
    } else if !c.2 {
        (m2, false)
    } else if !d.2 {
        (m3, false)
    } else if !e.2 {
        (m4, false)
    } else if !f.2 {
        (m5, false)
    } else {
        (put_tempv4(f.0, f.1), true)
    }
}

/// A refused allocation changes nothing.
proof fn lemma_alloc_refused(m: MemView, tmpl: NVec, v: NVec)
    ensures
        !alloc_vec(m, tmpl, v).2 ==> alloc_vec(m, tmpl, v).0 == m,
{
    reveal(alloc_vec);
}

/// Allocates error weights, solution and four temporary vectors.
pub fn arkAllocVectors(ark_mem: &mut ARKodeMemRec, tmpl: &N_Vector) -> (r: sunbooleantype)
    ensures
        final(ark_mem)@ == alloc_vectors(old(ark_mem)@, tmpl@).0,
        r == alloc_vectors(old(ark_mem)@, tmpl@).1,
{
    let mut v: N_Vector = ark_mem.get_ewt();
    proof {
        lemma_alloc_refused(ark_mem@, tmpl@, v@);
    }
    if !arkAllocVec(ark_mem, tmpl, &mut v) {
        return SUNFALSE;
    }
    let w: N_Vector = copy_vector(&v);
    ark_mem.set_ewt(v);
    if ark_mem.get_tol().rwt_is_ewt {
        ark_mem.set_rwt(w);
    }
    let mut v: N_Vector = ark_mem.get_yn();
    proof {
        lemma_alloc_refused(ark_mem@, tmpl@, v@);
    }
    if !arkAllocVec(ark_mem, tmpl, &mut v) {
        return SUNFALSE;
    }
    ark_mem.set_yn(v);
    let mut v: N_Vector = ark_mem.get_tempv1();
    proof {
        lemma_alloc_refused(ark_mem@, tmpl@, v@);
    }
    if !arkAllocVec(ark_mem, tmpl, &mut v) {
        return SUNFALSE;
    }
    ark_mem.set_tempv1(v);
    let mut v: N_Vector = ark_mem.get_tempv2();
    proof {
        lemma_alloc_refused(ark_mem@, tmpl@, v@);
    }
    if !arkAllocVec(ark_mem, tmpl, &mut v) {
        return SUNFALSE;
    }
    ark_mem.set_tempv2(v);
    let mut v: N_Vector = ark_mem.get_tempv3();
    proof {
        lemma_alloc_refused(ark_mem@, tmpl@, v@);
    }
    if !arkAllocVec(ark_mem, tmpl, &mut v) {
        return SUNFALSE;
    }
    ark_mem.set_tempv3(v);
    let mut v: N_Vector = ark_mem.get_tempv4();
    proof {
        lemma_alloc_refused(ark_mem@, tmpl@, v@);
    }
    if !arkAllocVec(ark_mem, tmpl, &mut v) {
        return SUNFALSE;
    }
    ark_mem.set_tempv4(v);
    SUNTRUE
}

/// Slots from `i` on resized one after the other, up to the first failure;
/// residual weights that alias the error weights follow them.
pub open spec fn resize_from<E: ArkEnv>(
    m: MemView,
    e: E,
    resize: Option<FnId>,
    lrw_diff: i64,
    liw_diff: i64,
    tmpl: NVec,
    i: u32,
) -> (MemView, E, bool)
    decreases RESIZED_SLOTS - i,
{
    if i >= RESIZED_SLOTS {
        (m, e, true)
    } else if i == RWT_SLOT && m.tol().rwt_is_ewt {
        resize_from(
            put_rwt(m, m.ewt()),
            e,
            resize,
            lrw_diff,
            liw_diff,
            tmpl,
            (i + 1) as u32,
        )
    } else {
        let o = resize_vec(m, e, resize, lrw_diff, liw_diff, tmpl, slot(m, i));
        let m1 = with_slot(o.m, i, o.v);
        if !o.ok {
            (m1, o.e, false)
        } else {
            resize_from(m1, o.e, resize, lrw_diff, liw_diff, tmpl, (i + 1) as u32)
        }
    }
}

/// Resizes every allocated work vector.
pub fn arkResizeVectors<E: ArkEnv>(
    ark_mem: &mut ARKodeMemRec,
    env: &mut E,
    resize: Option<FnId>,
    lrw_diff: sunindextype,
    liw_diff: sunindextype,
    tmpl: &N_Vector,
) -> (r: sunbooleantype)
    ensures
        ({
            let o = resize_from(old(ark_mem)@, *old(env), resize, lrw_diff, liw_diff, tmpl@, 0);
            &&& final(ark_mem)@ == o.0
            &&& *final(env) == o.1
            &&& r == o.2
        }),
{
    let ghost goal = resize_from(ark_mem@, *env, resize, lrw_diff, liw_diff, tmpl@, 0);
    let mut i: u32 = 0;
    while i < RESIZED_SLOTS
        invariant
            i <= RESIZED_SLOTS,
            goal == resize_from(ark_mem@, *env, resize, lrw_diff, liw_diff, tmpl@, i),
            goal == resize_from(
                old(ark_mem)@,
                *old(env),
                resize,
                lrw_diff,
                liw_diff,
                tmpl@,
                0,
            ),
        decreases RESIZED_SLOTS - i,
    {
        let alias: bool = ark_mem.get_tol().rwt_is_ewt;
        if i == RWT_SLOT && alias {
            ark_mem.set_rwt(ark_mem.get_ewt());
        } else {
            let mut v: N_Vector = take_slot(ark_mem, i);
            let ok: bool = arkResizeVec(ark_mem, env, resize, lrw_diff, liw_diff, tmpl, &mut v);
            put_slot(ark_mem, i, v);
            if !ok {
                return SUNFALSE;
            }
        }
        i = i + 1;
    }
    SUNTRUE
}

/// Slots from `i` on released. Residual tolerances are kept, and residual
/// weights where they alias the error weights.
pub open spec fn free_from(m: MemView, i: u32) -> MemView
    decreases ALL_SLOTS - i,
{
    if i >= ALL_SLOTS {
        m
    } else if i == VRABSTOL_SLOT || (i == RWT_SLOT && m.tol().rwt_is_ewt) {
        free_from(m, (i + 1) as u32)
    } else {
        let o = free_vec(m, slot(m, i));
        free_from(with_slot(o.0, i, o.1), (i + 1) as u32)
    }
}

/// Releases the work vectors.
pub fn arkFreeVectors(ark_mem: &mut ARKodeMemRec)
    ensures
        final(ark_mem)@ == free_from(old(ark_mem)@, 0),
{
    let mut i: u32 = 0;
    while i < ALL_SLOTS
        invariant
            i <= ALL_SLOTS,
            free_from(old(ark_mem)@, 0) == free_from(ark_mem@, i),
        decreases ALL_SLOTS - i,
    {
        let alias: bool = ark_mem.get_tol().rwt_is_ewt;
        if i == VRABSTOL_SLOT || (i == RWT_SLOT && alias) {
        } else {
            let mut v: N_Vector = take_slot(ark_mem, i);
            arkFreeVec(ark_mem, &mut v);
            put_slot(ark_mem, i, v);
        }
        i = i + 1;
    }
}

} // verus!
