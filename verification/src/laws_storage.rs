//! Laws of the vector storage.
use crate::arkode_impl::{ArkAccounts, MemView};
use crate::arkode_mem::{
    put_VRabstol, put_Vabstol, put_acc, put_constraints, put_ewt, put_fn_, put_rwt, put_tempv1,
    put_tempv2, put_tempv3, put_tempv4, put_tempv5, put_yn,
};
use crate::arkode_vectors::{
    alloc_vec, alloc_vectors, charge, free_from, free_vec, refund, slot, with_slot, ALL_SLOTS,
    RWT_SLOT, VRABSTOL_SLOT,
};
use crate::nvector::{v_clone, NVec};
use vstd::prelude::*;

verus! {

/// Accounts after one more vector.
pub open spec fn one_more(a: ArkAccounts) -> ArkAccounts {
    ArkAccounts {
        lrw: a.lrw.wrapping_add(a.lrw1),
        liw: a.liw.wrapping_add(a.liw1),
        ..a
    }
}

/// Accounts after `n` vectors fewer.
pub open spec fn fewer(a: ArkAccounts, n: nat) -> ArkAccounts
    decreases n,
{
    if n == 0 {
        a
    } else {
        fewer(
            ArkAccounts {
                lrw: a.lrw.wrapping_sub(a.lrw1),
                liw: a.liw.wrapping_sub(a.liw1),
                ..a
            },
            (n - 1) as nat,
        )
    }
}

/// Whether the vector in place `i` is freed with the integrator.
pub open spec fn is_freed(m: MemView, i: u32) -> bool {
    i != VRABSTOL_SLOT && !(i == RWT_SLOT && m.tol().rwt_is_ewt) && slot(m, i).live
}

/// Number of vectors from place `i` on that are freed with the integrator.
pub open spec fn freed_from(m: MemView, i: u32) -> nat
    decreases ALL_SLOTS - i,
{
    if i >= ALL_SLOTS {
        0
    } else {
        freed_from(m, (i + 1) as u32) + if is_freed(m, i) {
            1nat
        } else {
            0nat
        }
    }
}

proof fn lemma_with_slot(m: MemView, i: u32, v: NVec)
    ensures
        with_slot(m, i, v).acc() == m.acc(),
        with_slot(m, i, v).tol() == m.tol(),
        forall|j: u32| j != i ==> #[trigger] slot(with_slot(m, i, v), j) == slot(m, j),
{
    reveal(with_slot);
    reveal(slot);
    reveal(put_Vabstol);
    reveal(put_VRabstol);
    reveal(put_ewt);
    reveal(put_rwt);
    reveal(put_yn);
    reveal(put_fn_);
    reveal(put_tempv1);
    reveal(put_tempv2);
    reveal(put_tempv3);
    reveal(put_tempv4);
    reveal(put_tempv5);
    reveal(put_constraints);
}

proof fn lemma_freed_same(a: MemView, b: MemView, i: u32)
    requires
        a.tol() == b.tol(),
        forall|j: u32| j >= i ==> #[trigger] slot(a, j) == slot(b, j),
    ensures
        freed_from(a, i) == freed_from(b, i),
    decreases ALL_SLOTS - i,
{
    if i < ALL_SLOTS {
        assert(slot(a, i) == slot(b, i));
        lemma_freed_same(a, b, (i + 1) as u32);
    }
}

proof fn lemma_refund(m: MemView)
    ensures
        refund(m).acc() == fewer(m.acc(), 1),
        refund(m).tol() == m.tol(),
        forall|j: u32| #[trigger] slot(refund(m), j) == slot(m, j),
{
    reveal(refund);
    reveal(put_acc);
    reveal(slot);
    reveal_with_fuel(fewer, 2);
}

/// Freeing the vectors of an integrator takes one vector off the accounts for
/// each that is there.
pub proof fn law_free_accounts(m: MemView, i: u32)
    ensures
        free_from(m, i).acc() == fewer(m.acc(), freed_from(m, i)),
    decreases ALL_SLOTS - i,
{
    if i < ALL_SLOTS {
        let k = (i + 1) as u32;
        if i == VRABSTOL_SLOT || (i == RWT_SLOT && m.tol().rwt_is_ewt) {
            law_free_accounts(m, k);
        } else {
            reveal(free_vec);
            let o = free_vec(m, slot(m, i));
            let m1 = with_slot(o.0, i, o.1);
            lemma_refund(m);
            lemma_with_slot(o.0, i, o.1);
            law_free_accounts(m1, k);
            lemma_freed_same(m1, m, k);
            if slot(m, i).live {
                reveal_with_fuel(fewer, 2);
            }
        }
    }
}

proof fn lemma_alloc(m: MemView, tmpl: NVec, v: NVec)
    requires
        tmpl.ops().nvclone,
        tmpl.ops().nvdestroy,
        !v.live,
    ensures
        alloc_vec(m, tmpl, v).0.acc() == one_more(m.acc()),
        alloc_vec(m, tmpl, v).0.tol() == m.tol(),
        alloc_vec(m, tmpl, v).1.live,
        alloc_vec(m, tmpl, v).2,
        forall|j: u32| #[trigger] slot(alloc_vec(m, tmpl, v).0, j) == slot(m, j),
{
    reveal(alloc_vec);
    reveal(charge);
    reveal(put_acc);
    reveal(slot);
    reveal(v_clone);
}

/// Accounts after `n` vectors more.
pub open spec fn more(a: ArkAccounts, n: nat) -> ArkAccounts
    decreases n,
{
    if n == 0 {
        a
    } else {
        one_more(more(a, (n - 1) as nat))
    }
}

proof fn lemma_more_fewer(a: ArkAccounts, n: nat)
    ensures
        fewer(more(a, n), n) == a,
        more(a, n).lrw1 == a.lrw1,
        more(a, n).liw1 == a.liw1,
    decreases n,
{
    if n > 0 {
        lemma_more_fewer(a, (n - 1) as nat);
    }
}

/// One vector allocated in an empty place.
proof fn lemma_alloc_slot(m: MemView, tmpl: NVec, i: u32)
    requires
        tmpl.ops().nvclone,
        tmpl.ops().nvdestroy,
        !slot(m, i).live,
        i < ALL_SLOTS,
    ensures
        ({
            let a = alloc_vec(m, tmpl, slot(m, i));
            let r = with_slot(a.0, i, a.1);
            &&& r.acc() == one_more(m.acc())
            &&& r.tol() == m.tol()
            &&& slot(r, i).live
            &&& a.2
            &&& forall|j: u32| j != i ==> #[trigger] slot(r, j) == slot(m, j)
        }),
{
    lemma_alloc(m, tmpl, slot(m, i));
    let a = alloc_vec(m, tmpl, slot(m, i));
    lemma_with_slot(a.0, i, a.1);
    reveal(with_slot);
    reveal(slot);
    reveal(put_Vabstol);
    reveal(put_VRabstol);
    reveal(put_ewt);
    reveal(put_rwt);
    reveal(put_yn);
    reveal(put_fn_);
    reveal(put_tempv1);
    reveal(put_tempv2);
    reveal(put_tempv3);
    reveal(put_tempv4);
    reveal(put_tempv5);
    reveal(put_constraints);
}

/// Freeing the vectors of a new integrator takes back exactly what allocating
/// them took.
pub proof fn law_alloc_free_all(m: MemView, tmpl: NVec)
    requires
        tmpl.ops().nvclone,
        tmpl.ops().nvdestroy,
        m.tol().rwt_is_ewt,
        forall|i: u32| i < ALL_SLOTS ==> !(#[trigger] slot(m, i)).live,
    ensures
        alloc_vectors(m, tmpl).1,
        free_from(alloc_vectors(m, tmpl).0, 0).acc() == m.acc(),
{
    reveal(alloc_vectors);
    let s0 = slot(m, 2);
    let a = alloc_vec(m, tmpl, s0);
    let m0 = with_slot(a.0, 2, a.1);
    lemma_alloc_slot(m, tmpl, 2);
    let m1 = with_slot(m0, 3, a.1);
    lemma_with_slot(m0, 3, a.1);
    lemma_alloc_slot(m1, tmpl, 4);
    let b = alloc_vec(m1, tmpl, slot(m1, 4));
    let m2 = with_slot(b.0, 4, b.1);
    lemma_alloc_slot(m2, tmpl, 6);
    let c = alloc_vec(m2, tmpl, slot(m2, 6));
    let m3 = with_slot(c.0, 6, c.1);
    lemma_alloc_slot(m3, tmpl, 7);
    let d = alloc_vec(m3, tmpl, slot(m3, 7));
    let m4 = with_slot(d.0, 7, d.1);
    lemma_alloc_slot(m4, tmpl, 8);
    let e = alloc_vec(m4, tmpl, slot(m4, 8));
    let m5 = with_slot(e.0, 8, e.1);
    lemma_alloc_slot(m5, tmpl, 9);
    let f = alloc_vec(m5, tmpl, slot(m5, 9));
    let m6 = with_slot(f.0, 9, f.1);
    assert(alloc_vectors(m, tmpl) == (m6, true)) by {
        reveal(slot);
        reveal(with_slot);
    }
    assert(m6.acc() == more(m.acc(), 6)) by {
        reveal_with_fuel(more, 7);
    }
    assert(freed_from(m6, 0) == 6) by {
        reveal_with_fuel(freed_from, 13);
        assert(!slot(m, 0).live);
        assert(!slot(m, 5).live);
        assert(!slot(m, 10).live);
        assert(!slot(m, 11).live);
    }
    law_free_accounts(m6, 0);
    lemma_more_fewer(m.acc(), 6);
}

} // verus!
