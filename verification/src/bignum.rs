//! Natural numbers of any size, as sequences of 32-bit limbs, least
//! significant limb first.
use vstd::arithmetic::power2::{lemma_pow2_adds, lemma_pow2_pos, pow2};
use vstd::prelude::*;

verus! {

/// One more than the largest limb.
pub const LIMB: u64 = 0x1_0000_0000;

/// Limb `i`, zero beyond the last one.
pub open spec fn limb(s: Seq<u32>, i: int) -> nat {
    if 0 <= i < s.len() {
        s[i] as nat
    } else {
        0
    }
}

/// Value of the lowest `k` limbs.
pub open spec fn low(s: Seq<u32>, k: nat) -> nat
    decreases k,
{
    if k == 0 {
        0
    } else {
        low(s, (k - 1) as nat) + limb(s, k - 1) * pow2((32 * (k - 1)) as nat)
    }
}

/// Value of all limbs.
pub open spec fn big(s: Seq<u32>) -> nat {
    low(s, s.len())
}

proof fn lemma_weight(k: nat)
    ensures
        pow2((32 * (k + 1)) as nat) == pow2((32 * k) as nat) * (LIMB as nat),
        pow2((32 * k) as nat) > 0,
{
    lemma_pow2_adds((32 * k) as nat, 32);
    lemma_pow2_pos((32 * k) as nat);
    vstd::arithmetic::power2::lemma2_to64();
}

proof fn lemma_low_beyond(s: Seq<u32>, k: nat)
    requires
        k >= s.len(),
    ensures
        low(s, k) == big(s),
    decreases k,
{
    if k > s.len() {
        lemma_low_beyond(s, (k - 1) as nat);
        assert(0 * pow2((32 * (k - 1)) as nat) == 0);
    }
}

proof fn lemma_low_bound(s: Seq<u32>, k: nat)
    ensures
        low(s, k) < pow2((32 * k) as nat),
    decreases k,
{
    if k == 0 {
        lemma_pow2_pos(0);
    } else {
        let j = (k - 1) as nat;
        lemma_low_bound(s, j);
        lemma_weight(j);
        let w = pow2((32 * j) as nat);
        let x = limb(s, j as int);
        let l = low(s, j);
        assert(l + x * w < w * (LIMB as nat)) by (nonlinear_arith)
            requires
                l < w,
                x < LIMB as nat,
        ;
    }
}

proof fn lemma_low_same(s: Seq<u32>, t: Seq<u32>, k: nat)
    requires
        forall|i: int| 0 <= i < k ==> limb(s, i) == limb(t, i),
    ensures
        low(s, k) == low(t, k),
    decreases k,
{
    if k > 0 {
        lemma_low_same(s, t, (k - 1) as nat);
        assert(limb(s, k - 1) == limb(t, k - 1));
    }
}

proof fn lemma_carry(l: nat, l0: nat, w: nat, m: nat, c: nat, o: nat, q: nat, c0: nat, c1: nat)
    requires
        l + c0 * w == l0 * m + c,
        o * m + c0 == q + c1 * (LIMB as nat),
    ensures
        (l + q * w) + c1 * (w * (LIMB as nat)) == (l0 + o * w) * m + c,
{
    let b = LIMB as nat;
    assert((l + q * w) + c1 * (w * b) == l + w * (q + c1 * b)) by (nonlinear_arith);
    assert(w * (o * m + c0) == (o * w) * m + c0 * w) by (nonlinear_arith);
    assert((l0 + o * w) * m == l0 * m + (o * w) * m) by (nonlinear_arith);
}

/// `v * m + c`.
pub fn mul_add(v: &mut Vec<u32>, m: u32, c: u32)
    ensures
        big(final(v)@) == big(old(v)@) * (m as nat) + c as nat,
{
    let n: usize = v.len();
    let mut carry: u32 = c;
    let mut i: usize = 0;
    let ghost v0 = v@;
    proof {
        lemma_pow2_pos(0);
        vstd::arithmetic::power2::lemma2_to64();
        assert(carry * 1 == carry);
        assert(0 * m == 0);
    }
    while i < n
        invariant
            n == v0.len(),
            v@.len() == n,
            i <= n,
            forall|j: int| i <= j < n ==> v@[j] == v0[j],
            low(v@, i as nat) + carry as nat * pow2((32 * i) as nat) == low(v0, i as nat)
                * (m as nat) + c as nat,
        decreases n - i,
    {
        let ghost before = v@;
        let o: u32 = v[i];
        assert(o as u64 * m as u64 <= 0xffff_ffff * 0xffff_ffff) by (nonlinear_arith)
            requires
                o <= 0xffff_ffffu32,
                m <= 0xffff_ffffu32,
        ;
        let x: u64 = o as u64 * m as u64 + carry as u64;
        let q: u32 = (x % LIMB) as u32;
        let c1: u32 = (x / LIMB) as u32;
        v.set(i, q);
        proof {
            lemma_weight(i as nat);
            lemma_low_same(v@, before, i as nat);
            lemma_carry(
                low(before, i as nat),
                low(v0, i as nat),
                pow2((32 * i) as nat),
                m as nat,
                c as nat,
                o as nat,
                q as nat,
                carry as nat,
                c1 as nat,
            );
        }
        carry = c1;
        i = i + 1;
    }
    if carry != 0 {
        let ghost before = v@;
        v.push(carry);
        proof {
            lemma_low_same(v@, before, n as nat);
        }
    } else {
        assert(0 * pow2((32 * n) as nat) == 0);
    }
}

fn limb_at(v: &Vec<u32>, i: usize) -> (r: u32)
    ensures
        r == limb(v@, i as int),
{
    if i < v.len() {
        v[i]
    } else {
        0
    }
}

/// `a - b`, or `None` where `b` is larger.
pub fn subtract(a: &Vec<u32>, b: &Vec<u32>) -> (r: Option<Vec<u32>>)
    ensures
        match r {
            None => big(a@) < big(b@),
            Some(d) => big(b@) <= big(a@) && big(d@) == big(a@) - big(b@),
        },
{
    let n: usize = if a.len() < b.len() {
        b.len()
    } else {
        a.len()
    };
    let mut d: Vec<u32> = Vec::new();
    let mut borrow: u32 = 0;
    let mut i: usize = 0;
    proof {
        assert(0 * pow2(0) == 0);
    }
    while i < n
        invariant
            i <= n,
            d@.len() == i,
            borrow <= 1,
            low(a@, i as nat) + borrow as nat * pow2((32 * i) as nat) == low(b@, i as nat) + low(
                d@,
                i as nat,
            ),
        decreases n - i,
    {
        let ghost before = d@;
        let x: u32 = limb_at(a, i);
        let y: u32 = limb_at(b, i);
        let z: u64 = LIMB + x as u64 - y as u64 - borrow as u64;
        let q: u32 = (z % LIMB) as u32;
        let b1: u32 = if z < LIMB {
            1
        } else {
            0
        };
        d.push(q);
        proof {
            lemma_weight(i as nat);
            lemma_low_same(d@, before, i as nat);
            let w = pow2((32 * i) as nat);
            let la = low(a@, i as nat);
            let lb = low(b@, i as nat);
            let ld = low(before, i as nat);
            assert((la + x * w) + b1 * (w * (LIMB as nat)) == (lb + y * w) + (ld + q * w))
                by (nonlinear_arith)
                requires
                    la + borrow * w == lb + ld,
                    x + b1 * (LIMB as nat) == y + borrow + q,
            ;
        }
        borrow = b1;
        i = i + 1;
    }
    proof {
        lemma_low_beyond(a@, n as nat);
        lemma_low_beyond(b@, n as nat);
        lemma_low_bound(d@, n as nat);
        assert(0 * pow2((32 * n) as nat) == 0);
        assert(1 * pow2((32 * n) as nat) == pow2((32 * n) as nat));
    }
    if borrow == 0 {
        Some(d)
    } else {
        None
    }
}

/// Whether the number is not zero.
pub fn nonzero(v: &Vec<u32>) -> (r: bool)
    ensures
        r == (big(v@) != 0),
{
    let n: usize = v.len();
    let mut r: bool = false;
    let mut i: usize = 0;
    while i < n
        invariant
            n == v@.len(),
            i <= n,
            r == (low(v@, i as nat) != 0),
        decreases n - i,
    {
        proof {
            lemma_weight(i as nat);
            let w = pow2((32 * i) as nat);
            let x = v@[i as int];
            assert((x * w == 0) == (x == 0)) by (nonlinear_arith)
                requires
                    w > 0,
            ;
        }
        if v[i] != 0 {
            r = true;
        }
        i = i + 1;
    }
    r
}

} // verus!
