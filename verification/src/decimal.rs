//! The numbers nearest to fractions and to decimal fractions.
use crate::arith::{lemma_scale_quotient, with_sign};
use crate::bignum::{big, mul_add, nonzero, subtract};
use crate::binary64::{bit_length, gap_exponent, nearest, signed, sunrealtype, EXP_STEP, INF_BITS};
use crate::rounding::round_scaled;
use vstd::arithmetic::div_mod::{
    lemma_fundamental_div_mod, lemma_fundamental_div_mod_converse, lemma_mod_bound,
};
use vstd::arithmetic::power2::{
    lemma2_to64, lemma2_to64_rest, lemma_pow2_adds, lemma_pow2_pos, lemma_pow2_strictly_increases,
    pow2,
};
use vstd::prelude::*;

verus! {

/// The number nearest to `n / d`, with a sign.
pub open spec fn rational(neg: bool, n: nat, d: nat) -> sunrealtype {
    let x = n * pow2(1075);
    signed(neg, nearest(x / d, x % d != 0))
}

/// A number has exactly its number of binary digits.
proof fn lemma_digits_range(n: nat)
    requires
        n > 0,
    ensures
        bit_length(n) > 0,
        pow2((bit_length(n) - 1) as nat) <= n < pow2(bit_length(n)),
    decreases n,
{
    lemma2_to64();
    if n == 1 {
        assert(bit_length(0) == 0);
        assert(bit_length(1) == 1 + bit_length(0));
    } else {
        let l = bit_length(n / 2);
        lemma_digits_range(n / 2);
        lemma_pow2_adds((l - 1) as nat, 1);
        lemma_pow2_adds(l, 1);
    }
}

/// Too many units for any finite number.
proof fn lemma_nearest_huge(f: nat, inexact: bool)
    requires
        f >= pow2(2099),
    ensures
        nearest(f, inexact) == INF_BITS as nat,
{
    reveal(nearest);
    let q = f / 2;
    let l = bit_length(q);
    lemma_pow2_adds(1, 2098);
    lemma_pow2_pos(2098);
    lemma2_to64();
    assert(q >= pow2(2098));
    lemma_digits_range(q);
    if l < 2098 {
        lemma_pow2_strictly_increases(l, 2098);
    }
    assert(l >= 2099);
    let k = gap_exponent(q);
    assert(k == l - 53);
    let gap = pow2(k + 1);
    lemma_pow2_pos(k + 1);
    lemma_pow2_adds(52, k);
    lemma_pow2_adds(1, k);
    lemma_pow2_adds(52, k + 1);
    lemma2_to64_rest();
    assert(pow2(52) == EXP_STEP as nat);
    assert(pow2((l - 1) as nat) == pow2(52) * pow2(k));
    assert(q >= pow2(52) * pow2(k));
    assert(f >= pow2(52) * gap) by (nonlinear_arith)
        requires
            f >= 2 * (pow2(52) * pow2(k)),
            gap == 2 * pow2(k),
    ;
    lemma_fundamental_div_mod(f as int, gap as int);
    lemma_mod_bound(f as int, gap as int);
    let n = f / gap;
    assert(n >= pow2(52)) by (nonlinear_arith)
        requires
            f >= pow2(52) * gap,
            f == gap * n + f % gap,
            f % gap < gap,
            gap > 0,
    ;
    assert(k * (EXP_STEP as nat) >= 2046 * (EXP_STEP as nat)) by (nonlinear_arith)
        requires
            k >= 2046,
    ;
    assert(k * (EXP_STEP as nat) + n >= INF_BITS as nat);
}

proof fn lemma_nearest_tiny(inexact: bool)
    ensures
        nearest(0, inexact) == 0,
{
    reveal(nearest);
    lemma2_to64();
    assert(bit_length(0) == 0);
}

/// A fraction of at least `2^1024` rounds to infinity.
proof fn lemma_rational_huge(neg: bool, n: nat, d: nat)
    requires
        d > 0,
        n >= d * pow2(1024),
    ensures
        rational(neg, n, d) == signed(neg, INF_BITS as nat),
{
    let x = n * pow2(1075);
    lemma_pow2_adds(1024, 1075);
    lemma_pow2_pos(1075);
    let w = pow2(2099);
    assert(x >= d * w) by (nonlinear_arith)
        requires
            x == n * pow2(1075),
            n >= d * pow2(1024),
            w == pow2(1024) * pow2(1075),
            pow2(1075) > 0,
    ;
    lemma_fundamental_div_mod(x as int, d as int);
    lemma_mod_bound(x as int, d as int);
    let f = x / d;
    assert(f >= w) by (nonlinear_arith)
        requires
            x >= d * w,
            x == d * f + x % d,
            x % d < d,
            d > 0,
    ;
    lemma_nearest_huge(f, x % d != 0);
}

/// A fraction below `2^-1075` rounds to zero.
proof fn lemma_rational_tiny(neg: bool, n: nat, d: nat)
    requires
        n * pow2(1075) < d,
    ensures
        rational(neg, n, d) == signed(neg, 0),
{
    let x = n * pow2(1075);
    lemma_fundamental_div_mod_converse(x as int, d as int, 0, x as int);
    lemma_nearest_tiny(x % d != 0);
}

fn copy_limbs(v: &Vec<u32>) -> (r: Vec<u32>)
    ensures
        r@ == v@,
{
    let mut r: Vec<u32> = Vec::new();
    let n: usize = v.len();
    let mut i: usize = 0;
    while i < n
        invariant
            n == v@.len(),
            i <= n,
            r@ == v@.take(i as int),
        decreases n - i,
    {
        r.push(v[i]);
        i = i + 1;
        assert(v@.take(i as int) =~= v@.take(i - 1).push(v@[i - 1]));
    }
    assert(v@.take(n as int) =~= v@);
    r
}

/// Largest number of binary places by which a fraction is shifted.
const MAX_SHIFT: u32 = 2500;

proof fn lemma_double(x: nat, b: nat, n: nat)
    requires
        x == n * pow2(b),
    ensures
        x * 2 == n * pow2(b + 1),
{
    lemma_pow2_adds(b, 1);
    lemma2_to64();
    assert((n * pow2(b)) * 2 == n * (pow2(b) * 2)) by (nonlinear_arith);
}

/// The same fraction with both parts multiplied.
proof fn lemma_fraction(n: nat, d: nat, c: nat)
    requires
        d > 0,
        c > 0,
    ensures
        (n * c) / (d * c) == n / d,
        ((n * c) % (d * c) != 0) == (n % d != 0),
{
    lemma_fundamental_div_mod(n as int, d as int);
    lemma_mod_bound(n as int, d as int);
    let q = n / d;
    let r = n % d;
    assert(n * c == q * (d * c) + r * c) by (nonlinear_arith)
        requires
            n == d * q + r,
    ;
    assert(0 <= r * c < d * c) by (nonlinear_arith)
        requires
            0 <= r < d,
            c > 0,
    ;
    lemma_fundamental_div_mod_converse((n * c) as int, (d * c) as int, q as int, (r * c) as int);
    assert((r * c == 0) == (r == 0)) by (nonlinear_arith)
        requires
            c > 0,
    ;
}

/// Doubles the denominator until it exceeds the numerator; the number of
/// doublings, at most the largest shift.
fn raise(r: &Vec<u32>, m: &mut Vec<u32>) -> (b: u32)
    ensures
        b <= MAX_SHIFT,
        big(final(m)@) == big(old(m)@) * pow2(b as nat),
        big(r@) < big(final(m)@) || b == MAX_SHIFT,
        b > 0 ==> big(final(m)@) <= 2 * big(r@),
{
    let mut b: u32 = 0;
    proof {
        lemma2_to64();
        assert(big(m@) * 1 == big(m@));
    }
    while b < MAX_SHIFT
        invariant
            b <= MAX_SHIFT,
            big(m@) == big(old(m)@) * pow2(b as nat),
            b > 0 ==> big(m@) <= 2 * big(r@),
        decreases MAX_SHIFT - b,
    {
        match subtract(r, m) {
            None => {
                return b;
            },
            Some(_) => {
                let ghost before = big(m@);
                mul_add(m, 2, 0);
                proof {
                    lemma_double(before, b as nat, big(old(m)@));
                }
                b = b + 1;
            },
        }
    }
    b
}

/// Doubles the numerator until its double reaches the denominator; the number
/// of doublings, at most the largest shift.
fn lower(r: &mut Vec<u32>, m: &Vec<u32>) -> (a: u32)
    requires
        big(old(r)@) < big(m@),
    ensures
        a <= MAX_SHIFT,
        big(final(r)@) == big(old(r)@) * pow2(a as nat),
        big(final(r)@) < big(m@),
        big(m@) <= 2 * big(final(r)@) || a == MAX_SHIFT,
        big(m@) <= 2 * big(old(r)@) ==> a == 0,
{
    let mut a: u32 = 0;
    proof {
        lemma2_to64();
        assert(big(r@) * 1 == big(r@));
    }
    while a < MAX_SHIFT
        invariant
            a <= MAX_SHIFT,
            big(r@) == big(old(r)@) * pow2(a as nat),
            big(r@) < big(m@),
            big(m@) <= 2 * big(old(r)@) ==> a == 0,
            a == 0 ==> big(r@) == big(old(r)@),
        decreases MAX_SHIFT - a,
    {
        let mut t: Vec<u32> = copy_limbs(r);
        mul_add(&mut t, 2, 0);
        match subtract(&t, m) {
            Some(_) => {
                return a;
            },
            None => {
                proof {
                    lemma_double(big(r@), a as nat, big(old(r)@));
                }
                *r = t;
                a = a + 1;
            },
        }
    }
    a
}

/// First 64 binary digits of a quotient between one half and one, and whether
/// anything is left.
fn quotient_digits(r: Vec<u32>, m: &Vec<u32>) -> (res: (u128, bool))
    requires
        big(r@) < big(m@) <= 2 * big(r@),
    ensures
        res.0 == (big(r@) * pow2(64)) / big(m@),
        res.1 == ((big(r@) * pow2(64)) % big(m@) != 0),
        0x8000_0000_0000_0000 <= res.0 < 0x1_0000_0000_0000_0000,
{
    let ghost r0 = big(r@);
    let ghost d = big(m@);
    let mut rest: Vec<u32> = r;
    let mut p: u128 = 0;
    let mut j: u32 = 0;
    proof {
        lemma2_to64();
        assert(r0 * 1 == r0);
        assert(0 * d == 0);
    }
    while j < 64
        invariant
            j <= 64,
            d == big(m@),
            d <= 2 * r0,
            big(rest@) < d,
            r0 * pow2(j as nat) == p as nat * d + big(rest@),
            p < pow2(j as nat),
            pow2(j as nat) <= pow2(64),
            pow2(64) == 0x1_0000_0000_0000_0000,
            j == 0 ==> big(rest@) == r0,
            j > 0 ==> p >= pow2((j - 1) as nat),
        decreases 64 - j,
    {
        let ghost p0 = p;
        let ghost x = big(rest@);
        proof {
            lemma2_to64();
            lemma_pow2_adds(j as nat, 1);
            if j > 0 {
                lemma_pow2_adds((j - 1) as nat, 1);
            }
            if j < 63 {
                lemma_pow2_strictly_increases((j + 1) as nat, 64);
            }
            let w = pow2(j as nat);
            assert(r0 * (w * 2) == (2 * p0) * d + 2 * x) by (nonlinear_arith)
                requires
                    r0 * w == p0 * d + x,
            ;
            assert((2 * p0 + 1) * d == (2 * p0) * d + d) by (nonlinear_arith);
        }
        mul_add(&mut rest, 2, 0);
        p = 2 * p;
        match subtract(&rest, m) {
            None => {},
            Some(s) => {
                rest = s;
                p = p + 1;
            },
        }
        j = j + 1;
    }
    let left: bool = nonzero(&rest);
    proof {
        lemma_fundamental_div_mod_converse(
            (r0 * pow2(64)) as int,
            d as int,
            p as int,
            big(rest@) as int,
        );
        lemma2_to64_rest();
    }
    (p, left)
}

/// The number nearest to a fraction.
fn quotient(neg: bool, num: Vec<u32>, den: Vec<u32>) -> (r: sunrealtype)
    requires
        big(num@) > 0,
        big(den@) > 0,
    ensures
        r == rational(neg, big(num@), big(den@)),
{
    let ghost n = big(num@);
    let ghost d = big(den@);
    let mut m: Vec<u32> = den;
    let b: u32 = raise(&num, &mut m);
    match subtract(&num, &m) {
        Some(_) => {
            proof {
                if b < 2500 {
                    assert(false);
                }
                lemma_pow2_strictly_increases(1024, 2500);
                assert(n >= d * pow2(1024)) by (nonlinear_arith)
                    requires
                        n >= d * pow2(2500),
                        pow2(1024) < pow2(2500),
                ;
                lemma_rational_huge(neg, n, d);
            }
            return with_sign(neg, INF_BITS);
        },
        None => {},
    }
    let mut r: Vec<u32> = num;
    let a: u32 = lower(&mut r, &m);
    let mut t: Vec<u32> = copy_limbs(&r);
    mul_add(&mut t, 2, 0);
    match subtract(&t, &m) {
        None => {
            proof {
                if a < 2500 {
                    assert(false);
                }
                assert(b == 0);
                lemma2_to64();
                assert(d * 1 == d);
                lemma_pow2_strictly_increases(1075, 2500);
                assert(n * pow2(1075) < d) by (nonlinear_arith)
                    requires
                        n * pow2(2500) < d,
                        pow2(1075) < pow2(2500),
                ;
                lemma_rational_tiny(neg, n, d);
            }
            return with_sign(neg, 0);
        },
        Some(_) => {},
    }
    let ghost rb = big(r@);
    let ghost mb = big(m@);
    let (p, left) = quotient_digits(r, &m);
    let g: i32 = 1011 - a as i32 + b as i32;
    let ghost x = n * pow2(1075);
    proof {
        let c = 4000nat;
        let up = (1011 + c - a) as nat;
        let eb = (c - b) as nat;
        let w = pow2(c);
        lemma_pow2_pos(c);
        // Numerator: n 2^a 2^64 2^up = x 2^c.
        lemma_pow2_adds(a as nat, 64);
        lemma_pow2_adds((a + 64) as nat, up);
        lemma_pow2_adds(1075, c);
        assert(a + 64 + up == 1075 + c);
        assert((rb * pow2(64)) * pow2(up) == x * w) by (nonlinear_arith)
            requires
                rb == n * pow2(a as nat),
                pow2((a + 64) as nat) == pow2(a as nat) * pow2(64),
                pow2((a + 64) as nat) * pow2(up) == pow2(1075) * w,
                x == n * pow2(1075),
        ;
        // Denominator: d 2^b 2^eb = d 2^c.
        lemma_pow2_adds(b as nat, eb);
        assert(mb * pow2(eb) == d * w) by (nonlinear_arith)
            requires
                mb == d * pow2(b as nat),
                w == pow2(b as nat) * pow2(eb),
        ;
        lemma_scale_quotient(rb * pow2(64), mb, x * w, d * w, up, eb, g as int);
        lemma_fraction(x, d, w);
    }
    round_scaled(neg, p, g, left, Ghost(x / d), Ghost(x % d != 0))
}

/// Power of ten.
pub open spec fn ten(k: nat) -> nat
    decreases k,
{
    if k == 0 {
        1
    } else {
        10 * ten((k - 1) as nat)
    }
}

/// The number nearest to `digits * 10^e`, with a sign.
pub open spec fn decimal(neg: bool, digits: nat, e: int) -> sunrealtype {
    if e >= 0 {
        rational(neg, digits * ten(e as nat), 1)
    } else {
        rational(neg, digits, ten((-e) as nat))
    }
}

/// Value of a sequence of decimal digits, most significant digit first.
pub open spec fn digits_value(s: Seq<u8>) -> nat
    decreases s.len(),
{
    if s.len() == 0 {
        0
    } else {
        10 * digits_value(s.drop_last()) + s.last() as nat
    }
}

proof fn lemma_ten_pos(k: nat)
    ensures
        ten(k) > 0,
    decreases k,
{
    if k > 0 {
        lemma_ten_pos((k - 1) as nat);
    }
}

proof fn lemma_ten_adds(a: nat, b: nat)
    ensures
        ten(a + b) == ten(a) * ten(b),
    decreases a,
{
    if a == 0 {
        assert(1 * ten(b) == ten(b));
    } else {
        lemma_ten_adds((a - 1) as nat, b);
        let x = ten((a - 1) as nat);
        assert((10 * x) * ten(b) == 10 * (x * ten(b))) by (nonlinear_arith);
        assert((a + b - 1) as nat == (a - 1) as nat + b);
    }
}

proof fn lemma_ten_large(k: nat)
    ensures
        ten(k) >= pow2(3 * k),
    decreases k,
{
    if k == 0 {
        lemma2_to64();
    } else {
        lemma_ten_large((k - 1) as nat);
        lemma_pow2_adds((3 * (k - 1)) as nat, 3);
        lemma2_to64();
    }
}

/// A product of large powers of ten exceeds `2^1075`.
proof fn lemma_ten_400()
    ensures
        ten(400) >= pow2(1200),
        pow2(1200) > pow2(1075),
        pow2(1200) > pow2(1024),
{
    lemma_ten_large(400);
    lemma_pow2_strictly_increases(1075, 1200);
    lemma_pow2_strictly_increases(1024, 1200);
}

/// A decimal fraction of at least `10^400` rounds to infinity.
pub proof fn lemma_decimal_huge(neg: bool, digits: nat, n: nat, e: int)
    requires
        n > 0,
        digits >= ten((n - 1) as nat),
        n + e > 400,
    ensures
        decimal(neg, digits, e) == signed(neg, INF_BITS as nat),
{
    lemma_ten_400();
    let z = ten(400);
    if e >= 0 {
        let rest = (n - 1 + e - 400) as nat;
        lemma_ten_adds((n - 1) as nat, e as nat);
        lemma_ten_adds(400, rest);
        lemma_ten_pos(rest);
        lemma_ten_pos(e as nat);
        let v = digits * ten(e as nat);
        assert(v >= ten((n - 1) as nat) * ten(e as nat)) by (nonlinear_arith)
            requires
                v == digits * ten(e as nat),
                digits >= ten((n - 1) as nat),
        ;
        assert(z * ten(rest) >= z) by (nonlinear_arith)
            requires
                ten(rest) > 0,
        ;
        lemma_rational_huge(neg, v, 1);
    } else {
        let k = (-e) as nat;
        let rest = (n - 1 + e - 400) as nat;
        lemma_ten_adds(400, rest);
        lemma_ten_adds(k, (400 + rest) as nat);
        lemma_ten_pos(rest);
        lemma_ten_pos(k);
        assert((k + 400 + rest) as nat == (n - 1) as nat);
        let d = ten(k);
        assert(digits >= d * pow2(1024)) by (nonlinear_arith)
            requires
                digits >= d * (z * ten(rest)),
                ten(rest) > 0,
                z >= pow2(1024),
                d > 0,
        ;
        lemma_rational_huge(neg, digits, d);
    }
}

/// A decimal fraction below `10^-400` rounds to zero.
pub proof fn lemma_decimal_tiny(neg: bool, digits: nat, n: nat, e: int)
    requires
        digits < ten(n),
        n + e < -400,
    ensures
        decimal(neg, digits, e) == signed(neg, 0),
{
    lemma_ten_400();
    let k = (-e) as nat;
    let z = ten(400);
    let rest = (k - n - 400) as nat;
    lemma_ten_adds(400, rest);
    lemma_ten_adds(n, (400 + rest) as nat);
    lemma_ten_pos(rest);
    assert((n + 400 + rest) as nat == k);
    let d = ten(k);
    assert(digits * pow2(1075) < d) by (nonlinear_arith)
        requires
            d == ten(n) * (z * ten(rest)),
            digits < ten(n),
            ten(rest) > 0,
            z > pow2(1075),
    ;
    lemma_rational_tiny(neg, digits, d);
}

/// No digits at all give a zero.
pub proof fn lemma_decimal_zero(neg: bool, e: int)
    ensures
        decimal(neg, 0, e) == signed(neg, 0),
{
    if e >= 0 {
        assert(0 * ten(e as nat) == 0);
        assert(0 * pow2(1075) == 0);
        lemma_rational_tiny(neg, 0, 1);
    } else {
        lemma_ten_pos((-e) as nat);
        assert(0 * pow2(1075) == 0);
        lemma_rational_tiny(neg, 0, ten((-e) as nat));
    }
}

/// Digits without a leading zero are worth what their number says.
pub proof fn lemma_digits_bounds(s: Seq<u8>)
    requires
        s.len() > 0,
        s[0] > 0,
        forall|i: int| 0 <= i < s.len() ==> s[i] < 10,
    ensures
        ten((s.len() - 1) as nat) <= digits_value(s) < ten(s.len()),
    decreases s.len(),
{
    if s.len() == 1 {
        assert(s.drop_last() =~= Seq::empty());
        assert(digits_value(Seq::<u8>::empty()) == 0);
        assert(ten(0) == 1);
        assert(ten(1) == 10 * ten(0));
    } else {
        lemma_digits_bounds(s.drop_last());
    }
}

fn scale_by_ten(v: &mut Vec<u32>, k: u128)
    ensures
        big(final(v)@) == big(old(v)@) * ten(k as nat),
{
    let mut i: u128 = 0;
    proof {
        assert(big(v@) * 1 == big(v@));
    }
    while i < k
        invariant
            i <= k,
            big(v@) == big(old(v)@) * ten(i as nat),
        decreases k - i,
    {
        let ghost before = big(v@);
        mul_add(v, 10, 0);
        proof {
            let b = big(old(v)@);
            let t = ten(i as nat);
            assert((b * t) * 10 == b * (10 * t)) by (nonlinear_arith);
        }
        i = i + 1;
    }
}

fn from_digits(ds: &Vec<u8>) -> (v: Vec<u32>)
    ensures
        big(v@) == digits_value(ds@),
{
    let mut v: Vec<u32> = Vec::new();
    let n: usize = ds.len();
    let mut i: usize = 0;
    assert(ds@.take(0) =~= Seq::empty());
    while i < n
        invariant
            n == ds@.len(),
            i <= n,
            big(v@) == digits_value(ds@.take(i as int)),
        decreases n - i,
    {
        mul_add(&mut v, 10, ds[i] as u32);
        i = i + 1;
        assert(ds@.take(i as int).drop_last() =~= ds@.take(i - 1));
    }
    assert(ds@.take(n as int) =~= ds@);
    v
}

/// Largest decimal exponent that is handed over.
pub const MAX_EXPONENT: i128 = 0x1000_0000_0000_0000_0000_0000_0000;

/// The number nearest to a decimal fraction, from its digits without leading
/// zeros.
pub fn from_decimal(neg: bool, ds: &Vec<u8>, e: i128) -> (r: sunrealtype)
    requires
        ds@.len() > 0,
        ds@[0] > 0,
        forall|i: int| 0 <= i < ds@.len() ==> ds@[i] < 10,
        -MAX_EXPONENT <= e <= MAX_EXPONENT,
    ensures
        r == decimal(neg, digits_value(ds@), e as int),
{
    let n: i128 = ds.len() as i128;
    let ghost d = digits_value(ds@);
    proof {
        lemma_digits_bounds(ds@);
        lemma_ten_pos((n - 1) as nat);
    }
    if n + e > 400 {
        proof {
            lemma_decimal_huge(neg, d, n as nat, e as int);
        }
        return with_sign(neg, INF_BITS);
    }
    if n + e < -400 {
        proof {
            lemma_decimal_tiny(neg, d, n as nat, e as int);
        }
        return with_sign(neg, 0);
    }
    let mut num: Vec<u32> = from_digits(ds);
    let mut den: Vec<u32> = Vec::new();
    mul_add(&mut den, 0, 1);
    assert(big(den@) == 1);
    if e >= 0 {
        scale_by_ten(&mut num, e as u128);
        proof {
            lemma_ten_pos(e as nat);
            assert(d * ten(e as nat) > 0) by (nonlinear_arith)
                requires
                    d > 0,
                    ten(e as nat) > 0,
            ;
        }
    } else {
        scale_by_ten(&mut den, (-e) as u128);
        proof {
            lemma_ten_pos((-e) as nat);
            assert(1 * ten((-e) as nat) == ten((-e) as nat));
        }
    }
    quotient(neg, num, den)
}

} // verus!
