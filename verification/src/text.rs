//! Numbers read from text.
use crate::arith::with_sign;
use crate::binary64::{nan, signed, sunrealtype, INF_BITS, NAN_BITS};
use crate::decimal::{
    decimal, digits_value, from_decimal, lemma_decimal_huge, lemma_decimal_tiny, lemma_decimal_zero,
    lemma_digits_bounds, ten,
};
use crate::sundials_types::ZERO;
use vstd::prelude::*;

verus! {

/// White space, of which there are six characters, all of them ASCII: tab, line
/// feed, vertical tab, form feed, carriage return and space.
#[verifier::allow_in_spec]
pub fn is_white(c: char) -> bool
    returns
        (('\u{9}' <= c && c <= '\u{d}') || c == ' '),
{
    ('\u{9}' <= c && c <= '\u{d}') || c == ' '
}

/// A decimal digit.
#[verifier::allow_in_spec]
pub fn is_digit(c: char) -> bool
    returns
        ('0' <= c && c <= '9'),
{
    '0' <= c && c <= '9'
}

/// Value of a decimal digit.
pub open spec fn digit(c: char) -> nat {
    (c as int - '0' as int) as nat
}

/// First place at or after `i` that holds no white space.
pub open spec fn skip_white(s: Seq<char>, i: nat) -> nat
    decreases s.len() - i,
{
    if i < s.len() && is_white(s[i as int]) {
        skip_white(s, i + 1)
    } else {
        i
    }
}

/// First place at or after `i` that holds no digit.
pub open spec fn digits_end(s: Seq<char>, i: nat) -> nat
    decreases s.len() - i,
{
    if i < s.len() && is_digit(s[i as int]) {
        digits_end(s, i + 1)
    } else {
        i
    }
}

/// Value of the digits at `lo..hi`.
pub open spec fn value_of(s: Seq<char>, lo: nat, hi: nat) -> nat
    decreases hi,
{
    if hi <= lo {
        0
    } else {
        10 * value_of(s, lo, (hi - 1) as nat) + digit(s[hi - 1])
    }
}

/// Whether `c` stands at `i`.
pub open spec fn stands(s: Seq<char>, i: nat, c: char) -> bool {
    i < s.len() && s[i as int] == c
}

/// Whether a letter stands at `i`, in either case.
pub open spec fn letter(s: Seq<char>, i: nat, small: char, capital: char) -> bool {
    stands(s, i, small) || stands(s, i, capital)
}

/// Place behind an optional sign at `i`.
pub open spec fn behind_sign(s: Seq<char>, i: nat) -> nat {
    if stands(s, i, '+') || stands(s, i, '-') {
        i + 1
    } else {
        i
    }
}

/// Exponent written at `i`; zero where none is written there.
pub open spec fn exponent_at(s: Seq<char>, i: nat) -> int {
    let k = behind_sign(s, i + 1);
    let end = digits_end(s, k);
    if !letter(s, i, 'e', 'E') || end == k {
        0
    } else if stands(s, i + 1, '-') {
        -(value_of(s, k, end) as int)
    } else {
        value_of(s, k, end) as int
    }
}

/// The number written with digits at `i`: digits, an optional point with more
/// digits, an optional exponent. Zero where there is no digit.
pub open spec fn number_at(s: Seq<char>, neg: bool, i: nat) -> sunrealtype {
    let a = digits_end(s, i);
    let b = if stands(s, a, '.') {
        digits_end(s, a + 1)
    } else {
        a
    };
    let places = if stands(s, a, '.') {
        (b - (a + 1)) as nat
    } else {
        0nat
    };
    let digits = value_of(s, i, a) * ten(places) + value_of(s, a + 1, b);
    if a == i && places == 0 {
        ZERO()
    } else {
        decimal(neg, digits, exponent_at(s, b) - places)
    }
}

/// The number that a text starts with, after white space and an optional sign:
/// an infinity, NaN, or a decimal fraction rounded to nearest. What follows it
/// does not matter; a text that starts with no number gives zero.
pub open spec fn str_to_real(s: Seq<char>) -> sunrealtype {
    let w = skip_white(s, 0);
    let neg = stands(s, w, '-');
    let i = behind_sign(s, w);
    if letter(s, i, 'i', 'I') && letter(s, i + 1, 'n', 'N') && letter(s, i + 2, 'f', 'F') {
        signed(neg, INF_BITS as nat)
    } else if letter(s, i, 'n', 'N') && letter(s, i + 1, 'a', 'A') && letter(s, i + 2, 'n', 'N') {
        nan()
    } else {
        number_at(s, neg, i)
    }
}

fn char_is(s: &Vec<char>, i: usize, c: char) -> (r: bool)
    ensures
        r == stands(s@, i as nat, c),
        r ==> i < usize::MAX,
{
    i < s.len() && s[i] == c
}

fn letter_is(s: &Vec<char>, i: usize, small: char, capital: char) -> (r: bool)
    ensures
        r == letter(s@, i as nat, small, capital),
        r ==> i < usize::MAX,
{
    char_is(s, i, small) || char_is(s, i, capital)
}

fn after_sign(s: &Vec<char>, i: usize) -> (r: usize)
    requires
        i <= s@.len(),
    ensures
        r == behind_sign(s@, i as nat),
        i <= r <= s@.len(),
{
    if char_is(s, i, '+') || char_is(s, i, '-') {
        i + 1
    } else {
        i
    }
}

fn after_white(s: &Vec<char>) -> (r: usize)
    ensures
        r == skip_white(s@, 0),
        r <= s@.len(),
{
    let mut i: usize = 0;
    while i < s.len() && is_white(s[i])
        invariant
            i <= s@.len(),
            skip_white(s@, i as nat) == skip_white(s@, 0),
        decreases s@.len() - i,
    {
        i = i + 1;
    }
    i
}

fn digit_value(c: char) -> (d: u8)
    requires
        is_digit(c),
    ensures
        d == digit(c),
        d < 10,
{
    (c as u32 - '0' as u32) as u8
}

proof fn lemma_push_digit(ds: Seq<u8>, x: u8)
    ensures
        digits_value(ds.push(x)) == 10 * digits_value(ds) + x as nat,
{
    assert(ds.push(x).drop_last() =~= ds);
}

/// Reads digits from `i` on behind those in `ds`, which hold no leading zero.
fn read_digits(s: &Vec<char>, i: usize, ds: &mut Vec<u8>) -> (end: usize)
    requires
        i <= s@.len(),
        old(ds)@.len() > 0 ==> old(ds)@[0] > 0,
        forall|j: int| 0 <= j < old(ds)@.len() ==> old(ds)@[j] < 10,
    ensures
        i <= end <= s@.len(),
        end == digits_end(s@, i as nat),
        final(ds)@.len() > 0 ==> final(ds)@[0] > 0,
        forall|j: int| 0 <= j < final(ds)@.len() ==> final(ds)@[j] < 10,
        digits_value(final(ds)@) == digits_value(old(ds)@) * ten((end - i) as nat) + value_of(
            s@,
            i as nat,
            end as nat,
        ),
{
    let mut j: usize = i;
    assert(digits_value(ds@) * 1 == digits_value(ds@));
    while j < s.len() && is_digit(s[j])
        invariant
            i <= j <= s@.len(),
            digits_end(s@, j as nat) == digits_end(s@, i as nat),
            ds@.len() > 0 ==> ds@[0] > 0,
            forall|k: int| 0 <= k < ds@.len() ==> ds@[k] < 10,
            digits_value(ds@) == digits_value(old(ds)@) * ten((j - i) as nat) + value_of(
                s@,
                i as nat,
                j as nat,
            ),
        decreases s@.len() - j,
    {
        let d: u8 = digit_value(s[j]);
        let ghost before = ds@;
        if d != 0 || ds.len() != 0 {
            ds.push(d);
            proof {
                lemma_push_digit(before, d);
            }
        }
        proof {
            let x = digits_value(old(ds)@);
            let t = ten((j - i) as nat);
            let v = value_of(s@, i as nat, j as nat);
            assert(digits_value(ds@) == 10 * digits_value(before) + d);
            assert(10 * (x * t + v) + d == x * (10 * t) + (10 * v + d)) by (nonlinear_arith);
            assert((j + 1 - i) as nat - 1 == (j - i) as nat);
        }
        j = j + 1;
    }
    j
}

/// Size beyond which the digits of an exponent do not matter.
const LARGE: i128 = 0x100_0000_0000_0000_0000_0000;

/// Reads an exponent's digits; a size that reaches the limit stays there.
fn read_size(s: &Vec<char>, i: usize) -> (r: (i128, usize))
    requires
        i <= s@.len(),
    ensures
        r.1 == digits_end(s@, i as nat),
        i <= r.1 <= s@.len(),
        0 <= r.0 < 16 * LARGE,
        r.0 == value_of(s@, i as nat, r.1 as nat) || (r.0 >= LARGE && value_of(
            s@,
            i as nat,
            r.1 as nat,
        ) >= LARGE),
{
    let mut x: i128 = 0;
    let mut j: usize = i;
    while j < s.len() && is_digit(s[j])
        invariant
            i <= j <= s@.len(),
            digits_end(s@, j as nat) == digits_end(s@, i as nat),
            0 <= x < 16 * LARGE,
            x == value_of(s@, i as nat, j as nat) || (x >= LARGE && value_of(
                s@,
                i as nat,
                j as nat,
            ) >= LARGE),
        decreases s@.len() - j,
    {
        let d: u8 = digit_value(s[j]);
        if x < LARGE {
            x = 10 * x + d as i128;
        }
        j = j + 1;
    }
    (x, j)
}

/// Reads an exponent; a size that reaches the limit stays there.
fn read_exponent(s: &Vec<char>, i: usize) -> (x: i128)
    requires
        i <= s@.len(),
    ensures
        -16 * LARGE < x < 16 * LARGE,
        ({
            let e = exponent_at(s@, i as nat);
            x == e || (x >= LARGE && e >= LARGE) || (x <= -LARGE && e <= -LARGE)
        }),
{
    if !letter_is(s, i, 'e', 'E') {
        return 0;
    }
    let k: usize = after_sign(s, i + 1);
    let r: (i128, usize) = read_size(s, k);
    if r.1 == k {
        0
    } else if char_is(s, i + 1, '-') {
        -r.0
    } else {
        r.0
    }
}

/// The number nearest to `ds * 10^(x - places)`, where `x` stands for the
/// exponent `e`.
fn finish_number(neg: bool, ds: &Vec<u8>, x: i128, places: usize, Ghost(e): Ghost<int>) -> (r:
    sunrealtype)
    requires
        -16 * LARGE < x < 16 * LARGE,
        x == e || (x >= LARGE && e >= LARGE) || (x <= -LARGE && e <= -LARGE),
        ds@.len() > 0 ==> ds@[0] > 0,
        forall|j: int| 0 <= j < ds@.len() ==> ds@[j] < 10,
    ensures
        r == decimal(neg, digits_value(ds@), e - places),
{
    if ds.len() == 0 {
        proof {
            lemma_decimal_zero(neg, e - places);
        }
        return with_sign(neg, 0);
    }
    let n: usize = ds.len();
    let y: i128 = x - places as i128;
    proof {
        let d = digits_value(ds@);
        lemma_digits_bounds(ds@);
        if x >= LARGE {
            lemma_decimal_huge(neg, d, n as nat, e - places);
            lemma_decimal_huge(neg, d, n as nat, y as int);
        } else if x <= -LARGE {
            lemma_decimal_tiny(neg, d, n as nat, e - places);
            lemma_decimal_tiny(neg, d, n as nat, y as int);
        }
    }
    from_decimal(neg, ds, y)
}

fn read_number(s: &Vec<char>, neg: bool, i: usize) -> (r: sunrealtype)
    requires
        i <= s@.len(),
    ensures
        r == number_at(s@, neg, i as nat),
{
    let mut ds: Vec<u8> = Vec::new();
    let a: usize = read_digits(s, i, &mut ds);
    assert(0 * ten((a - i) as nat) == 0);
    let mut b: usize = a;
    let mut places: usize = 0;
    proof {
        let v = value_of(s@, i as nat, a as nat);
        assert(v * 1 == v);
    }
    if char_is(s, a, '.') {
        b = read_digits(s, a + 1, &mut ds);
        places = b - (a + 1);
    }
    if a == i && places == 0 {
        return ZERO();
    }
    let x: i128 = read_exponent(s, b);
    finish_number(neg, &ds, x, places, Ghost(exponent_at(s@, b as nat)))
}

fn characters(str_: &str) -> (v: Vec<char>)
    ensures
        v@ == str_@,
{
    let mut v: Vec<char> = Vec::new();
    for c in iter: str_.chars()
        invariant
            v@ == iter.seq().take(iter.index()),
            iter.seq() == str_@,
    {
        v.push(c);
        assert(iter.seq().take(iter.index() + 1) =~= iter.seq().take(iter.index()).push(c));
    }
    v
}

/// The number that a text starts with, ignoring white space before it and
/// whatever follows it; zero where it starts with none.
pub fn SUNStrToReal(str_: &str) -> (r: sunrealtype)
    ensures
        r == str_to_real(str_@),
{
    let s: Vec<char> = characters(str_);
    let w: usize = after_white(&s);
    let neg: bool = char_is(&s, w, '-');
    let i: usize = after_sign(&s, w);
    if letter_is(&s, i, 'i', 'I') && letter_is(&s, i + 1, 'n', 'N')
        && letter_is(&s, i + 2, 'f', 'F') {
        return with_sign(neg, INF_BITS);
    }
    if letter_is(&s, i, 'n', 'N') && letter_is(&s, i + 1, 'a', 'A')
        && letter_is(&s, i + 2, 'n', 'N') {
        return sunrealtype { bits: NAN_BITS };
    }
    read_number(&s, neg, i)
}

} // verus!
