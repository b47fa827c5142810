//! Laws of the numbers and of what reads them.
use crate::arith::lemma_nearest_self;
use crate::binary64::{
    gap_exponent, nearest, r_abs, r_add, r_div, r_eq, r_le, r_lt, r_mul, r_neg, r_sub, sunrealtype,
    units_of, EXP_STEP, INF_BITS,
};
use crate::sundials_math::{r_differ, r_max, r_min};
use crate::sundials_types::{ONE, ZERO};
use crate::text::{
    behind_sign, digits_end, exponent_at, is_digit, is_white, letter, number_at, skip_white, stands,
    str_to_real, value_of,
};
use vstd::arithmetic::div_mod::{lemma_fundamental_div_mod, lemma_fundamental_div_mod_converse};
use vstd::arithmetic::power2::{
    lemma2_to64, lemma2_to64_rest, lemma_pow2_adds, lemma_pow2_pos, lemma_pow2_strictly_increases,
    pow2,
};
use vstd::prelude::*;

verus! {

/// Addition commutes.
pub proof fn law_add_commutes(a: sunrealtype, b: sunrealtype)
    ensures
        r_add(a, b) == r_add(b, a),
{
    reveal(r_add);
}

/// Multiplication commutes.
pub proof fn law_mul_commutes(a: sunrealtype, b: sunrealtype)
    ensures
        r_mul(a, b) == r_mul(b, a),
{
    reveal(r_mul);
    assert(a.units() * b.units() == b.units() * a.units()) by (nonlinear_arith);
}

/// A number negated twice is the number.
pub proof fn law_negate_twice(a: sunrealtype)
    ensures
        r_neg(r_neg(a)) == a,
{
    reveal(r_neg);
}

proof fn lemma_negated(a: sunrealtype)
    ensures
        r_neg(a).neg() == !a.neg(),
        r_neg(a).mag() == a.mag(),
        r_neg(a).is_nan() == a.is_nan(),
        r_neg(a).is_inf() == a.is_inf(),
        r_neg(a).value() == -a.value(),
{
    reveal(r_neg);
}

proof fn lemma_nearest_fits(f: nat)
    ensures
        nearest(f, false) <= INF_BITS,
{
    reveal(nearest);
}

proof fn lemma_rounded_fits(f: nat, inexact: bool)
    ensures
        nearest(f, inexact) <= INF_BITS,
        f >= 2 ==> nearest(f, inexact) > 0,
{
    reveal(nearest);
    lemma2_to64();
    if f >= 2 {
        assert(f / 2 >= 1);
        let k = gap_exponent(f / 2);
        let gap = pow2(k + 1);
        lemma_pow2_pos(k + 1);
        assert(f / gap >= 0) by (nonlinear_arith)
            requires
                gap > 0,
        ;
        if k > 0 {
            assert(k * (EXP_STEP as nat) >= 1) by (nonlinear_arith)
                requires
                    k > 0,
            ;
        } else {
            assert(f / gap >= 1);
            assert(k * (EXP_STEP as nat) == 0) by (nonlinear_arith)
                requires
                    k == 0,
            ;
        }
    }
}

proof fn lemma_one_units()
    ensures
        ONE().units() == pow2(1074),
        ONE().mag() == 0x3ff0_0000_0000_0000nat,
        !ONE().neg(),
{
    reveal(units_of);
    lemma2_to64_rest();
    lemma_pow2_adds(52, 1022);
    let mag: nat = 0x3ff0_0000_0000_0000;
    lemma_fundamental_div_mod_converse(mag as int, EXP_STEP as int, 1023, 0);
}

pub(crate) proof fn lemma_units_range(mag: nat)
    requires
        0 < mag < INF_BITS,
    ensures
        0 < units_of(mag) < pow2(2098),
{
    reveal(units_of);
    lemma2_to64_rest();
    let step = EXP_STEP as nat;
    let e = mag / step;
    let m = mag % step;
    lemma_fundamental_div_mod(mag as int, step as int);
    if e == 0 {
        lemma_pow2_strictly_increases(52, 2098);
    } else {
        let k = (e - 1) as nat;
        assert(k <= 2045);
        lemma_pow2_pos(k);
        if k < 2045 {
            lemma_pow2_strictly_increases(k, 2045);
        }
        lemma_pow2_adds(53, 2045);
        assert(0 < (step + m) * pow2(k) < pow2(53) * pow2(2045)) by (nonlinear_arith)
            requires
                0 < step + m < pow2(53),
                0 < pow2(k) <= pow2(2045),
        ;
    }
}

/// One times a number is the number.
pub proof fn law_times_one(x: sunrealtype)
    requires
        !x.is_nan(),
    ensures
        r_mul(ONE(), x) == x,
{
    reveal(r_mul);
    lemma_one_units();
    if x.is_finite() {
        let u = x.units();
        let n = pow2(1074) * u;
        lemma_pow2_adds(1, 1073);
        lemma_pow2_pos(1073);
        lemma2_to64();
        assert(n == (2 * u) * pow2(1073)) by (nonlinear_arith)
            requires
                n == pow2(1074) * u,
                pow2(1074) == 2 * pow2(1073),
        ;
        lemma_fundamental_div_mod_converse(n as int, pow2(1073) as int, (2 * u) as int, 0);
        lemma_nearest_self(x.mag());
    }
}

/// A difference times one is the difference, whatever was subtracted.
pub proof fn law_difference_times_one(a: sunrealtype, b: sunrealtype)
    ensures
        r_mul(ONE(), r_sub(a, b)) == r_sub(a, b),
{
    let d = r_sub(a, b);
    if d.is_nan() {
        reveal(r_mul);
        reveal(r_sub);
        reveal(r_add);
        let s = a.value() + r_neg(b).value();
        lemma_negated(b);
        lemma_rounded_fits((2 * s) as nat, false);
        lemma_rounded_fits((-2 * s) as nat, false);
    } else {
        law_times_one(d);
    }
}

/// The sum of two numbers of which none is negative is not negative, and
/// positive where one of them is.
pub proof fn law_sum_of_positive(a: sunrealtype, b: sunrealtype)
    requires
        r_le(ZERO(), a),
        r_le(ZERO(), b),
    ensures
        r_le(ZERO(), r_add(a, b)),
        r_lt(ZERO(), a) || r_lt(ZERO(), b) ==> r_lt(ZERO(), r_add(a, b)),
{
    reveal(r_add);
    reveal(r_lt);
    reveal(r_eq);
    if a.is_finite() && b.is_finite() {
        assert(units_of(0) == 0) by {
            reveal(units_of);
        }
        if a.mag() > 0 {
            lemma_units_range(a.mag());
        }
        if b.mag() > 0 {
            lemma_units_range(b.mag());
        }
        let s = a.value() + b.value();
        lemma_rounded_fits((2 * s) as nat, false);
    }
}

/// The product of two numbers of which none is negative is not negative, where
/// it is a number.
pub proof fn law_product_of_positive(a: sunrealtype, b: sunrealtype)
    requires
        r_le(ZERO(), a),
        r_le(ZERO(), b),
        !r_mul(a, b).is_nan(),
    ensures
        r_le(ZERO(), r_mul(a, b)),
{
    reveal(r_mul);
    reveal(r_lt);
    reveal(r_eq);
    let n = a.units() * b.units();
    lemma_rounded_fits(n / pow2(1073), n % pow2(1073) != 0);
    assert(units_of(0) == 0) by {
        reveal(units_of);
    }
    assert(0 * b.units() == 0 && a.units() * 0 == 0) by (nonlinear_arith);
    lemma_pow2_pos(1073);
    assert(0nat / pow2(1073) == 0 && 0nat % pow2(1073) == 0) by {
        lemma_fundamental_div_mod_converse(0, pow2(1073) as int, 0, 0);
    }
    crate::arith::lemma_nearest_zero();
}

/// The reciprocal of a positive finite number is positive.
pub proof fn law_reciprocal_positive(d: sunrealtype)
    requires
        d.is_finite(),
        r_lt(ZERO(), d),
    ensures
        r_lt(ZERO(), r_div(ONE(), d)),
{
    reveal(r_div);
    reveal(r_lt);
    lemma_one_units();
    lemma_units_range(d.mag());
    let u = d.units();
    let n = pow2(1074) * pow2(1075);
    lemma_pow2_adds(1074, 1075);
    lemma_pow2_adds(1, 2098);
    lemma2_to64();
    lemma_pow2_strictly_increases(2099, 2149);
    lemma_fundamental_div_mod(n as int, u as int);
    let f = n / u;
    assert(f >= 2) by (nonlinear_arith)
        requires
            n == u * f + n % u,
            n % u < u,
            n > 2 * u,
            u > 0,
    ;
    lemma_rounded_fits(f, n % u != 0);
}

/// The distance of two numbers does not depend on their order.
pub proof fn law_distance_symmetric(a: sunrealtype, b: sunrealtype)
    ensures
        r_abs(r_sub(a, b)) == r_abs(r_sub(b, a)),
{
    reveal(r_abs);
    reveal(r_sub);
    reveal(r_add);
    lemma_negated(a);
    lemma_negated(b);
    let s = a.value() - b.value();
    lemma_nearest_fits((2 * s) as nat);
    lemma_nearest_fits((-2 * s) as nat);
}

/// Whether two numbers differ by more than a tolerance does not depend on
/// their order.
pub proof fn law_compare_symmetric(a: sunrealtype, b: sunrealtype, tol: sunrealtype)
    ensures
        r_differ(a, b, tol) == r_differ(b, a, tol),
{
    reveal(r_eq);
    law_distance_symmetric(a, b);
    law_add_commutes(a, b);
}

/// A number that is not NaN never differs from itself; NaN differs from
/// everything.
pub proof fn law_compare_reflexive(a: sunrealtype, b: sunrealtype, tol: sunrealtype)
    ensures
        !a.is_nan() ==> !r_differ(a, a, tol),
        a.is_nan() ==> r_differ(a, b, tol),
{
    reveal(r_eq);
    if a.is_nan() {
        reveal(r_lt);
        reveal(r_sub);
        reveal(r_add);
        reveal(r_abs);
    }
}

/// Either order of two numbers gives the same smaller and larger one, unless
/// they are unordered or share a position.
pub proof fn law_min_max_symmetric(a: sunrealtype, b: sunrealtype)
    requires
        !a.is_nan(),
        !b.is_nan(),
        a.key() != b.key(),
    ensures
        r_min(a, b) == r_min(b, a),
        r_max(a, b) == r_max(b, a),
        r_lt(r_min(a, b), r_max(a, b)),
{
    reveal(r_lt);
}

proof fn lemma_shift(w: Seq<char>, s: Seq<char>, i: nat)
    ensures
        digits_end(w + s, (w.len() + i) as nat) == w.len() + digits_end(s, i),
        skip_white(w + s, (w.len() + i) as nat) == w.len() + skip_white(s, i),
    decreases s.len() - i,
{
    if i < s.len() {
        assert((w + s)[(w.len() + i) as int] == s[i as int]);
        lemma_shift(w, s, i + 1);
        assert((w.len() + i) + 1 == w.len() + (i + 1));
    }
}

proof fn lemma_shift_value(w: Seq<char>, s: Seq<char>, lo: nat, hi: nat)
    requires
        hi <= s.len(),
    ensures
        value_of(w + s, (w.len() + lo) as nat, (w.len() + hi) as nat) == value_of(s, lo, hi),
    decreases hi,
{
    if hi > lo {
        lemma_shift_value(w, s, lo, (hi - 1) as nat);
        assert((w + s)[w.len() + hi - 1] == s[hi - 1]);
        assert((w.len() + hi) as nat - 1 == w.len() + (hi - 1));
    } else {
        assert(value_of(w + s, (w.len() + lo) as nat, (w.len() + hi) as nat) == 0);
    }
}

proof fn lemma_digits_end_range(s: Seq<char>, i: nat)
    requires
        i <= s.len(),
    ensures
        i <= digits_end(s, i) <= s.len(),
    decreases s.len() - i,
{
    if i < s.len() && is_digit(s[i as int]) {
        lemma_digits_end_range(s, i + 1);
    }
}

proof fn lemma_skip_white_range(s: Seq<char>, i: nat)
    requires
        i <= s.len(),
    ensures
        i <= skip_white(s, i) <= s.len(),
    decreases s.len() - i,
{
    if i < s.len() && is_white(s[i as int]) {
        lemma_skip_white_range(s, i + 1);
    }
}

proof fn lemma_shift_stands(w: Seq<char>, s: Seq<char>, i: nat)
    ensures
        forall|c: char| #[trigger] stands(w + s, (w.len() + i) as nat, c) == stands(s, i, c),
        behind_sign(w + s, (w.len() + i) as nat) == w.len() + behind_sign(s, i),
{
    if i < s.len() {
        assert((w + s)[(w.len() + i) as int] == s[i as int]);
    }
    assert(stands(w + s, (w.len() + i) as nat, '+') == stands(s, i, '+'));
    assert(stands(w + s, (w.len() + i) as nat, '-') == stands(s, i, '-'));
}

proof fn lemma_shift_exponent(w: Seq<char>, s: Seq<char>, i: nat)
    requires
        i <= s.len(),
    ensures
        exponent_at(w + s, (w.len() + i) as nat) == exponent_at(s, i),
{
    lemma_shift_stands(w, s, i);
    lemma_shift_stands(w, s, i + 1);
    assert((w.len() + i) as nat + 1 == (w.len() + (i + 1)) as nat);
    if letter(s, i, 'e', 'E') {
        let k = behind_sign(s, i + 1);
        lemma_digits_end_range(s, k);
        lemma_shift(w, s, k);
        lemma_shift_value(w, s, k, digits_end(s, k));
    }
}

proof fn lemma_shift_number(w: Seq<char>, s: Seq<char>, neg: bool, i: nat)
    requires
        i <= s.len(),
    ensures
        number_at(w + s, neg, (w.len() + i) as nat) == number_at(s, neg, i),
{
    let n = w.len();
    let a = digits_end(s, i);
    lemma_shift(w, s, i);
    lemma_digits_end_range(s, i);
    lemma_shift_stands(w, s, a);
    lemma_shift_value(w, s, i, a);
    assert((n + a) as nat + 1 == (n + (a + 1)) as nat);
    if stands(s, a, '.') {
        let b = digits_end(s, a + 1);
        lemma_shift(w, s, a + 1);
        lemma_digits_end_range(s, a + 1);
        lemma_shift_value(w, s, a + 1, b);
        lemma_shift_exponent(w, s, b);
    } else {
        assert(value_of(s, a + 1, a) == 0);
        assert(value_of(w + s, (n + a + 1) as nat, (n + a) as nat) == 0);
        lemma_shift_exponent(w, s, a);
    }
}

proof fn lemma_all_white(w: Seq<char>, s: Seq<char>, i: nat)
    requires
        i <= w.len(),
        forall|j: int| 0 <= j < w.len() ==> is_white(#[trigger] w[j]),
    ensures
        skip_white(w + s, i) == skip_white(w + s, w.len()),
    decreases w.len() - i,
{
    if i < w.len() {
        assert((w + s)[i as int] == w[i as int]);
        lemma_all_white(w, s, i + 1);
    }
}

/// ASCII white space before a text does not change the number that is read.
pub proof fn law_leading_white_space(w: Seq<char>, s: Seq<char>)
    requires
        forall|j: int| 0 <= j < w.len() ==> is_white(#[trigger] w[j]),
    ensures
        str_to_real(w + s) == str_to_real(s),
{
    lemma_all_white(w, s, 0);
    lemma_shift(w, s, 0);
    lemma_skip_white_range(s, 0);
    let p = skip_white(s, 0);
    lemma_shift_stands(w, s, p);
    let i = behind_sign(s, p);
    lemma_shift_stands(w, s, i);
    lemma_shift_stands(w, s, i + 1);
    lemma_shift_stands(w, s, i + 2);
    assert((w.len() + i) as nat + 1 == (w.len() + (i + 1)) as nat);
    assert((w.len() + i) as nat + 2 == (w.len() + (i + 2)) as nat);
    lemma_shift_number(w, s, stands(s, p, '-'), i);
}

/// A text that starts outside ASCII gives zero: no other white space is
/// skipped.
pub proof fn law_only_ascii_white_space(s: Seq<char>)
    requires
        s.len() > 0,
        s[0] as u32 >= 0x80,
    ensures
        str_to_real(s) == ZERO(),
{
    assert(skip_white(s, 0) == 0);
    assert(!stands(s, 0, '+') && !stands(s, 0, '-'));
    law_no_number(s);
}

/// A text in which neither a digit, nor a point, nor one of the letters that
/// start a special value follows white space and sign gives zero.
pub proof fn law_no_number(s: Seq<char>)
    requires
        ({
            let i = behind_sign(s, skip_white(s, 0));
            i < s.len() ==> {
                let c = s[i as int];
                !is_digit(c) && c != '.' && c != 'i' && c != 'I' && c != 'n' && c != 'N'
            }
        }),
    ensures
        str_to_real(s) == ZERO(),
{
}

/// A character that continues no number: no white space, digit, sign or
/// point, and none of the letters of an exponent or of a special value.
pub open spec fn ends_number(c: char) -> bool {
    &&& !is_white(c)
    &&& !is_digit(c)
    &&& c != '+' && c != '-' && c != '.'
    &&& c != 'e' && c != 'E'
    &&& c != 'i' && c != 'I' && c != 'n' && c != 'N'
    &&& c != 'f' && c != 'F' && c != 'a' && c != 'A'
}

proof fn lemma_extend_ends(s: Seq<char>, u: Seq<char>, i: nat)
    requires
        u.len() > 0 ==> ends_number(u[0]),
        i <= s.len(),
    ensures
        digits_end(s + u, i) == digits_end(s, i),
        skip_white(s + u, i) == skip_white(s, i),
    decreases s.len() - i,
{
    if i < s.len() {
        assert((s + u)[i as int] == s[i as int]);
        lemma_extend_ends(s, u, i + 1);
    } else if u.len() > 0 {
        assert((s + u)[i as int] == u[0]);
    }
}

proof fn lemma_extend_value(s: Seq<char>, u: Seq<char>, lo: nat, hi: nat)
    requires
        hi <= s.len(),
    ensures
        value_of(s + u, lo, hi) == value_of(s, lo, hi),
    decreases hi,
{
    if hi > lo {
        lemma_extend_value(s, u, lo, (hi - 1) as nat);
        assert((s + u)[hi - 1] == s[hi - 1]);
    }
}

proof fn lemma_extend_stands(s: Seq<char>, u: Seq<char>, i: nat)
    requires
        u.len() > 0 ==> ends_number(u[0]),
        i <= s.len(),
    ensures
        forall|c: char| !ends_number(c) ==> #[trigger] stands(s + u, i, c) == stands(s, i, c),
        behind_sign(s + u, i) == behind_sign(s, i),
        behind_sign(s, i) <= s.len(),
{
    if i < s.len() {
        assert((s + u)[i as int] == s[i as int]);
    } else if u.len() > 0 {
        assert((s + u)[i as int] == u[0]);
    }
    assert(stands(s + u, i, '+') == stands(s, i, '+'));
    assert(stands(s + u, i, '-') == stands(s, i, '-'));
}

proof fn lemma_extend_exponent(s: Seq<char>, u: Seq<char>, i: nat)
    requires
        u.len() > 0 ==> ends_number(u[0]),
        i <= s.len(),
    ensures
        exponent_at(s + u, i) == exponent_at(s, i),
{
    lemma_extend_stands(s, u, i);
    assert(stands(s + u, i, 'e') == stands(s, i, 'e'));
    assert(stands(s + u, i, 'E') == stands(s, i, 'E'));
    if letter(s, i, 'e', 'E') {
        lemma_extend_stands(s, u, i + 1);
        let k = behind_sign(s, i + 1);
        lemma_extend_ends(s, u, k);
        lemma_digits_end_range(s, k);
        lemma_extend_value(s, u, k, digits_end(s, k));
    }
}

proof fn lemma_extend_number(s: Seq<char>, u: Seq<char>, neg: bool, i: nat)
    requires
        u.len() > 0 ==> ends_number(u[0]),
        i <= s.len(),
    ensures
        number_at(s + u, neg, i) == number_at(s, neg, i),
{
    let a = digits_end(s, i);
    lemma_extend_ends(s, u, i);
    lemma_digits_end_range(s, i);
    lemma_extend_stands(s, u, a);
    assert(stands(s + u, a, '.') == stands(s, a, '.'));
    lemma_extend_value(s, u, i, a);
    if stands(s, a, '.') {
        let b = digits_end(s, a + 1);
        lemma_extend_ends(s, u, a + 1);
        lemma_digits_end_range(s, a + 1);
        lemma_extend_value(s, u, a + 1, b);
        lemma_extend_exponent(s, u, b);
    } else {
        assert(value_of(s, a + 1, a) == 0);
        assert(value_of(s + u, a + 1, a) == 0);
        lemma_extend_exponent(s, u, a);
    }
}

proof fn lemma_extend_letter(s: Seq<char>, u: Seq<char>, i: nat, small: char, capital: char)
    requires
        u.len() > 0 ==> ends_number(u[0]),
        i <= s.len(),
        !ends_number(small),
        !ends_number(capital),
    ensures
        letter(s + u, i, small, capital) == letter(s, i, small, capital),
{
    lemma_extend_stands(s, u, i);
    assert(stands(s + u, i, small) == stands(s, i, small));
    assert(stands(s + u, i, capital) == stands(s, i, capital));
}

/// What follows a number does not change it, where it starts with a character
/// that continues no number.
pub proof fn law_trailing_text(s: Seq<char>, u: Seq<char>)
    requires
        u.len() > 0 ==> ends_number(u[0]),
    ensures
        str_to_real(s + u) == str_to_real(s),
{
    lemma_extend_ends(s, u, 0);
    lemma_skip_white_range(s, 0);
    let w = skip_white(s, 0);
    lemma_extend_stands(s, u, w);
    assert(stands(s + u, w, '-') == stands(s, w, '-'));
    let i = behind_sign(s, w);
    lemma_extend_letter(s, u, i, 'i', 'I');
    lemma_extend_letter(s, u, i, 'n', 'N');
    if letter(s, i, 'i', 'I') {
        lemma_extend_letter(s, u, i + 1, 'n', 'N');
        if letter(s, i + 1, 'n', 'N') {
            lemma_extend_letter(s, u, i + 2, 'f', 'F');
        }
    }
    if letter(s, i, 'n', 'N') {
        lemma_extend_letter(s, u, i + 1, 'a', 'A');
        if letter(s, i + 1, 'a', 'A') {
            lemma_extend_letter(s, u, i + 2, 'n', 'N');
        }
    }
    lemma_extend_number(s, u, stands(s, w, '-'), i);
}

} // verus!
