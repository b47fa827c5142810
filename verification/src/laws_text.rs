//! Laws of the numbers that a text is read as.
use crate::arith::lemma_signed;
use crate::binary64::{nearest, r_int, r_neg, signed, sunrealtype, INF_BITS};
use crate::decimal::ten;
use crate::text::{
    behind_sign, digits_end, exponent_at, is_digit, is_white, number_at, skip_white, str_to_real,
    value_of,
};
use vstd::arithmetic::power2::pow2;
use vstd::prelude::*;

verus! {

/// Whether a text is made of decimal digits.
pub open spec fn all_digits(s: Seq<char>) -> bool {
    forall|i: int| 0 <= i < s.len() ==> '0' <= #[trigger] s[i] && s[i] <= '9'
}

/// What a text of digits says: each digit adds itself to ten times what stands
/// before it.
pub open spec fn reading(s: Seq<char>) -> nat
    decreases s.len(),
{
    if s.len() == 0 {
        0
    } else {
        10 * reading(s.drop_last()) + (s.last() as int - '0' as int) as nat
    }
}

/// Ten to the power of `k`.
pub open spec fn power_of_ten(k: nat) -> nat
    decreases k,
{
    if k == 0 {
        1
    } else {
        power_of_ten((k - 1) as nat) * 10
    }
}

/// The number nearest to a fraction.
pub open spec fn nearest_fraction(n: nat, d: nat) -> sunrealtype {
    signed(false, nearest((n * pow2(1075)) / d, (n * pow2(1075)) % d != 0))
}

proof fn lemma_value(s: Seq<char>, t: Seq<char>, lo: nat, hi: nat)
    requires
        lo <= hi <= s.len(),
        t == s.subrange(lo as int, hi as int),
    ensures
        value_of(s, lo, hi) == reading(t),
    decreases hi,
{
    if hi > lo {
        assert(t.drop_last() =~= s.subrange(lo as int, hi - 1));
        lemma_value(s, t.drop_last(), lo, (hi - 1) as nat);
        assert(t.last() == s[hi - 1]);
    }
}

proof fn lemma_end(s: Seq<char>, i: nat, j: nat)
    requires
        i <= j <= s.len(),
        forall|k: int| i <= k < j ==> is_digit(#[trigger] s[k]),
        j == s.len() || !is_digit(s[j as int]),
    ensures
        digits_end(s, i) == j,
    decreases j - i,
{
    if i < j {
        lemma_end(s, i + 1, j);
    }
}

proof fn lemma_power(k: nat)
    ensures
        ten(k) == power_of_ten(k),
        ten(k) > 0,
    decreases k,
{
    if k > 0 {
        lemma_power((k - 1) as nat);
    }
}

/// Digits alone are read as the integer they say, rounded.
pub proof fn law_integer_text(s: Seq<char>)
    requires
        s.len() > 0,
        all_digits(s),
    ensures
        str_to_real(s) == r_int(reading(s) as int),
{
    reveal(r_int);
    assert(!is_white(s[0]));
    assert(skip_white(s, 0) == 0);
    assert(s[0] >= '0' && s[0] <= '9');
    lemma_end(s, 0, s.len());
    assert(s.subrange(0, s.len() as int) =~= s);
    lemma_value(s, s, 0, s.len());
    let n = reading(s);
    assert(value_of(s, (s.len() + 1) as nat, s.len()) == 0);
    assert(ten(0) == 1);
    assert(n * 1 + 0 == n);
    let x = n * pow2(1075);
    assert(x / 1 == x && x % 1 == 0);
    assert(str_to_real(s) == number_at(s, false, 0));
    assert(exponent_at(s, s.len()) == 0);
}

/// Digits with a point are read as the fraction they say: the digits on both
/// sides over ten for each one behind the point, rounded.
pub proof fn law_fraction_text(s: Seq<char>, t: Seq<char>)
    requires
        s.len() > 0,
        all_digits(s),
        all_digits(t),
    ensures
        t.len() > 0 ==> str_to_real(s + seq!['.'] + t) == nearest_fraction(
            reading(s) * power_of_ten(t.len()) + reading(t),
            power_of_ten(t.len()),
        ),
{
    if t.len() > 0 {
        let w = s + seq!['.'] + t;
        let a = s.len();
        assert(w[0] == s[0]);
        assert(!is_white(w[0]));
        assert(skip_white(w, 0) == 0);
        assert forall|k: int| 0 <= k < a implies is_digit(#[trigger] w[k]) by {
            assert(w[k] == s[k]);
        }
        assert(w[a as int] == '.');
        lemma_end(w, 0, a);
        assert forall|k: int| a + 1 <= k < w.len() implies is_digit(#[trigger] w[k]) by {
            assert(w[k] == t[k - a - 1]);
        }
        lemma_end(w, a + 1, w.len());
        assert(w.subrange(0, a as int) =~= s);
        assert(w.subrange(a as int + 1, w.len() as int) =~= t);
        lemma_value(w, s, 0, a);
        lemma_value(w, t, a + 1, w.len());
        lemma_power(t.len());
        assert(exponent_at(w, w.len()) == 0);
    }
}

/// A sign in front: minus changes the sign of what is read, plus changes
/// nothing.
pub proof fn law_signed_text(s: Seq<char>)
    requires
        s.len() > 0,
        all_digits(s),
    ensures
        str_to_real(seq!['-'] + s) == r_neg(str_to_real(s)),
        str_to_real(seq!['+'] + s) == str_to_real(s),
{
    law_integer_text(s);
    reveal(r_int);
    let n = reading(s);
    assert forall|c: char| c == '-' || c == '+' implies #[trigger] str_to_real(seq![c] + s)
        == signed(c == '-', nearest(n * pow2(1075), false)) by {
        let w = seq![c] + s;
        assert(w[0] == c);
        assert(skip_white(w, 0) == 0);
        assert(w[1] == s[0]);
        assert forall|k: int| 1 <= k < w.len() implies is_digit(#[trigger] w[k]) by {
            assert(w[k] == s[k - 1]);
        }
        lemma_end(w, 1, w.len());
        assert(w.subrange(1, w.len() as int) =~= s);
        lemma_value(w, s, 1, w.len());
        assert(value_of(w, (w.len() + 1) as nat, w.len()) == 0);
        assert(ten(0) == 1);
        assert(n * 1 + 0 == n);
        let x = n * pow2(1075);
        assert(x / 1 == x && x % 1 == 0);
        assert(exponent_at(w, w.len()) == 0);
        assert(behind_sign(w, 0) == 1);
    }
    assert(str_to_real(seq!['-'] + s) == signed(true, nearest(n * pow2(1075), false)));
    assert(str_to_real(seq!['+'] + s) == signed(false, nearest(n * pow2(1075), false)));
    reveal(r_neg);
    assert(nearest(n * pow2(1075), false) <= INF_BITS) by {
        reveal(nearest);
    }
    lemma_signed(false, nearest(n * pow2(1075), false));
}

/// An exponent behind the digits multiplies what is read by that power of ten,
/// or divides by it where it is negative.
pub proof fn law_exponent_text(s: Seq<char>, x: Seq<char>, capital: bool)
    requires
        s.len() > 0,
        all_digits(s),
        x.len() > 0,
        all_digits(x),
    ensures
        ({
            let e = if capital {
                'E'
            } else {
                'e'
            };
            let p = power_of_ten(reading(x));
            &&& str_to_real(s + seq![e] + x) == nearest_fraction(reading(s) * p, 1)
            &&& reading(x) > 0 ==> str_to_real(s + seq![e, '-'] + x) == nearest_fraction(
                reading(s),
                p,
            )
        }),
{
    let e = if capital {
        'E'
    } else {
        'e'
    };
    lemma_power(reading(x));
    let a = s.len();
    let w = s + seq![e] + x;
    assert(w[0] == s[0]);
    assert(skip_white(w, 0) == 0);
    assert forall|k: int| 0 <= k < a implies is_digit(#[trigger] w[k]) by {
        assert(w[k] == s[k]);
    }
    assert(w[a as int] == e);
    assert(w[a as int + 1] == x[0]);
    lemma_end(w, 0, a);
    assert forall|k: int| a + 1 <= k < w.len() implies is_digit(#[trigger] w[k]) by {
        assert(w[k] == x[k - a - 1]);
    }
    lemma_end(w, a + 1, w.len());
    assert(w.subrange(0, a as int) =~= s);
    assert(w.subrange(a as int + 1, w.len() as int) =~= x);
    lemma_value(w, s, 0, a);
    lemma_value(w, x, a + 1, w.len());
    assert(value_of(w, (a + 1) as nat, a) == 0);
    assert(ten(0) == 1);
    assert(exponent_at(w, a) == reading(x));
    let v = s + seq![e, '-'] + x;
    assert(v[0] == s[0]);
    assert(skip_white(v, 0) == 0);
    assert forall|k: int| 0 <= k < a implies is_digit(#[trigger] v[k]) by {
        assert(v[k] == s[k]);
    }
    assert(v[a as int] == e);
    assert(v[a as int + 1] == '-');
    lemma_end(v, 0, a);
    assert forall|k: int| a + 2 <= k < v.len() implies is_digit(#[trigger] v[k]) by {
        assert(v[k] == x[k - a - 2]);
    }
    lemma_end(v, a + 2, v.len());
    assert(v.subrange(0, a as int) =~= s);
    assert(v.subrange(a as int + 2, v.len() as int) =~= x);
    lemma_value(v, s, 0, a);
    lemma_value(v, x, a + 2, v.len());
    assert(value_of(v, (a + 1) as nat, a) == 0);
    assert(exponent_at(v, a) == -(reading(x) as int));
    assert(reading(s) * 1 + 0 == reading(s));
}

} // verus!
