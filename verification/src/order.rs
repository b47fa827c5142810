//! `==` and `<` on `sunrealtype`, as IEEE 754 has them: NaN is unordered and
//! the two zeros are equal.
use crate::arith::{equal, less};
use crate::binary64::{r_eq, r_lt, sunrealtype};
use core::cmp::Ordering;
use vstd::prelude::*;
use vstd::std_specs::cmp::PartialOrdSpec;

verus! {

impl PartialEq for sunrealtype {
    fn eq(&self, other: &sunrealtype) -> (r: bool) {
        equal(*self, *other)
    }
}

impl vstd::std_specs::cmp::PartialEqSpecImpl for sunrealtype {
    open spec fn obeys_eq_spec() -> bool {
        true
    }

    open spec fn eq_spec(&self, other: &sunrealtype) -> bool {
        r_eq(*self, *other)
    }
}

impl PartialOrd for sunrealtype {
    fn partial_cmp(&self, other: &sunrealtype) -> (r: Option<Ordering>) {
        reveal(r_lt);
        reveal(r_eq);
        if less(*self, *other) {
            Some(Ordering::Less)
        } else if less(*other, *self) {
            Some(Ordering::Greater)
        } else if equal(*self, *other) {
            Some(Ordering::Equal)
        } else {
            None
        }
    }
}

impl vstd::std_specs::cmp::PartialOrdSpecImpl for sunrealtype {
    open spec fn obeys_partial_cmp_spec() -> bool {
        true
    }

    open spec fn partial_cmp_spec(&self, other: &sunrealtype) -> Option<Ordering> {
        if r_lt(*self, *other) {
            Some(Ordering::Less)
        } else if r_lt(*other, *self) {
            Some(Ordering::Greater)
        } else if r_eq(*self, *other) {
            Some(Ordering::Equal)
        } else {
            None
        }
    }
}

/// `<` does not hold both ways.
pub broadcast proof fn lemma_lt_asymmetric(a: sunrealtype, b: sunrealtype)
    ensures
        #[trigger] r_lt(a, b) ==> !r_lt(b, a),
{
    reveal(r_lt);
}

/// Equal numbers are not less than each other.
pub broadcast proof fn lemma_eq_not_lt(a: sunrealtype, b: sunrealtype)
    ensures
        #[trigger] r_eq(a, b) ==> !r_lt(a, b) && !r_lt(b, a),
{
    reveal(r_lt);
    reveal(r_eq);
}

/// Equality holds both ways.
pub broadcast proof fn lemma_eq_symmetric(a: sunrealtype, b: sunrealtype)
    ensures
        #[trigger] r_eq(a, b) == r_eq(b, a),
{
    reveal(r_eq);
}

pub broadcast group group_order {
    lemma_lt_asymmetric,
    lemma_eq_not_lt,
    lemma_eq_symmetric,
}

/// Whether comparisons on `T` follow its order.
pub open spec fn ordered<T: PartialOrd>() -> bool {
    T::obeys_partial_cmp_spec()
}

/// `a < b` in the order of `T`.
pub open spec fn is_less<T: PartialOrd>(a: T, b: T) -> bool {
    a.partial_cmp_spec(&b) == Some(Ordering::Less)
}

/// `a > b` in the order of `T`.
pub open spec fn is_greater<T: PartialOrd>(a: T, b: T) -> bool {
    a.partial_cmp_spec(&b) == Some(Ordering::Greater)
}

} // verus!
