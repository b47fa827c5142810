//! `sunrealtype`: IEEE 754 binary64 numbers held as bit patterns, with
//! arithmetic that rounds to nearest, ties to even.
//!
//! A finite number is an integer multiple of the smallest subnormal
//! `2^-1074`; the model below calls that multiple its *units*. Every
//! operation is stated as the exact result rounded once by [`nearest`].
//! All invalid operations return the one quiet NaN [`NAN_BITS`].
use vstd::arithmetic::power2::pow2;
use vstd::prelude::*;

verus! {

/// Bit pattern of positive infinity; smaller magnitudes are finite, larger are NaN.
pub const INF_BITS: u64 = 0x7ff0_0000_0000_0000;

/// Bit pattern of the NaN that invalid operations return.
pub const NAN_BITS: u64 = 0x7ff8_0000_0000_0000;

/// The sign bit.
pub const SIGN_BIT: u64 = 0x8000_0000_0000_0000;

/// One step of the exponent field, `2^52`.
pub const EXP_STEP: u64 = 0x10_0000_0000_0000;

/// A binary64 number.
#[derive(Clone, Copy, Debug)]
pub struct sunrealtype {
    pub bits: u64,
}

impl sunrealtype {
    /// Whether the sign bit is set.
    pub open spec fn neg(self) -> bool {
        self.bits >= SIGN_BIT
    }

    /// The bit pattern without its sign.
    pub open spec fn mag(self) -> nat {
        if self.neg() {
            (self.bits - SIGN_BIT) as nat
        } else {
            self.bits as nat
        }
    }

    pub open spec fn is_nan(self) -> bool {
        self.mag() > INF_BITS
    }

    pub open spec fn is_inf(self) -> bool {
        self.mag() == INF_BITS
    }

    pub open spec fn is_finite(self) -> bool {
        self.mag() < INF_BITS
    }

    /// Distance from zero in multiples of `2^-1074`.
    pub open spec fn units(self) -> nat {
        units_of(self.mag())
    }

    /// Signed multiple of `2^-1074` that a finite number stands for.
    pub open spec fn value(self) -> int {
        if self.neg() {
            -(self.units() as int)
        } else {
            self.units() as int
        }
    }

    /// Position in the order of the extended reals; both zeros share position zero.
    pub open spec fn key(self) -> int {
        if self.neg() {
            -(self.mag() as int)
        } else {
            self.mag() as int
        }
    }
}

/// Units of the finite number with magnitude bits `mag`.
#[verifier::opaque]
pub open spec fn units_of(mag: nat) -> nat {
    let e = mag / (EXP_STEP as nat);
    let m = mag % (EXP_STEP as nat);
    if e == 0 {
        m
    } else {
        (EXP_STEP as nat + m) * pow2((e - 1) as nat)
    }
}

/// Number of binary digits of `n`.
pub open spec fn bit_length(n: nat) -> nat
    decreases n,
{
    if n == 0 {
        0
    } else {
        1 + bit_length(n / 2)
    }
}

/// Exponent of the gap between neighbouring numbers at `q` units.
pub open spec fn gap_exponent(q: nat) -> nat {
    if bit_length(q) <= 53 {
        0
    } else {
        (bit_length(q) - 53) as nat
    }
}

/// Magnitude bits of the number nearest to `v` units, ties to even, where
/// `f` is the integer part of `2 v` and `inexact` says whether `2 v` has a
/// fractional part.
#[verifier::opaque]
pub open spec fn nearest(f: nat, inexact: bool) -> nat {
    let k = gap_exponent(f / 2);
    let gap = pow2(k + 1);
    let n = f / gap;
    let r = f % gap;
    let up = r > pow2(k) || (r == pow2(k) && (inexact || n % 2 == 1));
    let bits = k * (EXP_STEP as nat) + n + if up {
        1nat
    } else {
        0nat
    };
    if bits > INF_BITS {
        INF_BITS as nat
    } else {
        bits
    }
}

/// The number with the given sign and magnitude bits.
pub open spec fn signed(neg: bool, mag: nat) -> sunrealtype {
    sunrealtype {
        bits: (mag + if neg {
            SIGN_BIT as nat
        } else {
            0nat
        }) as u64,
    }
}

pub open spec fn nan() -> sunrealtype {
    sunrealtype { bits: NAN_BITS }
}

/// Largest integer whose square does not exceed `n`.
#[verifier::opaque]
pub open spec fn int_sqrt(n: nat) -> nat {
    choose|s: nat| s * s <= n && n < #[trigger] ((s + 1) * (s + 1))
}

/// `a + b`.
#[verifier::opaque]
pub open spec fn r_add(a: sunrealtype, b: sunrealtype) -> sunrealtype {
    if a.is_nan() || b.is_nan() {
        nan()
    } else if a.is_inf() {
        if b.is_inf() && a.neg() != b.neg() {
            nan()
        } else {
            a
        }
    } else if b.is_inf() {
        b
    } else {
        let s = a.value() + b.value();
        if s == 0 {
            signed(a.neg() && b.neg(), 0)
        } else if s > 0 {
            signed(false, nearest((2 * s) as nat, false))
        } else {
            signed(true, nearest((-2 * s) as nat, false))
        }
    }
}

/// `-a`.
#[verifier::opaque]
pub open spec fn r_neg(a: sunrealtype) -> sunrealtype {
    signed(!a.neg(), a.mag())
}

/// `a - b`.
#[verifier::opaque]
pub open spec fn r_sub(a: sunrealtype, b: sunrealtype) -> sunrealtype {
    r_add(a, r_neg(b))
}

/// `a * b`.
#[verifier::opaque]
pub open spec fn r_mul(a: sunrealtype, b: sunrealtype) -> sunrealtype {
    let neg = a.neg() != b.neg();
    if a.is_nan() || b.is_nan() {
        nan()
    } else if a.is_inf() || b.is_inf() {
        if a.mag() == 0 || b.mag() == 0 {
            nan()
        } else {
            signed(neg, INF_BITS as nat)
        }
    } else {
        let n = a.units() * b.units();
        signed(neg, nearest(n / pow2(1073), n % pow2(1073) != 0))
    }
}

/// `a / b`.
#[verifier::opaque]
pub open spec fn r_div(a: sunrealtype, b: sunrealtype) -> sunrealtype {
    let neg = a.neg() != b.neg();
    if a.is_nan() || b.is_nan() || (a.is_inf() && b.is_inf()) || (a.mag() == 0 && b.mag() == 0) {
        nan()
    } else if a.is_inf() || b.mag() == 0 {
        signed(neg, INF_BITS as nat)
    } else if b.is_inf() {
        signed(neg, 0)
    } else {
        let n = a.units() * pow2(1075);
        signed(neg, nearest(n / b.units(), n % b.units() != 0))
    }
}

/// Square root of `a`.
#[verifier::opaque]
pub open spec fn r_sqrt(a: sunrealtype) -> sunrealtype {
    if a.is_nan() {
        nan()
    } else if a.mag() == 0 {
        a
    } else if a.neg() {
        nan()
    } else if a.is_inf() {
        a
    } else {
        let n = a.units() * pow2(1076);
        let f = int_sqrt(n);
        signed(false, nearest(f, f * f != n))
    }
}

/// `|a|`.
#[verifier::opaque]
pub open spec fn r_abs(a: sunrealtype) -> sunrealtype {
    signed(false, a.mag())
}

/// `a == b`: false whenever either is NaN, true for zeros of either sign.
#[verifier::opaque]
pub open spec fn r_eq(a: sunrealtype, b: sunrealtype) -> bool {
    !a.is_nan() && !b.is_nan() && a.key() == b.key()
}

/// `a < b`: false whenever either is NaN.
#[verifier::opaque]
pub open spec fn r_lt(a: sunrealtype, b: sunrealtype) -> bool {
    !a.is_nan() && !b.is_nan() && a.key() < b.key()
}

/// `a <= b`: false whenever either is NaN.
pub open spec fn r_le(a: sunrealtype, b: sunrealtype) -> bool {
    r_lt(a, b) || r_eq(a, b)
}

/// The number nearest to the integer `i`.
#[verifier::opaque]
pub open spec fn r_int(i: int) -> sunrealtype {
    if i < 0 {
        signed(true, nearest(((-i) as nat) * pow2(1075), false))
    } else {
        signed(false, nearest((i as nat) * pow2(1075), false))
    }
}

} // verus!
