//! Basic types and constants.
use crate::binary64::sunrealtype;
use vstd::prelude::*;

verus! {

pub type sunbooleantype = bool;

pub type sunindextype = i64;

pub const SUNTRUE: sunbooleantype = true;

pub const SUNFALSE: sunbooleantype = false;

/// Zero.
#[verifier::allow_in_spec]
pub fn ZERO() -> sunrealtype
    returns
        (sunrealtype { bits: 0x0000_0000_0000_0000 }),
{
    sunrealtype { bits: 0x0000_0000_0000_0000 }
}

/// One tenth.
#[verifier::allow_in_spec]
pub fn TENTH() -> sunrealtype
    returns
        (sunrealtype { bits: 0x3fb9_9999_9999_999a }),
{
    sunrealtype { bits: 0x3fb9_9999_9999_999a }
}

/// One half.
#[verifier::allow_in_spec]
pub fn HALF() -> sunrealtype
    returns
        (sunrealtype { bits: 0x3fe0_0000_0000_0000 }),
{
    sunrealtype { bits: 0x3fe0_0000_0000_0000 }
}

/// One.
#[verifier::allow_in_spec]
pub fn ONE() -> sunrealtype
    returns
        (sunrealtype { bits: 0x3ff0_0000_0000_0000 }),
{
    sunrealtype { bits: 0x3ff0_0000_0000_0000 }
}

/// One and a half.
#[verifier::allow_in_spec]
pub fn ONE_AND_HALF() -> sunrealtype
    returns
        (sunrealtype { bits: 0x3ff8_0000_0000_0000 }),
{
    sunrealtype { bits: 0x3ff8_0000_0000_0000 }
}

/// Two.
#[verifier::allow_in_spec]
pub fn TWO() -> sunrealtype
    returns
        (sunrealtype { bits: 0x4000_0000_0000_0000 }),
{
    sunrealtype { bits: 0x4000_0000_0000_0000 }
}

/// Four.
#[verifier::allow_in_spec]
pub fn FOUR() -> sunrealtype
    returns
        (sunrealtype { bits: 0x4010_0000_0000_0000 }),
{
    sunrealtype { bits: 0x4010_0000_0000_0000 }
}

/// Ten.
#[verifier::allow_in_spec]
pub fn TEN() -> sunrealtype
    returns
        (sunrealtype { bits: 0x4024_0000_0000_0000 }),
{
    sunrealtype { bits: 0x4024_0000_0000_0000 }
}

/// One hundred.
#[verifier::allow_in_spec]
pub fn HUNDRED() -> sunrealtype
    returns
        (sunrealtype { bits: 0x4059_0000_0000_0000 }),
{
    sunrealtype { bits: 0x4059_0000_0000_0000 }
}

/// Distance from one to the next larger number.
#[verifier::allow_in_spec]
pub fn SUN_UNIT_ROUNDOFF() -> sunrealtype
    returns
        (sunrealtype { bits: 0x3cb0_0000_0000_0000 }),
{
    sunrealtype { bits: 0x3cb0_0000_0000_0000 }
}

/// The largest finite number.
#[verifier::allow_in_spec]
pub fn SUN_BIG_REAL() -> sunrealtype
    returns
        (sunrealtype { bits: 0x7fef_ffff_ffff_ffff }),
{
    sunrealtype { bits: 0x7fef_ffff_ffff_ffff }
}

/// The smallest normal number.
#[verifier::allow_in_spec]
pub fn SUN_SMALL_REAL() -> sunrealtype
    returns
        (sunrealtype { bits: 0x0010_0000_0000_0000 }),
{
    sunrealtype { bits: 0x0010_0000_0000_0000 }
}

} // verus!
