//! Return codes and flags of the integrator.
use crate::binary64::sunrealtype;
use vstd::prelude::*;

verus! {

pub const ARK_NORMAL: i32 = 1;

pub const ARK_ONE_STEP: i32 = 2;

pub const ARK_FULLRHS_START: i32 = 0;

pub const ARK_FULLRHS_END: i32 = 1;

pub const ARK_FULLRHS_OTHER: i32 = 2;

pub const ARK_INTERP_MAX_DEGREE: i32 = 5;

pub const ARK_INTERP_NONE: i32 = -1;

pub const ARK_INTERP_HERMITE: i32 = 0;

pub const ARK_INTERP_LAGRANGE: i32 = 1;

pub const ARK_SUCCESS: i32 = 0;

pub const ARK_TSTOP_RETURN: i32 = 1;

pub const ARK_ROOT_RETURN: i32 = 2;

pub const ARK_WARNING: i32 = 99;

pub const ARK_TOO_MUCH_WORK: i32 = -1;

pub const ARK_TOO_MUCH_ACC: i32 = -2;

pub const ARK_ERR_FAILURE: i32 = -3;

pub const ARK_CONV_FAILURE: i32 = -4;

pub const ARK_LINIT_FAIL: i32 = -5;

pub const ARK_LSETUP_FAIL: i32 = -6;

pub const ARK_LSOLVE_FAIL: i32 = -7;

pub const ARK_RHSFUNC_FAIL: i32 = -8;

pub const ARK_FIRST_RHSFUNC_ERR: i32 = -9;

pub const ARK_REPTD_RHSFUNC_ERR: i32 = -10;

pub const ARK_UNREC_RHSFUNC_ERR: i32 = -11;

pub const ARK_RTFUNC_FAIL: i32 = -12;

pub const ARK_LFREE_FAIL: i32 = -13;

pub const ARK_MASSINIT_FAIL: i32 = -14;

pub const ARK_MASSSETUP_FAIL: i32 = -15;

pub const ARK_MASSSOLVE_FAIL: i32 = -16;

pub const ARK_MASSFREE_FAIL: i32 = -17;

pub const ARK_MASSMULT_FAIL: i32 = -18;

pub const ARK_CONSTR_FAIL: i32 = -19;

pub const ARK_MEM_FAIL: i32 = -20;

pub const ARK_MEM_NULL: i32 = -21;

pub const ARK_ILL_INPUT: i32 = -22;

pub const ARK_NO_MALLOC: i32 = -23;

pub const ARK_BAD_K: i32 = -24;

pub const ARK_BAD_T: i32 = -25;

pub const ARK_BAD_DKY: i32 = -26;

pub const ARK_TOO_CLOSE: i32 = -27;

pub const ARK_VECTOROP_ERR: i32 = -28;

pub const ARK_NLS_INIT_FAIL: i32 = -29;

pub const ARK_NLS_SETUP_FAIL: i32 = -30;

pub const ARK_NLS_SETUP_RECVR: i32 = -31;

pub const ARK_NLS_OP_ERR: i32 = -32;

pub const ARK_INNERSTEP_ATTACH_ERR: i32 = -33;

pub const ARK_INNERSTEP_FAIL: i32 = -34;

pub const ARK_OUTERTOINNER_FAIL: i32 = -35;

pub const ARK_INNERTOOUTER_FAIL: i32 = -36;

pub const ARK_POSTPROCESS_STEP_FAIL: i32 = -37;

pub const ARK_POSTPROCESS_STAGE_FAIL: i32 = -38;

pub const ARK_USER_PREDICT_FAIL: i32 = -39;

pub const ARK_INTERP_FAIL: i32 = -40;

pub const ARK_INVALID_TABLE: i32 = -41;

pub const ARK_CONTEXT_ERR: i32 = -42;

pub const ARK_RELAX_FAIL: i32 = -43;

pub const ARK_RELAX_MEM_NULL: i32 = -44;

pub const ARK_RELAX_FUNC_FAIL: i32 = -45;

pub const ARK_RELAX_JAC_FAIL: i32 = -46;

pub const ARK_CONTROLLER_ERR: i32 = -47;

pub const ARK_STEPPER_UNSUPPORTED: i32 = -48;

pub const ARK_DOMEIG_FAIL: i32 = -49;

pub const ARK_MAX_STAGE_LIMIT_FAIL: i32 = -50;

pub const ARK_SUNSTEPPER_ERR: i32 = -51;

pub const ARK_STEP_DIRECTION_ERR: i32 = -52;

pub const ARK_ADJ_CHECKPOINT_FAIL: i32 = -53;

pub const ARK_ADJ_RECOMPUTE_FAIL: i32 = -54;

pub const ARK_SUNADJSTEPPER_ERR: i32 = -55;

pub const ARK_PRESTEPFN_FAIL: i32 = -56;

pub const ARK_POSTSTEPFN_FAIL: i32 = -57;

pub const ARK_PRERHSFN_FAIL: i32 = -58;

pub const ARK_STEP_H0_FAIL: i32 = -59;

pub const ARK_UNRECOGNIZED_ERROR: i32 = -99;

pub const FIRST_INIT: i32 = 0;

pub const RESET_INIT: i32 = 1;

pub const RESIZE_INIT: i32 = 2;

pub const RTFOUND: i32 = 1;

pub const CLOSERT: i32 = 3;

pub const PREDICT_AGAIN: i32 = 3;

pub const CONV_FAIL: i32 = 4;

pub const TRY_AGAIN: i32 = 5;

pub const FIRST_CALL: i32 = 6;

pub const PREV_CONV_FAIL: i32 = 7;

pub const PREV_ERR_FAIL: i32 = 8;

pub const RHSFUNC_RECVR: i32 = 9;

pub const CONSTR_RECVR: i32 = 10;

pub const ARK_RETRY_STEP: i32 = 11;

pub const ARK_SS: i32 = 0;

pub const ARK_SV: i32 = 1;

pub const ARK_WF: i32 = 2;

pub const H0_ITERS: i32 = 4;

pub const ARK_ACCUMERROR_NONE: i32 = 0;

pub const ARK_ACCUMERROR_MAX: i32 = 1;

pub const ARK_ACCUMERROR_SUM: i32 = 2;

pub const ARK_ACCUMERROR_AVG: i32 = 3;

pub const SUN_ADAPTCONTROLLER_NONE: i32 = 0;

pub const SUN_ADAPTCONTROLLER_H: i32 = 1;

pub const SUN_ADAPTCONTROLLER_MRI_H_TOL: i32 = 2;

pub const SUN_SUCCESS: i32 = 0;

pub const MRISTAGE_FIRST: i32 = -2;

pub const MRISTAGE_STIFF_ACC: i32 = -1;

pub const MRISTAGE_ERK_FAST: i32 = 0;

pub const MRISTAGE_ERK_NOFAST: i32 = 1;

pub const MRISTAGE_DIRK_NOFAST: i32 = 2;

pub const MRISTAGE_DIRK_FAST: i32 = 3;

/// Real words that the step adaptivity record accounts for.
pub const ARK_ADAPT_LRW: i64 = 19;

/// Integer words that the step adaptivity record accounts for.
pub const ARK_ADAPT_LIW: i64 = 8;

/// Lower bound factor of the first step.
#[verifier::allow_in_spec]
pub fn H0_LBFACTOR() -> sunrealtype
    returns
        (sunrealtype { bits: 0x4059_0000_0000_0000 }),
{
    sunrealtype { bits: 0x4059_0000_0000_0000 }
}

/// Upper bound factor of the first step.
#[verifier::allow_in_spec]
pub fn H0_UBFACTOR() -> sunrealtype
    returns
        (sunrealtype { bits: 0x3fb9_9999_9999_999a }),
{
    sunrealtype { bits: 0x3fb9_9999_9999_999a }
}

/// Bias factor of the first step.
#[verifier::allow_in_spec]
pub fn H0_BIAS() -> sunrealtype
    returns
        (sunrealtype { bits: 0x3fe0_0000_0000_0000 }),
{
    sunrealtype { bits: 0x3fe0_0000_0000_0000 }
}

/// Roundoffs that count as no time at all.
#[verifier::allow_in_spec]
pub fn FUZZ_FACTOR() -> sunrealtype
    returns
        (sunrealtype { bits: 0x4059_0000_0000_0000 }),
{
    sunrealtype { bits: 0x4059_0000_0000_0000 }
}

/// Slightly more than one.
#[verifier::allow_in_spec]
pub fn ONEPSM() -> sunrealtype
    returns
        (sunrealtype { bits: 0x3ff0_0001_0c6f_7a0b }),
{
    sunrealtype { bits: 0x3ff0_0001_0c6f_7a0b }
}

/// `0.2`.
#[verifier::allow_in_spec]
pub fn ONE_FIFTH() -> sunrealtype
    returns
        (sunrealtype { bits: 0x3fc9_9999_9999_999a }),
{
    sunrealtype { bits: 0x3fc9_9999_9999_999a }
}

/// `0.75`.
#[verifier::allow_in_spec]
pub fn THREE_QUARTERS() -> sunrealtype
    returns
        (sunrealtype { bits: 0x3fe8_0000_0000_0000 }),
{
    sunrealtype { bits: 0x3fe8_0000_0000_0000 }
}

/// `0.9`.
#[verifier::allow_in_spec]
pub fn NINE_TENTHS() -> sunrealtype
    returns
        (sunrealtype { bits: 0x3fec_cccc_cccc_cccd }),
{
    sunrealtype { bits: 0x3fec_cccc_cccc_cccd }
}

} // verus!
