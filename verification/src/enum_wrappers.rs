//! Enums that replace the vendor's integer constants, with total
//! translations in both directions, and the two boolean translations.
//!
//! The native library represents booleans in two ways: as a two-valued
//! enable-state enum in some calls, and as a bare integer in others.  The
//! enable-state translation is strict (zero and one only, anything else is
//! an [`UnexpectedVariant`](crate::error::NvmlError::UnexpectedVariant)
//! error); the bare-integer translation is permissive (any non-zero value is
//! true), matching observed vendor behaviour.

use vstd::prelude::*;

use crate::error::NvmlError;

pub mod device;
pub mod nv_link;

verus! {

/// Translates the vendor's two-valued enable state into a boolean: zero is
/// false, one is true, and any other value is an error carrying the raw
/// value.
pub fn bool_from_state(state: u32) -> (r: Result<bool, NvmlError>)
    ensures
        r == if state == 0 {
            Ok::<bool, NvmlError>(false)
        } else if state == 1 {
            Ok::<bool, NvmlError>(true)
        } else {
            Err::<bool, NvmlError>(NvmlError::UnexpectedVariant(state))
        },
{
    match state {
        0 => Ok(false),
        1 => Ok(true),
        other => Err(NvmlError::UnexpectedVariant(other)),
    }
}

/// Translates a boolean into the vendor's enable state: false is zero, true
/// is one.
pub fn state_from_bool(enabled: bool) -> (r: u32)
    ensures
        r == if enabled {
            1u32
        } else {
            0u32
        },
{
    if enabled {
        1
    } else {
        0
    }
}

/// Translates a bare integer used as a boolean: zero is false and every
/// non-zero value is true, as the vendor behaves in practice.
pub fn bool_from_uint(value: u32) -> (r: bool)
    ensures
        r == (value != 0),
{
    value != 0
}

} // verus!
