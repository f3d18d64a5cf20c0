//! Configuration fallbacks: the cycle interval and the ideal block step,
//! with their defaults when the environment leaves them unset.

use vstd::prelude::*;

verus! {

/// Minutes the operator sleeps between cycles when unconfigured.
pub const DEFAULT_LOOP_INTERVAL_MINS: u64 = 60;

/// Ideal block step of a header-range proof when unconfigured.
pub const DEFAULT_BLOCK_UPDATE_INTERVAL: u32 = 360;

/// Whether the custodial relay path is enabled; self-signed broadcasting is
/// the default.
pub fn use_kms_relayer(configured: Option<bool>) -> (r: bool)
    ensures
        r == (match configured {
            Some(b) => b,
            None => false,
        }),
{
    match configured {
        Some(b) => b,
        None => false,
    }
}

/// The cycle interval in minutes, from the configured value if any.
pub fn loop_interval_mins(configured: Option<u64>) -> (r: u64)
    ensures
        r == (match configured {
            Some(m) => m,
            None => DEFAULT_LOOP_INTERVAL_MINS,
        }),
{
    match configured {
        Some(m) => m,
        None => DEFAULT_LOOP_INTERVAL_MINS,
    }
}

/// The ideal block step, from the configured value if any.
pub fn block_update_interval(configured: Option<u32>) -> (r: u32)
    ensures
        r == (match configured {
            Some(b) => b,
            None => DEFAULT_BLOCK_UPDATE_INTERVAL,
        }),
{
    match configured {
        Some(b) => b,
        None => DEFAULT_BLOCK_UPDATE_INTERVAL,
    }
}

} // verus!
