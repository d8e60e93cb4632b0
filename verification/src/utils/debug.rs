//! Constructors for common debug-option bundles.

use vstd::prelude::*;
use crate::types::DebugOptions;

verus! {

/// Debug options with all logging enabled.
pub fn debug_all() -> (r: DebugOptions)
    ensures
        r.enabled,
        r.log_requests,
        r.log_responses,
{
    DebugOptions { enabled: true, log_requests: true, log_responses: true }
}

/// Debug options with only basic logging enabled.
pub fn debug_basic() -> (r: DebugOptions)
    ensures
        r.enabled,
        !r.log_requests,
        !r.log_responses,
{
    DebugOptions { enabled: true, log_requests: false, log_responses: false }
}

} // verus!
