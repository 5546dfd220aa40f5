//! The detector of every target that has no detector of its own.

use vstd::prelude::*;

verus! {

/// No bit is forced to dynamic detection where nothing is detected.
pub const FORCE_DYNAMIC_DETECTION: u32 = 0;

/// Detects nothing: such a target has what its static mask says, and no
/// more.
pub fn detect_features() -> (features: u32)
    ensures
        features == 0,
{
    0
}

} // verus!
