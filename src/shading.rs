//! The bound on recursive colour evaluation.

use vstd::prelude::*;

verus! {

/// Recursion depth at which colour evaluation stops and yields black.
pub const MAX_RECURSION_DEPTH: i32 = 10;

/// Whether a ray cast at recursion `depth` is still traced; from
/// `MAX_RECURSION_DEPTH` on, its contribution is black.
pub fn within_depth(depth: i32) -> (r: bool)
    ensures
        r == (depth < MAX_RECURSION_DEPTH),
{
    depth < MAX_RECURSION_DEPTH
}

} // verus!
