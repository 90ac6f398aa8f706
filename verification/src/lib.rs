//! Verified core of a desktop vehicle-counting tool.
//!
//! The library stages input images into a working directory under
//! deterministic names, provisions a bundled classifier asset, dispatches a
//! counting strategy through an embedded scripting runtime, decodes the
//! `(count, path)` result the capability hands back, and encodes the produced
//! output image for the presentation layer.

use vstd::prelude::*;

pub mod asset;
pub mod bridge;
pub mod dispatch;
pub mod error;
pub mod icons;
pub mod marshal;
pub mod paths;
pub mod pipeline;
pub mod stage;

verus! {

/// The sentinel string the vision capability returns in place of an output
/// path when it ran but could not save its result.
pub open spec fn is_sentinel(s: Seq<char>) -> bool {
    s == "ERROR"@
}

/// True exactly when the capability's output path signals failure.
pub fn output_is_sentinel(path: &String) -> (r: bool)
    ensures
        r == is_sentinel(path@),
{
    let sentinel: String = String::from_str("ERROR");
    *path == sentinel
}

} // verus!
