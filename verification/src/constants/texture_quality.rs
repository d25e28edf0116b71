//! `texture_quality` levels for 3D generation.

use vstd::prelude::*;

verus! {

pub const STANDARD: &'static str = "standard";
pub const DETAILED: &'static str = "detailed";
pub const EXTREME: &'static str = "extreme";

} // verus!
