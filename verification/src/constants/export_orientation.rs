//! `export_orientation` (forward axis) of a generated model.
//!
//! It applies to that generation only. If the model will be fed into
//! post-processing (texture, rig, retarget, convert), leave this unset and
//! reorient in the last step via `convert_model` instead — a wrongly
//! oriented post-processing result still reports success rather than
//! raising an error.

use vstd::prelude::*;

verus! {

pub const PLUS_X: &'static str = "+x";
pub const MINUS_X: &'static str = "-x";
pub const PLUS_Y: &'static str = "+y";
pub const MINUS_Y: &'static str = "-y";

} // verus!
