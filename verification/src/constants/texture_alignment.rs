//! `texture_alignment` priority for image- and multiview-based generation.

use vstd::prelude::*;

verus! {

pub const ORIGINAL_IMAGE: &'static str = "original_image";
pub const GEOMETRY: &'static str = "geometry";

} // verus!
