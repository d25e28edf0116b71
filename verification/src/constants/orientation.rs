//! `orientation` of a generated model relative to the input image. Only
//! effective when texturing is enabled.

use vstd::prelude::*;

verus! {

pub const DEFAULT: &'static str = "default";
pub const ALIGN_IMAGE: &'static str = "align_image";

} // verus!
