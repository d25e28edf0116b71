//! `template` presets for image generation. Setting one makes `prompt`
//! optional.
//!
//! [`ASSET_EXTRACTION`] is accepted only by text-to-image and
//! [`ENHANCE_3D`] only by image-to-image; the rest work on both.

use vstd::prelude::*;

verus! {

pub const ASSET_EXTRACTION: &'static str = "asset_extraction";
pub const CHARACTER_COMPLETION: &'static str = "character_completion";
pub const T_POSE: &'static str = "t_pose";
pub const VARIANTS: &'static str = "variants";
pub const FIGURE: &'static str = "figure";
pub const ENHANCE_3D: &'static str = "3d_enhance";

} // verus!
