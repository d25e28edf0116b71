//! `output_format` of a generated image.

use vstd::prelude::*;

verus! {

pub const PNG: &'static str = "png";
pub const JPEG: &'static str = "jpeg";

} // verus!
