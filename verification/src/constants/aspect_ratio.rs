//! `aspect_ratio` of a generated image. Only the banana models accept it;
//! seedream and chat_image size their output via `size` instead.
//!
//! The 1:8, 1:4, 4:1 and 8:1 ratios are exclusive to `banana2`.

use vstd::prelude::*;

verus! {

pub const R1X1: &'static str = "1:1";
pub const R2X3: &'static str = "2:3";
pub const R3X2: &'static str = "3:2";
pub const R3X4: &'static str = "3:4";
pub const R4X3: &'static str = "4:3";
pub const R4X5: &'static str = "4:5";
pub const R5X4: &'static str = "5:4";
pub const R9X16: &'static str = "9:16";
pub const R16X9: &'static str = "16:9";
pub const R21X9: &'static str = "21:9";
pub const R1X8: &'static str = "1:8";
pub const R1X4: &'static str = "1:4";
pub const R4X1: &'static str = "4:1";
pub const R8X1: &'static str = "8:1";

} // verus!
