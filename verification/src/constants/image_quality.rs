//! `quality` render tiers for image generation.
//!
//! Only `chat_image_2` and the 2.5 models accept this parameter; any other
//! model rejects the request outright. Omitting it is equivalent to [`LOW`]
//! — note this differs from OpenAI's own `auto` default, which is not
//! supported here.
//!
//! [`XHIGH`] and [`MAX`] are exclusive to the 2.5 models. [`HIGH`] and above
//! cost extra credits and take noticeably longer.

use vstd::prelude::*;

verus! {

pub const LOW: &'static str = "low";
pub const MEDIUM: &'static str = "medium";
pub const HIGH: &'static str = "high";
pub const XHIGH: &'static str = "xhigh";
pub const MAX: &'static str = "max";

} // verus!
