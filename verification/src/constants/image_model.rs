//! `model` values accepted by `POST /v3/generation/text-to-image` and
//! `POST /v3/generation/image-to-image`.
//!
//! `chat_image_1` and `chat_image_1.5` are omitted deliberately — they
//! retire on 2026-10-23 and 2026-12-01 respectively. Pass them as a raw
//! string during migration if you still need them.

use vstd::prelude::*;

verus! {

pub const SEEDREAM_V5: &'static str = "seedream_v5";
pub const BANANA: &'static str = "banana";
pub const BANANA_PRO: &'static str = "banana_pro";
pub const BANANA2: &'static str = "banana2";
pub const CHAT_IMAGE_2: &'static str = "chat_image_2";
pub const CHAT_IMAGE_2_5_FLARE: &'static str = "chat_image_2.5_flare";
pub const CHAT_IMAGE_2_5_SUNBURST: &'static str = "chat_image_2.5_sunburst";

} // verus!
