//! The four canonical camera angles used by the multiview endpoints.

use vstd::prelude::*;

verus! {

pub const FRONT: &'static str = "front";
pub const LEFT: &'static str = "left";
pub const BACK: &'static str = "back";
pub const RIGHT: &'static str = "right";

} // verus!
