//! `geometry_quality` levels for 3D generation. Only effective for model
//! versions >= [`model_version::H3_0`]; do not send it with
//! [`model_version::H2_5`].

use vstd::prelude::*;

verus! {

pub const STANDARD: &'static str = "standard";
pub const DETAILED: &'static str = "detailed";

} // verus!
