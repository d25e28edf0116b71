//! `model` values accepted by the 3D generation endpoints.
//! These are intentionally plain strings (not a closed enum) since Tripo3D
//! regularly ships new model versions.

use vstd::prelude::*;

verus! {

pub const H3_1: &'static str = "v3.1-20260211";
pub const H3_0: &'static str = "v3.0-20250812";
pub const H2_5: &'static str = "v2.5-20250123";
pub const P1: &'static str = "P1-20260311";
/// Next-generation P series. The only model that accepts `quad`, and
/// unlike P1 it supports face limits up to 50,000 triangles (25,000
/// with `quad`). Preview.
pub const P2: &'static str = "P2-20260801";

} // verus!
