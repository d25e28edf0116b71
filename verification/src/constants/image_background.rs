//! `background` handling modes, supported only by the 2.5 models. Other
//! models ignore the field rather than rejecting the request.
//! [`TRANSPARENT`] requires [`image_format::PNG`].

use vstd::prelude::*;

verus! {

pub const AUTO: &'static str = "auto";
pub const OPAQUE: &'static str = "opaque";
pub const TRANSPARENT: &'static str = "transparent";

} // verus!
