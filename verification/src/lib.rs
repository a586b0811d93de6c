//! Plans the in-place patching of a compressed kernel inside a firmware image.
//!
//! Given the compressed regions found in an image, the library works out, for
//! each of them, the eight shell-level steps that extract, unpack, patch,
//! repack and write back the payload without changing the image's length.

pub mod blueprint;
pub mod guidance;
pub mod notice;
pub mod numeral;
pub mod policy;
pub mod profile;
pub mod scan;
pub mod startup;
pub mod table;
pub mod text;

use vstd::prelude::*;

verus! {

/// The release this library identifies itself as.
pub open spec fn version_text() -> Seq<char> {
    "v1.0.0"@
}

/// Returns the version string of the tool.
pub fn get_version() -> (v: &'static str)
    ensures
        v@ == version_text(),
{
    "v1.0.0"
}

} // verus!
