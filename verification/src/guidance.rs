//! The one step of a plan that no tool can carry out: where to look for the
//! integrity checks that have to be patched out by hand.

use vstd::prelude::*;

verus! {

/// The text of the patching step. It is the same for every image.
pub open spec fn patching_commands() -> Seq<char> {
    "# ----------------- Patch out integrity checks ----------------- #\n\u{2514}\u{2500}\u{2500} Tip 1: Look for memcmp() calls in proximity of machine_halt(),\nkernel_restart() etc.\n\u{2514}\u{2500}\u{2500} Tip 2: Look for integrity related strings and patch these\nfunctions. Eg. \"firmware integrity\""@
}

/// Returns the text of the patching step.
pub fn patching() -> (text: &'static str)
    ensures
        text@ == patching_commands(),
{
    "# ----------------- Patch out integrity checks ----------------- #\n\u{2514}\u{2500}\u{2500} Tip 1: Look for memcmp() calls in proximity of machine_halt(),\nkernel_restart() etc.\n\u{2514}\u{2500}\u{2500} Tip 2: Look for integrity related strings and patch these\nfunctions. Eg. \"firmware integrity\""
}

} // verus!
