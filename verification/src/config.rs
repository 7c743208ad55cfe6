//! Build-time configuration values: the program's version string.

use vstd::prelude::*;

verus! {

/// The configured build version, as a sequence of characters.
pub open spec fn spec_version() -> Seq<char> {
    "0.1.0"@
}

/// The version string shown in the about dialog.
pub fn version() -> (r: &'static str)
    ensures
        r@ == spec_version(),
{
    "0.1.0"
}

} // verus!
