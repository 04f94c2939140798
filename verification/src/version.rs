//! The version functions `jiff_version` and `jiff_debug`.

use vstd::prelude::*;

use crate::text::{concat, concat3};

verus! {

/// The SQL function `jiff_version`: `v` and the package version.
pub fn jiff_version(package_version: &str) -> (r: String)
    ensures
        r@ == "v"@ + package_version@,
{
    concat("v", package_version)
}

/// The SQL function `jiff_debug`: the package version and the source
/// revision it was built from, one per line.
pub fn jiff_debug(package_version: &str, source: &str) -> (r: String)
    ensures
        r@ == "Version: v"@ + package_version@ + "\nSource: "@ + source@ + "\n"@,
{
    let head = concat3("Version: v", package_version, "\nSource: ");
    concat3(head.as_str(), source, "\n")
}

} // verus!
