//! The platform abstraction. OS-specific crates implement
//! [`PlatformImpl`] with their real hooks; the core itself stays
//! platform-agnostic.

use vstd::prelude::*;

verus! {

/// A platform layer, named so diagnostics can say which one is in use.
pub trait PlatformImpl {
    fn name() -> &'static str;
}

/// The name reported when no platform-specific layer is wired in.
pub fn platform_name() -> (r: &'static str)
    ensures
        r@ == "generic-platform"@,
{
    "generic-platform"
}

} // verus!
