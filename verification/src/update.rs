use vstd::prelude::*;

verus! {

/// The self-updater may run only in a bundled build that opens the desktop window.
pub fn updater_allowed(bundled: bool, opening_desktop: bool) -> (allowed: bool)
    ensures
        allowed == (bundled && opening_desktop),
{
    bundled && opening_desktop
}

} // verus!
