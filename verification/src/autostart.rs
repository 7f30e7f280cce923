//! The autostart flag: a zero-byte sentinel file whose mere existence
//! means "enabled". Boot-time tooling consults it; it has no relation to
//! whether the service is currently running.
//!
//! The I/O layer realizes the model: it reads presence from the
//! filesystem, and creates or removes the sentinel to match a new value.

use vstd::prelude::*;

verus! {

/// The state of the autostart sentinel.
pub struct AutostartFlag {
    pub present: bool,
}

/// Whether autostart is enabled: exactly the sentinel's presence.
pub fn get_autostart(flag: &AutostartFlag) -> (r: bool)
    ensures
        r == flag.present,
{
    flag.present
}

/// Enables or disables autostart: afterwards the sentinel is present
/// exactly when `enabled` asks for it, whatever it was before.
pub fn set_autostart(flag: &mut AutostartFlag, enabled: bool)
    ensures
        final(flag).present == enabled,
{
    flag.present = enabled;
}

} // verus!
