//! Update checking.  This library build carries no update backend: no newer
//! version is ever discovered, and applying an update always fails.

use vstd::prelude::*;

verus! {

/// Check whether a newer release is available.  Without an update backend,
/// none ever is.
pub fn check_for_updates() -> (r: Result<Option<String>, String>)
    ensures
        r matches Ok(v) && v is None,
{
    Ok(None)
}

/// Download and apply the latest update.  Without an update backend the
/// attempt always fails, and says why.
pub fn perform_update() -> (r: Result<(), String>)
    ensures
        r matches Err(m) && m@ == "self-update feature is disabled"@,
{
    Err(String::from_str("self-update feature is disabled"))
}

} // verus!
