//! Request/response commands surfaced to the hosted web application.
//!
//! Each command answers synchronously with a success value or a string
//! error. The ones here are decided entirely in-process; commands that
//! need the OS (notifications, the updater, the live window) are wired
//! up by the shell around this crate's other modules.

use vstd::prelude::*;
use vstd::string::StringExecFns;

verus! {

/// Record a badge-count request. The platform hook is a placeholder,
/// so every count is accepted.
pub fn set_badge_count(count: i32) -> (r: Result<(), String>)
    ensures
        r is Ok,
{
    let _ = count;
    Ok(())
}

/// The OS theme reported to the hosted application: it follows the
/// system, so the answer is always `system`.
pub fn get_os_theme() -> (r: Result<String, String>)
    ensures
        r matches Ok(t) && t@ == "system"@,
{
    Ok(String::from_str("system"))
}

/// Whether the shell considers itself online. Connectivity probing is
/// left to the hosted application, so the shell always answers `true`.
pub fn is_online() -> (r: Result<bool, String>)
    ensures
        r == Ok::<bool, String>(true),
{
    Ok(true)
}

} // verus!
