//! The platform the runner is built for.
use vstd::prelude::*;

verus! {

/// A family of operating systems.
#[derive(Debug, Clone, Copy, PartialEq, Eq, Structural)]
pub enum Platform {
    Unix,
    Windows,
    Other,
}

/// The platform's name for logging and debugging.
pub fn platform_name(platform: Platform) -> (r: &'static str)
    ensures
        platform == Platform::Unix ==> r@ == "Unix"@,
        platform == Platform::Windows ==> r@ == "Windows"@,
        platform == Platform::Other ==> r@ == "Unknown"@,
{
    match platform {
        Platform::Unix => "Unix",
        Platform::Windows => "Windows",
        Platform::Other => "Unknown",
    }
}

/// Whether the platform has process groups that can be signalled as a whole.
pub fn has_process_groups(platform: Platform) -> (r: bool)
    ensures
        r == (platform == Platform::Unix),
{
    match platform {
        Platform::Unix => true,
        _ => false,
    }
}

} // verus!
