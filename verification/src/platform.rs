//! The platforms the shell is built for, and the names they go by.

use vstd::prelude::*;

verus! {

/// The operating system the shell was built for.
#[derive(Clone, Copy, Debug, PartialEq, Eq, Structural)]
pub enum TargetOs {
    Android,
    Ios,
    Windows,
    Other,
}

/// The name the mobile shell reports for `os`.
pub open spec fn platform_name(os: TargetOs) -> Seq<char> {
    match os {
        TargetOs::Android => "android"@,
        TargetOs::Ios => "ios"@,
        _ => "mobile"@,
    }
}

/// The runtime mode the backend is started in on `os`.
pub open spec fn runtime_mode_name(os: TargetOs) -> Seq<char> {
    match os {
        TargetOs::Android => "android"@,
        TargetOs::Ios => "ios"@,
        _ => "desktop"@,
    }
}

/// Name of the platform the mobile shell runs on.
pub fn get_platform(os: TargetOs) -> (name: String)
    ensures
        name@ == platform_name(os),
{
    match os {
        TargetOs::Android => "android".to_string(),
        TargetOs::Ios => "ios".to_string(),
        _ => "mobile".to_string(),
    }
}

/// The runtime mode of the backend on `os`. It names the backend's
/// environment and its database file.
pub fn runtime_mode(os: TargetOs) -> (mode: &'static str)
    ensures
        mode@ == runtime_mode_name(os),
{
    match os {
        TargetOs::Android => "android",
        TargetOs::Ios => "ios",
        _ => "desktop",
    }
}

} // verus!
