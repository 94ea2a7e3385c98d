//! What the agent can do on each operating system.

use vstd::prelude::*;

verus! {

/// The operating systems the agent tells apart.
#[derive(Debug, Clone, Copy, PartialEq, Eq)]
pub enum Platform {
    Macos,
    Windows,
    Other,
}

impl Platform {
    /// Screen capture can work: everywhere but on macOS, where the agent is a
    /// root daemon without the per-user Screen Recording permission.
    pub open spec fn streams_screen(self) -> bool {
        !(self is Macos)
    }

    /// Location can be read: on Windows only. Core Location authorization cannot
    /// be granted to a root daemon on macOS.
    pub open spec fn reads_location(self) -> bool {
        self is Windows
    }

    /// Whether screen streaming can work on this platform.
    pub fn screen_stream_supported(self) -> (supported: bool)
        ensures
            supported == self.streams_screen(),
    {
        !matches!(self, Platform::Macos)
    }

    /// Whether GPS collection can work on this platform.
    pub fn gps_supported(self) -> (supported: bool)
        ensures
            supported == self.reads_location(),
    {
        matches!(self, Platform::Windows)
    }

    /// Why a request for the screen cannot be honoured, for the log.
    pub fn screen_stream_unavailable_reason(self) -> (reason: &'static str)
        ensures
            reason@ == if self is Macos {
                "Screen Recording is a per-user permission and cannot be granted to a root LaunchDaemon"@
            } else {
                "screen streaming is unavailable in this build"@
            },
    {
        match self {
            Platform::Macos => {
                "Screen Recording is a per-user permission and cannot be granted to a root LaunchDaemon"
            },
            _ => "screen streaming is unavailable in this build",
        }
    }

    /// Why a request for the location cannot be honoured, for the log.
    pub fn gps_unavailable_reason(self) -> (reason: &'static str)
        ensures
            reason@ == if self is Macos {
                "Core Location authorization is a per-user permission and cannot be granted to a root LaunchDaemon"@
            } else {
                "location collection is unavailable in this build"@
            },
    {
        match self {
            Platform::Macos => {
                "Core Location authorization is a per-user permission and cannot be granted to a root LaunchDaemon"
            },
            _ => "location collection is unavailable in this build",
        }
    }
}

/// A root daemon on macOS can read neither the screen nor the location; only Windows gives
/// the location, and every other platform the screen.
pub proof fn platforms_differ_in_what_they_give(platform: Platform)
    ensures
        platform is Macos ==> !platform.streams_screen() && !platform.reads_location(),
        platform is Windows ==> platform.streams_screen() && platform.reads_location(),
        platform is Other ==> platform.streams_screen() && !platform.reads_location(),
{
}

} // verus!
