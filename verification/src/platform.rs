//! The platform families whose native socket interfaces the crate knows.

use vstd::prelude::*;

verus! {

/// A family of operating systems that share one table of native socket
/// constants.
#[derive(Copy, Clone, Debug, PartialEq, Eq, Structural)]
pub enum Platform {
    /// Unix-like systems, with the constants of the BSD socket headers as
    /// Linux defines them.
    Unix,
    /// Windows, with the constants of WinSock.
    Windows,
}

impl Platform {
    /// Whether the socket subsystem of the platform has to be started, once
    /// per process, before any other native socket call is made.
    pub open spec fn needs_startup(self) -> bool {
        self == Platform::Windows
    }

    /// Tells whether the caller has to start the socket subsystem before the
    /// first native call.
    pub fn requires_startup(self) -> (needed: bool)
        ensures
            needed == self.needs_startup(),
    {
        match self {
            Platform::Unix => false,
            Platform::Windows => true,
        }
    }
}

} // verus!
