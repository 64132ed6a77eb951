//! Error kinds raised by the client.

use vstd::prelude::*;

verus! {

/// What can go wrong before or during a command.
///
/// `ComponentUnavailable` and `InvalidInput` are raised locally, before the
/// transport is ever touched; `Transport` carries the operating system's
/// error number from a rejected transport call, unchanged.
#[derive(Clone, Copy, Debug, PartialEq, Eq, Structural)]
pub enum HymoError {
    /// No capability handle to the kernel component could be resolved.
    ComponentUnavailable,
    /// A string argument holds an embedded null byte.
    InvalidInput,
    /// The transport call returned a negative status; the field is the
    /// operating system's error number.
    Transport(i32),
}

impl HymoError {
    /// A short description of the error.
    pub fn message(&self) -> (m: &'static str)
        ensures
            self is ComponentUnavailable ==> m@ == "component not available"@,
            self is InvalidInput ==> m@ == "string contains an embedded null byte"@,
            self is Transport ==> m@ == "transport call failed"@,
    {
        match self {
            HymoError::ComponentUnavailable => "component not available",
            HymoError::InvalidInput => "string contains an embedded null byte",
            HymoError::Transport(_) => "transport call failed",
        }
    }
}

} // verus!
