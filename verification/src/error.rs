//! Failures reported by the operating system.

use vstd::prelude::*;

verus! {

/// The operating-system entry point that reported a failure.
#[derive(Clone, Copy, Debug, PartialEq, Eq, Structural)]
pub enum Operation {
    /// Registering a server procedure as a door.
    Create,
    /// Invoking a door.
    Call,
    /// Creating the file that a door is attached to.
    Open,
    /// Attaching a door to its file.
    Attach,
}

/// A failed operation and the error number that the operating system gave for it.
#[derive(Clone, Copy, Debug, PartialEq, Eq, Structural)]
pub struct DoorError {
    pub op: Operation,
    pub errno: i32,
}

} // verus!
