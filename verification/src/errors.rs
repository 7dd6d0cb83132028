//! The bridge's error kinds.

use vstd::prelude::*;

verus! {

/// Everything that can go wrong in the bridge, by stage.  The vacated
/// terminal is deliberately absent: it is the normal end of a session,
/// not an error.
#[derive(Clone, Copy, PartialEq, Eq, Structural, Debug)]
pub enum BridgeError {
    /// PTY creation or descriptor-flag configuration failed with this
    /// OS error number; fatal at startup.
    Allocation(i32),
    /// Subprocess creation failed with this OS error number; fatal.
    Spawn(i32),
    /// The child could not start a new session or acquire the slave as
    /// its controlling terminal; fatal to the child's startup.
    SessionControl(i32),
    /// A master read or write failed, with this OS error number, for a
    /// reason other than the vacated terminal; fatal to the activity
    /// that met it.
    Transport(i32),
    /// The operator input stream ended; fatal to the foreground loop.
    InputClosed,
}

} // verus!
