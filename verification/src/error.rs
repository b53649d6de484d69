//! What the mirror reports when an event cannot be honoured.

use vstd::prelude::*;

verus! {

/// Why an object was not taken into the proxy table.
#[derive(Clone, Copy, Debug, PartialEq, Eq, Structural)]
pub enum MirrorError {
    /// The table already holds a proxy under this id: the broker announced a
    /// live id a second time.
    DuplicateId(u32),
    /// The broker could not bind this id: the object went away between its
    /// announcement and the bind.
    BindFailed(u32),
    /// Another object is tracked already, so this id was not taken in.
    Occupied(u32),
}

} // verus!
