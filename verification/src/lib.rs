//! A collaborative document handle with a staged export protocol.
//!
//! A caller creates a document handle, mutates its text, applies binary
//! update deltas produced by other replicas, and extracts serialized state
//! in two phases: an operation first computes a result, stages it inside
//! the handle and reports its byte length, and the caller then copies the
//! staged bytes out into a buffer of its own, which clears the slot.
//! The CRDT merge machinery itself is delegated to the `yrs` crate and is
//! out of scope here; this crate verifies the handle lifecycle, the staged
//! buffer protocol, and the mutation and query entry points around it.

use vstd::prelude::*;

pub mod model;
pub mod handle;
pub mod table;
pub mod laws;

verus! {

/// Every way an entry point can fail. All conditions are local and
/// recoverable; no operation aborts the process.
#[derive(Clone, Copy, Debug, PartialEq, Eq, Structural)]
pub enum Error {
    /// The handle identifier was never issued, or was already destroyed.
    InvalidHandle,
    /// The update bytes were rejected by the CRDT library: they do not
    /// decode as an update, or they fail to merge.
    MalformedUpdate,
    /// An insertion offset that addresses no character position of the
    /// text: beyond the end, splitting a multi-byte character, or into a
    /// root container that a foreign update filled with content other
    /// than plain text.
    IndexOutOfBounds,
    /// The caller's buffer is shorter than the length reported when the
    /// pending result was staged.
    BufferTooSmall,
    /// A read-out was attempted while nothing was staged.
    NoPendingResult,
}

} // verus!
