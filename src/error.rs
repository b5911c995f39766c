use vstd::prelude::*;

verus! {

/// Errors that callers of the file system can observe.
#[derive(Clone, Copy, Debug, PartialEq, Eq, Structural)]
pub enum WofsError {
    /// The discard sink is not attached: never opened, or already released.
    SinkUnavailable,
    /// A requested mode cannot be represented by an entry.
    InvalidConfiguration,
}

/// A failure reported by a discard sink. It is never passed on to writers.
#[derive(Clone, Copy, Debug, PartialEq, Eq, Structural)]
pub struct SinkFault;

} // verus!
