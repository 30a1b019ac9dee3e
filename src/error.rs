use vstd::prelude::*;

verus! {

/// The ways an operation on the scope stack or the session can fail.
#[derive(Clone, Copy, Debug, PartialEq, Eq, Structural)]
pub enum UiError {
    /// A run was started while another one is active.
    AlreadyRunning,
    /// A drawing call was made outside an active frame, or from a thread
    /// that does not own the run.
    NoActiveFrame,
    /// The stack was asked for its top while empty.
    NoActiveScope,
    /// A token names a scope that has already been closed.
    DanglingHandle,
    /// The stack was popped while empty.
    StackUnderflow,
    /// Pushes and pops did not nest as they must.
    StackConsistency,
}

/// How a scope call ended, when it ended without a usage error.
#[derive(Clone, Copy, Debug, PartialEq, Eq, Structural)]
pub enum ScopeOutcome {
    /// The region was opened and the body returned normally.
    Completed,
    /// The region was opened and the body reported an error, which was
    /// caught at the scope boundary.
    BodyFailed,
    /// The toolkit did not open the region (a collapsed section), so the
    /// body was not run.
    RegionUnavailable,
}

} // verus!
