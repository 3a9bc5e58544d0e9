use vstd::prelude::*;

verus! {

/// The typed failures of the store core.
#[derive(Clone, Copy, Debug, PartialEq, Eq, Structural)]
pub enum StoreError {
    /// The pool could not be built from its settings.
    ConfigurationError,
    /// No connection became free within the wait bound.
    PoolExhausted,
    /// The pool was torn down while a lease was pending.
    PoolClosed,
    /// The insert did not commit.
    WriteError,
    /// The insert committed but the row could not be read back as written.
    ReadBackError,
}

} // verus!
