//! The kernel core: lifecycle registry, scheduler and message bus.

use vstd::prelude::*;

pub mod id;
pub mod ipc;
pub mod memory;
pub mod process;
pub mod registry;
pub mod scheduler;
pub mod thread;

verus! {

/// Failure signals shared by every kernel operation.
#[derive(Debug, PartialEq, Eq)]
pub enum KernelError {
    /// The process, thread or message asked for is not there.
    NotFound,
    Permissions,
    MemoryNotAvailable,
    IPCError(String),
    FeatureNotImplemented,
    /// An internal invariant was found broken, such as an identifier handed
    /// out twice.
    Other(String),
    /// Kept for identifier collisions; no operation returns it yet.
    AlreadyExists,
    /// Kept for state errors; no operation returns it yet.
    InvalidState(String),
}

pub type KernelResult<T> = Result<T, KernelError>;

/// `error` is the catch-all error `Other` carrying exactly `text`.
pub open spec fn is_internal_error(error: KernelError, text: Seq<char>) -> bool {
    error matches KernelError::Other(message) && message@ == text
}

} // verus!
