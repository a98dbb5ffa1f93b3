//! Failure values surfaced by the three components. None is retried
//! internally: a provider-start failure is fatal for the whole bootstrap
//! layer, the other two are handed to the caller to decide.

use vstd::prelude::*;

verus! {

/// The provider start sequence reported a non-success status. Fatal: no
/// socket or completion-port operation is valid afterwards.
#[derive(Clone, Copy, Debug, PartialEq, Eq, Structural)]
pub struct ProviderStartFailure {
    /// The status the start sequence returned; never zero.
    pub status: i32,
}

/// The operating system refused to create a socket and answered with the
/// invalid-socket sentinel.
#[derive(Clone, Copy, Debug, PartialEq, Eq, Structural)]
pub struct SocketCreationFailure {
    /// The error code reported alongside the sentinel.
    pub code: i32,
}

/// A completion-port call failed, or was refused before being issued.
#[derive(Clone, Copy, Debug, PartialEq, Eq, Structural)]
pub enum CompletionPortFailure {
    /// The gateway already holds an association for this handle. A
    /// completion key is immutable for the handle's lifetime, so the call
    /// is refused instead of being attempted.
    AlreadyAssociated {
        /// The handle whose association was attempted again.
        handle: usize,
        /// The completion key recorded when the handle was first associated.
        existing_key: usize,
    },
    /// The operating system answered the completion-port call with the null
    /// handle.
    Os {
        /// The error code reported alongside the null reply.
        code: i32,
    },
}

} // verus!
