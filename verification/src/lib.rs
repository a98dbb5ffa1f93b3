//! Bootstrap layer for completion-port-based asynchronous socket I/O.
//!
//! Three concerns live here: exactly-once initialization of the process-wide
//! socket provider (`provider`), construction of socket handles flagged for
//! overlapped (asynchronous) operation (`socket`), and creation of completion
//! ports plus association of handles with them (`port`). The operating-system
//! calls themselves are issued by the hosting application; this crate holds
//! the decision logic: which call to make, with which arguments, and what
//! each reply means.

pub mod consts;
pub mod errors;
pub mod port;
pub mod provider;
pub mod socket;
