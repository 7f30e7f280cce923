//! The error taxonomy of the supervisor. Every failure is terminal for the
//! invocation that raised it; nothing is retried.

use vstd::prelude::*;

verus! {

/// One error kind per failure class of the lifecycle operations.
#[derive(Debug, Clone, PartialEq, Eq)]
pub enum SvcError {
    /// The caller does not hold the required privilege.
    Permission,
    /// A state guard refused the operation (start while already running).
    Conflict,
    /// The persisted configuration is malformed.
    Config,
    /// A file could not be read or written; names the offending path.
    Io { path: String },
    /// A kernel-facing operation (rules, tuning, signal) failed.
    Os,
}

} // verus!
