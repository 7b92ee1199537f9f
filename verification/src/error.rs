//! Error values produced by the provisioning and validation logic.

use vstd::prelude::*;

verus! {

/// A failure of one provisioning, validation or repair operation.
///
/// Carried messages are informational; contracts pin the variant and,
/// where a formula produces it, the payload.
#[derive(Debug)]
pub enum SetupError {
    /// A required file or directory is absent, or a path is malformed.
    PathError(String),
    /// An archive name carries an extension no extraction tool handles.
    UnsupportedFormat(String),
    /// A bounded polling loop exhausted its attempt budget.
    Timeout(String),
    /// A release asset or a file name could not be determined.
    NotFound(String),
    /// An external command exited unsuccessfully.
    CommandFailed(String),
    /// The redistributable runtimes are not recorded as installed.
    RuntimesMissing,
    /// The configuration store holds no descriptor yet.
    NotInitialized,
    /// The configuration store was already seeded once.
    AlreadyInitialized,
}

/// A defect kind that a validation pass can report.
///
/// The set is closed: every variant maps to exactly one repair action.
#[derive(Debug, Clone, Copy, PartialEq, Eq, Structural)]
pub enum ValidationError {
    MissingWinePrefix,
    MissingGameLauncher,
    MissingDXVKSymlinks,
}

} // verus!
