use vstd::prelude::*;

verus! {

/// Every way an export or an import can end without success.
#[derive(Debug, Clone)]
pub enum QSyncError {
    /// The working directory is not inside a git repository.
    NotInGitRepo,
    /// The incoming directory holds no bundle file.
    NoBundlesFound { path: String },
    /// git refused the bundle when asked to verify it.
    BundleVerificationFailed,
    /// A git command (or the transfer utility) exited with failure.
    GitCommandFailed { message: String },
    /// A required configuration key is not set.
    ConfigMissing { key: String },
    /// No branch could be determined where one was needed.
    BranchResolutionFailed { reason: String },
    /// Reading or writing a file failed.
    Io { message: String },
    /// The user chose to stop.
    Cancelled,
}

} // verus!
