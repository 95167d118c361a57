use vstd::prelude::*;

verus! {

/// Every way an operation of the engine can fail.
pub enum AppError {
    /// The per-application configuration file is missing or malformed.
    Config { app: String },
    /// The application's source tree could not be walked.
    Manifest { app: String },
    /// The application has no files to act on.
    EmptyManifest { app: String },
    /// A target path already exists and overwriting was not permitted.
    Collision { path: String },
    /// Copying a manifest file to its target failed.
    Copy { from: String, to: String },
    /// A mutating service-manager command failed.
    ServiceCommand { command: String },
    /// The log-follow facility exited unsuccessfully.
    Logs { app: String },
    /// The process is not running with administrative privilege.
    Privilege,
}

} // verus!
