//! The error taxonomy of the engine.  Path-resolution and planning errors
//! point at a configuration or invariant violation; the I/O-shaped variants
//! are filled in by the binary around the library when a backend call fails.

use vstd::prelude::*;

verus! {

#[derive(Debug)]
pub enum SyncError {
    /// Establishing a server's session exceeded the connection timeout.
    ConnectTimeout { user: String, host: String },
    /// A remote command exited with a non-zero status.
    RemoteCommandFailed { command: String, stdout: String, stderr: String },
    /// A local file that should exist was not found.
    NotFound { path: String },
    /// Any other local filesystem failure, with the attempted path.
    IoError { path: String },
    /// A discovered path could not be expressed relative to its target root.
    InvalidPath { path: String },
    /// A server identity was used without an established session.
    SessionNotFound { server: String },
    /// The configured maximum file size could not be read as a size.
    InvalidSize { raw: String },
    /// A shared target could not be confirmed to exist on one of the servers,
    /// so its fleet-wide distribution was aborted.
    SharedTargetMissing { server: String, target_path: String },
}

} // verus!
