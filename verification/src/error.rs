//! Error taxonomy of the lifecycle operations.
//!
//! `Cancelled` is deliberately not here: a cancelled download is a distinct
//! terminal outcome (see `download::DownloadOutcome`), not a failure.

use vstd::prelude::*;

verus! {

/// A failure of a download transfer, as reported by the process that
/// performed the transfer.
#[derive(Clone, Copy, Debug, PartialEq, Eq, Structural)]
pub enum DownloadFailure {
    /// The remote source could not be read to the end.
    Network,
    /// The staging file could not be written (disk full, permission).
    Io,
    /// The source declared an expected digest and the received bytes do
    /// not match it.
    ChecksumMismatch,
}

/// Everything a lifecycle operation can refuse or report.
#[derive(Clone, Copy, Debug, PartialEq, Eq, Structural)]
pub enum Error {
    /// A download is already in progress; a second one is never started.
    AlreadyInProgress,
    /// The server is active, so a download must not start.
    ServerActive,
    /// The server is already starting, running, or still stopping.
    AlreadyRunning,
    /// No complete artifact is present at the active model path.
    NotDownloaded,
    /// A download transfer failed over the network.
    NetworkError,
    /// A download transfer failed against the disk.
    IoError,
    /// The downloaded bytes do not match the declared digest.
    ChecksumMismatch,
    /// No local endpoint could be acquired for the server.
    BindError,
    /// The server process could not be launched.
    SpawnError,
    /// The launched server never reported readiness within the bounded
    /// startup window.
    StartupTimeout,
}

impl Error {
    /// The corresponding surface error of a download failure.
    pub open spec fn from_failure_spec(f: DownloadFailure) -> Error {
        match f {
            DownloadFailure::Network => Error::NetworkError,
            DownloadFailure::Io => Error::IoError,
            DownloadFailure::ChecksumMismatch => Error::ChecksumMismatch,
        }
    }

    /// Surfaces a download failure as an [`Error`].
    pub fn from_failure(f: DownloadFailure) -> (e: Error)
        ensures
            e == Error::from_failure_spec(f),
    {
        match f {
            DownloadFailure::Network => Error::NetworkError,
            DownloadFailure::Io => Error::IoError,
            DownloadFailure::ChecksumMismatch => Error::ChecksumMismatch,
        }
    }

    /// A short description, for callers that render errors as text.
    pub fn message(&self) -> String {
        match self {
            Error::AlreadyInProgress => "a model download is already in progress".to_owned(),
            Error::ServerActive => "the server is active; stop it before downloading".to_owned(),
            Error::AlreadyRunning => "the server is already starting or running".to_owned(),
            Error::NotDownloaded => "no model artifact is downloaded at the active path".to_owned(),
            Error::NetworkError => "the download failed while reading the remote source".to_owned(),
            Error::IoError => "the download failed while writing to disk".to_owned(),
            Error::ChecksumMismatch => "the downloaded bytes do not match the declared digest".to_owned(),
            Error::BindError => "no local endpoint could be acquired".to_owned(),
            Error::SpawnError => "the server process could not be launched".to_owned(),
            Error::StartupTimeout => "the server did not become ready in time".to_owned(),
        }
    }
}

} // verus!
