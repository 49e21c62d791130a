//! The download slot and the decisions around a finished transfer.
//!
//! A transfer writes to a private staged path and is published under its
//! destination only by the commit in `manager::State::finish_download`.
//! The slot holds the one job that may be in flight; the surrounding
//! process reports how the transfer ended, and the digest comparison that
//! decides between completion and `ChecksumMismatch` is made here.

use vstd::prelude::*;

use crate::error::DownloadFailure;

verus! {

/// The one transfer that may be in flight: the task identifier under
/// which the surrounding process holds the cancellable task, the staged
/// path being written, and the destination the artifact will be
/// published under.
pub struct DownloadJob {
    pub task: u64,
    pub temp_path: String,
    pub dest_path: String,
}

/// The download slot.
pub enum DownloadState {
    /// No transfer was requested, or the last one was cancelled.
    Idle,
    /// A transfer is in flight.
    InProgress(DownloadJob),
    /// The last transfer was published under its destination.
    Completed,
    /// The last transfer failed; nothing was published.
    Failed(DownloadFailure),
}

/// How a transfer ended. A cancellation is a terminal outcome of its
/// own, not a failure.
#[derive(Clone, Copy, Debug, PartialEq, Eq, Structural)]
pub enum DownloadOutcome {
    /// All bytes arrived and any declared digest matched.
    Completed,
    /// The transfer was cancelled cooperatively.
    Cancelled,
    /// The transfer failed; the staged file is discarded.
    Failed(DownloadFailure),
}

/// Whether the received bytes match the digest the source declared, if
/// it declared one.
pub open spec fn digest_matches(expected: Option<Seq<u8>>, actual: Seq<u8>) -> bool {
    match expected {
        Option::None => true,
        Option::Some(d) => d == actual,
    }
}

/// Compares two digests byte for byte.
fn bytes_eq(a: &Vec<u8>, b: &Vec<u8>) -> (r: bool)
    ensures
        r == (a@ == b@),
{
    if a.len() != b.len() {
        proof {
            assert(a@ != b@);
        }
        return false;
    }
    let n = a.len();
    let mut k: usize = 0;
    while k < n
        invariant
            n == a@.len() == b@.len(),
            k <= n,
            forall|i: int| 0 <= i < k ==> a@[i] == b@[i],
        decreases n - k,
    {
        if a[k] != b[k] {
            proof {
                assert(a@ != b@);
            }
            return false;
        }
        k = k + 1;
    }
    proof {
        assert(a@ =~= b@);
    }
    true
}

/// Decides how a fully received transfer ends: complete when the bytes
/// match the digest the source declared (or it declared none), a
/// checksum failure otherwise.
pub fn outcome_of_received(expected: &Option<Vec<u8>>, actual: &Vec<u8>) -> (o: DownloadOutcome)
    ensures
        digest_matches(view_digest(*expected), actual@) ==> o is Completed,
        !digest_matches(view_digest(*expected), actual@) ==> o == DownloadOutcome::Failed(
            DownloadFailure::ChecksumMismatch,
        ),
{
    match expected {
        Option::None => DownloadOutcome::Completed,
        Option::Some(d) => {
            if bytes_eq(d, actual) {
                DownloadOutcome::Completed
            } else {
                DownloadOutcome::Failed(DownloadFailure::ChecksumMismatch)
            }
        },
    }
}

/// The declared digest as a sequence of bytes, if one was declared.
pub open spec fn view_digest(d: Option<Vec<u8>>) -> Option<Seq<u8>> {
    match d {
        Option::None => Option::None,
        Option::Some(v) => Option::Some(v@),
    }
}

} // verus!
