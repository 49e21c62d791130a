//! Progress reporting and the digest decision of a finished transfer.

use local_llm::download::{outcome_of_received, DownloadOutcome};
use local_llm::error::DownloadFailure;
use local_llm::progress::{percent, ProgressTracker};

#[test]
fn percent_exact_values() {
    assert_eq!(percent(0, 5), 0);
    assert_eq!(percent(1, 3), 33);
    assert_eq!(percent(50, 200), 25);
    assert_eq!(percent(199, 200), 99);
    assert_eq!(percent(3, 3), 100);
    assert_eq!(percent(u64::MAX, u64::MAX), 100);
    assert_eq!(percent(u64::MAX / 2, u64::MAX), 49);
}

#[test]
fn tracker_emits_strictly_increasing_percentages() {
    let mut t = ProgressTracker::new();
    assert_eq!(t.current(), 0);
    assert!(!t.channel_closed());
    assert_eq!(t.update(10, 100), Some(10));
    assert_eq!(t.update(10, 100), None);
    assert_eq!(t.update(11, 100), Some(11));
    assert_eq!(t.update(11, 1000), None);
    assert_eq!(t.update(90, 100), Some(90));
    assert_eq!(t.current(), 90);
    assert_eq!(t.finish_success(), Some(100));
    assert!(t.channel_closed());
    assert_eq!(t.current(), 100);
}

#[test]
fn tracker_closes_without_completion_event_on_abort() {
    let mut t = ProgressTracker::new();
    assert_eq!(t.update(40, 100), Some(40));
    t.abort();
    assert!(t.channel_closed());
    assert_eq!(t.current(), 40);
}

#[test]
fn tracker_skips_final_event_when_hundred_was_emitted() {
    let mut t = ProgressTracker::new();
    assert_eq!(t.update(5, 5), Some(100));
    assert_eq!(t.finish_success(), None);
    assert!(t.channel_closed());
}

#[test]
fn digest_decides_completion() {
    let received: Vec<u8> = vec![0xab, 0xcd, 0xef];
    assert_eq!(
        outcome_of_received(&None, &received),
        DownloadOutcome::Completed
    );
    assert_eq!(
        outcome_of_received(&Some(vec![0xab, 0xcd, 0xef]), &received),
        DownloadOutcome::Completed
    );
    assert_eq!(
        outcome_of_received(&Some(vec![0xab, 0xcd, 0xee]), &received),
        DownloadOutcome::Failed(DownloadFailure::ChecksumMismatch)
    );
    assert_eq!(
        outcome_of_received(&Some(vec![0xab, 0xcd]), &received),
        DownloadOutcome::Failed(DownloadFailure::ChecksumMismatch)
    );
}
