//! The lifecycle state machine, driven through whole scenarios.

use local_llm::download::DownloadOutcome;
use local_llm::error::{DownloadFailure, Error};
use local_llm::manager::{select_model_file, State};

const DEFAULT: &str = "data/llm.gguf";
const TEMP: &str = "data/llm.gguf.part";
const ENDPOINT: &str = "http://127.0.0.1:8080";

fn fresh() -> State {
    State::new(DEFAULT.to_string())
}

/// Downloads the artifact to the default path and commits it.
fn downloaded() -> State {
    let mut s = fresh();
    s.download_model(1, TEMP.to_string()).unwrap();
    s.finish_download(DownloadOutcome::Completed).unwrap();
    s
}

/// Brings the server up at `ENDPOINT`.
fn running() -> State {
    let mut s = downloaded();
    s.start_server(7).unwrap();
    s.commit_server_started(ENDPOINT.to_string());
    s
}

#[test]
fn start_server_without_artifact_reports_not_downloaded() {
    let mut s = fresh();
    assert!(!s.is_model_downloaded());
    assert_eq!(s.start_server(7), Err(Error::NotDownloaded));
    assert!(!s.is_server_running());
}

#[test]
fn start_server_while_downloading_reports_not_downloaded() {
    let mut s = fresh();
    s.download_model(1, TEMP.to_string()).unwrap();
    assert_eq!(s.start_server(7), Err(Error::NotDownloaded));
}

#[test]
fn download_then_start_serves_endpoint() {
    let mut s = downloaded();
    assert!(s.is_model_downloaded());
    s.start_server(7).unwrap();
    assert!(!s.is_server_running());
    s.commit_server_started(ENDPOINT.to_string());
    assert!(s.is_server_running());
    assert_eq!(s.api_base(), Some(ENDPOINT.to_string()));
}

#[test]
fn second_download_reports_already_in_progress() {
    let mut s = fresh();
    s.download_model(1, TEMP.to_string()).unwrap();
    assert!(s.is_model_downloading());
    assert_eq!(
        s.download_model(2, "data/other.part".to_string()),
        Err(Error::AlreadyInProgress)
    );
    assert!(s.is_model_downloading());
    s.finish_download(DownloadOutcome::Completed).unwrap();
    assert!(s.is_model_downloaded());
}

#[test]
fn download_while_server_active_reports_server_active() {
    let mut s = running();
    assert_eq!(
        s.download_model(2, TEMP.to_string()),
        Err(Error::ServerActive)
    );
    let duty = s.stop_server();
    assert_eq!(duty, Some(7));
    assert_eq!(
        s.download_model(2, TEMP.to_string()),
        Err(Error::ServerActive)
    );
    s.commit_server_stopped();
    assert_eq!(s.download_model(2, TEMP.to_string()), Ok(()));
}

#[test]
fn completed_download_marks_model_downloaded() {
    let mut s = fresh();
    assert!(!s.is_model_downloaded());
    s.download_model(1, TEMP.to_string()).unwrap();
    assert!(!s.is_model_downloaded());
    s.finish_download(DownloadOutcome::Completed).unwrap();
    assert!(s.is_model_downloaded());
    assert!(!s.is_model_downloading());
    assert_eq!(s.get_active_model_path(), DEFAULT.to_string());
}

#[test]
fn cancelled_download_leaves_no_artifact() {
    let mut s = fresh();
    s.download_model(1, TEMP.to_string()).unwrap();
    assert!(s.is_model_downloading());
    s.finish_download(DownloadOutcome::Cancelled).unwrap();
    assert!(!s.is_model_downloading());
    assert!(!s.is_model_downloaded());
}

#[test]
fn failed_download_surfaces_failure_and_leaves_nothing() {
    for (failure, surfaced) in [
        (DownloadFailure::Network, Error::NetworkError),
        (DownloadFailure::Io, Error::IoError),
        (DownloadFailure::ChecksumMismatch, Error::ChecksumMismatch),
    ] {
        let mut s = fresh();
        s.download_model(1, TEMP.to_string()).unwrap();
        assert_eq!(
            s.finish_download(DownloadOutcome::Failed(failure)),
            Err(surfaced)
        );
        assert!(!s.is_model_downloading());
        assert!(!s.is_model_downloaded());
    }
}

#[test]
fn start_twice_reports_already_running() {
    let mut s = downloaded();
    s.start_server(7).unwrap();
    assert_eq!(s.start_server(8), Err(Error::AlreadyRunning));
    s.commit_server_started(ENDPOINT.to_string());
    assert_eq!(s.start_server(8), Err(Error::AlreadyRunning));
    assert!(s.is_server_running());
    assert_eq!(s.api_base(), Some(ENDPOINT.to_string()));
}

#[test]
fn stop_server_is_idempotent() {
    let mut s = fresh();
    assert_eq!(s.stop_server(), None);
    assert!(!s.is_server_running());

    let mut s = running();
    assert_eq!(s.stop_server(), Some(7));
    assert!(!s.is_server_running());
    assert_eq!(s.stop_server(), None);
    assert!(!s.is_server_running());
    s.commit_server_stopped();
    assert_eq!(s.stop_server(), None);
    assert!(!s.is_server_running());
}

#[test]
fn server_failure_returns_slot_to_stopped() {
    for failure in [Error::BindError, Error::SpawnError, Error::StartupTimeout] {
        let mut s = downloaded();
        s.start_server(7).unwrap();
        s.commit_server_failed(failure);
        assert!(!s.is_server_running());
        assert_eq!(s.start_server(8), Ok(()));
    }
}

#[test]
fn set_custom_model_path_stops_server() {
    let mut s = running();
    assert!(s.is_server_running());
    let duty = s.set_custom_model_path(Some("elsewhere/custom.gguf".to_string()));
    assert_eq!(duty, Some(7));
    assert!(!s.is_server_running());
    assert_eq!(s.get_active_model_path(), "elsewhere/custom.gguf".to_string());
    s.commit_server_stopped();
    assert!(!s.is_server_running());
}

#[test]
fn set_custom_model_path_switches_active_artifact() {
    let mut s = downloaded();
    assert!(s.is_model_downloaded());
    assert_eq!(
        s.set_custom_model_path(Some("elsewhere/custom.gguf".to_string())),
        None
    );
    assert_eq!(s.get_active_model_path(), "elsewhere/custom.gguf".to_string());
    assert!(!s.is_model_downloaded());
    s.record_artifact("elsewhere/custom.gguf".to_string());
    assert!(s.is_model_downloaded());
    assert_eq!(s.set_custom_model_path(None), None);
    assert_eq!(s.get_active_model_path(), DEFAULT.to_string());
    assert!(s.is_model_downloaded());
}

#[test]
fn recorded_artifact_counts_as_downloaded() {
    let mut s = fresh();
    assert!(!s.has_artifact(&DEFAULT.to_string()));
    s.record_artifact(DEFAULT.to_string());
    assert!(s.is_model_downloaded());
    assert!(s.has_artifact(&DEFAULT.to_string()));
    assert!(!s.has_artifact(&"data/other.gguf".to_string()));
    assert_eq!(s.start_server(3), Ok(()));
}

#[test]
fn select_model_file_defers_to_interface() {
    assert_eq!(
        select_model_file(),
        Err("FILE_SELECTION_REQUIRED".to_string())
    );
}

#[test]
fn error_messages_name_each_condition() {
    let errors = [
        Error::AlreadyInProgress,
        Error::ServerActive,
        Error::AlreadyRunning,
        Error::NotDownloaded,
        Error::NetworkError,
        Error::IoError,
        Error::ChecksumMismatch,
        Error::BindError,
        Error::SpawnError,
        Error::StartupTimeout,
    ];
    for e in errors {
        assert!(!e.message().is_empty());
    }
}
