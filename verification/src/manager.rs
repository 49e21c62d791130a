//! The lifecycle manager: the single source of truth for the model
//! location, the download slot, the server slot, and the artifact store.
//!
//! Every transition of the lifecycle is one call on [`State`], applied as
//! one atomic step while the caller holds the exclusive lock around the
//! shared `State`. Long-running work never happens inside a step: a step
//! either registers that work has begun (`download_model`,
//! `start_server`, `stop_server`) and hands the caller a duty, or commits
//! how work that the caller awaited outside the lock ended
//! (`finish_download`, `commit_server_started`, `commit_server_failed`,
//! `commit_server_stopped`). Read-only queries never mutate.

use vstd::prelude::*;

use crate::download::{DownloadJob, DownloadOutcome, DownloadState};
use crate::error::Error;
use crate::server::{ServerHandle, ServerState};
use crate::store::ArtifactStore;

verus! {

/// The path view of an optional override path.
pub open spec fn opt_path_view(p: Option<String>) -> Option<Seq<char>> {
    match p {
        Option::None => Option::None,
        Option::Some(s) => Option::Some(s@),
    }
}

/// The shared lifecycle state, to be owned behind one exclusive lock.
pub struct State {
    model_path: String,
    custom_model_path: Option<String>,
    server: ServerState,
    download: DownloadState,
    artifacts: ArtifactStore,
}

impl State {
    /// The fixed default artifact path.
    pub closed spec fn default_path(self) -> Seq<char> {
        self.model_path@
    }

    /// The user-set override path, if any.
    pub closed spec fn custom_path(self) -> Option<Seq<char>> {
        opt_path_view(self.custom_model_path)
    }

    /// The path the next server start would serve: the override if set,
    /// else the default.
    pub open spec fn active_path(self) -> Seq<char> {
        match self.custom_path() {
            Option::Some(p) => p,
            Option::None => self.default_path(),
        }
    }

    /// The server slot.
    pub closed spec fn server_state(self) -> ServerState {
        self.server
    }

    /// The download slot.
    pub closed spec fn download_state(self) -> DownloadState {
        self.download
    }

    /// The paths holding a committed artifact.
    pub closed spec fn artifact_paths(self) -> Set<Seq<char>> {
        self.artifacts.committed_set()
    }

    /// The paths holding a staging file.
    pub closed spec fn staged_paths(self) -> Set<Seq<char>> {
        self.artifacts.staged_set()
    }

    /// A transfer is in flight.
    pub open spec fn downloading(self) -> bool {
        self.download_state() is InProgress
    }

    /// The server answered its readiness probe and is serving.
    pub open spec fn server_running(self) -> bool {
        self.server_state() is Running
    }

    /// A server process may exist: it is starting, running, or stopping.
    pub open spec fn server_active(self) -> bool {
        self.server_state().is_active()
    }

    /// A committed artifact sits at the active path.
    pub open spec fn downloaded(self) -> bool {
        self.artifact_paths().contains(self.active_path())
    }

    /// The artifact is present, no transfer is in flight, and no server
    /// process exists: the state a server start requires.
    pub open spec fn ready(self) -> bool {
        self.downloaded() && !self.downloading() && self.server_state() is Stopped
    }

    /// The endpoint of the running server, if one is running.
    pub closed spec fn api_base_view(self) -> Option<Seq<char>> {
        match self.server {
            ServerState::Running(h) => Option::Some(h.api_base@),
            _ => Option::None,
        }
    }

    /// The internal invariant. Exactly the staging file of the transfer
    /// in flight exists, and none when none is; while a transfer is in
    /// flight the server slot is stopped, since a start requires the
    /// artifact to be committed first.
    pub closed spec fn wf(self) -> bool {
        &&& self.artifacts.wf()
        &&& (self.download matches DownloadState::InProgress(job) ==> {
            &&& self.artifacts.staged_set() =~= Set::<Seq<char>>::empty().insert(job.temp_path@)
            &&& self.server is Stopped
        })
        &&& (!(self.download is InProgress) ==> self.artifacts.staged_set() =~= Set::<
            Seq<char>,
        >::empty())
    }

    /// A fresh lifecycle: default path set, nothing downloaded, nothing
    /// running. Artifacts already on disk are reported afterwards with
    /// [`State::record_artifact`].
    pub fn new(model_path: String) -> (s: State)
        ensures
            s.wf(),
            s.default_path() == model_path@,
            s.custom_path() is None,
            s.active_path() == model_path@,
            s.server_state() is Stopped,
            s.download_state() is Idle,
            s.artifact_paths() =~= Set::<Seq<char>>::empty(),
    {
        State {
            model_path,
            custom_model_path: None,
            server: ServerState::Stopped,
            download: DownloadState::Idle,
            artifacts: ArtifactStore::empty(),
        }
    }

    /// Records that a complete artifact sits at `path`: the result of the
    /// startup enumeration of the data directory.
    pub fn record_artifact(&mut self, path: String)
        requires
            old(self).wf(),
        ensures
            final(self).wf(),
            final(self).artifact_paths() =~= old(self).artifact_paths().insert(path@),
            final(self).staged_paths() == old(self).staged_paths(),
            final(self).server_state() == old(self).server_state(),
            final(self).download_state() == old(self).download_state(),
            final(self).default_path() == old(self).default_path(),
            final(self).custom_path() == old(self).custom_path(),
    {
        self.artifacts.record(path);
    }

    /// The path the server would serve if started now.
    pub fn get_active_model_path(&self) -> (p: String)
        ensures
            p@ == self.active_path(),
    {
        match &self.custom_model_path {
            Option::Some(c) => c.clone(),
            Option::None => self.model_path.clone(),
        }
    }

    /// Whether the server is running.
    pub fn is_server_running(&self) -> (r: bool)
        ensures
            r == self.server_running(),
    {
        match &self.server {
            ServerState::Running(_) => true,
            _ => false,
        }
    }

    /// Whether a transfer is in flight.
    pub fn is_model_downloading(&self) -> (r: bool)
        ensures
            r == self.downloading(),
    {
        match &self.download {
            DownloadState::InProgress(_) => true,
            _ => false,
        }
    }

    /// Whether a committed artifact sits at `path`.
    pub fn has_artifact(&self, path: &String) -> (r: bool)
        ensures
            r == self.artifact_paths().contains(path@),
    {
        self.artifacts.is_committed(path)
    }

    /// Whether a committed artifact sits at the active path.
    pub fn is_model_downloaded(&self) -> (r: bool)
        ensures
            r == self.downloaded(),
    {
        let p = self.get_active_model_path();
        self.artifacts.is_committed(&p)
    }

    /// The endpoint of the running server, if any.
    pub fn api_base(&self) -> (r: Option<String>)
        ensures
            (r is Some) == self.server_running(),
            r matches Some(a) ==> self.api_base_view() == Option::Some(a@),
    {
        match &self.server {
            ServerState::Running(h) => Some(h.api_base.clone()),
            _ => None,
        }
    }

    /// Registers a new download, or refuses it. At most one transfer is
    /// ever in flight: while one is, a second request is refused with
    /// `AlreadyInProgress` and changes nothing. While a server process
    /// exists the request is refused with `ServerActive`. Otherwise the
    /// job is registered under `task` with its staging file at
    /// `temp_path` and its destination at the active path, and the caller
    /// owes the transfer followed by `finish_download`. The staging path
    /// must be private — neither the destination nor any committed
    /// artifact ([`State::has_artifact`] answers that) — since writing
    /// there is what keeps a partial transfer invisible under any final
    /// name.
    pub fn download_model(&mut self, task: u64, temp_path: String) -> (r: Result<(), Error>)
        requires
            old(self).wf(),
            temp_path@ != old(self).active_path(),
            !old(self).artifact_paths().contains(temp_path@),
        ensures
            final(self).wf(),
            old(self).downloading() ==> r == Err::<(), Error>(Error::AlreadyInProgress)
                && *final(self) == *old(self),
            !old(self).downloading() && old(self).server_active() ==> r == Err::<(), Error>(
                Error::ServerActive,
            ) && *final(self) == *old(self),
            !old(self).downloading() && !old(self).server_active() ==> {
                &&& r == Ok::<(), Error>(())
                &&& final(self).download_state() matches DownloadState::InProgress(job)
                    && job.task == task && job.temp_path@ == temp_path@
                    && job.dest_path@ == old(self).active_path()
                &&& final(self).staged_paths() =~= Set::<Seq<char>>::empty().insert(temp_path@)
                &&& final(self).artifact_paths() == old(self).artifact_paths()
                &&& final(self).server_state() == old(self).server_state()
                &&& final(self).default_path() == old(self).default_path()
                &&& final(self).custom_path() == old(self).custom_path()
            },
    {
        if self.is_model_downloading() {
            return Err(Error::AlreadyInProgress);
        }
        let server_exists = match &self.server {
            ServerState::Stopped => false,
            _ => true,
        };
        if server_exists {
            return Err(Error::ServerActive);
        }
        let dest = self.get_active_model_path();
        let job = DownloadJob { task, temp_path: temp_path.clone(), dest_path: dest };
        self.artifacts.stage(temp_path);
        self.download = DownloadState::InProgress(job);
        Ok(())
    }

    /// Commits how the transfer in flight ended. On `Completed` the
    /// staged file is published under the job's destination in one
    /// rename, and if that destination is still the active path the
    /// model now reads as downloaded. On `Cancelled` or `Failed` the
    /// staged file is deleted and the committed artifacts are exactly
    /// what they were: nothing partial ever appears under a final name.
    /// The caller performs the matching file operations before releasing
    /// the lock.
    pub fn finish_download(&mut self, outcome: DownloadOutcome) -> (r: Result<(), Error>)
        requires
            old(self).wf(),
            old(self).downloading(),
        ensures
            final(self).wf(),
            !final(self).downloading(),
            final(self).staged_paths() =~= Set::<Seq<char>>::empty(),
            final(self).server_state() == old(self).server_state(),
            final(self).default_path() == old(self).default_path(),
            final(self).custom_path() == old(self).custom_path(),
            outcome is Completed ==> {
                &&& r == Ok::<(), Error>(())
                &&& final(self).download_state() is Completed
                &&& final(self).artifact_paths() =~= old(self).artifact_paths().insert(
                    old(self).download_state()->InProgress_0.dest_path@,
                )
                &&& old(self).download_state()->InProgress_0.dest_path@ == old(self).active_path()
                    ==> final(self).downloaded()
            },
            outcome is Cancelled ==> {
                &&& r == Ok::<(), Error>(())
                &&& final(self).download_state() is Idle
                &&& final(self).artifact_paths() == old(self).artifact_paths()
            },
            outcome matches DownloadOutcome::Failed(f) ==> {
                &&& r == Err::<(), Error>(Error::from_failure_spec(f))
                &&& final(self).download_state() == DownloadState::Failed(f)
                &&& final(self).artifact_paths() == old(self).artifact_paths()
            },
    {
        let (temp, dest) = match &self.download {
            DownloadState::InProgress(job) => (job.temp_path.clone(), job.dest_path.clone()),
            _ => {
                proof {
                    assert(false);
                }
                (String::new(), String::new())
            },
        };
        match outcome {
            DownloadOutcome::Completed => {
                self.artifacts.commit(&temp, dest);
                self.download = DownloadState::Completed;
                Ok(())
            },
            DownloadOutcome::Cancelled => {
                self.artifacts.discard(&temp);
                self.download = DownloadState::Idle;
                Ok(())
            },
            DownloadOutcome::Failed(f) => {
                self.artifacts.discard(&temp);
                self.download = DownloadState::Failed(f);
                Err(Error::from_failure(f))
            },
        }
    }

    /// Registers a server start, or refuses it. While a server process
    /// exists — starting, running, or still stopping — the request is
    /// refused with `AlreadyRunning` and changes nothing. Without a
    /// committed artifact at the active path, or while a transfer is in
    /// flight, it is refused with `NotDownloaded`. Otherwise the launch
    /// is registered under `task`, and the caller owes the spawn and the
    /// readiness probe, then `commit_server_started` or
    /// `commit_server_failed`.
    pub fn start_server(&mut self, task: u64) -> (r: Result<(), Error>)
        requires
            old(self).wf(),
        ensures
            final(self).wf(),
            old(self).server_active() ==> r == Err::<(), Error>(Error::AlreadyRunning)
                && *final(self) == *old(self),
            !old(self).server_active() && !old(self).ready() ==> r == Err::<(), Error>(
                Error::NotDownloaded,
            ) && *final(self) == *old(self),
            old(self).ready() ==> {
                &&& r == Ok::<(), Error>(())
                &&& final(self).server_state() == ServerState::Starting(task)
                &&& final(self).download_state() == old(self).download_state()
                &&& final(self).artifact_paths() == old(self).artifact_paths()
                &&& final(self).staged_paths() == old(self).staged_paths()
                &&& final(self).default_path() == old(self).default_path()
                &&& final(self).custom_path() == old(self).custom_path()
            },
    {
        let server_exists = match &self.server {
            ServerState::Stopped => false,
            _ => true,
        };
        if server_exists {
            return Err(Error::AlreadyRunning);
        }
        if self.is_model_downloading() {
            return Err(Error::NotDownloaded);
        }
        if !self.is_model_downloaded() {
            return Err(Error::NotDownloaded);
        }
        self.server = ServerState::Starting(task);
        Ok(())
    }

    /// Commits that the registered launch answered its readiness probe
    /// and serves at `api_base`.
    pub fn commit_server_started(&mut self, api_base: String)
        requires
            old(self).wf(),
            old(self).server_state() is Starting,
        ensures
            final(self).wf(),
            final(self).server_running(),
            final(self).server_state() == ServerState::Running(
                (ServerHandle { task: old(self).server_state()->Starting_0, api_base }),
            ),
            final(self).api_base_view() == Option::Some(api_base@),
            final(self).download_state() == old(self).download_state(),
            final(self).artifact_paths() == old(self).artifact_paths(),
            final(self).staged_paths() == old(self).staged_paths(),
            final(self).default_path() == old(self).default_path(),
            final(self).custom_path() == old(self).custom_path(),
    {
        let task = match &self.server {
            ServerState::Starting(t) => *t,
            _ => {
                proof {
                    assert(false);
                }
                0
            },
        };
        self.server = ServerState::Running(ServerHandle { task, api_base });
    }

    /// Commits that the registered launch failed: it could not bind, it
    /// could not spawn, or it never became ready in the bounded startup
    /// window. The caller has already killed whatever partially launched
    /// before recording the failure, so no process outlives this step.
    pub fn commit_server_failed(&mut self, failure: Error)
        requires
            old(self).wf(),
            old(self).server_state() is Starting,
            failure == Error::BindError || failure == Error::SpawnError || failure
                == Error::StartupTimeout,
        ensures
            final(self).wf(),
            final(self).server_state() is Stopped,
            !final(self).server_running(),
            final(self).download_state() == old(self).download_state(),
            final(self).artifact_paths() == old(self).artifact_paths(),
            final(self).staged_paths() == old(self).staged_paths(),
            final(self).default_path() == old(self).default_path(),
            final(self).custom_path() == old(self).custom_path(),
    {
        self.server = ServerState::Stopped;
    }

    /// Requests a stop of the server. Never an error and idempotent: on a
    /// stopped or already stopping slot it is a no-op; an existing launch
    /// or server moves to `Stopping` and its task is handed back as the
    /// caller's teardown duty, to be followed by `commit_server_stopped`
    /// once the process has exited. In every case the server no longer
    /// reads as running.
    pub fn stop_server(&mut self) -> (r: Option<u64>)
        requires
            old(self).wf(),
        ensures
            final(self).wf(),
            final(self).server_state() == old(self).server_state().stop_transition(),
            r == old(self).server_state().stop_handout(),
            !final(self).server_running(),
            final(self).download_state() == old(self).download_state(),
            final(self).artifact_paths() == old(self).artifact_paths(),
            final(self).staged_paths() == old(self).staged_paths(),
            final(self).default_path() == old(self).default_path(),
            final(self).custom_path() == old(self).custom_path(),
    {
        let (next, duty) = match &self.server {
            ServerState::Stopped => (ServerState::Stopped, None),
            ServerState::Starting(t) => (ServerState::Stopping(*t), Some(*t)),
            ServerState::Running(h) => (ServerState::Stopping(h.task), Some(h.task)),
            ServerState::Stopping(t) => (ServerState::Stopping(*t), None),
        };
        self.server = next;
        duty
    }

    /// Commits that the process of the stopping server has exited and its
    /// resources — port and process — are released.
    pub fn commit_server_stopped(&mut self)
        requires
            old(self).wf(),
            old(self).server_state() is Stopping,
        ensures
            final(self).wf(),
            final(self).server_state() is Stopped,
            final(self).download_state() == old(self).download_state(),
            final(self).artifact_paths() == old(self).artifact_paths(),
            final(self).staged_paths() == old(self).staged_paths(),
            final(self).default_path() == old(self).default_path(),
            final(self).custom_path() == old(self).custom_path(),
    {
        self.server = ServerState::Stopped;
    }

    /// Replaces the override path (`None` reverts to the default). The
    /// server must never serve a model other than the one active when it
    /// started, so an existing launch or server is stopped first, exactly
    /// as by [`State::stop_server`], and the server no longer reads as
    /// running when this returns. The teardown duty, if any, is handed
    /// back.
    pub fn set_custom_model_path(&mut self, path: Option<String>) -> (r: Option<u64>)
        requires
            old(self).wf(),
        ensures
            final(self).wf(),
            final(self).custom_path() == opt_path_view(path),
            final(self).default_path() == old(self).default_path(),
            final(self).server_state() == old(self).server_state().stop_transition(),
            r == old(self).server_state().stop_handout(),
            !final(self).server_running(),
            final(self).download_state() == old(self).download_state(),
            final(self).artifact_paths() == old(self).artifact_paths(),
            final(self).staged_paths() == old(self).staged_paths(),
    {
        let duty = self.stop_server();
        self.custom_model_path = path;
        duty
    }
}

/// Transfers and servers exclude one another: while a transfer is in
/// flight no server process exists in any stage, and the one staging
/// file open is the transfer's own. Together with the slots holding at
/// most one job and one server each, at most one download and one
/// server process ever exist at a time.
pub proof fn lemma_downloading_excludes_server(s: State)
    requires
        s.wf(),
        s.downloading(),
    ensures
        s.server_state() is Stopped,
        s.staged_paths() =~= Set::<Seq<char>>::empty().insert(
            s.download_state()->InProgress_0.temp_path@,
        ),
{
}

/// Asks the caller's user interface to pick a model file: the choice is
/// made outside and reported back, so this always refuses with the
/// sentinel the interface recognises.
pub fn select_model_file() -> (r: Result<Option<String>, String>)
    ensures
        r matches Err(m) && m@ == "FILE_SELECTION_REQUIRED"@,
{
    Err("FILE_SELECTION_REQUIRED".to_owned())
}

} // verus!
