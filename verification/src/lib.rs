//! Lifecycle management for a locally hosted language-model inference
//! server: acquiring the model artifact (staged download with progress
//! reporting and cooperative cancellation) and supervising the single
//! local server process that serves it.
//!
//! The library is the decision core: every state transition is a verified
//! step on [`manager::State`]. The surrounding process (network transfer,
//! process spawning, the actual file system) performs the effects that the
//! steps prescribe and reports their outcomes back.

pub mod download;
pub mod error;
pub mod manager;
pub mod models;
pub mod progress;
pub mod server;
pub mod store;
pub mod wallet;
