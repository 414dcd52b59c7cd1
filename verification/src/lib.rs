//! Coordination of application updates.
//!
//! The crate decides; the host acts. Each operation (checking for a newer
//! version, downloading it, the background schedule) is a transition function
//! over the shared [`UpdaterState`]: the host hands in a signal, the function
//! changes the state and answers with the event to publish and the next thing
//! to do. Sleeping, talking to the remote gateway and restarting the process
//! are left to the host, which holds the state behind a single lock and calls
//! one transition at a time.

pub mod clock;
pub mod event;
pub mod state;
pub mod check;
pub mod download;
pub mod scheduler;
pub mod laws;

pub use check::{
    acquire_check, check_at, check_for_updates, complete_check, failure_of, poll_check,
    CheckAction, CheckCommand, CheckSignal, CHECK_TIMEOUT_SECS, MAX_WAIT_POLLS, WAIT_POLL_MILLIS,
};
pub use clock::Timestamp;
pub use download::{
    download_update, fail_download, finish_download, install_update, requery_download,
    start_download, DownloadAction, DownloadCommand, DownloadSignal,
};
pub use event::{
    CheckResult, DownloadProgress, ErrorKind, GatewayReply, Release, UpdateError, UpdateEvent,
    UpdateInfo, UpdateStatus,
};
pub use scheduler::{
    start_auto_updater, Scheduler, SchedulerAction, AUTO_CHECK_INTERVAL_SECS,
    INITIAL_CHECK_DELAY_SECS,
};
pub use state::{get_last_check_time, get_update_status, UpdaterState};
