//! Downloading and installing a discovered release: at most one at a time,
//! and never without a release that a check has found.
//!
//! Unlike a check, a download that finds another in flight does not wait: it
//! is refused at once. The release recorded by the check is not used for the
//! transfer. The gateway is asked again, and only what it yields then is
//! downloaded. A download has no time limit.

use vstd::prelude::*;
use crate::event::{
    describe, opt_view, prefixed, DownloadProgress, ErrorKind, GatewayReply, GatewayReplyView,
    Release, ReleaseView, UpdateError, UpdateErrorView, UpdateEvent, UpdateEventView, UpdateInfo,
};
use crate::state::{UpdaterState, UpdaterStateView};

verus! {

/// What the host reports to a download.
#[derive(Debug, PartialEq, Eq)]
pub enum DownloadSignal {
    /// A caller asks for the pending release to be downloaded.
    Start,
    /// The gateway answered the fresh query.
    Requeried { reply: GatewayReply },
    /// `release` was transferred and installed.
    Installed { release: Release },
    /// The transfer or the installation failed.
    InstallFailed { reason: String },
}

pub enum DownloadSignalView {
    Start,
    Requeried { reply: GatewayReplyView },
    Installed { release: ReleaseView },
    InstallFailed { reason: Seq<char> },
}

impl View for DownloadSignal {
    type V = DownloadSignalView;

    open spec fn view(&self) -> DownloadSignalView {
        match self {
            DownloadSignal::Start => DownloadSignalView::Start,
            DownloadSignal::Requeried { reply } => DownloadSignalView::Requeried { reply: reply@ },
            DownloadSignal::Installed { release } => DownloadSignalView::Installed {
                release: release@,
            },
            DownloadSignal::InstallFailed { reason } => DownloadSignalView::InstallFailed {
                reason: reason@,
            },
        }
    }
}

/// What the host does next for a download.
#[derive(Debug, PartialEq, Eq)]
pub enum DownloadAction {
    /// Query the gateway, without a time limit, and signal `Requeried`.
    Requery,
    /// Download and install the release that the gateway just yielded, then
    /// signal `Installed` with that release, or `InstallFailed`.
    Transfer,
    /// Hand `outcome` to the caller. The download is over.
    Return { outcome: Result<bool, UpdateError> },
}

pub enum DownloadActionView {
    Requery,
    Transfer,
    Return { outcome: Result<bool, UpdateErrorView> },
}

impl View for DownloadAction {
    type V = DownloadActionView;

    open spec fn view(&self) -> DownloadActionView {
        match self {
            DownloadAction::Requery => DownloadActionView::Requery,
            DownloadAction::Transfer => DownloadActionView::Transfer,
            DownloadAction::Return { outcome } => DownloadActionView::Return {
                outcome: match outcome {
                    Ok(done) => Ok(*done),
                    Err(e) => Err(e@),
                },
            },
        }
    }
}

/// The answer to a signal: the event to publish, if any, and what to do next.
#[derive(Debug, PartialEq, Eq)]
pub struct DownloadCommand {
    pub event: Option<UpdateEvent>,
    pub action: DownloadAction,
}

pub struct DownloadCommandView {
    pub event: Option<UpdateEventView>,
    pub action: DownloadActionView,
}

impl View for DownloadCommand {
    type V = DownloadCommandView;

    open spec fn view(&self) -> DownloadCommandView {
        DownloadCommandView { event: opt_view(self.event), action: self.action@ }
    }
}

/// The command that ends a download in failure without an event.
pub open spec fn refusal(kind: ErrorKind, message: Seq<char>) -> DownloadCommandView {
    DownloadCommandView {
        event: None,
        action: DownloadActionView::Return { outcome: Err(UpdateErrorView { kind, message }) },
    }
}

/// The start of a download. It is refused while another is in flight, and
/// while no release is pending; otherwise the flag is set, observers are told
/// that a download begins, and the gateway is to be asked again.
pub open spec fn start_step(s: UpdaterStateView) -> (UpdaterStateView, DownloadCommandView) {
    if s.is_downloading {
        (s, refusal(ErrorKind::ConcurrentOperationRejected, "download already in progress"@))
    } else if !s.has_update {
        (s, refusal(ErrorKind::NoUpdateAvailable, "No update available to download"@))
    } else {
        (
            UpdaterStateView { is_downloading: true, ..s },
            DownloadCommandView {
                event: Some(UpdateEventView::Progress { progress: DownloadProgress::started() }),
                action: DownloadActionView::Requery,
            },
        )
    }
}

/// The gateway's answer to the fresh query. Only a release lets the download
/// go on. Anything else clears the flag and ends the download, and a release
/// that has disappeared is also forgotten.
pub open spec fn requery_step(s: UpdaterStateView, reply: GatewayReplyView) -> (
    UpdaterStateView,
    DownloadCommandView,
) {
    let released = UpdaterStateView { is_downloading: false, ..s };
    match reply {
        GatewayReplyView::Update { .. } => (
            s,
            DownloadCommandView { event: None, action: DownloadActionView::Transfer },
        ),
        GatewayReplyView::NoUpdate => (
            released.without_update(),
            refusal(ErrorKind::NoUpdateAvailable, "No update available"@),
        ),
        GatewayReplyView::Failed { reason } => (
            released,
            refusal(ErrorKind::CheckFailed, "Check failed: "@ + reason),
        ),
        GatewayReplyView::Unavailable { reason } => (
            released,
            refusal(ErrorKind::GatewayUnavailable, reason),
        ),
    }
}

/// The end of a successful transfer: the release is consumed and the flag is
/// cleared. The event names the installed release, without a release date.
pub open spec fn installed_step(
    s: UpdaterStateView,
    release: ReleaseView,
    current_version: Seq<char>,
) -> (UpdaterStateView, DownloadCommandView) {
    (
        UpdaterStateView { is_downloading: false, ..s }.without_update(),
        DownloadCommandView {
            event: Some(
                UpdateEventView::Downloaded {
                    info: describe(ReleaseView { date: None, ..release }, current_version),
                },
            ),
            action: DownloadActionView::Return { outcome: Ok(true) },
        },
    )
}

/// The end of a failed transfer: the flag is cleared and the pending release
/// stays. The failure is not recoverable: the caller starts over with a check.
pub open spec fn install_failed_step(s: UpdaterStateView, reason: Seq<char>) -> (
    UpdaterStateView,
    DownloadCommandView,
) {
    let message = "Download/install failed: "@ + reason;
    (
        UpdaterStateView { is_downloading: false, ..s },
        DownloadCommandView {
            event: Some(
                UpdateEventView::Error {
                    message,
                    recoverable: ErrorKind::DownloadFailed.spec_recoverable(),
                },
            ),
            action: DownloadActionView::Return {
                outcome: Err(UpdateErrorView { kind: ErrorKind::DownloadFailed, message }),
            },
        },
    )
}

/// One step of a download: the state after `signal` and the command that
/// answers it.
pub open spec fn download_step(
    s: UpdaterStateView,
    signal: DownloadSignalView,
    current_version: Seq<char>,
) -> (UpdaterStateView, DownloadCommandView) {
    match signal {
        DownloadSignalView::Start => start_step(s),
        DownloadSignalView::Requeried { reply } => requery_step(s, reply),
        DownloadSignalView::Installed { release } => installed_step(s, release, current_version),
        DownloadSignalView::InstallFailed { reason } => install_failed_step(s, reason),
    }
}

fn refuse(kind: ErrorKind, message: String) -> (command: DownloadCommand)
    ensures
        command@ == refusal(kind, message@),
{
    DownloadCommand {
        event: None,
        action: DownloadAction::Return { outcome: Err(UpdateError { kind, message }) },
    }
}

/// Starts a download.
pub fn start_download(state: &mut UpdaterState) -> (command: DownloadCommand)
    ensures
        (final(state)@, command@) == start_step(old(state)@),
        old(state)@.wf() ==> final(state)@.wf(),
{
    if state.swap_downloading(true) {
        refuse(
            ErrorKind::ConcurrentOperationRejected,
            String::from_str("download already in progress"),
        )
    } else if !state.has_update() {
        state.swap_downloading(false);
        refuse(ErrorKind::NoUpdateAvailable, String::from_str("No update available to download"))
    } else {
        let progress = DownloadProgress { downloaded: 0, total: 0, percent: 0, bytes_per_second: 0 };
        DownloadCommand {
            event: Some(UpdateEvent::Progress { progress }),
            action: DownloadAction::Requery,
        }
    }
}

/// Takes the gateway's answer to the fresh query.
pub fn requery_download(state: &mut UpdaterState, reply: GatewayReply) -> (command: DownloadCommand)
    ensures
        (final(state)@, command@) == requery_step(old(state)@, reply@),
        old(state)@.wf() ==> final(state)@.wf(),
{
    match reply {
        GatewayReply::Update { .. } => DownloadCommand {
            event: None,
            action: DownloadAction::Transfer,
        },
        GatewayReply::NoUpdate => {
            state.swap_downloading(false);
            state.clear_update();
            refuse(ErrorKind::NoUpdateAvailable, String::from_str("No update available"))
        },
        GatewayReply::Failed { reason } => {
            state.swap_downloading(false);
            refuse(ErrorKind::CheckFailed, prefixed("Check failed: ", reason.as_str()))
        },
        GatewayReply::Unavailable { reason } => {
            state.swap_downloading(false);
            refuse(ErrorKind::GatewayUnavailable, reason)
        },
    }
}

/// Ends a download whose transfer succeeded.
pub fn finish_download(
    state: &mut UpdaterState,
    release: Release,
    current_version: &str,
) -> (command: DownloadCommand)
    ensures
        (final(state)@, command@) == installed_step(old(state)@, release@, current_version@),
        old(state)@.wf() ==> final(state)@.wf(),
{
    let installed = Release { version: release.version, body: release.body, date: None };
    let info = UpdateInfo::of(&installed, current_version);
    state.clear_update();
    state.swap_downloading(false);
    DownloadCommand {
        event: Some(UpdateEvent::Downloaded { info }),
        action: DownloadAction::Return { outcome: Ok(true) },
    }
}

/// Ends a download whose transfer failed.
pub fn fail_download(state: &mut UpdaterState, reason: &str) -> (command: DownloadCommand)
    ensures
        (final(state)@, command@) == install_failed_step(old(state)@, reason@),
        old(state)@.wf() ==> final(state)@.wf(),
{
    let message = prefixed("Download/install failed: ", reason);
    let kind = ErrorKind::DownloadFailed;
    state.swap_downloading(false);
    DownloadCommand {
        event: Some(
            UpdateEvent::Error { message: message.clone(), recoverable: kind.recoverable() },
        ),
        action: DownloadAction::Return { outcome: Err(UpdateError { kind, message }) },
    }
}

/// One step of a download. The host signals `Start` when a caller asks for
/// the download, carries out the action that comes back and signals what came
/// of it, until the action is `Return`.
pub fn download_update(
    state: &mut UpdaterState,
    signal: DownloadSignal,
    current_version: &str,
) -> (command: DownloadCommand)
    ensures
        (final(state)@, command@) == download_step(old(state)@, signal@, current_version@),
        old(state)@.wf() ==> final(state)@.wf(),
{
    match signal {
        DownloadSignal::Start => start_download(state),
        DownloadSignal::Requeried { reply } => requery_download(state, reply),
        DownloadSignal::Installed { release } => finish_download(state, release, current_version),
        DownloadSignal::InstallFailed { reason } => fail_download(state, reason.as_str()),
    }
}

/// The event to publish before the host restarts the process to finish an
/// installation. The restart itself cannot fail from here.
pub fn install_update() -> (event: UpdateEvent)
    ensures
        event@ == UpdateEventView::Installing,
{
    UpdateEvent::Installing
}

} // verus!
