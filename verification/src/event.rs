//! The values that cross the boundary between the coordinator and its host:
//! what the gateway reports, what observers are told, and what callers get
//! back. Each executable type has a view in which every string is its text.

use vstd::prelude::*;

verus! {

/// The view of an optional value: of an optional string, its text.
pub open spec fn opt_view<T: View>(o: Option<T>) -> Option<T::V> {
    match o {
        Some(value) => Some(value@),
        None => None,
    }
}

/// What the update subsystem is doing, as shown to the user.
#[derive(Debug, Clone, Copy, PartialEq, Eq, Structural)]
pub enum UpdateStatus {
    Idle,
    Checking,
    Available,
    NotAvailable,
    Downloading,
    Downloaded,
    Installing,
    Error,
}

/// A release as the remote gateway describes it.
#[derive(Debug, PartialEq, Eq)]
pub struct Release {
    pub version: String,
    pub body: Option<String>,
    pub date: Option<String>,
}

pub struct ReleaseView {
    pub version: Seq<char>,
    pub body: Option<Seq<char>>,
    pub date: Option<Seq<char>>,
}

impl View for Release {
    type V = ReleaseView;

    open spec fn view(&self) -> ReleaseView {
        ReleaseView { version: self.version@, body: opt_view(self.body), date: opt_view(self.date) }
    }
}

/// A discovered update: the release together with the version that was
/// running when it was found.
#[derive(Debug, PartialEq, Eq)]
pub struct UpdateInfo {
    pub version: String,
    pub current_version: String,
    pub body: Option<String>,
    pub date: Option<String>,
}

pub struct UpdateInfoView {
    pub version: Seq<char>,
    pub current_version: Seq<char>,
    pub body: Option<Seq<char>>,
    pub date: Option<Seq<char>>,
}

impl View for UpdateInfo {
    type V = UpdateInfoView;

    open spec fn view(&self) -> UpdateInfoView {
        UpdateInfoView {
            version: self.version@,
            current_version: self.current_version@,
            body: opt_view(self.body),
            date: opt_view(self.date),
        }
    }
}

/// How far a download has come. `total` is 0 while the size is unknown;
/// `percent` counts whole percent.
#[derive(Debug, Clone, Copy, PartialEq, Eq, Structural)]
pub struct DownloadProgress {
    pub downloaded: u64,
    pub total: u64,
    pub percent: u8,
    pub bytes_per_second: u64,
}

impl DownloadProgress {
    /// The progress announced when a download starts: nothing received, size
    /// unknown.
    pub open spec fn started() -> DownloadProgress {
        DownloadProgress { downloaded: 0, total: 0, percent: 0, bytes_per_second: 0 }
    }
}

/// A status event for observers. Each is built at a phase transition and
/// published once.
#[derive(Debug, PartialEq, Eq)]
pub enum UpdateEvent {
    Checking,
    Available { info: UpdateInfo },
    NotAvailable { current_version: String },
    Progress { progress: DownloadProgress },
    Downloaded { info: UpdateInfo },
    Error { message: String, recoverable: bool },
    Installing,
}

pub enum UpdateEventView {
    Checking,
    Available { info: UpdateInfoView },
    NotAvailable { current_version: Seq<char> },
    Progress { progress: DownloadProgress },
    Downloaded { info: UpdateInfoView },
    Error { message: Seq<char>, recoverable: bool },
    Installing,
}

impl View for UpdateEvent {
    type V = UpdateEventView;

    open spec fn view(&self) -> UpdateEventView {
        match self {
            UpdateEvent::Checking => UpdateEventView::Checking,
            UpdateEvent::Available { info } => UpdateEventView::Available { info: info@ },
            UpdateEvent::NotAvailable { current_version } => UpdateEventView::NotAvailable {
                current_version: current_version@,
            },
            UpdateEvent::Progress { progress } => UpdateEventView::Progress { progress: *progress },
            UpdateEvent::Downloaded { info } => UpdateEventView::Downloaded { info: info@ },
            UpdateEvent::Error { message, recoverable } => UpdateEventView::Error {
                message: message@,
                recoverable: *recoverable,
            },
            UpdateEvent::Installing => UpdateEventView::Installing,
        }
    }
}

/// The answer to a check. A failed check is an answer too: `available` is
/// false and `error` holds the message.
#[derive(Debug, PartialEq, Eq)]
pub struct CheckResult {
    pub available: bool,
    pub info: Option<UpdateInfo>,
    pub error: Option<String>,
}

pub struct CheckResultView {
    pub available: bool,
    pub info: Option<UpdateInfoView>,
    pub error: Option<Seq<char>>,
}

impl View for CheckResult {
    type V = CheckResultView;

    open spec fn view(&self) -> CheckResultView {
        CheckResultView {
            available: self.available,
            info: opt_view(self.info),
            error: opt_view(self.error),
        }
    }
}

/// Why an operation was refused or failed.
#[derive(Debug, Clone, Copy, PartialEq, Eq, Structural)]
pub enum ErrorKind {
    /// The gateway could not be obtained.
    GatewayUnavailable,
    /// The gateway did not answer a check in time.
    CheckTimeout,
    /// The gateway answered a query with an error.
    CheckFailed,
    /// There is nothing to download.
    NoUpdateAvailable,
    /// Another download is in flight.
    ConcurrentOperationRejected,
    /// The transfer or the installation failed.
    DownloadFailed,
}

impl ErrorKind {
    /// Whether the failed operation may simply be tried again. After a
    /// failed download the caller has to start over with a fresh check.
    pub open spec fn spec_recoverable(self) -> bool {
        self != ErrorKind::DownloadFailed
    }

    #[verifier::when_used_as_spec(spec_recoverable)]
    pub fn recoverable(self) -> (r: bool)
        ensures
            r == self.spec_recoverable(),
    {
        match self {
            ErrorKind::DownloadFailed => false,
            _ => true,
        }
    }
}

/// A failure returned to the caller of an operation.
#[derive(Debug, PartialEq, Eq)]
pub struct UpdateError {
    pub kind: ErrorKind,
    pub message: String,
}

pub struct UpdateErrorView {
    pub kind: ErrorKind,
    pub message: Seq<char>,
}

impl View for UpdateError {
    type V = UpdateErrorView;

    open spec fn view(&self) -> UpdateErrorView {
        UpdateErrorView { kind: self.kind, message: self.message@ }
    }
}

/// What the gateway said when asked whether a newer version exists.
#[derive(Debug, PartialEq, Eq)]
pub enum GatewayReply {
    /// The gateway could not be obtained at all.
    Unavailable { reason: String },
    /// A newer release exists.
    Update { release: Release },
    /// The running version is the newest.
    NoUpdate,
    /// The query itself failed.
    Failed { reason: String },
}

pub enum GatewayReplyView {
    Unavailable { reason: Seq<char> },
    Update { release: ReleaseView },
    NoUpdate,
    Failed { reason: Seq<char> },
}

impl View for GatewayReply {
    type V = GatewayReplyView;

    open spec fn view(&self) -> GatewayReplyView {
        match self {
            GatewayReply::Unavailable { reason } => GatewayReplyView::Unavailable {
                reason: reason@,
            },
            GatewayReply::Update { release } => GatewayReplyView::Update { release: release@ },
            GatewayReply::NoUpdate => GatewayReplyView::NoUpdate,
            GatewayReply::Failed { reason } => GatewayReplyView::Failed { reason: reason@ },
        }
    }
}

/// The descriptor of `release` as found by an installation running
/// `current_version`.
pub open spec fn describe(release: ReleaseView, current_version: Seq<char>) -> UpdateInfoView {
    UpdateInfoView {
        version: release.version,
        current_version,
        body: release.body,
        date: release.date,
    }
}

/// A copy of an optional string.
pub(crate) fn copy_text(o: &Option<String>) -> (r: Option<String>)
    ensures
        opt_view(r) == opt_view(*o),
{
    match o {
        Some(s) => Some(s.clone()),
        None => None,
    }
}

/// `prefix` followed by `reason`.
pub(crate) fn prefixed(prefix: &str, reason: &str) -> (r: String)
    ensures
        r@ == prefix@ + reason@,
{
    String::from_str(prefix).concat(reason)
}

impl Clone for UpdateInfo {
    fn clone(&self) -> (r: Self)
        ensures
            r@ == self@,
    {
        UpdateInfo {
            version: self.version.clone(),
            current_version: self.current_version.clone(),
            body: copy_text(&self.body),
            date: copy_text(&self.date),
        }
    }
}

impl Clone for Release {
    fn clone(&self) -> (r: Self)
        ensures
            r@ == self@,
    {
        Release {
            version: self.version.clone(),
            body: copy_text(&self.body),
            date: copy_text(&self.date),
        }
    }
}

impl Clone for UpdateEvent {
    fn clone(&self) -> (r: Self)
        ensures
            r@ == self@,
    {
        match self {
            UpdateEvent::Checking => UpdateEvent::Checking,
            UpdateEvent::Available { info } => UpdateEvent::Available { info: info.clone() },
            UpdateEvent::NotAvailable { current_version } => UpdateEvent::NotAvailable {
                current_version: current_version.clone(),
            },
            UpdateEvent::Progress { progress } => UpdateEvent::Progress { progress: *progress },
            UpdateEvent::Downloaded { info } => UpdateEvent::Downloaded { info: info.clone() },
            UpdateEvent::Error { message, recoverable } => UpdateEvent::Error {
                message: message.clone(),
                recoverable: *recoverable,
            },
            UpdateEvent::Installing => UpdateEvent::Installing,
        }
    }
}

impl Clone for CheckResult {
    fn clone(&self) -> (r: Self)
        ensures
            r@ == self@,
    {
        CheckResult {
            available: self.available,
            info: match &self.info {
                Some(info) => Some(info.clone()),
                None => None,
            },
            error: copy_text(&self.error),
        }
    }
}

impl UpdateInfo {
    /// The descriptor of `release` as found by an installation running
    /// `current_version`.
    pub fn of(release: &Release, current_version: &str) -> (info: UpdateInfo)
        ensures
            info@ == describe(release@, current_version@),
    {
        UpdateInfo {
            version: release.version.clone(),
            current_version: String::from_str(current_version),
            body: copy_text(&release.body),
            date: copy_text(&release.date),
        }
    }
}

} // verus!
