//! Checking for a newer version: at most one query of the gateway at a time.
//!
//! A caller walks through three kinds of step, each one atomic on the shared
//! state. It polls until no check is in flight, giving up on a flag that
//! stays set for too long; it contends for the flag; and, if it won, it
//! queries the gateway and reports the reply. A caller that loses the
//! contest is answered from what the last check recorded.

use vstd::prelude::*;
use crate::clock::{utc_now, Timestamp};
use crate::event::{
    describe, opt_view, prefixed, CheckResult, CheckResultView, ErrorKind,
    GatewayReply, GatewayReplyView, UpdateError, UpdateErrorView, UpdateEvent, UpdateEventView,
    UpdateInfo, UpdateInfoView,
};
use crate::state::{UpdaterState, UpdaterStateView};

verus! {

/// How often a caller polls a check in flight before it clears the flag.
pub const MAX_WAIT_POLLS: u32 = 70;

/// The pause between two polls, in milliseconds.
pub const WAIT_POLL_MILLIS: u64 = 500;

/// How long the gateway may take to answer a check, in seconds.
pub const CHECK_TIMEOUT_SECS: u64 = 30;

/// What the host reports to a check.
#[derive(Debug, PartialEq, Eq)]
pub enum CheckSignal {
    /// The caller enters (`polls` is 0) or has slept `polls` times.
    Poll { polls: u32 },
    /// The caller contends for the right to query the gateway.
    Acquire,
    /// The gateway answered the caller's query.
    Replied { reply: GatewayReply },
    /// The gateway did not answer within the time allowed.
    TimedOut,
}

pub enum CheckSignalView {
    Poll { polls: u32 },
    Acquire,
    Replied { reply: GatewayReplyView },
    TimedOut,
}

impl View for CheckSignal {
    type V = CheckSignalView;

    open spec fn view(&self) -> CheckSignalView {
        match self {
            CheckSignal::Poll { polls } => CheckSignalView::Poll { polls: *polls },
            CheckSignal::Acquire => CheckSignalView::Acquire,
            CheckSignal::Replied { reply } => CheckSignalView::Replied { reply: reply@ },
            CheckSignal::TimedOut => CheckSignalView::TimedOut,
        }
    }
}

/// What the host does next for a check.
#[derive(Debug, PartialEq, Eq)]
pub enum CheckAction {
    /// Sleep for `millis` milliseconds, then signal `Poll { polls }`.
    Sleep { millis: u64, polls: u32 },
    /// Signal `Acquire`.
    Acquire,
    /// Query the gateway; signal its reply, or `TimedOut` after
    /// `timeout_secs` seconds without one.
    Query { timeout_secs: u64 },
    /// Hand `result` to the caller. The check is over.
    Return { result: CheckResult },
}

pub enum CheckActionView {
    Sleep { millis: u64, polls: u32 },
    Acquire,
    Query { timeout_secs: u64 },
    Return { result: CheckResultView },
}

impl View for CheckAction {
    type V = CheckActionView;

    open spec fn view(&self) -> CheckActionView {
        match self {
            CheckAction::Sleep { millis, polls } => CheckActionView::Sleep {
                millis: *millis,
                polls: *polls,
            },
            CheckAction::Acquire => CheckActionView::Acquire,
            CheckAction::Query { timeout_secs } => CheckActionView::Query {
                timeout_secs: *timeout_secs,
            },
            CheckAction::Return { result } => CheckActionView::Return { result: result@ },
        }
    }
}

/// The answer to a signal: the event to publish, if any, and what to do next.
#[derive(Debug, PartialEq, Eq)]
pub struct CheckCommand {
    pub event: Option<UpdateEvent>,
    pub action: CheckAction,
}

pub struct CheckCommandView {
    pub event: Option<UpdateEventView>,
    pub action: CheckActionView,
}

impl View for CheckCommand {
    type V = CheckCommandView;

    open spec fn view(&self) -> CheckCommandView {
        CheckCommandView { event: opt_view(self.event), action: self.action@ }
    }
}

/// A poll. While a check is in flight the caller sleeps, up to
/// [`MAX_WAIT_POLLS`] times; after that the flag counts as stuck and is
/// cleared. With the flag clear the caller goes on to contend for it.
pub open spec fn poll_step(s: UpdaterStateView, polls: u32) -> (
    UpdaterStateView,
    CheckCommandView,
) {
    if s.is_checking && polls < MAX_WAIT_POLLS {
        (
            s,
            CheckCommandView {
                event: None,
                action: CheckActionView::Sleep {
                    millis: WAIT_POLL_MILLIS,
                    polls: (polls + 1) as u32,
                },
            },
        )
    } else {
        (
            UpdaterStateView { is_checking: false, ..s },
            CheckCommandView { event: None, action: CheckActionView::Acquire },
        )
    }
}

/// The answer for a caller that lost the contest: what the last check
/// recorded, without a release date.
pub open spec fn cached_result(s: UpdaterStateView, current_version: Seq<char>) -> CheckResultView {
    if s.has_update {
        CheckResultView {
            available: true,
            info: Some(
                UpdateInfoView {
                    version: match s.pending_version {
                        Some(version) => version,
                        None => Seq::empty(),
                    },
                    current_version,
                    body: s.pending_notes,
                    date: None,
                },
            ),
            error: None,
        }
    } else {
        CheckResultView { available: false, info: None, error: None }
    }
}

/// The contest for the flag. Whoever finds it clear sets it and is told to
/// query the gateway; whoever finds it set gets the cached answer, and the
/// state stays as it is.
pub open spec fn acquire_step(s: UpdaterStateView, current_version: Seq<char>) -> (
    UpdaterStateView,
    CheckCommandView,
) {
    if s.is_checking {
        (
            s,
            CheckCommandView {
                event: None,
                action: CheckActionView::Return { result: cached_result(s, current_version) },
            },
        )
    } else {
        (
            UpdaterStateView { is_checking: true, ..s },
            CheckCommandView {
                event: Some(UpdateEventView::Checking),
                action: CheckActionView::Query { timeout_secs: CHECK_TIMEOUT_SECS },
            },
        )
    }
}

/// The failure that a query ended in, if it did: `outcome` is the gateway's
/// reply, or `None` if none came in time.
pub open spec fn check_failure(outcome: Option<GatewayReplyView>) -> Option<UpdateErrorView> {
    match outcome {
        Some(GatewayReplyView::Unavailable { reason }) => Some(
            UpdateErrorView {
                kind: ErrorKind::GatewayUnavailable,
                message: "Failed to get updater: "@ + reason,
            },
        ),
        Some(GatewayReplyView::Failed { reason }) => Some(
            UpdateErrorView {
                kind: ErrorKind::CheckFailed,
                message: "Update check failed: "@ + reason,
            },
        ),
        None => Some(
            UpdateErrorView { kind: ErrorKind::CheckTimeout, message: "check timed out"@ },
        ),
        Some(GatewayReplyView::Update { .. }) | Some(GatewayReplyView::NoUpdate) => None,
    }
}

/// The end of the owner's query. A release is recorded as pending, "no
/// update" clears what was pending, and a failure leaves both alone. In each
/// case the time is recorded and the flag is cleared.
pub open spec fn complete_step(
    s: UpdaterStateView,
    outcome: Option<GatewayReplyView>,
    current_version: Seq<char>,
    now: Timestamp,
) -> (UpdaterStateView, CheckCommandView) {
    let done = UpdaterStateView { is_checking: false, last_check: Some(now), ..s };
    match outcome {
        Some(GatewayReplyView::Update { release }) => (
            done.with_update(release.version, release.body),
            CheckCommandView {
                event: Some(
                    UpdateEventView::Available { info: describe(release, current_version) },
                ),
                action: CheckActionView::Return {
                    result: CheckResultView {
                        available: true,
                        info: Some(describe(release, current_version)),
                        error: None,
                    },
                },
            },
        ),
        Some(GatewayReplyView::NoUpdate) => (
            done.without_update(),
            CheckCommandView {
                event: Some(UpdateEventView::NotAvailable { current_version }),
                action: CheckActionView::Return {
                    result: CheckResultView { available: false, info: None, error: None },
                },
            },
        ),
        _ => {
            let failure = check_failure(outcome)->0;
            (
                done,
                CheckCommandView {
                    event: Some(
                        UpdateEventView::Error {
                            message: failure.message,
                            recoverable: failure.kind.spec_recoverable(),
                        },
                    ),
                    action: CheckActionView::Return {
                        result: CheckResultView {
                            available: false,
                            info: None,
                            error: Some(failure.message),
                        },
                    },
                },
            )
        },
    }
}

/// One step of a check: the state after `signal` and the command that
/// answers it. Only the end of a query reads `now`.
pub open spec fn check_step(
    s: UpdaterStateView,
    signal: CheckSignalView,
    current_version: Seq<char>,
    now: Timestamp,
) -> (UpdaterStateView, CheckCommandView) {
    match signal {
        CheckSignalView::Poll { polls } => poll_step(s, polls),
        CheckSignalView::Acquire => acquire_step(s, current_version),
        CheckSignalView::Replied { reply } => complete_step(s, Some(reply), current_version, now),
        CheckSignalView::TimedOut => complete_step(s, None, current_version, now),
    }
}

/// Polls for the end of a check in flight.
pub fn poll_check(state: &mut UpdaterState, polls: u32) -> (command: CheckCommand)
    ensures
        (final(state)@, command@) == poll_step(old(state)@, polls),
        old(state)@.wf() ==> final(state)@.wf(),
{
    if state.is_checking() && polls < MAX_WAIT_POLLS {
        CheckCommand {
            event: None,
            action: CheckAction::Sleep { millis: WAIT_POLL_MILLIS, polls: polls + 1 },
        }
    } else {
        state.swap_checking(false);
        CheckCommand { event: None, action: CheckAction::Acquire }
    }
}

/// Contends for the right to query the gateway.
pub fn acquire_check(state: &mut UpdaterState, current_version: &str) -> (command: CheckCommand)
    ensures
        (final(state)@, command@) == acquire_step(old(state)@, current_version@),
        old(state)@.wf() ==> final(state)@.wf(),
{
    if state.swap_checking(true) {
        let result = if state.has_update() {
            let version = match state.pending_version() {
                Some(version) => version,
                None => String::new(),
            };
            CheckResult {
                available: true,
                info: Some(
                    UpdateInfo {
                        version,
                        current_version: String::from_str(current_version),
                        body: state.pending_notes(),
                        date: None,
                    },
                ),
                error: None,
            }
        } else {
            CheckResult { available: false, info: None, error: None }
        };
        CheckCommand { event: None, action: CheckAction::Return { result } }
    } else {
        CheckCommand {
            event: Some(UpdateEvent::Checking),
            action: CheckAction::Query { timeout_secs: CHECK_TIMEOUT_SECS },
        }
    }
}

/// The failure that a query ended in. `outcome` is the gateway's reply, or
/// `None` if none came in time; a reply that is no failure gives `None`.
pub fn failure_of(outcome: &Option<GatewayReply>) -> (failure: Option<UpdateError>)
    ensures
        opt_view(failure) == check_failure(opt_view(*outcome)),
{
    match outcome {
        Some(GatewayReply::Unavailable { reason }) => Some(
            UpdateError {
                kind: ErrorKind::GatewayUnavailable,
                message: prefixed("Failed to get updater: ", reason.as_str()),
            },
        ),
        Some(GatewayReply::Failed { reason }) => Some(
            UpdateError {
                kind: ErrorKind::CheckFailed,
                message: prefixed("Update check failed: ", reason.as_str()),
            },
        ),
        None => Some(
            UpdateError {
                kind: ErrorKind::CheckTimeout,
                message: String::from_str("check timed out"),
            },
        ),
        Some(GatewayReply::Update { .. }) | Some(GatewayReply::NoUpdate) => None,
    }
}

/// Ends the owner's query at the instant `now`. `outcome` is the gateway's
/// reply, or `None` if none came in time.
pub fn complete_check(
    state: &mut UpdaterState,
    outcome: Option<GatewayReply>,
    current_version: &str,
    now: Timestamp,
) -> (command: CheckCommand)
    ensures
        (final(state)@, command@) == complete_step(
            old(state)@,
            opt_view(outcome),
            current_version@,
            now,
        ),
        old(state)@.wf() ==> final(state)@.wf(),
{
    let failure = failure_of(&outcome);
    let command = match outcome {
        Some(GatewayReply::Update { release }) => {
            let info = UpdateInfo::of(&release, current_version);
            let event = UpdateEvent::Available { info: info.clone() };
            state.store_update(release.version, release.body);
            CheckCommand {
                event: Some(event),
                action: CheckAction::Return {
                    result: CheckResult { available: true, info: Some(info), error: None },
                },
            }
        },
        Some(GatewayReply::NoUpdate) => {
            state.clear_update();
            CheckCommand {
                event: Some(
                    UpdateEvent::NotAvailable {
                        current_version: String::from_str(current_version),
                    },
                ),
                action: CheckAction::Return {
                    result: CheckResult { available: false, info: None, error: None },
                },
            }
        },
        _ => {
            let UpdateError { kind, message } = failure.unwrap();
            CheckCommand {
                event: Some(
                    UpdateEvent::Error { message: message.clone(), recoverable: kind.recoverable() },
                ),
                action: CheckAction::Return {
                    result: CheckResult { available: false, info: None, error: Some(message) },
                },
            }
        },
    };
    state.stamp(now);
    state.swap_checking(false);
    command
}

/// One step of a check at the instant `now`.
pub fn check_at(
    state: &mut UpdaterState,
    signal: CheckSignal,
    current_version: &str,
    now: Timestamp,
) -> (command: CheckCommand)
    ensures
        (final(state)@, command@) == check_step(old(state)@, signal@, current_version@, now),
        old(state)@.wf() ==> final(state)@.wf(),
{
    match signal {
        CheckSignal::Poll { polls } => poll_check(state, polls),
        CheckSignal::Acquire => acquire_check(state, current_version),
        CheckSignal::Replied { reply } => complete_check(state, Some(reply), current_version, now),
        CheckSignal::TimedOut => complete_check(state, None, current_version, now),
    }
}

/// One step of a check. The host signals `Poll { polls: 0 }` when a caller
/// asks for a check, carries out the action that comes back and signals what
/// came of it, until the action is `Return`.
///
/// The step is [`check_step`] at some instant: the end of a query reads the
/// system clock for the time to record, and nothing is known of the instant
/// it gives. The other steps do not read the clock.
pub fn check_for_updates(
    state: &mut UpdaterState,
    signal: CheckSignal,
    current_version: &str,
) -> (command: CheckCommand)
    ensures
        exists|now: Timestamp|
            (final(state)@, command@) == #[trigger] check_step(
                old(state)@,
                signal@,
                current_version@,
                now,
            ),
        old(state)@.wf() ==> final(state)@.wf(),
{
    let ghost before = state@;
    let ghost sent = signal@;
    match signal {
        CheckSignal::Poll { polls } => {
            let command = poll_check(state, polls);
            proof {
                let any = Timestamp { secs: 0, nanos: 0 };
                assert((state@, command@) == check_step(before, sent, current_version@, any));
            }
            command
        },
        CheckSignal::Acquire => {
            let command = acquire_check(state, current_version);
            proof {
                let any = Timestamp { secs: 0, nanos: 0 };
                assert((state@, command@) == check_step(before, sent, current_version@, any));
            }
            command
        },
        CheckSignal::Replied { reply } => {
            let now = utc_now();
            let command = complete_check(state, Some(reply), current_version, now);
            proof {
                assert((state@, command@) == check_step(before, sent, current_version@, now));
            }
            command
        },
        CheckSignal::TimedOut => {
            let now = utc_now();
            let command = complete_check(state, None, current_version, now);
            proof {
                assert((state@, command@) == check_step(before, sent, current_version@, now));
            }
            command
        },
    }
}

} // verus!
