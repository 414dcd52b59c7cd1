//! What holds of the transitions, whatever the host does with them.
//!
//! The statements are over the views and the step functions that the
//! contracts of the executable functions use, so each of them holds of the
//! code that runs.

use vstd::prelude::*;
use crate::check::{
    acquire_step, cached_result, check_step, complete_step, poll_step, CheckActionView,
    CheckCommandView, CheckSignalView, CHECK_TIMEOUT_SECS, MAX_WAIT_POLLS, WAIT_POLL_MILLIS,
};
use crate::clock::Timestamp;
use crate::download::{
    download_step, refusal, start_step, DownloadActionView, DownloadSignalView,
};
use crate::event::{
    CheckResultView, ErrorKind, GatewayReplyView, ReleaseView, UpdateEventView, UpdateInfoView,
    UpdateStatus,
};
use crate::scheduler::{Scheduler, SchedulerAction, AUTO_CHECK_INTERVAL_SECS};
use crate::state::UpdaterStateView;

verus! {

/// No step of a check breaks the tie between the update flag and the pending
/// release, and none touches the download flag.
pub proof fn check_keeps_state_sound(
    s: UpdaterStateView,
    signal: CheckSignalView,
    current_version: Seq<char>,
    now: Timestamp,
)
    requires
        s.wf(),
    ensures
        check_step(s, signal, current_version, now).0.wf(),
        check_step(s, signal, current_version, now).0.is_downloading == s.is_downloading,
{
}

/// No step of a download breaks the tie between the update flag and the
/// pending release, and none touches the check flag or the time of the last
/// check.
pub proof fn download_keeps_state_sound(
    s: UpdaterStateView,
    signal: DownloadSignalView,
    current_version: Seq<char>,
)
    requires
        s.wf(),
    ensures
        download_step(s, signal, current_version).0.wf(),
        download_step(s, signal, current_version).0.is_checking == s.is_checking,
        download_step(s, signal, current_version).0.last_check == s.last_check,
{
}

/// The download flag is only ever set while a release is pending, and only by
/// the step that sends the host to the gateway.
pub proof fn download_flag_needs_update(
    s: UpdaterStateView,
    signal: DownloadSignalView,
    current_version: Seq<char>,
)
    ensures
        !s.is_downloading && download_step(s, signal, current_version).0.is_downloading ==> {
            &&& s.has_update
            &&& signal is Start
            &&& download_step(s, signal, current_version).1.action == DownloadActionView::Requery
        },
{
}

/// The host is sent to the gateway for a check only by a contest that found
/// the flag clear, and that contest sets the flag.
pub proof fn query_needs_clear_flag(
    s: UpdaterStateView,
    signal: CheckSignalView,
    current_version: Seq<char>,
    now: Timestamp,
)
    ensures
        check_step(s, signal, current_version, now).1.action is Query <==> signal is Acquire
            && !s.is_checking,
        check_step(s, signal, current_version, now).1.action is Query ==> check_step(
            s,
            signal,
            current_version,
            now,
        ).0.is_checking,
{
}

/// One step of some caller, as the shared state sees it: a signal of a check
/// with the instant at which it is handled, or a signal of a download.
pub enum Arrival {
    Check { check: CheckSignalView, now: Timestamp },
    Download { download: DownloadSignalView },
}

/// How many gateway queries for a check and how many downloads are under way.
pub struct InFlight {
    pub checks: int,
    pub downloads: int,
}

/// The state after one step.
pub open spec fn arrive(
    s: UpdaterStateView,
    arrival: Arrival,
    current_version: Seq<char>,
) -> UpdaterStateView {
    match arrival {
        Arrival::Check { check, now } => check_step(s, check, current_version, now).0,
        Arrival::Download { download } => download_step(s, download, current_version).0,
    }
}

/// What is under way after one step. A contest that finds the check flag
/// clear starts a query, and a reply or a timeout ends one. A start that is
/// not refused begins a download, and it ends when the fresh query yields no
/// release or when the transfer is over.
pub open spec fn in_flight_after(
    s: UpdaterStateView,
    under_way: InFlight,
    arrival: Arrival,
) -> InFlight {
    match arrival {
        Arrival::Check { check: CheckSignalView::Poll { .. }, .. } => under_way,
        Arrival::Check { check: CheckSignalView::Acquire, .. } => if s.is_checking {
            under_way
        } else {
            InFlight { checks: under_way.checks + 1, ..under_way }
        },
        Arrival::Check { check: CheckSignalView::Replied { .. }, .. }
        | Arrival::Check { check: CheckSignalView::TimedOut, .. } => InFlight {
            checks: under_way.checks - 1,
            ..under_way
        },
        Arrival::Download { download: DownloadSignalView::Start } => if !s.is_downloading
            && s.has_update {
            InFlight { downloads: under_way.downloads + 1, ..under_way }
        } else {
            under_way
        },
        Arrival::Download {
            download: DownloadSignalView::Requeried { reply: GatewayReplyView::Update { .. } },
        } => under_way,
        Arrival::Download { .. } => InFlight { downloads: under_way.downloads - 1, ..under_way },
    }
}

/// Whether a step keeps to the protocol: only what was started is reported
/// as answered or ended, and no caller has polled a check in flight to the
/// ceiling.
pub open spec fn orderly(s: UpdaterStateView, under_way: InFlight, arrival: Arrival) -> bool {
    match arrival {
        Arrival::Check { check: CheckSignalView::Poll { polls }, .. } => !(s.is_checking && polls
            >= MAX_WAIT_POLLS),
        Arrival::Check { check: CheckSignalView::Acquire, .. } => true,
        Arrival::Check { .. } => under_way.checks >= 1,
        Arrival::Download { download: DownloadSignalView::Start } => true,
        Arrival::Download { .. } => under_way.downloads >= 1,
    }
}

/// The state and what is under way after the steps of `trace`, taken in
/// order, from whichever callers they come.
pub open spec fn after_trace(
    s: UpdaterStateView,
    under_way: InFlight,
    trace: Seq<Arrival>,
    current_version: Seq<char>,
) -> (UpdaterStateView, InFlight)
    decreases trace.len(),
{
    if trace.len() == 0 {
        (s, under_way)
    } else {
        after_trace(
            arrive(s, trace[0], current_version),
            in_flight_after(s, under_way, trace[0]),
            trace.drop_first(),
            current_version,
        )
    }
}

/// Whether every step of `trace` keeps to the protocol at its turn.
pub open spec fn orderly_trace(
    s: UpdaterStateView,
    under_way: InFlight,
    trace: Seq<Arrival>,
    current_version: Seq<char>,
) -> bool
    decreases trace.len(),
{
    trace.len() == 0 || (orderly(s, under_way, trace[0]) && orderly_trace(
        arrive(s, trace[0], current_version),
        in_flight_after(s, under_way, trace[0]),
        trace.drop_first(),
        current_version,
    ))
}

/// At most one query for a check and at most one download are under way, and
/// the flags say whether one is.
pub open spec fn single_flight(s: UpdaterStateView, under_way: InFlight) -> bool {
    &&& 0 <= under_way.checks <= 1
    &&& s.is_checking <==> under_way.checks == 1
    &&& 0 <= under_way.downloads <= 1
    &&& s.is_downloading <==> under_way.downloads == 1
}

/// Single flight: however the steps of any number of callers interleave, at
/// most one query for a check and at most one download are under way at any
/// time, as long as each step keeps to the protocol. A caller that waits out
/// the ceiling trades this away for progress; see [`stuck_flag_is_cleared`].
pub proof fn operations_are_single_flight(
    s: UpdaterStateView,
    under_way: InFlight,
    trace: Seq<Arrival>,
    current_version: Seq<char>,
)
    requires
        single_flight(s, under_way),
        orderly_trace(s, under_way, trace, current_version),
    ensures
        single_flight(
            after_trace(s, under_way, trace, current_version).0,
            after_trace(s, under_way, trace, current_version).1,
        ),
    decreases trace.len(),
{
    if trace.len() > 0 {
        operations_are_single_flight(
            arrive(s, trace[0], current_version),
            in_flight_after(s, under_way, trace[0]),
            trace.drop_first(),
            current_version,
        );
    }
}

/// Whatever steps are taken, in whatever order, a pending version stays
/// recorded exactly while an update is known.
pub proof fn reachable_states_are_sound(
    s: UpdaterStateView,
    under_way: InFlight,
    trace: Seq<Arrival>,
    current_version: Seq<char>,
)
    requires
        s.wf(),
    ensures
        after_trace(s, under_way, trace, current_version).0.wf(),
    decreases trace.len(),
{
    if trace.len() > 0 {
        reachable_states_are_sound(
            arrive(s, trace[0], current_version),
            in_flight_after(s, under_way, trace[0]),
            trace.drop_first(),
            current_version,
        );
    }
}

/// The commands given to `n` callers that contend for the flag one after the
/// other, with nothing else in between.
pub open spec fn contest(
    s: UpdaterStateView,
    current_version: Seq<char>,
    n: nat,
) -> Seq<CheckCommandView>
    decreases n,
{
    if n == 0 {
        Seq::empty()
    } else {
        seq![acquire_step(s, current_version).1] + contest(
            acquire_step(s, current_version).0,
            current_version,
            (n - 1) as nat,
        )
    }
}

/// While the flag is set, every contender is answered from the cache: none
/// is sent to the gateway and none is given an error.
pub proof fn contenders_of_a_busy_check_are_answered(
    s: UpdaterStateView,
    current_version: Seq<char>,
    n: nat,
)
    requires
        s.is_checking,
    ensures
        contest(s, current_version, n).len() == n,
        forall|i: int|
            0 <= i < n ==> (#[trigger] contest(s, current_version, n)[i]) == (CheckCommandView {
                event: None,
                action: CheckActionView::Return { result: cached_result(s, current_version) },
            }),
        cached_result(s, current_version).error is None,
    decreases n,
{
    if n > 0 {
        contenders_of_a_busy_check_are_answered(s, current_version, (n - 1) as nat);
    }
}

/// Of any number of callers that ask for a check at once, while none is in
/// flight, one alone is sent to the gateway. Each of them is sent on from its
/// first poll without a sleep; in the contest the first finds the flag clear,
/// and every other one is answered from the cache, without an error.
pub proof fn one_contender_queries(s: UpdaterStateView, current_version: Seq<char>, n: nat)
    requires
        !s.is_checking,
        n >= 1,
    ensures
        forall|polls: u32|
            #[trigger] poll_step(s, polls) == (
                s,
                CheckCommandView { event: None, action: CheckActionView::Acquire },
            ),
        contest(s, current_version, n).len() == n,
        contest(s, current_version, n)[0] == (CheckCommandView {
            event: Some(UpdateEventView::Checking),
            action: CheckActionView::Query { timeout_secs: CHECK_TIMEOUT_SECS },
        }),
        forall|i: int|
            1 <= i < n ==> (#[trigger] contest(s, current_version, n)[i]) == (CheckCommandView {
                event: None,
                action: CheckActionView::Return { result: cached_result(s, current_version) },
            }),
        cached_result(s, current_version).error is None,
{
    let busy = acquire_step(s, current_version).0;
    let rest = contest(busy, current_version, (n - 1) as nat);
    contenders_of_a_busy_check_are_answered(busy, current_version, (n - 1) as nat);
    assert(cached_result(busy, current_version) == cached_result(s, current_version));
    assert forall|i: int| 1 <= i < n implies (#[trigger] contest(s, current_version, n)[i])
        == rest[i - 1] by {}
}

/// Once a check has found a release and no download is in flight, the status
/// is `Available`; and a caller that contends while a later check holds the
/// flag is given that release from the cache, with the state left as it is
/// and the gateway left alone.
pub proof fn found_release_is_served_from_cache(
    s: UpdaterStateView,
    release: ReleaseView,
    current_version: Seq<char>,
    now: Timestamp,
)
    requires
        !s.is_downloading,
    ensures
        ({
            let found = complete_step(
                s,
                Some(GatewayReplyView::Update { release }),
                current_version,
                now,
            ).0;
            let busy = acquire_step(found, current_version).0;
            &&& found.status() == UpdateStatus::Available
            &&& busy.is_checking
            &&& acquire_step(busy, current_version) == (
                busy,
                CheckCommandView {
                    event: None,
                    action: CheckActionView::Return {
                        result: CheckResultView {
                            available: true,
                            info: Some(
                                UpdateInfoView {
                                    version: release.version,
                                    current_version,
                                    body: release.body,
                                    date: None,
                                },
                            ),
                            error: None,
                        },
                    },
                },
            )
        }),
{
}

/// A download asked for while no release is pending and no other download is
/// in flight is refused for want of an update, and the download flag stays
/// clear.
pub proof fn download_without_update_is_refused(s: UpdaterStateView, current_version: Seq<char>)
    requires
        !s.has_update,
        !s.is_downloading,
    ensures
        download_step(s, DownloadSignalView::Start, current_version) == (
            s,
            refusal(ErrorKind::NoUpdateAvailable, "No update available to download"@),
        ),
        !download_step(s, DownloadSignalView::Start, current_version).0.is_downloading,
{
}

/// Of two downloads asked for one after the other while a release is pending,
/// the first goes on to the gateway and the second is rejected at once, with
/// the state left as the first made it.
pub proof fn second_download_is_rejected(s: UpdaterStateView)
    requires
        s.has_update,
        !s.is_downloading,
    ensures
        start_step(s).1.action == DownloadActionView::Requery,
        start_step(start_step(s).0) == (
            start_step(s).0,
            refusal(ErrorKind::ConcurrentOperationRejected, "download already in progress"@),
        ),
{
}

/// Whatever the state, two downloads asked for one after the other do not
/// both go on.
pub proof fn downloads_are_single_flight(s: UpdaterStateView)
    ensures
        !(start_step(s).1.action is Requery && start_step(start_step(s).0).1.action is Requery),
{
}

/// The owner of a check is given [`CHECK_TIMEOUT_SECS`] seconds for the
/// gateway. When they pass without a reply, the caller is told that nothing
/// is available, with the timeout as the error; the flag is cleared, the time
/// is recorded, and what was pending stays pending.
pub proof fn timeout_frees_the_flag(s: UpdaterStateView, current_version: Seq<char>, now: Timestamp)
    ensures
        !s.is_checking ==> acquire_step(s, current_version).1.action == (CheckActionView::Query {
            timeout_secs: 30,
        }),
        complete_step(s, None, current_version, now) == (
            UpdaterStateView { is_checking: false, last_check: Some(now), ..s },
            CheckCommandView {
                event: Some(
                    UpdateEventView::Error { message: "check timed out"@, recoverable: true },
                ),
                action: CheckActionView::Return {
                    result: CheckResultView {
                        available: false,
                        info: None,
                        error: Some("check timed out"@),
                    },
                },
            },
        ),
{
}

/// Every end of a query clears the flag and records the time, whatever the
/// gateway said or failed to say.
pub proof fn completion_frees_the_flag(
    s: UpdaterStateView,
    outcome: Option<GatewayReplyView>,
    current_version: Seq<char>,
    now: Timestamp,
)
    ensures
        !complete_step(s, outcome, current_version, now).0.is_checking,
        complete_step(s, outcome, current_version, now).0.last_check == Some(now),
        complete_step(s, outcome, current_version, now).1.action is Return,
{
}

/// A flag that stays set does not block a caller for ever. Against such a
/// flag each of the first [`MAX_WAIT_POLLS`] polls leaves the state alone and
/// asks for a sleep of [`WAIT_POLL_MILLIS`] milliseconds, 35 seconds in all.
/// The poll after that clears the flag, and the contest that follows sends
/// the caller to the gateway.
pub proof fn stuck_flag_is_cleared(s: UpdaterStateView, current_version: Seq<char>)
    requires
        s.is_checking,
    ensures
        forall|polls: u32|
            polls < MAX_WAIT_POLLS ==> #[trigger] poll_step(s, polls) == (
                s,
                CheckCommandView {
                    event: None,
                    action: CheckActionView::Sleep {
                        millis: WAIT_POLL_MILLIS,
                        polls: (polls + 1) as u32,
                    },
                },
            ),
        MAX_WAIT_POLLS * WAIT_POLL_MILLIS == 35_000,
        poll_step(s, MAX_WAIT_POLLS) == (
            UpdaterStateView { is_checking: false, ..s },
            CheckCommandView { event: None, action: CheckActionView::Acquire },
        ),
        acquire_step(poll_step(s, MAX_WAIT_POLLS).0, current_version).1.action is Query,
{
}

/// The actions of the schedule from `at` on, where `observed[i]` says whether
/// a check was in flight when the schedule was asked for the `i`-th time.
pub open spec fn schedule(at: Scheduler, observed: Seq<bool>) -> Seq<SchedulerAction>
    decreases observed.len(),
{
    if observed.len() == 0 {
        Seq::empty()
    } else {
        seq![at.step(observed[0]).1] + schedule(at.step(observed[0]).0, observed.drop_first())
    }
}

/// The schedule never ends and never piles up work. It has an action for
/// every call. It asks for a check only when none is in flight, and whatever
/// follows a request for a check is a pause of a full interval.
pub proof fn schedule_never_piles_up(at: Scheduler, observed: Seq<bool>)
    ensures
        schedule(at, observed).len() == observed.len(),
        forall|i: int|
            0 <= i < observed.len() && #[trigger] schedule(at, observed)[i]
                == SchedulerAction::RunCheck ==> {
                &&& !observed[i]
                &&& i + 1 < observed.len() ==> schedule(at, observed)[i + 1]
                    == (SchedulerAction::Sleep { secs: AUTO_CHECK_INTERVAL_SECS })
            },
    decreases observed.len(),
{
    if observed.len() > 0 {
        let next = at.step(observed[0]).0;
        let rest = observed.drop_first();
        schedule_never_piles_up(next, rest);
        assert forall|i: int|
            0 <= i < observed.len() && #[trigger] schedule(at, observed)[i]
                == SchedulerAction::RunCheck implies {
            &&& !observed[i]
            &&& i + 1 < observed.len() ==> schedule(at, observed)[i + 1]
                == (SchedulerAction::Sleep { secs: AUTO_CHECK_INTERVAL_SECS })
        } by {
            if i == 0 {
                if observed.len() > 1 {
                    assert(schedule(at, observed)[1] == schedule(next, rest)[0]);
                    assert(schedule(next, rest)[0] == next.step(rest[0]).1);
                }
            } else {
                assert(schedule(at, observed)[i] == schedule(next, rest)[i - 1]);
                assert(rest[i - 1] == observed[i]);
                if i + 1 < observed.len() {
                    assert(schedule(at, observed)[i + 1] == schedule(next, rest)[i]);
                }
            }
        }
    }
}

/// The schedule opens with the startup pause, and the first thing it does
/// after it, unless a check is already in flight, is to ask for one.
pub proof fn schedule_opens_with_a_pause(is_checking: bool, later: bool)
    ensures
        Scheduler::Starting.step(is_checking).1 == (SchedulerAction::Sleep { secs: 30 }),
        !later ==> Scheduler::Starting.step(is_checking).0.step(later).1
            == SchedulerAction::RunCheck,
{
}

} // verus!
