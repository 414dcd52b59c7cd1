use updater::{
    acquire_check, check_at, check_for_updates, complete_check, failure_of, get_last_check_time,
    get_update_status, poll_check, CheckAction, CheckCommand, CheckResult, CheckSignal, ErrorKind,
    GatewayReply, Release, Timestamp, UpdateError, UpdateEvent, UpdateInfo, UpdateStatus,
    UpdaterState, CHECK_TIMEOUT_SECS, MAX_WAIT_POLLS, WAIT_POLL_MILLIS,
};

fn at(secs: i64) -> Timestamp {
    Timestamp { secs, nanos: 0 }
}

fn release(version: &str, body: Option<&str>, date: Option<&str>) -> Release {
    Release {
        version: version.to_string(),
        body: body.map(|b| b.to_string()),
        date: date.map(|d| d.to_string()),
    }
}

fn not_available() -> CheckResult {
    CheckResult { available: false, info: None, error: None }
}

fn failed(message: &str) -> CheckCommand {
    CheckCommand {
        event: Some(UpdateEvent::Error { message: message.to_string(), recoverable: true }),
        action: CheckAction::Return {
            result: CheckResult {
                available: false,
                info: None,
                error: Some(message.to_string()),
            },
        },
    }
}

fn busy_state() -> UpdaterState {
    let mut state = UpdaterState::default();
    let command = acquire_check(&mut state, "1.0.0");
    assert_eq!(command.action, CheckAction::Query { timeout_secs: 30 });
    state
}

#[test]
fn constants_have_their_documented_values() {
    assert_eq!(MAX_WAIT_POLLS, 70);
    assert_eq!(WAIT_POLL_MILLIS, 500);
    assert_eq!(CHECK_TIMEOUT_SECS, 30);
    assert_eq!(u64::from(MAX_WAIT_POLLS) * WAIT_POLL_MILLIS, 35_000);
}

#[test]
fn poll_on_idle_state_goes_on_to_contend() {
    let mut state = UpdaterState::default();
    let command = poll_check(&mut state, 0);
    assert_eq!(command, CheckCommand { event: None, action: CheckAction::Acquire });
    assert!(!state.is_checking());
}

#[test]
fn poll_on_busy_state_sleeps_and_counts() {
    let mut state = busy_state();
    let command = poll_check(&mut state, 0);
    assert_eq!(
        command,
        CheckCommand { event: None, action: CheckAction::Sleep { millis: 500, polls: 1 } }
    );
    assert!(state.is_checking());
    let command = poll_check(&mut state, 69);
    assert_eq!(
        command,
        CheckCommand { event: None, action: CheckAction::Sleep { millis: 500, polls: 70 } }
    );
    assert!(state.is_checking());
}

#[test]
fn poll_at_the_ceiling_clears_a_stuck_flag() {
    let mut state = busy_state();
    let command = poll_check(&mut state, 70);
    assert_eq!(command, CheckCommand { event: None, action: CheckAction::Acquire });
    assert!(!state.is_checking());
    let command = acquire_check(&mut state, "1.0.0");
    assert_eq!(
        command,
        CheckCommand {
            event: Some(UpdateEvent::Checking),
            action: CheckAction::Query { timeout_secs: 30 },
        }
    );
    assert!(state.is_checking());
}

#[test]
fn a_caller_waits_seventy_times_before_it_takes_over() {
    let mut state = busy_state();
    let mut signal = CheckSignal::Poll { polls: 0 };
    let mut sleeps: u32 = 0;
    let mut slept_millis: u64 = 0;
    loop {
        let command = check_for_updates(&mut state, signal, "1.0.0");
        match command.action {
            CheckAction::Sleep { millis, polls } => {
                sleeps += 1;
                slept_millis += millis;
                assert_eq!(polls, sleeps);
                signal = CheckSignal::Poll { polls };
            }
            CheckAction::Acquire => break,
            other => panic!("unexpected action {:?}", other),
        }
    }
    assert_eq!(sleeps, 70);
    assert_eq!(slept_millis, 35_000);
    assert!(!state.is_checking());
    let command = check_for_updates(&mut state, CheckSignal::Acquire, "1.0.0");
    assert_eq!(command.action, CheckAction::Query { timeout_secs: 30 });
}

#[test]
fn poll_far_beyond_the_ceiling_still_clears() {
    let mut state = busy_state();
    let command = poll_check(&mut state, u32::MAX);
    assert_eq!(command.action, CheckAction::Acquire);
    assert!(!state.is_checking());
}

#[test]
fn the_first_of_many_contenders_alone_queries() {
    let mut state = UpdaterState::default();
    let mut queries: u32 = 0;
    let mut answered: u32 = 0;
    for _ in 0..8 {
        let command = check_for_updates(&mut state, CheckSignal::Acquire, "1.0.0");
        match command.action {
            CheckAction::Query { timeout_secs } => {
                assert_eq!(timeout_secs, 30);
                assert_eq!(command.event, Some(UpdateEvent::Checking));
                assert_eq!(answered, 0);
                queries += 1;
            }
            CheckAction::Return { result } => {
                assert_eq!(command.event, None);
                assert_eq!(result, not_available());
                answered += 1;
            }
            other => panic!("unexpected action {:?}", other),
        }
    }
    assert_eq!(queries, 1);
    assert_eq!(answered, 7);
    assert!(state.is_checking());
}

#[test]
fn losing_contender_gets_cached_release() {
    let mut state = busy_state();
    complete_check(
        &mut state,
        Some(GatewayReply::Update {
            release: release("2.0.0", Some("notes"), Some("2024-01-01")),
        }),
        "1.0.0",
        at(10),
    );
    assert_eq!(get_update_status(&state), UpdateStatus::Available);
    let owner = acquire_check(&mut state, "1.0.0");
    assert_eq!(owner.action, CheckAction::Query { timeout_secs: 30 });
    let loser = acquire_check(&mut state, "1.0.0");
    assert_eq!(
        loser,
        CheckCommand {
            event: None,
            action: CheckAction::Return {
                result: CheckResult {
                    available: true,
                    info: Some(UpdateInfo {
                        version: "2.0.0".to_string(),
                        current_version: "1.0.0".to_string(),
                        body: Some("notes".to_string()),
                        date: None,
                    }),
                    error: None,
                },
            },
        }
    );
    assert!(state.is_checking());
    assert_eq!(state.pending_version(), Some("2.0.0".to_string()));
}

#[test]
fn losing_contender_without_release_gets_not_available() {
    let mut state = busy_state();
    let loser = acquire_check(&mut state, "1.0.0");
    assert_eq!(
        loser,
        CheckCommand { event: None, action: CheckAction::Return { result: not_available() } }
    );
}

#[test]
fn found_release_is_recorded_and_announced() {
    let mut state = busy_state();
    let command = check_at(
        &mut state,
        CheckSignal::Replied {
            reply: GatewayReply::Update {
                release: release("2.0.0", Some("fixes"), Some("2024-05-01 10:00:00 +00:00")),
            },
        },
        "1.0.0",
        at(1_431_648_000),
    );
    let info = UpdateInfo {
        version: "2.0.0".to_string(),
        current_version: "1.0.0".to_string(),
        body: Some("fixes".to_string()),
        date: Some("2024-05-01 10:00:00 +00:00".to_string()),
    };
    assert_eq!(
        command,
        CheckCommand {
            event: Some(UpdateEvent::Available { info: info.clone() }),
            action: CheckAction::Return {
                result: CheckResult { available: true, info: Some(info), error: None },
            },
        }
    );
    assert!(!state.is_checking());
    assert!(state.has_update());
    assert_eq!(state.pending_version(), Some("2.0.0".to_string()));
    assert_eq!(state.pending_notes(), Some("fixes".to_string()));
    assert_eq!(state.last_check(), Some(at(1_431_648_000)));
}

#[test]
fn release_without_notes_leaves_notes_empty() {
    let mut state = busy_state();
    complete_check(
        &mut state,
        Some(GatewayReply::Update { release: release("2.0.0", Some("old notes"), None) }),
        "1.0.0",
        at(1),
    );
    complete_check(
        &mut state,
        Some(GatewayReply::Update { release: release("3.0.0", None, None) }),
        "1.0.0",
        at(2),
    );
    assert_eq!(state.pending_version(), Some("3.0.0".to_string()));
    assert_eq!(state.pending_notes(), None);
    assert!(state.has_update());
}

#[test]
fn no_update_clears_what_was_pending() {
    let mut state = busy_state();
    complete_check(
        &mut state,
        Some(GatewayReply::Update { release: release("2.0.0", Some("notes"), None) }),
        "1.0.0",
        at(1),
    );
    acquire_check(&mut state, "1.0.0");
    let command = complete_check(&mut state, Some(GatewayReply::NoUpdate), "1.0.0", at(2));
    assert_eq!(
        command,
        CheckCommand {
            event: Some(UpdateEvent::NotAvailable { current_version: "1.0.0".to_string() }),
            action: CheckAction::Return { result: not_available() },
        }
    );
    assert!(!state.has_update());
    assert_eq!(state.pending_version(), None);
    assert_eq!(state.pending_notes(), None);
    assert!(!state.is_checking());
    assert_eq!(state.last_check(), Some(at(2)));
    assert_eq!(get_update_status(&state), UpdateStatus::Idle);
}

#[test]
fn gateway_error_is_reported_and_keeps_pending_release() {
    let mut state = busy_state();
    complete_check(
        &mut state,
        Some(GatewayReply::Update { release: release("2.0.0", Some("notes"), None) }),
        "1.0.0",
        at(1),
    );
    acquire_check(&mut state, "1.0.0");
    let command = complete_check(
        &mut state,
        Some(GatewayReply::Failed { reason: "connection refused".to_string() }),
        "1.0.0",
        at(2),
    );
    assert_eq!(command, failed("Update check failed: connection refused"));
    assert!(state.has_update());
    assert_eq!(state.pending_version(), Some("2.0.0".to_string()));
    assert_eq!(state.pending_notes(), Some("notes".to_string()));
    assert!(!state.is_checking());
    assert_eq!(state.last_check(), Some(at(2)));
}

#[test]
fn unavailable_gateway_is_reported() {
    let mut state = busy_state();
    let command = complete_check(
        &mut state,
        Some(GatewayReply::Unavailable { reason: "plugin not initialised".to_string() }),
        "1.0.0",
        at(3),
    );
    assert_eq!(command, failed("Failed to get updater: plugin not initialised"));
    assert!(!state.has_update());
    assert!(!state.is_checking());
    assert_eq!(state.last_check(), Some(at(3)));
}

#[test]
fn timeout_is_reported_and_frees_the_flag() {
    let mut state = busy_state();
    let command = check_at(&mut state, CheckSignal::TimedOut, "1.0.0", at(4));
    assert_eq!(command, failed("check timed out"));
    assert!(!state.is_checking());
    assert!(!state.has_update());
    assert_eq!(state.last_check(), Some(at(4)));
    assert_eq!(get_update_status(&state), UpdateStatus::Idle);
}

#[test]
fn timeout_keeps_pending_release() {
    let mut state = busy_state();
    complete_check(
        &mut state,
        Some(GatewayReply::Update { release: release("2.0.0", None, None) }),
        "1.0.0",
        at(1),
    );
    acquire_check(&mut state, "1.0.0");
    complete_check(&mut state, None, "1.0.0", at(2));
    assert!(state.has_update());
    assert_eq!(state.pending_version(), Some("2.0.0".to_string()));
    assert_eq!(get_update_status(&state), UpdateStatus::Available);
}

#[test]
fn failure_of_names_each_kind() {
    assert_eq!(
        failure_of(&None),
        Some(UpdateError { kind: ErrorKind::CheckTimeout, message: "check timed out".to_string() })
    );
    assert_eq!(
        failure_of(&Some(GatewayReply::Failed { reason: "boom".to_string() })),
        Some(UpdateError {
            kind: ErrorKind::CheckFailed,
            message: "Update check failed: boom".to_string(),
        })
    );
    assert_eq!(
        failure_of(&Some(GatewayReply::Unavailable { reason: "gone".to_string() })),
        Some(UpdateError {
            kind: ErrorKind::GatewayUnavailable,
            message: "Failed to get updater: gone".to_string(),
        })
    );
    assert_eq!(failure_of(&Some(GatewayReply::NoUpdate)), None);
    assert_eq!(
        failure_of(&Some(GatewayReply::Update { release: release("2.0.0", None, None) })),
        None
    );
}

#[test]
fn failure_with_empty_reason_keeps_the_prefix() {
    assert_eq!(
        failure_of(&Some(GatewayReply::Failed { reason: String::new() })),
        Some(UpdateError {
            kind: ErrorKind::CheckFailed,
            message: "Update check failed: ".to_string(),
        })
    );
}

#[test]
fn check_errors_are_recoverable_and_download_errors_are_not() {
    assert!(ErrorKind::GatewayUnavailable.recoverable());
    assert!(ErrorKind::CheckTimeout.recoverable());
    assert!(ErrorKind::CheckFailed.recoverable());
    assert!(ErrorKind::NoUpdateAvailable.recoverable());
    assert!(ErrorKind::ConcurrentOperationRejected.recoverable());
    assert!(!ErrorKind::DownloadFailed.recoverable());
}

#[test]
fn check_at_dispatches_each_signal() {
    let mut state = UpdaterState::default();
    assert_eq!(
        check_at(&mut state, CheckSignal::Poll { polls: 0 }, "1.0.0", at(0)).action,
        CheckAction::Acquire
    );
    assert_eq!(
        check_at(&mut state, CheckSignal::Acquire, "1.0.0", at(0)).action,
        CheckAction::Query { timeout_secs: 30 }
    );
    assert_eq!(state.last_check(), None);
    assert_eq!(
        check_at(
            &mut state,
            CheckSignal::Replied { reply: GatewayReply::NoUpdate },
            "1.0.0",
            at(7)
        )
        .action,
        CheckAction::Return { result: not_available() }
    );
    assert_eq!(state.last_check(), Some(at(7)));
}

#[test]
fn check_for_updates_reads_the_clock_only_at_the_end() {
    let mut state = UpdaterState::default();
    check_for_updates(&mut state, CheckSignal::Poll { polls: 0 }, "1.0.0");
    assert_eq!(state.last_check(), None);
    check_for_updates(&mut state, CheckSignal::Acquire, "1.0.0");
    assert_eq!(state.last_check(), None);
    assert_eq!(get_last_check_time(&state), None);
    let command = check_for_updates(&mut state, CheckSignal::TimedOut, "1.0.0");
    assert_eq!(command, failed("check timed out"));
    assert!(!state.is_checking());
    let stamp = state.last_check().expect("a completed check records its time");
    assert!(stamp.secs > 1_600_000_000);
    assert!(stamp.nanos < 2_000_000_000);
    let text = get_last_check_time(&state).expect("the recorded time has a text");
    assert!(text.ends_with("+00:00"));
    assert_eq!(text.as_bytes()[10], b'T');
}

#[test]
fn check_for_updates_reports_no_update() {
    let mut state = UpdaterState::default();
    check_for_updates(&mut state, CheckSignal::Acquire, "1.0.0");
    let command = check_for_updates(
        &mut state,
        CheckSignal::Replied { reply: GatewayReply::NoUpdate },
        "1.0.0",
    );
    assert_eq!(
        command,
        CheckCommand {
            event: Some(UpdateEvent::NotAvailable { current_version: "1.0.0".to_string() }),
            action: CheckAction::Return { result: not_available() },
        }
    );
    assert!(state.last_check().is_some());
}

#[test]
fn cached_answer_with_empty_current_version() {
    let mut state = busy_state();
    complete_check(
        &mut state,
        Some(GatewayReply::Update { release: release("", None, None) }),
        "",
        at(1),
    );
    acquire_check(&mut state, "");
    let loser = acquire_check(&mut state, "");
    assert_eq!(
        loser.action,
        CheckAction::Return {
            result: CheckResult {
                available: true,
                info: Some(UpdateInfo {
                    version: String::new(),
                    current_version: String::new(),
                    body: None,
                    date: None,
                }),
                error: None,
            },
        }
    );
}
