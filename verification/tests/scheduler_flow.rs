use updater::{
    acquire_check, complete_check, start_auto_updater, GatewayReply, Scheduler, SchedulerAction,
    Timestamp, UpdaterState, AUTO_CHECK_INTERVAL_SECS, INITIAL_CHECK_DELAY_SECS,
};

#[test]
fn schedule_constants() {
    assert_eq!(INITIAL_CHECK_DELAY_SECS, 30);
    assert_eq!(AUTO_CHECK_INTERVAL_SECS, 4 * 60 * 60);
}

#[test]
fn schedule_starts_with_the_startup_pause() {
    let (state, mut schedule) = start_auto_updater();
    assert_eq!(schedule, Scheduler::Starting);
    assert_eq!(schedule.advance(&state), SchedulerAction::Sleep { secs: 30 });
    assert_eq!(schedule, Scheduler::Due);
}

#[test]
fn schedule_alternates_checks_and_pauses() {
    let (state, mut schedule) = start_auto_updater();
    assert_eq!(schedule.advance(&state), SchedulerAction::Sleep { secs: 30 });
    for _ in 0..5 {
        assert_eq!(schedule.advance(&state), SchedulerAction::RunCheck);
        assert_eq!(schedule, Scheduler::Resting);
        assert_eq!(schedule.advance(&state), SchedulerAction::Sleep { secs: 14_400 });
        assert_eq!(schedule, Scheduler::Due);
    }
}

#[test]
fn schedule_skips_a_round_while_a_check_is_in_flight() {
    let (mut state, mut schedule) = start_auto_updater();
    schedule.advance(&state);
    acquire_check(&mut state, "1.0.0");
    assert_eq!(schedule.advance(&state), SchedulerAction::Sleep { secs: 14_400 });
    assert_eq!(schedule, Scheduler::Due);
    assert_eq!(schedule.advance(&state), SchedulerAction::Sleep { secs: 14_400 });
    complete_check(
        &mut state,
        Some(GatewayReply::NoUpdate),
        "1.0.0",
        Timestamp { secs: 1, nanos: 0 },
    );
    assert_eq!(schedule.advance(&state), SchedulerAction::RunCheck);
}

#[test]
fn schedule_pauses_after_a_check_even_if_one_is_in_flight() {
    let mut state = UpdaterState::default();
    let mut schedule = Scheduler::Resting;
    acquire_check(&mut state, "1.0.0");
    assert_eq!(schedule.advance(&state), SchedulerAction::Sleep { secs: 14_400 });
    assert_eq!(schedule, Scheduler::Due);
}

#[test]
fn schedule_never_asks_for_two_checks_in_a_row() {
    let (mut state, mut schedule) = start_auto_updater();
    let mut last_was_check = false;
    for round in 0..40 {
        if round % 7 == 3 {
            acquire_check(&mut state, "1.0.0");
        }
        if round % 7 == 5 {
            complete_check(&mut state, None, "1.0.0", Timestamp { secs: 1, nanos: 0 });
        }
        let action = schedule.advance(&state);
        if action == SchedulerAction::RunCheck {
            assert!(!last_was_check);
            assert!(!state.is_checking());
            last_was_check = true;
        } else {
            last_was_check = false;
        }
    }
}
