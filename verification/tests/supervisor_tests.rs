use rust_nssm::supervisor::{
    backoff_delay, Phase, SupervisionState, SupervisorAction, SupervisorEvent, COOL_DOWN_SECS,
    INITIAL_DELAY, MAX_ATTEMPTS, MAX_BACKOFF_EXPONENT, POLL_INTERVAL_SECS,
};

#[test]
fn constants_have_their_values() {
    assert_eq!(MAX_ATTEMPTS, 5);
    assert_eq!(INITIAL_DELAY, 2);
    assert_eq!(MAX_BACKOFF_EXPONENT, 8);
    assert_eq!(COOL_DOWN_SECS, 5);
    assert_eq!(POLL_INTERVAL_SECS, 1);
}

#[test]
fn backoff_delay_doubles_up_to_the_cap() {
    assert_eq!(backoff_delay(0), 2);
    assert_eq!(backoff_delay(1), 4);
    assert_eq!(backoff_delay(2), 8);
    assert_eq!(backoff_delay(3), 16);
    assert_eq!(backoff_delay(4), 32);
    assert_eq!(backoff_delay(5), 64);
    assert_eq!(backoff_delay(6), 128);
    assert_eq!(backoff_delay(7), 256);
    assert_eq!(backoff_delay(8), 512);
    assert_eq!(backoff_delay(9), 512);
    assert_eq!(backoff_delay(u32::MAX), 512);
}

#[test]
fn new_supervisor_is_idle() {
    let state = SupervisionState::new();
    assert_eq!(state.phase, Phase::Idle);
    assert_eq!(state.attempt, 0);
    assert!(!state.child_running);
    assert!(!state.stop_requested);
}

#[test]
fn child_exit_leads_to_respawn_after_cool_down() {
    let mut state = SupervisionState::new();
    assert_eq!(state.step(SupervisorEvent::Start), SupervisorAction::Spawn);
    assert_eq!(state.step(SupervisorEvent::SpawnSucceeded), SupervisorAction::Poll { after_seconds: 1 });
    assert!(state.child_running);
    assert_eq!(state.step(SupervisorEvent::StillRunning), SupervisorAction::Poll { after_seconds: 1 });
    assert_eq!(state.step(SupervisorEvent::Exited), SupervisorAction::Sleep { seconds: 5 });
    assert_eq!(state.attempt, 0);
    assert_eq!(state.phase, Phase::Exited);
    assert!(!state.child_running);
    assert_eq!(state.step(SupervisorEvent::DelayElapsed), SupervisorAction::Spawn);
    assert_eq!(state.attempt, 0);
    assert_eq!(state.phase, Phase::Starting);
}

#[test]
fn five_failed_spawns_are_fatal() {
    let mut state = SupervisionState::new();
    assert_eq!(state.step(SupervisorEvent::Start), SupervisorAction::Spawn);
    let mut spawns = 1;
    for expected in [4u64, 8, 16, 32] {
        assert_eq!(
            state.step(SupervisorEvent::SpawnFailed),
            SupervisorAction::Sleep { seconds: expected }
        );
        assert_eq!(state.phase, Phase::Backoff);
        assert_eq!(state.step(SupervisorEvent::DelayElapsed), SupervisorAction::Spawn);
        spawns += 1;
    }
    assert_eq!(spawns, 5);
    assert_eq!(state.attempt, 4);
    assert_eq!(state.step(SupervisorEvent::SpawnFailed), SupervisorAction::GiveUp);
    assert_eq!(state.phase, Phase::Failed);
    assert_eq!(state.attempt, 5);
    for event in [
        SupervisorEvent::Start,
        SupervisorEvent::DelayElapsed,
        SupervisorEvent::SpawnFailed,
        SupervisorEvent::SpawnSucceeded,
        SupervisorEvent::Exited,
        SupervisorEvent::Terminated,
    ] {
        assert_eq!(state.step(event), SupervisorAction::Continue);
        assert_eq!(state.phase, Phase::Failed);
        assert_eq!(state.attempt, 5);
    }
}

#[test]
fn success_resets_the_failure_count() {
    let mut state = SupervisionState::new();
    state.step(SupervisorEvent::Start);
    state.step(SupervisorEvent::SpawnFailed);
    state.step(SupervisorEvent::DelayElapsed);
    state.step(SupervisorEvent::SpawnFailed);
    assert_eq!(state.attempt, 2);
    state.step(SupervisorEvent::DelayElapsed);
    assert_eq!(state.step(SupervisorEvent::SpawnSucceeded), SupervisorAction::Poll { after_seconds: 1 });
    assert_eq!(state.attempt, 0);
    assert_eq!(state.phase, Phase::Running);
}

#[test]
fn stop_while_running_terminates_the_child() {
    let mut state = SupervisionState::new();
    state.step(SupervisorEvent::Start);
    state.step(SupervisorEvent::SpawnSucceeded);
    assert_eq!(state.step(SupervisorEvent::StillRunning), SupervisorAction::Poll { after_seconds: 1 });
    assert_eq!(state.step(SupervisorEvent::StopRequested), SupervisorAction::Continue);
    assert!(state.stop_requested);
    assert_eq!(state.step(SupervisorEvent::StillRunning), SupervisorAction::Terminate);
    assert_eq!(state.phase, Phase::Stopping);
    assert!(state.child_running);
    assert_eq!(state.step(SupervisorEvent::Terminated), SupervisorAction::Finish);
    assert_eq!(state.phase, Phase::Idle);
    assert!(!state.child_running);
    assert!(state.stop_requested);
}

#[test]
fn no_spawn_after_stop() {
    let events = [
        SupervisorEvent::Start,
        SupervisorEvent::SpawnSucceeded,
        SupervisorEvent::SpawnFailed,
        SupervisorEvent::StillRunning,
        SupervisorEvent::Exited,
        SupervisorEvent::PollFailed,
        SupervisorEvent::DelayElapsed,
        SupervisorEvent::Terminated,
        SupervisorEvent::StopRequested,
    ];
    // every state reachable in three steps, then a stop, then every pair of events
    for a in events {
        for b in events {
            for c in events {
                let mut state = SupervisionState::new();
                state.step(a);
                state.step(b);
                state.step(c);
                state.step(SupervisorEvent::StopRequested);
                for d in events {
                    for e in events {
                        let mut run = state;
                        assert_ne!(run.step(d), SupervisorAction::Spawn);
                        assert_ne!(run.step(e), SupervisorAction::Spawn);
                        assert!(run.stop_requested);
                    }
                }
            }
        }
    }
}

#[test]
fn stop_before_start_spawns_nothing() {
    let mut state = SupervisionState::new();
    state.step(SupervisorEvent::StopRequested);
    assert_eq!(state.step(SupervisorEvent::Start), SupervisorAction::Finish);
    assert_eq!(state.phase, Phase::Idle);
}

#[test]
fn stop_during_cool_down_ends_without_respawn() {
    let mut state = SupervisionState::new();
    state.step(SupervisorEvent::Start);
    state.step(SupervisorEvent::SpawnSucceeded);
    state.step(SupervisorEvent::Exited);
    state.step(SupervisorEvent::StopRequested);
    assert_eq!(state.step(SupervisorEvent::DelayElapsed), SupervisorAction::Finish);
    assert_eq!(state.phase, Phase::Idle);
}

#[test]
fn stop_during_spawn_terminates_the_new_child() {
    let mut state = SupervisionState::new();
    state.step(SupervisorEvent::Start);
    state.step(SupervisorEvent::StopRequested);
    assert_eq!(state.step(SupervisorEvent::SpawnSucceeded), SupervisorAction::Terminate);
    assert_eq!(state.step(SupervisorEvent::Terminated), SupervisorAction::Finish);
    assert!(!state.child_running);
}

#[test]
fn stop_after_failed_spawn_ends_without_retry() {
    let mut state = SupervisionState::new();
    state.step(SupervisorEvent::Start);
    state.step(SupervisorEvent::StopRequested);
    assert_eq!(state.step(SupervisorEvent::SpawnFailed), SupervisorAction::Finish);
    assert_eq!(state.phase, Phase::Idle);
    assert_eq!(state.attempt, 1);
}

#[test]
fn failed_poll_reaps_the_child_before_respawn() {
    let mut state = SupervisionState::new();
    state.step(SupervisorEvent::Start);
    state.step(SupervisorEvent::SpawnSucceeded);
    assert_eq!(state.step(SupervisorEvent::PollFailed), SupervisorAction::Terminate);
    assert!(state.child_running);
    assert_eq!(state.step(SupervisorEvent::Terminated), SupervisorAction::Sleep { seconds: 5 });
    assert!(!state.child_running);
    assert_eq!(state.step(SupervisorEvent::DelayElapsed), SupervisorAction::Spawn);
}

#[test]
fn unexpected_events_change_nothing() {
    let mut state = SupervisionState::new();
    assert_eq!(state.step(SupervisorEvent::SpawnSucceeded), SupervisorAction::Continue);
    assert_eq!(state.step(SupervisorEvent::Exited), SupervisorAction::Continue);
    assert_eq!(state, SupervisionState::new());
    state.step(SupervisorEvent::Start);
    let starting = state;
    assert_eq!(state.step(SupervisorEvent::Start), SupervisorAction::Continue);
    assert_eq!(state.step(SupervisorEvent::DelayElapsed), SupervisorAction::Continue);
    assert_eq!(state, starting);
}

#[test]
fn at_most_one_child_in_any_run_of_four_events() {
    let events = [
        SupervisorEvent::Start,
        SupervisorEvent::SpawnSucceeded,
        SupervisorEvent::SpawnFailed,
        SupervisorEvent::StillRunning,
        SupervisorEvent::Exited,
        SupervisorEvent::PollFailed,
        SupervisorEvent::DelayElapsed,
        SupervisorEvent::Terminated,
        SupervisorEvent::StopRequested,
    ];
    for a in events {
        for b in events {
            for c in events {
                for d in events {
                    let mut state = SupervisionState::new();
                    for event in [a, b, c, d] {
                        let had_child = state.child_running;
                        let action = state.step(event);
                        if action == SupervisorAction::Spawn {
                            assert!(!had_child);
                            assert!(!state.child_running);
                        }
                        assert!(state.attempt <= MAX_ATTEMPTS);
                    }
                }
            }
        }
    }
}
