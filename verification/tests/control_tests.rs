use rust_nssm::control::{
    decide_control, status_report, BridgeAction, BridgeEvent, BridgeOutcome, BridgePhase,
    ControlBridge, ControlStatus, ServiceControl, ServiceControlHandlerResult,
    WAIT_INTERVAL_MILLIS,
};

#[test]
fn stop_and_shutdown_request_the_stop() {
    for control in [ServiceControl::Stop, ServiceControl::Shutdown] {
        let decision = decide_control(control);
        assert_eq!(decision.response, ServiceControlHandlerResult::NoError);
        assert!(decision.request_stop);
    }
}

#[test]
fn interrogate_changes_nothing() {
    let decision = decide_control(ServiceControl::Interrogate);
    assert_eq!(decision.response, ServiceControlHandlerResult::NoError);
    assert!(!decision.request_stop);
}

#[test]
fn other_controls_are_not_supported() {
    for code in [2u32, 3, 6, 0x80, u32::MAX] {
        let decision = decide_control(ServiceControl::Other(code));
        assert_eq!(decision.response, ServiceControlHandlerResult::NotImplemented);
        assert!(!decision.request_stop);
    }
}

#[test]
fn bridge_reports_running_once_then_waits_then_reports_stopped() {
    let mut bridge = ControlBridge::new();
    assert_eq!(bridge.reported, None);
    let mut actions = Vec::new();
    actions.push(bridge.step(BridgeEvent::Begin));
    actions.push(bridge.step(BridgeEvent::Registered));
    assert_eq!(bridge.reported, None);
    actions.push(bridge.step(BridgeEvent::StatusReported));
    assert_eq!(bridge.reported, Some(ControlStatus::Running));
    actions.push(bridge.step(BridgeEvent::SupervisorStarted));
    actions.push(bridge.step(BridgeEvent::Polled { stop_requested: false, supervisor_failed: false }));
    actions.push(bridge.step(BridgeEvent::Polled { stop_requested: false, supervisor_failed: false }));
    assert_eq!(bridge.reported, Some(ControlStatus::Running));
    actions.push(bridge.step(BridgeEvent::Polled { stop_requested: true, supervisor_failed: false }));
    assert_eq!(bridge.reported, Some(ControlStatus::Running));
    actions.push(bridge.step(BridgeEvent::StatusReported));
    assert_eq!(bridge.reported, Some(ControlStatus::Stopped));
    assert_eq!(
        actions,
        vec![
            BridgeAction::Register,
            BridgeAction::Report(status_report(ControlStatus::Running)),
            BridgeAction::StartSupervisor,
            BridgeAction::Wait { millis: 500 },
            BridgeAction::Wait { millis: 500 },
            BridgeAction::Wait { millis: 500 },
            BridgeAction::Report(status_report(ControlStatus::Stopped)),
            BridgeAction::Exit(BridgeOutcome::Stopped),
        ]
    );
    assert_eq!(WAIT_INTERVAL_MILLIS, 500);
    assert_eq!(bridge.phase, BridgePhase::Done);
    assert_eq!(
        bridge.step(BridgeEvent::Polled { stop_requested: true, supervisor_failed: false }),
        BridgeAction::Continue
    );
    assert_eq!(bridge.step(BridgeEvent::Registered), BridgeAction::Continue);
}

#[test]
fn failed_registration_is_fatal() {
    let mut bridge = ControlBridge::new();
    bridge.step(BridgeEvent::Begin);
    assert_eq!(
        bridge.step(BridgeEvent::RegistrationFailed),
        BridgeAction::Exit(BridgeOutcome::RegistrationFailed)
    );
    assert_eq!(bridge.phase, BridgePhase::Failed);
    assert_eq!(bridge.step(BridgeEvent::Registered), BridgeAction::Continue);
}

#[test]
fn refused_running_report_ends_the_bridge() {
    let mut bridge = ControlBridge::new();
    bridge.step(BridgeEvent::Begin);
    bridge.step(BridgeEvent::Registered);
    assert_eq!(
        bridge.step(BridgeEvent::StatusReportFailed),
        BridgeAction::Exit(BridgeOutcome::ReportFailed)
    );
    assert_eq!(bridge.phase, BridgePhase::Failed);
}

#[test]
fn refused_stopped_report_still_ends_the_bridge() {
    let mut bridge = ControlBridge::new();
    bridge.step(BridgeEvent::Begin);
    bridge.step(BridgeEvent::Registered);
    bridge.step(BridgeEvent::StatusReported);
    bridge.step(BridgeEvent::SupervisorStarted);
    bridge.step(BridgeEvent::Polled { stop_requested: true, supervisor_failed: false });
    assert_eq!(
        bridge.step(BridgeEvent::StatusReportFailed),
        BridgeAction::Exit(BridgeOutcome::Stopped)
    );
}

#[test]
fn stop_seen_early_is_not_reported_before_the_wait_loop() {
    let mut bridge = ControlBridge::new();
    assert_eq!(
        bridge.step(BridgeEvent::Polled { stop_requested: true, supervisor_failed: false }),
        BridgeAction::Continue
    );
    bridge.step(BridgeEvent::Begin);
    assert_eq!(
        bridge.step(BridgeEvent::Polled { stop_requested: true, supervisor_failed: false }),
        BridgeAction::Continue
    );
    bridge.step(BridgeEvent::Registered);
    assert_eq!(
        bridge.step(BridgeEvent::Polled { stop_requested: true, supervisor_failed: false }),
        BridgeAction::Continue
    );
    assert_eq!(bridge.phase, BridgePhase::Announcing);
}

#[test]
fn each_status_is_reported_at_most_once_in_any_run_of_five_events() {
    let events = [
        BridgeEvent::Begin,
        BridgeEvent::Registered,
        BridgeEvent::RegistrationFailed,
        BridgeEvent::StatusReported,
        BridgeEvent::StatusReportFailed,
        BridgeEvent::SupervisorStarted,
        BridgeEvent::Polled { stop_requested: false, supervisor_failed: false },
        BridgeEvent::Polled { stop_requested: true, supervisor_failed: false },
        BridgeEvent::Polled { stop_requested: false, supervisor_failed: true },
        BridgeEvent::Polled { stop_requested: true, supervisor_failed: true },
    ];
    let mut run = [0usize; 5];
    loop {
        let mut bridge = ControlBridge::new();
        let mut running = 0;
        let mut stopped = 0;
        let mut waited = false;
        for index in run {
            match bridge.step(events[index]) {
                BridgeAction::Report(report) => {
                    assert_eq!(stopped, 0);
                    assert_eq!(report, status_report(report.status));
                    match report.status {
                        ControlStatus::Running => {
                            assert!(!waited);
                            running += 1;
                        }
                        ControlStatus::Stopped => {
                            assert!(matches!(
                                events[index],
                                BridgeEvent::Polled { stop_requested: true, .. }
                            ));
                            assert_eq!(running, 1);
                            stopped += 1;
                        }
                        _ => panic!("only Running and Stopped are reported"),
                    }
                }
                BridgeAction::Wait { millis } => {
                    assert_eq!(millis, 500);
                    assert_eq!(running, 1);
                    waited = true;
                }
                BridgeAction::Exit(BridgeOutcome::SpawnFailed) => {
                    assert_eq!(
                        events[index],
                        BridgeEvent::Polled { stop_requested: false, supervisor_failed: true }
                    );
                    assert_eq!(stopped, 0);
                }
                _ => {}
            }
        }
        assert!(running <= 1);
        assert!(stopped <= 1);
        let mut position = 0;
        while position < run.len() && run[position] == events.len() - 1 {
            run[position] = 0;
            position += 1;
        }
        if position == run.len() {
            break;
        }
        run[position] += 1;
    }
}

#[test]
fn a_status_is_reported_with_what_goes_with_it() {
    let running = status_report(ControlStatus::Running);
    assert_eq!(running.status, ControlStatus::Running);
    assert!(running.accepts_stop);
    assert_eq!(running.exit_code, 0);
    assert_eq!(running.checkpoint, 0);
    assert_eq!(running.wait_hint_millis, 0);
    for status in [ControlStatus::Starting, ControlStatus::StopPending, ControlStatus::Stopped] {
        let report = status_report(status);
        assert_eq!(report.status, status);
        assert!(!report.accepts_stop);
        assert_eq!(report.exit_code, 0);
        assert_eq!(report.checkpoint, 0);
        assert_eq!(report.wait_hint_millis, 0);
    }
}

#[test]
fn a_supervisor_that_gave_up_ends_the_bridge_with_a_failure() {
    let mut bridge = ControlBridge::new();
    bridge.step(BridgeEvent::Begin);
    bridge.step(BridgeEvent::Registered);
    bridge.step(BridgeEvent::StatusReported);
    bridge.step(BridgeEvent::SupervisorStarted);
    assert_eq!(
        bridge.step(BridgeEvent::Polled { stop_requested: false, supervisor_failed: false }),
        BridgeAction::Wait { millis: 500 }
    );
    assert_eq!(
        bridge.step(BridgeEvent::Polled { stop_requested: false, supervisor_failed: true }),
        BridgeAction::Exit(BridgeOutcome::SpawnFailed)
    );
    assert_eq!(bridge.phase, BridgePhase::Failed);
    assert_eq!(
        bridge.step(BridgeEvent::Polled { stop_requested: true, supervisor_failed: true }),
        BridgeAction::Continue
    );
}

#[test]
fn a_stop_request_is_honoured_before_a_failure_is_surfaced() {
    let mut bridge = ControlBridge::new();
    bridge.step(BridgeEvent::Begin);
    bridge.step(BridgeEvent::Registered);
    bridge.step(BridgeEvent::StatusReported);
    bridge.step(BridgeEvent::SupervisorStarted);
    assert_eq!(
        bridge.step(BridgeEvent::Polled { stop_requested: true, supervisor_failed: true }),
        BridgeAction::Report(status_report(ControlStatus::Stopped))
    );
    assert_eq!(
        bridge.step(BridgeEvent::StatusReported),
        BridgeAction::Exit(BridgeOutcome::Stopped)
    );
}

#[test]
fn the_platform_holds_only_what_it_took() {
    let mut bridge = ControlBridge::new();
    bridge.step(BridgeEvent::Begin);
    bridge.step(BridgeEvent::RegistrationFailed);
    assert_eq!(bridge.phase, BridgePhase::Failed);
    assert_eq!(bridge.reported, None);

    let mut bridge = ControlBridge::new();
    bridge.step(BridgeEvent::Begin);
    bridge.step(BridgeEvent::Registered);
    bridge.step(BridgeEvent::StatusReportFailed);
    assert_eq!(bridge.phase, BridgePhase::Failed);
    assert_eq!(bridge.reported, None);

    let mut bridge = ControlBridge::new();
    bridge.step(BridgeEvent::Begin);
    bridge.step(BridgeEvent::Registered);
    bridge.step(BridgeEvent::StatusReported);
    bridge.step(BridgeEvent::SupervisorStarted);
    bridge.step(BridgeEvent::Polled { stop_requested: true, supervisor_failed: false });
    assert_eq!(bridge.reported, Some(ControlStatus::Running));
    bridge.step(BridgeEvent::StatusReportFailed);
    assert_eq!(bridge.phase, BridgePhase::Done);
    assert_eq!(bridge.reported, Some(ControlStatus::Running));
}
