use rust_nssm::config::LaunchConfig;
use rust_nssm::control::{
    status_report, BridgeAction, BridgeEvent, BridgeOutcome, ControlBridge, ControlStatus,
    ServiceControl, ServiceControlHandlerResult,
};
use rust_nssm::host::{ServiceHost, StreamTarget};
use rust_nssm::supervisor::{Phase, SupervisionState, SupervisorAction, SupervisorEvent};

fn host() -> ServiceHost {
    ServiceHost::new(
        "svcA".to_string(),
        "C:\\a.exe".to_string(),
        vec!["--x".to_string(), "y z".to_string()],
        Some("C:\\work".to_string()),
        Some("C:\\out.log".to_string()),
        None,
    )
}

fn path_of(target: &StreamTarget) -> Option<String> {
    match target {
        StreamTarget::AppendTo(path) => Some(path.clone()),
        StreamTarget::Null => None,
    }
}

#[test]
fn new_host_is_idle() {
    let host = host();
    assert_eq!(host.service_name(), "svcA");
    assert_eq!(host.supervision(), SupervisionState::new());
    assert!(!host.stop_requested());
}

#[test]
fn launch_plan_follows_the_configuration() {
    let plan = host().launch_plan();
    assert_eq!(plan.program, "C:\\a.exe");
    assert_eq!(plan.arguments, vec!["--x".to_string(), "y z".to_string()]);
    assert_eq!(plan.working_directory, Some("C:\\work".to_string()));
    assert!(matches!(plan.stdin, StreamTarget::Null));
    assert_eq!(path_of(&plan.stdout), Some("C:\\out.log".to_string()));
    assert!(matches!(plan.stderr, StreamTarget::Null));
}

#[test]
fn from_config_gives_the_same_host() {
    let host = ServiceHost::from_config(LaunchConfig {
        name: "svcB".to_string(),
        executable_path: "b.exe".to_string(),
        arguments: Vec::new(),
        working_directory: None,
        stdout_path: None,
        stderr_path: Some("err.log".to_string()),
    });
    assert_eq!(host.service_name(), "svcB");
    let plan = host.launch_plan();
    assert_eq!(plan.program, "b.exe");
    assert!(plan.arguments.is_empty());
    assert_eq!(plan.working_directory, None);
    assert!(matches!(plan.stdout, StreamTarget::Null));
    assert_eq!(path_of(&plan.stderr), Some("err.log".to_string()));
}

#[test]
fn a_stream_that_cannot_be_opened_is_discarded() {
    let target = StreamTarget::AppendTo("C:\\out.log".to_string());
    assert_eq!(path_of(&target.or_null(true)), Some("C:\\out.log".to_string()));
    assert!(matches!(target.or_null(false), StreamTarget::Null));
    assert!(matches!(StreamTarget::Null.or_null(true), StreamTarget::Null));
    assert!(matches!(StreamTarget::Null.or_null(false), StreamTarget::Null));
}

#[test]
fn start_service_orders_the_first_spawn() {
    let mut host = host();
    assert_eq!(host.start_service(), SupervisorAction::Spawn);
    assert_eq!(host.supervision().phase, Phase::Starting);
    assert_eq!(host.start_service(), SupervisorAction::Continue);
}

#[test]
fn stop_service_sets_the_flag_for_good() {
    let mut host = host();
    host.stop_service();
    assert!(host.stop_requested());
    assert_eq!(host.start_service(), SupervisorAction::Finish);
    assert!(host.stop_requested());
    assert_eq!(host.supervision().phase, Phase::Idle);
}

#[test]
fn stop_request_while_running_tears_the_child_down() {
    let mut host = host();
    assert_eq!(host.start_service(), SupervisorAction::Spawn);
    assert_eq!(host.step(SupervisorEvent::SpawnSucceeded), SupervisorAction::Poll { after_seconds: 1 });
    assert_eq!(
        host.handle_service_control(ServiceControl::Stop),
        ServiceControlHandlerResult::NoError
    );
    assert!(host.stop_requested());
    assert!(host.supervision().child_running);
    assert_eq!(host.step(SupervisorEvent::StillRunning), SupervisorAction::Terminate);
    assert_eq!(host.step(SupervisorEvent::Terminated), SupervisorAction::Finish);
    assert!(!host.supervision().child_running);
}

#[test]
fn shutdown_requests_the_stop_too() {
    let mut host = host();
    assert_eq!(
        host.handle_service_control(ServiceControl::Shutdown),
        ServiceControlHandlerResult::NoError
    );
    assert!(host.stop_requested());
}

#[test]
fn interrogate_and_other_controls_leave_the_host_alone() {
    let mut host = host();
    host.start_service();
    let before = host.supervision();
    assert_eq!(
        host.handle_service_control(ServiceControl::Interrogate),
        ServiceControlHandlerResult::NoError
    );
    assert_eq!(host.supervision(), before);
    assert_eq!(
        host.handle_service_control(ServiceControl::Other(2)),
        ServiceControlHandlerResult::NotImplemented
    );
    assert_eq!(host.supervision(), before);
    assert!(!host.stop_requested());
}

#[test]
fn a_stop_request_reaches_the_child_and_the_platform() {
    let mut host = host();
    let mut bridge = ControlBridge::new();
    assert_eq!(bridge.step(BridgeEvent::Begin), BridgeAction::Register);
    assert_eq!(
        bridge.step(BridgeEvent::Registered),
        BridgeAction::Report(status_report(ControlStatus::Running))
    );
    assert_eq!(bridge.step(BridgeEvent::StatusReported), BridgeAction::StartSupervisor);
    assert_eq!(host.start_service(), SupervisorAction::Spawn);
    assert_eq!(bridge.step(BridgeEvent::SupervisorStarted), BridgeAction::Wait { millis: 500 });
    assert_eq!(
        host.step(SupervisorEvent::SpawnSucceeded),
        SupervisorAction::Poll { after_seconds: 1 }
    );
    assert_eq!(
        bridge.step(BridgeEvent::Polled {
            stop_requested: host.stop_requested(),
            supervisor_failed: host.has_failed(),
        }),
        BridgeAction::Wait { millis: 500 }
    );

    assert_eq!(
        host.handle_service_control(ServiceControl::Stop),
        ServiceControlHandlerResult::NoError
    );

    assert_eq!(host.step(SupervisorEvent::StillRunning), SupervisorAction::Terminate);
    assert_eq!(host.step(SupervisorEvent::Terminated), SupervisorAction::Finish);
    assert!(!host.supervision().child_running);
    assert_eq!(
        bridge.step(BridgeEvent::Polled {
            stop_requested: host.stop_requested(),
            supervisor_failed: host.has_failed(),
        }),
        BridgeAction::Report(status_report(ControlStatus::Stopped))
    );
    assert_eq!(
        bridge.step(BridgeEvent::StatusReported),
        BridgeAction::Exit(BridgeOutcome::Stopped)
    );
}

#[test]
fn a_host_that_gave_up_is_seen_by_the_wait_loop() {
    let mut host = host();
    let mut bridge = ControlBridge::new();
    bridge.step(BridgeEvent::Begin);
    bridge.step(BridgeEvent::Registered);
    bridge.step(BridgeEvent::StatusReported);
    bridge.step(BridgeEvent::SupervisorStarted);
    assert_eq!(host.start_service(), SupervisorAction::Spawn);
    assert!(!host.has_failed());
    for _ in 0..4 {
        assert!(matches!(
            host.step(SupervisorEvent::SpawnFailed),
            SupervisorAction::Sleep { .. }
        ));
        assert!(!host.has_failed());
        assert_eq!(
            bridge.step(BridgeEvent::Polled {
                stop_requested: host.stop_requested(),
                supervisor_failed: host.has_failed(),
            }),
            BridgeAction::Wait { millis: 500 }
        );
        assert_eq!(host.step(SupervisorEvent::DelayElapsed), SupervisorAction::Spawn);
    }
    assert_eq!(host.step(SupervisorEvent::SpawnFailed), SupervisorAction::GiveUp);
    assert!(host.has_failed());
    assert_eq!(
        bridge.step(BridgeEvent::Polled {
            stop_requested: host.stop_requested(),
            supervisor_failed: host.has_failed(),
        }),
        BridgeAction::Exit(BridgeOutcome::SpawnFailed)
    );
}
