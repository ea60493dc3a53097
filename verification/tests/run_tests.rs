use rust_nssm::control::{BridgePhase, ControlBridge};
use rust_nssm::run::{run_service, select_mode, ExecutionMode, DEBUG_TOGGLE};
use rust_nssm::store::{ConfigError, StoreKey, StoreRecord};
use rust_nssm::supervisor::SupervisionState;

#[test]
fn the_toggle_has_its_name() {
    assert_eq!(DEBUG_TOGGLE, "RUST_NSSM_DEBUG");
}

#[test]
fn only_the_text_one_selects_debug() {
    assert_eq!(select_mode(Some("1")), ExecutionMode::Debug);
    assert_eq!(select_mode(None), ExecutionMode::Service);
    for text in ["", "0", "true", "11", " 1", "1 ", "\u{31}\u{31}", "\u{661}"] {
        assert_eq!(select_mode(Some(text)), ExecutionMode::Service);
    }
}

#[test]
fn run_service_loads_and_hands_out_a_fresh_host_and_bridge() {
    let mut record = StoreRecord::new();
    record.set(StoreKey::TargetExecutable, "C:\\a.exe".to_string());
    record.set(StoreKey::Arguments, "[\"--x\"]".to_string());
    let plan = run_service("svcA", true, Some(&record), true, Some("1")).unwrap();
    assert_eq!(plan.mode, ExecutionMode::Debug);
    assert_eq!(plan.host.service_name(), "svcA");
    assert_eq!(plan.host.supervision(), SupervisionState::new());
    assert_eq!(plan.host.launch_plan().program, "C:\\a.exe");
    assert_eq!(plan.host.launch_plan().arguments, vec!["--x".to_string()]);
    assert_eq!(plan.bridge, ControlBridge::new());
    assert_eq!(plan.bridge.phase, BridgePhase::Created);
    let plan = run_service("svcA", true, Some(&record), true, None).unwrap();
    assert_eq!(plan.mode, ExecutionMode::Service);
}

#[test]
fn run_service_fails_as_the_load_fails() {
    assert_eq!(run_service("svcA", true, None, true, None).err(), Some(ConfigError::NotFound));
    let mut record = StoreRecord::new();
    assert_eq!(
        run_service("svcA", true, Some(&record), true, Some("1")).err(),
        Some(ConfigError::Corrupt)
    );
    record.set(StoreKey::TargetExecutable, "C:\\a.exe".to_string());
    assert_eq!(
        run_service("svcA", true, Some(&record), false, Some("1")).err(),
        Some(ConfigError::NotFound)
    );
}

#[test]
fn run_service_finds_nothing_for_an_unregistered_service() {
    let mut record = StoreRecord::new();
    record.set(StoreKey::TargetExecutable, "C:\\a.exe".to_string());
    assert_eq!(
        run_service("svcA", false, Some(&record), true, Some("1")).err(),
        Some(ConfigError::NotFound)
    );
    assert!(run_service("svcA", true, Some(&record), true, Some("1")).is_ok());
}
