use rust_nssm::config::{
    clone_optional_text, clone_text, clone_texts, same_texts, ServiceConfig,
};
use std::path::PathBuf;

fn sample() -> ServiceConfig {
    ServiceConfig {
        name: "test_service".to_string(),
        display_name: "Test Service".to_string(),
        description: "A test service".to_string(),
        executable_path: "C:\\test\\test.exe".to_string(),
        arguments: vec!["--test".to_string(), "--verbose".to_string()],
        working_directory: Some("C:\\test".to_string()),
        stdout_path: Some("C:\\test\\stdout.log".to_string()),
        stderr_path: Some("C:\\test\\stderr.log".to_string()),
    }
}

#[test]
fn test_service_config_creation() {
    let config = sample();

    assert_eq!(config.name, "test_service");
    assert_eq!(config.display_name, "Test Service");
    assert_eq!(
        PathBuf::from(config.executable_path.clone()),
        PathBuf::from("C:\\test\\test.exe")
    );
    assert_eq!(config.arguments.len(), 2);
    assert!(config.working_directory.is_some());
    assert!(config.stdout_path.is_some());
    assert!(config.stderr_path.is_some());
}

#[test]
fn launch_config_keeps_the_persisted_fields() {
    let config = sample();
    let launch = config.launch_config();
    assert_eq!(launch.name, "test_service");
    assert_eq!(launch.executable_path, "C:\\test\\test.exe");
    assert_eq!(launch.arguments, vec!["--test".to_string(), "--verbose".to_string()]);
    assert_eq!(launch.working_directory, Some("C:\\test".to_string()));
    assert_eq!(launch.stdout_path, Some("C:\\test\\stdout.log".to_string()));
    assert_eq!(launch.stderr_path, Some("C:\\test\\stderr.log".to_string()));
}

#[test]
fn launch_config_keeps_absent_fields_absent() {
    let mut config = sample();
    config.working_directory = None;
    config.stdout_path = Some(String::new());
    config.stderr_path = None;
    config.arguments = Vec::new();
    let launch = config.launch_config();
    assert_eq!(launch.working_directory, None);
    assert_eq!(launch.stdout_path, Some(String::new()));
    assert_eq!(launch.stderr_path, None);
    assert!(launch.arguments.is_empty());
}

#[test]
fn copies_are_equal_to_what_was_copied() {
    assert_eq!(clone_text(&"abc".to_string()), "abc");
    assert_eq!(clone_optional_text(&None), None);
    assert_eq!(clone_optional_text(&Some("x".to_string())), Some("x".to_string()));
    let texts = vec!["a".to_string(), String::new(), "c d".to_string()];
    assert_eq!(clone_texts(&texts), texts);
    assert_eq!(clone_texts(&Vec::new()), Vec::<String>::new());
}

#[test]
fn same_texts_compares_element_by_element() {
    let list = |items: &[&str]| items.iter().map(|i| i.to_string()).collect::<Vec<String>>();
    assert!(same_texts(&list(&[]), &list(&[])));
    assert!(same_texts(&list(&["a", "b"]), &list(&["a", "b"])));
    assert!(!same_texts(&list(&["a", "b"]), &list(&["a"])));
    assert!(!same_texts(&list(&["a"]), &list(&["a", "b"])));
    assert!(!same_texts(&list(&["a", "b"]), &list(&["a", "c"])));
    assert!(!same_texts(&list(&["a", "b"]), &list(&["b", "a"])));
    assert!(!same_texts(&list(&[""]), &list(&[])));
}
