use rust_nssm::cli::{check_executable, Cli, CliError, Commands, Operation};

fn install(
    name: Option<&str>,
    executable: Option<&str>,
    service_name: Option<&str>,
    service_executable: Option<&str>,
) -> Commands {
    Commands::Install {
        name: name.map(String::from),
        display_name: None,
        description: None,
        executable: executable.map(String::from),
        args: vec!["--a".to_string()],
        working_directory: Some("C:\\w".to_string()),
        stdout: Some("out".to_string()),
        stderr: None,
        service_name: service_name.map(String::from),
        service_executable: service_executable.map(String::from),
    }
}

#[test]
fn install_takes_the_named_values() {
    let cli = Cli { command: install(Some("svcA"), Some("C:\\a.exe"), None, None) };
    match cli.operation() {
        Ok(Operation::Install(config)) => {
            assert_eq!(config.name, "svcA");
            assert_eq!(config.executable_path, "C:\\a.exe");
            assert_eq!(config.display_name, "svcA");
            assert_eq!(config.description, "Service managed by rust-nssm: svcA");
            assert_eq!(config.arguments, vec!["--a".to_string()]);
            assert_eq!(config.working_directory, Some("C:\\w".to_string()));
            assert_eq!(config.stdout_path, Some("out".to_string()));
            assert_eq!(config.stderr_path, None);
        }
        _ => panic!("an install was asked for"),
    }
}

#[test]
fn positional_values_override_the_named_ones() {
    let cli = Cli { command: install(Some("named"), Some("named.exe"), Some("pos"), Some("pos.exe")) };
    match cli.operation() {
        Ok(Operation::Install(config)) => {
            assert_eq!(config.name, "pos");
            assert_eq!(config.executable_path, "pos.exe");
            assert_eq!(config.display_name, "pos");
            assert_eq!(config.description, "Service managed by rust-nssm: pos");
        }
        _ => panic!("an install was asked for"),
    }
    let cli = Cli { command: install(Some("named"), None, None, Some("pos.exe")) };
    match cli.operation() {
        Ok(Operation::Install(config)) => {
            assert_eq!(config.name, "named");
            assert_eq!(config.executable_path, "pos.exe");
        }
        _ => panic!("an install was asked for"),
    }
}

#[test]
fn given_display_name_and_description_are_kept() {
    let cli = Cli {
        command: Commands::Install {
            name: Some("svcA".to_string()),
            display_name: Some("Service A".to_string()),
            description: Some(String::new()),
            executable: Some("a.exe".to_string()),
            args: Vec::new(),
            working_directory: None,
            stdout: None,
            stderr: None,
            service_name: None,
            service_executable: None,
        },
    };
    match cli.operation() {
        Ok(Operation::Install(config)) => {
            assert_eq!(config.display_name, "Service A");
            assert_eq!(config.description, "");
            assert!(config.arguments.is_empty());
        }
        _ => panic!("an install was asked for"),
    }
}

#[test]
fn install_without_a_name_is_refused() {
    let cli = Cli { command: install(None, Some("a.exe"), None, None) };
    assert_eq!(cli.operation().err(), Some(CliError::MissingName));
    let cli = Cli { command: install(None, None, None, None) };
    assert_eq!(cli.operation().err(), Some(CliError::MissingName));
}

#[test]
fn install_without_an_executable_is_refused() {
    let cli = Cli { command: install(Some("svcA"), None, None, None) };
    assert_eq!(cli.operation().err(), Some(CliError::MissingExecutable));
    let cli = Cli { command: install(None, None, Some("svcA"), None) };
    assert_eq!(cli.operation().err(), Some(CliError::MissingExecutable));
}

#[test]
fn the_other_commands_carry_over() {
    let name = || "svcA".to_string();
    assert!(matches!(
        Cli { command: Commands::Uninstall { name: name() } }.operation(),
        Ok(Operation::Uninstall(n)) if n == "svcA"
    ));
    assert!(matches!(
        Cli { command: Commands::Start { name: name() } }.operation(),
        Ok(Operation::Start(n)) if n == "svcA"
    ));
    assert!(matches!(
        Cli { command: Commands::Stop { name: name() } }.operation(),
        Ok(Operation::Stop(n)) if n == "svcA"
    ));
    assert!(matches!(
        Cli { command: Commands::Restart { name: name() } }.operation(),
        Ok(Operation::Restart(n)) if n == "svcA"
    ));
    assert!(matches!(
        Cli { command: Commands::Status { name: name() } }.operation(),
        Ok(Operation::Status(n)) if n == "svcA"
    ));
    assert!(matches!(Cli { command: Commands::List }.operation(), Ok(Operation::List)));
    assert!(matches!(
        Cli { command: Commands::Run { name: name() } }.operation(),
        Ok(Operation::Run(n)) if n == "svcA"
    ));
}

#[test]
fn install_needs_the_executable_on_disk() {
    assert_eq!(check_executable(true), Ok(()));
    assert_eq!(check_executable(false), Err(CliError::ExecutableNotFound));
}
