//! The command line as a value, and the operation that each command asks
//! for.

use vstd::prelude::*;
use crate::config::{ServiceConfig, ServiceConfigView, LaunchConfigView};

verus! {

/// The parsed command line.
#[derive(Debug, Clone)]
pub struct Cli {
    pub command: Commands,
}

/// The commands of the command line.
#[derive(Debug, Clone)]
pub enum Commands {
    /// Installs a service. The positional `service_name` and
    /// `service_executable` take precedence over `name` and `executable`.
    Install {
        name: Option<String>,
        display_name: Option<String>,
        description: Option<String>,
        executable: Option<String>,
        args: Vec<String>,
        working_directory: Option<String>,
        stdout: Option<String>,
        stderr: Option<String>,
        service_name: Option<String>,
        service_executable: Option<String>,
    },
    /// Removes a service.
    Uninstall { name: String },
    /// Starts a service.
    Start { name: String },
    /// Stops a service.
    Stop { name: String },
    /// Stops a service and starts it again.
    Restart { name: String },
    /// Prints the status of a service.
    Status { name: String },
    /// Lists the services.
    List,
    /// Hosts a service; the platform reaches this through the launch
    /// command that the service was registered with.
    Run { name: String },
}

/// Why a command line asks for nothing that can be done.
#[derive(Clone, Copy, Debug, PartialEq, Eq, Structural)]
pub enum CliError {
    /// An install names no service.
    MissingName,
    /// An install names no executable.
    MissingExecutable,
    /// An install names an executable that is not on disk.
    ExecutableNotFound,
}

/// What a command line asks for, once checked and completed.
#[derive(Debug, Clone)]
pub enum Operation {
    Install(ServiceConfig),
    Uninstall(String),
    Start(String),
    Stop(String),
    Restart(String),
    Status(String),
    List,
    Run(String),
}

/// The mathematical value of a `Commands`.
pub ghost enum CommandsView {
    Install {
        name: Option<Seq<char>>,
        display_name: Option<Seq<char>>,
        description: Option<Seq<char>>,
        executable: Option<Seq<char>>,
        args: Seq<Seq<char>>,
        working_directory: Option<Seq<char>>,
        stdout: Option<Seq<char>>,
        stderr: Option<Seq<char>>,
        service_name: Option<Seq<char>>,
        service_executable: Option<Seq<char>>,
    },
    Uninstall { name: Seq<char> },
    Start { name: Seq<char> },
    Stop { name: Seq<char> },
    Restart { name: Seq<char> },
    Status { name: Seq<char> },
    List,
    Run { name: Seq<char> },
}

/// The mathematical value of an `Operation`.
pub ghost enum OperationView {
    Install(ServiceConfigView),
    Uninstall(Seq<char>),
    Start(Seq<char>),
    Stop(Seq<char>),
    Restart(Seq<char>),
    Status(Seq<char>),
    List,
    Run(Seq<char>),
}

impl View for Commands {
    type V = CommandsView;

    open spec fn view(&self) -> CommandsView {
        match self {
            Commands::Install {
                name,
                display_name,
                description,
                executable,
                args,
                working_directory,
                stdout,
                stderr,
                service_name,
                service_executable,
            } => CommandsView::Install {
                name: name.deep_view(),
                display_name: display_name.deep_view(),
                description: description.deep_view(),
                executable: executable.deep_view(),
                args: args.deep_view(),
                working_directory: working_directory.deep_view(),
                stdout: stdout.deep_view(),
                stderr: stderr.deep_view(),
                service_name: service_name.deep_view(),
                service_executable: service_executable.deep_view(),
            },
            Commands::Uninstall { name } => CommandsView::Uninstall { name: name@ },
            Commands::Start { name } => CommandsView::Start { name: name@ },
            Commands::Stop { name } => CommandsView::Stop { name: name@ },
            Commands::Restart { name } => CommandsView::Restart { name: name@ },
            Commands::Status { name } => CommandsView::Status { name: name@ },
            Commands::List => CommandsView::List,
            Commands::Run { name } => CommandsView::Run { name: name@ },
        }
    }
}

impl View for Operation {
    type V = OperationView;

    open spec fn view(&self) -> OperationView {
        match self {
            Operation::Install(config) => OperationView::Install(config@),
            Operation::Uninstall(name) => OperationView::Uninstall(name@),
            Operation::Start(name) => OperationView::Start(name@),
            Operation::Stop(name) => OperationView::Stop(name@),
            Operation::Restart(name) => OperationView::Restart(name@),
            Operation::Status(name) => OperationView::Status(name@),
            Operation::List => OperationView::List,
            Operation::Run(name) => OperationView::Run(name@),
        }
    }
}

/// The first of two optional values that is there.
pub open spec fn first_present(first: Option<Seq<char>>, second: Option<Seq<char>>) -> Option<
    Seq<char>,
> {
    if first is Some {
        first
    } else {
        second
    }
}

/// The description of a service that was installed without one.
pub open spec fn default_description(name: Seq<char>) -> Seq<char> {
    "Service managed by rust-nssm: "@ + name
}

/// The operation that a command asks for. An install takes the positional
/// name and executable before the named ones and needs one of each; its
/// display name defaults to the name and its description to
/// `default_description`. Every other command carries over as it is.
pub open spec fn spec_operation(command: CommandsView) -> Result<OperationView, CliError> {
    match command {
        CommandsView::Install {
            name,
            display_name,
            description,
            executable,
            args,
            working_directory,
            stdout,
            stderr,
            service_name,
            service_executable,
        } => match (
            first_present(service_name, name),
            first_present(service_executable, executable),
        ) {
            (None, _) => Err(CliError::MissingName),
            (Some(_), None) => Err(CliError::MissingExecutable),
            (Some(final_name), Some(final_executable)) => Ok(
                OperationView::Install(
                    ServiceConfigView {
                        display_name: match display_name {
                            Some(display_name) => display_name,
                            None => final_name,
                        },
                        description: match description {
                            Some(description) => description,
                            None => default_description(final_name),
                        },
                        launch: LaunchConfigView {
                            name: final_name,
                            executable_path: final_executable,
                            arguments: args,
                            working_directory,
                            stdout_path: stdout,
                            stderr_path: stderr,
                        },
                    },
                ),
            ),
        },
        CommandsView::Uninstall { name } => Ok(OperationView::Uninstall(name)),
        CommandsView::Start { name } => Ok(OperationView::Start(name)),
        CommandsView::Stop { name } => Ok(OperationView::Stop(name)),
        CommandsView::Restart { name } => Ok(OperationView::Restart(name)),
        CommandsView::Status { name } => Ok(OperationView::Status(name)),
        CommandsView::List => Ok(OperationView::List),
        CommandsView::Run { name } => Ok(OperationView::Run(name)),
    }
}

/// The view of the result of `Cli::operation`.
pub open spec fn operation_view(r: Result<Operation, CliError>) -> Result<OperationView, CliError> {
    match r {
        Ok(operation) => Ok(operation@),
        Err(e) => Err(e),
    }
}

/// Decides whether a service may be installed for an executable: only
/// where the executable is on disk.
pub fn check_executable(executable_on_disk: bool) -> (r: Result<(), CliError>)
    ensures
        r == (if executable_on_disk {
            Ok::<(), CliError>(())
        } else {
            Err::<(), CliError>(CliError::ExecutableNotFound)
        }),
{
    if executable_on_disk {
        Ok(())
    } else {
        Err(CliError::ExecutableNotFound)
    }
}

/// The first of two optional texts that is there.
fn first_of(first: Option<String>, second: Option<String>) -> (chosen: Option<String>)
    ensures
        chosen.deep_view() == first_present(first.deep_view(), second.deep_view()),
{
    match first {
        Some(text) => Some(text),
        None => second,
    }
}

impl Cli {
    /// Checks and completes the command line's command.
    pub fn operation(self) -> (r: Result<Operation, CliError>)
        ensures
            operation_view(r) == spec_operation(self.command@),
    {
        match self.command {
            Commands::Install {
                name,
                display_name,
                description,
                executable,
                args,
                working_directory,
                stdout,
                stderr,
                service_name,
                service_executable,
            } => {
                let final_name = match first_of(service_name, name) {
                    Some(final_name) => final_name,
                    None => {
                        return Err(CliError::MissingName);
                    },
                };
                let final_executable = match first_of(service_executable, executable) {
                    Some(final_executable) => final_executable,
                    None => {
                        return Err(CliError::MissingExecutable);
                    },
                };
                let display_name = match display_name {
                    Some(display_name) => display_name,
                    None => final_name.clone(),
                };
                let description = match description {
                    Some(description) => description,
                    None => {
                        let mut text = String::from_str("Service managed by rust-nssm: ");
                        text.append(final_name.as_str());
                        text
                    },
                };
                Ok(
                    Operation::Install(
                        ServiceConfig {
                            name: final_name,
                            display_name,
                            description,
                            executable_path: final_executable,
                            arguments: args,
                            working_directory,
                            stdout_path: stdout,
                            stderr_path: stderr,
                        },
                    ),
                )
            },
            Commands::Uninstall { name } => Ok(Operation::Uninstall(name)),
            Commands::Start { name } => Ok(Operation::Start(name)),
            Commands::Stop { name } => Ok(Operation::Stop(name)),
            Commands::Restart { name } => Ok(Operation::Restart(name)),
            Commands::Status { name } => Ok(Operation::Status(name)),
            Commands::List => Ok(Operation::List),
            Commands::Run { name } => Ok(Operation::Run(name)),
        }
    }
}

} // verus!
