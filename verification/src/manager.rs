//! The service manager: the steps by which a service is created, removed,
//! started, stopped and queried in the platform's service registry. The
//! manager decides which call comes next and what a failed call means; the
//! calls themselves are made by its driver.

use vstd::prelude::*;
use crate::config::ServiceConfig;
use crate::store::{parameters_key_path, spec_parameters_key_path, ConfigError, Saved};
use crate::wide::{decode_utf16_lossy, to_wstring, wide_len, wide_string, wide_to_string};

verus! {

/// The platform's error code for a service that exists already.
pub const ERROR_SERVICE_EXISTS: u32 = 1073;

/// Seconds between the stop and the start of a restart.
pub const RESTART_PAUSE_SECS: u64 = 2;

/// Why an operation on the registry failed.
#[derive(Clone, Copy, Debug, PartialEq, Eq, Structural)]
pub enum RegistryError {
    /// The platform's service manager could not be opened.
    ManagerUnavailable,
    /// A service of that name exists already.
    AlreadyExists,
    /// The service could not be created; the platform's error code says why.
    CreateFailed(u32),
    /// The service could not be opened.
    OpenFailed,
    /// The service could not be deleted.
    DeleteFailed,
    /// The service could not be started.
    StartFailed,
    /// The status of the service could not be queried.
    QueryFailed,
    /// The service was created, but a value that it cannot run without
    /// could not be saved to the config store.
    SaveFailed,
    /// The services could not be enumerated.
    EnumerateFailed,
}

/// The state of a service as the platform reports it.
#[derive(Clone, Copy, Debug, PartialEq, Eq, Structural)]
pub enum ServiceState {
    Stopped,
    StartPending,
    StopPending,
    Running,
    ContinuePending,
    PausePending,
    Paused,
}

impl ServiceState {
    /// The state that a code of the platform stands for.
    pub open spec fn spec_from_code(code: u32) -> Option<ServiceState> {
        if code == 1 {
            Some(ServiceState::Stopped)
        } else if code == 2 {
            Some(ServiceState::StartPending)
        } else if code == 3 {
            Some(ServiceState::StopPending)
        } else if code == 4 {
            Some(ServiceState::Running)
        } else if code == 5 {
            Some(ServiceState::ContinuePending)
        } else if code == 6 {
            Some(ServiceState::PausePending)
        } else if code == 7 {
            Some(ServiceState::Paused)
        } else {
            None
        }
    }

    /// The name under which the state is printed.
    pub open spec fn spec_name(self) -> Seq<char> {
        match self {
            ServiceState::Stopped => "STOPPED"@,
            ServiceState::StartPending => "START_PENDING"@,
            ServiceState::StopPending => "STOP_PENDING"@,
            ServiceState::Running => "RUNNING"@,
            ServiceState::ContinuePending => "CONTINUE_PENDING"@,
            ServiceState::PausePending => "PAUSE_PENDING"@,
            ServiceState::Paused => "PAUSED"@,
        }
    }

    /// The state that a code of the platform stands for, if any.
    pub fn from_code(code: u32) -> (state: Option<ServiceState>)
        ensures
            state == ServiceState::spec_from_code(code),
    {
        if code == 1 {
            Some(ServiceState::Stopped)
        } else if code == 2 {
            Some(ServiceState::StartPending)
        } else if code == 3 {
            Some(ServiceState::StopPending)
        } else if code == 4 {
            Some(ServiceState::Running)
        } else if code == 5 {
            Some(ServiceState::ContinuePending)
        } else if code == 6 {
            Some(ServiceState::PausePending)
        } else if code == 7 {
            Some(ServiceState::Paused)
        } else {
            None
        }
    }

    /// The name under which the state is printed.
    pub fn name(self) -> (name: &'static str)
        ensures
            name@ == self.spec_name(),
    {
        match self {
            ServiceState::Stopped => "STOPPED",
            ServiceState::StartPending => "START_PENDING",
            ServiceState::StopPending => "STOP_PENDING",
            ServiceState::Running => "RUNNING",
            ServiceState::ContinuePending => "CONTINUE_PENDING",
            ServiceState::PausePending => "PAUSE_PENDING",
            ServiceState::Paused => "PAUSED",
        }
    }
}

/// The name printed for a status code: the name of its state, or `UNKNOWN`
/// for a code that stands for none.
pub open spec fn spec_status_name(code: u32) -> Seq<char> {
    match ServiceState::spec_from_code(code) {
        Some(state) => state.spec_name(),
        None => "UNKNOWN"@,
    }
}

/// The name to print for a status code of the platform.
pub fn status_name(code: u32) -> (name: &'static str)
    ensures
        name@ == spec_status_name(code),
{
    match ServiceState::from_code(code) {
        Some(state) => state.name(),
        None => "UNKNOWN",
    }
}

/// The command that the platform runs to start the service: this program,
/// quoted, with the directive to run the named service.
pub open spec fn spec_launch_command(program: Seq<char>, service_name: Seq<char>) -> Seq<char> {
    "\""@ + program + "\" run --name \""@ + service_name + "\""@
}

/// Builds the launch command that a service is registered with, so that a
/// start by the platform comes back to this program's `run` command.
pub fn launch_command(program: &str, service_name: &str) -> (command: String)
    ensures
        command@ == spec_launch_command(program@, service_name@),
{
    let mut command = String::from_str("\"");
    command.append(program);
    command.append("\" run --name \"");
    command.append(service_name);
    command.append("\"");
    command
}

/// What the platform is handed when a service is created and described,
/// each text as a wide string.
#[derive(Debug, Clone)]
pub struct CreateArguments {
    pub name: Vec<u16>,
    pub display_name: Vec<u16>,
    /// The launch command.
    pub command: Vec<u16>,
    pub description: Vec<u16>,
}

/// Builds what the platform is handed to create the service of `config`,
/// with `program` as the path of this program: the service's names and
/// description as they are configured, and the launch command that brings
/// the platform back to `program` with the directive to run the service.
pub fn create_arguments(config: &ServiceConfig, program: &str) -> (arguments: CreateArguments)
    ensures
        arguments.name@ == wide_string(config@.launch.name),
        arguments.display_name@ == wide_string(config@.display_name),
        arguments.command@ == wide_string(spec_launch_command(program@, config@.launch.name)),
        arguments.description@ == wide_string(config@.description),
{
    let command = launch_command(program, config.name.as_str());
    CreateArguments {
        name: to_wstring(config.name.as_str()),
        display_name: to_wstring(config.display_name.as_str()),
        command: to_wstring(command.as_str()),
        description: to_wstring(config.description.as_str()),
    }
}

/// What the platform is handed to find an installed service, each text as
/// a wide string: the service's name, and the path of the key that holds
/// its record in the config store.
#[derive(Debug, Clone)]
pub struct ServiceTarget {
    pub name: Vec<u16>,
    pub parameters_key: Vec<u16>,
}

/// Builds what the platform is handed to find the service `service_name`.
pub fn service_target(service_name: &str) -> (target: ServiceTarget)
    ensures
        target.name@ == wide_string(service_name@),
        target.parameters_key@ == wide_string(spec_parameters_key_path(service_name@)),
{
    let key = parameters_key_path(service_name);
    ServiceTarget { name: to_wstring(service_name), parameters_key: to_wstring(key.as_str()) }
}

/// The names of the services that an enumeration gave, each read out of
/// the wide string that the platform returned for it: as many names as
/// strings, in the order of the enumeration, nothing added and nothing
/// dropped.
pub open spec fn spec_service_names(raw: Seq<Vec<u16>>) -> Seq<Seq<char>> {
    Seq::new(raw.len(), |i: int| decode_utf16_lossy(raw[i]@.take(wide_len(raw[i]@) as int)))
}

/// Reads the names of the services out of what an enumeration returned.
pub fn service_names(raw: &Vec<Vec<u16>>) -> (names: Vec<String>)
    ensures
        names.deep_view() == spec_service_names(raw@),
        names@.len() == raw@.len(),
        forall|i: int|
            0 <= i < raw@.len() ==> (#[trigger] names@[i])@ == decode_utf16_lossy(
                raw@[i]@.take(wide_len(raw@[i]@) as int),
            ),
{
    let mut names: Vec<String> = Vec::new();
    let mut i: usize = 0;
    while i < raw.len()
        invariant
            i <= raw.len(),
            names@.len() == i,
            forall|k: int|
                0 <= k < i ==> (#[trigger] names@[k])@ == decode_utf16_lossy(
                    raw@[k]@.take(wide_len(raw@[k]@) as int),
                ),
        decreases raw.len() - i,
    {
        names.push(wide_to_string(raw[i].as_slice()));
        i = i + 1;
    }
    assert(names.deep_view() =~= spec_service_names(raw@));
    names
}

/// An operation on the registry.
#[derive(Clone, Copy, Debug, PartialEq, Eq, Structural)]
pub enum RegistryOp {
    Install,
    Uninstall,
    Start,
    Stop,
    Restart,
    Status,
    List,
}

/// The rights that a service is opened with.
#[derive(Clone, Copy, Debug, PartialEq, Eq, Structural)]
pub enum Access {
    All,
    QueryStatus,
}

/// How an operation ended.
#[derive(Clone, Copy, Debug, PartialEq, Eq, Structural)]
pub enum Outcome {
    /// It was carried out.
    Done,
    /// It was carried out and found this status code.
    State(u32),
    /// It failed.
    Failed(RegistryError),
}

/// What the driver of the manager observed.
#[derive(Clone, Copy, Debug, PartialEq, Eq, Structural)]
pub enum RegistryEvent {
    /// The operation is to begin.
    Begin(RegistryOp),
    /// The requested call succeeded.
    Succeeded,
    /// The requested call failed, with this error code of the platform.
    Failed { code: u32 },
    /// The requested query succeeded, with this status code.
    State { code: u32 },
}

/// What the driver of the manager has to do next.
#[derive(Clone, Copy, Debug, PartialEq, Eq, Structural)]
pub enum RegistryRequest {
    /// Nothing new; whatever was requested before stays requested.
    Continue,
    /// Create the service with its name, display name and launch command,
    /// and keep its handle.
    CreateService,
    /// Set the description of the service that is open.
    SetDescription,
    /// Write the launch configuration to the config store, and answer
    /// `Failed` where the save is judged to have failed: where a value that
    /// the service cannot run without could not be stored.
    SaveConfig,
    /// Open the service and keep its handle.
    OpenService(Access),
    /// Send the stop control to the service that is open.
    ControlStop,
    /// Delete the service that is open.
    DeleteService,
    /// Start the service that is open.
    StartService,
    /// Query the status of the service that is open.
    QueryStatus,
    /// Close the handle of the service that is open.
    CloseService,
    /// Sleep for the given number of seconds.
    Pause { seconds: u64 },
    /// Remove the record of the service from the config store.
    DeleteConfig,
    /// Enumerate the services, and hand the names that came back to
    /// `service_names`.
    Enumerate,
    /// The operation is over.
    Finished(Outcome),
}

/// What follows the closing of the service's handle.
#[derive(Clone, Copy, Debug, PartialEq, Eq, Structural)]
pub enum AfterClose {
    Finish(Outcome),
    Pause,
    RemoveConfig,
}

/// How far the operation in progress has come: the call whose answer is
/// awaited.
#[derive(Clone, Copy, Debug, PartialEq, Eq, Structural)]
pub enum Stage {
    /// No operation is in progress.
    Idle,
    Creating,
    Describing,
    Saving,
    Opening(RegistryOp),
    /// The stop control is on its way, on behalf of the given operation.
    Controlling(RegistryOp),
    Deleting,
    Starting,
    Querying,
    Closing(AfterClose),
    Pausing,
    RemovingConfig,
    Enumerating,
}

/// The part of the manager that changes: the stage of the operation in
/// progress, and whether a service handle is open.
#[derive(Clone, Copy, Debug, PartialEq, Eq, Structural)]
pub struct Progress {
    pub stage: Stage,
    pub service_open: bool,
}

impl Progress {
    /// No operation in progress, no service open.
    pub open spec fn initial() -> Progress {
        Progress { stage: Stage::Idle, service_open: false }
    }

    /// A service handle is open exactly from the call that opened it to the
    /// call that closes it.
    pub open spec fn wf(self) -> bool {
        self.service_open <==> (self.stage matches Stage::Describing || self.stage matches Stage::Saving
            || self.stage matches Stage::Controlling(_) || self.stage matches Stage::Deleting
            || self.stage matches Stage::Starting || self.stage matches Stage::Querying
            || self.stage matches Stage::Closing(_))
    }

    /// How an operation begins.
    pub open spec fn begin(op: RegistryOp) -> (Progress, RegistryRequest) {
        match op {
            RegistryOp::Install => (
                Progress { stage: Stage::Creating, service_open: false },
                RegistryRequest::CreateService,
            ),
            RegistryOp::Status => (
                Progress { stage: Stage::Opening(op), service_open: false },
                RegistryRequest::OpenService(Access::QueryStatus),
            ),
            RegistryOp::List => (
                Progress { stage: Stage::Enumerating, service_open: false },
                RegistryRequest::Enumerate,
            ),
            _ => (
                Progress { stage: Stage::Opening(op), service_open: false },
                RegistryRequest::OpenService(Access::All),
            ),
        }
    }

    /// The step that closes the open service, with what is to follow.
    pub open spec fn close_then(after: AfterClose) -> (Progress, RegistryRequest) {
        (Progress { stage: Stage::Closing(after), service_open: true }, RegistryRequest::CloseService)
    }

    /// The end of the operation.
    pub open spec fn finish(outcome: Outcome) -> (Progress, RegistryRequest) {
        (Progress::initial(), RegistryRequest::Finished(outcome))
    }

    /// What follows once the service was opened on behalf of `op`.
    pub open spec fn opened(op: RegistryOp) -> (Progress, RegistryRequest) {
        match op {
            RegistryOp::Start => (
                Progress { stage: Stage::Starting, service_open: true },
                RegistryRequest::StartService,
            ),
            RegistryOp::Status => (
                Progress { stage: Stage::Querying, service_open: true },
                RegistryRequest::QueryStatus,
            ),
            RegistryOp::Uninstall | RegistryOp::Stop | RegistryOp::Restart => (
                Progress { stage: Stage::Controlling(op), service_open: true },
                RegistryRequest::ControlStop,
            ),
            _ => Progress::close_then(AfterClose::Finish(Outcome::Done)),
        }
    }

    /// What follows once the stop control was sent on behalf of `op`,
    /// whether the service took it or not.
    pub open spec fn controlled(op: RegistryOp) -> (Progress, RegistryRequest) {
        match op {
            RegistryOp::Uninstall => (
                Progress { stage: Stage::Deleting, service_open: true },
                RegistryRequest::DeleteService,
            ),
            RegistryOp::Restart => Progress::close_then(AfterClose::Pause),
            _ => Progress::close_then(AfterClose::Finish(Outcome::Done)),
        }
    }

    /// What follows once the service's handle was closed.
    pub open spec fn closed(after: AfterClose) -> (Progress, RegistryRequest) {
        match after {
            AfterClose::Finish(outcome) => Progress::finish(outcome),
            AfterClose::Pause => (
                Progress { stage: Stage::Pausing, service_open: false },
                RegistryRequest::Pause { seconds: RESTART_PAUSE_SECS },
            ),
            AfterClose::RemoveConfig => (
                Progress { stage: Stage::RemovingConfig, service_open: false },
                RegistryRequest::DeleteConfig,
            ),
        }
    }

    /// The error for a service that could not be created.
    pub open spec fn create_error(code: u32) -> RegistryError {
        if code == ERROR_SERVICE_EXISTS {
            RegistryError::AlreadyExists
        } else {
            RegistryError::CreateFailed(code)
        }
    }

    /// The transition function: the progress that follows `self` on
    /// `event`, and the request that the driver has to carry out.
    ///
    /// A service that cannot be created or opened ends the operation. A
    /// description that cannot be set, a stop control that is not taken and
    /// a record that cannot be removed are tolerated. A failed save, delete,
    /// start or query ends the operation with its error, after the handle
    /// is closed, and a failed enumeration ends the listing with its error. The save counts as failed where a required value could
    /// not be stored; optional values that could not be stored do not make
    /// it fail.
    pub open spec fn next(self, event: RegistryEvent) -> (Progress, RegistryRequest) {
        match (self.stage, event) {
            (Stage::Idle, RegistryEvent::Begin(op)) => Progress::begin(op),
            (_, RegistryEvent::Begin(_)) => (self, RegistryRequest::Continue),
            (Stage::Idle, _) => (self, RegistryRequest::Continue),
            (Stage::Creating, RegistryEvent::Failed { code }) => Progress::finish(
                Outcome::Failed(Progress::create_error(code)),
            ),
            (Stage::Creating, _) => (
                Progress { stage: Stage::Describing, service_open: true },
                RegistryRequest::SetDescription,
            ),
            (Stage::Describing, _) => (
                Progress { stage: Stage::Saving, service_open: true },
                RegistryRequest::SaveConfig,
            ),
            (Stage::Saving, RegistryEvent::Failed { code }) => Progress::close_then(
                AfterClose::Finish(Outcome::Failed(RegistryError::SaveFailed)),
            ),
            (Stage::Saving, _) => Progress::close_then(AfterClose::Finish(Outcome::Done)),
            (Stage::Opening(_), RegistryEvent::Failed { code }) => Progress::finish(
                Outcome::Failed(RegistryError::OpenFailed),
            ),
            (Stage::Opening(op), _) => Progress::opened(op),
            (Stage::Controlling(op), _) => Progress::controlled(op),
            (Stage::Deleting, RegistryEvent::Failed { code }) => Progress::close_then(
                AfterClose::Finish(Outcome::Failed(RegistryError::DeleteFailed)),
            ),
            (Stage::Deleting, _) => Progress::close_then(AfterClose::RemoveConfig),
            (Stage::Starting, RegistryEvent::Failed { code }) => Progress::close_then(
                AfterClose::Finish(Outcome::Failed(RegistryError::StartFailed)),
            ),
            (Stage::Starting, _) => Progress::close_then(AfterClose::Finish(Outcome::Done)),
            (Stage::Querying, RegistryEvent::State { code }) => Progress::close_then(
                AfterClose::Finish(Outcome::State(code)),
            ),
            (Stage::Querying, _) => Progress::close_then(
                AfterClose::Finish(Outcome::Failed(RegistryError::QueryFailed)),
            ),
            (Stage::Closing(after), _) => Progress::closed(after),
            (Stage::Pausing, _) => Progress::begin(RegistryOp::Start),
            (Stage::RemovingConfig, _) => Progress::finish(Outcome::Done),
            (Stage::Enumerating, RegistryEvent::Failed { code }) => Progress::finish(
                Outcome::Failed(RegistryError::EnumerateFailed),
            ),
            (Stage::Enumerating, _) => Progress::finish(Outcome::Done),
        }
    }

    /// The progress reached from `self` when `events` arrive in order.
    pub open spec fn after(self, events: Seq<RegistryEvent>) -> Progress
        decreases events.len(),
    {
        if events.len() == 0 {
            self
        } else {
            self.after(events.drop_last()).next(events.last()).0
        }
    }
}

/// The answer to the request `SaveConfig` for a save as it was judged:
/// `Failed` where the save has failed, `Succeeded` where it has not, be it
/// whole or without an optional value.
pub fn save_answer(saved: Result<Saved, ConfigError>) -> (event: RegistryEvent)
    ensures
        event == (if saved is Err {
            RegistryEvent::Failed { code: 0 }
        } else {
            RegistryEvent::Succeeded
        }),
{
    match saved {
        Ok(_) => RegistryEvent::Succeeded,
        Err(_) => RegistryEvent::Failed { code: 0 },
    }
}

/// An install whose save has failed does not end as done: the answer
/// `Failed` to `SaveConfig` has the handle closed, and then the operation
/// ends with the error `SaveFailed`, whatever the closing answered.
pub proof fn lemma_failed_save_fails_install(
    progress: Progress,
    code: u32,
    closed: RegistryEvent,
)
    requires
        progress.stage == Stage::Saving,
        !(closed is Begin),
    ensures
        progress.next(RegistryEvent::Failed { code }).1 == RegistryRequest::CloseService,
        progress.next(RegistryEvent::Failed { code }).0.next(closed).1 == RegistryRequest::Finished(
            Outcome::Failed(RegistryError::SaveFailed),
        ),
{
}

/// Every step keeps the handle discipline.
pub proof fn lemma_progress_step(progress: Progress, event: RegistryEvent)
    requires
        progress.wf(),
    ensures
        progress.next(event).0.wf(),
{
}

/// In every run from the start, a service handle is open exactly between
/// the call that opened it and the call that closes it.
pub proof fn lemma_progress_reachable(events: Seq<RegistryEvent>)
    ensures
        Progress::initial().after(events).wf(),
    decreases events.len(),
{
    if events.len() > 0 {
        lemma_progress_reachable(events.drop_last());
        lemma_progress_step(Progress::initial().after(events.drop_last()), events.last());
    }
}

/// The handle discipline, request by request: a service is created or
/// opened only while none is open; the calls on a service are requested
/// only while one is open; and an operation is over only when no service
/// is left open.
pub proof fn lemma_handle_discipline(progress: Progress, event: RegistryEvent)
    requires
        progress.wf(),
    ensures
        match progress.next(event).1 {
            RegistryRequest::CreateService | RegistryRequest::OpenService(_) => !progress.service_open,
            RegistryRequest::SetDescription
            | RegistryRequest::ControlStop
            | RegistryRequest::DeleteService
            | RegistryRequest::StartService
            | RegistryRequest::QueryStatus
            | RegistryRequest::CloseService => progress.next(event).0.service_open,
            RegistryRequest::Finished(_) => !progress.next(event).0.service_open && progress.next(
                event,
            ).0.stage == Stage::Idle,
            _ => true,
        },
{
}

/// The manager of the platform's service registry. It holds the handle of
/// the platform's service manager and the progress of the operation that is
/// under way.
pub struct ServiceManager {
    scm: isize,
    progress: Progress,
}

impl ServiceManager {
    #[verifier::type_invariant]
    spec fn valid(&self) -> bool {
        self.scm != 0 && self.progress.wf()
    }

    /// The handle of the platform's service manager.
    pub closed spec fn spec_handle(&self) -> isize {
        self.scm
    }

    /// The progress of the operation under way.
    pub closed spec fn progress(&self) -> Progress {
        self.progress
    }

    /// A manager on the handle that opening the platform's service manager
    /// gave; the null handle means that it could not be opened.
    pub fn new(scm: isize) -> (r: Result<ServiceManager, RegistryError>)
        ensures
            match r {
                Ok(manager) => scm != 0 && manager.spec_handle() == scm && manager.progress()
                    == Progress::initial(),
                Err(e) => scm == 0 && e == RegistryError::ManagerUnavailable,
            },
    {
        if scm == 0 {
            Err(RegistryError::ManagerUnavailable)
        } else {
            Ok(ServiceManager { scm, progress: Progress { stage: Stage::Idle, service_open: false } })
        }
    }

    /// The handle of the platform's service manager, which is never null.
    pub fn handle(&self) -> (scm: isize)
        ensures
            scm == self.spec_handle(),
            scm != 0,
    {
        proof {
            use_type_invariant(self);
        }
        self.scm
    }

    /// Whether a service handle is open, and so has to be closed.
    pub fn service_open(&self) -> (open: bool)
        ensures
            open == self.progress().service_open,
            self.progress().wf(),
    {
        proof {
            use_type_invariant(self);
        }
        self.progress.service_open
    }

    /// Takes the answer to the last request and returns the next request.
    pub fn resume(&mut self, event: RegistryEvent) -> (request: RegistryRequest)
        ensures
            (final(self).progress(), request) == old(self).progress().next(event),
            final(self).spec_handle() == old(self).spec_handle(),
    {
        proof {
            use_type_invariant(&*self);
            lemma_progress_step(self.progress, event);
        }
        let (progress, request) = advance(self.progress, event);
        self.progress = progress;
        request
    }

    /// Begins the installation of the service of `config`, with `program`
    /// as the path of this program: the service is created, described and
    /// its configuration saved. Beside the first request stands what the
    /// platform is handed to create and describe the service.
    pub fn install_service(&mut self, config: &ServiceConfig, program: &str) -> (r: (
        RegistryRequest,
        CreateArguments,
    ))
        ensures
            (final(self).progress(), r.0) == old(self).progress().next(
                RegistryEvent::Begin(RegistryOp::Install),
            ),
            r.1.name@ == wide_string(config@.launch.name),
            r.1.display_name@ == wide_string(config@.display_name),
            r.1.command@ == wide_string(spec_launch_command(program@, config@.launch.name)),
            r.1.description@ == wide_string(config@.description),
            final(self).spec_handle() == old(self).spec_handle(),
    {
        let request = self.resume(RegistryEvent::Begin(RegistryOp::Install));
        (request, create_arguments(config, program))
    }

    /// Begins the removal of a service: it is stopped and deleted, and then
    /// its record is removed from the config store. Beside the first request
    /// stands what the platform is handed to find the service.
    pub fn uninstall_service(&mut self, service_name: &str) -> (r: (RegistryRequest, ServiceTarget))
        ensures
            (final(self).progress(), r.0) == old(self).progress().next(
                RegistryEvent::Begin(RegistryOp::Uninstall),
            ),
            r.1.name@ == wide_string(service_name@),
            r.1.parameters_key@ == wide_string(spec_parameters_key_path(service_name@)),
            final(self).spec_handle() == old(self).spec_handle(),
    {
        let request = self.resume(RegistryEvent::Begin(RegistryOp::Uninstall));
        (request, service_target(service_name))
    }

    /// Begins the start of a service. Beside the first request stands what
    /// the platform is handed to find the service.
    pub fn start_service(&mut self, service_name: &str) -> (r: (RegistryRequest, ServiceTarget))
        ensures
            (final(self).progress(), r.0) == old(self).progress().next(
                RegistryEvent::Begin(RegistryOp::Start),
            ),
            r.1.name@ == wide_string(service_name@),
            r.1.parameters_key@ == wide_string(spec_parameters_key_path(service_name@)),
            final(self).spec_handle() == old(self).spec_handle(),
    {
        let request = self.resume(RegistryEvent::Begin(RegistryOp::Start));
        (request, service_target(service_name))
    }

    /// Begins the stop of a service. Beside the first request stands what
    /// the platform is handed to find the service.
    pub fn stop_service(&mut self, service_name: &str) -> (r: (RegistryRequest, ServiceTarget))
        ensures
            (final(self).progress(), r.0) == old(self).progress().next(
                RegistryEvent::Begin(RegistryOp::Stop),
            ),
            r.1.name@ == wide_string(service_name@),
            r.1.parameters_key@ == wide_string(spec_parameters_key_path(service_name@)),
            final(self).spec_handle() == old(self).spec_handle(),
    {
        let request = self.resume(RegistryEvent::Begin(RegistryOp::Stop));
        (request, service_target(service_name))
    }

    /// Begins the restart of a service: a stop, a pause of
    /// `RESTART_PAUSE_SECS` seconds, and a start. Beside the first request
    /// stands what the platform is handed to find the service.
    pub fn restart_service(&mut self, service_name: &str) -> (r: (RegistryRequest, ServiceTarget))
        ensures
            (final(self).progress(), r.0) == old(self).progress().next(
                RegistryEvent::Begin(RegistryOp::Restart),
            ),
            r.1.name@ == wide_string(service_name@),
            r.1.parameters_key@ == wide_string(spec_parameters_key_path(service_name@)),
            final(self).spec_handle() == old(self).spec_handle(),
    {
        let request = self.resume(RegistryEvent::Begin(RegistryOp::Restart));
        (request, service_target(service_name))
    }

    /// Begins the query of a service's status. Beside the first request
    /// stands what the platform is handed to find the service.
    pub fn get_service_status(&mut self, service_name: &str) -> (r: (RegistryRequest, ServiceTarget))
        ensures
            (final(self).progress(), r.0) == old(self).progress().next(
                RegistryEvent::Begin(RegistryOp::Status),
            ),
            r.1.name@ == wide_string(service_name@),
            r.1.parameters_key@ == wide_string(spec_parameters_key_path(service_name@)),
            final(self).spec_handle() == old(self).spec_handle(),
    {
        let request = self.resume(RegistryEvent::Begin(RegistryOp::Status));
        (request, service_target(service_name))
    }

    /// Begins the listing of the services. The names are those that
    /// `service_names` reads out of what the enumeration returned; a listing
    /// whose enumeration failed ends with the error `EnumerateFailed`.
    pub fn list_services(&mut self) -> (request: RegistryRequest)
        ensures
            (final(self).progress(), request) == old(self).progress().next(
                RegistryEvent::Begin(RegistryOp::List),
            ),
            final(self).spec_handle() == old(self).spec_handle(),
    {
        self.resume(RegistryEvent::Begin(RegistryOp::List))
    }
}

/// How an operation begins.
fn begin(op: RegistryOp) -> (r: (Progress, RegistryRequest))
    ensures
        r == Progress::begin(op),
{
    match op {
        RegistryOp::Install => (
            Progress { stage: Stage::Creating, service_open: false },
            RegistryRequest::CreateService,
        ),
        RegistryOp::Status => (
            Progress { stage: Stage::Opening(op), service_open: false },
            RegistryRequest::OpenService(Access::QueryStatus),
        ),
        RegistryOp::List => (
            Progress { stage: Stage::Enumerating, service_open: false },
            RegistryRequest::Enumerate,
        ),
        _ => (
            Progress { stage: Stage::Opening(op), service_open: false },
            RegistryRequest::OpenService(Access::All),
        ),
    }
}

/// The step that closes the open service, with what is to follow.
fn close_then(after: AfterClose) -> (r: (Progress, RegistryRequest))
    ensures
        r == Progress::close_then(after),
{
    (Progress { stage: Stage::Closing(after), service_open: true }, RegistryRequest::CloseService)
}

/// The end of the operation.
fn finish(outcome: Outcome) -> (r: (Progress, RegistryRequest))
    ensures
        r == Progress::finish(outcome),
{
    (Progress { stage: Stage::Idle, service_open: false }, RegistryRequest::Finished(outcome))
}

/// One step of the manager.
fn advance(progress: Progress, event: RegistryEvent) -> (r: (Progress, RegistryRequest))
    ensures
        r == progress.next(event),
{
    if let RegistryEvent::Begin(op) = event {
        return match progress.stage {
            Stage::Idle => begin(op),
            _ => (progress, RegistryRequest::Continue),
        };
    }
    match progress.stage {
        Stage::Idle => (progress, RegistryRequest::Continue),
        Stage::Creating => match event {
            RegistryEvent::Failed { code } => if code == ERROR_SERVICE_EXISTS {
                finish(Outcome::Failed(RegistryError::AlreadyExists))
            } else {
                finish(Outcome::Failed(RegistryError::CreateFailed(code)))
            },
            _ => (
                Progress { stage: Stage::Describing, service_open: true },
                RegistryRequest::SetDescription,
            ),
        },
        Stage::Describing => (
            Progress { stage: Stage::Saving, service_open: true },
            RegistryRequest::SaveConfig,
        ),
        Stage::Saving => match event {
            RegistryEvent::Failed { code } => close_then(
                AfterClose::Finish(Outcome::Failed(RegistryError::SaveFailed)),
            ),
            _ => close_then(AfterClose::Finish(Outcome::Done)),
        },
        Stage::Opening(op) => match event {
            RegistryEvent::Failed { code } => finish(Outcome::Failed(RegistryError::OpenFailed)),
            _ => match op {
                RegistryOp::Start => (
                    Progress { stage: Stage::Starting, service_open: true },
                    RegistryRequest::StartService,
                ),
                RegistryOp::Status => (
                    Progress { stage: Stage::Querying, service_open: true },
                    RegistryRequest::QueryStatus,
                ),
                RegistryOp::Uninstall => (
                    Progress { stage: Stage::Controlling(op), service_open: true },
                    RegistryRequest::ControlStop,
                ),
                RegistryOp::Stop => (
                    Progress { stage: Stage::Controlling(op), service_open: true },
                    RegistryRequest::ControlStop,
                ),
                RegistryOp::Restart => (
                    Progress { stage: Stage::Controlling(op), service_open: true },
                    RegistryRequest::ControlStop,
                ),
                _ => close_then(AfterClose::Finish(Outcome::Done)),
            },
        },
        Stage::Controlling(op) => match op {
            RegistryOp::Uninstall => (
                Progress { stage: Stage::Deleting, service_open: true },
                RegistryRequest::DeleteService,
            ),
            RegistryOp::Restart => close_then(AfterClose::Pause),
            _ => close_then(AfterClose::Finish(Outcome::Done)),
        },
        Stage::Deleting => match event {
            RegistryEvent::Failed { code } => close_then(
                AfterClose::Finish(Outcome::Failed(RegistryError::DeleteFailed)),
            ),
            _ => close_then(AfterClose::RemoveConfig),
        },
        Stage::Starting => match event {
            RegistryEvent::Failed { code } => close_then(
                AfterClose::Finish(Outcome::Failed(RegistryError::StartFailed)),
            ),
            _ => close_then(AfterClose::Finish(Outcome::Done)),
        },
        Stage::Querying => match event {
            RegistryEvent::State { code } => close_then(AfterClose::Finish(Outcome::State(code))),
            _ => close_then(AfterClose::Finish(Outcome::Failed(RegistryError::QueryFailed))),
        },
        Stage::Closing(after) => match after {
            AfterClose::Finish(outcome) => finish(outcome),
            AfterClose::Pause => (
                Progress { stage: Stage::Pausing, service_open: false },
                RegistryRequest::Pause { seconds: RESTART_PAUSE_SECS },
            ),
            AfterClose::RemoveConfig => (
                Progress { stage: Stage::RemovingConfig, service_open: false },
                RegistryRequest::DeleteConfig,
            ),
        },
        Stage::Pausing => begin(RegistryOp::Start),
        Stage::RemovingConfig => finish(Outcome::Done),
        Stage::Enumerating => match event {
            RegistryEvent::Failed { code } => finish(
                Outcome::Failed(RegistryError::EnumerateFailed),
            ),
            _ => finish(Outcome::Done),
        },
    }
}

} // verus!
