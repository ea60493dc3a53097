//! The service host: one service's launch configuration together with the
//! supervision state of its single child process.

use vstd::prelude::*;
use crate::config::{clone_optional_text, clone_text, clone_texts, LaunchConfig, LaunchConfigView};
use crate::control::{
    decide_control, spec_decide_control, ServiceControl, ServiceControlHandlerResult,
};
use crate::supervisor::{Phase, SupervisionState, SupervisorAction, SupervisorEvent};

verus! {

/// Where one of the child's standard streams goes.
#[derive(Debug, Clone)]
pub enum StreamTarget {
    /// Nowhere: reads end at once, writes are discarded.
    Null,
    /// Appended to the file at this path, which is created if missing.
    AppendTo(String),
}

/// The mathematical value of a `StreamTarget`.
pub ghost enum StreamTargetView {
    Null,
    AppendTo(Seq<char>),
}

impl View for StreamTarget {
    type V = StreamTargetView;

    open spec fn view(&self) -> StreamTargetView {
        match self {
            StreamTarget::Null => StreamTargetView::Null,
            StreamTarget::AppendTo(path) => StreamTargetView::AppendTo(path@),
        }
    }
}

/// The target of an output stream for a configured path: appended to the
/// path where one is configured, discarded where none is.
pub open spec fn spec_output_target(path: Option<Seq<char>>) -> StreamTargetView {
    match path {
        Some(path) => StreamTargetView::AppendTo(path),
        None => StreamTargetView::Null,
    }
}

impl StreamTarget {
    /// The target that the child really gets: the planned one where its
    /// file could be opened, `Null` where it could not. A stream that
    /// cannot be redirected is discarded; the spawn goes on.
    pub fn or_null(&self, opened: bool) -> (target: StreamTarget)
        ensures
            target@ == (if opened {
                self@
            } else {
                StreamTargetView::Null
            }),
    {
        match self {
            StreamTarget::AppendTo(path) => if opened {
                StreamTarget::AppendTo(clone_text(path))
            } else {
                StreamTarget::Null
            },
            StreamTarget::Null => StreamTarget::Null,
        }
    }
}

/// How the child is to be spawned.
#[derive(Debug, Clone)]
pub struct LaunchPlan {
    pub program: String,
    pub arguments: Vec<String>,
    pub working_directory: Option<String>,
    pub stdin: StreamTarget,
    pub stdout: StreamTarget,
    pub stderr: StreamTarget,
}

/// The mathematical value of a `LaunchPlan`.
pub ghost struct LaunchPlanView {
    pub program: Seq<char>,
    pub arguments: Seq<Seq<char>>,
    pub working_directory: Option<Seq<char>>,
    pub stdin: StreamTargetView,
    pub stdout: StreamTargetView,
    pub stderr: StreamTargetView,
}

impl View for LaunchPlan {
    type V = LaunchPlanView;

    open spec fn view(&self) -> LaunchPlanView {
        LaunchPlanView {
            program: self.program@,
            arguments: self.arguments.deep_view(),
            working_directory: self.working_directory.deep_view(),
            stdin: self.stdin@,
            stdout: self.stdout@,
            stderr: self.stderr@,
        }
    }
}

/// The plan that a configuration asks for: the executable with its
/// arguments in its working directory, standard input closed, and each
/// output stream appended to its configured file or discarded.
pub open spec fn spec_launch_plan(config: LaunchConfigView) -> LaunchPlanView {
    LaunchPlanView {
        program: config.executable_path,
        arguments: config.arguments,
        working_directory: config.working_directory,
        stdin: StreamTargetView::Null,
        stdout: spec_output_target(config.stdout_path),
        stderr: spec_output_target(config.stderr_path),
    }
}

/// The target of an output stream for a configured path.
fn output_target(path: &Option<String>) -> (target: StreamTarget)
    ensures
        target@ == spec_output_target(path.deep_view()),
{
    match path {
        Some(path) => StreamTarget::AppendTo(clone_text(path)),
        None => StreamTarget::Null,
    }
}

/// The host of one service instance. It owns the launch configuration and
/// the supervision state, and never leaves the states that a run can reach.
pub struct ServiceHost {
    config: LaunchConfig,
    state: SupervisionState,
}

impl ServiceHost {
    #[verifier::type_invariant]
    spec fn reachable(&self) -> bool {
        self.state.wf()
    }

    /// The launch configuration that the host was made with.
    pub closed spec fn config(&self) -> LaunchConfigView {
        self.config@
    }

    /// The supervision state of the host.
    pub closed spec fn state(&self) -> SupervisionState {
        self.state
    }

    /// A host for the given service, idle and with no stop requested.
    pub fn new(
        service_name: String,
        executable_path: String,
        arguments: Vec<String>,
        working_directory: Option<String>,
        stdout_path: Option<String>,
        stderr_path: Option<String>,
    ) -> (host: ServiceHost)
        ensures
            host.config() == (LaunchConfigView {
                name: service_name@,
                executable_path: executable_path@,
                arguments: arguments.deep_view(),
                working_directory: working_directory.deep_view(),
                stdout_path: stdout_path.deep_view(),
                stderr_path: stderr_path.deep_view(),
            }),
            host.state() == SupervisionState::initial(),
    {
        ServiceHost {
            config: LaunchConfig {
                name: service_name,
                executable_path,
                arguments,
                working_directory,
                stdout_path,
                stderr_path,
            },
            state: SupervisionState::new(),
        }
    }

    /// A host for a loaded configuration.
    pub fn from_config(config: LaunchConfig) -> (host: ServiceHost)
        ensures
            host.config() == config@,
            host.state() == SupervisionState::initial(),
    {
        ServiceHost { config, state: SupervisionState::new() }
    }

    /// The name of the service.
    pub fn service_name(&self) -> (name: &String)
        ensures
            name@ == self.config().name,
    {
        &self.config.name
    }

    /// The supervision state, which is always one that a run can reach.
    pub fn supervision(&self) -> (state: SupervisionState)
        ensures
            state == self.state(),
            state.wf(),
    {
        proof {
            use_type_invariant(self);
        }
        self.state
    }

    /// Whether a stop has been requested.
    pub fn stop_requested(&self) -> (stop: bool)
        ensures
            stop == self.state().stop_requested,
    {
        self.state.stop_requested
    }

    /// Whether the supervisor has given up on spawning the child, which is
    /// what the wait loop of the control bridge is told with every poll.
    pub fn has_failed(&self) -> (failed: bool)
        ensures
            failed == (self.state().phase == Phase::Failed),
    {
        self.state.phase == Phase::Failed
    }

    /// How the child is to be spawned, for every spawn of this host.
    pub fn launch_plan(&self) -> (plan: LaunchPlan)
        ensures
            plan@ == spec_launch_plan(self.config()),
    {
        LaunchPlan {
            program: clone_text(&self.config.executable_path),
            arguments: clone_texts(&self.config.arguments),
            working_directory: clone_optional_text(&self.config.working_directory),
            stdin: StreamTarget::Null,
            stdout: output_target(&self.config.stdout_path),
            stderr: output_target(&self.config.stderr_path),
        }
    }

    /// Takes one event of the supervision and returns the action to
    /// perform.
    pub fn step(&mut self, event: SupervisorEvent) -> (action: SupervisorAction)
        ensures
            (final(self).state(), action) == old(self).state().next(event),
            final(self).config() == old(self).config(),
            final(self).state().wf(),
    {
        proof {
            use_type_invariant(&*self);
            crate::supervisor::lemma_step_preserves_wf(self.state, event);
        }
        let mut state = self.state;
        let action = state.step(event);
        self.state = state;
        action
    }

    /// Begins the supervision: orders the first spawn, unless a stop was
    /// requested before.
    pub fn start_service(&mut self) -> (action: SupervisorAction)
        ensures
            (final(self).state(), action) == old(self).state().next(SupervisorEvent::Start),
            final(self).config() == old(self).config(),
    {
        self.step(SupervisorEvent::Start)
    }

    /// Requests the stop of the service. The flag is set for good; the
    /// child is torn down by the steps that follow.
    pub fn stop_service(&mut self)
        ensures
            final(self).state() == old(self).state().next(SupervisorEvent::StopRequested).0,
            final(self).state().stop_requested,
            final(self).config() == old(self).config(),
    {
        let _ = self.step(SupervisorEvent::StopRequested);
    }

    /// Answers a control request of the platform at once: `Stop` and
    /// `Shutdown` request the stop, `Interrogate` changes nothing, and
    /// every other request is not supported and changes nothing.
    pub fn handle_service_control(&mut self, control: ServiceControl) -> (response:
        ServiceControlHandlerResult)
        ensures
            response == spec_decide_control(control).response,
            final(self).state() == (if spec_decide_control(control).request_stop {
                old(self).state().next(SupervisorEvent::StopRequested).0
            } else {
                old(self).state()
            }),
            final(self).config() == old(self).config(),
    {
        let decision = decide_control(control);
        if decision.request_stop {
            self.stop_service();
        }
        decision.response
    }
}

} // verus!
