//! The control bridge: it turns the platform's control requests into the
//! stop signal, and walks the service through registration, the report of
//! `Running`, the wait for the stop signal and the report of `Stopped`.

use vstd::prelude::*;

verus! {

/// Milliseconds between two looks at the stop flag in the wait loop.
pub const WAIT_INTERVAL_MILLIS: u64 = 500;

/// A control request as the platform delivers it.
#[derive(Clone, Copy, Debug, PartialEq, Eq, Structural)]
pub enum ServiceControl {
    Stop,
    Shutdown,
    Interrogate,
    /// Any other request, with the platform's code for it.
    Other(u32),
}

/// The answer that the platform gets to a control request.
#[derive(Clone, Copy, Debug, PartialEq, Eq, Structural)]
pub enum ServiceControlHandlerResult {
    /// The request was accepted.
    NoError,
    /// The service does not support the request.
    NotImplemented,
}

/// The lifecycle phase that the platform sees.
#[derive(Clone, Copy, Debug, PartialEq, Eq, Structural)]
pub enum ControlStatus {
    Starting,
    Running,
    StopPending,
    Stopped,
}

impl ControlStatus {
    /// The position of the status in the lifecycle; statuses only ever move
    /// to a higher rank.
    pub open spec fn rank(self) -> nat {
        match self {
            ControlStatus::Starting => 0,
            ControlStatus::Running => 1,
            ControlStatus::StopPending => 2,
            ControlStatus::Stopped => 3,
        }
    }
}

/// What the platform is told with a status: which controls the service
/// accepts from now on, the exit code, and the progress hints.
#[derive(Clone, Copy, Debug, PartialEq, Eq, Structural)]
pub struct StatusReport {
    pub status: ControlStatus,
    /// Whether the stop control is accepted; no other control ever is.
    pub accepts_stop: bool,
    pub exit_code: u32,
    pub checkpoint: u32,
    pub wait_hint_millis: u64,
}

impl ControlStatus {
    /// What is reported with the status: the stop control is accepted
    /// while the service is running and at no other time; the exit code is
    /// 0, and there is no checkpoint and no wait hint.
    pub open spec fn report(self) -> StatusReport {
        StatusReport {
            status: self,
            accepts_stop: self == ControlStatus::Running,
            exit_code: 0,
            checkpoint: 0,
            wait_hint_millis: 0,
        }
    }
}

/// Builds what the platform is told with a status.
pub fn status_report(status: ControlStatus) -> (report: StatusReport)
    ensures
        report == status.report(),
{
    StatusReport {
        status,
        accepts_stop: status == ControlStatus::Running,
        exit_code: 0,
        checkpoint: 0,
        wait_hint_millis: 0,
    }
}

/// What a control request amounts to: the answer for the platform, and
/// whether the stop flag is to be set.
#[derive(Clone, Copy, Debug, PartialEq, Eq, Structural)]
pub struct ControlDecision {
    pub response: ServiceControlHandlerResult,
    pub request_stop: bool,
}

/// The rule for control requests: `Stop` and `Shutdown` set the stop flag
/// and are accepted, `Interrogate` is accepted and changes nothing, every
/// other request is not supported.
pub open spec fn spec_decide_control(control: ServiceControl) -> ControlDecision {
    match control {
        ServiceControl::Stop | ServiceControl::Shutdown => ControlDecision {
            response: ServiceControlHandlerResult::NoError,
            request_stop: true,
        },
        ServiceControl::Interrogate => ControlDecision {
            response: ServiceControlHandlerResult::NoError,
            request_stop: false,
        },
        ServiceControl::Other(_) => ControlDecision {
            response: ServiceControlHandlerResult::NotImplemented,
            request_stop: false,
        },
    }
}

/// Decides on a control request at once, without waiting for the child:
/// the teardown that a stop sets off runs elsewhere.
pub fn decide_control(control: ServiceControl) -> (decision: ControlDecision)
    ensures
        decision == spec_decide_control(control),
{
    match control {
        ServiceControl::Stop => ControlDecision {
            response: ServiceControlHandlerResult::NoError,
            request_stop: true,
        },
        ServiceControl::Shutdown => ControlDecision {
            response: ServiceControlHandlerResult::NoError,
            request_stop: true,
        },
        ServiceControl::Interrogate => ControlDecision {
            response: ServiceControlHandlerResult::NoError,
            request_stop: false,
        },
        ServiceControl::Other(_) => ControlDecision {
            response: ServiceControlHandlerResult::NotImplemented,
            request_stop: false,
        },
    }
}

/// How far the bridge has come.
#[derive(Clone, Copy, Debug, PartialEq, Eq, Structural)]
pub enum BridgePhase {
    /// Nothing has happened yet.
    Created,
    /// The control handler is being registered.
    Registering,
    /// `Running` is being reported.
    Announcing,
    /// The supervisor is being started.
    Launching,
    /// The wait loop is polling the stop flag.
    Waiting,
    /// The stop flag was seen set; `Stopped` is being reported.
    Closing,
    /// The bridge has ended after a stop.
    Done,
    /// The bridge has ended without a stop: the platform refused it, or the
    /// supervisor gave up.
    Failed,
}

/// What the driver of the bridge observed.
#[derive(Clone, Copy, Debug, PartialEq, Eq, Structural)]
pub enum BridgeEvent {
    /// The bridge is to begin.
    Begin,
    /// The control handler is registered.
    Registered,
    /// The platform refused the registration.
    RegistrationFailed,
    /// The platform took the status report.
    StatusReported,
    /// The platform refused the status report.
    StatusReportFailed,
    /// The supervisor is up and runs on its own.
    SupervisorStarted,
    /// The wait is over, and this is what was found after it: whether the
    /// stop flag is set, and whether the supervisor has given up on
    /// spawning the child.
    Polled { stop_requested: bool, supervisor_failed: bool },
}

/// How the bridge ended.
#[derive(Clone, Copy, Debug, PartialEq, Eq, Structural)]
pub enum BridgeOutcome {
    /// The stop flag was seen and `Stopped` was reported.
    Stopped,
    /// The control handler could not be registered.
    RegistrationFailed,
    /// `Running` could not be reported.
    ReportFailed,
    /// The supervisor gave up on spawning the child, and no stop was
    /// requested.
    SpawnFailed,
}

/// What the driver of the bridge has to do next.
#[derive(Clone, Copy, Debug, PartialEq, Eq, Structural)]
pub enum BridgeAction {
    /// Nothing new; whatever was ordered before stays ordered.
    Continue,
    /// Register the control handler and report `Registered` or
    /// `RegistrationFailed`.
    Register,
    /// Report the status to the platform, with what goes with it, and
    /// report back `StatusReported` or `StatusReportFailed`.
    Report(StatusReport),
    /// Start the supervisor on a path of its own and report
    /// `SupervisorStarted`.
    StartSupervisor,
    /// Sleep for the given milliseconds, read the stop flag, look whether
    /// the supervisor has given up, and report `Polled`.
    Wait { millis: u64 },
    /// Leave the bridge.
    Exit(BridgeOutcome),
}

/// The control bridge of one service instance.
#[derive(Clone, Copy, Debug, PartialEq, Eq, Structural)]
pub struct ControlBridge {
    pub phase: BridgePhase,
    /// The last status that the platform took from the bridge, which is the
    /// status that the platform holds by the bridge's reports; `None` as
    /// long as it took none.
    pub reported: Option<ControlStatus>,
}

impl BridgePhase {
    /// The position of the phase; a bridge only ever moves to a higher or
    /// equal rank.
    pub open spec fn rank(self) -> nat {
        match self {
            BridgePhase::Created => 0,
            BridgePhase::Registering => 1,
            BridgePhase::Announcing => 2,
            BridgePhase::Launching => 3,
            BridgePhase::Waiting => 4,
            BridgePhase::Closing => 5,
            BridgePhase::Done => 6,
            BridgePhase::Failed => 7,
        }
    }

    /// Whether `Running` has been ordered to be reported on the way to this
    /// phase.
    pub open spec fn past_announcement(self) -> bool {
        2 <= self.rank() <= 6
    }
}

impl ControlBridge {
    /// The bridge before it has begun.
    pub open spec fn initial() -> ControlBridge {
        ControlBridge { phase: BridgePhase::Created, reported: None }
    }

    /// The position of the last status that the platform took; 0 where it
    /// took none.
    pub open spec fn reported_rank(self) -> nat {
        match self.reported {
            Some(status) => status.rank(),
            None => 0,
        }
    }

    /// What holds of every bridge that a run from the start can reach: the
    /// platform has taken nothing before `Running` was reported, it holds
    /// `Running` while the supervisor is started and the wait loop runs,
    /// and it holds `Stopped` only where the bridge has ended after a stop.
    pub open spec fn wf(self) -> bool {
        match self.phase {
            BridgePhase::Created | BridgePhase::Registering | BridgePhase::Announcing =>
                self.reported is None,
            BridgePhase::Launching | BridgePhase::Waiting | BridgePhase::Closing => self.reported
                == Some(ControlStatus::Running),
            BridgePhase::Done => self.reported == Some(ControlStatus::Running) || self.reported
                == Some(ControlStatus::Stopped),
            BridgePhase::Failed => self.reported is None || self.reported == Some(
                ControlStatus::Running,
            ),
        }
    }

    /// The transition function: the bridge that follows `self` on `event`,
    /// and the action that the driver has to perform.
    pub open spec fn next(self, event: BridgeEvent) -> (ControlBridge, BridgeAction) {
        match (self.phase, event) {
            (BridgePhase::Created, BridgeEvent::Begin) => (
                ControlBridge { phase: BridgePhase::Registering, ..self },
                BridgeAction::Register,
            ),
            (BridgePhase::Registering, BridgeEvent::Registered) => (
                ControlBridge { phase: BridgePhase::Announcing, ..self },
                BridgeAction::Report(ControlStatus::Running.report()),
            ),
            (BridgePhase::Registering, BridgeEvent::RegistrationFailed) => (
                ControlBridge { phase: BridgePhase::Failed, ..self },
                BridgeAction::Exit(BridgeOutcome::RegistrationFailed),
            ),
            (BridgePhase::Announcing, BridgeEvent::StatusReported) => (
                ControlBridge {
                    phase: BridgePhase::Launching,
                    reported: Some(ControlStatus::Running),
                },
                BridgeAction::StartSupervisor,
            ),
            (BridgePhase::Announcing, BridgeEvent::StatusReportFailed) => (
                ControlBridge { phase: BridgePhase::Failed, ..self },
                BridgeAction::Exit(BridgeOutcome::ReportFailed),
            ),
            (BridgePhase::Launching, BridgeEvent::SupervisorStarted) => (
                ControlBridge { phase: BridgePhase::Waiting, ..self },
                BridgeAction::Wait { millis: WAIT_INTERVAL_MILLIS },
            ),
            (
                BridgePhase::Waiting,
                BridgeEvent::Polled { stop_requested, supervisor_failed },
            ) => if stop_requested {
                (
                    ControlBridge { phase: BridgePhase::Closing, ..self },
                    BridgeAction::Report(ControlStatus::Stopped.report()),
                )
            } else if supervisor_failed {
                (
                    ControlBridge { phase: BridgePhase::Failed, ..self },
                    BridgeAction::Exit(BridgeOutcome::SpawnFailed),
                )
            } else {
                (self, BridgeAction::Wait { millis: WAIT_INTERVAL_MILLIS })
            },
            (BridgePhase::Closing, BridgeEvent::StatusReported) => (
                ControlBridge { phase: BridgePhase::Done, reported: Some(ControlStatus::Stopped) },
                BridgeAction::Exit(BridgeOutcome::Stopped),
            ),
            (BridgePhase::Closing, BridgeEvent::StatusReportFailed) => (
                ControlBridge { phase: BridgePhase::Done, ..self },
                BridgeAction::Exit(BridgeOutcome::Stopped),
            ),
            _ => (self, BridgeAction::Continue),
        }
    }

    /// The bridge reached from `self` when `events` arrive in order.
    pub open spec fn after(self, events: Seq<BridgeEvent>) -> ControlBridge
        decreases events.len(),
    {
        if events.len() == 0 {
            self
        } else {
            self.after(events.drop_last()).next(events.last()).0
        }
    }

    /// The action ordered in answer to the event at position `i` of `events`.
    pub open spec fn action_at(self, events: Seq<BridgeEvent>, i: int) -> BridgeAction
        recommends
            0 <= i < events.len(),
    {
        self.after(events.take(i)).next(events[i]).1
    }

    /// A bridge that has not begun.
    pub fn new() -> (bridge: ControlBridge)
        ensures
            bridge == ControlBridge::initial(),
    {
        ControlBridge { phase: BridgePhase::Created, reported: None }
    }

    /// Takes one event and returns the action to perform, moving to the next
    /// phase exactly as `next` says.
    pub fn step(&mut self, event: BridgeEvent) -> (action: BridgeAction)
        ensures
            (*final(self), action) == old(self).next(event),
    {
        match (self.phase, event) {
            (BridgePhase::Created, BridgeEvent::Begin) => {
                self.phase = BridgePhase::Registering;
                BridgeAction::Register
            },
            (BridgePhase::Registering, BridgeEvent::Registered) => {
                self.phase = BridgePhase::Announcing;
                BridgeAction::Report(status_report(ControlStatus::Running))
            },
            (BridgePhase::Registering, BridgeEvent::RegistrationFailed) => {
                self.phase = BridgePhase::Failed;
                BridgeAction::Exit(BridgeOutcome::RegistrationFailed)
            },
            (BridgePhase::Announcing, BridgeEvent::StatusReported) => {
                self.phase = BridgePhase::Launching;
                self.reported = Some(ControlStatus::Running);
                BridgeAction::StartSupervisor
            },
            (BridgePhase::Announcing, BridgeEvent::StatusReportFailed) => {
                self.phase = BridgePhase::Failed;
                BridgeAction::Exit(BridgeOutcome::ReportFailed)
            },
            (BridgePhase::Launching, BridgeEvent::SupervisorStarted) => {
                self.phase = BridgePhase::Waiting;
                BridgeAction::Wait { millis: WAIT_INTERVAL_MILLIS }
            },
            (BridgePhase::Waiting, BridgeEvent::Polled { stop_requested, supervisor_failed }) => {
                if stop_requested {
                    self.phase = BridgePhase::Closing;
                    BridgeAction::Report(status_report(ControlStatus::Stopped))
                } else if supervisor_failed {
                    self.phase = BridgePhase::Failed;
                    BridgeAction::Exit(BridgeOutcome::SpawnFailed)
                } else {
                    BridgeAction::Wait { millis: WAIT_INTERVAL_MILLIS }
                }
            },
            (BridgePhase::Closing, BridgeEvent::StatusReported) => {
                self.phase = BridgePhase::Done;
                self.reported = Some(ControlStatus::Stopped);
                BridgeAction::Exit(BridgeOutcome::Stopped)
            },
            (BridgePhase::Closing, BridgeEvent::StatusReportFailed) => {
                self.phase = BridgePhase::Done;
                BridgeAction::Exit(BridgeOutcome::Stopped)
            },
            _ => BridgeAction::Continue,
        }
    }
}

/// Running through `first + second` is running through `first` and then
/// through `second`.
pub proof fn lemma_bridge_after_concat(
    bridge: ControlBridge,
    first: Seq<BridgeEvent>,
    second: Seq<BridgeEvent>,
)
    ensures
        bridge.after(first + second) == bridge.after(first).after(second),
    decreases second.len(),
{
    if second.len() > 0 {
        lemma_bridge_after_concat(bridge, first, second.drop_last());
        assert((first + second).drop_last() =~= first + second.drop_last());
    }
}

/// The bridge only moves forward: no run brings it back to an earlier phase,
/// and in a run from a bridge that a run from the start can reach, the
/// status that the platform holds by its reports never moves back either.
pub proof fn lemma_bridge_moves_forward(bridge: ControlBridge, events: Seq<BridgeEvent>)
    ensures
        bridge.phase.rank() <= bridge.after(events).phase.rank(),
        bridge.wf() ==> bridge.after(events).wf() && bridge.reported_rank() <= bridge.after(
            events,
        ).reported_rank(),
    decreases events.len(),
{
    if events.len() > 0 {
        lemma_bridge_moves_forward(bridge, events.drop_last());
    }
}

/// In every run from the start the platform holds what the bridge's phase
/// says: nothing before `Running` was taken, `Running` while the wait loop
/// runs, `Stopped` only once the bridge has ended after a stop.
pub proof fn lemma_bridge_reachable_wf(events: Seq<BridgeEvent>)
    ensures
        ControlBridge::initial().after(events).wf(),
{
    lemma_bridge_moves_forward(ControlBridge::initial(), events);
}

/// The platform holds a status only because it took the report of it: the
/// status that it holds changes with the answer `StatusReported` to the
/// report of that status, and with nothing else.
pub proof fn lemma_reported_by_report(bridge: ControlBridge, event: BridgeEvent)
    ensures
        bridge.next(event).0.reported != bridge.reported ==> event == BridgeEvent::StatusReported
            && (bridge.phase == BridgePhase::Announcing && bridge.next(event).0.reported == Some(
            ControlStatus::Running,
        ) || bridge.phase == BridgePhase::Closing && bridge.next(event).0.reported == Some(
            ControlStatus::Stopped,
        )),
{
}

/// The phase in which the event at position `j` arrives is no earlier than
/// the phase left behind by the event at position `i < j`.
proof fn lemma_phase_order(bridge: ControlBridge, events: Seq<BridgeEvent>, i: int, j: int)
    requires
        0 <= i < j < events.len(),
    ensures
        bridge.after(events.take(i)).next(events[i]).0.phase.rank() <= bridge.after(
            events.take(j),
        ).phase.rank(),
{
    let upto = events.take(i + 1);
    let rest = events.subrange(i + 1, j);
    assert(upto.drop_last() =~= events.take(i));
    assert(upto + rest =~= events.take(j));
    lemma_bridge_after_concat(bridge, upto, rest);
    lemma_bridge_moves_forward(bridge.after(upto), rest);
}

/// The actions of a run do not depend on the events that come later.
proof fn lemma_action_of_prefix(bridge: ControlBridge, events: Seq<BridgeEvent>, i: int, k: int)
    requires
        0 <= i < k <= events.len(),
    ensures
        bridge.action_at(events.take(k), i) == bridge.action_at(events, i),
{
    assert(events.take(k).take(i) =~= events.take(i));
}

/// No status is reported twice in a run.
pub proof fn lemma_each_status_reported_once(
    bridge: ControlBridge,
    events: Seq<BridgeEvent>,
    i: int,
    j: int,
    status: ControlStatus,
)
    requires
        0 <= i < j < events.len(),
        bridge.action_at(events, i) == BridgeAction::Report(status.report()),
    ensures
        bridge.action_at(events, j) != BridgeAction::Report(status.report()),
{
    lemma_phase_order(bridge, events, i, j);
}

/// Whatever is reported is a status with what goes with it. Only `Running`
/// and `Stopped` are ever reported: `Running` with the stop control
/// accepted, `Stopped` with no control accepted, both with exit code 0.
/// `Running` answers the registration, and `Stopped` answers a poll that
/// found the stop flag set.
pub proof fn lemma_reports(bridge: ControlBridge, event: BridgeEvent, report: StatusReport)
    requires
        bridge.next(event).1 == BridgeAction::Report(report),
    ensures
        report == report.status.report(),
        report.status == ControlStatus::Running || report.status == ControlStatus::Stopped,
        report.exit_code == 0 && report.checkpoint == 0 && report.wait_hint_millis == 0,
        report.accepts_stop <==> report.status == ControlStatus::Running,
        report.status == ControlStatus::Running ==> bridge.phase == BridgePhase::Registering
            && event == BridgeEvent::Registered,
        report.status == ControlStatus::Stopped ==> bridge.phase == BridgePhase::Waiting
            && event is Polled && event->stop_requested,
{
}

/// `Stopped` is the last report of a run: no report follows it.
pub proof fn lemma_stopped_is_last_report(
    bridge: ControlBridge,
    events: Seq<BridgeEvent>,
    i: int,
    j: int,
)
    requires
        0 <= i < j < events.len(),
        bridge.action_at(events, i) == BridgeAction::Report(ControlStatus::Stopped.report()),
    ensures
        !(bridge.action_at(events, j) is Report),
{
    lemma_phase_order(bridge, events, i, j);
}

/// A fatal spawn failure is surfaced: a poll of the wait loop that finds
/// the supervisor given up and no stop requested ends the bridge with the
/// outcome `SpawnFailed`, and the bridge ends with that outcome in no other
/// way. It reports no `Stopped` then, because the stop flag was not seen.
pub proof fn lemma_spawn_failure_surfaces(bridge: ControlBridge, event: BridgeEvent)
    ensures
        bridge.next(event).1 == BridgeAction::Exit(BridgeOutcome::SpawnFailed) <==> (bridge.phase
            == BridgePhase::Waiting && event is Polled && event->supervisor_failed
            && !event->stop_requested),
{
}

/// A run from the initial bridge that has come past the announcement has
/// ordered the report of `Running` on its way.
proof fn lemma_announcement_made(events: Seq<BridgeEvent>) -> (i: int)
    requires
        ControlBridge::initial().after(events).phase.past_announcement(),
    ensures
        0 <= i < events.len(),
        ControlBridge::initial().action_at(events, i) == BridgeAction::Report(
            ControlStatus::Running.report(),
        ),
    decreases events.len(),
{
    let init = ControlBridge::initial();
    let shorter = events.drop_last();
    assert(shorter =~= events.take(events.len() - 1));
    if init.after(shorter).phase.past_announcement() {
        let i = lemma_announcement_made(shorter);
        lemma_action_of_prefix(init, events, i, events.len() - 1);
        i
    } else {
        events.len() - 1
    }
}

/// A run from the initial bridge that stands in `Closing` or `Done` has
/// ordered the report of `Stopped` on its way, after the report of
/// `Running`.
proof fn lemma_closing_made(events: Seq<BridgeEvent>) -> (r: (int, int))
    requires
        ControlBridge::initial().after(events).phase == BridgePhase::Closing
            || ControlBridge::initial().after(events).phase == BridgePhase::Done,
    ensures
        0 <= r.0 < r.1 < events.len(),
        ControlBridge::initial().action_at(events, r.0) == BridgeAction::Report(
            ControlStatus::Running.report(),
        ),
        ControlBridge::initial().action_at(events, r.1) == BridgeAction::Report(
            ControlStatus::Stopped.report(),
        ),
        events[r.1] is Polled && events[r.1]->stop_requested,
    decreases events.len(),
{
    let init = ControlBridge::initial();
    let shorter = events.drop_last();
    let last = events.len() - 1;
    assert(shorter =~= events.take(last));
    let before = init.after(shorter).phase;
    if before == BridgePhase::Closing || before == BridgePhase::Done {
        let r = lemma_closing_made(shorter);
        lemma_action_of_prefix(init, events, r.0, last);
        lemma_action_of_prefix(init, events, r.1, last);
        r
    } else {
        let i = lemma_announcement_made(shorter);
        lemma_action_of_prefix(init, events, i, last);
        (i, last)
    }
}

/// The wait loop starts only after `Running` has been reported: whenever a
/// run from the initial bridge orders a wait, it has ordered the report of
/// `Running` strictly before.
pub proof fn lemma_running_reported_before_wait(events: Seq<BridgeEvent>, j: int) -> (i: int)
    requires
        0 <= j < events.len(),
        ControlBridge::initial().action_at(events, j) is Wait,
    ensures
        0 <= i < j,
        ControlBridge::initial().action_at(events, i) == BridgeAction::Report(
            ControlStatus::Running.report(),
        ),
{
    let i = lemma_announcement_made(events.take(j));
    lemma_action_of_prefix(ControlBridge::initial(), events, i, j);
    i
}

/// `Stopped` is reported only after the wait loop has seen the stop flag
/// set: the report answers a poll that found it set, and that poll comes
/// after the report of `Running`.
pub proof fn lemma_stopped_reported_after_stop(events: Seq<BridgeEvent>, j: int) -> (i: int)
    requires
        0 <= j < events.len(),
        ControlBridge::initial().action_at(events, j) == BridgeAction::Report(
            ControlStatus::Stopped.report(),
        ),
    ensures
        events[j] is Polled && events[j]->stop_requested,
        0 <= i < j,
        ControlBridge::initial().action_at(events, i) == BridgeAction::Report(
            ControlStatus::Running.report(),
        ),
{
    let i = lemma_announcement_made(events.take(j));
    lemma_action_of_prefix(ControlBridge::initial(), events, i, j);
    i
}

/// A run from the initial bridge that ends with the outcome `Stopped` has
/// reported `Running` and then `Stopped`; with
/// `lemma_each_status_reported_once`, each of them exactly once.
pub proof fn lemma_clean_exit_reported_both(events: Seq<BridgeEvent>, k: int) -> (r: (int, int))
    requires
        0 <= k < events.len(),
        ControlBridge::initial().action_at(events, k) == BridgeAction::Exit(BridgeOutcome::Stopped),
    ensures
        0 <= r.0 < r.1 < k,
        ControlBridge::initial().action_at(events, r.0) == BridgeAction::Report(
            ControlStatus::Running.report(),
        ),
        ControlBridge::initial().action_at(events, r.1) == BridgeAction::Report(
            ControlStatus::Stopped.report(),
        ),
        events[r.1] is Polled && events[r.1]->stop_requested,
{
    let r = lemma_closing_made(events.take(k));
    lemma_action_of_prefix(ControlBridge::initial(), events, r.0, k);
    lemma_action_of_prefix(ControlBridge::initial(), events, r.1, k);
    r
}

} // verus!
