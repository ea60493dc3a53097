//! Process supervision: retry policy and the state machine that decides when
//! the single child process is spawned, polled, terminated and respawned.

use vstd::prelude::*;
use vstd::arithmetic::power2::{pow2, lemma2_to64, lemma_pow2_strictly_increases};

verus! {

/// Consecutive spawn failures after which the supervisor gives up.
pub const MAX_ATTEMPTS: u32 = 5;

/// Base of the retry delay, in seconds.
pub const INITIAL_DELAY: u64 = 2;

/// Largest exponent the retry delay grows to.
pub const MAX_BACKOFF_EXPONENT: u32 = 8;

/// Pause between a child's exit and its respawn, in seconds.
pub const COOL_DOWN_SECS: u64 = 5;

/// Pause before each look at the running child, in seconds.
pub const POLL_INTERVAL_SECS: u64 = 1;

/// The exponent used for the delay after `attempt` consecutive failures.
pub open spec fn backoff_exponent(attempt: nat) -> nat {
    if attempt <= MAX_BACKOFF_EXPONENT as nat {
        attempt
    } else {
        MAX_BACKOFF_EXPONENT as nat
    }
}

/// Seconds to wait after `attempt` consecutive spawn failures:
/// `INITIAL_DELAY * 2^min(attempt, 8)`.
pub open spec fn spec_backoff_delay(attempt: nat) -> nat {
    INITIAL_DELAY as nat * pow2(backoff_exponent(attempt))
}

/// Computes the retry delay in seconds for the given count of consecutive
/// spawn failures.
pub fn backoff_delay(attempt: u32) -> (delay: u64)
    ensures
        delay == spec_backoff_delay(attempt as nat),
        INITIAL_DELAY <= delay <= INITIAL_DELAY * 256,
{
    let exponent: u32 = if attempt <= MAX_BACKOFF_EXPONENT { attempt } else { MAX_BACKOFF_EXPONENT };
    let mut delay: u64 = INITIAL_DELAY;
    let mut i: u32 = 0;
    proof {
        lemma2_to64();
    }
    while i < exponent
        invariant
            i <= exponent <= 8,
            delay == INITIAL_DELAY * pow2(i as nat),
            delay <= INITIAL_DELAY * 256,
        decreases exponent - i,
    {
        proof {
            lemma2_to64();
            vstd::arithmetic::power2::lemma_pow2_unfold((i + 1) as nat);
            if i + 1 < 8 {
                lemma_pow2_strictly_increases((i + 1) as nat, 8);
            }
        }
        delay = delay * 2;
        i = i + 1;
    }
    proof {
        vstd::arithmetic::power2::lemma_pow2_pos(exponent as nat);
    }
    delay
}

/// Where the supervisor stands in the life of its child process.
#[derive(Clone, Copy, Debug, PartialEq, Eq, Structural)]
pub enum Phase {
    /// Nothing is running and nothing is scheduled.
    Idle,
    /// A spawn has been ordered and its outcome is awaited.
    Starting,
    /// The child is alive and is looked at on every poll.
    Running,
    /// The child has exited; the cool-down before the respawn is running.
    Exited,
    /// A spawn failed; the retry delay is running.
    Backoff,
    /// The child has been told to terminate and its exit is awaited.
    Stopping,
    /// Spawning failed too often; the supervisor has given up for good.
    Failed,
}

/// What the driver of the supervisor observed.
#[derive(Clone, Copy, Debug, PartialEq, Eq, Structural)]
pub enum SupervisorEvent {
    /// Supervision is to begin.
    Start,
    /// A stop of the whole service was requested.
    StopRequested,
    /// The ordered spawn produced a live child.
    SpawnSucceeded,
    /// The ordered spawn produced no child.
    SpawnFailed,
    /// The poll found the child still alive.
    StillRunning,
    /// The poll found that the child has exited, with whatever status.
    Exited,
    /// The poll itself failed, so the child's fate is unknown.
    PollFailed,
    /// The ordered sleep is over.
    DelayElapsed,
    /// The ordered termination is done: the child is gone.
    Terminated,
}

/// What the driver of the supervisor has to do next.
#[derive(Clone, Copy, Debug, PartialEq, Eq, Structural)]
pub enum SupervisorAction {
    /// Nothing new; whatever was ordered before stays ordered.
    Continue,
    /// Spawn the child and report `SpawnSucceeded` or `SpawnFailed`.
    Spawn,
    /// Wait for the given number of seconds, look at the child and report
    /// `StillRunning`, `Exited` or `PollFailed`.
    Poll { after_seconds: u64 },
    /// Sleep for the given number of seconds and report `DelayElapsed`.
    Sleep { seconds: u64 },
    /// Signal the child to terminate, wait until it is gone (a child that has
    /// already exited counts as gone) and report `Terminated`.
    Terminate,
    /// Supervision has ended because a stop was requested.
    Finish,
    /// Supervision has ended with a fatal spawn failure.
    GiveUp,
}

/// The supervisor's whole state: one child slot, the count of consecutive
/// spawn failures and the stop flag.
#[derive(Clone, Copy, Debug, PartialEq, Eq, Structural)]
pub struct SupervisionState {
    pub phase: Phase,
    /// Consecutive spawn failures since the last successful spawn or exit.
    pub attempt: u32,
    /// Whether the single child slot holds a live process.
    pub child_running: bool,
    /// Set once per run and never cleared.
    pub stop_requested: bool,
}

impl SupervisionState {
    /// The state before supervision has begun.
    pub open spec fn initial() -> SupervisionState {
        SupervisionState { phase: Phase::Idle, attempt: 0, child_running: false, stop_requested: false }
    }

    /// The states that a run can reach.
    pub open spec fn wf(self) -> bool {
        &&& self.attempt <= MAX_ATTEMPTS
        &&& (self.attempt == MAX_ATTEMPTS <==> self.phase == Phase::Failed)
        &&& (self.child_running <==> (self.phase == Phase::Running || self.phase == Phase::Stopping))
        &&& (self.phase == Phase::Running || self.phase == Phase::Stopping || self.phase
            == Phase::Exited ==> self.attempt == 0)
        &&& (self.phase == Phase::Backoff ==> self.attempt >= 1)
    }

    /// The state once the child slot is empty again: back to idle when a stop
    /// was requested, into the cool-down otherwise.
    pub open spec fn after_exit(self) -> (SupervisionState, SupervisorAction) {
        if self.stop_requested {
            (
                SupervisionState { phase: Phase::Idle, attempt: 0, child_running: false, ..self },
                SupervisorAction::Finish,
            )
        } else {
            (
                SupervisionState { phase: Phase::Exited, attempt: 0, child_running: false, ..self },
                SupervisorAction::Sleep { seconds: COOL_DOWN_SECS },
            )
        }
    }

    /// The state after a failed spawn: one more failure is counted; at
    /// `MAX_ATTEMPTS` the supervisor gives up, before that it retries after
    /// the backoff delay unless a stop was requested.
    pub open spec fn after_spawn_failure(self) -> (SupervisionState, SupervisorAction) {
        if self.attempt >= MAX_ATTEMPTS - 1 {
            (
                SupervisionState { phase: Phase::Failed, attempt: MAX_ATTEMPTS, ..self },
                SupervisorAction::GiveUp,
            )
        } else if self.stop_requested {
            (
                SupervisionState { phase: Phase::Idle, attempt: (self.attempt + 1) as u32, ..self },
                SupervisorAction::Finish,
            )
        } else {
            (
                SupervisionState { phase: Phase::Backoff, attempt: (self.attempt + 1) as u32, ..self },
                SupervisorAction::Sleep {
                    seconds: spec_backoff_delay((self.attempt + 1) as nat) as u64,
                },
            )
        }
    }

    /// The transition function: the state that follows `self` on `event`, and
    /// the action that the driver has to perform.
    pub open spec fn next(self, event: SupervisorEvent) -> (SupervisionState, SupervisorAction) {
        match (self.phase, event) {
            (_, SupervisorEvent::StopRequested) => (
                SupervisionState { stop_requested: true, ..self },
                SupervisorAction::Continue,
            ),
            (Phase::Idle, SupervisorEvent::Start) => if self.stop_requested {
                (self, SupervisorAction::Finish)
            } else {
                (SupervisionState { phase: Phase::Starting, ..self }, SupervisorAction::Spawn)
            },
            (Phase::Starting, SupervisorEvent::SpawnSucceeded) => if self.stop_requested {
                (
                    SupervisionState { phase: Phase::Stopping, attempt: 0, child_running: true, ..self },
                    SupervisorAction::Terminate,
                )
            } else {
                (
                    SupervisionState { phase: Phase::Running, attempt: 0, child_running: true, ..self },
                    SupervisorAction::Poll { after_seconds: POLL_INTERVAL_SECS },
                )
            },
            (Phase::Starting, SupervisorEvent::SpawnFailed) => self.after_spawn_failure(),
            (Phase::Running, SupervisorEvent::StillRunning) => if self.stop_requested {
                (SupervisionState { phase: Phase::Stopping, ..self }, SupervisorAction::Terminate)
            } else {
                (self, SupervisorAction::Poll { after_seconds: POLL_INTERVAL_SECS })
            },
            (Phase::Running, SupervisorEvent::Exited) => self.after_exit(),
            (Phase::Running, SupervisorEvent::PollFailed) => (
                SupervisionState { phase: Phase::Stopping, ..self },
                SupervisorAction::Terminate,
            ),
            (Phase::Exited, SupervisorEvent::DelayElapsed)
            | (Phase::Backoff, SupervisorEvent::DelayElapsed) => if self.stop_requested {
                (SupervisionState { phase: Phase::Idle, ..self }, SupervisorAction::Finish)
            } else {
                (SupervisionState { phase: Phase::Starting, ..self }, SupervisorAction::Spawn)
            },
            (Phase::Stopping, SupervisorEvent::Terminated) => self.after_exit(),
            _ => (self, SupervisorAction::Continue),
        }
    }

    /// The state reached from `self` when `events` arrive in order.
    pub open spec fn after(self, events: Seq<SupervisorEvent>) -> SupervisionState
        decreases events.len(),
    {
        if events.len() == 0 {
            self
        } else {
            self.after(events.drop_last()).next(events.last()).0
        }
    }

    /// The action ordered in answer to the event at position `i` of `events`.
    pub open spec fn action_at(self, events: Seq<SupervisorEvent>, i: int) -> SupervisorAction
        recommends
            0 <= i < events.len(),
    {
        self.after(events.take(i)).next(events[i]).1
    }

    /// The number of spawns that are ordered while `events` arrive in order.
    pub open spec fn spawns_ordered(self, events: Seq<SupervisorEvent>) -> nat
        decreases events.len(),
    {
        if events.len() == 0 {
            0
        } else {
            let before = self.spawns_ordered(events.drop_last());
            if self.after(events.drop_last()).next(events.last()).1 == SupervisorAction::Spawn {
                before + 1
            } else {
                before
            }
        }
    }

    /// The number of spawns that the state can still order before one of
    /// them has to succeed: none once a stop was requested or the
    /// supervisor has given up, else what the failures counted so far leave
    /// of `MAX_ATTEMPTS`, less the spawn that is under way.
    pub open spec fn spawn_budget(self) -> nat {
        if self.stop_requested || self.phase == Phase::Failed || self.attempt >= MAX_ATTEMPTS {
            0
        } else if self.phase == Phase::Starting {
            (MAX_ATTEMPTS - 1 - self.attempt) as nat
        } else {
            (MAX_ATTEMPTS - self.attempt) as nat
        }
    }

    /// A fresh supervisor: idle, no failures counted, no child, no stop
    /// requested.
    pub fn new() -> (state: SupervisionState)
        ensures
            state == SupervisionState::initial(),
            state.wf(),
    {
        SupervisionState { phase: Phase::Idle, attempt: 0, child_running: false, stop_requested: false }
    }

    /// Takes one event and returns the action to perform, moving to the next
    /// state exactly as `next` says.
    pub fn step(&mut self, event: SupervisorEvent) -> (action: SupervisorAction)
        ensures
            (*final(self), action) == old(self).next(event),
    {
        match event {
            SupervisorEvent::StopRequested => {
                self.stop_requested = true;
                SupervisorAction::Continue
            },
            SupervisorEvent::Start => {
                if self.phase != Phase::Idle {
                    SupervisorAction::Continue
                } else if self.stop_requested {
                    SupervisorAction::Finish
                } else {
                    self.phase = Phase::Starting;
                    SupervisorAction::Spawn
                }
            },
            SupervisorEvent::SpawnSucceeded => {
                if self.phase != Phase::Starting {
                    SupervisorAction::Continue
                } else {
                    self.attempt = 0;
                    self.child_running = true;
                    if self.stop_requested {
                        self.phase = Phase::Stopping;
                        SupervisorAction::Terminate
                    } else {
                        self.phase = Phase::Running;
                        SupervisorAction::Poll { after_seconds: POLL_INTERVAL_SECS }
                    }
                }
            },
            SupervisorEvent::SpawnFailed => {
                if self.phase != Phase::Starting {
                    SupervisorAction::Continue
                } else if self.attempt >= MAX_ATTEMPTS - 1 {
                    self.attempt = MAX_ATTEMPTS;
                    self.phase = Phase::Failed;
                    SupervisorAction::GiveUp
                } else {
                    self.attempt = self.attempt + 1;
                    if self.stop_requested {
                        self.phase = Phase::Idle;
                        SupervisorAction::Finish
                    } else {
                        self.phase = Phase::Backoff;
                        SupervisorAction::Sleep { seconds: backoff_delay(self.attempt) }
                    }
                }
            },
            SupervisorEvent::StillRunning => {
                if self.phase != Phase::Running {
                    SupervisorAction::Continue
                } else if self.stop_requested {
                    self.phase = Phase::Stopping;
                    SupervisorAction::Terminate
                } else {
                    SupervisorAction::Poll { after_seconds: POLL_INTERVAL_SECS }
                }
            },
            SupervisorEvent::Exited => {
                if self.phase != Phase::Running {
                    SupervisorAction::Continue
                } else {
                    self.child_gone()
                }
            },
            SupervisorEvent::PollFailed => {
                if self.phase != Phase::Running {
                    SupervisorAction::Continue
                } else {
                    self.phase = Phase::Stopping;
                    SupervisorAction::Terminate
                }
            },
            SupervisorEvent::DelayElapsed => {
                if self.phase != Phase::Exited && self.phase != Phase::Backoff {
                    SupervisorAction::Continue
                } else if self.stop_requested {
                    self.phase = Phase::Idle;
                    SupervisorAction::Finish
                } else {
                    self.phase = Phase::Starting;
                    SupervisorAction::Spawn
                }
            },
            SupervisorEvent::Terminated => {
                if self.phase != Phase::Stopping {
                    SupervisorAction::Continue
                } else {
                    self.child_gone()
                }
            },
        }
    }

    /// Empties the child slot and decides between the cool-down and the end
    /// of supervision.
    fn child_gone(&mut self) -> (action: SupervisorAction)
        ensures
            (*final(self), action) == old(self).after_exit(),
    {
        self.attempt = 0;
        self.child_running = false;
        if self.stop_requested {
            self.phase = Phase::Idle;
            SupervisorAction::Finish
        } else {
            self.phase = Phase::Exited;
            SupervisorAction::Sleep { seconds: COOL_DOWN_SECS }
        }
    }
}

/// The delay doubles with every further failure up to the eighth and stays
/// at `INITIAL_DELAY * 256` from there on; for no failure at all it is
/// `INITIAL_DELAY` itself.
pub proof fn lemma_backoff_schedule(attempt: nat)
    ensures
        spec_backoff_delay(0) == INITIAL_DELAY,
        attempt < MAX_BACKOFF_EXPONENT ==> spec_backoff_delay(attempt + 1) == 2
            * spec_backoff_delay(attempt),
        attempt >= MAX_BACKOFF_EXPONENT ==> spec_backoff_delay(attempt) == INITIAL_DELAY * 256,
        INITIAL_DELAY <= spec_backoff_delay(attempt) <= INITIAL_DELAY * 256,
{
    lemma2_to64();
    vstd::arithmetic::power2::lemma_pow2_unfold(attempt + 1);
    vstd::arithmetic::power2::lemma_pow2_pos(backoff_exponent(attempt));
    if backoff_exponent(attempt) < 8 {
        lemma_pow2_strictly_increases(backoff_exponent(attempt), 8);
    }
}

/// Every step keeps the state among those a run can reach.
pub proof fn lemma_step_preserves_wf(state: SupervisionState, event: SupervisorEvent)
    requires
        state.wf(),
    ensures
        state.next(event).0.wf(),
{
}

/// Whatever events arrive, a run from the initial state stays well formed:
/// in particular it never counts more than `MAX_ATTEMPTS` consecutive spawn
/// failures, and it holds a child exactly while running or stopping.
pub proof fn lemma_reachable_wf(events: Seq<SupervisorEvent>)
    ensures
        SupervisionState::initial().after(events).wf(),
        SupervisionState::initial().after(events).attempt <= MAX_ATTEMPTS,
    decreases events.len(),
{
    if events.len() > 0 {
        lemma_reachable_wf(events.drop_last());
        lemma_step_preserves_wf(
            SupervisionState::initial().after(events.drop_last()),
            events.last(),
        );
    }
}

/// The stop flag is never cleared: once set it stays set for the rest of the
/// run.
pub proof fn lemma_stop_is_permanent(state: SupervisionState, events: Seq<SupervisorEvent>)
    requires
        state.stop_requested,
    ensures
        state.after(events).stop_requested,
    decreases events.len(),
{
    if events.len() > 0 {
        lemma_stop_is_permanent(state, events.drop_last());
    }
}

/// A supervisor whose stop flag is set orders no spawn, whatever events
/// arrive and in whatever phase the flag found it.
pub proof fn lemma_stopped_never_spawns(
    state: SupervisionState,
    events: Seq<SupervisorEvent>,
    event: SupervisorEvent,
)
    requires
        state.stop_requested,
    ensures
        state.after(events).next(event).1 != SupervisorAction::Spawn,
        state.after(events).next(event).0.stop_requested,
{
    lemma_stop_is_permanent(state, events);
}

/// After a stop request no later step orders a spawn.
pub proof fn lemma_no_spawn_after_stop(
    state: SupervisionState,
    events: Seq<SupervisorEvent>,
    i: int,
    j: int,
)
    requires
        0 <= i < j < events.len(),
        events[i] == SupervisorEvent::StopRequested,
    ensures
        state.action_at(events, j) != SupervisorAction::Spawn,
{
    let before = events.take(j);
    let upto = events.take(i + 1);
    lemma_after_concat(state, upto, events.subrange(i + 1, j));
    assert(upto + events.subrange(i + 1, j) =~= before);
    lemma_stop_is_permanent(state.after(upto), events.subrange(i + 1, j));
}

/// Running through `first + second` is running through `first` and then
/// through `second`.
pub proof fn lemma_after_concat(
    state: SupervisionState,
    first: Seq<SupervisorEvent>,
    second: Seq<SupervisorEvent>,
)
    ensures
        state.after(first + second) == state.after(first).after(second),
    decreases second.len(),
{
    if second.len() > 0 {
        lemma_after_concat(state, first, second.drop_last());
        assert((first + second).drop_last() =~= first + second.drop_last());
    }
}

/// Giving up is final: a supervisor that has failed stays failed and orders
/// no further spawn.
pub proof fn lemma_failure_is_final(
    state: SupervisionState,
    events: Seq<SupervisorEvent>,
    event: SupervisorEvent,
)
    requires
        state.phase == Phase::Failed,
    ensures
        state.after(events).phase == Phase::Failed,
        state.after(events).next(event).1 != SupervisorAction::Spawn,
    decreases events.len(),
{
    if events.len() > 0 {
        lemma_failure_is_final(state, events.drop_last(), events.last());
    }
}

/// A step that is not the success of a spawn pays for the spawn that it
/// orders, if it orders one, out of the budget.
proof fn lemma_budget_step(state: SupervisionState, event: SupervisorEvent)
    requires
        state.wf(),
        event != SupervisorEvent::SpawnSucceeded,
    ensures
        state.next(event).1 == SupervisorAction::Spawn ==> state.next(event).0.spawn_budget() + 1
            <= state.spawn_budget(),
        state.next(event).0.spawn_budget() <= state.spawn_budget(),
{
}

/// As long as no spawn succeeds, the spawns ordered in a run and the budget
/// left at its end stay within the budget at its start.
pub proof fn lemma_spawns_within_budget(state: SupervisionState, events: Seq<SupervisorEvent>)
    requires
        state.wf(),
        forall|i: int| 0 <= i < events.len() ==> events[i] != SupervisorEvent::SpawnSucceeded,
    ensures
        state.after(events).wf(),
        state.spawns_ordered(events) + state.after(events).spawn_budget() <= state.spawn_budget(),
        state.spawns_ordered(events) <= MAX_ATTEMPTS,
    decreases events.len(),
{
    if events.len() > 0 {
        let shorter = events.drop_last();
        assert forall|i: int| 0 <= i < shorter.len() implies shorter[i]
            != SupervisorEvent::SpawnSucceeded by {
            assert(shorter[i] == events[i]);
        }
        lemma_spawns_within_budget(state, shorter);
        lemma_step_preserves_wf(state.after(shorter), events.last());
        lemma_budget_step(state.after(shorter), events.last());
    }
}

/// Retries never exceed `MAX_ATTEMPTS` attempts: a run from the initial
/// state in which no spawn succeeds orders at most `MAX_ATTEMPTS` spawns,
/// whatever else happens in it.
pub proof fn lemma_at_most_max_attempts(events: Seq<SupervisorEvent>)
    requires
        forall|i: int| 0 <= i < events.len() ==> events[i] != SupervisorEvent::SpawnSucceeded,
    ensures
        SupervisionState::initial().spawns_ordered(events) <= MAX_ATTEMPTS,
{
    lemma_spawns_within_budget(SupervisionState::initial(), events);
}

/// A spawn is ordered only while the child slot is empty, no other spawn is
/// under way and fewer than `MAX_ATTEMPTS` consecutive failures are
/// counted, so at most one child lives at any time, at most one spawn is in
/// flight and no spawn follows the last allowed failure.
pub proof fn lemma_spawn_only_without_child(state: SupervisionState, event: SupervisorEvent)
    requires
        state.wf(),
        state.next(event).1 == SupervisorAction::Spawn,
    ensures
        !state.child_running,
        state.phase != Phase::Starting,
        !state.stop_requested,
        state.attempt < MAX_ATTEMPTS,
        state.next(event).0.phase == Phase::Starting,
        !state.next(event).0.child_running,
{
}

/// A failed spawn is answered, as long as the supervisor neither gives up
/// nor has been asked to stop, by a sleep of
/// `INITIAL_DELAY * 2^min(failures, 8)` seconds, where `failures` counts the
/// consecutive failures including this one.
pub proof fn lemma_retry_delay(state: SupervisionState)
    requires
        state.wf(),
        state.phase == Phase::Starting,
        !state.stop_requested,
        state.attempt + 1 < MAX_ATTEMPTS,
    ensures
        state.next(SupervisorEvent::SpawnFailed).0.attempt == state.attempt + 1,
        state.next(SupervisorEvent::SpawnFailed).1 == (SupervisorAction::Sleep {
            seconds: (INITIAL_DELAY * pow2(backoff_exponent((state.attempt + 1) as nat))) as u64,
        }),
        state.next(SupervisorEvent::SpawnFailed).1 matches SupervisorAction::Sleep { seconds }
            && seconds == INITIAL_DELAY * pow2((state.attempt + 1) as nat),
{
    lemma_backoff_schedule((state.attempt + 1) as nat);
}

/// The failure that brings the count to `MAX_ATTEMPTS` ends supervision with
/// `GiveUp`.
pub proof fn lemma_last_failure_gives_up(state: SupervisionState)
    requires
        state.wf(),
        state.phase == Phase::Starting,
        state.attempt + 1 == MAX_ATTEMPTS,
    ensures
        state.next(SupervisorEvent::SpawnFailed).1 == SupervisorAction::GiveUp,
        state.next(SupervisorEvent::SpawnFailed).0.phase == Phase::Failed,
{
}

} // verus!
