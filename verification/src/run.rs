//! The steps of a run, from the bootstrap script to the completion signal.
//!
//! The host performs the actions that a step hands it, in order, and reports
//! what came of them as the next event. A user worker's run is raced against
//! the halt signal of its resource controller; whichever ends first ends the
//! run.

use crate::config::ContextError;
use crate::controller::ResourceController;
use crate::limits::{EdgeUserRuntimeOpts, HeapPressureBridge};
use crate::trace::{count_where, lemma_count_where_concat, lemma_drop_last_chain};
use std::collections::HashMap;
use vstd::prelude::*;

verus! {

/// How a run ended.
#[derive(Clone, Copy, Debug, PartialEq, Eq, Structural)]
pub enum RunOutcome {
    /// The module ran to completion.
    Completed,
    /// Loading or evaluating the module failed.
    Failed,
    /// The halt signal won the race.
    Halted,
    /// The run was given up during setup.
    Aborted(ContextError),
}

impl RunOutcome {
    /// What the caller of a run gets back: only a run that was given up
    /// during setup is a failure.
    pub open spec fn as_result(&self) -> Result<(), ContextError> {
        match *self {
            RunOutcome::Aborted(e) => Err(e),
            _ => Ok(()),
        }
    }

    /// Computes `as_result`.
    pub fn result(&self) -> (result: Result<(), ContextError>)
        ensures
            result == self.as_result(),
    {
        match self {
            RunOutcome::Aborted(e) => Err(*e),
            _ => Ok(()),
        }
    }
}

/// Where a run stands.
#[derive(Clone, Copy, Debug, PartialEq, Eq, Structural)]
pub enum RunPhase {
    /// The bootstrap script is being executed.
    Bootstrapping,
    /// The transport is being queued for the worker.
    BindingTransport,
    /// The module is being driven.
    Driving,
    /// The run is over.
    Finished(RunOutcome),
}

/// What the host reports.
#[derive(Clone, Copy, Debug, PartialEq, Eq, Structural)]
pub enum RunEvent {
    /// The bootstrap script ran.
    BootstrapSucceeded,
    /// The bootstrap script threw or panicked.
    BootstrapFailed,
    /// The transport is queued.
    TransportBound,
    /// The queue for the transport was already closed.
    TransportRejected,
    /// The event loop ran dry and the module's evaluation succeeded.
    ModuleCompleted,
    /// Loading the module, or evaluating it, produced an error.
    ModuleFailed,
    /// The halt signal arrived before the module was done.
    HaltObserved,
    /// The completion signal found nobody waiting for it.
    CompletionNotDelivered,
}

/// The state that the host installs in a context before the module runs.
#[derive(Debug, PartialEq)]
pub struct ContextLocal<S> {
    /// The environment that the script sees.
    pub env_vars: HashMap<String, String>,
    /// The pool's dispatch sender: present in the main worker only.
    pub pool_dispatch: Option<S>,
}

/// What the host is asked to do.
#[derive(Debug, PartialEq)]
pub enum RunAction<S, T, C> {
    /// Execute the bootstrap script for this tier.
    ExecuteBootstrap { is_user_tier: bool },
    /// Queue the transport, so that it is there for the first unit of work.
    BindTransport(T),
    /// Install the context-local state.
    InstallState(ContextLocal<S>),
    /// Register the heap-pressure bridge as the engine's callback.
    RegisterHeapBridge(HeapPressureBridge),
    /// Start the resource controller on a thread of its own.
    StartController(ResourceController),
    /// Load the entry module, evaluate it and run the event loop, raced
    /// against the halt signal where `race_halt` is set.
    DriveModule { main_module: String, race_halt: bool },
    /// Report the error that gave the run up.
    ReportFatal(ContextError),
    /// Record the error that the module produced.
    ReportRunError,
    /// Release the engine and everything it holds.
    ReleaseEngine,
    /// Send the completion signal.
    FireCompletion(C),
    /// Record that the completion signal found nobody waiting for it.
    ReportCompletionNotDelivered,
}

/// A run in progress: its phase and what it still has to hand out.
pub struct RunSessionState<S, T, C> {
    /// Where the run stands.
    pub phase: RunPhase,
    /// The resource caps; `None` in the main worker.
    pub caps: Option<EdgeUserRuntimeOpts>,
    /// The transport, until it has been handed out.
    pub transport: Option<T>,
    /// The context-local state, until it has been handed out.
    pub local: Option<ContextLocal<S>>,
    /// The entry module's location, until it has been handed out.
    pub main_module: Option<String>,
    /// The completion sender, until it has been handed out.
    pub completion: Option<C>,
}

impl<S, T, C> RunSessionState<S, T, C> {
    /// What is held agrees with the phase, the caps can be written as byte
    /// counts, the pool's sender is there in the main worker alone, and
    /// only a user worker has been halted.
    pub open spec fn well_formed(&self) -> bool {
        &&& self.caps matches Some(caps) ==> caps.representable()
        &&& self.local matches Some(local) ==> (local.pool_dispatch is None <==> self.caps is Some)
        &&& match self.phase {
            RunPhase::Bootstrapping => {
                &&& self.transport is Some
                &&& self.local is Some
                &&& self.main_module is Some
                &&& self.completion is Some
            },
            RunPhase::BindingTransport => {
                &&& self.local is Some
                &&& self.main_module is Some
                &&& self.completion is Some
            },
            RunPhase::Driving => self.completion is Some,
            RunPhase::Finished(outcome) => {
                &&& self.completion is None
                &&& outcome == RunOutcome::Halted ==> self.caps is Some
            },
        }
    }

    /// Whether the run is over.
    pub open spec fn finished(&self) -> bool {
        self.phase is Finished
    }

    /// The session as it ends with `outcome`: the completion sender is gone.
    pub open spec fn ended(self, outcome: RunOutcome) -> Self {
        RunSessionState { phase: RunPhase::Finished(outcome), completion: None, ..self }
    }

    /// The session after `event`. An event that the phase does not wait for
    /// changes nothing.
    pub open spec fn after(self, event: RunEvent) -> Self {
        match (self.phase, event) {
            (RunPhase::Bootstrapping, RunEvent::BootstrapSucceeded) => RunSessionState {
                phase: RunPhase::BindingTransport,
                transport: None,
                ..self
            },
            (RunPhase::Bootstrapping, RunEvent::BootstrapFailed) => self.ended(
                RunOutcome::Aborted(ContextError::BootstrapFailed),
            ),
            (RunPhase::BindingTransport, RunEvent::TransportBound) => RunSessionState {
                phase: RunPhase::Driving,
                local: None,
                main_module: None,
                ..self
            },
            (RunPhase::BindingTransport, RunEvent::TransportRejected) => self.ended(
                RunOutcome::Aborted(ContextError::TransportClosed),
            ),
            (RunPhase::Driving, RunEvent::ModuleCompleted) => self.ended(RunOutcome::Completed),
            (RunPhase::Driving, RunEvent::ModuleFailed) => self.ended(RunOutcome::Failed),
            (RunPhase::Driving, RunEvent::HaltObserved) => if self.caps is Some {
                self.ended(RunOutcome::Halted)
            } else {
                self
            },
            _ => self,
        }
    }

    /// What ends a run that was given up during setup: the error is
    /// reported first, then the engine is released, then completion fires.
    pub open spec fn abort_actions(self, error: ContextError) -> Seq<RunAction<S, T, C>> {
        seq![
            RunAction::ReportFatal(error),
            RunAction::ReleaseEngine,
            RunAction::FireCompletion(self.completion->0),
        ]
    }

    /// What a user worker needs before its module is driven: the
    /// heap-pressure bridge and the resource controller, both made from the
    /// caps. The main worker needs neither.
    pub open spec fn enforcement_actions(self) -> Seq<RunAction<S, T, C>> {
        match self.caps {
            Some(caps) => seq![
                RunAction::RegisterHeapBridge(HeapPressureBridge::with_limit(caps.memory_limit_mb)),
                RunAction::StartController(ResourceController::started(caps.worker_timeout_ms)),
            ],
            None => Seq::empty(),
        }
    }

    /// The actions that `event` calls for, in the order in which the host
    /// performs them. An event that the phase does not wait for calls for
    /// nothing. A run that is over still takes note of a completion signal
    /// that was not delivered.
    pub open spec fn reaction(self, event: RunEvent) -> Seq<RunAction<S, T, C>> {
        match (self.phase, event) {
            (RunPhase::Bootstrapping, RunEvent::BootstrapSucceeded) => seq![
                RunAction::BindTransport(self.transport->0),
            ],
            (RunPhase::Bootstrapping, RunEvent::BootstrapFailed) => self.abort_actions(
                ContextError::BootstrapFailed,
            ),
            (RunPhase::BindingTransport, RunEvent::TransportBound) => seq![
                RunAction::InstallState(self.local->0),
            ] + self.enforcement_actions() + seq![
                RunAction::DriveModule {
                    main_module: self.main_module->0,
                    race_halt: self.caps is Some,
                },
            ],
            (RunPhase::BindingTransport, RunEvent::TransportRejected) => self.abort_actions(
                ContextError::TransportClosed,
            ),
            (RunPhase::Driving, RunEvent::ModuleCompleted) => seq![
                RunAction::ReleaseEngine,
                RunAction::FireCompletion(self.completion->0),
            ],
            (RunPhase::Driving, RunEvent::ModuleFailed) => seq![
                RunAction::ReleaseEngine,
                RunAction::ReportRunError,
                RunAction::FireCompletion(self.completion->0),
            ],
            (RunPhase::Driving, RunEvent::HaltObserved) => if self.caps is Some {
                seq![RunAction::ReleaseEngine, RunAction::FireCompletion(self.completion->0)]
            } else {
                Seq::empty()
            },
            (RunPhase::Finished(_), RunEvent::CompletionNotDelivered) => seq![
                RunAction::ReportCompletionNotDelivered,
            ],
            _ => Seq::empty(),
        }
    }
}

/// The run of one context.
pub struct RunSession<S, T, C> {
    state: RunSessionState<S, T, C>,
}

impl<S, T, C> View for RunSession<S, T, C> {
    type V = RunSessionState<S, T, C>;

    closed spec fn view(&self) -> RunSessionState<S, T, C> {
        self.state
    }
}

impl<S, T, C> RunSession<S, T, C> {
    #[verifier::type_invariant]
    spec fn state_is_well_formed(&self) -> bool {
        self.state.well_formed()
    }

    /// Wraps the state that a run starts in.
    pub(crate) fn begin(state: RunSessionState<S, T, C>) -> (session: Self)
        requires
            state.well_formed(),
        ensures
            session@ == state,
    {
        RunSession { state }
    }

    /// Where the run stands.
    pub fn phase(&self) -> (phase: RunPhase)
        ensures
            phase == self@.phase,
            self@.well_formed(),
    {
        proof {
            use_type_invariant(self);
        }
        self.state.phase
    }

    /// How the run ended, or `None` while it is not over.
    pub fn outcome(&self) -> (outcome: Option<RunOutcome>)
        ensures
            outcome is Some <==> self@.finished(),
            outcome matches Some(o) ==> self@.phase == RunPhase::Finished(o),
    {
        match self.state.phase {
            RunPhase::Finished(outcome) => Some(outcome),
            _ => None,
        }
    }

    /// Takes one event and returns the session after it with what the host
    /// has to do next.
    pub fn step(self, event: RunEvent) -> (next: (Self, Vec<RunAction<S, T, C>>))
        ensures
            next.0@ == self@.after(event),
            next.1@ == self@.reaction(event),
            next.0@.well_formed(),
    {
        proof {
            use_type_invariant(&self);
        }
        let ghost before = self@;
        let RunSession { state } = self;
        let RunSessionState { phase, caps, transport, local, main_module, completion } = state;
        let mut actions: Vec<RunAction<S, T, C>> = Vec::new();
        let after = match (phase, event) {
            (RunPhase::Bootstrapping, RunEvent::BootstrapSucceeded) => {
                actions.push(RunAction::BindTransport(transport.unwrap()));
                RunSessionState {
                    phase: RunPhase::BindingTransport,
                    caps,
                    transport: None,
                    local,
                    main_module,
                    completion,
                }
            },
            (RunPhase::Bootstrapping, RunEvent::BootstrapFailed) => {
                actions.push(RunAction::ReportFatal(ContextError::BootstrapFailed));
                actions.push(RunAction::ReleaseEngine);
                actions.push(RunAction::FireCompletion(completion.unwrap()));
                RunSessionState {
                    phase: RunPhase::Finished(RunOutcome::Aborted(ContextError::BootstrapFailed)),
                    caps,
                    transport,
                    local,
                    main_module,
                    completion: None,
                }
            },
            (RunPhase::BindingTransport, RunEvent::TransportBound) => {
                actions.push(RunAction::InstallState(local.unwrap()));
                match caps {
                    Some(limits) => {
                        actions.push(
                            RunAction::RegisterHeapBridge(
                                HeapPressureBridge::new(limits.memory_limit_mb),
                            ),
                        );
                        actions.push(
                            RunAction::StartController(
                                ResourceController::start(limits.worker_timeout_ms),
                            ),
                        );
                    },
                    None => {},
                }
                actions.push(
                    RunAction::DriveModule {
                        main_module: main_module.unwrap(),
                        race_halt: caps.is_some(),
                    },
                );
                RunSessionState {
                    phase: RunPhase::Driving,
                    caps,
                    transport,
                    local: None,
                    main_module: None,
                    completion,
                }
            },
            (RunPhase::BindingTransport, RunEvent::TransportRejected) => {
                actions.push(RunAction::ReportFatal(ContextError::TransportClosed));
                actions.push(RunAction::ReleaseEngine);
                actions.push(RunAction::FireCompletion(completion.unwrap()));
                RunSessionState {
                    phase: RunPhase::Finished(RunOutcome::Aborted(ContextError::TransportClosed)),
                    caps,
                    transport,
                    local,
                    main_module,
                    completion: None,
                }
            },
            (RunPhase::Driving, RunEvent::ModuleCompleted) => {
                actions.push(RunAction::ReleaseEngine);
                actions.push(RunAction::FireCompletion(completion.unwrap()));
                RunSessionState {
                    phase: RunPhase::Finished(RunOutcome::Completed),
                    caps,
                    transport,
                    local,
                    main_module,
                    completion: None,
                }
            },
            (RunPhase::Driving, RunEvent::ModuleFailed) => {
                actions.push(RunAction::ReleaseEngine);
                actions.push(RunAction::ReportRunError);
                actions.push(RunAction::FireCompletion(completion.unwrap()));
                RunSessionState {
                    phase: RunPhase::Finished(RunOutcome::Failed),
                    caps,
                    transport,
                    local,
                    main_module,
                    completion: None,
                }
            },
            (RunPhase::Driving, RunEvent::HaltObserved) => {
                if caps.is_some() {
                    actions.push(RunAction::ReleaseEngine);
                    actions.push(RunAction::FireCompletion(completion.unwrap()));
                    RunSessionState {
                        phase: RunPhase::Finished(RunOutcome::Halted),
                        caps,
                        transport,
                        local,
                        main_module,
                        completion: None,
                    }
                } else {
                    RunSessionState { phase, caps, transport, local, main_module, completion }
                }
            },
            (RunPhase::Finished(_), RunEvent::CompletionNotDelivered) => {
                actions.push(RunAction::ReportCompletionNotDelivered);
                RunSessionState { phase, caps, transport, local, main_module, completion }
            },
            _ => RunSessionState { phase, caps, transport, local, main_module, completion },
        };
        proof {
            assert(after == before.after(event));
            assert(actions@ =~= before.reaction(event));
        }
        (RunSession { state: after }, actions)
    }
}

impl<S, T, C> RunSessionState<S, T, C> {
    /// The session after the events of `events` in turn.
    pub open spec fn after_all(self, events: Seq<RunEvent>) -> Self
        decreases events.len(),
    {
        if events.len() == 0 {
            self
        } else {
            self.after_all(events.drop_last()).after(events.last())
        }
    }

    /// Every action that the session asks for over `events`, in order.
    pub open spec fn actions_over(self, events: Seq<RunEvent>) -> Seq<RunAction<S, T, C>>
        decreases events.len(),
    {
        if events.len() == 0 {
            Seq::empty()
        } else {
            self.actions_over(events.drop_last()) + self.after_all(events.drop_last()).reaction(
                events.last(),
            )
        }
    }

    /// Whether `event` is a halt signal that the session acts on: the
    /// module is being driven, in a user worker.
    pub open spec fn consumes_halt(self, event: RunEvent) -> bool {
        self.phase == RunPhase::Driving && self.caps is Some && event == RunEvent::HaltObserved
    }

    /// How many of `events` are halt signals that the session acts on.
    pub open spec fn halts_consumed(self, events: Seq<RunEvent>) -> nat
        decreases events.len(),
    {
        if events.len() == 0 {
            0
        } else {
            self.halts_consumed(events.drop_last()) + if self.after_all(
                events.drop_last(),
            ).consumes_halt(events.last()) {
                1nat
            } else {
                0nat
            }
        }
    }
}

/// How often `actions` sends the completion signal.
pub open spec fn completions_fired<S, T, C>(actions: Seq<RunAction<S, T, C>>) -> nat {
    count_where(actions, |a: RunAction<S, T, C>| a is FireCompletion)
}

/// A step keeps a session well formed.
pub proof fn lemma_step_keeps_well_formed<S, T, C>(
    session: RunSessionState<S, T, C>,
    event: RunEvent,
)
    requires
        session.well_formed(),
    ensures
        session.after(event).well_formed(),
{
}

/// Any number of steps keeps a session well formed.
pub proof fn lemma_steps_keep_well_formed<S, T, C>(
    start: RunSessionState<S, T, C>,
    events: Seq<RunEvent>,
)
    requires
        start.well_formed(),
    ensures
        start.after_all(events).well_formed(),
    decreases events.len(),
{
    if events.len() > 0 {
        lemma_steps_keep_well_formed(start, events.drop_last());
        lemma_step_keeps_well_formed(start.after_all(events.drop_last()), events.last());
    }
}

/// A run that is over stays as it is: it acts on no halt and asks for
/// nothing more than to record a completion signal that was not delivered.
pub proof fn lemma_finished_run_is_inert<S, T, C>(
    start: RunSessionState<S, T, C>,
    events: Seq<RunEvent>,
)
    requires
        start.finished(),
    ensures
        start.after_all(events) == start,
        forall|i: int|
            0 <= i < start.actions_over(events).len() ==> #[trigger] start.actions_over(events)[i]
                == RunAction::<S, T, C>::ReportCompletionNotDelivered,
        start.halts_consumed(events) == 0,
    decreases events.len(),
{
    if events.len() > 0 {
        lemma_finished_run_is_inert(start, events.drop_last());
    }
}

proof fn lemma_completions_of_reaction<S, T, C>(session: RunSessionState<S, T, C>, event: RunEvent)
    ensures
        completions_fired(session.reaction(event)) == (if !session.finished() && session.after(
            event,
        ).finished() {
            1nat
        } else {
            0nat
        }),
{
    let r = session.reaction(event);
    reveal_with_fuel(count_where, 5);
    lemma_drop_last_chain(r);
}

/// The completion signal fires exactly once per run: never while the run is
/// under way, once when it ends, however it ends, and never again.
pub proof fn lemma_completion_fires_exactly_once<S, T, C>(
    start: RunSessionState<S, T, C>,
    events: Seq<RunEvent>,
)
    requires
        !start.finished(),
    ensures
        completions_fired(start.actions_over(events)) == (if start.after_all(events).finished() {
            1nat
        } else {
            0nat
        }),
    decreases events.len(),
{
    if events.len() > 0 {
        let before = events.drop_last();
        let session = start.after_all(before);
        lemma_completion_fires_exactly_once(start, before);
        lemma_completions_of_reaction(session, events.last());
        lemma_count_where_concat(
            start.actions_over(before),
            session.reaction(events.last()),
            |a: RunAction<S, T, C>| a is FireCompletion,
        );
    }
}

/// Every way a run can end sends the completion signal, as the last thing
/// the host is asked to do, after the engine has been released; and the
/// sender is the one that the run was started with.
pub proof fn lemma_completion_follows_teardown<S, T, C>(
    session: RunSessionState<S, T, C>,
    event: RunEvent,
)
    requires
        !session.finished(),
        session.after(event).finished(),
    ensures
        session.reaction(event).len() >= 2,
        session.reaction(event).last() == RunAction::<S, T, C>::FireCompletion(
            session.completion->0,
        ),
        exists|i: int|
            0 <= i < session.reaction(event).len() - 1 && #[trigger] session.reaction(event)[i]
                == RunAction::<S, T, C>::ReleaseEngine,
        session.after(event).phase matches RunPhase::Finished(RunOutcome::Aborted(e))
            ==> session.reaction(event)[0] == RunAction::<S, T, C>::ReportFatal(e),
{
    let r = session.reaction(event);
    if session.phase == RunPhase::Driving {
        assert(r[0] == RunAction::<S, T, C>::ReleaseEngine);
    } else {
        assert(r[1] == RunAction::<S, T, C>::ReleaseEngine);
    }
}

/// The completion signal is sent by the step that ends the run, as its last
/// action, and by no other step.
pub proof fn lemma_completion_ends_the_run<S, T, C>(
    session: RunSessionState<S, T, C>,
    event: RunEvent,
)
    ensures
        forall|i: int|
            0 <= i < session.reaction(event).len() ==> ((
            #[trigger] session.reaction(event)[i]) is FireCompletion <==> !session.finished()
                && session.after(event).finished() && i == session.reaction(event).len() - 1),
{
}

/// The run loop acts on the halt signal at most once, however often the
/// signal is reported: once where the run ended halted, never otherwise.
pub proof fn lemma_halt_consumed_at_most_once<S, T, C>(
    start: RunSessionState<S, T, C>,
    events: Seq<RunEvent>,
)
    requires
        !start.finished(),
    ensures
        start.halts_consumed(events) <= 1,
        start.halts_consumed(events) == 1 <==> start.after_all(events).phase == RunPhase::Finished(
            RunOutcome::Halted,
        ),
    decreases events.len(),
{
    if events.len() > 0 {
        lemma_halt_consumed_at_most_once(start, events.drop_last());
    }
}

/// A run ends in exactly one way: once it is over, its outcome stands,
/// whatever is reported afterwards, and all that is still asked for is to
/// record a completion signal that was not delivered.
pub proof fn lemma_outcome_is_final<S, T, C>(
    start: RunSessionState<S, T, C>,
    events: Seq<RunEvent>,
    later: Seq<RunEvent>,
)
    requires
        start.after_all(events).finished(),
    ensures
        start.after_all(events + later) == start.after_all(events),
        start.actions_over(events + later).len() >= start.actions_over(events).len(),
        forall|i: int|
            0 <= i < start.actions_over(events).len() ==> #[trigger] start.actions_over(
                events + later,
            )[i] == start.actions_over(events)[i],
        forall|i: int|
            start.actions_over(events).len() <= i < start.actions_over(events + later).len()
                ==> #[trigger] start.actions_over(events + later)[i]
                == RunAction::<S, T, C>::ReportCompletionNotDelivered,
    decreases later.len(),
{
    if later.len() == 0 {
        assert(events + later =~= events);
    } else {
        lemma_outcome_is_final(start, events, later.drop_last());
        assert((events + later).drop_last() =~= events + later.drop_last());
        assert((events + later).last() == later.last());
    }
}

/// The main worker runs without resource enforcement: its run never
/// registers a heap-pressure bridge, never starts a resource controller,
/// never races the halt signal, and never ends halted.
pub proof fn lemma_main_worker_runs_uncapped<S, T, C>(
    start: RunSessionState<S, T, C>,
    events: Seq<RunEvent>,
)
    requires
        start.caps is None,
        start.phase != RunPhase::Finished(RunOutcome::Halted),
    ensures
        start.after_all(events).caps is None,
        start.after_all(events).phase != RunPhase::Finished(RunOutcome::Halted),
        start.halts_consumed(events) == 0,
        forall|i: int|
            0 <= i < start.actions_over(events).len() ==> {
                let action = #[trigger] start.actions_over(events)[i];
                &&& !(action is RegisterHeapBridge)
                &&& !(action is StartController)
                &&& action matches RunAction::DriveModule { race_halt, .. } ==> !race_halt
            },
    decreases events.len(),
{
    if events.len() > 0 {
        lemma_main_worker_runs_uncapped(start, events.drop_last());
    }
}

/// A user worker never gets the pool's dispatch sender: whenever its run
/// installs context-local state, the sender is absent from it. The main
/// worker's state holds one.
pub proof fn lemma_pool_sender_is_for_main_worker_only<S, T, C>(
    start: RunSessionState<S, T, C>,
    events: Seq<RunEvent>,
)
    requires
        start.well_formed(),
    ensures
        forall|i: int|
            0 <= i < start.actions_over(events).len() ==> (
            #[trigger] start.actions_over(events)[i] matches RunAction::InstallState(local)
                ==> (local.pool_dispatch is None <==> start.caps is Some)),
        start.after_all(events).caps == start.caps,
    decreases events.len(),
{
    if events.len() > 0 {
        lemma_pool_sender_is_for_main_worker_only(start, events.drop_last());
        lemma_steps_keep_well_formed(start, events.drop_last());
    }
}

} // verus!
