//! The resource controller: the watchdog of one user worker's run.
//!
//! The controller waits for the earlier of two events, its timer running out
//! and a notification from the heap-pressure bridge, and then sends the halt
//! signal. The host runs it on a thread of its own: it arms the timer that
//! `timer_ms` gives, hands each event to `handle`, and carries out the
//! actions that come back, in order.

use crate::trace::{count_where, lemma_count_where_concat, lemma_drop_last_chain};
use vstd::prelude::*;

verus! {

/// Why a run was halted.
#[derive(Clone, Copy, Debug, PartialEq, Eq, Structural)]
pub enum HaltCause {
    /// The worker ran for its whole time limit.
    Timeout { timeout_ms: u64 },
    /// The worker reached its memory cap.
    MemoryLimit { used_bytes: u64 },
}

/// Where the controller stands.
#[derive(Clone, Copy, Debug, PartialEq, Eq, Structural)]
pub enum ControllerState {
    /// Waiting for the timer or for a memory notification.
    Watching,
    /// The halt signal has been sent.
    Fired(HaltCause),
    /// The run ended first; the controller will never send anything.
    Abandoned,
}

/// What the host reports to the controller.
#[derive(Clone, Copy, Debug, PartialEq, Eq, Structural)]
pub enum ControllerEvent {
    /// The timer ran out.
    TimerExpired,
    /// The heap-pressure bridge sent a notification.
    MemoryPressure { used_bytes: u64 },
    /// The run is over: the notification channel was closed.
    RunEnded,
    /// The halt signal found no receiver.
    HaltNotDelivered,
}

impl ControllerEvent {
    /// The event that a read of the notification channel stands for: a
    /// notification is memory pressure, a closed channel the end of the run.
    pub open spec fn of_notification(received: Option<u64>) -> ControllerEvent {
        match received {
            Some(used_bytes) => ControllerEvent::MemoryPressure { used_bytes },
            None => ControllerEvent::RunEnded,
        }
    }

    /// Makes the event for what was read from the notification channel.
    pub fn from_notification(received: Option<u64>) -> (event: ControllerEvent)
        ensures
            event == Self::of_notification(received),
    {
        match received {
            Some(used_bytes) => ControllerEvent::MemoryPressure { used_bytes },
            None => ControllerEvent::RunEnded,
        }
    }
}

/// What the controller asks the host to do.
#[derive(Clone, Copy, Debug, PartialEq, Eq, Structural)]
pub enum ControllerAction {
    /// Record that the time limit was reached.
    LogTimeout { timeout_ms: u64 },
    /// Record that the memory cap was reached.
    LogMemoryLimit { used_bytes: u64 },
    /// Interrupt the engine: stop the running script outright.
    TerminateExecution,
    /// Send the one-shot halt signal to the run loop.
    SendHalt,
    /// Record that the halt signal found no receiver.
    LogHaltNotDelivered,
}

/// The timer that a controller with this time limit waits for while it
/// watches: none when the limit is zero.
pub open spec fn armed_timer(worker_timeout_ms: u64, state: ControllerState) -> Option<u64> {
    if state == ControllerState::Watching && worker_timeout_ms > 0 {
        Some(worker_timeout_ms)
    } else {
        None
    }
}

/// The state that follows `state` on `event`.
pub open spec fn next_state(
    worker_timeout_ms: u64,
    state: ControllerState,
    event: ControllerEvent,
) -> ControllerState {
    match (state, event) {
        (ControllerState::Watching, ControllerEvent::TimerExpired) => if worker_timeout_ms > 0 {
            ControllerState::Fired(HaltCause::Timeout { timeout_ms: worker_timeout_ms })
        } else {
            ControllerState::Watching
        },
        (
            ControllerState::Watching,
            ControllerEvent::MemoryPressure { used_bytes },
        ) => ControllerState::Fired(HaltCause::MemoryLimit { used_bytes }),
        (ControllerState::Watching, ControllerEvent::RunEnded) => ControllerState::Abandoned,
        _ => state,
    }
}

/// The actions that `event` calls for in `state`, in the order in which the
/// host performs them.
pub open spec fn reaction(
    worker_timeout_ms: u64,
    state: ControllerState,
    event: ControllerEvent,
) -> Seq<ControllerAction> {
    match (state, event) {
        (ControllerState::Watching, ControllerEvent::TimerExpired) => if worker_timeout_ms > 0 {
            seq![
                ControllerAction::LogTimeout { timeout_ms: worker_timeout_ms },
                ControllerAction::SendHalt,
            ]
        } else {
            seq![]
        },
        (ControllerState::Watching, ControllerEvent::MemoryPressure { used_bytes }) => seq![
            ControllerAction::LogMemoryLimit { used_bytes },
            ControllerAction::TerminateExecution,
            ControllerAction::SendHalt,
        ],
        (ControllerState::Fired(_), ControllerEvent::HaltNotDelivered) => seq![
            ControllerAction::LogHaltNotDelivered,
        ],
        _ => seq![],
    }
}

/// The watchdog of one run.
#[derive(Clone, Copy, Debug, PartialEq, Eq)]
pub struct ResourceController {
    worker_timeout_ms: u64,
    state: ControllerState,
}

impl ResourceController {
    /// The controller's time limit in milliseconds.
    pub closed spec fn timeout_ms(&self) -> u64 {
        self.worker_timeout_ms
    }

    /// The controller's state.
    pub closed spec fn state(&self) -> ControllerState {
        self.state
    }

    /// The controller as it is started for a time limit.
    pub closed spec fn started(worker_timeout_ms: u64) -> Self {
        ResourceController { worker_timeout_ms, state: ControllerState::Watching }
    }

    /// A controller as it is started watches, with the time limit it was
    /// given.
    pub proof fn lemma_started(worker_timeout_ms: u64)
        ensures
            Self::started(worker_timeout_ms).timeout_ms() == worker_timeout_ms,
            Self::started(worker_timeout_ms).state() == ControllerState::Watching,
    {
    }

    /// Starts a controller for a run with this time limit.
    pub fn start(worker_timeout_ms: u64) -> (controller: Self)
        ensures
            controller == Self::started(worker_timeout_ms),
            controller.timeout_ms() == worker_timeout_ms,
            controller.state() == ControllerState::Watching,
    {
        ResourceController { worker_timeout_ms, state: ControllerState::Watching }
    }

    /// The controller's state.
    pub fn current_state(&self) -> (state: ControllerState)
        ensures
            state == self.state(),
    {
        self.state
    }

    /// Whether the controller still waits for something.
    pub fn is_watching(&self) -> (watching: bool)
        ensures
            watching == (self.state() == ControllerState::Watching),
    {
        match self.state {
            ControllerState::Watching => true,
            _ => false,
        }
    }

    /// The timer to wait for, in milliseconds, or `None` where only memory
    /// is watched or nothing is.
    pub fn timer_ms(&self) -> (timer: Option<u64>)
        ensures
            timer == armed_timer(self.timeout_ms(), self.state()),
    {
        match self.state {
            ControllerState::Watching => if self.worker_timeout_ms > 0 {
                Some(self.worker_timeout_ms)
            } else {
                None
            },
            _ => None,
        }
    }

    /// Takes one event and returns what the host has to do about it.
    pub fn handle(&mut self, event: ControllerEvent) -> (actions: Vec<ControllerAction>)
        ensures
            final(self).timeout_ms() == old(self).timeout_ms(),
            final(self).state() == next_state(old(self).timeout_ms(), old(self).state(), event),
            actions@ == reaction(old(self).timeout_ms(), old(self).state(), event),
    {
        let timeout_ms: u64 = self.worker_timeout_ms;
        let mut actions: Vec<ControllerAction> = Vec::new();
        match (self.state, event) {
            (ControllerState::Watching, ControllerEvent::TimerExpired) => {
                if timeout_ms > 0 {
                    actions.push(ControllerAction::LogTimeout { timeout_ms });
                    actions.push(ControllerAction::SendHalt);
                    self.state = ControllerState::Fired(HaltCause::Timeout { timeout_ms });
                }
            },
            (ControllerState::Watching, ControllerEvent::MemoryPressure { used_bytes }) => {
                actions.push(ControllerAction::LogMemoryLimit { used_bytes });
                actions.push(ControllerAction::TerminateExecution);
                actions.push(ControllerAction::SendHalt);
                self.state = ControllerState::Fired(HaltCause::MemoryLimit { used_bytes });
            },
            (ControllerState::Watching, ControllerEvent::RunEnded) => {
                self.state = ControllerState::Abandoned;
            },
            (ControllerState::Fired(_), ControllerEvent::HaltNotDelivered) => {
                actions.push(ControllerAction::LogHaltNotDelivered);
            },
            _ => {},
        }
        actions
    }
}

/// The state of a controller, started with this time limit, after the
/// events of `events` in turn.
pub open spec fn state_after(worker_timeout_ms: u64, events: Seq<ControllerEvent>) -> ControllerState
    decreases events.len(),
{
    if events.len() == 0 {
        ControllerState::Watching
    } else {
        next_state(
            worker_timeout_ms,
            state_after(worker_timeout_ms, events.drop_last()),
            events.last(),
        )
    }
}

/// Every action that such a controller asks for over `events`, in order.
pub open spec fn actions_over(worker_timeout_ms: u64, events: Seq<ControllerEvent>) -> Seq<
    ControllerAction,
>
    decreases events.len(),
{
    if events.len() == 0 {
        Seq::empty()
    } else {
        actions_over(worker_timeout_ms, events.drop_last()) + reaction(
            worker_timeout_ms,
            state_after(worker_timeout_ms, events.drop_last()),
            events.last(),
        )
    }
}

/// How often `actions` sends the halt signal.
pub open spec fn halts_sent(actions: Seq<ControllerAction>) -> nat {
    count_where(actions, |a: ControllerAction| a == ControllerAction::SendHalt)
}

/// How often `actions` interrupts the engine.
pub open spec fn interrupts_issued(actions: Seq<ControllerAction>) -> nat {
    count_where(actions, |a: ControllerAction| a == ControllerAction::TerminateExecution)
}

/// Whether `events` holds a memory notification.
pub open spec fn reports_memory_pressure(events: Seq<ControllerEvent>) -> bool {
    exists|i: int| 0 <= i < events.len() && (#[trigger] events[i]) is MemoryPressure
}

proof fn lemma_counts_of_reaction(
    worker_timeout_ms: u64,
    state: ControllerState,
    event: ControllerEvent,
)
    ensures
        halts_sent(reaction(worker_timeout_ms, state, event)) == (if state
            == ControllerState::Watching && next_state(worker_timeout_ms, state, event) is Fired {
            1nat
        } else {
            0nat
        }),
        interrupts_issued(reaction(worker_timeout_ms, state, event)) == (if state
            == ControllerState::Watching && event is MemoryPressure {
            1nat
        } else {
            0nat
        }),
{
    let r = reaction(worker_timeout_ms, state, event);
    let halt = |a: ControllerAction| a == ControllerAction::SendHalt;
    let stop = |a: ControllerAction| a == ControllerAction::TerminateExecution;
    reveal_with_fuel(count_where, 4);
    lemma_drop_last_chain(r);
}

/// The halt signal is sent at most once, however many events arrive and in
/// whatever order: once where the controller has fired, never otherwise.
pub proof fn lemma_halt_sent_at_most_once(worker_timeout_ms: u64, events: Seq<ControllerEvent>)
    ensures
        halts_sent(actions_over(worker_timeout_ms, events)) <= 1,
        halts_sent(actions_over(worker_timeout_ms, events)) == 1 <==> state_after(
            worker_timeout_ms,
            events,
        ) is Fired,
    decreases events.len(),
{
    if events.len() > 0 {
        let before = events.drop_last();
        let state = state_after(worker_timeout_ms, before);
        lemma_halt_sent_at_most_once(worker_timeout_ms, before);
        lemma_counts_of_reaction(worker_timeout_ms, state, events.last());
        lemma_count_where_concat(
            actions_over(worker_timeout_ms, before),
            reaction(worker_timeout_ms, state, events.last()),
            |a: ControllerAction| a == ControllerAction::SendHalt,
        );
    }
}

/// The engine is interrupted at most once, and exactly where the controller
/// has fired because of memory.
pub proof fn lemma_interrupt_only_for_memory(worker_timeout_ms: u64, events: Seq<ControllerEvent>)
    ensures
        interrupts_issued(actions_over(worker_timeout_ms, events)) <= 1,
        interrupts_issued(actions_over(worker_timeout_ms, events)) == 1 <==> (state_after(
            worker_timeout_ms,
            events,
        ) matches ControllerState::Fired(cause) && cause is MemoryLimit),
    decreases events.len(),
{
    if events.len() > 0 {
        let before = events.drop_last();
        let state = state_after(worker_timeout_ms, before);
        lemma_interrupt_only_for_memory(worker_timeout_ms, before);
        lemma_counts_of_reaction(worker_timeout_ms, state, events.last());
        lemma_count_where_concat(
            actions_over(worker_timeout_ms, before),
            reaction(worker_timeout_ms, state, events.last()),
            |a: ControllerAction| a == ControllerAction::TerminateExecution,
        );
    }
}

/// Wherever the engine is interrupted, the halt signal is the very next
/// action, and the record of the memory breach the one before.
pub proof fn lemma_interrupt_precedes_halt(
    worker_timeout_ms: u64,
    events: Seq<ControllerEvent>,
    at: int,
)
    requires
        0 <= at < actions_over(worker_timeout_ms, events).len(),
        actions_over(worker_timeout_ms, events)[at] == ControllerAction::TerminateExecution,
    ensures
        0 < at,
        actions_over(worker_timeout_ms, events)[at - 1] is LogMemoryLimit,
        at + 1 < actions_over(worker_timeout_ms, events).len(),
        actions_over(worker_timeout_ms, events)[at + 1] == ControllerAction::SendHalt,
    decreases events.len(),
{
    let before = events.drop_last();
    let earlier = actions_over(worker_timeout_ms, before);
    if at < earlier.len() {
        lemma_interrupt_precedes_halt(worker_timeout_ms, before, at);
    }
}

/// Without a memory notification the controller fires for no cause but the
/// time limit, which is then not zero, and never interrupts the engine.
pub proof fn lemma_timeout_is_the_only_cause_without_pressure(
    worker_timeout_ms: u64,
    events: Seq<ControllerEvent>,
)
    requires
        !reports_memory_pressure(events),
    ensures
        interrupts_issued(actions_over(worker_timeout_ms, events)) == 0,
        state_after(worker_timeout_ms, events) is Fired ==> worker_timeout_ms > 0 && state_after(
            worker_timeout_ms,
            events,
        ) == ControllerState::Fired(HaltCause::Timeout { timeout_ms: worker_timeout_ms }),
    decreases events.len(),
{
    if events.len() > 0 {
        let before = events.drop_last();
        let state = state_after(worker_timeout_ms, before);
        assert(!reports_memory_pressure(before)) by {
            if reports_memory_pressure(before) {
                let i = choose|i: int| 0 <= i < before.len() && (#[trigger] before[i]) is MemoryPressure;
                assert(events[i] is MemoryPressure);
            }
        }
        assert(!(events.last() is MemoryPressure)) by {
            assert(events[events.len() - 1] == events.last());
        }
        lemma_timeout_is_the_only_cause_without_pressure(worker_timeout_ms, before);
        lemma_counts_of_reaction(worker_timeout_ms, state, events.last());
        lemma_count_where_concat(
            actions_over(worker_timeout_ms, before),
            reaction(worker_timeout_ms, state, events.last()),
            |a: ControllerAction| a == ControllerAction::TerminateExecution,
        );
    }
}

/// A controller that was abandoned has sent nothing and stays abandoned.
pub proof fn lemma_abandoned_controller_is_silent(
    worker_timeout_ms: u64,
    events: Seq<ControllerEvent>,
    event: ControllerEvent,
)
    requires
        state_after(worker_timeout_ms, events) == ControllerState::Abandoned,
    ensures
        halts_sent(actions_over(worker_timeout_ms, events)) == 0,
        interrupts_issued(actions_over(worker_timeout_ms, events)) == 0,
        state_after(worker_timeout_ms, events.push(event)) == ControllerState::Abandoned,
        actions_over(worker_timeout_ms, events.push(event)) == actions_over(
            worker_timeout_ms,
            events,
        ),
{
    lemma_halt_sent_at_most_once(worker_timeout_ms, events);
    lemma_interrupt_only_for_memory(worker_timeout_ms, events);
    assert(events.push(event).drop_last() =~= events);
    assert(events.push(event).last() == event);
}

} // verus!
