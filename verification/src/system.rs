//! One run seen whole: the run loop, the resource controller and the
//! engine's heap callback, with the channels between them.
//!
//! Each of the three is driven by the functions of this library; the host
//! connects them. This module writes that connection down as a transition
//! system that keeps a history of what was done. What holds of every such
//! history is proved in `system_laws`.
//!
//! The model takes the host at its word: actions are performed in the order
//! in which they are handed out, the timer runs out no sooner than it was
//! set for, the notification channel delivers in order, and the halt signal
//! reaches the run loop only while the module is driven.

use crate::controller::{
    armed_timer,
    next_state,
    reaction,
    ControllerAction,
    ControllerEvent,
    ControllerState,
};
use crate::limits::{HeapPressureBridge, HeapPressureResponse};
use crate::run::{RunAction, RunEvent, RunSessionState};
use vstd::prelude::*;

verus! {

/// Something that was done.
pub enum Occurrence<S, T, C> {
    /// The host performed an action of the run.
    Run(RunAction<S, T, C>),
    /// The host performed an action of the resource controller.
    Watchdog(ControllerAction),
    /// The engine called the heap-pressure bridge and got this answer.
    HeapCallback(HeapPressureResponse),
    /// The run loop took the halt signal.
    HaltObserved,
}

/// An occurrence with the time at which it happened.
pub struct Entry<S, T, C> {
    /// Milliseconds since the world began.
    pub at_ms: nat,
    /// What happened.
    pub what: Occurrence<S, T, C>,
}

/// The one-shot halt signal.
#[derive(Clone, Copy, Debug, PartialEq, Eq, Structural)]
pub enum HaltSignal {
    /// Nothing was sent.
    Idle,
    /// Sent, and not yet received.
    Sent,
    /// Received by the run loop.
    Taken,
    /// Sent when nobody listened any more; the controller has not been told.
    Bounced,
    /// Sent when nobody listened any more; the controller has been told.
    Lost,
}

/// A resource controller at work.
pub struct Watchdog {
    /// The time limit that the controller was started with.
    pub timeout_ms: u64,
    /// Where the controller stands.
    pub state: ControllerState,
    /// When the controller was started.
    pub started_at: nat,
}

/// What can happen to a run from outside the library.
pub enum Stimulus {
    /// The host reports what came of the run's last action. The halt signal
    /// is not reported this way: it arrives.
    Report(RunEvent),
    /// The engine is about to exceed its soft heap target.
    HeapPressure,
    /// Time passes.
    TimePasses { ms: nat },
    /// The controller's timer runs out.
    TimerFires,
    /// The controller receives the oldest notification under way.
    NotificationArrives,
    /// The controller finds the notification channel closed and empty.
    PressureChannelCloses,
    /// The controller learns that its halt signal found no receiver.
    HaltBounceNoticed,
    /// The run loop receives the halt signal.
    HaltArrives,
}

/// A run with everything around it.
pub struct World<S, T, C> {
    /// The run loop.
    pub session: RunSessionState<S, T, C>,
    /// The heap-pressure bridge, while it is registered with a live engine.
    pub bridge: Option<HeapPressureBridge>,
    /// The resource controller, once it has been started.
    pub watchdog: Option<Watchdog>,
    /// The notifications that the bridge has sent and the controller has
    /// not received, oldest first.
    pub pressure: Seq<u64>,
    /// The halt signal.
    pub halt: HaltSignal,
    /// Milliseconds since the world began.
    pub now_ms: nat,
    /// Everything that was done, oldest first.
    pub history: Seq<Entry<S, T, C>>,
}

/// The kinds of occurrence whose order matters.
#[derive(Clone, Copy, Debug, PartialEq, Eq, Structural)]
pub enum Kind {
    /// The engine called the heap-pressure bridge.
    HeapCallback,
    /// The controller interrupted the engine.
    Interrupt,
    /// The controller sent the halt signal.
    HaltSent,
    /// The run loop took the halt signal.
    HaltObserved,
}

/// Whether an entry is of a kind.
pub open spec fn of_kind<S, T, C>(entry: Entry<S, T, C>, kind: Kind) -> bool {
    match kind {
        Kind::HeapCallback => entry.what is HeapCallback,
        Kind::Interrupt => entry.what matches Occurrence::Watchdog(
            ControllerAction::TerminateExecution,
        ),
        Kind::HaltSent => entry.what matches Occurrence::Watchdog(ControllerAction::SendHalt),
        Kind::HaltObserved => entry.what is HaltObserved,
    }
}

/// The host sent the completion signal.
pub open spec fn is_completion<S, T, C>(entry: Entry<S, T, C>) -> bool {
    entry.what matches Occurrence::Run(RunAction::FireCompletion(_))
}

/// The host released the engine.
pub open spec fn is_release<S, T, C>(entry: Entry<S, T, C>) -> bool {
    entry.what matches Occurrence::Run(RunAction::ReleaseEngine)
}

/// Whether one of the first `upto` entries of `history` is of a kind.
pub open spec fn happened_before<S, T, C>(
    history: Seq<Entry<S, T, C>>,
    kind: Kind,
    upto: int,
) -> bool {
    exists|i: int| 0 <= i < upto && i < history.len() && #[trigger] of_kind(history[i], kind)
}

/// Whether an entry of `history` is of a kind.
pub open spec fn happened<S, T, C>(history: Seq<Entry<S, T, C>>, kind: Kind) -> bool {
    happened_before(history, kind, history.len() as int)
}

/// Whether at most one entry of `history` is of a kind.
pub open spec fn at_most_once<S, T, C>(history: Seq<Entry<S, T, C>>, kind: Kind) -> bool {
    forall|i: int, j: int|
        0 <= i < history.len() && 0 <= j < history.len() && #[trigger] of_kind(history[i], kind)
            && #[trigger] of_kind(history[j], kind) ==> i == j
}

impl<S, T, C> World<S, T, C> {
    /// The world in which a run starts: nothing is registered, started,
    /// sent or done.
    pub open spec fn start(session: RunSessionState<S, T, C>) -> Self {
        World {
            session,
            bridge: None,
            watchdog: None,
            pressure: Seq::empty(),
            halt: HaltSignal::Idle,
            now_ms: 0,
            history: Seq::empty(),
        }
    }

    /// The world with one more entry in its history.
    pub open spec fn record(self, what: Occurrence<S, T, C>) -> Self {
        World { history: self.history.push(Entry { at_ms: self.now_ms, what }), ..self }
    }

    /// The host performs one action of the run.
    pub open spec fn perform(self, action: RunAction<S, T, C>) -> Self {
        let done = self.record(Occurrence::Run(action));
        match action {
            RunAction::RegisterHeapBridge(bridge) => World { bridge: Some(bridge), ..done },
            RunAction::StartController(controller) => World {
                watchdog: Some(
                    Watchdog {
                        timeout_ms: controller.timeout_ms(),
                        state: controller.state(),
                        started_at: self.now_ms,
                    },
                ),
                ..done
            },
            RunAction::ReleaseEngine => World { bridge: None, ..done },
            _ => done,
        }
    }

    /// The host performs actions of the run, in order.
    pub open spec fn perform_all(self, actions: Seq<RunAction<S, T, C>>) -> Self
        decreases actions.len(),
    {
        if actions.len() == 0 {
            self
        } else {
            self.perform_all(actions.drop_last()).perform(actions.last())
        }
    }

    /// The host performs one action of the controller. A halt signal sent
    /// while the run loop listens is under way; one sent later bounces.
    pub open spec fn carry_out(self, action: ControllerAction) -> Self {
        let done = self.record(Occurrence::Watchdog(action));
        match action {
            ControllerAction::SendHalt => if self.session.finished() {
                World { halt: HaltSignal::Bounced, ..done }
            } else {
                World { halt: HaltSignal::Sent, ..done }
            },
            _ => done,
        }
    }

    /// The host performs actions of the controller, in order.
    pub open spec fn carry_out_all(self, actions: Seq<ControllerAction>) -> Self
        decreases actions.len(),
    {
        if actions.len() == 0 {
            self
        } else {
            self.carry_out_all(actions.drop_last()).carry_out(actions.last())
        }
    }

    /// The run loop takes an event and the host does what it asks for.
    pub open spec fn session_handles(self, event: RunEvent) -> Self {
        World { session: self.session.after(event), ..self }.perform_all(
            self.session.reaction(event),
        )
    }

    /// The controller takes an event and the host does what it asks for.
    pub open spec fn watchdog_handles(self, event: ControllerEvent) -> Self {
        match self.watchdog {
            Some(watchdog) => World {
                watchdog: Some(
                    Watchdog {
                        state: next_state(watchdog.timeout_ms, watchdog.state, event),
                        ..watchdog
                    },
                ),
                ..self
            }.carry_out_all(reaction(watchdog.timeout_ms, watchdog.state, event)),
            None => self,
        }
    }

    /// Whether the controller's timer may run out now: it is armed and its
    /// time has passed.
    pub open spec fn timer_due(self) -> bool {
        self.watchdog matches Some(watchdog) && (armed_timer(
            watchdog.timeout_ms,
            watchdog.state,
        ) matches Some(timeout_ms) && self.now_ms >= watchdog.started_at + timeout_ms)
    }

    /// The world after one stimulus. A stimulus that cannot happen in this
    /// world changes nothing.
    pub open spec fn next(self, stimulus: Stimulus) -> Self {
        match stimulus {
            Stimulus::Report(event) => if event == RunEvent::HaltObserved {
                self
            } else {
                self.session_handles(event)
            },
            Stimulus::HeapPressure => match self.bridge {
                Some(bridge) => World {
                    pressure: self.pressure.push(bridge.response().notification_bytes),
                    ..self
                }.record(Occurrence::HeapCallback(bridge.response())),
                None => self,
            },
            Stimulus::TimePasses { ms } => World { now_ms: self.now_ms + ms, ..self },
            Stimulus::TimerFires => if self.timer_due() {
                self.watchdog_handles(ControllerEvent::TimerExpired)
            } else {
                self
            },
            Stimulus::NotificationArrives => if self.watchdog is Some && self.pressure.len() > 0 {
                World { pressure: self.pressure.drop_first(), ..self }.watchdog_handles(
                    ControllerEvent::MemoryPressure { used_bytes: self.pressure[0] },
                )
            } else {
                self
            },
            Stimulus::PressureChannelCloses => if self.session.finished() && self.pressure.len()
                == 0 {
                self.watchdog_handles(ControllerEvent::RunEnded)
            } else {
                self
            },
            Stimulus::HaltBounceNoticed => if self.halt == HaltSignal::Bounced {
                World { halt: HaltSignal::Lost, ..self }.watchdog_handles(
                    ControllerEvent::HaltNotDelivered,
                )
            } else {
                self
            },
            Stimulus::HaltArrives => if self.halt == HaltSignal::Sent && !self.session.finished() {
                World { halt: HaltSignal::Taken, ..self }.record(
                    Occurrence::HaltObserved,
                ).session_handles(RunEvent::HaltObserved)
            } else {
                self
            },
        }
    }

    /// The world after the stimuli of `stimuli` in turn.
    pub open spec fn after_all(self, stimuli: Seq<Stimulus>) -> Self
        decreases stimuli.len(),
    {
        if stimuli.len() == 0 {
            self
        } else {
            self.after_all(stimuli.drop_last()).next(stimuli.last())
        }
    }
}

} // verus!
