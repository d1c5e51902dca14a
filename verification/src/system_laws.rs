//! What holds of every world that a run can reach: the order of the heap
//! callback, the interrupt and the halt, that the halt signal crosses once
//! at most and never before its time, and that completion is signalled
//! exactly once.

use crate::controller::{
    next_state,
    reaction,
    ControllerAction,
    ControllerEvent,
    ControllerState,
    HaltCause,
    ResourceController,
};
use crate::limits::HeapPressureBridge;
use crate::run::{
    lemma_completion_ends_the_run,
    lemma_completion_follows_teardown,
    lemma_step_keeps_well_formed,
    RunAction,
    RunEvent,
    RunOutcome,
    RunPhase,
    RunSessionState,
};
use crate::trace::lemma_drop_last_chain;
use crate::system::{
    at_most_once,
    happened,
    happened_before,
    is_completion,
    is_release,
    of_kind,
    Entry,
    HaltSignal,
    Kind,
    Occurrence,
    Stimulus,
    Watchdog,
    World,
};
use vstd::prelude::*;

verus! {

impl<S, T, C> World<S, T, C> {
    /// Whether the controller has fired.
    pub open spec fn fired(self) -> bool {
        self.watchdog matches Some(watchdog) && watchdog.state is Fired
    }

    /// The parts of the world fit together: enforcement is there for a user
    /// worker's module and for nothing else.
    pub open spec fn fitted(self) -> bool {
        &&& self.session.well_formed()
        &&& self.watchdog is Some ==> self.session.caps is Some && (self.session.phase
            == RunPhase::Driving || self.session.finished())
        &&& self.bridge matches Some(bridge) ==> self.session.phase == RunPhase::Driving && (
        self.session.caps matches Some(caps) && bridge == HeapPressureBridge::with_limit(
            caps.memory_limit_mb,
        ))
        &&& self.halt == HaltSignal::Taken ==> self.session.phase == RunPhase::Finished(
            RunOutcome::Halted,
        )
        &&& forall|k: int| 0 <= k < self.history.len() ==> (#[trigger] self.history[k]).at_ms
            <= self.now_ms
    }

    /// The history agrees with where the controller and the halt signal
    /// stand.
    pub open spec fn accounted(self) -> bool {
        let h = self.history;
        &&& self.pressure.len() > 0 ==> happened(h, Kind::HeapCallback)
        &&& !self.fired() ==> self.halt == HaltSignal::Idle && !happened(h, Kind::HaltSent)
            && !happened(h, Kind::Interrupt)
        &&& self.fired() ==> self.halt != HaltSignal::Idle && happened(h, Kind::HaltSent)
        &&& self.watchdog matches Some(watchdog) ==> match watchdog.state {
            ControllerState::Fired(HaltCause::Timeout { timeout_ms }) => {
                &&& timeout_ms == watchdog.timeout_ms
                &&& timeout_ms > 0
                &&& !happened(h, Kind::Interrupt)
                &&& forall|k: int|
                    0 <= k < h.len() && #[trigger] of_kind(h[k], Kind::HaltSent) ==> h[k].at_ms
                        >= watchdog.started_at + timeout_ms
            },
            ControllerState::Fired(HaltCause::MemoryLimit { .. }) => {
                &&& happened(h, Kind::Interrupt)
                &&& happened(h, Kind::HeapCallback)
            },
            _ => true,
        }
        &&& self.halt == HaltSignal::Taken <==> happened(h, Kind::HaltObserved)
    }

    /// The history is in order: the heap callback comes before the
    /// interrupt, the halt signal goes out right after the interrupt, and
    /// the run loop takes the signal after both; the engine is released
    /// right after the signal is taken and is never heard of again; and
    /// interrupt, sending and taking happen at most once each.
    pub open spec fn ordered(self) -> bool {
        let h = self.history;
        &&& forall|k: int|
            0 <= k < h.len() && #[trigger] of_kind(h[k], Kind::Interrupt) ==> {
                &&& happened_before(h, Kind::HeapCallback, k)
                &&& k + 1 < h.len()
                &&& of_kind(h[k + 1], Kind::HaltSent)
            }
        &&& forall|k: int|
            0 <= k < h.len() && #[trigger] of_kind(h[k], Kind::HaltObserved) ==> happened_before(
                h,
                Kind::HaltSent,
                k,
            )
        &&& forall|i: int, k: int|
            0 <= i < h.len() && 0 <= k < h.len() && #[trigger] of_kind(h[i], Kind::Interrupt)
                && #[trigger] of_kind(h[k], Kind::HaltObserved) ==> i < k
        &&& forall|i: int, k: int|
            0 <= i < h.len() && 0 <= k < h.len() && #[trigger] of_kind(h[i], Kind::HeapCallback)
                && #[trigger] of_kind(h[k], Kind::HaltObserved) ==> i < k
        &&& forall|k: int|
            0 <= k < h.len() && #[trigger] of_kind(h[k], Kind::HaltObserved) ==> k + 1 < h.len()
                && h[k + 1].what == Occurrence::<S, T, C>::Run(RunAction::ReleaseEngine)
        &&& at_most_once(h, Kind::Interrupt)
        &&& at_most_once(h, Kind::HaltSent)
        &&& at_most_once(h, Kind::HaltObserved)
    }

    /// Everything that holds of a world that a run can reach.
    pub open spec fn consistent(self) -> bool {
        &&& self.fitted()
        &&& self.accounted()
        &&& self.ordered()
    }
}

/// What performing the actions of a run does to the world, up to the
/// bridge and the controller: the history grows by one entry for each
/// action, none of them of a kind whose order matters.
proof fn lemma_perform_all<S, T, C>(w: World<S, T, C>, actions: Seq<RunAction<S, T, C>>)
    ensures
        ({
            let after = w.perform_all(actions);
            &&& after.session == w.session
            &&& after.pressure == w.pressure
            &&& after.halt == w.halt
            &&& after.now_ms == w.now_ms
            &&& after.history.len() == w.history.len() + actions.len()
            &&& forall|k: int|
                0 <= k < w.history.len() ==> #[trigger] after.history[k] == w.history[k]
            &&& forall|k: int|
                w.history.len() <= k < after.history.len() ==> (#[trigger] after.history[k])
                    == Entry::<S, T, C> {
                    at_ms: w.now_ms,
                    what: Occurrence::Run(actions[k - w.history.len()]),
                }
        }),
    decreases actions.len(),
{
    if actions.len() > 0 {
        lemma_perform_all(w, actions.drop_last());
    }
}

/// What performing the actions of the controller does to the world: the
/// history grows by one entry for each action, and a halt signal among
/// them is under way or has bounced.
proof fn lemma_carry_out_all<S, T, C>(w: World<S, T, C>, actions: Seq<ControllerAction>)
    ensures
        ({
            let after = w.carry_out_all(actions);
            let sends = exists|i: int|
                0 <= i < actions.len() && #[trigger] actions[i] == ControllerAction::SendHalt;
            &&& after.session == w.session
            &&& after.bridge == w.bridge
            &&& after.watchdog == w.watchdog
            &&& after.pressure == w.pressure
            &&& after.now_ms == w.now_ms
            &&& after.halt == (if sends {
                if w.session.finished() {
                    HaltSignal::Bounced
                } else {
                    HaltSignal::Sent
                }
            } else {
                w.halt
            })
            &&& after.history.len() == w.history.len() + actions.len()
            &&& forall|k: int|
                0 <= k < w.history.len() ==> #[trigger] after.history[k] == w.history[k]
            &&& forall|k: int|
                w.history.len() <= k < after.history.len() ==> (#[trigger] after.history[k])
                    == Entry::<S, T, C> {
                    at_ms: w.now_ms,
                    what: Occurrence::Watchdog(actions[k - w.history.len()]),
                }
        }),
    decreases actions.len(),
{
    if actions.len() > 0 {
        let shorter = actions.drop_last();
        lemma_carry_out_all(w, shorter);
        let sends_shorter = exists|i: int|
            0 <= i < shorter.len() && #[trigger] shorter[i] == ControllerAction::SendHalt;
        let sends = exists|i: int|
            0 <= i < actions.len() && #[trigger] actions[i] == ControllerAction::SendHalt;
        if sends_shorter {
            let i = choose|i: int|
                0 <= i < shorter.len() && #[trigger] shorter[i] == ControllerAction::SendHalt;
            assert(actions[i] == ControllerAction::SendHalt);
        }
        if actions.last() == ControllerAction::SendHalt {
            assert(actions[actions.len() - 1] == ControllerAction::SendHalt);
        }
        if sends && !sends_shorter {
            let i = choose|i: int|
                0 <= i < actions.len() && #[trigger] actions[i] == ControllerAction::SendHalt;
            if i < shorter.len() {
                assert(shorter[i] == ControllerAction::SendHalt);
            }
        }
    }
}

/// What a step of the run loop does to the world. Enforcement starts when
/// a user worker's module is about to be driven, the bridge goes when the
/// engine is released, and nothing else changes but session and history.
proof fn lemma_session_handles<S, T, C>(w: World<S, T, C>, event: RunEvent)
    ensures
        ({
            let after = w.session_handles(event);
            let starts = w.session.phase == RunPhase::BindingTransport && event
                == RunEvent::TransportBound && w.session.caps is Some;
            let ends = !w.session.finished() && w.session.after(event).finished();
            &&& after.session == w.session.after(event)
            &&& after.pressure == w.pressure
            &&& after.halt == w.halt
            &&& after.now_ms == w.now_ms
            &&& after.history.len() >= w.history.len()
            &&& forall|k: int|
                0 <= k < w.history.len() ==> #[trigger] after.history[k] == w.history[k]
            &&& forall|k: int|
                w.history.len() <= k < after.history.len() ==> (#[trigger] after.history[k]).what is Run
                    && after.history[k].at_ms == w.now_ms
            &&& after.watchdog == (if starts {
                Some(
                    Watchdog {
                        timeout_ms: w.session.caps->0.worker_timeout_ms,
                        state: ControllerState::Watching,
                        started_at: w.now_ms,
                    },
                )
            } else {
                w.watchdog
            })
            &&& after.bridge == (if starts {
                Some(HeapPressureBridge::with_limit(w.session.caps->0.memory_limit_mb))
            } else if ends {
                None
            } else {
                w.bridge
            })
        }),
{
    let moved = World { session: w.session.after(event), ..w };
    let r = w.session.reaction(event);
    lemma_perform_all(moved, r);
    reveal_with_fuel(World::perform_all, 5);
    if w.session.caps is Some {
        ResourceController::lemma_started(w.session.caps->0.worker_timeout_ms);
    }
    lemma_drop_last_chain(r);
}

/// What has happened in a history has happened in every history that
/// goes on from it.
proof fn lemma_happenings_persist<S, T, C>(
    h: Seq<Entry<S, T, C>>,
    longer: Seq<Entry<S, T, C>>,
    kind: Kind,
)
    requires
        h.len() <= longer.len(),
        forall|k: int| 0 <= k < h.len() ==> #[trigger] longer[k] == h[k],
    ensures
        happened(h, kind) ==> happened(longer, kind),
        forall|upto: int| happened_before(h, kind, upto) ==> happened_before(longer, kind, upto),
{
    assert forall|upto: int| happened_before(h, kind, upto) implies happened_before(
        longer,
        kind,
        upto,
    ) by {
        let i = choose|i: int| 0 <= i < upto && i < h.len() && #[trigger] of_kind(h[i], kind);
        assert(of_kind(longer[i], kind));
    }
    if happened(h, kind) {
        assert(happened_before(longer, kind, h.len() as int));
        let i = choose|i: int|
            0 <= i < h.len() && i < longer.len() && #[trigger] of_kind(longer[i], kind);
        assert(of_kind(longer[i], kind));
    }
}

/// A history that has grown by entries of no kind that matters has the
/// same things happen in it as before.
proof fn lemma_same_happenings<S, T, C>(
    h: Seq<Entry<S, T, C>>,
    longer: Seq<Entry<S, T, C>>,
    kind: Kind,
)
    requires
        h.len() <= longer.len(),
        forall|k: int| 0 <= k < h.len() ==> #[trigger] longer[k] == h[k],
        forall|k: int| h.len() <= k < longer.len() ==> !of_kind(#[trigger] longer[k], kind),
    ensures
        happened(longer, kind) == happened(h, kind),
        forall|upto: int| happened_before(h, kind, upto) ==> happened_before(longer, kind, upto),
        at_most_once(h, kind) ==> at_most_once(longer, kind),
{
    lemma_happenings_persist(h, longer, kind);
    if happened(longer, kind) {
        let i = choose|i: int|
            0 <= i < longer.len() && i < longer.len() && #[trigger] of_kind(longer[i], kind);
        assert(i < h.len());
        assert(of_kind(h[i], kind));
    }
    if at_most_once(h, kind) {
        assert forall|i: int, j: int|
            0 <= i < longer.len() && 0 <= j < longer.len() && #[trigger] of_kind(longer[i], kind)
                && #[trigger] of_kind(longer[j], kind) implies i == j by {
            assert(i < h.len() && j < h.len());
            assert(of_kind(h[i], kind) && of_kind(h[j], kind));
        }
    }
}

/// A world that has grown out of a consistent one without the controller
/// or the halt signal moving is consistent as far as its history goes: the
/// new entries are of no kind that matters, but for calls of the bridge,
/// which come only while no halt has been taken.
proof fn lemma_quiet_growth<S, T, C>(w: World<S, T, C>, after: World<S, T, C>)
    requires
        w.fitted(),
        w.accounted(),
        w.ordered(),
        after.halt == w.halt,
        after.fired() == w.fired(),
        after.fired() ==> after.watchdog == w.watchdog,
        after.pressure.len() > 0 ==> w.pressure.len() > 0 || happened(
            after.history,
            Kind::HeapCallback,
        ),
        w.now_ms <= after.now_ms,
        w.history.len() <= after.history.len(),
        forall|k: int| 0 <= k < w.history.len() ==> #[trigger] after.history[k] == w.history[k],
        forall|k: int|
            w.history.len() <= k < after.history.len() ==> (#[trigger] after.history[k]).at_ms
                <= after.now_ms,
        forall|k: int, kind: Kind|
            w.history.len() <= k < after.history.len() && kind != Kind::HeapCallback
                ==> !#[trigger] of_kind(after.history[k], kind),
        forall|k: int|
            w.history.len() <= k < after.history.len() && #[trigger] of_kind(
                after.history[k],
                Kind::HeapCallback,
            ) ==> !happened(w.history, Kind::HaltObserved),
    ensures
        after.accounted(),
        after.ordered(),
        forall|k: int| 0 <= k < after.history.len() ==> (#[trigger] after.history[k]).at_ms
            <= after.now_ms,
{
    let h = w.history;
    let g = after.history;
    lemma_happenings_persist(h, g, Kind::HeapCallback);
    lemma_same_happenings(h, g, Kind::Interrupt);
    lemma_same_happenings(h, g, Kind::HaltSent);
    lemma_same_happenings(h, g, Kind::HaltObserved);
    assert forall|k: int| 0 <= k < g.len() implies (#[trigger] g[k]).at_ms <= after.now_ms by {
        if k < h.len() {
            assert(g[k] == h[k]);
        }
    }
    assert forall|k: int| 0 <= k < g.len() && #[trigger] of_kind(g[k], Kind::Interrupt) implies {
        &&& happened_before(g, Kind::HeapCallback, k)
        &&& k + 1 < g.len()
        &&& of_kind(g[k + 1], Kind::HaltSent)
    } by {
        assert(k < h.len());
        assert(of_kind(h[k], Kind::Interrupt));
        assert(g[k + 1] == h[k + 1]);
    }
    assert forall|k: int|
        0 <= k < g.len() && #[trigger] of_kind(g[k], Kind::HaltObserved) implies happened_before(
        g,
        Kind::HaltSent,
        k,
    ) by {
        assert(k < h.len());
        assert(of_kind(h[k], Kind::HaltObserved));
    }
    assert forall|i: int, k: int|
        0 <= i < g.len() && 0 <= k < g.len() && #[trigger] of_kind(g[i], Kind::Interrupt)
            && #[trigger] of_kind(g[k], Kind::HaltObserved) implies i < k by {
        assert(i < h.len() && k < h.len());
        assert(of_kind(h[i], Kind::Interrupt) && of_kind(h[k], Kind::HaltObserved));
    }
    assert forall|i: int, k: int|
        0 <= i < g.len() && 0 <= k < g.len() && #[trigger] of_kind(g[i], Kind::HeapCallback)
            && #[trigger] of_kind(g[k], Kind::HaltObserved) implies i < k by {
        assert(k < h.len());
        assert(of_kind(h[k], Kind::HaltObserved));
        assert(happened(h, Kind::HaltObserved));
        assert(i < h.len());
        assert(of_kind(h[i], Kind::HeapCallback));
    }
    assert forall|k: int|
        0 <= k < g.len() && #[trigger] of_kind(g[k], Kind::HaltObserved) implies k + 1 < g.len()
        && g[k + 1].what == Occurrence::<S, T, C>::Run(RunAction::ReleaseEngine) by {
        assert(k < h.len());
        assert(of_kind(h[k], Kind::HaltObserved));
        assert(g[k + 1] == h[k + 1]);
    }
    if after.fired() {
        let watchdog = w.watchdog->0;
        match watchdog.state {
            ControllerState::Fired(HaltCause::Timeout { timeout_ms }) => {
                assert forall|k: int|
                    0 <= k < g.len() && #[trigger] of_kind(g[k], Kind::HaltSent) implies g[k].at_ms
                    >= watchdog.started_at + timeout_ms by {
                    assert(k < h.len());
                    assert(of_kind(h[k], Kind::HaltSent));
                }
            },
            _ => {},
        }
    }
}

/// A step of the run loop that the host reports keeps the world consistent.
proof fn lemma_report_keeps_consistent<S, T, C>(w: World<S, T, C>, event: RunEvent)
    requires
        w.consistent(),
        event != RunEvent::HaltObserved,
    ensures
        w.session_handles(event).consistent(),
{
    let after = w.session_handles(event);
    lemma_session_handles(w, event);
    lemma_step_keeps_well_formed(w.session, event);
    assert forall|k: int, kind: Kind|
        w.history.len() <= k < after.history.len() implies !#[trigger] of_kind(
        after.history[k],
        kind,
    ) by {
        assert(after.history[k].what is Run);
    }
    lemma_quiet_growth(w, after);
}

/// A call of the heap-pressure bridge keeps the world consistent.
proof fn lemma_heap_pressure_keeps_consistent<S, T, C>(w: World<S, T, C>)
    requires
        w.consistent(),
    ensures
        w.next(Stimulus::HeapPressure).consistent(),
{
    let after = w.next(Stimulus::HeapPressure);
    if w.bridge is Some {
        let n = w.history.len() as int;
        assert(of_kind(after.history[n], Kind::HeapCallback));
        assert(happened(after.history, Kind::HeapCallback));
        lemma_quiet_growth(w, after);
    }
}

/// The controller's firing keeps the world consistent: for its timer, once
/// the time limit has passed, and for a notification, once the bridge has
/// been called.
proof fn lemma_firing_keeps_consistent<S, T, C>(w: World<S, T, C>, event: ControllerEvent)
    requires
        w.fitted(),
        w.accounted(),
        w.ordered(),
        w.watchdog matches Some(watchdog) && watchdog.state == ControllerState::Watching,
        match event {
            ControllerEvent::TimerExpired => w.timer_due(),
            ControllerEvent::MemoryPressure { .. } => happened(w.history, Kind::HeapCallback),
            _ => false,
        },
    ensures
        w.watchdog_handles(event).consistent(),
{
    let watchdog = w.watchdog->0;
    let r = reaction(watchdog.timeout_ms, watchdog.state, event);
    let moved = World {
        watchdog: Some(
            Watchdog { state: next_state(watchdog.timeout_ms, watchdog.state, event), ..watchdog },
        ),
        ..w
    };
    let after = w.watchdog_handles(event);
    assert(after == moved.carry_out_all(r));
    lemma_carry_out_all(moved, r);
    let h = w.history;
    let g = after.history;
    let n = h.len() as int;
    assert(r[r.len() - 1] == ControllerAction::SendHalt);
    assert(after.halt == HaltSignal::Sent || after.halt == HaltSignal::Bounced);
    assert(!happened(h, Kind::HaltObserved));
    let halt_at = n + r.len() - 1;
    assert(of_kind(g[halt_at], Kind::HaltSent));
    assert forall|k: int| 0 <= k < n implies !of_kind(#[trigger] g[k], Kind::Interrupt) && !of_kind(
        g[k],
        Kind::HaltSent,
    ) && !of_kind(g[k], Kind::HaltObserved) by {
        assert(g[k] == h[k]);
        assert(!of_kind(h[k], Kind::Interrupt));
        assert(!of_kind(h[k], Kind::HaltSent));
        assert(!of_kind(h[k], Kind::HaltObserved));
    }
    assert forall|k: int| n <= k < g.len() implies !of_kind(#[trigger] g[k], Kind::HaltObserved)
        && !of_kind(g[k], Kind::HeapCallback) && (of_kind(g[k], Kind::HaltSent) <==> k == halt_at)
        && (of_kind(g[k], Kind::Interrupt) <==> (event is MemoryPressure && k == n + 1)) by {
        assert(g[k].what == Occurrence::<S, T, C>::Watchdog(r[k - n]));
    }
    assert(happened(g, Kind::HaltSent));
    assert(!happened(g, Kind::HaltObserved));
    if happened(h, Kind::HeapCallback) {
        let i = choose|i: int|
            0 <= i < h.len() && i < h.len() && #[trigger] of_kind(h[i], Kind::HeapCallback);
        assert(g[i] == h[i]);
        assert(of_kind(g[i], Kind::HeapCallback));
        assert(happened(g, Kind::HeapCallback));
        assert(happened_before(g, Kind::HeapCallback, n + 1));
    }
    if event is MemoryPressure {
        assert(of_kind(g[n + 1], Kind::Interrupt));
        assert(happened(g, Kind::Interrupt));
    } else {
        assert(!happened(g, Kind::Interrupt));
    }
    assert(after.accounted());
    assert(after.ordered());
    assert(after.fitted()) by {
        assert forall|k: int| 0 <= k < g.len() implies (#[trigger] g[k]).at_ms <= after.now_ms by {
            if k < n {
                assert(g[k] == h[k]);
            }
        }
    }
}

/// An event that does not make the controller fire keeps the world
/// consistent.
proof fn lemma_idle_watchdog_keeps_consistent<S, T, C>(w: World<S, T, C>, event: ControllerEvent)
    requires
        w.fitted(),
        w.accounted(),
        w.ordered(),
        w.watchdog matches Some(watchdog) ==> next_state(
            watchdog.timeout_ms,
            watchdog.state,
            event,
        ) is Fired == watchdog.state is Fired,
    ensures
        w.watchdog_handles(event).consistent(),
{
    if w.watchdog is Some {
        let watchdog = w.watchdog->0;
        let r = reaction(watchdog.timeout_ms, watchdog.state, event);
        let moved = World {
            watchdog: Some(
                Watchdog {
                    state: next_state(watchdog.timeout_ms, watchdog.state, event),
                    ..watchdog
                },
            ),
            ..w
        };
        let after = w.watchdog_handles(event);
        assert(after == moved.carry_out_all(r));
        lemma_carry_out_all(moved, r);
        assert forall|k: int, kind: Kind|
            w.history.len() <= k < after.history.len() implies !#[trigger] of_kind(
            after.history[k],
            kind,
        ) by {
            assert(after.history[k].what == Occurrence::<S, T, C>::Watchdog(
                r[k - w.history.len()],
            ));
        }
        lemma_quiet_growth(w, after);
    }
}

/// The run loop's taking the halt signal keeps the world consistent.
proof fn lemma_halt_arrival_keeps_consistent<S, T, C>(w: World<S, T, C>)
    requires
        w.consistent(),
        w.halt == HaltSignal::Sent,
        !w.session.finished(),
    ensures
        w.next(Stimulus::HaltArrives).consistent(),
{
    let taken = World { halt: HaltSignal::Taken, ..w }.record(Occurrence::HaltObserved);
    let after = taken.session_handles(RunEvent::HaltObserved);
    assert(after == w.next(Stimulus::HaltArrives));
    lemma_session_handles(taken, RunEvent::HaltObserved);
    lemma_perform_all(
        World { session: taken.session.after(RunEvent::HaltObserved), ..taken },
        taken.session.reaction(RunEvent::HaltObserved),
    );
    lemma_step_keeps_well_formed(w.session, RunEvent::HaltObserved);
    let h = w.history;
    let m = taken.history;
    let g = after.history;
    let n = h.len() as int;
    assert(w.fired());
    assert(w.session.phase == RunPhase::Driving);
    assert(after.session.phase == RunPhase::Finished(RunOutcome::Halted));
    assert(!happened(h, Kind::HaltObserved));
    assert(m[n].what is HaltObserved);
    assert forall|k: int| 0 <= k < n implies #[trigger] g[k] == h[k] by {
        assert(g[k] == m[k]);
    }
    assert(g[n] == m[n]);
    assert(of_kind(g[n], Kind::HaltObserved));
    assert forall|k: int, kind: Kind| n < k < g.len() implies !#[trigger] of_kind(g[k], kind) by {
        assert(g[k].what is Run);
    }
    assert forall|k: int| 0 <= k < g.len() implies (of_kind(#[trigger] g[k], Kind::HaltObserved)
        <==> k == n) by {
        if k < n {
            assert(!of_kind(h[k], Kind::HaltObserved));
        }
    }
    assert forall|k: int, kind: Kind|
        0 <= k < g.len() && kind != Kind::HaltObserved && #[trigger] of_kind(
            g[k],
            kind,
        ) implies k < n && of_kind(h[k], kind) by {
        if k == n {
            assert(g[n].what is HaltObserved);
        }
    }
    assert(happened(g, Kind::HaltObserved));
    let sent_at = choose|i: int|
        0 <= i < h.len() && i < h.len() && #[trigger] of_kind(h[i], Kind::HaltSent);
    assert(of_kind(g[sent_at], Kind::HaltSent));
    assert(happened(g, Kind::HaltSent));
    assert(happened_before(g, Kind::HaltSent, n));
    if happened(h, Kind::Interrupt) {
        let i = choose|i: int|
            0 <= i < h.len() && i < h.len() && #[trigger] of_kind(h[i], Kind::Interrupt);
        assert(of_kind(g[i], Kind::Interrupt));
    }
    if happened(h, Kind::HeapCallback) {
        let i = choose|i: int|
            0 <= i < h.len() && i < h.len() && #[trigger] of_kind(h[i], Kind::HeapCallback);
        assert(of_kind(g[i], Kind::HeapCallback));
    }
    if happened(g, Kind::Interrupt) {
        let i = choose|i: int|
            0 <= i < g.len() && i < g.len() && #[trigger] of_kind(g[i], Kind::Interrupt);
        assert(of_kind(h[i], Kind::Interrupt));
    }
    assert forall|k: int| 0 <= k < g.len() && #[trigger] of_kind(g[k], Kind::Interrupt) implies {
        &&& happened_before(g, Kind::HeapCallback, k)
        &&& k + 1 < g.len()
        &&& of_kind(g[k + 1], Kind::HaltSent)
    } by {
        assert(of_kind(h[k], Kind::Interrupt));
        let i = choose|i: int|
            0 <= i < k && i < h.len() && #[trigger] of_kind(h[i], Kind::HeapCallback);
        assert(of_kind(g[i], Kind::HeapCallback));
        assert(k + 1 < n);
        assert(g[k + 1] == h[k + 1]);
    }
    assert(after.accounted()) by {
        let watchdog = w.watchdog->0;
        match watchdog.state {
            ControllerState::Fired(HaltCause::Timeout { timeout_ms }) => {
                assert forall|k: int|
                    0 <= k < g.len() && #[trigger] of_kind(g[k], Kind::HaltSent) implies g[k].at_ms
                    >= watchdog.started_at + timeout_ms by {
                    assert(of_kind(h[k], Kind::HaltSent));
                }
            },
            _ => {},
        }
    }
    assert(g[n + 1].what == Occurrence::<S, T, C>::Run(RunAction::ReleaseEngine));
    assert(after.ordered()) by {
        assert forall|i: int, k: int|
            0 <= i < g.len() && 0 <= k < g.len() && #[trigger] of_kind(g[i], Kind::HeapCallback)
                && #[trigger] of_kind(g[k], Kind::HaltObserved) implies i < k by {
            assert(of_kind(h[i], Kind::HeapCallback));
        }
        assert(at_most_once(g, Kind::Interrupt)) by {
            assert forall|i: int, j: int|
                0 <= i < g.len() && 0 <= j < g.len() && #[trigger] of_kind(g[i], Kind::Interrupt)
                    && #[trigger] of_kind(g[j], Kind::Interrupt) implies i == j by {
                assert(of_kind(h[i], Kind::Interrupt) && of_kind(h[j], Kind::Interrupt));
            }
        }
        assert(at_most_once(g, Kind::HaltSent)) by {
            assert forall|i: int, j: int|
                0 <= i < g.len() && 0 <= j < g.len() && #[trigger] of_kind(g[i], Kind::HaltSent)
                    && #[trigger] of_kind(g[j], Kind::HaltSent) implies i == j by {
                assert(of_kind(h[i], Kind::HaltSent) && of_kind(h[j], Kind::HaltSent));
            }
        }
    }
    assert(after.fitted()) by {
        assert forall|k: int| 0 <= k < g.len() implies (#[trigger] g[k]).at_ms <= after.now_ms by {
            if k < n {
                assert(g[k] == h[k]);
            }
        }
    }
}

/// Every stimulus keeps a consistent world consistent.
pub proof fn lemma_next_keeps_consistent<S, T, C>(w: World<S, T, C>, stimulus: Stimulus)
    requires
        w.consistent(),
    ensures
        w.next(stimulus).consistent(),
{
    match stimulus {
        Stimulus::Report(event) => {
            if event != RunEvent::HaltObserved {
                lemma_report_keeps_consistent(w, event);
            }
        },
        Stimulus::HeapPressure => {
            lemma_heap_pressure_keeps_consistent(w);
        },
        Stimulus::TimePasses { ms } => {},
        Stimulus::TimerFires => {
            if w.timer_due() {
                lemma_firing_keeps_consistent(w, ControllerEvent::TimerExpired);
            }
        },
        Stimulus::NotificationArrives => {
            if w.watchdog is Some && w.pressure.len() > 0 {
                let received = World { pressure: w.pressure.drop_first(), ..w };
                let event = ControllerEvent::MemoryPressure { used_bytes: w.pressure[0] };
                if w.watchdog->0.state == ControllerState::Watching {
                    lemma_firing_keeps_consistent(received, event);
                } else {
                    lemma_idle_watchdog_keeps_consistent(received, event);
                }
            }
        },
        Stimulus::PressureChannelCloses => {
            if w.session.finished() && w.pressure.len() == 0 {
                lemma_idle_watchdog_keeps_consistent(w, ControllerEvent::RunEnded);
            }
        },
        Stimulus::HaltBounceNoticed => {
            if w.halt == HaltSignal::Bounced {
                let told = World { halt: HaltSignal::Lost, ..w };
                lemma_idle_watchdog_keeps_consistent(told, ControllerEvent::HaltNotDelivered);
            }
        },
        Stimulus::HaltArrives => {
            if w.halt == HaltSignal::Sent && !w.session.finished() {
                lemma_halt_arrival_keeps_consistent(w);
            }
        },
    }
}

/// Every world that a run reaches from its start is consistent.
pub proof fn lemma_reachable_worlds_are_consistent<S, T, C>(
    session: RunSessionState<S, T, C>,
    stimuli: Seq<Stimulus>,
)
    requires
        session.well_formed(),
    ensures
        World::start(session).after_all(stimuli).consistent(),
    decreases stimuli.len(),
{
    if stimuli.len() > 0 {
        lemma_reachable_worlds_are_consistent(session, stimuli.drop_last());
        lemma_next_keeps_consistent(
            World::start(session).after_all(stimuli.drop_last()),
            stimuli.last(),
        );
    }
}

/// The interrupt stands between the heap callback and the halt: wherever
/// the controller interrupts the engine, the bridge has been called before,
/// the halt signal goes out as the very next thing, and the run loop takes
/// the signal only after that.
pub proof fn lemma_interrupt_follows_callback_and_precedes_halt<S, T, C>(
    session: RunSessionState<S, T, C>,
    stimuli: Seq<Stimulus>,
    at: int,
)
    requires
        session.well_formed(),
        0 <= at < World::start(session).after_all(stimuli).history.len(),
        of_kind(World::start(session).after_all(stimuli).history[at], Kind::Interrupt),
    ensures
        ({
            let h = World::start(session).after_all(stimuli).history;
            &&& happened_before(h, Kind::HeapCallback, at)
            &&& at + 1 < h.len()
            &&& of_kind(h[at + 1], Kind::HaltSent)
            &&& forall|k: int|
                0 <= k < h.len() && #[trigger] of_kind(h[k], Kind::HaltObserved) ==> at + 1 < k
        }),
{
    lemma_reachable_worlds_are_consistent(session, stimuli);
    let h = World::start(session).after_all(stimuli).history;
    assert forall|k: int|
        0 <= k < h.len() && #[trigger] of_kind(h[k], Kind::HaltObserved) implies at + 1 < k by {
        assert(at < k);
        assert(!of_kind(h[at + 1], Kind::HaltObserved));
    }
}

/// The halt signal crosses at most once: it is sent at most once, taken at
/// most once, and never taken before it was sent.
pub proof fn lemma_halt_signal_crosses_at_most_once<S, T, C>(
    session: RunSessionState<S, T, C>,
    stimuli: Seq<Stimulus>,
)
    requires
        session.well_formed(),
    ensures
        ({
            let h = World::start(session).after_all(stimuli).history;
            &&& at_most_once(h, Kind::HaltSent)
            &&& at_most_once(h, Kind::HaltObserved)
            &&& at_most_once(h, Kind::Interrupt)
            &&& forall|k: int|
                0 <= k < h.len() && #[trigger] of_kind(h[k], Kind::HaltObserved) ==> happened_before(
                    h,
                    Kind::HaltSent,
                    k,
                )
        }),
{
    lemma_reachable_worlds_are_consistent(session, stimuli);
}

/// Nothing runs past a halt that the run loop has taken: the engine is
/// released as the very next thing, and the heap callback and the
/// interrupt, where they happen at all, have happened before.
pub proof fn lemma_nothing_runs_past_an_observed_halt<S, T, C>(
    session: RunSessionState<S, T, C>,
    stimuli: Seq<Stimulus>,
    at: int,
)
    requires
        session.well_formed(),
        0 <= at < World::start(session).after_all(stimuli).history.len(),
        of_kind(World::start(session).after_all(stimuli).history[at], Kind::HaltObserved),
    ensures
        ({
            let w = World::start(session).after_all(stimuli);
            let h = w.history;
            &&& at + 1 < h.len()
            &&& h[at + 1].what == Occurrence::<S, T, C>::Run(RunAction::ReleaseEngine)
            &&& w.session.phase == RunPhase::Finished(RunOutcome::Halted)
            &&& w.bridge is None
            &&& forall|i: int|
                0 <= i < h.len() && (#[trigger] of_kind(h[i], Kind::HeapCallback) || of_kind(
                    h[i],
                    Kind::Interrupt,
                ) || of_kind(h[i], Kind::HaltSent)) ==> i < at
        }),
{
    lemma_reachable_worlds_are_consistent(session, stimuli);
    let w = World::start(session).after_all(stimuli);
    let h = w.history;
    assert(happened(h, Kind::HaltObserved));
    assert forall|i: int|
        0 <= i < h.len() && (#[trigger] of_kind(h[i], Kind::HeapCallback) || of_kind(
            h[i],
            Kind::Interrupt,
        ) || of_kind(h[i], Kind::HaltSent)) implies i < at by {
        if of_kind(h[i], Kind::HaltSent) {
            let sent = choose|j: int|
                0 <= j < at && j < h.len() && #[trigger] of_kind(h[j], Kind::HaltSent);
            assert(sent == i);
        }
    }
}

/// A halt for the time limit is never early: it goes out no sooner than
/// the time limit after the controller was started, and no interrupt goes
/// with it.
pub proof fn lemma_timeout_halt_is_not_early<S, T, C>(
    session: RunSessionState<S, T, C>,
    stimuli: Seq<Stimulus>,
    at: int,
)
    requires
        session.well_formed(),
        0 <= at < World::start(session).after_all(stimuli).history.len(),
        of_kind(World::start(session).after_all(stimuli).history[at], Kind::HaltSent),
        World::start(session).after_all(stimuli).watchdog matches Some(watchdog)
            && watchdog.state matches ControllerState::Fired(HaltCause::Timeout { .. }),
    ensures
        ({
            let w = World::start(session).after_all(stimuli);
            let watchdog = w.watchdog->0;
            &&& watchdog.timeout_ms > 0
            &&& watchdog.state == ControllerState::Fired(
                HaltCause::Timeout { timeout_ms: watchdog.timeout_ms },
            )
            &&& w.history[at].at_ms >= watchdog.started_at + watchdog.timeout_ms
            &&& !happened(w.history, Kind::Interrupt)
        }),
{
    lemma_reachable_worlds_are_consistent(session, stimuli);
}

/// What the controller's handling an event changes: its own state, the
/// history, which grows by entries of the controller, and the halt signal,
/// which a controller that has fired leaves as it is and which no
/// controller makes taken.
proof fn lemma_watchdog_handles<S, T, C>(w: World<S, T, C>, event: ControllerEvent)
    ensures
        ({
            let after = w.watchdog_handles(event);
            &&& after.session == w.session
            &&& after.bridge == w.bridge
            &&& after.pressure == w.pressure
            &&& after.now_ms == w.now_ms
            &&& after.history.len() >= w.history.len()
            &&& forall|k: int|
                0 <= k < w.history.len() ==> #[trigger] after.history[k] == w.history[k]
            &&& forall|k: int|
                w.history.len() <= k < after.history.len() ==> (#[trigger] after.history[k]).what is Watchdog
            &&& after.halt == HaltSignal::Taken ==> w.halt == HaltSignal::Taken
            &&& w.fired() ==> after.halt == w.halt
        }),
{
    if w.watchdog is Some {
        let watchdog = w.watchdog->0;
        let moved = World {
            watchdog: Some(
                Watchdog {
                    state: next_state(watchdog.timeout_ms, watchdog.state, event),
                    ..watchdog
                },
            ),
            ..w
        };
        lemma_carry_out_all(moved, reaction(watchdog.timeout_ms, watchdog.state, event));
    }
}

/// What any stimulus leaves alone in a consistent world: the caps, the
/// history so far, and a halt signal that has been taken. The bridge is
/// called under heap pressure alone, and a run ends halted only by taking
/// the signal.
proof fn lemma_next_frame<S, T, C>(w: World<S, T, C>, stimulus: Stimulus)
    requires
        w.consistent(),
    ensures
        ({
            let after = w.next(stimulus);
            &&& after.session.caps == w.session.caps
            &&& after.history.len() >= w.history.len()
            &&& forall|k: int|
                0 <= k < w.history.len() ==> #[trigger] after.history[k] == w.history[k]
            &&& forall|k: int|
                w.history.len() <= k < after.history.len() && (#[trigger] after.history[k]).what is HeapCallback
                    ==> stimulus is HeapPressure && w.bridge is Some && after.history[k].what
                    == Occurrence::<S, T, C>::HeapCallback(w.bridge->0.response())
            &&& !(stimulus is HeapPressure) ==> after.pressure.len() <= w.pressure.len()
            &&& w.halt == HaltSignal::Taken ==> after.halt == HaltSignal::Taken
            &&& after.session.phase == RunPhase::Finished(RunOutcome::Halted) ==> w.session.phase
                == RunPhase::Finished(RunOutcome::Halted) || after.halt == HaltSignal::Taken
        }),
{
    let after = w.next(stimulus);
    match stimulus {
        Stimulus::Report(event) => {
            lemma_session_handles(w, event);
        },
        Stimulus::HaltArrives => {
            if w.halt == HaltSignal::Sent && !w.session.finished() {
                let taken = World { halt: HaltSignal::Taken, ..w }.record(Occurrence::HaltObserved);
                lemma_session_handles(taken, RunEvent::HaltObserved);
                assert forall|k: int| 0 <= k < w.history.len() implies #[trigger] after.history[k]
                    == w.history[k] by {
                    assert(after.history[k] == taken.history[k]);
                }
                assert forall|k: int|
                    w.history.len() <= k < after.history.len() implies !((
                #[trigger] after.history[k]).what is HeapCallback) by {
                    if k == w.history.len() {
                        assert(after.history[k] == taken.history[k]);
                    }
                }
            }
        },
        Stimulus::TimerFires => {
            lemma_watchdog_handles(w, ControllerEvent::TimerExpired);
        },
        Stimulus::NotificationArrives => {
            if w.pressure.len() > 0 {
                lemma_watchdog_handles(
                    World { pressure: w.pressure.drop_first(), ..w },
                    ControllerEvent::MemoryPressure { used_bytes: w.pressure[0] },
                );
            }
        },
        Stimulus::PressureChannelCloses => {
            lemma_watchdog_handles(w, ControllerEvent::RunEnded);
        },
        Stimulus::HaltBounceNoticed => {
            lemma_watchdog_handles(
                World { halt: HaltSignal::Lost, ..w },
                ControllerEvent::HaltNotDelivered,
            );
        },
        _ => {},
    }
}

/// Whether the engine ever comes under heap pressure in `stimuli`.
pub open spec fn has_heap_pressure(stimuli: Seq<Stimulus>) -> bool {
    exists|i: int| 0 <= i < stimuli.len() && (#[trigger] stimuli[i]) is HeapPressure
}

/// A run, taken from before its end, that sees no heap pressure is halted
/// for no cause but the time limit: the bridge is never called, the engine
/// is never interrupted, and a controller that has fired has fired for its
/// timer. A run that ends halted has taken the signal of such a controller,
/// and ends without error.
pub proof fn lemma_without_pressure_only_the_timer_halts<S, T, C>(
    session: RunSessionState<S, T, C>,
    stimuli: Seq<Stimulus>,
)
    requires
        session.well_formed(),
        !session.finished(),
        !has_heap_pressure(stimuli),
    ensures
        ({
            let w = World::start(session).after_all(stimuli);
            &&& w.pressure.len() == 0
            &&& !happened(w.history, Kind::HeapCallback)
            &&& !happened(w.history, Kind::Interrupt)
            &&& w.fired() ==> w.watchdog->0.timeout_ms > 0 && w.watchdog->0.state
                == ControllerState::Fired(
                HaltCause::Timeout { timeout_ms: w.watchdog->0.timeout_ms },
            )
            &&& w.session.phase == RunPhase::Finished(RunOutcome::Halted) ==> w.fired()
                && w.halt == HaltSignal::Taken && RunOutcome::Halted.as_result() is Ok
        }),
    decreases stimuli.len(),
{
    lemma_reachable_worlds_are_consistent(session, stimuli);
    if stimuli.len() > 0 {
        let before = stimuli.drop_last();
        assert(!has_heap_pressure(before)) by {
            if has_heap_pressure(before) {
                let i = choose|i: int|
                    0 <= i < before.len() && (#[trigger] before[i]) is HeapPressure;
                assert(stimuli[i] is HeapPressure);
            }
        }
        assert(!(stimuli.last() is HeapPressure)) by {
            assert(stimuli[stimuli.len() - 1] == stimuli.last());
        }
        lemma_without_pressure_only_the_timer_halts(session, before);
        let v = World::start(session).after_all(before);
        let w = v.next(stimuli.last());
        lemma_reachable_worlds_are_consistent(session, before);
        lemma_next_frame(v, stimuli.last());
        assert forall|k: int| v.history.len() <= k < w.history.len() implies !of_kind(
            #[trigger] w.history[k],
            Kind::HeapCallback,
        ) by {}
        lemma_same_happenings(v.history, w.history, Kind::HeapCallback);
    }
}

/// The main worker's world is bare: no bridge is registered, no controller
/// started, nothing notified, no halt sent, and all that is ever done is
/// what the run itself asks for.
pub proof fn lemma_main_worker_world_is_bare<S, T, C>(
    session: RunSessionState<S, T, C>,
    stimuli: Seq<Stimulus>,
)
    requires
        session.caps is None,
    ensures
        ({
            let w = World::start(session).after_all(stimuli);
            &&& w.session.caps is None
            &&& w.bridge is None
            &&& w.watchdog is None
            &&& w.pressure.len() == 0
            &&& w.halt == HaltSignal::Idle
            &&& forall|k: int| 0 <= k < w.history.len() ==> (#[trigger] w.history[k]).what is Run
        }),
    decreases stimuli.len(),
{
    if stimuli.len() > 0 {
        let v = World::start(session).after_all(stimuli.drop_last());
        lemma_main_worker_world_is_bare(session, stimuli.drop_last());
        match stimuli.last() {
            Stimulus::Report(event) => {
                lemma_session_handles(v, event);
                let after = v.session_handles(event);
                assert forall|k: int| 0 <= k < after.history.len() implies (
                #[trigger] after.history[k]).what is Run by {
                    if k < v.history.len() {
                        assert(after.history[k] == v.history[k]);
                    }
                }
            },
            _ => {},
        }
    }
}

/// The caps of a run never change.
proof fn lemma_caps_stay<S, T, C>(session: RunSessionState<S, T, C>, stimuli: Seq<Stimulus>)
    requires
        session.well_formed(),
    ensures
        World::start(session).after_all(stimuli).session.caps == session.caps,
    decreases stimuli.len(),
{
    if stimuli.len() > 0 {
        lemma_caps_stay(session, stimuli.drop_last());
        lemma_reachable_worlds_are_consistent(session, stimuli.drop_last());
        lemma_next_frame(World::start(session).after_all(stimuli.drop_last()), stimuli.last());
    }
}

/// Every call of the heap-pressure bridge is answered from the worker's
/// cap: the notification carries the cap in bytes, and the soft target
/// granted is the cap and a quarter, never less than the cap.
pub proof fn lemma_callbacks_answer_with_the_cap<S, T, C>(
    session: RunSessionState<S, T, C>,
    stimuli: Seq<Stimulus>,
    at: int,
)
    requires
        session.well_formed(),
        0 <= at < World::start(session).after_all(stimuli).history.len(),
        World::start(session).after_all(stimuli).history[at].what is HeapCallback,
    ensures
        session.caps is Some,
        ({
            let cap = session.caps->0.memory_limit_mb;
            let answer = World::start(session).after_all(stimuli).history[at].what->HeapCallback_0;
            &&& answer == HeapPressureBridge::with_limit(cap).response()
            &&& answer.notification_bytes == cap * 1_048_576
            &&& answer.new_soft_limit_bytes == (cap + cap / 4) * 1_048_576
            &&& answer.new_soft_limit_bytes >= answer.notification_bytes
        }),
    decreases stimuli.len(),
{
    if stimuli.len() > 0 {
        let before = stimuli.drop_last();
        let v = World::start(session).after_all(before);
        let w = v.next(stimuli.last());
        lemma_reachable_worlds_are_consistent(session, before);
        lemma_caps_stay(session, before);
        lemma_next_frame(v, stimuli.last());
        if at < v.history.len() {
            assert(w.history[at] == v.history[at]);
            lemma_callbacks_answer_with_the_cap(session, before, at);
        }
        HeapPressureBridge::lemma_response_for(session.caps->0.memory_limit_mb);
    }
}

impl<S, T, C> World<S, T, C> {
    /// The history agrees with whether the run is over: completion has been
    /// signalled exactly where it is, once, after the engine was released
    /// and after every call of the bridge.
    pub open spec fn concluded(self) -> bool {
        let h = self.history;
        &&& self.session.finished() <==> exists|k: int|
            0 <= k < h.len() && #[trigger] is_completion(h[k])
        &&& forall|i: int, j: int|
            0 <= i < h.len() && 0 <= j < h.len() && #[trigger] is_completion(h[i])
                && #[trigger] is_completion(h[j]) ==> i == j
        &&& forall|k: int|
            0 <= k < h.len() && #[trigger] is_completion(h[k]) ==> exists|j: int|
                0 <= j < k && #[trigger] is_release(h[j])
        &&& forall|i: int, k: int|
            0 <= i < h.len() && 0 <= k < h.len() && #[trigger] of_kind(h[i], Kind::HeapCallback)
                && #[trigger] is_completion(h[k]) ==> i < k
    }
}

/// A step of the run loop keeps the history in agreement with whether the
/// run is over.
proof fn lemma_session_step_keeps_concluded<S, T, C>(w: World<S, T, C>, event: RunEvent)
    requires
        w.concluded(),
    ensures
        w.session_handles(event).concluded(),
{
    let after = w.session_handles(event);
    let moved = World { session: w.session.after(event), ..w };
    let r = w.session.reaction(event);
    lemma_perform_all(moved, r);
    lemma_completion_ends_the_run(w.session, event);
    let h = w.history;
    let g = after.history;
    let n = h.len() as int;
    assert forall|k: int| n <= k < g.len() implies (is_completion(#[trigger] g[k]) <==> r[k
        - n] is FireCompletion) && !of_kind(g[k], Kind::HeapCallback) by {
        assert(g[k].what == Occurrence::<S, T, C>::Run(r[k - n]));
    }
    assert forall|k: int| 0 <= k < n implies is_completion(#[trigger] g[k]) == is_completion(
        h[k],
    ) && of_kind(g[k], Kind::HeapCallback) == of_kind(h[k], Kind::HeapCallback) by {
        assert(g[k] == h[k]);
    }
    if !w.session.finished() && w.session.after(event).finished() {
        lemma_completion_follows_teardown(w.session, event);
        let last = n + r.len() - 1;
        assert(is_completion(g[last]));
        let released = choose|i: int|
            0 <= i < r.len() - 1 && #[trigger] r[i] == RunAction::<S, T, C>::ReleaseEngine;
        assert(g[n + released].what == Occurrence::<S, T, C>::Run(r[released]));
        assert(is_release(g[n + released]));
        assert forall|k: int| 0 <= k < g.len() && #[trigger] is_completion(g[k]) implies k
            == last by {
            if k < n {
                assert(is_completion(h[k]));
            }
        }
    } else {
        assert forall|k: int| 0 <= k < g.len() && #[trigger] is_completion(g[k]) implies k < n
            && is_completion(h[k]) by {}
        if w.session.finished() {
            let k = choose|k: int| 0 <= k < h.len() && #[trigger] is_completion(h[k]);
            assert(is_completion(g[k]));
        }
        assert forall|k: int| 0 <= k < g.len() && #[trigger] is_completion(g[k]) implies exists|
            j: int,
        |
            0 <= j < k && #[trigger] is_release(g[j]) by {
            let j = choose|j: int| 0 <= j < k && #[trigger] is_release(h[j]);
            assert(g[j] == h[j]);
            assert(is_release(g[j]));
        }
    }
}

/// Every stimulus keeps the history in agreement with whether the run is
/// over.
proof fn lemma_next_keeps_concluded<S, T, C>(w: World<S, T, C>, stimulus: Stimulus)
    requires
        w.consistent(),
        w.concluded(),
    ensures
        w.next(stimulus).concluded(),
{
    let after = w.next(stimulus);
    let h = w.history;
    let g = after.history;
    match stimulus {
        Stimulus::Report(event) => {
            if event != RunEvent::HaltObserved {
                lemma_session_step_keeps_concluded(w, event);
            }
        },
        Stimulus::HaltArrives => {
            if w.halt == HaltSignal::Sent && !w.session.finished() {
                let taken = World { halt: HaltSignal::Taken, ..w }.record(Occurrence::HaltObserved);
                assert(taken.concluded()) by {
                    let m = taken.history;
                    assert forall|k: int| 0 <= k < m.len() implies !#[trigger] is_completion(
                        m[k],
                    ) by {
                        if k < h.len() {
                            assert(m[k] == h[k]);
                            assert(!is_completion(h[k]));
                        }
                    }
                }
                lemma_session_step_keeps_concluded(taken, RunEvent::HaltObserved);
            }
        },
        Stimulus::TimePasses { ms } => {},
        _ => {
            lemma_next_frame(w, stimulus);
            match stimulus {
                Stimulus::TimerFires => {
                    lemma_watchdog_handles(w, ControllerEvent::TimerExpired);
                },
                Stimulus::NotificationArrives => {
                    if w.pressure.len() > 0 {
                        lemma_watchdog_handles(
                            World { pressure: w.pressure.drop_first(), ..w },
                            ControllerEvent::MemoryPressure { used_bytes: w.pressure[0] },
                        );
                    }
                },
                Stimulus::PressureChannelCloses => {
                    lemma_watchdog_handles(w, ControllerEvent::RunEnded);
                },
                Stimulus::HaltBounceNoticed => {
                    lemma_watchdog_handles(
                        World { halt: HaltSignal::Lost, ..w },
                        ControllerEvent::HaltNotDelivered,
                    );
                },
                _ => {},
            }
            assert(after.session == w.session);
            assert forall|k: int| h.len() <= k < g.len() implies !is_completion(#[trigger] g[k])
                && !is_release(g[k]) by {}
            assert forall|k: int| 0 <= k < g.len() && #[trigger] is_completion(g[k]) implies k
                < h.len() && is_completion(h[k]) by {}
            if w.session.finished() {
                let k = choose|k: int| 0 <= k < h.len() && #[trigger] is_completion(h[k]);
                assert(is_completion(g[k]));
            }
            assert forall|k: int|
                0 <= k < g.len() && #[trigger] is_completion(g[k]) implies exists|j: int|
                0 <= j < k && #[trigger] is_release(g[j]) by {
                let j = choose|j: int| 0 <= j < k && #[trigger] is_release(h[j]);
                assert(g[j] == h[j]);
                assert(is_release(g[j]));
            }
            assert forall|i: int, k: int|
                0 <= i < g.len() && 0 <= k < g.len() && #[trigger] of_kind(
                    g[i],
                    Kind::HeapCallback,
                ) && #[trigger] is_completion(g[k]) implies i < k by {
                if i < h.len() {
                    assert(of_kind(h[i], Kind::HeapCallback));
                } else {
                    assert(w.bridge is Some);
                    assert(!w.session.finished());
                }
            }
        },
    }
}

/// Completion is signalled exactly once per run, however the run ends and
/// whatever else happens: never while the run is under way, once when it
/// is over, after the engine has been released, and the bridge is never
/// called again afterwards.
pub proof fn lemma_completion_is_signalled_exactly_once<S, T, C>(
    session: RunSessionState<S, T, C>,
    stimuli: Seq<Stimulus>,
)
    requires
        session.well_formed(),
        !session.finished(),
    ensures
        World::start(session).after_all(stimuli).concluded(),
    decreases stimuli.len(),
{
    if stimuli.len() > 0 {
        lemma_completion_is_signalled_exactly_once(session, stimuli.drop_last());
        lemma_reachable_worlds_are_consistent(session, stimuli.drop_last());
        lemma_next_keeps_concluded(
            World::start(session).after_all(stimuli.drop_last()),
            stimuli.last(),
        );
    }
}

} // verus!
