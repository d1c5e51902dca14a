use edge_runtime::controller::{
    ControllerAction, ControllerEvent, ControllerState, HaltCause, ResourceController,
};

fn halts(actions: &[ControllerAction]) -> usize {
    actions.iter().filter(|a| **a == ControllerAction::SendHalt).count()
}

#[test]
fn controller_starts_watching_with_its_timer() {
    let controller = ResourceController::start(50);
    assert_eq!(controller.current_state(), ControllerState::Watching);
    assert_eq!(controller.timer_ms(), Some(50));
}

#[test]
fn zero_timeout_arms_no_timer() {
    let mut controller = ResourceController::start(0);
    assert_eq!(controller.timer_ms(), None);
    assert_eq!(controller.handle(ControllerEvent::TimerExpired), vec![]);
    assert_eq!(controller.current_state(), ControllerState::Watching);
    // Memory is still watched.
    let actions = controller.handle(ControllerEvent::MemoryPressure { used_bytes: 7 });
    assert_eq!(halts(&actions), 1);
    assert_eq!(
        controller.current_state(),
        ControllerState::Fired(HaltCause::MemoryLimit { used_bytes: 7 })
    );
}

#[test]
fn timer_fires_the_halt() {
    let mut controller = ResourceController::start(1500);
    let actions = controller.handle(ControllerEvent::TimerExpired);
    assert_eq!(
        actions,
        vec![ControllerAction::LogTimeout { timeout_ms: 1500 }, ControllerAction::SendHalt]
    );
    assert_eq!(
        controller.current_state(),
        ControllerState::Fired(HaltCause::Timeout { timeout_ms: 1500 })
    );
    assert_eq!(controller.timer_ms(), None);
}

#[test]
fn memory_pressure_interrupts_then_halts() {
    let mut controller = ResourceController::start(1500);
    let actions = controller.handle(ControllerEvent::MemoryPressure { used_bytes: 10_485_760 });
    assert_eq!(
        actions,
        vec![
            ControllerAction::LogMemoryLimit { used_bytes: 10_485_760 },
            ControllerAction::TerminateExecution,
            ControllerAction::SendHalt,
        ]
    );
    assert_eq!(
        controller.current_state(),
        ControllerState::Fired(HaltCause::MemoryLimit { used_bytes: 10_485_760 })
    );
}

#[test]
fn halt_is_sent_once_however_many_events_arrive() {
    let events = [
        ControllerEvent::HaltNotDelivered,
        ControllerEvent::TimerExpired,
        ControllerEvent::MemoryPressure { used_bytes: 1 },
        ControllerEvent::TimerExpired,
        ControllerEvent::MemoryPressure { used_bytes: 2 },
        ControllerEvent::RunEnded,
        ControllerEvent::TimerExpired,
    ];
    let mut controller = ResourceController::start(20);
    let mut all = Vec::new();
    for event in events {
        all.extend(controller.handle(event));
    }
    assert_eq!(halts(&all), 1);
    assert_eq!(all.iter().filter(|a| **a == ControllerAction::TerminateExecution).count(), 0);
    assert_eq!(
        controller.current_state(),
        ControllerState::Fired(HaltCause::Timeout { timeout_ms: 20 })
    );
}

#[test]
fn both_branches_ready_either_order_one_halt() {
    let mut timer_first = ResourceController::start(20);
    let mut a = timer_first.handle(ControllerEvent::TimerExpired);
    a.extend(timer_first.handle(ControllerEvent::MemoryPressure { used_bytes: 9 }));
    let mut memory_first = ResourceController::start(20);
    let mut b = memory_first.handle(ControllerEvent::MemoryPressure { used_bytes: 9 });
    b.extend(memory_first.handle(ControllerEvent::TimerExpired));
    assert_eq!(halts(&a), 1);
    assert_eq!(halts(&b), 1);
    assert_eq!(*a.last().unwrap(), ControllerAction::SendHalt);
    assert_eq!(*b.last().unwrap(), ControllerAction::SendHalt);
}

#[test]
fn abandoned_controller_sends_nothing() {
    let mut controller = ResourceController::start(5000);
    assert_eq!(controller.handle(ControllerEvent::RunEnded), vec![]);
    assert_eq!(controller.current_state(), ControllerState::Abandoned);
    assert_eq!(controller.timer_ms(), None);
    assert_eq!(controller.handle(ControllerEvent::TimerExpired), vec![]);
    assert_eq!(controller.handle(ControllerEvent::MemoryPressure { used_bytes: 3 }), vec![]);
    assert_eq!(controller.handle(ControllerEvent::HaltNotDelivered), vec![]);
    assert_eq!(controller.current_state(), ControllerState::Abandoned);
}

#[test]
fn undelivered_halt_is_logged_not_escalated() {
    let mut controller = ResourceController::start(10);
    controller.handle(ControllerEvent::TimerExpired);
    let fired = controller.current_state();
    assert_eq!(
        controller.handle(ControllerEvent::HaltNotDelivered),
        vec![ControllerAction::LogHaltNotDelivered]
    );
    assert_eq!(controller.current_state(), fired);
}

#[test]
fn undelivered_halt_before_any_halt_is_ignored() {
    let mut controller = ResourceController::start(10);
    assert_eq!(controller.handle(ControllerEvent::HaltNotDelivered), vec![]);
    assert_eq!(controller.current_state(), ControllerState::Watching);
    assert_eq!(controller.timer_ms(), Some(10));
}

#[test]
fn notification_channel_reads_become_events() {
    assert_eq!(
        ControllerEvent::from_notification(Some(10_485_760)),
        ControllerEvent::MemoryPressure { used_bytes: 10_485_760 }
    );
    assert_eq!(ControllerEvent::from_notification(None), ControllerEvent::RunEnded);
}

#[test]
fn controller_watches_until_it_fires_or_is_abandoned() {
    let mut fired = ResourceController::start(5);
    assert!(fired.is_watching());
    fired.handle(ControllerEvent::TimerExpired);
    assert!(!fired.is_watching());

    let mut abandoned = ResourceController::start(5);
    abandoned.handle(ControllerEvent::from_notification(None));
    assert!(!abandoned.is_watching());
    assert_eq!(abandoned.current_state(), ControllerState::Abandoned);
}
