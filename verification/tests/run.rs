use edge_runtime::config::{
    ContextError, EdgeContextInitOpts, EdgeContextOpts, EdgeMainRuntimeOpts, HostFacts,
};
use edge_runtime::controller::ResourceController;
use edge_runtime::edge_runtime::EdgeRuntime;
use edge_runtime::limits::{EdgeUserRuntimeOpts, HeapPressureBridge};
use edge_runtime::run::{ContextLocal, RunAction, RunEvent, RunOutcome, RunPhase, RunSession};
use std::collections::HashMap;

type Action = RunAction<u32, String, u8>;
type Session = RunSession<u32, String, u8>;

fn env() -> HashMap<String, String> {
    let mut env = HashMap::new();
    env.insert("KEY".to_string(), "value".to_string());
    env
}

fn context(conf: EdgeContextOpts<u32>) -> EdgeRuntime<u32> {
    let opts = EdgeContextInitOpts {
        service_path: "svc".to_string(),
        no_module_cache: false,
        import_map_path: None,
        env_vars: env(),
        conf,
    };
    let host = HostFacts {
        working_dir: Ok("/work".to_string()),
        service_root: Ok("/work/svc".to_string()),
        import_map_text: Err(String::new()),
    };
    EdgeRuntime::new(opts, host).unwrap()
}

fn user(memory_limit_mb: u64, worker_timeout_ms: u64) -> EdgeRuntime<u32> {
    context(EdgeContextOpts::UserWorker(EdgeUserRuntimeOpts { memory_limit_mb, worker_timeout_ms }))
}

fn main_worker(sender: u32) -> EdgeRuntime<u32> {
    context(EdgeContextOpts::MainWorker(EdgeMainRuntimeOpts { worker_pool_tx: sender }))
}

fn module() -> String {
    "file:///work/svc/index.ts".to_string()
}

fn completions(actions: &[Action]) -> usize {
    actions.iter().filter(|a| matches!(a, RunAction::FireCompletion(_))).count()
}

fn replay(rt: EdgeRuntime<u32>, events: &[RunEvent]) -> (Session, Vec<Action>) {
    let (mut session, mut all) = rt.run("stream".to_string(), 9);
    for event in events {
        let (next, actions) = session.step(*event);
        session = next;
        all.extend(actions);
    }
    (session, all)
}

#[test]
fn run_starts_with_the_bootstrap_script() {
    let (session, actions) = user(64, 1000).run("stream".to_string(), 9u8);
    assert_eq!(actions, vec![Action::ExecuteBootstrap { is_user_tier: true }]);
    assert_eq!(session.phase(), RunPhase::Bootstrapping);
    assert_eq!(session.outcome(), None);

    let (session, actions) = main_worker(3).run("stream".to_string(), 9u8);
    assert_eq!(actions, vec![Action::ExecuteBootstrap { is_user_tier: false }]);
    assert_eq!(session.phase(), RunPhase::Bootstrapping);
}

#[test]
fn transport_is_bound_after_bootstrap() {
    let (session, _) = user(64, 1000).run("the stream".to_string(), 9u8);
    let (session, actions) = session.step(RunEvent::BootstrapSucceeded);
    assert_eq!(actions, vec![Action::BindTransport("the stream".to_string())]);
    assert_eq!(session.phase(), RunPhase::BindingTransport);
}

#[test]
fn user_worker_is_put_under_enforcement_before_it_is_driven() {
    let (session, _) = replay(user(64, 1000), &[RunEvent::BootstrapSucceeded]);
    let (session, actions) = session.step(RunEvent::TransportBound);
    assert_eq!(
        actions,
        vec![
            Action::InstallState(ContextLocal { env_vars: env(), pool_dispatch: None }),
            Action::RegisterHeapBridge(HeapPressureBridge::new(64)),
            Action::StartController(ResourceController::start(1000)),
            Action::DriveModule { main_module: module(), race_halt: true },
        ]
    );
    assert_eq!(session.phase(), RunPhase::Driving);
}

#[test]
fn main_worker_is_driven_without_enforcement() {
    let (session, _) = replay(main_worker(42), &[RunEvent::BootstrapSucceeded]);
    let (session, actions) = session.step(RunEvent::TransportBound);
    assert_eq!(
        actions,
        vec![
            Action::InstallState(ContextLocal { env_vars: env(), pool_dispatch: Some(42) }),
            Action::DriveModule { main_module: module(), race_halt: false },
        ]
    );
    assert_eq!(session.phase(), RunPhase::Driving);
}

#[test]
fn user_worker_never_sees_the_pool_sender() {
    let every = [
        RunEvent::BootstrapSucceeded,
        RunEvent::TransportBound,
        RunEvent::HaltObserved,
        RunEvent::TransportBound,
    ];
    let (_, actions) = replay(user(1, 0), &every);
    let installed: Vec<&Action> =
        actions.iter().filter(|a| matches!(a, RunAction::InstallState(_))).collect();
    assert_eq!(installed.len(), 1);
    assert!(matches!(
        installed[0],
        RunAction::InstallState(ContextLocal { pool_dispatch: None, .. })
    ));
}

#[test]
fn normal_completion_releases_the_engine_then_fires_completion() {
    let (session, _) =
        replay(user(64, 1000), &[RunEvent::BootstrapSucceeded, RunEvent::TransportBound]);
    let (session, actions) = session.step(RunEvent::ModuleCompleted);
    assert_eq!(actions, vec![Action::ReleaseEngine, Action::FireCompletion(9)]);
    assert_eq!(session.phase(), RunPhase::Finished(RunOutcome::Completed));
    assert_eq!(session.outcome(), Some(RunOutcome::Completed));
    assert_eq!(RunOutcome::Completed.result(), Ok(()));
}

#[test]
fn module_error_is_recorded_and_the_run_still_succeeds() {
    let (session, _) =
        replay(main_worker(1), &[RunEvent::BootstrapSucceeded, RunEvent::TransportBound]);
    let (session, actions) = session.step(RunEvent::ModuleFailed);
    assert_eq!(
        actions,
        vec![Action::ReleaseEngine, Action::ReportRunError, Action::FireCompletion(9)]
    );
    assert_eq!(session.outcome(), Some(RunOutcome::Failed));
    assert_eq!(RunOutcome::Failed.result(), Ok(()));
}

#[test]
fn halt_is_a_clean_end() {
    let (session, _) =
        replay(user(64, 1000), &[RunEvent::BootstrapSucceeded, RunEvent::TransportBound]);
    let (session, actions) = session.step(RunEvent::HaltObserved);
    assert_eq!(actions, vec![Action::ReleaseEngine, Action::FireCompletion(9)]);
    assert_eq!(session.outcome(), Some(RunOutcome::Halted));
    assert_eq!(RunOutcome::Halted.result(), Ok(()));
}

#[test]
fn main_worker_ignores_a_halt() {
    let (session, _) =
        replay(main_worker(1), &[RunEvent::BootstrapSucceeded, RunEvent::TransportBound]);
    let (session, actions) = session.step(RunEvent::HaltObserved);
    assert_eq!(actions, vec![]);
    assert_eq!(session.phase(), RunPhase::Driving);
    let (session, actions) = session.step(RunEvent::ModuleCompleted);
    assert_eq!(completions(&actions), 1);
    assert_eq!(session.outcome(), Some(RunOutcome::Completed));
}

#[test]
fn bootstrap_failure_aborts_the_run() {
    let (session, _) = user(64, 1000).run("stream".to_string(), 9u8);
    let (session, actions) = session.step(RunEvent::BootstrapFailed);
    assert_eq!(
        actions,
        vec![
            Action::ReportFatal(ContextError::BootstrapFailed),
            Action::ReleaseEngine,
            Action::FireCompletion(9),
        ]
    );
    let outcome = session.outcome().unwrap();
    assert_eq!(outcome, RunOutcome::Aborted(ContextError::BootstrapFailed));
    assert_eq!(outcome.result(), Err(ContextError::BootstrapFailed));
}

#[test]
fn closed_transport_aborts_the_run() {
    let (session, _) = replay(main_worker(1), &[RunEvent::BootstrapSucceeded]);
    let (session, actions) = session.step(RunEvent::TransportRejected);
    assert_eq!(
        actions,
        vec![
            Action::ReportFatal(ContextError::TransportClosed),
            Action::ReleaseEngine,
            Action::FireCompletion(9),
        ]
    );
    let outcome = session.outcome().unwrap();
    assert_eq!(outcome.result(), Err(ContextError::TransportClosed));
}

#[test]
fn completion_fires_exactly_once_on_every_path() {
    let paths: [&[RunEvent]; 5] = [
        &[RunEvent::BootstrapSucceeded, RunEvent::TransportBound, RunEvent::ModuleCompleted],
        &[RunEvent::BootstrapSucceeded, RunEvent::TransportBound, RunEvent::ModuleFailed],
        &[RunEvent::BootstrapSucceeded, RunEvent::TransportBound, RunEvent::HaltObserved],
        &[RunEvent::BootstrapFailed],
        &[RunEvent::BootstrapSucceeded, RunEvent::TransportRejected],
    ];
    let noise = [
        RunEvent::HaltObserved,
        RunEvent::ModuleCompleted,
        RunEvent::BootstrapFailed,
        RunEvent::TransportRejected,
        RunEvent::ModuleFailed,
        RunEvent::BootstrapSucceeded,
        RunEvent::TransportBound,
    ];
    for path in paths {
        let (session, actions) = replay(user(8, 30), path);
        assert!(session.outcome().is_some());
        assert_eq!(completions(&actions), 1);
        assert!(matches!(actions.last(), Some(RunAction::FireCompletion(9))));

        let mut longer = path.to_vec();
        longer.extend(noise);
        let (after, more) = replay(user(8, 30), &longer);
        assert_eq!(after.outcome(), session.outcome());
        assert_eq!(more, actions);
    }
}

#[test]
fn completion_does_not_fire_while_the_run_is_under_way() {
    let (session, actions) =
        replay(user(8, 30), &[RunEvent::BootstrapSucceeded, RunEvent::TransportBound]);
    assert_eq!(session.outcome(), None);
    assert_eq!(completions(&actions), 0);
}

#[test]
fn events_out_of_turn_change_nothing() {
    let (session, start) = user(8, 30).run("stream".to_string(), 9u8);
    assert_eq!(start.len(), 1);
    let mut session = session;
    for event in [
        RunEvent::TransportBound,
        RunEvent::TransportRejected,
        RunEvent::ModuleCompleted,
        RunEvent::ModuleFailed,
        RunEvent::HaltObserved,
    ] {
        let (next, actions) = session.step(event);
        assert_eq!(actions, vec![]);
        assert_eq!(next.phase(), RunPhase::Bootstrapping);
        session = next;
    }
    let (session, actions) =
        session.step(RunEvent::BootstrapSucceeded).0.step(RunEvent::BootstrapSucceeded);
    assert_eq!(actions, vec![]);
    assert_eq!(session.phase(), RunPhase::BindingTransport);
}

#[test]
fn halt_is_consumed_once() {
    let (session, actions) = replay(
        user(8, 30),
        &[
            RunEvent::BootstrapSucceeded,
            RunEvent::TransportBound,
            RunEvent::HaltObserved,
            RunEvent::HaltObserved,
            RunEvent::HaltObserved,
        ],
    );
    assert_eq!(session.outcome(), Some(RunOutcome::Halted));
    assert_eq!(actions.iter().filter(|a| **a == Action::ReleaseEngine).count(), 1);
    assert_eq!(completions(&actions), 1);
}

#[test]
fn undelivered_completion_is_recorded_after_the_end() {
    let (session, _) = replay(
        user(8, 30),
        &[RunEvent::BootstrapSucceeded, RunEvent::TransportBound, RunEvent::ModuleCompleted],
    );
    let (session, actions) = session.step(RunEvent::CompletionNotDelivered);
    assert_eq!(actions, vec![Action::ReportCompletionNotDelivered]);
    assert_eq!(session.outcome(), Some(RunOutcome::Completed));
    assert_eq!(completions(&actions), 0);
}

#[test]
fn undelivered_completion_before_the_end_is_ignored() {
    let (session, _) = replay(user(8, 30), &[RunEvent::BootstrapSucceeded]);
    let (session, actions) = session.step(RunEvent::CompletionNotDelivered);
    assert_eq!(actions, vec![]);
    assert_eq!(session.phase(), RunPhase::BindingTransport);
}
