use cmd_sandbox::backend::{Backend, Platform};
use cmd_sandbox::lifecycle::{
    PollVerdict, ReadyAction, SandboxManager, TeardownAction, POLL_INTERVAL_MS, RETRY_BUDGET,
};
use cmd_sandbox::outcome::{render_outcome, CommandOutcome};
use cmd_sandbox::root::SandboxRoot;

#[test]
fn direct_backend_is_ready_at_once() {
    let root = SandboxRoot::from_raw("/work");
    let mut manager = SandboxManager::new(Backend::Direct { platform: Platform::Linux });
    let action = manager.ensure_ready_begin(1, &root);
    assert!(matches!(action, ReadyAction::NowReady));
    let again = manager.ensure_ready_begin(2, &root);
    assert!(matches!(again, ReadyAction::AlreadyReady));
}

#[test]
fn readiness_creates_exactly_one_context() {
    let root = SandboxRoot::from_raw("/work");
    let mut manager = SandboxManager::new(Backend::PersistentContainer);
    let first = manager.ensure_ready_begin(42, &root);
    let name = match first {
        ReadyAction::StartSupervisor { ref args, .. } => args[4].clone(),
        ref other => panic!("expected a supervisor start, got {}", describe_ready(other)),
    };
    assert_eq!(name, "sandbox_42");
    // A second request with no intervening teardown spawns no second
    // supervisor and replaces nothing.
    let second = manager.ensure_ready_begin(43, &root);
    assert!(matches!(second, ReadyAction::KeepPolling));
}

#[test]
fn polling_succeeds_on_a_sighting() {
    let root = SandboxRoot::from_raw("/work");
    let mut manager = SandboxManager::new(Backend::PersistentContainer);
    let action = manager.ensure_ready_begin(5, &root);
    assert!(matches!(action, ReadyAction::StartSupervisor { .. }));
    let verdict = manager.poll_step(false);
    assert!(matches!(verdict, PollVerdict::RetryAfter { millis } if millis == POLL_INTERVAL_MS));
    let verdict = manager.poll_step(true);
    assert!(matches!(verdict, PollVerdict::NowReady));
    let again = manager.ensure_ready_begin(6, &root);
    assert!(matches!(again, ReadyAction::AlreadyReady));
}

#[test]
fn polling_exhausts_its_budget() {
    let root = SandboxRoot::from_raw("/work");
    let mut manager = SandboxManager::new(Backend::PersistentContainer);
    let action = manager.ensure_ready_begin(7, &root);
    assert!(matches!(action, ReadyAction::StartSupervisor { .. }));

    let mut polls: u64 = 0;
    let message = loop {
        polls += 1;
        match manager.poll_step(false) {
            PollVerdict::RetryAfter { millis } => assert_eq!(millis, POLL_INTERVAL_MS),
            PollVerdict::GaveUp { message } => break message,
            PollVerdict::NowReady => panic!("query always said no"),
        }
    };
    assert_eq!(polls, RETRY_BUDGET);
    assert_eq!(message, "isolation context 'sandbox_7' failed to initialize");
    assert!(message.contains("sandbox_7"));
    assert!(message.contains("failed to initialize"));

    // The failure is reported as the command's textual result; the command
    // itself is never run.
    let outcome = CommandOutcome::NotReady {
        command: String::from("echo hi"),
        detail: message,
    };
    let text = render_outcome(&outcome);
    assert_eq!(
        text,
        "Error executing 'echo hi': isolation context 'sandbox_7' failed to initialize"
    );

    // The manager is back to a not-ready state and retries from scratch.
    let retry = manager.ensure_ready_begin(8, &root);
    assert!(matches!(retry, ReadyAction::StartSupervisor { .. }));
}

#[test]
fn teardown_twice_acts_only_once() {
    let root = SandboxRoot::from_raw("/work");
    let mut manager = SandboxManager::new(Backend::PersistentContainer);
    let action = manager.ensure_ready_begin(9, &root);
    assert!(matches!(action, ReadyAction::StartSupervisor { .. }));
    let first = manager.teardown();
    match first {
        TeardownAction::StopSupervisor { program, args } => {
            assert_eq!(program, "podman");
            let args: Vec<&str> = args.iter().map(|a| a.as_str()).collect();
            assert_eq!(args, ["rm", "--force", "sandbox_9"]);
        }
        TeardownAction::Nothing => panic!("first teardown must act"),
    }
    let second = manager.teardown();
    assert!(matches!(second, TeardownAction::Nothing));
}

#[test]
fn teardown_without_supervisor_kills_nothing() {
    let root = SandboxRoot::from_raw("/work");
    let mut manager = SandboxManager::new(Backend::Direct { platform: Platform::Linux });
    let action = manager.ensure_ready_begin(1, &root);
    assert!(matches!(action, ReadyAction::NowReady));
    assert!(matches!(manager.teardown(), TeardownAction::Nothing));
    assert!(matches!(manager.teardown(), TeardownAction::Nothing));
}

fn describe_ready(a: &ReadyAction) -> &'static str {
    match a {
        ReadyAction::AlreadyReady => "AlreadyReady",
        ReadyAction::NowReady => "NowReady",
        ReadyAction::StartSupervisor { .. } => "StartSupervisor",
        ReadyAction::KeepPolling => "KeepPolling",
    }
}
