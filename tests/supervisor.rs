use std::collections::HashMap;

use process_supervisor::config::{Config, RestartPolicy, ServiceConfig};
use process_supervisor::process::{
    ExitOutcome, KillOutcome, Liveness, ProcessManager, ServiceState, SupervisorError, TickAction,
};

fn service(name: &str, command: &str, policy: RestartPolicy, max_restarts: u32) -> ServiceConfig {
    ServiceConfig {
        name: name.to_string(),
        command: command.to_string(),
        args: Vec::new(),
        env: HashMap::new(),
        restart_policy: policy,
        max_restarts,
    }
}

fn started(config: ServiceConfig, pid: u32) -> ProcessManager {
    let mut m = ProcessManager::new();
    assert_eq!(m.start_service(config, Ok(pid)).unwrap(), pid);
    m
}

#[test]
fn echo_always_two_restarts_then_terminal() {
    let mut m = started(service("echo", "true", RestartPolicy::Always, 2), 100);

    let a = m.check_process(0, &Liveness::Exited(ExitOutcome::Code(0))).unwrap();
    assert_eq!(a, TickAction::Restart);
    assert_eq!(m.record_restart(0, Ok(101)).unwrap(), 101);
    assert_eq!(m.entry(0).restart_count(), 1);
    assert_eq!(m.entry(0).last_exit_code(), None);
    assert_eq!(m.entry(0).pid, 101);

    let a = m.check_process(0, &Liveness::Exited(ExitOutcome::Code(0))).unwrap();
    assert_eq!(a, TickAction::Restart);
    assert_eq!(m.record_restart(0, Ok(102)).unwrap(), 102);
    assert_eq!(m.entry(0).restart_count(), 2);

    let a = m.check_process(0, &Liveness::Exited(ExitOutcome::Code(0))).unwrap();
    assert_eq!(a, TickAction::GiveUp);
    assert!(m.entry(0).is_terminal());
    assert_eq!(m.entry(0).last_exit_code(), Some(ExitOutcome::Code(0)));
    assert_eq!(m.entry(0).restart_count(), 2);

    for _ in 0..3 {
        let a = m.check_process(0, &Liveness::Exited(ExitOutcome::Code(1))).unwrap();
        assert_eq!(a, TickAction::Nothing);
        assert_eq!(m.entry(0).restart_count(), 2);
        assert_eq!(m.entry(0).state, ServiceState::Exited(ExitOutcome::Code(0)));
    }
}

#[test]
fn shutdown_after_natural_exit_succeeds() {
    let mut m = started(service("once", "true", RestartPolicy::Never, 0), 7);
    m.start_service(service("live", "sleep", RestartPolicy::Never, 0), Ok(8)).unwrap();
    assert_eq!(m.check_process(0, &Liveness::Exited(ExitOutcome::Code(0))).unwrap(), TickAction::GiveUp);
    let kill = m.stop_all();
    assert_eq!(kill, vec![false, true]);
    let name = m.entry(1).config.name.clone();
    assert!(ProcessManager::termination_result(&name, &KillOutcome::AlreadyExited).is_ok());
    assert!(ProcessManager::termination_result(&name, &KillOutcome::Killed).is_ok());
}

#[test]
fn never_policy_stays_at_zero_restarts() {
    let mut m = started(service("n", "worker", RestartPolicy::Never, 5), 10);
    assert_eq!(m.check_process(0, &Liveness::Exited(ExitOutcome::Code(3))).unwrap(), TickAction::GiveUp);
    for _ in 0..4 {
        assert_eq!(m.check_process(0, &Liveness::Exited(ExitOutcome::Signaled)).unwrap(), TickAction::Nothing);
    }
    assert_eq!(m.entry(0).restart_count(), 0);
    assert!(m.entry(0).is_terminal());
    assert_eq!(m.entry(0).pid, 10);
}

#[test]
fn always_policy_restarts_exactly_budget_times() {
    let mut m = started(service("a", "worker", RestartPolicy::Always, 3), 1);
    let exits = [ExitOutcome::Code(0), ExitOutcome::Code(9), ExitOutcome::Signaled];
    for (k, x) in exits.iter().enumerate() {
        assert_eq!(m.check_process(0, &Liveness::Exited(*x)).unwrap(), TickAction::Restart);
        m.record_restart(0, Ok(2 + k as u32)).unwrap();
        assert_eq!(m.entry(0).restart_count(), k as u32 + 1);
    }
    assert_eq!(m.check_process(0, &Liveness::Exited(ExitOutcome::Code(0))).unwrap(), TickAction::GiveUp);
    assert_eq!(m.entry(0).restart_count(), 3);
    assert!(m.entry(0).is_terminal());
}

#[test]
fn always_policy_with_no_budget_never_restarts() {
    let mut m = started(service("z", "worker", RestartPolicy::Always, 0), 1);
    assert_eq!(m.check_process(0, &Liveness::Exited(ExitOutcome::Code(1))).unwrap(), TickAction::GiveUp);
    assert_eq!(m.entry(0).restart_count(), 0);
}

#[test]
fn on_failure_policy_follows_exit_code() {
    let mut m = started(service("ok", "worker", RestartPolicy::OnFailure, 4), 1);
    assert_eq!(m.check_process(0, &Liveness::Exited(ExitOutcome::Code(0))).unwrap(), TickAction::GiveUp);
    assert_eq!(m.entry(0).restart_count(), 0);

    let mut m = started(service("bad", "worker", RestartPolicy::OnFailure, 4), 1);
    assert_eq!(m.check_process(0, &Liveness::Exited(ExitOutcome::Code(2))).unwrap(), TickAction::Restart);
    m.record_restart(0, Ok(5)).unwrap();
    assert_eq!(m.check_process(0, &Liveness::Exited(ExitOutcome::Signaled)).unwrap(), TickAction::Restart);
    m.record_restart(0, Ok(6)).unwrap();
    assert_eq!(m.entry(0).restart_count(), 2);
    assert_eq!(m.check_process(0, &Liveness::Exited(ExitOutcome::Code(0))).unwrap(), TickAction::GiveUp);
    assert_eq!(m.entry(0).restart_count(), 2);

    let mut m = started(service("tight", "worker", RestartPolicy::OnFailure, 1), 1);
    assert_eq!(m.check_process(0, &Liveness::Exited(ExitOutcome::Code(1))).unwrap(), TickAction::Restart);
    m.record_restart(0, Ok(2)).unwrap();
    assert_eq!(m.check_process(0, &Liveness::Exited(ExitOutcome::Code(1))).unwrap(), TickAction::GiveUp);
}

#[test]
fn should_restart_table() {
    let mut m = started(service("s", "worker", RestartPolicy::OnFailure, 1), 1);
    assert!(ProcessManager::should_restart(m.entry(0)));
    m.check_process(0, &Liveness::Exited(ExitOutcome::Code(0))).unwrap();
    assert!(!ProcessManager::should_restart(m.entry(0)));

    let mut m = started(service("s", "worker", RestartPolicy::OnFailure, 0), 1);
    m.check_process(0, &Liveness::Exited(ExitOutcome::Code(4))).unwrap();
    assert!(ProcessManager::should_restart(m.entry(0)));

    let mut m = started(service("s", "worker", RestartPolicy::Never, 0), 1);
    m.check_process(0, &Liveness::Exited(ExitOutcome::Code(4))).unwrap();
    assert!(!ProcessManager::should_restart(m.entry(0)));

    let mut m = started(service("s", "worker", RestartPolicy::Always, 0), 1);
    m.check_process(0, &Liveness::Exited(ExitOutcome::Code(0))).unwrap();
    assert!(ProcessManager::should_restart(m.entry(0)));
}

#[test]
fn second_shutdown_requests_nothing() {
    let mut m = started(service("a", "worker", RestartPolicy::Always, 1), 1);
    m.start_service(service("b", "worker", RestartPolicy::Always, 1), Ok(2)).unwrap();
    assert_eq!(m.stop_all(), vec![true, true]);
    assert_eq!(m.stop_all(), vec![false, false]);
    assert_eq!(m.len(), 2);
}

#[test]
fn tick_with_everything_running_changes_nothing() {
    let mut m = started(service("a", "worker", RestartPolicy::Always, 1), 11);
    m.start_service(service("b", "worker", RestartPolicy::Never, 0), Ok(12)).unwrap();
    let polls = vec![Liveness::Running, Liveness::Running];
    let reports = m.check_processes(&polls);
    assert_eq!(reports.len(), 2);
    for r in &reports {
        assert!(matches!(r, Ok(TickAction::Nothing)));
    }
    for i in 0..2 {
        assert_eq!(m.entry(i).state, ServiceState::Running);
        assert_eq!(m.entry(i).restart_count(), 0);
        assert_eq!(m.entry(i).pid, 11 + i as u32);
    }
}

#[test]
fn failed_liveness_check_is_isolated() {
    let mut m = started(service("a", "worker", RestartPolicy::Always, 1), 1);
    m.start_service(service("b", "worker", RestartPolicy::Always, 1), Ok(2)).unwrap();
    let polls = vec![Liveness::Unknown("denied".to_string()), Liveness::Exited(ExitOutcome::Code(1))];
    let reports = m.check_processes(&polls);
    assert!(matches!(&reports[0], Err(SupervisorError::LivenessCheck { name, detail }) if name == "a" && detail == "denied"));
    assert!(matches!(reports[1], Ok(TickAction::Restart)));
    assert_eq!(m.entry(0).state, ServiceState::Running);
    assert_eq!(m.entry(1).state, ServiceState::RestartPending(ExitOutcome::Code(1)));
}

#[test]
fn failed_restart_leaves_entry_terminal() {
    let mut m = started(service("a", "worker", RestartPolicy::Always, 5), 1);
    assert_eq!(m.check_process(0, &Liveness::Exited(ExitOutcome::Code(1))).unwrap(), TickAction::Restart);
    let r = m.record_restart(0, Err("no such file".to_string()));
    assert!(matches!(r, Err(SupervisorError::Spawn { name, detail }) if name == "a" && detail == "no such file"));
    assert!(m.entry(0).is_terminal());
    assert_eq!(m.entry(0).last_exit_code(), Some(ExitOutcome::Code(1)));
    assert_eq!(m.entry(0).restart_count(), 0);
    assert_eq!(m.check_process(0, &Liveness::Exited(ExitOutcome::Code(1))).unwrap(), TickAction::Nothing);
}

#[test]
fn start_rejects_empty_command() {
    let mut m = ProcessManager::new();
    let c = service("blank", "", RestartPolicy::Always, 1);
    assert!(matches!(m.prepare_start(&c), Err(SupervisorError::EmptyCommand { name }) if name == "blank"));
    let r = m.start_service(c, Ok(3));
    assert!(matches!(r, Err(SupervisorError::EmptyCommand { name }) if name == "blank"));
    assert_eq!(m.len(), 0);
}

#[test]
fn start_rejects_duplicate_name() {
    let mut m = started(service("web", "server", RestartPolicy::Always, 1), 1);
    let c = service("web", "other", RestartPolicy::Never, 0);
    assert!(matches!(m.prepare_start(&c), Err(SupervisorError::DuplicateName { name }) if name == "web"));
    let r = m.start_service(c, Ok(2));
    assert!(matches!(r, Err(SupervisorError::DuplicateName { name }) if name == "web"));
    assert_eq!(m.len(), 1);
    assert_eq!(m.entry(0).config.command, "server");
    assert_eq!(m.entry(0).pid, 1);
}

#[test]
fn start_reports_spawn_failure_without_change() {
    let mut m = ProcessManager::new();
    let r = m.start_service(service("x", "missing", RestartPolicy::Always, 1), Err("not found".to_string()));
    assert!(matches!(r, Err(SupervisorError::Spawn { name, detail }) if name == "x" && detail == "not found"));
    assert_eq!(m.len(), 0);
}

#[test]
fn start_records_fresh_entry() {
    let mut m = ProcessManager::new();
    assert!(m.prepare_start(&service("x", "run", RestartPolicy::OnFailure, 2)).is_ok());
    assert_eq!(m.start_service(service("x", "run", RestartPolicy::OnFailure, 2), Ok(42)).unwrap(), 42);
    m.start_service(service("y", "run", RestartPolicy::OnFailure, 2), Ok(43)).unwrap();
    let e = m.entry(0);
    assert_eq!(e.pid, 42);
    assert_eq!(e.restart_count(), 0);
    assert_eq!(e.last_exit_code(), None);
    assert_eq!(e.config.max_restarts, 2);
    assert_eq!(m.index_of(&"y".to_string()), Some(1));
    assert_eq!(m.index_of(&"z".to_string()), None);
}

#[test]
fn failed_termination_is_reported() {
    let r = ProcessManager::termination_result(&"db".to_string(), &KillOutcome::Failed("permission denied".to_string()));
    assert!(matches!(r, Err(SupervisorError::Termination { name, detail }) if name == "db" && detail == "permission denied"));
}

#[test]
fn default_policy_is_always() {
    assert_eq!(RestartPolicy::default(), RestartPolicy::Always);
    let c = Config { services: vec![service("a", "b", RestartPolicy::default(), 0)] };
    assert_eq!(c.services[0].restart_policy, RestartPolicy::Always);
}
