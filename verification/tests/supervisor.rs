use worker_supervisor::errors::Error;
use worker_supervisor::supervisor::{ProcessHandle, Supervisor};

#[test]
fn fresh_supervisor_is_idle() {
    let s = Supervisor::new();
    assert_eq!(s.current_pid(), None);
}

#[test]
fn plan_start_uses_interpreter_override() {
    let s = Supervisor::new();
    let plan = s
        .plan_start(Some("/bin/true".to_string()), "backend/main.py", "/srv/app")
        .expect("start must be permitted on a fresh supervisor");
    assert_eq!(plan.interpreter, "/bin/true");
}

#[test]
fn plan_start_defaults_the_interpreter() {
    let s = Supervisor::new();
    let plan = s
        .plan_start(None, "backend/main.py", "/srv/app")
        .expect("start must be permitted on a fresh supervisor");
    assert_eq!(plan.interpreter, "python3");
}

#[test]
fn plan_start_resolves_relative_entry_against_base() {
    let s = Supervisor::new();
    let plan = s
        .plan_start(None, "backend/main.py", "/srv/app")
        .expect("start must be permitted on a fresh supervisor");
    assert_eq!(plan.entry, "/srv/app/backend/main.py");
}

#[test]
fn plan_start_keeps_absolute_entry() {
    let s = Supervisor::new();
    let plan = s
        .plan_start(None, "/opt/worker/main.py", "/srv/app")
        .expect("start must be permitted on a fresh supervisor");
    assert_eq!(plan.entry, "/opt/worker/main.py");
}

#[test]
fn record_spawn_success_stores_the_handle() {
    let mut s = Supervisor::new();
    let r = s.record_spawn(Ok(4242));
    assert!(r.is_ok());
    assert_eq!(s.current_pid(), Some(4242));
}

#[test]
fn second_start_is_rejected_with_already_running() {
    let mut s = Supervisor::new();
    s.record_spawn(Ok(41)).expect("first start must succeed");
    let second = s.plan_start(None, "backend/main.py", "/srv/app");
    assert!(matches!(second, Err(Error::AlreadyRunning)));
    // Exactly the one worker from the first start is still held.
    assert_eq!(s.current_pid(), Some(41));
}

#[test]
fn failed_spawn_reports_and_leaves_idle() {
    let mut s = Supervisor::new();
    let r = s.record_spawn(Err("No such file or directory".to_string()));
    match r {
        Err(Error::SpawnFailed(m)) => assert_eq!(m, "No such file or directory"),
        other => panic!("expected SpawnFailed, got {:?}", other),
    }
    assert_eq!(s.current_pid(), None);
    // A later start attempt is still permitted.
    assert!(s.plan_start(None, "backend/main.py", "/srv/app").is_ok());
}

#[test]
fn stop_with_no_worker_is_a_noop_success() {
    let mut s = Supervisor::new();
    let taken = s.begin_stop();
    assert!(taken.is_none());
    assert!(Supervisor::stop_result(&taken, Ok(())).is_ok());
    assert_eq!(s.current_pid(), None);
}

#[test]
fn start_then_stop_clears_the_handle() {
    let mut s = Supervisor::new();
    s.record_spawn(Ok(7)).expect("start must succeed");
    let taken = s.begin_stop();
    assert_eq!(taken, Some(ProcessHandle { pid: 7 }));
    // The slot is cleared before the signal is even sent.
    assert_eq!(s.current_pid(), None);
    assert!(Supervisor::stop_result(&taken, Ok(())).is_ok());
}

#[test]
fn stop_twice_second_call_is_a_noop() {
    let mut s = Supervisor::new();
    s.record_spawn(Ok(8)).expect("start must succeed");
    let first = s.begin_stop();
    assert!(first.is_some());
    let second = s.begin_stop();
    assert!(second.is_none());
    assert!(Supervisor::stop_result(&second, Ok(())).is_ok());
}

#[test]
fn failed_termination_signal_is_reported() {
    let taken = Some(ProcessHandle { pid: 9 });
    let r = Supervisor::stop_result(&taken, Err("no such process".to_string()));
    match r {
        Err(Error::TerminationFailed(m)) => assert_eq!(m, "no such process"),
        other => panic!("expected TerminationFailed, got {:?}", other),
    }
}

#[test]
fn error_messages_carry_the_reason() {
    assert_eq!(Error::AlreadyRunning.message(), "Backend already running");
    assert_eq!(Error::SpawnFailed("enoent".to_string()).message(), "enoent");
    assert_eq!(Error::TerminationFailed("esrch".to_string()).message(), "esrch");
}
