use worker_supervisor::launch::{interpreter_for, is_absolute, resolve_entry, LaunchPlan};

#[test]
fn interpreter_override_wins() {
    assert_eq!(interpreter_for(Some("/usr/bin/python3.11".to_string())), "/usr/bin/python3.11");
}

#[test]
fn interpreter_defaults_without_override() {
    assert_eq!(interpreter_for(None), "python3");
}

#[test]
fn absolute_paths_are_recognized() {
    assert!(is_absolute("/"));
    assert!(is_absolute("/opt/worker/main.py"));
    assert!(!is_absolute(""));
    assert!(!is_absolute("backend/main.py"));
}

#[test]
fn relative_entry_is_joined_onto_the_base() {
    assert_eq!(resolve_entry("backend/main.py", "/srv/app"), "/srv/app/backend/main.py");
}

#[test]
fn absolute_entry_is_kept() {
    assert_eq!(resolve_entry("/opt/worker/main.py", "/srv/app"), "/opt/worker/main.py");
}

#[test]
fn launch_plan_combines_interpreter_and_entry() {
    let plan = LaunchPlan::new(Some("/bin/true".to_string()), "backend/main.py", "/srv/app");
    assert_eq!(plan.interpreter, "/bin/true");
    assert_eq!(plan.entry, "/srv/app/backend/main.py");
}
