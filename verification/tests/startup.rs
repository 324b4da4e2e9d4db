use sidecar_supervisor::startup::StartupState;

#[test]
fn first_begin_starts_and_second_does_not() {
    let mut guard = StartupState::new();
    assert!(guard.begin());
    assert!(!guard.begin());
    assert!(!guard.begin());
}

#[test]
fn begin_after_end_starts_again() {
    let mut guard = StartupState::new();
    assert!(guard.begin());
    guard.end();
    assert!(guard.begin());
    guard.end();
    guard.end();
    assert!(guard.begin());
}

#[test]
fn end_on_an_idle_guard_leaves_it_idle() {
    let mut guard = StartupState::new();
    guard.end();
    assert!(guard.begin());
}

#[test]
fn default_guard_is_idle() {
    let mut guard = StartupState::default();
    assert!(guard.begin());
}

#[test]
fn two_contenders_under_a_lock_yield_one_start() {
    let guard = std::sync::Arc::new(std::sync::Mutex::new(StartupState::new()));
    let first = guard.lock().unwrap().begin();
    let second = guard.lock().unwrap().begin();
    assert!(first != second);
    assert!(first || second);
}
