use sidecar_supervisor::state::{kill_report, ServerInfo, ServerRuntime, ServerState, SetStep};

fn info(port: u16, workspace: &str) -> ServerInfo {
    ServerInfo {
        port,
        token: format!("token-{}", port),
        base_url: format!("http://127.0.0.1:{}", port),
        workspace: workspace.to_string(),
    }
}

fn runtime(child: u32, port: u16, workspace: &str) -> ServerRuntime<u32> {
    ServerRuntime::new(child, info(port, workspace))
}

#[test]
fn registry_starts_empty() {
    let state: ServerState<u32> = ServerState::new();
    assert_eq!(state.server_info(), None);
    let other: ServerState<u32> = ServerState::default();
    assert_eq!(other.server_info(), None);
}

#[test]
fn runtime_keeps_child_and_descriptor() {
    let rt = runtime(7, 4000, "/ws");
    assert_eq!(rt.child, 7);
    assert_eq!(rt.port, 4000);
    assert_eq!(rt.token, "token-4000");
    assert_eq!(rt.base_url, "http://127.0.0.1:4000");
    assert_eq!(rt.workspace, "/ws");
    assert_eq!(rt.info(), info(4000, "/ws"));
}

#[test]
fn set_on_an_empty_slot_stores() {
    let mut state: ServerState<u32> = ServerState::new();
    assert!(matches!(state.set_runtime(runtime(1, 4000, "/a")), SetStep::Stored));
    assert_eq!(state.server_info(), Some(info(4000, "/a")));
}

#[test]
fn set_on_an_occupied_slot_hands_out_the_previous_process_first() {
    let mut state: ServerState<u32> = ServerState::new();
    assert!(matches!(state.set_runtime(runtime(1, 4000, "/a")), SetStep::Stored));
    match state.set_runtime(runtime(2, 5000, "/b")) {
        SetStep::Terminate { previous, incoming } => {
            assert_eq!(previous, 1);
            assert_eq!(incoming.child, 2);
            assert_eq!(state.server_info(), None);
            assert!(matches!(state.set_runtime(incoming), SetStep::Stored));
        }
        SetStep::Stored => panic!("the previous runtime was not handed out"),
    }
    assert_eq!(state.server_info(), Some(info(5000, "/b")));
}

#[test]
fn take_removes_and_returns_the_runtime() {
    let mut state: ServerState<u32> = ServerState::new();
    assert!(state.take_runtime().is_none());
    assert!(matches!(state.set_runtime(runtime(3, 4100, "/c")), SetStep::Stored));
    let taken = state.take_runtime().expect("expected the runtime");
    assert_eq!(taken.child, 3);
    assert_eq!(taken.info(), info(4100, "/c"));
    assert_eq!(state.server_info(), None);
    assert!(state.take_runtime().is_none());
}

#[test]
fn kill_current_hands_out_the_process_and_empties_the_slot() {
    let mut state: ServerState<u32> = ServerState::new();
    assert_eq!(state.kill_current(), None);
    assert!(matches!(state.set_runtime(runtime(9, 4200, "/d")), SetStep::Stored));
    assert_eq!(state.kill_current(), Some(9));
    assert_eq!(state.server_info(), None);
    assert_eq!(state.kill_current(), None);
}

#[test]
fn kill_report_surfaces_a_failed_termination() {
    assert_eq!(kill_report(Ok(())), Ok(()));
    assert_eq!(
        kill_report(Err("no such process".to_string())),
        Err("failed to kill sidecar process: no such process".to_string())
    );
}

#[test]
fn server_info_does_not_disturb_the_slot() {
    let mut state: ServerState<u32> = ServerState::new();
    assert!(matches!(state.set_runtime(runtime(4, 4300, "/e")), SetStep::Stored));
    assert_eq!(state.server_info(), state.server_info());
    assert_eq!(state.kill_current(), Some(4));
}
