use sidecar_supervisor::events::Notification;
use sidecar_supervisor::lifecycle::{
    Boot, BootAction, BootEvent, InitAction, InitEvent, ServerInit, SwitchAction, SwitchEvent,
    WorkspaceSwitch,
};
use sidecar_supervisor::server::{HealthProbe, ProbeReply, ProbeStep};
use sidecar_supervisor::sidecar::{generate_token, PortProbe, SpawnFailure};
use sidecar_supervisor::startup::StartupState;
use sidecar_supervisor::state::{ServerInfo, ServerRuntime, ServerState, SetStep};
use sidecar_supervisor::workspace::{
    LoadOutcome, PersistFailure, ResolveAction, ResolveEvent, StartupResolve,
};

const TOKEN: &str = "00112233445566778899aabbccddeeff00112233445566778899aabbccddeeff";

fn descriptor(port: u16, workspace: &str) -> ServerInfo {
    ServerInfo {
        port,
        token: TOKEN.to_string(),
        base_url: format!("http://127.0.0.1:{}", port),
        workspace: workspace.to_string(),
    }
}

fn spawned(workspace: &str, port: u16) -> ServerInit {
    let mut init = ServerInit::new(workspace);
    init.advance(&InitEvent::Killed(Ok(())));
    init.advance(&InitEvent::PortProbed(PortProbe::Bound(port)));
    init.advance(&InitEvent::TokenMinted(Ok(TOKEN.to_string())));
    init.advance(&InitEvent::Spawned(Ok(())));
    init
}

#[test]
fn server_that_is_healthy_on_the_third_probe_is_announced() {
    let workspace = "/home/user/my project";
    let mut registry: ServerState<u32> = ServerState::new();
    let mut init = ServerInit::new(workspace);
    let mut announced: Vec<Notification> = Vec::new();
    let mut replies = vec![
        ProbeReply::Failed("connection refused".to_string()),
        ProbeReply::Status(503),
        ProbeReply::Status(200),
    ]
    .into_iter();
    let mut waited = 0u64;
    let mut child: Option<u32> = None;
    let result = loop {
        let event = match init.pending() {
            InitAction::KillCurrent => {
                assert_eq!(registry.kill_current(), None);
                InitEvent::Killed(Ok(()))
            }
            InitAction::ProbePort => InitEvent::PortProbed(PortProbe::Bound(43210)),
            InitAction::MintToken => InitEvent::TokenMinted(generate_token()),
            InitAction::Spawn { args } => {
                assert_eq!(args.len(), 9);
                assert_eq!(&args[..5], &["serve", "--host", "127.0.0.1", "--port", "43210"]);
                assert_eq!(args[8], workspace);
                child = Some(77);
                InitEvent::Spawned(Ok(()))
            }
            InitAction::ProbeHealth { base_url, token } => {
                assert_eq!(base_url, "http://127.0.0.1:43210");
                let mut probe = HealthProbe::new(&base_url, &token);
                let outcome = loop {
                    match probe.record(&replies.next().expect("a reply for each request")) {
                        ProbeStep::Retry { delay_ms } => waited += delay_ms,
                        ProbeStep::Healthy => break Ok(()),
                        ProbeStep::Unhealthy { error } => break Err(error),
                    }
                };
                InitEvent::Probed(outcome)
            }
            InitAction::DiscardSpawned => panic!("a healthy server is not discarded"),
            InitAction::Register { info } => {
                let runtime = ServerRuntime::new(child.take().unwrap(), info);
                assert!(matches!(registry.set_runtime(runtime), SetStep::Stored));
                InitEvent::Registered(Ok(()))
            }
            InitAction::Announce { notification } => {
                announced.push(notification);
                InitEvent::Announced(Ok(()))
            }
            InitAction::Finish { result } => break result,
        };
        init.advance(&event);
    };
    let info = result.expect("expected the start to succeed");
    assert_eq!(waited, 300);
    assert_eq!(info.workspace, workspace);
    assert_eq!(info.port, 43210);
    assert_eq!(info.base_url, "http://127.0.0.1:43210");
    assert_eq!(info.token.len(), 64);
    assert_eq!(announced, vec![Notification::ServerReady(info.clone())]);
    assert_eq!(registry.server_info(), Some(info));
}

#[test]
fn start_asks_for_each_step_in_turn() {
    let mut init = ServerInit::new("/ws");
    assert_eq!(init.pending(), InitAction::KillCurrent);
    init.advance(&InitEvent::Killed(Ok(())));
    assert_eq!(init.pending(), InitAction::ProbePort);
    init.advance(&InitEvent::PortProbed(PortProbe::Bound(5000)));
    assert_eq!(init.pending(), InitAction::MintToken);
    init.advance(&InitEvent::TokenMinted(Ok(TOKEN.to_string())));
    assert_eq!(
        init.pending(),
        InitAction::Spawn {
            args: vec![
                "serve".to_string(),
                "--host".to_string(),
                "127.0.0.1".to_string(),
                "--port".to_string(),
                "5000".to_string(),
                "--token".to_string(),
                TOKEN.to_string(),
                "--workspace".to_string(),
                "/ws".to_string(),
            ],
        }
    );
    init.advance(&InitEvent::Spawned(Ok(())));
    assert_eq!(
        init.pending(),
        InitAction::ProbeHealth {
            base_url: "http://127.0.0.1:5000".to_string(),
            token: TOKEN.to_string(),
        }
    );
    init.advance(&InitEvent::Probed(Ok(())));
    assert_eq!(init.pending(), InitAction::Register { info: descriptor(5000, "/ws") });
    init.advance(&InitEvent::Registered(Ok(())));
    assert_eq!(
        init.pending(),
        InitAction::Announce { notification: Notification::ServerReady(descriptor(5000, "/ws")) }
    );
    init.advance(&InitEvent::Announced(Ok(())));
    assert_eq!(init.pending(), InitAction::Finish { result: Ok(descriptor(5000, "/ws")) });
}

#[test]
fn failed_kill_ends_the_start() {
    let mut init = ServerInit::new("/ws");
    init.advance(&InitEvent::Killed(Err("failed to kill sidecar process: busy".to_string())));
    assert_eq!(
        init.pending(),
        InitAction::Finish { result: Err("failed to kill sidecar process: busy".to_string()) }
    );
}

#[test]
fn failed_port_probe_ends_the_start() {
    let mut init = ServerInit::new("/ws");
    init.advance(&InitEvent::Killed(Ok(())));
    init.advance(&InitEvent::PortProbed(PortProbe::BindFailed("denied".to_string())));
    assert_eq!(
        init.pending(),
        InitAction::Finish { result: Err("failed to bind ephemeral port: denied".to_string()) }
    );
}

#[test]
fn failed_token_ends_the_start() {
    let mut init = ServerInit::new("/ws");
    init.advance(&InitEvent::Killed(Ok(())));
    init.advance(&InitEvent::PortProbed(PortProbe::Bound(5000)));
    init.advance(&InitEvent::TokenMinted(Err("failed to read the random source: x".to_string())));
    assert_eq!(
        init.pending(),
        InitAction::Finish { result: Err("failed to read the random source: x".to_string()) }
    );
}

#[test]
fn failed_spawn_ends_the_start() {
    let mut init = ServerInit::new("/ws");
    init.advance(&InitEvent::Killed(Ok(())));
    init.advance(&InitEvent::PortProbed(PortProbe::Bound(5000)));
    init.advance(&InitEvent::TokenMinted(Ok(TOKEN.to_string())));
    init.advance(&InitEvent::Spawned(Err(SpawnFailure::Launch("not found".to_string()))));
    assert_eq!(
        init.pending(),
        InitAction::Finish { result: Err("failed to spawn treq sidecar: not found".to_string()) }
    );
}

#[test]
fn failed_probe_discards_the_process_and_registers_nothing() {
    let mut init = spawned("/ws", 5000);
    init.advance(&InitEvent::Probed(Err("health check failed".to_string())));
    assert_eq!(init.pending(), InitAction::DiscardSpawned);
    init.advance(&InitEvent::Registered(Ok(())));
    init.advance(&InitEvent::Announced(Ok(())));
    assert_eq!(init.pending(), InitAction::DiscardSpawned);
    init.advance(&InitEvent::Discarded);
    assert_eq!(
        init.pending(),
        InitAction::Finish {
            result: Err("health check failed".to_string()),
        }
    );
}

#[test]
fn failed_registration_ends_the_start() {
    let mut init = spawned("/ws", 5000);
    init.advance(&InitEvent::Probed(Ok(())));
    init.advance(&InitEvent::Registered(Err("failed to acquire server state lock".to_string())));
    assert_eq!(
        init.pending(),
        InitAction::Finish { result: Err("failed to acquire server state lock".to_string()) }
    );
}

#[test]
fn undelivered_ready_notification_ends_the_start() {
    let mut init = spawned("/ws", 5000);
    init.advance(&InitEvent::Probed(Ok(())));
    init.advance(&InitEvent::Registered(Ok(())));
    init.advance(&InitEvent::Announced(Err("channel closed".to_string())));
    assert_eq!(
        init.pending(),
        InitAction::Finish {
            result: Err("failed to emit server-ready event: channel closed".to_string()),
        }
    );
}

#[test]
fn start_ignores_events_that_were_not_asked_for() {
    let mut init = ServerInit::new("/ws");
    init.advance(&InitEvent::Probed(Ok(())));
    init.advance(&InitEvent::Registered(Ok(())));
    init.advance(&InitEvent::Spawned(Ok(())));
    assert_eq!(init.pending(), InitAction::KillCurrent);
}

#[test]
fn switch_to_a_refused_path_saves_nothing() {
    let mut switch = WorkspaceSwitch::new("/nowhere");
    assert_eq!(switch.pending(), SwitchAction::Check { path: "/nowhere".to_string() });
    switch.advance(&SwitchEvent::Checked(Err("workspace path does not exist: gone".to_string())));
    let verdict =
        SwitchAction::Finish { result: Err("workspace path does not exist: gone".to_string()) };
    assert_eq!(switch.pending(), verdict);
    switch.advance(&SwitchEvent::Persisted(Ok(())));
    switch.advance(&SwitchEvent::Initialized(Ok(descriptor(1, "/nowhere"))));
    switch.advance(&SwitchEvent::Reported);
    assert_eq!(switch.pending(), verdict);
}

#[test]
fn switch_saves_the_valid_path_and_starts_a_server() {
    let mut switch = WorkspaceSwitch::new("/ws");
    switch.advance(&SwitchEvent::Checked(Ok("/ws".to_string())));
    assert_eq!(switch.pending(), SwitchAction::Persist { path: "/ws".to_string() });
    switch.advance(&SwitchEvent::Persisted(Ok(())));
    assert_eq!(switch.pending(), SwitchAction::Initialize { workspace: "/ws".to_string() });
    switch.advance(&SwitchEvent::Initialized(Ok(descriptor(6000, "/ws"))));
    assert_eq!(switch.pending(), SwitchAction::Finish { result: Ok(descriptor(6000, "/ws")) });
}

#[test]
fn switch_that_cannot_save_starts_no_server() {
    let mut switch = WorkspaceSwitch::new("/ws");
    switch.advance(&SwitchEvent::Checked(Ok("/ws".to_string())));
    switch.advance(&SwitchEvent::Persisted(Err(PersistFailure::CreateDirectory(
        "read-only".to_string(),
    ))));
    assert_eq!(
        switch.pending(),
        SwitchAction::Finish {
            result: Err("failed to create workspace state directory: read-only".to_string()),
        }
    );
}

#[test]
fn switch_reports_a_failed_start_to_the_host() {
    let mut switch = WorkspaceSwitch::new("/ws");
    switch.advance(&SwitchEvent::Checked(Ok("/ws".to_string())));
    switch.advance(&SwitchEvent::Persisted(Ok(())));
    switch.advance(&SwitchEvent::Initialized(Err("health check request failed at http://127.0.0.1:1/health: refused".to_string())));
    assert_eq!(
        switch.pending(),
        SwitchAction::Report {
            notification: Notification::ServerError {
                message: "health check request failed at http://127.0.0.1:1/health: refused".to_string(),
            },
        }
    );
    switch.advance(&SwitchEvent::Reported);
    assert_eq!(
        switch.pending(),
        SwitchAction::Finish { result: Err("health check request failed at http://127.0.0.1:1/health: refused".to_string()) }
    );
}

#[test]
fn switched_workspace_is_reused_at_the_next_startup() {
    let mut saved: Option<String> = None;
    let mut switch = WorkspaceSwitch::new("/home/user/project");
    switch.advance(&SwitchEvent::Checked(Ok("/home/user/project".to_string())));
    if let SwitchAction::Persist { path } = switch.pending() {
        saved = Some(path);
    }
    switch.advance(&SwitchEvent::Persisted(Ok(())));
    assert_eq!(saved, Some("/home/user/project".to_string()));

    let mut resolver = StartupResolve::new();
    let result = loop {
        let event = match resolver.pending() {
            ResolveAction::Load => ResolveEvent::Loaded(match saved.clone() {
                Some(path) => LoadOutcome::Found(path),
                None => LoadOutcome::Missing,
            }),
            ResolveAction::Check { path } => ResolveEvent::Checked(Ok(path)),
            ResolveAction::Announce { .. } => panic!("the host was told of a dialog"),
            ResolveAction::Pick => panic!("the user was asked"),
            ResolveAction::Persist { .. } => panic!("the state was written again"),
            ResolveAction::Finish { result } => break result,
        };
        resolver.advance(&event);
    };
    assert_eq!(result, Ok("/home/user/project".to_string()));
}

#[test]
fn refused_switch_leaves_the_saved_workspace_alone() {
    let saved = Some("/earlier".to_string());
    let mut writes = 0;
    let mut switch = WorkspaceSwitch::new("/does/not/exist");
    let result = loop {
        let event = match switch.pending() {
            SwitchAction::Check { .. } => SwitchEvent::Checked(Err(
                "workspace path does not exist: No such file or directory (os error 2)"
                    .to_string(),
            )),
            SwitchAction::Persist { .. } => {
                writes += 1;
                SwitchEvent::Persisted(Ok(()))
            }
            SwitchAction::Initialize { workspace } => {
                SwitchEvent::Initialized(Ok(descriptor(1, &workspace)))
            }
            SwitchAction::Report { .. } => SwitchEvent::Reported,
            SwitchAction::Finish { result } => break result,
        };
        switch.advance(&event);
    };
    assert_eq!(
        result,
        Err("workspace path does not exist: No such file or directory (os error 2)".to_string())
    );
    assert_eq!(writes, 0);
    assert_eq!(saved, Some("/earlier".to_string()));
}

#[test]
fn boot_under_a_taken_guard_does_nothing() {
    let mut guard = StartupState::new();
    let first = Boot::begin(&mut guard);
    let mut second = Boot::begin(&mut guard);
    assert_eq!(first.pending(), BootAction::Resolve);
    assert_eq!(second.pending(), BootAction::Finish { result: Ok(()) });
    second.advance(&mut guard, &BootEvent::Resolved(Ok("/ws".to_string())));
    second.advance(&mut guard, &BootEvent::Initialized(Err("x".to_string())));
    assert_eq!(second.pending(), BootAction::Finish { result: Ok(()) });
    assert!(!guard.begin());
}

#[test]
fn boot_that_succeeds_releases_the_guard() {
    let mut guard = StartupState::new();
    let mut boot = Boot::begin(&mut guard);
    boot.advance(&mut guard, &BootEvent::Resolved(Ok("/ws".to_string())));
    assert_eq!(boot.pending(), BootAction::Initialize { workspace: "/ws".to_string() });
    assert!(!guard.begin());
    boot.advance(&mut guard, &BootEvent::Initialized(Ok(descriptor(7000, "/ws"))));
    assert_eq!(boot.pending(), BootAction::Finish { result: Ok(()) });
    assert!(guard.begin());
}

#[test]
fn boot_without_a_workspace_releases_the_guard_and_reports() {
    let mut guard = StartupState::new();
    let mut boot = Boot::begin(&mut guard);
    boot.advance(&mut guard, &BootEvent::Resolved(Err("workspace selection cancelled".to_string())));
    assert_eq!(
        boot.pending(),
        BootAction::Report {
            notification: Notification::ServerError {
                message: "workspace selection cancelled".to_string(),
            },
        }
    );
    assert!(guard.begin());
    guard.end();
    boot.advance(&mut guard, &BootEvent::Reported);
    assert_eq!(
        boot.pending(),
        BootAction::Finish { result: Err("workspace selection cancelled".to_string()) }
    );
    assert!(guard.begin());
}

#[test]
fn boot_whose_server_fails_releases_the_guard_and_reports() {
    let mut guard = StartupState::new();
    let mut boot = Boot::begin(&mut guard);
    boot.advance(&mut guard, &BootEvent::Resolved(Ok("/ws".to_string())));
    boot.advance(
        &mut guard,
        &BootEvent::Initialized(Err("health check returned unexpected status 503 Service Unavailable at http://127.0.0.1:1/health".to_string())),
    );
    assert!(guard.begin());
    assert_eq!(
        boot.pending(),
        BootAction::Report {
            notification: Notification::ServerError {
                message: "health check returned unexpected status 503 Service Unavailable at http://127.0.0.1:1/health".to_string(),
            },
        }
    );
    boot.advance(&mut guard, &BootEvent::Reported);
    assert_eq!(
        boot.pending(),
        BootAction::Finish { result: Err("health check returned unexpected status 503 Service Unavailable at http://127.0.0.1:1/health".to_string()) }
    );
}

#[test]
fn server_that_never_becomes_healthy_is_killed_and_its_error_returned() {
    let mut registry: ServerState<u32> = ServerState::new();
    let mut init = ServerInit::new("/ws");
    let mut announced = 0;
    let mut registered = 0;
    let mut kills: Vec<u32> = Vec::new();
    let mut child: Option<u32> = None;
    let mut requests = 0;
    let mut probe_error: Option<String> = None;
    let result = loop {
        let event = match init.pending() {
            InitAction::KillCurrent => {
                assert_eq!(registry.kill_current(), None);
                InitEvent::Killed(Ok(()))
            }
            InitAction::ProbePort => InitEvent::PortProbed(PortProbe::Bound(40000)),
            InitAction::MintToken => InitEvent::TokenMinted(Ok(TOKEN.to_string())),
            InitAction::Spawn { .. } => {
                child = Some(5);
                InitEvent::Spawned(Ok(()))
            }
            InitAction::ProbeHealth { base_url, token } => {
                let mut probe = HealthProbe::new(&base_url, &token);
                let outcome = loop {
                    requests += 1;
                    let reply = ProbeReply::Failed(format!("refused {}", requests));
                    match probe.record(&reply) {
                        ProbeStep::Retry { .. } => {}
                        ProbeStep::Healthy => break Ok(()),
                        ProbeStep::Unhealthy { error } => break Err(error),
                    }
                };
                probe_error = outcome.clone().err();
                InitEvent::Probed(outcome)
            }
            InitAction::DiscardSpawned => {
                kills.push(child.take().expect("a process to kill"));
                InitEvent::Discarded
            }
            InitAction::Register { .. } => {
                registered += 1;
                InitEvent::Registered(Ok(()))
            }
            InitAction::Announce { .. } => {
                announced += 1;
                InitEvent::Announced(Ok(()))
            }
            InitAction::Finish { result } => break result,
        };
        init.advance(&event);
    };
    assert_eq!(requests, 30);
    assert_eq!(
        probe_error,
        Some("health check request failed at http://127.0.0.1:40000/health: refused 30".to_string())
    );
    assert_eq!(result, Err(probe_error.unwrap()));
    assert_eq!(kills, vec![5]);
    assert_eq!(registered, 0);
    assert_eq!(announced, 0);
    assert_eq!(registry.server_info(), None);
}

#[test]
fn failed_probe_error_is_returned_as_the_probe_gave_it() {
    for error in ["", "x", "health check failed", "sidecar failed health check: nested"] {
        let mut init = spawned("/ws", 5000);
        init.advance(&InitEvent::Probed(Err(error.to_string())));
        init.advance(&InitEvent::Discarded);
        assert_eq!(init.pending(), InitAction::Finish { result: Err(error.to_string()) });
    }
}
