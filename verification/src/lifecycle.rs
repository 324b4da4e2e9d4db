//! The orchestrator: what starting a backend server takes, step by step.
//!
//! Each sequence here decides; whoever drives it acts. The driver asks a
//! sequence what is `pending`, does it, and reports what happened to
//! `advance`, until the pending step is `Finish`.

use vstd::prelude::*;
use crate::events::{Notice, Notification};
use crate::sidecar::{
    available_port, base_url, base_url_of, command_line, port_of, sidecar_args, PortProbe,
    SpawnFailure,
};
use crate::startup::{Phase, StartupState};
use crate::state::{Descriptor, ServerInfo};
use crate::text::outcome_view;
use crate::workspace::{
    lemma_saved_path_is_reused, trimmed, LoadOutcome, PersistFailure, ResolveActionView,
    ResolveEvent, ResolveModel,
};

verus! {

/// Where the start of a backend server stands.
#[derive(Clone, Copy, Debug, PartialEq, Eq, Structural)]
pub enum InitStage {
    /// The server that is running, if any, is to be killed.
    Killing,
    /// A free port is to be found.
    Allocating,
    /// A token is to be minted.
    Minting,
    /// The process is to be started.
    Spawning,
    /// The process runs and its readiness is being probed.
    Probing,
    /// The process never became ready and is to be killed.
    Discarding,
    /// The server is ready and is to be put into the registry.
    Registering,
    /// The host is to be told that the server is ready.
    Announcing,
    /// The server is ready, registered and announced.
    Done,
    /// The start failed.
    Failed,
}

/// Something that happened on behalf of the start of a server.
#[derive(Debug, PartialEq, Eq)]
pub enum InitEvent {
    /// The registry was emptied and the process it held told to end, or the
    /// error with which that failed.
    Killed(Result<(), String>),
    /// A free port was looked for.
    PortProbed(PortProbe),
    /// A token was minted, or could not be.
    TokenMinted(Result<String, String>),
    /// The process was started, or could not be.
    Spawned(Result<(), SpawnFailure>),
    /// The readiness probe ended, with its last error where it gave up.
    Probed(Result<(), String>),
    /// The process that never became ready was told to end.
    Discarded,
    /// The server was put into the registry, or could not be.
    Registered(Result<(), String>),
    /// The host was told that the server is ready, or could not be.
    Announced(Result<(), String>),
}

/// What the start of a server asks for next.
#[derive(Debug, PartialEq, Eq)]
pub enum InitAction {
    /// Kill the server that is running and report `InitEvent::Killed`.
    KillCurrent,
    /// Look for a free port and report `InitEvent::PortProbed`.
    ProbePort,
    /// Mint a token and report `InitEvent::TokenMinted`.
    MintToken,
    /// Start the backend server with `args` and report `InitEvent::Spawned`.
    Spawn { args: Vec<String> },
    /// Probe the readiness of the server at `base_url` with `token` and
    /// report `InitEvent::Probed`.
    ProbeHealth { base_url: String, token: String },
    /// Kill the process just started and report `InitEvent::Discarded`.
    DiscardSpawned,
    /// Put the process just started into the registry under `info` and
    /// report `InitEvent::Registered`.
    Register { info: ServerInfo },
    /// Send `notification` and report `InitEvent::Announced`.
    Announce { notification: Notification },
    /// The start has ended: `result` is the descriptor or the error.
    Finish { result: Result<ServerInfo, String> },
}

/// A step of the start of a server by the characters of its texts.
pub enum InitActionView {
    KillCurrent,
    ProbePort,
    MintToken,
    Spawn { args: Seq<Seq<char>> },
    ProbeHealth { base_url: Seq<char>, token: Seq<char> },
    DiscardSpawned,
    Register { info: Descriptor },
    Announce { notification: Notice },
    Finish { result: Result<Descriptor, Seq<char>> },
}

/// A descriptor or an error by the characters of their texts.
pub open spec fn info_result_view(r: Result<ServerInfo, String>) -> Result<Descriptor, Seq<char>> {
    match r {
        Ok(info) => Ok(info@),
        Err(e) => Err(e@),
    }
}

impl View for InitAction {
    type V = InitActionView;

    open spec fn view(&self) -> InitActionView {
        match *self {
            InitAction::KillCurrent => InitActionView::KillCurrent,
            InitAction::ProbePort => InitActionView::ProbePort,
            InitAction::MintToken => InitActionView::MintToken,
            InitAction::Spawn { args } => InitActionView::Spawn { args: args.deep_view() },
            InitAction::ProbeHealth { base_url, token } => InitActionView::ProbeHealth {
                base_url: base_url@,
                token: token@,
            },
            InitAction::DiscardSpawned => InitActionView::DiscardSpawned,
            InitAction::Register { info } => InitActionView::Register { info: info@ },
            InitAction::Announce { notification } => InitActionView::Announce {
                notification: notification@,
            },
            InitAction::Finish { result } => InitActionView::Finish {
                result: info_result_view(result),
            },
        }
    }
}

/// The start of a server as a mathematical value.
pub struct InitModel {
    pub stage: InitStage,
    pub workspace: Seq<char>,
    /// The port, once one is found.
    pub port: u16,
    /// The token, once one is minted.
    pub token: Seq<char>,
    /// The error, once the start has failed.
    pub error: Seq<char>,
}

impl InitModel {
    /// The start of a server for `workspace`, before anything has happened.
    pub open spec fn start(workspace: Seq<char>) -> InitModel {
        InitModel {
            stage: InitStage::Killing,
            workspace,
            port: 0,
            token: Seq::empty(),
            error: Seq::empty(),
        }
    }

    /// The descriptor of the server that is being started.
    pub open spec fn descriptor(self) -> Descriptor {
        Descriptor {
            port: self.port,
            token: self.token,
            base_url: base_url_of(self.port),
            workspace: self.workspace,
        }
    }

    /// This start in `stage`.
    pub open spec fn at(self, stage: InitStage) -> InitModel {
        InitModel { stage, ..self }
    }

    /// This start, failed with `error`.
    pub open spec fn fail(self, error: Seq<char>) -> InitModel {
        InitModel { stage: InitStage::Failed, error, ..self }
    }

    /// The start after an event. An event that was not asked for changes
    /// nothing.
    pub open spec fn advance(self, event: InitEvent) -> InitModel {
        match (self.stage, event) {
            (InitStage::Killing, InitEvent::Killed(Ok(()))) => self.at(InitStage::Allocating),
            (InitStage::Killing, InitEvent::Killed(Err(e))) => self.fail(e@),
            (InitStage::Allocating, InitEvent::PortProbed(probe)) => match port_of(probe) {
                Ok(port) => InitModel { stage: InitStage::Minting, port, ..self },
                Err(e) => self.fail(e),
            },
            (InitStage::Minting, InitEvent::TokenMinted(Ok(token))) => InitModel {
                stage: InitStage::Spawning,
                token: token@,
                ..self
            },
            (InitStage::Minting, InitEvent::TokenMinted(Err(e))) => self.fail(e@),
            (InitStage::Spawning, InitEvent::Spawned(Ok(()))) => self.at(InitStage::Probing),
            (InitStage::Spawning, InitEvent::Spawned(Err(failure))) => self.fail(
                failure.describe(),
            ),
            (InitStage::Probing, InitEvent::Probed(Ok(()))) => self.at(InitStage::Registering),
            (InitStage::Probing, InitEvent::Probed(Err(e))) => InitModel {
                stage: InitStage::Discarding,
                error: e@,
                ..self
            },
            (InitStage::Discarding, InitEvent::Discarded) => self.at(InitStage::Failed),
            (InitStage::Registering, InitEvent::Registered(Ok(()))) => self.at(
                InitStage::Announcing,
            ),
            (InitStage::Registering, InitEvent::Registered(Err(e))) => self.fail(e@),
            (InitStage::Announcing, InitEvent::Announced(Ok(()))) => self.at(InitStage::Done),
            (InitStage::Announcing, InitEvent::Announced(Err(e))) => self.fail(
                Notice::ServerReady(self.descriptor()).undelivered(e@),
            ),
            _ => self,
        }
    }

    /// What the start asks for in its present stage.
    pub open spec fn pending(self) -> InitActionView {
        match self.stage {
            InitStage::Killing => InitActionView::KillCurrent,
            InitStage::Allocating => InitActionView::ProbePort,
            InitStage::Minting => InitActionView::MintToken,
            InitStage::Spawning => InitActionView::Spawn {
                args: command_line(self.port, self.token, self.workspace),
            },
            InitStage::Probing => InitActionView::ProbeHealth {
                base_url: base_url_of(self.port),
                token: self.token,
            },
            InitStage::Discarding => InitActionView::DiscardSpawned,
            InitStage::Registering => InitActionView::Register { info: self.descriptor() },
            InitStage::Announcing => InitActionView::Announce {
                notification: Notice::ServerReady(self.descriptor()),
            },
            InitStage::Done => InitActionView::Finish { result: Ok(self.descriptor()) },
            InitStage::Failed => InitActionView::Finish { result: Err(self.error) },
        }
    }

    /// The start after a series of events.
    pub open spec fn after(self, events: Seq<InitEvent>) -> InitModel
        decreases events.len(),
    {
        if events.len() == 0 {
            self
        } else {
            self.after(events.drop_last()).advance(events.last())
        }
    }
}

/// The start of one backend server for one workspace.
pub struct ServerInit {
    stage: InitStage,
    workspace: String,
    port: u16,
    token: String,
    error: String,
}

impl View for ServerInit {
    type V = InitModel;

    closed spec fn view(&self) -> InitModel {
        InitModel {
            stage: self.stage,
            workspace: self.workspace@,
            port: self.port,
            token: self.token@,
            error: self.error@,
        }
    }
}

impl ServerInit {
    /// The start of a server for `workspace`, before anything has happened.
    pub fn new(workspace: &str) -> (init: ServerInit)
        ensures
            init@ == InitModel::start(workspace@),
    {
        ServerInit {
            stage: InitStage::Killing,
            workspace: String::from_str(workspace),
            port: 0,
            token: String::new(),
            error: String::new(),
        }
    }

    fn fail(&mut self, error: String)
        ensures
            final(self)@ == old(self)@.fail(error@),
    {
        self.stage = InitStage::Failed;
        self.error = error;
    }

    fn info(&self) -> (info: ServerInfo)
        ensures
            info@ == self@.descriptor(),
    {
        ServerInfo {
            port: self.port,
            token: self.token.clone(),
            base_url: base_url(self.port),
            workspace: self.workspace.clone(),
        }
    }

    /// Takes an event.
    pub fn advance(&mut self, event: &InitEvent)
        ensures
            final(self)@ == old(self)@.advance(*event),
    {
        match self.stage {
            InitStage::Killing => match event {
                InitEvent::Killed(Ok(())) => {
                    self.stage = InitStage::Allocating;
                },
                InitEvent::Killed(Err(e)) => self.fail(e.clone()),
                _ => {},
            },
            InitStage::Allocating => match event {
                InitEvent::PortProbed(probe) => match available_port(probe) {
                    Ok(port) => {
                        self.stage = InitStage::Minting;
                        self.port = port;
                    },
                    Err(e) => self.fail(e),
                },
                _ => {},
            },
            InitStage::Minting => match event {
                InitEvent::TokenMinted(Ok(token)) => {
                    self.stage = InitStage::Spawning;
                    self.token = token.clone();
                },
                InitEvent::TokenMinted(Err(e)) => self.fail(e.clone()),
                _ => {},
            },
            InitStage::Spawning => match event {
                InitEvent::Spawned(Ok(())) => {
                    self.stage = InitStage::Probing;
                },
                InitEvent::Spawned(Err(failure)) => self.fail(failure.message()),
                _ => {},
            },
            InitStage::Probing => match event {
                InitEvent::Probed(Ok(())) => {
                    self.stage = InitStage::Registering;
                },
                InitEvent::Probed(Err(e)) => {
                    self.stage = InitStage::Discarding;
                    self.error = e.clone();
                },
                _ => {},
            },
            InitStage::Discarding => match event {
                InitEvent::Discarded => {
                    self.stage = InitStage::Failed;
                },
                _ => {},
            },
            InitStage::Registering => match event {
                InitEvent::Registered(Ok(())) => {
                    self.stage = InitStage::Announcing;
                },
                InitEvent::Registered(Err(e)) => self.fail(e.clone()),
                _ => {},
            },
            InitStage::Announcing => match event {
                InitEvent::Announced(Ok(())) => {
                    self.stage = InitStage::Done;
                },
                InitEvent::Announced(Err(e)) => {
                    let notification = Notification::ServerReady(self.info());
                    self.fail(notification.emit_failure(e.as_str()));
                },
                _ => {},
            },
            _ => {},
        }
    }

    /// What the start asks for in its present stage.
    pub fn pending(&self) -> (action: InitAction)
        ensures
            action@ == self@.pending(),
    {
        match self.stage {
            InitStage::Killing => InitAction::KillCurrent,
            InitStage::Allocating => InitAction::ProbePort,
            InitStage::Minting => InitAction::MintToken,
            InitStage::Spawning => InitAction::Spawn {
                args: sidecar_args(self.port, self.token.as_str(), self.workspace.as_str()),
            },
            InitStage::Probing => InitAction::ProbeHealth {
                base_url: base_url(self.port),
                token: self.token.clone(),
            },
            InitStage::Discarding => InitAction::DiscardSpawned,
            InitStage::Registering => InitAction::Register { info: self.info() },
            InitStage::Announcing => InitAction::Announce {
                notification: Notification::ServerReady(self.info()),
            },
            InitStage::Done => InitAction::Finish { result: Ok(self.info()) },
            InitStage::Failed => InitAction::Finish { result: Err(self.error.clone()) },
        }
    }
}

/// Where a switch to another workspace stands.
#[derive(Clone, Copy, Debug, PartialEq, Eq, Structural)]
pub enum SwitchStage {
    /// The path is being validated.
    Checking,
    /// The path is valid and is to be saved.
    Persisting,
    /// A server is being started for the path.
    Initializing,
    /// The start failed and the host is to be told so.
    Reporting,
    /// A server runs for the new workspace.
    Done,
    /// The switch failed.
    Failed,
}

/// Something that happened on behalf of a switch.
#[derive(Debug, PartialEq, Eq)]
pub enum SwitchEvent {
    /// The path was validated.
    Checked(Result<String, String>),
    /// The path was saved, or could not be.
    Persisted(Result<(), PersistFailure>),
    /// The start of the server ended.
    Initialized(Result<ServerInfo, String>),
    /// The host was told of the failure, or the attempt to tell it was made.
    Reported,
}

/// What a switch asks for next.
#[derive(Debug, PartialEq, Eq)]
pub enum SwitchAction {
    /// Validate `path` and report `SwitchEvent::Checked`.
    Check { path: String },
    /// Save `path` as the last workspace and report `SwitchEvent::Persisted`.
    Persist { path: String },
    /// Start a server for `workspace` and report `SwitchEvent::Initialized`.
    Initialize { workspace: String },
    /// Send `notification`, whatever comes of it, and report
    /// `SwitchEvent::Reported`.
    Report { notification: Notification },
    /// The switch has ended: `result` is the new descriptor or the error.
    Finish { result: Result<ServerInfo, String> },
}

/// A step of a switch by the characters of its texts.
pub enum SwitchActionView {
    Check { path: Seq<char> },
    Persist { path: Seq<char> },
    Initialize { workspace: Seq<char> },
    Report { notification: Notice },
    Finish { result: Result<Descriptor, Seq<char>> },
}

impl View for SwitchAction {
    type V = SwitchActionView;

    open spec fn view(&self) -> SwitchActionView {
        match *self {
            SwitchAction::Check { path } => SwitchActionView::Check { path: path@ },
            SwitchAction::Persist { path } => SwitchActionView::Persist { path: path@ },
            SwitchAction::Initialize { workspace } => SwitchActionView::Initialize {
                workspace: workspace@,
            },
            SwitchAction::Report { notification } => SwitchActionView::Report {
                notification: notification@,
            },
            SwitchAction::Finish { result } => SwitchActionView::Finish {
                result: info_result_view(result),
            },
        }
    }
}

/// A switch as a mathematical value.
pub struct SwitchModel {
    pub stage: SwitchStage,
    /// The path as given first, as validated later.
    pub path: Seq<char>,
    /// The descriptor, once the server runs.
    pub info: Descriptor,
    /// The error, once the switch has failed.
    pub error: Seq<char>,
}

impl SwitchModel {
    /// The switch to `raw`, before anything has happened.
    pub open spec fn start(raw: Seq<char>) -> SwitchModel {
        SwitchModel {
            stage: SwitchStage::Checking,
            path: raw,
            info: Descriptor {
                port: 0,
                token: Seq::empty(),
                base_url: Seq::empty(),
                workspace: Seq::empty(),
            },
            error: Seq::empty(),
        }
    }

    /// This switch, failed with `error`.
    pub open spec fn fail(self, error: Seq<char>) -> SwitchModel {
        SwitchModel { stage: SwitchStage::Failed, error, ..self }
    }

    /// The switch after an event. An event that was not asked for changes
    /// nothing.
    pub open spec fn advance(self, event: SwitchEvent) -> SwitchModel {
        match (self.stage, event) {
            (SwitchStage::Checking, SwitchEvent::Checked(Ok(path))) => SwitchModel {
                stage: SwitchStage::Persisting,
                path: path@,
                ..self
            },
            (SwitchStage::Checking, SwitchEvent::Checked(Err(e))) => self.fail(e@),
            (SwitchStage::Persisting, SwitchEvent::Persisted(Ok(()))) => SwitchModel {
                stage: SwitchStage::Initializing,
                ..self
            },
            (SwitchStage::Persisting, SwitchEvent::Persisted(Err(failure))) => self.fail(
                failure.describe(),
            ),
            (SwitchStage::Initializing, SwitchEvent::Initialized(Ok(info))) => SwitchModel {
                stage: SwitchStage::Done,
                info: info@,
                ..self
            },
            (SwitchStage::Initializing, SwitchEvent::Initialized(Err(e))) => SwitchModel {
                stage: SwitchStage::Reporting,
                error: e@,
                ..self
            },
            (SwitchStage::Reporting, SwitchEvent::Reported) => SwitchModel {
                stage: SwitchStage::Failed,
                ..self
            },
            _ => self,
        }
    }

    /// What the switch asks for in its present stage.
    pub open spec fn pending(self) -> SwitchActionView {
        match self.stage {
            SwitchStage::Checking => SwitchActionView::Check { path: self.path },
            SwitchStage::Persisting => SwitchActionView::Persist { path: self.path },
            SwitchStage::Initializing => SwitchActionView::Initialize { workspace: self.path },
            SwitchStage::Reporting => SwitchActionView::Report {
                notification: Notice::ServerError { message: self.error },
            },
            SwitchStage::Done => SwitchActionView::Finish { result: Ok(self.info) },
            SwitchStage::Failed => SwitchActionView::Finish { result: Err(self.error) },
        }
    }

    /// The switch after a series of events.
    pub open spec fn after(self, events: Seq<SwitchEvent>) -> SwitchModel
        decreases events.len(),
    {
        if events.len() == 0 {
            self
        } else {
            self.after(events.drop_last()).advance(events.last())
        }
    }
}

/// A switch to a workspace that the host names: the path is validated and
/// saved, and a server is started for it. The user is never asked.
pub struct WorkspaceSwitch {
    stage: SwitchStage,
    path: String,
    info: ServerInfo,
    error: String,
}

impl View for WorkspaceSwitch {
    type V = SwitchModel;

    closed spec fn view(&self) -> SwitchModel {
        SwitchModel { stage: self.stage, path: self.path@, info: self.info@, error: self.error@ }
    }
}

impl WorkspaceSwitch {
    /// The switch to `raw`, before anything has happened.
    pub fn new(raw: &str) -> (switch: WorkspaceSwitch)
        ensures
            switch@ == SwitchModel::start(raw@),
    {
        WorkspaceSwitch {
            stage: SwitchStage::Checking,
            path: String::from_str(raw),
            info: ServerInfo {
                port: 0,
                token: String::new(),
                base_url: String::new(),
                workspace: String::new(),
            },
            error: String::new(),
        }
    }

    fn fail(&mut self, error: String)
        ensures
            final(self)@ == old(self)@.fail(error@),
    {
        self.stage = SwitchStage::Failed;
        self.error = error;
    }

    /// Takes an event.
    pub fn advance(&mut self, event: &SwitchEvent)
        ensures
            final(self)@ == old(self)@.advance(*event),
    {
        match self.stage {
            SwitchStage::Checking => match event {
                SwitchEvent::Checked(Ok(path)) => {
                    self.stage = SwitchStage::Persisting;
                    self.path = path.clone();
                },
                SwitchEvent::Checked(Err(e)) => self.fail(e.clone()),
                _ => {},
            },
            SwitchStage::Persisting => match event {
                SwitchEvent::Persisted(Ok(())) => {
                    self.stage = SwitchStage::Initializing;
                },
                SwitchEvent::Persisted(Err(failure)) => self.fail(failure.message()),
                _ => {},
            },
            SwitchStage::Initializing => match event {
                SwitchEvent::Initialized(Ok(info)) => {
                    self.stage = SwitchStage::Done;
                    self.info = ServerInfo {
                        port: info.port,
                        token: info.token.clone(),
                        base_url: info.base_url.clone(),
                        workspace: info.workspace.clone(),
                    };
                },
                SwitchEvent::Initialized(Err(e)) => {
                    self.stage = SwitchStage::Reporting;
                    self.error = e.clone();
                },
                _ => {},
            },
            SwitchStage::Reporting => match event {
                SwitchEvent::Reported => {
                    self.stage = SwitchStage::Failed;
                },
                _ => {},
            },
            _ => {},
        }
    }

    /// What the switch asks for in its present stage.
    pub fn pending(&self) -> (action: SwitchAction)
        ensures
            action@ == self@.pending(),
    {
        match self.stage {
            SwitchStage::Checking => SwitchAction::Check { path: self.path.clone() },
            SwitchStage::Persisting => SwitchAction::Persist { path: self.path.clone() },
            SwitchStage::Initializing => SwitchAction::Initialize { workspace: self.path.clone() },
            SwitchStage::Reporting => SwitchAction::Report {
                notification: Notification::ServerError { message: self.error.clone() },
            },
            SwitchStage::Done => SwitchAction::Finish {
                result: Ok(
                    ServerInfo {
                        port: self.info.port,
                        token: self.info.token.clone(),
                        base_url: self.info.base_url.clone(),
                        workspace: self.info.workspace.clone(),
                    },
                ),
            },
            SwitchStage::Failed => SwitchAction::Finish { result: Err(self.error.clone()) },
        }
    }
}

/// Where the boot sequence stands.
#[derive(Clone, Copy, Debug, PartialEq, Eq, Structural)]
pub enum BootStage {
    /// Another boot sequence was running: this one does nothing.
    Skipped,
    /// The workspace is being chosen.
    Resolving,
    /// A server is being started for the workspace.
    Initializing,
    /// The boot failed and the host is to be told so.
    Reporting,
    /// A server runs.
    Done,
    /// The boot failed.
    Failed,
}

impl BootStage {
    /// Whether the boot sequence holds the startup guard in this stage.
    pub open spec fn holds_guard(self) -> bool {
        self == BootStage::Resolving || self == BootStage::Initializing
    }
}

/// Something that happened on behalf of the boot sequence.
#[derive(Debug, PartialEq, Eq)]
pub enum BootEvent {
    /// The workspace was chosen, or could not be.
    Resolved(Result<String, String>),
    /// The start of the server ended.
    Initialized(Result<ServerInfo, String>),
    /// The host was told of the failure, or the attempt to tell it was made.
    Reported,
}

/// What the boot sequence asks for next.
#[derive(Debug, PartialEq, Eq)]
pub enum BootAction {
    /// Choose the workspace and report `BootEvent::Resolved`.
    Resolve,
    /// Start a server for `workspace` and report `BootEvent::Initialized`.
    Initialize { workspace: String },
    /// Send `notification`, whatever comes of it, and report
    /// `BootEvent::Reported`.
    Report { notification: Notification },
    /// The boot sequence has ended.
    Finish { result: Result<(), String> },
}

/// A step of the boot sequence by the characters of its texts.
pub enum BootActionView {
    Resolve,
    Initialize { workspace: Seq<char> },
    Report { notification: Notice },
    Finish { result: Result<(), Seq<char>> },
}

impl View for BootAction {
    type V = BootActionView;

    open spec fn view(&self) -> BootActionView {
        match *self {
            BootAction::Resolve => BootActionView::Resolve,
            BootAction::Initialize { workspace } => BootActionView::Initialize {
                workspace: workspace@,
            },
            BootAction::Report { notification } => BootActionView::Report {
                notification: notification@,
            },
            BootAction::Finish { result } => BootActionView::Finish {
                result: outcome_view(result),
            },
        }
    }
}

/// The boot sequence as a mathematical value.
pub struct BootModel {
    pub stage: BootStage,
    /// The workspace, once it is chosen.
    pub workspace: Seq<char>,
    /// The error, once the boot has failed.
    pub error: Seq<char>,
}

impl BootModel {
    /// The boot sequence that tries to begin under a guard in `guard`, and
    /// the guard after that.
    pub open spec fn begin(guard: Phase) -> (BootModel, Phase) {
        (
            BootModel {
                stage: if guard.begin().1 {
                    BootStage::Resolving
                } else {
                    BootStage::Skipped
                },
                workspace: Seq::empty(),
                error: Seq::empty(),
            },
            guard.begin().0,
        )
    }

    /// The boot sequence and the guard after an event. The guard is released
    /// when the sequence stops, with or without a server. An event that was
    /// not asked for changes nothing.
    pub open spec fn advance(self, guard: Phase, event: BootEvent) -> (BootModel, Phase) {
        match (self.stage, event) {
            (BootStage::Resolving, BootEvent::Resolved(Ok(path))) => (
                BootModel { stage: BootStage::Initializing, workspace: path@, ..self },
                guard,
            ),
            (BootStage::Resolving, BootEvent::Resolved(Err(e))) => (
                BootModel { stage: BootStage::Reporting, error: e@, ..self },
                guard.end(),
            ),
            (BootStage::Initializing, BootEvent::Initialized(Ok(_))) => (
                BootModel { stage: BootStage::Done, ..self },
                guard.end(),
            ),
            (BootStage::Initializing, BootEvent::Initialized(Err(e))) => (
                BootModel { stage: BootStage::Reporting, error: e@, ..self },
                guard.end(),
            ),
            (BootStage::Reporting, BootEvent::Reported) => (
                BootModel { stage: BootStage::Failed, ..self },
                guard,
            ),
            _ => (self, guard),
        }
    }

    /// What the boot sequence asks for in its present stage.
    pub open spec fn pending(self) -> BootActionView {
        match self.stage {
            BootStage::Skipped => BootActionView::Finish { result: Ok(()) },
            BootStage::Resolving => BootActionView::Resolve,
            BootStage::Initializing => BootActionView::Initialize { workspace: self.workspace },
            BootStage::Reporting => BootActionView::Report {
                notification: Notice::ServerError { message: self.error },
            },
            BootStage::Done => BootActionView::Finish { result: Ok(()) },
            BootStage::Failed => BootActionView::Finish { result: Err(self.error) },
        }
    }

    /// The boot sequence and the guard after a series of events.
    pub open spec fn after(self, guard: Phase, events: Seq<BootEvent>) -> (BootModel, Phase)
        decreases events.len(),
    {
        if events.len() == 0 {
            (self, guard)
        } else {
            let earlier = self.after(guard, events.drop_last());
            earlier.0.advance(earlier.1, events.last())
        }
    }
}

/// The boot sequence: under the startup guard, choose the workspace and
/// start a server for it.
pub struct Boot {
    stage: BootStage,
    workspace: String,
    error: String,
}

impl View for Boot {
    type V = BootModel;

    closed spec fn view(&self) -> BootModel {
        BootModel { stage: self.stage, workspace: self.workspace@, error: self.error@ }
    }
}

impl Boot {
    /// Tries to begin a boot sequence under `guard`.
    pub fn begin(guard: &mut StartupState) -> (boot: Boot)
        ensures
            (boot@, final(guard)@) == BootModel::begin(old(guard)@),
    {
        let started = guard.begin();
        Boot {
            stage: if started {
                BootStage::Resolving
            } else {
                BootStage::Skipped
            },
            workspace: String::new(),
            error: String::new(),
        }
    }

    /// Takes an event, and releases `guard` where the sequence stops.
    pub fn advance(&mut self, guard: &mut StartupState, event: &BootEvent)
        ensures
            (final(self)@, final(guard)@) == old(self)@.advance(old(guard)@, *event),
    {
        match self.stage {
            BootStage::Resolving => match event {
                BootEvent::Resolved(Ok(path)) => {
                    self.stage = BootStage::Initializing;
                    self.workspace = path.clone();
                },
                BootEvent::Resolved(Err(e)) => {
                    self.stage = BootStage::Reporting;
                    self.error = e.clone();
                    guard.end();
                },
                _ => {},
            },
            BootStage::Initializing => match event {
                BootEvent::Initialized(Ok(_)) => {
                    self.stage = BootStage::Done;
                    guard.end();
                },
                BootEvent::Initialized(Err(e)) => {
                    self.stage = BootStage::Reporting;
                    self.error = e.clone();
                    guard.end();
                },
                _ => {},
            },
            BootStage::Reporting => match event {
                BootEvent::Reported => {
                    self.stage = BootStage::Failed;
                },
                _ => {},
            },
            _ => {},
        }
    }

    /// What the boot sequence asks for in its present stage.
    pub fn pending(&self) -> (action: BootAction)
        ensures
            action@ == self@.pending(),
    {
        match self.stage {
            BootStage::Skipped => BootAction::Finish { result: Ok(()) },
            BootStage::Resolving => BootAction::Resolve,
            BootStage::Initializing => BootAction::Initialize { workspace: self.workspace.clone() },
            BootStage::Reporting => BootAction::Report {
                notification: Notification::ServerError { message: self.error.clone() },
            },
            BootStage::Done => BootAction::Finish { result: Ok(()) },
            BootStage::Failed => BootAction::Finish { result: Err(self.error.clone()) },
        }
    }
}

/// Whatever happens during the start of a server, the workspace stays the
/// one that was given, so every descriptor that the start registers, announces
/// or returns names that workspace, and its address is the one of its port.
pub proof fn lemma_descriptor_names_workspace(workspace: Seq<char>, events: Seq<InitEvent>)
    ensures
        InitModel::start(workspace).after(events).workspace == workspace,
        InitModel::start(workspace).after(events).descriptor().workspace == workspace,
        InitModel::start(workspace).after(events).descriptor().base_url == base_url_of(
            InitModel::start(workspace).after(events).descriptor().port,
        ),
    decreases events.len(),
{
    if events.len() > 0 {
        lemma_descriptor_names_workspace(workspace, events.drop_last());
    }
}

/// Whether a stage lies before the success of the readiness probe.
pub open spec fn unproven(stage: InitStage) -> bool {
    stage != InitStage::Registering && stage != InitStage::Announcing && stage != InitStage::Done
}

/// Whether an event reports that the readiness probe succeeded.
pub open spec fn reports_health(event: InitEvent) -> bool {
    event matches InitEvent::Probed(outcome) && outcome is Ok
}

/// A server whose readiness probe did not succeed is never registered,
/// announced or returned.
pub proof fn lemma_nothing_registered_without_health(
    workspace: Seq<char>,
    events: Seq<InitEvent>,
)
    requires
        forall|i: int| 0 <= i < events.len() ==> !reports_health(#[trigger] events[i]),
    ensures
        unproven(InitModel::start(workspace).after(events).stage),
    decreases events.len(),
{
    if events.len() > 0 {
        let earlier = events.drop_last();
        assert forall|i: int| 0 <= i < earlier.len() implies !reports_health(
            #[trigger] earlier[i],
        ) by {
            assert(earlier[i] == events[i]);
        }
        lemma_nothing_registered_without_health(workspace, earlier);
        assert(!reports_health(events[events.len() - 1]));
    }
}

/// When the readiness probe gives up, the process just started is killed
/// and the start ends with the probe's error; nothing is registered.
pub proof fn lemma_failed_probe_discards(init: InitModel, e: String)
    requires
        init.stage == InitStage::Probing,
    ensures
        init.advance(InitEvent::Probed(Err(e))).pending() == InitActionView::DiscardSpawned,
        init.advance(InitEvent::Probed(Err(e))).advance(InitEvent::Discarded).pending() == (
        InitActionView::Finish { result: Err(e@) }),
{
}

/// Once the readiness probe has given up, whatever is reported to the start
/// afterwards, it asks only for the process to be killed and then ends with
/// the probe's error: it never asks to register or to announce a server.
pub proof fn lemma_failed_probe_registers_nothing(
    init: InitModel,
    e: String,
    events: Seq<InitEvent>,
)
    requires
        init.stage == InitStage::Probing,
    ensures
        ({
            let now = init.advance(InitEvent::Probed(Err(e))).after(events);
            &&& now.stage == InitStage::Discarding || now.stage == InitStage::Failed
            &&& now.error == e@
            &&& now.pending() == InitActionView::DiscardSpawned || now.pending() == (
            InitActionView::Finish { result: Err(e@) })
        }),
    decreases events.len(),
{
    if events.len() > 0 {
        lemma_failed_probe_registers_nothing(init, e, events.drop_last());
    }
}

/// A start in which every step succeeds asks for each step in turn and ends
/// with the descriptor of the port found, the token minted and the workspace
/// given.
pub proof fn lemma_start_succeeds(workspace: Seq<char>, port: u16, token: String)
    ensures
        ({
            let descriptor = Descriptor {
                port,
                token: token@,
                base_url: base_url_of(port),
                workspace,
            };
            let killed = InitModel::start(workspace).advance(InitEvent::Killed(Ok(())));
            let allocated = killed.advance(InitEvent::PortProbed(PortProbe::Bound(port)));
            let minted = allocated.advance(InitEvent::TokenMinted(Ok(token)));
            let spawned = minted.advance(InitEvent::Spawned(Ok(())));
            let probed = spawned.advance(InitEvent::Probed(Ok(())));
            let registered = probed.advance(InitEvent::Registered(Ok(())));
            let announced = registered.advance(InitEvent::Announced(Ok(())));
            &&& InitModel::start(workspace).pending() == InitActionView::KillCurrent
            &&& killed.pending() == InitActionView::ProbePort
            &&& allocated.pending() == InitActionView::MintToken
            &&& minted.pending() == (InitActionView::Spawn {
                args: command_line(port, token@, workspace),
            })
            &&& spawned.pending() == (InitActionView::ProbeHealth {
                base_url: base_url_of(port),
                token: token@,
            })
            &&& probed.pending() == (InitActionView::Register { info: descriptor })
            &&& registered.pending() == (InitActionView::Announce {
                notification: Notice::ServerReady(descriptor),
            })
            &&& announced.pending() == (InitActionView::Finish { result: Ok(descriptor) })
        }),
{
}

/// A switch whose path was refused ends with the error of the validation,
/// and whatever is reported to it afterwards, it never asks to save the path
/// or to start a server.
pub proof fn lemma_refused_path_is_never_saved(raw: Seq<char>, e: String, events: Seq<SwitchEvent>)
    ensures
        SwitchModel::start(raw).advance(SwitchEvent::Checked(Err(e))).after(events).pending() == (
        SwitchActionView::Finish { result: Err(e@) }),
    decreases events.len(),
{
    if events.len() > 0 {
        lemma_refused_path_is_never_saved(raw, e, events.drop_last());
    }
}

/// A switch whose path was accepted asks to save exactly the path that the
/// validation returned, and only then to start a server for it.
pub proof fn lemma_accepted_path_is_saved(raw: Seq<char>, path: String)
    ensures
        SwitchModel::start(raw).pending() == (SwitchActionView::Check { path: raw }),
        SwitchModel::start(raw).advance(SwitchEvent::Checked(Ok(path))).pending() == (
        SwitchActionView::Persist { path: path@ }),
        SwitchModel::start(raw).advance(SwitchEvent::Checked(Ok(path))).advance(
            SwitchEvent::Persisted(Ok(())),
        ).pending() == (SwitchActionView::Initialize { workspace: path@ }),
{
}

/// A switch asks to save a path only when that very path has just come back
/// from validation as valid.
pub proof fn lemma_switch_saves_only_validated(switch: SwitchModel, event: SwitchEvent)
    requires
        switch.stage != SwitchStage::Persisting,
        switch.advance(event).stage == SwitchStage::Persisting,
    ensures
        switch.stage == SwitchStage::Checking,
        event matches SwitchEvent::Checked(Ok(path)) && switch.advance(event).pending() == (
        SwitchActionView::Persist { path: path@ }),
{
}

/// The path that an accepted switch asks to save is, once it is loaded again
/// at startup and still valid, the workspace that startup ends with; the host
/// is told of no dialog and the user is not asked. (A blank path is never
/// taken for a saved workspace, so the law speaks of paths that are not
/// blank.)
pub proof fn lemma_saved_workspace_is_reused(raw: Seq<char>, validated: String, loaded: String)
    requires
        loaded@ == validated@,
        trimmed(loaded@).len() > 0,
    ensures
        SwitchModel::start(raw).advance(SwitchEvent::Checked(Ok(validated))).pending() == (
        SwitchActionView::Persist { path: validated@ }),
        ResolveModel::start().pending() == ResolveActionView::Load,
        ResolveModel::start().advance(ResolveEvent::Loaded(LoadOutcome::Found(loaded))).pending()
            == (ResolveActionView::Check { path: validated@ }),
        ResolveModel::start().advance(ResolveEvent::Loaded(LoadOutcome::Found(loaded))).advance(
            ResolveEvent::Checked(Ok(loaded)),
        ).pending() == (ResolveActionView::Finish { result: Ok(validated@) }),
{
    lemma_saved_path_is_reused(loaded);
}

/// Whether an event reports that the previous server is out of the way.
pub open spec fn reports_kill(event: InitEvent) -> bool {
    event matches InitEvent::Killed(outcome) && outcome is Ok
}

/// No port is looked for, no token minted and no process started before the
/// server that was running is reported killed: until then the start only
/// asks for that kill, or has failed.
pub proof fn lemma_nothing_spawned_before_kill(workspace: Seq<char>, events: Seq<InitEvent>)
    requires
        forall|i: int| 0 <= i < events.len() ==> !reports_kill(#[trigger] events[i]),
    ensures
        InitModel::start(workspace).after(events).stage == InitStage::Killing || InitModel::start(
            workspace,
        ).after(events).stage == InitStage::Failed,
    decreases events.len(),
{
    if events.len() > 0 {
        let earlier = events.drop_last();
        assert forall|i: int| 0 <= i < earlier.len() implies !reports_kill(
            #[trigger] earlier[i],
        ) by {
            assert(earlier[i] == events[i]);
        }
        lemma_nothing_spawned_before_kill(workspace, earlier);
        assert(!reports_kill(events[events.len() - 1]));
    }
}

/// A boot sequence that began on an idle guard holds the guard exactly while
/// it chooses the workspace and starts the server: once it has stopped, with
/// or without a server, the guard is idle again.
pub proof fn lemma_boot_releases_guard(events: Seq<BootEvent>)
    ensures
        ({
            let begun = BootModel::begin(Phase::Idle);
            let now = begun.0.after(begun.1, events);
            &&& now.0.stage != BootStage::Skipped
            &&& now.0.stage.holds_guard() ==> now.1 == Phase::Initializing
            &&& !now.0.stage.holds_guard() ==> now.1 == Phase::Idle
        }),
    decreases events.len(),
{
    if events.len() > 0 {
        lemma_boot_releases_guard(events.drop_last());
    }
}

/// A boot sequence that found the guard taken does nothing: it ends at once
/// with success and leaves the guard to the sequence that holds it.
pub proof fn lemma_second_boot_is_skipped(events: Seq<BootEvent>)
    ensures
        ({
            let begun = BootModel::begin(Phase::Initializing);
            let now = begun.0.after(begun.1, events);
            &&& now.0.pending() == (BootActionView::Finish { result: Ok(()) })
            &&& now.1 == Phase::Initializing
        }),
    decreases events.len(),
{
    if events.len() > 0 {
        lemma_second_boot_is_skipped(events.drop_last());
    }
}

} // verus!
