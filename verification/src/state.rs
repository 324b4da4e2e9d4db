//! The runtime registry: the one slot that owns the running backend server.

use vstd::prelude::*;
use crate::text::join;

verus! {

/// Public summary of a running backend server.
#[derive(Clone, Debug, PartialEq, Eq)]
pub struct ServerInfo {
    pub port: u16,
    pub token: String,
    pub base_url: String,
    pub workspace: String,
}

/// A descriptor by the characters of its texts.
pub struct Descriptor {
    pub port: u16,
    pub token: Seq<char>,
    pub base_url: Seq<char>,
    pub workspace: Seq<char>,
}

impl View for ServerInfo {
    type V = Descriptor;

    open spec fn view(&self) -> Descriptor {
        Descriptor {
            port: self.port,
            token: self.token@,
            base_url: self.base_url@,
            workspace: self.workspace@,
        }
    }
}

/// A running backend server: its descriptor and the handle `child` that
/// owns the process.
pub struct ServerRuntime<C> {
    pub child: C,
    pub port: u16,
    pub token: String,
    pub base_url: String,
    pub workspace: String,
}

impl<C> ServerRuntime<C> {
    /// The descriptor of this runtime.
    pub open spec fn descriptor(self) -> Descriptor {
        Descriptor {
            port: self.port,
            token: self.token@,
            base_url: self.base_url@,
            workspace: self.workspace@,
        }
    }

    /// Joins a process handle and the descriptor of its server.
    pub fn new(child: C, info: ServerInfo) -> (runtime: ServerRuntime<C>)
        ensures
            runtime.child == child,
            runtime.descriptor() == info@,
    {
        ServerRuntime {
            child,
            port: info.port,
            token: info.token,
            base_url: info.base_url,
            workspace: info.workspace,
        }
    }

    /// Copies the descriptor out of this runtime.
    pub fn info(&self) -> (info: ServerInfo)
        ensures
            info@ == self.descriptor(),
    {
        ServerInfo {
            port: self.port,
            token: self.token.clone(),
            base_url: self.base_url.clone(),
            workspace: self.workspace.clone(),
        }
    }
}

/// The registry. It holds at most one runtime; whoever calls it serialises
/// the calls.
pub struct ServerState<C> {
    runtime: Option<ServerRuntime<C>>,
}

impl<C> View for ServerState<C> {
    type V = Option<ServerRuntime<C>>;

    closed spec fn view(&self) -> Option<ServerRuntime<C>> {
        self.runtime
    }
}

/// The descriptor that a slot shows.
pub open spec fn shown<C>(slot: Option<ServerRuntime<C>>) -> Option<Descriptor> {
    match slot {
        Some(runtime) => Some(runtime.descriptor()),
        None => None,
    }
}

/// The process handle that a slot holds.
pub open spec fn held<C>(slot: Option<ServerRuntime<C>>) -> Option<C> {
    match slot {
        Some(runtime) => Some(runtime.child),
        None => None,
    }
}

/// An optional descriptor by the characters of its texts.
pub open spec fn info_view(info: Option<ServerInfo>) -> Option<Descriptor> {
    match info {
        Some(i) => Some(i@),
        None => None,
    }
}

/// How a `set_runtime` ended. Where it is `Terminate` it holds both the
/// process to be ended and the runtime still to be set, so it is not to be
/// dropped unread.
#[must_use]
pub enum SetStep<C> {
    /// The slot was empty and now holds the runtime.
    Stored,
    /// The slot held a runtime, which has left it. `previous` is its process,
    /// to be terminated; `incoming` is the runtime that was to be set.
    Terminate { previous: C, incoming: ServerRuntime<C> },
}

/// The slot after `set_runtime`, and how the call ended.
pub open spec fn set_step<C>(slot: Option<ServerRuntime<C>>, incoming: ServerRuntime<C>) -> (
    Option<ServerRuntime<C>>,
    SetStep<C>,
) {
    match slot {
        Some(previous) => (None, SetStep::Terminate { previous: previous.child, incoming }),
        None => (Some(incoming), SetStep::Stored),
    }
}

impl<C> ServerState<C> {
    /// An empty registry.
    pub fn new() -> (state: ServerState<C>)
        ensures
            state@ is None,
    {
        ServerState { runtime: None }
    }

    /// The descriptor of the current runtime, without its process handle.
    pub fn server_info(&self) -> (info: Option<ServerInfo>)
        ensures
            info_view(info) == shown(self@),
    {
        match &self.runtime {
            Some(runtime) => Some(runtime.info()),
            None => None,
        }
    }

    /// Puts `runtime` into the slot if the slot is empty. If a runtime is
    /// there, that one leaves the registry instead: its process is handed out
    /// to be terminated, `runtime` comes back unstored, and the caller sets it
    /// again once the signal is sent. So nobody sees the new runtime before
    /// the previous process was told to end.
    pub fn set_runtime(&mut self, runtime: ServerRuntime<C>) -> (step: SetStep<C>)
        ensures
            (final(self)@, step) == set_step(old(self)@, runtime),
    {
        match self.runtime.take() {
            Some(previous) => SetStep::Terminate { previous: previous.child, incoming: runtime },
            None => {
                self.runtime = Some(runtime);
                SetStep::Stored
            },
        }
    }

    /// Removes the current runtime and hands its ownership to the caller.
    pub fn take_runtime(&mut self) -> (taken: Option<ServerRuntime<C>>)
        ensures
            final(self)@ is None,
            taken == old(self)@,
    {
        self.runtime.take()
    }

    /// Empties the slot and hands out the process that is to be terminated,
    /// if there was one.
    pub fn kill_current(&mut self) -> (doomed: Option<C>)
        ensures
            final(self)@ is None,
            doomed == held(old(self)@),
    {
        match self.take_runtime() {
            Some(runtime) => Some(runtime.child),
            None => None,
        }
    }
}

impl<C> Default for ServerState<C> {
    /// An empty registry.
    fn default() -> (state: ServerState<C>)
        ensures
            state@ is None,
    {
        ServerState::new()
    }
}

/// What `kill_current` reports once the process handed out was told to end.
pub open spec fn kill_outcome(signal: Result<(), String>) -> Result<(), Seq<char>> {
    match signal {
        Ok(()) => Ok(()),
        Err(e) => Err("failed to kill sidecar process: "@ + e@),
    }
}

/// Turns the outcome of terminating a process into the result of the kill.
pub fn kill_report(signal: Result<(), String>) -> (r: Result<(), String>)
    ensures
        r matches Ok(_) ==> kill_outcome(signal) == Ok::<(), Seq<char>>(()),
        r matches Err(e) ==> kill_outcome(signal) == Err::<(), Seq<char>>(e@),
{
    match signal {
        Ok(()) => Ok(()),
        Err(e) => Err(join("failed to kill sidecar process: ", e.as_str())),
    }
}

/// A runtime becomes visible only through a `set_runtime` that found the
/// slot empty: where one was present, the call makes nothing visible and
/// hands out the process of exactly that one for termination.
pub proof fn lemma_nothing_visible_before_termination<C>(
    slot: Option<ServerRuntime<C>>,
    incoming: ServerRuntime<C>,
)
    ensures
        slot is Some ==> {
            &&& set_step(slot, incoming).0 is None
            &&& set_step(slot, incoming).1 == (SetStep::Terminate {
                previous: slot->0.child,
                incoming,
            })
        },
        shown(set_step(slot, incoming).0) == Some(incoming.descriptor()) ==> slot is None,
        set_step(slot, incoming).1 is Stored <==> slot is None,
{
}

/// Setting again after the previous process was handed out stores the
/// runtime: a replacement takes two calls, with the termination in between.
pub proof fn lemma_replacement_settles<C>(slot: Option<ServerRuntime<C>>, incoming: ServerRuntime<C>)
    requires
        slot is Some,
    ensures
        set_step(set_step(slot, incoming).0, incoming) == (Some(incoming), SetStep::<C>::Stored),
{
}

} // verus!
