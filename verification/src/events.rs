//! Notifications that the supervisor sends to its host.

use vstd::prelude::*;
use crate::state::{Descriptor, ServerInfo};
use crate::text::join;

verus! {

/// Name of the notification that a server is ready.
pub const EVENT_SERVER_READY: &'static str = "server-ready";

/// Name of the notification that starting a server failed.
pub const EVENT_SERVER_ERROR: &'static str = "server-error";

/// Name of the notification that the user is about to be asked for a
/// workspace.
pub const EVENT_WORKSPACE_PICKING: &'static str = "workspace-picking";

/// A notification to the host. It is sent and not waited for.
#[derive(Clone, Debug, PartialEq, Eq)]
pub enum Notification {
    /// A server is ready; the payload is its descriptor.
    ServerReady(ServerInfo),
    /// Starting a server failed.
    ServerError { message: String },
    /// A workspace has to be picked by the user.
    WorkspacePicking { reason: String },
}

/// A notification by the characters of its texts.
pub enum Notice {
    ServerReady(Descriptor),
    ServerError { message: Seq<char> },
    WorkspacePicking { reason: Seq<char> },
}

impl Notice {
    /// The name under which the host receives this notification.
    pub open spec fn name(self) -> Seq<char> {
        match self {
            Notice::ServerReady(_) => EVENT_SERVER_READY@,
            Notice::ServerError { .. } => EVENT_SERVER_ERROR@,
            Notice::WorkspacePicking { .. } => EVENT_WORKSPACE_PICKING@,
        }
    }

    /// The error text for a notification that could not be sent.
    pub open spec fn undelivered(self, detail: Seq<char>) -> Seq<char> {
        "failed to emit "@ + self.name() + " event: "@ + detail
    }
}

impl View for Notification {
    type V = Notice;

    open spec fn view(&self) -> Notice {
        match *self {
            Notification::ServerReady(info) => Notice::ServerReady(info@),
            Notification::ServerError { message } => Notice::ServerError { message: message@ },
            Notification::WorkspacePicking { reason } => Notice::WorkspacePicking {
                reason: reason@,
            },
        }
    }
}

impl Notification {
    /// The name under which the host receives this notification.
    pub fn event_name(&self) -> (name: &'static str)
        ensures
            name@ == self@.name(),
    {
        match self {
            Notification::ServerReady(_) => EVENT_SERVER_READY,
            Notification::ServerError { .. } => EVENT_SERVER_ERROR,
            Notification::WorkspacePicking { .. } => EVENT_WORKSPACE_PICKING,
        }
    }

    /// The error text for this notification when it could not be sent and
    /// `detail` says why.
    pub fn emit_failure(&self, detail: &str) -> (text: String)
        ensures
            text@ == self@.undelivered(detail@),
    {
        let mut text = join("failed to emit ", self.event_name());
        text.append(" event: ");
        text.append(detail);
        text
    }
}

} // verus!
