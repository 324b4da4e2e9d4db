//! Decision logic for supervising a single backend server process.

pub mod events;
pub mod lifecycle;
pub mod server;
pub mod sidecar;
pub mod startup;
pub mod state;
pub mod text;
pub mod workspace;
