//! Device verification: one state machine per handshake, a registry of the
//! live handshakes, and the bridge that lets an operator confirm a code.

pub mod bridge;
pub mod event;
pub mod laws;
pub mod orchestrator;
pub mod registry;
pub mod report;
pub mod state;
