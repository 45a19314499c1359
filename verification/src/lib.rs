//! Device control and telemetry core for a small-enclosure environmental
//! controller: command dispatch, telemetry parsing, threshold-driven
//! automation, a session gate, and a persistent-state store codec.

pub mod automation;
pub mod command;
pub mod gate;
pub mod host;
pub mod sensors;
pub mod state;
pub mod store;
pub mod text;
