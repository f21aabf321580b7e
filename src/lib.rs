//! Client core for a design tool's inter-process control interface: the
//! envelope codec, type-tagged payloads, session-token continuity, the
//! request/response decisions and the footprint decoder.

pub mod any;
pub mod board;
pub mod client;
pub mod commands;
pub mod envelope;
pub mod error;
pub mod footprint;
pub mod message;
pub mod project;
pub mod stats;
pub mod types;
pub mod wire;
