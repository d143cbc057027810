//! Client-side protocol engine for a turn-based bot arena: the wire message
//! model, the connection's phase machine and the per-frame cycle.

pub mod bot;
pub mod connection;
pub mod json;
pub mod names;
pub mod show;
pub mod wire;
