//! The requests of the agent namespace.

pub mod socketio;
