//! The registry of streaming endpoints.

pub mod context;

pub use context::ScrcpyServer;
