//! Remote mirroring and agent-driven control of Android devices: the
//! verified core of the action model, the response parser, the agent loop,
//! the streaming session and the device pool.

pub mod agent;
pub mod api;
pub mod context;
pub mod error;
pub mod logger;
pub mod outside;
pub mod scrcpy;
pub mod text;
