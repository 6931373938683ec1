//! Core types of the agent and the state machine of its loop.

pub mod agent;
pub mod agent_group;
pub mod state;
pub mod traits;
