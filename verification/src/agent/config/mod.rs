//! The configuration of an agent and its model.

pub mod agent_config;

pub use agent_config::{ConfigError, FullAgentConfig};
