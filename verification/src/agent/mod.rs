//! The phone-automation agent: actions, model client logic, executor,
//! agent loop and device pool.

pub mod actions;
pub mod api;
pub mod config;
pub mod context;
pub mod engine;
pub mod executor;
pub mod llm;
pub mod logger;
pub mod pool;
pub mod socket_server;
