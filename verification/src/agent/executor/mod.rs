//! Turning actions into device commands and running them with retry.

pub mod device_errors;
pub mod device_wrapper;
pub mod handler;
pub mod retry;
