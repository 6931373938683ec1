//! The per-device streaming session.

pub mod scrcpy;
