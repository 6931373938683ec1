//! The HTTP control surface: what it answers.

pub mod api;
