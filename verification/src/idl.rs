//! The wire schema shared with plugins.

pub mod pbbot;
