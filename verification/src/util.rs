//! Helpers that the rest of the library shares.

pub mod text;
pub mod uri_reader;
