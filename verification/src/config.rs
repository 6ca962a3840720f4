//! The profile record and its starter file.

pub mod profile;
pub mod toml_io;
