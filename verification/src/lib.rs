//! A toolkit for building GitHub profile READMEs: the profile record, the
//! markdown renderer, the badge and card URL builders, and the interactive
//! form widgets and step sequence of the configuration wizard.

pub mod config;
pub mod error;
pub mod render;
pub mod services;
pub mod text;
pub mod ui;
