//! The interactive side: key vocabulary, form widgets, the step sequence and
//! the wizard state that binds them.

pub mod app;
pub mod keys;
pub mod theme;
pub mod widgets;
pub mod wizard;
