//! The markdown renderer: sections, templates and the whole document.

pub mod markdown;
pub mod sections;
pub mod templates;
