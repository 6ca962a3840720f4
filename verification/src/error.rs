//! What can go wrong between a profile file and its README.

use vstd::prelude::*;
use vstd::string::*;

verus! {

/// An error on the way from a profile file to a README. The variants that
/// come from reading, parsing or writing carry the message of their cause.
#[derive(Debug, Clone, PartialEq, Eq)]
pub enum ConfigError {
    MissingUsername,
    UnknownTemplate(String),
    ParseError(String),
    SerializeError(String),
    Io(String),
}

impl ConfigError {
    /// The message of the error, as text.
    pub open spec fn message_text(self) -> Seq<char> {
        match self {
            ConfigError::MissingUsername => "missing required field: meta.username"@,
            ConfigError::UnknownTemplate(name) => "unknown template: "@ + name@,
            ConfigError::ParseError(cause) => "failed to parse config: "@ + cause@,
            ConfigError::SerializeError(cause) => "failed to serialize config: "@ + cause@,
            ConfigError::Io(cause) => "I/O error: "@ + cause@,
        }
    }

    /// The message of the error.
    pub fn message(&self) -> (res: String)
        ensures
            res@ == self.message_text(),
    {
        match self {
            ConfigError::MissingUsername => String::from_str(
                "missing required field: meta.username",
            ),
            ConfigError::UnknownTemplate(name) => {
                let mut out = String::from_str("unknown template: ");
                out.append(name.as_str());
                out
            },
            ConfigError::ParseError(cause) => {
                let mut out = String::from_str("failed to parse config: ");
                out.append(cause.as_str());
                out
            },
            ConfigError::SerializeError(cause) => {
                let mut out = String::from_str("failed to serialize config: ");
                out.append(cause.as_str());
                out
            },
            ConfigError::Io(cause) => {
                let mut out = String::from_str("I/O error: ");
                out.append(cause.as_str());
                out
            },
        }
    }
}

} // verus!
