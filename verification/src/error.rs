//! What can go wrong between reading an input source and handing a record to
//! the template generator, and how it is told to the caller.

use vstd::prelude::*;
use crate::field::{kind_of, name_of, Field, Kind};
use crate::text::joined;

verus! {

/// Why a value was turned down.
#[derive(Clone, Copy, Debug, PartialEq, Eq, Structural)]
pub enum Reason {
    /// The text has no characters.
    Empty,
    /// The value is not of the kind that the entry takes.
    WrongKind,
    /// An e-mail address without `@`.
    MissingAt,
    /// An e-mail address with nothing before its first `@`.
    EmptyLocalPart,
    /// An e-mail address with nothing after its first `@`.
    EmptyDomain,
}

/// A value that its validator turned down.
#[derive(Clone, Copy, Debug, PartialEq, Eq, Structural)]
pub struct ValidationError {
    pub field: Field,
    pub reason: Reason,
}

/// The failures of one invocation.
#[derive(Clone, Debug, PartialEq, Eq)]
pub enum ConfigError {
    /// The source holds no project name.
    MissingRequiredField,
    /// A value failed its validator.
    Validation(ValidationError),
    /// The template generator failed; `cause` is its own message.
    GenerationFailed { cause: String },
}

/// The mathematical content of a `ConfigError`.
pub enum Failure {
    MissingRequiredField,
    Validation(ValidationError),
    GenerationFailed { cause: Seq<char> },
}

impl View for ConfigError {
    type V = Failure;

    open spec fn view(&self) -> Failure {
        match self {
            ConfigError::MissingRequiredField => Failure::MissingRequiredField,
            ConfigError::Validation(e) => Failure::Validation(*e),
            ConfigError::GenerationFailed { cause } => Failure::GenerationFailed { cause: cause@ },
        }
    }
}

/// The entry surface that reports a failure.
#[derive(Clone, Copy, Debug, PartialEq, Eq, Structural)]
pub enum Surface {
    CommandLine,
    HostCall,
}

/// What a reason says of a value of the given entry.
pub open spec fn reason_text(field: Field, reason: Reason) -> Seq<char> {
    match reason {
        Reason::Empty => "must not be empty"@,
        Reason::WrongKind => match kind_of(field) {
            Kind::Text => "must be a string"@,
            Kind::Flag => "must be a boolean"@,
        },
        Reason::MissingAt => "must contain '@'"@,
        Reason::EmptyLocalPart => "must have a name before '@'"@,
        Reason::EmptyDomain => "must have a domain after '@'"@,
    }
}

/// The message of a validation error: the entry's key and the reason.
pub open spec fn validation_text(e: ValidationError) -> Seq<char> {
    "invalid "@ + name_of(e.field) + ": "@ + reason_text(e.field, e.reason)
}

/// The message with which a surface reports a failure.
pub open spec fn message_text(failure: Failure, surface: Surface) -> Seq<char> {
    match failure {
        Failure::MissingRequiredField => match surface {
            Surface::CommandLine =>
                "In --yes mode, project name is required. e.g., `gwa create my-app -y`"@,
            Surface::HostCall => "project_name is required"@,
        },
        Failure::Validation(e) => validation_text(e),
        Failure::GenerationFailed { cause } => match surface {
            Surface::CommandLine => "Error generating project: "@ + cause,
            Surface::HostCall => "Failed to generate project: "@ + cause,
        },
    }
}

/// The exit status of the command line: zero on success, one on any failure.
pub open spec fn status_of(failed: bool) -> u8 {
    if failed {
        1
    } else {
        0
    }
}

impl ValidationError {
    /// The human-readable form of this error.
    pub fn message(&self) -> (r: String)
        ensures
            r@ == validation_text(*self),
    {
        let reason = match self.reason {
            Reason::Empty => "must not be empty",
            Reason::WrongKind => match self.field.kind() {
                Kind::Text => "must be a string",
                Kind::Flag => "must be a boolean",
            },
            Reason::MissingAt => "must contain '@'",
            Reason::EmptyLocalPart => "must have a name before '@'",
            Reason::EmptyDomain => "must have a domain after '@'",
        };
        let head = joined("invalid ", self.field.name());
        let head = joined(head.as_str(), ": ");
        joined(head.as_str(), reason)
    }
}

impl ConfigError {
    /// The human-readable message that the given surface shows for this
    /// failure. A generator failure carries the generator's own words.
    pub fn message(&self, surface: Surface) -> (r: String)
        ensures
            r@ == message_text(self@, surface),
    {
        match self {
            ConfigError::MissingRequiredField => match surface {
                Surface::CommandLine =>
                    "In --yes mode, project name is required. e.g., `gwa create my-app -y`".to_owned(),
                Surface::HostCall => "project_name is required".to_owned(),
            },
            ConfigError::Validation(e) => e.message(),
            ConfigError::GenerationFailed { cause } => match surface {
                Surface::CommandLine => joined("Error generating project: ", cause.as_str()),
                Surface::HostCall => joined("Failed to generate project: ", cause.as_str()),
            },
        }
    }
}

/// The status with which the command line exits after an invocation.
pub fn exit_status<T>(outcome: &Result<T, ConfigError>) -> (r: u8)
    ensures
        r == status_of(outcome is Err),
{
    match outcome {
        Ok(_) => 0,
        Err(_) => 1,
    }
}

} // verus!
