//! How the router was invoked, which decides how its results are observed.
//!
//! A process serves one context for its whole lifetime. A flag in the
//! environment selects it at startup: with the flag set to `on` the process
//! is a one-shot job, without the flag it is a service.

use vstd::prelude::*;
use crate::text::same_text;

verus! {

/// The way an event reached the router.
#[derive(Clone, Copy, Debug, PartialEq, Eq, Structural)]
pub enum InvocationContext {
    /// The event came in a request that expects a reply at once. The
    /// resulting event is the reply.
    Service,
    /// The event came from a trigger with no reply path, and the process may
    /// be terminated as soon as it is done. What is not waited for is lost.
    Job,
}

/// What reading the job flag from the environment gave.
#[derive(Debug, PartialEq, Eq)]
pub enum FlagReading {
    /// The flag is not set.
    Absent,
    /// The flag is set to this value.
    Present(String),
    /// The flag is set, but its value could not be read as text.
    Unreadable,
}

/// A startup configuration that the router cannot run with.
#[derive(Debug, PartialEq, Eq)]
pub enum ConfigError {
    /// The job flag is set to something other than the one accepted value.
    UnexpectedFlag(String),
    /// The job flag could not be read.
    UnreadableFlag,
}

impl ConfigError {
    /// The diagnostic for this error, as characters. For a flag with an
    /// unexpected value it ends with that value.
    pub open spec fn message_text(self) -> Seq<char> {
        match self {
            ConfigError::UnexpectedFlag(value) => "cloudevent: error: unexpected job flag: "@
                + value@,
            ConfigError::UnreadableFlag => "cloudevent: error: unreadable job flag"@,
        }
    }

    /// The diagnostic for this error.
    pub fn message(&self) -> (text: String)
        ensures
            text@ == self.message_text(),
    {
        match self {
            ConfigError::UnexpectedFlag(value) => {
                let mut text = String::from_str("cloudevent: error: unexpected job flag: ");
                text.append(value.as_str());
                text
            },
            ConfigError::UnreadableFlag => String::from_str(
                "cloudevent: error: unreadable job flag",
            ),
        }
    }
}

/// The one value of the job flag that selects the job context.
pub open spec fn job_flag_value() -> Seq<char> {
    "on"@
}

/// Whether `selected` is the context that the flag reading `flag` selects,
/// or the error that it amounts to.
pub open spec fn selects(flag: FlagReading, selected: Result<InvocationContext, ConfigError>)
    -> bool {
    match flag {
        FlagReading::Absent => selected == Ok::<InvocationContext, ConfigError>(
            InvocationContext::Service,
        ),
        FlagReading::Present(value) => if value@ == job_flag_value() {
            selected == Ok::<InvocationContext, ConfigError>(InvocationContext::Job)
        } else {
            selected matches Err(ConfigError::UnexpectedFlag(offending)) && offending@ == value@
        },
        FlagReading::Unreadable => selected == Err::<InvocationContext, ConfigError>(
            ConfigError::UnreadableFlag,
        ),
    }
}

/// Selects the invocation context from a reading of the job flag.
pub fn select_context(flag: &FlagReading) -> (selected: Result<InvocationContext, ConfigError>)
    ensures
        selects(*flag, selected),
{
    match flag {
        FlagReading::Absent => Ok(InvocationContext::Service),
        FlagReading::Present(value) => {
            if same_text(value.as_str(), "on") {
                Ok(InvocationContext::Job)
            } else {
                Err(ConfigError::UnexpectedFlag(value.clone()))
            }
        },
        FlagReading::Unreadable => Err(ConfigError::UnreadableFlag),
    }
}

} // verus!
