//! The common error type.

use vstd::prelude::*;

verus! {

/// Common error type for the service project.
#[derive(Debug)]
pub enum Error {
    Configuration(String),
    Unsupported(String),
    Transport(String),
    Feature(String),
    Other(String),
}

impl Error {
    /// The text that describes this error: the message that it carries.
    pub open spec fn message_text(&self) -> Seq<char> {
        match self {
            Error::Configuration(msg) => msg@,
            Error::Unsupported(msg) => msg@,
            Error::Transport(msg) => msg@,
            Error::Feature(msg) => msg@,
            Error::Other(msg) => msg@,
        }
    }

    /// Renders the error as text.
    pub fn message(&self) -> (text: String)
        ensures
            text@ == self.message_text(),
    {
        match self {
            Error::Configuration(msg) => msg.clone(),
            Error::Unsupported(msg) => msg.clone(),
            Error::Transport(msg) => msg.clone(),
            Error::Feature(msg) => msg.clone(),
            Error::Other(msg) => msg.clone(),
        }
    }
}

impl Clone for Error {
    fn clone(&self) -> (err: Self)
        ensures
            err == *self,
    {
        match self {
            Error::Configuration(msg) => Error::Configuration(msg.clone()),
            Error::Unsupported(msg) => Error::Unsupported(msg.clone()),
            Error::Transport(msg) => Error::Transport(msg.clone()),
            Error::Feature(msg) => Error::Feature(msg.clone()),
            Error::Other(msg) => Error::Other(msg.clone()),
        }
    }
}

} // verus!
