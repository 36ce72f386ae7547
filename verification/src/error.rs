//! Errors of the wRPC transport.

use vstd::prelude::*;

verus! {

/// Error type for wRPC transport operations
#[derive(Debug)]
pub enum Error {
    /// Serialization/deserialization error
    Serialization(String),
    /// Transport error (HTTP/fetch)
    Transport(String),
    /// Protocol error
    Protocol(String),
    /// Function not found
    NotFound { instance: String, function: String },
    /// Worker error, carried as the text that the Workers runtime gave it
    Worker(String),
}

/// What an error is: its kind and its texts.
pub enum ErrorModel {
    Serialization(Seq<char>),
    Transport(Seq<char>),
    Protocol(Seq<char>),
    NotFound { instance: Seq<char>, function: Seq<char> },
    Worker(Seq<char>),
}

impl View for Error {
    type V = ErrorModel;

    open spec fn view(&self) -> ErrorModel {
        match self {
            Error::Serialization(m) => ErrorModel::Serialization(m@),
            Error::Transport(m) => ErrorModel::Transport(m@),
            Error::Protocol(m) => ErrorModel::Protocol(m@),
            Error::NotFound { instance, function } => ErrorModel::NotFound {
                instance: instance@,
                function: function@,
            },
            Error::Worker(m) => ErrorModel::Worker(m@),
        }
    }
}

/// The text of an error, as `Display` writes it.
pub open spec fn error_text(e: ErrorModel) -> Seq<char> {
    match e {
        ErrorModel::Serialization(m) => "serialization error: "@ + m,
        ErrorModel::Transport(m) => "transport error: "@ + m,
        ErrorModel::Protocol(m) => "protocol error: "@ + m,
        ErrorModel::NotFound { instance, function } => "function not found: "@ + instance + "/"@
            + function,
        ErrorModel::Worker(m) => "worker error: "@ + m,
    }
}

impl Error {
    /// The text of the error (what its `Display` writes).
    pub fn to_string(&self) -> (s: String)
        ensures
            s@ == error_text(self@),
    {
        match self {
            Error::Serialization(msg) => String::from_str("serialization error: ").concat(
                msg.as_str(),
            ),
            Error::Transport(msg) => String::from_str("transport error: ").concat(msg.as_str()),
            Error::Protocol(msg) => String::from_str("protocol error: ").concat(msg.as_str()),
            Error::NotFound { instance, function } => {
                let mut s = String::from_str("function not found: ");
                s.append(instance.as_str());
                s.append("/");
                s.append(function.as_str());
                s
            },
            Error::Worker(msg) => String::from_str("worker error: ").concat(msg.as_str()),
        }
    }
}

} // verus!
