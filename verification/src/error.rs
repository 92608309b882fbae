//! The errors of the streaming core.

use vstd::prelude::*;

verus! {

/// What can go wrong between two connection attempts. Each of these ends the
/// current subscription, if there is one, and is answered with a retry.
#[derive(Debug, PartialEq, Eq)]
pub enum Error {
    /// The remote refused the subscription or returned a failure status. The
    /// text is the status as the transport renders it.
    Grpc(String),
    /// The connection could not be set up, or it broke. The text is the
    /// transport's own description.
    Transport(String),
    /// The subscription closed though nothing was reported as wrong.
    End,
    /// The event sink failed on an event. The text is the sink's description.
    Sink(String),
}

impl Error {
    /// The text of an error: what an outside party reported, word for word,
    /// or a fixed sentence for the end of the stream.
    pub open spec fn text(self) -> Seq<char> {
        match self {
            Error::Grpc(detail) => detail@,
            Error::Transport(detail) => detail@,
            Error::End => "event stream ended"@,
            Error::Sink(detail) => detail@,
        }
    }

    /// The text of this error, for a log record.
    pub fn message(&self) -> (text: String)
        ensures
            text@ == self.text(),
    {
        match self {
            Error::Grpc(detail) => detail.clone(),
            Error::Transport(detail) => detail.clone(),
            Error::End => "event stream ended".to_owned(),
            Error::Sink(detail) => detail.clone(),
        }
    }
}

} // verus!
