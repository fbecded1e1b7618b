//! The ways in which an operation on the library fails.

use vstd::prelude::*;
use vstd::string::StringExecFns;

verus! {

/// A failure, as contracts speak of it.
pub enum Failure {
    Network(Seq<char>),
    Resolution(Seq<char>),
    Io(Seq<char>),
    Format(Seq<char>),
    NotFound(Seq<char>),
    Index,
    Protocol,
}

/// Why an operation stopped. The first failure of any step ends the operation.
#[derive(Debug, PartialEq, Eq)]
pub enum Error {
    /// A network call failed; the text is the transport's own.
    Network(String),
    /// The URL names no video, or its metadata cannot be read.
    Resolution(String),
    /// A file could not be read, written or removed.
    Io(String),
    /// The catalog document is not a list of tracks.
    Format(String),
    /// The catalog holds no track with this id.
    NotFound(String),
    /// The video has no thumbnail to take.
    Index,
    /// An answer arrived that does not fit the question that was asked.
    Protocol,
}

impl View for Error {
    type V = Failure;

    open spec fn view(&self) -> Failure {
        match self {
            Error::Network(text) => Failure::Network(text@),
            Error::Resolution(text) => Failure::Resolution(text@),
            Error::Io(text) => Failure::Io(text@),
            Error::Format(text) => Failure::Format(text@),
            Error::NotFound(id) => Failure::NotFound(id@),
            Error::Index => Failure::Index,
            Error::Protocol => Failure::Protocol,
        }
    }
}

/// The failure of a duration that is no decimal number of seconds.
pub open spec fn bad_duration(text: Seq<char>) -> Failure {
    Failure::Resolution("the length of the video is not a number of seconds: "@ + text)
}

/// The text that describes a failure to a person.
pub open spec fn message_of(failure: Failure) -> Seq<char> {
    match failure {
        Failure::Network(text) => text,
        Failure::Resolution(text) => text,
        Failure::Io(text) => text,
        Failure::Format(text) => text,
        Failure::NotFound(id) => "no song with id "@ + id,
        Failure::Index => "the video has no thumbnail"@,
        Failure::Protocol => "the answer does not fit the question"@,
    }
}

impl Error {
    /// The text that describes this failure to a person.
    pub fn message(&self) -> (text: String)
        ensures
            text@ == message_of(self@),
    {
        match self {
            Error::Network(text) => text.clone(),
            Error::Resolution(text) => text.clone(),
            Error::Io(text) => text.clone(),
            Error::Format(text) => text.clone(),
            Error::NotFound(id) => String::from_str("no song with id ").concat(id.as_str()),
            Error::Index => String::from_str("the video has no thumbnail"),
            Error::Protocol => String::from_str("the answer does not fit the question"),
        }
    }

    /// The failure of a duration that is no decimal number of seconds.
    pub fn bad_duration(text: &str) -> (error: Error)
        ensures
            error@ == bad_duration(text@),
    {
        Error::Resolution(
            String::from_str("the length of the video is not a number of seconds: ").concat(text),
        )
    }
}

} // verus!
