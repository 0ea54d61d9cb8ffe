//! The error value that every fallible operation of the library returns.
use vstd::prelude::*;

verus! {

/// What went wrong.
#[derive(Clone, Copy, Debug, PartialEq, Eq, Structural)]
pub enum ErrorKind {
    /// The engine could not be allocated.
    OutOfMemory,
    /// A dump file is too short or does not carry the signature.
    MalformedDump,
    /// A snapshot ends before the data that it should hold.
    TruncatedSnapshot,
    /// A snapshot does not start with the tag of this format.
    UnknownSnapshotVersion,
    /// A stereo buffer has an odd length, or one too large to hand to the engine.
    InvalidBufferSize,
    /// The engine reported a failure of its own, in its own words.
    Engine,
}

/// The text that describes an error of the given kind when none comes from the engine.
pub open spec fn kind_message(kind: ErrorKind) -> Seq<char> {
    match kind {
        ErrorKind::OutOfMemory => "Out of memory"@,
        ErrorKind::MalformedDump => "Malformed dump file"@,
        ErrorKind::TruncatedSnapshot => "Truncated snapshot"@,
        ErrorKind::UnknownSnapshotVersion => "Unknown snapshot version"@,
        ErrorKind::InvalidBufferSize => "Invalid buffer size"@,
        ErrorKind::Engine => "Engine failure"@,
    }
}

/// An error: its kind and a message for people.
#[derive(Debug)]
pub struct Error {
    kind: ErrorKind,
    message: String,
}

impl Error {
    /// The kind of this error.
    pub closed spec fn spec_kind(&self) -> ErrorKind {
        self.kind
    }

    /// The message of this error, as a sequence of characters.
    pub closed spec fn spec_message(&self) -> Seq<char> {
        self.message@
    }

    /// An error reported by the engine, with the engine's message.
    pub fn new(message: String) -> (e: Error)
        ensures
            e.spec_kind() == ErrorKind::Engine,
            e.spec_message() == message@,
    {
        Error { kind: ErrorKind::Engine, message }
    }

    /// An error of the given kind with the given message.
    pub fn from_parts(kind: ErrorKind, message: String) -> (e: Error)
        ensures
            e.spec_kind() == kind,
            e.spec_message() == message@,
    {
        Error { kind, message }
    }

    /// An error of the given kind, with that kind's standard message.
    pub fn from_kind(kind: ErrorKind) -> (e: Error)
        ensures
            e.spec_kind() == kind,
            e.spec_message() == kind_message(kind),
    {
        let text: &str = match kind {
            ErrorKind::OutOfMemory => "Out of memory",
            ErrorKind::MalformedDump => "Malformed dump file",
            ErrorKind::TruncatedSnapshot => "Truncated snapshot",
            ErrorKind::UnknownSnapshotVersion => "Unknown snapshot version",
            ErrorKind::InvalidBufferSize => "Invalid buffer size",
            ErrorKind::Engine => "Engine failure",
        };
        Error { kind, message: text.to_owned() }
    }

    /// The kind of this error.
    #[verifier::when_used_as_spec(spec_kind)]
    pub fn kind(&self) -> (k: ErrorKind)
        ensures
            k == self.spec_kind(),
    {
        self.kind
    }

    /// The message of this error.
    pub fn description(&self) -> (text: &str)
        ensures
            text@ == self.spec_message(),
    {
        self.message.as_str()
    }

    /// The message of this error, as an owned string.
    pub fn to_string(&self) -> (text: String)
        ensures
            text@ == self.spec_message(),
    {
        self.message.clone()
    }
}

/// Turns what the engine reported after a call into a result: no message
/// means success, a message becomes an `Engine` error that carries it.
pub fn wrap_error(message: Option<String>) -> (r: Result<(), Error>)
    ensures
        message is None <==> r is Ok,
        message matches Some(text) ==> (r matches Err(e) && e.spec_kind() == ErrorKind::Engine
            && e.spec_message() == text@),
{
    match message {
        None => Ok(()),
        Some(text) => Err(Error::new(text)),
    }
}

} // verus!
