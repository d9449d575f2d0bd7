//! The error taxonomy of the installation core.

use vstd::prelude::*;
use vstd::string::StringExecFns;

verus! {

/// How a network transfer failed.
#[derive(Clone, Copy, Debug, PartialEq, Eq, Structural)]
pub enum NetworkErrorKind {
    ConnectionRefused,
    TimedOut,
    Other,
}

/// The kind of a failure.
#[derive(Clone, Copy, Debug, PartialEq, Eq, Structural)]
pub enum ErrorKind {
    Network(NetworkErrorKind),
    Io,
    InvalidArchive,
    HashMismatch,
    SectionMissing,
    ContainerRuntime,
    Database,
    DependencyMissing,
    NotFound,
    ParseUrl,
    Filesystem,
    Unknown,
}

/// A failure: its kind and a message for people. For `ContainerRuntime` the
/// message is what the image loader wrote to its error stream.
#[derive(Debug)]
pub struct Error {
    pub kind: ErrorKind,
    pub message: String,
}

/// The mathematical value of an [`Error`].
pub struct ErrorView {
    pub kind: ErrorKind,
    pub message: Seq<char>,
}

impl View for Error {
    type V = ErrorView;

    open spec fn view(&self) -> ErrorView {
        ErrorView { kind: self.kind, message: self.message@ }
    }
}

impl Clone for Error {
    fn clone(&self) -> (copy: Self)
        ensures
            copy@ == self@,
    {
        Error { kind: self.kind, message: self.message.clone() }
    }
}

/// The kind of a transport failure: a refused connection comes first, then a
/// timeout, and everything else is `Other`.
pub open spec fn network_kind_of(is_connect: bool, is_timeout: bool) -> NetworkErrorKind {
    if is_connect {
        NetworkErrorKind::ConnectionRefused
    } else if is_timeout {
        NetworkErrorKind::TimedOut
    } else {
        NetworkErrorKind::Other
    }
}

/// Classifies a transport failure from the two facts the transport reports.
pub fn network_error_kind(is_connect: bool, is_timeout: bool) -> (kind: NetworkErrorKind)
    ensures
        kind == network_kind_of(is_connect, is_timeout),
{
    if is_connect {
        NetworkErrorKind::ConnectionRefused
    } else if is_timeout {
        NetworkErrorKind::TimedOut
    } else {
        NetworkErrorKind::Other
    }
}

/// The tag under which a kind is shown.
pub open spec fn tag_of(kind: ErrorKind) -> Seq<char> {
    match kind {
        ErrorKind::Network(NetworkErrorKind::ConnectionRefused) => "Network(ConnectionRefused)"@,
        ErrorKind::Network(NetworkErrorKind::TimedOut) => "Network(TimedOut)"@,
        ErrorKind::Network(NetworkErrorKind::Other) => "Network(Other)"@,
        ErrorKind::Io => "Io"@,
        ErrorKind::InvalidArchive => "InvalidArchive"@,
        ErrorKind::HashMismatch => "HashMismatch"@,
        ErrorKind::SectionMissing => "SectionMissing"@,
        ErrorKind::ContainerRuntime => "ContainerRuntime"@,
        ErrorKind::Database => "Database"@,
        ErrorKind::DependencyMissing => "DependencyMissing"@,
        ErrorKind::NotFound => "NotFound"@,
        ErrorKind::ParseUrl => "ParseUrl"@,
        ErrorKind::Filesystem => "Filesystem"@,
        ErrorKind::Unknown => "Unknown"@,
    }
}

impl ErrorKind {
    /// The tag under which this kind is shown.
    pub fn tag(self) -> (tag: &'static str)
        ensures
            tag@ == tag_of(self),
    {
        match self {
            ErrorKind::Network(NetworkErrorKind::ConnectionRefused) => "Network(ConnectionRefused)",
            ErrorKind::Network(NetworkErrorKind::TimedOut) => "Network(TimedOut)",
            ErrorKind::Network(NetworkErrorKind::Other) => "Network(Other)",
            ErrorKind::Io => "Io",
            ErrorKind::InvalidArchive => "InvalidArchive",
            ErrorKind::HashMismatch => "HashMismatch",
            ErrorKind::SectionMissing => "SectionMissing",
            ErrorKind::ContainerRuntime => "ContainerRuntime",
            ErrorKind::Database => "Database",
            ErrorKind::DependencyMissing => "DependencyMissing",
            ErrorKind::NotFound => "NotFound",
            ErrorKind::ParseUrl => "ParseUrl",
            ErrorKind::Filesystem => "Filesystem",
            ErrorKind::Unknown => "Unknown",
        }
    }
}

/// How an error is shown at a process boundary: the tag of its kind, a colon
/// and a space, then its message.
pub open spec fn rendered(e: ErrorView) -> Seq<char> {
    tag_of(e.kind) + ": "@ + e.message
}

impl Error {
    /// An error of the given kind with the given message.
    pub fn new(kind: ErrorKind, message: &str) -> (e: Error)
        ensures
            e@ == (ErrorView { kind, message: message@ }),
    {
        Error { kind, message: String::from_str(message) }
    }

    /// The text shown for this error at a process boundary.
    pub fn render(&self) -> (text: String)
        ensures
            text@ == rendered(self@),
    {
        let mut text = String::from_str(self.kind.tag());
        text.append(": ");
        text.append(self.message.as_str());
        text
    }
}

} // verus!
