//! The closed set of ways a call to the tool can fail.

use vstd::prelude::*;

use crate::command::{Invocation, InvocationView};

verus! {

/// Every failure that a command of this library can report.
#[derive(Debug, Clone)]
pub enum Error {
    /// The operating system could not start or wait for the tool, for a reason other than
    /// the tool being missing; holds the kind of the failure and the system's description.
    IoError(IoKind, String),
    /// The tool's standard output or standard error was not valid UTF-8.
    BadEncoding,
    /// The tool exited unsuccessfully and no recognized message explains why.
    FailedCommand(Invocation),
    /// The tool is not installed on the executable search path.
    AsdfNotFound,
    /// The tool printed its usage banner: the arguments were rejected.
    MalformedOptions(Invocation),
    /// The tool succeeded, but its output is not in the expected format.
    MalformedOutput(Invocation),
    /// The tool needed the network and could not reach it.
    NoInternet,
    /// The named plugin is not installed or not in the plugin repository.
    PluginNotFound,
    /// The plugin to add is already present.
    PluginAlreadyAdded,
}

/// Mathematical model of an [`Error`].
pub enum ErrorView {
    IoError(IoKind, Seq<char>),
    BadEncoding,
    FailedCommand(InvocationView),
    AsdfNotFound,
    MalformedOptions(InvocationView),
    MalformedOutput(InvocationView),
    NoInternet,
    PluginNotFound,
    PluginAlreadyAdded,
}

impl View for Error {
    type V = ErrorView;

    open spec fn view(&self) -> ErrorView {
        match self {
            Error::IoError(k, m) => ErrorView::IoError(*k, m@),
            Error::BadEncoding => ErrorView::BadEncoding,
            Error::FailedCommand(c) => ErrorView::FailedCommand(c@),
            Error::AsdfNotFound => ErrorView::AsdfNotFound,
            Error::MalformedOptions(c) => ErrorView::MalformedOptions(c@),
            Error::MalformedOutput(c) => ErrorView::MalformedOutput(c@),
            Error::NoInternet => ErrorView::NoInternet,
            Error::PluginNotFound => ErrorView::PluginNotFound,
            Error::PluginAlreadyAdded => ErrorView::PluginAlreadyAdded,
        }
    }
}

/// The result of a command of this library.
pub type Result<T> = std::result::Result<T, Error>;

/// The kind of an operating-system failure, as `std::io::ErrorKind` names it.
#[derive(Debug, Clone, PartialEq, Eq)]
pub enum IoKind {
    NotFound,
    PermissionDenied,
    ConnectionRefused,
    ConnectionReset,
    ConnectionAborted,
    NotConnected,
    AddrInUse,
    AddrNotAvailable,
    BrokenPipe,
    AlreadyExists,
    WouldBlock,
    InvalidInput,
    InvalidData,
    TimedOut,
    WriteZero,
    Interrupted,
    Unsupported,
    UnexpectedEof,
    OutOfMemory,
    Other,
    /// A kind not listed above, by its name.
    Unlisted(String),
}

/// Why the tool could not be run at all: the operating system's failure, as plain data.
#[derive(Debug, Clone)]
pub struct SpawnError {
    pub kind: IoKind,
    pub message: String,
}

/// The error that a spawn failure is reported as: a missing executable is always
/// [`ErrorView::AsdfNotFound`], never a generic I/O failure; any other failure keeps its kind
/// and description.
pub open spec fn spawn_error(e: SpawnError) -> ErrorView {
    match e.kind {
        IoKind::NotFound => ErrorView::AsdfNotFound,
        _ => ErrorView::IoError(e.kind, e.message@),
    }
}

impl From<SpawnError> for Error {
    fn from(other: SpawnError) -> (r: Error)
        ensures
            r@ == spawn_error(other),
    {
        match other.kind {
            IoKind::NotFound => Error::AsdfNotFound,
            _ => Error::IoError(other.kind, other.message),
        }
    }
}

impl vstd::std_specs::convert::FromSpecImpl<SpawnError> for Error {
    open spec fn obeys_from_spec() -> bool {
        true
    }

    open spec fn from_spec(v: SpawnError) -> Error {
        match v.kind {
            IoKind::NotFound => Error::AsdfNotFound,
            _ => Error::IoError(v.kind, v.message),
        }
    }
}

} // verus!
