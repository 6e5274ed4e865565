//! The error type shared by every component, and the classification of
//! operating-system failures that the provisioning logic depends on.

use vstd::prelude::*;

verus! {

/// What went wrong, in the terms in which a failed invocation is reported.
#[derive(Clone, Copy, Debug, PartialEq, Eq, Structural)]
pub enum ErrorKind {
    /// Malformed input or a required field that is missing.
    Config,
    /// A namespace could not be entered or restored.
    Namespace,
    /// An operation observed a namespace or a reply it must never observe.
    Consistency,
    /// A bridge or veth device could not be created.
    Provisioning,
    /// The gateway address collides with one already on the bridge.
    AddressConflict,
    /// The address-management plugin failed or answered unreadably.
    Delegate,
    /// A device of the requested name exists but is of another kind.
    TypeMismatch,
    /// A kernel or operating-system primitive reported a failure.
    Os,
}

/// The operating-system error classes that the logic tells apart.
#[derive(Clone, Copy, Debug, PartialEq, Eq, Structural)]
pub enum IoErrorKind {
    NotFound,
    PermissionDenied,
    AlreadyExists,
    InvalidInput,
    Other,
}

/// A failure: its kind, the operating-system error class behind it if there
/// is one, and a message for the operator.
#[derive(Clone, Debug)]
pub struct Error {
    pub kind: ErrorKind,
    pub io_kind: Option<IoErrorKind>,
    pub message: String,
}

/// What an `Error` holds, as mathematical values.
pub struct ErrorView {
    pub kind: ErrorKind,
    pub io_kind: Option<IoErrorKind>,
    pub message: Seq<char>,
}

impl View for Error {
    type V = ErrorView;

    open spec fn view(&self) -> ErrorView {
        ErrorView { kind: self.kind, io_kind: self.io_kind, message: self.message@ }
    }
}

impl Error {
    /// A failure of the given kind that no operating-system error stands behind.
    pub fn new(kind: ErrorKind, message: &str) -> (e: Error)
        ensures
            e.kind == kind,
            e.io_kind.is_none(),
            e.message@ == message@,
    {
        Error { kind, io_kind: None, message: String::from_str(message) }
    }

    /// A failure reported by the operating system with the given error class.
    pub fn from_io(io_kind: IoErrorKind, message: &str) -> (e: Error)
        ensures
            e.kind == ErrorKind::Os,
            e.io_kind == Some(io_kind),
            e.message@ == message@,
    {
        Error { kind: ErrorKind::Os, io_kind: Some(io_kind), message: String::from_str(message) }
    }

    /// The same failure reported under another kind, with a longer message.
    pub fn context(self, kind: ErrorKind, prefix: &str) -> (e: Error)
        ensures
            e.kind == kind,
            e.io_kind == self.io_kind,
            e.message@ == prefix@ + self.message@,
    {
        let mut message = String::from_str(prefix);
        message.append(self.message.as_str());
        Error { kind, io_kind: self.io_kind, message }
    }

    /// The message, as shown to the operator.
    pub fn to_string(&self) -> (s: String)
        ensures
            s@ == self.message@,
    {
        self.message.clone()
    }
}

/// The operating-system error class behind `e`, if there is one.
pub fn anyhow_io_kind(e: &Error) -> (kind: Option<IoErrorKind>)
    ensures
        kind == e.io_kind,
{
    e.io_kind
}

/// Whether `e` says that the thing to be created exists already.
pub fn is_already_exists_error(e: &Error) -> (b: bool)
    ensures
        b <==> e.io_kind == Some(IoErrorKind::AlreadyExists),
{
    match anyhow_io_kind(e) {
        Some(IoErrorKind::AlreadyExists) => true,
        _ => false,
    }
}

/// Whether `e` says that the thing looked for does not exist.
pub fn is_not_found_error(e: &Error) -> (b: bool)
    ensures
        b <==> e.io_kind == Some(IoErrorKind::NotFound),
{
    match anyhow_io_kind(e) {
        Some(IoErrorKind::NotFound) => true,
        _ => false,
    }
}

} // verus!
