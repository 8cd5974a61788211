//! The closed set of error kinds that a host can observe.

use vstd::prelude::*;

verus! {

/// The kinds of failure that cross into the host.
#[derive(Clone, Copy, Debug, PartialEq, Eq, Structural)]
pub enum ErrorKind {
    /// An operation was attempted on a closed connection or table.
    ClosedHandle,
    /// A mode string, a credential combination or a payload was malformed.
    InvalidArgument,
    /// The engine reported a failure while it ran the operation.
    ExecutionFailure,
    /// Host data could not be read as a columnar batch or schema.
    ConversionFailure,
}

/// A host-visible error: one kind and a human-readable message.
#[derive(Clone, Debug, PartialEq, Eq)]
pub struct BridgeError {
    pub kind: ErrorKind,
    pub message: String,
}

/// The mathematical value of a [`BridgeError`].
pub struct ErrorView {
    pub kind: ErrorKind,
    pub message: Seq<char>,
}

impl View for BridgeError {
    type V = ErrorView;

    open spec fn view(&self) -> ErrorView {
        ErrorView { kind: self.kind, message: self.message@ }
    }
}

/// A failure as the native side reports it, before the host sees it.
#[derive(Clone, Debug, PartialEq, Eq)]
pub enum NativeError {
    /// The engine failed while it ran an operation: I/O, a schema
    /// mismatch, a conflict, a missing table.
    Engine(String),
    /// Host data could not be read as a columnar batch or schema.
    Payload(String),
    /// A failure of no known origin.
    Unrecognized(String),
}

impl NativeError {
    /// The message that the native side gave.
    pub open spec fn message(self) -> String {
        match self {
            NativeError::Engine(m) => m,
            NativeError::Payload(m) => m,
            NativeError::Unrecognized(m) => m,
        }
    }

    /// The kind under which the host sees the failure. What is not
    /// recognised counts as an execution failure.
    pub open spec fn kind(self) -> ErrorKind {
        match self {
            NativeError::Engine(_) => ErrorKind::ExecutionFailure,
            NativeError::Payload(_) => ErrorKind::ConversionFailure,
            NativeError::Unrecognized(_) => ErrorKind::ExecutionFailure,
        }
    }

    /// The host-visible error that the failure translates to: its kind,
    /// and its message kept verbatim.
    pub open spec fn translated(self) -> BridgeError {
        BridgeError { kind: self.kind(), message: self.message() }
    }
}

/// Translates a native failure for the host. Every failure has exactly
/// one kind, and its message is kept verbatim.
pub fn translate(err: NativeError) -> (e: BridgeError)
    ensures
        e == err.translated(),
{
    match err {
        NativeError::Engine(message) => BridgeError { kind: ErrorKind::ExecutionFailure, message },
        NativeError::Payload(message) => BridgeError {
            kind: ErrorKind::ConversionFailure,
            message,
        },
        NativeError::Unrecognized(message) => BridgeError {
            kind: ErrorKind::ExecutionFailure,
            message,
        },
    }
}

/// The message carried by every use-after-close failure of a connection.
pub open spec fn closed_connection_message() -> Seq<char> {
    "Connection is closed"@
}

/// The message carried by every use-after-close failure of a table.
pub open spec fn closed_table_message() -> Seq<char> {
    "Table is closed"@
}

/// The message carried by every inconsistent credential combination.
pub open spec fn invalid_credentials_message() -> Seq<char> {
    "Invalid credentials configuration"@
}

/// The message reported for a mode string that names no creation mode.
pub open spec fn invalid_mode_message(mode: Seq<char>) -> Seq<char> {
    "Invalid mode "@ + mode
}

/// The error that every operation on a closed connection reports.
pub open spec fn closed_connection_error() -> ErrorView {
    ErrorView { kind: ErrorKind::ClosedHandle, message: closed_connection_message() }
}

/// The error that every operation on a closed table reports.
pub open spec fn closed_table_error() -> ErrorView {
    ErrorView { kind: ErrorKind::ClosedHandle, message: closed_table_message() }
}

/// The error reported for an inconsistent credential combination.
pub open spec fn invalid_credentials_error() -> ErrorView {
    ErrorView { kind: ErrorKind::InvalidArgument, message: invalid_credentials_message() }
}

/// The error reported for a mode string that names no creation mode.
pub open spec fn invalid_mode_error(mode: Seq<char>) -> ErrorView {
    ErrorView { kind: ErrorKind::InvalidArgument, message: invalid_mode_message(mode) }
}

/// The error reported for a payload that could not be converted; the
/// converter's message is kept as it is.
pub open spec fn conversion_error(message: Seq<char>) -> ErrorView {
    ErrorView { kind: ErrorKind::ConversionFailure, message }
}

impl BridgeError {
    /// Builds an error of the given kind around `message`, kept verbatim.
    pub fn new(kind: ErrorKind, message: String) -> (e: BridgeError)
        ensures
            e == (BridgeError { kind, message }),
    {
        BridgeError { kind, message }
    }

    /// The failure reported when a closed connection is used.
    pub fn closed_connection() -> (e: BridgeError)
        ensures
            e@ == closed_connection_error(),
    {
        BridgeError { kind: ErrorKind::ClosedHandle, message: "Connection is closed".to_owned() }
    }

    /// The failure reported when a closed table is used.
    pub fn closed_table() -> (e: BridgeError)
        ensures
            e@ == closed_table_error(),
    {
        BridgeError { kind: ErrorKind::ClosedHandle, message: "Table is closed".to_owned() }
    }

    /// The failure reported for an inconsistent credential combination.
    pub fn invalid_credentials() -> (e: BridgeError)
        ensures
            e@ == invalid_credentials_error(),
    {
        BridgeError {
            kind: ErrorKind::InvalidArgument,
            message: "Invalid credentials configuration".to_owned(),
        }
    }

    /// The failure reported for a mode string outside the known modes.
    pub fn invalid_mode(mode: &str) -> (e: BridgeError)
        ensures
            e@ == invalid_mode_error(mode@),
    {
        let mut message = "Invalid mode ".to_owned();
        message.append(mode);
        BridgeError { kind: ErrorKind::InvalidArgument, message }
    }
}

} // verus!
