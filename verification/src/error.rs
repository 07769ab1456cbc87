//! Error taxonomy of the client.
//!
//! Every failure is a typed value: transport trouble, a rejected login, a
//! command whose reply code was not in the verb's accepted set, server text
//! that could not be parsed, or a filesystem-flavored refusal. Each variant
//! carries the structured data a caller needs to react programmatically: the
//! offending status code, or the raw server bytes that failed to parse.

use vstd::prelude::*;

verus! {

/// The local I/O failures that the embedding program can meet while it moves
/// bytes for the client: each stands for one class of operating-system error.
#[derive(Debug, Clone, Copy, PartialEq, Eq)]
pub enum IoFault {
    NotFound,
    PermissionDenied,
    ConnectionRefused,
    ConnectionReset,
    ConnectionAborted,
    NotConnected,
    TimedOut,
    Other,
}

/// Why the control connection is no longer trustworthy.
#[derive(Debug, Clone, PartialEq, Eq)]
pub enum ConnectionFault {
    /// The transport itself failed.
    Transport(IoFault),
    /// The server's greeting did not carry the "service ready" code.
    Greeting(u16),
    /// The reply that should confirm a transfer's closure carried this code,
    /// so the transfer's integrity cannot be confirmed.
    TransferClose(u16),
}

/// A filesystem-flavored refusal.
#[derive(Debug, Clone, PartialEq, Eq)]
pub enum FileFault {
    /// A local read or write failed while streaming payload bytes.
    Local(IoFault),
    /// The server answered a file-related verb with this unexpected code.
    Refused(u16),
}

/// Server text that could not be parsed.
#[derive(Debug, Clone, PartialEq, Eq)]
pub enum ResponseFault {
    /// A reply line shorter than the minimum of five bytes.
    Truncated(Vec<u8>),
    /// A reply line whose first three bytes are not a valid status code.
    MalformedCode(Vec<u8>),
    /// A passive-mode message without six usable numeric tokens.
    PassiveAddress(Vec<u8>),
    /// The reply to a passive-mode request carried this unexpected code.
    PassiveCode(u16),
}

/// A failure surfaced by the client, as a closed tagged union.
#[derive(Debug, Clone, PartialEq, Eq)]
pub enum FtpError {
    /// The authentication sequence was rejected; carries the status code
    /// the server answered with.
    LoginError(u16),
    /// The transport failed or a connection-level reply was wrong.
    ConnectionError(ConnectionFault),
    /// A filesystem-flavored failure.
    FileError(FileFault),
    /// A command's reply code was not in the expected set; carries the code.
    CommandError(u16),
    /// The reply text itself could not be parsed.
    ResponseError(ResponseFault),
}

impl FtpError {
    /// The label that names this error's kind in diagnostics.
    pub fn kind_label(&self) -> (r: &'static str)
        ensures
            self is LoginError ==> r@ == "Login Error"@,
            self is ConnectionError ==> r@ == "Connection Error"@,
            self is FileError ==> r@ == "File Error"@,
            self is CommandError ==> r@ == "Command Error"@,
            self is ResponseError ==> r@ == "Response Error"@,
    {
        match self {
            FtpError::LoginError(_) => "Login Error",
            FtpError::ConnectionError(_) => "Connection Error",
            FtpError::FileError(_) => "File Error",
            FtpError::CommandError(_) => "Command Error",
            FtpError::ResponseError(_) => "Response Error",
        }
    }
}

/// How a local I/O failure surfaces to the caller: connection-shaped faults
/// become `ConnectionError`, everything else is a `FileError`.
pub open spec fn io_fault_error(k: IoFault) -> FtpError {
    match k {
        IoFault::NotFound => FtpError::FileError(FileFault::Local(IoFault::NotFound)),
        IoFault::PermissionDenied => FtpError::FileError(
            FileFault::Local(IoFault::PermissionDenied),
        ),
        IoFault::ConnectionRefused => FtpError::ConnectionError(
            ConnectionFault::Transport(IoFault::ConnectionRefused),
        ),
        IoFault::ConnectionReset => FtpError::ConnectionError(
            ConnectionFault::Transport(IoFault::ConnectionReset),
        ),
        IoFault::ConnectionAborted => FtpError::ConnectionError(
            ConnectionFault::Transport(IoFault::ConnectionAborted),
        ),
        IoFault::NotConnected => FtpError::ConnectionError(
            ConnectionFault::Transport(IoFault::NotConnected),
        ),
        IoFault::TimedOut => FtpError::ConnectionError(
            ConnectionFault::Transport(IoFault::TimedOut),
        ),
        IoFault::Other => FtpError::FileError(FileFault::Local(IoFault::Other)),
    }
}

/// Classifies a local I/O failure as the error the caller sees.
pub fn error_from_io(k: IoFault) -> (r: FtpError)
    ensures
        r == io_fault_error(k),
{
    match k {
        IoFault::NotFound => FtpError::FileError(FileFault::Local(IoFault::NotFound)),
        IoFault::PermissionDenied => FtpError::FileError(
            FileFault::Local(IoFault::PermissionDenied),
        ),
        IoFault::ConnectionRefused => FtpError::ConnectionError(
            ConnectionFault::Transport(IoFault::ConnectionRefused),
        ),
        IoFault::ConnectionReset => FtpError::ConnectionError(
            ConnectionFault::Transport(IoFault::ConnectionReset),
        ),
        IoFault::ConnectionAborted => FtpError::ConnectionError(
            ConnectionFault::Transport(IoFault::ConnectionAborted),
        ),
        IoFault::NotConnected => FtpError::ConnectionError(
            ConnectionFault::Transport(IoFault::NotConnected),
        ),
        IoFault::TimedOut => FtpError::ConnectionError(
            ConnectionFault::Transport(IoFault::TimedOut),
        ),
        IoFault::Other => FtpError::FileError(FileFault::Local(IoFault::Other)),
    }
}

} // verus!
