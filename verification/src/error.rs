//! Errors of the userspace test protocol.

use vstd::prelude::*;
use vstd::string::*;

verus! {

/// What went wrong, in the categories callers distinguish.
#[derive(Clone, Copy, Debug, PartialEq, Eq, Structural)]
pub enum ErrorKind {
    /// An argument, a frame or a device setting is not acceptable.
    InvalidInput,
    /// The deadline passed before the transfer finished.
    TimedOut,
    /// The device hung up.
    BrokenPipe,
    /// The device accepted no byte of a write.
    WriteZero,
    /// The device reported end of file in the middle of a read.
    UnexpectedEof,
    /// A check on a device failed.
    Other,
    /// A system call failed with this error number.
    Os(i32),
}

/// An error with its category and a message for people.
#[derive(Debug)]
pub struct Error {
    pub kind: ErrorKind,
    pub message: String,
}

impl Error {
    /// An error of the given kind with the given message.
    pub fn new(kind: ErrorKind, message: &str) -> (error: Error)
        ensures
            error.is(kind, message@),
    {
        Error { kind, message: message.to_owned() }
    }

    /// The error has this kind and this message.
    pub open spec fn is(self, kind: ErrorKind, message: Seq<char>) -> bool {
        self.kind == kind && self.message@ == message
    }
}

/// An `InvalidInput` error with `message`.
pub fn invalid(message: &str) -> (error: Error)
    ensures
        error.is(ErrorKind::InvalidInput, message@),
{
    Error::new(ErrorKind::InvalidInput, message)
}

/// Whether two strings hold the same characters.
pub fn same_text(a: &str, b: &str) -> (same: bool)
    ensures
        same == (a@ == b@),
{
    a.to_owned() == b.to_owned()
}

/// An error keeps its kind and its message, and texts are the same exactly if
/// their characters are.
pub proof fn law_errors_keep_their_text(
    kind: ErrorKind,
    message: &str,
    error: Error,
    refused: Error,
    a: &str,
    b: &str,
    same: bool,
)
    requires
        call_ensures(Error::new, (kind, message), error),
        call_ensures(invalid, (message,), refused),
        call_ensures(same_text, (a, b), same),
    ensures
        error.kind == kind && error.message@ == message@,
        refused.kind == ErrorKind::InvalidInput && refused.message@ == message@,
        same <==> a@ == b@,
{
}

} // verus!
