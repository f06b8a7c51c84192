//! The error type shared by the device and the forwarding loop.

use vstd::prelude::*;

verus! {

/// Result type used throughout the crate.
pub type TunnelResult<T> = Result<T, TunnelError>;

/// What went wrong, as far as a caller has to tell the cases apart.
#[derive(Clone, Copy, Debug, PartialEq, Eq, Structural)]
pub enum ErrorKind {
    /// The interface name does not fit the kernel's name field.
    NameTooLong,
    /// The kernel rejected the configuration call.
    DeviceCreationFailed,
    /// A read, write, bind or parse on the device or the socket failed.
    IoFailure,
    /// The operation could not complete now and is to be retried later.
    /// This is a signal to suspend, not a failure.
    WouldBlock,
    /// An error that carries nothing but its description.
    Other,
}

/// An error of the tunnel: a kind and a description for people.
#[derive(Debug)]
pub struct TunnelError {
    /// A further description for the error.
    pub description: String,
    /// The class the error falls in.
    pub kind: ErrorKind,
}

impl TunnelError {
    /// An error of kind [`ErrorKind::Other`] with the given description.
    pub fn new(description: &str) -> (e: Self)
        ensures
            e.description@ == description@,
            e.kind == ErrorKind::Other,
    {
        TunnelError { description: description.to_owned(), kind: ErrorKind::Other }
    }

    /// An error of the given kind with the given description.
    pub fn with_kind(kind: ErrorKind, description: &str) -> (e: Self)
        ensures
            e.description@ == description@,
            e.kind == kind,
    {
        TunnelError { description: description.to_owned(), kind }
    }

    /// The error for a failed read, write, bind or parse. `would_block`
    /// says whether the underlying failure was the try-again signal, which
    /// every caller has to keep apart from the real failures.
    pub fn io(would_block: bool, description: &str) -> (e: Self)
        ensures
            e.description@ == description@,
            e.kind == (if would_block {
                ErrorKind::WouldBlock
            } else {
                ErrorKind::IoFailure
            }),
    {
        let kind = if would_block {
            ErrorKind::WouldBlock
        } else {
            ErrorKind::IoFailure
        };
        TunnelError { description: description.to_owned(), kind }
    }

    /// The class of this error.
    pub fn kind(&self) -> (k: ErrorKind)
        ensures
            k == self.kind,
    {
        self.kind
    }

    /// Whether this is the try-again signal rather than a failure.
    pub fn is_would_block(&self) -> (b: bool)
        ensures
            b == (self.kind == ErrorKind::WouldBlock),
    {
        match self.kind {
            ErrorKind::WouldBlock => true,
            _ => false,
        }
    }

    /// Whether the forwarding loop has to stop on this error: everything
    /// but the try-again signal is fatal.
    pub fn is_fatal(&self) -> (b: bool)
        ensures
            b == (self.kind != ErrorKind::WouldBlock),
    {
        !self.is_would_block()
    }

    /// The description, borrowed.
    pub fn description(&self) -> (s: &str)
        ensures
            s@ == self.description@,
    {
        self.description.as_str()
    }

    /// The text shown for this error: its description.
    pub fn to_string(&self) -> (s: String)
        ensures
            s@ == self.description@,
    {
        self.description.clone()
    }
}

} // verus!
