//! Error taxonomy of the bridge: native status failures, a missing provider
//! backend at registration time, and decode failures in the attribute
//! protocols. No native failure is retried and none is silently swallowed.

use vstd::prelude::*;

verus! {

/// A failure reported by a native status call, carried as its message.
#[derive(Debug, Clone)]
pub struct Error {
    message: String,
}

impl View for Error {
    type V = Seq<char>;

    closed spec fn view(&self) -> Seq<char> {
        self.message@
    }
}

impl Error {
    /// Wraps a native (or bridge) failure message.
    pub fn new(message: &str) -> (e: Error)
        ensures
            e@ == message@,
    {
        Error { message: message.to_owned() }
    }

    /// The failure message.
    pub fn message(&self) -> (m: &str)
        ensures
            m@ == self@,
    {
        self.message.as_str()
    }
}

/// A failure while decoding an attribute value out of a native buffer.
#[derive(Debug, Clone, Copy, PartialEq, Eq, Structural)]
pub enum DecodeError {
    /// The buffer is not nul-terminated, or holds an interior nul byte.
    MissingTerminator,
    /// The buffer's bytes are not valid text.
    InvalidEncoding,
    /// A positional read returned a byte length other than the one requested.
    /// This indicates a native/host type confusion, a programming error
    /// rather than bad user input.
    LengthMismatch { expected: usize, returned: usize },
    /// The requested kernel input is out of range or not a constant.
    NotConstant,
}

/// A failure while attaching a configured execution provider to a session.
#[derive(Debug, Clone)]
pub enum RegisterError {
    /// The bridge was built without the requested provider backend; no native
    /// call was attempted.
    MissingFeature,
    /// A native call of the registration sequence reported failure.
    Native(Error),
}

} // verus!
