//! Failure reporting for the rendering pipeline.

use vstd::prelude::*;

verus! {

/// The category of a rendering failure.
#[derive(Clone, Copy, PartialEq, Eq, Structural, Debug)]
pub enum ErrorKind {
    /// Reading an input source failed.
    Io,
    /// Input data is malformed or unsupported.
    InvalidData,
    /// Text cannot be represented in the single-byte encoding that a
    /// built-in font requires.
    UnsupportedEncoding,
    /// The document backend reported a failure.
    BackendFailure,
}

/// A rendering failure, carrying a category and a human-readable message
/// with enough context to diagnose the offending input.
#[derive(Debug)]
pub struct Error {
    msg: String,
    kind: ErrorKind,
}

impl Error {
    /// The category of this failure.
    pub closed spec fn spec_kind(&self) -> ErrorKind {
        self.kind
    }

    /// The characters of this failure's message.
    pub closed spec fn spec_msg(&self) -> Seq<char> {
        self.msg@
    }

    pub fn new(msg: String, kind: ErrorKind) -> (r: Error)
        ensures
            r.spec_kind() == kind,
            r.spec_msg() == msg@,
    {
        Error { msg, kind }
    }

    pub fn kind(&self) -> (r: ErrorKind)
        ensures
            r == self.spec_kind(),
    {
        self.kind
    }

    pub fn message(&self) -> (r: &String)
        ensures
            r@ == self.spec_msg(),
    {
        &self.msg
    }
}

} // verus!
