//! What kinds of errors there are, as far as callers tell errors apart.
use vstd::prelude::*;

verus! {

/// The kind of an error.
#[derive(Debug, Clone, Copy, PartialEq, Eq, Structural)]
pub enum ErrorKind {
    AlreadyExists,
    BrokenPipe,
    InvalidData,
    InvalidInput,
    Other,
    TimedOut,
    UnexpectedEof,
    Unsupported,
    WouldBlock,
}

} // verus!
