//! Error taxonomy of the protocol core.
//!
//! Every failure is a value surfaced to the immediate caller of a capability
//! operation; nothing in this crate aborts the process.

use vstd::prelude::*;

verus! {

/// Classified failure of a capability operation or of the transport.
#[derive(Clone, Copy, Debug, PartialEq, Eq, Structural)]
pub enum Error {
    /// The underlying byte-level send/receive primitive failed.
    Io,
    /// All transport attempts ended in a non-terminal status or an I/O
    /// failure.
    NotSuccessful,
    /// The device definitively declined the command; never retried.
    NotSupported,
    /// A color string did not parse into exactly three numeric channels.
    InvalidColorFormat,
    /// A returned byte payload is not valid text.
    InvalidString,
}

} // verus!
