//! The typed failures of the bridge.
//!
//! Malformed script input never panics the bridge: every failure path
//! returns one of these values, which the embedding runtime converts into
//! its own error-reporting mechanism.

use vstd::prelude::*;

use crate::value::Tag;

verus! {

/// What a decoder expected of one positional argument.
#[derive(Clone, Copy, Debug, PartialEq, Eq, Structural)]
pub enum Expected {
    /// Exactly the given tag.
    Exact(Tag),
    /// A numeric value: an integer, or a float truncated toward zero.
    Numeric,
}

/// A failure of the bridge.
#[derive(Debug, PartialEq)]
pub enum Error {
    /// A required positional argument was absent.
    MissingArgument { position: usize },
    /// A positional argument had a different tag than the declared one.
    TypeMismatch { expected: Expected, actual: Tag, position: usize },
    /// An integer argument fell outside the destination domain, where the
    /// declared parameter rejects rather than clamps.
    OutOfRange { position: usize },
    /// A method was invoked through a receiver that is not a capability
    /// object of the expected type; the tag names what was found instead.
    WrongReceiverType { actual: Tag },
    /// A field or method name that no capability maps.
    NoSuchMethod,
    /// The native subsystem could not be initialised.
    SubsystemInit { message: String },
    /// The native window or canvas builder rejected the request.
    WindowCreation { message: String },
    /// The native subsystem could not produce an event source.
    EventSubsystem { message: String },
    /// Any other failing native call; its report is carried verbatim.
    Native { message: String },
}

} // verus!
