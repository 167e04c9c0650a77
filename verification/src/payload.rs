//! Termination payloads and the termination events that carry them.

use vstd::prelude::*;

verus! {

/// The dynamic type identity of a termination payload: the token a catch site
/// hands to the extraction protocol to say which payload it expects.
#[derive(Clone, Copy, Debug, PartialEq, Eq, Structural)]
pub enum PayloadKind {
    /// An integer payload.
    Int,
    /// A boolean payload.
    Flag,
    /// An integer-range payload.
    IntRange,
    /// The protocol's own diagnostic; never a user payload.
    CatastrophicSuccess,
}

/// The owned value carried by an in-flight abnormal termination. Exactly one
/// payload exists per termination event: it is created at the throw site and
/// destroyed either by a successful extraction (consumed into a typed value)
/// or by continuing propagation unchanged.
#[derive(Clone, Copy, Debug, PartialEq, Eq, Structural)]
pub enum Payload {
    /// A machine integer.
    Int(i64),
    /// A boolean.
    Flag(bool),
    /// An unevaluated half-open range of integers: start (inclusive) and end
    /// (exclusive), not yet walked or reduced.
    IntRange(i32, i32),
    /// The fixed diagnostic thrown by the extraction protocol itself when a
    /// terminator breaks its contract by returning normally. A dedicated
    /// variant, so it is distinguishable from every user payload.
    CatastrophicSuccess,
}

impl Payload {
    /// The type identity of this payload, as the protocol's dynamic check
    /// sees it.
    pub open spec fn kind(self) -> PayloadKind {
        match self {
            Payload::Int(_) => PayloadKind::Int,
            Payload::Flag(_) => PayloadKind::Flag,
            Payload::IntRange(_, _) => PayloadKind::IntRange,
            Payload::CatastrophicSuccess => PayloadKind::CatastrophicSuccess,
        }
    }

    /// Runtime witness of the payload's type identity.
    pub fn kind_of(&self) -> (k: PayloadKind)
        ensures
            k == self.kind(),
    {
        match self {
            Payload::Int(_) => PayloadKind::Int,
            Payload::Flag(_) => PayloadKind::Flag,
            Payload::IntRange(_, _) => PayloadKind::IntRange,
            Payload::CatastrophicSuccess => PayloadKind::CatastrophicSuccess,
        }
    }
}

/// An in-flight abnormal termination: the unwind-style control transfer that
/// skips every normal return path, carrying its payload up the call stack
/// until something catches it. Here it is an ordinary value handed back in
/// place of a normal result, so propagation is ordinary return propagation.
#[derive(Debug, PartialEq, Eq, Structural)]
pub struct Termination {
    /// The payload created at the throw site.
    pub payload: Payload,
}

/// What a protected (catching) region observed of evaluating an expression:
/// either the expression returned normally (any returned value is discarded;
/// for a terminator this is a contract violation), or its abnormal
/// termination was caught by value.
#[derive(Debug)]
pub enum Evaluation {
    /// The expression returned normally instead of terminating.
    Returned,
    /// The expression terminated abnormally and the termination was caught.
    Terminated(Termination),
}

} // verus!
