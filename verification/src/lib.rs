//! Typed control flow built on abnormal-termination propagation.
//!
//! A *terminator* is a unit of work whose only outcome is to throw a payload
//! up the call stack, never to return normally. The *extraction protocol*
//! (`catastrophe`) sits at the boundary where a typed result is wanted: it
//! invokes a terminator inside a protected region, checks the caught payload
//! against an expected kind, and either consumes it into a typed value or
//! hands the termination on unchanged so a handler further out can catch it.
//!
//! Abnormal termination is modelled as an ordinary value of type
//! [`payload::Termination`] threaded back up by return propagation, and the
//! "never returns normally" guarantee is a type-level contract: invoking a
//! terminator yields a `Termination` and nothing else.

pub mod laws;
pub mod payload;
pub mod protocol;
pub mod summing;
pub mod terminator;

pub use terminator::Catastrophic;
pub use terminator::DisasterWaitingToHappen;
