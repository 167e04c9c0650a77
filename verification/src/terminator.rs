//! The two capabilities: payload values and terminating units of work.

use vstd::prelude::*;

use crate::payload::Payload;
use crate::payload::Termination;

verus! {

/// Marker capability for catastrophic values: a type qualifies exactly when
/// its values can be moved safely to another thread and own all their data
/// with no borrowed-lifetime scope, so nothing dangles once the stack below
/// the throw site is gone. It is a pure static predicate with no operations,
/// and the blanket implementation makes every qualifying type a member; it is
/// not an opt-in list.
pub trait Catastrophic: 'static + Send {

}

impl<T: 'static + Send> Catastrophic for T {

}

/// Capability of zero-argument units of work whose only valid outcome is
/// abnormal termination: a terminator never produces a normal value.
///
/// `thrown` is the payload the terminator throws; `armed` is its own
/// precondition for being invoked (the inputs on which the underlying work
/// can run to its throw site). A terminator is consumed by invocation, so it
/// runs exactly once.
pub trait DisasterWaitingToHappen: Sized {
    /// The payload this terminator throws when invoked.
    spec fn thrown(self) -> Payload;

    /// When this terminator may be invoked.
    spec fn armed(self) -> bool;

    /// Invokes the unit of work. Statically, nothing but the abnormal
    /// termination itself can come back: the termination carries the thrown
    /// payload up to whoever catches it.
    #[allow(non_snake_case)]
    fn HALT_AND_CATCH_FIRE(self) -> (t: Termination)
        requires
            self.armed(),
        ensures
            t.payload == self.thrown(),
    ;
}

/// The simplest terminator: given a payload up front, it throws exactly that
/// payload.
pub struct Thrower {
    /// The payload to throw.
    pub payload: Payload,
}

impl DisasterWaitingToHappen for Thrower {
    open spec fn thrown(self) -> Payload {
        self.payload
    }

    open spec fn armed(self) -> bool {
        true
    }

    fn HALT_AND_CATCH_FIRE(self) -> (t: Termination) {
        Termination { payload: self.payload }
    }
}

} // verus!
