//! The connection-admission state machine.
//!
//! A bounded pool hands out connections asynchronously.  Admission decouples
//! the caller's backpressure from the checkout: `try_admit` consumes the
//! pool's answer to an outstanding checkout and reports readiness without
//! ever blocking, and `take` consumes the readiness, yielding the held
//! connection.  Calling `take` without having observed readiness is a
//! programming error — fatal, not recoverable — excluded here by
//! precondition and asserted by the driver around the library.

use vstd::prelude::*;
use vstd::pervasive::unreached;

verus! {

/// The admission state: no checkout in flight, one in flight, or a
/// connection held and awaiting consumption.
pub enum Admission<C> {
    Empty,
    Acquiring,
    Holding(C),
}

/// What polling the pool's outstanding checkout yielded.
pub enum CheckoutPoll<C> {
    Pending,
    Acquired(C),
}

impl<C> Admission<C> {
    /// Whether `take` may be called.
    pub open spec fn is_ready(self) -> bool {
        self is Holding
    }

    /// Drive the state machine one step with the pool's answer and report
    /// readiness.  A held connection is kept, never dropped or replaced; a
    /// completed checkout is held; an incomplete one leaves the machine
    /// acquiring.  The caller is told Ready exactly when a connection is
    /// held.
    pub fn try_admit(self, poll: CheckoutPoll<C>) -> (r: (Admission<C>, bool))
        ensures
            r.1 <==> r.0 is Holding,
            self is Holding ==> r.0 == self,
            !(self is Holding) ==> r.0 == match poll {
                CheckoutPoll::Acquired(c) => Admission::Holding(c),
                CheckoutPoll::Pending => Admission::<C>::Acquiring,
            },
    {
        match self {
            Admission::Holding(c) => (Admission::Holding(c), true),
            _ => match poll {
                CheckoutPoll::Acquired(c) => (Admission::Holding(c), true),
                CheckoutPoll::Pending => (Admission::Acquiring, false),
            },
        }
    }

    /// Consume the readiness: yield the held connection and return to the
    /// empty state.  Only callable after `try_admit` reported Ready.
    pub fn take(self) -> (r: (C, Admission<C>))
        requires
            self.is_ready(),
        ensures
            self == Admission::Holding(r.0),
            r.1 is Empty,
    {
        match self {
            Admission::Holding(c) => (c, Admission::Empty),
            _ => unreached(),
        }
    }
}

} // verus!
