//! The contract an asynchronous unit of work presents to the driver, and two
//! operations that implement it without any background agent.
//!
//! An [`Operation`] is queried repeatedly — "is the result ready yet?" —
//! through [`Operation::query`]. A query that finds the result consumes the
//! operation and yields the value; one that does not hands the operation
//! back, and the operation keeps the supplied [`NotifyHandle`] (or any copy
//! of it) to signal once a further query would succeed. Because a ready
//! query takes the operation by value, nothing can query an operation after
//! its result was observed.

use crate::sync::NotifyHandle;
use vstd::prelude::*;

verus! {

/// Outcome of one readiness query: either the operation's result, or the
/// operation itself, still pending.
pub enum Progress<T: Operation> {
    /// The result is not available yet; the operation lives on and will
    /// signal the notification handle it was queried with.
    Pending(T),
    /// The operation completed with this value.
    Ready(T::Output),
}

/// A unit of asynchronous work that can be driven to completion by
/// repeatedly querying its readiness.
///
/// The ghost model is a designated eventual result, a readiness bit, and a
/// budget of pending answers. The budget bounds how many times a query may
/// come back pending: an operation that never became ready would leave its
/// observer blocked forever, which the surrounding design treats as a broken
/// operation, not a recoverable state. Giving that obligation to the
/// implementor as a strictly decreasing measure is what lets the driver's
/// loop be verified to terminate.
pub trait Operation: Sized {
    /// The type of the value the operation eventually yields.
    type Output;

    /// The value this operation is bound to yield.
    ///
    /// The default says nothing; an implementation that wants its callers to
    /// know what they receive gives its own definition, as every
    /// implementation in this crate does.
    open spec fn result(&self) -> Self::Output {
        arbitrary()
    }

    /// Whether a query made now is certain to find the result.
    open spec fn ready(&self) -> bool {
        false
    }

    /// How many more times a query may come back pending.
    open spec fn pending_budget(&self) -> nat {
        arbitrary()
    }

    /// One non-blocking readiness check.
    ///
    /// A pending answer hands back an operation with the same eventual
    /// result and a strictly smaller pending budget; the operation will
    /// signal `handle` (or a copy of it) once a further query would find the
    /// result, and only then. A ready answer yields exactly the eventual
    /// result. An operation that is ready must say so at once.
    fn query(self, handle: &NotifyHandle) -> (r: Progress<Self>)
        ensures
            r matches Progress::Ready(v) ==> v == self.result(),
            r matches Progress::Pending(next) ==> {
                &&& next.result() == self.result()
                &&& next.pending_budget() < self.pending_budget()
            },
            self.ready() ==> r is Ready,
    ;
}

/// An operation whose result is available from the start: the first query
/// finds it, and nothing ever blocks on it.
pub struct Immediate<O> {
    value: O,
}

impl<O> Immediate<O> {
    /// Wraps a value that is ready before the first query.
    pub fn new(value: O) -> (r: Immediate<O>)
        ensures
            r.result() == value,
            r.ready(),
    {
        Immediate { value }
    }
}

impl<O> Operation for Immediate<O> {
    type Output = O;

    closed spec fn result(&self) -> O {
        self.value
    }

    closed spec fn ready(&self) -> bool {
        true
    }

    closed spec fn pending_budget(&self) -> nat {
        0
    }

    fn query(self, _handle: &NotifyHandle) -> (r: Progress<Immediate<O>>) {
        Progress::Ready(self.value)
    }
}

/// An operation that answers a fixed number of queries with "pending"
/// before yielding its value.
///
/// It signals the handle it was queried with right away, so the observer's
/// next blocking wait returns at once: the whole driving cycle runs on the
/// observer's own thread. The early signals are spurious — a later query may
/// still come back pending — which the synchronizer's re-check tolerates by
/// design. This makes the pending path of the driver exercisable without any
/// background agent.
pub struct Countdown<O> {
    /// How many more queries come back pending.
    remaining: u64,
    value: O,
}

impl<O> Countdown<O> {
    /// An operation that yields `value` after answering `steps` queries
    /// with "pending".
    pub fn new(steps: u64, value: O) -> (r: Countdown<O>)
        ensures
            r.result() == value,
            r.ready() <==> steps == 0,
            r.pending_budget() == steps,
    {
        Countdown { remaining: steps, value }
    }
}

impl<O> Operation for Countdown<O> {
    type Output = O;

    closed spec fn result(&self) -> O {
        self.value
    }

    closed spec fn ready(&self) -> bool {
        self.remaining == 0
    }

    closed spec fn pending_budget(&self) -> nat {
        self.remaining as nat
    }

    fn query(self, handle: &NotifyHandle) -> (r: Progress<Countdown<O>>) {
        if self.remaining > 0 {
            handle.notify();
            Progress::Pending(Countdown { remaining: self.remaining - 1, value: self.value })
        } else {
            Progress::Ready(self.value)
        }
    }
}

} // verus!
