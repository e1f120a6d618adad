//! Drives one operation to completion.
//!
//! A [`Driver`] pairs an operation with the [`Synchronizer`] it will block
//! on. [`Driver::drive_once`] makes a single non-blocking attempt, so that an
//! operation that is already ready resolves without ever suspending anybody;
//! [`Driver::drive_to_completion`] alternates readiness queries with blocking
//! waits until the result arrives. A [`Resolution`] records where a driving
//! cycle stands: still driving, or resolved to a value.

use crate::operation::Operation;
use crate::operation::Progress;
use crate::sync::Synchronizer;
use std::sync::Arc;
use vstd::prelude::*;

verus! {

/// One operation together with the synchronizer its observer blocks on.
///
/// The synchronizer lives for this one driving cycle; every readiness query
/// registers a fresh handle bound to it, so the operation always signals the
/// synchronizer the observer is about to block on.
pub struct Driver<T: Operation> {
    op: T,
    sync: Arc<Synchronizer>,
}

/// The state of a driving cycle: exactly one case is active, and the only
/// transition ever made is `Driving` to `Resolved`. Once resolved, the
/// operation and its synchronizer have been dropped, so nothing can query
/// the operation again.
pub enum Resolution<T: Operation> {
    /// The operation has not delivered its result yet.
    Driving(Driver<T>),
    /// The operation completed with this value.
    Resolved(T::Output),
}

impl<T: Operation> Driver<T> {
    /// The value the driven operation is bound to yield.
    pub closed spec fn result(&self) -> T::Output {
        self.op.result()
    }

    /// Whether the next readiness query is certain to find the result.
    pub closed spec fn op_ready(&self) -> bool {
        self.op.ready()
    }

    /// Pairs the operation with a fresh synchronizer. No query happens yet.
    pub fn new(op: T) -> (r: Driver<T>)
        ensures
            r.result() == op.result(),
            r.op_ready() == op.ready(),
    {
        Driver { op, sync: Arc::new(Synchronizer::new()) }
    }

    /// Performs exactly one readiness check. An operation that is ready
    /// resolves at once; a pending one is handed back as a driver that still
    /// carries the same eventual result.
    pub fn drive_once(self) -> (r: Resolution<T>)
        ensures
            r.value() == self.result(),
            self.op_ready() ==> r.is_resolved(),
    {
        let Driver { op, sync } = self;
        let handle = Synchronizer::register(&sync);
        match op.query(&handle) {
            Progress::Ready(value) => Resolution::Resolved(value),
            Progress::Pending(op) => Resolution::Driving(Driver { op, sync }),
        }
    }

    /// Repeatedly checks the operation, blocking on the synchronizer between
    /// checks, until the result arrives. Consumes the driver.
    ///
    /// Each round registers a handle on the synchronizer and queries before
    /// blocking, so a signal delivered between the check and the wait is
    /// observed either by the check itself or by the wait — never lost. The
    /// loop terminates because every pending answer strictly shrinks the
    /// operation's pending budget.
    pub fn drive_to_completion(self) -> (r: T::Output)
        ensures
            r == self.result(),
    {
        let Driver { op, sync } = self;
        let mut op = op;
        loop
            invariant
                op.result() == self.result(),
            decreases op.pending_budget(),
        {
            let handle = Synchronizer::register(&sync);
            match op.query(&handle) {
                Progress::Ready(value) => {
                    return value;
                },
                Progress::Pending(next) => {
                    op = next;
                    sync.block();
                },
            }
        }
    }
}

impl<T: Operation> Resolution<T> {
    /// The value this state is bound to end at: the resolved value, or the
    /// driven operation's eventual result.
    pub open spec fn value(&self) -> T::Output {
        match *self {
            Resolution::Driving(ref d) => d.result(),
            Resolution::Resolved(v) => v,
        }
    }

    /// Whether the value has been delivered.
    pub open spec fn is_resolved(&self) -> bool {
        self is Resolved
    }

    /// Extracts the value, driving the operation to completion first if it
    /// has not delivered yet.
    pub fn into_value(self) -> (r: T::Output)
        ensures
            r == self.value(),
    {
        match self {
            Resolution::Resolved(value) => value,
            Resolution::Driving(driver) => driver.drive_to_completion(),
        }
    }
}

} // verus!
