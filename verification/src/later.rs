//! The deferred value container.
//!
//! A [`Later`] holds either a still-driving operation or its computed value.
//! Construction performs one non-blocking readiness check, so an operation
//! that is already complete resolves without anybody ever blocking. The
//! first access that needs the value drives the operation to completion —
//! blocking the calling thread — and caches the result; every later access
//! finds the cached value and returns at once. The cell only ever moves from
//! driving to resolved, never back.
//!
//! A single container must be owned and driven by one thread; nothing inside
//! it protects the resolution cell against concurrent accessors.

use crate::driver::Driver;
use crate::driver::Resolution;
use crate::operation::Operation;
use vstd::prelude::*;

verus! {

/// A wrapper for retrieving the eventual result of an operation only at the
/// point where the result is required.
pub struct Later<T: Operation> {
    /// The resolution cell. `None` never outlives a method call: it exists
    /// only while a resolving accessor has taken the state out to drive it,
    /// and every accessor puts a state back before returning. Observing
    /// `None` would mean a broken transition, and the accessors treat it as
    /// fatal rather than continuing.
    state: Option<Resolution<T>>,
}

impl<T: Operation> Later<T> {
    /// Structural validity: the container holds a resolution state. The
    /// constructor establishes this and every method preserves it, so every
    /// container a caller can ever hold satisfies it.
    pub closed spec fn wf(&self) -> bool {
        self.state is Some
    }

    /// The value this container is bound to yield: the cached value once
    /// resolved, otherwise the driven operation's eventual result.
    pub closed spec fn value_spec(&self) -> T::Output {
        self.state->0.value()
    }

    /// Whether the value has been computed and cached.
    pub closed spec fn is_resolved(&self) -> bool {
        self.state->0.is_resolved()
    }

    /// What one resolving access does to a container: afterwards it is
    /// resolved, its value is unchanged, the result read is exactly that
    /// value — and a container that was already resolved is left untouched,
    /// so at most the first access does any driving.
    pub open spec fn resolves_to(pre: Self, post: Self, r: T::Output) -> bool {
        &&& post.wf()
        &&& post.is_resolved()
        &&& r == pre.value_spec()
        &&& post.value_spec() == pre.value_spec()
        &&& pre.is_resolved() ==> post == pre
    }

    /// What construction from an operation yields: a container bound to the
    /// operation's eventual result, already resolved if the operation was
    /// ready at the first query.
    pub open spec fn fresh_from(self, op: T) -> bool {
        &&& self.wf()
        &&& self.value_spec() == op.result()
        &&& op.ready() ==> self.is_resolved()
    }

    /// Creates a container for the operation's eventual result and
    /// immediately performs one non-blocking readiness check, so that an
    /// operation that is already complete resolves here and no later access
    /// ever blocks.
    pub fn new(op: T) -> (l: Later<T>)
        ensures
            l.fresh_from(op),
    {
        Later { state: Some(Driver::new(op).drive_once()) }
    }

    /// Ensures the resolution cell holds a computed value, driving the
    /// operation to completion — blocking the calling thread — if it has not
    /// delivered yet. An already resolved container is left untouched.
    fn resolve(&mut self)
        requires
            old(self).wf(),
        ensures
            Self::resolves_to(*old(self), *final(self), final(self).value_spec()),
    {
        match self.state.take() {
            Some(Resolution::Driving(driver)) => {
                let value = driver.drive_to_completion();
                self.state = Some(Resolution::Resolved(value));
            },
            Some(Resolution::Resolved(value)) => {
                self.state = Some(Resolution::Resolved(value));
            },
            None => unreached(),
        }
    }

    /// Returns a reference to the operation's result, driving the operation
    /// to completion first if needed. Only the first access on a container
    /// whose operation was not already ready blocks; afterwards the cached
    /// value is handed out directly.
    pub fn read(&mut self) -> (r: &T::Output)
        requires
            old(self).wf(),
        ensures
            Self::resolves_to(*old(self), *final(self), *r),
    {
        self.resolve();
        match &self.state {
            Some(Resolution::Resolved(value)) => value,
            _ => unreached(),
        }
    }

    /// Returns a mutable reference to the operation's result, driving the
    /// operation to completion first if needed. Writing through the
    /// reference changes the cached value that every later access sees.
    pub fn read_mut(&mut self) -> (r: &mut T::Output)
        requires
            old(self).wf(),
        ensures
            *r == old(self).value_spec(),
            final(self).wf(),
            final(self).is_resolved(),
            final(self).value_spec() == *final(r),
    {
        self.resolve();
        match &mut self.state {
            Some(Resolution::Resolved(value)) => value,
            _ => unreached(),
        }
    }

    /// Consumes the container and returns the operation's result, driving
    /// the operation to completion first if it has not delivered yet.
    pub fn into_inner(self) -> (r: T::Output)
        requires
            self.wf(),
        ensures
            r == self.value_spec(),
    {
        match self.state {
            Some(resolution) => resolution.into_value(),
            None => unreached(),
        }
    }
}

impl<T: Operation> Later<T> where T::Output: Clone {
    /// What one duplicating access does to a container: afterwards it is
    /// resolved and its value unchanged — untouched if it was already
    /// resolved — and the result is a duplicate of that value.
    pub open spec fn duplicates_to(pre: Self, post: Self, r: T::Output) -> bool {
        &&& post.wf()
        &&& post.is_resolved()
        &&& cloned(pre.value_spec(), r)
        &&& post.value_spec() == pre.value_spec()
        &&& pre.is_resolved() ==> post == pre
    }

    /// Returns a duplicate of the operation's result, driving the operation
    /// to completion first if needed. The container keeps the resolved value
    /// for future accesses; in particular, once resolved the operation is
    /// gone from the container, so no access can ever query it again.
    pub fn get(&mut self) -> (r: T::Output)
        requires
            old(self).wf(),
        ensures
            Self::duplicates_to(*old(self), *final(self), r),
    {
        self.resolve();
        match &self.state {
            Some(Resolution::Resolved(value)) => value.clone(),
            _ => unreached(),
        }
    }
}

} // verus!
