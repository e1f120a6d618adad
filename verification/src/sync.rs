//! The wake/wait handshake between the thread that waits for an operation's
//! result and the agent that completes the operation.
//!
//! A [`Synchronizer`] owns a boolean "notified" flag behind a mutex together
//! with a condition variable. [`Synchronizer::block`] suspends the calling
//! thread until the flag has been set, re-checking it after every wakeup so
//! that a spurious wakeup never lets the caller through early.
//! [`Synchronizer::signal`] sets the flag and wakes the blocked thread; it is
//! idempotent, and a signal that arrives before `block` is ever called is not
//! lost, because `block` reads the flag before suspending.
//!
//! The flag lives in concurrently shared state, so no contract could pin its
//! value at a given moment; `block` and `signal` are trusted primitives, and
//! everything above them — who registers, who may block, when the result may
//! be read — is verified code.

use std::sync::Arc;
use std::sync::Condvar;
use std::sync::Mutex;
use vstd::prelude::*;

verus! {

#[verifier::external_type_specification]
#[verifier::external_body]
#[verifier::reject_recursive_types(T)]
pub struct ExMutex<T: ?Sized>(Mutex<T>);

#[verifier::external_type_specification]
#[verifier::external_body]
pub struct ExCondvar(Condvar);

/// The flag value a mutex was created holding. Only creation is named: what
/// the flag holds later is concurrently shared state, which no contract
/// could pin.
pub uninterp spec fn flag_created_with(m: Mutex<bool>) -> bool;

/// Relies on std::sync::Mutex::new: creates the mutex that guards the
/// notification flag, holding the given initial value.
#[verifier::external_body]
fn flag_mutex_new(initial: bool) -> (m: Mutex<bool>)
    ensures
        flag_created_with(m) == initial,
{
    Mutex::new(initial)
}

/// Relies on std::sync::Condvar::new: creates the condition variable used to
/// suspend and wake the waiting thread.
#[verifier::external_body]
fn condvar_new() -> Condvar {
    Condvar::new()
}

/// Relies on std::sync::Arc::clone: the returned handle refers to the same
/// synchronizer allocation as the argument, so a signal through either copy
/// wakes the thread blocked on that synchronizer.
#[verifier::external_body]
fn share_synchronizer(sync: &Arc<Synchronizer>) -> (r: Arc<Synchronizer>)
    ensures
        *r == **sync,
{
    Arc::clone(sync)
}

/// The single-use wake/wait primitive coordinating one blocking observer
/// with one signalling worker.
///
/// One synchronizer serves one driving cycle: it is created together with a
/// [`crate::driver::Driver`] and dropped once the operation completes.
pub struct Synchronizer {
    /// True once `signal` has run. Starts false.
    notified: Mutex<bool>,
    /// Wakes the thread suspended in `block`.
    wakeup: Condvar,
}

impl Synchronizer {
    /// The notification flag was created unset: until the first signal,
    /// [`Synchronizer::block`] suspends rather than returning.
    pub closed spec fn starts_unnotified(&self) -> bool {
        !flag_created_with(self.notified)
    }

    /// Creates a synchronizer whose flag starts unset: no signal has
    /// occurred yet.
    pub fn new() -> (r: Synchronizer)
        ensures
            r.starts_unnotified(),
    {
        Synchronizer { notified: flag_mutex_new(false), wakeup: condvar_new() }
    }

    /// Produces a notification handle bound to this synchronizer. Signalling
    /// the handle wakes the thread currently or subsequently suspended in
    /// [`Synchronizer::block`].
    ///
    /// A caller that obtained a handle during a pending readiness query must
    /// perform (or have the driver perform) another non-blocking check before
    /// suspending, so that a signal delivered in between is not missed.
    pub fn register(sync: &Arc<Synchronizer>) -> (r: NotifyHandle)
        ensures
            r.bound_sync() == **sync,
    {
        NotifyHandle { sync: share_synchronizer(sync) }
    }

    /// Suspends the calling thread until a signal has occurred since this
    /// synchronizer's creation.
    ///
    /// Relies on std::sync::Mutex::lock and std::sync::Condvar::wait. The
    /// flag is read under the lock before the first suspension, so a signal
    /// that happened earlier is observed immediately; suspending releases the
    /// lock and reacquiring it rereads the flag, so a spurious wakeup
    /// re-suspends instead of returning. The wakeup loop admits no
    /// termination measure — spurious wakeups are unbounded, and the flag is
    /// written by another thread — so the whole handshake stands here as one
    /// trusted primitive. A poisoned lock still hands its guard out, so this
    /// never panics.
    #[verifier::external_body]
    pub fn block(&self) {
        let mut guard = match self.notified.lock() {
            Ok(guard) => guard,
            Err(poisoned) => poisoned.into_inner(),
        };
        while !*guard {
            guard = match self.wakeup.wait(guard) {
                Ok(reacquired) => reacquired,
                Err(poisoned) => poisoned.into_inner(),
            };
        }
    }

    /// Records that the awaited event has happened and wakes the blocked
    /// thread, if any.
    ///
    /// Relies on std::sync::Mutex::lock and std::sync::Condvar::notify_one:
    /// the flag is set under the same lock `block` reads it under, and the
    /// wake is sent afterwards, so a blocked thread either was already past
    /// its flag check — then the wake reaches it — or will see the flag set
    /// before it suspends. Safe to call from a thread other than the blocked
    /// one, and idempotent: further calls find the flag already set and wake
    /// nobody new. A poisoned lock still hands its guard out, so this never
    /// panics.
    #[verifier::external_body]
    pub fn signal(&self) {
        let mut guard = match self.notified.lock() {
            Ok(guard) => guard,
            Err(poisoned) => poisoned.into_inner(),
        };
        *guard = true;
        self.wakeup.notify_one();
    }
}

/// The token an operation uses to signal that a further readiness query
/// would now find the result.
///
/// Handles may be duplicated and moved to whatever agent completes the
/// operation; every copy signals the same synchronizer.
#[derive(Clone)]
pub struct NotifyHandle {
    sync: Arc<Synchronizer>,
}

impl NotifyHandle {
    /// The synchronizer this handle signals: the one it was registered with.
    pub closed spec fn bound_sync(&self) -> Synchronizer {
        *self.sync
    }

    /// Wakes the thread waiting on the synchronizer this handle was
    /// registered with. Idempotent, like [`Synchronizer::signal`].
    pub fn notify(&self) {
        self.sync.signal();
    }
}

} // verus!
