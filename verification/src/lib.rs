//! A deferred-evaluation wrapper around an asynchronous operation.
//!
//! [`Later`] holds the eventual result of a pending [`Operation`]. The
//! operation is started eagerly — construction performs one non-blocking
//! readiness query — but the caller's thread blocks only when the value is
//! first needed. Once observed, the result is cached and every later access
//! returns it without touching the operation again.
//!
//! The pieces, bottom up:
//! - [`Operation`]: the contract an asynchronous unit of work presents —
//!   a repeatable readiness query plus a promise to signal a supplied
//!   [`NotifyHandle`] once it becomes ready.
//! - [`Synchronizer`]: a single-use wake/wait handshake built from a
//!   mutex-guarded flag and a condition variable.
//! - [`Driver`]: drives one operation to completion, blocking on the
//!   synchronizer between readiness queries.
//! - [`Later`]: the caller-facing container that memoizes the result.
//!
//! A single `Later` must be owned and driven by one thread; only the
//! signalling side — a [`NotifyHandle`] — may be touched from another
//! thread.

pub mod sync;
pub mod operation;
pub mod driver;
pub mod later;
pub mod laws;

pub use sync::NotifyHandle;
pub use sync::Synchronizer;
pub use operation::Operation;
pub use operation::Progress;
pub use operation::Immediate;
pub use operation::Countdown;
pub use driver::Driver;
pub use driver::Resolution;
pub use later::Later;
