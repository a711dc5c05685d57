//! Lets futures bring their own event polling to whatever runs them.
//!
//! There are two sides to it.
//! - A future that has to poll for events on the thread that runs it asks its
//!   context for a [`TopLevelPoller`] with [`get_poller`], and registers a
//!   [`WakerWaiter`] on it with [`TopLevelPoller::set_waiter`].
//! - Whatever polls top-level futures implements [`TopLevelPoller`] and puts
//!   itself into the context by way of an [`Anyable`]. [`executor`] holds the
//!   decisions of one that blocks on a single future.
//!
//! Only one [`WakerWaiter`] can be registered on a [`TopLevelPoller`]. Futures
//! that rely on the same event polling share one.
mod canceler;
pub mod ctx_ref;
mod error;
pub mod executor;
mod poller;
mod std_calls;
mod stock;
mod waiter;

pub use canceler::{
    raw_canceler_at, CancelerFns, RawCanceler, RawCancelerVTable, WakerWaiterCancel,
    WakerWaiterCanceler,
};
pub use ctx_ref::Anyable;
pub use error::{SetLocalWaiterError, SetWaiterError};
pub use poller::{get_poller, into_poller, TopLevelPoller};
pub use waiter::{
    raw_waiter_at, LocalWakerWaiter, RawWaiter, RawWaiterVTable, WaiterFns, WakerWait, WakerWaiter,
};
