//! A one-time initialization handshake between threads.
//!
//! One thread claims the right to initialize, does its work, and announces
//! that it is done; any number of other threads wait for the announcement.
//! All of them hold copies of one [`ThreadHandle`], which share a single
//! status cell behind a lock.
//!
//! * [`status`] is the status itself and its transitions.
//! * [`history`] states what holds of every sequence of operations on one
//!   cell, in the order in which the lock admits them.
//! * [`cell`] is the boundary to `std::sync`: what is assumed of the lock and
//!   of the condition variable, and not proved.
//! * [`thread_handle`] is the handle, and the critical section in which each
//!   of its operations runs.
//!
//! Every operation returns. A poisoned lock comes back as [`LockPoisoned`],
//! and waiting is offered one round at a time: a waiter calls
//! [`ThreadHandle::poll_thread_up`] until it says that the thread is up.

pub mod cell;
pub mod history;
pub mod status;
pub mod thread_handle;

pub use crate::history::Operation;
pub use crate::status::ThreadStatus;
pub use crate::thread_handle::LockPoisoned;
pub use crate::thread_handle::POLL_INTERVAL_MILLIS;
pub use crate::thread_handle::ThreadHandle;
