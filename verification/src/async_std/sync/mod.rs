//! Synchronization primitives for async tasks. Waiting tasks are named by
//! the caller with a `u64` waiter id; every wake-up a primitive decides is
//! recorded as a completion `(id, result)` that the runtime delivers.

pub mod broadcast;
pub mod channel;
pub mod mutex;
pub mod notify;
pub mod wait_list;
