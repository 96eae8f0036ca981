//! For now, the same as [`mpmc`](super::mpmc)

pub use super::mpmc::{bounded, Receiver, Sender};
