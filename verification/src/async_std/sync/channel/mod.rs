//! Channel implementations: a bounded multi-producer multi-consumer queue
//! and a oneshot channel.

pub mod error;
pub mod mp;
pub mod mpmc;
pub mod mpsc;
pub mod oneshot;


use vstd::prelude::*;
use self::error::{RecvError, SendError};

verus! {

impl RecvError {
    /// The error for a receive that found nothing: `Closed` when the channel
    /// is closed, else `Empty`
    #[must_use]
    pub fn new(closed: bool) -> (r: Self)
        ensures
            r == (if closed { RecvError::Closed } else { RecvError::Empty }),
    {
        if closed {
            Self::Closed
        } else {
            Self::Empty
        }
    }
}

impl<T> SendError<T> {
    /// The error for a send that could not store `value`: `Closed` when the
    /// channel is closed, else `Full`
    #[must_use]
    pub fn new(value: T, closed: bool) -> (r: Self)
        ensures
            r == (if closed { SendError::Closed(value) } else { SendError::Full(value) }),
    {
        if closed {
            Self::Closed(value)
        } else {
            Self::Full(value)
        }
    }
}

} // verus!
