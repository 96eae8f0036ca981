use vstd::prelude::*;

verus! {

/// The error returned from a call to `recv`
#[derive(Clone, Copy, Debug, PartialEq, Eq, Structural)]
pub enum RecvError {
    /// The channel is currently empty
    Empty,
    /// The channel is closed
    Closed,
}

/// The error returned from a call to `send`; it hands the value back
#[derive(Debug, PartialEq, Eq)]
pub enum SendError<T> {
    /// The channel is currently full
    Full(T),
    /// The channel is closed
    Closed(T),
}

pub type RecvResult<T> = Result<T, RecvError>;

pub type SendResult<T> = Result<(), SendError<T>>;

} // verus!
