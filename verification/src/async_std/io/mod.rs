//! The async equivalent of `std::io`: the buffer bookkeeping is verified here,
//! the actual reads and writes are performed by the caller.

pub mod buf_reader;
pub mod buf_writer;
pub mod read;
pub mod seek;
pub mod typed;

use vstd::prelude::*;
use vstd::slice::SliceAdditionalExecFns;

verus! {

/// The default buffer size (16 KiB) for buffered I/O
pub const DEFAULT_BUFFER_SIZE: usize = 0x4000;

/// Enumeration of possible methods to seek within a stream
#[derive(Clone, Copy, Debug, PartialEq, Eq, Structural)]
pub enum SeekFrom {
    Start(u64),
    End(i64),
    Current(i64),
}

/// Checks that `len <= buf.len()`, returning `len`.
///
/// Useful for callers of read/write functions to prevent overflow by ensuring
/// that the underlying implementation returns valid byte counts.
/// A length beyond the buffer is a bug in the implementation and is not
/// accepted.
pub fn length_check(buf: &[u8], len: usize) -> (r: usize)
    requires
        len <= buf@.len(),
    ensures
        r == len,
{
    len
}

/// The total length of the first `k` buffers
pub open spec fn prefix_len(lens: Seq<usize>, k: int) -> int
    decreases k,
{
    if k <= 0 {
        0
    } else {
        prefix_len(lens, k - 1) + lens[k - 1]
    }
}

/// Advance a list of buffers, given by their lengths, by `amount` bytes:
/// returns how many buffers are used up and by how much the next one is
/// advanced. `amount` must not exceed the buffers' total length.
pub fn advance_slices(lens: &[usize], amount: usize) -> (r: (usize, usize))
    requires
        amount <= prefix_len(lens@, lens@.len() as int),
    ensures
        r.0 <= lens@.len(),
        prefix_len(lens@, r.0 as int) <= amount,
        r.1 == amount - prefix_len(lens@, r.0 as int),
        r.0 < lens@.len() ==> r.1 < lens@[r.0 as int],
        r.0 == lens@.len() ==> r.1 == 0,
{
    let mut remove: usize = 0;
    let mut left: usize = amount;
    while remove < lens.len()
        invariant
            remove <= lens@.len(),
            prefix_len(lens@, remove as int) + left == amount,
            amount <= prefix_len(lens@, lens@.len() as int),
        decreases lens@.len() - remove,
    {
        if left < lens[remove] {
            return (remove, left);
        }
        left = left - lens[remove];
        remove = remove + 1;
    }
    proof {
        assert(remove == lens@.len());
    }
    (remove, left)
}

/// [`advance_slices`] for buffers that are written to
pub fn advance_slices_mut(lens: &[usize], amount: usize) -> (r: (usize, usize))
    requires
        amount <= prefix_len(lens@, lens@.len() as int),
    ensures
        r.0 <= lens@.len(),
        prefix_len(lens@, r.0 as int) <= amount,
        r.1 == amount - prefix_len(lens@, r.0 as int),
        r.0 < lens@.len() ==> r.1 < lens@[r.0 as int],
        r.0 == lens@.len() ==> r.1 == 0,
{
    advance_slices(lens, amount)
}

/// What one read or write of the underlying stream gave
#[derive(Clone, Copy, Debug, PartialEq, Eq, Structural)]
pub enum IoOutcome {
    /// That many bytes were moved; zero is the end of the stream
    Moved(usize),
    /// The task was interrupted
    Interrupted,
    /// Any other error
    Failed,
}

/// What a whole-buffer transfer does next
#[derive(Clone, Copy, Debug, PartialEq, Eq, Structural)]
pub enum TransferNext {
    /// Move the bytes from this offset to the end
    Continue(usize),
    /// Stop, having moved this many bytes
    Stop(usize),
    /// Fail with the stream's error
    Fail,
}

/// Moving a whole buffer of `len` bytes by repeated reads or writes until it
/// is done, the stream ends, or the task is interrupted
#[derive(Clone, Copy, Debug, PartialEq, Eq, Structural)]
pub struct Transfer {
    pub moved: usize,
    pub len: usize,
}

impl Transfer {
    /// A transfer of `len` bytes, none moved yet
    pub fn new(len: usize) -> (t: Self)
        ensures
            t.moved == 0,
            t.len == len,
    {
        Transfer { moved: 0, len }
    }

    /// The first step: an empty buffer is done at once
    pub fn start(&self) -> (next: TransferNext)
        requires
            self.moved <= self.len,
        ensures
            self.moved < self.len ==> next == TransferNext::Continue(self.moved),
            self.moved >= self.len ==> next == TransferNext::Stop(self.moved),
    {
        if self.moved < self.len {
            TransferNext::Continue(self.moved)
        } else {
            TransferNext::Stop(self.moved)
        }
    }

    /// Record what the last read or write gave. A stream never reports more
    /// bytes than it was given.
    pub fn record(&mut self, outcome: IoOutcome) -> (next: TransferNext)
        requires
            old(self).moved < old(self).len,
            outcome matches IoOutcome::Moved(n) ==> n <= old(self).len - old(self).moved,
        ensures
            final(self).len == old(self).len,
            final(self).moved <= final(self).len,
            match outcome {
                IoOutcome::Moved(n) => if n == 0 {
                    final(self).moved == old(self).moved && next == TransferNext::Stop(old(self).moved)
                } else {
                    &&& final(self).moved == old(self).moved + n
                    &&& final(self).moved < final(self).len ==> next == TransferNext::Continue(final(self).moved)
                    &&& final(self).moved == final(self).len ==> next == TransferNext::Stop(final(self).moved)
                },
                IoOutcome::Interrupted => final(self).moved == old(self).moved && next
                    == TransferNext::Stop(old(self).moved),
                IoOutcome::Failed => final(self).moved == old(self).moved && next == TransferNext::Fail,
            },
    {
        match outcome {
            IoOutcome::Moved(n) => {
                if n == 0 {
                    return TransferNext::Stop(self.moved);
                }
                self.moved = self.moved + n;
                self.start()
            },
            IoOutcome::Interrupted => TransferNext::Stop(self.moved),
            IoOutcome::Failed => TransferNext::Fail,
        }
    }
}

/// A transfer that had to move everything moved less
#[derive(Clone, Copy, Debug, PartialEq, Eq, Structural)]
pub struct ShortTransfer;

/// Judge a transfer that had to move all `len` bytes and moved `moved`
pub fn require_full(moved: usize, len: usize) -> (r: Result<usize, ShortTransfer>)
    requires
        moved <= len,
    ensures
        moved < len ==> r == Err::<usize, ShortTransfer>(ShortTransfer),
        moved == len ==> r == Ok::<usize, ShortTransfer>(moved),
{
    if moved < len {
        return Err(ShortTransfer);
    }
    Ok(moved)
}

/// The first non-empty buffer of a vectored read or write, by index
pub fn first_nonempty(lens: &[usize]) -> (r: Option<usize>)
    ensures
        match r {
            Some(i) => i < lens@.len() && lens@[i as int] > 0 && forall|j: int| 0 <= j < i ==> lens@[j] == 0,
            None => forall|j: int| 0 <= j < lens@.len() ==> lens@[j] == 0,
        },
{
    let mut i: usize = 0;
    while i < lens.len()
        invariant
            i <= lens@.len(),
            forall|j: int| 0 <= j < i ==> lens@[j] == 0,
        decreases lens@.len() - i,
    {
        if lens[i] > 0 {
            return Some(i);
        }
        i = i + 1;
    }
    None
}

/// Copy as many bytes of `src` as fit into the front of `dst`; returns the
/// number copied
pub fn read_into_slice(dst: &mut [u8], src: &[u8]) -> (n: usize)
    ensures
        n == if old(dst)@.len() < src@.len() { old(dst)@.len() } else { src@.len() },
        final(dst)@ == src@.subrange(0, n as int) + old(dst)@.subrange(n as int, old(dst)@.len() as int),
{
    let n = if dst.len() < src.len() { dst.len() } else { src.len() };
    let mut i: usize = 0;
    while i < n
        invariant
            n <= dst@.len(),
            n <= src@.len(),
            i <= n,
            dst@.len() == old(dst)@.len(),
            forall|j: int| 0 <= j < i ==> #[trigger] dst@[j] == src@[j],
            forall|j: int| i <= j < dst@.len() ==> #[trigger] dst@[j] == old(dst)@[j],
        decreases n - i,
    {
        dst[i] = src[i];
        i = i + 1;
    }
    proof {
        assert(dst@ =~= src@.subrange(0, n as int) + old(dst)@.subrange(n as int, old(dst)@.len() as int));
    }
    n
}

/// `Vec::capacity`: how many bytes the vector can hold without
/// reallocating, which is at least its length and, for bytes, at most
/// `isize::MAX`
#[verifier::external_body]
pub(crate) fn vec_capacity(v: &Vec<u8>) -> (c: usize)
    ensures
        c >= v@.len(),
        c <= isize::MAX,
{
    v.capacity()
}

} // verus!
