//! The async equivalent of `std::io::BufWriter`: the buffer bookkeeping.
//! Writes to the underlying writer are done by the caller, who reports how
//! much was written.

use vstd::prelude::*;
use super::{vec_capacity, DEFAULT_BUFFER_SIZE};

verus! {

/// A buffered writer: `data` holds the buffer, `start..end` the bytes not yet
/// written to the underlying writer
pub struct BufWriter<W> {
    data: Vec<u8>,
    start: usize,
    end: usize,
    writer: W,
}

/// What a write to a [`BufWriter`] needs
#[derive(Clone, Copy, Debug, PartialEq, Eq, Structural)]
pub enum WriteStep {
    /// Copy into the buffer with [`BufWriter::write_buffered`]
    Buffered,
    /// Flush the buffer, then write directly to the underlying writer
    FlushThenDirect,
    /// Flush the buffer, then copy into it
    FlushThenBuffered,
}

/// The underlying writer accepted zero bytes while flushing
#[derive(Clone, Copy, Debug, PartialEq, Eq, Structural)]
pub struct WriteZero;

impl<W> BufWriter<W> {
    pub closed spec fn wf(&self) -> bool {
        &&& self.start <= self.end <= self.data@.len()
        &&& self.data@.len() <= isize::MAX
    }

    /// The bytes waiting to be written
    pub closed spec fn pending(&self) -> Seq<u8> {
        self.data@.subrange(self.start as int, self.end as int)
    }

    pub closed spec fn capacity_spec(&self) -> nat {
        self.data@.len()
    }

    pub closed spec fn start_spec(&self) -> nat {
        self.start as nat
    }

    pub closed spec fn end_spec(&self) -> nat {
        self.end as nat
    }

    pub closed spec fn data_spec(&self) -> Seq<u8> {
        self.data@
    }

    pub closed spec fn writer_spec(&self) -> W {
        self.writer
    }

    /// Discard all buffered data
    fn discard(&mut self)
        requires
            old(self).wf(),
        ensures
            final(self).wf(),
            final(self).pending().len() == 0,
            final(self).start_spec() == 0,
            final(self).end_spec() == 0,
            final(self).data_spec() == old(self).data_spec(),
            final(self).writer_spec() == old(self).writer_spec(),
    {
        self.start = 0;
        self.end = 0;
    }

    /// The room left after the buffered bytes
    pub fn spare_capacity(&self) -> (r: usize)
        requires
            self.wf(),
        ensures
            r == self.capacity_spec() - self.end_spec(),
    {
        self.data.len() - self.end
    }

    /// Copy as much of `buf` as fits into the buffer; returns the number of
    /// bytes taken
    pub fn write_buffered(&mut self, buf: &[u8]) -> (n: usize)
        requires
            old(self).wf(),
        ensures
            final(self).wf(),
            n == if buf@.len() < old(self).capacity_spec() - old(self).end_spec() {
                buf@.len()
            } else {
                (old(self).capacity_spec() - old(self).end_spec()) as nat
            },
            final(self).pending() == old(self).pending() + buf@.subrange(0, n as int),
            final(self).start_spec() == old(self).start_spec(),
            final(self).end_spec() == old(self).end_spec() + n,
            final(self).capacity_spec() == old(self).capacity_spec(),
            final(self).writer_spec() == old(self).writer_spec(),
    {
        let spare = self.data.len() - self.end;
        let n = if buf.len() < spare { buf.len() } else { spare };
        let end = self.end;
        let mut i: usize = 0;
        while i < n
            invariant
                end == old(self).end,
                end + n <= self.data@.len(),
                n <= buf@.len(),
                self.data@.len() == old(self).data@.len(),
                self.data@.len() <= isize::MAX,
                i <= n,
                forall|j: int| 0 <= j < end ==> #[trigger] self.data@[j] == old(self).data@[j],
                forall|j: int| 0 <= j < i ==> #[trigger] self.data@[end + j] == buf@[j],
                self.start == old(self).start,
                self.end == old(self).end,
                self.writer == old(self).writer,
            decreases n - i,
        {
            self.data.set(end + i, buf[i]);
            i = i + 1;
        }
        self.end = end + n;
        proof {
            assert forall|k: int| 0 <= k < self.pending().len() implies #[trigger] self.pending()[k]
                == (old(self).pending() + buf@.subrange(0, n as int))[k] by {
                if self.start + k >= end {
                    let j = self.start + k - end;
                    assert(self.data@[end + j] == buf@[j]);
                }
            }
            assert(self.pending() =~= old(self).pending() + buf@.subrange(0, n as int));
        }
        n
    }

    /// The underlying writer took `wrote` bytes of the pending ones. Zero is
    /// an error; once everything is written the buffer is reset.
    pub fn finish_flush_write(&mut self, wrote: usize) -> (r: Result<(), WriteZero>)
        requires
            old(self).wf(),
            old(self).pending().len() > 0,
            wrote <= old(self).pending().len(),
        ensures
            final(self).wf(),
            wrote == 0 ==> r is Err && *final(self) == *old(self),
            wrote != 0 ==> r is Ok && final(self).pending() == old(self).pending().subrange(
                wrote as int,
                old(self).pending().len() as int,
            ),
            wrote == old(self).pending().len() ==> final(self).start_spec() == 0 && final(self).end_spec() == 0,
            final(self).data_spec() == old(self).data_spec(),
            final(self).writer_spec() == old(self).writer_spec(),
    {
        if wrote == 0 {
            return Err(WriteZero);
        }
        self.start = self.start + wrote;
        if self.start == self.end {
            self.discard();
        }
        proof {
            assert(self.pending() =~= old(self).pending().subrange(
                wrote as int,
                old(self).pending().len() as int,
            ));
        }
        Ok(())
    }

    /// The bytes waiting to be written
    pub fn buffered(&self) -> (r: &[u8])
        requires
            self.wf(),
        ensures
            r@ == self.pending(),
    {
        vstd::slice::slice_subrange(self.data.as_slice(), self.start, self.end)
    }

    /// Creates a new `BufWriter<W>` with a [`DEFAULT_BUFFER_SIZE`] buffer
    pub fn new(inner: W) -> (r: Self)
        ensures
            r.wf(),
            r.capacity_spec() >= DEFAULT_BUFFER_SIZE,
            r.pending().len() == 0,
            r.start_spec() == 0,
            r.end_spec() == 0,
            r.writer_spec() == inner,
    {
        Self::with_capacity(inner, DEFAULT_BUFFER_SIZE)
    }

    /// Creates a new `BufWriter<W>` with a buffer of at least `capacity`
    /// bytes, which must stay within `isize::MAX`
    pub fn with_capacity(inner: W, capacity: usize) -> (r: Self)
        requires
            capacity <= isize::MAX,
        ensures
            r.wf(),
            r.capacity_spec() >= capacity,
            r.pending().len() == 0,
            r.start_spec() == 0,
            r.end_spec() == 0,
            r.writer_spec() == inner,
    {
        let mut data: Vec<u8> = Vec::with_capacity(capacity);
        let mut size = vec_capacity(&data);
        /* the vector was made with room for at least this much */
        if size < capacity {
            size = capacity;
        }
        data.resize(size, 0);
        let r = Self { writer: inner, data, start: 0, end: 0 };
        assert(r.pending() =~= Seq::<u8>::empty());
        r
    }

    /// Creates a new `BufWriter<W>` from parts: `buf` holds buffered data,
    /// flushing starts at `pos`, which must be at most `buf.len()`.
    pub fn from_parts(writer: W, buf: Vec<u8>, pos: usize) -> (r: Self)
        requires
            pos <= buf@.len(),
        ensures
            r.wf(),
            r.capacity_spec() >= buf@.len(),
            r.data_spec().subrange(0, buf@.len() as int) == buf@,
            r.pending() == buf@.subrange(pos as int, buf@.len() as int),
            r.start_spec() == pos,
            r.end_spec() == buf@.len(),
            r.writer_spec() == writer,
    {
        let mut buf = buf;
        let len = buf.len();
        let cap = vec_capacity(&buf);
        buf.resize(cap, 0);
        let r = Self { writer, data: buf, start: pos, end: len };
        proof {
            assert(r.pending() =~= r.data@.subrange(0, len as int).subrange(pos as int, len as int));
        }
        r
    }

    /// Unwraps this `BufWriter<W>`, returning the underlying writer. Any
    /// buffered data is lost
    pub fn into_inner(self) -> (r: W)
        ensures
            r == self.writer_spec(),
    {
        self.writer
    }

    /// Unwraps this `BufWriter<W>`, returning its parts: the writer, the
    /// buffered data, and the position to start flushing at
    pub fn into_parts(self) -> (r: (W, Vec<u8>, usize))
        requires
            self.wf(),
        ensures
            r.0 == self.writer_spec(),
            r.1@ == self.data_spec().subrange(0, self.end_spec() as int),
            r.2 == self.start_spec(),
    {
        let mut buf = self.data;
        buf.truncate(self.end);
        (self.writer, buf, self.start)
    }

    /// What a write of `buf_len` bytes needs
    pub fn write_step(&self, buf_len: usize) -> (r: WriteStep)
        requires
            self.wf(),
        ensures
            r == (if self.capacity_spec() - self.end_spec() > 0 {
                WriteStep::Buffered
            } else if buf_len >= self.capacity_spec() {
                WriteStep::FlushThenDirect
            } else {
                WriteStep::FlushThenBuffered
            }),
    {
        if self.data.len() - self.end > 0 {
            WriteStep::Buffered
        } else if buf_len >= self.data.len() {
            WriteStep::FlushThenDirect
        } else {
            WriteStep::FlushThenBuffered
        }
    }

    /// Whether reading straight into the buffer needs a flush first (it is full)
    pub fn write_from_needs_flush(&self) -> (r: bool)
        requires
            self.wf(),
        ensures
            r == (self.end_spec() == self.capacity_spec()),
    {
        self.data.len() - self.end == 0
    }

    /// Store `bytes`, read from a reader into the spare room of the buffer.
    /// Returns the number of bytes.
    pub fn finish_read_into_spare(&mut self, bytes: &[u8]) -> (n: usize)
        requires
            old(self).wf(),
            bytes@.len() <= old(self).capacity_spec() - old(self).end_spec(),
        ensures
            final(self).wf(),
            n == bytes@.len(),
            final(self).pending() == old(self).pending() + bytes@,
            final(self).writer_spec() == old(self).writer_spec(),
    {
        let n = self.write_buffered(bytes);
        proof {
            assert(bytes@.subrange(0, n as int) =~= bytes@);
        }
        n
    }

    /// Try to seek `rel` bytes within the buffered bytes: the target must lie
    /// between the start and the end of the buffered bytes, and becomes their
    /// end. Returns `true` when that happened; otherwise nothing changes and
    /// the seek goes to the writer after a flush.
    pub fn seek_relative(&mut self, rel: i64) -> (moved: bool)
        requires
            old(self).wf(),
        ensures
            final(self).wf(),
            moved == (old(self).start_spec() <= old(self).start_spec() + rel <= old(self).end_spec()
                && old(self).start_spec() + rel <= i64::MAX),
            moved ==> final(self).end_spec() == old(self).start_spec() + rel && final(self).start_spec()
                == old(self).start_spec() && final(self).data_spec() == old(self).data_spec(),
            !moved ==> *final(self) == *old(self),
            final(self).writer_spec() == old(self).writer_spec(),
    {
        let pos = rel as i128 + self.start as i128;
        if pos > i64::MAX as i128 {
            return false;
        }
        if pos < self.start as i128 || pos > self.end as i128 {
            return false;
        }
        self.end = pos as usize;
        true
    }

    /// The position in the stream given the writer's position: the writer's
    /// position plus the size of the buffer, which must not overflow.
    pub fn stream_position(&self, inner_pos: u64) -> (r: u64)
        requires
            inner_pos + self.capacity_spec() <= u64::MAX,
        ensures
            r == inner_pos + self.capacity_spec(),
    {
        inner_pos + self.data.len() as u64
    }
}

} // verus!
