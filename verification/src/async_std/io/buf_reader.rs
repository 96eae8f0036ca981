//! The async equivalent of `std::io::BufReader`: the buffer bookkeeping.
//! Reads from the underlying reader are done by the caller, who hands the
//! bytes back to the `finish_*` functions.

use vstd::prelude::*;
use super::read::{first_index_of, read_until_step, until_used, Lines};
use super::{read_into_slice, vec_capacity, SeekFrom, DEFAULT_BUFFER_SIZE};

verus! {

/// A buffered reader: `data` holds the buffer, `start..end` the unconsumed
/// bytes
pub struct BufReader<R> {
    reader: R,
    data: Vec<u8>,
    start: usize,
    end: usize,
}

/// What a read from a [`BufReader`] needs
#[derive(Clone, Copy, Debug, PartialEq, Eq, Structural)]
pub enum ReadStep {
    /// Serve from the buffer with [`BufReader::read_into`]
    Buffered,
    /// The caller's buffer is at least as large as ours: read directly from
    /// the underlying reader
    Direct,
    /// Refill the whole buffer first ([`BufReader::finish_fill_buf`]), then
    /// serve from it
    Fill,
}

/// The effect of consuming `count` bytes
pub open spec fn consume_post<R>(before: BufReader<R>, after: BufReader<R>, count: nat) -> bool {
    &&& after.wf()
    &&& after.buffer_spec() == before.buffer_spec().subrange(count as int, before.buffer_spec().len() as int)
    &&& after.position_spec() == before.position_spec() + count
    &&& after.end_spec() == before.end_spec()
    &&& after.data_spec() == before.data_spec()
    &&& after.reader_spec() == before.reader_spec()
}

/// The effect of unconsuming `count` bytes: the bytes before the position
/// are unconsumed again
pub open spec fn unconsume_post<R>(before: BufReader<R>, after: BufReader<R>, count: nat) -> bool {
    &&& after.wf()
    &&& after.position_spec() == before.position_spec() - count
    &&& after.buffer_spec() == before.data_spec().subrange(
        before.position_spec() - count,
        before.position_spec() as int,
    ) + before.buffer_spec()
    &&& after.end_spec() == before.end_spec()
    &&& after.data_spec() == before.data_spec()
    &&& after.reader_spec() == before.reader_spec()
}

/// Unconsuming what was just consumed gives the buffer back: the next read
/// returns the same bytes again
pub proof fn law_consume_then_unconsume<R>(
    r0: BufReader<R>,
    r1: BufReader<R>,
    r2: BufReader<R>,
    count: nat,
)
    requires
        r0.wf(),
        count <= r0.buffer_spec().len(),
        consume_post(r0, r1, count),
        unconsume_post(r1, r2, count),
    ensures
        r2.buffer_spec() == r0.buffer_spec(),
        r2.position_spec() == r0.position_spec(),
{
    r0.lemma_buffer_in_data();
    assert(r2.buffer_spec() =~= r0.buffer_spec());
}

impl<R> BufReader<R> {
    pub closed spec fn wf(&self) -> bool {
        &&& self.start <= self.end <= self.data@.len()
        &&& self.data@.len() <= isize::MAX
    }

    /// The unconsumed bytes
    pub closed spec fn buffer_spec(&self) -> Seq<u8> {
        self.data@.subrange(self.start as int, self.end as int)
    }

    /// The size of the internal buffer
    pub closed spec fn capacity_spec(&self) -> nat {
        self.data@.len()
    }

    /// Where the unconsumed bytes start in the buffer
    pub closed spec fn position_spec(&self) -> nat {
        self.start as nat
    }

    /// Where the unconsumed bytes end in the buffer
    pub closed spec fn end_spec(&self) -> nat {
        self.end as nat
    }

    /// The whole internal buffer
    pub closed spec fn data_spec(&self) -> Seq<u8> {
        self.data@
    }

    pub closed spec fn reader_spec(&self) -> R {
        self.reader
    }

    /// The unconsumed bytes are the data from the position to the end
    pub proof fn lemma_buffer_in_data(&self)
        requires
            self.wf(),
        ensures
            self.buffer_spec() == self.data_spec().subrange(
                self.position_spec() as int,
                self.end_spec() as int,
            ),
            self.position_spec() <= self.end_spec() <= self.data_spec().len(),
    {
    }

    /// Reads from the internal buffer into `buf`; returns the number of bytes
    pub fn read_into(&mut self, buf: &mut [u8]) -> (n: usize)
        requires
            old(self).wf(),
        ensures
            final(self).wf(),
            n == if old(buf)@.len() < old(self).buffer_spec().len() {
                old(buf)@.len()
            } else {
                old(self).buffer_spec().len()
            },
            final(buf)@ == old(self).buffer_spec().subrange(0, n as int) + old(buf)@.subrange(
                n as int,
                old(buf)@.len() as int,
            ),
            final(self).buffer_spec() == old(self).buffer_spec().subrange(
                n as int,
                old(self).buffer_spec().len() as int,
            ),
            final(self).position_spec() == old(self).position_spec() + n,
            final(self).end_spec() == old(self).end_spec(),
            final(self).data_spec() == old(self).data_spec(),
            final(self).reader_spec() == old(self).reader_spec(),
    {
        let src = vstd::slice::slice_subrange(self.data.as_slice(), self.start, self.end);
        let len = read_into_slice(buf, src);
        self.start = self.start + len;
        proof {
            assert(self.buffer_spec() =~= old(self).buffer_spec().subrange(
                len as int,
                old(self).buffer_spec().len() as int,
            ));
        }
        len
    }

    /// Store `bytes`, read from the underlying reader into `start..end` of
    /// the buffer. When something was read, the unconsumed data now ends
    /// after it. Returns the number of bytes read.
    pub fn finish_fill_range(&mut self, start: usize, end: usize, bytes: &[u8]) -> (n: usize)
        requires
            old(self).wf(),
            old(self).position_spec() <= start,
            start <= end <= old(self).capacity_spec(),
            bytes@.len() <= end - start,
        ensures
            final(self).wf(),
            n == bytes@.len(),
            final(self).capacity_spec() == old(self).capacity_spec(),
            final(self).position_spec() == old(self).position_spec(),
            n == 0 ==> final(self).data_spec() == old(self).data_spec() && final(self).end_spec()
                == old(self).end_spec(),
            n != 0 ==> final(self).end_spec() == start + n && final(self).data_spec() == old(
                self,
            ).data_spec().subrange(0, start as int) + bytes@ + old(self).data_spec().subrange(
                start + n,
                old(self).capacity_spec() as int,
            ),
            final(self).reader_spec() == old(self).reader_spec(),
    {
        let n = bytes.len();
        if n == 0 {
            return 0;
        }
        let mut i: usize = 0;
        while i < n
            invariant
                n == bytes@.len(),
                start + n <= self.data@.len(),
                self.data@.len() == old(self).data@.len(),
                self.data@.len() <= isize::MAX,
                i <= n,
                forall|j: int| 0 <= j < start ==> #[trigger] self.data@[j] == old(self).data@[j],
                forall|j: int| 0 <= j < i ==> #[trigger] self.data@[start + j] == bytes@[j],
                forall|j: int| start + n <= j < self.data@.len() ==> #[trigger] self.data@[j] == old(self).data@[j],
                self.start == old(self).start,
                self.end == old(self).end,
                self.reader == old(self).reader,
            decreases n - i,
        {
            self.data.set(start + i, bytes[i]);
            i = i + 1;
        }
        self.end = start + n;
        proof {
            assert forall|k: int| start <= k < start + n implies #[trigger] self.data@[k] == bytes@[k - start] by {
                let j = k - start;
                assert(self.data@[start + j] == bytes@[j]);
            }
            assert(self.data@ =~= old(self).data@.subrange(0, start as int) + bytes@ + old(self).data@.subrange(
                start + n,
                old(self).data@.len() as int,
            ));
        }
        n
    }

    /// Store `bytes`, read from the underlying reader into the whole buffer.
    /// When something was read it becomes the unconsumed data. Returns the
    /// number of bytes read.
    pub fn finish_fill_buf(&mut self, bytes: &[u8]) -> (n: usize)
        requires
            old(self).wf(),
            old(self).buffer_spec().len() == 0,
            bytes@.len() <= old(self).capacity_spec(),
        ensures
            final(self).wf(),
            n == bytes@.len(),
            final(self).capacity_spec() == old(self).capacity_spec(),
            n == 0 ==> final(self).buffer_spec() == old(self).buffer_spec() && final(self).position_spec() == old(self).position_spec(),
            n != 0 ==> final(self).buffer_spec() == bytes@ && final(self).position_spec() == 0,
            final(self).reader_spec() == old(self).reader_spec(),
    {
        let cap = self.data.len();
        let start = self.start;
        // the consumed region is free: fill from the beginning
        self.start = 0;
        let n = self.finish_fill_range(0, cap, bytes);
        if n == 0 {
            self.start = start;
        }
        proof {
            if n != 0 {
                assert(self.buffer_spec() =~= bytes@);
            } else {
                assert(self.buffer_spec() =~= old(self).buffer_spec());
            }
        }
        n
    }

    /// Creates a new `BufReader<R>` with a [`DEFAULT_BUFFER_SIZE`] buffer
    pub fn new(reader: R) -> (r: Self)
        ensures
            r.wf(),
            r.capacity_spec() >= DEFAULT_BUFFER_SIZE,
            r.buffer_spec().len() == 0,
            r.position_spec() == 0,
            r.end_spec() == 0,
            r.reader_spec() == reader,
    {
        Self::with_capacity(reader, DEFAULT_BUFFER_SIZE)
    }

    /// Creates a new `BufReader<R>` with a buffer of at least `capacity` bytes
    /// (the allocator may give more), which must stay within `isize::MAX`
    pub fn with_capacity(reader: R, capacity: usize) -> (r: Self)
        requires
            capacity <= isize::MAX,
        ensures
            r.wf(),
            r.capacity_spec() >= capacity,
            r.buffer_spec().len() == 0,
            r.position_spec() == 0,
            r.end_spec() == 0,
            r.reader_spec() == reader,
    {
        let mut data: Vec<u8> = Vec::with_capacity(capacity);
        let mut size = vec_capacity(&data);
        /* the vector was made with room for at least this much */
        if size < capacity {
            size = capacity;
        }
        data.resize(size, 0);
        let r = Self { reader, data, start: 0, end: 0 };
        assert(r.buffer_spec() =~= Seq::<u8>::empty());
        r
    }

    /// Creates a new `BufReader<R>` from parts: `buf` holds buffered data and
    /// reading continues at `pos`. The buffer grows to the vector's capacity.
    /// `pos` must be at most `buf.len()`.
    pub fn from_parts(reader: R, buf: Vec<u8>, pos: usize) -> (r: Self)
        requires
            pos <= buf@.len(),
        ensures
            r.wf(),
            r.capacity_spec() >= buf@.len(),
            r.data_spec().subrange(0, buf@.len() as int) == buf@,
            r.position_spec() == pos,
            r.end_spec() == buf@.len(),
            r.buffer_spec() == buf@.subrange(pos as int, buf@.len() as int),
            r.reader_spec() == reader,
    {
        let mut buf = buf;
        let len = buf.len();
        let cap = vec_capacity(&buf);
        buf.resize(cap, 0);
        let r = Self { reader, data: buf, start: pos, end: len };
        proof {
            assert(r.buffer_spec() =~= r.data@.subrange(0, len as int).subrange(pos as int, len as int));
        }
        r
    }

    /// The lines of this reader, read one by one
    pub fn lines(self) -> (l: Lines<Self>)
        ensures
            l.0 == self,
    {
        Lines::new(self)
    }

    /// Unwraps this `BufReader<R>`, returning the underlying reader. Any
    /// buffered data is lost
    pub fn into_inner(self) -> (r: R)
        ensures
            r == self.reader_spec(),
    {
        self.reader
    }

    /// The underlying reader
    pub fn inner(&mut self) -> (r: &mut R)
        ensures
            *r == old(self).reader_spec(),
            final(self).reader_spec() == *final(r),
            final(self).data_spec() == old(self).data_spec(),
            final(self).position_spec() == old(self).position_spec(),
            final(self).end_spec() == old(self).end_spec(),
    {
        &mut self.reader
    }

    /// Unwraps this `BufReader<R>`, returning its parts: the reader, the
    /// buffered data, and the position to continue reading at
    pub fn into_parts(self) -> (r: (R, Vec<u8>, usize))
        requires
            self.wf(),
        ensures
            r.0 == self.reader_spec(),
            r.1@ == self.data_spec().subrange(0, self.end_spec() as int),
            r.2 == self.position_spec(),
    {
        let mut buf = self.data;
        buf.truncate(self.end);
        (self.reader, buf, self.start)
    }

    /// Shift the unconsumed bytes to the beginning of the buffer, making
    /// room for more without discarding anything
    pub fn move_data_to_beginning(&mut self)
        requires
            old(self).wf(),
        ensures
            final(self).wf(),
            final(self).buffer_spec() == old(self).buffer_spec(),
            final(self).capacity_spec() == old(self).capacity_spec(),
            old(self).position_spec() == 0 ==> *final(self) == *old(self),
            old(self).position_spec() != 0 ==> final(self).position_spec() == 0,
            final(self).reader_spec() == old(self).reader_spec(),
    {
        if self.start == 0 {
            return;
        }
        let len = self.end - self.start;
        if len == 0 {
            self.discard();
        } else {
            let mut i: usize = 0;
            let start = self.start;
            while i < len
                invariant
                    start == old(self).start,
                    len == old(self).end - old(self).start,
                    old(self).end <= self.data@.len(),
                    self.data@.len() == old(self).data@.len(),
                    0 < start,
                    i <= len,
                    forall|j: int| 0 <= j < i ==> #[trigger] self.data@[j] == old(self).data@[start + j],
                    forall|j: int| i <= j < self.data@.len() ==> #[trigger] self.data@[j] == old(self).data@[j],
                    self.reader == old(self).reader,
                decreases len - i,
            {
                let b = self.data[start + i];
                self.data.set(i, b);
                i = i + 1;
            }
            self.start = 0;
            self.end = len;
            proof {
                assert(self.buffer_spec() =~= old(self).buffer_spec());
            }
        }
    }

    /// The current position in the buffer
    pub fn position(&self) -> (r: usize)
        ensures
            r == self.position_spec(),
    {
        self.start
    }

    /// What a read into a buffer of `buf_len` bytes needs
    pub fn read_step(&self, buf_len: usize) -> (r: ReadStep)
        requires
            self.wf(),
        ensures
            r == (if self.buffer_spec().len() > 0 {
                ReadStep::Buffered
            } else if buf_len >= self.capacity_spec() {
                ReadStep::Direct
            } else {
                ReadStep::Fill
            }),
    {
        if self.end > self.start {
            ReadStep::Buffered
        } else if buf_len >= self.data.len() {
            ReadStep::Direct
        } else {
            ReadStep::Fill
        }
    }

    /// Plan a fill up to `amount` unconsumed bytes: the range of the buffer
    /// to read into, or `None` when nothing is to be read. May shift the
    /// unconsumed bytes to the beginning to make room. `amount` must not
    /// exceed the capacity.
    pub fn fill_amount(&mut self, amount: usize) -> (r: Option<(usize, usize)>)
        requires
            old(self).wf(),
            amount <= old(self).capacity_spec(),
        ensures
            final(self).wf(),
            final(self).buffer_spec() == old(self).buffer_spec(),
            final(self).capacity_spec() == old(self).capacity_spec(),
            final(self).reader_spec() == old(self).reader_spec(),
            old(self).position_spec() + amount <= old(self).end_spec() ==> r is None,
            old(self).end_spec() < old(self).position_spec() + amount <= old(self).capacity_spec()
                ==> r == Some((old(self).end_spec() as usize, (old(self).position_spec() + amount) as usize))
                && *final(self) == *old(self),
            old(self).position_spec() + amount > old(self).capacity_spec() ==> {
                if old(self).buffer_spec().len() == 0 {
                    r == Some((0usize, amount)) && *final(self) == *old(self)
                } else {
                    &&& final(self).position_spec() == 0
                    &&& r == (if old(self).buffer_spec().len() == old(self).capacity_spec() {
                        None
                    } else {
                        Some((old(self).buffer_spec().len() as usize, amount))
                    })
                }
            },
            r matches Some(range) ==> range.0 < range.1 <= final(self).capacity_spec() && (range.0
                == 0 || (final(self).position_spec() <= range.0 && range.0 == final(self).end_spec())),
    {
        let mut start = self.end;
        let mut end = self.start + amount;
        if end <= start {
            return None;
        }
        if end > self.data.len() {
            end = amount;
            if self.end == self.start {
                start = 0;
            } else {
                self.move_data_to_beginning();
                if self.data.len() - self.end == 0 {
                    return None;
                }
                start = self.end;
            }
        }
        Some((start, end))
    }

    /// Store `bytes`, read into `start..end` as planned by
    /// [`fill_amount`](Self::fill_amount). Returns the number of bytes read.
    pub fn finish_fill_amount(&mut self, start: usize, end: usize, bytes: &[u8]) -> (n: usize)
        requires
            old(self).wf(),
            old(self).position_spec() <= start || start == 0,
            start == 0 || start == old(self).end_spec(),
            start <= end <= old(self).capacity_spec(),
            bytes@.len() <= end - start,
        ensures
            final(self).wf(),
            n == bytes@.len(),
            final(self).capacity_spec() == old(self).capacity_spec(),
            n == 0 ==> *final(self) == *old(self),
            n != 0 && start == 0 ==> final(self).buffer_spec() == bytes@,
            n != 0 && start != 0 ==> final(self).buffer_spec() == old(self).buffer_spec() + bytes@,
            final(self).reader_spec() == old(self).reader_spec(),
    {
        let n = bytes.len();
        if n == 0 {
            return 0;
        }
        if start == 0 {
            self.start = 0;
        }
        let n = self.finish_fill_range(start, end, bytes);
        proof {
            if start == 0 {
                assert(self.buffer_spec() =~= bytes@);
            } else {
                assert(self.buffer_spec() =~= old(self).buffer_spec() + bytes@);
            }
        }
        n
    }

    /// The size of the internal buffer
    pub fn capacity(&self) -> (r: usize)
        ensures
            r == self.capacity_spec(),
    {
        self.data.len()
    }

    /// The free room after the unconsumed bytes
    pub fn spare_capacity(&self) -> (r: usize)
        requires
            self.wf(),
        ensures
            r == self.capacity_spec() - self.end_spec(),
    {
        self.data.len() - self.end
    }

    /// The unconsumed bytes
    pub fn buffer(&self) -> (r: &[u8])
        requires
            self.wf(),
        ensures
            r@ == self.buffer_spec(),
    {
        vstd::slice::slice_subrange(self.data.as_slice(), self.start, self.end)
    }

    /// Consume `count` bytes, at most the unconsumed ones
    pub fn consume(&mut self, count: usize)
        requires
            old(self).wf(),
            count <= old(self).buffer_spec().len(),
        ensures
            consume_post(*old(self), *final(self), count as nat),
            final(self).wf(),
            final(self).buffer_spec() == old(self).buffer_spec().subrange(
                count as int,
                old(self).buffer_spec().len() as int,
            ),
            final(self).position_spec() == old(self).position_spec() + count,
            final(self).end_spec() == old(self).end_spec(),
            final(self).data_spec() == old(self).data_spec(),
            final(self).reader_spec() == old(self).reader_spec(),
    {
        self.start = self.start + count;
        proof {
            assert(self.buffer_spec() =~= old(self).buffer_spec().subrange(
                count as int,
                old(self).buffer_spec().len() as int,
            ));
        }
    }

    /// The part of `read_until` that runs on buffered bytes: move the
    /// unconsumed bytes up to and including the first `byte` into `buf` and
    /// consume them. Returns whether the delimiter was found; if not, the
    /// buffer is empty and must be filled before going on.
    pub fn read_until_buffered(&mut self, byte: u8, buf: &mut Vec<u8>) -> (done: bool)
        requires
            old(self).wf(),
        ensures
            final(self).wf(),
            done == (first_index_of(byte, old(self).buffer_spec()) is Some),
            final(buf)@ == old(buf)@ + old(self).buffer_spec().subrange(
                0,
                until_used(old(self).buffer_spec(), byte) as int,
            ),
            final(self).buffer_spec() == old(self).buffer_spec().subrange(
                until_used(old(self).buffer_spec(), byte) as int,
                old(self).buffer_spec().len() as int,
            ),
            final(self).position_spec() == old(self).position_spec() + until_used(
                old(self).buffer_spec(),
                byte,
            ),
            final(self).end_spec() == old(self).end_spec(),
            final(self).data_spec() == old(self).data_spec(),
            final(self).reader_spec() == old(self).reader_spec(),
    {
        let (used, done) = read_until_step(self.buffer(), byte, buf);
        self.consume(used);
        done
    }

    /// The fast path of reading a value of `bytes.len()` bytes: when the
    /// buffer holds that many, copy them into `bytes`, consume `consume` of
    /// them and return `true`; otherwise change nothing and return `false`
    pub fn get_buffered_bytes(&mut self, bytes: &mut [u8], consume: usize) -> (got: bool)
        requires
            old(self).wf(),
            consume <= old(bytes)@.len(),
        ensures
            final(self).wf(),
            got == (old(self).buffer_spec().len() >= old(bytes)@.len()),
            got ==> final(bytes)@ == old(self).buffer_spec().subrange(0, old(bytes)@.len() as int)
                && final(self).buffer_spec() == old(self).buffer_spec().subrange(
                consume as int,
                old(self).buffer_spec().len() as int,
            ) && final(self).position_spec() == old(self).position_spec() + consume,
            !got ==> final(bytes)@ == old(bytes)@ && *final(self) == *old(self),
            final(self).end_spec() == old(self).end_spec(),
            final(self).data_spec() == old(self).data_spec(),
            final(self).reader_spec() == old(self).reader_spec(),
    {
        let n = bytes.len();
        let available = self.buffer();
        if available.len() >= n {
            read_into_slice(bytes, vstd::slice::slice_subrange(available, 0, n));
            proof {
                assert(bytes@ =~= old(self).buffer_spec().subrange(0, n as int));
            }
            self.consume(consume);
            true
        } else {
            false
        }
    }

    /// Unconsume `count` bytes, at most the position: the next read returns
    /// them again
    pub fn unconsume(&mut self, count: usize)
        requires
            old(self).wf(),
            count <= old(self).position_spec(),
        ensures
            unconsume_post(*old(self), *final(self), count as nat),
            final(self).wf(),
            final(self).position_spec() == old(self).position_spec() - count,
            final(self).buffer_spec() == old(self).data_spec().subrange(
                old(self).position_spec() - count,
                old(self).position_spec() as int,
            ) + old(self).buffer_spec(),
            final(self).end_spec() == old(self).end_spec(),
            final(self).data_spec() == old(self).data_spec(),
            final(self).reader_spec() == old(self).reader_spec(),
    {
        self.start = self.start - count;
        proof {
            assert(self.buffer_spec() =~= old(self).data_spec().subrange(
                old(self).position_spec() - count,
                old(self).position_spec() as int,
            ) + old(self).buffer_spec());
        }
    }

    /// Discard all unconsumed bytes
    pub fn discard(&mut self)
        requires
            old(self).wf(),
        ensures
            final(self).wf(),
            final(self).buffer_spec().len() == 0,
            final(self).position_spec() == 0,
            final(self).end_spec() == 0,
            final(self).data_spec() == old(self).data_spec(),
            final(self).reader_spec() == old(self).reader_spec(),
    {
        self.start = 0;
        self.end = 0;
    }

    /// Try to seek `rel` bytes relative to the current position within the
    /// buffer. Returns `true` when the target lies in the buffer (the position
    /// moved); otherwise nothing changes and the seek must go to the reader
    /// (see [`seek_inner_plan`](Self::seek_inner_plan) with `Current(rel)`).
    pub fn seek_relative(&mut self, rel: i64) -> (moved: bool)
        requires
            old(self).wf(),
        ensures
            final(self).wf(),
            moved == (0 <= old(self).position_spec() + rel <= old(self).end_spec()
                && old(self).position_spec() + rel <= i64::MAX),
            moved ==> final(self).position_spec() == old(self).position_spec() + rel
                && final(self).end_spec() == old(self).end_spec() && final(self).data_spec() == old(self).data_spec(),
            !moved ==> *final(self) == *old(self),
            final(self).reader_spec() == old(self).reader_spec(),
    {
        let pos = rel as i128 + self.start as i128;
        if pos > i64::MAX as i128 {
            return false;
        }
        if pos < 0 || pos > self.end as i128 {
            return false;
        }
        self.start = pos as usize;
        true
    }

    /// How to seek the underlying reader for `seek` when the buffer cannot
    /// serve it: an optional seek of the reader back over the unconsumed bytes,
    /// then the seek to perform; the buffer is to be discarded in between.
    /// A relative seek is adjusted for the unconsumed bytes the reader has
    /// already passed.
    pub fn seek_inner_plan(&self, seek: SeekFrom) -> (r: (Option<i64>, SeekFrom))
        requires
            self.wf(),
            self.buffer_spec().len() <= i64::MAX,
        ensures
            match seek {
                SeekFrom::Current(pos) => {
                    let rem = self.buffer_spec().len() as int;
                    if i64::MIN <= pos - rem {
                        r == (None::<i64>, SeekFrom::Current((pos - rem) as i64))
                    } else {
                        r == (Some((-rem) as i64), seek)
                    }
                },
                _ => r == (None::<i64>, seek),
            },
    {
        match seek {
            SeekFrom::Current(pos) => {
                let remainder = (self.end - self.start) as i64;
                let adjusted = pos as i128 - remainder as i128;
                if adjusted >= i64::MIN as i128 {
                    (None, SeekFrom::Current(adjusted as i64))
                } else {
                    (Some(-remainder), seek)
                }
            },
            _ => (None, seek),
        }
    }

    /// The position in the stream given the reader's position: the
    /// unconsumed bytes have been read from the reader but not from us, so
    /// the reader's position is at least their number.
    pub fn stream_position(&self, inner_pos: u64) -> (r: u64)
        requires
            self.wf(),
            inner_pos >= self.buffer_spec().len(),
        ensures
            r == inner_pos - self.buffer_spec().len(),
    {
        inner_pos - (self.end - self.start) as u64
    }
}

/// The signed difference `abs - stream_pos`, when it fits an `i64`: a seek
/// to an absolute position becomes a relative one
pub fn seek_abs_relative(abs: u64, stream_pos: u64) -> (r: Option<i64>)
    ensures
        i64::MIN <= abs - stream_pos <= i64::MAX ==> r == Some((abs - stream_pos) as i64),
        !(i64::MIN <= abs - stream_pos <= i64::MAX) ==> r is None,
{
    let diff = abs as i128 - stream_pos as i128;
    if diff >= i64::MIN as i128 && diff <= i64::MAX as i128 {
        Some(diff as i64)
    } else {
        None
    }
}

/// The absolute position `pos` bytes from the end of a stream of `len`
/// bytes, which must be in range.
pub fn end_position(len: u64, pos: i64) -> (r: u64)
    requires
        0 <= len + pos <= u64::MAX,
    ensures
        r == len + pos,
{
    (len as i128 + pos as i128) as u64
}

} // verus!
