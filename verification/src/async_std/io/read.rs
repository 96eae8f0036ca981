//! Reading lines and delimited records out of buffered data
//!
//! The reads themselves are the caller's: these functions decide what a
//! `read_until` or `read_line` does with the bytes at hand and what comes next.

use vstd::prelude::*;
use vstd::utf8::valid_utf8;
use super::{vec_capacity, IoOutcome};

verus! {

/// The index of the first `needle` in `haystack`, if any
pub open spec fn first_index_of(needle: u8, haystack: Seq<u8>) -> Option<int> {
    if exists|i: int| 0 <= i < haystack.len() && haystack[i] == needle {
        Some(
            choose|i: int|
                0 <= i < haystack.len() && haystack[i] == needle && forall|j: int|
                    0 <= j < i ==> haystack[j] != needle,
        )
    } else {
        None
    }
}

/// `memchr::memchr`: the index of the first occurrence of `needle` in
/// `haystack`, or `None` when the byte does not occur
#[verifier::external_body]
fn memchr(needle: u8, haystack: &[u8]) -> (r: Option<usize>)
    ensures
        match r {
            Some(i) => i < haystack@.len() && haystack@[i as int] == needle && forall|j: int|
                0 <= j < i ==> haystack@[j] != needle,
            None => forall|j: int| 0 <= j < haystack@.len() ==> haystack@[j] != needle,
        },
{
    memchr::memchr(needle, haystack)
}

/// How many bytes of `available` a `read_until` takes: up to and including
/// the first `byte`, or all of them when it does not occur
pub open spec fn until_used(available: Seq<u8>, byte: u8) -> nat {
    match first_index_of(byte, available) {
        Some(i) => (i + 1) as nat,
        None => available.len(),
    }
}

/// Take the bytes of `available` up to and including the first `byte` into
/// `buf`. Returns how many were taken and whether the delimiter was among
/// them.
pub fn read_until_step(available: &[u8], byte: u8, buf: &mut Vec<u8>) -> (r: (usize, bool))
    ensures
        r.0 == until_used(available@, byte),
        r.0 <= available@.len(),
        r.1 == first_index_of(byte, available@) is Some,
        final(buf)@ == old(buf)@ + available@.subrange(0, r.0 as int),
{
    let alen = available.len();
    let found = memchr(byte, available);
    let (used, done) = match found {
        Some(index) => (index + 1, true),
        None => (alen, false),
    };
    proof {
        match found {
            Some(i) => {
                let w = choose|k: int|
                    0 <= k < available@.len() && available@[k] == byte && forall|j: int|
                        0 <= j < k ==> available@[j] != byte;
                assert(0 <= i < available@.len() && available@[i as int] == byte && forall|j: int|
                    0 <= j < i ==> available@[j] != byte);
                assert(first_index_of(byte, available@) == Some(w));
                if w < i {
                    assert(available@[w] != byte);
                } else if w > i {
                    assert(available@[i as int] != byte);
                }
            },
            None => {},
        }
    }
    let ghost before = buf@;
    buf.extend_from_slice(vstd::slice::slice_subrange(available, 0, used));
    proof {
        assert(buf@ =~= before + available@.subrange(0, used as int));
    }
    (used, done)
}

/// What `read_until` does after a fill that brought `filled` bytes, having
/// grown the output from `start_len` to `len` bytes: `None` to go on
/// reading, `Some(None)` at the end of the stream with nothing read, and
/// `Some(Some(n))` when done with `n` bytes read
pub fn read_until_after_fill(start_len: usize, len: usize, filled: usize) -> (r: Option<Option<usize>>)
    requires
        start_len <= len,
    ensures
        filled != 0 ==> r is None,
        filled == 0 && len == start_len ==> r == Some(None::<usize>),
        filled == 0 && len != start_len ==> r == Some(Some((len - start_len) as usize)),
{
    if filled == 0 {
        if len == start_len {
            return Some(None);
        }
        return Some(Some(len - start_len));
    }
    None
}

/// `std::str::from_utf8`: whether the bytes are valid UTF-8
#[verifier::external_body]
fn is_utf8(bytes: &[u8]) -> (r: bool)
    ensures
        r == valid_utf8(bytes@),
{
    std::str::from_utf8(bytes).is_ok()
}

/// Why appending to a string failed
#[derive(Clone, Copy, Debug, PartialEq, Eq)]
pub enum AppendError<E> {
    /// The read failed
    Read(E),
    /// The bytes read are not valid UTF-8
    InvalidUtf8,
}

/// Finish appending to a string whose bytes are `buf` and whose length was
/// `len` before the read that gave `read`: the new bytes are kept only if the
/// read succeeded with `Some` and they are valid UTF-8; otherwise the string
/// is cut back to its old length
pub fn finish_append<E>(buf: &mut Vec<u8>, len: usize, read: Result<Option<usize>, E>) -> (r: Result<Option<usize>, AppendError<E>>)
    requires
        len <= old(buf)@.len(),
    ensures
        match read {
            Err(e) => r == Err::<Option<usize>, AppendError<E>>(AppendError::Read(e))
                && final(buf)@ == old(buf)@.subrange(0, len as int),
            Ok(None) => r == Ok::<Option<usize>, AppendError<E>>(None)
                && final(buf)@ == old(buf)@.subrange(0, len as int),
            Ok(Some(n)) => if valid_utf8(old(buf)@.subrange(len as int, old(buf)@.len() as int)) {
                r == Ok::<Option<usize>, AppendError<E>>(Some(n)) && final(buf)@ == old(buf)@
            } else {
                r == Err::<Option<usize>, AppendError<E>>(AppendError::InvalidUtf8)
                    && final(buf)@ == old(buf)@.subrange(0, len as int)
            },
        },
{
    match read {
        Err(e) => {
            buf.truncate(len);
            Err(AppendError::Read(e))
        },
        Ok(None) => {
            buf.truncate(len);
            Ok(None)
        },
        Ok(Some(n)) => {
            let end = buf.len();
            let valid = is_utf8(vstd::slice::slice_subrange(buf.as_slice(), len, end));
            if valid {
                Ok(Some(n))
            } else {
                buf.truncate(len);
                Err(AppendError::InvalidUtf8)
            }
        },
    }
}

/// The bytes after a line was appended at `len`: a `\n` ending the new
/// bytes is taken off, and then a `\r` before it; bytes from before `len` are
/// never touched
pub open spec fn line_stripped(b: Seq<u8>, len: int) -> Seq<u8> {
    if b.len() > len && b.last() == 0x0au8 {
        let l = b.drop_last();
        if l.len() > len && l.last() == 0x0du8 {
            l.drop_last()
        } else {
            l
        }
    } else {
        b
    }
}

/// Finish reading a line into a string whose bytes are `buf` and whose
/// length was `len` before `read`, the result of reading up to a newline:
/// the line is kept only if the read gave one and it is valid UTF-8, and
/// then its line ending is stripped; otherwise the string is cut back to its
/// old length. Returns the number of bytes read, line ending included.
pub fn finish_read_line<E>(buf: &mut Vec<u8>, len: usize, read: Result<Option<usize>, E>) -> (r: Result<Option<usize>, AppendError<E>>)
    requires
        len <= old(buf)@.len(),
    ensures
        match read {
            Err(e) => r == Err::<Option<usize>, AppendError<E>>(AppendError::Read(e))
                && final(buf)@ == old(buf)@.subrange(0, len as int),
            Ok(None) => r == Ok::<Option<usize>, AppendError<E>>(None)
                && final(buf)@ == old(buf)@.subrange(0, len as int),
            Ok(Some(n)) => if valid_utf8(old(buf)@.subrange(len as int, old(buf)@.len() as int)) {
                r == Ok::<Option<usize>, AppendError<E>>(Some(n)) && final(buf)@ == line_stripped(old(buf)@, len as int)
            } else {
                r == Err::<Option<usize>, AppendError<E>>(AppendError::InvalidUtf8)
                    && final(buf)@ == old(buf)@.subrange(0, len as int)
            },
        },
{
    let r = finish_append(buf, len, read);
    if let Ok(Some(_)) = r {
        let n = buf.len();
        if n > len && buf[n - 1] == 0x0a {
            buf.pop();
            let m = buf.len();
            if m > len && buf[m - 1] == 0x0d {
                buf.pop();
            }
        }
    }
    r
}

/// What `read_to_end` does next
#[derive(Clone, Copy, Debug, PartialEq, Eq, Structural)]
pub enum ReadToEndNext {
    /// Read again into the spare room (after [`ReadToEnd::prepare`])
    Continue,
    /// The buffer is full: read a small probe to see if there is more
    Probe,
    /// Stop reading ([`ReadToEnd::finish`])
    Stop,
    /// Fail with the stream's error
    Fail,
}

/// Reading a whole stream into a vector: the bytes read so far end at
/// `len`; the vector may hold zeroed room after them
#[derive(Clone, Copy, Debug, PartialEq, Eq, Structural)]
pub struct ReadToEnd {
    pub start_len: usize,
    pub len: usize,
}

/// The probe read when the vector is full
pub const PROBE_SIZE: usize = 32;

impl ReadToEnd {
    pub open spec fn wf(&self, buf: Seq<u8>) -> bool {
        self.start_len <= self.len <= buf.len()
    }

    /// Start reading to the end of `buf`
    pub fn new(buf: &Vec<u8>) -> (s: Self)
        ensures
            s.start_len == buf@.len(),
            s.len == buf@.len(),
            s.wf(buf@),
    {
        ReadToEnd { start_len: buf.len(), len: buf.len() }
    }

    /// Make room for the next read: when the vector is full (its capacity is
    /// the length read so far) it reserves room for at least `PROBE_SIZE`
    /// more bytes, then it is zero-filled up to its capacity. Returns the
    /// capacity, which is always beyond the bytes read so far, so the next
    /// read has room; the read goes into the bytes from `len` to it. The
    /// capacity must stay within `isize::MAX`.
    pub fn prepare(&self, buf: &mut Vec<u8>) -> (capacity: usize)
        requires
            self.wf(old(buf)@),
            old(buf)@.len() + PROBE_SIZE <= isize::MAX,
        ensures
            capacity == final(buf)@.len(),
            capacity >= old(buf)@.len(),
            capacity > self.len,
            final(buf)@.subrange(0, old(buf)@.len() as int) == old(buf)@,
            forall|i: int| old(buf)@.len() <= i < capacity ==> #[trigger] final(buf)@[i] == 0u8,
            self.wf(final(buf)@),
    {
        let mut capacity = vec_capacity(buf);
        if self.len == capacity {
            buf.reserve(PROBE_SIZE);
            capacity = vec_capacity(buf);
            /* reserving guarantees this much room */
            if capacity < self.len + PROBE_SIZE {
                capacity = self.len + PROBE_SIZE;
            }
        }
        let ghost before = buf@;
        if buf.len() < capacity {
            buf.resize(capacity, 0);
        }
        proof {
            assert(buf@.subrange(0, before.len() as int) =~= before);
        }
        capacity
    }

    /// Record what the read into the room from `len` to `capacity` gave.
    /// A stream never reports more bytes than it was given.
    pub fn after_read(&mut self, buf: &Vec<u8>, capacity: usize, outcome: IoOutcome) -> (next: ReadToEndNext)
        requires
            old(self).wf(buf@),
            capacity == buf@.len(),
            outcome matches IoOutcome::Moved(n) ==> n <= capacity - old(self).len,
        ensures
            final(self).wf(buf@),
            final(self).start_len == old(self).start_len,
            match outcome {
                IoOutcome::Moved(n) => if n == 0 {
                    next == ReadToEndNext::Stop && *final(self) == *old(self)
                } else {
                    &&& final(self).len == old(self).len + n
                    &&& next == (if final(self).len < capacity { ReadToEndNext::Continue } else { ReadToEndNext::Probe })
                },
                IoOutcome::Interrupted => next == ReadToEndNext::Stop && *final(self) == *old(self),
                IoOutcome::Failed => next == ReadToEndNext::Fail && *final(self) == *old(self),
            },
    {
        match outcome {
            IoOutcome::Moved(n) => {
                if n == 0 {
                    return ReadToEndNext::Stop;
                }
                self.len = self.len + n;
                if self.len < capacity {
                    ReadToEndNext::Continue
                } else {
                    ReadToEndNext::Probe
                }
            },
            IoOutcome::Interrupted => ReadToEndNext::Stop,
            IoOutcome::Failed => ReadToEndNext::Fail,
        }
    }

    /// Record what the probe read gave: the bytes it got are appended
    pub fn after_probe(&mut self, buf: &mut Vec<u8>, probe: &[u8], outcome: IoOutcome) -> (next: ReadToEndNext)
        requires
            old(self).wf(old(buf)@),
            old(self).len == old(buf)@.len(),
            outcome matches IoOutcome::Moved(n) ==> n <= probe@.len(),
        ensures
            final(self).wf(final(buf)@),
            final(self).start_len == old(self).start_len,
            match outcome {
                IoOutcome::Moved(n) => if n == 0 {
                    next == ReadToEndNext::Stop && *final(self) == *old(self) && final(buf)@ == old(buf)@
                } else {
                    &&& final(buf)@ == old(buf)@ + probe@.subrange(0, n as int)
                    &&& final(self).len == final(buf)@.len()
                    &&& next == ReadToEndNext::Continue
                },
                IoOutcome::Interrupted => next == ReadToEndNext::Stop && *final(self) == *old(self)
                    && final(buf)@ == old(buf)@,
                IoOutcome::Failed => next == ReadToEndNext::Fail && *final(self) == *old(self)
                    && final(buf)@ == old(buf)@,
            },
    {
        match outcome {
            IoOutcome::Moved(n) => {
                if n == 0 {
                    return ReadToEndNext::Stop;
                }
                let ghost before = buf@;
                buf.extend_from_slice(vstd::slice::slice_subrange(probe, 0, n));
                proof {
                    assert(buf@ =~= before + probe@.subrange(0, n as int));
                }
                self.len = buf.len();
                ReadToEndNext::Continue
            },
            IoOutcome::Interrupted => ReadToEndNext::Stop,
            IoOutcome::Failed => ReadToEndNext::Fail,
        }
    }

    /// Cut the vector back to the bytes read and return how many were read
    pub fn finish(&self, buf: &mut Vec<u8>) -> (n: usize)
        requires
            self.wf(old(buf)@),
        ensures
            final(buf)@ == old(buf)@.subrange(0, self.len as int),
            n == self.len - self.start_len,
    {
        buf.truncate(self.len);
        self.len - self.start_len
    }
}

/// The lines of a buffered reader
pub struct Lines<R>(pub R);

impl<R> Lines<R> {
    /// The lines of `reader`
    pub fn new(reader: R) -> (l: Self)
        ensures
            l.0 == reader,
    {
        Self(reader)
    }
}

} // verus!
