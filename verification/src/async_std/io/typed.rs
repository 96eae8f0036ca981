//! Reading numbers of a given byte width out of a stream

use vstd::prelude::*;

verus! {

/// The value of little endian bytes
pub open spec fn le_value(s: Seq<u8>) -> nat
    decreases s.len(),
{
    if s.len() == 0 {
        0
    } else {
        (s[0] + 256 * le_value(s.drop_first())) as nat
    }
}

/// The value of big endian bytes
pub open spec fn be_value(s: Seq<u8>) -> nat
    decreases s.len(),
{
    if s.len() == 0 {
        0
    } else {
        (be_value(s.drop_last()) * 256 + s.last()) as nat
    }
}

/// `256` to the power `n`
pub open spec fn pow256(n: nat) -> nat
    decreases n,
{
    if n == 0 {
        1
    } else {
        256 * pow256((n - 1) as nat)
    }
}

/// Bytes hold values below `256` to the power of their number
pub proof fn lemma_value_bounds(s: Seq<u8>)
    ensures
        le_value(s) < pow256(s.len()),
        be_value(s) < pow256(s.len()),
    decreases s.len(),
{
    if s.len() > 0 {
        lemma_value_bounds(s.drop_first());
        lemma_value_bounds(s.drop_last());
    }
}

/// Sixteen bytes fit a `u128`
pub proof fn lemma_pow256_16()
    ensures
        pow256(16) == 0x1_0000_0000_0000_0000_0000_0000_0000_0000,
{
    reveal_with_fuel(pow256, 17);
}

/// Powers of 256 grow with the exponent
pub proof fn lemma_pow256_mono(a: nat, b: nat)
    requires
        a <= b,
    ensures
        pow256(a) <= pow256(b),
    decreases b,
{
    if a < b {
        lemma_pow256_mono(a, (b - 1) as nat);
    }
}

/// The value of the first `size` bytes, in little endian order when `le`,
/// else in big endian order. A variably sized integer is stored in the
/// first `size` bytes of its type's width.
pub fn vint_from_bytes(bytes: &[u8], size: usize, le: bool) -> (v: u128)
    requires
        size <= bytes@.len(),
        size <= 16,
    ensures
        le ==> v == le_value(bytes@.subrange(0, size as int)),
        !le ==> v == be_value(bytes@.subrange(0, size as int)),
{
    let ghost s = bytes@.subrange(0, size as int);
    let mut acc: u128 = 0;
    proof {
        lemma_pow256_16();
    }
    if le {
        let mut i: usize = size;
        while i > 0
            invariant
                i <= size <= 16,
                size <= bytes@.len(),
                s == bytes@.subrange(0, size as int),
                acc == le_value(s.subrange(i as int, size as int)),
                pow256(16) == 0x1_0000_0000_0000_0000_0000_0000_0000_0000,
            decreases i,
        {
            let ghost tail = s.subrange(i as int, size as int);
            let ghost next = s.subrange(i - 1, size as int);
            proof {
                assert(next.drop_first() =~= tail);
                lemma_value_bounds(next);
                lemma_pow256_mono(next.len(), 16);
            }
            i = i - 1;
            acc = bytes[i] as u128 + 256 * acc;
        }
        assert(s.subrange(0, size as int) =~= s);
    } else {
        let mut i: usize = 0;
        while i < size
            invariant
                i <= size <= 16,
                size <= bytes@.len(),
                s == bytes@.subrange(0, size as int),
                acc == be_value(s.subrange(0, i as int)),
                pow256(16) == 0x1_0000_0000_0000_0000_0000_0000_0000_0000,
            decreases size - i,
        {
            let ghost head = s.subrange(0, i as int);
            let ghost next = s.subrange(0, i + 1);
            proof {
                assert(next.drop_last() =~= head);
                lemma_value_bounds(next);
                lemma_pow256_mono(next.len(), 16);
            }
            acc = acc * 256 + bytes[i] as u128;
            i = i + 1;
        }
        assert(s.subrange(0, size as int) =~= s);
    }
    acc
}

/// A read of a whole value ended early: some bytes came, but not all
#[derive(Clone, Copy, Debug, PartialEq, Eq, Structural)]
pub struct ShortRead;

/// Judge a read of `len` bytes that gave `read` bytes: nothing at all is the
/// end of the stream, a part is an error
pub fn read_bytes_outcome(read: usize, len: usize) -> (r: Result<usize, ShortRead>)
    requires
        read <= len,
    ensures
        read != 0 && read < len ==> r == Err::<usize, ShortRead>(ShortRead),
        !(read != 0 && read < len) ==> r == Ok::<usize, ShortRead>(read),
{
    if read != 0 && read < len {
        return Err(ShortRead);
    }
    Ok(read)
}

} // verus!
