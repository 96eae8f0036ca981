//! Seeking by amounts that do not fit an `i64` offset

use vstd::prelude::*;

verus! {

/// The relative seeks that move back by `amount` bytes: one seek when the
/// amount fits an `i64`, else a seek by `i64::MIN` and one by the rest
pub fn rewind_amount_offsets(amount: u64) -> (offsets: Vec<i64>)
    ensures
        amount <= i64::MAX ==> offsets@ == seq![-(amount as int) as i64],
        amount > i64::MAX ==> offsets@ == seq![i64::MIN, -(amount - 0x8000_0000_0000_0000) as i64],
        offsets@.len() == 1 ==> offsets@[0] == -amount,
        offsets@.len() == 2 ==> offsets@[0] + offsets@[1] == -amount,
{
    let mut offsets: Vec<i64> = Vec::new();
    if amount <= 0x7fff_ffff_ffff_ffff {
        let a: i64 = amount as i64;
        offsets.push(-a);
    } else {
        offsets.push(i64::MIN);
        let rest: i64 = (amount - 0x8000_0000_0000_0000) as i64;
        offsets.push(-rest);
    }
    offsets
}

/// The sum of the offsets
pub open spec fn offsets_sum(offsets: Seq<i64>) -> int
    decreases offsets.len(),
{
    if offsets.len() == 0 {
        0
    } else {
        offsets_sum(offsets.drop_last()) + offsets.last()
    }
}

/// The relative seeks that skip `amount` bytes: as few as possible, each by
/// at most `i64::MAX`, all but the last by exactly `i64::MAX`
pub fn skip_amount_offsets(amount: u64) -> (offsets: Vec<i64>)
    ensures
        offsets_sum(offsets@) == amount,
        offsets@.len() >= 1,
        forall|k: int| 0 <= k < offsets@.len() ==> 0 <= #[trigger] offsets@[k] <= i64::MAX,
        forall|k: int| 0 <= k < offsets@.len() - 1 ==> #[trigger] offsets@[k] == i64::MAX,
        amount <= i64::MAX ==> offsets@.len() == 1,
        offsets@.len() <= 3,
{
    let mut offsets: Vec<i64> = Vec::new();
    let mut left: u64 = amount;
    assert(offsets_sum(offsets@) == 0);
    if left <= 0x7fff_ffff_ffff_ffff {
        offsets.push(left as i64);
        assert(offsets@.drop_last() =~= Seq::<i64>::empty());
        assert(offsets_sum(Seq::<i64>::empty()) == 0);
        return offsets;
    }
    while left > 0x7fff_ffff_ffff_ffff
        invariant
            offsets_sum(offsets@) + left == amount,
            forall|k: int| 0 <= k < offsets@.len() ==> #[trigger] offsets@[k] == i64::MAX,
            offsets@.len() * 0x7fff_ffff_ffff_ffff + left == amount,
            offsets@.len() <= 2,
        decreases left,
    {
        let ghost before = offsets@;
        offsets.push(i64::MAX);
        assert(offsets@.drop_last() =~= before);
        left = left - 0x7fff_ffff_ffff_ffff;
    }
    let ghost before = offsets@;
    offsets.push(left as i64);
    assert(offsets@.drop_last() =~= before);
    offsets
}

} // verus!
