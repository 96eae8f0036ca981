//! The `duration!` macro: units and the scales that turn them into
//! nanoseconds

use vstd::prelude::*;
use crate::macros::str_eq;

verus! {

/// A unit of time a duration can be written in
#[derive(Clone, Copy, Debug, PartialEq, Eq, Structural)]
pub enum Unit {
    Day,
    Hour,
    Minute,
    Second,
    Millisecond,
    Microsecond,
    Nanosecond,
}

/// The nanoseconds in a unit
pub open spec fn unit_nanos(u: Unit) -> nat {
    match u {
        Unit::Day => 86_400_000_000_000,
        Unit::Hour => 3_600_000_000_000,
        Unit::Minute => 60_000_000_000,
        Unit::Second => 1_000_000_000,
        Unit::Millisecond => 1_000_000,
        Unit::Microsecond => 1_000,
        Unit::Nanosecond => 1,
    }
}

/// The unit a name stands for, by its full name or an abbreviation
pub open spec fn unit_named(n: Seq<char>) -> Option<Unit> {
    if n == "day"@ || n == "d"@ || n == "days"@ {
        Some(Unit::Day)
    } else if n == "hour"@ || n == "h"@ || n == "hours"@ {
        Some(Unit::Hour)
    } else if n == "minute"@ || n == "m"@ || n == "min"@ || n == "mins"@ || n == "minutes"@ {
        Some(Unit::Minute)
    } else if n == "second"@ || n == "s"@ || n == "sec"@ || n == "secs"@ || n == "seconds"@ {
        Some(Unit::Second)
    } else if n == "millisecond"@ || n == "ms"@ || n == "millis"@ || n == "millisec"@
        || n == "millisecs"@ || n == "milliseconds"@ {
        Some(Unit::Millisecond)
    } else if n == "microsecond"@ || n == "us"@ || n == "micros"@ || n == "microsec"@
        || n == "microsecs"@ || n == "microseconds"@ {
        Some(Unit::Microsecond)
    } else if n == "nanosecond"@ || n == "ns"@ || n == "nanos"@ || n == "nanosec"@
        || n == "nanosecs"@ || n == "nanoseconds"@ {
        Some(Unit::Nanosecond)
    } else {
        None
    }
}

/// The position of a unit from the largest
pub open spec fn unit_index(u: Unit) -> int {
    match u {
        Unit::Day => 0,
        Unit::Hour => 1,
        Unit::Minute => 2,
        Unit::Second => 3,
        Unit::Millisecond => 4,
        Unit::Microsecond => 5,
        Unit::Nanosecond => 6,
    }
}

impl Unit {
    /// The unit a name stands for
    pub fn from_name(n: &str) -> (u: Option<Unit>)
        ensures
            u == unit_named(n@),
    {
        if str_eq(n, "day") || str_eq(n, "d") || str_eq(n, "days") {
            Some(Unit::Day)
        } else if str_eq(n, "hour") || str_eq(n, "h") || str_eq(n, "hours") {
            Some(Unit::Hour)
        } else if str_eq(n, "minute") || str_eq(n, "m") || str_eq(n, "min") || str_eq(n, "mins")
            || str_eq(n, "minutes") {
            Some(Unit::Minute)
        } else if str_eq(n, "second") || str_eq(n, "s") || str_eq(n, "sec") || str_eq(n, "secs")
            || str_eq(n, "seconds") {
            Some(Unit::Second)
        } else if str_eq(n, "millisecond") || str_eq(n, "ms") || str_eq(n, "millis") || str_eq(
            n,
            "millisec",
        ) || str_eq(n, "millisecs") || str_eq(n, "milliseconds") {
            Some(Unit::Millisecond)
        } else if str_eq(n, "microsecond") || str_eq(n, "us") || str_eq(n, "micros") || str_eq(
            n,
            "microsec",
        ) || str_eq(n, "microsecs") || str_eq(n, "microseconds") {
            Some(Unit::Microsecond)
        } else if str_eq(n, "nanosecond") || str_eq(n, "ns") || str_eq(n, "nanos") || str_eq(
            n,
            "nanosec",
        ) || str_eq(n, "nanosecs") || str_eq(n, "nanoseconds") {
            Some(Unit::Nanosecond)
        } else {
            None
        }
    }

    /// The position of the unit from the largest
    pub fn index(self) -> (i: usize)
        ensures
            i == unit_index(self),
    {
        match self {
            Unit::Day => 0,
            Unit::Hour => 1,
            Unit::Minute => 2,
            Unit::Second => 3,
            Unit::Millisecond => 4,
            Unit::Microsecond => 5,
            Unit::Nanosecond => 6,
        }
    }
}

/// How many of the next smaller unit make up each unit, from the day down
pub open spec fn named_steps() -> Seq<nat> {
    seq![24, 60, 60, 1000, 1000, 1000, 1]
}

/// The product of the steps from `i` on
pub open spec fn product_from(steps: Seq<nat>, i: int) -> nat
    decreases steps.len() - i,
{
    if i < 0 || i >= steps.len() {
        1
    } else {
        steps[i] * product_from(steps, i + 1)
    }
}

/// The products of the named steps from each position
pub proof fn lemma_named_products()
    ensures
        forall|k: int| 0 <= k <= 7 ==> product_from(named_steps(), k) <= 86_400_000_000_000,
        forall|u: Unit| product_from(named_steps(), #[trigger] unit_index(u)) == unit_nanos(u),
{
    let s = named_steps();
    assert(s.len() == 7);
    assert(s[6] == 1 && s[5] == 1000 && s[4] == 1000 && s[3] == 1000);
    assert(s[2] == 60 && s[1] == 60 && s[0] == 24);
    assert(product_from(s, 7) == 1);
    assert(product_from(s, 6) == 1);
    assert(product_from(s, 5) == 1000);
    assert(product_from(s, 4) == 1000_000);
    assert(product_from(s, 3) == 1000_000_000);
    assert(product_from(s, 2) == 60_000_000_000);
    assert(product_from(s, 1) == 3_600_000_000_000);
    assert(product_from(s, 0) == 86_400_000_000_000);
}

/// The products of the unnamed steps from each position
pub proof fn lemma_unnamed_products()
    ensures
        forall|k: int| 0 <= k <= 4 ==> product_from(unnamed_steps(), k) <= 86_400_000_000_000,
{
    let s = unnamed_steps();
    assert(s.len() == 4);
    assert(s[3] == 1000_000_000 && s[2] == 60 && s[1] == 60 && s[0] == 24);
    assert(product_from(s, 4) == 1);
    assert(product_from(s, 3) == 1000_000_000);
    assert(product_from(s, 2) == 60_000_000_000);
    assert(product_from(s, 1) == 3_600_000_000_000);
    assert(product_from(s, 0) == 86_400_000_000_000);
}

/// The nanoseconds in `unit`: the product of the steps from its position on
pub fn named_scale(unit: Unit) -> (nanos: u64)
    ensures
        nanos == product_from(named_steps(), unit_index(unit)),
        nanos == unit_nanos(unit),
{
    let steps: [u64; 7] = [24, 60, 60, 1000, 1000, 1000, 1];
    let start = unit.index();
    let mut i: usize = 7;
    let mut acc: u64 = 1;
    assert(steps@ =~= seq![24u64, 60, 60, 1000, 1000, 1000, 1]);
    proof {
        lemma_named_products();
    }
    while i > start
        invariant
            start <= i <= 7,
            steps@ == seq![24u64, 60, 60, 1000, 1000, 1000, 1],
            acc == product_from(named_steps(), i as int),
            acc <= 86_400_000_000_000,
            forall|k: int| 0 <= k <= 7 ==> product_from(named_steps(), k) <= 86_400_000_000_000,
        decreases i,
    {
        i = i - 1;
        proof {
            assert(product_from(named_steps(), i as int) == named_steps()[i as int] * product_from(
                named_steps(),
                i + 1,
            ));
        }
        acc = steps[i] * acc;
    }
    acc
}

/// The largest number of `:` separated parts a duration can have: days,
/// hours, minutes and seconds
pub const UNNAMED_PARTS: usize = 4;

/// The steps between the parts of an unnamed duration, the last part being
/// seconds
pub open spec fn unnamed_steps() -> Seq<nat> {
    seq![24, 60, 60, 1_000_000_000]
}

/// The scale of each part of a duration written with `count` parts, from the
/// last part to the first: the part's position and its nanoseconds. More
/// than four parts are an error at the fifth.
pub fn unnamed_scales(count: usize) -> (r: Result<Vec<(usize, u64)>, usize>)
    ensures
        count > UNNAMED_PARTS ==> r == Err::<Vec<(usize, u64)>, usize>(UNNAMED_PARTS),
        count <= UNNAMED_PARTS ==> r is Ok && r->Ok_0@.len() == count && forall|k: int|
            0 <= k < count ==> (#[trigger] r->Ok_0@[k]).0 == count - 1 - k && r->Ok_0@[k].1
                == product_from(unnamed_steps(), UNNAMED_PARTS - k - 1),
{
    if count > UNNAMED_PARTS {
        return Err(UNNAMED_PARTS);
    }
    let steps: [u64; 4] = [24, 60, 60, 1_000_000_000];
    assert(steps@ =~= seq![24u64, 60, 60, 1_000_000_000]);
    proof {
        lemma_unnamed_products();
    }
    let mut out: Vec<(usize, u64)> = Vec::new();
    let mut acc: u64 = 1;
    let mut k: usize = 0;
    while k < count
        invariant
            count <= 4,
            k <= count,
            steps@ == seq![24u64, 60, 60, 1_000_000_000],
            out@.len() == k,
            acc == product_from(unnamed_steps(), 4 - k),
            forall|j: int| 0 <= j <= 4 ==> product_from(unnamed_steps(), j) <= 86_400_000_000_000,
            forall|j: int|
                0 <= j < k ==> (#[trigger] out@[j]).0 == count - 1 - j && out@[j].1 == product_from(
                    unnamed_steps(),
                    UNNAMED_PARTS - j - 1,
                ),
        decreases count - k,
    {
        let idx = UNNAMED_PARTS - k - 1;
        proof {
            assert(product_from(unnamed_steps(), idx as int) == unnamed_steps()[idx as int]
                * product_from(unnamed_steps(), idx + 1));
        }
        acc = steps[idx] * acc;
        out.push((count - 1 - k, acc));
        k = k + 1;
    }
    Ok(out)
}

/// The names of the units, each with the nanoseconds it stands for: the
/// day is 86 400 seconds, the hour 3 600, the minute 60, and the second is a
/// thousand milliseconds, each a thousand microseconds, each a thousand
/// nanoseconds
#[verifier::rlimit(60)]
pub proof fn law_unit_names()
    ensures
        unit_named("day"@) == Some(Unit::Day) && unit_nanos(Unit::Day) == 86_400_000_000_000,
        unit_named("d"@) == Some(Unit::Day) && unit_nanos(Unit::Day) == 86_400_000_000_000,
        unit_named("days"@) == Some(Unit::Day) && unit_nanos(Unit::Day) == 86_400_000_000_000,
        unit_named("hour"@) == Some(Unit::Hour) && unit_nanos(Unit::Hour) == 3_600_000_000_000,
        unit_named("h"@) == Some(Unit::Hour) && unit_nanos(Unit::Hour) == 3_600_000_000_000,
        unit_named("hours"@) == Some(Unit::Hour) && unit_nanos(Unit::Hour) == 3_600_000_000_000,
        unit_named("minute"@) == Some(Unit::Minute) && unit_nanos(Unit::Minute) == 60_000_000_000,
        unit_named("m"@) == Some(Unit::Minute) && unit_nanos(Unit::Minute) == 60_000_000_000,
        unit_named("min"@) == Some(Unit::Minute) && unit_nanos(Unit::Minute) == 60_000_000_000,
        unit_named("mins"@) == Some(Unit::Minute) && unit_nanos(Unit::Minute) == 60_000_000_000,
        unit_named("minutes"@) == Some(Unit::Minute) && unit_nanos(Unit::Minute) == 60_000_000_000,
        unit_named("second"@) == Some(Unit::Second) && unit_nanos(Unit::Second) == 1_000_000_000,
        unit_named("s"@) == Some(Unit::Second) && unit_nanos(Unit::Second) == 1_000_000_000,
        unit_named("sec"@) == Some(Unit::Second) && unit_nanos(Unit::Second) == 1_000_000_000,
        unit_named("secs"@) == Some(Unit::Second) && unit_nanos(Unit::Second) == 1_000_000_000,
        unit_named("seconds"@) == Some(Unit::Second) && unit_nanos(Unit::Second) == 1_000_000_000,
        unit_named("millisecond"@) == Some(Unit::Millisecond) && unit_nanos(Unit::Millisecond) == 1_000_000,
        unit_named("ms"@) == Some(Unit::Millisecond) && unit_nanos(Unit::Millisecond) == 1_000_000,
        unit_named("millis"@) == Some(Unit::Millisecond) && unit_nanos(Unit::Millisecond) == 1_000_000,
        unit_named("millisec"@) == Some(Unit::Millisecond) && unit_nanos(Unit::Millisecond) == 1_000_000,
        unit_named("millisecs"@) == Some(Unit::Millisecond) && unit_nanos(Unit::Millisecond) == 1_000_000,
        unit_named("milliseconds"@) == Some(Unit::Millisecond) && unit_nanos(Unit::Millisecond) == 1_000_000,
        unit_named("microsecond"@) == Some(Unit::Microsecond) && unit_nanos(Unit::Microsecond) == 1_000,
        unit_named("us"@) == Some(Unit::Microsecond) && unit_nanos(Unit::Microsecond) == 1_000,
        unit_named("micros"@) == Some(Unit::Microsecond) && unit_nanos(Unit::Microsecond) == 1_000,
        unit_named("microsec"@) == Some(Unit::Microsecond) && unit_nanos(Unit::Microsecond) == 1_000,
        unit_named("microsecs"@) == Some(Unit::Microsecond) && unit_nanos(Unit::Microsecond) == 1_000,
        unit_named("microseconds"@) == Some(Unit::Microsecond) && unit_nanos(Unit::Microsecond) == 1_000,
        unit_named("nanosecond"@) == Some(Unit::Nanosecond) && unit_nanos(Unit::Nanosecond) == 1,
        unit_named("ns"@) == Some(Unit::Nanosecond) && unit_nanos(Unit::Nanosecond) == 1,
        unit_named("nanos"@) == Some(Unit::Nanosecond) && unit_nanos(Unit::Nanosecond) == 1,
        unit_named("nanosec"@) == Some(Unit::Nanosecond) && unit_nanos(Unit::Nanosecond) == 1,
        unit_named("nanosecs"@) == Some(Unit::Nanosecond) && unit_nanos(Unit::Nanosecond) == 1,
        unit_named("nanoseconds"@) == Some(Unit::Nanosecond) && unit_nanos(Unit::Nanosecond) == 1,
        unit_named("fortnight"@) is None,
        unit_named(""@) is None,
{
    reveal_strlit("day");
    reveal_strlit("d");
    reveal_strlit("days");
    reveal_strlit("hour");
    reveal_strlit("h");
    reveal_strlit("hours");
    reveal_strlit("minute");
    reveal_strlit("m");
    reveal_strlit("min");
    reveal_strlit("mins");
    reveal_strlit("minutes");
    reveal_strlit("second");
    reveal_strlit("s");
    reveal_strlit("sec");
    reveal_strlit("secs");
    reveal_strlit("seconds");
    reveal_strlit("millisecond");
    reveal_strlit("ms");
    reveal_strlit("millis");
    reveal_strlit("millisec");
    reveal_strlit("millisecs");
    reveal_strlit("milliseconds");
    reveal_strlit("microsecond");
    reveal_strlit("us");
    reveal_strlit("micros");
    reveal_strlit("microsec");
    reveal_strlit("microsecs");
    reveal_strlit("microseconds");
    reveal_strlit("nanosecond");
    reveal_strlit("ns");
    reveal_strlit("nanos");
    reveal_strlit("nanosec");
    reveal_strlit("nanosecs");
    reveal_strlit("nanoseconds");
    reveal_strlit("fortnight");
    reveal_strlit("");
    assert("day"@.len() == 3);
    assert("d"@.len() == 1);
    assert("days"@.len() == 4);
    assert("hour"@.len() == 4);
    assert("h"@.len() == 1);
    assert("hours"@.len() == 5);
    assert("minute"@.len() == 6);
    assert("m"@.len() == 1);
    assert("min"@.len() == 3);
    assert("mins"@.len() == 4);
    assert("minutes"@.len() == 7);
    assert("second"@.len() == 6);
    assert("s"@.len() == 1);
    assert("sec"@.len() == 3);
    assert("secs"@.len() == 4);
    assert("seconds"@.len() == 7);
    assert("millisecond"@.len() == 11);
    assert("ms"@.len() == 2);
    assert("millis"@.len() == 6);
    assert("millisec"@.len() == 8);
    assert("millisecs"@.len() == 9);
    assert("milliseconds"@.len() == 12);
    assert("microsecond"@.len() == 11);
    assert("us"@.len() == 2);
    assert("micros"@.len() == 6);
    assert("microsec"@.len() == 8);
    assert("microsecs"@.len() == 9);
    assert("microseconds"@.len() == 12);
    assert("nanosecond"@.len() == 10);
    assert("ns"@.len() == 2);
    assert("nanos"@.len() == 5);
    assert("nanosec"@.len() == 7);
    assert("nanosecs"@.len() == 8);
    assert("nanoseconds"@.len() == 11);
    assert("fortnight"@.len() == 9);
    assert("day"@[0] != "min"@[0]);
    assert("day"@[0] != "sec"@[0]);
    assert("d"@[0] != "h"@[0]);
    assert("d"@[0] != "m"@[0]);
    assert("d"@[0] != "s"@[0]);
    assert("days"@[0] != "hour"@[0]);
    assert("days"@[0] != "mins"@[0]);
    assert("days"@[0] != "secs"@[0]);
    assert("hour"@[0] != "mins"@[0]);
    assert("hour"@[0] != "secs"@[0]);
    assert("h"@[0] != "m"@[0]);
    assert("h"@[0] != "s"@[0]);
    assert("hours"@[0] != "nanos"@[0]);
    assert("minute"@[0] != "second"@[0]);
    assert("minute"@[2] != "millis"@[2]);
    assert("minute"@[2] != "micros"@[2]);
    assert("m"@[0] != "s"@[0]);
    assert("min"@[0] != "sec"@[0]);
    assert("mins"@[0] != "secs"@[0]);
    assert("minutes"@[0] != "seconds"@[0]);
    assert("minutes"@[0] != "nanosec"@[0]);
    assert("second"@[0] != "millis"@[0]);
    assert("second"@[0] != "micros"@[0]);
    assert("seconds"@[0] != "nanosec"@[0]);
    assert("millisecond"@[2] != "microsecond"@[2]);
    assert("millisecond"@[0] != "nanoseconds"@[0]);
    assert("ms"@[0] != "us"@[0]);
    assert("ms"@[0] != "ns"@[0]);
    assert("millis"@[2] != "micros"@[2]);
    assert("millisec"@[2] != "microsec"@[2]);
    assert("millisec"@[0] != "nanosecs"@[0]);
    assert("millisecs"@[2] != "microsecs"@[2]);
    assert("millisecs"@[0] != "fortnight"@[0]);
    assert("milliseconds"@[2] != "microseconds"@[2]);
    assert("microsecond"@[0] != "nanoseconds"@[0]);
    assert("us"@[0] != "ns"@[0]);
    assert("microsec"@[0] != "nanosecs"@[0]);
    assert("microsecs"@[0] != "fortnight"@[0]);
}

} // verus!
