//! Event counters.

use vstd::prelude::*;

verus! {

/// A counter after one more event; counters wrap around at the end of their
/// range.
pub open spec fn bumped(counter: u64) -> u64 {
    if counter == u64::MAX {
        0
    } else {
        (counter + 1) as u64
    }
}

/// Law: a counter counts: one more event makes it one more, and after the end
/// of its range it starts again at zero.
pub proof fn law_counters_count(counter: u64)
    ensures
        (bumped(counter) - counter - 1) % 0x1_0000_0000_0000_0000 == 0,
        counter < u64::MAX ==> bumped(counter) == counter + 1,
{
}

} // verus!
