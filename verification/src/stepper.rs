//! Step-pulse batching for a pulse generator with a small on-chip buffer.

use vstd::prelude::*;

verus! {

/// RMT clock divider: with an 80 MHz base clock, divider 4 gives 20 MHz
/// (50 ns per tick).
pub const RMT_CLK_DIVIDER: u8 = 4;

/// Step pulse width in RMT ticks: 20 ticks = 1 µs per half period.
pub const STEP_PULSE_TICKS: u16 = 20;

/// Maximum number of step pulses per transmission batch (63 pulses plus one
/// end marker fill a 64-entry channel).
pub const STEP_BATCH_SIZE: usize = 63;

/// The sum of a sequence of batch sizes.
pub open spec fn total(s: Seq<usize>) -> int
    decreases s.len(),
{
    if s.len() == 0 {
        0
    } else {
        total(s.drop_last()) + s.last()
    }
}

/// The batches in which `count` step pulses are sent: full batches of
/// `STEP_BATCH_SIZE`, then the rest. Their sizes add up to `count`, each
/// batch holds between 1 and `STEP_BATCH_SIZE` pulses, and every batch but
/// the last is full. No batch is sent for a count of 0.
pub fn step_batches(count: u32) -> (b: Vec<usize>)
    ensures
        total(b@) == count,
        forall|i: int| 0 <= i < b@.len() ==> 1 <= #[trigger] b@[i] <= STEP_BATCH_SIZE,
        forall|i: int| 0 <= i < b@.len() - 1 ==> #[trigger] b@[i] == STEP_BATCH_SIZE,
        count == 0 <==> b@.len() == 0,
{
    let mut remaining: u32 = count;
    let mut b: Vec<usize> = Vec::new();
    while remaining > 0
        invariant
            total(b@) + remaining == count,
            forall|i: int| 0 <= i < b@.len() ==> #[trigger] b@[i] == STEP_BATCH_SIZE,
            total(b@) == 63 * b@.len(),
        decreases remaining,
    {
        let batch: u32 = if remaining < 63 {
            remaining
        } else {
            63
        };
        let ghost old_b = b@;
        b.push(batch as usize);
        assert(b@.drop_last() =~= old_b);
        remaining = remaining - batch;
        if batch < 63 {
            assert(remaining == 0);
            proof {
                assert(forall|i: int| 0 <= i < b@.len() - 1 ==> #[trigger] b@[i] == STEP_BATCH_SIZE);
            }
            assert(total(b@) == count);
            return b;
        }
    }
    b
}

} // verus!
