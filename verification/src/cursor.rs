//! The sweep cursor: stepping linearly through a frequency range and
//! wrapping at its end.

use vstd::prelude::*;

verus! {

/// Where the scan stands: the frequency currently tuned and, in bookmark
/// mode, the index of the bookmark it belongs to.
#[derive(Clone, Copy, Debug, PartialEq, Eq, Structural)]
pub struct ScanCursor {
    /// Current frequency in Hz.
    pub freq: u64,
    /// Current bookmark index; unused in sweep mode.
    pub index: usize,
}

/// The frequency after one sweep advance: one step up, wrapping back to the
/// start of the range exactly when the step would leave it.
pub open spec fn sweep_next_spec(cur: int, min: int, max: int, step: int) -> int {
    if cur + step > max {
        min
    } else {
        cur + step
    }
}

/// One sweep advance. The result never leaves `[min, max]`, and it wraps to
/// `min` exactly when `cur + step` would pass `max`.
pub fn sweep_next(cur: u64, min: u64, max: u64, step: u64) -> (r: u64)
    requires
        min <= cur <= max,
        step >= 1,
    ensures
        r == sweep_next_spec(cur as int, min as int, max as int, step as int),
        min <= r <= max,
        (r == min) <==> (cur + step > max),
{
    if max - cur < step {
        min
    } else {
        cur + step
    }
}

/// Where a sweep stands after `n` advances from `cur`.
pub open spec fn sweep_iter_spec(cur: int, min: int, max: int, step: int, n: nat) -> int
    decreases n,
{
    if n == 0 {
        cur
    } else {
        sweep_next_spec(sweep_iter_spec(cur, min, max, step, (n - 1) as nat), min, max, step)
    }
}

/// However many advances a valid sweep makes, the frequency never leaves
/// `[min, max]`.
pub proof fn lemma_sweep_stays_in_range(cur: int, min: int, max: int, step: int, n: nat)
    requires
        min <= cur <= max,
        step >= 1,
    ensures
        min <= sweep_iter_spec(cur, min, max, step, n) <= max,
    decreases n,
{
    if n > 0 {
        lemma_sweep_stays_in_range(cur, min, max, step, (n - 1) as nat);
    }
}

} // verus!
