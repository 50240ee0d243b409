//! The fixed-timestep driver decision: from the accumulated real time and
//! the newly elapsed time, how many whole simulation ticks are due, and how
//! much time is carried into the next frame. The caller performs the ticks
//! and the waiting; simulation time thereby stays decoupled from the
//! rendering rate — a slow frame runs several ticks, never reordered.

use vstd::prelude::*;

use vstd::arithmetic::div_mod::lemma_fundamental_div_mod;

verus! {

/// Split the time on hand into whole tick steps and a remainder: returns
/// `(ticks, carry)` with `accumulator + elapsed == ticks * step + carry`
/// and `carry < step`, which determines both uniquely. Times are in any
/// one unit the caller picks (for example nanoseconds per step).
pub fn ticks_due(accumulator: u64, elapsed: u64, step: u64) -> (r: (u64, u64))
    requires
        step > 0,
        accumulator + elapsed <= u64::MAX,
    ensures
        accumulator + elapsed == r.0 * step + r.1,
        r.1 < step,
{
    let total: u64 = accumulator + elapsed;
    let n: u64 = total / step;
    let rem: u64 = total % step;
    proof {
        lemma_fundamental_div_mod(total as int, step as int);
        assert(step as int * (total as int / step as int) == (total as int / step as int)
            * step as int) by (nonlinear_arith);
    }
    (n, rem)
}

} // verus!
