//! Detection of an attached debugger: the outcome of the attach-denial
//! request, and a timing probe that notices single-stepping.
//!
//! The host makes the request and reads the clock; this module holds the
//! request code, the work that is timed, the threshold and the two decisions.

use vstd::prelude::*;

verus! {

/// The request code by which a process on macOS or iOS denies debuggers the
/// right to attach to it. The request also fails when a debugger is attached
/// already.
pub const PT_DENY_ATTACH: i32 = 31;

/// The longest time the probe's work may take, in units of the host's
/// monotonic clock. On recent Apple hardware one unit is about a nanosecond,
/// which makes this about 100 ms; where the unit differs, the constant is
/// to be set anew.
pub const TIMING_THRESHOLD: u64 = 100_000_000;

/// The number of additions that the timing probe performs.
pub const PROBE_ITERATIONS: i32 = 1000;

/// The sum of the integers below `n`.
pub open spec fn sum_below(n: nat) -> nat
    decreases n,
{
    if n == 0 {
        0
    } else {
        (n - 1) as nat + sum_below((n - 1) as nat)
    }
}

/// The attach-denial request reports a debugger by any status but zero.
pub open spec fn attach_refused(status: i32) -> bool {
    status != 0
}

/// A timing sample is suspicious when more than `TIMING_THRESHOLD` units
/// lie between its readings, or when the second reading lies before the
/// first, which a monotonic clock never shows.
pub open spec fn timing_suspicious(start: u64, end: u64) -> bool {
    end < start || end - start > TIMING_THRESHOLD
}

/// Twice the sum of the integers below `n` is `n * (n - 1)`.
pub proof fn lemma_sum_below(n: nat)
    ensures
        2 * sum_below(n) == n * (n - 1),
    decreases n,
{
    if n > 0 {
        lemma_sum_below((n - 1) as nat);
        assert(2 * (n - 1) + (n - 1) * (n - 2) == n * (n - 1)) by (nonlinear_arith);
    }
}

/// Calls `std::hint::black_box`, which returns its argument and keeps the
/// compiler from assuming anything about how the value is used, so that the
/// work that produced it is not removed.
#[verifier::external_body]
fn consume(value: i32) -> (kept: i32)
    ensures
        kept == value,
{
    std::hint::black_box(value)
}

/// Judges the status that the attach-denial request returned: any status but
/// zero counts as a debugger, whatever made the request fail.
pub fn am_i_debugged(status: i32) -> (debugged: bool)
    ensures
        debugged == attach_refused(status),
        debugged <==> status != 0,
{
    status != 0
}

/// The work that the timing probe measures: `PROBE_ITERATIONS` additions,
/// whose sum is passed through an optimisation barrier. The host reads the
/// clock before and after this call.
pub fn probe_workload() -> (sum: i32)
    ensures
        sum == sum_below(PROBE_ITERATIONS as nat),
        sum == 499500,
{
    let mut sum: i32 = 0;
    let mut i: i32 = 0;
    while i < PROBE_ITERATIONS
        invariant
            0 <= i <= PROBE_ITERATIONS,
            sum == sum_below(i as nat),
        decreases PROBE_ITERATIONS - i,
    {
        proof {
            lemma_sum_below(i as nat);
            assert(i * (i - 1) <= 1000 * 1000) by (nonlinear_arith)
                requires
                    0 <= i <= 1000,
            ;
        }
        sum += i;
        i += 1;
    }
    proof {
        lemma_sum_below(1000);
    }
    consume(sum)
}

/// Judges a timing sample: `start` and `end` are the clock readings taken
/// before and after `probe_workload`. A sample that spans more than
/// `TIMING_THRESHOLD` units is suspicious, and so is one that runs
/// backwards.
pub fn check_timing(start: u64, end: u64) -> (suspicious: bool)
    ensures
        suspicious == timing_suspicious(start, end),
        start <= end && end - start <= TIMING_THRESHOLD ==> !suspicious,
        start <= end && end - start > TIMING_THRESHOLD ==> suspicious,
        end < start ==> suspicious,
{
    if end < start {
        return true;
    }
    end - start > TIMING_THRESHOLD
}

} // verus!
