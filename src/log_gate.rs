//! Bounded-volume logging of repeated capture failures.
use vstd::prelude::*;

verus! {

/// Once the counter reaches this value no further line is logged.
pub const LOG_CEILING: u32 = 1_000_000;

/// A line is logged on every this-many-th failure.
pub const LOG_CADENCE: u32 = 10_000;

/// Whether the failure seen when the counter stands at `count` is logged.
pub open spec fn emits(count: nat) -> bool {
    count < LOG_CEILING && count % (LOG_CADENCE as nat) == 0
}

/// The counter after one more failure: it counts on past the ceiling (only
/// the logging stops there), saturating at the largest `u32`.
pub open spec fn next_count(count: nat) -> nat {
    if count < u32::MAX {
        count + 1
    } else {
        count
    }
}

/// Records one failure in the process-wide counter `count` and tells whether
/// the failure message is to be logged at error severity.
pub fn try_log(count: &mut u32) -> (emit: bool)
    ensures
        emit == emits(*old(count) as nat),
        *final(count) as nat == next_count(*old(count) as nat),
{
    let emit = *count < LOG_CEILING && *count % LOG_CADENCE == 0;
    *count = count.saturating_add(1);
    emit
}

/// The counter after `n` failures recorded from a fresh process.
pub open spec fn count_after(n: nat) -> nat
    decreases n,
{
    if n == 0 {
        0
    } else {
        next_count(count_after((n - 1) as nat))
    }
}

/// How many of the first `n` failures of a fresh process were logged.
pub open spec fn emissions(n: nat) -> nat
    decreases n,
{
    if n == 0 {
        0
    } else {
        emissions((n - 1) as nat) + if emits(count_after((n - 1) as nat)) {
            1nat
        } else {
            0nat
        }
    }
}

/// After `n` failures the counter holds `n` (up to the largest `u32`); so failure number `k` (counting from zero) is logged exactly
/// when `k` is a multiple of the cadence below the ceiling, and `n` failures
/// give one line per started block of the cadence, up to the ceiling.
pub proof fn lemma_log_cadence(n: nat)
    ensures
        count_after(n) == if n < u32::MAX { n } else { u32::MAX as nat },
        emits(count_after(n)) == (n < LOG_CEILING && n % (LOG_CADENCE as nat) == 0),
        emissions(n) == (if n < LOG_CEILING { n } else { LOG_CEILING as nat } + 9_999) / 10_000,
    decreases n,
{
    if n > 0 {
        lemma_log_cadence((n - 1) as nat);
    }
}

} // verus!
