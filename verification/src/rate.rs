//! Rate computation from timestamped cumulative counter readings.
//!
//! A `RateTracker` remembers the previous counter value and the wall-clock
//! millisecond at which it was read, and turns the next reading into a
//! per-second rate in bits per second. The first reading, a non-positive
//! elapsed interval, and a counter that went backwards all yield a rate of
//! zero: never a negative or fabricated value.

use vstd::prelude::*;

verus! {

/// The rate, in bits per second, implied by two timestamped readings of a
/// cumulative byte counter. Zero when no time has passed; a counter that
/// decreased (wrap or reset) counts as no growth; the result saturates at
/// `u64::MAX`.
pub open spec fn spec_rate_bps(prev_counter: u64, prev_ms: u64, counter: u64, now_ms: u64) -> u64 {
    if now_ms <= prev_ms {
        0u64
    } else {
        let delta: int = if counter >= prev_counter {
            counter - prev_counter
        } else {
            0
        };
        let bps: int = delta * 8000 / (now_ms - prev_ms);
        if bps > u64::MAX {
            u64::MAX as u64
        } else {
            bps as u64
        }
    }
}

/// Converts two timestamped cumulative counter readings into a per-second
/// rate. Holds at most one baseline: the previous reading.
pub struct RateTracker {
    prev: Option<(u64, u64)>,
}

impl RateTracker {
    /// The remembered previous reading: `(counter, at_ms)`, or `None` when
    /// there is no baseline yet.
    pub closed spec fn baseline(self) -> Option<(u64, u64)> {
        self.prev
    }

    /// A fresh tracker has no baseline, so its first reading yields rate 0.
    pub fn new() -> (r: Self)
        ensures
            r.baseline() is None,
    {
        RateTracker { prev: None }
    }

    /// Drops the baseline, as when the counter source was unavailable for a
    /// cycle: the next reading is treated as a first reading.
    pub fn reset(&mut self)
        ensures
            final(self).baseline() is None,
    {
        self.prev = None;
    }

    /// Feeds one reading of the cumulative counter, taken at `now_ms`
    /// (milliseconds of wall-clock time), and returns the rate in bits per
    /// second since the previous reading: 0 on the first reading, and
    /// otherwise exactly `spec_rate_bps` of the two readings.
    pub fn update(&mut self, counter: u64, now_ms: u64) -> (rate_bps: u64)
        ensures
            final(self).baseline() == Some((counter, now_ms)),
            rate_bps == match old(self).baseline() {
                Some(b) => spec_rate_bps(b.0, b.1, counter, now_ms),
                None => 0u64,
            },
    {
        let rate: u64 = match self.prev {
            None => 0,
            Some((prev_counter, prev_ms)) => {
                if now_ms <= prev_ms {
                    0
                } else {
                    let delta: u64 = if counter >= prev_counter {
                        counter - prev_counter
                    } else {
                        0
                    };
                    let elapsed: u64 = now_ms - prev_ms;
                    let bps: u128 = (delta as u128) * 8000 / (elapsed as u128);
                    if bps > u64::MAX as u128 {
                        u64::MAX
                    } else {
                        bps as u64
                    }
                }
            },
        };
        self.prev = Some((counter, now_ms));
        rate
    }
}

} // verus!
