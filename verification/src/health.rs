//! Derivation of per-output metrics from raw counters, and the aggregate
//! health score.
//!
//! Ratios are fixed-point: parts per million of 1.0. The aggregate health is
//! `1 - mean(drop ratio)` over the cycle's outputs, clamped to `[0, 1]`, and
//! exactly 0 when the cycle reported no outputs (idle, not perfect).

use vstd::prelude::*;

use crate::model::{RawOutputStatus, StreamOutput};

verus! {

/// One full unit (1.0) in parts per million.
pub const PPM_SCALE: u32 = 1_000_000;

/// Drop ratio in parts per million: `skipped / total`, clamped to 1.0; zero
/// (not an error) when no frames were counted.
pub open spec fn spec_drop_ppm(skipped: u64, total: u64) -> u32 {
    if total == 0 {
        0u32
    } else {
        let ppm: int = skipped * 1_000_000 / total as int;
        if ppm > 1_000_000 {
            1_000_000u32
        } else {
            ppm as u32
        }
    }
}

/// Frames per second, times 1000: `frames / seconds`, saturating at
/// `u64::MAX`; zero when no frames or no time were counted.
pub open spec fn spec_fps_milli(total_frames: u64, duration_ms: u64) -> u64 {
    if total_frames == 0 || duration_ms == 0 {
        0u64
    } else {
        let milli: int = total_frames * 1_000_000 / duration_ms as int;
        if milli > u64::MAX {
            u64::MAX as u64
        } else {
            milli as u64
        }
    }
}

/// Bitrate in kilobits per second, rounded half up: `bytes * 8 / seconds /
/// 1000`, which is `bytes * 8 / milliseconds`; saturating at `u32::MAX`;
/// zero when no time was counted.
pub open spec fn spec_bitrate_kbps(bytes: u64, duration_ms: u64) -> u32 {
    if duration_ms == 0 {
        0u32
    } else {
        let kbps: int = (bytes * 16 + duration_ms) / (2 * duration_ms as int);
        if kbps > u32::MAX {
            u32::MAX as u32
        } else {
            kbps as u32
        }
    }
}

/// The per-output metric record derived from one output's raw counters.
/// The application reports no per-output encoding lag, so that field is 0.
pub open spec fn spec_output_metric(name: String, r: RawOutputStatus) -> StreamOutput {
    StreamOutput {
        name,
        bitrate_kbps: spec_bitrate_kbps(r.bytes, r.duration_ms),
        drop_ppm: spec_drop_ppm(r.skipped_frames, r.total_frames),
        fps_milli: spec_fps_milli(r.total_frames, r.duration_ms),
        encoding_lag_ms: 0u32,
    }
}

/// An output whose own drop figure is exactly zero inherits the
/// connection-level drop ratio: per-output counters are not always
/// populated, and a zero conflates "no drops" with "no data".
pub open spec fn spec_with_drop_fallback(o: StreamOutput, conn_drop_ppm: u32) -> StreamOutput {
    if o.drop_ppm == 0 {
        StreamOutput { drop_ppm: conn_drop_ppm, ..o }
    } else {
        o
    }
}

/// The sum of the drop ratios of a sequence of outputs.
pub open spec fn sum_drop_ppm(s: Seq<StreamOutput>) -> int
    decreases s.len(),
{
    if s.len() == 0 {
        0
    } else {
        sum_drop_ppm(s.drop_last()) + s.last().drop_ppm
    }
}

/// Aggregate health in parts per million: `1 - mean(drop ratio)`, clamped to
/// `[0, 1]`; 0 for an empty output set. The mean truncates toward zero.
pub open spec fn spec_health_ppm(s: Seq<StreamOutput>) -> u32 {
    if s.len() == 0 {
        0u32
    } else {
        let mean: int = sum_drop_ppm(s) / s.len() as int;
        if mean >= 1_000_000 {
            0u32
        } else {
            (1_000_000 - mean) as u32
        }
    }
}

/// Computes the drop ratio of `skipped` out of `total` frames, in parts
/// per million, clamped to 1.0.
pub fn drop_ppm(skipped: u64, total: u64) -> (r: u32)
    ensures
        r == spec_drop_ppm(skipped, total),
        r <= 1_000_000,
{
    if total == 0 {
        0
    } else {
        let ppm: u128 = (skipped as u128) * 1_000_000 / (total as u128);
        if ppm > 1_000_000 {
            1_000_000
        } else {
            ppm as u32
        }
    }
}

/// Derives the metric record for one output from its raw counters.
pub fn derive_output(name: String, status: &RawOutputStatus) -> (o: StreamOutput)
    ensures
        o == spec_output_metric(name, *status),
        o.drop_ppm <= 1_000_000,
{
    let drop_ppm: u32 = drop_ppm(status.skipped_frames, status.total_frames);
    let fps_milli: u64 = if status.total_frames == 0 || status.duration_ms == 0 {
        0
    } else {
        let milli: u128 = (status.total_frames as u128) * 1_000_000
            / (status.duration_ms as u128);
        if milli > u64::MAX as u128 {
            u64::MAX
        } else {
            milli as u64
        }
    };
    let bitrate_kbps: u32 = if status.duration_ms == 0 {
        0
    } else {
        let kbps: u128 = ((status.bytes as u128) * 16 + (status.duration_ms as u128))
            / (2 * (status.duration_ms as u128));
        if kbps > u32::MAX as u128 {
            u32::MAX
        } else {
            kbps as u32
        }
    };
    StreamOutput { name, bitrate_kbps, drop_ppm, fps_milli, encoding_lag_ms: 0 }
}

/// Replaces each output's zero drop figure with the connection-level drop
/// ratio, leaving nonzero figures alone.
pub fn apply_drop_fallback(outputs: &mut Vec<StreamOutput>, conn_drop_ppm: u32)
    ensures
        final(outputs)@.len() == old(outputs)@.len(),
        forall|i: int|
            0 <= i < old(outputs)@.len() ==> final(outputs)@[i] == spec_with_drop_fallback(
                #[trigger] old(outputs)@[i],
                conn_drop_ppm,
            ),
{
    let n = outputs.len();
    let mut i: usize = 0;
    while i < n
        invariant
            i <= n,
            n == outputs@.len(),
            outputs@.len() == old(outputs)@.len(),
            forall|j: int|
                i <= j < outputs@.len() ==> #[trigger] outputs@[j] == old(outputs)@[j],
            forall|j: int|
                0 <= j < i ==> outputs@[j] == spec_with_drop_fallback(
                    #[trigger] old(outputs)@[j],
                    conn_drop_ppm,
                ),
        decreases n - i,
    {
        if outputs[i].drop_ppm == 0 {
            let name = outputs[i].name.clone();
            let updated = StreamOutput { name, drop_ppm: conn_drop_ppm, ..outputs[i].duplicate() };
            outputs.set(i, updated);
        }
        i = i + 1;
    }
}

/// Computes the aggregate health score of one cycle's outputs, in parts per
/// million: `1 - mean(drop ratio)` clamped to `[0, 1]`, and 0 when there are
/// no outputs.
pub fn compute_health(outputs: &Vec<StreamOutput>) -> (health_ppm: u32)
    ensures
        health_ppm == spec_health_ppm(outputs@),
        health_ppm <= 1_000_000,
{
    let n = outputs.len();
    if n == 0 {
        return 0;
    }
    let mut sum: u128 = 0;
    let mut i: usize = 0;
    while i < n
        invariant
            i <= n,
            n == outputs@.len(),
            sum == sum_drop_ppm(outputs@.take(i as int)),
            sum <= (i as int) * (u32::MAX as int),
        decreases n - i,
    {
        proof {
            assert(outputs@.take(i + 1).drop_last() =~= outputs@.take(i as int));
            assert(outputs@.take(i + 1).last() == outputs@[i as int]);
        }
        sum = sum + outputs[i].drop_ppm as u128;
        i = i + 1;
    }
    proof {
        assert(outputs@.take(n as int) =~= outputs@);
    }
    let mean: u128 = sum / (n as u128);
    if mean >= 1_000_000 {
        0
    } else {
        1_000_000 - (mean as u32)
    }
}

} // verus!
