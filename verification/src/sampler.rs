//! Composition of one sampling cycle's readings into an immutable snapshot.
//!
//! The sampling loop gathers raw values — per-output counters, the
//! aggregate streaming status, host readings, network rates, the latency
//! probe's result — and `collect_frame` turns them into one
//! `TelemetryFrame`. The composition is a pure function of its inputs:
//! health is computed strictly from this cycle's outputs, a missing reading
//! degrades to its zero/unknown representation, and nothing stale is
//! retained.

use vstd::prelude::*;

use crate::health::{
    apply_drop_fallback, compute_health, derive_output, drop_ppm, spec_drop_ppm, spec_health_ppm,
    spec_output_metric, spec_with_drop_fallback,
};
use crate::model::{
    NetworkFrame, ObsFrame, RawOutputStatus, RawStreamStatus, StreamOutput, SystemFrame,
    TelemetryFrame,
};

verus! {

/// The memory-used ratio in hundredths of a percent: `used / total * 100`,
/// clamped to 100%; 0 when the total is unknown (zero).
pub open spec fn spec_mem_centi_percent(used: u64, total: u64) -> u32 {
    if total == 0 {
        0u32
    } else {
        let centi: int = used * 10_000 / total as int;
        if centi > 10_000 {
            10_000u32
        } else {
            centi as u32
        }
    }
}

/// Computes the memory-used ratio, in hundredths of a percent, from the
/// host's used and total byte counts.
pub fn mem_centi_percent(used: u64, total: u64) -> (r: u32)
    ensures
        r == spec_mem_centi_percent(used, total),
        r <= 10_000,
{
    if total == 0 {
        0
    } else {
        let centi: u128 = (used as u128) * 10_000 / (total as u128);
        if centi > 10_000 {
            10_000
        } else {
            centi as u32
        }
    }
}

/// The connection-level drop ratio in parts per million: derived from the
/// aggregate streaming status, 0 when no status was obtained.
pub open spec fn spec_conn_drop_ppm(status: Option<RawStreamStatus>) -> u32 {
    match status {
        Some(s) => spec_drop_ppm(s.skipped_frames, s.total_frames),
        None => 0u32,
    }
}

/// The aggregate connection frame of one cycle. Without a streaming status
/// — disconnected, or the read failed mid-cycle — every field is at its
/// unknown representation.
pub open spec fn spec_obs_frame(status: Option<RawStreamStatus>, test_mode: bool) -> ObsFrame {
    match status {
        Some(s) => ObsFrame {
            connected: true,
            streaming: s.active,
            recording: false,
            test_mode,
            total_dropped_frames: s.skipped_frames,
            total_frames: s.total_frames,
        },
        None => ObsFrame {
            connected: false,
            streaming: false,
            recording: false,
            test_mode: false,
            total_dropped_frames: 0u64,
            total_frames: 0u64,
        },
    }
}

/// The metric record of one listed output: derived from its raw counters,
/// with the connection-level drop ratio as fallback for a zero drop figure.
pub open spec fn spec_cycle_output(
    raw: (String, RawOutputStatus),
    status: Option<RawStreamStatus>,
) -> StreamOutput {
    spec_with_drop_fallback(spec_output_metric(raw.0, raw.1), spec_conn_drop_ppm(status))
}

/// Whether `f` is exactly the snapshot that one cycle's raw readings
/// determine. Everything but the timestamp is a function of the readings.
pub open spec fn collected_frame(
    f: TelemetryFrame,
    timestamp_unix: u64,
    raw_outputs: Seq<(String, RawOutputStatus)>,
    status: Option<RawStreamStatus>,
    test_mode: bool,
    system: SystemFrame,
    network: NetworkFrame,
) -> bool {
    &&& f.timestamp_unix == timestamp_unix
    &&& f.obs == spec_obs_frame(status, test_mode)
    &&& f.system == system
    &&& f.network == network
    &&& f.streams@.len() == raw_outputs.len()
    &&& forall|i: int|
        0 <= i < raw_outputs.len() ==> f.streams@[i] == spec_cycle_output(
            #[trigger] raw_outputs[i],
            status,
        )
    &&& f.health_ppm == spec_health_ppm(f.streams@)
}

/// Composes one cycle's raw readings into the cycle's snapshot.
///
/// `raw_outputs` lists the outputs the application reported this cycle,
/// with zeroed counters where a per-output read failed; `status` is `None`
/// when no connection was held or the status read failed. Health is
/// computed from this cycle's outputs alone.
pub fn collect_frame(
    timestamp_unix: u64,
    raw_outputs: Vec<(String, RawOutputStatus)>,
    status: Option<RawStreamStatus>,
    test_mode: bool,
    system: SystemFrame,
    network: NetworkFrame,
) -> (f: TelemetryFrame)
    ensures
        collected_frame(
            f,
            timestamp_unix,
            raw_outputs@,
            status,
            test_mode,
            system,
            network,
        ),
        f.wf(),
{
    let conn_drop_ppm: u32 = match &status {
        Some(s) => drop_ppm(s.skipped_frames, s.total_frames),
        None => 0,
    };
    let obs = match &status {
        Some(s) => ObsFrame {
            connected: true,
            streaming: s.active,
            recording: false,
            test_mode,
            total_dropped_frames: s.skipped_frames,
            total_frames: s.total_frames,
        },
        None => ObsFrame {
            connected: false,
            streaming: false,
            recording: false,
            test_mode: false,
            total_dropped_frames: 0,
            total_frames: 0,
        },
    };
    let mut streams: Vec<StreamOutput> = Vec::new();
    let n = raw_outputs.len();
    let mut i: usize = 0;
    while i < n
        invariant
            i <= n,
            n == raw_outputs@.len(),
            streams@.len() == i,
            forall|j: int|
                0 <= j < i ==> streams@[j] == spec_output_metric(
                    (#[trigger] raw_outputs@[j]).0,
                    raw_outputs@[j].1,
                ),
            forall|j: int|
                0 <= j < i ==> (#[trigger] streams@[j]).drop_ppm <= 1_000_000,
        decreases n - i,
    {
        let name = raw_outputs[i].0.clone();
        let derived = derive_output(name, &raw_outputs[i].1);
        streams.push(derived);
        i = i + 1;
    }
    apply_drop_fallback(&mut streams, conn_drop_ppm);
    proof {
        assert forall|j: int| 0 <= j < raw_outputs@.len() implies streams@[j] == spec_cycle_output(
            #[trigger] raw_outputs@[j],
            status,
        ) by {}
        assert forall|j: int|
            0 <= j < streams@.len() implies (#[trigger] streams@[j]).drop_ppm <= 1_000_000 by {
            assert(streams@[j] == spec_cycle_output(raw_outputs@[j], status));
        }
    }
    let health_ppm = compute_health(&streams);
    TelemetryFrame {
        timestamp_unix,
        health_ppm,
        obs,
        system,
        network,
        streams,
    }
}

/// Determinism law: two snapshots composed from identical raw readings are
/// field-for-field identical except for their timestamps.
pub proof fn lemma_cycle_deterministic(
    f1: TelemetryFrame,
    f2: TelemetryFrame,
    t1: u64,
    t2: u64,
    raw_outputs: Seq<(String, RawOutputStatus)>,
    status: Option<RawStreamStatus>,
    test_mode: bool,
    system: SystemFrame,
    network: NetworkFrame,
)
    requires
        collected_frame(f1, t1, raw_outputs, status, test_mode, system, network),
        collected_frame(f2, t2, raw_outputs, status, test_mode, system, network),
    ensures
        f1.health_ppm == f2.health_ppm,
        f1.obs == f2.obs,
        f1.system == f2.system,
        f1.network == f2.network,
        f1.streams@ == f2.streams@,
{
    assert forall|i: int| 0 <= i < f1.streams@.len() implies f1.streams@[i] == f2.streams@[i] by {
        assert(f1.streams@[i] == spec_cycle_output(raw_outputs[i], status));
        assert(f2.streams@[i] == spec_cycle_output(raw_outputs[i], status));
    }
    assert(f1.streams@ =~= f2.streams@);
}

} // verus!
