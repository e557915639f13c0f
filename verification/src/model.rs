//! The immutable telemetry snapshot and its parts.
//!
//! All ratio-like quantities are fixed-point integers: drop ratios and the
//! health score are parts per million of 1.0 (`1_000_000` means 1.0), CPU and
//! memory load are hundredths of a percent (`10_000` means 100%), network
//! rates are bits per second. Optional GPU readings are absent (`None`) when
//! no GPU backend is available, never a fabricated zero.

use vstd::prelude::*;

verus! {

/// Aggregate state of the control connection to the instrumented
/// application, as observed in one cycle.
#[derive(Clone, Copy, PartialEq, Eq, Structural, Debug)]
pub struct ObsFrame {
    pub connected: bool,
    pub streaming: bool,
    pub recording: bool,
    pub test_mode: bool,
    pub total_dropped_frames: u64,
    pub total_frames: u64,
}

/// Host CPU, memory and optional GPU readings; percentages in hundredths of
/// a percent.
#[derive(Clone, Copy, PartialEq, Eq, Structural, Debug)]
pub struct SystemFrame {
    pub cpu_centi_pct: u32,
    pub mem_centi_pct: u32,
    pub gpu_pct: Option<u32>,
    pub gpu_temp_c: Option<u32>,
}

/// Host network rates in bits per second; `latency_ms == 0` means the probe
/// failed or was disabled, not a measured zero latency.
#[derive(Clone, Copy, PartialEq, Eq, Structural, Debug)]
pub struct NetworkFrame {
    pub upload_bps: u64,
    pub download_bps: u64,
    pub latency_ms: u32,
}

/// Per-output metrics derived from the instrumented application's raw
/// counters. `name` is the application's stable output identifier, not a
/// user-facing display name. `drop_ppm` is the drop ratio in parts per
/// million of 1.0; `fps_milli` is frames per second times 1000.
#[derive(Clone, Debug)]
pub struct StreamOutput {
    pub name: String,
    pub bitrate_kbps: u32,
    pub drop_ppm: u32,
    pub fps_milli: u64,
    pub encoding_lag_ms: u32,
}

/// Whether two per-output metric records carry the same data: equal names
/// (as character sequences) and equal metric fields.
pub open spec fn output_matches(a: StreamOutput, b: StreamOutput) -> bool {
    &&& a.name@ == b.name@
    &&& a.bitrate_kbps == b.bitrate_kbps
    &&& a.drop_ppm == b.drop_ppm
    &&& a.fps_milli == b.fps_milli
    &&& a.encoding_lag_ms == b.encoding_lag_ms
}

impl PartialEq for StreamOutput {
    fn eq(&self, other: &Self) -> (r: bool) {
        self.name == other.name && self.bitrate_kbps == other.bitrate_kbps
            && self.drop_ppm == other.drop_ppm && self.fps_milli == other.fps_milli
            && self.encoding_lag_ms == other.encoding_lag_ms
    }
}

impl vstd::std_specs::cmp::PartialEqSpecImpl for StreamOutput {
    open spec fn obeys_eq_spec() -> bool {
        true
    }

    open spec fn eq_spec(&self, other: &Self) -> bool {
        output_matches(*self, *other)
    }
}

impl StreamOutput {
    /// An exact copy; the snapshot itself is never mutated, so readers get
    /// copies.
    pub fn duplicate(&self) -> (r: Self)
        ensures
            r == *self,
    {
        StreamOutput {
            name: self.name.clone(),
            bitrate_kbps: self.bitrate_kbps,
            drop_ppm: self.drop_ppm,
            fps_milli: self.fps_milli,
            encoding_lag_ms: self.encoding_lag_ms,
        }
    }
}

/// One immutable telemetry snapshot, produced once per sampling cycle.
/// `health_ppm` is the aggregate health score in parts per million of 1.0.
/// `streams` holds only the outputs reported in the current cycle.
#[derive(Clone, Debug)]
pub struct TelemetryFrame {
    pub timestamp_unix: u64,
    pub health_ppm: u32,
    pub obs: ObsFrame,
    pub system: SystemFrame,
    pub network: NetworkFrame,
    pub streams: Vec<StreamOutput>,
}

/// Whether two snapshots carry the same data, field for field; the output
/// list is compared by its contents.
pub open spec fn frame_matches(a: TelemetryFrame, b: TelemetryFrame) -> bool {
    &&& a.timestamp_unix == b.timestamp_unix
    &&& a.health_ppm == b.health_ppm
    &&& a.obs == b.obs
    &&& a.system == b.system
    &&& a.network == b.network
    &&& a.streams@ == b.streams@
}

impl TelemetryFrame {
    /// A snapshot is well formed when its ratio fields are genuine ratios:
    /// the health score and every per-output drop ratio are at most 1.0.
    pub open spec fn wf(self) -> bool {
        &&& self.health_ppm <= 1_000_000
        &&& forall|i: int|
            0 <= i < self.streams@.len() ==> (#[trigger] self.streams@[i]).drop_ppm <= 1_000_000
    }

    /// An exact copy of the snapshot, so that a reader can take the current
    /// value without disturbing the published one.
    pub fn duplicate(&self) -> (r: Self)
        ensures
            frame_matches(r, *self),
    {
        let mut streams: Vec<StreamOutput> = Vec::new();
        let n = self.streams.len();
        let mut i: usize = 0;
        while i < n
            invariant
                i <= n,
                n == self.streams@.len(),
                streams@ == self.streams@.take(i as int),
            decreases n - i,
        {
            streams.push(self.streams[i].duplicate());
            proof {
                assert(streams@ =~= self.streams@.take(i + 1));
            }
            i = i + 1;
        }
        proof {
            assert(streams@ =~= self.streams@);
        }
        TelemetryFrame {
            timestamp_unix: self.timestamp_unix,
            health_ppm: self.health_ppm,
            obs: self.obs,
            system: self.system,
            network: self.network,
            streams,
        }
    }
}

/// Raw per-output counters as the instrumented application reports them:
/// cumulative frames, skipped frames, running duration in milliseconds, and
/// bytes sent.
#[derive(Clone, Copy, PartialEq, Eq, Structural, Debug)]
pub struct RawOutputStatus {
    pub total_frames: u64,
    pub skipped_frames: u64,
    pub duration_ms: u64,
    pub bytes: u64,
}

/// Raw aggregate streaming status from the instrumented application.
#[derive(Clone, Copy, PartialEq, Eq, Structural, Debug)]
pub struct RawStreamStatus {
    pub active: bool,
    pub total_frames: u64,
    pub skipped_frames: u64,
}

} // verus!
