use telemy::model::{NetworkFrame, RawOutputStatus, RawStreamStatus, SystemFrame};
use telemy::sampler::collect_frame;

fn system() -> SystemFrame {
    SystemFrame { cpu_centi_pct: 2500, mem_centi_pct: 4100, gpu_pct: Some(30), gpu_temp_c: Some(55) }
}

fn network() -> NetworkFrame {
    NetworkFrame { upload_bps: 800_000_000, download_bps: 1_000_000, latency_ms: 12 }
}

fn raw_outputs() -> Vec<(String, RawOutputStatus)> {
    vec![
        (
            String::from("adv_stream"),
            RawOutputStatus { total_frames: 1000, skipped_frames: 50, duration_ms: 8000, bytes: 1_000_000 },
        ),
        (
            String::from("adv_file_output"),
            RawOutputStatus { total_frames: 500, skipped_frames: 0, duration_ms: 8000, bytes: 0 },
        ),
    ]
}

#[test]
fn snapshot_reflects_the_cycle_readings() {
    let status = Some(RawStreamStatus { active: true, total_frames: 1500, skipped_frames: 150 });
    let f = collect_frame(42, raw_outputs(), status, false, system(), network());

    assert_eq!(f.timestamp_unix, 42);
    assert!(f.obs.connected);
    assert!(f.obs.streaming);
    assert_eq!(f.obs.total_frames, 1500);
    assert_eq!(f.obs.total_dropped_frames, 150);
    assert_eq!(f.system, system());
    assert_eq!(f.network, network());

    assert_eq!(f.streams.len(), 2);
    assert_eq!(f.streams[0].name, "adv_stream");
    assert_eq!(f.streams[0].drop_ppm, 50_000);
    assert_eq!(f.streams[0].bitrate_kbps, 1000);
    assert_eq!(f.streams[0].fps_milli, 125_000);
    // The second output's own drop is zero, so it inherits the
    // connection-level ratio: 150 / 1500 = 10%.
    assert_eq!(f.streams[1].drop_ppm, 100_000);

    // Health: mean of 5% and 10% is 7.5%, health 92.5%.
    assert_eq!(f.health_ppm, 925_000);
}

#[test]
fn disconnected_cycle_degrades_to_unknowns() {
    let f = collect_frame(7, Vec::new(), None, true, system(), network());
    assert!(!f.obs.connected);
    assert!(!f.obs.streaming);
    assert!(!f.obs.test_mode);
    assert_eq!(f.obs.total_frames, 0);
    assert_eq!(f.streams.len(), 0);
    assert_eq!(f.health_ppm, 0);
}

#[test]
fn identical_readings_give_identical_snapshots_except_timestamp() {
    let status = Some(RawStreamStatus { active: true, total_frames: 1500, skipped_frames: 150 });
    let f1 = collect_frame(100, raw_outputs(), status, true, system(), network());
    let f2 = collect_frame(250, raw_outputs(), status, true, system(), network());

    assert_ne!(f1.timestamp_unix, f2.timestamp_unix);
    assert_eq!(f1.health_ppm, f2.health_ppm);
    assert_eq!(f1.obs, f2.obs);
    assert_eq!(f1.system, f2.system);
    assert_eq!(f1.network, f2.network);
    assert_eq!(f1.streams, f2.streams);
}

#[test]
fn test_mode_flag_carries_through_when_connected() {
    let status = Some(RawStreamStatus { active: false, total_frames: 0, skipped_frames: 0 });
    let f = collect_frame(1, Vec::new(), status, true, system(), network());
    assert!(f.obs.connected);
    assert!(f.obs.test_mode);
}
