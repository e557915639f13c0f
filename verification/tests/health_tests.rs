use telemy::health::{apply_drop_fallback, compute_health, derive_output};
use telemy::model::{RawOutputStatus, StreamOutput};

fn output_with_drop(drop_ppm: u32) -> StreamOutput {
    StreamOutput {
        name: String::from("out"),
        bitrate_kbps: 0,
        drop_ppm,
        fps_milli: 0,
        encoding_lag_ms: 0,
    }
}

#[test]
fn empty_output_set_scores_zero() {
    let outputs: Vec<StreamOutput> = Vec::new();
    assert_eq!(compute_health(&outputs), 0);
}

#[test]
fn health_is_one_minus_mean_drop() {
    // Drops of 5% and 15%: mean 10%, health 90%.
    let outputs = vec![output_with_drop(50_000), output_with_drop(150_000)];
    assert_eq!(compute_health(&outputs), 900_000);
}

#[test]
fn perfect_outputs_score_full_health() {
    let outputs = vec![output_with_drop(0), output_with_drop(0)];
    assert_eq!(compute_health(&outputs), 1_000_000);
}

#[test]
fn health_clamps_at_zero() {
    // A drop figure beyond 1.0 can only come from outside the derivation;
    // the score still clamps to the valid range.
    let outputs = vec![output_with_drop(3_000_000)];
    assert_eq!(compute_health(&outputs), 0);
}

#[test]
fn drop_ratio_from_frame_counters() {
    let status = RawOutputStatus {
        total_frames: 1000,
        skipped_frames: 50,
        duration_ms: 0,
        bytes: 0,
    };
    let o = derive_output(String::from("stream"), &status);
    assert_eq!(o.drop_ppm, 50_000);
    let as_fraction = o.drop_ppm as f64 / 1_000_000.0;
    assert_eq!(as_fraction, 0.05);
}

#[test]
fn zero_total_frames_gives_zero_drop() {
    let status = RawOutputStatus {
        total_frames: 0,
        skipped_frames: 50,
        duration_ms: 1000,
        bytes: 0,
    };
    let o = derive_output(String::from("stream"), &status);
    assert_eq!(o.drop_ppm, 0);
}

#[test]
fn bitrate_rounds_to_kilobits_per_second() {
    let status = RawOutputStatus {
        total_frames: 0,
        skipped_frames: 0,
        duration_ms: 8000,
        bytes: 1_000_000,
    };
    let o = derive_output(String::from("stream"), &status);
    assert_eq!(o.bitrate_kbps, 1000);
}

#[test]
fn bitrate_rounds_half_up() {
    // 1000 bytes over 16 seconds: 0.5 kbps, which rounds up to 1.
    let status = RawOutputStatus {
        total_frames: 0,
        skipped_frames: 0,
        duration_ms: 16_000,
        bytes: 1000,
    };
    let o = derive_output(String::from("stream"), &status);
    assert_eq!(o.bitrate_kbps, 1);

    // 999 bytes over 16 seconds: just under half, rounds down to 0.
    let below = RawOutputStatus {
        total_frames: 0,
        skipped_frames: 0,
        duration_ms: 16_000,
        bytes: 999,
    };
    assert_eq!(derive_output(String::from("stream"), &below).bitrate_kbps, 0);
}

#[test]
fn zero_duration_gives_zero_bitrate_and_fps() {
    let status = RawOutputStatus {
        total_frames: 100,
        skipped_frames: 0,
        duration_ms: 0,
        bytes: 1_000_000,
    };
    let o = derive_output(String::from("stream"), &status);
    assert_eq!(o.bitrate_kbps, 0);
    assert_eq!(o.fps_milli, 0);
}

#[test]
fn fps_from_frames_and_duration() {
    let status = RawOutputStatus {
        total_frames: 1000,
        skipped_frames: 0,
        duration_ms: 8000,
        bytes: 0,
    };
    let o = derive_output(String::from("stream"), &status);
    // 1000 frames in 8 seconds: 125 fps.
    assert_eq!(o.fps_milli, 125_000);
}

#[test]
fn bitrate_and_fps_saturate_rather_than_overflow() {
    let status = RawOutputStatus {
        total_frames: u64::MAX,
        skipped_frames: 0,
        duration_ms: 1,
        bytes: u64::MAX,
    };
    let o = derive_output(String::from("stream"), &status);
    assert_eq!(o.bitrate_kbps, u32::MAX);
    assert_eq!(o.fps_milli, u64::MAX);
}

#[test]
fn drop_clamps_when_skipped_exceeds_total() {
    let status = RawOutputStatus {
        total_frames: 10,
        skipped_frames: 30,
        duration_ms: 0,
        bytes: 0,
    };
    let o = derive_output(String::from("stream"), &status);
    assert_eq!(o.drop_ppm, 1_000_000);
}

#[test]
fn zero_drop_inherits_connection_level_ratio() {
    let mut outputs = vec![output_with_drop(0), output_with_drop(20_000)];
    apply_drop_fallback(&mut outputs, 70_000);
    assert_eq!(outputs[0].drop_ppm, 70_000);
    assert_eq!(outputs[1].drop_ppm, 20_000);
}
