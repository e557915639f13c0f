use telemy::netsample::{sum_counters, NetworkSampler};
use telemy::sampler::mem_centi_percent;

#[test]
fn interface_counters_sum_with_saturation() {
    let counters = vec![(10u64, 20u64), (5, 7)];
    assert_eq!(sum_counters(&counters), (15, 27));

    let saturating = vec![(u64::MAX, 1u64), (2, 3)];
    assert_eq!(sum_counters(&saturating), (u64::MAX, 4));

    let empty: Vec<(u64, u64)> = Vec::new();
    assert_eq!(sum_counters(&empty), (0, 0));
}

#[test]
fn first_network_sample_reports_zero_rates() {
    let mut sampler = NetworkSampler::new();
    assert_eq!(sampler.sample(1_000), (0, 0));
}

#[test]
fn reset_makes_the_next_sample_a_first_sample() {
    let mut sampler = NetworkSampler::new();
    let _ = sampler.sample(1_000);
    sampler.reset();
    assert_eq!(sampler.sample(2_000), (0, 0));
}

#[test]
fn memory_ratio_in_hundredths_of_a_percent() {
    assert_eq!(mem_centi_percent(0, 0), 0);
    assert_eq!(mem_centi_percent(1, 4), 2_500);
    assert_eq!(mem_centi_percent(4, 4), 10_000);
    // A used figure beyond the total clamps at 100%.
    assert_eq!(mem_centi_percent(5, 4), 10_000);
}
