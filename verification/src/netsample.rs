//! Host network sampling: cumulative interface counters fed through
//! `RateTracker`.
//!
//! The interface counters come from the host through sysinfo; which
//! interfaces exist and what their counters hold depend on the machine, so
//! the trusted readers promise nothing about the values. Everything after
//! the read is verified: the per-interface counters are summed with
//! saturation, and the totals go through the trackers, so the first cycle
//! and a clock anomaly yield 0, never a negative or fabricated rate.

use vstd::prelude::*;

use crate::rate::{spec_rate_bps, RateTracker};

verus! {

#[verifier::external_type_specification]
#[verifier::external_body]
pub struct ExNetworks(sysinfo::Networks);

#[verifier::external_type_specification]
#[verifier::external_body]
pub struct ExNetworkData(sysinfo::NetworkData);

/// Relies on sysinfo's `Networks::new_with_refreshed_list`: a handle on the
/// host's network interface list.
#[verifier::external_body]
fn networks_new() -> sysinfo::Networks {
    sysinfo::Networks::new_with_refreshed_list()
}

/// Relies on sysinfo's `Networks::refresh`: re-reads each known
/// interface's counters from the host.
#[verifier::external_body]
fn networks_refresh(nets: &mut sysinfo::Networks) {
    nets.refresh();
}

/// Relies on sysinfo's `NetworkData::total_received` and
/// `NetworkData::total_transmitted`: each interface's cumulative
/// `(received, transmitted)` byte counters. The values and their order
/// depend on the machine, so nothing is promised of them.
#[verifier::external_body]
fn interface_totals(nets: &sysinfo::Networks) -> Vec<(u64, u64)> {
    nets.list().values().map(|d| (d.total_received(), d.total_transmitted())).collect()
}

/// The exact sum of the received-byte counters of a list of interfaces.
pub open spec fn spec_rx_total(s: Seq<(u64, u64)>) -> int
    decreases s.len(),
{
    if s.len() == 0 {
        0
    } else {
        spec_rx_total(s.drop_last()) + s.last().0
    }
}

/// The exact sum of the transmitted-byte counters of a list of interfaces.
pub open spec fn spec_tx_total(s: Seq<(u64, u64)>) -> int
    decreases s.len(),
{
    if s.len() == 0 {
        0
    } else {
        spec_tx_total(s.drop_last()) + s.last().1
    }
}

/// Sums per-interface `(received, transmitted)` byte counters across all
/// interfaces, saturating at `u64::MAX`.
pub fn sum_counters(counters: &Vec<(u64, u64)>) -> (totals: (u64, u64))
    ensures
        totals.0 == if spec_rx_total(counters@) > u64::MAX {
            u64::MAX as int
        } else {
            spec_rx_total(counters@)
        },
        totals.1 == if spec_tx_total(counters@) > u64::MAX {
            u64::MAX as int
        } else {
            spec_tx_total(counters@)
        },
{
    let mut rx: u64 = 0;
    let mut tx: u64 = 0;
    let n = counters.len();
    let mut i: usize = 0;
    while i < n
        invariant
            i <= n,
            n == counters@.len(),
            rx == if spec_rx_total(counters@.take(i as int)) > u64::MAX {
                u64::MAX as int
            } else {
                spec_rx_total(counters@.take(i as int))
            },
            tx == if spec_tx_total(counters@.take(i as int)) > u64::MAX {
                u64::MAX as int
            } else {
                spec_tx_total(counters@.take(i as int))
            },
        decreases n - i,
    {
        proof {
            assert(counters@.take(i + 1).drop_last() =~= counters@.take(i as int));
            assert(counters@.take(i + 1).last() == counters@[i as int]);
        }
        let (r, t) = counters[i];
        rx = if rx > u64::MAX - r {
            u64::MAX
        } else {
            rx + r
        };
        tx = if tx > u64::MAX - t {
            u64::MAX
        } else {
            tx + t
        };
        i = i + 1;
    }
    proof {
        assert(counters@.take(n as int) =~= counters@);
    }
    (rx, tx)
}

/// Samples the host's network throughput: reads the cumulative interface
/// counters each cycle and converts them into upload and download rates.
pub struct NetworkSampler {
    nets: sysinfo::Networks,
    up: RateTracker,
    down: RateTracker,
}

impl NetworkSampler {
    /// The upload tracker's baseline: the previous total of transmitted
    /// bytes, with its reading time.
    pub closed spec fn up_baseline(self) -> Option<(u64, u64)> {
        self.up.baseline()
    }

    /// The download tracker's baseline: the previous total of received
    /// bytes, with its reading time.
    pub closed spec fn down_baseline(self) -> Option<(u64, u64)> {
        self.down.baseline()
    }

    /// A fresh sampler with no baseline: its first sample reports (0, 0).
    pub fn new() -> (r: Self)
        ensures
            r.up_baseline() is None,
            r.down_baseline() is None,
    {
        NetworkSampler { nets: networks_new(), up: RateTracker::new(), down: RateTracker::new() }
    }

    /// Reads the interface counters at `now_ms` and returns
    /// `(upload_bps, download_bps)`. Whatever totals the host reported
    /// become the new baselines, and each rate is exactly the tracker's
    /// rate between the old baseline and the new total: 0 on the first
    /// sample or when no time has passed.
    pub fn sample(&mut self, now_ms: u64) -> (rates: (u64, u64))
        ensures
            old(self).up_baseline() is None ==> rates.0 == 0,
            old(self).down_baseline() is None ==> rates.1 == 0,
            ({
                &&& final(self).up_baseline() matches Some(up_now)
                &&& up_now.1 == now_ms
                &&& rates.0 == match old(self).up_baseline() {
                    Some(b) => spec_rate_bps(b.0, b.1, up_now.0, now_ms),
                    None => 0u64,
                }
            }),
            ({
                &&& final(self).down_baseline() matches Some(down_now)
                &&& down_now.1 == now_ms
                &&& rates.1 == match old(self).down_baseline() {
                    Some(b) => spec_rate_bps(b.0, b.1, down_now.0, now_ms),
                    None => 0u64,
                }
            }),
    {
        networks_refresh(&mut self.nets);
        let counters = interface_totals(&self.nets);
        let (rx_total, tx_total) = sum_counters(&counters);
        let upload_bps = self.up.update(tx_total, now_ms);
        let download_bps = self.down.update(rx_total, now_ms);
        (upload_bps, download_bps)
    }

    /// Drops both baselines, as after a cycle in which the counter source
    /// was unavailable.
    pub fn reset(&mut self)
        ensures
            final(self).up_baseline() is None,
            final(self).down_baseline() is None,
    {
        self.up.reset();
        self.down.reset();
    }
}

} // verus!
