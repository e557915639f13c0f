//! Lifecycle of the control connection to the instrumented application.
//!
//! The supervisor owns the connection's state machine and its timers; it is
//! mutated only by the sampling loop, once per cycle. It decides when the
//! host process should be rechecked and when a connection attempt is
//! eligible; the attempt itself is outside work, whose outcome is reported
//! back through `finish_attempt`. A failed attempt starts a cooldown that
//! suppresses further attempts without ever blocking the cycle, and a read
//! failure against an established connection drops to `Disconnected` for the
//! next cycle.

use vstd::prelude::*;

use crate::kvlist::str_eq;
use crate::text::{lower_of, lowercase};

verus! {

/// Whether the instrumented application's process is among the host's
/// process names, compared without regard to case.
pub fn process_seen(names: &Vec<String>, target: &str) -> (r: bool)
    ensures
        r == exists|i: int|
            0 <= i < names@.len() && lower_of((#[trigger] names@[i])@) == lower_of(target@),
{
    let target_lower = lowercase(target);
    let n = names.len();
    let mut i: usize = 0;
    while i < n
        invariant
            i <= n,
            n == names@.len(),
            target_lower@ == lower_of(target@),
            forall|j: int|
                0 <= j < i ==> lower_of((#[trigger] names@[j])@) != lower_of(target@),
        decreases n - i,
    {
        let name_lower = lowercase(names[i].as_str());
        if str_eq(name_lower.as_str(), target_lower.as_str()) {
            return true;
        }
        i = i + 1;
    }
    false
}

/// The connection's state: `Disconnected` initially and after any failure,
/// `Connecting` while an attempt is in flight, `Connected` after a
/// successful attempt.
#[derive(Clone, Copy, PartialEq, Eq, Structural, Debug)]
pub enum ConnectionState {
    Disconnected,
    Connecting,
    Connected,
}

/// State machine and timer state for the reconnecting control connection.
/// Times are wall-clock milliseconds, handed in by the sampling loop.
pub struct ConnectionSupervisor {
    /// Current connection state.
    pub state: ConnectionState,
    /// Whether liveness of the application's host process is checked before
    /// attempting to connect.
    pub auto_detect: bool,
    /// Last known liveness of the host process; presumed running until a
    /// check says otherwise.
    pub process_running: bool,
    /// When the host process was last checked, if ever.
    pub last_process_check_ms: Option<u64>,
    /// When a connection attempt was last begun, if ever.
    pub last_attempt_ms: Option<u64>,
    /// Minimum time between two connection attempts.
    pub cooldown_ms: u64,
    /// Minimum time between two host-process liveness checks.
    pub process_check_interval_ms: u64,
}

impl ConnectionSupervisor {
    /// Whether a host-process liveness check is due: auto-detection is on
    /// and the check interval has passed since the last check (or none was
    /// made yet).
    pub open spec fn process_check_due(self, now_ms: u64) -> bool {
        &&& self.auto_detect
        &&& match self.last_process_check_ms {
            None => true,
            Some(t) => now_ms >= t + self.process_check_interval_ms,
        }
    }

    /// Whether a connection attempt is eligible: no connection is held, the
    /// host process is presumed running (or auto-detection is off), and the
    /// cooldown since the last attempt has passed (or none was made yet).
    pub open spec fn attempt_due(self, now_ms: u64) -> bool {
        &&& self.state is Disconnected
        &&& (self.process_running || !self.auto_detect)
        &&& match self.last_attempt_ms {
            None => true,
            Some(t) => now_ms >= t + self.cooldown_ms,
        }
    }

    /// A fresh supervisor: disconnected, the host process presumed running,
    /// no check and no attempt made yet.
    pub fn new(auto_detect: bool, cooldown_ms: u64, process_check_interval_ms: u64) -> (r: Self)
        ensures
            r.state is Disconnected,
            r.auto_detect == auto_detect,
            r.process_running,
            r.last_process_check_ms is None,
            r.last_attempt_ms is None,
            r.cooldown_ms == cooldown_ms,
            r.process_check_interval_ms == process_check_interval_ms,
    {
        ConnectionSupervisor {
            state: ConnectionState::Disconnected,
            auto_detect,
            process_running: true,
            last_process_check_ms: None,
            last_attempt_ms: None,
            cooldown_ms,
            process_check_interval_ms,
        }
    }

    /// Whether the sampling loop should recheck the host process now.
    pub fn should_check_process(&self, now_ms: u64) -> (r: bool)
        ensures
            r == self.process_check_due(now_ms),
    {
        self.auto_detect && match self.last_process_check_ms {
            None => true,
            Some(t) => now_ms >= t && now_ms - t >= self.process_check_interval_ms,
        }
    }

    /// Records the outcome of a host-process liveness check made at
    /// `now_ms`. Only the liveness fields change: an established connection
    /// is kept even when the process was not seen.
    pub fn record_process_check(&mut self, now_ms: u64, running: bool)
        ensures
            final(self).last_process_check_ms == Some(now_ms),
            final(self).process_running == running,
            final(self).state == old(self).state,
            final(self).auto_detect == old(self).auto_detect,
            final(self).last_attempt_ms == old(self).last_attempt_ms,
            final(self).cooldown_ms == old(self).cooldown_ms,
            final(self).process_check_interval_ms == old(self).process_check_interval_ms,
    {
        self.last_process_check_ms = Some(now_ms);
        self.process_running = running;
    }

    /// Whether the sampling loop should attempt to connect now.
    pub fn should_attempt(&self, now_ms: u64) -> (r: bool)
        ensures
            r == self.attempt_due(now_ms),
    {
        matches!(self.state, ConnectionState::Disconnected)
            && (self.process_running || !self.auto_detect)
            && match self.last_attempt_ms {
            None => true,
            Some(t) => now_ms >= t && now_ms - t >= self.cooldown_ms,
        }
    }

    /// Marks the start of a connection attempt at `now_ms`: exactly one
    /// attempt per cycle, and only when eligible.
    pub fn begin_attempt(&mut self, now_ms: u64)
        requires
            old(self).attempt_due(now_ms),
        ensures
            final(self).state is Connecting,
            final(self).last_attempt_ms == Some(now_ms),
            final(self).auto_detect == old(self).auto_detect,
            final(self).process_running == old(self).process_running,
            final(self).last_process_check_ms == old(self).last_process_check_ms,
            final(self).cooldown_ms == old(self).cooldown_ms,
            final(self).process_check_interval_ms == old(self).process_check_interval_ms,
    {
        self.state = ConnectionState::Connecting;
        self.last_attempt_ms = Some(now_ms);
    }

    /// Records the outcome of the attempt begun in this cycle: `Connected`
    /// on success, back to `Disconnected` on failure. The attempt time is
    /// kept either way, so a failure starts the cooldown.
    pub fn finish_attempt(&mut self, connected: bool)
        requires
            old(self).state is Connecting,
        ensures
            final(self).state == if connected {
                ConnectionState::Connected
            } else {
                ConnectionState::Disconnected
            },
            final(self).auto_detect == old(self).auto_detect,
            final(self).process_running == old(self).process_running,
            final(self).last_process_check_ms == old(self).last_process_check_ms,
            final(self).last_attempt_ms == old(self).last_attempt_ms,
            final(self).cooldown_ms == old(self).cooldown_ms,
            final(self).process_check_interval_ms == old(self).process_check_interval_ms,
    {
        self.state = if connected {
            ConnectionState::Connected
        } else {
            ConnectionState::Disconnected
        };
    }

    /// Records that a read against the established connection failed: the
    /// connection is dropped for the next cycle. The current cycle keeps
    /// whatever data it had already obtained.
    pub fn record_read_failure(&mut self)
        ensures
            final(self).state is Disconnected,
            final(self).auto_detect == old(self).auto_detect,
            final(self).process_running == old(self).process_running,
            final(self).last_process_check_ms == old(self).last_process_check_ms,
            final(self).last_attempt_ms == old(self).last_attempt_ms,
            final(self).cooldown_ms == old(self).cooldown_ms,
            final(self).process_check_interval_ms == old(self).process_check_interval_ms,
    {
        self.state = ConnectionState::Disconnected;
    }

    /// Whether a live connection is currently held.
    pub fn is_connected(&self) -> (r: bool)
        ensures
            r == (self.state is Connected),
    {
        matches!(self.state, ConnectionState::Connected)
    }
}

/// Backoff law: every connection attempt records its start time, and no
/// further attempt becomes eligible before the cooldown has passed. So two
/// consecutive attempts — in particular two consecutive failures — are
/// separated by at least the configured cooldown, however fast the sampling
/// loop ticks.
pub proof fn lemma_attempt_backoff(s: ConnectionSupervisor, t1: u64, t2: u64)
    requires
        s.last_attempt_ms == Some(t1),
        s.attempt_due(t2),
    ensures
        t2 >= t1 + s.cooldown_ms,
{
}

} // verus!
