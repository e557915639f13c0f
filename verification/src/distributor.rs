//! Fan-out of the latest snapshot to any number of independent readers.
//!
//! A single writer publishes the newest `TelemetryFrame`; readers fetch the
//! current value at their own pace. The distributor is a single-slot cell
//! with a version counter: publishing replaces the slot and bumps the
//! version, and never touches, waits for, or even knows of any reader — a
//! reader that never polls costs the writer nothing. Each reader keeps only
//! its own cursor, so the snapshots one reader observes carry monotonically
//! non-decreasing versions and timestamps: no reordering, no
//! skipped-then-repeated value.

use vstd::prelude::*;

use crate::model::{frame_matches, TelemetryFrame};

verus! {

/// Single-slot "latest value" cell: one writer, any number of readers.
pub struct Distributor {
    current: TelemetryFrame,
    version: u64,
}

impl Distributor {
    /// The currently published snapshot.
    pub closed spec fn current(self) -> TelemetryFrame {
        self.current
    }

    /// How many snapshots have been published into this distributor.
    pub closed spec fn version(self) -> u64 {
        self.version
    }

    /// A distributor holding its initial snapshot, at version 0.
    pub fn new(initial: TelemetryFrame) -> (r: Self)
        ensures
            r.current() == initial,
            r.version() == 0,
    {
        Distributor { current: initial, version: 0 }
    }

    /// Publishes the newest snapshot: the slot is replaced whole — a reader
    /// observes either the previous or the new value, never a partial one —
    /// and the version is bumped. The snapshot's timestamp may not go
    /// backwards: the sampler's cycles produce non-decreasing timestamps.
    pub fn publish(&mut self, frame: TelemetryFrame)
        requires
            old(self).version() < u64::MAX,
            frame.timestamp_unix >= old(self).current().timestamp_unix,
        ensures
            final(self).current() == frame,
            final(self).version() == old(self).version() + 1,
    {
        self.current = frame;
        self.version = self.version + 1;
    }

    /// The current snapshot's version, for a reader deciding whether there
    /// is anything new.
    pub fn current_version(&self) -> (v: u64)
        ensures
            v == self.version(),
    {
        self.version
    }

    /// A copy of the current snapshot: non-blocking, best available value.
    pub fn latest(&self) -> (f: TelemetryFrame)
        ensures
            frame_matches(f, self.current()),
    {
        self.current.duplicate()
    }
}

/// One reader's private cursor over a distributor: the version and
/// timestamp of the snapshot it last observed. Readers share nothing, so
/// any number of them can poll concurrently with the writer's cadence
/// unaffected.
pub struct SnapshotReader {
    last_version: u64,
    last_timestamp: u64,
}

impl SnapshotReader {
    /// The version of the last snapshot this reader observed; 0 before any.
    pub closed spec fn last_version(self) -> u64 {
        self.last_version
    }

    /// The timestamp of the last snapshot this reader observed; 0 before
    /// any.
    pub closed spec fn last_timestamp(self) -> u64 {
        self.last_timestamp
    }

    /// Whether this reader's cursor is consistent with a distributor: it
    /// has not observed past the distributor's version, nor a timestamp
    /// newer than the published one. Holds for a fresh reader, and
    /// publishing never breaks it (`lemma_publish_preserves_sync`).
    pub open spec fn in_sync(self, d: Distributor) -> bool {
        &&& self.last_version() <= d.version()
        &&& self.last_timestamp() <= d.current().timestamp_unix
    }

    /// A fresh reader that has observed nothing yet.
    pub fn new() -> (r: Self)
        ensures
            r.last_version() == 0,
            r.last_timestamp() == 0,
    {
        SnapshotReader { last_version: 0, last_timestamp: 0 }
    }

    /// Fetches the current snapshot if it is newer than the last one this
    /// reader observed. The observed timestamps never decrease: each
    /// returned snapshot's timestamp is at least the previous one's.
    pub fn poll(&mut self, d: &Distributor) -> (r: Option<TelemetryFrame>)
        requires
            old(self).in_sync(*d),
        ensures
            final(self).in_sync(*d),
            match r {
                Some(f) => {
                    &&& frame_matches(f, d.current())
                    &&& old(self).last_version() < d.version()
                    &&& f.timestamp_unix >= old(self).last_timestamp()
                    &&& final(self).last_version() == d.version()
                    &&& final(self).last_timestamp() == f.timestamp_unix
                },
                None => {
                    &&& old(self).last_version() == d.version()
                    &&& *final(self) == *old(self)
                },
            },
    {
        if self.last_version < d.current_version() {
            let f = d.latest();
            self.last_version = d.current_version();
            self.last_timestamp = f.timestamp_unix;
            Some(f)
        } else {
            None
        }
    }
}

/// No back-pressure law: publishing a snapshot leaves every reader's cursor
/// consistent. A publish raises the version and never lowers the published
/// timestamp, so a reader that is slow, or never polls at all, stays in
/// sync and affects nothing.
pub proof fn lemma_publish_preserves_sync(
    r: SnapshotReader,
    before: Distributor,
    after: Distributor,
)
    requires
        r.in_sync(before),
        after.version() >= before.version(),
        after.current().timestamp_unix >= before.current().timestamp_unix,
    ensures
        r.in_sync(after),
{
}

} // verus!
