//! The live metrics snapshot and the poller's update rules.
//!
//! A background poller queries the upstream ledger RPC endpoint once per
//! [`crate::routes::POLL_INTERVAL_MS`]. Each outcome is applied here: a
//! successful sample replaces height, epoch and latency, derives a
//! synthetic throughput figure from the height, marks the snapshot
//! `Operational` and pushes the figure into the rolling history; a failed
//! sample only flips the status to `Reconnecting` and leaves every other
//! field as the last good sample left it.

use crate::history::{shifted, HISTORY_CAPACITY, RollingBuffer};
use vstd::prelude::*;
use vstd::rwlock::{RwLock, RwLockPredicate};

verus! {

/// Base of the synthetic throughput estimate.
pub const TPS_BASE: u64 = 2000;

/// Modulus of the synthetic throughput estimate.
pub const TPS_MOD: u64 = 1500;

/// Connectivity of the poller, as of its last outcome.
#[derive(Clone, Copy, PartialEq, Eq, Structural, Debug)]
pub enum Status {
    /// Initial state only: no poll has completed yet.
    Booting,
    /// The last poll succeeded.
    Operational,
    /// The last poll failed; the snapshot is the last good sample.
    Reconnecting,
}

impl Status {
    /// The wire label of this status, as served to API consumers.
    pub fn label(&self) -> (r: String)
        ensures
            *self == Status::Booting ==> r@ == "BOOTING"@,
            *self == Status::Operational ==> r@ == "OPERATIONAL"@,
            *self == Status::Reconnecting ==> r@ == "RECONNECTING"@,
    {
        match self {
            Status::Booting => "BOOTING".to_owned(),
            Status::Operational => "OPERATIONAL".to_owned(),
            Status::Reconnecting => "RECONNECTING".to_owned(),
        }
    }
}

/// The synthetic throughput estimate: a pure function of the height
/// alone. The upstream endpoint reports no real throughput, so the
/// service derives this proxy figure.
pub open spec fn throughput_of(height: u64) -> u64 {
    (TPS_BASE + height % TPS_MOD) as u64
}

/// Derive the synthetic throughput figure for `height`.
pub fn throughput(height: u64) -> (r: u64)
    ensures
        r == throughput_of(height),
{
    TPS_BASE + height % TPS_MOD
}

/// What one poll of the upstream endpoint came to.
pub enum PollOutcome {
    /// The query answered: the reported height and epoch, and the
    /// measured round-trip time.
    Success { height: u64, epoch: u64, latency_ms: u128 },
    /// The query failed or timed out.
    Failure,
}

/// The authoritative current state served to API consumers.
pub struct EngineMetrics {
    /// Latest observed chain height.
    pub slot: u64,
    /// Synthetic throughput estimate, `throughput_of(slot)`.
    pub tps: u64,
    /// Epoch reported by the latest successful poll.
    pub epoch: u64,
    /// Round-trip time of the latest successful poll, in milliseconds.
    pub latency: u128,
    /// Connectivity as of the latest poll outcome.
    pub status: Status,
    /// Rolling history of the most recent throughput figures.
    pub history: RollingBuffer,
}

impl EngineMetrics {
    /// The snapshot is well formed when its history ring is.
    pub open spec fn wf(&self) -> bool {
        self.history.wf()
    }

    /// Runtime check of the structural invariant, for callers outside
    /// the verifier's reach.
    pub fn well_formed(&self) -> (b: bool)
        ensures
            b == self.wf(),
    {
        self.history.well_formed()
    }

    /// Apply a successful poll: replace height, epoch and latency,
    /// derive the throughput figure, mark the snapshot operational and
    /// push the figure into the history.
    pub fn record_success(&mut self, height: u64, epoch: u64, latency_ms: u128)
        requires
            old(self).wf(),
        ensures
            final(self).wf(),
            final(self).slot == height,
            final(self).epoch == epoch,
            final(self).latency == latency_ms,
            final(self).tps == throughput_of(height),
            final(self).status == Status::Operational,
            final(self).history@ == shifted(old(self).history@, throughput_of(height)),
    {
        let tps = throughput(height);
        self.slot = height;
        self.epoch = epoch;
        self.latency = latency_ms;
        self.tps = tps;
        self.status = Status::Operational;
        self.history.push(tps);
    }

    /// Apply a failed poll: only the status changes; height, epoch,
    /// latency, throughput and history keep the last good sample.
    pub fn record_failure(&mut self)
        ensures
            final(self).status == Status::Reconnecting,
            final(self).slot == old(self).slot,
            final(self).tps == old(self).tps,
            final(self).epoch == old(self).epoch,
            final(self).latency == old(self).latency,
            final(self).history == old(self).history,
            old(self).wf() ==> final(self).wf(),
    {
        self.status = Status::Reconnecting;
    }

    /// Apply one poll outcome. After any outcome the snapshot is never
    /// `Booting` again: that state belongs to initialization alone.
    pub fn apply_poll(&mut self, outcome: &PollOutcome)
        requires
            old(self).wf(),
        ensures
            final(self).wf(),
            final(self).status != Status::Booting,
            match *outcome {
                PollOutcome::Success { height, epoch, latency_ms } => {
                    &&& final(self).slot == height
                    &&& final(self).epoch == epoch
                    &&& final(self).latency == latency_ms
                    &&& final(self).tps == throughput_of(height)
                    &&& final(self).status == Status::Operational
                    &&& final(self).history@ == shifted(
                        old(self).history@,
                        throughput_of(height),
                    )
                },
                PollOutcome::Failure => {
                    &&& final(self).status == Status::Reconnecting
                    &&& final(self).slot == old(self).slot
                    &&& final(self).tps == old(self).tps
                    &&& final(self).epoch == old(self).epoch
                    &&& final(self).latency == old(self).latency
                    &&& final(self).history == old(self).history
                },
            },
    {
        match outcome {
            PollOutcome::Success { height, epoch, latency_ms } => {
                self.record_success(*height, *epoch, *latency_ms);
            },
            PollOutcome::Failure => {
                self.record_failure();
            },
        }
    }

    /// An independent copy of the snapshot, as handed to one reader.
    pub fn snapshot(&self) -> (r: EngineMetrics)
        requires
            self.wf(),
        ensures
            r.wf(),
            r.slot == self.slot,
            r.tps == self.tps,
            r.epoch == self.epoch,
            r.latency == self.latency,
            r.status == self.status,
            r.history@ == self.history@,
    {
        EngineMetrics {
            slot: self.slot,
            tps: self.tps,
            epoch: self.epoch,
            latency: self.latency,
            status: self.status,
            history: self.history.duplicate(),
        }
    }
}

/// What the metrics lock may hold: only well-formed snapshots.
pub struct MetricsInv {}

impl RwLockPredicate<EngineMetrics> for MetricsInv {
    open spec fn inv(self, m: EngineMetrics) -> bool {
        m.wf()
    }
}

/// The shared metrics store: one snapshot under a lock, written by the
/// poller alone and read — as an independent clone — by any number of
/// concurrent readers. Neither side holds the lock beyond the in-memory
/// step, and a reader can never observe a half-applied update: every
/// value the lock releases is one complete snapshot.
pub struct MetricsStore {
    lock: RwLock<EngineMetrics, MetricsInv>,
}

impl MetricsStore {
    /// A store holding the initial snapshot.
    pub fn new() -> (s: MetricsStore) {
        MetricsStore { lock: RwLock::new(EngineMetrics::default(), Ghost(MetricsInv {})) }
    }

    /// Atomic read: briefly hold the shared lock, clone the snapshot,
    /// release. The clone is always a complete, well-formed snapshot.
    pub fn read(&self) -> (r: EngineMetrics)
        ensures
            r.wf(),
    {
        let handle = self.lock.acquire_read();
        let r = handle.borrow().snapshot();
        handle.release_read();
        r
    }

    /// Atomic write: briefly hold the exclusive lock and apply one poll
    /// outcome, as [`EngineMetrics::apply_poll`] states it. No reader
    /// runs between the fields changing: the update commits as a whole.
    pub fn write(&self, outcome: &PollOutcome) {
        let (mut m, handle) = self.lock.acquire_write();
        m.apply_poll(outcome);
        handle.release_write(m);
    }
}

impl Default for EngineMetrics {
    /// The snapshot at process start: all counters zero, a zero-filled
    /// history, and the one-time `Booting` status.
    fn default() -> (r: Self)
        ensures
            r.wf(),
            r.slot == 0,
            r.tps == 0,
            r.epoch == 0,
            r.latency == 0,
            r.status == Status::Booting,
            r.history@ == Seq::new(HISTORY_CAPACITY as nat, |i: int| 0u64),
    {
        EngineMetrics {
            slot: 0,
            tps: 0,
            epoch: 0,
            latency: 0,
            status: Status::Booting,
            history: RollingBuffer::new(),
        }
    }
}

} // verus!
