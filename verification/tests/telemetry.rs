use arkheion::history::{RollingBuffer, HISTORY_CAPACITY};
use arkheion::metrics::{
    throughput, EngineMetrics, MetricsStore, PollOutcome, Status, TPS_BASE, TPS_MOD,
};

#[test]
fn fresh_history_is_zero_filled() {
    let b = RollingBuffer::new();
    assert_eq!(b.len(), 20);
    assert_eq!(b.to_vec(), vec![0u64; 20]);
}

#[test]
fn push_evicts_oldest() {
    // Pushing 1..=21 into a capacity-20 buffer leaves exactly 2..=21.
    let mut b = RollingBuffer::new();
    for v in 1..=21u64 {
        b.push(v);
    }
    let expected: Vec<u64> = (2..=21u64).collect();
    assert_eq!(b.to_vec(), expected);
    assert_eq!(b.len(), 20);
}

#[test]
fn window_after_exactly_capacity_pushes() {
    let mut b = RollingBuffer::new();
    for v in 100..120u64 {
        b.push(v);
    }
    let expected: Vec<u64> = (100..120u64).collect();
    assert_eq!(b.to_vec(), expected);
    assert_eq!(b.len(), HISTORY_CAPACITY);
}

#[test]
fn partial_fill_keeps_sentinel_prefix() {
    let mut b = RollingBuffer::new();
    b.push(7);
    b.push(8);
    let mut expected = vec![0u64; 18];
    expected.push(7);
    expected.push(8);
    assert_eq!(b.to_vec(), expected);
    assert_eq!(b.len(), 20);
}

#[test]
fn duplicate_is_independent() {
    let mut b = RollingBuffer::new();
    b.push(3);
    let copy = b.duplicate();
    b.push(4);
    assert_eq!(copy.to_vec()[19], 3);
    assert_eq!(b.to_vec()[19], 4);
    assert_eq!(b.to_vec()[18], 3);
}

#[test]
fn throughput_is_pure_formula() {
    assert_eq!(TPS_BASE, 2000);
    assert_eq!(TPS_MOD, 1500);
    assert_eq!(throughput(0), 2000);
    assert_eq!(throughput(1000), 3000);
    assert_eq!(throughput(1500), 2000);
    assert_eq!(throughput(3001), 2001);
    assert_eq!(throughput(u64::MAX), 2000 + u64::MAX % 1500);
    // Same height, same figure, however often it is asked.
    assert_eq!(throughput(424242), throughput(424242));
}

#[test]
fn default_snapshot_is_booting_and_zeroed() {
    let m = EngineMetrics::default();
    assert_eq!(m.slot, 0);
    assert_eq!(m.tps, 0);
    assert_eq!(m.epoch, 0);
    assert_eq!(m.latency, 0);
    assert_eq!(m.status, Status::Booting);
    assert_eq!(m.status.label(), "BOOTING");
    assert_eq!(m.history.to_vec(), vec![0u64; 20]);
}

#[test]
fn successful_poll_fills_snapshot() {
    let mut m = EngineMetrics::default();
    m.apply_poll(&PollOutcome::Success { height: 1000, epoch: 5, latency_ms: 12 });
    let s = m.snapshot();
    assert_eq!(s.slot, 1000);
    assert_eq!(s.epoch, 5);
    assert_eq!(s.latency, 12);
    assert_eq!(s.tps, 3000);
    assert_eq!(s.status.label(), "OPERATIONAL");
    assert_eq!(s.history.to_vec()[19], 3000);
}

#[test]
fn failed_poll_changes_only_status() {
    let mut m = EngineMetrics::default();
    m.apply_poll(&PollOutcome::Success { height: 1000, epoch: 5, latency_ms: 12 });
    let before = m.snapshot();
    m.apply_poll(&PollOutcome::Failure);
    assert_eq!(m.slot, 1000);
    assert_eq!(m.epoch, before.epoch);
    assert_eq!(m.latency, before.latency);
    assert_eq!(m.tps, before.tps);
    assert_eq!(m.history.to_vec(), before.history.to_vec());
    assert_eq!(m.status.label(), "RECONNECTING");
}

#[test]
fn booting_never_recurs_after_first_poll() {
    let mut m = EngineMetrics::default();
    assert_eq!(m.status, Status::Booting);
    m.apply_poll(&PollOutcome::Failure);
    assert_ne!(m.status, Status::Booting);
    m.apply_poll(&PollOutcome::Success { height: 9, epoch: 1, latency_ms: 3 });
    assert_ne!(m.status, Status::Booting);
    m.apply_poll(&PollOutcome::Failure);
    assert_ne!(m.status, Status::Booting);
}

#[test]
fn snapshot_is_independent_of_later_polls() {
    let mut m = EngineMetrics::default();
    m.apply_poll(&PollOutcome::Success { height: 10, epoch: 1, latency_ms: 2 });
    let s = m.snapshot();
    m.apply_poll(&PollOutcome::Success { height: 20, epoch: 2, latency_ms: 4 });
    assert_eq!(s.slot, 10);
    assert_eq!(m.slot, 20);
    assert_eq!(s.history.to_vec()[19], throughput(10));
    assert_eq!(m.history.to_vec()[19], throughput(20));
}

#[test]
fn shared_store_serves_committed_snapshots() {
    let store = MetricsStore::new();
    let boot = store.read();
    assert_eq!(boot.status, Status::Booting);
    assert_eq!(boot.slot, 0);

    store.write(&PollOutcome::Success { height: 1000, epoch: 5, latency_ms: 12 });
    let s = store.read();
    assert_eq!(s.slot, 1000);
    assert_eq!(s.epoch, 5);
    assert_eq!(s.latency, 12);
    assert_eq!(s.status, Status::Operational);

    store.write(&PollOutcome::Failure);
    let t = store.read();
    assert_eq!(t.slot, 1000);
    assert_eq!(t.status, Status::Reconnecting);
    assert_eq!(t.history.to_vec(), s.history.to_vec());
}

#[test]
fn status_labels() {
    assert_eq!(Status::Booting.label(), "BOOTING");
    assert_eq!(Status::Operational.label(), "OPERATIONAL");
    assert_eq!(Status::Reconnecting.label(), "RECONNECTING");
}
