use crate::alerts::{alert_view, evaluate, expected_alerts, Alert, Thresholds};
use crate::history::{keep_last, HistoryPoint, HistoryRing, HISTORY_CAPACITY};
use crate::sample::{clone_vec, MemoryInfo, NetworkInfo, Sample, SystemInfo};
use vstd::prelude::*;
use vstd::rwlock::{RwLock, RwLockPredicate};

verus! {

/// Sum of the receive rates (`received` true) or the transmit rates of
/// `network`, saturated at `u64::MAX`.
pub open spec fn total_rate(network: Seq<NetworkInfo>, received: bool) -> int
    decreases network.len(),
{
    if network.len() == 0 {
        0
    } else {
        let e = network.last();
        let sum = total_rate(network.drop_last(), received) + if received {
            e.received_rate as int
        } else {
            e.transmitted_rate as int
        };
        if sum > u64::MAX {
            u64::MAX as int
        } else {
            sum
        }
    }
}

/// The history point a sample adds for a metric read as `value`.
pub open spec fn point_of(s: Sample, value: int) -> HistoryPoint {
    HistoryPoint { time_ms: s.time_ms, value: value as u64 }
}

/// The latest sample with the five metric histories, the alerts evaluated
/// on that sample, and the host's static facts.
pub struct Snapshot {
    pub sample: Sample,
    pub system_info: SystemInfo,
    pub cpu_history: HistoryRing,
    pub memory_history: HistoryRing,
    pub gpu_history: HistoryRing,
    pub net_down_history: HistoryRing,
    pub net_up_history: HistoryRing,
    pub alerts: Vec<Alert>,
}

/// A ring of the history capacity.
pub open spec fn ring_ok(r: HistoryRing) -> bool {
    r.wf() && r.spec_capacity() == HISTORY_CAPACITY
}

/// The most recent point of `r`, where it has one, is `p`.
pub open spec fn ends_with_point(r: HistoryRing, p: HistoryPoint) -> bool {
    r@.len() > 0 ==> r@.last() == p
}

/// An empty sample taken at the start.
fn empty_sample() -> (r: Sample)
    ensures
        r.time_ms == 0,
        r.cpu_usage == 0,
        r.memory == (MemoryInfo { total: 0, used: 0, percentage: 0 }),
{
    Sample {
        time_ms: 0,
        timestamp: String::new(),
        memory: MemoryInfo { total: 0, used: 0, percentage: 0 },
        cpu_usage: 0,
        cpu_cores: Vec::new(),
        gpu: None,
        processes: Vec::new(),
        disks: Vec::new(),
        network: Vec::new(),
    }
}

/// Saturating sum of the receive or transmit rates of `network`.
fn sum_rates(network: &Vec<NetworkInfo>, received: bool) -> (r: u64)
    ensures
        r == total_rate(network@, received),
{
    let mut total: u64 = 0;
    let n = network.len();
    let mut i: usize = 0;
    while i < n
        invariant
            n == network@.len(),
            i <= n,
            total == total_rate(network@.take(i as int), received),
        decreases n - i,
    {
        assert(network@.take(i + 1).drop_last() =~= network@.take(i as int));
        let e = &network[i];
        let rate = if received {
            e.received_rate
        } else {
            e.transmitted_rate
        };
        total = if total > u64::MAX - rate {
            u64::MAX
        } else {
            total + rate
        };
        i += 1;
    }
    assert(network@.take(n as int) =~= network@);
    total
}

impl Snapshot {
    /// Every history is bounded by the history capacity, and the most recent
    /// CPU, memory and network points are those of the snapshot's own sample.
    pub open spec fn wf(&self) -> bool {
        &&& ring_ok(self.cpu_history)
        &&& ring_ok(self.memory_history)
        &&& ring_ok(self.gpu_history)
        &&& ring_ok(self.net_down_history)
        &&& ring_ok(self.net_up_history)
        &&& ends_with_point(self.cpu_history, point_of(self.sample, self.sample.cpu_usage as int))
        &&& ends_with_point(
            self.memory_history,
            point_of(self.sample, self.sample.memory.percentage as int),
        )
        &&& ends_with_point(
            self.net_down_history,
            point_of(self.sample, total_rate(self.sample.network@, true)),
        )
        &&& ends_with_point(
            self.net_up_history,
            point_of(self.sample, total_rate(self.sample.network@, false)),
        )
    }

    /// The snapshot before the first tick: an empty sample, empty
    /// histories, no alert.
    pub fn new(system_info: SystemInfo) -> (r: Snapshot)
        ensures
            r.wf(),
            r.system_info == system_info,
            r.cpu_history@.len() == 0,
            r.memory_history@.len() == 0,
            r.gpu_history@.len() == 0,
            r.net_down_history@.len() == 0,
            r.net_up_history@.len() == 0,
            r.alerts@.len() == 0,
    {
        Snapshot {
            sample: empty_sample(),
            system_info,
            cpu_history: HistoryRing::new(HISTORY_CAPACITY),
            memory_history: HistoryRing::new(HISTORY_CAPACITY),
            gpu_history: HistoryRing::new(HISTORY_CAPACITY),
            net_down_history: HistoryRing::new(HISTORY_CAPACITY),
            net_up_history: HistoryRing::new(HISTORY_CAPACITY),
            alerts: Vec::new(),
        }
    }

    /// Takes `sample` in: it becomes the current sample, each history gets
    /// its point (the GPU history only when a GPU is present), and the
    /// alerts are evaluated afresh on it against `thresholds`.
    pub fn record(&mut self, sample: Sample, thresholds: &Thresholds)
        requires
            old(self).wf(),
        ensures
            final(self).wf(),
            final(self).sample == sample,
            final(self).system_info == old(self).system_info,
            final(self).cpu_history@ == keep_last(
                old(self).cpu_history@.push(point_of(sample, sample.cpu_usage as int)),
                HISTORY_CAPACITY as nat,
            ),
            final(self).memory_history@ == keep_last(
                old(self).memory_history@.push(point_of(sample, sample.memory.percentage as int)),
                HISTORY_CAPACITY as nat,
            ),
            sample.gpu is Some ==> final(self).gpu_history@ == keep_last(
                old(self).gpu_history@.push(point_of(sample, sample.gpu->0.utilization as int)),
                HISTORY_CAPACITY as nat,
            ),
            sample.gpu is None ==> final(self).gpu_history@ == old(self).gpu_history@,
            final(self).net_down_history@ == keep_last(
                old(self).net_down_history@.push(point_of(sample, total_rate(sample.network@, true))),
                HISTORY_CAPACITY as nat,
            ),
            final(self).net_up_history@ == keep_last(
                old(self).net_up_history@.push(point_of(sample, total_rate(sample.network@, false))),
                HISTORY_CAPACITY as nat,
            ),
            final(self).alerts@.map_values(|a: Alert| alert_view(a)) == expected_alerts(
                sample,
                *thresholds,
            ),
            forall|i: int|
                0 <= i < final(self).alerts@.len() ==> #[trigger] final(self).alerts@[i].timestamp
                    == sample.timestamp,
    {
        let time_ms = sample.time_ms;
        self.cpu_history.push(HistoryPoint { time_ms, value: sample.cpu_usage as u64 });
        self.memory_history.push(HistoryPoint { time_ms, value: sample.memory.percentage as u64 });
        match &sample.gpu {
            Some(gpu) => {
                self.gpu_history.push(HistoryPoint { time_ms, value: gpu.utilization as u64 });
            },
            None => {},
        }
        let down = sum_rates(&sample.network, true);
        let up = sum_rates(&sample.network, false);
        self.net_down_history.push(HistoryPoint { time_ms, value: down });
        self.net_up_history.push(HistoryPoint { time_ms, value: up });
        self.alerts = evaluate(&sample, thresholds, &sample.timestamp);
        self.sample = sample;
    }

    /// Empties every history and the alert list; the sample stays.
    pub fn reset_statistics(&mut self)
        requires
            old(self).wf(),
        ensures
            final(self).wf(),
            final(self).sample == old(self).sample,
            final(self).system_info == old(self).system_info,
            final(self).cpu_history@.len() == 0,
            final(self).memory_history@.len() == 0,
            final(self).gpu_history@.len() == 0,
            final(self).net_down_history@.len() == 0,
            final(self).net_up_history@.len() == 0,
            final(self).alerts@.len() == 0,
    {
        self.cpu_history.clear();
        self.memory_history.clear();
        self.gpu_history.clear();
        self.net_down_history.clear();
        self.net_up_history.clear();
        self.alerts.clear();
    }

    /// Empties the alert list only.
    pub fn clear_alerts(&mut self)
        requires
            old(self).wf(),
        ensures
            final(self).wf(),
            final(self).alerts@.len() == 0,
            final(self).sample == old(self).sample,
            final(self).cpu_history@ == old(self).cpu_history@,
            final(self).memory_history@ == old(self).memory_history@,
    {
        self.alerts.clear();
    }

    /// A copy for a reader: every field is copied exactly, so a well-formed
    /// snapshot copies to a well-formed one.
    pub fn duplicate(&self) -> (r: Snapshot)
        ensures
            r.sample.time_ms == self.sample.time_ms,
            r.sample.timestamp == self.sample.timestamp,
            r.sample.memory == self.sample.memory,
            r.sample.cpu_usage == self.sample.cpu_usage,
            r.sample.cpu_cores@ == self.sample.cpu_cores@,
            r.sample.gpu == self.sample.gpu,
            r.sample.processes@ == self.sample.processes@,
            r.sample.disks@ == self.sample.disks@,
            r.sample.network@ == self.sample.network@,
            r.system_info == self.system_info,
            r.cpu_history@ == self.cpu_history@,
            r.memory_history@ == self.memory_history@,
            r.gpu_history@ == self.gpu_history@,
            r.net_down_history@ == self.net_down_history@,
            r.net_up_history@ == self.net_up_history@,
            r.alerts@ == self.alerts@,
            self.wf() ==> r.wf(),
    {
        Snapshot {
            sample: self.sample.clone(),
            system_info: self.system_info.clone(),
            cpu_history: self.cpu_history.duplicate(),
            memory_history: self.memory_history.duplicate(),
            gpu_history: self.gpu_history.duplicate(),
            net_down_history: self.net_down_history.duplicate(),
            net_up_history: self.net_up_history.duplicate(),
            alerts: clone_vec(&self.alerts),
        }
    }
}

/// What the snapshot store holds at every moment: a well-formed snapshot.
pub struct WellFormedSnapshot {}

impl RwLockPredicate<Snapshot> for WellFormedSnapshot {
    open spec fn inv(self, v: Snapshot) -> bool {
        v.wf()
    }
}

/// The single point of hand-off between the collector, which publishes a
/// whole snapshot at a time, and any number of readers, each of which gets
/// a copy of one published snapshot.
pub struct SnapshotStore {
    lock: RwLock<Snapshot, WellFormedSnapshot>,
}

impl SnapshotStore {
    /// A store that holds `initial` until the first publish.
    pub fn new(initial: Snapshot) -> (r: SnapshotStore)
        requires
            initial.wf(),
    {
        SnapshotStore { lock: RwLock::new(initial, Ghost(WellFormedSnapshot {})) }
    }

    /// Replaces the visible snapshot with `snapshot` as one unit.
    pub fn publish(&self, snapshot: Snapshot)
        requires
            snapshot.wf(),
    {
        let (_previous, handle) = self.lock.acquire_write();
        handle.release_write(snapshot);
    }

    /// A copy of the snapshot visible now. It was published whole: every
    /// snapshot the store can hold is well formed, and a torn mix of two
    /// would not need to be.
    pub fn read(&self) -> (r: Snapshot)
        ensures
            r.wf(),
    {
        let handle = self.lock.acquire_read();
        let r = handle.borrow().duplicate();
        handle.release_read();
        r
    }

    /// Takes `sample` into the visible snapshot as `Snapshot::record` does,
    /// under the lock, so that readers see the snapshot before or after it
    /// and nothing in between.
    pub fn record(&self, sample: Sample, thresholds: &Thresholds) {
        let (mut current, handle) = self.lock.acquire_write();
        current.record(sample, thresholds);
        handle.release_write(current);
    }

    /// Empties the histories and the alert list of the visible snapshot,
    /// as a reset of the statistics asks.
    pub fn reset_statistics(&self) {
        let (mut current, handle) = self.lock.acquire_write();
        current.reset_statistics();
        handle.release_write(current);
    }

    /// Empties the alert list of the visible snapshot.
    pub fn clear_alerts(&self) {
        let (mut current, handle) = self.lock.acquire_write();
        current.clear_alerts();
        handle.release_write(current);
    }
}

} // verus!
