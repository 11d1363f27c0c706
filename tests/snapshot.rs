use std::sync::Arc;

use sysmon::alerts::{AlertKind, Thresholds};
use sysmon::history::HistoryPoint;
use sysmon::sample::{GpuInfo, MemoryInfo, NetworkInfo, Sample, SystemInfo};
use sysmon::snapshot::{Snapshot, SnapshotStore};

fn system_info() -> SystemInfo {
    SystemInfo {
        os_name: "Linux".to_string(),
        os_version: "1".to_string(),
        kernel_version: "6".to_string(),
        hostname: "host".to_string(),
        uptime: 1,
        cpu_count: 4,
        cpu_brand: "cpu".to_string(),
    }
}

fn net(rx_rate: u64, tx_rate: u64) -> NetworkInfo {
    NetworkInfo {
        interface: "eth0".to_string(),
        received: 0,
        transmitted: 0,
        received_rate: rx_rate,
        transmitted_rate: tx_rate,
    }
}

fn sample(k: u64, gpu: bool) -> Sample {
    Sample {
        time_ms: k * 2000,
        timestamp: format!("t{}", k),
        memory: MemoryInfo { total: 100, used: k % 100, percentage: (k % 100) as u32 * 100 },
        cpu_usage: (k % 10000) as u32,
        cpu_cores: Vec::new(),
        gpu: if gpu {
            Some(GpuInfo {
                name: "g".to_string(),
                utilization: 4200,
                memory_used: None,
                memory_total: None,
                temperature: Some(50),
            })
        } else {
            None
        },
        processes: Vec::new(),
        disks: Vec::new(),
        network: vec![net(10, 1), net(u64::MAX, 2)],
    }
}

fn enabled() -> Thresholds {
    Thresholds { enabled: true, cpu: 9000, memory: 9000, gpu_temp: 85 }
}

#[test]
fn record_updates_sample_histories_and_alerts() {
    let mut snap = Snapshot::new(system_info());
    snap.record(sample(9500, true), &enabled());
    assert_eq!(snap.sample.time_ms, 19_000_000);
    assert_eq!(snap.cpu_history.to_vec(), vec![HistoryPoint { time_ms: 19_000_000, value: 9500 }]);
    assert_eq!(snap.gpu_history.to_vec(), vec![HistoryPoint { time_ms: 19_000_000, value: 4200 }]);
    assert_eq!(snap.net_down_history.last().unwrap().value, u64::MAX);
    assert_eq!(snap.net_up_history.last().unwrap().value, 3);
    assert_eq!(snap.alerts.len(), 1);
    assert_eq!(snap.alerts[0].kind, AlertKind::CpuHigh);
    assert_eq!(snap.alerts[0].timestamp, "t9500");
    snap.record(sample(1, false), &enabled());
    assert_eq!(snap.gpu_history.len(), 1);
    assert_eq!(snap.cpu_history.len(), 2);
    assert!(snap.alerts.is_empty());
}

#[test]
fn histories_stay_bounded_over_many_ticks() {
    let mut snap = Snapshot::new(system_info());
    for k in 0..150u64 {
        snap.record(sample(k, k % 2 == 0), &enabled());
    }
    assert_eq!(snap.cpu_history.len(), 60);
    assert_eq!(snap.memory_history.len(), 60);
    assert_eq!(snap.gpu_history.len(), 60);
    assert_eq!(snap.net_down_history.len(), 60);
    assert_eq!(snap.cpu_history.get(0).value, 90);
    assert_eq!(snap.gpu_history.get(0).value, 4200);
    assert_eq!(snap.gpu_history.get(0).time_ms, 30 * 2000);
}

#[test]
fn reset_statistics_empties_histories_and_alerts() {
    let mut snap = Snapshot::new(system_info());
    snap.record(sample(9999, true), &enabled());
    snap.reset_statistics();
    assert!(snap.cpu_history.is_empty());
    assert!(snap.gpu_history.is_empty());
    assert!(snap.net_up_history.is_empty());
    assert!(snap.alerts.is_empty());
    assert_eq!(snap.sample.cpu_usage, 9999);
}

#[test]
fn store_read_returns_what_was_published() {
    let store = SnapshotStore::new(Snapshot::new(system_info()));
    assert!(store.read().cpu_history.is_empty());
    let mut snap = Snapshot::new(system_info());
    snap.record(sample(7, false), &enabled());
    store.publish(snap.duplicate());
    let seen = store.read();
    assert_eq!(seen.sample.cpu_usage, 7);
    assert_eq!(seen.cpu_history.to_vec(), snap.cpu_history.to_vec());
    store.record(sample(8, false), &enabled());
    assert_eq!(store.read().cpu_history.len(), 2);
    store.clear_alerts();
    store.reset_statistics();
    assert!(store.read().cpu_history.is_empty());
    assert_eq!(store.read().system_info.hostname, "host");
}

#[test]
fn interleaved_reads_see_whole_snapshots_in_publish_order() {
    let store = Arc::new(SnapshotStore::new(Snapshot::new(system_info())));
    let readers: Vec<Arc<SnapshotStore>> = (0..10).map(|_| Arc::clone(&store)).collect();
    let mut last_seen = vec![0u64; readers.len()];
    let mut own = Snapshot::new(system_info());
    for k in 1..=1000u64 {
        own.record(sample(k, false), &enabled());
        store.publish(own.duplicate());
        for (i, r) in readers.iter().enumerate() {
            let snap = r.read();
            let t = snap.sample.time_ms / 2000;
            assert_eq!(t, k);
            assert_eq!(snap.sample.timestamp, format!("t{}", t));
            assert_eq!(snap.sample.cpu_usage as u64, t % 10000);
            let p = snap.cpu_history.last().unwrap();
            assert_eq!(p.time_ms, snap.sample.time_ms);
            assert_eq!(p.value, snap.sample.cpu_usage as u64);
            assert!(snap.sample.time_ms >= last_seen[i]);
            last_seen[i] = snap.sample.time_ms;
        }
    }
    assert_eq!(store.read().sample.time_ms, 2_000_000);
}
