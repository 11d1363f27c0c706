use sysmon::alerts::{evaluate, AlertKind, Thresholds};
use sysmon::sample::{DiskInfo, GpuInfo, MemoryInfo, Sample};

fn thresholds(enabled: bool) -> Thresholds {
    Thresholds { enabled, cpu: 9000, memory: 9000, gpu_temp: 85 }
}

fn disk(name: &str, usage: u32) -> DiskInfo {
    DiskInfo {
        name: name.to_string(),
        mount_point: "/".to_string(),
        total_space: 1000,
        available_space: 100,
        usage_percentage: usage,
        file_system: "ext4".to_string(),
    }
}

fn sample(cpu: u32, memory_pct: u32, gpu: Option<GpuInfo>, disks: Vec<DiskInfo>) -> Sample {
    Sample {
        time_ms: 4000,
        timestamp: "2024-01-01 12:00:00".to_string(),
        memory: MemoryInfo { total: 100, used: memory_pct as u64 / 100, percentage: memory_pct },
        cpu_usage: cpu,
        cpu_cores: Vec::new(),
        gpu,
        processes: Vec::new(),
        disks,
        network: Vec::new(),
    }
}

fn gpu(temperature: Option<u32>) -> GpuInfo {
    GpuInfo {
        name: "GPU".to_string(),
        utilization: 1200,
        memory_used: None,
        memory_total: None,
        temperature,
    }
}

#[test]
fn only_cpu_above_threshold_gives_one_cpu_alert() {
    let s = sample(9500, 5000, None, Vec::new());
    let ts = "12:00:00".to_string();
    let alerts = evaluate(&s, &thresholds(true), &ts);
    assert_eq!(alerts.len(), 1);
    assert_eq!(alerts[0].kind, AlertKind::CpuHigh);
    assert_eq!(alerts[0].value, 9500);
    assert_eq!(alerts[0].value as f64 / 100.0, 95.0);
    assert_eq!(alerts[0].message, "CPU usage is high: 95.0%");
    assert_eq!(alerts[0].timestamp, "12:00:00");
}

#[test]
fn two_of_three_disks_above_ninety_percent() {
    let disks = vec![disk("a", 9500), disk("b", 5000), disk("c", 9100)];
    let s = sample(100, 100, None, disks);
    let ts = "t".to_string();
    let alerts = evaluate(&s, &thresholds(true), &ts);
    assert_eq!(alerts.len(), 2);
    assert!(alerts.iter().all(|a| a.kind == AlertKind::DiskSpaceLow));
    assert_eq!(alerts[0].value, 9500);
    assert_eq!(alerts[1].value, 9100);
    assert_eq!(alerts[0].message, "Disk a is almost full: 95.0%");
    assert_eq!(alerts[1].message, "Disk c is almost full: 91.0%");
}

#[test]
fn disabled_alerts_gate_every_check_disks_included() {
    let disks = vec![disk("a", 9500), disk("b", 5000), disk("c", 9100)];
    let s = sample(9900, 9900, Some(gpu(Some(99))), disks);
    let ts = "t".to_string();
    assert!(evaluate(&s, &thresholds(false), &ts).is_empty());
}

#[test]
fn exactly_ninety_percent_disk_raises_nothing() {
    let s = sample(0, 0, None, vec![disk("a", 9000)]);
    let ts = "t".to_string();
    assert!(evaluate(&s, &thresholds(true), &ts).is_empty());
}

#[test]
fn every_kind_in_order() {
    let s = sample(9123, 9456, Some(gpu(Some(90))), vec![disk("d", 9999)]);
    let ts = "t".to_string();
    let alerts = evaluate(&s, &thresholds(true), &ts);
    let kinds: Vec<AlertKind> = alerts.iter().map(|a| a.kind).collect();
    assert_eq!(
        kinds,
        vec![AlertKind::CpuHigh, AlertKind::MemoryHigh, AlertKind::GpuTempHigh, AlertKind::DiskSpaceLow]
    );
    assert_eq!(alerts[0].message, "CPU usage is high: 91.2%");
    assert_eq!(alerts[1].message, "Memory usage is high: 94.6%");
    assert_eq!(alerts[2].message, "GPU temperature is high: 90°C");
    assert_eq!(alerts[2].value, 90);
    assert_eq!(alerts[3].message, "Disk d is almost full: 100.0%");
}

#[test]
fn gpu_without_temperature_or_at_threshold_raises_nothing() {
    let ts = "t".to_string();
    let s = sample(0, 0, Some(gpu(None)), Vec::new());
    assert!(evaluate(&s, &thresholds(true), &ts).is_empty());
    let s = sample(0, 0, Some(gpu(Some(85))), Vec::new());
    assert!(evaluate(&s, &thresholds(true), &ts).is_empty());
    let s = sample(9000, 9000, None, Vec::new());
    assert!(evaluate(&s, &thresholds(true), &ts).is_empty());
}

#[test]
fn a_condition_that_holds_alerts_on_every_evaluation() {
    let s = sample(9500, 0, None, Vec::new());
    let ts = "t".to_string();
    let first = evaluate(&s, &thresholds(true), &ts);
    let second = evaluate(&s, &thresholds(true), &ts);
    assert_eq!(first.len(), 1);
    assert_eq!(second.len(), 1);
}
