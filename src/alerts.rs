use crate::sample::{DiskInfo, Sample};
use crate::text::{decimal, push_decimal, push_tenths, tenths_text};
use vstd::prelude::*;

verus! {

/// Disk usage above which a disk raises an alert: ninety percent, in
/// hundredths of a percent. It is not configurable.
pub const DISK_ALERT_PERCENT: u32 = 9000;

/// The limits alerts are checked against. `enabled` gates every check;
/// `cpu` and `memory` are in hundredths of a percent, `gpu_temp` in degrees
/// Celsius.
#[derive(Clone, Copy, Debug, PartialEq, Eq, Structural)]
pub struct Thresholds {
    pub enabled: bool,
    pub cpu: u32,
    pub memory: u32,
    pub gpu_temp: u32,
}

/// What an alert is about.
#[derive(Clone, Copy, Debug, PartialEq, Eq, Structural)]
pub enum AlertKind {
    CpuHigh,
    MemoryHigh,
    GpuTempHigh,
    DiskSpaceLow,
}

/// One triggered alert. `value` is the reading that triggered it, in the
/// unit of its metric (hundredths of a percent, or degrees Celsius).
#[derive(Debug)]
pub struct Alert {
    pub timestamp: String,
    pub kind: AlertKind,
    pub message: String,
    pub value: u64,
}

impl Clone for Alert {
    fn clone(&self) -> (r: Self)
        ensures
            r == *self,
    {
        Alert {
            timestamp: self.timestamp.clone(),
            kind: self.kind,
            message: self.message.clone(),
            value: self.value,
        }
    }
}

/// An alert as kind, value and message text.
pub open spec fn alert_view(a: Alert) -> (AlertKind, u64, Seq<char>) {
    (a.kind, a.value, a.message@)
}

/// Text of a CPU alert for a usage of `value` hundredths of a percent.
pub open spec fn cpu_message(value: nat) -> Seq<char> {
    "CPU usage is high: "@ + tenths_text(value) + "%"@
}

/// Text of a memory alert for a usage of `value` hundredths of a percent.
pub open spec fn memory_message(value: nat) -> Seq<char> {
    "Memory usage is high: "@ + tenths_text(value) + "%"@
}

/// Text of a GPU alert for a temperature of `value` degrees Celsius.
pub open spec fn gpu_temp_message(value: nat) -> Seq<char> {
    "GPU temperature is high: "@ + decimal(value) + "°C"@
}

/// Text of the alert of disk `name` at a usage of `value` hundredths of a
/// percent.
pub open spec fn disk_message(name: Seq<char>, value: nat) -> Seq<char> {
    "Disk "@ + name + " is almost full: "@ + tenths_text(value) + "%"@
}

/// The alert of the aggregate CPU usage, if it is above its threshold.
pub open spec fn expected_cpu_alert(s: Sample, t: Thresholds) -> Seq<(AlertKind, u64, Seq<char>)> {
    if t.enabled && s.cpu_usage > t.cpu {
        seq![(AlertKind::CpuHigh, s.cpu_usage as u64, cpu_message(s.cpu_usage as nat))]
    } else {
        seq![]
    }
}

/// The alert of the memory in use, if its share is above its threshold.
pub open spec fn expected_memory_alert(s: Sample, t: Thresholds) -> Seq<(AlertKind, u64, Seq<char>)> {
    if t.enabled && s.memory.percentage > t.memory {
        seq![
            (
                AlertKind::MemoryHigh,
                s.memory.percentage as u64,
                memory_message(s.memory.percentage as nat),
            ),
        ]
    } else {
        seq![]
    }
}

/// The alert of the GPU temperature, if a GPU reports one above its
/// threshold.
pub open spec fn expected_gpu_alert(s: Sample, t: Thresholds) -> Seq<(AlertKind, u64, Seq<char>)> {
    if t.enabled && s.gpu is Some && s.gpu->0.temperature is Some && s.gpu->0.temperature->0
        > t.gpu_temp {
        let temp = s.gpu->0.temperature->0;
        seq![(AlertKind::GpuTempHigh, temp as u64, gpu_temp_message(temp as nat))]
    } else {
        seq![]
    }
}

/// One alert for each disk of `disks` above the fixed usage limit, in the
/// order of the disks.
pub open spec fn expected_disk_alerts(disks: Seq<DiskInfo>) -> Seq<(AlertKind, u64, Seq<char>)>
    decreases disks.len(),
{
    if disks.len() == 0 {
        seq![]
    } else {
        let before = expected_disk_alerts(disks.drop_last());
        let d = disks.last();
        if d.usage_percentage > DISK_ALERT_PERCENT {
            before.push(
                (
                    AlertKind::DiskSpaceLow,
                    d.usage_percentage as u64,
                    disk_message(d.name@, d.usage_percentage as nat),
                ),
            )
        } else {
            before
        }
    }
}

/// Every alert `s` triggers under `t`: CPU, memory, GPU temperature, then
/// one per full disk. Nothing triggers while alerts are disabled.
pub open spec fn expected_alerts(s: Sample, t: Thresholds) -> Seq<(AlertKind, u64, Seq<char>)> {
    expected_cpu_alert(s, t) + expected_memory_alert(s, t) + expected_gpu_alert(s, t) + if t.enabled {
        expected_disk_alerts(s.disks@)
    } else {
        seq![]
    }
}

/// An alert stamped with a copy of `timestamp`.
fn new_alert(timestamp: &String, kind: AlertKind, message: String, value: u64) -> (r: Alert)
    ensures
        r.timestamp == timestamp,
        alert_view(r) == (kind, value, message@),
{
    Alert { timestamp: timestamp.clone(), kind, message, value }
}

/// Evaluates the alerts of `sample` against `thresholds`, each stamped with
/// `timestamp`. Every check is gated by `thresholds.enabled`; a condition
/// that holds gives its alert on every evaluation.
pub fn evaluate(sample: &Sample, thresholds: &Thresholds, timestamp: &String) -> (r: Vec<Alert>)
    ensures
        r@.map_values(|a: Alert| alert_view(a)) == expected_alerts(*sample, *thresholds),
        forall|i: int| 0 <= i < r@.len() ==> #[trigger] r@[i].timestamp == timestamp,
{
    let mut alerts: Vec<Alert> = Vec::new();
    if thresholds.enabled && sample.cpu_usage > thresholds.cpu {
        let mut m = String::from_str("CPU usage is high: ");
        push_tenths(&mut m, sample.cpu_usage as u64);
        m.append("%");
        alerts.push(new_alert(timestamp, AlertKind::CpuHigh, m, sample.cpu_usage as u64));
    }
    let ghost after_cpu = alerts@.map_values(|a: Alert| alert_view(a));
    assert(after_cpu =~= expected_cpu_alert(*sample, *thresholds));
    if thresholds.enabled && sample.memory.percentage > thresholds.memory {
        let mut m = String::from_str("Memory usage is high: ");
        push_tenths(&mut m, sample.memory.percentage as u64);
        m.append("%");
        alerts.push(
            new_alert(timestamp, AlertKind::MemoryHigh, m, sample.memory.percentage as u64),
        );
    }
    let ghost after_memory = alerts@.map_values(|a: Alert| alert_view(a));
    assert(after_memory =~= expected_cpu_alert(*sample, *thresholds) + expected_memory_alert(
        *sample,
        *thresholds,
    ));
    if thresholds.enabled {
        match &sample.gpu {
            Some(gpu) => {
                match gpu.temperature {
                    Some(temp) => {
                        if temp > thresholds.gpu_temp {
                            let mut m = String::from_str("GPU temperature is high: ");
                            push_decimal(&mut m, temp as u64);
                            m.append("°C");
                            alerts.push(new_alert(timestamp, AlertKind::GpuTempHigh, m, temp as u64));
                        }
                    },
                    None => {},
                }
            },
            None => {},
        }
    }
    let ghost head = alerts@.map_values(|a: Alert| alert_view(a));
    assert(head =~= expected_cpu_alert(*sample, *thresholds) + expected_memory_alert(
        *sample,
        *thresholds,
    ) + expected_gpu_alert(*sample, *thresholds));
    let ghost head_len = alerts@.len();
    if thresholds.enabled {
        let n = sample.disks.len();
        let mut i: usize = 0;
        while i < n
            invariant
                n == sample.disks@.len(),
                i <= n,
                head_len <= alerts@.len(),
                alerts@.subrange(0, head_len as int).map_values(|a: Alert| alert_view(a)) == head,
                alerts@.subrange(head_len as int, alerts@.len() as int).map_values(
                    |a: Alert| alert_view(a),
                ) == expected_disk_alerts(sample.disks@.take(i as int)),
                forall|j: int| 0 <= j < alerts@.len() ==> #[trigger] alerts@[j].timestamp == timestamp,
            decreases n - i,
        {
            let disk = &sample.disks[i];
            let ghost before = alerts@;
            assert(sample.disks@.take(i + 1).drop_last() =~= sample.disks@.take(i as int));
            if disk.usage_percentage > DISK_ALERT_PERCENT {
                let mut m = String::from_str("Disk ");
                m.append(disk.name.as_str());
                m.append(" is almost full: ");
                push_tenths(&mut m, disk.usage_percentage as u64);
                m.append("%");
                alerts.push(
                    new_alert(timestamp, AlertKind::DiskSpaceLow, m, disk.usage_percentage as u64),
                );
                assert(alerts@.subrange(0, head_len as int) =~= before.subrange(0, head_len as int));
                assert(alerts@.subrange(head_len as int, alerts@.len() as int) =~= before.subrange(
                    head_len as int,
                    before.len() as int,
                ).push(alerts@.last()));
            }
            i += 1;
        }
        assert(sample.disks@.take(n as int) =~= sample.disks@);
    }
    proof {
        let all = alerts@.map_values(|a: Alert| alert_view(a));
        if thresholds.enabled {
            assert(alerts@ =~= alerts@.subrange(0, head_len as int) + alerts@.subrange(
                head_len as int,
                alerts@.len() as int,
            ));
            assert(all =~= head + expected_disk_alerts(sample.disks@));
        } else {
            assert(all =~= head + Seq::<(AlertKind, u64, Seq<char>)>::empty());
        }
    }
    alerts
}

} // verus!
