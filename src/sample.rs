use crate::metrics::{percent_hundredths, spec_percent};
use crate::processes::ProcessInfo;
use vstd::prelude::*;
use vstd::string::*;

verus! {

/// A copy of `v`, element for element, for an element type whose clones
/// are equal to what they were cloned from.
pub fn clone_vec<T: Clone>(v: &Vec<T>) -> (r: Vec<T>)
    requires
        forall|a: T, b: T| #[trigger] cloned::<T>(a, b) ==> a == b,
    ensures
        r@ == v@,
{
    let r = v.clone();
    assert(r@ =~= v@);
    r
}

/// Memory totals of one sample, in bytes, with the share in use in
/// hundredths of a percent.
#[derive(Clone, Copy, Debug, PartialEq, Eq, Structural)]
pub struct MemoryInfo {
    pub total: u64,
    pub used: u64,
    pub percentage: u32,
}

impl MemoryInfo {
    /// Memory totals from the counter reader's readings. The used amount is
    /// clamped to the total, and a zero total gives a zero percentage.
    pub fn from_reading(total: u64, used: u64) -> (r: MemoryInfo)
        ensures
            r.total == total,
            r.used == if used <= total { used } else { total },
            r.used <= r.total,
            r.percentage as int == spec_percent(used as int, total as int),
    {
        let used = if used <= total { used } else { total };
        MemoryInfo { total, used, percentage: percent_hundredths(used, total) }
    }
}

/// Usage of one logical core, in hundredths of a percent.
#[derive(Debug)]
pub struct CpuCoreInfo {
    pub core_id: usize,
    pub usage: u32,
    pub name: String,
}

impl Clone for CpuCoreInfo {
    fn clone(&self) -> (r: Self)
        ensures
            r == *self,
    {
        CpuCoreInfo {
            core_id: self.core_id,
            usage: self.usage,
            name: self.name.clone(),
        }
    }
}

/// The primary GPU, where a supported one is present. Each field the device
/// would not report is absent on its own. `utilization` is in hundredths of
/// a percent, the temperature in degrees Celsius.
#[derive(Debug)]
pub struct GpuInfo {
    pub name: String,
    pub utilization: u32,
    pub memory_used: Option<u64>,
    pub memory_total: Option<u64>,
    pub temperature: Option<u32>,
}

impl Clone for GpuInfo {
    fn clone(&self) -> (r: Self)
        ensures
            r == *self,
    {
        GpuInfo {
            name: self.name.clone(),
            utilization: self.utilization,
            memory_used: self.memory_used,
            memory_total: self.memory_total,
            temperature: self.temperature,
        }
    }
}

/// Per-core entries of `(name, usage)` readings, numbered in order from zero.
pub fn cpu_cores_from_readings(readings: Vec<(String, u32)>) -> (r: Vec<CpuCoreInfo>)
    ensures
        r@.len() == readings@.len(),
        forall|i: int|
            0 <= i < r@.len() ==> {
                &&& (#[trigger] r@[i]).core_id == i
                &&& r@[i].name == readings@[i].0
                &&& r@[i].usage == readings@[i].1
            },
{
    let mut out: Vec<CpuCoreInfo> = Vec::new();
    let n = readings.len();
    let mut i: usize = 0;
    while i < n
        invariant
            n == readings@.len(),
            i <= n,
            out@.len() == i,
            forall|k: int|
                0 <= k < i ==> {
                    &&& (#[trigger] out@[k]).core_id == k
                    &&& out@[k].name == readings@[k].0
                    &&& out@[k].usage == readings@[k].1
                },
        decreases n - i,
    {
        let (name, usage) = (readings[i].0.clone(), readings[i].1);
        out.push(CpuCoreInfo { core_id: i, usage, name });
        i += 1;
    }
    out
}

impl GpuInfo {
    /// The primary GPU's entry from the device's answers, each `None` where
    /// that query failed: the name then reads "Unknown GPU" and the
    /// utilization zero, while memory and temperature stay absent.
    /// `utilization` is in hundredths of a percent, `memory` is the pair of
    /// used and total bytes.
    pub fn from_readings(
        name: Option<String>,
        utilization: Option<u32>,
        memory: Option<(u64, u64)>,
        temperature: Option<u32>,
    ) -> (r: GpuInfo)
        ensures
            name is Some ==> r.name == name->0,
            name is None ==> r.name@ == "Unknown GPU"@,
            r.utilization == match utilization {
                Some(u) => u,
                None => 0,
            },
            r.memory_used == match memory {
                Some(m) => Some(m.0),
                None => None::<u64>,
            },
            r.memory_total == match memory {
                Some(m) => Some(m.1),
                None => None::<u64>,
            },
            r.temperature == temperature,
    {
        let name = match name {
            Some(n) => n,
            None => String::from_str("Unknown GPU"),
        };
        let utilization = match utilization {
            Some(u) => u,
            None => 0,
        };
        let (memory_used, memory_total) = match memory {
            Some((used, total)) => (Some(used), Some(total)),
            None => (None, None),
        };
        GpuInfo { name, utilization, memory_used, memory_total, temperature }
    }
}

/// Space on one disk, in bytes, with the share in use in hundredths of a
/// percent.
#[derive(Debug)]
pub struct DiskInfo {
    pub name: String,
    pub mount_point: String,
    pub total_space: u64,
    pub available_space: u64,
    pub usage_percentage: u32,
    pub file_system: String,
}

impl Clone for DiskInfo {
    fn clone(&self) -> (r: Self)
        ensures
            r == *self,
    {
        DiskInfo {
            name: self.name.clone(),
            mount_point: self.mount_point.clone(),
            total_space: self.total_space,
            available_space: self.available_space,
            usage_percentage: self.usage_percentage,
            file_system: self.file_system.clone(),
        }
    }
}

/// Share of a disk in use: what is not available, over the total; zero for
/// a disk of no size.
pub open spec fn disk_usage(total: int, available: int) -> int {
    let used = if total >= available { total - available } else { 0 };
    spec_percent(used, total)
}

impl DiskInfo {
    /// A disk's entry from its readings.
    pub fn from_reading(
        name: String,
        mount_point: String,
        file_system: String,
        total_space: u64,
        available_space: u64,
    ) -> (r: DiskInfo)
        ensures
            r.name == name,
            r.mount_point == mount_point,
            r.file_system == file_system,
            r.total_space == total_space,
            r.available_space == available_space,
            r.usage_percentage as int == disk_usage(total_space as int, available_space as int),
    {
        let used = if total_space >= available_space {
            total_space - available_space
        } else {
            0
        };
        let usage_percentage = percent_hundredths(used, total_space);
        DiskInfo { name, mount_point, total_space, available_space, usage_percentage, file_system }
    }
}

/// Traffic of one network interface: cumulative byte counters, and the rates
/// in bytes per second since the previous sample.
#[derive(Debug)]
pub struct NetworkInfo {
    pub interface: String,
    pub received: u64,
    pub transmitted: u64,
    pub received_rate: u64,
    pub transmitted_rate: u64,
}

impl Clone for NetworkInfo {
    fn clone(&self) -> (r: Self)
        ensures
            r == *self,
    {
        NetworkInfo {
            interface: self.interface.clone(),
            received: self.received,
            transmitted: self.transmitted,
            received_rate: self.received_rate,
            transmitted_rate: self.transmitted_rate,
        }
    }
}

/// Facts about the host captured once at startup. `uptime` is in seconds.
#[derive(Debug)]
pub struct SystemInfo {
    pub os_name: String,
    pub os_version: String,
    pub kernel_version: String,
    pub hostname: String,
    pub uptime: u64,
    pub cpu_count: usize,
    pub cpu_brand: String,
}

impl Clone for SystemInfo {
    fn clone(&self) -> (r: Self)
        ensures
            r == *self,
    {
        SystemInfo {
            os_name: self.os_name.clone(),
            os_version: self.os_version.clone(),
            kernel_version: self.kernel_version.clone(),
            hostname: self.hostname.clone(),
            uptime: self.uptime,
            cpu_count: self.cpu_count,
            cpu_brand: self.cpu_brand.clone(),
        }
    }
}

/// `value`, or "Unknown" where it could not be read.
pub open spec fn or_unknown(value: Option<String>) -> Seq<char> {
    match value {
        Some(v) => v@,
        None => "Unknown"@,
    }
}

/// `value`, or "Unknown" where it is absent.
fn known_or_unknown(value: Option<String>) -> (r: String)
    ensures
        r@ == or_unknown(value),
{
    match value {
        Some(v) => v,
        None => String::from_str("Unknown"),
    }
}

impl SystemInfo {
    /// The host's facts from what could be read; each text that could not
    /// reads "Unknown".
    pub fn from_readings(
        os_name: Option<String>,
        os_version: Option<String>,
        kernel_version: Option<String>,
        hostname: Option<String>,
        uptime: u64,
        cpu_count: usize,
        cpu_brand: Option<String>,
    ) -> (r: SystemInfo)
        ensures
            r.os_name@ == or_unknown(os_name),
            r.os_version@ == or_unknown(os_version),
            r.kernel_version@ == or_unknown(kernel_version),
            r.hostname@ == or_unknown(hostname),
            r.uptime == uptime,
            r.cpu_count == cpu_count,
            r.cpu_brand@ == or_unknown(cpu_brand),
    {
        SystemInfo {
            os_name: known_or_unknown(os_name),
            os_version: known_or_unknown(os_version),
            kernel_version: known_or_unknown(kernel_version),
            hostname: known_or_unknown(hostname),
            uptime,
            cpu_count,
            cpu_brand: known_or_unknown(cpu_brand),
        }
    }
}

/// One consistent point-in-time reading of every tracked metric.
/// `time_ms` counts milliseconds since the monitor started, `timestamp` is
/// the wall-clock time for display, `cpu_usage` the aggregate usage in
/// hundredths of a percent.
#[derive(Debug)]
pub struct Sample {
    pub time_ms: u64,
    pub timestamp: String,
    pub memory: MemoryInfo,
    pub cpu_usage: u32,
    pub cpu_cores: Vec<CpuCoreInfo>,
    pub gpu: Option<GpuInfo>,
    pub processes: Vec<ProcessInfo>,
    pub disks: Vec<DiskInfo>,
    pub network: Vec<NetworkInfo>,
}

impl Clone for Sample {
    fn clone(&self) -> (r: Self)
        ensures
            r.time_ms == self.time_ms,
            r.timestamp == self.timestamp,
            r.memory == self.memory,
            r.cpu_usage == self.cpu_usage,
            r.cpu_cores@ == self.cpu_cores@,
            r.gpu == self.gpu,
            r.processes@ == self.processes@,
            r.disks@ == self.disks@,
            r.network@ == self.network@,
    {
        Sample {
            time_ms: self.time_ms,
            timestamp: self.timestamp.clone(),
            memory: self.memory,
            cpu_usage: self.cpu_usage,
            cpu_cores: clone_vec(&self.cpu_cores),
            gpu: match &self.gpu {
                Some(g) => Some(g.clone()),
                None => None,
            },
            processes: clone_vec(&self.processes),
            disks: clone_vec(&self.disks),
            network: clone_vec(&self.network),
        }
    }
}

} // verus!
