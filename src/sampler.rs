use crate::metrics::{counter_delta, rate_per_second, saturating_rate, spec_counter_delta};
use crate::processes::{is_top_by_memory, top_processes, ProcessInfo};
use crate::sample::{
    clone_vec, disk_usage, CpuCoreInfo, DiskInfo, GpuInfo, MemoryInfo, NetworkInfo, Sample,
};
use crate::metrics::spec_percent;
use vstd::prelude::*;

verus! {

/// Space readings of one disk, in bytes.
#[derive(Debug)]
pub struct DiskReading {
    pub name: String,
    pub mount_point: String,
    pub file_system: String,
    pub total_space: u64,
    pub available_space: u64,
}

impl Clone for DiskReading {
    fn clone(&self) -> (r: Self)
        ensures
            r == *self,
    {
        DiskReading {
            name: self.name.clone(),
            mount_point: self.mount_point.clone(),
            file_system: self.file_system.clone(),
            total_space: self.total_space,
            available_space: self.available_space,
        }
    }
}

/// Cumulative byte counters of one network interface.
#[derive(Debug)]
pub struct InterfaceReading {
    pub interface: String,
    pub received: u64,
    pub transmitted: u64,
}

impl Clone for InterfaceReading {
    fn clone(&self) -> (r: Self)
        ensures
            r == *self,
    {
        InterfaceReading {
            interface: self.interface.clone(),
            received: self.received,
            transmitted: self.transmitted,
        }
    }
}

/// Everything the counter reader reports on one tick. Percentages are in
/// hundredths of a percent.
#[derive(Debug)]
pub struct Readings {
    pub memory_total: u64,
    pub memory_used: u64,
    pub cpu_usage: u32,
    pub cpu_cores: Vec<CpuCoreInfo>,
    pub gpu: Option<GpuInfo>,
    pub processes: Vec<ProcessInfo>,
    pub disks: Vec<DiskReading>,
    pub interfaces: Vec<InterfaceReading>,
}

impl Clone for Readings {
    fn clone(&self) -> (r: Self)
        ensures
            r.memory_total == self.memory_total,
            r.memory_used == self.memory_used,
            r.cpu_usage == self.cpu_usage,
            r.cpu_cores@ == self.cpu_cores@,
            r.gpu == self.gpu,
            r.processes@ == self.processes@,
            r.disks@ == self.disks@,
            r.interfaces@ == self.interfaces@,
    {
        Readings {
            memory_total: self.memory_total,
            memory_used: self.memory_used,
            cpu_usage: self.cpu_usage,
            cpu_cores: clone_vec(&self.cpu_cores),
            gpu: match &self.gpu {
                Some(g) => Some(g.clone()),
                None => None,
            },
            processes: clone_vec(&self.processes),
            disks: clone_vec(&self.disks),
            interfaces: clone_vec(&self.interfaces),
        }
    }
}

/// Counters `prev` held for the interface named `name`: those of the first
/// entry with that name.
pub open spec fn previous_counters(prev: Seq<InterfaceReading>, name: Seq<char>) -> Option<
    (u64, u64),
>
    decreases prev.len(),
{
    if prev.len() == 0 {
        None
    } else if prev[0].interface@ == name {
        Some((prev[0].received, prev[0].transmitted))
    } else {
        previous_counters(prev.drop_first(), name)
    }
}

/// Milliseconds since the previous sample; zero on the first one, or when
/// the clock did not move forward.
pub open spec fn elapsed_since(last_ms: Option<u64>, now_ms: u64) -> int {
    match last_ms {
        Some(t) => if now_ms > t {
            now_ms - t
        } else {
            0
        },
        None => 0,
    }
}

/// The entry of interface `r` given the previous sample's counters `prev`
/// and the time since then: the rates are zero for an interface that was
/// not there before.
pub open spec fn network_entry_ok(
    e: NetworkInfo,
    r: InterfaceReading,
    prev: Seq<InterfaceReading>,
    elapsed: int,
) -> bool {
    &&& e.interface == r.interface
    &&& e.received == r.received
    &&& e.transmitted == r.transmitted
    &&& match previous_counters(prev, r.interface@) {
        None => e.received_rate == 0 && e.transmitted_rate == 0,
        Some((rx, tx)) => {
            &&& e.received_rate == saturating_rate(
                spec_counter_delta(rx as int, r.received as int),
                elapsed,
            )
            &&& e.transmitted_rate == saturating_rate(
                spec_counter_delta(tx as int, r.transmitted as int),
                elapsed,
            )
        },
    }
}

/// The entry of disk `r`.
pub open spec fn disk_entry_ok(e: DiskInfo, r: DiskReading) -> bool {
    &&& e.name == r.name
    &&& e.mount_point == r.mount_point
    &&& e.file_system == r.file_system
    &&& e.total_space == r.total_space
    &&& e.available_space == r.available_space
    &&& e.usage_percentage == disk_usage(r.total_space as int, r.available_space as int)
}

/// Turns each tick's readings into a sample. Between ticks it keeps the time
/// and the byte counters of the previous sample, from which the network
/// rates come.
pub struct Sampler {
    process_count: usize,
    last_ms: Option<u64>,
    last_interfaces: Vec<InterfaceReading>,
}

impl Sampler {
    /// Number of processes each sample lists at most.
    pub closed spec fn spec_process_count(&self) -> nat {
        self.process_count as nat
    }

    /// Time of the previous sample, if there was one.
    pub closed spec fn spec_last_ms(&self) -> Option<u64> {
        self.last_ms
    }

    /// Byte counters of the previous sample.
    pub closed spec fn spec_last_interfaces(&self) -> Seq<InterfaceReading> {
        self.last_interfaces@
    }

    /// A sampler that has taken no sample yet and lists at most
    /// `process_count` processes.
    pub fn new(process_count: usize) -> (r: Sampler)
        ensures
            r.spec_process_count() == process_count,
            r.spec_last_ms() == None::<u64>,
            r.spec_last_interfaces().len() == 0,
    {
        Sampler { process_count, last_ms: None, last_interfaces: Vec::new() }
    }

    /// Counters the previous sample held for interface `name`.
    fn find_previous(&self, name: &String) -> (r: Option<(u64, u64)>)
        ensures
            r == previous_counters(self.last_interfaces@, name@),
    {
        let n = self.last_interfaces.len();
        let mut j: usize = 0;
        assert(self.last_interfaces@.skip(0) =~= self.last_interfaces@);
        while j < n
            invariant
                n == self.last_interfaces@.len(),
                j <= n,
                previous_counters(self.last_interfaces@, name@) == previous_counters(
                    self.last_interfaces@.skip(j as int),
                    name@,
                ),
            decreases n - j,
        {
            let e = &self.last_interfaces[j];
            assert(self.last_interfaces@.skip(j as int)[0] == self.last_interfaces@[j as int]);
            if e.interface == *name {
                return Some((e.received, e.transmitted));
            }
            assert(self.last_interfaces@.skip(j as int).drop_first() =~= self.last_interfaces@.skip(
                j + 1,
            ));
            j += 1;
        }
        assert(self.last_interfaces@.skip(n as int).len() == 0);
        None
    }

    /// Network entries of `interfaces` read at `now_ms`.
    fn network_info(&self, interfaces: &Vec<InterfaceReading>, now_ms: u64) -> (r: Vec<
        NetworkInfo,
    >)
        ensures
            r@.len() == interfaces@.len(),
            forall|i: int|
                0 <= i < r@.len() ==> network_entry_ok(
                    #[trigger] r@[i],
                    interfaces@[i],
                    self.last_interfaces@,
                    elapsed_since(self.last_ms, now_ms),
                ),
    {
        let elapsed: u64 = match self.last_ms {
            Some(t) => if now_ms > t {
                now_ms - t
            } else {
                0
            },
            None => 0,
        };
        let mut out: Vec<NetworkInfo> = Vec::new();
        let n = interfaces.len();
        let mut i: usize = 0;
        while i < n
            invariant
                n == interfaces@.len(),
                i <= n,
                elapsed == elapsed_since(self.last_ms, now_ms),
                out@.len() == i,
                forall|k: int|
                    0 <= k < i ==> network_entry_ok(
                        #[trigger] out@[k],
                        interfaces@[k],
                        self.last_interfaces@,
                        elapsed as int,
                    ),
            decreases n - i,
        {
            let r = &interfaces[i];
            let (received_rate, transmitted_rate) = match self.find_previous(&r.interface) {
                Some((rx, tx)) => (
                    rate_per_second(counter_delta(rx, r.received), elapsed),
                    rate_per_second(counter_delta(tx, r.transmitted), elapsed),
                ),
                None => (0, 0),
            };
            out.push(
                NetworkInfo {
                    interface: r.interface.clone(),
                    received: r.received,
                    transmitted: r.transmitted,
                    received_rate,
                    transmitted_rate,
                },
            );
            i += 1;
        }
        out
    }

    /// Disk entries of `disks`, in the same order.
    fn disk_info(disks: Vec<DiskReading>) -> (r: Vec<DiskInfo>)
        ensures
            r@.len() == disks@.len(),
            forall|i: int| 0 <= i < r@.len() ==> disk_entry_ok(#[trigger] r@[i], disks@[i]),
    {
        let mut out: Vec<DiskInfo> = Vec::new();
        let n = disks.len();
        let mut i: usize = 0;
        while i < n
            invariant
                n == disks@.len(),
                i <= n,
                out@.len() == i,
                forall|k: int| 0 <= k < i ==> disk_entry_ok(#[trigger] out@[k], disks@[k]),
            decreases n - i,
        {
            let d = &disks[i];
            out.push(
                DiskInfo::from_reading(
                    d.name.clone(),
                    d.mount_point.clone(),
                    d.file_system.clone(),
                    d.total_space,
                    d.available_space,
                ),
            );
            i += 1;
        }
        out
    }

    /// The sample of `readings`, taken `now_ms` milliseconds after the
    /// monitor started and shown as `timestamp`. The sampler then holds
    /// this sample's time and counters for the next one.
    pub fn sample(&mut self, readings: Readings, now_ms: u64, timestamp: String) -> (r: Sample)
        ensures
            r.time_ms == now_ms,
            r.timestamp == timestamp,
            r.memory.total == readings.memory_total,
            r.memory.used == if readings.memory_used <= readings.memory_total {
                readings.memory_used
            } else {
                readings.memory_total
            },
            r.memory.percentage == spec_percent(
                readings.memory_used as int,
                readings.memory_total as int,
            ),
            r.cpu_usage == readings.cpu_usage,
            r.cpu_cores == readings.cpu_cores,
            r.gpu == readings.gpu,
            is_top_by_memory(readings.processes@, old(self).spec_process_count(), r.processes@),
            r.disks@.len() == readings.disks@.len(),
            forall|i: int|
                0 <= i < r.disks@.len() ==> disk_entry_ok(#[trigger] r.disks@[i], readings.disks@[i]),
            r.network@.len() == readings.interfaces@.len(),
            forall|i: int|
                0 <= i < r.network@.len() ==> network_entry_ok(
                    #[trigger] r.network@[i],
                    readings.interfaces@[i],
                    old(self).spec_last_interfaces(),
                    elapsed_since(old(self).spec_last_ms(), now_ms),
                ),
            final(self).spec_process_count() == old(self).spec_process_count(),
            final(self).spec_last_ms() == Some(now_ms),
            final(self).spec_last_interfaces() == readings.interfaces@,
    {
        let memory = MemoryInfo::from_reading(readings.memory_total, readings.memory_used);
        let network = self.network_info(&readings.interfaces, now_ms);
        let Readings {
            memory_total: _,
            memory_used: _,
            cpu_usage,
            cpu_cores,
            gpu,
            processes,
            disks,
            interfaces,
        } = readings;
        let processes = top_processes(processes, self.process_count);
        let disks = Sampler::disk_info(disks);
        self.last_ms = Some(now_ms);
        self.last_interfaces = interfaces;
        Sample {
            time_ms: now_ms,
            timestamp,
            memory,
            cpu_usage,
            cpu_cores,
            gpu,
            processes,
            disks,
            network,
        }
    }
}

} // verus!
