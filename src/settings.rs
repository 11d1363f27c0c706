use crate::alerts::Thresholds;
use crate::processes::DEFAULT_PROCESS_COUNT;
use vstd::prelude::*;

verus! {

/// Delay before each tick reads the counters, so that usage figures have a
/// baseline to be measured against.
pub const WARM_UP_MS: u64 = 500;

/// The user's settings. The thresholds of CPU and memory are in hundredths of
/// a percent, that of the GPU temperature in degrees Celsius, the refresh
/// interval in seconds.
#[derive(Clone, Copy, Debug, PartialEq, Eq, Structural)]
pub struct AppSettings {
    pub refresh_interval: u64,
    pub show_graphs: bool,
    pub show_gpu: bool,
    pub show_processes: bool,
    pub show_notifications: bool,
    pub notification_cpu_threshold: u32,
    pub notification_memory_threshold: u32,
    pub notification_temp_threshold: u32,
    pub theme_dark: bool,
    pub show_per_core_cpu: bool,
    pub process_count: usize,
    pub auto_clear_alerts: bool,
}

/// Milliseconds the collector sleeps after a tick so that ticks come
/// `interval_s` seconds apart, the warm-up included; never negative, and
/// saturated at `u64::MAX`.
pub open spec fn spec_sleep_after_tick(interval_s: int) -> int {
    if interval_s * 1000 <= WARM_UP_MS {
        0
    } else if interval_s * 1000 - WARM_UP_MS > u64::MAX {
        u64::MAX as int
    } else {
        interval_s * 1000 - WARM_UP_MS
    }
}

impl Default for AppSettings {
    /// The settings of a first start: refresh every two seconds, alerts off,
    /// thresholds of 90 % for CPU and memory and 85 °C for the GPU, fifteen
    /// processes listed.
    fn default() -> (r: AppSettings)
        ensures
            r == (AppSettings {
                refresh_interval: 2,
                show_graphs: true,
                show_gpu: true,
                show_processes: true,
                show_notifications: false,
                notification_cpu_threshold: 9000,
                notification_memory_threshold: 9000,
                notification_temp_threshold: 85,
                theme_dark: false,
                show_per_core_cpu: false,
                process_count: 15,
                auto_clear_alerts: false,
            }),
    {
        AppSettings {
            refresh_interval: 2,
            show_graphs: true,
            show_gpu: true,
            show_processes: true,
            show_notifications: false,
            notification_cpu_threshold: 9000,
            notification_memory_threshold: 9000,
            notification_temp_threshold: 85,
            theme_dark: false,
            show_per_core_cpu: false,
            process_count: DEFAULT_PROCESS_COUNT,
            auto_clear_alerts: false,
        }
    }
}

impl AppSettings {
    /// The alert limits these settings give.
    pub fn thresholds(&self) -> (r: Thresholds)
        ensures
            r == (Thresholds {
                enabled: self.show_notifications,
                cpu: self.notification_cpu_threshold,
                memory: self.notification_memory_threshold,
                gpu_temp: self.notification_temp_threshold,
            }),
    {
        Thresholds {
            enabled: self.show_notifications,
            cpu: self.notification_cpu_threshold,
            memory: self.notification_memory_threshold,
            gpu_temp: self.notification_temp_threshold,
        }
    }

    /// Milliseconds to sleep after a tick, for the configured interval.
    pub fn sleep_after_tick_ms(&self) -> (r: u64)
        ensures
            r as int == spec_sleep_after_tick(self.refresh_interval as int),
    {
        let total: u128 = (self.refresh_interval as u128) * 1000;
        if total <= WARM_UP_MS as u128 {
            0
        } else if total - (WARM_UP_MS as u128) > u64::MAX as u128 {
            u64::MAX
        } else {
            (total - (WARM_UP_MS as u128)) as u64
        }
    }
}

} // verus!
