use sysmon::alerts::Thresholds;
use sysmon::settings::AppSettings;

#[test]
fn default_settings_values() {
    let s = AppSettings::default();
    assert_eq!(s.refresh_interval, 2);
    assert!(!s.show_notifications);
    assert_eq!(s.notification_cpu_threshold, 9000);
    assert_eq!(s.notification_memory_threshold, 9000);
    assert_eq!(s.notification_temp_threshold, 85);
    assert_eq!(s.process_count, 15);
    assert!(s.show_graphs && s.show_gpu && s.show_processes);
    assert!(!s.theme_dark && !s.show_per_core_cpu && !s.auto_clear_alerts);
}

#[test]
fn thresholds_follow_settings() {
    let mut s = AppSettings::default();
    s.show_notifications = true;
    assert_eq!(s.thresholds(), Thresholds { enabled: true, cpu: 9000, memory: 9000, gpu_temp: 85 });
}

#[test]
fn sleep_after_tick_is_interval_minus_warm_up() {
    let mut s = AppSettings::default();
    assert_eq!(s.sleep_after_tick_ms(), 1500);
    s.refresh_interval = 0;
    assert_eq!(s.sleep_after_tick_ms(), 0);
    s.refresh_interval = 1;
    assert_eq!(s.sleep_after_tick_ms(), 500);
    s.refresh_interval = u64::MAX;
    assert_eq!(s.sleep_after_tick_ms(), u64::MAX);
}
