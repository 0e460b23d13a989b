use sysmon::classify::{
    categorize_disk_usage, categorize_temperature, DiskUsageCategory, TemperatureCategory,
};
use sysmon::format::{format_bytes_detailed, format_uptime};

#[test]
fn test_temperature_categorization() {
    assert_eq!(categorize_temperature(30.0_f32 as u32), TemperatureCategory::Cool);
    assert_eq!(categorize_temperature(50.0_f32 as u32), TemperatureCategory::Normal);
    assert_eq!(categorize_temperature(70.0_f32 as u32), TemperatureCategory::Warm);
    assert_eq!(categorize_temperature(80.0_f32 as u32), TemperatureCategory::Hot);
    assert_eq!(categorize_temperature(90.0_f32 as u32), TemperatureCategory::Critical);
}

#[test]
fn test_disk_usage_categorization() {
    assert_eq!(categorize_disk_usage(50.0_f32 as u32), DiskUsageCategory::Normal);
    assert_eq!(categorize_disk_usage(80.0_f32 as u32), DiskUsageCategory::Warning);
    assert_eq!(categorize_disk_usage(90.0_f32 as u32), DiskUsageCategory::Critical);
    assert_eq!(categorize_disk_usage(98.0_f32 as u32), DiskUsageCategory::Full);
}

#[test]
fn test_byte_formatting() {
    assert_eq!(format_bytes_detailed(1024), "1 KB");
    assert_eq!(format_bytes_detailed(1536), "1.5 KB");
    assert_eq!(format_bytes_detailed(1073741824), "1.00 GB");
}

#[test]
fn test_uptime_formatting() {
    assert_eq!(format_uptime(30), "30s");
    assert_eq!(format_uptime(3661), "1h 1m 1s");
    assert_eq!(format_uptime(90061), "1d 1h 1m 1s");
}

#[test]
fn uptime_minutes_and_zero() {
    assert_eq!(format_uptime(0), "0s");
    assert_eq!(format_uptime(61), "1m 1s");
    assert_eq!(format_uptime(86400), "1d 0h 0m 0s");
    assert_eq!(format_uptime(3600), "1h 0m 0s");
}

#[test]
fn detailed_bytes_edges() {
    assert_eq!(format_bytes_detailed(0), "0 B");
    assert_eq!(format_bytes_detailed(1023), "1023 B");
    assert_eq!(format_bytes_detailed(1048576), "1.0 MB");
    assert_eq!(format_bytes_detailed(1572864), "1.5 MB");
    assert_eq!(format_bytes_detailed(1u64 << 50), "1.00 PB");
    assert_eq!(format_bytes_detailed(u64::MAX), "16384.00 PB");
}

#[test]
fn classification_boundaries() {
    assert_eq!(categorize_temperature(40.0_f32 as u32), TemperatureCategory::Cool);
    assert_eq!(categorize_temperature(41.0_f32 as u32), TemperatureCategory::Normal);
    assert_eq!(categorize_temperature(60), TemperatureCategory::Normal);
    assert_eq!(categorize_temperature(61), TemperatureCategory::Warm);
    assert_eq!(categorize_temperature(75), TemperatureCategory::Warm);
    assert_eq!(categorize_temperature(76), TemperatureCategory::Hot);
    assert_eq!(categorize_temperature(85), TemperatureCategory::Hot);
    assert_eq!(categorize_temperature(86.0_f32 as u32), TemperatureCategory::Critical);
    assert_eq!(categorize_temperature(40.9_f32 as u32), TemperatureCategory::Cool);
    assert_eq!(categorize_temperature(-5.0_f32 as u32), TemperatureCategory::Cool);
    assert_eq!(categorize_disk_usage(70.0_f32 as u32), DiskUsageCategory::Normal);
    assert_eq!(categorize_disk_usage(71.0_f32 as u32), DiskUsageCategory::Warning);
    assert_eq!(categorize_disk_usage(85), DiskUsageCategory::Warning);
    assert_eq!(categorize_disk_usage(86), DiskUsageCategory::Critical);
    assert_eq!(categorize_disk_usage(95), DiskUsageCategory::Critical);
    assert_eq!(categorize_disk_usage(96.0_f32 as u32), DiskUsageCategory::Full);
    assert_eq!(categorize_disk_usage(70.9_f32 as u32), DiskUsageCategory::Normal);
}
