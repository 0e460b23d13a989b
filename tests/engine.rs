use sysmon::classify::{
    percent_hundredths, DiskInfo, DiskUsageCategory, TemperatureCategory, TemperatureInfo,
};
use sysmon::format::format_bytes;
use sysmon::history::HistoryBuffer;
use sysmon::rate::{aggregate_counters, network_rate};
use sysmon::ranking::{select_top, ProcessSnapshot};
use sysmon::state::{mean_usage, App, MetricsReading, DEFAULT_HISTORY_LEN};

fn proc(name: &str, cpu: u32, memory: u64) -> ProcessSnapshot {
    ProcessSnapshot::new(name.to_string(), cpu, memory)
}

fn names(v: &[ProcessSnapshot]) -> Vec<String> {
    v.iter().map(|p| p.name.clone()).collect()
}

fn reading(cpu: Vec<u32>, used: u64, total: u64, counters: Vec<(u64, u64)>) -> MetricsReading {
    MetricsReading {
        per_core_cpu: cpu,
        used_memory: used,
        total_memory: total,
        interface_counters: counters,
        processes: Vec::new(),
    }
}

#[test]
fn history_bounded_growth() {
    let mut h: HistoryBuffer<u32> = HistoryBuffer::new(3);
    assert!(h.is_empty());
    assert_eq!(h.latest(), None);
    for n in 1..=7u32 {
        h.push(n);
        assert_eq!(h.len(), std::cmp::min(n as usize, 3));
        assert_eq!(h.latest(), Some(&n));
    }
    assert_eq!(h.values(), &vec![5, 6, 7]);
    assert_eq!(h.capacity(), 3);
}

#[test]
fn history_capacity_zero_stays_empty() {
    let mut h: HistoryBuffer<u32> = HistoryBuffer::new(0);
    h.push(1);
    assert_eq!(h.len(), 0);
    assert_eq!(h.latest(), None);
}

#[test]
fn average_of_cores() {
    assert_eq!(mean_usage(&vec![1000, 2000, 3000]), 2000);
    assert_eq!(mean_usage(&vec![]), 0);
    assert_eq!(mean_usage(&vec![u32::MAX, u32::MAX]), u32::MAX);
    assert_eq!(mean_usage(&vec![1, 2]), 1);
}

#[test]
fn rate_derivation() {
    assert_eq!(network_rate(Some((1000, 2000)), (1500, 2000), 250_000), Some((2000, 0)));
    assert_eq!(network_rate(None, (1500, 2000), 250_000), None);
    assert_eq!(network_rate(Some((0, 0)), (1000, 3), 1_500_000), Some((666, 2)));
}

#[test]
fn rate_regression_clamp() {
    assert_eq!(network_rate(Some((5000, 0)), (4000, 0), 250_000), Some((0, 0)));
}

#[test]
fn rate_over_no_time() {
    assert_eq!(network_rate(Some((10, 10)), (10, 11), 0), Some((0, u64::MAX)));
    assert_eq!(network_rate(Some((0, 0)), (u64::MAX, 0), 1), Some((u64::MAX, 0)));
}

#[test]
fn counters_sum_and_saturate() {
    assert_eq!(aggregate_counters(&vec![(1, 2), (10, 20), (100, 200)]), (111, 222));
    assert_eq!(aggregate_counters(&vec![]), (0, 0));
    assert_eq!(aggregate_counters(&vec![(u64::MAX, 1), (5, 1)]), (u64::MAX, 2));
}

#[test]
fn top_k_stability() {
    let ps = vec![proc("a", 5000, 1), proc("b", 5000, 2), proc("c", 1000, 3)];
    assert_eq!(names(&select_top(&ps, 2)), vec!["a", "b"]);
}

#[test]
fn top_k_orders_and_bounds() {
    let ps = vec![
        proc("idle1", 0, 1),
        proc("busy", 9000, 2),
        proc("idle2", 0, 3),
        proc("mid", 4000, 4),
    ];
    assert_eq!(names(&select_top(&ps, 10)), vec!["busy", "mid", "idle1", "idle2"]);
    assert_eq!(names(&select_top(&ps, 0)), Vec::<String>::new());
    assert_eq!(names(&select_top(&Vec::new(), 3)), Vec::<String>::new());
    let top = select_top(&ps, 1);
    assert_eq!(top[0].memory, 2);
    assert_eq!(top[0].cpu_usage, 9000);
}

#[test]
fn humanized_bytes() {
    assert_eq!(format_bytes(1024), "1.0 KB");
    assert_eq!(format_bytes(1536), "1.5 KB");
    assert_eq!(format_bytes(1073741824), "1.0 GB");
    assert_eq!(format_bytes(0), "0.0 B");
    assert_eq!(format_bytes(512), "512.0 B");
    assert_eq!(format_bytes(1280), "1.2 KB");
    assert_eq!(format_bytes(1u64 << 50), "1024.0 TB");
    assert_eq!(App::format_bytes(1048576), "1.0 MB");
}

#[test]
fn percent_of_whole() {
    assert_eq!(percent_hundredths(1, 4), 2500);
    assert_eq!(percent_hundredths(5, 0), 0);
    assert_eq!(percent_hundredths(u64::MAX, 1), u64::MAX);
}

#[test]
fn disk_info_from_space() {
    let d = DiskInfo::from_space("sda1".to_string(), "/".to_string(), 1000, 250, "ext4".to_string());
    assert_eq!(d.used_space, 750);
    assert_eq!(d.usage_percent, 7500);
    assert_eq!(d.category(), DiskUsageCategory::Warning);
    let e = DiskInfo::from_space("x".to_string(), "/x".to_string(), 0, 0, "tmpfs".to_string());
    assert_eq!(e.usage_percent, 0);
    assert_eq!(e.category(), DiskUsageCategory::Normal);
    let f = DiskInfo::from_space("y".to_string(), "/y".to_string(), 10, 20, "vfat".to_string());
    assert_eq!(f.used_space, 0);
}

#[test]
fn temperature_info_filters() {
    let t = TemperatureInfo::from_reading("cpu".to_string(), 8650, 9000, Some(0));
    assert_eq!(t.max_temp, Some(9000));
    assert_eq!(t.critical_temp, None);
    assert_eq!(t.category(), TemperatureCategory::Critical);
    let u = TemperatureInfo::from_reading("gpu".to_string(), -100, 0, Some(10500));
    assert_eq!(u.max_temp, None);
    assert_eq!(u.critical_temp, Some(10500));
    assert_eq!(u.category(), TemperatureCategory::Cool);
}

#[test]
fn app_starts_empty() {
    let app = App::new();
    assert_eq!(app.cpu_history_len, DEFAULT_HISTORY_LEN);
    assert_eq!(app.cpu_history.len(), 0);
    assert_eq!(app.memory_history.len(), 0);
    assert_eq!(app.network_history.len(), 0);
    assert_eq!(app.prev_network_data, None);
    assert_eq!(app.cpu_average, 0);
    assert_eq!(app.cpu_count(), 0);
    assert_eq!(app.current_cpu_usage(), Vec::<u32>::new());
    assert_eq!(app.memory_usage_percent(), 0);
    assert!(app.top_processes().is_empty());
}

#[test]
fn app_histories_grow_together() {
    let mut app = App::with_history_len(3);
    for n in 1..=5u64 {
        app.update(reading(vec![n as u32 * 100], n, 10, vec![(n * 1000, 0)]), 1_000_000);
        let m = std::cmp::min(n as usize, 3);
        assert_eq!(app.cpu_history.len(), m);
        assert_eq!(app.memory_history.len(), m);
        assert_eq!(app.network_history.len(), std::cmp::min(n as usize - 1, 3));
        assert_eq!(app.cpu_history.values()[0], vec![(n as u32 + 1 - m as u32) * 100]);
    }
    assert_eq!(app.memory_history.values(), &vec![(3, 10), (4, 10), (5, 10)]);
    assert_eq!(app.network_history.values(), &vec![(1000, 0), (1000, 0), (1000, 0)]);
}

#[test]
fn app_ticks() {
    let mut app = App::with_history_len(2);
    app.update(reading(vec![1000, 2000, 3000], 512, 1024, vec![(1000, 2000)]), 250_000);
    assert_eq!(app.cpu_average, 2000);
    assert_eq!(app.memory_usage_percent(), 5000);
    assert_eq!(app.network_history.len(), 0);
    assert_eq!(app.prev_network_data, Some((1000, 2000)));
    app.update(reading(vec![0, 0, 0], 256, 1024, vec![(1200, 2000), (300, 0)]), 250_000);
    assert_eq!(app.cpu_average, 0);
    assert_eq!(app.network_history.values(), &vec![(2000, 0)]);
    app.update(reading(vec![], 0, 0, vec![]), 250_000);
    assert_eq!(app.cpu_average, 0);
    assert_eq!(app.cpu_count(), 0);
    assert_eq!(app.memory_usage_percent(), 0);
    assert_eq!(app.cpu_history.len(), 2);
    assert_eq!(app.memory_history.len(), 2);
    assert_eq!(app.network_history.values(), &vec![(2000, 0), (0, 0)]);
}

#[test]
fn app_top_processes_limit() {
    let mut app = App::new();
    let mut r = reading(vec![100], 1, 2, vec![]);
    for i in 0..15u32 {
        r.processes.push(proc(&format!("task{}", i), i * 100, 0));
    }
    app.update(r, 250_000);
    let top = app.top_processes();
    assert_eq!(top.len(), 10);
    assert_eq!(top[0].name, "task14");
    assert_eq!(top[9].name, "task5");
}
