use gpu_telemetry::gpu::history::GpuMetricsHistory;
use gpu_telemetry::gpu::metrics::GpuMetrics;

fn reading(percent: u64, timestamp: u64) -> GpuMetrics {
    GpuMetrics { gpu_utilization: percent * 1_000_000, timestamp, ..GpuMetrics::default() }
}

fn utilizations(history: &GpuMetricsHistory) -> Vec<u64> {
    history.samples.iter().map(|m| m.gpu_utilization / 1_000_000).collect()
}

#[test]
fn new_history_is_empty() {
    let history = GpuMetricsHistory::new(7, 120);
    assert_eq!(history.gpu_id, 7);
    assert_eq!(history.max_samples, 120);
    assert!(history.samples.is_empty());
}

#[test]
fn history_of_three_keeps_last_three_of_four() {
    let mut history = GpuMetricsHistory::new(0, 3);
    for (i, percent) in [10u64, 20, 30, 40].iter().enumerate() {
        history.push(reading(*percent, 1000 + i as u64));
    }
    assert_eq!(utilizations(&history), vec![20, 30, 40]);
    assert_eq!(history.gpu_id, 0);
    assert_eq!(history.max_samples, 3);
}

#[test]
fn push_with_room_keeps_everything_in_order() {
    let mut history = GpuMetricsHistory::new(1, 5);
    history.push(reading(1, 10));
    history.push(reading(2, 20));
    assert_eq!(utilizations(&history), vec![1, 2]);
}

#[test]
fn push_beyond_capacity_stays_at_capacity() {
    let mut history = GpuMetricsHistory::new(0, 4);
    for i in 0..50u64 {
        history.push(reading(i % 100, i));
        assert!(history.samples.len() <= 4);
        if i >= 3 {
            assert_eq!(history.samples.len(), 4);
        }
    }
    assert_eq!(utilizations(&history), vec![46, 47, 48, 49]);
}

#[test]
fn evicted_reading_is_older_than_oldest_kept() {
    let mut history = GpuMetricsHistory::new(0, 2);
    history.push(reading(1, 100));
    history.push(reading(2, 200));
    let evicted = history.samples[0];
    history.push(reading(3, 300));
    assert_eq!(history.samples.len(), 2);
    assert!(history.samples[0].timestamp > evicted.timestamp);
    assert_eq!(history.samples[0].timestamp, 200);
    assert_eq!(history.samples[1].timestamp, 300);
}

#[test]
fn history_of_one_keeps_only_the_newest() {
    let mut history = GpuMetricsHistory::new(3, 1);
    history.push(reading(5, 1));
    history.push(reading(6, 2));
    assert_eq!(utilizations(&history), vec![6]);
}

#[test]
fn history_of_capacity_zero_stays_empty() {
    let mut history = GpuMetricsHistory::new(3, 0);
    history.push(reading(5, 1));
    history.push(reading(6, 2));
    assert!(history.samples.is_empty());
}

#[test]
fn overfull_history_is_cut_back_by_a_push() {
    let mut history = GpuMetricsHistory {
        gpu_id: 0,
        samples: vec![reading(1, 1), reading(2, 2), reading(3, 3), reading(4, 4)],
        max_samples: 2,
    };
    history.push(reading(5, 5));
    assert_eq!(utilizations(&history), vec![4, 5]);
}

#[test]
fn default_reading_has_no_optional_field() {
    let m = GpuMetrics::default();
    assert_eq!(m.gpu_utilization, 0);
    assert_eq!(m.timestamp, 0);
    assert!(m.memory_used_mb.is_none());
    assert!(m.memory_total_mb.is_none());
    assert!(m.memory_utilization.is_none());
    assert!(m.temperature_celsius.is_none());
    assert!(m.power_usage_watts.is_none());
    assert!(m.power_limit_watts.is_none());
    assert!(m.fan_speed_percent.is_none());
    assert!(m.clock_speed_mhz.is_none());
    assert!(m.memory_clock_mhz.is_none());
    assert!(m.pcie_throughput_tx_mbps.is_none());
    assert!(m.pcie_throughput_rx_mbps.is_none());
    assert!(m.encoder_utilization.is_none());
    assert!(m.decoder_utilization.is_none());
}
