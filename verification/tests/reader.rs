use gpu_telemetry::gpu::detect::BackendConfig;
use gpu_telemetry::gpu::metrics::GpuMetrics;
use gpu_telemetry::gpu::error::BackendError;
use gpu_telemetry::gpu::reader::{get_current_metrics, get_current_metrics_with, reading_from};
use gpu_telemetry::gpu::simulate::{simulated_metrics_at, Jitter};

const SYNTHETIC_ONLY: BackendConfig = BackendConfig { vendor: false, portable: false };

const VENDOR_FIRST: BackendConfig = BackendConfig { vendor: true, portable: true };

fn every_field_present(m: &GpuMetrics) -> bool {
    m.memory_used_mb.is_some()
        && m.memory_total_mb.is_some()
        && m.memory_utilization.is_some()
        && m.temperature_celsius.is_some()
        && m.power_usage_watts.is_some()
        && m.power_limit_watts.is_some()
        && m.fan_speed_percent.is_some()
        && m.clock_speed_mhz.is_some()
        && m.memory_clock_mhz.is_some()
        && m.pcie_throughput_tx_mbps.is_some()
        && m.pcie_throughput_rx_mbps.is_some()
        && m.encoder_utilization.is_some()
        && m.decoder_utilization.is_some()
}

fn wait_two_milliseconds() {
    let start = std::time::Instant::now();
    while start.elapsed() < std::time::Duration::from_millis(2) {
        std::hint::spin_loop();
    }
}

#[test]
fn without_vendor_backend_every_field_is_present_and_time_moves_on() {
    let mut last = 0;
    for id in 0..5u32 {
        let m = get_current_metrics_with(SYNTHETIC_ONLY, id);
        assert!(every_field_present(&m));
        assert!(m.gpu_utilization <= 100_000_000);
        assert!(m.memory_used_mb.unwrap() <= m.memory_total_mb.unwrap());
        assert!(m.timestamp > last);
        last = m.timestamp;
        wait_two_milliseconds();
    }
}

#[test]
fn a_read_never_fails() {
    for id in [0u32, 1, 17, u32::MAX] {
        let m = get_current_metrics(id);
        assert!(m.timestamp > 0);
    }
}

#[test]
fn a_read_is_the_vendor_s_or_synthetic_or_degraded() {
    let m = get_current_metrics(0);
    if m.pcie_throughput_tx_mbps.is_some() {
        assert!(every_field_present(&m));
        assert_eq!(m.memory_total_mb, Some(8192));
        assert_eq!(m.power_limit_watts, Some(250_000_000));
    }
}

fn vendor_reading() -> GpuMetrics {
    GpuMetrics {
        gpu_utilization: 12_000_000,
        memory_used_mb: None,
        memory_total_mb: None,
        memory_utilization: None,
        temperature_celsius: Some(48_000_000),
        fan_speed_percent: Some(0),
        timestamp: 1_700_000_000_500,
        ..GpuMetrics::default()
    }
}

fn synthetic_reading() -> GpuMetrics {
    simulated_metrics_at(1_700_000_000_777, Jitter { utilization: 1, encoder: 2, decoder: 3 })
}

#[test]
fn a_vendor_reading_is_shown_unchanged() {
    let m = reading_from(VENDOR_FIRST, Ok(vendor_reading()), synthetic_reading());
    assert_eq!(m, vendor_reading());
    assert_eq!(m.memory_total_mb, None);
    assert_eq!(m.power_usage_watts, None);
    assert_eq!(m.timestamp, 1_700_000_000_500);
}

#[test]
fn without_the_vendor_library_the_reading_is_synthetic() {
    let m = reading_from(VENDOR_FIRST, Err(BackendError::Unavailable), synthetic_reading());
    assert_eq!(m, synthetic_reading());
    assert!(every_field_present(&m));
}

#[test]
fn a_vanished_device_is_shown_with_a_degraded_reading() {
    let m = reading_from(VENDOR_FIRST, Err(BackendError::DeviceVanished), synthetic_reading());
    assert_eq!(m, GpuMetrics { timestamp: 1_700_000_000_777, ..GpuMetrics::default() });
    assert_eq!(m.gpu_utilization, 0);
    assert_eq!(m.memory_total_mb, None);
    assert_eq!(m.temperature_celsius, None);
    assert_eq!(m.pcie_throughput_tx_mbps, None);
}

#[test]
fn a_device_that_withholds_its_utilization_is_shown_with_a_degraded_reading() {
    let m = reading_from(VENDOR_FIRST, Err(BackendError::QueryFailed), synthetic_reading());
    assert_eq!(m, GpuMetrics { timestamp: 1_700_000_000_777, ..GpuMetrics::default() });
}

#[test]
fn a_vendor_backend_that_takes_no_part_is_not_heard() {
    let only_synthetic = BackendConfig { vendor: false, portable: true };
    for vendor in [
        Ok(vendor_reading()),
        Err(BackendError::Unavailable),
        Err(BackendError::DeviceVanished),
        Err(BackendError::QueryFailed),
    ] {
        assert_eq!(reading_from(only_synthetic, vendor, synthetic_reading()), synthetic_reading());
    }
}

#[test]
fn every_device_of_a_list_is_read_in_order() {
    let device = |id: u32| gpu_telemetry::gpu::device::GpuInfo {
        id,
        name: "GPU".to_string(),
        vendor: "Unknown".to_string(),
        driver_version: String::new(),
        memory_total_mb: 0,
        cuda_cores: None,
        compute_capability: None,
    };
    let devices = vec![device(4), device(0), device(9)];
    let readings = gpu_telemetry::gpu::reader::get_all_current_metrics(SYNTHETIC_ONLY, &devices);
    let ids: Vec<u32> = readings.iter().map(|(id, _)| *id).collect();
    assert_eq!(ids, vec![4, 0, 9]);
    for (_, m) in &readings {
        assert!(every_field_present(m));
    }
    assert!(gpu_telemetry::gpu::reader::get_all_current_metrics(SYNTHETIC_ONLY, &Vec::new()).is_empty());
}
