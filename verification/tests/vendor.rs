use gpu_telemetry::gpu::decimal::{append_decimal, i32_to_decimal};
use gpu_telemetry::gpu::error::BackendError;
use gpu_telemetry::gpu::metrics::GpuMetrics;
use gpu_telemetry::gpu::nvml::{
    capability_text, detect_nvidia_gpus, get_nvidia_metrics, gpus_from_inventory,
    metrics_from_answer, metrics_from_readings, nvidia_gpu_info, nvidia_gpus_from, DeviceProbe,
    NvmlReadings, VendorAnswer, VendorInventory,
};
use gpu_telemetry::units::share_of;

const NOTHING: NvmlReadings = NvmlReadings {
    gpu_utilization: None,
    memory: None,
    temperature: None,
    power_usage: None,
    power_limit: None,
    fan_speed: None,
    graphics_clock: None,
    memory_clock: None,
    encoder_utilization: None,
    decoder_utilization: None,
    pcie_receive: None,
};

#[test]
fn full_answers_make_a_full_reading() {
    let readings = NvmlReadings {
        gpu_utilization: Some(37),
        memory: Some((6 * 1024 * 1024 * 1024, 24 * 1024 * 1024 * 1024)),
        temperature: Some(61),
        power_usage: Some(182_500),
        power_limit: Some(350_000),
        fan_speed: Some(45),
        graphics_clock: Some(1935),
        memory_clock: Some(9501),
        encoder_utilization: Some(12),
        decoder_utilization: Some(0),
        pcie_receive: Some(2_500_000),
    };
    assert_eq!(
        metrics_from_readings(&readings, 1_700_000_000_123),
        Ok(GpuMetrics {
            gpu_utilization: 37_000_000,
            memory_used_mb: Some(6144),
            memory_total_mb: Some(24576),
            memory_utilization: Some(25_000_000),
            temperature_celsius: Some(61_000_000),
            power_usage_watts: Some(182_500_000),
            power_limit_watts: Some(350_000_000),
            fan_speed_percent: Some(45),
            clock_speed_mhz: Some(1935),
            memory_clock_mhz: Some(9501),
            pcie_throughput_tx_mbps: None,
            pcie_throughput_rx_mbps: Some(2_500_000),
            encoder_utilization: Some(12_000_000),
            decoder_utilization: Some(0),
            timestamp: 1_700_000_000_123,
        })
    );
}

#[test]
fn unanswered_fields_are_absent_not_zero() {
    let readings = NvmlReadings {
        gpu_utilization: Some(0),
        memory: Some((0, 8 * 1024 * 1024 * 1024)),
        fan_speed: Some(0),
        ..NOTHING
    };
    let m = metrics_from_readings(&readings, 5).unwrap();
    assert_eq!(m.gpu_utilization, 0);
    assert_eq!(m.memory_used_mb, Some(0));
    assert_eq!(m.memory_total_mb, Some(8192));
    assert_eq!(m.memory_utilization, Some(0));
    assert_eq!(m.fan_speed_percent, Some(0));
    assert_eq!(m.temperature_celsius, None);
    assert_eq!(m.power_usage_watts, None);
    assert_eq!(m.power_limit_watts, None);
    assert_eq!(m.clock_speed_mhz, None);
    assert_eq!(m.memory_clock_mhz, None);
    assert_eq!(m.pcie_throughput_tx_mbps, None);
    assert_eq!(m.pcie_throughput_rx_mbps, None);
    assert_eq!(m.encoder_utilization, None);
    assert_eq!(m.decoder_utilization, None);
    assert_eq!(m.timestamp, 5);
}

#[test]
fn reading_without_utilization_fails() {
    let readings = NvmlReadings { memory: Some((1, 2)), temperature: Some(50), ..NOTHING };
    assert_eq!(metrics_from_readings(&readings, 1), Err(BackendError::QueryFailed));
}

#[test]
fn reading_without_memory_succeeds_with_memory_absent() {
    let readings = NvmlReadings {
        gpu_utilization: Some(50),
        temperature: Some(50),
        fan_speed: Some(0),
        ..NOTHING
    };
    assert_eq!(
        metrics_from_readings(&readings, 1),
        Ok(GpuMetrics {
            gpu_utilization: 50_000_000,
            memory_used_mb: None,
            memory_total_mb: None,
            memory_utilization: None,
            temperature_celsius: Some(50_000_000),
            power_usage_watts: None,
            power_limit_watts: None,
            fan_speed_percent: Some(0),
            clock_speed_mhz: None,
            memory_clock_mhz: None,
            pcie_throughput_tx_mbps: None,
            pcie_throughput_rx_mbps: None,
            encoder_utilization: None,
            decoder_utilization: None,
            timestamp: 1,
        })
    );
    assert_eq!(
        metrics_from_answer(&VendorAnswer::Device(readings), 1),
        metrics_from_readings(&readings, 1)
    );
}

#[test]
fn reading_without_any_answer_fails() {
    assert_eq!(metrics_from_readings(&NOTHING, 1), Err(BackendError::QueryFailed));
}

#[test]
fn memory_is_counted_in_whole_megabytes() {
    let readings = NvmlReadings {
        gpu_utilization: Some(1),
        memory: Some((1024 * 1024 - 1, 3 * 1024 * 1024 + 5)),
        ..NOTHING
    };
    let m = metrics_from_readings(&readings, 0).unwrap();
    assert_eq!(m.memory_used_mb, Some(0));
    assert_eq!(m.memory_total_mb, Some(3));
}

#[test]
fn largest_answers_do_not_overflow() {
    let readings = NvmlReadings {
        gpu_utilization: Some(u32::MAX),
        memory: Some((u64::MAX, 1)),
        temperature: Some(u32::MAX),
        power_usage: Some(u32::MAX),
        power_limit: Some(u32::MAX),
        fan_speed: Some(u32::MAX),
        graphics_clock: Some(u32::MAX),
        memory_clock: Some(u32::MAX),
        encoder_utilization: Some(u32::MAX),
        decoder_utilization: Some(u32::MAX),
        pcie_receive: Some(u32::MAX),
    };
    let m = metrics_from_readings(&readings, u64::MAX).unwrap();
    assert_eq!(m.gpu_utilization, 4_294_967_295_000_000);
    assert_eq!(m.memory_utilization, Some(u64::MAX));
    assert_eq!(m.power_usage_watts, Some(4_294_967_295_000));
    assert_eq!(m.pcie_throughput_rx_mbps, Some(4_294_967_295));
}

#[test]
fn share_of_a_total() {
    assert_eq!(share_of(1, 4), 25_000_000);
    assert_eq!(share_of(1, 3), 33_333_333);
    assert_eq!(share_of(2, 3), 66_666_666);
    assert_eq!(share_of(8, 8), 100_000_000);
    assert_eq!(share_of(0, 8), 0);
    assert_eq!(share_of(3, 2), 150_000_000);
}

#[test]
fn share_of_nothing_is_zero() {
    assert_eq!(share_of(0, 0), 0);
    assert_eq!(share_of(17, 0), 0);
}

#[test]
fn share_beyond_the_largest_number_is_capped() {
    assert_eq!(share_of(u64::MAX, 1), u64::MAX);
    assert_eq!(share_of(u64::MAX, u64::MAX), 100_000_000);
}

#[test]
fn decimal_text_of_integers() {
    assert_eq!(i32_to_decimal(0), "0");
    assert_eq!(i32_to_decimal(7), "7");
    assert_eq!(i32_to_decimal(10), "10");
    assert_eq!(i32_to_decimal(1234567890), "1234567890");
    assert_eq!(i32_to_decimal(-1), "-1");
    assert_eq!(i32_to_decimal(-120), "-120");
    assert_eq!(i32_to_decimal(i32::MAX), "2147483647");
    assert_eq!(i32_to_decimal(i32::MIN), "-2147483648");
}

#[test]
fn decimal_digits_are_appended() {
    let mut text = String::from("v");
    append_decimal(&mut text, 4096);
    append_decimal(&mut text, 0);
    append_decimal(&mut text, u32::MAX);
    assert_eq!(text, "v409604294967295");
}

#[test]
fn decimal_text_agrees_with_std() {
    for i in [-100_000i32, -99, -10, -9, 0, 9, 10, 99, 100, 101, 65_535, 1_000_000] {
        assert_eq!(i32_to_decimal(i), i.to_string());
    }
}

#[test]
fn compute_capability_reads_major_dot_minor() {
    assert_eq!(capability_text(8, 6), "8.6");
    assert_eq!(capability_text(12, 0), "12.0");
    assert_eq!(capability_text(-1, 10), "-1.10");
}

fn full_probe() -> DeviceProbe {
    DeviceProbe {
        name: Some("NVIDIA GeForce RTX 4090".to_string()),
        memory_total: Some(24 * 1024 * 1024 * 1024 + 17),
        driver_version: Some("550.54.14".to_string()),
        cuda_cores: Some(16384),
        capability: Some((8, 9)),
    }
}

const EMPTY_PROBE: DeviceProbe = DeviceProbe {
    name: None,
    memory_total: None,
    driver_version: None,
    cuda_cores: None,
    capability: None,
};

#[test]
fn device_description_from_full_answers() {
    let info = nvidia_gpu_info(2, &full_probe());
    assert_eq!(info.id, 2);
    assert_eq!(info.name, "NVIDIA GeForce RTX 4090");
    assert_eq!(info.vendor, "NVIDIA");
    assert_eq!(info.driver_version, "550.54.14");
    assert_eq!(info.memory_total_mb, 24576);
    assert_eq!(info.cuda_cores, Some(16384));
    assert_eq!(info.compute_capability, Some("8.9".to_string()));
}

#[test]
fn device_description_from_no_answers() {
    let info = nvidia_gpu_info(0, &EMPTY_PROBE);
    assert_eq!(info.id, 0);
    assert_eq!(info.name, "Unknown NVIDIA GPU");
    assert_eq!(info.vendor, "NVIDIA");
    assert_eq!(info.driver_version, "Unknown");
    assert_eq!(info.memory_total_mb, 0);
    assert_eq!(info.cuda_cores, None);
    assert_eq!(info.compute_capability, None);
}

#[test]
fn indices_that_resolved_become_devices_under_their_index() {
    let probes = vec![None, Some(full_probe()), None, Some(EMPTY_PROBE), Some(full_probe())];
    let gpus = nvidia_gpus_from(&probes);
    let ids: Vec<u32> = gpus.iter().map(|g| g.id).collect();
    assert_eq!(ids, vec![1, 3, 4]);
    assert_eq!(gpus[0], nvidia_gpu_info(1, &full_probe()));
    assert_eq!(gpus[1], nvidia_gpu_info(3, &EMPTY_PROBE));
    assert_eq!(gpus[2], nvidia_gpu_info(4, &full_probe()));
}

#[test]
fn no_index_that_resolved_means_no_vendor_device() {
    assert!(nvidia_gpus_from(&Vec::new()).is_empty());
    assert!(nvidia_gpus_from(&vec![None, None]).is_empty());
}

#[test]
fn a_missing_library_makes_the_backend_unavailable() {
    assert_eq!(metrics_from_answer(&VendorAnswer::NoLibrary, 7), Err(BackendError::Unavailable));
}

#[test]
fn an_index_that_does_not_resolve_means_the_device_vanished() {
    assert_eq!(metrics_from_answer(&VendorAnswer::NoDevice, 7), Err(BackendError::DeviceVanished));
}

#[test]
fn a_device_that_withholds_its_utilization_fails_the_query() {
    let readings = NvmlReadings { memory: Some((1, 2)), ..NOTHING };
    assert_eq!(
        metrics_from_answer(&VendorAnswer::Device(readings), 7),
        Err(BackendError::QueryFailed)
    );
}

#[test]
fn a_device_that_answers_is_read() {
    let readings = NvmlReadings { gpu_utilization: Some(99), memory: Some((0, 0)), ..NOTHING };
    let m = metrics_from_answer(&VendorAnswer::Device(readings), 7).unwrap();
    assert_eq!(m, metrics_from_readings(&readings, 7).unwrap());
    assert_eq!(m.gpu_utilization, 99_000_000);
    assert_eq!(m.memory_utilization, Some(0));
    assert_eq!(m.timestamp, 7);
}

#[test]
fn vendor_reading_fails_or_withholds_transmit_throughput() {
    match get_nvidia_metrics(0) {
        Ok(m) => assert_eq!(m.pcie_throughput_tx_mbps, None),
        Err(e) => assert!(matches!(
            e,
            BackendError::Unavailable | BackendError::DeviceVanished | BackendError::QueryFailed
        )),
    }
}

#[test]
fn vendor_reading_of_an_index_that_cannot_resolve_fails() {
    assert!(matches!(
        get_nvidia_metrics(u32::MAX),
        Err(BackendError::Unavailable | BackendError::DeviceVanished)
    ));
}

#[test]
fn vendor_detection_finds_only_nvidia_devices_with_growing_ids() {
    match detect_nvidia_gpus() {
        Ok(gpus) => {
            for gpu in &gpus {
                assert_eq!(gpu.vendor, "NVIDIA");
            }
            for pair in gpus.windows(2) {
                assert!(pair[0].id < pair[1].id);
            }
        }
        Err(e) => assert!(matches!(e, BackendError::Unavailable | BackendError::QueryFailed)),
    }
}

#[test]
fn detection_without_the_library_is_unavailable() {
    assert_eq!(gpus_from_inventory(&VendorInventory::NoLibrary), Err(BackendError::Unavailable));
}

#[test]
fn detection_without_the_number_of_devices_fails_the_query() {
    assert_eq!(gpus_from_inventory(&VendorInventory::NoCount), Err(BackendError::QueryFailed));
}

#[test]
fn detection_over_probed_indices_lists_those_that_resolved() {
    let inventory = VendorInventory::Probed(vec![Some(full_probe()), None, Some(EMPTY_PROBE)]);
    assert_eq!(
        gpus_from_inventory(&inventory),
        Ok(vec![nvidia_gpu_info(0, &full_probe()), nvidia_gpu_info(2, &EMPTY_PROBE)])
    );
    assert_eq!(gpus_from_inventory(&VendorInventory::Probed(Vec::new())), Ok(Vec::new()));
    assert_eq!(gpus_from_inventory(&VendorInventory::Probed(vec![None])), Ok(Vec::new()));
}

#[test]
fn vendor_detection_on_this_host_never_reports_a_vanished_device() {
    if let Err(e) = detect_nvidia_gpus() {
        assert_ne!(e, BackendError::DeviceVanished);
    }
}
