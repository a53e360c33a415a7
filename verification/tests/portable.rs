use gpu_telemetry::gpu::detect::{detect_from, detect_gpus, detect_gpus_with, BackendConfig};
use gpu_telemetry::gpu::device::GpuInfo;
use gpu_telemetry::gpu::error::BackendError;
use gpu_telemetry::gpu::portable::{
    detect_wgpu_gpus, enumerate_adapters, gpus_from_adapters, vendor_name, AdapterKind,
    AdapterSummary,
};

fn adapter(name: &str, vendor: u32, device_type: AdapterKind) -> AdapterSummary {
    AdapterSummary { name: name.to_string(), vendor, device_type, driver: "drv 1.2".to_string() }
}

fn nvidia(id: u32) -> GpuInfo {
    GpuInfo {
        id,
        name: "NVIDIA A100".to_string(),
        vendor: "NVIDIA".to_string(),
        driver_version: "550.0".to_string(),
        memory_total_mb: 81920,
        cuda_cores: Some(6912),
        compute_capability: Some("8.0".to_string()),
    }
}

const BOTH: BackendConfig = BackendConfig { vendor: true, portable: true };

#[test]
fn vendor_codes_are_looked_up() {
    assert_eq!(vendor_name(0x10DE), "NVIDIA");
    assert_eq!(vendor_name(0x1002), "AMD");
    assert_eq!(vendor_name(0x8086), "Intel");
    assert_eq!(vendor_name(0x106B), "Apple");
}

#[test]
fn other_vendor_codes_are_unknown() {
    assert_eq!(vendor_name(0), "Unknown");
    assert_eq!(vendor_name(0x10DF), "Unknown");
    assert_eq!(vendor_name(0x1_10DE), "Unknown");
    assert_eq!(vendor_name(u32::MAX), "Unknown");
}

#[test]
fn software_renderer_alone_yields_no_device() {
    let adapters = vec![adapter("llvmpipe (LLVM 15.0.7, 256 bits)", 0x10005, AdapterKind::Cpu)];
    assert_eq!(gpus_from_adapters(&adapters), Vec::<GpuInfo>::new());
    assert_eq!(detect_from(BOTH, Err(BackendError::Unavailable), &adapters), Vec::<GpuInfo>::new());
}

#[test]
fn no_adapter_yields_no_device() {
    assert!(gpus_from_adapters(&Vec::new()).is_empty());
}

#[test]
fn hardware_adapters_become_devices_under_their_place() {
    let adapters = vec![
        adapter("llvmpipe", 0x10005, AdapterKind::Cpu),
        adapter("AMD Radeon RX 7900", 0x1002, AdapterKind::DiscreteGpu),
        adapter("Intel UHD 770", 0x8086, AdapterKind::IntegratedGpu),
        adapter("SwiftShader", 0x1AE0, AdapterKind::Cpu),
        adapter("Virtio GPU", 0x1AF4, AdapterKind::VirtualGpu),
        adapter("Mystery", 0x10DE, AdapterKind::Other),
    ];
    let gpus = gpus_from_adapters(&adapters);
    assert_eq!(
        gpus,
        vec![
            GpuInfo {
                id: 1,
                name: "AMD Radeon RX 7900".to_string(),
                vendor: "AMD".to_string(),
                driver_version: "drv 1.2".to_string(),
                memory_total_mb: 0,
                cuda_cores: None,
                compute_capability: None,
            },
            GpuInfo {
                id: 2,
                name: "Intel UHD 770".to_string(),
                vendor: "Intel".to_string(),
                driver_version: "drv 1.2".to_string(),
                memory_total_mb: 0,
                cuda_cores: None,
                compute_capability: None,
            },
            GpuInfo {
                id: 4,
                name: "Virtio GPU".to_string(),
                vendor: "Unknown".to_string(),
                driver_version: "drv 1.2".to_string(),
                memory_total_mb: 0,
                cuda_cores: None,
                compute_capability: None,
            },
            GpuInfo {
                id: 5,
                name: "Mystery".to_string(),
                vendor: "NVIDIA".to_string(),
                driver_version: "drv 1.2".to_string(),
                memory_total_mb: 0,
                cuda_cores: None,
                compute_capability: None,
            },
        ]
    );
}

#[test]
fn portable_devices_report_memory_as_unknown() {
    let gpus = gpus_from_adapters(&vec![adapter("Apple M2", 0x106B, AdapterKind::IntegratedGpu)]);
    assert_eq!(gpus.len(), 1);
    assert_eq!(gpus[0].id, 0);
    assert_eq!(gpus[0].vendor, "Apple");
    assert_eq!(gpus[0].memory_total_mb, 0);
    assert_eq!(gpus[0].cuda_cores, None);
    assert_eq!(gpus[0].compute_capability, None);
}

#[test]
fn same_adapters_give_the_same_devices() {
    let adapters = vec![
        adapter("A", 0x10DE, AdapterKind::DiscreteGpu),
        adapter("B", 0, AdapterKind::Cpu),
        adapter("C", 0x1002, AdapterKind::DiscreteGpu),
    ];
    let first = gpus_from_adapters(&adapters);
    let second = gpus_from_adapters(&adapters);
    assert_eq!(first.len(), second.len());
    assert_eq!(first, second);
}

#[test]
fn vendor_devices_win_over_portable_ones() {
    let adapters = vec![adapter("AMD Radeon", 0x1002, AdapterKind::DiscreteGpu)];
    let found = detect_from(BOTH, Ok(vec![nvidia(0), nvidia(1)]), &adapters);
    assert_eq!(found, vec![nvidia(0), nvidia(1)]);
}

#[test]
fn portable_devices_answer_where_the_vendor_found_none() {
    let adapters = vec![adapter("AMD Radeon", 0x1002, AdapterKind::DiscreteGpu)];
    let found = detect_from(BOTH, Ok(Vec::new()), &adapters);
    assert_eq!(found.len(), 1);
    assert_eq!(found[0].name, "AMD Radeon");
}

#[test]
fn portable_devices_answer_where_the_vendor_failed() {
    let adapters = vec![adapter("AMD Radeon", 0x1002, AdapterKind::DiscreteGpu)];
    for error in [BackendError::Unavailable, BackendError::DeviceVanished, BackendError::QueryFailed] {
        let found = detect_from(BOTH, Err(error), &adapters);
        assert_eq!(found.len(), 1);
        assert_eq!(found[0].vendor, "AMD");
    }
}

#[test]
fn a_backend_that_is_switched_off_is_not_heard() {
    let adapters = vec![adapter("AMD Radeon", 0x1002, AdapterKind::DiscreteGpu)];
    let only_portable = BackendConfig { vendor: false, portable: true };
    let only_vendor = BackendConfig { vendor: true, portable: false };
    let none = BackendConfig { vendor: false, portable: false };
    assert_eq!(detect_from(only_portable, Ok(vec![nvidia(0)]), &adapters)[0].vendor, "AMD");
    assert_eq!(detect_from(only_vendor, Ok(vec![nvidia(0)]), &adapters), vec![nvidia(0)]);
    assert!(detect_from(only_vendor, Ok(Vec::new()), &adapters).is_empty());
    assert!(detect_from(only_vendor, Err(BackendError::Unavailable), &adapters).is_empty());
    assert!(detect_from(none, Ok(vec![nvidia(0)]), &adapters).is_empty());
}

#[test]
fn detection_without_backends_finds_nothing() {
    assert!(detect_gpus_with(BackendConfig { vendor: false, portable: false }).is_empty());
}

#[test]
fn default_configuration_enables_both_backends() {
    assert_eq!(BackendConfig::default(), BOTH);
}

#[test]
fn detection_never_lists_an_id_twice() {
    let gpus = detect_gpus();
    for pair in gpus.windows(2) {
        assert!(pair[0].id < pair[1].id);
    }
}

#[test]
fn detection_twice_in_a_row_agrees() {
    let first = detect_gpus();
    let second = detect_gpus();
    assert_eq!(first.len(), second.len());
    for (a, b) in first.iter().zip(second.iter()) {
        assert_eq!(a.name, b.name);
    }
}

#[test]
fn portable_detection_lists_no_software_renderer() {
    let adapters = enumerate_adapters();
    let gpus = detect_wgpu_gpus();
    assert!(gpus.len() <= adapters.len());
    assert_eq!(gpus_from_adapters(&adapters).len(), gpus.len());
    for gpu in &gpus {
        assert_ne!(adapters[gpu.id as usize].device_type, AdapterKind::Cpu);
        assert_eq!(gpu.memory_total_mb, 0);
    }
}
