use gpu_telemetry::system::{
    get_disk_io, get_network_io, get_system_info, is_model_process, mentions_model_keyword,
    model_processes, process_info_from, system_info_from, system_metrics_from,
    system_metrics_now, HostFacts, HostLoad, ProcessFacts, ProcessInfo, SystemInfo,
    SystemMetrics,
};

fn process(pid: u32, name: &str, memory: u64) -> ProcessFacts {
    ProcessFacts {
        pid,
        name: name.to_string(),
        cpu_usage: 12_500_000,
        memory,
        status: "Run".to_string(),
        start_time: 1_700_000_000,
    }
}

fn load() -> HostLoad {
    HostLoad {
        cpu_usage: 37_250_000,
        per_core_usage: vec![10_000_000, 64_500_000],
        used_memory: 6 * 1024 * 1024 * 1024,
        total_memory: 16 * 1024 * 1024 * 1024,
        used_swap: 512 * 1024 * 1024 + 1,
        total_swap: 2 * 1024 * 1024 * 1024,
        networks: vec![(100, 7), (23, 0), (4, 1000)],
        load_average: [1_250_000, 900_000, 450_000],
        uptime_seconds: 86_400,
    }
}

#[test]
fn host_description_from_full_facts() {
    let info = system_info_from(HostFacts {
        os_name: Some("Ubuntu".to_string()),
        os_version: Some("24.04".to_string()),
        kernel_version: Some("6.8.0".to_string()),
        hostname: Some("bench".to_string()),
        cpu_cores: 3,
        cpu_brand: Some("AMD Ryzen 9".to_string()),
        total_memory: 32 * 1024 * 1024 * 1024 + 99,
        total_swap: 1024 * 1024 - 1,
    });
    assert_eq!(
        info,
        SystemInfo {
            os_name: "Ubuntu".to_string(),
            os_version: "24.04".to_string(),
            kernel_version: "6.8.0".to_string(),
            hostname: "bench".to_string(),
            cpu_brand: "AMD Ryzen 9".to_string(),
            cpu_cores: 3,
            total_memory_mb: 32768,
            total_swap_mb: 0,
        }
    );
}

#[test]
fn host_description_from_no_facts() {
    let info = system_info_from(HostFacts {
        os_name: None,
        os_version: None,
        kernel_version: None,
        hostname: None,
        cpu_cores: 0,
        cpu_brand: None,
        total_memory: 0,
        total_swap: 0,
    });
    assert_eq!(info.os_name, "Unknown");
    assert_eq!(info.os_version, "Unknown");
    assert_eq!(info.kernel_version, "Unknown");
    assert_eq!(info.hostname, "Unknown");
    assert_eq!(info.cpu_brand, "Unknown CPU");
    assert_eq!(info.cpu_cores, 0);
    assert_eq!(info.total_memory_mb, 0);
    assert_eq!(info.total_swap_mb, 0);
}

#[test]
fn this_host_describes_itself() {
    let info = get_system_info();
    assert!(!info.os_name.is_empty());
    assert!(!info.cpu_brand.is_empty());
    assert!(info.cpu_cores > 0);
    assert!(info.total_memory_mb > 0);
}

#[test]
fn host_load_is_worked_out_from_what_the_host_told() {
    assert_eq!(
        system_metrics_from(load(), 1_700_000_000_000),
        SystemMetrics {
            cpu_usage: 37_250_000,
            per_core_usage: vec![10_000_000, 64_500_000],
            memory_used_mb: 6144,
            memory_total_mb: 16384,
            memory_usage_percent: 37_500_000,
            swap_used_mb: 512,
            swap_total_mb: 2048,
            disk_read_bytes_sec: 0,
            disk_write_bytes_sec: 0,
            network_rx_bytes_sec: 127,
            network_tx_bytes_sec: 1007,
            load_average: [1_250_000, 900_000, 450_000],
            uptime_seconds: 86_400,
            timestamp: 1_700_000_000_000,
        }
    );
}

#[test]
fn host_without_memory_uses_zero_percent() {
    let metrics = system_metrics_from(HostLoad { used_memory: 0, total_memory: 0, ..load() }, 1);
    assert_eq!(metrics.memory_total_mb, 0);
    assert_eq!(metrics.memory_usage_percent, 0);
    let metrics = system_metrics_from(HostLoad { total_memory: 1024 * 1024 - 1, ..load() }, 1);
    assert_eq!(metrics.memory_total_mb, 0);
    assert_eq!(metrics.memory_usage_percent, 0);
}

#[test]
fn host_load_now_is_stamped_with_the_clock() {
    let metrics = system_metrics_now(load());
    assert!(metrics.timestamp > 1_600_000_000_000);
    assert_eq!(metrics, system_metrics_from(load(), metrics.timestamp));
}

#[test]
fn network_traffic_is_summed_over_the_interfaces() {
    assert_eq!(get_network_io(&Vec::new()), (0, 0));
    assert_eq!(get_network_io(&vec![(5, 9)]), (5, 9));
    assert_eq!(get_network_io(&vec![(1, 2), (30, 40), (500, 600)]), (531, 642));
}

#[test]
fn network_traffic_beyond_the_largest_number_is_capped() {
    assert_eq!(get_network_io(&vec![(u64::MAX, 1), (1, 2)]), (u64::MAX, 3));
    assert_eq!(get_network_io(&vec![(u64::MAX - 1, 0), (1, u64::MAX), (7, 7)]), (u64::MAX, u64::MAX));
}

#[test]
fn disk_rate_is_not_measured() {
    assert_eq!(get_disk_io(), (0, 0));
}

#[test]
fn keywords_are_found_anywhere_in_a_lower_case_name() {
    for name in ["ollama", "llama-server", "python3.11", "libtorch_cpu", "nvidia-cuda-mps", "transformers"] {
        assert!(mentions_model_keyword(name), "{}", name);
    }
    assert!(mentions_model_keyword("xxcudaxx"));
    assert!(mentions_model_keyword("my-python"));
}

#[test]
fn other_names_are_not_model_runtimes() {
    for name in ["", "bash", "systemd", "pytho", "llam", "tor ch", "cud", "ransformers", "Python", "CUDA"] {
        assert!(!mentions_model_keyword(name), "{}", name);
    }
}

#[test]
fn process_names_are_matched_whatever_their_case() {
    assert!(is_model_process("PyTorch"));
    assert!(is_model_process("Ollama"));
    assert!(is_model_process("PYTHON.EXE"));
    assert!(is_model_process("python"));
    assert!(!is_model_process("Firefox"));
    assert!(!is_model_process(""));
}

#[test]
fn process_memory_is_counted_in_whole_megabytes() {
    let info = process_info_from(&process(42, "ollama", 3 * 1024 * 1024 + 1024));
    assert_eq!(
        info,
        ProcessInfo {
            pid: 42,
            name: "ollama".to_string(),
            cpu_usage: 12_500_000,
            memory_mb: 3,
            status: "Run".to_string(),
            start_time: 1_700_000_000,
        }
    );
}

#[test]
fn model_runtimes_are_picked_in_order() {
    let running = vec![
        process(1, "systemd", 1 << 20),
        process(2, "Python3", 50 << 20),
        process(3, "bash", 2 << 20),
        process(4, "ollama_llama_server", 9000 << 20),
        process(5, "TorchServe", 100 << 20),
        process(6, "cudnn", 1 << 20),
    ];
    let found = model_processes(&running);
    let picked: Vec<(u32, String, u64)> =
        found.iter().map(|p| (p.pid, p.name.clone(), p.memory_mb)).collect();
    assert_eq!(
        picked,
        vec![
            (2, "Python3".to_string(), 50),
            (4, "ollama_llama_server".to_string(), 9000),
            (5, "TorchServe".to_string(), 100),
        ]
    );
}

#[test]
fn no_process_means_no_model_runtime() {
    assert!(model_processes(&Vec::new()).is_empty());
    assert!(model_processes(&vec![process(1, "init", 0)]).is_empty());
}
