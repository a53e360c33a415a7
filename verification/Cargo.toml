[package]
name = "gpu_telemetry"
version = "0.1.0"
edition = "2021"
publish = false

[dependencies]
nvml-wrapper = "0.10"
wgpu = "23"
sysinfo = "0.32"
serde = { version = "1", features = ["derive"] }
serde_json = "1"
once_cell = "1"
tracing = "0.1"
tracing-subscriber = "0.3"
