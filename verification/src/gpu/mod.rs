//! Detection, sampling and history of GPU devices.

pub mod clock;
pub mod decimal;
pub mod detect;
pub mod device;
pub mod error;
pub mod history;
pub mod metrics;
pub mod nvml;
pub mod polling;
pub mod portable;
pub mod reader;
pub mod simulate;
pub mod store;

pub use detect::{detect_gpus, detect_gpus_with, BackendConfig};
pub use device::GpuInfo;
pub use error::BackendError;
pub use history::GpuMetricsHistory;
pub use metrics::GpuMetrics;
pub use polling::{PollAction, PollConfig, PollEvent, Poller};
pub use reader::{get_current_metrics, get_current_metrics_with};
pub use store::HistoryStore;
