//! One point-in-time reading of a device.

use vstd::prelude::*;

verus! {

/// A single point-in-time reading of one device.
///
/// Fractional quantities (utilisations, temperature, power, PCIe throughput)
/// are counted in millionths of their unit, see [`crate::units::MICRO`]. An optional field
/// is `None` when the backend could not supply it; `Some(0)` is a genuine
/// reading of zero.
#[derive(Clone, Copy, Debug, PartialEq, Eq)]
pub struct GpuMetrics {
    /// Compute utilisation, in millionths of a percent.
    pub gpu_utilization: u64,
    /// Device memory in use, in MB.
    pub memory_used_mb: Option<u64>,
    /// Device memory installed, in MB.
    pub memory_total_mb: Option<u64>,
    /// Share of device memory in use, in millionths of a percent.
    pub memory_utilization: Option<u64>,
    /// Core temperature, in millionths of a degree Celsius.
    pub temperature_celsius: Option<u64>,
    /// Power draw, in millionths of a watt.
    pub power_usage_watts: Option<u64>,
    /// Power limit, in millionths of a watt.
    pub power_limit_watts: Option<u64>,
    /// Fan speed, in percent.
    pub fan_speed_percent: Option<u32>,
    /// Core clock, in MHz.
    pub clock_speed_mhz: Option<u32>,
    /// Memory clock, in MHz.
    pub memory_clock_mhz: Option<u32>,
    /// PCIe transmit throughput, in millionths of the throughput unit.
    pub pcie_throughput_tx_mbps: Option<u64>,
    /// PCIe receive throughput, in millionths of the throughput unit, so
    /// that a device's reading in KB/s is held as it is.
    pub pcie_throughput_rx_mbps: Option<u64>,
    /// Video encoder utilisation, in millionths of a percent.
    pub encoder_utilization: Option<u64>,
    /// Video decoder utilisation, in millionths of a percent.
    pub decoder_utilization: Option<u64>,
    /// Milliseconds since the Unix epoch at which the reading was taken.
    pub timestamp: u64,
}

impl GpuMetrics {
    /// Every optional field holds a reading.
    pub open spec fn fully_populated(self) -> bool {
        &&& self.memory_used_mb is Some
        &&& self.memory_total_mb is Some
        &&& self.memory_utilization is Some
        &&& self.temperature_celsius is Some
        &&& self.power_usage_watts is Some
        &&& self.power_limit_watts is Some
        &&& self.fan_speed_percent is Some
        &&& self.clock_speed_mhz is Some
        &&& self.memory_clock_mhz is Some
        &&& self.pcie_throughput_tx_mbps is Some
        &&& self.pcie_throughput_rx_mbps is Some
        &&& self.encoder_utilization is Some
        &&& self.decoder_utilization is Some
    }

    /// The reading of no utilisation at moment zero, with every optional
    /// field absent.
    pub open spec fn zero() -> GpuMetrics {
        GpuMetrics {
            gpu_utilization: 0,
            memory_used_mb: None,
            memory_total_mb: None,
            memory_utilization: None,
            temperature_celsius: None,
            power_usage_watts: None,
            power_limit_watts: None,
            fan_speed_percent: None,
            clock_speed_mhz: None,
            memory_clock_mhz: None,
            pcie_throughput_tx_mbps: None,
            pcie_throughput_rx_mbps: None,
            encoder_utilization: None,
            decoder_utilization: None,
            timestamp: 0,
        }
    }

    /// The degraded reading of a device that gave no reading at the moment
    /// `timestamp`: no utilisation, and every optional field absent.
    pub open spec fn degraded(timestamp: u64) -> GpuMetrics {
        GpuMetrics { timestamp, ..GpuMetrics::zero() }
    }
}

impl Default for GpuMetrics {
    fn default() -> (m: GpuMetrics)
        ensures
            m == GpuMetrics::zero(),
    {
        GpuMetrics {
            gpu_utilization: 0,
            memory_used_mb: None,
            memory_total_mb: None,
            memory_utilization: None,
            temperature_celsius: None,
            power_usage_watts: None,
            power_limit_watts: None,
            fan_speed_percent: None,
            clock_speed_mhz: None,
            memory_clock_mhz: None,
            pcie_throughput_tx_mbps: None,
            pcie_throughput_rx_mbps: None,
            encoder_utilization: None,
            decoder_utilization: None,
            timestamp: 0,
        }
    }
}

} // verus!
