//! Reading one device: the vendor backend first, the synthetic generator
//! where there is no vendor backend to ask, and a degraded reading where the
//! backend is there but the device gives none. A read never fails.

use vstd::prelude::*;
use crate::gpu::detect::BackendConfig;
use crate::gpu::device::GpuInfo;
use crate::gpu::error::BackendError;
use crate::gpu::metrics::GpuMetrics;
use crate::gpu::nvml::VendorAnswer;
use crate::gpu::nvml::get_nvidia_metrics;
use crate::gpu::nvml::is_vendor_outcome;
use crate::gpu::nvml::is_vendor_reading;
use crate::gpu::nvml::metrics_of_answer;
use crate::gpu::simulate::Jitter;
use crate::gpu::simulate::get_simulated_metrics;
use crate::gpu::simulate::is_simulated;
use crate::gpu::simulate::lemma_simulated_plausible;
use crate::gpu::simulate::plausible;
use crate::gpu::simulate::simulated;

verus! {

/// The vendor backend takes part and has read the device.
pub open spec fn vendor_has_read(config: BackendConfig, vendor: Result<GpuMetrics, BackendError>) -> bool {
    config.vendor && vendor is Ok
}

/// The reading to show for a device whose read through the vendor backend
/// came out as `vendor`, where `fallback` is the synthetic reading of the
/// moment.
///
/// A reading that the vendor backend obtained is shown as it is. Without a
/// vendor backend, because it takes no part or cannot be initialised, the
/// synthetic reading is shown. Where the backend is there but the device
/// has vanished or withholds its utilisation, the reading is degraded: it
/// carries the moment of the fallback and no figure of it.
pub open spec fn chosen_reading(
    config: BackendConfig,
    vendor: Result<GpuMetrics, BackendError>,
    fallback: GpuMetrics,
) -> GpuMetrics {
    if !config.vendor {
        fallback
    } else {
        match vendor {
            Ok(metrics) => metrics,
            Err(BackendError::Unavailable) => fallback,
            Err(_) => GpuMetrics::degraded(fallback.timestamp),
        }
    }
}

/// The reading to show for a device whose read through the vendor backend
/// came out as `vendor`, where `fallback` is the synthetic reading of the
/// moment.
pub fn reading_from(
    config: BackendConfig,
    vendor: Result<GpuMetrics, BackendError>,
    fallback: GpuMetrics,
) -> (m: GpuMetrics)
    ensures
        m == chosen_reading(config, vendor, fallback),
{
    if !config.vendor {
        return fallback;
    }
    match vendor {
        Ok(metrics) => metrics,
        Err(BackendError::Unavailable) => fallback,
        Err(_) => GpuMetrics { timestamp: fallback.timestamp, ..GpuMetrics::default() },
    }
}

/// A reading that the vendor backend obtained is shown as it is: no field
/// that the device withheld is filled in, and nothing synthetic is mixed in.
/// A device that has vanished, or withholds its utilisation, is shown
/// without any figure, and never with synthetic ones.
pub proof fn lemma_vendor_outcome_decides(
    config: BackendConfig,
    vendor: Result<GpuMetrics, BackendError>,
    fallback: GpuMetrics,
)
    requires
        config.vendor,
    ensures
        vendor matches Ok(metrics) ==> chosen_reading(config, vendor, fallback) == metrics,
        vendor == Err::<GpuMetrics, BackendError>(BackendError::Unavailable) ==> chosen_reading(
            config,
            vendor,
            fallback,
        ) == fallback,
        vendor is Err && vendor != Err::<GpuMetrics, BackendError>(BackendError::Unavailable)
            ==> chosen_reading(config, vendor, fallback) == GpuMetrics::degraded(
            fallback.timestamp,
        ) && !chosen_reading(config, vendor, fallback).fully_populated(),
{
}

/// Without the vendor backend every reading is the synthetic one of its
/// moment, with every field present, so that of two readings the one taken
/// at the later moment carries the later timestamp.
pub proof fn lemma_later_reading_later_stamp(
    config: BackendConfig,
    first_vendor: Result<GpuMetrics, BackendError>,
    second_vendor: Result<GpuMetrics, BackendError>,
    earlier: u64,
    later: u64,
    first_jitter: Jitter,
    second_jitter: Jitter,
)
    requires
        !config.vendor,
        earlier < later,
    ensures
        ({
            let first = chosen_reading(config, first_vendor, simulated(earlier, first_jitter));
            let second = chosen_reading(config, second_vendor, simulated(later, second_jitter));
            &&& first.timestamp == earlier
            &&& second.timestamp == later
            &&& first.timestamp < second.timestamp
            &&& first.fully_populated()
            &&& second.fully_populated()
        }),
{
    lemma_simulated_plausible(earlier, first_jitter);
    lemma_simulated_plausible(later, second_jitter);
}

/// `m` is a reading of a device under `config`: what `chosen_reading` makes
/// of some outcome of the vendor backend and some synthetic reading.
pub open spec fn is_reading(config: BackendConfig, m: GpuMetrics) -> bool {
    exists|vendor: Result<GpuMetrics, BackendError>, fallback: GpuMetrics|
        m == #[trigger] chosen_reading(config, vendor, fallback) && (config.vendor
            ==> is_vendor_outcome(vendor)) && (!vendor_has_read(config, vendor) ==> is_simulated(
            fallback,
        ) && plausible(fallback))
}

/// A reading is one of three: the vendor's own, a synthetic one with every
/// field present, or a degraded one with no figure at all. Without the
/// vendor backend it is synthetic.
pub proof fn lemma_reading_kinds(config: BackendConfig, m: GpuMetrics)
    requires
        is_reading(config, m),
    ensures
        ({
            ||| config.vendor && is_vendor_reading(m)
            ||| is_simulated(m) && plausible(m)
            ||| config.vendor && m == GpuMetrics::degraded(m.timestamp)
        }),
        !config.vendor ==> is_simulated(m) && plausible(m),
{
    let (vendor, fallback) = choose|vendor: Result<GpuMetrics, BackendError>, fallback: GpuMetrics|
        m == #[trigger] chosen_reading(config, vendor, fallback) && (config.vendor
            ==> is_vendor_outcome(vendor)) && (!vendor_has_read(config, vendor) ==> is_simulated(
            fallback,
        ) && plausible(fallback));
    if config.vendor && vendor is Ok {
        let (answer, timestamp) = choose|answer: VendorAnswer, timestamp: u64|
            vendor == #[trigger] metrics_of_answer(answer, timestamp);
        assert(m.timestamp == timestamp);
    }
}

/// Reads device `gpu_id` with the backends that `config` lets take part.
///
/// The vendor backend is asked first where it takes part, and what it
/// obtained is the reading. The synthetic generator is asked only where the
/// vendor backend has not read the device. What the backend answers is up
/// to the hardware; the reading is made of its outcome as `chosen_reading`
/// says.
pub fn get_current_metrics_with(config: BackendConfig, gpu_id: u32) -> (m: GpuMetrics)
    ensures
        is_reading(config, m),
        !config.vendor ==> is_simulated(m) && plausible(m),
{
    let vendor = if config.vendor {
        get_nvidia_metrics(gpu_id)
    } else {
        Err(BackendError::Unavailable)
    };
    let has_read = config.vendor && vendor.is_ok();
    let fallback = if has_read {
        GpuMetrics::default()
    } else {
        get_simulated_metrics(gpu_id)
    };
    let m = reading_from(config, vendor, fallback);
    assert(m == chosen_reading(config, vendor, fallback));
    m
}

/// Reads device `gpu_id`, with every backend taking part.
pub fn get_current_metrics(gpu_id: u32) -> (m: GpuMetrics)
    ensures
        is_reading(BackendConfig::all(), m),
{
    get_current_metrics_with(BackendConfig { vendor: true, portable: true }, gpu_id)
}

/// Reads every device of `devices` in turn: one reading for each, under its
/// id and in the order of the list.
pub fn get_all_current_metrics(config: BackendConfig, devices: &Vec<GpuInfo>) -> (readings: Vec<
    (u32, GpuMetrics),
>)
    ensures
        readings@.len() == devices@.len(),
        forall|i: int|
            0 <= i < devices@.len() ==> (#[trigger] readings@[i]).0 == devices@[i].id && is_reading(
                config,
                readings@[i].1,
            ),
{
    let mut readings: Vec<(u32, GpuMetrics)> = Vec::new();
    let mut i: usize = 0;
    while i < devices.len()
        invariant
            i <= devices.len(),
            readings@.len() == i,
            forall|k: int|
                0 <= k < i ==> (#[trigger] readings@[k]).0 == devices@[k].id && is_reading(
                    config,
                    readings@[k].1,
                ),
        decreases devices.len() - i,
    {
        let gpu_id = devices[i].id;
        let metrics = get_current_metrics_with(config, gpu_id);
        readings.push((gpu_id, metrics));
        i = i + 1;
    }
    readings
}

} // verus!
