//! Device detection: a chain of backends in priority order, of which the
//! first that finds any device answers alone.

use vstd::prelude::*;
use crate::gpu::device::GpuInfo;
use crate::gpu::device::GpuInfoView;
use crate::gpu::device::device_views;
use crate::gpu::device::ids_increasing;
use crate::gpu::error::BackendError;
use crate::gpu::nvml::is_vendor_detection;
use crate::gpu::nvml::detect_nvidia_gpus;
use crate::gpu::portable::AdapterKind;
use crate::gpu::portable::AdapterSummary;
use crate::gpu::portable::AdapterView;
use crate::gpu::portable::adapter_views;
use crate::gpu::portable::enumerate_adapters;
use crate::gpu::portable::gpus_from_adapters;
use crate::gpu::portable::lemma_portable_devices_sound;
use crate::gpu::portable::lemma_software_adapters_yield_nothing;
use crate::gpu::portable::portable_devices;

verus! {

/// Which hardware backends take part. The vendor backend always comes
/// before the portable one.
#[derive(Clone, Copy, Debug, PartialEq, Eq, Structural)]
pub struct BackendConfig {
    /// The vendor's management library.
    pub vendor: bool,
    /// The portable enumeration of graphics adapters.
    pub portable: bool,
}

impl BackendConfig {
    /// Both backends take part.
    pub open spec fn all() -> BackendConfig {
        BackendConfig { vendor: true, portable: true }
    }
}

impl Default for BackendConfig {
    fn default() -> (config: BackendConfig)
        ensures
            config == BackendConfig::all(),
    {
        BackendConfig { vendor: true, portable: true }
    }
}

/// What the vendor backend found, where it answered at all.
pub open spec fn vendor_answer(vendor: Result<Vec<GpuInfo>, BackendError>) -> Option<
    Seq<GpuInfoView>,
> {
    match vendor {
        Ok(found) => Some(device_views(found@)),
        Err(_) => None,
    }
}

/// The vendor backend takes part, has answered and has found a device.
pub open spec fn vendor_suffices(config: BackendConfig, vendor: Option<Seq<GpuInfoView>>) -> bool {
    config.vendor && vendor is Some && vendor->0.len() > 0
}

/// The outcome of one detection pass in which the vendor backend answered
/// `vendor` (`None` where it failed) and the graphics API enumerated
/// `adapters`: the vendor's devices where it suffices, else the portable
/// backend's, each only where the backend takes part. The answers of two
/// backends are never merged.
pub open spec fn detection(
    config: BackendConfig,
    vendor: Option<Seq<GpuInfoView>>,
    adapters: Seq<AdapterView>,
) -> Seq<GpuInfoView> {
    if vendor_suffices(config, vendor) {
        vendor->0
    } else if config.portable {
        portable_devices(adapters)
    } else {
        Seq::empty()
    }
}

/// Two passes in which the vendor backend answers alike and the adapters
/// agree in number, kind and name find the same number of devices, with the
/// same ids and names.
pub proof fn lemma_detection_repeatable(
    config: BackendConfig,
    vendor: Option<Seq<GpuInfoView>>,
    first: Seq<AdapterView>,
    second: Seq<AdapterView>,
)
    requires
        first.len() == second.len(),
        forall|i: int|
            0 <= i < first.len() ==> (#[trigger] first[i]).device_type == second[i].device_type
                && first[i].name == second[i].name,
    ensures
        detection(config, vendor, first).len() == detection(config, vendor, second).len(),
        forall|k: int|
            0 <= k < detection(config, vendor, first).len() ==> {
                &&& (#[trigger] detection(config, vendor, first)[k]).id == detection(
                    config,
                    vendor,
                    second,
                )[k].id
                &&& detection(config, vendor, first)[k].name == detection(config, vendor, second)[k].name
            },
{
    lemma_portable_devices_alike(first, second);
}

/// Adapters that agree in number, kind and name yield the same number of
/// devices, with the same ids and names.
pub proof fn lemma_portable_devices_alike(first: Seq<AdapterView>, second: Seq<AdapterView>)
    requires
        first.len() == second.len(),
        forall|i: int|
            0 <= i < first.len() ==> (#[trigger] first[i]).device_type == second[i].device_type
                && first[i].name == second[i].name,
    ensures
        portable_devices(first).len() == portable_devices(second).len(),
        forall|k: int|
            0 <= k < portable_devices(first).len() ==> {
                &&& (#[trigger] portable_devices(first)[k]).id == portable_devices(second)[k].id
                &&& portable_devices(first)[k].name == portable_devices(second)[k].name
            },
    decreases first.len(),
{
    if first.len() > 0 {
        lemma_portable_devices_alike(first.drop_last(), second.drop_last());
        assert(first.last().device_type == second.last().device_type);
        assert(first.last().name == second.last().name);
    }
}

/// A host whose only adapters render in software, and whose vendor backend
/// does not answer, has no device.
pub proof fn lemma_software_only_host_has_no_device(
    config: BackendConfig,
    adapters: Seq<AdapterView>,
)
    requires
        forall|i: int| 0 <= i < adapters.len() ==> (#[trigger] adapters[i]).device_type == AdapterKind::Cpu,
    ensures
        detection(config, None, adapters) == Seq::<GpuInfoView>::empty(),
{
    lemma_software_adapters_yield_nothing(adapters);
}

/// The outcome of a detection pass, given what the backends answered.
pub fn detect_from(
    config: BackendConfig,
    vendor: Result<Vec<GpuInfo>, BackendError>,
    adapters: &Vec<AdapterSummary>,
) -> (gpus: Vec<GpuInfo>)
    ensures
        device_views(gpus@) == detection(config, vendor_answer(vendor), adapter_views(adapters@)),
{
    if config.vendor {
        match vendor {
            Ok(found) => {
                if found.len() > 0 {
                    return found;
                }
            },
            Err(_) => {},
        }
    }
    if config.portable {
        gpus_from_adapters(adapters)
    } else {
        let gpus: Vec<GpuInfo> = Vec::new();
        assert(device_views(gpus@) =~= Seq::<GpuInfoView>::empty());
        gpus
    }
}

/// `devices` is the outcome of a detection pass under `config`, for some
/// answers of the backends.
pub open spec fn is_detection(config: BackendConfig, devices: Seq<GpuInfoView>) -> bool {
    exists|vendor: Option<Seq<GpuInfoView>>, adapters: Seq<AdapterView>|
        devices == #[trigger] detection(config, vendor, adapters) && (vendor is Some
            ==> is_vendor_detection(vendor->0))
}

/// Detects the devices present with the backends that `config` lets take
/// part.
///
/// The vendor backend is asked first. The adapters of the graphics API are
/// enumerated only where it does not suffice. A backend that fails is passed
/// over in silence, so detection itself never fails: with no backend left it
/// finds nothing. No id occurs twice among the devices found.
pub fn detect_gpus_with(config: BackendConfig) -> (gpus: Vec<GpuInfo>)
    ensures
        is_detection(config, device_views(gpus@)),
        ids_increasing(device_views(gpus@)),
        !config.vendor && !config.portable ==> gpus@.len() == 0,
{
    let vendor = if config.vendor {
        detect_nvidia_gpus()
    } else {
        Err(BackendError::Unavailable)
    };
    let suffices = config.vendor && match &vendor {
        Ok(found) => found.len() > 0,
        Err(_) => false,
    };
    let adapters = if config.portable && !suffices {
        enumerate_adapters()
    } else {
        Vec::new()
    };
    let ghost answer = vendor_answer(vendor);
    let gpus = detect_from(config, vendor, &adapters);
    proof {
        lemma_portable_devices_sound(adapter_views(adapters@));
        assert(device_views(gpus@) == detection(config, answer, adapter_views(adapters@)));
    }
    gpus
}

/// Detects the devices present, with every backend taking part.
pub fn detect_gpus() -> (gpus: Vec<GpuInfo>)
    ensures
        is_detection(BackendConfig::all(), device_views(gpus@)),
        ids_increasing(device_views(gpus@)),
{
    detect_gpus_with(BackendConfig { vendor: true, portable: true })
}

} // verus!
