//! The portable backend: whatever adapters the graphics API enumerates.
//!
//! This backend knows an adapter's name, vendor code, kind and driver, and
//! nothing of its memory.

use vstd::prelude::*;
use vstd::string::*;
use wgpu::Adapter;
use wgpu::Instance;
use crate::gpu::device::GpuInfo;
use crate::gpu::device::GpuInfoView;
use crate::gpu::device::device_views;
use crate::gpu::device::ids_below;
use crate::gpu::device::ids_increasing;
use crate::gpu::device::lemma_device_views_push;

verus! {

/// `wgpu::Instance`: the entry point of the graphics API, carried as it is.
#[verifier::external_type_specification]
#[verifier::external_body]
pub struct ExInstance(wgpu::Instance);

/// `wgpu::Adapter`: the handle of one adapter, carried as it is.
#[verifier::external_type_specification]
#[verifier::external_body]
pub struct ExAdapter(wgpu::Adapter);

/// What kind of device an adapter is.
#[derive(Clone, Copy, Debug, PartialEq, Eq, Structural)]
pub enum AdapterKind {
    /// Other or unknown.
    Other,
    /// A GPU that shares its memory with the CPU.
    IntegratedGpu,
    /// A GPU with memory of its own.
    DiscreteGpu,
    /// A virtual or hosted GPU.
    VirtualGpu,
    /// The CPU, rendering in software.
    Cpu,
}

/// What the graphics API tells of one adapter.
#[derive(Clone, Debug, PartialEq, Eq)]
pub struct AdapterSummary {
    pub name: String,
    /// The hardware vendor's identifier code.
    pub vendor: u32,
    pub device_type: AdapterKind,
    pub driver: String,
}

/// An adapter as plain mathematics.
pub struct AdapterView {
    pub name: Seq<char>,
    pub vendor: u32,
    pub device_type: AdapterKind,
    pub driver: Seq<char>,
}

impl View for AdapterSummary {
    type V = AdapterView;

    open spec fn view(&self) -> AdapterView {
        AdapterView {
            name: self.name@,
            vendor: self.vendor,
            device_type: self.device_type,
            driver: self.driver@,
        }
    }
}

/// The adapters in `adapters`, in order.
pub open spec fn adapter_views(adapters: Seq<AdapterSummary>) -> Seq<AdapterView> {
    adapters.map_values(|a: AdapterSummary| a@)
}

/// `Instance::new` with every backend enabled: the entry point of the
/// graphics API. It panics only where no backend is compiled in for the
/// target, which the default features rule out on native targets. Nothing is
/// claimed of the instance.
#[verifier::external_body]
fn wgpu_instance() -> (instance: Instance) {
    Instance::new(wgpu::InstanceDescriptor { backends: wgpu::Backends::all(), ..Default::default() })
}

/// `Instance::enumerate_adapters` over every backend: the adapters present.
/// Nothing is claimed of them.
#[verifier::external_body]
fn wgpu_adapters(instance: &Instance) -> (adapters: Vec<Adapter>) {
    instance.enumerate_adapters(wgpu::Backends::all())
}

/// `Adapter::get_info`: the adapter's name, vendor code, kind and driver,
/// carried over field by field. Nothing is claimed of them.
#[verifier::external_body]
fn adapter_summary(adapter: &Adapter) -> (summary: AdapterSummary) {
    let info = adapter.get_info();
    AdapterSummary {
        name: info.name,
        vendor: info.vendor,
        device_type: match info.device_type {
            wgpu::DeviceType::Other => AdapterKind::Other,
            wgpu::DeviceType::IntegratedGpu => AdapterKind::IntegratedGpu,
            wgpu::DeviceType::DiscreteGpu => AdapterKind::DiscreteGpu,
            wgpu::DeviceType::VirtualGpu => AdapterKind::VirtualGpu,
            wgpu::DeviceType::Cpu => AdapterKind::Cpu,
        },
        driver: info.driver,
    }
}

/// The vendor whose identifier code is `code`, "Unknown" for any other code.
pub open spec fn vendor_label(code: u32) -> Seq<char> {
    if code == 0x10DE {
        "NVIDIA"@
    } else if code == 0x1002 {
        "AMD"@
    } else if code == 0x8086 {
        "Intel"@
    } else if code == 0x106B {
        "Apple"@
    } else {
        "Unknown"@
    }
}

/// The vendor whose identifier code is `code`.
pub fn vendor_name(code: u32) -> (name: String)
    ensures
        name@ == vendor_label(code),
{
    if code == 0x10DE {
        "NVIDIA".to_string()
    } else if code == 0x1002 {
        "AMD".to_string()
    } else if code == 0x8086 {
        "Intel".to_string()
    } else if code == 0x106B {
        "Apple".to_string()
    } else {
        "Unknown".to_string()
    }
}

/// The adapter is a hardware accelerator that a device id can name: it does
/// not render in software, and its place in the enumeration fits an id.
pub open spec fn is_listed(index: int, adapter: AdapterView) -> bool {
    adapter.device_type != AdapterKind::Cpu && index <= u32::MAX
}

/// The description of the adapter at place `index` of the enumeration. Its
/// memory is zero, which stands for unknown.
pub open spec fn portable_info(index: int, adapter: AdapterView) -> GpuInfoView {
    GpuInfoView {
        id: index as u32,
        name: adapter.name,
        vendor: vendor_label(adapter.vendor),
        driver_version: adapter.driver,
        memory_total_mb: 0,
        cuda_cores: None,
        compute_capability: None,
    }
}

/// The devices among `adapters`: every listed adapter in the order of the
/// enumeration, with its place in the enumeration as its id.
pub open spec fn portable_devices(adapters: Seq<AdapterView>) -> Seq<GpuInfoView>
    decreases adapters.len(),
{
    if adapters.len() == 0 {
        Seq::empty()
    } else {
        let before = portable_devices(adapters.drop_last());
        let index = adapters.len() - 1;
        if is_listed(index, adapters.last()) {
            before.push(portable_info(index, adapters.last()))
        } else {
            before
        }
    }
}

/// Every device found is one of the listed adapters, under its place as id,
/// and the ids grow along the list.
pub proof fn lemma_portable_devices_sound(adapters: Seq<AdapterView>)
    ensures
        ids_below(portable_devices(adapters), adapters.len() as int),
        ids_increasing(portable_devices(adapters)),
        forall|k: int|
            0 <= k < portable_devices(adapters).len() ==> {
                let device = #[trigger] portable_devices(adapters)[k];
                &&& is_listed(device.id as int, adapters[device.id as int])
                &&& device == portable_info(device.id as int, adapters[device.id as int])
            },
    decreases adapters.len(),
{
    if adapters.len() > 0 {
        let shorter = adapters.drop_last();
        lemma_portable_devices_sound(shorter);
        let before = portable_devices(shorter);
        assert forall|k: int| 0 <= k < before.len() implies shorter[(#[trigger] before[k]).id as int]
            == adapters[before[k].id as int] by {}
    }
}

/// Every listed adapter is among the devices found.
pub proof fn lemma_portable_devices_complete(adapters: Seq<AdapterView>, index: int)
    requires
        0 <= index < adapters.len(),
        is_listed(index, adapters[index]),
    ensures
        portable_devices(adapters).contains(portable_info(index, adapters[index])),
    decreases adapters.len(),
{
    let shorter = adapters.drop_last();
    let before = portable_devices(shorter);
    if index == adapters.len() - 1 {
        let found = before.push(portable_info(index, adapters[index]));
        assert(found[before.len() as int] == portable_info(index, adapters[index]));
    } else {
        lemma_portable_devices_complete(shorter, index);
        let k = choose|k: int| 0 <= k < before.len() && before[k] == portable_info(index, shorter[index]);
        assert(portable_devices(adapters)[k] == portable_info(index, adapters[index]));
    }
}

/// Where every adapter renders in software, no device is found.
pub proof fn lemma_software_adapters_yield_nothing(adapters: Seq<AdapterView>)
    requires
        forall|i: int| 0 <= i < adapters.len() ==> (#[trigger] adapters[i]).device_type == AdapterKind::Cpu,
    ensures
        portable_devices(adapters) == Seq::<GpuInfoView>::empty(),
    decreases adapters.len(),
{
    if adapters.len() > 0 {
        lemma_software_adapters_yield_nothing(adapters.drop_last());
    }
}

/// The devices among `adapters`.
pub fn gpus_from_adapters(adapters: &Vec<AdapterSummary>) -> (gpus: Vec<GpuInfo>)
    ensures
        device_views(gpus@) == portable_devices(adapter_views(adapters@)),
        ids_increasing(device_views(gpus@)),
{
    let ghost all = adapter_views(adapters@);
    let mut gpus: Vec<GpuInfo> = Vec::new();
    let mut i: usize = 0;
    assert(all.take(0) =~= Seq::<AdapterView>::empty());
    while i < adapters.len()
        invariant
            i <= adapters.len(),
            all == adapter_views(adapters@),
            device_views(gpus@) == portable_devices(all.take(i as int)),
        decreases adapters.len() - i,
    {
        let adapter = &adapters[i];
        assert(all.take(i + 1).drop_last() =~= all.take(i as int));
        assert(all.take(i + 1).last() == adapter@);
        if adapter.device_type != AdapterKind::Cpu && i <= u32::MAX as usize {
            let info = GpuInfo {
                id: i as u32,
                name: adapter.name.clone(),
                vendor: vendor_name(adapter.vendor),
                driver_version: adapter.driver.clone(),
                memory_total_mb: 0,
                cuda_cores: None,
                compute_capability: None,
            };
            proof {
                lemma_device_views_push(gpus@, info);
            }
            gpus.push(info);
        }
        i = i + 1;
    }
    proof {
        assert(all.take(adapters.len() as int) =~= all);
        lemma_portable_devices_sound(all);
    }
    gpus
}

/// `devices` is what the portable backend finds among some adapters.
pub open spec fn is_portable_detection(devices: Seq<GpuInfoView>) -> bool {
    exists|adapters: Seq<AdapterView>| devices == #[trigger] portable_devices(adapters)
}

/// What the graphics API tells of each adapter present, in the order of its
/// enumeration. Which adapters there are is up to the host.
pub fn enumerate_adapters() -> (summaries: Vec<AdapterSummary>) {
    let instance = wgpu_instance();
    let adapters = wgpu_adapters(&instance);
    let mut summaries: Vec<AdapterSummary> = Vec::new();
    let mut i: usize = 0;
    while i < adapters.len()
        invariant
            i <= adapters.len(),
        decreases adapters.len() - i,
    {
        summaries.push(adapter_summary(&adapters[i]));
        i = i + 1;
    }
    summaries
}

/// Enumerates the adapters of the graphics API and keeps the hardware
/// accelerators among them. Which adapters there are is up to the host;
/// whatever they are, the devices that come back are the listed ones among
/// them, without a software renderer and without an id occurring twice.
pub fn detect_wgpu_gpus() -> (gpus: Vec<GpuInfo>)
    ensures
        is_portable_detection(device_views(gpus@)),
        ids_increasing(device_views(gpus@)),
{
    let summaries = enumerate_adapters();
    gpus_from_adapters(&summaries)
}

} // verus!
