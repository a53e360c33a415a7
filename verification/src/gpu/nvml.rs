//! The vendor backend: NVIDIA devices through the NVML management library.
//!
//! Every call into the library stands in a small trusted wrapper of which
//! nothing is claimed, since its answer depends on the hardware. What is
//! made of the answers is verified for every answer.

use vstd::prelude::*;
use vstd::string::*;
use nvml_wrapper::Nvml;
use nvml_wrapper::Device;
use nvml_wrapper::error::NvmlError;
use nvml_wrapper::enum_wrappers::device::Clock;
use nvml_wrapper::enum_wrappers::device::PcieUtilCounter;
use nvml_wrapper::enum_wrappers::device::TemperatureSensor;
use crate::gpu::clock::read_clock;
use crate::gpu::decimal::decimal;
use crate::gpu::decimal::i32_to_decimal;
use crate::gpu::device::GpuInfo;
use crate::gpu::device::GpuInfoView;
use crate::gpu::device::device_views;
use crate::gpu::device::ids_below;
use crate::gpu::device::ids_increasing;
use crate::gpu::device::lemma_device_views_push;
use crate::gpu::device::opt_string_view;
use crate::gpu::error::BackendError;
use crate::gpu::metrics::GpuMetrics;
use crate::units::BYTES_PER_MB;
use crate::units::MICRO;
use crate::units::lemma_share_of_part;
use crate::units::share_micro_percent;
use crate::units::share_of;

verus! {

/// `nvml_wrapper::Nvml`: the initialised management library, carried as it
/// is.
#[verifier::external_type_specification]
#[verifier::external_body]
pub struct ExNvml(nvml_wrapper::Nvml);

/// `nvml_wrapper::Device`: the handle of one device, carried as it is.
#[verifier::external_type_specification]
#[verifier::external_body]
pub struct ExDevice<'nvml>(nvml_wrapper::Device<'nvml>);

/// `nvml_wrapper::error::NvmlError`: why a call into the management library
/// failed, carried as it is.
#[verifier::external_type_specification]
#[verifier::external_body]
pub struct ExNvmlError(nvml_wrapper::error::NvmlError);

/// The clock domains of a device that the telemetry reads.
#[derive(Clone, Copy, Debug, PartialEq, Eq, Structural)]
pub enum ClockDomain {
    Graphics,
    Memory,
}

/// `Nvml::init`: loads the management library and initialises it. Nothing is
/// claimed of the outcome.
#[verifier::external_body]
fn nvml_init() -> (r: Result<Nvml, NvmlError>) {
    Nvml::init()
}

/// `Nvml::device_count`: the number of devices the driver exposes. Nothing is
/// claimed of the outcome.
#[verifier::external_body]
fn nvml_device_count(nvml: &Nvml) -> (r: Result<u32, NvmlError>) {
    nvml.device_count()
}

/// `Nvml::device_by_index`: the handle of the device at `index`. Nothing is
/// claimed of the outcome.
#[verifier::external_body]
fn nvml_device_by_index<'nvml>(nvml: &'nvml Nvml, index: u32) -> (r: Result<
    Device<'nvml>,
    NvmlError,
>) {
    nvml.device_by_index(index)
}

/// `Nvml::sys_driver_version`: the version text of the graphics driver.
/// Nothing is claimed of the outcome.
#[verifier::external_body]
fn nvml_driver_version(nvml: &Nvml) -> (r: Result<String, NvmlError>) {
    nvml.sys_driver_version()
}

/// `Device::name`: the product name of the device. Nothing is claimed of the
/// outcome.
#[verifier::external_body]
fn device_name(device: &Device) -> (r: Result<String, NvmlError>) {
    device.name()
}

/// `Device::memory_info`: the bytes of device memory in use and installed,
/// in that order. Nothing is claimed of the outcome.
#[verifier::external_body]
fn device_memory(device: &Device) -> (r: Result<(u64, u64), NvmlError>) {
    device.memory_info().map(|info| (info.used, info.total))
}

/// `Device::num_cores`: the number of compute cores. Nothing is claimed of
/// the outcome.
#[verifier::external_body]
fn device_num_cores(device: &Device) -> (r: Result<u32, NvmlError>) {
    device.num_cores()
}

/// `Device::cuda_compute_capability`: the major and minor number of the
/// compute capability, in that order. Nothing is claimed of the outcome.
#[verifier::external_body]
fn device_compute_capability(device: &Device) -> (r: Result<(i32, i32), NvmlError>) {
    device.cuda_compute_capability().map(|c| (c.major, c.minor))
}

/// `Device::utilization_rates`: the percentage of time the compute units
/// were busy over the last sampling period. Nothing is claimed of the
/// outcome.
#[verifier::external_body]
fn device_gpu_utilization(device: &Device) -> (r: Result<u32, NvmlError>) {
    device.utilization_rates().map(|rates| rates.gpu)
}

/// `Device::temperature` for the sensor of the GPU die, in degrees Celsius.
/// Nothing is claimed of the outcome.
#[verifier::external_body]
fn device_temperature(device: &Device) -> (r: Result<u32, NvmlError>) {
    device.temperature(TemperatureSensor::Gpu)
}

/// `Device::power_usage`: the power draw in milliwatts. Nothing is claimed
/// of the outcome.
#[verifier::external_body]
fn device_power_usage(device: &Device) -> (r: Result<u32, NvmlError>) {
    device.power_usage()
}

/// `Device::power_management_limit`: the power limit in milliwatts. Nothing
/// is claimed of the outcome.
#[verifier::external_body]
fn device_power_limit(device: &Device) -> (r: Result<u32, NvmlError>) {
    device.power_management_limit()
}

/// `Device::fan_speed` of the first fan, in percent of its maximum. Nothing
/// is claimed of the outcome.
#[verifier::external_body]
fn device_fan_speed(device: &Device) -> (r: Result<u32, NvmlError>) {
    device.fan_speed(0)
}

/// `Device::clock_info`: the current clock of `domain` in MHz. Nothing is
/// claimed of the outcome.
#[verifier::external_body]
fn device_clock(device: &Device, domain: ClockDomain) -> (r: Result<u32, NvmlError>) {
    device.clock_info(
        match domain {
            ClockDomain::Graphics => Clock::Graphics,
            ClockDomain::Memory => Clock::Memory,
        },
    )
}

/// `Device::encoder_utilization`: the utilisation of the video encoder in
/// percent. Nothing is claimed of the outcome.
#[verifier::external_body]
fn device_encoder_utilization(device: &Device) -> (r: Result<u32, NvmlError>) {
    device.encoder_utilization().map(|info| info.utilization)
}

/// `Device::decoder_utilization`: the utilisation of the video decoder in
/// percent. Nothing is claimed of the outcome.
#[verifier::external_body]
fn device_decoder_utilization(device: &Device) -> (r: Result<u32, NvmlError>) {
    device.decoder_utilization().map(|info| info.utilization)
}

/// `Device::pcie_throughput` of the receive counter, in KB/s. Nothing is
/// claimed of the outcome.
#[verifier::external_body]
fn device_pcie_receive(device: &Device) -> (r: Result<u32, NvmlError>) {
    device.pcie_throughput(PcieUtilCounter::Receive)
}

/// What one device answered to the queries of a reading. A query that failed
/// leaves `None`.
#[derive(Clone, Copy, Debug, PartialEq, Eq)]
pub struct NvmlReadings {
    /// Compute utilisation in percent.
    pub gpu_utilization: Option<u32>,
    /// Bytes of memory in use and installed, in that order.
    pub memory: Option<(u64, u64)>,
    /// Degrees Celsius.
    pub temperature: Option<u32>,
    /// Milliwatts.
    pub power_usage: Option<u32>,
    /// Milliwatts.
    pub power_limit: Option<u32>,
    /// Percent.
    pub fan_speed: Option<u32>,
    /// MHz.
    pub graphics_clock: Option<u32>,
    /// MHz.
    pub memory_clock: Option<u32>,
    /// Percent.
    pub encoder_utilization: Option<u32>,
    /// Percent.
    pub decoder_utilization: Option<u32>,
    /// KB/s.
    pub pcie_receive: Option<u32>,
}

/// `value` whole units in millionths, where there is a value.
pub open spec fn units_to_micro(value: Option<u32>) -> Option<u64> {
    match value {
        Some(v) => Some((v * 1_000_000) as u64),
        None => None,
    }
}

/// `value` thousandths in millionths, where there is a value.
pub open spec fn milli_to_micro(value: Option<u32>) -> Option<u64> {
    match value {
        Some(v) => Some((v * 1000) as u64),
        None => None,
    }
}

/// `value` KB/s in millionths of the throughput unit, which is a million
/// KB/s, where there is a value.
pub open spec fn micro_of(value: Option<u32>) -> Option<u64> {
    match value {
        Some(v) => Some(v as u64),
        None => None,
    }
}

/// The MB in use, where the memory figures were read.
pub open spec fn used_mb(memory: Option<(u64, u64)>) -> Option<u64> {
    match memory {
        Some((used, _)) => Some(used / 1_048_576),
        None => None,
    }
}

/// The MB installed, where the memory figures were read.
pub open spec fn total_mb(memory: Option<(u64, u64)>) -> Option<u64> {
    match memory {
        Some((_, total)) => Some(total / 1_048_576),
        None => None,
    }
}

/// The share of memory in use, where the memory figures were read.
pub open spec fn memory_share(memory: Option<(u64, u64)>) -> Option<u64> {
    match memory {
        Some((used, total)) => Some(share_micro_percent(used, total)),
        None => None,
    }
}

/// The reading that the answers `r`, taken at `timestamp`, amount to. There
/// is none without the compute utilisation. Every other field is present
/// exactly where its query was answered, the three memory fields together,
/// and the device reports no PCIe transmit throughput.
pub open spec fn metrics_of_readings(r: NvmlReadings, timestamp: u64) -> Result<
    GpuMetrics,
    BackendError,
> {
    if r.gpu_utilization is None {
        Err(BackendError::QueryFailed)
    } else {
        Ok(
            GpuMetrics {
                gpu_utilization: (r.gpu_utilization->0 * 1_000_000) as u64,
                memory_used_mb: used_mb(r.memory),
                memory_total_mb: total_mb(r.memory),
                memory_utilization: memory_share(r.memory),
                temperature_celsius: units_to_micro(r.temperature),
                power_usage_watts: milli_to_micro(r.power_usage),
                power_limit_watts: milli_to_micro(r.power_limit),
                fan_speed_percent: r.fan_speed,
                clock_speed_mhz: r.graphics_clock,
                memory_clock_mhz: r.memory_clock,
                pcie_throughput_tx_mbps: None,
                pcie_throughput_rx_mbps: micro_of(r.pcie_receive),
                encoder_utilization: units_to_micro(r.encoder_utilization),
                decoder_utilization: units_to_micro(r.decoder_utilization),
                timestamp,
            },
        )
    }
}

/// A field whose query failed is absent from the reading, never zero, and a
/// field whose query was answered is present.
pub proof fn lemma_unanswered_fields_absent(r: NvmlReadings, timestamp: u64)
    requires
        metrics_of_readings(r, timestamp) is Ok,
    ensures
        ({
            let m = metrics_of_readings(r, timestamp)->Ok_0;
            &&& m.memory_used_mb is None <==> r.memory is None
            &&& m.memory_total_mb is None <==> r.memory is None
            &&& m.memory_utilization is None <==> r.memory is None
            &&& m.temperature_celsius is None <==> r.temperature is None
            &&& m.power_usage_watts is None <==> r.power_usage is None
            &&& m.power_limit_watts is None <==> r.power_limit is None
            &&& m.fan_speed_percent is None <==> r.fan_speed is None
            &&& m.clock_speed_mhz is None <==> r.graphics_clock is None
            &&& m.memory_clock_mhz is None <==> r.memory_clock is None
            &&& m.pcie_throughput_rx_mbps is None <==> r.pcie_receive is None
            &&& m.encoder_utilization is None <==> r.encoder_utilization is None
            &&& m.decoder_utilization is None <==> r.decoder_utilization is None
            &&& m.pcie_throughput_tx_mbps is None
            &&& m.timestamp == timestamp
        }),
{
}

/// A device that uses no more memory than it has is read with a memory
/// utilisation of 100 % at most, and with no more MB in use than installed.
pub proof fn lemma_vendor_memory_within_total(r: NvmlReadings, timestamp: u64)
    requires
        metrics_of_readings(r, timestamp) is Ok,
        r.memory matches Some((used, total)) && used <= total,
    ensures
        ({
            let m = metrics_of_readings(r, timestamp)->Ok_0;
            &&& m.memory_utilization matches Some(share) && share <= 100 * MICRO
            &&& m.memory_used_mb matches Some(used) && m.memory_total_mb matches Some(total)
                && used <= total
        }),
{
    let (used, total) = r.memory->0;
    lemma_share_of_part(used, total);
}

fn units_to_micro_exec(value: Option<u32>) -> (r: Option<u64>)
    ensures
        r == units_to_micro(value),
{
    match value {
        Some(v) => Some(v as u64 * MICRO),
        None => None,
    }
}

fn milli_to_micro_exec(value: Option<u32>) -> (r: Option<u64>)
    ensures
        r == milli_to_micro(value),
{
    match value {
        Some(v) => Some(v as u64 * 1000),
        None => None,
    }
}

fn micro_of_exec(value: Option<u32>) -> (r: Option<u64>)
    ensures
        r == micro_of(value),
{
    match value {
        Some(v) => Some(v as u64),
        None => None,
    }
}

/// The reading that the answers `readings`, taken at `timestamp`, amount to.
pub fn metrics_from_readings(readings: &NvmlReadings, timestamp: u64) -> (r: Result<
    GpuMetrics,
    BackendError,
>)
    ensures
        r == metrics_of_readings(*readings, timestamp),
{
    let gpu_utilization = match readings.gpu_utilization {
        Some(u) => u,
        None => {
            return Err(BackendError::QueryFailed);
        },
    };
    let (memory_used_mb, memory_total_mb, memory_utilization) = match readings.memory {
        Some((used, total)) => (
            Some(used / BYTES_PER_MB),
            Some(total / BYTES_PER_MB),
            Some(share_of(used, total)),
        ),
        None => (None, None, None),
    };
    Ok(
        GpuMetrics {
            gpu_utilization: gpu_utilization as u64 * MICRO,
            memory_used_mb,
            memory_total_mb,
            memory_utilization,
            temperature_celsius: units_to_micro_exec(readings.temperature),
            power_usage_watts: milli_to_micro_exec(readings.power_usage),
            power_limit_watts: milli_to_micro_exec(readings.power_limit),
            fan_speed_percent: readings.fan_speed,
            clock_speed_mhz: readings.graphics_clock,
            memory_clock_mhz: readings.memory_clock,
            pcie_throughput_tx_mbps: None,
            pcie_throughput_rx_mbps: micro_of_exec(readings.pcie_receive),
            encoder_utilization: units_to_micro_exec(readings.encoder_utilization),
            decoder_utilization: units_to_micro_exec(readings.decoder_utilization),
            timestamp,
        },
    )
}

/// What the vendor backend answered when it was asked to read one device.
#[derive(Clone, Copy, Debug, PartialEq, Eq)]
pub enum VendorAnswer {
    /// The management library could not be initialised.
    NoLibrary,
    /// The device index did not resolve to a device.
    NoDevice,
    /// The device answered the queries as far as it could.
    Device(NvmlReadings),
}

/// The outcome of a read to which the vendor backend answered `answer`:
/// `Unavailable` without the library, `DeviceVanished` without the device,
/// and else whatever the device's answers amount to.
pub open spec fn metrics_of_answer(answer: VendorAnswer, timestamp: u64) -> Result<
    GpuMetrics,
    BackendError,
> {
    match answer {
        VendorAnswer::NoLibrary => Err(BackendError::Unavailable),
        VendorAnswer::NoDevice => Err(BackendError::DeviceVanished),
        VendorAnswer::Device(readings) => metrics_of_readings(readings, timestamp),
    }
}

/// The outcome of a read to which the vendor backend answered `answer`.
pub fn metrics_from_answer(answer: &VendorAnswer, timestamp: u64) -> (r: Result<
    GpuMetrics,
    BackendError,
>)
    ensures
        r == metrics_of_answer(*answer, timestamp),
{
    match answer {
        VendorAnswer::NoLibrary => Err(BackendError::Unavailable),
        VendorAnswer::NoDevice => Err(BackendError::DeviceVanished),
        VendorAnswer::Device(readings) => metrics_from_readings(readings, timestamp),
    }
}

/// Puts every query of a reading to `device`. A query that fails leaves its
/// field empty and does not stop the others.
fn read_device(device: &Device) -> (readings: NvmlReadings) {
    NvmlReadings {
        gpu_utilization: device_gpu_utilization(device).ok(),
        memory: device_memory(device).ok(),
        temperature: device_temperature(device).ok(),
        power_usage: device_power_usage(device).ok(),
        power_limit: device_power_limit(device).ok(),
        fan_speed: device_fan_speed(device).ok(),
        graphics_clock: device_clock(device, ClockDomain::Graphics).ok(),
        memory_clock: device_clock(device, ClockDomain::Memory).ok(),
        encoder_utilization: device_encoder_utilization(device).ok(),
        decoder_utilization: device_decoder_utilization(device).ok(),
        pcie_receive: device_pcie_receive(device).ok(),
    }
}

/// Asks the vendor backend to read device `gpu_id`.
fn ask_device(gpu_id: u32) -> (answer: VendorAnswer) {
    match nvml_init() {
        Ok(nvml) => match nvml_device_by_index(&nvml, gpu_id) {
            Ok(device) => VendorAnswer::Device(read_device(&device)),
            Err(_) => VendorAnswer::NoDevice,
        },
        Err(_) => VendorAnswer::NoLibrary,
    }
}

/// `m` is a reading that some answers of a device amount to.
pub open spec fn is_vendor_reading(m: GpuMetrics) -> bool {
    exists|r: NvmlReadings| #[trigger]
        metrics_of_readings(r, m.timestamp) == Ok::<GpuMetrics, BackendError>(m)
}

/// `r` is the outcome of a read through the vendor backend, for some answer
/// of the backend at some moment.
pub open spec fn is_vendor_outcome(r: Result<GpuMetrics, BackendError>) -> bool {
    exists|answer: VendorAnswer, timestamp: u64| r == #[trigger] metrics_of_answer(answer, timestamp)
}

/// Reads device `gpu_id` through NVML, now.
///
/// Fails with `Unavailable` where the library cannot be initialised, with
/// `DeviceVanished` where the index does not resolve, and with `QueryFailed`
/// where the device withholds its compute utilisation. What
/// the backend answers is up to the hardware; the outcome is made of the
/// answer as `metrics_of_answer` says.
pub fn get_nvidia_metrics(gpu_id: u32) -> (r: Result<GpuMetrics, BackendError>)
    ensures
        is_vendor_outcome(r),
        r matches Ok(m) ==> is_vendor_reading(m),
{
    let answer = ask_device(gpu_id);
    let timestamp = read_clock().millis;
    let r = metrics_from_answer(&answer, timestamp);
    proof {
        if let Ok(m) = r {
            assert(m.timestamp == timestamp);
            assert(metrics_of_readings(answer->Device_0, m.timestamp) == Ok::<GpuMetrics, BackendError>(m));
        }
    }
    r
}

/// What one device answered to the queries of detection. A query that
/// failed leaves `None`.
#[derive(Clone, Debug, PartialEq, Eq)]
pub struct DeviceProbe {
    pub name: Option<String>,
    /// Bytes of memory installed.
    pub memory_total: Option<u64>,
    pub driver_version: Option<String>,
    pub cuda_cores: Option<u32>,
    /// The major and minor number of the compute capability.
    pub capability: Option<(i32, i32)>,
}

/// A probe as plain mathematics.
pub struct ProbeView {
    pub name: Option<Seq<char>>,
    pub memory_total: Option<u64>,
    pub driver_version: Option<Seq<char>>,
    pub cuda_cores: Option<u32>,
    pub capability: Option<(i32, i32)>,
}

impl View for DeviceProbe {
    type V = ProbeView;

    open spec fn view(&self) -> ProbeView {
        ProbeView {
            name: opt_string_view(self.name),
            memory_total: self.memory_total,
            driver_version: opt_string_view(self.driver_version),
            cuda_cores: self.cuda_cores,
            capability: self.capability,
        }
    }
}

/// The probe at each index, `None` where the index did not resolve.
pub open spec fn probe_views(probes: Seq<Option<DeviceProbe>>) -> Seq<Option<ProbeView>> {
    probes.map_values(
        |p: Option<DeviceProbe>|
            match p {
                Some(probe) => Some(probe@),
                None => None,
            },
    )
}

/// The description of the NVIDIA device at `index`, made of what the device
/// answered: a name and a driver version that could not be read are
/// "Unknown NVIDIA GPU" and "Unknown", memory that could not be read is
/// zero MB, and the compute capability reads `major.minor`.
pub open spec fn nvidia_info(index: u32, probe: ProbeView) -> GpuInfoView {
    GpuInfoView {
        id: index,
        name: match probe.name {
            Some(name) => name,
            None => "Unknown NVIDIA GPU"@,
        },
        vendor: "NVIDIA"@,
        driver_version: match probe.driver_version {
            Some(version) => version,
            None => "Unknown"@,
        },
        memory_total_mb: match probe.memory_total {
            Some(bytes) => bytes / 1_048_576,
            None => 0,
        },
        cuda_cores: probe.cuda_cores,
        compute_capability: match probe.capability {
            Some((major, minor)) => Some(decimal(major as int) + seq!['.'] + decimal(minor as int)),
            None => None,
        },
    }
}

/// The text `major.minor` of a compute capability.
pub fn capability_text(major: i32, minor: i32) -> (text: String)
    ensures
        text@ == decimal(major as int) + seq!['.'] + decimal(minor as int),
{
    let mut text = i32_to_decimal(major);
    proof {
        reveal_strlit(".");
    }
    text.append(".");
    let minor_text = i32_to_decimal(minor);
    text.append(minor_text.as_str());
    assert(text@ =~= decimal(major as int) + seq!['.'] + decimal(minor as int));
    text
}

/// The description of the NVIDIA device at `index`, made of what the device
/// answered.
pub fn nvidia_gpu_info(index: u32, probe: &DeviceProbe) -> (info: GpuInfo)
    ensures
        info@ == nvidia_info(index, probe@),
{
    let name = match &probe.name {
        Some(name) => name.clone(),
        None => "Unknown NVIDIA GPU".to_string(),
    };
    let driver_version = match &probe.driver_version {
        Some(version) => version.clone(),
        None => "Unknown".to_string(),
    };
    let memory_total_mb = match probe.memory_total {
        Some(bytes) => bytes / BYTES_PER_MB,
        None => 0,
    };
    let compute_capability = match probe.capability {
        Some((major, minor)) => Some(capability_text(major, minor)),
        None => None,
    };
    GpuInfo {
        id: index,
        name,
        vendor: "NVIDIA".to_string(),
        driver_version,
        memory_total_mb,
        cuda_cores: probe.cuda_cores,
        compute_capability,
    }
}

/// The index resolved to a device, and it fits a device id.
pub open spec fn is_present(index: int, probe: Option<ProbeView>) -> bool {
    probe is Some && index <= u32::MAX
}

/// The NVIDIA devices among the indices probed: every index that resolved,
/// in order and under its index as id.
pub open spec fn nvidia_devices(probes: Seq<Option<ProbeView>>) -> Seq<GpuInfoView>
    decreases probes.len(),
{
    if probes.len() == 0 {
        Seq::empty()
    } else {
        let before = nvidia_devices(probes.drop_last());
        let index = probes.len() - 1;
        if is_present(index, probes.last()) {
            before.push(nvidia_info(index as u32, probes.last()->0))
        } else {
            before
        }
    }
}

/// Every device found is described by the probe at its index, the ids grow
/// along the list, and NVIDIA is the vendor of each.
pub proof fn lemma_nvidia_devices_sound(probes: Seq<Option<ProbeView>>)
    ensures
        ids_below(nvidia_devices(probes), probes.len() as int),
        ids_increasing(nvidia_devices(probes)),
        forall|k: int|
            0 <= k < nvidia_devices(probes).len() ==> {
                let device = #[trigger] nvidia_devices(probes)[k];
                &&& probes[device.id as int] is Some
                &&& device == nvidia_info(device.id, probes[device.id as int]->0)
                &&& device.vendor == "NVIDIA"@
            },
    decreases probes.len(),
{
    if probes.len() > 0 {
        let shorter = probes.drop_last();
        lemma_nvidia_devices_sound(shorter);
        let before = nvidia_devices(shorter);
        assert forall|k: int| 0 <= k < before.len() implies shorter[(#[trigger] before[k]).id as int]
            == probes[before[k].id as int] by {}
    }
}

/// Every index that resolved is among the devices found.
pub proof fn lemma_nvidia_devices_complete(probes: Seq<Option<ProbeView>>, index: int)
    requires
        0 <= index < probes.len(),
        is_present(index, probes[index]),
    ensures
        nvidia_devices(probes).contains(nvidia_info(index as u32, probes[index]->0)),
    decreases probes.len(),
{
    let shorter = probes.drop_last();
    let before = nvidia_devices(shorter);
    if index == probes.len() - 1 {
        let found = before.push(nvidia_info(index as u32, probes[index]->0));
        assert(found[before.len() as int] == nvidia_info(index as u32, probes[index]->0));
    } else {
        lemma_nvidia_devices_complete(shorter, index);
        let k = choose|k: int|
            0 <= k < before.len() && before[k] == nvidia_info(index as u32, shorter[index]->0);
        assert(nvidia_devices(probes)[k] == nvidia_info(index as u32, probes[index]->0));
    }
}

/// The NVIDIA devices among the indices probed.
pub fn nvidia_gpus_from(probes: &Vec<Option<DeviceProbe>>) -> (gpus: Vec<GpuInfo>)
    ensures
        device_views(gpus@) == nvidia_devices(probe_views(probes@)),
        ids_increasing(device_views(gpus@)),
{
    let ghost all = probe_views(probes@);
    let mut gpus: Vec<GpuInfo> = Vec::new();
    let mut i: usize = 0;
    assert(all.take(0) =~= Seq::<Option<ProbeView>>::empty());
    while i < probes.len()
        invariant
            i <= probes.len(),
            all == probe_views(probes@),
            device_views(gpus@) == nvidia_devices(all.take(i as int)),
        decreases probes.len() - i,
    {
        assert(all.take(i + 1).drop_last() =~= all.take(i as int));
        assert(all.take(i + 1).last() == all[i as int]);
        match &probes[i] {
            Some(probe) => {
                if i <= u32::MAX as usize {
                    let info = nvidia_gpu_info(i as u32, probe);
                    proof {
                        lemma_device_views_push(gpus@, info);
                    }
                    gpus.push(info);
                }
            },
            None => {},
        }
        i = i + 1;
    }
    proof {
        assert(all.take(probes.len() as int) =~= all);
        lemma_nvidia_devices_sound(all);
    }
    gpus
}

/// Puts every query of detection to `device`.
fn probe_device(nvml: &Nvml, device: &Device) -> (probe: DeviceProbe) {
    let memory_total = match device_memory(device) {
        Ok((_, total)) => Some(total),
        Err(_) => None,
    };
    DeviceProbe {
        name: device_name(device).ok(),
        memory_total,
        driver_version: nvml_driver_version(nvml).ok(),
        cuda_cores: device_num_cores(device).ok(),
        capability: device_compute_capability(device).ok(),
    }
}

/// `devices` is what the vendor backend finds among some probes.
pub open spec fn is_vendor_detection(devices: Seq<GpuInfoView>) -> bool {
    exists|probes: Seq<Option<ProbeView>>| devices == #[trigger] nvidia_devices(probes)
}

/// Enumerates the NVIDIA devices through NVML.
///
/// Fails with `Unavailable` where the library cannot be initialised and with
/// `QueryFailed` where it does not tell the number of devices. An index that
/// does not resolve is passed over. Whatever the hardware answers, the
/// devices that come back are described as `nvidia_devices` says, in the
/// order of their indices and each with its index as its id, so that no id
/// occurs twice.
pub fn detect_nvidia_gpus() -> (r: Result<Vec<GpuInfo>, BackendError>)
    ensures
        is_inventory_outcome(r),
        r matches Ok(gpus) ==> is_vendor_detection(device_views(gpus@)) && ids_increasing(
            device_views(gpus@),
        ),
        r matches Err(e) ==> e == BackendError::Unavailable || e == BackendError::QueryFailed,
{
    let inventory = match nvml_init() {
        Err(_) => VendorInventory::NoLibrary,
        Ok(nvml) => match nvml_device_count(&nvml) {
            Err(_) => VendorInventory::NoCount,
            Ok(device_count) => {
                let mut probes: Vec<Option<DeviceProbe>> = Vec::new();
                let mut i: u32 = 0;
                while i < device_count
                    invariant
                        i <= device_count,
                        probes@.len() == i,
                    decreases device_count - i,
                {
                    let probe = match nvml_device_by_index(&nvml, i) {
                        Ok(device) => Some(probe_device(&nvml, &device)),
                        Err(_) => None,
                    };
                    probes.push(probe);
                    i = i + 1;
                }
                VendorInventory::Probed(probes)
            },
        },
    };
    gpus_from_inventory(&inventory)
}

/// What the vendor backend answered when it was asked which devices there
/// are.
#[derive(Clone, Debug, PartialEq, Eq)]
pub enum VendorInventory {
    /// The management library could not be initialised.
    NoLibrary,
    /// The library did not tell the number of devices.
    NoCount,
    /// The probe of each index below the number of devices, `None` where the
    /// index did not resolve.
    Probed(Vec<Option<DeviceProbe>>),
}

/// An inventory as plain mathematics.
pub enum InventoryView {
    NoLibrary,
    NoCount,
    Probed(Seq<Option<ProbeView>>),
}

impl View for VendorInventory {
    type V = InventoryView;

    open spec fn view(&self) -> InventoryView {
        match *self {
            VendorInventory::NoLibrary => InventoryView::NoLibrary,
            VendorInventory::NoCount => InventoryView::NoCount,
            VendorInventory::Probed(probes) => InventoryView::Probed(probe_views(probes@)),
        }
    }
}

/// The outcome of a detection to which the vendor backend answered
/// `inventory`: `Unavailable` without the library, `QueryFailed` without the
/// number of devices, and else the devices among the indices probed.
pub open spec fn devices_of_inventory(inventory: InventoryView) -> Result<
    Seq<GpuInfoView>,
    BackendError,
> {
    match inventory {
        InventoryView::NoLibrary => Err(BackendError::Unavailable),
        InventoryView::NoCount => Err(BackendError::QueryFailed),
        InventoryView::Probed(probes) => Ok(nvidia_devices(probes)),
    }
}

/// The outcome of a detection, with the devices found as plain mathematics.
pub open spec fn outcome_view(r: Result<Vec<GpuInfo>, BackendError>) -> Result<
    Seq<GpuInfoView>,
    BackendError,
> {
    match r {
        Ok(gpus) => Ok(device_views(gpus@)),
        Err(e) => Err(e),
    }
}

/// `r` is the outcome of a detection through the vendor backend, for some
/// answer of the backend.
pub open spec fn is_inventory_outcome(r: Result<Vec<GpuInfo>, BackendError>) -> bool {
    exists|inventory: InventoryView| outcome_view(r) == #[trigger] devices_of_inventory(inventory)
}

/// The outcome of a detection to which the vendor backend answered
/// `inventory`.
pub fn gpus_from_inventory(inventory: &VendorInventory) -> (r: Result<Vec<GpuInfo>, BackendError>)
    ensures
        outcome_view(r) == devices_of_inventory(inventory@),
        r matches Ok(gpus) ==> ids_increasing(device_views(gpus@)),
{
    match inventory {
        VendorInventory::NoLibrary => Err(BackendError::Unavailable),
        VendorInventory::NoCount => Err(BackendError::QueryFailed),
        VendorInventory::Probed(probes) => Ok(nvidia_gpus_from(probes)),
    }
}

} // verus!
