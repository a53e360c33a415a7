//! Static description of a detected device.

use vstd::prelude::*;

verus! {

/// Static description of one detected device. Ids are unique within one
/// detection pass and are not stable across passes.
#[derive(Clone, Debug, PartialEq, Eq)]
pub struct GpuInfo {
    pub id: u32,
    pub name: String,
    pub vendor: String,
    pub driver_version: String,
    /// Installed memory in MB; `0` when the backend cannot report it.
    pub memory_total_mb: u64,
    pub cuda_cores: Option<u32>,
    pub compute_capability: Option<String>,
}

/// A device description as plain mathematics.
pub struct GpuInfoView {
    pub id: u32,
    pub name: Seq<char>,
    pub vendor: Seq<char>,
    pub driver_version: Seq<char>,
    pub memory_total_mb: u64,
    pub cuda_cores: Option<u32>,
    pub compute_capability: Option<Seq<char>>,
}

/// The characters of an optional string.
pub open spec fn opt_string_view(s: Option<String>) -> Option<Seq<char>> {
    match s {
        Some(s) => Some(s@),
        None => None,
    }
}

impl View for GpuInfo {
    type V = GpuInfoView;

    open spec fn view(&self) -> GpuInfoView {
        GpuInfoView {
            id: self.id,
            name: self.name@,
            vendor: self.vendor@,
            driver_version: self.driver_version@,
            memory_total_mb: self.memory_total_mb,
            cuda_cores: self.cuda_cores,
            compute_capability: opt_string_view(self.compute_capability),
        }
    }
}

/// The descriptions in `devices`, in order.
pub open spec fn device_views(devices: Seq<GpuInfo>) -> Seq<GpuInfoView> {
    devices.map_values(|d: GpuInfo| d@)
}

/// The ids of `devices`, in order.
pub open spec fn device_ids(devices: Seq<GpuInfoView>) -> Seq<u32> {
    devices.map_values(|d: GpuInfoView| d.id)
}

/// Ids grow strictly along the list.
pub open spec fn ids_increasing(devices: Seq<GpuInfoView>) -> bool {
    forall|i: int, j: int| 0 <= i < j < devices.len() ==> devices[i].id < devices[j].id
}

/// Every id in `devices` is below `bound`.
pub open spec fn ids_below(devices: Seq<GpuInfoView>, bound: int) -> bool {
    forall|i: int| 0 <= i < devices.len() ==> (#[trigger] devices[i]).id < bound
}

/// No id occurs twice in `ids`.
pub open spec fn distinct(ids: Seq<u32>) -> bool {
    forall|i: int, j: int| 0 <= i < j < ids.len() ==> ids[i] != ids[j]
}

/// Where ids grow strictly along a list, no id occurs twice in it.
pub proof fn lemma_increasing_ids_differ(devices: Seq<GpuInfoView>)
    requires
        ids_increasing(devices),
    ensures
        distinct(device_ids(devices)),
{
}

/// Appending a device appends its description.
pub proof fn lemma_device_views_push(devices: Seq<GpuInfo>, device: GpuInfo)
    ensures
        device_views(devices.push(device)) == device_views(devices).push(device@),
{
    assert(device_views(devices.push(device)) =~= device_views(devices).push(device@));
}

} // verus!
