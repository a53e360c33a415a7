//! The host itself: its description, its load, and the processes on it that
//! look like model runtimes.
//!
//! Fractional quantities are counted in millionths of their unit, as in the
//! GPU readings.

use vstd::prelude::*;
use vstd::string::*;
use sysinfo::Cpu;
use sysinfo::System;
use crate::gpu::clock::read_clock;
use crate::units::BYTES_PER_MB;
use crate::units::share_micro_percent;
use crate::units::share_of;

verus! {

/// `sysinfo::System`: a view of the host, carried as it is.
#[verifier::external_type_specification]
#[verifier::external_body]
pub struct ExSystem(sysinfo::System);

/// `sysinfo::Cpu`: one logical CPU of the host, carried as it is.
#[verifier::external_type_specification]
#[verifier::external_body]
pub struct ExCpu(sysinfo::Cpu);

/// Static description of the host.
#[derive(Clone, Debug, PartialEq, Eq)]
pub struct SystemInfo {
    pub os_name: String,
    pub os_version: String,
    pub kernel_version: String,
    pub hostname: String,
    pub cpu_brand: String,
    pub cpu_cores: usize,
    pub total_memory_mb: u64,
    pub total_swap_mb: u64,
}

/// A host description as plain mathematics.
pub struct SystemInfoView {
    pub os_name: Seq<char>,
    pub os_version: Seq<char>,
    pub kernel_version: Seq<char>,
    pub hostname: Seq<char>,
    pub cpu_brand: Seq<char>,
    pub cpu_cores: usize,
    pub total_memory_mb: u64,
    pub total_swap_mb: u64,
}

impl View for SystemInfo {
    type V = SystemInfoView;

    open spec fn view(&self) -> SystemInfoView {
        SystemInfoView {
            os_name: self.os_name@,
            os_version: self.os_version@,
            kernel_version: self.kernel_version@,
            hostname: self.hostname@,
            cpu_brand: self.cpu_brand@,
            cpu_cores: self.cpu_cores,
            total_memory_mb: self.total_memory_mb,
            total_swap_mb: self.total_swap_mb,
        }
    }
}

/// What the host told of itself. A text that could not be read is `None`.
pub struct HostFacts {
    pub os_name: Option<String>,
    pub os_version: Option<String>,
    pub kernel_version: Option<String>,
    pub hostname: Option<String>,
    /// The number of logical CPUs.
    pub cpu_cores: usize,
    /// The brand of the first logical CPU, where there is one.
    pub cpu_brand: Option<String>,
    /// Bytes of RAM.
    pub total_memory: u64,
    /// Bytes of swap.
    pub total_swap: u64,
}

/// The text, or "Unknown" where there is none.
pub open spec fn or_unknown(text: Option<String>) -> Seq<char> {
    match text {
        Some(text) => text@,
        None => "Unknown"@,
    }
}

/// The description that `facts` amount to: a text that could not be read is
/// "Unknown", a CPU brand that could not be read is "Unknown CPU", and sizes
/// are in whole MB.
pub open spec fn system_info_of(facts: HostFacts) -> SystemInfoView {
    SystemInfoView {
        os_name: or_unknown(facts.os_name),
        os_version: or_unknown(facts.os_version),
        kernel_version: or_unknown(facts.kernel_version),
        hostname: or_unknown(facts.hostname),
        cpu_brand: match facts.cpu_brand {
            Some(brand) => brand@,
            None => "Unknown CPU"@,
        },
        cpu_cores: facts.cpu_cores,
        total_memory_mb: facts.total_memory / 1_048_576,
        total_swap_mb: facts.total_swap / 1_048_576,
    }
}

fn text_or_unknown(text: Option<String>) -> (r: String)
    ensures
        r@ == or_unknown(text),
{
    match text {
        Some(text) => text,
        None => "Unknown".to_string(),
    }
}

/// The description that `facts` amount to.
pub fn system_info_from(facts: HostFacts) -> (info: SystemInfo)
    ensures
        info@ == system_info_of(facts),
{
    let cpu_brand = match facts.cpu_brand {
        Some(brand) => brand,
        None => "Unknown CPU".to_string(),
    };
    SystemInfo {
        os_name: text_or_unknown(facts.os_name),
        os_version: text_or_unknown(facts.os_version),
        kernel_version: text_or_unknown(facts.kernel_version),
        hostname: text_or_unknown(facts.hostname),
        cpu_brand,
        cpu_cores: facts.cpu_cores,
        total_memory_mb: facts.total_memory / BYTES_PER_MB,
        total_swap_mb: facts.total_swap / BYTES_PER_MB,
    }
}

/// `System::new_all`: a view of the host with everything loaded. Nothing is
/// claimed of it.
#[verifier::external_body]
fn system_new_all() -> (sys: System) {
    System::new_all()
}

/// `System::refresh_all`: reads everything anew. Nothing is claimed of the
/// outcome.
#[verifier::external_body]
fn system_refresh_all(sys: &mut System) {
    sys.refresh_all()
}

/// `System::cpus`: the logical CPUs of the host. Nothing is claimed of them.
#[verifier::external_body]
fn system_cpus(sys: &System) -> (cpus: &[Cpu]) {
    sys.cpus()
}

/// `Cpu::brand`: the brand of a CPU, as a string of its own. Nothing is
/// claimed of it.
#[verifier::external_body]
fn cpu_brand(cpu: &Cpu) -> (brand: String) {
    cpu.brand().to_string()
}

/// `System::total_memory`: bytes of RAM. Nothing is claimed of the number.
#[verifier::external_body]
fn system_total_memory(sys: &System) -> (bytes: u64) {
    sys.total_memory()
}

/// `System::total_swap`: bytes of swap. Nothing is claimed of the number.
#[verifier::external_body]
fn system_total_swap(sys: &System) -> (bytes: u64) {
    sys.total_swap()
}

/// `System::name`: the name of the operating system. Nothing is claimed of
/// the outcome.
pub assume_specification[ System::name ]() -> (name: Option<String>);

/// `System::os_version`: the version of the operating system. Nothing is
/// claimed of the outcome.
pub assume_specification[ System::os_version ]() -> (version: Option<String>);

/// `System::kernel_version`: the version of the kernel. Nothing is claimed
/// of the outcome.
pub assume_specification[ System::kernel_version ]() -> (version: Option<String>);

/// `System::host_name`: the name of the host. Nothing is claimed of the
/// outcome.
pub assume_specification[ System::host_name ]() -> (name: Option<String>);

/// `d` is a description of a host: it is made of some facts as
/// `system_info_of` says.
pub open spec fn is_system_info(d: SystemInfoView) -> bool {
    exists|facts: HostFacts| d == #[trigger] system_info_of(facts)
}

/// Describes the host. What the host tells of itself is up to the host; the
/// description is made of it as `system_info_of` says.
pub fn get_system_info() -> (info: SystemInfo)
    ensures
        is_system_info(info@),
{
    let mut sys = system_new_all();
    system_refresh_all(&mut sys);
    let cpus = system_cpus(&sys);
    let cpu_cores = cpus.len();
    let first_brand = if cpu_cores > 0 {
        Some(cpu_brand(&cpus[0]))
    } else {
        None
    };
    let facts = HostFacts {
        os_name: System::name(),
        os_version: System::os_version(),
        kernel_version: System::kernel_version(),
        hostname: System::host_name(),
        cpu_cores,
        cpu_brand: first_brand,
        total_memory: system_total_memory(&sys),
        total_swap: system_total_swap(&sys),
    };
    system_info_from(facts)
}

/// The load of the host at one moment.
#[derive(Clone, Debug, PartialEq, Eq)]
pub struct SystemMetrics {
    /// Overall CPU usage, in millionths of a percent.
    pub cpu_usage: u64,
    /// Usage of each logical CPU, in millionths of a percent.
    pub per_core_usage: Vec<u64>,
    pub memory_used_mb: u64,
    pub memory_total_mb: u64,
    /// Share of RAM in use, in millionths of a percent.
    pub memory_usage_percent: u64,
    pub swap_used_mb: u64,
    pub swap_total_mb: u64,
    /// Always zero: no backend measures the disk rate.
    pub disk_read_bytes_sec: u64,
    /// Always zero: no backend measures the disk rate.
    pub disk_write_bytes_sec: u64,
    pub network_rx_bytes_sec: u64,
    pub network_tx_bytes_sec: u64,
    /// Load average over one, five and fifteen minutes, in millionths.
    pub load_average: [u64; 3],
    pub uptime_seconds: u64,
    /// Milliseconds since the Unix epoch.
    pub timestamp: u64,
}

/// The load of the host as plain mathematics.
pub struct SystemMetricsView {
    pub cpu_usage: u64,
    pub per_core_usage: Seq<u64>,
    pub memory_used_mb: u64,
    pub memory_total_mb: u64,
    pub memory_usage_percent: u64,
    pub swap_used_mb: u64,
    pub swap_total_mb: u64,
    pub disk_read_bytes_sec: u64,
    pub disk_write_bytes_sec: u64,
    pub network_rx_bytes_sec: u64,
    pub network_tx_bytes_sec: u64,
    pub load_average: Seq<u64>,
    pub uptime_seconds: u64,
    pub timestamp: u64,
}

impl View for SystemMetrics {
    type V = SystemMetricsView;

    open spec fn view(&self) -> SystemMetricsView {
        SystemMetricsView {
            cpu_usage: self.cpu_usage,
            per_core_usage: self.per_core_usage@,
            memory_used_mb: self.memory_used_mb,
            memory_total_mb: self.memory_total_mb,
            memory_usage_percent: self.memory_usage_percent,
            swap_used_mb: self.swap_used_mb,
            swap_total_mb: self.swap_total_mb,
            disk_read_bytes_sec: self.disk_read_bytes_sec,
            disk_write_bytes_sec: self.disk_write_bytes_sec,
            network_rx_bytes_sec: self.network_rx_bytes_sec,
            network_tx_bytes_sec: self.network_tx_bytes_sec,
            load_average: self.load_average@,
            uptime_seconds: self.uptime_seconds,
            timestamp: self.timestamp,
        }
    }
}

/// What the host told of its load at one moment.
pub struct HostLoad {
    /// Overall CPU usage, in millionths of a percent.
    pub cpu_usage: u64,
    /// Usage of each logical CPU, in millionths of a percent.
    pub per_core_usage: Vec<u64>,
    /// Bytes of RAM in use.
    pub used_memory: u64,
    /// Bytes of RAM.
    pub total_memory: u64,
    /// Bytes of swap in use.
    pub used_swap: u64,
    /// Bytes of swap.
    pub total_swap: u64,
    /// Bytes received and transmitted by each network interface, in that
    /// order.
    pub networks: Vec<(u64, u64)>,
    /// Load average over one, five and fifteen minutes, in millionths.
    pub load_average: [u64; 3],
    pub uptime_seconds: u64,
}

/// `a + b`, or the largest number that fits where the sum is beyond it.
pub open spec fn capped_sum(a: u64, b: u64) -> u64 {
    if a + b > u64::MAX {
        u64::MAX
    } else {
        (a + b) as u64
    }
}

/// The bytes received and transmitted over all of `networks`, each capped
/// at the largest number that fits.
pub open spec fn network_totals(networks: Seq<(u64, u64)>) -> (u64, u64)
    decreases networks.len(),
{
    if networks.len() == 0 {
        (0, 0)
    } else {
        let before = network_totals(networks.drop_last());
        (capped_sum(before.0, networks.last().0), capped_sum(before.1, networks.last().1))
    }
}

/// The bytes received and transmitted over all of `networks`.
pub fn get_network_io(networks: &Vec<(u64, u64)>) -> (totals: (u64, u64))
    ensures
        totals == network_totals(networks@),
{
    let mut rx: u64 = 0;
    let mut tx: u64 = 0;
    let mut i: usize = 0;
    assert(networks@.take(0) =~= Seq::<(u64, u64)>::empty());
    while i < networks.len()
        invariant
            i <= networks.len(),
            (rx, tx) == network_totals(networks@.take(i as int)),
        decreases networks.len() - i,
    {
        assert(networks@.take(i + 1).drop_last() =~= networks@.take(i as int));
        rx = rx.saturating_add(networks[i].0);
        tx = tx.saturating_add(networks[i].1);
        i = i + 1;
    }
    assert(networks@.take(networks.len() as int) =~= networks@);
    (rx, tx)
}

/// The bytes read from and written to disk per second: not measured, so
/// both are zero.
pub fn get_disk_io() -> (rates: (u64, u64))
    ensures
        rates == (0u64, 0u64),
{
    (0, 0)
}

/// The load that `load`, taken at `timestamp`, amounts to: sizes in whole
/// MB, the share of RAM in use worked out from them, the traffic summed
/// over the interfaces, and no disk rate.
pub open spec fn system_metrics_of(load: HostLoad, timestamp: u64) -> SystemMetricsView {
    SystemMetricsView {
        cpu_usage: load.cpu_usage,
        per_core_usage: load.per_core_usage@,
        memory_used_mb: load.used_memory / 1_048_576,
        memory_total_mb: load.total_memory / 1_048_576,
        memory_usage_percent: share_micro_percent(
            load.used_memory / 1_048_576,
            load.total_memory / 1_048_576,
        ),
        swap_used_mb: load.used_swap / 1_048_576,
        swap_total_mb: load.total_swap / 1_048_576,
        disk_read_bytes_sec: 0,
        disk_write_bytes_sec: 0,
        network_rx_bytes_sec: network_totals(load.networks@).0,
        network_tx_bytes_sec: network_totals(load.networks@).1,
        load_average: load.load_average@,
        uptime_seconds: load.uptime_seconds,
        timestamp,
    }
}

/// The load that `load`, taken at `timestamp`, amounts to.
pub fn system_metrics_from(load: HostLoad, timestamp: u64) -> (metrics: SystemMetrics)
    ensures
        metrics@ == system_metrics_of(load, timestamp),
{
    let memory_used_mb = load.used_memory / BYTES_PER_MB;
    let memory_total_mb = load.total_memory / BYTES_PER_MB;
    let (disk_read, disk_write) = get_disk_io();
    let (network_rx, network_tx) = get_network_io(&load.networks);
    SystemMetrics {
        cpu_usage: load.cpu_usage,
        per_core_usage: load.per_core_usage,
        memory_used_mb,
        memory_total_mb,
        memory_usage_percent: share_of(memory_used_mb, memory_total_mb),
        swap_used_mb: load.used_swap / BYTES_PER_MB,
        swap_total_mb: load.total_swap / BYTES_PER_MB,
        disk_read_bytes_sec: disk_read,
        disk_write_bytes_sec: disk_write,
        network_rx_bytes_sec: network_rx,
        network_tx_bytes_sec: network_tx,
        load_average: load.load_average,
        uptime_seconds: load.uptime_seconds,
        timestamp,
    }
}

/// The load that `load` amounts to, stamped with the present moment.
pub fn system_metrics_now(load: HostLoad) -> (metrics: SystemMetrics)
    ensures
        metrics@ == system_metrics_of(load, metrics.timestamp),
{
    let timestamp = read_clock().millis;
    system_metrics_from(load, timestamp)
}

/// One process that looks like a model runtime.
#[derive(Clone, Debug, PartialEq, Eq)]
pub struct ProcessInfo {
    pub pid: u32,
    pub name: String,
    /// CPU usage, in millionths of a percent.
    pub cpu_usage: u64,
    pub memory_mb: u64,
    pub status: String,
    /// Seconds since the Unix epoch at which the process started.
    pub start_time: u64,
}

/// What the host told of one running process.
#[derive(Clone, Debug, PartialEq, Eq)]
pub struct ProcessFacts {
    pub pid: u32,
    pub name: String,
    /// CPU usage, in millionths of a percent.
    pub cpu_usage: u64,
    /// Bytes of memory in use.
    pub memory: u64,
    pub status: String,
    /// Seconds since the Unix epoch at which the process started.
    pub start_time: u64,
}

/// A process as plain mathematics: `memory` is in MB for a `ProcessInfo` and
/// in bytes for a `ProcessFacts`.
pub struct ProcessView {
    pub pid: u32,
    pub name: Seq<char>,
    pub cpu_usage: u64,
    pub memory: u64,
    pub status: Seq<char>,
    pub start_time: u64,
}

impl View for ProcessInfo {
    type V = ProcessView;

    open spec fn view(&self) -> ProcessView {
        ProcessView {
            pid: self.pid,
            name: self.name@,
            cpu_usage: self.cpu_usage,
            memory: self.memory_mb,
            status: self.status@,
            start_time: self.start_time,
        }
    }
}

impl View for ProcessFacts {
    type V = ProcessView;

    open spec fn view(&self) -> ProcessView {
        ProcessView {
            pid: self.pid,
            name: self.name@,
            cpu_usage: self.cpu_usage,
            memory: self.memory,
            status: self.status@,
            start_time: self.start_time,
        }
    }
}

/// The text `text` in lower case, as `str::to_lowercase` gives it.
pub uninterp spec fn lowercase(text: Seq<char>) -> Seq<char>;

/// `str::to_lowercase`: the text in lower case. Its result is named, not
/// spelled out.
#[verifier::external_body]
fn str_to_lowercase(text: &str) -> (lowered: String)
    ensures
        lowered@ == lowercase(text@),
{
    text.to_lowercase()
}

/// `needle` stands in `text` from place `at` on.
pub open spec fn occurs_at(needle: Seq<char>, text: Seq<char>, at: int) -> bool {
    0 <= at && at + needle.len() <= text.len() && text.subrange(at, at + needle.len()) == needle
}

/// `needle` stands somewhere in `text`.
pub open spec fn occurs_in(needle: Seq<char>, text: Seq<char>) -> bool {
    exists|at: int| occurs_at(needle, text, at)
}

/// `str::contains` with a string as the pattern: whether `needle` stands
/// somewhere in `text`.
#[verifier::external_body]
fn str_contains(text: &str, needle: &str) -> (found: bool)
    ensures
        found == occurs_in(needle@, text@),
{
    text.contains(needle)
}

/// The lower-case text names a model runtime: one of the keywords "ollama",
/// "llama", "python", "torch", "cuda" and "transformers" stands in it.
pub open spec fn names_model(lowered: Seq<char>) -> bool {
    ||| occurs_in("ollama"@, lowered)
    ||| occurs_in("llama"@, lowered)
    ||| occurs_in("python"@, lowered)
    ||| occurs_in("torch"@, lowered)
    ||| occurs_in("cuda"@, lowered)
    ||| occurs_in("transformers"@, lowered)
}

/// Whether the lower-case text `lowered` names a model runtime.
pub fn mentions_model_keyword(lowered: &str) -> (found: bool)
    ensures
        found == names_model(lowered@),
{
    str_contains(lowered, "ollama") || str_contains(lowered, "llama") || str_contains(
        lowered,
        "python",
    ) || str_contains(lowered, "torch") || str_contains(lowered, "cuda") || str_contains(
        lowered,
        "transformers",
    )
}

/// Whether a process of the name `name` looks like a model runtime,
/// whatever the case of its letters.
pub fn is_model_process(name: &str) -> (found: bool)
    ensures
        found == names_model(lowercase(name@)),
{
    let lowered = str_to_lowercase(name);
    mentions_model_keyword(lowered.as_str())
}

/// The process `facts`, with its memory in whole MB.
pub open spec fn process_info_of(facts: ProcessView) -> ProcessView {
    ProcessView { memory: facts.memory / 1_048_576, ..facts }
}

/// The process `facts`, with its memory in whole MB.
pub fn process_info_from(facts: &ProcessFacts) -> (info: ProcessInfo)
    ensures
        info@ == process_info_of(facts@),
{
    ProcessInfo {
        pid: facts.pid,
        name: facts.name.clone(),
        cpu_usage: facts.cpu_usage,
        memory_mb: facts.memory / BYTES_PER_MB,
        status: facts.status.clone(),
        start_time: facts.start_time,
    }
}

/// The processes in `running`, in order.
pub open spec fn facts_views(running: Seq<ProcessFacts>) -> Seq<ProcessView> {
    running.map_values(|p: ProcessFacts| p@)
}

/// The processes in `found`, in order.
pub open spec fn process_views(found: Seq<ProcessInfo>) -> Seq<ProcessView> {
    found.map_values(|p: ProcessInfo| p@)
}

/// The model runtimes among `running`: every process whose name looks like
/// one, in the order given and with its memory in whole MB.
pub open spec fn model_processes_of(running: Seq<ProcessView>) -> Seq<ProcessView> {
    running.filter(|p: ProcessView| names_model(lowercase(p.name))).map_values(
        |p: ProcessView| process_info_of(p),
    )
}

/// One more process at the end is one more model runtime at the end, or
/// none.
proof fn lemma_model_processes_push(running: Seq<ProcessView>, process: ProcessView)
    ensures
        model_processes_of(running.push(process)) == if names_model(lowercase(process.name)) {
            model_processes_of(running).push(process_info_of(process))
        } else {
            model_processes_of(running)
        },
{
    let looks_like_model = |p: ProcessView| names_model(lowercase(p.name));
    reveal_with_fuel(Seq::filter, 2);
    assert(running.push(process).drop_last() =~= running);
    assert(running.push(process).filter(looks_like_model) == if looks_like_model(process) {
        running.filter(looks_like_model).push(process)
    } else {
        running.filter(looks_like_model)
    });
    if looks_like_model(process) {
        assert(model_processes_of(running.push(process)) =~= model_processes_of(running).push(
            process_info_of(process),
        ));
    }
}

/// The model runtimes among `running`.
pub fn model_processes(running: &Vec<ProcessFacts>) -> (found: Vec<ProcessInfo>)
    ensures
        process_views(found@) == model_processes_of(facts_views(running@)),
{
    let ghost all = facts_views(running@);
    let mut found: Vec<ProcessInfo> = Vec::new();
    let mut i: usize = 0;
    assert(all.take(0) =~= Seq::<ProcessView>::empty());
    assert(process_views(found@) =~= model_processes_of(Seq::<ProcessView>::empty())) by {
        reveal_with_fuel(Seq::filter, 1);
    }
    while i < running.len()
        invariant
            i <= running.len(),
            all == facts_views(running@),
            process_views(found@) == model_processes_of(all.take(i as int)),
        decreases running.len() - i,
    {
        let facts = &running[i];
        proof {
            assert(all.take(i + 1) =~= all.take(i as int).push(facts@));
            lemma_model_processes_push(all.take(i as int), facts@);
        }
        if is_model_process(facts.name.as_str()) {
            let info = process_info_from(facts);
            assert(process_views(found@.push(info)) =~= process_views(found@).push(info@));
            found.push(info);
        }
        i = i + 1;
    }
    assert(all.take(running.len() as int) =~= all);
    found
}

} // verus!
