//! The synthetic generator: a smooth, jittered waveform that stands in for a
//! device when no hardware backend answers.

use vstd::prelude::*;
use vstd::arithmetic::div_mod::lemma_mod_add_multiples_vanish;
use crate::gpu::clock::read_clock;
use crate::gpu::metrics::GpuMetrics;
use crate::units::MICRO;

verus! {

/// Length of one full cycle of the waveform, in milliseconds.
pub const CYCLE_MS: u64 = 60_000;

/// Length of one half cycle of the waveform, in milliseconds.
pub const HALF_CYCLE_MS: u64 = 30_000;

/// Installed memory of the synthetic device, in MB.
pub const SIMULATED_MEMORY_TOTAL_MB: u64 = 8192;

/// The positive half of the wave, in thousandths, `x` milliseconds into it.
///
/// With `p = x * (H - x)` and `H` the half cycle, this is Bhaskara's
/// rational approximation of the sine, `16 p / (5 H^2 - 4 p)`, scaled by a
/// thousand: zero at both ends of the half cycle and a thousand in its middle.
pub open spec fn half_wave(x: int) -> int {
    4000 * (x * (30_000 - x)) / (1_125_000_000 - x * (30_000 - x))
}

/// The wave in thousandths at `phase` milliseconds into the cycle: the
/// positive half wave, then its mirror image below zero.
pub open spec fn wave(phase: int) -> int {
    if phase < 30_000 {
        half_wave(phase)
    } else {
        -half_wave(phase - 30_000)
    }
}

/// The phase of `timestamp` within the cycle, in milliseconds.
pub open spec fn phase_of(timestamp: u64) -> int {
    timestamp as int % 60_000
}

/// The half wave stays between zero and a thousand.
pub proof fn lemma_half_wave_bounds(x: int)
    requires
        0 <= x <= 30_000,
    ensures
        0 <= x * (30_000 - x) <= 225_000_000,
        0 <= half_wave(x) <= 1000,
{
    let p = x * (30_000 - x);
    assert(0 <= p <= 225_000_000) by (nonlinear_arith)
        requires
            0 <= x <= 30_000,
            p == x * (30_000 - x),
    ;
    let d = 1_125_000_000 - p;
    assert(0 <= 4000 * p / d <= 1000) by (nonlinear_arith)
        requires
            0 <= p <= 225_000_000,
            d == 1_125_000_000 - p,
    ;
}

/// The wave stays between minus a thousand and a thousand.
pub proof fn lemma_wave_bounds(phase: int)
    requires
        0 <= phase < 60_000,
    ensures
        -1000 <= wave(phase) <= 1000,
{
    if phase < 30_000 {
        lemma_half_wave_bounds(phase);
    } else {
        lemma_half_wave_bounds(phase - 30_000);
    }
}

/// The shape of the wave: it starts each half cycle at zero, peaks at a
/// thousand a quarter into the cycle and at minus a thousand three quarters
/// into it, rises and falls alike on either side of a peak, and mirrors its
/// first half in its second.
pub proof fn lemma_wave_shape(phase: int)
    requires
        0 <= phase < 30_000,
    ensures
        wave(0) == 0,
        wave(15_000) == 1000,
        wave(30_000) == 0,
        wave(45_000) == -1000,
        wave(30_000 - phase) == wave(phase),
        wave(phase + 30_000) == -wave(phase),
{
    assert(half_wave(0) == 0) by (nonlinear_arith);
    assert(half_wave(15_000) == 1000) by (nonlinear_arith);
    if phase > 0 {
        assert(phase * (30_000 - phase) == (30_000 - phase) * (30_000 - (30_000 - phase)))
            by (nonlinear_arith);
    }
}

/// Two quotients of the half wave whose arguments lie close together differ
/// by one at most.
proof fn lemma_half_wave_steps(p: int, q: int)
    requires
        0 <= p <= 225_000_000,
        0 <= q <= 225_000_000,
        p <= q <= p + 30_000,
    ensures
        4000 * p / (1_125_000_000 - p) <= 4000 * q / (1_125_000_000 - q) <= 4000 * p / (
        1_125_000_000 - p) + 1,
{
    let d: int = 1_125_000_000;
    let a = 4000 * p / (d - p);
    let b = 4000 * q / (d - q);
    let dp = d - p;
    let dq = d - q;
    assert(a * dp <= 4000 * p < (a + 1) * dp) by (nonlinear_arith)
        requires
            dp > 0,
            a == 4000 * p / dp,
    ;
    assert(b * dq <= 4000 * q < (b + 1) * dq) by (nonlinear_arith)
        requires
            dq > 0,
            b == 4000 * q / dq,
    ;
    assert(0 <= a <= 1000 && 0 <= b <= 1000) by (nonlinear_arith)
        requires
            0 <= p <= 225_000_000,
            0 <= q <= 225_000_000,
            dp == 1_125_000_000 - p,
            dq == 1_125_000_000 - q,
            a * dp <= 4000 * p < (a + 1) * dp,
            b * dq <= 4000 * q < (b + 1) * dq,
    ;
    if b < a {
        // a * dq <= a * dp <= 4000 p <= 4000 q < (b + 1) * dq
        assert(a * dq <= a * dp) by (nonlinear_arith)
            requires
                0 <= a,
                dq <= dp,
        ;
        assert(false) by (nonlinear_arith)
            requires
                a * dq <= 4000 * q,
                4000 * q < (b + 1) * dq,
                b + 1 <= a,
                dq > 0,
        ;
    }
    if b > a + 1 {
        // (a + 2) dq <= b dq <= 4000 q, and 4000 p < (a + 1) dp
        assert((a + 2) * dq <= 4000 * q) by (nonlinear_arith)
            requires
                b * dq <= 4000 * q,
                a + 2 <= b,
                dq > 0,
        ;
        // dq >= dp - 30000, so (a + 2) (dp - 30000) <= 4000 (p + 30000)
        assert((a + 2) * dp - (a + 2) * 30_000 <= (a + 2) * dq) by (nonlinear_arith)
            requires
                dq >= dp - 30_000,
                a + 2 >= 0,
        ;
        assert((a + 2) * 30_000 <= 1002 * 30_000) by (nonlinear_arith)
            requires
                0 <= a <= 1000,
        ;
        assert((a + 2) * dp == (a + 1) * dp + dp) by (nonlinear_arith);
        // (a + 1) dp + dp - 30_060_000 <= 4000 p + 120_000_000 < (a + 1) dp + 120_000_000
        assert(dp >= 900_000_000);
    }
}

/// From one millisecond to the next the wave moves by a thousandth at most:
/// it drifts and never jumps.
pub proof fn lemma_wave_drifts(phase: int)
    requires
        0 <= phase < 60_000,
    ensures
        -1 <= wave((phase + 1) % 60_000) - wave(phase) <= 1,
{
    let x = if phase < 30_000 {
        phase
    } else {
        phase - 30_000
    };
    lemma_half_wave_bounds(x);
    lemma_half_wave_bounds(x + 1);
    let p = x * (30_000 - x);
    let q = (x + 1) * (30_000 - (x + 1));
    assert(q - p == 29_999 - 2 * x) by (nonlinear_arith)
        requires
            p == x * (30_000 - x),
            q == (x + 1) * (30_000 - (x + 1)),
    ;
    if q >= p {
        lemma_half_wave_steps(p, q);
    } else {
        lemma_half_wave_steps(q, p);
    }
    assert(-1 <= half_wave(x + 1) - half_wave(x) <= 1);
    assert(half_wave(0) == 0) by (nonlinear_arith);
    assert(half_wave(30_000) == 0) by (nonlinear_arith);
}

/// The wave repeats with every cycle.
pub proof fn lemma_wave_periodic(timestamp: u64, later: u64)
    requires
        later == timestamp + 60_000,
    ensures
        phase_of(later) == phase_of(timestamp),
        wave(phase_of(later)) == wave(phase_of(timestamp)),
{
    lemma_mod_add_multiples_vanish(timestamp as int, 60_000);
}

/// The wave in thousandths at the moment `timestamp`.
pub fn wave_at(timestamp: u64) -> (w: i64)
    ensures
        w == wave(phase_of(timestamp)),
        -1000 <= w <= 1000,
{
    let phase: u64 = timestamp % CYCLE_MS;
    let x: u64 = if phase < HALF_CYCLE_MS {
        phase
    } else {
        phase - HALF_CYCLE_MS
    };
    proof {
        lemma_half_wave_bounds(x as int);
    }
    let p: u64 = x * (HALF_CYCLE_MS - x);
    let h: u64 = 4000 * p / (1_125_000_000 - p);
    if phase < HALF_CYCLE_MS {
        h as i64
    } else {
        -(h as i64)
    }
}

/// Three raw draws from the jitter source, one for each jittered field. Only
/// a draw's last three decimal digits count.
#[derive(Clone, Copy, Debug, PartialEq, Eq)]
pub struct Jitter {
    pub utilization: u32,
    pub encoder: u32,
    pub decoder: u32,
}

/// The jitter of a raw draw, in thousandths: its last three decimal digits.
pub open spec fn jitter_of(raw: u32) -> int {
    raw as int % 1000
}

/// `v` millionths of a percent, held between 0 % and 100 %.
pub open spec fn clamp_percent(v: int) -> int {
    if v < 0 {
        0
    } else if v > 100_000_000 {
        100_000_000
    } else {
        v
    }
}

/// `v`, held between zero and `limit`.
pub open spec fn clamp_to(v: int, limit: int) -> int {
    if v < 0 {
        0
    } else if v > limit {
        limit
    } else {
        v
    }
}

/// `baseline + amplitude * w / 1000` in whole units, rounded down.
pub open spec fn swing(baseline: int, amplitude: int, w: int) -> int {
    (baseline * 1000 + amplitude * w) / 1000
}

/// The synthetic reading at the moment `timestamp` under the draws `jitter`:
/// every field is its baseline plus its amplitude times the wave, the
/// utilisations carry jitter, percentages are held within 0..100 and memory
/// in use within the installed memory.
pub open spec fn simulated(timestamp: u64, jitter: Jitter) -> GpuMetrics {
    let w = wave(phase_of(timestamp));
    GpuMetrics {
        gpu_utilization: clamp_percent(
            45_000_000 + 30_000 * w + 10_000 * jitter_of(jitter.utilization),
        ) as u64,
        memory_used_mb: Some(clamp_to(swing(4096, 2048, w), 8192) as u64),
        memory_total_mb: Some(8192),
        memory_utilization: Some(clamp_percent(50_000_000 + 25_000 * w) as u64),
        temperature_celsius: Some((55_000_000 + 15_000 * w) as u64),
        power_usage_watts: Some((120_000_000 + 80_000 * w) as u64),
        power_limit_watts: Some(250_000_000),
        fan_speed_percent: Some(clamp_to(swing(40, 30, w), 100) as u32),
        clock_speed_mhz: Some(swing(1800, 300, w) as u32),
        memory_clock_mhz: Some(swing(7000, 500, w) as u32),
        pcie_throughput_tx_mbps: Some((500_000_000 + 300_000 * w) as u64),
        pcie_throughput_rx_mbps: Some((800_000_000 + 400_000 * w) as u64),
        encoder_utilization: Some(clamp_percent(50_000 * jitter_of(jitter.encoder)) as u64),
        decoder_utilization: Some(clamp_percent(30_000 * jitter_of(jitter.decoder)) as u64),
        timestamp,
    }
}

/// `m` is a synthetic reading: the generator's output at `m.timestamp` for
/// some draws of the jitter source.
pub open spec fn is_simulated(m: GpuMetrics) -> bool {
    exists|jitter: Jitter| m == #[trigger] simulated(m.timestamp, jitter)
}

/// What holds of every synthetic reading: utilisation within 0..100 %,
/// memory in use within the installed memory, power draw within the limit,
/// and no optional field absent.
pub open spec fn plausible(m: GpuMetrics) -> bool {
    &&& m.gpu_utilization <= 100 * MICRO
    &&& m.fully_populated()
    &&& m.memory_utilization->0 <= 100 * MICRO
    &&& m.memory_used_mb->0 <= m.memory_total_mb->0
    &&& m.fan_speed_percent->0 <= 100
    &&& m.encoder_utilization->0 <= 100 * MICRO
    &&& m.decoder_utilization->0 <= 100 * MICRO
    &&& m.power_usage_watts->0 <= m.power_limit_watts->0
}

/// Every synthetic reading is plausible, whatever the moment and the jitter.
pub proof fn lemma_simulated_plausible(timestamp: u64, jitter: Jitter)
    ensures
        plausible(simulated(timestamp, jitter)),
        simulated(timestamp, jitter).timestamp == timestamp,
{
    lemma_wave_bounds(phase_of(timestamp));
}

fn clamp_percent_exec(v: i64) -> (r: u64)
    ensures
        r == clamp_percent(v as int),
{
    if v < 0 {
        0
    } else if v > 100_000_000 {
        100_000_000
    } else {
        v as u64
    }
}

fn clamp_to_exec(v: i64, limit: i64) -> (r: i64)
    requires
        limit >= 0,
    ensures
        r == clamp_to(v as int, limit as int),
{
    if v < 0 {
        0
    } else if v > limit {
        limit
    } else {
        v
    }
}

fn swing_exec(baseline: i64, amplitude: i64, w: i64) -> (r: i64)
    requires
        0 <= amplitude <= baseline <= 1_000_000,
        -1000 <= w <= 1000,
    ensures
        r == swing(baseline as int, amplitude as int, w as int),
        baseline - amplitude <= r <= baseline + amplitude,
{
    assert(-1000 * amplitude <= amplitude * w <= 1000 * amplitude) by (nonlinear_arith)
        requires
            0 <= amplitude,
            -1000 <= w <= 1000,
    ;
    (baseline * 1000 + amplitude * w) / 1000
}

/// The synthetic reading at the moment `timestamp` under the draws `jitter`.
pub fn simulated_metrics_at(timestamp: u64, jitter: Jitter) -> (m: GpuMetrics)
    ensures
        m == simulated(timestamp, jitter),
        plausible(m),
{
    proof {
        lemma_simulated_plausible(timestamp, jitter);
    }
    let w: i64 = wave_at(timestamp);
    let j_util: i64 = (jitter.utilization % 1000) as i64;
    let j_enc: i64 = (jitter.encoder % 1000) as i64;
    let j_dec: i64 = (jitter.decoder % 1000) as i64;
    GpuMetrics {
        gpu_utilization: clamp_percent_exec(45_000_000 + 30_000 * w + 10_000 * j_util),
        memory_used_mb: Some(clamp_to_exec(swing_exec(4096, 2048, w), 8192) as u64),
        memory_total_mb: Some(SIMULATED_MEMORY_TOTAL_MB),
        memory_utilization: Some(clamp_percent_exec(50_000_000 + 25_000 * w)),
        temperature_celsius: Some((55_000_000 + 15_000 * w) as u64),
        power_usage_watts: Some((120_000_000 + 80_000 * w) as u64),
        power_limit_watts: Some(250_000_000),
        fan_speed_percent: Some(clamp_to_exec(swing_exec(40, 30, w), 100) as u32),
        clock_speed_mhz: Some(swing_exec(1800, 300, w) as u32),
        memory_clock_mhz: Some(swing_exec(7000, 500, w) as u32),
        pcie_throughput_tx_mbps: Some((500_000_000 + 300_000 * w) as u64),
        pcie_throughput_rx_mbps: Some((800_000_000 + 400_000 * w) as u64),
        encoder_utilization: Some(clamp_percent_exec(50_000 * j_enc)),
        decoder_utilization: Some(clamp_percent_exec(30_000 * j_dec)),
        timestamp,
    }
}

/// One draw from the jitter source: the nanoseconds within the current
/// second, of which only the last three digits will count.
pub fn draw_jitter() -> (raw: u32)
    ensures
        raw < 1_000_000_000,
{
    read_clock().subsec_nanos
}

/// A synthetic reading for device `gpu_id`, taken now. It never fails and
/// leaves no field absent.
pub fn get_simulated_metrics(gpu_id: u32) -> (m: GpuMetrics)
    ensures
        is_simulated(m),
        plausible(m),
{
    let timestamp = read_clock().millis;
    let utilization = draw_jitter();
    let encoder = draw_jitter();
    let decoder = draw_jitter();
    let jitter = Jitter { utilization, encoder, decoder };
    simulated_metrics_at(timestamp, jitter)
}

} // verus!
