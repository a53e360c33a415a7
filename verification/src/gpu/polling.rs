//! The decisions of the polling loop.
//!
//! The loop itself belongs to the host: it detects, reads, publishes and
//! sleeps. What to do next is decided here, one event at a time. The poller
//! starts idle, runs from the first detection on and never stops: every
//! event leaves it with a next action.

use vstd::prelude::*;
use crate::gpu::detect::BackendConfig;
use crate::gpu::device::GpuInfo;
use crate::gpu::device::GpuInfoView;
use crate::gpu::device::device_ids;
use crate::gpu::device::distinct;
use crate::gpu::device::device_views;
use crate::gpu::history::HistoryView;
use crate::gpu::history::latest;
use crate::gpu::history::lemma_push_all_keeps_identity;
use crate::gpu::history::lemma_push_all_keeps_latest;
use crate::gpu::metrics::GpuMetrics;
use crate::gpu::store::HistoryStore;
use crate::gpu::store::StoreView;
use crate::gpu::store::lemma_record_each;
use crate::gpu::store::lemma_track_all;
use crate::gpu::store::lemma_track_all_from_empty;

verus! {

/// The topic under which readings are published.
pub const METRICS_TOPIC: &'static str = "gpu-metrics";

/// The pause between two cycles, in milliseconds, unless configured.
pub const DEFAULT_INTERVAL_MS: u64 = 1000;

/// The readings kept per device unless configured: two minutes at one
/// reading a second.
pub const DEFAULT_HISTORY_CAPACITY: usize = 120;

/// What the polling loop can be configured with.
#[derive(Clone, Copy, Debug, PartialEq, Eq, Structural)]
pub struct PollConfig {
    /// The pause between the end of one cycle and the start of the next, in
    /// milliseconds.
    pub interval_ms: u64,
    /// The readings kept per device.
    pub history_capacity: usize,
    /// The hardware backends that take part.
    pub backends: BackendConfig,
}

impl PollConfig {
    /// One cycle a second, 120 readings per device, every backend.
    pub open spec fn standard() -> PollConfig {
        PollConfig { interval_ms: 1000, history_capacity: 120, backends: BackendConfig::all() }
    }
}

impl Default for PollConfig {
    fn default() -> (config: PollConfig)
        ensures
            config == PollConfig::standard(),
    {
        PollConfig {
            interval_ms: DEFAULT_INTERVAL_MS,
            history_capacity: DEFAULT_HISTORY_CAPACITY,
            backends: BackendConfig { vendor: true, portable: true },
        }
    }
}

/// Where the poller stands.
#[derive(Clone, Copy, Debug, PartialEq, Eq)]
pub enum Stage {
    /// Nothing has been detected yet.
    Idle,
    /// Running: the reading of the current device is awaited.
    Sampling,
    /// Running: the outcome of publishing `metrics` is awaited.
    Publishing { metrics: GpuMetrics },
    /// Running: the end of the pause between two cycles is awaited.
    Sleeping,
}

/// What the host is asked to do next.
#[derive(Clone, Copy, Debug, PartialEq, Eq)]
pub enum PollAction {
    /// Detect the devices and answer with `PollEvent::Detected`.
    Detect,
    /// Read device `gpu_id` and answer with `PollEvent::Sampled`.
    Sample { gpu_id: u32 },
    /// Publish the reading under `METRICS_TOPIC` and answer with
    /// `PollEvent::Published`.
    Publish { gpu_id: u32, metrics: GpuMetrics },
    /// Pause for `millis` milliseconds and answer with `PollEvent::Slept`.
    Sleep { millis: u64 },
}

/// What the host reports back.
#[derive(Clone, Debug, PartialEq, Eq)]
pub enum PollEvent {
    /// Detection found these devices.
    Detected(Vec<GpuInfo>),
    /// The current device read this.
    Sampled(GpuMetrics),
    /// The reading was published, or publishing failed.
    Published(bool),
    /// The pause is over.
    Slept,
}

/// An event as plain mathematics.
pub enum EventView {
    Detected(Seq<GpuInfoView>),
    Sampled(GpuMetrics),
    Published(bool),
    Slept,
}

impl View for PollEvent {
    type V = EventView;

    open spec fn view(&self) -> EventView {
        match *self {
            PollEvent::Detected(devices) => EventView::Detected(device_views(devices@)),
            PollEvent::Sampled(metrics) => EventView::Sampled(metrics),
            PollEvent::Published(delivered) => EventView::Published(delivered),
            PollEvent::Slept => EventView::Slept,
        }
    }
}

/// A poller as plain mathematics.
pub struct PollerView {
    pub config: PollConfig,
    pub stage: Stage,
    pub devices: Seq<GpuInfoView>,
    /// The place of the current device in `devices`.
    pub cursor: nat,
}

impl PollerView {
    /// A poller before its first detection.
    pub open spec fn idle(config: PollConfig) -> PollerView {
        PollerView { config, stage: Stage::Idle, devices: Seq::empty(), cursor: 0 }
    }

    /// While a device is read or its reading published, there is such a
    /// device.
    pub open spec fn wf(self) -> bool {
        (self.stage is Sampling || self.stage is Publishing) ==> self.cursor < self.devices.len()
    }

    /// Detection has taken place.
    pub open spec fn is_running(self) -> bool {
        !(self.stage is Idle)
    }

    /// The id of the current device.
    pub open spec fn current_id(self) -> u32 {
        self.devices[self.cursor as int].id
    }

    /// The action whose outcome the poller awaits.
    pub open spec fn pending(self) -> PollAction {
        match self.stage {
            Stage::Idle => PollAction::Detect,
            Stage::Sampling => PollAction::Sample { gpu_id: self.current_id() },
            Stage::Publishing { metrics } => PollAction::Publish {
                gpu_id: self.current_id(),
                metrics,
            },
            Stage::Sleeping => PollAction::Sleep { millis: self.config.interval_ms },
        }
    }

    /// The stage in which a cycle starts: with the first device, or with the
    /// pause where there is no device.
    pub open spec fn cycle_start(self) -> PollerView {
        PollerView {
            cursor: 0,
            stage: if self.devices.len() > 0 {
                Stage::Sampling
            } else {
                Stage::Sleeping
            },
            ..self
        }
    }

    /// The poller after `event`. An event that does not answer the pending
    /// action leaves it as it is. Whether publishing succeeded makes no
    /// difference.
    pub open spec fn after(self, event: EventView) -> PollerView {
        match (self.stage, event) {
            (Stage::Idle, EventView::Detected(devices)) => PollerView {
                devices,
                ..self
            }.cycle_start(),
            (Stage::Sampling, EventView::Sampled(metrics)) => PollerView {
                stage: Stage::Publishing { metrics },
                ..self
            },
            (Stage::Publishing { .. }, EventView::Published(_)) => if self.cursor + 1
                < self.devices.len() {
                PollerView { cursor: self.cursor + 1, stage: Stage::Sampling, ..self }
            } else {
                PollerView { cursor: 0, stage: Stage::Sleeping, ..self }
            },
            (Stage::Sleeping, EventView::Slept) => self.cycle_start(),
            _ => self,
        }
    }

    /// The store after `event`: detection starts a history for every device
    /// found, a reading goes to the history of the current device, and no
    /// other event touches the store.
    pub open spec fn store_after(self, store: StoreView, event: EventView) -> StoreView {
        match (self.stage, event) {
            (Stage::Idle, EventView::Detected(devices)) => store.track_all(
                device_ids(devices),
                self.config.history_capacity as nat,
            ),
            (Stage::Sampling, EventView::Sampled(metrics)) => store.record(
                self.current_id(),
                metrics,
            ),
            _ => store,
        }
    }
}

/// Every event leaves a well-formed poller well-formed, and a running
/// poller running: no event stops the loop.
pub proof fn lemma_never_stops(poller: PollerView, event: EventView)
    requires
        poller.wf(),
    ensures
        poller.after(event).wf(),
        poller.is_running() ==> poller.after(event).is_running(),
        poller.after(event).config == poller.config,
        poller.is_running() ==> poller.after(event).devices == poller.devices,
{
}

/// Detection takes the poller from idle to running, whatever was found.
pub proof fn lemma_detection_starts(poller: PollerView, devices: Seq<GpuInfoView>)
    requires
        poller.stage is Idle,
    ensures
        poller.after(EventView::Detected(devices)).is_running(),
        poller.after(EventView::Detected(devices)).devices == devices,
        devices.len() == 0 ==> poller.after(EventView::Detected(devices)).pending()
            == (PollAction::Sleep { millis: poller.config.interval_ms }),
{
}

/// Detection leaves a well-formed store well-formed and with a history for
/// every device found. On an empty store, devices of distinct ids get one
/// empty history each, in the order in which they were found.
pub proof fn lemma_detection_seeds_store(
    poller: PollerView,
    store: StoreView,
    devices: Seq<GpuInfoView>,
)
    requires
        poller.stage is Idle,
        store.wf(),
    ensures
        poller.store_after(store, EventView::Detected(devices)).wf(),
        forall|i: int|
            0 <= i < devices.len() ==> poller.store_after(store, EventView::Detected(devices)).tracks(
                (#[trigger] devices[i]).id,
            ),
        store == StoreView::empty() && distinct(device_ids(devices)) ==> poller.store_after(
            store,
            EventView::Detected(devices),
        ).histories == device_ids(devices).map_values(
            |id: u32| HistoryView::empty(id, poller.config.history_capacity as nat),
        ),
{
    let ids = device_ids(devices);
    let capacity = poller.config.history_capacity as nat;
    lemma_track_all(store, ids, capacity);
    assert forall|i: int| 0 <= i < devices.len() implies store.track_all(ids, capacity).tracks(
        (#[trigger] devices[i]).id,
    ) by {
        assert(ids[i] == devices[i].id);
    }
    if store == StoreView::empty() && distinct(ids) {
        lemma_track_all_from_empty(ids, capacity);
    }
}

/// A failure to publish is swallowed: the poller and the store go on as
/// after a success.
pub proof fn lemma_publish_failure_swallowed(poller: PollerView, store: StoreView)
    ensures
        poller.after(EventView::Published(false)) == poller.after(EventView::Published(true)),
        poller.store_after(store, EventView::Published(false)) == store,
        poller.store_after(store, EventView::Published(true)) == store,
{
}

/// One device's turn: its reading goes to its history and is the one handed
/// out for publishing, and after the outcome, whichever it is, the next
/// device is read or the pause begins.
pub proof fn lemma_device_turn(
    poller: PollerView,
    store: StoreView,
    metrics: GpuMetrics,
    delivered: bool,
)
    requires
        poller.wf(),
        poller.stage is Sampling,
    ensures
        poller.store_after(store, EventView::Sampled(metrics)) == store.record(
            poller.current_id(),
            metrics,
        ),
        poller.after(EventView::Sampled(metrics)).pending() == (PollAction::Publish {
            gpu_id: poller.current_id(),
            metrics,
        }),
        poller.after(EventView::Sampled(metrics)).after(EventView::Published(delivered)).pending()
            == if poller.cursor + 1 < poller.devices.len() {
            PollAction::Sample { gpu_id: poller.devices[poller.cursor as int + 1].id }
        } else {
            PollAction::Sleep { millis: poller.config.interval_ms }
        },
{
}

/// The poller and the store after one turn each of the next devices: for
/// the i-th of them the reading `readings[i]` arrives, and then the outcome
/// `outcomes[i]` of publishing it.
pub open spec fn after_turns(
    poller: PollerView,
    store: StoreView,
    readings: Seq<GpuMetrics>,
    outcomes: Seq<bool>,
) -> (PollerView, StoreView)
    decreases readings.len(),
{
    if readings.len() == 0 {
        (poller, store)
    } else {
        let (p, s) = after_turns(poller, store, readings.drop_last(), outcomes.drop_last());
        let sampled = EventView::Sampled(readings.last());
        (p.after(sampled).after(EventView::Published(outcomes.last())), p.store_after(s, sampled))
    }
}

/// The turns of the first devices of a cycle: afterwards the poller stands
/// at the next device, or at the pause when every device has had its turn,
/// and the store has recorded each reading for its device.
pub proof fn lemma_turns(
    poller: PollerView,
    store: StoreView,
    readings: Seq<GpuMetrics>,
    outcomes: Seq<bool>,
)
    requires
        poller.wf(),
        poller.stage is Sampling,
        poller.cursor == 0,
        readings.len() == outcomes.len(),
        readings.len() <= poller.devices.len(),
    ensures
        after_turns(poller, store, readings, outcomes).0 == if readings.len()
            < poller.devices.len() {
            PollerView { cursor: readings.len(), ..poller }
        } else {
            PollerView { stage: Stage::Sleeping, ..poller }
        },
        after_turns(poller, store, readings, outcomes).1 == store.record_each(
            device_ids(poller.devices).take(readings.len() as int),
            readings,
        ),
    decreases readings.len(),
{
    let ids = device_ids(poller.devices);
    let k = readings.len() as int;
    if k == 0 {
        assert(ids.take(0) =~= Seq::<u32>::empty());
    } else {
        lemma_turns(poller, store, readings.drop_last(), outcomes.drop_last());
        assert(ids.take(k).drop_last() =~= ids.take(k - 1));
        assert(ids.take(k).last() == poller.devices[k - 1].id);
    }
}

/// One whole cycle, from the first device to the pause and back: every
/// device has had its reading recorded, the poller asks for the pause, and
/// after the pause it stands where it stood. What became of publishing makes
/// no difference to any of it.
pub proof fn lemma_cycle(
    poller: PollerView,
    store: StoreView,
    readings: Seq<GpuMetrics>,
    outcomes: Seq<bool>,
    other_outcomes: Seq<bool>,
)
    requires
        poller.wf(),
        poller.stage is Sampling,
        poller.cursor == 0,
        readings.len() == poller.devices.len(),
        outcomes.len() == readings.len(),
        other_outcomes.len() == readings.len(),
    ensures
        after_turns(poller, store, readings, outcomes).0.pending() == (PollAction::Sleep {
            millis: poller.config.interval_ms,
        }),
        after_turns(poller, store, readings, outcomes).0.after(EventView::Slept) == poller,
        after_turns(poller, store, readings, outcomes).1 == store.record_each(
            device_ids(poller.devices),
            readings,
        ),
        after_turns(poller, store, readings, outcomes) == after_turns(
            poller,
            store,
            readings,
            other_outcomes,
        ),
{
    lemma_turns(poller, store, readings, outcomes);
    lemma_turns(poller, store, readings, other_outcomes);
    let ids = device_ids(poller.devices);
    assert(ids.take(readings.len() as int) =~= ids);
}

/// After one whole cycle over devices of distinct ids, the history of every
/// polled device holds its new reading on top of what it held, within its
/// capacity, and no other history has changed.
pub proof fn lemma_cycle_feeds_every_history(
    poller: PollerView,
    store: StoreView,
    readings: Seq<GpuMetrics>,
    outcomes: Seq<bool>,
)
    requires
        poller.wf(),
        poller.stage is Sampling,
        poller.cursor == 0,
        readings.len() == poller.devices.len(),
        outcomes.len() == readings.len(),
        store.wf(),
        distinct(device_ids(poller.devices)),
    ensures
        after_turns(poller, store, readings, outcomes).1.wf(),
        after_turns(poller, store, readings, outcomes).1.histories.len() == store.histories.len(),
        forall|k: int, i: int|
            0 <= k < store.histories.len() && 0 <= i < poller.devices.len()
                && store.histories[k].gpu_id == poller.devices[i].id ==> #[trigger] after_turns(
                poller,
                store,
                readings,
                outcomes,
            ).1.histories[k] == store.histories[k].push(#[trigger] readings[i]),
        forall|k: int|
            0 <= k < store.histories.len() && !device_ids(poller.devices).contains(
                store.histories[k].gpu_id,
            ) ==> (#[trigger] after_turns(poller, store, readings, outcomes).1.histories[k])
                == store.histories[k],
{
    lemma_cycle(poller, store, readings, outcomes, outcomes);
    lemma_record_each(store, device_ids(poller.devices), readings);
}

/// The readings of the device at place `i`, one from each round, in order.
pub open spec fn readings_of(rounds: Seq<Seq<GpuMetrics>>, i: int) -> Seq<GpuMetrics> {
    Seq::new(rounds.len(), |c: int| rounds[c][i])
}

/// Every round brings one reading and one publishing outcome for each of
/// `n` devices.
pub open spec fn one_per_device(
    rounds: Seq<Seq<GpuMetrics>>,
    outcomes: Seq<Seq<bool>>,
    n: nat,
) -> bool {
    &&& rounds.len() == outcomes.len()
    &&& forall|c: int| 0 <= c < rounds.len() ==> (#[trigger] rounds[c]).len() == n
    &&& forall|c: int| 0 <= c < outcomes.len() ==> (#[trigger] outcomes[c]).len() == n
}

/// The poller and the store after as many whole cycles as there are rounds:
/// in each the devices have their turns, and then the pause passes.
pub open spec fn after_cycles(
    poller: PollerView,
    store: StoreView,
    rounds: Seq<Seq<GpuMetrics>>,
    outcomes: Seq<Seq<bool>>,
) -> (PollerView, StoreView)
    decreases rounds.len(),
{
    if rounds.len() == 0 {
        (poller, store)
    } else {
        let (p, s) = after_cycles(poller, store, rounds.drop_last(), outcomes.drop_last());
        let (q, t) = after_turns(p, s, rounds.last(), outcomes.last());
        (q.after(EventView::Slept), t)
    }
}

/// After any number of whole cycles over devices of distinct ids the poller
/// stands at the start of the next cycle, the history of every polled device
/// has taken in all the readings of its device in order, within its
/// capacity, and no other history has changed. What became of publishing
/// makes no difference.
pub proof fn lemma_cycles(
    poller: PollerView,
    store: StoreView,
    rounds: Seq<Seq<GpuMetrics>>,
    outcomes: Seq<Seq<bool>>,
)
    requires
        poller.wf(),
        poller.stage is Sampling,
        poller.cursor == 0,
        store.wf(),
        distinct(device_ids(poller.devices)),
        one_per_device(rounds, outcomes, poller.devices.len()),
    ensures
        after_cycles(poller, store, rounds, outcomes).0 == poller,
        after_cycles(poller, store, rounds, outcomes).1.wf(),
        after_cycles(poller, store, rounds, outcomes).1.histories.len() == store.histories.len(),
        forall|k: int, i: int|
            0 <= k < store.histories.len() && 0 <= i < poller.devices.len()
                && store.histories[k].gpu_id == (#[trigger] poller.devices[i]).id ==> (
            #[trigger] after_cycles(poller, store, rounds, outcomes).1.histories[k])
                == store.histories[k].push_all(readings_of(rounds, i)),
        forall|k: int|
            0 <= k < store.histories.len() && !device_ids(poller.devices).contains(
                store.histories[k].gpu_id,
            ) ==> (#[trigger] after_cycles(poller, store, rounds, outcomes).1.histories[k])
                == store.histories[k],
    decreases rounds.len(),
{
    let ids = device_ids(poller.devices);
    if rounds.len() > 0 {
        let earlier = rounds.drop_last();
        lemma_cycles(poller, store, earlier, outcomes.drop_last());
        let (p, s) = after_cycles(poller, store, earlier, outcomes.drop_last());
        let round = rounds.last();
        assert(round.len() == poller.devices.len());
        assert(outcomes.last().len() == poller.devices.len());
        lemma_cycle(poller, s, round, outcomes.last(), outcomes.last());
        lemma_cycle_feeds_every_history(poller, s, round, outcomes.last());
        let t = after_turns(poller, s, round, outcomes.last()).1;
        assert forall|k: int| 0 <= k < store.histories.len() implies (#[trigger] s.histories[k]).gpu_id
            == store.histories[k].gpu_id by {
            if ids.contains(store.histories[k].gpu_id) {
                let i = choose|i: int| 0 <= i < ids.len() && ids[i] == store.histories[k].gpu_id;
                assert(poller.devices[i].id == ids[i]);
                lemma_push_all_keeps_identity(store.histories[k], readings_of(earlier, i));
            }
        }
        assert forall|k: int, i: int|
            0 <= k < store.histories.len() && 0 <= i < poller.devices.len()
                && store.histories[k].gpu_id == (#[trigger] poller.devices[i]).id implies (
        #[trigger] t.histories[k]) == store.histories[k].push_all(readings_of(rounds, i)) by {
            assert(s.histories[k] == store.histories[k].push_all(readings_of(earlier, i)));
            assert(t.histories[k] == s.histories[k].push(round[i]));
            assert(readings_of(rounds, i).drop_last() =~= readings_of(earlier, i));
            assert(readings_of(rounds, i).last() == round[i]);
        }
        assert forall|k: int|
            0 <= k < store.histories.len() && !ids.contains(store.histories[k].gpu_id) implies (
        #[trigger] t.histories[k]) == store.histories[k] by {
            assert(s.histories[k] == store.histories[k]);
        }
    }
}

/// After whole cycles the history of a polled device holds the latest
/// readings of its device, as many as its capacity allows: one more with
/// every cycle until it is full.
pub proof fn lemma_history_after_cycles(
    poller: PollerView,
    store: StoreView,
    rounds: Seq<Seq<GpuMetrics>>,
    outcomes: Seq<Seq<bool>>,
    k: int,
    i: int,
)
    requires
        poller.wf(),
        poller.stage is Sampling,
        poller.cursor == 0,
        store.wf(),
        distinct(device_ids(poller.devices)),
        one_per_device(rounds, outcomes, poller.devices.len()),
        0 <= k < store.histories.len(),
        0 <= i < poller.devices.len(),
        store.histories[k].gpu_id == poller.devices[i].id,
    ensures
        after_cycles(poller, store, rounds, outcomes).1.histories[k].samples == latest(
            store.histories[k].samples + readings_of(rounds, i),
            store.histories[k].max_samples,
        ),
        after_cycles(poller, store, rounds, outcomes).1.histories[k].samples.len() == if store.histories[k].samples.len()
            + rounds.len() <= store.histories[k].max_samples {
            store.histories[k].samples.len() + rounds.len()
        } else {
            store.histories[k].max_samples
        },
{
    lemma_cycles(poller, store, rounds, outcomes);
    lemma_push_all_keeps_latest(store.histories[k], readings_of(rounds, i));
}

/// The state of the polling loop.
#[derive(Debug)]
pub struct Poller {
    config: PollConfig,
    stage: Stage,
    devices: Vec<GpuInfo>,
    cursor: usize,
}

impl View for Poller {
    type V = PollerView;

    closed spec fn view(&self) -> PollerView {
        PollerView {
            config: self.config,
            stage: self.stage,
            devices: device_views(self.devices@),
            cursor: self.cursor as nat,
        }
    }
}

impl Poller {
    #[verifier::type_invariant]
    spec fn inv(self) -> bool {
        self@.wf()
    }

    /// An idle poller.
    pub fn new(config: PollConfig) -> (poller: Poller)
        ensures
            poller@ == PollerView::idle(config),
            poller@.wf(),
    {
        let poller = Poller { config, stage: Stage::Idle, devices: Vec::new(), cursor: 0 };
        assert(poller@.devices =~= Seq::<GpuInfoView>::empty());
        poller
    }

    /// The configuration the poller was made with.
    pub fn config(&self) -> (config: PollConfig)
        ensures
            config == self@.config,
    {
        self.config
    }

    /// Whether detection has taken place.
    pub fn is_running(&self) -> (running: bool)
        ensures
            running == self@.is_running(),
    {
        match self.stage {
            Stage::Idle => false,
            _ => true,
        }
    }

    /// The devices that are polled.
    pub fn devices(&self) -> (devices: &Vec<GpuInfo>)
        ensures
            device_views(devices@) == self@.devices,
    {
        &self.devices
    }

    /// The action whose outcome the poller awaits.
    pub fn pending(&self) -> (action: PollAction)
        ensures
            action == self@.pending(),
            self@.wf(),
    {
        proof {
            use_type_invariant(self);
        }
        match self.stage {
            Stage::Idle => PollAction::Detect,
            Stage::Sampling => PollAction::Sample { gpu_id: self.devices[self.cursor].id },
            Stage::Publishing { metrics } => PollAction::Publish {
                gpu_id: self.devices[self.cursor].id,
                metrics,
            },
            Stage::Sleeping => PollAction::Sleep { millis: self.config.interval_ms },
        }
    }

    /// Takes in `event`, the outcome of the pending action, and tells what to
    /// do next.
    ///
    /// Detection starts a history in `store` for every device found; a
    /// reading is appended to the history of the device it was read from and
    /// handed out for publishing; the outcome of publishing is noted and
    /// otherwise ignored. An event that does not answer the pending action
    /// changes nothing, and the pending action is asked for again.
    pub fn advance(&mut self, store: &mut HistoryStore, event: PollEvent) -> (action: PollAction)
        ensures
            final(self)@ == old(self)@.after(event@),
            final(store)@ == old(self)@.store_after(old(store)@, event@),
            action == final(self)@.pending(),
            final(self)@.wf(),
            old(store)@.wf() ==> final(store)@.wf(),
    {
        proof {
            use_type_invariant(&*self);
            assert(self@.devices.len() == self.devices@.len());
        }
        match event {
            PollEvent::Detected(devices) => {
                if let Stage::Idle = self.stage {
                    store.track_all(&devices, self.config.history_capacity);
                    let found = devices.len() > 0;
                    self.devices = devices;
                    self.cursor = 0;
                    if found {
                        self.stage = Stage::Sampling;
                    } else {
                        self.stage = Stage::Sleeping;
                    }
                }
            },
            PollEvent::Sampled(metrics) => {
                if let Stage::Sampling = self.stage {
                    let gpu_id = self.devices[self.cursor].id;
                    store.record(gpu_id, metrics);
                    self.stage = Stage::Publishing { metrics };
                }
            },
            PollEvent::Published(_) => {
                if let Stage::Publishing { .. } = self.stage {
                    assert(self.cursor < self.devices.len());
                    if self.cursor + 1 < self.devices.len() {
                        self.cursor = self.cursor + 1;
                        self.stage = Stage::Sampling;
                    } else {
                        self.stage = Stage::Sleeping;
                        self.cursor = 0;
                    }
                }
            },
            PollEvent::Slept => {
                if let Stage::Sleeping = self.stage {
                    self.cursor = 0;
                    if self.devices.len() > 0 {
                        self.stage = Stage::Sampling;
                    }
                }
            },
        }
        self.pending()
    }
}

} // verus!
