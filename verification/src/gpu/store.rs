//! The history store: one rolling history per tracked device, found by the
//! device's id.

use vstd::prelude::*;
use crate::gpu::device::GpuInfo;
use crate::gpu::device::device_ids;
use crate::gpu::device::distinct;
use crate::gpu::device::device_views;
use crate::gpu::history::GpuMetricsHistory;
use crate::gpu::history::HistoryView;
use crate::gpu::metrics::GpuMetrics;

verus! {

/// What a store holds, as plain mathematics: its histories in the order in
/// which their devices were first tracked.
pub struct StoreView {
    pub histories: Seq<HistoryView>,
}

impl StoreView {
    /// The store without any history.
    pub open spec fn empty() -> StoreView {
        StoreView { histories: Seq::empty() }
    }

    /// Place `i` holds the first history of device `gpu_id`.
    pub open spec fn is_slot(self, gpu_id: u32, i: int) -> bool {
        &&& 0 <= i < self.histories.len()
        &&& self.histories[i].gpu_id == gpu_id
        &&& forall|j: int| 0 <= j < i ==> (#[trigger] self.histories[j]).gpu_id != gpu_id
    }

    /// The store holds a history of device `gpu_id`.
    pub open spec fn tracks(self, gpu_id: u32) -> bool {
        exists|i: int| self.is_slot(gpu_id, i)
    }

    /// The place of the history of device `gpu_id`, where there is one.
    pub open spec fn slot(self, gpu_id: u32) -> int {
        choose|i: int| self.is_slot(gpu_id, i)
    }

    /// The history of device `gpu_id`, where there is one.
    pub open spec fn history(self, gpu_id: u32) -> Option<HistoryView> {
        if self.tracks(gpu_id) {
            Some(self.histories[self.slot(gpu_id)])
        } else {
            None
        }
    }

    /// Every history respects its capacity, and no device has two.
    pub open spec fn wf(self) -> bool {
        &&& forall|i: int| 0 <= i < self.histories.len() ==> (#[trigger] self.histories[i]).wf()
        &&& forall|i: int, j: int|
            0 <= i < j < self.histories.len() ==> (#[trigger] self.histories[i]).gpu_id != (
            #[trigger] self.histories[j]).gpu_id
    }

    /// The store after device `gpu_id` is tracked with room for
    /// `max_samples` readings: a device that is tracked already keeps its
    /// history as it is, a new one gets an empty history at the end.
    pub open spec fn track(self, gpu_id: u32, max_samples: nat) -> StoreView {
        if self.tracks(gpu_id) {
            self
        } else {
            StoreView { histories: self.histories.push(HistoryView::empty(gpu_id, max_samples)) }
        }
    }

    /// The store after each of `ids` is tracked in turn.
    pub open spec fn track_all(self, ids: Seq<u32>, max_samples: nat) -> StoreView
        decreases ids.len(),
    {
        if ids.len() == 0 {
            self
        } else {
            self.track_all(ids.drop_last(), max_samples).track(ids.last(), max_samples)
        }
    }

    /// The store after `metrics` is appended to the history of device
    /// `gpu_id`. A reading of a device that is not tracked leaves the store
    /// as it is.
    pub open spec fn record(self, gpu_id: u32, metrics: GpuMetrics) -> StoreView {
        if self.tracks(gpu_id) {
            StoreView {
                histories: self.histories.update(
                    self.slot(gpu_id),
                    self.histories[self.slot(gpu_id)].push(metrics),
                ),
            }
        } else {
            self
        }
    }

    /// The store after the readings `readings` are recorded in turn, the
    /// i-th for the device `ids[i]`.
    pub open spec fn record_each(self, ids: Seq<u32>, readings: Seq<GpuMetrics>) -> StoreView
        decreases ids.len(),
    {
        if ids.len() == 0 {
            self
        } else {
            self.record_each(ids.drop_last(), readings.drop_last()).record(
                ids.last(),
                readings.last(),
            )
        }
    }
}

/// A device has at most one slot.
pub proof fn lemma_slot_unique(store: StoreView, gpu_id: u32, i: int)
    requires
        store.is_slot(gpu_id, i),
    ensures
        store.tracks(gpu_id),
        store.slot(gpu_id) == i,
{
    let chosen = store.slot(gpu_id);
    assert(store.is_slot(gpu_id, chosen));
    if chosen < i {
        assert(store.histories[chosen].gpu_id != gpu_id);
    } else if i < chosen {
        assert(store.histories[i].gpu_id != gpu_id);
    }
}

/// A device none of whose histories is in the store is not tracked.
pub proof fn lemma_untracked(store: StoreView, gpu_id: u32)
    requires
        forall|j: int| 0 <= j < store.histories.len() ==> (#[trigger] store.histories[j]).gpu_id != gpu_id,
    ensures
        !store.tracks(gpu_id),
{
    if store.tracks(gpu_id) {
        let chosen = store.slot(gpu_id);
        assert(store.is_slot(gpu_id, chosen));
        assert(store.histories[chosen].gpu_id != gpu_id);
    }
}

/// Tracking a device keeps a well-formed store well-formed.
pub proof fn lemma_track_keeps_wf(store: StoreView, gpu_id: u32, max_samples: nat)
    requires
        store.wf(),
    ensures
        store.track(gpu_id, max_samples).wf(),
        store.track(gpu_id, max_samples).tracks(gpu_id),
{
    if store.tracks(gpu_id) {
    } else {
        let after = store.track(gpu_id, max_samples);
        let last = store.histories.len() as int;
        assert forall|i: int, j: int| 0 <= i < j < after.histories.len() implies (
        #[trigger] after.histories[i]).gpu_id != (#[trigger] after.histories[j]).gpu_id by {
            if j == last {
                if store.histories[i].gpu_id == gpu_id {
                    lemma_first_of(store, gpu_id, i);
                }
            }
        }
        assert forall|j: int| 0 <= j < last implies (#[trigger] after.histories[j]).gpu_id != gpu_id by {
            if store.histories[j].gpu_id == gpu_id {
                lemma_first_of(store, gpu_id, j);
            }
        }
        assert(after.is_slot(gpu_id, last));
    }
}

/// A device that has a history somewhere in the store is tracked.
pub proof fn lemma_first_of(store: StoreView, gpu_id: u32, i: int)
    requires
        0 <= i < store.histories.len(),
        store.histories[i].gpu_id == gpu_id,
    ensures
        store.tracks(gpu_id),
        store.slot(gpu_id) <= i,
    decreases i,
{
    if forall|j: int| 0 <= j < i ==> (#[trigger] store.histories[j]).gpu_id != gpu_id {
        assert(store.is_slot(gpu_id, i));
        lemma_slot_unique(store, gpu_id, i);
    } else {
        let j = choose|j: int| 0 <= j < i && (#[trigger] store.histories[j]).gpu_id == gpu_id;
        lemma_first_of(store, gpu_id, j);
    }
}

/// Recording a reading keeps a well-formed store well-formed, keeps every
/// device tracked that was, and touches no history but that of the device
/// read.
pub proof fn lemma_record_keeps_wf(store: StoreView, gpu_id: u32, metrics: GpuMetrics)
    requires
        store.wf(),
    ensures
        store.record(gpu_id, metrics).wf(),
        store.record(gpu_id, metrics).histories.len() == store.histories.len(),
        forall|i: int|
            0 <= i < store.histories.len() ==> (#[trigger] store.record(
                gpu_id,
                metrics,
            ).histories[i]).gpu_id == store.histories[i].gpu_id,
        forall|i: int|
            0 <= i < store.histories.len() && store.histories[i].gpu_id != gpu_id ==> (
            #[trigger] store.record(gpu_id, metrics).histories[i]) == store.histories[i],
{
    if store.tracks(gpu_id) {
        let slot = store.slot(gpu_id);
        assert(store.is_slot(gpu_id, slot));
    }
}

/// Tracking a list of devices keeps a well-formed store well-formed, and
/// every device of the list is tracked afterwards.
pub proof fn lemma_track_all(store: StoreView, ids: Seq<u32>, max_samples: nat)
    requires
        store.wf(),
    ensures
        store.track_all(ids, max_samples).wf(),
        forall|i: int| 0 <= i < ids.len() ==> store.track_all(ids, max_samples).tracks(#[trigger] ids[i]),
    decreases ids.len(),
{
    if ids.len() > 0 {
        let earlier = ids.drop_last();
        lemma_track_all(store, earlier, max_samples);
        let before = store.track_all(earlier, max_samples);
        lemma_track_keeps_wf(before, ids.last(), max_samples);
        let after = before.track(ids.last(), max_samples);
        assert forall|i: int| 0 <= i < ids.len() implies after.tracks(#[trigger] ids[i]) by {
            if i < earlier.len() {
                assert(earlier[i] == ids[i]);
                assert(before.tracks(earlier[i]));
                let slot = before.slot(ids[i]);
                assert(before.is_slot(ids[i], slot));
                assert(after.histories[slot] == before.histories[slot]);
                lemma_first_of(after, ids[i], slot);
            }
        }
    }
}

/// Tracking a list of distinct devices from an empty store gives each its
/// own empty history, in the order of the list.
pub proof fn lemma_track_all_from_empty(ids: Seq<u32>, max_samples: nat)
    requires
        distinct(ids),
    ensures
        StoreView::empty().track_all(ids, max_samples).histories == ids.map_values(
            |id: u32| HistoryView::empty(id, max_samples),
        ),
    decreases ids.len(),
{
    let fresh = |id: u32| HistoryView::empty(id, max_samples);
    if ids.len() == 0 {
        assert(StoreView::empty().histories =~= ids.map_values(fresh));
    } else {
        let earlier = ids.drop_last();
        lemma_track_all_from_empty(earlier, max_samples);
        let before = StoreView::empty().track_all(earlier, max_samples);
        assert forall|j: int| 0 <= j < before.histories.len() implies (#[trigger] before.histories[j]).gpu_id
            != ids.last() by {
            assert(before.histories[j].gpu_id == ids[j]);
        }
        lemma_untracked(before, ids.last());
        assert(before.track(ids.last(), max_samples).histories =~= ids.map_values(fresh));
    }
}

/// One round of readings, one for each of a list of distinct devices,
/// appends to the history of every tracked device of the list exactly its
/// own reading, and leaves every other history as it is.
pub proof fn lemma_record_each(store: StoreView, ids: Seq<u32>, readings: Seq<GpuMetrics>)
    requires
        store.wf(),
        distinct(ids),
        ids.len() == readings.len(),
    ensures
        store.record_each(ids, readings).wf(),
        store.record_each(ids, readings).histories.len() == store.histories.len(),
        forall|k: int, i: int|
            0 <= k < store.histories.len() && 0 <= i < ids.len() && store.histories[k].gpu_id
                == ids[i] ==> #[trigger] store.record_each(ids, readings).histories[k]
                == store.histories[k].push(#[trigger] readings[i]),
        forall|k: int|
            0 <= k < store.histories.len() && !ids.contains(store.histories[k].gpu_id) ==> (
            #[trigger] store.record_each(ids, readings).histories[k]) == store.histories[k],
    decreases ids.len(),
{
    if ids.len() > 0 {
        let earlier = ids.drop_last();
        let earlier_readings = readings.drop_last();
        lemma_record_each(store, earlier, earlier_readings);
        let before = store.record_each(earlier, earlier_readings);
        let id = ids.last();
        let reading = readings.last();
        lemma_record_keeps_wf(before, id, reading);
        let after = before.record(id, reading);
        assert(!earlier.contains(id)) by {
            if earlier.contains(id) {
                let i = choose|i: int| 0 <= i < earlier.len() && earlier[i] == id;
                assert(ids[i] == ids[ids.len() - 1]);
            }
        }
        assert forall|k: int| 0 <= k < store.histories.len() implies (#[trigger] before.histories[k]).gpu_id
            == store.histories[k].gpu_id by {
            if earlier.contains(store.histories[k].gpu_id) {
                let i = choose|i: int| 0 <= i < earlier.len() && earlier[i] == store.histories[k].gpu_id;
                assert(ids[i] == earlier[i]);
                assert(before.histories[k] == store.histories[k].push(earlier_readings[i]));
            }
        }
        if before.tracks(id) {
            let slot = before.slot(id);
            assert(before.is_slot(id, slot));
            assert(before.histories[slot] == store.histories[slot]);
        }
        assert forall|k: int, i: int|
            0 <= k < store.histories.len() && 0 <= i < ids.len() && store.histories[k].gpu_id
                == ids[i] implies #[trigger] after.histories[k] == store.histories[k].push(
            #[trigger] readings[i],
        ) by {
            if i < earlier.len() {
                assert(earlier[i] == ids[i]);
                assert(earlier_readings[i] == readings[i]);
                assert(before.histories[k] == store.histories[k].push(earlier_readings[i]));
                assert(before.histories[k].gpu_id != id);
            } else {
                lemma_first_of(before, id, k);
                let slot = before.slot(id);
                assert(before.is_slot(id, slot));
                assert(slot == k) by {
                    if slot != k {
                        assert(before.histories[slot].gpu_id != before.histories[k].gpu_id);
                    }
                }
            }
        }
        assert forall|k: int|
            0 <= k < store.histories.len() && !ids.contains(store.histories[k].gpu_id) implies (
        #[trigger] after.histories[k]) == store.histories[k] by {
            let held = store.histories[k].gpu_id;
            assert(held != id) by {
                if held == id {
                    assert(ids[ids.len() - 1] == held);
                }
            }
            assert(!earlier.contains(held)) by {
                if earlier.contains(held) {
                    let i = choose|i: int| 0 <= i < earlier.len() && earlier[i] == held;
                    assert(ids[i] == held);
                }
            }
        }
    }
}

/// One rolling history per tracked device.
#[derive(Clone, Debug)]
pub struct HistoryStore {
    pub histories: Vec<GpuMetricsHistory>,
}

/// The histories in `histories`, in order.
pub open spec fn history_views(histories: Seq<GpuMetricsHistory>) -> Seq<HistoryView> {
    histories.map_values(|h: GpuMetricsHistory| h@)
}

impl View for HistoryStore {
    type V = StoreView;

    open spec fn view(&self) -> StoreView {
        StoreView { histories: history_views(self.histories@) }
    }
}

impl HistoryStore {
    /// A store that tracks no device.
    pub fn new() -> (store: HistoryStore)
        ensures
            store@ == StoreView::empty(),
            store@.wf(),
    {
        let store = HistoryStore { histories: Vec::new() };
        assert(store@.histories =~= Seq::<HistoryView>::empty());
        store
    }

    /// The place of the history of device `gpu_id`, where there is one.
    pub fn find(&self, gpu_id: u32) -> (found: Option<usize>)
        ensures
            found is Some <==> self@.tracks(gpu_id),
            found matches Some(i) ==> i == self@.slot(gpu_id) && self@.is_slot(gpu_id, i as int),
    {
        let mut i: usize = 0;
        while i < self.histories.len()
            invariant
                i <= self.histories.len(),
                forall|j: int| 0 <= j < i ==> (#[trigger] self@.histories[j]).gpu_id != gpu_id,
            decreases self.histories.len() - i,
        {
            if self.histories[i].gpu_id == gpu_id {
                proof {
                    assert(self@.is_slot(gpu_id, i as int));
                    lemma_slot_unique(self@, gpu_id, i as int);
                }
                return Some(i);
            }
            i = i + 1;
        }
        proof {
            lemma_untracked(self@, gpu_id);
        }
        None
    }

    /// The history of device `gpu_id`, where there is one.
    pub fn history(&self, gpu_id: u32) -> (found: Option<&GpuMetricsHistory>)
        ensures
            found is Some <==> self@.tracks(gpu_id),
            found matches Some(h) ==> Some(h@) == self@.history(gpu_id),
    {
        match self.find(gpu_id) {
            Some(i) => Some(&self.histories[i]),
            None => None,
        }
    }

    /// Starts to track device `gpu_id` with room for `max_samples` readings.
    /// A device that is tracked already keeps its history.
    pub fn track(&mut self, gpu_id: u32, max_samples: usize)
        ensures
            final(self)@ == old(self)@.track(gpu_id, max_samples as nat),
            old(self)@.wf() ==> final(self)@.wf(),
    {
        proof {
            if self@.wf() {
                lemma_track_keeps_wf(self@, gpu_id, max_samples as nat);
            }
        }
        if self.find(gpu_id).is_none() {
            let history = GpuMetricsHistory::new(gpu_id, max_samples);
            self.histories.push(history);
            assert(self@.histories =~= old(self)@.track(gpu_id, max_samples as nat).histories);
        }
    }

    /// Starts to track every device of `devices`, each with room for
    /// `max_samples` readings.
    pub fn track_all(&mut self, devices: &Vec<GpuInfo>, max_samples: usize)
        ensures
            final(self)@ == old(self)@.track_all(device_ids(device_views(devices@)), max_samples as nat),
            old(self)@.wf() ==> final(self)@.wf(),
    {
        let ghost ids = device_ids(device_views(devices@));
        let mut i: usize = 0;
        assert(ids.take(0) =~= Seq::<u32>::empty());
        while i < devices.len()
            invariant
                i <= devices.len(),
                ids == device_ids(device_views(devices@)),
                self@ == old(self)@.track_all(ids.take(i as int), max_samples as nat),
                old(self)@.wf() ==> self@.wf(),
            decreases devices.len() - i,
        {
            assert(ids.take(i + 1).drop_last() =~= ids.take(i as int));
            assert(ids.take(i + 1).last() == devices@[i as int].id);
            self.track(devices[i].id, max_samples);
            i = i + 1;
        }
        assert(ids.take(devices.len() as int) =~= ids);
    }

    /// Appends `metrics` to the history of device `gpu_id` and tells whether
    /// the device is tracked. A reading of a device that is not tracked is
    /// dropped.
    pub fn record(&mut self, gpu_id: u32, metrics: GpuMetrics) -> (known: bool)
        ensures
            final(self)@ == old(self)@.record(gpu_id, metrics),
            known == old(self)@.tracks(gpu_id),
            old(self)@.wf() ==> final(self)@.wf(),
    {
        proof {
            if self@.wf() {
                lemma_record_keeps_wf(self@, gpu_id, metrics);
            }
        }
        match self.find(gpu_id) {
            Some(i) => {
                self.histories[i].push(metrics);
                assert(self@.histories =~= old(self)@.record(gpu_id, metrics).histories);
                true
            },
            None => false,
        }
    }
}

} // verus!
