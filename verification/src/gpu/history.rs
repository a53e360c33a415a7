//! Bounded rolling history of readings, one per device.

use vstd::prelude::*;
use crate::gpu::metrics::GpuMetrics;

verus! {

/// The latest `n` of `samples`: all of them where there are no more than `n`.
pub open spec fn latest(samples: Seq<GpuMetrics>, n: nat) -> Seq<GpuMetrics> {
    if samples.len() <= n {
        samples
    } else {
        samples.skip(samples.len() - n)
    }
}

/// Timestamps grow strictly along `samples`.
pub open spec fn timestamps_increasing(samples: Seq<GpuMetrics>) -> bool {
    forall|i: int, j: int|
        0 <= i < j < samples.len() ==> (#[trigger] samples[i]).timestamp < (
        #[trigger] samples[j]).timestamp
}

/// What a history holds, as plain mathematics.
pub struct HistoryView {
    pub gpu_id: u32,
    /// The readings kept, oldest first.
    pub samples: Seq<GpuMetrics>,
    pub max_samples: nat,
}

impl HistoryView {
    /// An empty history.
    pub open spec fn empty(gpu_id: u32, max_samples: nat) -> HistoryView {
        HistoryView { gpu_id, samples: Seq::empty(), max_samples }
    }

    /// The history never holds more than its capacity.
    pub open spec fn wf(self) -> bool {
        self.samples.len() <= self.max_samples
    }

    /// The history after appending `metrics`: it keeps the latest
    /// `max_samples` of what it held and the new reading, so that the oldest
    /// readings leave first.
    pub open spec fn push(self, metrics: GpuMetrics) -> HistoryView {
        HistoryView { samples: latest(self.samples.push(metrics), self.max_samples), ..self }
    }

    /// The history after appending each of `readings` in turn.
    pub open spec fn push_all(self, readings: Seq<GpuMetrics>) -> HistoryView
        decreases readings.len(),
    {
        if readings.len() == 0 {
            self
        } else {
            self.push_all(readings.drop_last()).push(readings.last())
        }
    }
}

/// A history with room left keeps everything: nothing leaves on a push.
pub proof fn lemma_push_with_room(history: HistoryView, metrics: GpuMetrics)
    requires
        history.samples.len() < history.max_samples,
    ensures
        history.push(metrics).samples == history.samples.push(metrics),
{
}

/// A push onto a history that is full, or overfull, leaves it exactly full.
pub proof fn lemma_push_beyond_capacity(history: HistoryView, metrics: GpuMetrics)
    requires
        history.samples.len() >= history.max_samples,
    ensures
        history.push(metrics).samples.len() == history.max_samples,
        history.push(metrics).wf(),
{
}

/// A push onto a full history evicts its oldest reading and nothing else.
/// Where timestamps grow strictly, the oldest reading kept is younger than
/// the one evicted.
pub proof fn lemma_push_evicts_oldest(history: HistoryView, metrics: GpuMetrics)
    requires
        history.max_samples > 0,
        history.samples.len() == history.max_samples,
    ensures
        history.push(metrics).samples == history.samples.skip(1).push(metrics),
        timestamps_increasing(history.samples.push(metrics)) ==> history.push(metrics).samples[0].timestamp
            > history.samples[0].timestamp && timestamps_increasing(history.push(metrics).samples),
{
    let all = history.samples.push(metrics);
    let kept = history.push(metrics).samples;
    assert(kept =~= history.samples.skip(1).push(metrics));
    if timestamps_increasing(all) {
        assert(kept[0] == all[1]);
        assert(history.samples[0] == all[0]);
        assert forall|i: int, j: int| 0 <= i < j < kept.len() implies (#[trigger] kept[i]).timestamp < (
        #[trigger] kept[j]).timestamp by {
            assert(kept[i] == all[i + 1]);
            assert(kept[j] == all[j + 1]);
        }
    }
}

/// Pushes change neither the device nor the capacity of a history.
pub proof fn lemma_push_all_keeps_identity(history: HistoryView, readings: Seq<GpuMetrics>)
    ensures
        history.push_all(readings).gpu_id == history.gpu_id,
        history.push_all(readings).max_samples == history.max_samples,
    decreases readings.len(),
{
    if readings.len() > 0 {
        lemma_push_all_keeps_identity(history, readings.drop_last());
    }
}

/// After any number of pushes a well-formed history holds the latest
/// `max_samples` of what it held and what was pushed, in the order of
/// arrival.
pub proof fn lemma_push_all_keeps_latest(history: HistoryView, readings: Seq<GpuMetrics>)
    requires
        history.wf(),
    ensures
        history.push_all(readings).samples == latest(
            history.samples + readings,
            history.max_samples,
        ),
        history.push_all(readings).gpu_id == history.gpu_id,
        history.push_all(readings).max_samples == history.max_samples,
        history.push_all(readings).wf(),
    decreases readings.len(),
{
    let n = history.max_samples;
    if readings.len() == 0 {
        assert(history.samples + readings =~= history.samples);
    } else {
        let earlier = readings.drop_last();
        lemma_push_all_keeps_latest(history, earlier);
        let before = history.push_all(earlier).samples;
        assert((history.samples + earlier).push(readings.last()) =~= history.samples + readings);
        assert(latest(before.push(readings.last()), n) =~= latest(history.samples + readings, n));
    }
}

/// Rolling history of one device: at most `max_samples` readings, oldest first.
#[derive(Clone, Debug)]
pub struct GpuMetricsHistory {
    pub gpu_id: u32,
    pub samples: Vec<GpuMetrics>,
    pub max_samples: usize,
}

impl View for GpuMetricsHistory {
    type V = HistoryView;

    open spec fn view(&self) -> HistoryView {
        HistoryView {
            gpu_id: self.gpu_id,
            samples: self.samples@,
            max_samples: self.max_samples as nat,
        }
    }
}

impl GpuMetricsHistory {
    /// An empty history for device `gpu_id` that keeps the latest
    /// `max_samples` readings.
    pub fn new(gpu_id: u32, max_samples: usize) -> (h: GpuMetricsHistory)
        ensures
            h@ == HistoryView::empty(gpu_id, max_samples as nat),
            h@.wf(),
    {
        GpuMetricsHistory { gpu_id, samples: Vec::new(), max_samples }
    }

    /// Appends `metrics`, evicting the oldest reading first when the history
    /// is full.
    pub fn push(&mut self, metrics: GpuMetrics)
        ensures
            final(self)@ == old(self)@.push(metrics),
            final(self)@.wf(),
    {
        if self.max_samples == 0 {
            self.samples.clear();
            assert(self.samples@ =~= latest(old(self).samples@.push(metrics), 0));
            return;
        }
        let ghost before = self.samples@;
        let ghost mut dropped: nat = 0;
        while self.samples.len() >= self.max_samples
            invariant
                self.max_samples == old(self).max_samples,
                self.gpu_id == old(self).gpu_id,
                self.max_samples > 0,
                before == old(self).samples@,
                dropped <= before.len(),
                self.samples@ == before.skip(dropped as int),
                dropped == 0 || dropped + self.max_samples <= before.len() + 1,
            decreases self.samples.len(),
        {
            self.samples.remove(0);
            proof {
                dropped = dropped + 1;
            }
        }
        self.samples.push(metrics);
        assert(self.samples@ =~= latest(before.push(metrics), self.max_samples as nat));
    }
}

} // verus!
