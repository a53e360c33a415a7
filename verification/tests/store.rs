use gpu_telemetry::gpu::device::GpuInfo;
use gpu_telemetry::gpu::metrics::GpuMetrics;
use gpu_telemetry::gpu::store::HistoryStore;

fn stored_device(id: u32) -> GpuInfo {
    GpuInfo {
        id,
        name: format!("GPU {}", id),
        vendor: "Unknown".to_string(),
        driver_version: "1".to_string(),
        memory_total_mb: 0,
        cuda_cores: None,
        compute_capability: None,
    }
}

fn sample_at(timestamp: u64) -> GpuMetrics {
    GpuMetrics { timestamp, ..GpuMetrics::default() }
}

fn timestamps(store: &HistoryStore, gpu_id: u32) -> Vec<u64> {
    store.history(gpu_id).unwrap().samples.iter().map(|m| m.timestamp).collect()
}

#[test]
fn new_store_holds_nothing() {
    let store = HistoryStore::new();
    assert!(store.histories.is_empty());
    assert!(store.history(0).is_none());
    assert_eq!(store.find(0), None);
}

#[test]
fn a_device_that_is_followed_gets_an_empty_history() {
    let mut store = HistoryStore::new();
    store.track(4, 16);
    let history = store.history(4).unwrap();
    assert_eq!(history.gpu_id, 4);
    assert_eq!(history.max_samples, 16);
    assert!(history.samples.is_empty());
    assert_eq!(store.find(4), Some(0));
    assert!(store.history(5).is_none());
}

#[test]
fn following_a_device_again_keeps_its_history() {
    let mut store = HistoryStore::new();
    store.track(1, 3);
    assert!(store.record(1, sample_at(10)));
    store.track(1, 99);
    assert_eq!(store.histories.len(), 1);
    assert_eq!(store.history(1).unwrap().max_samples, 3);
    assert_eq!(timestamps(&store, 1), vec![10]);
}

#[test]
fn every_detected_device_is_followed_once() {
    let mut store = HistoryStore::new();
    store.track_all(&vec![stored_device(0), stored_device(3), stored_device(0), stored_device(7)], 120);
    let ids: Vec<u32> = store.histories.iter().map(|h| h.gpu_id).collect();
    assert_eq!(ids, vec![0, 3, 7]);
    for history in &store.histories {
        assert_eq!(history.max_samples, 120);
        assert!(history.samples.is_empty());
    }
}

#[test]
fn a_reading_goes_to_the_history_of_its_device_only() {
    let mut store = HistoryStore::new();
    store.track_all(&vec![stored_device(0), stored_device(1)], 2);
    assert!(store.record(1, sample_at(5)));
    assert!(store.record(0, sample_at(6)));
    assert!(store.record(1, sample_at(7)));
    assert!(store.record(1, sample_at(8)));
    assert_eq!(timestamps(&store, 0), vec![6]);
    assert_eq!(timestamps(&store, 1), vec![7, 8]);
}

#[test]
fn a_reading_of_an_unknown_device_is_dropped() {
    let mut store = HistoryStore::new();
    store.track(0, 4);
    assert!(!store.record(9, sample_at(1)));
    assert_eq!(store.histories.len(), 1);
    assert!(store.history(0).unwrap().samples.is_empty());
    assert!(store.history(9).is_none());
}

#[test]
fn the_first_history_of_a_device_is_the_one_found() {
    let mut store = HistoryStore::new();
    store.track(2, 4);
    store.track(5, 4);
    store.histories.push(gpu_telemetry::gpu::history::GpuMetricsHistory::new(5, 1));
    assert_eq!(store.find(5), Some(1));
    assert!(store.record(5, sample_at(3)));
    assert_eq!(store.histories[1].samples.len(), 1);
    assert!(store.histories[2].samples.is_empty());
}
