use prometheus_ping::store::{MeasurementStore, TargetRecord, SAMPLES};

#[test]
fn new_record_is_zero_valued() {
    let r = TargetRecord::new();
    assert_eq!(r.send_counter, 0);
    assert_eq!(r.recv_counter, 0);
    assert_eq!(r.in_flight, 0);
    assert_eq!(r.latencies.len(), 0);
}

#[test]
fn record_send_counts_and_marks_in_flight() {
    let mut r = TargetRecord::new();
    r.record_send();
    assert_eq!(r.send_counter, 1);
    assert_eq!(r.recv_counter, 0);
    assert_eq!(r.in_flight, 1);
    r.record_send();
    assert_eq!(r.send_counter, 2);
    assert_eq!(r.in_flight, 1);
}

#[test]
fn record_recv_counts_and_clears_in_flight() {
    let mut r = TargetRecord::new();
    r.record_send();
    r.record_recv(1_000, 42);
    assert_eq!(r.send_counter, 1);
    assert_eq!(r.recv_counter, 1);
    assert_eq!(r.in_flight, 0);
    assert_eq!(r.latencies.len(), 1);
    assert_eq!(r.latencies[0].observed_at, 1_000);
    assert_eq!(r.latencies[0].rtt_nanos, 42);
}

#[test]
fn history_is_newest_first() {
    let mut r = TargetRecord::new();
    r.record_recv(10, 1);
    r.record_recv(20, 2);
    r.record_recv(30, 3);
    assert_eq!(r.latencies.len(), 3);
    assert_eq!(r.latencies[0].rtt_nanos, 3);
    assert_eq!(r.latencies[1].rtt_nanos, 2);
    assert_eq!(r.latencies[2].rtt_nanos, 1);
}

#[test]
fn capacity_evicts_the_oldest_sample() {
    // Inserting 31 samples into an empty history leaves exactly 30,
    // with the very first inserted sample evicted.
    let mut r = TargetRecord::new();
    for k in 0..31u64 {
        r.record_recv(k, k);
    }
    assert_eq!(r.latencies.len(), SAMPLES);
    assert_eq!(SAMPLES, 30);
    // Newest first: the 31st inserted sample leads ...
    assert_eq!(r.latencies[0].rtt_nanos, 30);
    // ... and the oldest retained one is the 2nd inserted; the 1st
    // (rtt marker 0) is gone.
    assert_eq!(r.latencies[29].rtt_nanos, 1);
    assert!(r.latencies.iter().all(|s| s.rtt_nanos != 0));
}

#[test]
fn store_starts_with_one_zero_record_per_target() {
    let s = MeasurementStore::new(3);
    assert_eq!(s.records.len(), 3);
    for r in &s.records {
        assert_eq!(r.send_counter, 0);
        assert_eq!(r.recv_counter, 0);
        assert_eq!(r.in_flight, 0);
        assert_eq!(r.latencies.len(), 0);
    }
}
