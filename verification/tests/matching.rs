use prometheus_ping::codec::encode_timestamp;
use prometheus_ping::receiver::process_reply;
use prometheus_ping::store::MeasurementStore;
use prometheus_ping::targets::{find_target, Endpoint};

fn ep(ip: u128, port: u16) -> Endpoint {
    Endpoint { is_v6: false, ip, port }
}

#[test]
fn find_target_returns_first_match() {
    let targets = vec![ep(1, 5000), ep(2, 5000), ep(2, 5000)];
    assert_eq!(find_target(&targets, ep(1, 5000)), Some(0));
    assert_eq!(find_target(&targets, ep(2, 5000)), Some(1));
    assert_eq!(find_target(&targets, ep(3, 5000)), None);
    // The port and address family both take part in the match.
    assert_eq!(find_target(&targets, ep(1, 5001)), None);
    assert_eq!(find_target(&targets, Endpoint { is_v6: true, ip: 1, port: 5000 }), None);
}

#[test]
fn unknown_sender_is_discarded_without_mutation() {
    let targets = vec![ep(1, 5000), ep(2, 5000)];
    let mut store = MeasurementStore::new(2);
    store.records[0].record_send();
    store.records[1].record_send();
    let packet = encode_timestamp(0, 100);
    let r = process_reply(&mut store, &targets, ep(9, 5000), &packet, 1_000);
    assert_eq!(r, None);
    for rec in &store.records {
        assert_eq!(rec.send_counter, 1);
        assert_eq!(rec.recv_counter, 0);
        assert_eq!(rec.in_flight, 1);
        assert_eq!(rec.latencies.len(), 0);
    }
}

#[test]
fn wrong_length_is_discarded_without_mutation() {
    let targets = vec![ep(1, 5000)];
    let mut store = MeasurementStore::new(1);
    store.records[0].record_send();
    let short = vec![0u8; 7];
    let long = vec![0u8; 9];
    assert_eq!(process_reply(&mut store, &targets, ep(1, 5000), &short, 1_000), None);
    assert_eq!(process_reply(&mut store, &targets, ep(1, 5000), &long, 1_000), None);
    assert_eq!(store.records[0].send_counter, 1);
    assert_eq!(store.records[0].recv_counter, 0);
    assert_eq!(store.records[0].in_flight, 1);
    assert_eq!(store.records[0].latencies.len(), 0);
}

#[test]
fn matched_reply_is_recorded_with_its_elapsed_time() {
    let targets = vec![ep(1, 5000), ep(2, 5000)];
    let mut store = MeasurementStore::new(2);
    store.records[0].record_send();
    store.records[1].record_send();
    // Captured at 3s + 500ns, received 700ns later.
    let packet = encode_timestamp(3, 500);
    let now: u64 = 3_000_000_500 + 700;
    let r = process_reply(&mut store, &targets, ep(2, 5000), &packet, now);
    assert_eq!(r, Some(1));
    let rec = &store.records[1];
    assert_eq!(rec.recv_counter, 1);
    assert_eq!(rec.in_flight, 0);
    assert_eq!(rec.latencies.len(), 1);
    assert_eq!(rec.latencies[0].observed_at, now);
    assert_eq!(rec.latencies[0].rtt_nanos, 700);
    // The other target is untouched.
    assert_eq!(store.records[0].recv_counter, 0);
    assert_eq!(store.records[0].in_flight, 1);
}
