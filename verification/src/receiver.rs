//! Receiver: handed an incoming datagram by the socket, it silently
//! discards anything that is not an 8-byte payload from a configured
//! target, and otherwise records the matched reply — count it, clear
//! the in-flight flag, and push the measured round-trip time into the
//! target's bounded latency history.

use vstd::prelude::*;
use crate::codec::{WIRE_LEN, wire_instant_nanos, decode_elapsed};
use crate::store::{MeasurementStore, LatencySample, pushed_front, SAMPLES};
use crate::targets::{Endpoint, find_target};

verus! {

/// One receiver step at instant `now` (nanoseconds since the epoch),
/// for a datagram `packet` received from `src`. Returns the matched
/// target's index, or `None` when the datagram was discarded: a wrong
/// length or an unknown sender leaves the store untouched. The protocol
/// assumes synchronized clocks, so a matched payload never denotes a
/// capture instant in the future.
pub fn process_reply(
    store: &mut MeasurementStore,
    targets: &Vec<Endpoint>,
    src: Endpoint,
    packet: &Vec<u8>,
    now: u64,
) -> (r: Option<usize>)
    requires
        old(store).records@.len() == targets@.len(),
        forall|i: int|
            0 <= i < old(store).records@.len() ==> {
                let rec = #[trigger] old(store).records@[i];
                rec.recv_counter < u64::MAX && rec.latencies@.len() <= SAMPLES
            },
        (packet@.len() == WIRE_LEN && (exists|j: int|
            0 <= j < targets@.len() && targets@[j] == src)) ==> wire_instant_nanos(packet@) <= now,
    ensures
        match r {
            None => *final(store) == *old(store) && (packet@.len() != WIRE_LEN || (forall|j: int|
                0 <= j < targets@.len() ==> targets@[j] != src)),
            Some(i) => {
                &&& packet@.len() == WIRE_LEN
                &&& 0 <= i < targets@.len()
                &&& targets@[i as int] == src
                &&& forall|j: int| 0 <= j < i ==> targets@[j] != src
                &&& final(store).records@.len() == old(store).records@.len()
                &&& forall|j: int|
                    0 <= j < targets@.len() && j != i ==> final(store).records@[j] == old(
                        store).records@[j]
                &&& {
                    let pre = old(store).records@[i as int];
                    let post = final(store).records@[i as int];
                    &&& post.send_counter == pre.send_counter
                    &&& post.recv_counter == pre.recv_counter + 1
                    &&& post.in_flight == 0
                    &&& post.latencies@ == pushed_front(
                        pre.latencies@,
                        (LatencySample {
                            observed_at: now,
                            rtt_nanos: (now - wire_instant_nanos(packet@)) as u64,
                        }),
                    )
                    &&& pre.counters_consistent() && pre.in_flight == 1
                        ==> post.counters_consistent()
                    &&& pre.wf() ==> post.wf()
                }
            },
        },
{
    if packet.len() != WIRE_LEN {
        return None;
    }
    match find_target(targets, src) {
        None => None,
        Some(i) => {
            let rtt = decode_elapsed(packet, now);
            let mut rec = store.records.remove(i);
            rec.record_recv(now, rtt);
            store.records.insert(i, rec);
            Some(i)
        },
    }
}

} // verus!
