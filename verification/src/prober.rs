//! Prober: on a fixed cadence it stamps and sends one probe to every
//! configured target in turn. The socket send is outside the library
//! (a failed send still counts: the probe is presumed lost); this is
//! the store side of one cycle, performed under the store lock held
//! for the whole iteration.

use vstd::prelude::*;
use crate::store::MeasurementStore;

verus! {

/// One prober cycle over the whole store: every target's send counter
/// grows by one and its newest probe is marked outstanding; receive
/// counters and latency histories are untouched.
pub fn prober_cycle(store: &mut MeasurementStore)
    requires
        forall|i: int|
            0 <= i < old(store).records@.len() ==> (#[trigger] old(
                store).records@[i]).send_counter < u64::MAX,
    ensures
        final(store).records@.len() == old(store).records@.len(),
        forall|i: int|
            0 <= i < old(store).records@.len() ==> {
                let pre = old(store).records@[i];
                let post = #[trigger] final(store).records@[i];
                post.send_counter == pre.send_counter + 1 && post.recv_counter == pre.recv_counter
                    && post.in_flight == 1 && post.latencies@ == pre.latencies@ && (
                pre.counters_consistent() ==> post.counters_consistent()) && (pre.wf()
                    ==> post.wf())
            },
{
    let n = store.records.len();
    let mut i: usize = 0;
    while i < n
        invariant
            n == store.records@.len(),
            n == old(store).records@.len(),
            0 <= i <= n,
            forall|j: int|
                0 <= j < n ==> (#[trigger] old(store).records@[j]).send_counter < u64::MAX,
            forall|j: int| i <= j < n ==> store.records@[j] == old(store).records@[j],
            forall|j: int|
                0 <= j < i ==> {
                    let pre = old(store).records@[j];
                    let post = #[trigger] store.records@[j];
                    post.send_counter == pre.send_counter + 1 && post.recv_counter
                        == pre.recv_counter && post.in_flight == 1 && post.latencies@
                        == pre.latencies@ && (pre.counters_consistent()
                        ==> post.counters_consistent()) && (pre.wf() ==> post.wf())
                },
        decreases n - i,
    {
        let mut rec = store.records.remove(i);
        rec.record_send();
        store.records.insert(i, rec);
        i = i + 1;
    }
}

} // verus!
