//! Metrics collector: on each pull, and under one store lock
//! acquisition, it derives per target a loss estimate from the raw
//! counters and an average round-trip time over the most recent window
//! of the latency history. The exposition transport is outside the
//! library; it receives these plain values.

use vstd::prelude::*;
use crate::store::{LatencySample, TargetRecord, MeasurementStore};

verus! {

/// Width of the latency window: samples observed within the last 30
/// seconds count toward the average.
pub const WINDOW_NANOS: u64 = 30_000_000_000;

/// A sample is fresh at instant `now` when it is no older than the
/// window.
pub open spec fn in_window(s: LatencySample, now: u64) -> bool {
    s.observed_at + WINDOW_NANOS >= now
}

/// How many of the newest samples the average uses at instant `now`:
/// the history is kept newest first, so the walk stops at the first
/// stale sample (a valid early-exit bound).
pub open spec fn window_len(h: Seq<LatencySample>, now: u64) -> nat
    decreases h.len(),
{
    if h.len() == 0 {
        0
    } else if !in_window(h[0], now) {
        0
    } else {
        1 + window_len(h.drop_first(), now)
    }
}

/// Total round-trip time over a sample sequence, in nanoseconds.
pub open spec fn sum_rtt(h: Seq<LatencySample>) -> nat
    decreases h.len(),
{
    if h.len() == 0 {
        0
    } else {
        sum_rtt(h.drop_last()) + h.last().rtt_nanos as nat
    }
}

/// What the collector reports as the windowed average at instant `now`:
/// nothing when no sample is fresh (no stale value is reported), else
/// the mean round-trip time, in whole nanoseconds, of the fresh
/// newest-first prefix of the history.
pub open spec fn spec_average_latency(h: Seq<LatencySample>, now: u64) -> Option<u64> {
    let n = window_len(h, now);
    if n == 0 {
        None
    } else {
        Some((sum_rtt(h.take(n as int)) / n) as u64)
    }
}

/// Extending a prefix sum by one sample.
proof fn lemma_sum_rtt_take_succ(h: Seq<LatencySample>, i: int)
    requires
        0 <= i < h.len(),
    ensures
        sum_rtt(h.take(i + 1)) == sum_rtt(h.take(i)) + h[i].rtt_nanos,
{
    assert(h.take(i + 1).drop_last() =~= h.take(i));
    assert(h.take(i + 1).last() == h[i]);
}

/// The stopping point of the early-exit walk is exactly `window_len`.
proof fn lemma_window_len_at(h: Seq<LatencySample>, now: u64, i: int)
    requires
        0 <= i <= h.len(),
        forall|j: int| 0 <= j < i ==> in_window(#[trigger] h[j], now),
        i < h.len() ==> !in_window(h[i], now),
    ensures
        window_len(h, now) == i,
    decreases i,
{
    if i == 0 {
    } else {
        assert(in_window(h[0], now));
        assert forall|j: int| 0 <= j < i - 1 implies in_window(
            #[trigger] h.drop_first()[j],
            now,
        ) by {
            assert(h.drop_first()[j] == h[j + 1]);
        }
        if i - 1 < h.drop_first().len() {
            assert(h.drop_first()[i - 1] == h[i]);
        }
        lemma_window_len_at(h.drop_first(), now, i - 1);
    }
}

/// The loss estimate for one target: probes sent, minus replies
/// received, minus the one possibly still-outstanding probe — so the
/// most recent probe is counted neither lost nor successful while its
/// reply may still arrive.
pub fn loss(rec: &TargetRecord) -> (l: u64)
    requires
        rec.counters_consistent(),
    ensures
        l == rec.send_counter - rec.recv_counter - rec.in_flight,
{
    rec.send_counter - rec.recv_counter - rec.in_flight
}

/// The windowed statistics at instant `now`: the total and the count of
/// the fresh newest-first prefix of the history.
pub fn window_stats(h: &Vec<LatencySample>, now: u64) -> (r: (u128, usize))
    ensures
        r.1 == window_len(h@, now),
        r.0 == sum_rtt(h@.take(r.1 as int)),
        r.0 <= (r.1 as nat) * (u64::MAX as nat),
{
    let mut sum: u128 = 0;
    let mut i: usize = 0;
    loop
        invariant_except_break
            0 <= i <= h@.len(),
            forall|j: int| 0 <= j < i ==> in_window(#[trigger] h@[j], now),
            sum == sum_rtt(h@.take(i as int)),
            sum <= (i as nat) * (u64::MAX as nat),
        ensures
            i == window_len(h@, now),
            sum == sum_rtt(h@.take(i as int)),
            sum <= (i as nat) * (u64::MAX as nat),
        decreases h@.len() - i,
    {
        if i >= h.len() {
            proof {
                lemma_window_len_at(h@, now, i as int);
            }
            break;
        }
        let s = h[i];
        if (s.observed_at as u128) + (WINDOW_NANOS as u128) < (now as u128) {
            proof {
                lemma_window_len_at(h@, now, i as int);
            }
            break;
        }
        proof {
            lemma_sum_rtt_take_succ(h@, i as int);
            assert(sum + s.rtt_nanos <= ((i + 1) as nat) * (u64::MAX as nat));
            assert(((i + 1) as nat) * (u64::MAX as nat) <= u128::MAX);
        }
        sum = sum + (s.rtt_nanos as u128);
        i = i + 1;
    }
    (sum, i)
}

/// The windowed average round-trip time at instant `now`, in whole
/// nanoseconds; `None` when no sample is fresh.
pub fn average_latency(h: &Vec<LatencySample>, now: u64) -> (r: Option<u64>)
    ensures
        r == spec_average_latency(h@, now),
{
    let (sum, count) = window_stats(h, now);
    if count == 0 {
        None
    } else {
        let avg = sum / (count as u128);
        proof {
            assert(avg <= u64::MAX as u128) by (nonlinear_arith)
                requires
                    sum <= (count as nat) * (u64::MAX as nat),
                    count >= 1,
                    avg == sum / (count as u128),
            ;
        }
        Some(avg as u64)
    }
}

/// What the collector derives for one target on a pull.
#[derive(Clone, Copy, PartialEq, Eq, Debug)]
pub struct TargetMetrics {
    /// Estimated lost probes: sends neither answered nor outstanding.
    pub loss: u64,
    /// Windowed average round-trip time, in whole nanoseconds; `None`
    /// when no fresh sample exists.
    pub avg_rtt_nanos: Option<u64>,
}

/// One pull of the collector at instant `now`: a consistent snapshot of
/// every target's loss estimate and windowed average, index-aligned
/// with the store's records. The caller holds the store lock for the
/// whole pull, so the snapshot is internally consistent.
pub fn collect_metrics(store: &MeasurementStore, now: u64) -> (out: Vec<TargetMetrics>)
    requires
        store.counters_consistent(),
    ensures
        out@.len() == store.records@.len(),
        forall|i: int|
            0 <= i < out@.len() ==> {
                let rec = store.records@[i];
                let m = #[trigger] out@[i];
                m.loss == rec.send_counter - rec.recv_counter - rec.in_flight && m.avg_rtt_nanos
                    == spec_average_latency(rec.latencies@, now)
            },
{
    let mut out: Vec<TargetMetrics> = Vec::new();
    let n = store.records.len();
    let mut i: usize = 0;
    while i < n
        invariant
            n == store.records@.len(),
            store.counters_consistent(),
            0 <= i <= n,
            out@.len() == i,
            forall|j: int|
                0 <= j < i ==> {
                    let rec = store.records@[j];
                    let m = #[trigger] out@[j];
                    m.loss == rec.send_counter - rec.recv_counter - rec.in_flight
                        && m.avg_rtt_nanos == spec_average_latency(rec.latencies@, now)
                },
        decreases n - i,
    {
        let l = loss(&store.records[i]);
        let a = average_latency(&store.records[i].latencies, now);
        out.push(TargetMetrics { loss: l, avg_rtt_nanos: a });
        i = i + 1;
    }
    out
}

} // verus!
