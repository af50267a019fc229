//! Measurement store: one record per configured target, holding the
//! send/receive counters, the 0/1 in-flight flag, and a bounded
//! newest-first latency history. The caller guards the whole store with
//! one lock; the library states what each update does to the records.

use vstd::prelude::*;

verus! {

/// Capacity of a target's latency history: at most this many samples
/// are retained, newest first.
pub const SAMPLES: usize = 30;

/// One latency observation: the instant it was recorded and the
/// measured round-trip time, both in nanoseconds.
#[derive(Clone, Copy, PartialEq, Eq, Structural, Debug)]
pub struct LatencySample {
    /// Nanoseconds since the epoch at which the reply was recorded.
    pub observed_at: u64,
    /// Measured round-trip time, in nanoseconds.
    pub rtt_nanos: u64,
}

/// A latency history after pushing `s` at the front of `h`: when `h` is
/// at capacity, the oldest (last) entry is evicted first.
pub open spec fn pushed_front(h: Seq<LatencySample>, s: LatencySample) -> Seq<LatencySample> {
    if h.len() < SAMPLES {
        seq![s] + h
    } else {
        seq![s] + h.take(SAMPLES - 1)
    }
}

/// Per-target measurement state, owned by the measurement store.
#[derive(Debug)]
pub struct TargetRecord {
    /// Incremented once per probe sent to this target.
    pub send_counter: u64,
    /// Incremented once per matched reply received from this target.
    pub recv_counter: u64,
    /// 1 when a probe was sent since the last matched reply, else 0:
    /// an approximation of "the most recent probe is still
    /// outstanding", not a count of outstanding probes.
    pub in_flight: u64,
    /// Bounded latency history, newest first.
    pub latencies: Vec<LatencySample>,
}

impl TargetRecord {
    /// Structural well-formedness: the flag is 0 or 1 and the history
    /// never exceeds its capacity.
    pub open spec fn wf(self) -> bool {
        self.in_flight <= 1 && self.latencies@.len() <= SAMPLES
    }

    /// Counter consistency: every counted reply, and the one possibly
    /// outstanding probe, is covered by a counted send. This is what
    /// keeps the derived loss estimate non-negative.
    pub open spec fn counters_consistent(self) -> bool {
        self.recv_counter + self.in_flight <= self.send_counter
    }

    /// The zero-valued record every target starts with.
    pub fn new() -> (r: TargetRecord)
        ensures
            r.send_counter == 0,
            r.recv_counter == 0,
            r.in_flight == 0,
            r.latencies@ == Seq::<LatencySample>::empty(),
    {
        TargetRecord { send_counter: 0, recv_counter: 0, in_flight: 0, latencies: Vec::new() }
    }

    /// A probe went out to this target: count it and mark the newest
    /// probe outstanding. Nothing else changes.
    pub fn record_send(&mut self)
        requires
            old(self).send_counter < u64::MAX,
        ensures
            final(self).send_counter == old(self).send_counter + 1,
            final(self).recv_counter == old(self).recv_counter,
            final(self).in_flight == 1,
            final(self).latencies@ == old(self).latencies@,
            old(self).counters_consistent() ==> final(self).counters_consistent(),
            old(self).wf() ==> final(self).wf(),
    {
        self.send_counter = self.send_counter + 1;
        self.in_flight = 1;
    }

    /// A matched reply arrived `rtt_nanos` after its probe: count it,
    /// clear the in-flight flag, and push the sample at the front of
    /// the history, evicting the oldest entry if already at capacity.
    pub fn record_recv(&mut self, observed_at: u64, rtt_nanos: u64)
        requires
            old(self).recv_counter < u64::MAX,
            old(self).latencies@.len() <= SAMPLES,
        ensures
            final(self).send_counter == old(self).send_counter,
            final(self).recv_counter == old(self).recv_counter + 1,
            final(self).in_flight == 0,
            final(self).latencies@ == pushed_front(
                old(self).latencies@,
                (LatencySample { observed_at, rtt_nanos }),
            ),
            old(self).counters_consistent() && old(self).in_flight == 1
                ==> final(self).counters_consistent(),
            old(self).wf() ==> final(self).wf(),
    {
        let sample = LatencySample { observed_at, rtt_nanos };
        if self.latencies.len() + 1 > SAMPLES {
            self.latencies.truncate(SAMPLES - 1);
        }
        self.latencies.insert(0, sample);
        self.recv_counter = self.recv_counter + 1;
        self.in_flight = 0;
        proof {
            assert(self.latencies@ =~= pushed_front(old(self).latencies@, sample));
        }
    }
}

/// The shared measurement state: one record per configured target, at
/// the target's index in the configured order. Created once at startup
/// and mutated only under the caller's single store lock.
#[derive(Debug)]
pub struct MeasurementStore {
    pub records: Vec<TargetRecord>,
}

impl MeasurementStore {
    /// Every record is structurally well-formed.
    pub open spec fn wf(self) -> bool {
        forall|i: int| 0 <= i < self.records@.len() ==> (#[trigger] self.records@[i]).wf()
    }

    /// Every record's counters are consistent.
    pub open spec fn counters_consistent(self) -> bool {
        forall|i: int|
            0 <= i < self.records@.len() ==> (#[trigger] self.records@[i]).counters_consistent()
    }

    /// One zero-valued record per configured target.
    pub fn new(n: usize) -> (s: MeasurementStore)
        ensures
            s.records@.len() == n,
            forall|i: int|
                0 <= i < n ==> {
                    let r = #[trigger] s.records@[i];
                    r.send_counter == 0 && r.recv_counter == 0 && r.in_flight == 0
                        && r.latencies@.len() == 0
                },
            s.wf(),
            s.counters_consistent(),
    {
        let mut records: Vec<TargetRecord> = Vec::new();
        while records.len() < n
            invariant
                records@.len() <= n,
                forall|i: int|
                    0 <= i < records@.len() ==> {
                        let r = #[trigger] records@[i];
                        r.send_counter == 0 && r.recv_counter == 0 && r.in_flight == 0
                            && r.latencies@.len() == 0
                    },
            decreases n - records@.len(),
        {
            records.push(TargetRecord::new());
        }
        MeasurementStore { records }
    }
}

/// One scheduler-visible event on a single target's record: the prober
/// counted a probe, or the receiver recorded a matched reply.
pub enum ProbeEvent {
    Send,
    MatchedRecv,
}

/// Abstract counter state of one record, as the interleaving model
/// tracks it.
pub struct Counters {
    pub send: nat,
    pub recv: nat,
    pub in_flight: nat,
}

/// How one event changes the abstract counters: exactly what
/// `record_send` and `record_recv` do to the executable record.
pub open spec fn counters_step(c: Counters, e: ProbeEvent) -> Counters {
    match e {
        ProbeEvent::Send => Counters { send: c.send + 1, recv: c.recv, in_flight: 1 },
        ProbeEvent::MatchedRecv => Counters { send: c.send, recv: c.recv + 1, in_flight: 0 },
    }
}

/// The counters reached from the zero-valued record after a trace of
/// interleaved prober and receiver events.
pub open spec fn counters_run(tr: Seq<ProbeEvent>) -> Counters
    decreases tr.len(),
{
    if tr.len() == 0 {
        Counters { send: 0, recv: 0, in_flight: 0 }
    } else {
        counters_step(counters_run(tr.drop_last()), tr.last())
    }
}

/// The abstract counters of a record, as the interleaving model sees
/// them.
pub open spec fn abstract_counters(rec: TargetRecord) -> Counters {
    Counters {
        send: rec.send_counter as nat,
        recv: rec.recv_counter as nat,
        in_flight: rec.in_flight as nat,
    }
}

/// `record_send` implements the model's send step: any pre/post pair
/// related as its contract states is one `counters_step` on the
/// abstract counters.
pub proof fn lemma_record_send_is_step(pre: TargetRecord, post: TargetRecord)
    requires
        post.send_counter == pre.send_counter + 1,
        post.recv_counter == pre.recv_counter,
        post.in_flight == 1,
    ensures
        abstract_counters(post) == counters_step(abstract_counters(pre), ProbeEvent::Send),
{
}

/// `record_recv` implements the model's receive step in the same way.
pub proof fn lemma_record_recv_is_step(pre: TargetRecord, post: TargetRecord)
    requires
        post.send_counter == pre.send_counter,
        post.recv_counter == pre.recv_counter + 1,
        post.in_flight == 0,
    ensures
        abstract_counters(post) == counters_step(abstract_counters(pre), ProbeEvent::MatchedRecv),
{
}

/// A trace is matched when every receive event consumes an outstanding
/// probe: the receiver records a reply only for a probe it saw go out,
/// so at each receive the in-flight flag is still set.
pub open spec fn matched_trace(tr: Seq<ProbeEvent>) -> bool {
    forall|i: int|
        0 <= i < tr.len() && #[trigger] tr[i] is MatchedRecv ==> counters_run(
            tr.take(i),
        ).in_flight == 1
}

/// Law: under any interleaving of prober sends and matched receives,
/// the counters stay consistent — the receive counter plus the
/// in-flight flag never exceeds the send counter, so the derived loss
/// value is never negative, and the flag stays 0 or 1.
pub proof fn lemma_matched_interleaving_consistent(tr: Seq<ProbeEvent>)
    requires
        matched_trace(tr),
    ensures
        counters_run(tr).in_flight <= 1,
        counters_run(tr).recv + counters_run(tr).in_flight <= counters_run(tr).send,
    decreases tr.len(),
{
    if tr.len() > 0 {
        let pre = tr.drop_last();
        assert(matched_trace(pre)) by {
            assert forall|i: int|
                0 <= i < pre.len() && #[trigger] pre[i] is MatchedRecv implies counters_run(
                pre.take(i),
            ).in_flight == 1 by {
                assert(tr[i] is MatchedRecv);
                assert(pre.take(i) =~= tr.take(i));
            }
        }
        lemma_matched_interleaving_consistent(pre);
        if tr.last() is MatchedRecv {
            assert(tr[tr.len() - 1] is MatchedRecv);
            assert(tr.take(tr.len() - 1) =~= pre);
        }
    }
}

} // verus!
