use vstd::prelude::*;
use crate::buckets::{
    bucket_ranges, bucket_slot, spec_axis_max, spec_bucket_slot, spec_rel_min, TOTAL_BUCKETS,
};
use crate::payload::{spec_latency, PingPongPayload, PINGPONG_MAGIC};
use crate::persistence_agent::PersistenceAgent;

verus! {

/// Axes of a histogram: the four relative ones, one per timestamp, and
/// the absolute one.
pub const AXES: usize = 5;

/// Number of the absolute axis.
pub const ABS_AXIS: usize = 4;

/// One value per axis: the counts of one bucket, or the extremes of a run.
#[derive(Debug, Clone, Copy, PartialEq, Eq)]
pub struct Bucket {
    pub rel_latency: [u64; 4],
    pub abs_latency: u64,
}

impl Bucket {
    /// The value on axis `a`.
    pub open spec fn axis(self, a: int) -> u64 {
        if 0 <= a < 4 {
            self.rel_latency[a]
        } else {
            self.abs_latency
        }
    }

    /// A bucket that holds `v` on every axis.
    pub fn filled(v: u64) -> (b: Bucket)
        ensures
            forall|a: int| 0 <= a < AXES ==> b.axis(a) == v,
    {
        Bucket { rel_latency: [v;4], abs_latency: v }
    }

    /// The value on axis `a`.
    pub fn get_axis(&self, a: usize) -> (v: u64)
        requires
            a < AXES,
        ensures
            v == self.axis(a as int),
    {
        if a < 4 {
            self.rel_latency[a]
        } else {
            self.abs_latency
        }
    }

    /// Stores `v` on axis `a` and leaves the other axes as they are.
    pub fn set_axis(&mut self, a: usize, v: u64)
        requires
            a < AXES,
        ensures
            final(self).axis(a as int) == v,
            forall|b: int| 0 <= b < AXES && b != a ==> final(self).axis(b) == old(self).axis(b),
    {
        if a < 4 {
            self.rel_latency[a] = v;
        } else {
            self.abs_latency = v;
        }
    }
}

/// Why a payload was not counted.
#[derive(Debug, Clone, Copy, PartialEq, Eq)]
pub enum WriteError {
    /// The payload's sentinel is not the well-known one.
    InvalidPayload,
    /// One of the payload's timestamps is earlier than its predecessor's.
    NotMonotonic,
}

/// Some timestamp of `p` is earlier than the same timestamp of its predecessor.
pub open spec fn regressed(prev: Option<PingPongPayload>, p: PingPongPayload) -> bool {
    match prev {
        Some(q) => p.ts[0] < q.ts[0] || p.ts[1] < q.ts[1] || p.ts[2] < q.ts[2] || p.ts[3]
            < q.ts[3],
        None => false,
    }
}

/// Whether a histogram counts `p` when `prev` came before it.
pub open spec fn counted(prev: Option<PingPongPayload>, p: PingPongPayload) -> bool {
    p.magic == PINGPONG_MAGIC && !regressed(prev, p)
}

/// What writing `p` after `prev` reports.
pub open spec fn spec_write_result(prev: Option<PingPongPayload>, p: PingPongPayload) -> Result<
    (),
    WriteError,
> {
    if p.magic != PINGPONG_MAGIC {
        Err(WriteError::InvalidPayload)
    } else if regressed(prev, p) {
        Err(WriteError::NotMonotonic)
    } else {
        Ok(())
    }
}

/// The value that `p` contributes to axis `a`, if any: on a relative
/// axis the time since the same timestamp of the predecessor, and nothing
/// for a payload without predecessor; on the absolute axis the payload's
/// latency.
pub open spec fn sample(prev: Option<PingPongPayload>, p: PingPongPayload, a: int) -> Option<u64> {
    if 0 <= a < 4 {
        match prev {
            Some(q) => Some((p.ts[a] - q.ts[a]) as u64),
            None => None,
        }
    } else {
        Some(spec_latency(p))
    }
}

/// Lower end of axis `a` for a send interval.
pub open spec fn axis_min(interval: u64, a: int) -> u64 {
    if 0 <= a < 4 {
        spec_rel_min(interval) as u64
    } else {
        0
    }
}

/// Slot of axis `a` that counts `p` when `prev` came before it, if `p`
/// contributes to that axis.
pub open spec fn axis_slot(
    interval: u64,
    prev: Option<PingPongPayload>,
    p: PingPongPayload,
    a: int,
) -> Option<int> {
    match sample(prev, p, a) {
        Some(v) => Some(
            spec_bucket_slot(v, axis_min(interval, a), spec_axis_max(interval) as u64),
        ),
        None => None,
    }
}

/// The smaller of a value and a sample, the value where there is no sample.
pub open spec fn lowered(x: u64, sample: Option<u64>) -> u64 {
    match sample {
        Some(v) => spec_min(x, v),
        None => x,
    }
}

/// The larger of a value and a sample, the value where there is no sample.
pub open spec fn raised(x: u64, sample: Option<u64>) -> u64 {
    match sample {
        Some(v) => spec_max(x, v),
        None => x,
    }
}

/// The smaller of two values.
pub open spec fn spec_min(x: u64, y: u64) -> u64 {
    if y < x {
        y
    } else {
        x
    }
}

/// The larger of two values.
pub open spec fn spec_max(x: u64, y: u64) -> u64 {
    if y > x {
        y
    } else {
        x
    }
}

/// What a histogram reducer knows after a run of payloads: how many it
/// saw, the last one, and per axis the extremes and the count of every slot.
#[verifier::ext_equal]
pub struct Histogram {
    pub tot: nat,
    pub interval: u64,
    pub prev: Option<PingPongPayload>,
    pub mins: Seq<u64>,
    pub maxs: Seq<u64>,
    pub counts: Seq<Seq<nat>>,
}

impl Histogram {
    /// The histogram of an empty run, with `prev` as the predecessor of
    /// the first payload to come.
    pub open spec fn seeded(interval: u64, prev: Option<PingPongPayload>) -> Histogram {
        Histogram {
            tot: 0,
            interval,
            prev,
            mins: Seq::new(AXES as nat, |a: int| u64::MAX),
            maxs: Seq::new(AXES as nat, |a: int| 0u64),
            counts: Seq::new(TOTAL_BUCKETS as nat, |k: int| Seq::new(AXES as nat, |a: int| 0nat)),
        }
    }

    /// The histogram of an empty run.
    pub open spec fn empty(interval: u64) -> Histogram {
        Histogram::seeded(interval, None)
    }

    /// The histogram after one more payload. Every payload is seen and
    /// becomes the predecessor of the next; one that is valid and not
    /// earlier than its predecessor in any timestamp is also counted: once
    /// on the absolute axis, and once on every relative axis where it has
    /// a predecessor. A payload without predecessor leaves the relative
    /// counts and extremes as they were.
    pub open spec fn step(self, p: PingPongPayload) -> Histogram {
        if counted(self.prev, p) {
            Histogram {
                tot: self.tot + 1,
                interval: self.interval,
                prev: Some(p),
                mins: Seq::new(
                    AXES as nat,
                    |a: int| lowered(self.mins[a], sample(self.prev, p, a)),
                ),
                maxs: Seq::new(
                    AXES as nat,
                    |a: int| raised(self.maxs[a], sample(self.prev, p, a)),
                ),
                counts: Seq::new(
                    TOTAL_BUCKETS as nat,
                    |k: int|
                        Seq::new(
                            AXES as nat,
                            |a: int|
                                if axis_slot(self.interval, self.prev, p, a) == Some(k) {
                                    self.counts[k][a] + 1
                                } else {
                                    self.counts[k][a]
                                },
                        ),
                ),
            }
        } else {
            Histogram { tot: self.tot + 1, prev: Some(p), ..self }
        }
    }

    /// The histogram has one count per slot and axis.
    pub open spec fn shaped(self) -> bool {
        &&& self.counts.len() == TOTAL_BUCKETS
        &&& forall|k: int| 0 <= k < TOTAL_BUCKETS ==> (#[trigger] self.counts[k]).len() == AXES
    }

    /// The histogram after a run of payloads, in order.
    pub open spec fn run(self, s: Seq<PingPongPayload>) -> Histogram
        decreases s.len(),
    {
        if s.len() == 0 {
            self
        } else {
            self.run(s.drop_last()).step(s.last())
        }
    }
}

/// State of the histogram reducer.
#[derive(Debug, Clone)]
pub struct BucketData {
    pub tot_packets: u64,
    pub send_interval: u64,
    pub min_values: Bucket,
    pub max_values: Bucket,
    pub buckets: Vec<Bucket>,
    pub prev_payload: Option<PingPongPayload>,
}

impl View for BucketData {
    type V = Histogram;

    open spec fn view(&self) -> Histogram {
        Histogram {
            tot: self.tot_packets as nat,
            interval: self.send_interval,
            prev: self.prev_payload,
            mins: Seq::new(AXES as nat, |a: int| self.min_values.axis(a)),
            maxs: Seq::new(AXES as nat, |a: int| self.max_values.axis(a)),
            counts: Seq::new(
                self.buckets@.len(),
                |k: int| Seq::new(AXES as nat, |a: int| self.buckets@[k].axis(a) as nat),
            ),
        }
    }
}

impl BucketData {
    /// The reducer holds one bucket per slot, its send interval leaves room
    /// for the axes, and no slot counts more payloads than were seen.
    pub open spec fn wf(&self) -> bool {
        &&& self.buckets@.len() == TOTAL_BUCKETS
        &&& self.send_interval <= u32::MAX
        &&& forall|k: int, a: int|
            0 <= k < TOTAL_BUCKETS && 0 <= a < AXES ==> (#[trigger] self.buckets@[k].axis(a))
                <= self.tot_packets
    }

    /// Counts `v` on axis `a` of the axis range `[lo, hi]`.
    fn count_sample(&mut self, a: usize, v: u64, lo: u64, hi: u64)
        requires
            a < AXES,
            lo <= hi,
            hi - lo >= crate::buckets::NUM_BUCKETS,
            old(self).buckets@.len() == TOTAL_BUCKETS,
            forall|k: int|
                0 <= k < TOTAL_BUCKETS ==> (#[trigger] old(self).buckets@[k]).axis(a as int)
                    < u64::MAX,
        ensures
            final(self).tot_packets == old(self).tot_packets,
            final(self).send_interval == old(self).send_interval,
            final(self).prev_payload == old(self).prev_payload,
            final(self).buckets@.len() == TOTAL_BUCKETS,
            final(self).min_values.axis(a as int) == spec_min(
                old(self).min_values.axis(a as int),
                v,
            ),
            final(self).max_values.axis(a as int) == spec_max(
                old(self).max_values.axis(a as int),
                v,
            ),
            forall|b: int|
                0 <= b < AXES && b != a ==> final(self).min_values.axis(b) == old(
                    self
                ).min_values.axis(b) && final(self).max_values.axis(b) == old(
                    self
                ).max_values.axis(b),
            forall|k: int, b: int|
                0 <= k < TOTAL_BUCKETS && 0 <= b < AXES ==> (#[trigger] final(
                    self
                ).buckets@[k].axis(b)) == if b == a && k == spec_bucket_slot(v, lo, hi) {
                    old(self).buckets@[k].axis(b) + 1
                } else {
                    old(self).buckets@[k].axis(b) as int
                },
    {
        if v < self.min_values.get_axis(a) {
            self.min_values.set_axis(a, v);
        }
        if v > self.max_values.get_axis(a) {
            self.max_values.set_axis(a, v);
        }
        let slot: usize = bucket_slot(v, lo, hi);
        let mut b: Bucket = self.buckets[slot];
        let n: u64 = b.get_axis(a);
        assert(n == old(self).buckets@[slot as int].axis(a as int));
        b.set_axis(a, n + 1);
        self.buckets.set(slot, b);
    }
}

impl PersistenceAgent {
    /// Takes one payload into the histogram. The payload is seen and
    /// becomes the predecessor of the next one in every case. An invalid
    /// payload, or one with a timestamp earlier than its predecessor's, is
    /// reported and not counted. Any other is counted on the absolute
    /// axis, and on the relative axes where it has a predecessor: no
    /// relative latency is computed for the first payload.
    pub fn write_buckets(bucket_data: &mut BucketData, payload: PingPongPayload) -> (r: Result<
        (),
        WriteError,
    >)
        requires
            old(bucket_data).wf(),
            old(bucket_data).tot_packets < u64::MAX,
        ensures
            final(bucket_data).wf(),
            final(bucket_data)@ == old(bucket_data)@.step(payload),
            r == spec_write_result(old(bucket_data).prev_payload, payload),
    {
        let ghost before = bucket_data@;
        let ghost prev = bucket_data.prev_payload;
        bucket_data.tot_packets += 1;
        if !payload.is_valid() {
            bucket_data.prev_payload = Some(payload);
            assert(bucket_data@ =~~= before.step(payload));
            return Err(WriteError::InvalidPayload);
        }
        let (rel_min, rel_max, abs_min, abs_max) = bucket_ranges(bucket_data.send_interval);
        match bucket_data.prev_payload {
            Some(q) => {
                if payload.ts[0] < q.ts[0] || payload.ts[1] < q.ts[1] || payload.ts[2] < q.ts[2]
                    || payload.ts[3] < q.ts[3] {
                    bucket_data.prev_payload = Some(payload);
                    assert(bucket_data@ =~~= before.step(payload));
                    return Err(WriteError::NotMonotonic);
                }
                bucket_data.count_sample(0, payload.ts[0] - q.ts[0], rel_min, rel_max);
                bucket_data.count_sample(1, payload.ts[1] - q.ts[1], rel_min, rel_max);
                bucket_data.count_sample(2, payload.ts[2] - q.ts[2], rel_min, rel_max);
                bucket_data.count_sample(3, payload.ts[3] - q.ts[3], rel_min, rel_max);
            },
            None => {},
        }
        let abs_latency: u64 = payload.compute_latency();
        bucket_data.count_sample(ABS_AXIS, abs_latency, abs_min, abs_max);
        bucket_data.prev_payload = Some(payload);
        assert(bucket_data@ =~~= before.step(payload));
        Ok(())
    }
}

/// A histogram reducer that has seen nothing yet.
pub fn persistence_init_buckets(init_aux: u32) -> (data: BucketData)
    ensures
        data.wf(),
        data@ == Histogram::empty(init_aux as u64),
{
    let mut buckets: Vec<Bucket> = Vec::new();
    let mut i: usize = 0;
    while i < TOTAL_BUCKETS
        invariant
            i <= TOTAL_BUCKETS,
            buckets@.len() == i,
            forall|k: int, a: int|
                0 <= k < i && 0 <= a < AXES ==> (#[trigger] buckets@[k].axis(a)) == 0,
        decreases TOTAL_BUCKETS - i,
    {
        buckets.push(Bucket::filled(0));
        i += 1;
    }
    let data = BucketData {
        tot_packets: 0,
        send_interval: init_aux as u64,
        min_values: Bucket::filled(u64::MAX),
        max_values: Bucket::filled(0),
        buckets,
        prev_payload: None,
    };
    assert(data@ =~~= Histogram::empty(init_aux as u64));
    data
}

/// A run of payloads can be reduced in two parts: the second part starts
/// from the histogram that the first part left.
pub proof fn lemma_run_concat(h: Histogram, s1: Seq<PingPongPayload>, s2: Seq<PingPongPayload>)
    ensures
        h.run(s1 + s2) == h.run(s1).run(s2),
    decreases s2.len(),
{
    if s2.len() == 0 {
        assert(s1 + s2 =~= s1);
    } else {
        assert((s1 + s2).drop_last() =~= s1 + s2.drop_last());
        assert((s1 + s2).last() == s2.last());
        lemma_run_concat(h, s1, s2.drop_last());
    }
}

/// Two histograms with the same send interval and the same predecessor
/// grow alike: a run of payloads adds the same to every count of both.
pub proof fn lemma_run_adds_alike(
    h1: Histogram,
    h2: Histogram,
    s: Seq<PingPongPayload>,
    k: int,
    a: int,
)
    requires
        h1.shaped(),
        h2.shaped(),
        h1.prev == h2.prev,
        h1.interval == h2.interval,
        0 <= k < TOTAL_BUCKETS,
        0 <= a < AXES,
    ensures
        h1.run(s).shaped(),
        h2.run(s).shaped(),
        h1.run(s).prev == h2.run(s).prev,
        h1.run(s).interval == h1.interval,
        h2.run(s).interval == h2.interval,
        h1.run(s).counts[k][a] - h1.counts[k][a] == h2.run(s).counts[k][a] - h2.counts[k][a],
        h1.run(s).tot - h1.tot == h2.run(s).tot - h2.tot,
        h1.run(s).tot - h1.tot == s.len(),
        spec_min(h1.run(s).mins[a], h2.mins[a]) == spec_min(h2.run(s).mins[a], h1.mins[a]),
        spec_max(h1.run(s).maxs[a], h2.maxs[a]) == spec_max(h2.run(s).maxs[a], h1.maxs[a]),
    decreases s.len(),
{
    if s.len() > 0 {
        lemma_run_adds_alike(h1, h2, s.drop_last(), k, a);
        let g1 = h1.run(s.drop_last());
        let g2 = h2.run(s.drop_last());
        assert(g1.step(s.last()).shaped());
        assert(g2.step(s.last()).shaped());
    }
}

/// Reducing a run in two parts and merging gives the whole run: its
/// packets seen, its count in every slot of every axis, and its extremes,
/// where the reducer of the second part knows the last payload of the
/// first part as predecessor.
pub proof fn lemma_split_and_merge(
    interval: u64,
    s1: Seq<PingPongPayload>,
    s2: Seq<PingPongPayload>,
    k: int,
    a: int,
)
    requires
        0 <= k < TOTAL_BUCKETS,
        0 <= a < AXES,
    ensures
        ({
            let whole = Histogram::empty(interval).run(s1 + s2);
            let first = Histogram::empty(interval).run(s1);
            let second = Histogram::seeded(interval, first.prev).run(s2);
            &&& whole.counts[k][a] == first.counts[k][a] + second.counts[k][a]
            &&& whole.tot == first.tot + second.tot
            &&& whole.mins[a] == spec_min(first.mins[a], second.mins[a])
            &&& whole.maxs[a] == spec_max(first.maxs[a], second.maxs[a])
        }),
{
    let start = Histogram::empty(interval);
    lemma_run_concat(start, s1, s2);
    lemma_run_adds_alike(start, start, s1, k, a);
    let first = start.run(s1);
    lemma_run_adds_alike(first, Histogram::seeded(interval, first.prev), s2, k, a);
}

/// Every payload of the run is valid, and none has a timestamp earlier
/// than the same timestamp of the payload before it.
pub open spec fn orderly(s: Seq<PingPongPayload>) -> bool {
    &&& forall|i: int| 0 <= i < s.len() ==> (#[trigger] s[i]).magic == PINGPONG_MAGIC
    &&& forall|i: int| 0 < i < s.len() ==> !regressed(Some(s[i - 1]), #[trigger] s[i])
}

/// Slot of the absolute axis that counts `p`.
pub open spec fn abs_slot(interval: u64, p: PingPongPayload) -> int {
    spec_bucket_slot(spec_latency(p), 0, spec_axis_max(interval) as u64)
}

/// The payloads of a run whose latency falls into slot `k` of the absolute axis.
pub open spec fn abs_count(interval: u64, s: Seq<PingPongPayload>, k: int) -> nat
    decreases s.len(),
{
    if s.len() == 0 {
        0
    } else {
        abs_count(interval, s.drop_last(), k) + if abs_slot(interval, s.last()) == k {
            1nat
        } else {
            0nat
        }
    }
}

/// The smallest latency of a run, `u64::MAX` for an empty run.
pub open spec fn abs_lowest(s: Seq<PingPongPayload>) -> u64
    decreases s.len(),
{
    if s.len() == 0 {
        u64::MAX
    } else {
        spec_min(abs_lowest(s.drop_last()), spec_latency(s.last()))
    }
}

/// The largest latency of a run, 0 for an empty run.
pub open spec fn abs_highest(s: Seq<PingPongPayload>) -> u64
    decreases s.len(),
{
    if s.len() == 0 {
        0
    } else {
        spec_max(abs_highest(s.drop_last()), spec_latency(s.last()))
    }
}

/// A fresh reducer counts every payload of an orderly run on the
/// absolute axis: the count of a slot is the number of payloads whose
/// latency falls into it, and the extremes are those of the run.
pub proof fn lemma_orderly_run(interval: u64, s: Seq<PingPongPayload>, k: int)
    requires
        orderly(s),
        0 <= k < TOTAL_BUCKETS,
    ensures
        ({
            let h = Histogram::empty(interval).run(s);
            &&& h.shaped()
            &&& h.interval == interval
            &&& h.tot == s.len()
            &&& h.prev == (if s.len() == 0 {
                None
            } else {
                Some(s.last())
            })
            &&& h.mins.len() == AXES
            &&& h.maxs.len() == AXES
            &&& h.counts[k][4] == abs_count(interval, s, k)
            &&& h.mins[4] == abs_lowest(s)
            &&& h.maxs[4] == abs_highest(s)
        }),
    decreases s.len(),
{
    if s.len() > 0 {
        let head = s.drop_last();
        assert(forall|i: int| 0 <= i < head.len() ==> head[i] == s[i]);
        lemma_orderly_run(interval, head, k);
        let g = Histogram::empty(interval).run(head);
        if head.len() > 0 {
            assert(head.last() == s[s.len() - 2]);
            assert(!regressed(Some(s[s.len() - 2]), s[s.len() - 1]));
        }
        assert(counted(g.prev, s.last()));
    }
}

/// The absolute counts and extremes of a run are those of its two parts
/// taken together.
pub proof fn lemma_abs_of_parts(
    interval: u64,
    s1: Seq<PingPongPayload>,
    s2: Seq<PingPongPayload>,
    k: int,
)
    ensures
        abs_count(interval, s1 + s2, k) == abs_count(interval, s1, k) + abs_count(interval, s2, k),
        abs_lowest(s1 + s2) == spec_min(abs_lowest(s1), abs_lowest(s2)),
        abs_highest(s1 + s2) == spec_max(abs_highest(s1), abs_highest(s2)),
    decreases s2.len(),
{
    if s2.len() == 0 {
        assert(s1 + s2 =~= s1);
    } else {
        assert((s1 + s2).drop_last() =~= s1 + s2.drop_last());
        assert((s1 + s2).last() == s2.last());
        lemma_abs_of_parts(interval, s1, s2.drop_last(), k);
    }
}

/// Reducing an orderly run in two parts, each with a fresh reducer, and
/// merging gives the whole run's packets seen, its count in every slot of
/// the absolute axis, and its absolute extremes.
pub proof fn lemma_split_and_merge_fresh(
    interval: u64,
    s1: Seq<PingPongPayload>,
    s2: Seq<PingPongPayload>,
    k: int,
)
    requires
        orderly(s1 + s2),
        0 <= k < TOTAL_BUCKETS,
    ensures
        ({
            let whole = Histogram::empty(interval).run(s1 + s2);
            let first = Histogram::empty(interval).run(s1);
            let second = Histogram::empty(interval).run(s2);
            &&& whole.tot == first.tot + second.tot
            &&& whole.counts[k][4] == first.counts[k][4] + second.counts[k][4]
            &&& whole.mins[4] == spec_min(first.mins[4], second.mins[4])
            &&& whole.maxs[4] == spec_max(first.maxs[4], second.maxs[4])
        }),
{
    let s = s1 + s2;
    assert forall|i: int| 0 <= i < s1.len() implies (#[trigger] s1[i]).magic
        == PINGPONG_MAGIC by {
        assert(s1[i] == s[i]);
    }
    assert forall|i: int| 0 < i < s1.len() implies !regressed(Some(s1[i - 1]), #[trigger] s1[i]) by {
        assert(s1[i] == s[i] && s1[i - 1] == s[i - 1]);
    }
    assert forall|i: int| 0 <= i < s2.len() implies (#[trigger] s2[i]).magic
        == PINGPONG_MAGIC by {
        assert(s2[i] == s[s1.len() + i]);
    }
    assert forall|i: int| 0 < i < s2.len() implies !regressed(Some(s2[i - 1]), #[trigger] s2[i]) by {
        assert(s2[i] == s[s1.len() + i] && s2[i - 1] == s[s1.len() + i - 1]);
    }
    lemma_orderly_run(interval, s, k);
    lemma_orderly_run(interval, s1, k);
    lemma_orderly_run(interval, s2, k);
    lemma_abs_of_parts(interval, s1, s2, k);
}

/// The first payload of a run has no predecessor: no relative latency is
/// computed for it. It is seen and becomes the predecessor, and the
/// counts and extremes of the relative axes stay those of an empty run.
pub proof fn lemma_first_payload(interval: u64, p: PingPongPayload, a: int, k: int)
    requires
        0 <= a < 4,
        0 <= k < TOTAL_BUCKETS,
    ensures
        Histogram::empty(interval).prev.is_none(),
        sample(Histogram::empty(interval).prev, p, a).is_none(),
        Histogram::empty(interval).step(p).tot == 1,
        Histogram::empty(interval).step(p).prev == Some(p),
        Histogram::empty(interval).step(p).counts[k][a] == 0,
        Histogram::empty(interval).step(p).mins[a] == u64::MAX,
        Histogram::empty(interval).step(p).maxs[a] == 0,
        Histogram::empty(interval).step(p).counts[k][4] == (if p.magic == PINGPONG_MAGIC
            && spec_bucket_slot(spec_latency(p), 0, spec_axis_max(interval) as u64) == k {
            1nat
        } else {
            0nat
        }),
{
}

} // verus!
