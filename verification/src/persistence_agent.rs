use vstd::prelude::*;
use crate::buckets::{bucket_ranges, spec_axis_max, spec_bucket_size, spec_rel_min, NUM_BUCKETS};
use crate::histogram::{
    persistence_init_buckets, spec_write_result, Bucket, BucketData, Histogram, WriteError,
};
use crate::payload::{spec_latency, PingPongPayload};
use crate::text::{push_decimal, push_digits, push_hex, spec_decimal, spec_digits, spec_hex};

verus! {

/// Flag: write to standard output even where a file is named.
pub const PERSISTENCE_F_STDOUT: u32 = 1;

/// Mode: one line per payload with its index and its four timestamps.
pub const PERSISTENCE_M_ALL_TIMESTAMPS: u32 = 4;

/// Mode: the payloads with the smallest and the largest latency.
pub const PERSISTENCE_M_MIN_MAX_LATENCY: u32 = 8;

/// Mode: histograms of the relative and the absolute latency.
pub const PERSISTENCE_M_BUCKETS: u32 = 16;

/// The mode that a measurement's name selects: `all` the full trace,
/// `latency` the extremes, `buckets` the histograms; no other name
/// selects a mode.
pub open spec fn spec_measurament_flag(name: Seq<char>) -> Option<u32> {
    if name == "all"@ {
        Some(PERSISTENCE_M_ALL_TIMESTAMPS)
    } else if name == "latency"@ {
        Some(PERSISTENCE_M_MIN_MAX_LATENCY)
    } else if name == "buckets"@ {
        Some(PERSISTENCE_M_BUCKETS)
    } else {
        None
    }
}

/// The mode flag for the measurement named `m`, or nothing where `m`
/// names no measurement.
pub fn pers_measurament_to_flag(m: &str) -> (flag: Option<u32>)
    ensures
        flag == spec_measurament_flag(m@),
{
    let name = m.to_owned();
    if name == "all".to_owned() {
        Some(PERSISTENCE_M_ALL_TIMESTAMPS)
    } else if name == "latency".to_owned() {
        Some(PERSISTENCE_M_MIN_MAX_LATENCY)
    } else if name == "buckets".to_owned() {
        Some(PERSISTENCE_M_BUCKETS)
    } else {
        None
    }
}

/// The payloads with the smallest and the largest latency seen so far.
#[derive(Debug, Clone, Copy, PartialEq, Eq)]
pub struct MinMaxLatencyData {
    pub min: u64,
    pub max: u64,
    pub min_payload: Option<PingPongPayload>,
    pub max_payload: Option<PingPongPayload>,
}

impl MinMaxLatencyData {
    /// The extremes of an empty run have no witness; after that both have
    /// one, each witness has the latency it stands for, and the minimum is
    /// not above the maximum.
    pub open spec fn wf(self) -> bool {
        &&& self.min_payload.is_some() == self.max_payload.is_some()
        &&& self.min_payload matches Some(w) ==> spec_latency(w) == self.min
        &&& self.max_payload matches Some(w) ==> spec_latency(w) == self.max
        &&& self.min_payload.is_some() ==> self.min <= self.max
    }

    /// The extremes of an empty run.
    pub open spec fn empty() -> MinMaxLatencyData {
        MinMaxLatencyData { min: u64::MAX, max: 0, min_payload: None, max_payload: None }
    }

    /// The extremes after one more payload: the first payload is the
    /// witness of both; after that a latency below the minimum becomes the
    /// minimum, one above the maximum the maximum, each with the payload
    /// as its witness.
    pub open spec fn step(self, p: PingPongPayload) -> MinMaxLatencyData {
        let latency = spec_latency(p);
        let lower = self.min_payload.is_none() || latency < self.min;
        let higher = self.max_payload.is_none() || latency > self.max;
        MinMaxLatencyData {
            min: if lower {
                latency
            } else {
                self.min
            },
            min_payload: if lower {
                Some(p)
            } else {
                self.min_payload
            },
            max: if higher {
                latency
            } else {
                self.max
            },
            max_payload: if higher {
                Some(p)
            } else {
                self.max_payload
            },
        }
    }

    /// The extremes after a run of payloads, in order.
    pub open spec fn run(self, s: Seq<PingPongPayload>) -> MinMaxLatencyData
        decreases s.len(),
    {
        if s.len() == 0 {
            self
        } else {
            self.run(s.drop_last()).step(s.last())
        }
    }
}

/// After a run of at least one payload the extremes are the smallest and
/// the largest latency of the run, and each has a payload of the run with
/// that latency as its witness.
pub proof fn lemma_extremes_of_run(s: Seq<PingPongPayload>)
    requires
        s.len() >= 1,
    ensures
        ({
            let d = MinMaxLatencyData::empty().run(s);
            &&& d.wf()
            &&& d.min <= d.max
            &&& forall|k: int| 0 <= k < s.len() ==> d.min <= spec_latency(#[trigger] s[k]) <= d.max
            &&& exists|i: int| 0 <= i < s.len() && d.min_payload == Some(#[trigger] s[i])
            &&& exists|j: int| 0 <= j < s.len() && d.max_payload == Some(#[trigger] s[j])
        }),
    decreases s.len(),
{
    let d = MinMaxLatencyData::empty().run(s);
    let head = s.drop_last();
    let before = MinMaxLatencyData::empty().run(head);
    let n = s.len() - 1;
    if head.len() == 0 {
        assert(d.min_payload == Some(s[0]));
        assert(d.max_payload == Some(s[0]));
    } else {
        lemma_extremes_of_run(head);
        assert(forall|k: int| 0 <= k < n ==> head[k] == s[k]);
        let i = choose|i: int| 0 <= i < head.len() && before.min_payload == Some(#[trigger] head[i]);
        let j = choose|j: int| 0 <= j < head.len() && before.max_payload == Some(#[trigger] head[j]);
        if d.min_payload == before.min_payload {
            assert(d.min_payload == Some(s[i]));
        } else {
            assert(d.min_payload == Some(s[n]));
        }
        if d.max_payload == before.max_payload {
            assert(d.max_payload == Some(s[j]));
        } else {
            assert(d.max_payload == Some(s[n]));
        }
        assert forall|k: int| 0 <= k < s.len() implies d.min <= spec_latency(#[trigger] s[k])
            <= d.max by {
            if k < n {
                assert(head[k] == s[k]);
            }
        }
    }
}

/// The extremes of an empty run.
pub fn persistence_init_min_max_latency() -> (data: MinMaxLatencyData)
    ensures
        data.wf(),
        data == MinMaxLatencyData::empty(),
{
    MinMaxLatencyData { min: u64::MAX, max: 0, min_payload: None, max_payload: None }
}

/// The four timestamps of `p` in the given base, separated by blanks.
pub open spec fn spec_stamps(p: PingPongPayload, base: nat) -> Seq<u8> {
    spec_digits(p.ts[0] as nat, base) + seq![32u8] + spec_digits(p.ts[1] as nat, base) + seq![
        32u8,
    ] + spec_digits(p.ts[2] as nat, base) + seq![32u8] + spec_digits(p.ts[3] as nat, base)
}

/// A trace line: index and timestamps in decimal, separated by blanks.
pub open spec fn spec_raw_line(p: PingPongPayload) -> Seq<u8> {
    spec_decimal(p.id) + seq![32u8] + spec_stamps(p, 10) + seq![10u8]
}

/// The words between the timestamps and the latency of a witness line.
pub open spec fn latency_opening() -> Seq<u8> {
    seq![32u8, 40u8, 76u8, 65u8, 84u8, 69u8, 78u8, 67u8, 89u8, 32u8]
}

/// The words that end a witness line.
pub open spec fn latency_closing() -> Seq<u8> {
    seq![32u8, 110u8, 115u8, 41u8, 10u8]
}

/// A witness line: `<id>: <t0> <t1> <t2> <t3> (LATENCY <lat> ns)`, every
/// number in upper-case hexadecimal.
pub open spec fn spec_latency_line(p: PingPongPayload, latency: u64) -> Seq<u8> {
    spec_hex(p.id) + seq![58u8, 32u8] + spec_stamps(p, 16) + latency_opening() + spec_hex(
        latency,
    ) + latency_closing()
}

/// A line of five decimal numbers, one per axis.
pub open spec fn spec_values_line(b: Bucket) -> Seq<u8> {
    spec_decimal(b.axis(0)) + seq![32u8] + spec_decimal(b.axis(1)) + seq![32u8] + spec_decimal(
        b.axis(2),
    ) + seq![32u8] + spec_decimal(b.axis(3)) + seq![32u8] + spec_decimal(b.axis(4)) + seq![10u8]
}

/// A line of a three-letter tag and three decimal numbers.
pub open spec fn spec_axis_line(tag: Seq<u8>, min: u64, max: u64, size: u64) -> Seq<u8> {
    tag + seq![32u8] + spec_decimal(min) + seq![32u8] + spec_decimal(max) + seq![32u8]
        + spec_decimal(size) + seq![10u8]
}

/// The lines of the first `n` buckets.
pub open spec fn spec_bucket_lines(buckets: Seq<Bucket>, n: nat) -> Seq<u8>
    decreases n,
{
    if n == 0 {
        Seq::empty()
    } else {
        spec_bucket_lines(buckets, (n - 1) as nat) + spec_values_line(buckets[n - 1])
    }
}

/// The header of a histogram report: `TOT`, `REL`, `ABS`, `MIN` and `MAX` lines.
pub open spec fn spec_buckets_header(d: BucketData) -> Seq<u8> {
    let rel_min = spec_rel_min(d.send_interval) as u64;
    let top = spec_axis_max(d.send_interval) as u64;
    seq![84u8, 79u8, 84u8, 32u8] + spec_decimal(d.tot_packets) + seq![10u8] + spec_axis_line(
        seq![82u8, 69u8, 76u8],
        rel_min,
        top,
        spec_bucket_size(rel_min, top) as u64,
    ) + spec_axis_line(seq![65u8, 66u8, 83u8], 0, top, spec_bucket_size(0, top) as u64) + seq![
        77u8,
        73u8,
        78u8,
        32u8,
    ] + spec_values_line(d.min_values) + seq![77u8, 65u8, 88u8, 32u8] + spec_values_line(
        d.max_values,
    )
}

/// The report of the extremes: the line of the minimum's witness, then
/// the line of the maximum's witness; nothing for an empty run.
pub open spec fn spec_min_max_report(d: MinMaxLatencyData) -> Seq<u8> {
    (match d.min_payload {
        Some(w) => spec_latency_line(w, d.min),
        None => Seq::empty(),
    }) + (match d.max_payload {
        Some(w) => spec_latency_line(w, d.max),
        None => Seq::empty(),
    })
}

/// The histogram report: the header, then one line per bucket.
pub open spec fn spec_buckets_report(d: BucketData) -> Seq<u8> {
    spec_buckets_header(d) + spec_bucket_lines(d.buckets@, d.buckets@.len())
}

/// Appends a blank.
fn push_blank(out: &mut Vec<u8>)
    ensures
        final(out)@ == old(out)@ + seq![32u8],
{
    out.push(32);
    assert(final(out)@ =~= old(out)@ + seq![32u8]);
}

/// Appends a line feed.
fn push_newline(out: &mut Vec<u8>)
    ensures
        final(out)@ == old(out)@ + seq![10u8],
{
    out.push(10);
    assert(final(out)@ =~= old(out)@ + seq![10u8]);
}

/// Appends a three-letter tag.
fn push_tag(out: &mut Vec<u8>, a: u8, b: u8, c: u8)
    ensures
        final(out)@ == old(out)@ + seq![a, b, c],
{
    out.push(a);
    out.push(b);
    out.push(c);
    assert(final(out)@ =~= old(out)@ + seq![a, b, c]);
}

/// Appends the four timestamps of `p` in the given base.
fn push_stamps(out: &mut Vec<u8>, p: &PingPongPayload, base: u64)
    requires
        2 <= base <= 16,
    ensures
        final(out)@ == old(out)@ + spec_stamps(*p, base as nat),
{
    push_digits(out, p.ts[0], base);
    push_blank(out);
    push_digits(out, p.ts[1], base);
    push_blank(out);
    push_digits(out, p.ts[2], base);
    push_blank(out);
    push_digits(out, p.ts[3], base);
    assert(final(out)@ =~= old(out)@ + spec_stamps(*p, base as nat));
}

/// Appends the trace line of `p`.
pub fn push_raw_line(out: &mut Vec<u8>, p: &PingPongPayload)
    ensures
        final(out)@ == old(out)@ + spec_raw_line(*p),
{
    push_decimal(out, p.id);
    push_blank(out);
    push_stamps(out, p, 10);
    push_newline(out);
    assert(final(out)@ =~= old(out)@ + spec_raw_line(*p));
}

/// Appends the words between the timestamps and the latency of a witness line.
fn push_latency_opening(out: &mut Vec<u8>)
    ensures
        final(out)@ == old(out)@ + latency_opening(),
{
    out.push(32);
    out.push(40);
    out.push(76);
    out.push(65);
    out.push(84);
    out.push(69);
    out.push(78);
    out.push(67);
    out.push(89);
    out.push(32);
    assert(final(out)@ =~= old(out)@ + latency_opening());
}

/// Appends the words that end a witness line.
fn push_latency_closing(out: &mut Vec<u8>)
    ensures
        final(out)@ == old(out)@ + latency_closing(),
{
    out.push(32);
    out.push(110);
    out.push(115);
    out.push(41);
    out.push(10);
    assert(final(out)@ =~= old(out)@ + latency_closing());
}

/// Appends the witness line of `p` with the latency `latency`.
pub fn push_latency_line(out: &mut Vec<u8>, p: &PingPongPayload, latency: u64)
    ensures
        final(out)@ == old(out)@ + spec_latency_line(*p, latency),
{
    push_hex(out, p.id);
    out.push(58);
    out.push(32);
    assert(out@ =~= old(out)@ + spec_hex(p.id) + seq![58u8, 32u8]);
    push_stamps(out, p, 16);
    push_latency_opening(out);
    push_hex(out, latency);
    push_latency_closing(out);
    assert(final(out)@ =~= old(out)@ + spec_latency_line(*p, latency));
}

/// Appends the five values of `b` as one line.
pub fn push_values_line(out: &mut Vec<u8>, b: &Bucket)
    ensures
        final(out)@ == old(out)@ + spec_values_line(*b),
{
    push_decimal(out, b.get_axis(0));
    push_blank(out);
    push_decimal(out, b.get_axis(1));
    push_blank(out);
    push_decimal(out, b.get_axis(2));
    push_blank(out);
    push_decimal(out, b.get_axis(3));
    push_blank(out);
    push_decimal(out, b.get_axis(4));
    push_newline(out);
    assert(final(out)@ =~= old(out)@ + spec_values_line(*b));
}

/// Appends the line of one axis: its tag, its ends and its bucket size.
fn push_axis_line(out: &mut Vec<u8>, a: u8, b: u8, c: u8, min: u64, max: u64, size: u64)
    ensures
        final(out)@ == old(out)@ + spec_axis_line(seq![a, b, c], min, max, size),
{
    push_tag(out, a, b, c);
    push_blank(out);
    push_decimal(out, min);
    push_blank(out);
    push_decimal(out, max);
    push_blank(out);
    push_decimal(out, size);
    push_newline(out);
    assert(final(out)@ =~= old(out)@ + spec_axis_line(seq![a, b, c], min, max, size));
}

/// The report of the extremes.
pub fn persistence_close_min_max(aux: &MinMaxLatencyData) -> (out: Vec<u8>)
    ensures
        out@ == spec_min_max_report(*aux),
{
    let mut out: Vec<u8> = Vec::new();
    match &aux.min_payload {
        Some(payload) => push_latency_line(&mut out, payload, aux.min),
        None => {},
    }
    match &aux.max_payload {
        Some(payload) => push_latency_line(&mut out, payload, aux.max),
        None => {},
    }
    assert(out@ =~= spec_min_max_report(*aux));
    out
}

/// The histogram report.
pub fn persistence_close_buckets(aux: &BucketData) -> (out: Vec<u8>)
    requires
        aux.wf(),
    ensures
        out@ == spec_buckets_report(*aux),
{
    let (rel_min, rel_max, abs_min, abs_max) = bucket_ranges(aux.send_interval);
    let rel_bucket_size: u64 = (rel_max - rel_min) / NUM_BUCKETS;
    let abs_bucket_size: u64 = (abs_max - abs_min) / NUM_BUCKETS;
    let mut out: Vec<u8> = Vec::new();
    push_tag(&mut out, 84, 79, 84);
    push_blank(&mut out);
    push_decimal(&mut out, aux.tot_packets);
    push_newline(&mut out);
    push_axis_line(&mut out, 82, 69, 76, rel_min, rel_max, rel_bucket_size);
    push_axis_line(&mut out, 65, 66, 83, abs_min, abs_max, abs_bucket_size);
    push_tag(&mut out, 77, 73, 78);
    push_blank(&mut out);
    push_values_line(&mut out, &aux.min_values);
    push_tag(&mut out, 77, 65, 88);
    push_blank(&mut out);
    push_values_line(&mut out, &aux.max_values);
    assert(out@ =~= spec_buckets_header(*aux));
    let mut i: usize = 0;
    while i < aux.buckets.len()
        invariant
            i <= aux.buckets@.len(),
            out@ == spec_buckets_header(*aux) + spec_bucket_lines(aux.buckets@, i as nat),
        decreases aux.buckets@.len() - i,
    {
        push_values_line(&mut out, &aux.buckets[i]);
        i += 1;
        assert(out@ =~= spec_buckets_header(*aux) + spec_bucket_lines(aux.buckets@, i as nat));
    }
    out
}

/// What a reducer keeps between payloads, by mode.
#[derive(Debug, Clone)]
pub enum PData {
    Latency(MinMaxLatencyData),
    Bucket(BucketData),
}

/// The streaming reducer: it takes completed payloads one by one and
/// hands back the text to append to the output, by its mode a trace line
/// per payload, or a report when the run is closed.
#[derive(Debug, Clone)]
pub struct PersistenceAgent {
    pub data: Option<PData>,
    pub flags: u32,
    pub to_stdout: bool,
}

/// Whether the output goes to standard output: where no file is named,
/// and where the flags ask for it.
pub open spec fn spec_to_stdout(has_name: bool, flags: u32) -> bool {
    !has_name || (flags & PERSISTENCE_F_STDOUT) != 0
}

impl PersistenceAgent {
    /// The state of the mode in use is well formed.
    pub open spec fn wf(&self) -> bool {
        match self.data {
            Some(PData::Latency(d)) => d.wf(),
            Some(PData::Bucket(b)) => b.wf(),
            None => true,
        }
    }

    /// The reducer can take one more payload without its counter of
    /// payloads leaving the range of `u64`.
    pub open spec fn spec_has_room(&self) -> bool {
        match self.data {
            Some(PData::Bucket(b)) => b.tot_packets < u64::MAX,
            _ => true,
        }
    }

    /// A reducer in the mode that `flags` select: the extremes where the
    /// min-max flag is set, else the histograms where the buckets flag is
    /// set, with `aux` as the send interval, else the full trace.
    pub fn new(filename: Option<&str>, flags: u32, aux: &u32) -> (agent: PersistenceAgent)
        ensures
            agent.wf(),
            agent.spec_has_room(),
            agent.flags == flags,
            agent.to_stdout == spec_to_stdout(filename.is_some(), flags),
            (flags & PERSISTENCE_M_MIN_MAX_LATENCY) != 0 ==> (agent.data matches Some(
                PData::Latency(d),
            ) && d.min == u64::MAX && d.max == 0 && d.min_payload.is_none()
                && d.max_payload.is_none()),
            (flags & PERSISTENCE_M_MIN_MAX_LATENCY) == 0 && (flags & PERSISTENCE_M_BUCKETS) != 0
                ==> (agent.data matches Some(PData::Bucket(b)) && b@ == Histogram::empty(
                *aux as u64,
            )),
            (flags & PERSISTENCE_M_MIN_MAX_LATENCY) == 0 && (flags & PERSISTENCE_M_BUCKETS) == 0
                ==> agent.data.is_none(),
            flags == PERSISTENCE_M_ALL_TIMESTAMPS ==> agent.data.is_none(),
            flags == PERSISTENCE_M_MIN_MAX_LATENCY ==> agent.data matches Some(PData::Latency(_)),
            flags == PERSISTENCE_M_BUCKETS ==> agent.data matches Some(PData::Bucket(_)),
    {
        assert(4u32 & 8 == 0 && 4u32 & 16 == 0 && 8u32 & 8 != 0 && 16u32 & 8 == 0 && 16u32 & 16
            != 0) by (bit_vector);
        let to_stdout: bool = match filename {
            Some(_) => (flags & PERSISTENCE_F_STDOUT) != 0,
            None => true,
        };
        if (flags & PERSISTENCE_M_MIN_MAX_LATENCY) != 0 {
            let data = persistence_init_min_max_latency();
            PersistenceAgent { data: Some(PData::Latency(data)), flags, to_stdout }
        } else if (flags & PERSISTENCE_M_BUCKETS) != 0 {
            let data = persistence_init_buckets(*aux);
            PersistenceAgent { data: Some(PData::Bucket(data)), flags, to_stdout }
        } else {
            PersistenceAgent { data: None, flags, to_stdout }
        }
    }

    /// Whether the reducer can take one more payload.
    pub fn has_room(&self) -> (room: bool)
        ensures
            room == self.spec_has_room(),
    {
        match &self.data {
            Some(PData::Bucket(b)) => b.tot_packets < u64::MAX,
            _ => true,
        }
    }

    /// Takes one payload into the extremes.
    pub fn write_latency(lat: &mut MinMaxLatencyData, payload: PingPongPayload)
        requires
            old(lat).wf(),
        ensures
            *final(lat) == old(lat).step(payload),
            final(lat).wf(),
    {
        let latency: u64 = payload.compute_latency();
        if lat.min_payload.is_none() || latency < lat.min {
            lat.min = latency;
            lat.min_payload = Some(payload);
        }
        if lat.max_payload.is_none() || latency > lat.max {
            lat.max = latency;
            lat.max_payload = Some(payload);
        }
    }

    /// Takes one payload and returns the text to append to the output
    /// and whether the payload was taken in: in trace mode the payload's
    /// line; in the other modes no text, the extremes or the histograms
    /// are updated instead, and the histograms report a payload that they
    /// do not count.
    pub fn write(&mut self, payload: PingPongPayload) -> (r: (Vec<u8>, Result<(), WriteError>))
        requires
            old(self).wf(),
            old(self).spec_has_room(),
        ensures
            final(self).wf(),
            final(self).flags == old(self).flags,
            final(self).to_stdout == old(self).to_stdout,
            match old(self).data {
                Some(PData::Latency(d)) => r.0@.len() == 0 && r.1.is_ok() && final(self).data
                    == Some(PData::Latency(d.step(payload))),
                Some(PData::Bucket(b)) => r.0@.len() == 0 && r.1 == spec_write_result(
                    b.prev_payload,
                    payload,
                ) && (final(self).data matches Some(PData::Bucket(c)) && c@ == b@.step(payload)),
                None => r.0@ == spec_raw_line(payload) && r.1.is_ok() && final(self).data.is_none(),
            },
    {
        let mut out: Vec<u8> = Vec::new();
        let mut status: Result<(), WriteError> = Ok(());
        match &mut self.data {
            Some(PData::Latency(lat)) => {
                PersistenceAgent::write_latency(lat, payload);
            },
            Some(PData::Bucket(buc)) => {
                status = PersistenceAgent::write_buckets(buc, payload);
            },
            None => {
                push_raw_line(&mut out, &payload);
            },
        }
        (out, status)
    }

    /// The report that ends the run: the witnesses of the extremes, the
    /// histograms, or nothing in trace mode.
    pub fn close(&self) -> (out: Vec<u8>)
        requires
            self.wf(),
        ensures
            out@ == match self.data {
                Some(PData::Latency(d)) => spec_min_max_report(d),
                Some(PData::Bucket(b)) => spec_buckets_report(b),
                None => Seq::empty(),
            },
    {
        match &self.data {
            Some(PData::Latency(d)) => persistence_close_min_max(d),
            Some(PData::Bucket(d)) => persistence_close_buckets(d),
            None => Vec::new(),
        }
    }
}

} // verus!
