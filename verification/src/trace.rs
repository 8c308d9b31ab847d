use vstd::prelude::*;
use crate::payload::PingPongPayload;
use crate::persistence_agent::{spec_raw_line, spec_stamps};
use crate::text::{spec_decimal, spec_digit, spec_digits};

verus! {

/// What a trace line says of a payload: its index and its four timestamps.
#[derive(Debug, Clone, Copy, PartialEq, Eq)]
pub struct TraceRecord {
    pub id: u64,
    pub t0: u64,
    pub t1: u64,
    pub t2: u64,
    pub t3: u64,
}

/// The record of a payload.
pub open spec fn record_of(p: PingPongPayload) -> TraceRecord {
    TraceRecord { id: p.id, t0: p.ts[0], t1: p.ts[1], t2: p.ts[2], t3: p.ts[3] }
}

/// Whether a byte is a decimal digit.
pub open spec fn spec_is_digit(c: u8) -> bool {
    48 <= c <= 57
}

/// The value of a run of decimal digits, most significant first.
pub open spec fn spec_decimal_value(digits: Seq<u8>) -> nat
    decreases digits.len(),
{
    if digits.len() == 0 {
        0
    } else {
        spec_decimal_value(digits.drop_last()) * 10 + (digits.last() - 48) as nat
    }
}

/// The number of decimal digits at the start of the text.
pub open spec fn spec_digit_run(s: Seq<u8>) -> int
    decreases s.len(),
{
    if s.len() == 0 || !spec_is_digit(s[0]) {
        0
    } else {
        1 + spec_digit_run(s.subrange(1, s.len() as int))
    }
}

/// The number that starts at `from`, with the place behind it: the
/// longest run of digits there, where it is not empty and its value fits.
pub open spec fn spec_parse_number(s: Seq<u8>, from: int) -> Option<(u64, int)> {
    let run = spec_digit_run(s.subrange(from, s.len() as int));
    let value = spec_decimal_value(s.subrange(from, from + run));
    if run == 0 || value > u64::MAX {
        None
    } else {
        Some((value as u64, from + run))
    }
}

/// The number that starts at `from` and is followed by the byte `stop`,
/// with the place behind that byte.
pub open spec fn spec_parse_field(s: Seq<u8>, from: int, stop: u8) -> Option<(u64, int)> {
    match spec_parse_number(s, from) {
        Some((v, end)) => if end < s.len() && s[end] == stop {
            Some((v, end + 1))
        } else {
            None
        },
        None => None,
    }
}

/// The trace line that starts at `from`, with the place behind it: five
/// numbers, each followed by a blank and the last by a line feed.
pub open spec fn spec_parse_line(s: Seq<u8>, from: int) -> Option<(TraceRecord, int)> {
    match spec_parse_field(s, from, 32) {
        Some((id, a)) => match spec_parse_field(s, a, 32) {
            Some((t0, b)) => match spec_parse_field(s, b, 32) {
                Some((t1, c)) => match spec_parse_field(s, c, 32) {
                    Some((t2, d)) => match spec_parse_field(s, d, 10) {
                        Some((t3, e)) => Some((TraceRecord { id, t0, t1, t2, t3 }, e)),
                        None => None,
                    },
                    None => None,
                },
                None => None,
            },
            None => None,
        },
        None => None,
    }
}

proof fn lemma_digit_run(s: Seq<u8>, n: int)
    requires
        0 <= n <= s.len(),
        forall|k: int| 0 <= k < n ==> spec_is_digit(s[k]),
        n == s.len() || !spec_is_digit(s[n]),
    ensures
        spec_digit_run(s) == n,
    decreases n,
{
    if n > 0 {
        let rest = s.subrange(1, s.len() as int);
        assert forall|k: int| 0 <= k < n - 1 implies spec_is_digit(rest[k]) by {
            assert(rest[k] == s[k + 1]);
        }
        lemma_digit_run(rest, n - 1);
    }
}

/// The decimal digits of a number are digits, at least one, and their
/// value is the number.
pub proof fn lemma_decimal_value(v: nat)
    ensures
        spec_digits(v, 10).len() >= 1,
        forall|k: int| 0 <= k < spec_digits(v, 10).len() ==> spec_is_digit(spec_digits(v, 10)[k]),
        spec_decimal_value(spec_digits(v, 10)) == v,
    decreases v,
{
    let d = spec_digits(v, 10);
    if v < 10 {
        assert(d =~= seq![spec_digit(v)]);
        assert(d.drop_last() =~= Seq::<u8>::empty());
        assert(spec_decimal_value(d.drop_last()) == 0);
    } else {
        lemma_decimal_value(v / 10);
        let high = spec_digits(v / 10, 10);
        assert(d =~= high.push(spec_digit(v % 10)));
        assert(d.drop_last() =~= high);
        assert(d.last() == spec_digit(v % 10));
    }
}

/// A number that was written in decimal between other text, and is not
/// followed by a digit, is read back as written.
pub proof fn lemma_parse_written(pre: Seq<u8>, v: u64, post: Seq<u8>, stop: u8)
    requires
        post.len() > 0,
        post[0] == stop,
        !spec_is_digit(stop),
    ensures
        spec_parse_field(pre + spec_decimal(v) + post, pre.len() as int, stop) == Some(
            (v, (pre.len() + spec_decimal(v).len() + 1) as int),
        ),
{
    let d = spec_decimal(v);
    let s = pre + d + post;
    let from = pre.len() as int;
    lemma_decimal_value(v as nat);
    let tail = s.subrange(from, s.len() as int);
    assert(tail =~= d + post);
    assert forall|k: int| 0 <= k < d.len() implies spec_is_digit(tail[k]) by {
        assert(tail[k] == d[k]);
    }
    assert(tail[d.len() as int] == post[0]);
    lemma_digit_run(tail, d.len() as int);
    assert(s.subrange(from, from + d.len()) =~= d);
    assert(s[from + d.len()] == post[0]);
}

proof fn lemma_parse_step(pre: Seq<u8>, v: u64, stop: u8, rest: Seq<u8>)
    requires
        !spec_is_digit(stop),
    ensures
        spec_parse_field(pre + (spec_decimal(v) + (seq![stop] + rest)), pre.len() as int, stop)
            == Some((v, (pre.len() + spec_decimal(v).len() + 1) as int)),
        pre + (spec_decimal(v) + (seq![stop] + rest)) == (pre + spec_decimal(v) + seq![stop])
            + rest,
        (pre + spec_decimal(v) + seq![stop]).len() == pre.len() + spec_decimal(v).len() + 1,
{
    let d = spec_decimal(v);
    let post = seq![stop] + rest;
    lemma_parse_written(pre, v, post, stop);
    assert(pre + (d + post) =~= pre + d + post);
    assert(pre + (d + post) =~= (pre + d + seq![stop]) + rest);
}

proof fn lemma_line_nested(pre: Seq<u8>, p: PingPongPayload, post: Seq<u8>)
    ensures
        pre + spec_raw_line(p) + post == pre + (spec_decimal(p.id) + (seq![32u8] + (spec_decimal(
            p.ts[0],
        ) + (seq![32u8] + (spec_decimal(p.ts[1]) + (seq![32u8] + (spec_decimal(p.ts[2]) + (seq![
            32u8,
        ] + (spec_decimal(p.ts[3]) + (seq![10u8] + post)))))))))),
        spec_raw_line(p).len() == spec_decimal(p.id).len() + spec_decimal(p.ts[0]).len()
            + spec_decimal(p.ts[1]).len() + spec_decimal(p.ts[2]).len() + spec_decimal(
            p.ts[3],
        ).len() + 5,
{
    let blank = seq![32u8];
    let t3f = spec_decimal(p.ts[3]) + (seq![10u8] + post);
    let t2f = spec_decimal(p.ts[2]) + (blank + t3f);
    let t1f = spec_decimal(p.ts[1]) + (blank + t2f);
    let t0f = spec_decimal(p.ts[0]) + (blank + t1f);
    let stamps = spec_stamps(p, 10);
    assert(stamps + (seq![10u8] + post) =~= t0f);
    assert(pre + spec_raw_line(p) + post =~= pre + (spec_decimal(p.id) + (blank + (stamps + (
        seq![10u8] + post)))));
}

/// A trace line that was written for a payload, behind any text and in
/// front of any text, is read back as the record of that payload, and
/// the place behind it is the end of the line.
pub proof fn lemma_parse_raw_line(pre: Seq<u8>, p: PingPongPayload, post: Seq<u8>)
    ensures
        spec_parse_line(pre + spec_raw_line(p) + post, pre.len() as int) == Some(
            (record_of(p), (pre.len() + spec_raw_line(p).len()) as int),
        ),
{
    let blank = seq![32u8];
    let s = pre + spec_raw_line(p) + post;
    let r4 = post;
    let r3 = spec_decimal(p.ts[3]) + (seq![10u8] + r4);
    let r2 = spec_decimal(p.ts[2]) + (blank + r3);
    let r1 = spec_decimal(p.ts[1]) + (blank + r2);
    let r0 = spec_decimal(p.ts[0]) + (blank + r1);
    lemma_line_nested(pre, p, post);
    lemma_parse_step(pre, p.id, 32, r0);
    let pre1 = pre + spec_decimal(p.id) + blank;
    lemma_parse_step(pre1, p.ts[0], 32, r1);
    let pre2 = pre1 + spec_decimal(p.ts[0]) + blank;
    lemma_parse_step(pre2, p.ts[1], 32, r2);
    let pre3 = pre2 + spec_decimal(p.ts[1]) + blank;
    lemma_parse_step(pre3, p.ts[2], 32, r3);
    let pre4 = pre3 + spec_decimal(p.ts[2]) + blank;
    lemma_parse_step(pre4, p.ts[3], 10, r4);
    assert(s == pre + (spec_decimal(p.id) + (blank + r0)));
    assert(s == pre1 + r0);
    assert(s == pre2 + r1);
    assert(s == pre3 + r2);
    assert(s == pre4 + r3);
    let a = pre1.len() as int;
    let b = pre2.len() as int;
    let c = pre3.len() as int;
    let d = pre4.len() as int;
    assert(spec_parse_field(s, pre.len() as int, 32) == Some((p.id, a)));
    assert(spec_parse_field(s, a, 32) == Some((p.ts[0], b)));
    assert(spec_parse_field(s, b, 32) == Some((p.ts[1], c)));
    assert(spec_parse_field(s, c, 32) == Some((p.ts[2], d)));
    assert(spec_parse_field(s, d, 10) == Some(
        (p.ts[3], d + spec_decimal(p.ts[3]).len() + 1),
    ));
}

/// The number that starts at `from`, with the place behind it.
pub fn parse_number(text: &[u8], from: usize) -> (r: Option<(u64, usize)>)
    requires
        from <= text@.len(),
    ensures
        match r {
            Some((v, end)) => spec_parse_number(text@, from as int) == Some((v, end as int))
                && from < end <= text@.len(),
            None => spec_parse_number(text@, from as int).is_none(),
        },
{
    let n: usize = text.len();
    let ghost tail = text@.subrange(from as int, n as int);
    let mut value: u64 = 0;
    let mut overflow: bool = false;
    let mut i: usize = from;
    while i < n && 48 <= text[i] && text[i] <= 57
        invariant
            from <= i <= n == text@.len(),
            forall|k: int| from <= k < i ==> spec_is_digit(text@[k]),
            !overflow ==> spec_decimal_value(text@.subrange(from as int, i as int)) == value,
            overflow ==> spec_decimal_value(text@.subrange(from as int, i as int)) > u64::MAX,
        decreases n - i,
    {
        let d: u64 = (text[i] - 48) as u64;
        proof {
            let seen = text@.subrange(from as int, i + 1);
            assert(seen.drop_last() =~= text@.subrange(from as int, i as int));
            assert(seen.last() == text@[i as int]);
        }
        if !overflow {
            if value > (u64::MAX - d) / 10 {
                overflow = true;
            } else {
                value = value * 10 + d;
            }
        }
        i += 1;
    }
    proof {
        assert forall|k: int| 0 <= k < i - from implies spec_is_digit(tail[k]) by {
            assert(tail[k] == text@[from + k]);
        }
        lemma_digit_run(tail, i - from);
    }
    if i == from || overflow {
        None
    } else {
        Some((value, i))
    }
}

/// The number that starts at `from` and is followed by `stop`, with the
/// place behind that byte.
pub fn parse_field(text: &[u8], from: usize, stop: u8) -> (r: Option<(u64, usize)>)
    requires
        from <= text@.len(),
    ensures
        match r {
            Some((v, end)) => spec_parse_field(text@, from as int, stop) == Some((v, end as int))
                && from < end <= text@.len(),
            None => spec_parse_field(text@, from as int, stop).is_none(),
        },
{
    match parse_number(text, from) {
        Some((v, end)) => {
            if end < text.len() && text[end] == stop {
                Some((v, end + 1))
            } else {
                None
            }
        },
        None => None,
    }
}

/// The trace line that starts at `from`, with the place behind it.
pub fn parse_raw_line(text: &[u8], from: usize) -> (r: Option<(TraceRecord, usize)>)
    requires
        from <= text@.len(),
    ensures
        match r {
            Some((rec, end)) => spec_parse_line(text@, from as int) == Some((rec, end as int))
                && from < end <= text@.len(),
            None => spec_parse_line(text@, from as int).is_none(),
        },
{
    let first = parse_field(text, from, 32);
    if first.is_none() {
        return None;
    }
    let (id, a) = first.unwrap();
    let second = parse_field(text, a, 32);
    if second.is_none() {
        return None;
    }
    let (t0, b) = second.unwrap();
    let third = parse_field(text, b, 32);
    if third.is_none() {
        return None;
    }
    let (t1, c) = third.unwrap();
    let fourth = parse_field(text, c, 32);
    if fourth.is_none() {
        return None;
    }
    let (t2, d) = fourth.unwrap();
    let fifth = parse_field(text, d, 10);
    if fifth.is_none() {
        return None;
    }
    let (t3, e) = fifth.unwrap();
    Some((TraceRecord { id, t0, t1, t2, t3 }, e))
}

/// The trace of a run of payloads: their lines, in order.
pub open spec fn spec_raw_trace(ps: Seq<PingPongPayload>) -> Seq<u8>
    decreases ps.len(),
{
    if ps.len() == 0 {
        Seq::empty()
    } else {
        spec_raw_line(ps[0]) + spec_raw_trace(ps.subrange(1, ps.len() as int))
    }
}

/// The records of a run of payloads, in order.
pub open spec fn records_of(ps: Seq<PingPongPayload>) -> Seq<TraceRecord> {
    Seq::new(ps.len(), |i: int| record_of(ps[i]))
}

/// The records of the trace lines from `from` to the end of the text,
/// where the text is trace lines and nothing else.
pub open spec fn spec_parse_trace(s: Seq<u8>, from: int) -> Option<Seq<TraceRecord>>
    decreases s.len() - from,
{
    if from >= s.len() {
        Some(Seq::empty())
    } else {
        match spec_parse_line(s, from) {
            Some((rec, end)) => if end > from {
                match spec_parse_trace(s, end) {
                    Some(rest) => Some(seq![rec] + rest),
                    None => None,
                }
            } else {
                None
            },
            None => None,
        }
    }
}

/// The trace that was written for a run of payloads is read back as the
/// records of these payloads, in order.
pub proof fn lemma_parse_raw_trace(pre: Seq<u8>, ps: Seq<PingPongPayload>)
    ensures
        spec_parse_trace(pre + spec_raw_trace(ps), pre.len() as int) == Some(records_of(ps)),
    decreases ps.len(),
{
    let s = pre + spec_raw_trace(ps);
    if ps.len() == 0 {
        assert(records_of(ps) =~= Seq::<TraceRecord>::empty());
    } else {
        let line = spec_raw_line(ps[0]);
        let rest = ps.subrange(1, ps.len() as int);
        let tail = spec_raw_trace(rest);
        lemma_parse_raw_line(pre, ps[0], tail);
        lemma_line_nested(pre, ps[0], tail);
        assert(s =~= pre + line + tail);
        lemma_parse_raw_trace(pre + line, rest);
        assert(records_of(ps) =~= seq![record_of(ps[0])] + records_of(rest));
    }
}

/// The records of a text that is trace lines and nothing else.
pub fn parse_raw_trace(text: &[u8]) -> (r: Option<Vec<TraceRecord>>)
    ensures
        match r {
            Some(records) => spec_parse_trace(text@, 0) == Some(records@),
            None => spec_parse_trace(text@, 0).is_none(),
        },
{
    let n: usize = text.len();
    let mut records: Vec<TraceRecord> = Vec::new();
    let mut pos: usize = 0;
    while pos < n
        invariant
            pos <= n == text@.len(),
            spec_parse_trace(text@, 0) == match spec_parse_trace(text@, pos as int) {
                Some(rest) => Some(records@ + rest),
                None => None,
            },
        decreases n - pos,
    {
        match parse_raw_line(text, pos) {
            Some((rec, end)) => {
                proof {
                    let before = records@;
                    match spec_parse_trace(text@, end as int) {
                        Some(rest) => {
                            assert(before + (seq![rec] + rest) =~= before.push(rec) + rest);
                        },
                        None => {},
                    }
                }
                records.push(rec);
                pos = end;
            },
            None => {
                return None;
            },
        }
    }
    assert(records@ + Seq::<TraceRecord>::empty() =~= records@);
    Some(records)
}

} // verus!
