use det_bypass::payload::PingPongPayload;
use det_bypass::persistence_agent::PersistenceAgent;
use det_bypass::text::{push_decimal, push_hex};
use det_bypass::trace::{parse_number, parse_raw_line, parse_raw_trace, TraceRecord};

fn decimal(v: u64) -> String {
    let mut out = Vec::new();
    push_decimal(&mut out, v);
    String::from_utf8(out).unwrap()
}

fn hex(v: u64) -> String {
    let mut out = Vec::new();
    push_hex(&mut out, v);
    String::from_utf8(out).unwrap()
}

#[test]
fn numbers_are_written_as_the_formatter_does() {
    for v in [0u64, 1, 9, 10, 99, 100, 255, 256, 4096, 1_000_000, 0xDEADBEEF, u64::MAX - 1, u64::MAX] {
        assert_eq!(decimal(v), format!("{}", v));
        assert_eq!(hex(v), format!("{:X}", v));
    }
}

#[test]
fn number_ends_at_the_first_other_byte() {
    assert_eq!(parse_number(b"123 45", 0), Some((123, 3)));
    assert_eq!(parse_number(b"123 45", 4), Some((45, 6)));
    assert_eq!(parse_number(b"123 45", 3), None);
    assert_eq!(parse_number(b"123 45", 6), None);
    assert_eq!(parse_number(b"007", 0), Some((7, 3)));
    assert_eq!(parse_number(b"18446744073709551615", 0), Some((u64::MAX, 20)));
    assert_eq!(parse_number(b"18446744073709551616", 0), None);
    assert_eq!(parse_number(b"99999999999999999999999", 0), None);
}

#[test]
fn line_is_five_numbers() {
    let rec = TraceRecord { id: 1, t0: 2, t1: 3, t2: 4, t3: 5 };
    assert_eq!(parse_raw_line(b"1 2 3 4 5\n", 0), Some((rec, 10)));
    assert_eq!(parse_raw_line(b"x1 2 3 4 5\nrest", 1), Some((rec, 11)));
    assert_eq!(parse_raw_line(b"1 2 3 4 5", 0), None);
    assert_eq!(parse_raw_line(b"1 2 3 4\n", 0), None);
    assert_eq!(parse_raw_line(b"1  2 3 4 5\n", 0), None);
    assert_eq!(parse_raw_line(b"1 2 3 4 5 \n", 0), None);
    assert_eq!(parse_raw_line(b"1 2 3 -4 5\n", 0), None);
    assert_eq!(parse_raw_line(b"", 0), None);
}

#[test]
fn written_trace_is_read_back() {
    let mut sent = Vec::new();
    for id in 1..=50u64 {
        let mut p = PingPongPayload::new(id);
        p.ts = [id * 1000, id * 1000 + 7, u64::MAX - id, id.wrapping_mul(0x9E3779B97F4A7C15)];
        sent.push(p);
    }
    let mut agent = PersistenceAgent::new(None, 4, &0);
    let mut trace = Vec::new();
    for p in &sent {
        trace.extend(agent.write(*p).0);
    }
    let records = parse_raw_trace(&trace).unwrap();
    assert_eq!(records.len(), sent.len());
    for (r, p) in records.iter().zip(&sent) {
        assert_eq!((r.id, [r.t0, r.t1, r.t2, r.t3]), (p.id, p.ts));
    }
}

#[test]
fn trace_must_be_lines_only() {
    assert_eq!(parse_raw_trace(b""), Some(Vec::new()));
    assert_eq!(parse_raw_trace(b"1 2 3 4 5\n6 7 8 9 10\n").unwrap().len(), 2);
    assert_eq!(parse_raw_trace(b"1 2 3 4 5\n6 7 8 9 10"), None);
    assert_eq!(parse_raw_trace(b"1 2 3 4 5\n\n"), None);
    assert_eq!(parse_raw_trace(b"TOT 5\n"), None);
}
