use det_bypass::histogram::{persistence_init_buckets, BucketData, WriteError};
use det_bypass::payload::PingPongPayload;
use det_bypass::persistence_agent::{
    pers_measurament_to_flag, persistence_close_buckets, persistence_close_min_max,
    persistence_init_min_max_latency, PData, PersistenceAgent, PERSISTENCE_F_STDOUT,
    PERSISTENCE_M_ALL_TIMESTAMPS, PERSISTENCE_M_BUCKETS, PERSISTENCE_M_MIN_MAX_LATENCY,
};

fn stamped(id: u64, ts: [u64; 4]) -> PingPongPayload {
    let mut p = PingPongPayload::new(id);
    p.ts = ts;
    p
}

fn text(bytes: Vec<u8>) -> String {
    String::from_utf8(bytes).unwrap()
}

fn buckets_of(agent: &PersistenceAgent) -> &BucketData {
    match &agent.data {
        Some(PData::Bucket(b)) => b,
        _ => panic!("not in buckets mode"),
    }
}

#[test]
fn measurement_names_select_modes() {
    assert_eq!(pers_measurament_to_flag("all"), Some(PERSISTENCE_M_ALL_TIMESTAMPS));
    assert_eq!(pers_measurament_to_flag("latency"), Some(PERSISTENCE_M_MIN_MAX_LATENCY));
    assert_eq!(pers_measurament_to_flag("buckets"), Some(PERSISTENCE_M_BUCKETS));
    assert_eq!((PERSISTENCE_M_ALL_TIMESTAMPS, PERSISTENCE_M_MIN_MAX_LATENCY), (4, 8));
    assert_eq!(PERSISTENCE_M_BUCKETS, 16);
}

#[test]
fn unknown_measurement_names_select_nothing() {
    for name in ["", "ALL", "bucket", "Latency", "all ", "buckets\n", "raw"] {
        assert_eq!(pers_measurament_to_flag(name), None);
    }
}

#[test]
fn sink_is_stdout_without_a_file_or_on_request() {
    assert!(PersistenceAgent::new(None, 4, &0).to_stdout);
    assert!(!PersistenceAgent::new(Some("out.dat"), 4, &0).to_stdout);
    assert!(PersistenceAgent::new(Some("out.dat"), 4 | PERSISTENCE_F_STDOUT, &0).to_stdout);
}

#[test]
fn raw_mode_emits_one_line_per_payload() {
    let mut agent = PersistenceAgent::new(Some("no-bypass.dat"), pers_measurament_to_flag("all").unwrap(), &0);
    let line = text(agent.write(stamped(1, [10, 20, 30, 40])).0);
    assert_eq!(line, "1 10 20 30 40\n");
    assert!(line.starts_with("1 "));
    let line = text(agent.write(stamped(u64::MAX, [0, 1, u64::MAX, 1234567890123])).0);
    assert_eq!(line, format!("{} 0 1 {} 1234567890123\n", u64::MAX, u64::MAX));
    assert_eq!(text(agent.close()), "");
}

#[test]
fn latency_mode_keeps_the_extremes() {
    let mut agent = PersistenceAgent::new(None, pers_measurament_to_flag("latency").unwrap(), &10_000_000);
    for id in 1..=3 {
        assert_eq!(agent.write(stamped(id, [0, 100, 200, 300])), (Vec::new(), Ok(())));
    }
    let report = text(agent.close());
    let lines: Vec<&str> = report.lines().collect();
    assert_eq!(lines.len(), 2);
    assert_eq!(lines[0], "1: 0 64 C8 12C (LATENCY 64 ns)");
    assert_eq!(lines[1], "1: 0 64 C8 12C (LATENCY 64 ns)");
}

#[test]
fn latency_mode_names_the_witnesses() {
    let mut data = persistence_init_min_max_latency();
    assert_eq!(text(persistence_close_min_max(&data)), "");
    PersistenceAgent::write_latency(&mut data, stamped(10, [0, 10, 20, 70]));
    PersistenceAgent::write_latency(&mut data, stamped(11, [0, 10, 20, 30]));
    PersistenceAgent::write_latency(&mut data, stamped(12, [0, 10, 20, 530]));
    assert_eq!(data.min, 10);
    assert_eq!(data.max, 260);
    assert_eq!(data.min_payload.unwrap().id, 11);
    assert_eq!(data.max_payload.unwrap().id, 12);
    assert_eq!(
        text(persistence_close_min_max(&data)),
        "B: 0 A 14 1E (LATENCY A ns)\nC: 0 A 14 212 (LATENCY 104 ns)\n"
    );
}

#[test]
fn latency_of_zero_has_both_witnesses() {
    let mut data = persistence_init_min_max_latency();
    let p = stamped(1, [7, 7, 7, 7]);
    PersistenceAgent::write_latency(&mut data, p);
    assert_eq!((data.min, data.max), (0, 0));
    assert_eq!(data.min_payload, Some(p));
    assert_eq!(data.max_payload, Some(p));
    assert_eq!(
        text(persistence_close_min_max(&data)),
        "1: 7 7 7 7 (LATENCY 0 ns)\n1: 7 7 7 7 (LATENCY 0 ns)\n"
    );
}

#[test]
fn largest_possible_latency_is_a_minimum_too() {
    let mut data = persistence_init_min_max_latency();
    let p = stamped(2, [0, 0, 0, u64::MAX]);
    PersistenceAgent::write_latency(&mut data, p);
    assert_eq!((data.min, data.max), (u64::MAX / 2, u64::MAX / 2));
    assert_eq!(data.min_payload, Some(p));
    PersistenceAgent::write_latency(&mut data, stamped(3, [0, 0, 0, u64::MAX]));
    assert_eq!(data.min_payload, Some(p));
    assert_eq!(data.max_payload, Some(p));
}

#[test]
fn buckets_mode_reports_totals_and_ranges() {
    let interval: u32 = 100_000;
    let mut agent = PersistenceAgent::new(None, pers_measurament_to_flag("buckets").unwrap(), &interval);
    for id in 1..=1000u64 {
        let t0 = id * 100_000;
        assert!(agent.has_room());
        assert_eq!(agent.write(stamped(id, [t0, t0 + 10, t0 + 20, t0 + 130])), (Vec::new(), Ok(())));
    }
    let report = text(agent.close());
    let lines: Vec<&str> = report.lines().collect();
    assert_eq!(lines.len(), 5 + 20002);
    assert_eq!(lines[0], "TOT 1000");
    assert_eq!(lines[1], "REL 0 1100000 55");
    assert_eq!(lines[2], "ABS 0 1100000 55");
    assert_eq!(lines[3], "MIN 100000 100000 100000 100000 60");
    assert_eq!(lines[4], "MAX 100000 100000 100000 100000 60");
    // bucket 0 (underflow) and the overflow bucket stay empty
    assert_eq!(lines[5], "0 0 0 0 0");
    assert_eq!(lines[5 + 20001], "0 0 0 0 0");
    // the first packet has no relative latency; latency 60 is in bucket 1 + 60 / 55 = 2
    assert_eq!(lines[5 + 1], "0 0 0 0 0");
    assert_eq!(lines[5 + 2], "0 0 0 0 1000");
    // a delta of 100_000 is in bucket 1 + 100_000 / 55 = 1819
    assert_eq!(lines[5 + 1819], "999 999 999 999 0");
}

#[test]
fn first_payload_has_no_predecessor() {
    let mut data = persistence_init_buckets(5_000_000);
    assert!(data.prev_payload.is_none());
    let p = stamped(1, [1_000, 2_000, 3_000, 4_000]);
    assert_eq!(PersistenceAgent::write_buckets(&mut data, p), Ok(()));
    assert_eq!(data.tot_packets, 1);
    assert_eq!(data.prev_payload, Some(p));
    // no relative latency is computed for it
    for b in &data.buckets {
        assert_eq!(b.rel_latency, [0, 0, 0, 0]);
    }
    assert_eq!(data.min_values.rel_latency, [u64::MAX; 4]);
    assert_eq!(data.max_values.rel_latency, [0, 0, 0, 0]);
    assert_eq!(data.min_values.abs_latency, 1_000);
    assert_eq!(data.buckets[1 + 1_000 / 300].abs_latency, 1);
}

#[test]
fn decreasing_timestamp_is_reported_and_seen() {
    let mut data = persistence_init_buckets(100_000);
    let first = stamped(1, [500, 600, 700, 800]);
    let second = stamped(2, [400, 900, 1000, 1100]);
    assert_eq!(PersistenceAgent::write_buckets(&mut data, first), Ok(()));
    assert_eq!(PersistenceAgent::write_buckets(&mut data, second), Err(WriteError::NotMonotonic));
    assert_eq!(data.tot_packets, 2);
    assert_eq!(data.prev_payload, Some(second));
    let counted: u64 = data.buckets.iter().map(|b| b.abs_latency).sum();
    assert_eq!(counted, 1);
    // the next payload is measured against the rejected one
    let third = stamped(3, [450, 950, 1050, 1150]);
    assert_eq!(PersistenceAgent::write_buckets(&mut data, third), Ok(()));
    assert_eq!(data.max_values.rel_latency, [50, 50, 50, 50]);
}

#[test]
fn invalid_payload_is_reported_and_becomes_predecessor() {
    let mut data = persistence_init_buckets(100_000);
    let mut bad = stamped(1, [1, 2, 3, 4]);
    bad.magic = 0xDEADBEEF;
    assert_eq!(PersistenceAgent::write_buckets(&mut data, bad), Err(WriteError::InvalidPayload));
    assert_eq!(data.tot_packets, 1);
    assert_eq!(data.prev_payload, Some(bad));
    let counted: u64 = data.buckets.iter().map(|b| b.abs_latency).sum();
    assert_eq!(counted, 0);
}

#[test]
fn agent_in_buckets_mode_reports_and_goes_on() {
    let mut agent = PersistenceAgent::new(None, 16, &100_000);
    assert_eq!(agent.write(stamped(1, [500, 600, 700, 800])), (Vec::new(), Ok(())));
    assert_eq!(
        agent.write(stamped(2, [400, 900, 1000, 1100])),
        (Vec::new(), Err(WriteError::NotMonotonic))
    );
    let mut bad = stamped(3, [1, 2, 3, 4]);
    bad.magic = 1;
    assert_eq!(agent.write(bad), (Vec::new(), Err(WriteError::InvalidPayload)));
    assert_eq!(agent.write(stamped(4, [1, 2, 3, 4])), (Vec::new(), Ok(())));
    assert_eq!(buckets_of(&agent).tot_packets, 4);
    assert!(text(agent.close()).starts_with("TOT 4\n"));
}

#[test]
fn split_runs_merge_to_the_whole_run() {
    let run: Vec<PingPongPayload> = (1..=40u64)
        .map(|id| {
            let t0 = id * 700_000 + (id % 7) * 90_000;
            stamped(id, [t0, t0 + 40, t0 + 90, t0 + 200 + (id % 5) * 400_000])
        })
        .collect();
    let mut whole = persistence_init_buckets(700_000);
    for p in &run {
        let _ = PersistenceAgent::write_buckets(&mut whole, *p);
    }
    let (head, tail) = run.split_at(17);
    let mut first = persistence_init_buckets(700_000);
    for p in head {
        let _ = PersistenceAgent::write_buckets(&mut first, *p);
    }
    let mut second = persistence_init_buckets(700_000);
    second.prev_payload = first.prev_payload;
    for p in tail {
        let _ = PersistenceAgent::write_buckets(&mut second, *p);
    }
    assert_eq!(whole.tot_packets, first.tot_packets + second.tot_packets);
    for k in 0..whole.buckets.len() {
        for a in 0..4 {
            assert_eq!(
                whole.buckets[k].rel_latency[a],
                first.buckets[k].rel_latency[a] + second.buckets[k].rel_latency[a]
            );
        }
        assert_eq!(
            whole.buckets[k].abs_latency,
            first.buckets[k].abs_latency + second.buckets[k].abs_latency
        );
    }
}

#[test]
fn fresh_reducers_merge_on_the_absolute_axis() {
    let run: Vec<PingPongPayload> = (1..=30u64)
        .map(|id| {
            let t0 = id * 1_000_000;
            stamped(id, [t0, t0 + 10, t0 + 20, t0 + 100 + (id % 4) * 300_000])
        })
        .collect();
    let mut whole = persistence_init_buckets(1_000_000);
    let mut first = persistence_init_buckets(1_000_000);
    let mut second = persistence_init_buckets(1_000_000);
    for (n, p) in run.iter().enumerate() {
        assert_eq!(PersistenceAgent::write_buckets(&mut whole, *p), Ok(()));
        let part = if n < 11 { &mut first } else { &mut second };
        assert_eq!(PersistenceAgent::write_buckets(part, *p), Ok(()));
    }
    assert_eq!(whole.tot_packets, first.tot_packets + second.tot_packets);
    for k in 0..whole.buckets.len() {
        assert_eq!(
            whole.buckets[k].abs_latency,
            first.buckets[k].abs_latency + second.buckets[k].abs_latency
        );
    }
    assert_eq!(
        whole.min_values.abs_latency,
        first.min_values.abs_latency.min(second.min_values.abs_latency)
    );
    assert_eq!(
        whole.max_values.abs_latency,
        first.max_values.abs_latency.max(second.max_values.abs_latency)
    );
    // the relative axes differ by the first payload of the second part
    let rel = |d: &BucketData| d.buckets.iter().map(|b| b.rel_latency[0]).sum::<u64>();
    assert_eq!(rel(&whole), rel(&first) + rel(&second) + 1);
}

#[test]
fn histogram_report_of_an_empty_run() {
    let data = persistence_init_buckets(2_000_000);
    let report = text(persistence_close_buckets(&data));
    let max = u64::MAX;
    let head = format!(
        "TOT 0\nREL 1000000 3000000 100\nABS 0 3000000 150\nMIN {max} {max} {max} {max} {max}\nMAX 0 0 0 0 0\n"
    );
    assert!(report.starts_with(&head));
    assert_eq!(report.len(), head.len() + 20002 * "0 0 0 0 0\n".len());
}
