use det_bypass::payload::PingPongPayload;
use det_bypass::post_context::{pp_send_single_packet, send_packet_at, send_single_packet, PostContext, PostError, PostOptions, SendRing};
use det_bypass::bitset::bitset_clear;
use det_bypass::utils::{after_coarse_sleep, coarse_sleep, get_time_ns, send_pause, spin_done, Sender};

#[test]
fn clock_reads_a_time_after_2020() {
    let now = get_time_ns();
    assert!(now > 1_577_836_800_000_000_000);
    assert!(get_time_ns() >= now);
}

#[test]
fn scheduler_gets_what_exceeds_the_threshold() {
    assert_eq!(coarse_sleep(0, 1_000_000), 0);
    assert_eq!(coarse_sleep(1_000_000, 1_000_000), 0);
    assert_eq!(coarse_sleep(1_000_001, 1_000_000), 1);
    assert_eq!(coarse_sleep(10_000_000, 1_000_000), 9_000_000);
}

#[test]
fn rest_of_a_pause_after_the_scheduler() {
    assert_eq!(after_coarse_sleep(10_000_000, 9_000_123), Some(999_877));
    assert_eq!(after_coarse_sleep(10_000_000, 10_000_000), Some(0));
    assert_eq!(after_coarse_sleep(10_000_000, 10_000_001), None);
}

#[test]
fn busy_wait_ends_when_the_time_is_up() {
    assert!(!spin_done(1000, 1499, 500));
    assert!(spin_done(1000, 1500, 500));
    assert!(spin_done(1000, 1000, 0));
    assert!(spin_done(1000, 999, 500));
}

#[test]
fn pause_fills_the_interval() {
    assert_eq!(send_pause(0, 0), 0);
    assert_eq!(send_pause(300, 1000), 700);
    assert_eq!(send_pause(1000, 1000), 0);
    assert_eq!(send_pause(1500, 1000), 0);
}

#[test]
fn sends_are_never_closer_than_the_interval() {
    let interval = 1_000;
    for (start, sent) in [(5_000u64, 5_000u64), (5_000, 5_300), (5_000, 6_000), (5_000, 7_500)] {
        let pause = send_pause(sent - start, interval);
        let wait_start = sent + 7;
        let mut now = wait_start;
        while !spin_done(wait_start, now, pause) {
            now += 1;
        }
        assert!(now - start >= interval);
        if sent - start >= interval {
            assert_eq!(pause, 0);
            assert_eq!(now, wait_start);
        }
    }
}

#[test]
fn sender_hands_out_one_to_n() {
    let mut sender = Sender::new(3);
    assert_eq!(sender.next_id(), Some(1));
    assert_eq!(sender.next_id(), Some(2));
    assert_eq!(sender.next_id(), Some(3));
    assert_eq!(sender.next_id(), None);
    assert_eq!(sender.next_id(), None);
    assert_eq!(Sender::new(0).next_id(), None);
    let mut all = Sender::new(1000);
    let mut ids = Vec::new();
    while let Some(id) = all.next_id() {
        ids.push(id);
    }
    assert_eq!(ids, (1..=1000).collect::<Vec<u64>>());
}

#[test]
fn ring_accepts_one_send_per_slot() {
    let mut ring = SendRing::new(0x4000);
    let mut p = PingPongPayload::new(8);
    p.ts[0] = 55;
    ring.set_send_payload(p);
    assert_eq!(ring.post_send(PostOptions { queue_idx: Some(3), lkey: 9, buf: 0 }), Ok(()));
    assert_eq!(
        ring.post_send(PostOptions { queue_idx: Some(3), lkey: 9, buf: 0 }),
        Err(PostError::RingFull(3))
    );
    assert_eq!(
        ring.post_send(PostOptions { queue_idx: Some(128), lkey: 9, buf: 0 }),
        Err(PostError::NoSuchSlot(128))
    );
    assert_eq!(ring.post_send(PostOptions { queue_idx: None, lkey: 1, buf: 0x9000 }), Ok(()));
    assert_eq!(ring.posted.len(), 2);
    assert_eq!((ring.posted[0].slot, ring.posted[0].lkey, ring.posted[0].buf), (3, 9, 0x4000));
    assert_eq!(ring.posted[0].payload, p);
    assert_eq!((ring.posted[1].slot, ring.posted[1].buf), (0, 0x9000));
    bitset_clear(&mut ring.pending_send, 3);
    assert_eq!(ring.post_send(PostOptions { queue_idx: Some(3), lkey: 9, buf: 0 }), Ok(()));
    assert_eq!(ring.get_send_buf(), 0x4000);
}

#[test]
fn single_packet_is_stamped_and_posted() {
    let mut ring = SendRing::new(64);
    assert_eq!(send_packet_at(7, 1234, 5, &mut ring), Ok(()));
    assert_eq!(ring.payload.id, 7);
    assert_eq!(ring.payload.ts, [1234, 0, 0, 0]);
    assert_eq!(ring.posted[0].payload, ring.payload);
    assert_eq!(send_packet_at(8, 1300, 5, &mut ring), Err(PostError::RingFull(0)));
    assert_eq!(ring.payload.id, 8);
    assert_eq!(ring.posted.len(), 1);
}

#[test]
fn single_packet_carries_the_time_of_the_call() {
    let before = get_time_ns();
    let mut ring = SendRing::new(64);
    assert_eq!(send_single_packet(1, 0, &mut ring), Ok(()));
    let mut other = SendRing::new(64);
    assert_eq!(pp_send_single_packet(2, &mut other), Ok(()));
    let after = get_time_ns();
    assert!(before <= ring.payload.ts[0] && ring.payload.ts[0] <= other.payload.ts[0]);
    assert!(other.payload.ts[0] <= after);
    assert_eq!((ring.payload.id, other.payload.id), (1, 2));
    assert!(ring.payload.is_valid() && ring.payload.phase == 0);
}
