use det_bypass::bitset::{bitset_set, bitset_test};
use det_bypass::completion::{
    advance_recv_count, after_repost, check_wc, client_receive, has_phase, mark_send_posted,
    no_waiting,
    parse_single_wc, parse_single_wc_client, parse_single_wc_server, rc_completion,
    receives_to_post, recv_slot_offset, recv_wr_id, run_complete, send_wr_id, sends_inline,
    server_echo, Action, Completion, CompletionError,
};
use det_bypass::payload::PingPongPayload;
use det_bypass::pingpong_context::{poll_result, u32_to_mtu, Mtu, PollingError};

#[test]
fn poll_codes() {
    assert_eq!(poll_result(0), Ok(()));
    assert_eq!(poll_result(2), Err(PollingError::Enoent));
    assert_eq!(poll_result(12), Err(PollingError::Other(12)));
    assert_eq!(poll_result(-1), Err(PollingError::Other(-1)));
}

#[test]
fn mtu_numbers() {
    assert_eq!(u32_to_mtu(0), None);
    assert_eq!(u32_to_mtu(1), Some(Mtu::Mtu256));
    assert_eq!(u32_to_mtu(2), Some(Mtu::Mtu512));
    assert_eq!(u32_to_mtu(3), Some(Mtu::Mtu1024));
    assert_eq!(u32_to_mtu(4), Some(Mtu::Mtu2048));
    assert_eq!(u32_to_mtu(5), Some(Mtu::Mtu4096));
    assert_eq!(u32_to_mtu(6), None);
}

#[test]
fn reliable_connected_completions() {
    assert_eq!(rc_completion(0, 1), Ok(Completion::Received(0)));
    assert_eq!(rc_completion(0, 2), Ok(Completion::Sent(0)));
    assert_eq!(rc_completion(0, 3), Err(CompletionError::UnknownWrId(3)));
    assert_eq!(rc_completion(5, 1), Err(CompletionError::Failed { status: 5, wr_id: 1 }));
}

#[test]
fn reliable_connected_step_counts_the_receives() {
    assert_eq!(parse_single_wc(0, 1, true, 500), Ok((Action::Deliver(0), 499, 0)));
    assert_eq!(parse_single_wc(0, 1, false, 500), Ok((Action::Echo(0), 499, 0)));
    assert_eq!(parse_single_wc(0, 1, false, 3), Ok((Action::Echo(0), 2, 0)));
    assert_eq!(parse_single_wc(0, 1, true, 2), Ok((Action::Deliver(0), 1, 499)));
    assert_eq!(parse_single_wc(0, 1, true, 1), Ok((Action::Deliver(0), 0, 500)));
    assert_eq!(parse_single_wc(0, 2, true, 2), Ok((Action::Idle, 2, 0)));
    assert_eq!(parse_single_wc(0, 2, false, 500), Ok((Action::Idle, 500, 0)));
    assert_eq!(parse_single_wc(0, 0, false, 7), Err(CompletionError::UnknownWrId(0)));
    assert_eq!(
        parse_single_wc(9, 2, false, 7),
        Err(CompletionError::Failed { status: 9, wr_id: 2 })
    );
    assert_eq!(
        parse_single_wc(9, 1, true, 1),
        Err(CompletionError::Failed { status: 9, wr_id: 1 })
    );
}

#[test]
fn datagram_completions() {
    assert_eq!(check_wc(0, 0), Ok(Completion::Sent(0)));
    assert_eq!(check_wc(0, 127), Ok(Completion::Sent(127)));
    assert_eq!(check_wc(0, 128), Ok(Completion::Received(0)));
    assert_eq!(check_wc(0, 255), Ok(Completion::Received(127)));
    assert_eq!(check_wc(0, 256), Err(CompletionError::UnknownWrId(256)));
    assert_eq!(check_wc(1, 256), Err(CompletionError::Failed { status: 1, wr_id: 256 }));
    for slot in 0..128 {
        assert_eq!(check_wc(0, send_wr_id(slot)), Ok(Completion::Sent(slot)));
        assert_eq!(check_wc(0, recv_wr_id(slot)), Ok(Completion::Received(slot)));
    }
    assert_eq!(recv_slot_offset(0), 0);
    assert_eq!(recv_slot_offset(127), 127 * 1024);
    assert!(sends_inline(1024));
    assert!(!sends_inline(1023));
}

#[test]
fn receive_queue_is_refilled_when_it_runs_low() {
    assert_eq!(receives_to_post(500), (499, 0));
    assert_eq!(receives_to_post(3), (2, 0));
    assert_eq!(receives_to_post(2), (1, 499));
    assert_eq!(receives_to_post(1), (0, 500));
    assert_eq!(after_repost(1, 499), Ok(500));
    assert_eq!(after_repost(1, 498), Err(CompletionError::NotEnoughReceives(499)));
    assert_eq!(after_repost(0, 0), Err(CompletionError::NotEnoughReceives(0)));
}

#[test]
fn receive_count_follows_the_highest_id() {
    assert_eq!(advance_recv_count(0, 1), 1);
    assert_eq!(advance_recv_count(5, 3), 5);
    assert_eq!(advance_recv_count(5, 9), 9);
    assert!(!run_complete(2, 3));
    assert!(run_complete(3, 3));
    assert!(run_complete(0, 0));
}

#[test]
fn client_stamps_every_valid_payload() {
    let mut p = PingPongPayload::new(4);
    p.ts = [1, 2, 3, 0];
    for phase in [0, 1, 2, 7] {
        p.phase = phase;
        let q = client_receive(p, 9).unwrap();
        assert_eq!(q.ts, [1, 2, 3, 9]);
        assert_eq!((q.id, q.phase, q.magic), (4, phase, p.magic));
    }
    p.magic = 0xDEADBEEF;
    assert_eq!(client_receive(p, 9), None);
}

#[test]
fn phase_is_told_apart() {
    let mut p = PingPongPayload::new(4);
    assert!(has_phase(&p, 0));
    assert!(!has_phase(&p, 2));
    p.phase = 2;
    assert!(has_phase(&p, 2));
}

#[test]
fn server_answers_requests_and_drops_the_rest() {
    let mut p = PingPongPayload::new(4);
    p.ts = [1, 0, 0, 0];
    let q = server_echo(p, 5, 6).unwrap();
    assert_eq!(q.ts, [1, 5, 6, 0]);
    assert_eq!((q.id, q.phase, q.magic), (4, 2, p.magic));
    assert_eq!(server_echo(q, 7, 8), None);
    p.magic = 0;
    assert_eq!(server_echo(p, 5, 6), None);
}

#[test]
fn datagram_client_frees_slots_and_delivers() {
    let mut pending = [0u8; 16];
    assert_eq!(mark_send_posted(&mut pending, None), 0);
    assert_eq!(mark_send_posted(&mut pending, Some(77)), 77);
    assert!(bitset_test(&pending, 0) && bitset_test(&pending, 77));
    assert_eq!(parse_single_wc_client(&mut pending, 0, 77), Ok(Action::Idle));
    assert!(bitset_test(&pending, 0) && !bitset_test(&pending, 77));
    assert_eq!(parse_single_wc_client(&mut pending, 0, 128 + 5), Ok(Action::Deliver(5)));
    assert_eq!(
        parse_single_wc_client(&mut pending, 0, 999),
        Err(CompletionError::UnknownWrId(999))
    );
    assert!(bitset_test(&pending, 0));
}

#[test]
fn datagram_server_waits_for_the_last_echo() {
    let mut pending = [0u8; 16];
    let mut waiting = no_waiting();
    assert_eq!(waiting, vec![None; 128]);
    assert_eq!(
        parse_single_wc_server(&mut pending, &mut waiting, 0, 128 + 9, 1000),
        Ok((Action::Echo(9), 1000))
    );
    bitset_set(&mut pending, 9);
    assert_eq!(
        parse_single_wc_server(&mut pending, &mut waiting, 0, 128 + 9, 2000),
        Ok((Action::AwaitSend(9), 0))
    );
    assert_eq!(waiting[9], Some(2000));
    // the echo that was under way has left: the waiting packet goes out with its arrival
    assert_eq!(
        parse_single_wc_server(&mut pending, &mut waiting, 0, 9, 3000),
        Ok((Action::Echo(9), 2000))
    );
    assert!(!bitset_test(&pending, 9));
    assert_eq!(waiting[9], None);
    bitset_set(&mut pending, 9);
    // nothing waits: the slot gets a new receive
    assert_eq!(
        parse_single_wc_server(&mut pending, &mut waiting, 0, 9, 4000),
        Ok((Action::PostRecv(9), 0))
    );
    assert!(!bitset_test(&pending, 9));
    assert_eq!(
        parse_single_wc_server(&mut pending, &mut waiting, 3, 9, 5000),
        Err(CompletionError::Failed { status: 3, wr_id: 9 })
    );
    assert_eq!(waiting, vec![None; 128]);
}
