use det_bypass::payload::PingPongPayload;
use det_bypass::xdp::XdpAction;
use det_bypass::xdp_udp::{ipv4_header_sum, is_pingpong_datagram, try_pure_client, try_xdp_test};

fn datagram(p: &PingPongPayload) -> Vec<u8> {
    let mut f = vec![0u8; 128];
    f[0..6].copy_from_slice(&[1, 2, 3, 4, 5, 6]);
    f[6..12].copy_from_slice(&[7, 8, 9, 10, 11, 12]);
    f[12] = 0x08;
    f[13] = 0x00;
    f[14] = 0x45;
    f[22] = 3;
    f[23] = 17;
    f[24] = 0xaa;
    f[25] = 0xbb;
    f[26..30].copy_from_slice(&[10, 0, 0, 1]);
    f[30..34].copy_from_slice(&[10, 0, 0, 2]);
    f[34..36].copy_from_slice(&[0x11, 0x22]);
    f[36..38].copy_from_slice(&1234u16.to_be_bytes());
    f[38..40].copy_from_slice(&[0, 56]);
    f[40..42].copy_from_slice(&[0xcc, 0xdd]);
    f[42..90].copy_from_slice(&p.serialize());
    for i in 90..128 {
        f[i] = i as u8;
    }
    f
}

fn request(id: u64) -> PingPongPayload {
    let mut p = PingPongPayload::new(id);
    p.ts[0] = 100;
    p
}

#[test]
fn server_filter_answers_a_request() {
    let f = datagram(&request(9));
    assert!(is_pingpong_datagram(&f));
    let (action, out) = try_xdp_test(&f, 200, 300);
    assert_eq!(action, XdpAction::Tx);
    assert_eq!(out.len(), f.len());
    assert_eq!(&out[0..6], &f[6..12]);
    assert_eq!(&out[6..12], &f[0..6]);
    assert_eq!(&out[12..22], &f[12..22]);
    assert_eq!(out[22], 64);
    assert_eq!(out[23], 17);
    // the header checks: its words, the checksum among them, add up to all ones
    let mut folded: u32 = out[14..34].chunks(2).map(|w| u32::from(w[0]) << 8 | u32::from(w[1])).sum();
    while folded >> 16 != 0 {
        folded = (folded & 0xffff) + (folded >> 16);
    }
    assert_eq!(folded, 0xffff);
    // 0x4500 + 0x4011 + 0x0a00 + 0x0002 + 0x0a00 + 0x0001 = 0x9914
    assert_eq!(&out[24..26], &[0x66, 0xeb]);
    assert_eq!(&out[26..30], &[10, 0, 0, 2]);
    assert_eq!(&out[30..34], &[10, 0, 0, 1]);
    assert_eq!(&out[34..36], &[0x04, 0xd2]);
    assert_eq!(&out[36..38], &[0x04, 0xd2]);
    assert_eq!(&out[38..40], &f[38..40]);
    assert_eq!(&out[40..42], &[0, 0]);
    let q = PingPongPayload::deserialize(&out[42..]);
    assert_eq!((q.id, q.ts, q.phase), (9, [100, 200, 300, 0], 2));
    assert!(q.is_valid());
    assert_eq!(&out[90..], &f[90..]);
}

#[test]
fn server_filter_bounces_everything_else() {
    let mut p = request(9);
    p.magic = 0xDEADBEEF;
    let f = datagram(&p);
    assert_eq!(try_xdp_test(&f, 1, 2), (XdpAction::Tx, f.clone()));
    let mut f = datagram(&request(9));
    f[23] = 6;
    assert_eq!(try_xdp_test(&f, 1, 2), (XdpAction::Tx, f.clone()));
    let mut f = datagram(&request(9));
    f[36..38].copy_from_slice(&1234u16.to_le_bytes());
    assert_eq!(try_xdp_test(&f, 1, 2), (XdpAction::Tx, f.clone()));
    let f = datagram(&request(9))[..89].to_vec();
    assert_eq!(try_xdp_test(&f, 1, 2), (XdpAction::Tx, f.clone()));
    let mut answered = request(9);
    answered.phase = 2;
    let f = datagram(&answered);
    assert_eq!(try_xdp_test(&f, 1, 2), (XdpAction::Tx, f.clone()));
}

#[test]
fn client_filter_stamps_an_answer() {
    let mut p = request(4);
    p.ts = [100, 200, 300, 0];
    p.phase = 2;
    let f = datagram(&p);
    let (action, out) = try_pure_client(&f, 400);
    assert_eq!(action, XdpAction::Pass);
    assert_eq!(&out[..42], &f[..42]);
    assert_eq!(&out[90..], &f[90..]);
    let q = PingPongPayload::deserialize(&out[42..]);
    assert_eq!((q.id, q.ts, q.phase), (4, [100, 200, 300, 400], 2));
}

#[test]
fn header_sum_adds_the_ten_words() {
    let mut h = [0u8; 20];
    assert_eq!(ipv4_header_sum(&h), 0);
    h[0] = 0x45;
    h[1] = 0x01;
    h[18] = 0xff;
    h[19] = 0xfe;
    assert_eq!(ipv4_header_sum(&h), 0x4501 + 0xfffe);
    assert_eq!(ipv4_header_sum(&[0xff; 20]), 10 * 0xffff);
}

#[test]
fn client_filter_stamps_whatever_the_phase() {
    let f = datagram(&request(4));
    let (action, out) = try_pure_client(&f, 400);
    assert_eq!(action, XdpAction::Pass);
    let q = PingPongPayload::deserialize(&out[42..]);
    assert_eq!((q.id, q.ts, q.phase), (4, [100, 0, 0, 400], 0));
}

#[test]
fn client_filter_passes_everything_else_untouched() {
    let mut bad = request(4);
    bad.magic = 7;
    let f = datagram(&bad);
    assert_eq!(try_pure_client(&f, 400), (XdpAction::Pass, f.clone()));
    let mut f = datagram(&request(4));
    f[12] = 0x86;
    assert!(!is_pingpong_datagram(&f));
    assert_eq!(try_pure_client(&f, 400), (XdpAction::Pass, f.clone()));
    assert_eq!(try_pure_client(&[], 400), (XdpAction::Pass, Vec::new()));
}
