use det_bypass::common_net::{build_base_packet, echo_frame, eth_ip_info, exchange_eth_ip_addresses, pingpong_frame};
use det_bypass::mac::parse_mac;
use det_bypass::payload::PingPongPayload;

const SRC_MAC: [u8; 6] = [0x02, 0x11, 0x22, 0x33, 0x44, 0x55];
const DST_MAC: [u8; 6] = [0x0a, 0x0b, 0x0c, 0x0d, 0x0e, 0x0f];

#[test]
fn address_record_is_mac_then_ip() {
    assert_eq!(
        eth_ip_info(SRC_MAC, 0xC0A80001),
        [0x02, 0x11, 0x22, 0x33, 0x44, 0x55, 0x01, 0x00, 0xA8, 0xC0]
    );
}

#[test]
fn peer_record_is_read_as_it_is_written() {
    let mut reply = [0u8; 1024];
    reply[..10].copy_from_slice(&[0x0a, 0x0b, 0x0c, 0x0d, 0x0e, 0x0f, 0x02, 0x00, 0xA8, 0xC0]);
    assert_eq!(
        exchange_eth_ip_addresses(SRC_MAC, 7, &reply),
        (SRC_MAC, 7, DST_MAC, 0xC0A80002)
    );
}

#[test]
fn exchanged_addresses_come_back_unchanged() {
    for ip in [0u32, 1, 0x01000000, 0xC0A80001, u32::MAX] {
        let record = eth_ip_info(DST_MAC, ip);
        assert_eq!(exchange_eth_ip_addresses(SRC_MAC, 7, &record), (SRC_MAC, 7, DST_MAC, ip));
    }
}

#[test]
fn base_packet_has_the_pingpong_headers() {
    let buf = build_base_packet(SRC_MAC, 0x0A000001, DST_MAC, 0x0A000002);
    assert_eq!(buf.len(), 1024);
    assert_eq!(&buf[0..6], &DST_MAC);
    assert_eq!(&buf[6..12], &SRC_MAC);
    assert_eq!(&buf[12..14], &0x2002u16.to_le_bytes());
    assert_eq!(buf[14], 0x45);
    assert_eq!(buf[15], 0);
    assert_eq!(&buf[16..18], &1010u16.to_le_bytes());
    assert_eq!(&buf[18..22], &[0, 0, 0, 0]);
    assert_eq!(buf[22], 64);
    assert_eq!(buf[23], 255);
    assert_eq!(&buf[24..26], &[0, 0]);
    assert_eq!(&buf[26..30], &0x0A000001u32.to_le_bytes());
    assert_eq!(&buf[30..34], &0x0A000002u32.to_le_bytes());
    assert!(buf[34..].iter().all(|b| *b == 0));
}

#[test]
fn frame_carries_id_and_fresh_payload() {
    let base = build_base_packet(SRC_MAC, 1, DST_MAC, 2);
    let (frame, payload) = pingpong_frame(&base, 0x1_0203, 999);
    assert_eq!(payload.id, 0x1_0203);
    assert_eq!(payload.ts, [999, 0, 0, 0]);
    assert_eq!(payload.phase, 0);
    assert!(payload.is_valid());
    assert_eq!(&frame[..18], &base[..18]);
    assert_eq!(&frame[18..20], &[0x03, 0x02]);
    assert_eq!(&frame[20..34], &base[20..34]);
    assert_eq!(&frame[34..82], &payload.serialize());
    assert_eq!(PingPongPayload::deserialize(&frame[34..]), payload);
    assert!(frame[82..].iter().all(|b| *b == 0));
}

#[test]
fn mac_text_of_six_hex_fields() {
    assert_eq!(parse_mac(b"02:11:22:33:44:55\n"), Some(SRC_MAC));
    assert_eq!(parse_mac(b"  0A:0b:0C:0d:0E:0f \t\r\n"), Some(DST_MAC));
    assert_eq!(parse_mac(b"0:1:2:3:4:ff"), Some([0, 1, 2, 3, 4, 255]));
    assert_eq!(parse_mac(b"+1:001:2:3:4:00ff"), Some([1, 1, 2, 3, 4, 255]));
}

#[test]
fn mac_text_with_wrong_field_count() {
    assert_eq!(parse_mac(b""), None);
    assert_eq!(parse_mac(b"02:11:22:33:44"), None);
    assert_eq!(parse_mac(b"02:11:22:33:44:55:66"), None);
    assert_eq!(parse_mac(b"02:11:22:33:44:55:"), None);
}

#[test]
fn mac_text_with_bad_field() {
    assert_eq!(parse_mac(b"02:11:22:33:44:5g"), None);
    assert_eq!(parse_mac(b"02:11::33:44:55"), None);
    assert_eq!(parse_mac(b"02:11:100:33:44:55"), None);
    assert_eq!(parse_mac(b"02:11:-1:33:44:55"), None);
    assert_eq!(parse_mac(b"02:11:+:33:44:55"), None);
    assert_eq!(parse_mac(b"02:11:2 2:33:44:55"), None);
}

#[test]
fn answer_frame_carries_the_answer() {
    let base = build_base_packet(SRC_MAC, 1, DST_MAC, 2);
    let mut answer = PingPongPayload::new(12);
    answer.ts = [1, 2, 3, 0];
    answer.phase = 2;
    let frame = echo_frame(&base, &answer);
    assert_eq!(&frame[..34], &base[..34]);
    assert_eq!(PingPongPayload::deserialize(&frame[34..]), answer);
    assert!(frame[82..].iter().all(|b| *b == 0));
}
