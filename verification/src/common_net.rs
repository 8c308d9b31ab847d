use network_types::eth::EthHdr;
use network_types::ip::{IpProto, Ipv4Hdr};
use vstd::prelude::*;
use crate::consts::{
    ETH_HDR_LEN, ETH_IP_INFO_PACKET_SIZE, ETH_P_PINGPONG, IPV4_HDR_LEN, PACKET_SIZE,
};
use crate::payload::{spec_serialize, PingPongPayload, PINGPONG_MAGIC};
use crate::wire::{
    copy_into, spec_overlay, spec_u16_to_le_bytes, lemma_u32_le_round_trip, spec_u32_from_le_bytes,
    spec_u32_to_le_bytes, take_array, u16_to_le_bytes, u32_from_le_bytes, u32_to_le_bytes,
};

verus! {

/// Bytes of a MAC address.
pub const ETH_ALEN: usize = 6;

/// Protocol number that marks the IPv4 header of a ping-pong frame: the reserved one.
pub const IPPROTO_RESERVED: u8 = 255;

/// Time to live of a ping-pong frame.
pub const PINGPONG_TTL: u8 = 64;

/// Bytes from the start of a frame to its payload.
pub const PAYLOAD_OFFSET: usize = 34;

/// Reads `network_types::eth::EthHdr::LEN`, the size of the crate's
/// Ethernet header: two addresses of six bytes and a type of two.
#[verifier::external_body]
fn eth_hdr_len() -> (len: usize)
    ensures
        len == ETH_HDR_LEN,
{
    EthHdr::LEN
}

/// Reads `network_types::ip::Ipv4Hdr::LEN`, the size of the crate's IPv4
/// header: the twenty bytes of a header without options.
#[verifier::external_body]
fn ipv4_hdr_len() -> (len: usize)
    ensures
        len == IPV4_HDR_LEN,
{
    Ipv4Hdr::LEN
}

/// Reads the number of `network_types::ip::IpProto::Reserved`, which the
/// crate declares as 255.
#[verifier::external_body]
fn reserved_proto() -> (proto: u8)
    ensures
        proto == IPPROTO_RESERVED,
{
    IpProto::Reserved as u8
}

/// The record that a host sends in the address exchange: its MAC
/// address, then its IPv4 address, least significant byte first.
pub open spec fn spec_eth_ip_info(mac: [u8; 6], ip: u32) -> Seq<u8> {
    mac@ + spec_u32_to_le_bytes(ip)
}

/// The Ethernet and IPv4 headers of a ping-pong frame, every field wider
/// than a byte least significant byte first: destination and source MAC,
/// the ping-pong EtherType, then an IPv4 header of five words, version 4,
/// with the length of the frame behind the Ethernet header, time to live
/// 64, the reserved protocol and no checksum.
pub open spec fn spec_frame_headers(src_mac: [u8; 6], src_ip: u32, dest_mac: [u8; 6], dest_ip: u32) -> Seq<u8> {
    dest_mac@ + src_mac@ + spec_u16_to_le_bytes(ETH_P_PINGPONG) + seq![0x45u8, 0u8]
        + spec_u16_to_le_bytes((PACKET_SIZE - ETH_HDR_LEN) as u16) + seq![0u8, 0u8, 0u8, 0u8]
        + seq![PINGPONG_TTL, IPPROTO_RESERVED, 0u8, 0u8] + spec_u32_to_le_bytes(src_ip)
        + spec_u32_to_le_bytes(dest_ip)
}

/// The frame that every ping-pong packet starts from: the headers, then zeros.
pub open spec fn spec_base_packet(src_mac: [u8; 6], src_ip: u32, dest_mac: [u8; 6], dest_ip: u32) -> Seq<u8> {
    spec_frame_headers(src_mac, src_ip, dest_mac, dest_ip) + Seq::new(
        (PACKET_SIZE - PAYLOAD_OFFSET) as nat,
        |i: int| 0u8,
    )
}

/// The payload that a client sends as packet `id` at time `ts0`.
pub open spec fn spec_fresh_payload(id: u64, ts0: u64, p: PingPongPayload) -> bool {
    &&& p.id == id
    &&& p.ts[0] == ts0
    &&& p.ts[1] == 0
    &&& p.ts[2] == 0
    &&& p.ts[3] == 0
    &&& p.phase == 0
    &&& p.magic == PINGPONG_MAGIC
}

/// The record to send in the address exchange.
pub fn eth_ip_info(src_mac: [u8; 6], src_ip: u32) -> (buffer: [u8; 10])
    ensures
        buffer@ == spec_eth_ip_info(src_mac, src_ip),
{
    let mut buffer: [u8; 10] = [0;10];
    copy_into(&mut buffer, 0, src_mac.as_slice());
    let ip = u32_to_le_bytes(src_ip);
    copy_into(&mut buffer, ETH_ALEN, ip.as_slice());
    assert(buffer@ =~= spec_eth_ip_info(src_mac, src_ip));
    buffer
}

/// Completes the address exchange from the peer's record: returns the
/// local MAC and IPv4 address as given, then the peer's MAC address, the
/// first six bytes of `reply`, and the peer's IPv4 address, the next four
/// bytes read least significant first, as the record is written.
pub fn exchange_eth_ip_addresses(src_mac: [u8; 6], src_ip: u32, reply: &[u8]) -> (r: (
    [u8; 6],
    u32,
    [u8; 6],
    u32,
))
    requires
        reply@.len() >= ETH_IP_INFO_PACKET_SIZE,
    ensures
        r.0 == src_mac,
        r.1 == src_ip,
        r.2@ == reply@.subrange(0, 6),
        r.3 == spec_u32_from_le_bytes(reply@.subrange(6, 10)),
{
    let dest_mac: [u8; 6] = take_array(reply, 0);
    let dest_ip: u32 = u32_from_le_bytes(vstd::slice::slice_subrange(reply, ETH_ALEN, ETH_ALEN + 4));
    (src_mac, src_ip, dest_mac, dest_ip)
}

/// The frame that every ping-pong packet starts from.
pub fn build_base_packet(src_mac: [u8; 6], src_ip: u32, dest_mac: [u8; 6], dest_ip: u32) -> (buf:
    [u8; 1024])
    ensures
        buf@ == spec_base_packet(src_mac, src_ip, dest_mac, dest_ip),
{
    let mut head: Vec<u8> = Vec::new();
    head.extend_from_slice(dest_mac.as_slice());
    head.extend_from_slice(src_mac.as_slice());
    let ether_type = u16_to_le_bytes(ETH_P_PINGPONG);
    head.extend_from_slice(ether_type.as_slice());
    head.push(0x45);
    head.push(0);
    let tot_len = u16_to_le_bytes((PACKET_SIZE - eth_hdr_len()) as u16);
    head.extend_from_slice(tot_len.as_slice());
    head.push(0);
    head.push(0);
    head.push(0);
    head.push(0);
    head.push(PINGPONG_TTL);
    head.push(reserved_proto());
    head.push(0);
    head.push(0);
    let src = u32_to_le_bytes(src_ip);
    head.extend_from_slice(src.as_slice());
    let dst = u32_to_le_bytes(dest_ip);
    head.extend_from_slice(dst.as_slice());
    assert(head@ =~= spec_frame_headers(src_mac, src_ip, dest_mac, dest_ip));
    let mut buf: [u8; 1024] = [0;1024];
    copy_into(&mut buf, 0, head.as_slice());
    assert(buf@ =~= spec_base_packet(src_mac, src_ip, dest_mac, dest_ip));
    buf
}

/// The frame of packet `id`, sent at `ts0`: the base frame with the low
/// 16 bits of `id` as the IPv4 identification and a fresh payload behind
/// the headers.
pub fn pingpong_frame(base: &[u8; 1024], id: u64, ts0: u64) -> (r: ([u8; 1024], PingPongPayload))
    ensures
        spec_fresh_payload(id, ts0, r.1),
        r.0@ == spec_overlay(
            spec_overlay(base@, ETH_HDR_LEN as int + 4, spec_u16_to_le_bytes((id % 0x10000) as u16)),
            PAYLOAD_OFFSET as int,
            spec_serialize(r.1),
        ),
{
    let mut frame: [u8; 1024] = *base;
    let ip_id = u16_to_le_bytes((id % 0x10000) as u16);
    copy_into(&mut frame, eth_hdr_len() + 4, ip_id.as_slice());
    let mut payload = PingPongPayload::new(id);
    payload.set_ts_value(0, ts0);
    let bytes = payload.serialize();
    copy_into(&mut frame, eth_hdr_len() + ipv4_hdr_len(), bytes.as_slice());
    (frame, payload)
}

/// The frame that carries a server's answer: the base frame with the
/// payload behind the headers.
pub fn echo_frame(base: &[u8; 1024], answer: &PingPongPayload) -> (frame: [u8; 1024])
    ensures
        frame@ == spec_overlay(base@, PAYLOAD_OFFSET as int, spec_serialize(*answer)),
{
    let mut frame: [u8; 1024] = *base;
    let bytes = answer.serialize();
    copy_into(&mut frame, eth_hdr_len() + ipv4_hdr_len(), bytes.as_slice());
    frame
}

/// A host that reads the record of a peer learns the peer's addresses:
/// the record that `eth_ip_info` writes for a MAC and an IPv4 address reads
/// back as that MAC and that address.
pub proof fn lemma_exchange_round_trip(mac: [u8; 6], ip: u32)
    ensures
        spec_eth_ip_info(mac, ip).len() == ETH_IP_INFO_PACKET_SIZE,
        spec_eth_ip_info(mac, ip).subrange(0, 6) == mac@,
        spec_u32_from_le_bytes(spec_eth_ip_info(mac, ip).subrange(6, 10)) == ip,
{
    lemma_u32_le_round_trip(ip);
    let record = spec_eth_ip_info(mac, ip);
    assert(record.subrange(0, 6) =~= mac@);
    assert(record.subrange(6, 10) =~= spec_u32_to_le_bytes(ip));
}

} // verus!
